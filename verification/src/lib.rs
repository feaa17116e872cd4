//! Runs a child process while draining its two output pipes without ever
//! blocking: a polling loop reads whatever bytes are pending on stdout and
//! stderr, forwards them to the parent's own streams at once, accumulates
//! them per stream, and interleaves this with a non-blocking check for child
//! termination, so that neither pipe buffer can fill up and stall the child.
//!
//! This crate holds the verified core: the classification of raw read
//! attempts into data / no-data / fatal, and the drain-loop state machine
//! that decides, step by step, what the driving program must do next. The
//! driving program performs the actual reads, writes, polls and sleeps and
//! feeds their results back as events.

pub mod read;
pub mod machine;
pub mod laws;
