//! The drain loop as a state machine.
//!
//! One iteration of the loop, in fixed order: attempt a non-blocking read on
//! the child's stdout (forwarding and accumulating whatever arrived), the
//! same for stderr, then a non-blocking poll for child termination, then a
//! short sleep. The poll comes after both drains on purpose: output produced
//! right up to the child's exit is collected in the very iteration that
//! observes the exit, so nothing is lost.
//!
//! The machine itself performs no I/O. [`DrainLoop::step`] consumes one
//! [`Event`] — the result of the I/O action the driver was told to perform —
//! and answers with the next [`Action`]. The driver owns the pipe handles,
//! the child handle and the parent streams, and only executes actions.

use vstd::prelude::*;

use crate::read::{ReadEvent, ReadEventModel, ReadOutcome, ReadOutcomeModel, classify, outcome_of};

verus! {

/// The ways a run can fail. Every failure is fatal: there is no retry
/// anywhere in the loop.
#[derive(Clone, Copy, PartialEq, Eq, Structural, Debug)]
pub enum Failure {
    /// The child could not be launched; the run aborts before any drain.
    Spawn,
    /// A pipe handle could not be put into non-blocking mode at startup.
    Configuration,
    /// An unrecoverable pipe read error on either stream.
    Read,
    /// The child's status could not be queried.
    ExitQuery,
    /// Forwarded bytes could not be written to the parent's stream.
    Write,
}

/// The run's overall state. `Running` is the only non-terminal state.
#[derive(Clone, Copy, PartialEq, Eq, Structural, Debug)]
pub enum RunState {
    Running,
    /// The child exited with this code, and both streams were drained up to
    /// the iteration in which the exit was observed.
    Exited(i32),
    Failed(Failure),
}

/// What a non-blocking poll of the child reported.
#[derive(Clone, Copy, PartialEq, Eq, Structural, Debug)]
pub enum PollEvent {
    StillRunning,
    Exited(i32),
    QueryError,
}

/// Where in the fixed per-iteration order the machine stands: which I/O
/// action it awaits the result of.
#[derive(Clone, Copy, PartialEq, Eq, Structural, Debug)]
pub enum Phase {
    /// Awaiting a non-blocking read attempt on the child's stdout.
    DrainOut,
    /// Awaiting the write-and-flush of the pending stdout bytes.
    ForwardOut,
    /// Awaiting a non-blocking read attempt on the child's stderr.
    DrainErr,
    /// Awaiting the write-and-flush of the pending stderr bytes.
    ForwardErr,
    /// Awaiting a non-blocking poll for child termination.
    Poll,
    /// Awaiting the end of the short between-iterations sleep.
    Rest,
}

/// The result of the I/O action the driver was told to perform.
pub enum Event {
    /// A read attempt on the stream the current phase names.
    ReadAttempt(ReadEvent),
    /// Whether forwarding the pending bytes (write, then flush) succeeded.
    WriteDone(bool),
    /// What the child-termination poll reported.
    Polled(PollEvent),
    /// The between-iterations sleep finished.
    Slept,
}

/// Spec-level image of an event, with read bytes as a sequence.
pub enum EventModel {
    ReadAttempt(ReadEventModel),
    WriteDone(bool),
    Polled(PollEvent),
    Slept,
}

impl View for Event {
    type V = EventModel;

    open spec fn view(&self) -> EventModel {
        match self {
            Event::ReadAttempt(rev) => EventModel::ReadAttempt(rev@),
            Event::WriteDone(ok) => EventModel::WriteDone(*ok),
            Event::Polled(pe) => EventModel::Polled(*pe),
            Event::Slept => EventModel::Slept,
        }
    }
}

/// The next I/O action the driver must perform. For the two forward actions
/// the bytes to write are the machine's pending chunk,
/// [`DrainLoop::pending_bytes`]. `Report` means a terminal state is reached:
/// stop driving and report the outcome.
#[derive(Clone, Copy, PartialEq, Eq, Structural, Debug)]
pub enum Action {
    ReadStdout,
    ForwardStdout,
    ReadStderr,
    ForwardStderr,
    PollChild,
    Sleep,
    Report,
}

/// Spec-level image of the whole machine.
pub struct LoopModel {
    pub state: RunState,
    pub phase: Phase,
    /// Bytes read but not yet forwarded; nonempty only in a forward phase.
    pub pending: Seq<u8>,
    /// Everything accumulated from the child's stdout, in read order.
    pub out_acc: Seq<u8>,
    /// Everything accumulated from the child's stderr, in read order.
    pub err_acc: Seq<u8>,
}

/// A fresh machine: running, about to drain stdout, nothing accumulated.
pub open spec fn init_model() -> LoopModel {
    LoopModel {
        state: RunState::Running,
        phase: Phase::DrainOut,
        pending: Seq::empty(),
        out_acc: Seq::empty(),
        err_acc: Seq::empty(),
    }
}

/// What one step appends to the stdout accumulator: the pending chunk,
/// exactly when the machine awaits the stdout forward and the driver reports
/// that the write succeeded.
pub open spec fn out_append(m: LoopModel, ev: EventModel) -> Seq<u8> {
    if m.state is Running && m.phase is ForwardOut && ev matches EventModel::WriteDone(true) {
        m.pending
    } else {
        Seq::empty()
    }
}

/// The stderr counterpart of [`out_append`].
pub open spec fn err_append(m: LoopModel, ev: EventModel) -> Seq<u8> {
    if m.state is Running && m.phase is ForwardErr && ev matches EventModel::WriteDone(true) {
        m.pending
    } else {
        Seq::empty()
    }
}

/// The transition function. Terminal states absorb every event; an event
/// that does not belong to the current phase changes nothing.
pub open spec fn spec_step(m: LoopModel, ev: EventModel) -> LoopModel {
    if !(m.state is Running) {
        m
    } else {
        match m.phase {
            Phase::DrainOut => match ev {
                EventModel::ReadAttempt(rev) => match outcome_of(rev) {
                    ReadOutcomeModel::Data(bytes) => (LoopModel {
                        phase: Phase::ForwardOut,
                        pending: bytes,
                        ..m
                    }),
                    ReadOutcomeModel::NoData => (LoopModel { phase: Phase::DrainErr, ..m }),
                    ReadOutcomeModel::Failed => (LoopModel {
                        state: RunState::Failed(Failure::Read),
                        ..m
                    }),
                },
                _ => m,
            },
            Phase::ForwardOut => match ev {
                EventModel::WriteDone(ok) => if ok {
                    (LoopModel {
                        phase: Phase::DrainErr,
                        pending: Seq::empty(),
                        out_acc: m.out_acc + m.pending,
                        ..m
                    })
                } else {
                    (LoopModel { state: RunState::Failed(Failure::Write), ..m })
                },
                _ => m,
            },
            Phase::DrainErr => match ev {
                EventModel::ReadAttempt(rev) => match outcome_of(rev) {
                    ReadOutcomeModel::Data(bytes) => (LoopModel {
                        phase: Phase::ForwardErr,
                        pending: bytes,
                        ..m
                    }),
                    ReadOutcomeModel::NoData => (LoopModel { phase: Phase::Poll, ..m }),
                    ReadOutcomeModel::Failed => (LoopModel {
                        state: RunState::Failed(Failure::Read),
                        ..m
                    }),
                },
                _ => m,
            },
            Phase::ForwardErr => match ev {
                EventModel::WriteDone(ok) => if ok {
                    (LoopModel {
                        phase: Phase::Poll,
                        pending: Seq::empty(),
                        err_acc: m.err_acc + m.pending,
                        ..m
                    })
                } else {
                    (LoopModel { state: RunState::Failed(Failure::Write), ..m })
                },
                _ => m,
            },
            Phase::Poll => match ev {
                EventModel::Polled(pe) => match pe {
                    PollEvent::StillRunning => (LoopModel { phase: Phase::Rest, ..m }),
                    PollEvent::Exited(code) => (LoopModel {
                        state: RunState::Exited(code),
                        ..m
                    }),
                    PollEvent::QueryError => (LoopModel {
                        state: RunState::Failed(Failure::ExitQuery),
                        ..m
                    }),
                },
                _ => m,
            },
            Phase::Rest => match ev {
                EventModel::Slept => (LoopModel { phase: Phase::DrainOut, ..m }),
                _ => m,
            },
        }
    }
}

/// Which I/O action a machine in this state asks of its driver.
pub open spec fn action_of(m: LoopModel) -> Action {
    if !(m.state is Running) {
        Action::Report
    } else {
        match m.phase {
            Phase::DrainOut => Action::ReadStdout,
            Phase::ForwardOut => Action::ForwardStdout,
            Phase::DrainErr => Action::ReadStderr,
            Phase::ForwardErr => Action::ForwardStderr,
            Phase::Poll => Action::PollChild,
            Phase::Rest => Action::Sleep,
        }
    }
}

/// The drain loop's full state: run state, position in the iteration, the
/// chunk read but not yet forwarded, and the two per-stream accumulators.
pub struct DrainLoop {
    state: RunState,
    phase: Phase,
    pending: Vec<u8>,
    out_acc: Vec<u8>,
    err_acc: Vec<u8>,
}

impl View for DrainLoop {
    type V = LoopModel;

    closed spec fn view(&self) -> LoopModel {
        LoopModel {
            state: self.state,
            phase: self.phase,
            pending: self.pending@,
            out_acc: self.out_acc@,
            err_acc: self.err_acc@,
        }
    }
}

impl DrainLoop {
    /// A fresh loop over a just-spawned child: running, about to drain
    /// stdout, both accumulators empty.
    pub fn new() -> (m: DrainLoop)
        ensures
            m@ == init_model(),
    {
        let m = DrainLoop {
            state: RunState::Running,
            phase: Phase::DrainOut,
            pending: Vec::new(),
            out_acc: Vec::new(),
            err_acc: Vec::new(),
        };
        proof {
            assert(m@ =~= init_model());
        }
        m
    }

    /// The I/O action the driver must perform next.
    pub fn next_action(&self) -> (act: Action)
        ensures
            act == action_of(self@),
    {
        match self.state {
            RunState::Running => match self.phase {
                Phase::DrainOut => Action::ReadStdout,
                Phase::ForwardOut => Action::ForwardStdout,
                Phase::DrainErr => Action::ReadStderr,
                Phase::ForwardErr => Action::ForwardStderr,
                Phase::Poll => Action::PollChild,
                Phase::Rest => Action::Sleep,
            },
            _ => Action::Report,
        }
    }

    /// Advance by one event and answer with the next action. Exactly the
    /// transition [`spec_step`]: events out of phase, and every event once a
    /// terminal state is reached, change nothing.
    pub fn step(&mut self, ev: Event) -> (act: Action)
        ensures
            final(self)@ == spec_step(old(self)@, ev@),
            act == action_of(final(self)@),
    {
        let running = match self.state {
            RunState::Running => true,
            _ => false,
        };
        if running {
            match self.phase {
                Phase::DrainOut => {
                    match ev {
                        Event::ReadAttempt(rev) => match classify(rev) {
                            ReadOutcome::Data(bytes) => {
                                self.pending = bytes;
                                self.phase = Phase::ForwardOut;
                            },
                            ReadOutcome::NoData => {
                                self.phase = Phase::DrainErr;
                            },
                            ReadOutcome::Failed => {
                                self.state = RunState::Failed(Failure::Read);
                            },
                        },
                        _ => {},
                    }
                },
                Phase::ForwardOut => {
                    match ev {
                        Event::WriteDone(ok) => {
                            if ok {
                                self.out_acc.append(&mut self.pending);
                                self.phase = Phase::DrainErr;
                            } else {
                                self.state = RunState::Failed(Failure::Write);
                            }
                        },
                        _ => {},
                    }
                },
                Phase::DrainErr => {
                    match ev {
                        Event::ReadAttempt(rev) => match classify(rev) {
                            ReadOutcome::Data(bytes) => {
                                self.pending = bytes;
                                self.phase = Phase::ForwardErr;
                            },
                            ReadOutcome::NoData => {
                                self.phase = Phase::Poll;
                            },
                            ReadOutcome::Failed => {
                                self.state = RunState::Failed(Failure::Read);
                            },
                        },
                        _ => {},
                    }
                },
                Phase::ForwardErr => {
                    match ev {
                        Event::WriteDone(ok) => {
                            if ok {
                                self.err_acc.append(&mut self.pending);
                                self.phase = Phase::Poll;
                            } else {
                                self.state = RunState::Failed(Failure::Write);
                            }
                        },
                        _ => {},
                    }
                },
                Phase::Poll => {
                    match ev {
                        Event::Polled(pe) => match pe {
                            PollEvent::StillRunning => {
                                self.phase = Phase::Rest;
                            },
                            PollEvent::Exited(code) => {
                                self.state = RunState::Exited(code);
                            },
                            PollEvent::QueryError => {
                                self.state = RunState::Failed(Failure::ExitQuery);
                            },
                        },
                        _ => {},
                    }
                },
                Phase::Rest => {
                    match ev {
                        Event::Slept => {
                            self.phase = Phase::DrainOut;
                        },
                        _ => {},
                    }
                },
            }
        }
        self.next_action()
    }

    /// The run's current state.
    pub fn run_state(&self) -> (r: RunState)
        ensures
            r == self@.state,
    {
        self.state
    }

    /// The bytes read on the current drain pass but not yet forwarded: what
    /// the two forward actions ask the driver to write and flush.
    pub fn pending_bytes(&self) -> (r: &Vec<u8>)
        ensures
            r@ == self@.pending,
    {
        &self.pending
    }

    /// Everything accumulated from the child's stdout, in read order.
    pub fn stdout_bytes(&self) -> (r: &Vec<u8>)
        ensures
            r@ == self@.out_acc,
    {
        &self.out_acc
    }

    /// Everything accumulated from the child's stderr, in read order.
    pub fn stderr_bytes(&self) -> (r: &Vec<u8>)
        ensures
            r@ == self@.err_acc,
    {
        &self.err_acc
    }
}

} // verus!
