//! The non-blocking read primitive, as the loop sees it.
//!
//! The platform layer attempts one read on a pipe without blocking and maps
//! the OS result onto a [`ReadEvent`]. Two platform models feed this type:
//! a flag-based one (the handle is put into non-blocking mode once, and a
//! read that finds nothing fails with a distinct "would block" code) and a
//! peek-based one (the number of pending bytes is queried first, and a read
//! is issued only when it is nonzero). [`classify`] is the single table that
//! decides which reported conditions carry data, which are benign
//! "nothing yet", and which are fatal.

use vstd::prelude::*;

verus! {

/// What one raw, non-blocking read attempt on a pipe reported, after the
/// platform layer has mapped its OS result onto plain values.
pub enum ReadEvent {
    /// The read call succeeded and delivered these bytes (possibly none).
    Read(Vec<u8>),
    /// Flag-based platforms: the read failed with the "would block" code.
    WouldBlock,
    /// Peek-based platforms: the peek reported zero pending bytes, so no
    /// read call was issued at all.
    NoneAvailable,
    /// Any other failure of the read or peek call: unrecoverable.
    Error,
}

/// Spec-level image of a read event, with the bytes as a sequence.
pub enum ReadEventModel {
    Read(Seq<u8>),
    WouldBlock,
    NoneAvailable,
    Error,
}

impl View for ReadEvent {
    type V = ReadEventModel;

    open spec fn view(&self) -> ReadEventModel {
        match self {
            ReadEvent::Read(bytes) => ReadEventModel::Read(bytes@),
            ReadEvent::WouldBlock => ReadEventModel::WouldBlock,
            ReadEvent::NoneAvailable => ReadEventModel::NoneAvailable,
            ReadEvent::Error => ReadEventModel::Error,
        }
    }
}

/// How one drain pass must act on a read event.
pub enum ReadOutcome {
    /// Bytes were delivered: forward them, then accumulate them.
    Data(Vec<u8>),
    /// Nothing is pending right now; not an error.
    NoData,
    /// Unrecoverable I/O failure: fatal for the whole run.
    Failed,
}

/// Spec-level image of a read outcome.
pub enum ReadOutcomeModel {
    Data(Seq<u8>),
    NoData,
    Failed,
}

impl View for ReadOutcome {
    type V = ReadOutcomeModel;

    open spec fn view(&self) -> ReadOutcomeModel {
        match self {
            ReadOutcome::Data(bytes) => ReadOutcomeModel::Data(bytes@),
            ReadOutcome::NoData => ReadOutcomeModel::NoData,
            ReadOutcome::Failed => ReadOutcomeModel::Failed,
        }
    }
}

/// The classification table. A successful read of zero bytes is a spurious
/// wake, not end-of-stream: on some platforms a closed pipe reports as
/// "no error, zero bytes", so end-of-stream is inferred from child
/// termination alone, never from the read primitive. The "would block" code
/// and a zero-byte peek are the benign "nothing yet" conditions; every other
/// failure is fatal.
pub open spec fn outcome_of(ev: ReadEventModel) -> ReadOutcomeModel {
    match ev {
        ReadEventModel::Read(bytes) => if bytes.len() == 0 {
            ReadOutcomeModel::NoData
        } else {
            ReadOutcomeModel::Data(bytes)
        },
        ReadEventModel::WouldBlock => ReadOutcomeModel::NoData,
        ReadEventModel::NoneAvailable => ReadOutcomeModel::NoData,
        ReadEventModel::Error => ReadOutcomeModel::Failed,
    }
}

/// Classify one read attempt, exactly as [`outcome_of`] says.
pub fn classify(ev: ReadEvent) -> (r: ReadOutcome)
    ensures
        r@ == outcome_of(ev@),
{
    match ev {
        ReadEvent::Read(bytes) => {
            if bytes.len() == 0 {
                ReadOutcome::NoData
            } else {
                ReadOutcome::Data(bytes)
            }
        },
        ReadEvent::WouldBlock => ReadOutcome::NoData,
        ReadEvent::NoneAvailable => ReadOutcome::NoData,
        ReadEvent::Error => ReadOutcome::Failed,
    }
}

/// The peek-based model's decision: issue a read call only when the peek
/// reported at least one pending byte; a zero count becomes "no data"
/// without any read being issued.
pub fn peek_says_read(bytes_available: u64) -> (r: bool)
    ensures
        r <==> bytes_available > 0,
{
    bytes_available > 0
}

} // verus!
