//! Run-level guarantees of the drain loop.
//!
//! A run is the fold of [`spec_step`] over a sequence of events. The proofs
//! here state what any driver gets from the machine, however the I/O turns
//! out: accumulators grow by exactly the delivered bytes in order, quiet
//! polls change nothing, failures are immediately terminal, and a child exit
//! is only ever recorded after the same iteration's drain passes.

use vstd::prelude::*;

use crate::machine::{
    EventModel, Failure, LoopModel, Phase, RunState, action_of, err_append, out_append, spec_step,
};
use crate::read::outcome_of;

verus! {

/// The machine after consuming the events in order.
pub open spec fn run(m: LoopModel, evs: Seq<EventModel>) -> LoopModel
    decreases evs.len(),
{
    if evs.len() == 0 {
        m
    } else {
        run(spec_step(m, evs[0]), evs.drop_first())
    }
}

/// The bytes a run delivers to the stdout accumulator, in order.
pub open spec fn delivered_out(m: LoopModel, evs: Seq<EventModel>) -> Seq<u8>
    decreases evs.len(),
{
    if evs.len() == 0 {
        Seq::empty()
    } else {
        out_append(m, evs[0]) + delivered_out(spec_step(m, evs[0]), evs.drop_first())
    }
}

/// The bytes a run delivers to the stderr accumulator, in order.
pub open spec fn delivered_err(m: LoopModel, evs: Seq<EventModel>) -> Seq<u8>
    decreases evs.len(),
{
    if evs.len() == 0 {
        Seq::empty()
    } else {
        err_append(m, evs[0]) + delivered_err(spec_step(m, evs[0]), evs.drop_first())
    }
}

/// One step appends exactly [`out_append`] and [`err_append`] to the
/// accumulators: they are never rewound, truncated or reordered.
pub proof fn lemma_step_appends(m: LoopModel, ev: EventModel)
    ensures
        spec_step(m, ev).out_acc == m.out_acc + out_append(m, ev),
        spec_step(m, ev).err_acc == m.err_acc + err_append(m, ev),
{
    assert(m.out_acc + Seq::<u8>::empty() =~= m.out_acc);
    assert(m.err_acc + Seq::<u8>::empty() =~= m.err_acc);
}

/// Completeness: over any event sequence, each accumulator ends as its
/// starting contents followed by exactly the bytes delivered for its stream,
/// in order — no loss, no duplication, no reordering within a stream.
pub proof fn lemma_completeness(m: LoopModel, evs: Seq<EventModel>)
    ensures
        run(m, evs).out_acc == m.out_acc + delivered_out(m, evs),
        run(m, evs).err_acc == m.err_acc + delivered_err(m, evs),
    decreases evs.len(),
{
    if evs.len() == 0 {
        assert(m.out_acc + Seq::<u8>::empty() =~= m.out_acc);
        assert(m.err_acc + Seq::<u8>::empty() =~= m.err_acc);
    } else {
        let m2 = spec_step(m, evs[0]);
        let rest = evs.drop_first();
        lemma_step_appends(m, evs[0]);
        lemma_completeness(m2, rest);
        assert(m.out_acc + out_append(m, evs[0]) + delivered_out(m2, rest) =~= m.out_acc + (
        out_append(m, evs[0]) + delivered_out(m2, rest)));
        assert(m.err_acc + err_append(m, evs[0]) + delivered_err(m2, rest) =~= m.err_acc + (
        err_append(m, evs[0]) + delivered_err(m2, rest)));
    }
}

/// Terminal states absorb: once the run is Exited or Failed, no event
/// changes anything — in particular, no further draining happens.
pub proof fn lemma_terminal_absorbs(m: LoopModel, evs: Seq<EventModel>)
    requires
        !(m.state is Running),
    ensures
        run(m, evs) == m,
    decreases evs.len(),
{
    if evs.len() > 0 {
        lemma_terminal_absorbs(spec_step(m, evs[0]), evs.drop_first());
    }
}

/// An event that is a read attempt which delivered nothing.
pub open spec fn is_quiet_read(ev: EventModel) -> bool {
    ev matches EventModel::ReadAttempt(rev) && outcome_of(rev) is NoData
}

/// Zero-read idempotence: any number of read attempts that find no pending
/// data leave the run state, the pending chunk and both accumulators exactly
/// as they were, and never ask the driver to forward anything.
pub proof fn lemma_zero_read_idempotent(m: LoopModel, evs: Seq<EventModel>)
    requires
        forall|i: int| 0 <= i < evs.len() ==> is_quiet_read(#[trigger] evs[i]),
    ensures
        run(m, evs).state == m.state,
        run(m, evs).pending == m.pending,
        run(m, evs).out_acc == m.out_acc,
        run(m, evs).err_acc == m.err_acc,
    decreases evs.len(),
{
    if evs.len() > 0 {
        let m2 = spec_step(m, evs[0]);
        let rest = evs.drop_first();
        assert(forall|i: int| 0 <= i < rest.len() ==> #[trigger] rest[i] == evs[i + 1]);
        lemma_zero_read_idempotent(m2, rest);
    }
}

/// Fatal propagation: an unrecoverable read failure on either stream, while
/// that stream's drain is awaited, makes the run Failed at once, and no
/// later event drains anything further or changes the outcome.
pub proof fn lemma_fatal_propagation(m: LoopModel, ev: EventModel, rest: Seq<EventModel>)
    requires
        m.state is Running,
        m.phase is DrainOut || m.phase is DrainErr,
        ev matches EventModel::ReadAttempt(rev) && outcome_of(rev) is Failed,
    ensures
        spec_step(m, ev).state == RunState::Failed(Failure::Read),
        spec_step(m, ev).out_acc == m.out_acc,
        spec_step(m, ev).err_acc == m.err_acc,
        run(spec_step(m, ev), rest) == spec_step(m, ev),
{
    lemma_terminal_absorbs(spec_step(m, ev), rest);
}

/// Termination completeness, per step: the child's exit can be recorded only
/// while the poll is awaited — which an iteration reaches only after both
/// drain passes — and the recording transition itself touches neither
/// accumulator, so everything drained in that final iteration is already
/// accumulated when the run turns Exited.
pub proof fn lemma_exit_only_after_drains(m: LoopModel, ev: EventModel)
    requires
        m.state is Running,
        spec_step(m, ev).state is Exited,
    ensures
        m.phase is Poll,
        spec_step(m, ev).out_acc == m.out_acc,
        spec_step(m, ev).err_acc == m.err_acc,
        action_of(spec_step(m, ev)) is Report,
{
}

/// Unrolling a run one step commutes with taking a prefix.
proof fn lemma_run_unfold_take(m: LoopModel, evs: Seq<EventModel>, k: int)
    requires
        0 <= k < evs.len(),
    ensures
        run(m, evs.take(k + 1)) == run(spec_step(m, evs[0]), evs.drop_first().take(k)),
{
    let s = evs.take(k + 1);
    assert(s[0] == evs[0]);
    assert(s.drop_first() =~= evs.drop_first().take(k));
}

/// At position `j`, the run stands at the stderr drain of an iteration and
/// the event is a read attempt on stderr.
pub open spec fn err_drain_at(m: LoopModel, evs: Seq<EventModel>, j: int) -> bool {
    &&& 0 <= j < evs.len()
    &&& run(m, evs.take(j)).state is Running
    &&& run(m, evs.take(j)).phase is DrainErr
    &&& evs[j] is ReadAttempt
}

/// At positions `i < j`, the run processes a stdout read attempt and, later,
/// a stderr read attempt.
pub open spec fn full_drain_pass_at(m: LoopModel, evs: Seq<EventModel>, i: int, j: int) -> bool {
    &&& 0 <= i < j < evs.len()
    &&& run(m, evs.take(i)).state is Running
    &&& run(m, evs.take(i)).phase is DrainOut
    &&& evs[i] is ReadAttempt
    &&& err_drain_at(m, evs, j)
}

/// From the stdout-forward or stderr-drain position, a run that ends with
/// the child's exit observed must process a stderr read attempt.
proof fn lemma_err_drain_before_exit(m: LoopModel, evs: Seq<EventModel>)
    requires
        m.state is Running,
        m.phase is ForwardOut || m.phase is DrainErr,
        run(m, evs).state is Exited,
    ensures
        exists|j: int| err_drain_at(m, evs, j),
    decreases evs.len(),
{
    let m2 = spec_step(m, evs[0]);
    let rest = evs.drop_first();
    if m.phase is DrainErr && evs[0] is ReadAttempt {
        assert(evs.take(0) =~= Seq::empty());
        assert(err_drain_at(m, evs, 0));
    } else if m2.state is Running {
        lemma_err_drain_before_exit(m2, rest);
        let j = choose|j: int| err_drain_at(m2, rest, j);
        lemma_run_unfold_take(m, evs, j);
        assert(err_drain_at(m, evs, j + 1));
    } else {
        lemma_terminal_absorbs(m2, rest);
    }
}

/// Termination completeness, across a run: from the start of an iteration,
/// a run that ends with the child's exit observed has processed a stdout
/// read attempt and, after it, a stderr read attempt — the loop never
/// reports an exit without a full drain pass over both streams first.
pub proof fn lemma_full_drain_before_exit(m: LoopModel, evs: Seq<EventModel>)
    requires
        m.state is Running,
        m.phase is DrainOut,
        run(m, evs).state is Exited,
    ensures
        exists|i: int, j: int| full_drain_pass_at(m, evs, i, j),
    decreases evs.len(),
{
    let m2 = spec_step(m, evs[0]);
    let rest = evs.drop_first();
    if evs[0] is ReadAttempt && m2.state is Running {
        assert(evs.take(0) =~= Seq::empty());
        lemma_err_drain_before_exit(m2, rest);
        let j = choose|j: int| err_drain_at(m2, rest, j);
        lemma_run_unfold_take(m, evs, j);
        assert(full_drain_pass_at(m, evs, 0, j + 1));
    } else if m2.state is Running {
        lemma_full_drain_before_exit(m2, rest);
        let (i, j) = choose|i: int, j: int| full_drain_pass_at(m2, rest, i, j);
        lemma_run_unfold_take(m, evs, i);
        lemma_run_unfold_take(m, evs, j);
        assert(full_drain_pass_at(m, evs, i + 1, j + 1));
    } else {
        lemma_terminal_absorbs(m2, rest);
    }
}

} // verus!

