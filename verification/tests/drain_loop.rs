use pipetee::machine::{Action, DrainLoop, Event, Failure, PollEvent, RunState};
use pipetee::read::ReadEvent;

fn read(bytes: &[u8]) -> Event {
    Event::ReadAttempt(ReadEvent::Read(bytes.to_vec()))
}

#[test]
fn end_to_end_abc_xy_exit_7() {
    // The child writes exactly "abc" to stdout and "xy" to stderr, then
    // exits with code 7, all within one loop iteration.
    let mut lp = DrainLoop::new();
    assert_eq!(lp.next_action(), Action::ReadStdout);

    assert_eq!(lp.step(read(b"abc")), Action::ForwardStdout);
    assert_eq!(lp.pending_bytes().as_slice(), b"abc");
    assert_eq!(lp.step(Event::WriteDone(true)), Action::ReadStderr);

    assert_eq!(lp.step(read(b"xy")), Action::ForwardStderr);
    assert_eq!(lp.pending_bytes().as_slice(), b"xy");
    assert_eq!(lp.step(Event::WriteDone(true)), Action::PollChild);

    assert_eq!(lp.step(Event::Polled(PollEvent::Exited(7))), Action::Report);
    assert_eq!(lp.run_state(), RunState::Exited(7));
    assert_eq!(lp.stdout_bytes().len(), 3);
    assert_eq!(lp.stdout_bytes().as_slice(), &[97u8, 98u8, 99u8]);
    assert_eq!(lp.stderr_bytes().len(), 2);
    assert_eq!(lp.stderr_bytes().as_slice(), &[120u8, 121u8]);
}

#[test]
fn silent_child_exit_0() {
    // The child writes nothing and exits at once with code 0.
    let mut lp = DrainLoop::new();
    assert_eq!(lp.step(read(b"")), Action::ReadStderr);
    assert_eq!(lp.step(Event::ReadAttempt(ReadEvent::WouldBlock)), Action::PollChild);
    assert_eq!(lp.step(Event::Polled(PollEvent::Exited(0))), Action::Report);
    assert_eq!(lp.run_state(), RunState::Exited(0));
    assert!(lp.stdout_bytes().is_empty());
    assert!(lp.stderr_bytes().is_empty());
}

#[test]
fn quiet_iterations_change_nothing() {
    // Pipes with no pending data: the loop spins through whole iterations
    // indefinitely without touching state or accumulators.
    let mut lp = DrainLoop::new();
    for _ in 0..25 {
        assert_eq!(lp.step(Event::ReadAttempt(ReadEvent::WouldBlock)), Action::ReadStderr);
        assert_eq!(lp.step(Event::ReadAttempt(ReadEvent::NoneAvailable)), Action::PollChild);
        assert_eq!(lp.step(Event::Polled(PollEvent::StillRunning)), Action::Sleep);
        assert_eq!(lp.step(Event::Slept), Action::ReadStdout);
        assert_eq!(lp.run_state(), RunState::Running);
        assert!(lp.stdout_bytes().is_empty());
        assert!(lp.stderr_bytes().is_empty());
        assert!(lp.pending_bytes().is_empty());
    }
}

#[test]
fn chunks_accumulate_in_order() {
    // Two iterations deliver "ab" then "c" on stdout: the accumulator is
    // exactly their concatenation, in order.
    let mut lp = DrainLoop::new();
    lp.step(read(b"ab"));
    lp.step(Event::WriteDone(true));
    lp.step(Event::ReadAttempt(ReadEvent::WouldBlock));
    lp.step(Event::Polled(PollEvent::StillRunning));
    lp.step(Event::Slept);
    lp.step(read(b"c"));
    lp.step(Event::WriteDone(true));
    lp.step(Event::ReadAttempt(ReadEvent::WouldBlock));
    lp.step(Event::Polled(PollEvent::Exited(0)));
    assert_eq!(lp.stdout_bytes().as_slice(), b"abc");
    assert!(lp.pending_bytes().is_empty());
}

#[test]
fn read_failure_on_stdout_is_fatal() {
    let mut lp = DrainLoop::new();
    assert_eq!(lp.step(Event::ReadAttempt(ReadEvent::Error)), Action::Report);
    assert_eq!(lp.run_state(), RunState::Failed(Failure::Read));
    // Terminal states absorb: nothing drains after the failure.
    assert_eq!(lp.step(read(b"zz")), Action::Report);
    assert_eq!(lp.step(Event::Polled(PollEvent::Exited(0))), Action::Report);
    assert_eq!(lp.run_state(), RunState::Failed(Failure::Read));
    assert!(lp.stdout_bytes().is_empty());
    assert!(lp.stderr_bytes().is_empty());
}

#[test]
fn read_failure_on_stderr_is_fatal() {
    let mut lp = DrainLoop::new();
    assert_eq!(lp.step(read(b"ok")), Action::ForwardStdout);
    assert_eq!(lp.step(Event::WriteDone(true)), Action::ReadStderr);
    assert_eq!(lp.step(Event::ReadAttempt(ReadEvent::Error)), Action::Report);
    assert_eq!(lp.run_state(), RunState::Failed(Failure::Read));
    // The stdout bytes drained before the failure are kept.
    assert_eq!(lp.stdout_bytes().as_slice(), b"ok");
}

#[test]
fn write_failure_is_fatal_and_does_not_accumulate() {
    // The original forwards first and accumulates only after a successful
    // write: a failed forward aborts the run with the chunk unaccumulated.
    let mut lp = DrainLoop::new();
    assert_eq!(lp.step(read(b"abc")), Action::ForwardStdout);
    assert_eq!(lp.step(Event::WriteDone(false)), Action::Report);
    assert_eq!(lp.run_state(), RunState::Failed(Failure::Write));
    assert!(lp.stdout_bytes().is_empty());
}

#[test]
fn exit_query_failure_is_fatal() {
    let mut lp = DrainLoop::new();
    lp.step(Event::ReadAttempt(ReadEvent::WouldBlock));
    lp.step(Event::ReadAttempt(ReadEvent::WouldBlock));
    assert_eq!(lp.step(Event::Polled(PollEvent::QueryError)), Action::Report);
    assert_eq!(lp.run_state(), RunState::Failed(Failure::ExitQuery));
}

#[test]
fn exit_is_observed_only_after_both_drains() {
    // A poll answer arriving while a drain is awaited is out of phase and
    // ignored: the iteration still drains both streams first.
    let mut lp = DrainLoop::new();
    assert_eq!(lp.step(Event::Polled(PollEvent::Exited(3))), Action::ReadStdout);
    assert_eq!(lp.run_state(), RunState::Running);
    assert_eq!(lp.step(read(b"late")), Action::ForwardStdout);
    assert_eq!(lp.step(Event::WriteDone(true)), Action::ReadStderr);
    assert_eq!(lp.step(Event::Polled(PollEvent::Exited(3))), Action::ReadStderr);
    assert_eq!(lp.step(Event::ReadAttempt(ReadEvent::WouldBlock)), Action::PollChild);
    assert_eq!(lp.step(Event::Polled(PollEvent::Exited(3))), Action::Report);
    assert_eq!(lp.run_state(), RunState::Exited(3));
    assert_eq!(lp.stdout_bytes().as_slice(), b"late");
}

#[test]
fn out_of_phase_events_change_nothing() {
    let mut lp = DrainLoop::new();
    assert_eq!(lp.step(Event::WriteDone(true)), Action::ReadStdout);
    assert_eq!(lp.step(Event::Slept), Action::ReadStdout);
    assert_eq!(lp.step(Event::Polled(PollEvent::QueryError)), Action::ReadStdout);
    assert_eq!(lp.run_state(), RunState::Running);
    assert!(lp.stdout_bytes().is_empty());
    assert!(lp.pending_bytes().is_empty());
}

#[test]
fn spawn_failure_is_its_own_kind() {
    // A run that could not even be spawned is reported as Failed(Spawn),
    // distinct from every in-loop failure.
    let outcome = RunState::Failed(Failure::Spawn);
    assert_ne!(outcome, RunState::Failed(Failure::Read));
    assert_ne!(outcome, RunState::Failed(Failure::Configuration));
    assert_ne!(outcome, RunState::Exited(0));
    assert!(matches!(outcome, RunState::Failed(Failure::Spawn)));
}
