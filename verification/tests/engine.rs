//! Tests of the readiness-loop decisions.

use rederr::dur::Dur;
use rederr::engine::{
    from_dur, from_opt_dur, poll_retry, poll_step, read_step, timeout_fail, wait_status_to_code,
    write_plan, CyclePlan, LoopState, PollStep, ReadResult, ReadStep, ReadinessEvent, StreamKey,
    TimeoutKind, POLL_MAX_MILLIS,
};
use rederr::timeout::Timeout;

fn state(run_ms: Option<u64>, idle_ms: Option<u64>) -> LoopState {
    LoopState::new(
        run_ms.map(Dur::from_millis),
        idle_ms.map(Dur::from_millis),
        Dur::zero(),
    )
}

#[test]
fn cycle_finishes_once_sources_are_gone() {
    let mut s = state(Some(100), Some(50));
    s.unregister(StreamKey::Primary);
    assert!(s.has_sources());
    s.unregister(StreamKey::Secondary);
    assert!(!s.has_sources());
    assert!(matches!(s.cycle_plan(Dur::from_millis(10)), CyclePlan::Finished));
}

#[test]
fn unregister_absent_key_is_a_no_op() {
    let mut s = state(None, None);
    s.unregister(StreamKey::Secondary);
    s.unregister(StreamKey::Secondary);
    assert!(s.primary_open);
    assert!(!s.secondary_open);
}

#[test]
fn cycle_waits_under_the_tighter_deadline() {
    let s = state(Some(100), Some(50));
    match s.cycle_plan(Dur::from_millis(10)) {
        // run has 90 ms left, idle plans 50 ms: idle is tighter.
        CyclePlan::Wait { timeout: Timeout::Future { timeout } } => {
            assert_eq!(timeout, Dur::from_millis(50));
        }
        other => panic!("expected a wait under the idle deadline, got {other:?}"),
    }
}

#[test]
fn cycle_aborts_when_the_run_deadline_expired() {
    // The idle deadline alone would never fire here: the run deadline is
    // tighter and already past, so the abort is classified as a run timeout.
    let s = state(Some(100), Some(150));
    match s.cycle_plan(Dur::from_millis(200)) {
        CyclePlan::Fail { kind, rounded } => {
            assert_eq!(kind, TimeoutKind::Run);
            assert_eq!(rounded, Dur::from_millis(200));
        }
        other => panic!("expected a run-timeout abort, got {other:?}"),
    }
}

#[test]
fn cycle_without_deadlines_waits_forever() {
    let s = state(None, None);
    match s.cycle_plan(Dur::from_millis(5)) {
        CyclePlan::Wait { timeout } => assert!(matches!(timeout, Timeout::Never)),
        other => panic!("expected a wait, got {other:?}"),
    }
}

#[test]
fn poll_step_reports_expiry() {
    let started = Timeout::Pending { timeout: Dur::from_millis(50), start: Dur::zero() };
    match poll_step(&started, Dur::from_millis(60)) {
        PollStep::Expired { expired: Timeout::Expired { requested, actual } } => {
            assert_eq!(requested, Dur::from_millis(50));
            assert_eq!(actual, Dur::from_millis(60));
        }
        other => panic!("expected an expiry, got {other:?}"),
    }
}

#[test]
fn poll_step_waits_for_the_remaining_time() {
    let started = Timeout::Pending { timeout: Dur::from_millis(50), start: Dur::zero() };
    match poll_step(&started, Dur::from_millis(10)) {
        PollStep::Wait { native: Some(d) } => assert_eq!(d, Dur::from_millis(40)),
        other => panic!("expected a bounded wait, got {other:?}"),
    }
}

#[test]
fn poll_step_caps_the_native_wait() {
    // A deadline that never fires still waits only up to the primitive's
    // ceiling, and is re-checked afterwards.
    match poll_step(&Timeout::Never, Dur::from_millis(10)) {
        PollStep::Wait { native: Some(d) } => assert_eq!(d, Dur::from_millis(POLL_MAX_MILLIS)),
        other => panic!("expected a capped wait, got {other:?}"),
    }
}

#[test]
fn poll_retry_swallows_native_timeouts_only() {
    assert!(poll_retry(true, true));
    assert!(!poll_retry(true, false));
    assert!(!poll_retry(false, true));
    assert!(!poll_retry(false, false));
}

#[test]
fn read_step_full_buffer_continues() {
    assert_eq!(read_step(ReadResult::Bytes { count: 1024 }, 1024), ReadStep::ForwardAndContinue);
}

#[test]
fn read_step_short_read_yields() {
    assert_eq!(read_step(ReadResult::Bytes { count: 3 }, 1024), ReadStep::ForwardAndYield);
}

#[test]
fn read_step_empty_read_stops() {
    assert_eq!(read_step(ReadResult::Bytes { count: 0 }, 1024), ReadStep::Stop);
}

#[test]
fn read_step_would_block_stops() {
    assert_eq!(read_step(ReadResult::WouldBlock, 1024), ReadStep::Stop);
}

#[test]
fn read_step_other_errors_are_fatal() {
    assert_eq!(read_step(ReadResult::Failed, 1024), ReadStep::Fail);
}

#[test]
fn merged_color_highlights_only_the_secondary_stream() {
    let secondary = write_plan(StreamKey::Secondary, false, true);
    assert!(secondary.highlight);
    assert!(!secondary.to_secondary);
    let primary = write_plan(StreamKey::Primary, false, true);
    assert!(!primary.highlight);
    assert!(!primary.to_secondary);
}

#[test]
fn separate_streams_route_to_their_own_sinks() {
    let secondary = write_plan(StreamKey::Secondary, true, false);
    assert!(secondary.to_secondary);
    assert!(!secondary.highlight);
    let primary = write_plan(StreamKey::Primary, true, false);
    assert!(!primary.to_secondary);
    assert!(!primary.highlight);
}

#[test]
fn timeout_fail_classifies_by_variant() {
    let expired = Timeout::Expired {
        requested: Dur::from_millis(50),
        actual: Dur::from_micros(51_500),
    };
    let idle = Timeout::Future { timeout: Dur::from_millis(50) };
    let (kind, rounded) = timeout_fail(&idle, &expired);
    assert_eq!(kind, TimeoutKind::Idle);
    assert_eq!(rounded, Dur::from_millis(52));

    let run = Timeout::Pending { timeout: Dur::from_millis(50), start: Dur::zero() };
    let (kind, rounded) = timeout_fail(&run, &expired);
    assert_eq!(kind, TimeoutKind::Run);
    assert_eq!(rounded, Dur::from_millis(52));
}

#[test]
fn from_opt_dur_picks_the_variant() {
    assert!(matches!(from_opt_dur(None), Timeout::Never));
    assert!(matches!(from_opt_dur(Some(Dur::from_millis(5))), Timeout::Future { .. }));
    assert!(matches!(from_dur(Dur::from_millis(5)), Timeout::Future { .. }));
}

#[test]
fn hangup_events_unregister_their_stream() {
    let mut s = state(None, None);
    s.apply_event(ReadinessEvent { key: StreamKey::Primary, readable: true, hangup: false });
    assert!(s.primary_open && s.secondary_open);
    s.apply_event(ReadinessEvent { key: StreamKey::Primary, readable: false, hangup: true });
    assert!(!s.primary_open && s.secondary_open);
    s.apply_event(ReadinessEvent { key: StreamKey::Secondary, readable: true, hangup: true });
    assert!(!s.has_sources());
}

#[test]
fn exit_code_zero() {
    assert_eq!(wait_status_to_code(Some(0), None), Some(0));
}

#[test]
fn exit_code_one() {
    assert_eq!(wait_status_to_code(Some(1), None), Some(1));
}

#[test]
fn exit_code_sigterm() {
    assert_eq!(wait_status_to_code(None, Some(15)), Some(143));
}

#[test]
fn exit_code_signal_saturates() {
    assert_eq!(wait_status_to_code(None, Some(i32::MAX)), Some(i32::MAX));
}

#[test]
fn exit_code_missing_is_an_error() {
    assert_eq!(wait_status_to_code(None, None), None);
}
