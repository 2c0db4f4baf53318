//! Tests of the timeout engine.

use rederr::dur::Dur;
use rederr::timeout::Timeout;
use std::cmp::Ordering;

/// The instant all queries in this file are made at, in microseconds.
const NOW_US: u64 = 100_000;

fn now() -> Dur {
    Dur::from_micros(NOW_US)
}

fn future_timeout(microseconds: u64) -> Timeout {
    Timeout::Future { timeout: Dur::from_micros(microseconds) }
}

fn pending_timeout(microseconds: u64, elapsed: u64) -> Timeout {
    Timeout::Pending {
        timeout: Dur::from_micros(microseconds),
        start: Dur::from_micros(NOW_US - elapsed),
    }
}

fn expired_timeout(microseconds: u64) -> Timeout {
    Timeout::Expired {
        requested: Dur::from_micros(microseconds),
        actual: Dur::from_micros(microseconds),
    }
}

fn lt(a: &Timeout, b: &Timeout) -> bool {
    matches!(a.cmp_at(b, now()), Ordering::Less)
}

fn gt(a: &Timeout, b: &Timeout) -> bool {
    matches!(a.cmp_at(b, now()), Ordering::Greater)
}

fn eq(a: &Timeout, b: &Timeout) -> bool {
    a.eq_at(b, now())
}

#[test]
fn elapsed_rounded_up() {
    assert_eq!(expired_timeout(1_500).elapsed_rounded(now()).as_micros(), 2_000);
}

#[test]
fn elapsed_rounded_exact() {
    assert_eq!(expired_timeout(2_000).elapsed_rounded(now()).as_micros(), 2_000);
}

#[test]
fn elapsed_rounded_down() {
    assert_eq!(expired_timeout(2_499).elapsed_rounded(now()).as_micros(), 2_000);
}

#[test]
fn compare_timeout_never() {
    let timeout = Timeout::Never;

    assert!(eq(&Timeout::Never, &timeout));
    assert!(lt(&future_timeout(5_000), &timeout));
    assert!(lt(&pending_timeout(5_000, 500), &timeout));
    assert!(lt(&pending_timeout(5_000, 5_500), &timeout));
    assert!(lt(&future_timeout(0), &timeout));
    assert!(lt(&expired_timeout(5_000), &timeout));

    assert!(eq(&timeout, &Timeout::Never));
    assert!(gt(&timeout, &future_timeout(5_000)));
    assert!(gt(&timeout, &pending_timeout(5_000, 500)));
    assert!(gt(&timeout, &pending_timeout(5_000, 5_500)));
    assert!(gt(&timeout, &future_timeout(0)));
    assert!(gt(&timeout, &expired_timeout(5_000)));
}

#[test]
fn compare_timeout_future() {
    let timeout = future_timeout(5_000);

    assert!(gt(&Timeout::Never, &timeout));
    assert!(eq(&future_timeout(5_000), &timeout));
    assert!(lt(&pending_timeout(5_000, 500), &timeout));
    assert!(lt(&pending_timeout(5_000, 5_500), &timeout));
    assert!(lt(&future_timeout(0), &timeout));
    assert!(lt(&expired_timeout(5_000), &timeout));

    assert!(lt(&timeout, &Timeout::Never));
    assert!(eq(&timeout, &future_timeout(5_000)));
    assert!(gt(&timeout, &pending_timeout(5_000, 500)));
    assert!(gt(&timeout, &pending_timeout(5_000, 5_500)));
    assert!(gt(&timeout, &future_timeout(0)));
    assert!(gt(&timeout, &expired_timeout(5_000)));
}

#[test]
fn compare_timeout_pending() {
    let timeout = pending_timeout(5_000, 1000);

    assert!(gt(&Timeout::Never, &timeout));
    assert!(gt(&future_timeout(5_000), &timeout));
    assert!(gt(&pending_timeout(5_000, 500), &timeout));
    assert!(lt(&pending_timeout(5_000, 5_500), &timeout));
    assert!(lt(&future_timeout(0), &timeout));
    assert!(lt(&expired_timeout(5_000), &timeout));

    assert!(lt(&timeout, &Timeout::Never));
    assert!(lt(&timeout, &future_timeout(5_000)));
    assert!(lt(&timeout, &pending_timeout(5_000, 500)));
    assert!(gt(&timeout, &pending_timeout(5_000, 5_500)));
    assert!(gt(&timeout, &future_timeout(0)));
    assert!(gt(&timeout, &expired_timeout(5_000)));
}

#[test]
fn compare_timeout_pending_overtime() {
    let timeout = pending_timeout(5_000, 6_000);

    assert!(gt(&Timeout::Never, &timeout));
    assert!(gt(&future_timeout(5_000), &timeout));
    assert!(gt(&pending_timeout(5_000, 500), &timeout));
    assert!(eq(&pending_timeout(5_000, 5_500), &timeout));
    assert!(eq(&future_timeout(0), &timeout));
    assert!(eq(&expired_timeout(5_000), &timeout));

    assert!(lt(&timeout, &Timeout::Never));
    assert!(lt(&timeout, &future_timeout(5_000)));
    assert!(lt(&timeout, &pending_timeout(5_000, 500)));
    assert!(eq(&timeout, &pending_timeout(5_000, 5_500)));
    assert!(eq(&timeout, &future_timeout(0)));
    assert!(eq(&timeout, &expired_timeout(5_000)));
}

#[test]
fn compare_timeout_expired() {
    let timeout = expired_timeout(5_000);

    assert!(gt(&Timeout::Never, &timeout));
    assert!(gt(&future_timeout(5_000), &timeout));
    assert!(gt(&pending_timeout(5_000, 500), &timeout));
    assert!(eq(&pending_timeout(5_000, 5_500), &timeout));
    assert!(eq(&future_timeout(0), &timeout));
    assert!(eq(&expired_timeout(5_000), &timeout));

    assert!(lt(&timeout, &Timeout::Never));
    assert!(lt(&timeout, &future_timeout(5_000)));
    assert!(lt(&timeout, &pending_timeout(5_000, 500)));
    assert!(eq(&timeout, &pending_timeout(5_000, 5_500)));
    assert!(eq(&timeout, &future_timeout(0)));
    assert!(eq(&timeout, &expired_timeout(5_000)));
}

#[test]
fn check_expired_timeout_never() {
    assert!(Timeout::Never.check_expired(now()).is_none());
}

#[test]
fn check_expired_timeout_future() {
    assert!(future_timeout(1_000).check_expired(now()).is_none());
}

#[test]
fn check_expired_timeout_pending() {
    assert!(pending_timeout(5_000, 1_000).check_expired(now()).is_none());
}

#[test]
fn check_expired_timeout_pending_overtime() {
    assert!(matches!(
        pending_timeout(5_000, 6_000).check_expired(now()),
        Some(Timeout::Expired { .. })
    ));
}

#[test]
fn check_expired_timeout_expired() {
    let timeout = expired_timeout(5_000);
    match timeout.check_expired(now()) {
        Some(Timeout::Expired { requested, actual }) => {
            assert_eq!(requested, Dur::from_micros(5_000));
            assert_eq!(actual, Dur::from_micros(5_000));
        }
        other => panic!("expected an expired timeout, got {other:?}"),
    }
}

#[test]
fn expiry_respects_resolution() {
    // Exactly one millisecond left: not expired yet.
    assert!(pending_timeout(5_000, 4_000).check_expired(now()).is_none());
    // Less than one millisecond left: expired.
    assert!(pending_timeout(5_000, 4_001).check_expired(now()).is_some());
}

#[test]
fn start_future_counts_from_now() {
    let started = future_timeout(5_000).start(now());
    match started {
        Timeout::Pending { timeout, start } => {
            assert_eq!(timeout, Dur::from_micros(5_000));
            assert_eq!(start, now());
        }
        other => panic!("expected a pending timeout, got {other:?}"),
    }
    assert_eq!(started.elapsed(now()).as_nanos(), 0);
}

#[test]
fn start_is_idempotent() {
    let later = Dur::from_micros(NOW_US + 1_000);
    let pending = pending_timeout(5_000, 1_000);
    match pending.start(later) {
        Timeout::Pending { timeout, start } => {
            assert_eq!(timeout, Dur::from_micros(5_000));
            assert_eq!(start, Dur::from_micros(NOW_US - 1_000));
        }
        other => panic!("expected a pending timeout, got {other:?}"),
    }
    assert!(matches!(Timeout::Never.start(later), Timeout::Never));
    assert!(matches!(expired_timeout(5_000).start(later), Timeout::Expired { .. }));
}

#[test]
fn overdue_pending_reports_elapsed() {
    match pending_timeout(5_000, 6_000).check_expired(now()) {
        Some(Timeout::Expired { requested, actual }) => {
            assert_eq!(requested, Dur::from_micros(5_000));
            assert_eq!(actual, Dur::from_micros(6_000));
        }
        other => panic!("expected an expired timeout, got {other:?}"),
    }
}

#[test]
fn remaining_by_variant() {
    assert!(Timeout::Never.timeout(now()).is_none());
    assert_eq!(future_timeout(5_000).timeout(now()), Some(Dur::from_micros(5_000)));
    assert_eq!(pending_timeout(5_000, 1_000).timeout(now()), Some(Dur::from_micros(4_000)));
    assert_eq!(pending_timeout(5_000, 6_000).timeout(now()), Some(Dur::zero()));
    assert_eq!(expired_timeout(5_000).timeout(now()), Some(Dur::zero()));
}

#[test]
fn min_prefers_the_tighter_deadline() {
    let run = pending_timeout(5_000, 1_000);
    let idle = future_timeout(2_000);
    match run.min_at(idle, now()) {
        Timeout::Future { timeout } => assert_eq!(timeout, Dur::from_micros(2_000)),
        other => panic!("expected the idle deadline, got {other:?}"),
    }
    let idle_loose = future_timeout(10_000);
    assert!(matches!(run.min_at(idle_loose, now()), Timeout::Pending { .. }));
    // On a tie the first deadline wins.
    assert!(matches!(run.min_at(future_timeout(4_000), now()), Timeout::Pending { .. }));
}
