//! Stateful timeouts.
//!
//! [`Timeout`] keeps track of a deadline that may or may not have started
//! counting down. Create a `Timeout::Future` to represent a planned timeout,
//! run [`Timeout::start()`] to get a `Timeout::Pending` that counts from a
//! given instant, and call [`Timeout::check_expired()`] to obtain a
//! `Timeout::Expired` once the deadline has passed.
//!
//! Instants are [`Dur`] values: the time elapsed since an arbitrary fixed
//! origin, such as the moment the process launched. Every query takes the
//! current instant `now` as an argument, so the whole engine is a pure
//! function of its inputs.

use vstd::prelude::*;

use crate::dur::{round_to_ms, dur_max, Dur};

verus! {

/// Minimum remaining time below which a pending timeout counts as expired,
/// in nanoseconds: one millisecond.
pub const RESOLUTION_NANOS: u32 = 1_000_000;

/// A stateful timeout.
#[derive(Clone, Copy, Debug)]
pub enum Timeout {
    /// Never time out.
    Never,
    /// Time out after `timeout` has elapsed, once started.
    Future { timeout: Dur },
    /// A timeout that is counting down since the instant `start`.
    Pending { timeout: Dur, start: Dur },
    /// A timeout that has expired: `requested` was asked for, `actual` had
    /// passed when the expiry was detected.
    Expired { requested: Dur, actual: Dur },
}

impl Timeout {
    /// How much of the timeout has elapsed at instant `now`, in nanoseconds.
    ///
    /// `Never` and `Future` have nothing elapsed; `Pending` measures from its
    /// start, never negative; `Expired` reports the time that had actually
    /// passed when it was detected.
    pub open spec fn spec_elapsed(self, now: int) -> int {
        match self {
            Timeout::Never => 0,
            Timeout::Future { .. } => 0,
            Timeout::Pending { start, .. } => if now >= start@ {
                now - start@
            } else {
                0
            },
            Timeout::Expired { actual, .. } => actual@,
        }
    }

    /// The remaining time at instant `now`, in nanoseconds; `None` means the
    /// timeout never fires.
    pub open spec fn spec_remaining(self, now: int) -> Option<int> {
        match self {
            Timeout::Never => None,
            Timeout::Future { timeout } => Some(timeout@),
            Timeout::Pending { timeout, .. } => Some(
                if timeout@ >= self.spec_elapsed(now) {
                    timeout@ - self.spec_elapsed(now)
                } else {
                    0
                },
            ),
            Timeout::Expired { .. } => Some(0),
        }
    }

    /// What [`Timeout::start`] returns: only `Future` changes.
    pub open spec fn spec_start(self, now: Dur) -> Timeout {
        match self {
            Timeout::Future { timeout } => Timeout::Pending { timeout, start: now },
            _ => self,
        }
    }

    /// True when [`Timeout::check_expired`] reports an expiry at instant `now`.
    pub open spec fn spec_expires(self, now: int) -> bool {
        match self {
            Timeout::Pending { timeout, .. } => timeout@ - self.spec_elapsed(now)
                < RESOLUTION_NANOS,
            Timeout::Expired { .. } => true,
            _ => false,
        }
    }

    /// The remaining timeout at instant `now`, if there is one.
    ///
    /// Returns a zero span if the timeout has already expired.
    pub fn timeout(&self, now: Dur) -> (r: Option<Dur>)
        ensures
            match self.spec_remaining(now@) {
                Some(v) => r matches Some(d) && d@ == v,
                None => r is None,
            },
    {
        match self {
            Timeout::Never => None,
            Timeout::Future { timeout } => Some(*timeout),
            Timeout::Pending { timeout, start } => Some(
                timeout.saturating_sub(&now.saturating_sub(start)),
            ),
            Timeout::Expired { .. } => Some(Dur::zero()),
        }
    }

    /// A pending version of this timeout, counting from instant `now`.
    ///
    /// `Never`, `Pending` and `Expired` values pass through unchanged, so
    /// starting is idempotent.
    pub fn start(&self, now: Dur) -> (r: Timeout)
        ensures
            r == self.spec_start(now),
    {
        if let Timeout::Future { timeout } = self {
            Timeout::Pending { timeout: *timeout, start: now }
        } else {
            *self
        }
    }

    /// Has the timeout expired at instant `now`?
    ///
    /// Returns `None` while nothing has expired. A `Pending` timeout expires
    /// once its remaining time falls below the one-millisecond resolution; an
    /// `Expired` timeout reports itself again.
    pub fn check_expired(&self, now: Dur) -> (r: Option<Timeout>)
        ensures
            self matches Timeout::Pending { timeout, .. } ==> {
                if self.spec_expires(now@) {
                    r matches Some(x) && x matches Timeout::Expired { requested, actual }
                        && requested == timeout && actual@ == self.spec_elapsed(now@)
                        && actual@ <= now@
                } else {
                    r is None
                }
            },
            self is Expired ==> r == Some(*self),
            self is Never || self is Future ==> r is None,
    {
        match self {
            Timeout::Pending { timeout, start } => {
                let elapsed = now.saturating_sub(start);
                let remaining = timeout.saturating_sub(&elapsed);
                if remaining.lt(&Dur::from_millis(1)) {
                    Some(Timeout::Expired { requested: *timeout, actual: elapsed })
                } else {
                    None
                }
            },
            Timeout::Expired { .. } => Some(*self),
            _ => None,
        }
    }

    /// How much of the timeout has elapsed at instant `now`.
    pub fn elapsed(&self, now: Dur) -> (r: Dur)
        ensures
            r@ == self.spec_elapsed(now@),
    {
        match self {
            Timeout::Never => Dur::zero(),
            Timeout::Future { .. } => Dur::zero(),
            Timeout::Pending { start, .. } => now.saturating_sub(start),
            Timeout::Expired { actual, .. } => *actual,
        }
    }

    /// How much of the timeout has elapsed at instant `now`, rounded to the
    /// nearest millisecond, ties rounding up.
    pub fn elapsed_rounded(&self, now: Dur) -> (r: Dur)
        requires
            round_to_ms(self.spec_elapsed(now@)) <= dur_max(),
        ensures
            r@ == round_to_ms(self.spec_elapsed(now@)),
    {
        self.elapsed(now).round_to_nearest_ms()
    }

    /// Order two timeouts at instant `now` by their remaining time.
    ///
    /// A timeout that never fires sorts as the greatest value; all others
    /// compare by remaining time, so the smallest fires first.
    pub fn cmp_at(&self, other: &Timeout, now: Dur) -> (r: core::cmp::Ordering)
        ensures
            r == spec_cmp_remaining(
                self.spec_remaining(now@),
                other.spec_remaining(now@),
            ),
    {
        match (self.timeout(now), other.timeout(now)) {
            (None, None) => core::cmp::Ordering::Equal,
            (None, Some(_)) => core::cmp::Ordering::Greater,
            (Some(_), None) => core::cmp::Ordering::Less,
            (Some(a), Some(b)) => {
                if a.lt(&b) {
                    core::cmp::Ordering::Less
                } else if b.lt(&a) {
                    core::cmp::Ordering::Greater
                } else {
                    core::cmp::Ordering::Equal
                }
            },
        }
    }

    /// True when the two timeouts have the same remaining time at instant
    /// `now`.
    pub fn eq_at(&self, other: &Timeout, now: Dur) -> (r: bool)
        ensures
            r == (self.spec_remaining(now@) == other.spec_remaining(now@)),
    {
        matches!(self.cmp_at(other, now), core::cmp::Ordering::Equal)
    }

    /// The timeout that fires first at instant `now`; `self` when the two are
    /// equal.
    pub fn min_at(self, other: Timeout, now: Dur) -> (r: Timeout)
        ensures
            r == if spec_cmp_remaining(
                other.spec_remaining(now@),
                self.spec_remaining(now@),
            ) is Less {
                other
            } else {
                self
            },
    {
        if matches!(other.cmp_at(&self, now), core::cmp::Ordering::Less) {
            other
        } else {
            self
        }
    }
}

/// The order on remaining times: `None` (never fires) is the greatest value,
/// and bounded remainders compare as integers.
pub open spec fn spec_cmp_remaining(a: Option<int>, b: Option<int>) -> core::cmp::Ordering {
    match (a, b) {
        (Option::None, Option::None) => core::cmp::Ordering::Equal,
        (Option::None, Option::Some(_)) => core::cmp::Ordering::Greater,
        (Option::Some(_), Option::None) => core::cmp::Ordering::Less,
        (Option::Some(x), Option::Some(y)) => if x < y {
            core::cmp::Ordering::Less
        } else if x == y {
            core::cmp::Ordering::Equal
        } else {
            core::cmp::Ordering::Greater
        },
    }
}

/// Starting a planned timeout of length `d` at instant `now` yields exactly
/// `Pending { timeout: d, start: now }`, and nothing has elapsed on that
/// pending timeout at the same instant.
pub proof fn lemma_start_future(d: Dur, now: Dur)
    ensures
        (Timeout::Future { timeout: d }).spec_start(now) == (Timeout::Pending {
            timeout: d,
            start: now,
        }),
        (Timeout::Pending { timeout: d, start: now }).spec_elapsed(now@) == 0,
{
}

/// Starting is idempotent: `Never`, `Pending` and `Expired` values are
/// returned unchanged by `start`.
pub proof fn lemma_start_idempotent(t: Timeout, now: Dur, later: Dur)
    ensures
        t.spec_start(now).spec_start(later) == t.spec_start(now),
        !(t is Future) ==> t.spec_start(now) == t,
{
}

/// A pending timeout on which at least its full length has elapsed reports an
/// expiry: together with the contract of `check_expired`, the expiry carries
/// `requested` equal to the pending length and `actual` equal to the elapsed
/// time.
pub proof fn lemma_overdue_pending_expires(d: Dur, start: Dur, now: Dur)
    requires
        (Timeout::Pending { timeout: d, start }).spec_elapsed(now@) >= d@,
    ensures
        (Timeout::Pending { timeout: d, start }).spec_expires(now@),
        (Timeout::Pending { timeout: d, start }).spec_remaining(now@) == Some(0int),
{
}

/// Expiry is detected within one resolution tick of the true deadline and
/// never earlier: a pending timeout only reports an expiry once less than one
/// tick of its length remains, so the time that actually passed falls short
/// of the requested length by less than the resolution.
pub proof fn lemma_expiry_never_early(d: Dur, start: Dur, now: Dur)
    requires
        (Timeout::Pending { timeout: d, start }).spec_expires(now@),
    ensures
        (Timeout::Pending { timeout: d, start }).spec_elapsed(now@) > d@ - RESOLUTION_NANOS,
{
}

/// The strict ordering chain at instant `now`: a timeout that never fires
/// outlasts a planned one of length `d`, which outlasts a pending one with
/// `e1` elapsed, which outlasts a pending one with more elapsed time `e2`,
/// as long as `0 < e1 < e2 <= d`.
pub proof fn lemma_order_chain(d: Dur, s1: Dur, s2: Dur, now: Dur)
    requires
        s1@ <= now@,
        s2@ <= now@,
        0 < now@ - s1@,
        now@ - s1@ < now@ - s2@,
        now@ - s2@ <= d@,
    ensures
        spec_cmp_remaining(
            Timeout::Never.spec_remaining(now@),
            (Timeout::Future { timeout: d }).spec_remaining(now@),
        ) is Greater,
        spec_cmp_remaining(
            (Timeout::Future { timeout: d }).spec_remaining(now@),
            (Timeout::Pending { timeout: d, start: s1 }).spec_remaining(now@),
        ) is Greater,
        spec_cmp_remaining(
            (Timeout::Pending { timeout: d, start: s1 }).spec_remaining(now@),
            (Timeout::Pending { timeout: d, start: s2 }).spec_remaining(now@),
        ) is Greater,
{
}

/// A pending timeout that has run past its full length, and an expired
/// timeout, both have zero remaining time, so they compare equal to a planned
/// timeout of zero length.
pub proof fn lemma_overtime_equals_future_zero(
    d: Dur,
    start: Dur,
    req: Dur,
    act: Dur,
    zero: Dur,
    now: Dur,
)
    requires
        (Timeout::Pending { timeout: d, start }).spec_elapsed(now@) >= d@,
        zero@ == 0,
    ensures
        (Timeout::Pending { timeout: d, start }).spec_remaining(now@) == (Timeout::Future {
            timeout: zero,
        }).spec_remaining(now@),
        (Timeout::Expired { requested: req, actual: act }).spec_remaining(now@) == (
        Timeout::Future { timeout: zero }).spec_remaining(now@),
{
}

} // verus!
