//! Decisions of the readiness loop.
//!
//! The loop that watches the child's two output streams is split in two: the
//! wrapper around it performs the blocking calls (spawn, poll, read, write),
//! while everything the loop decides — which deadline is tighter, whether a
//! deadline has expired, what to do with a read result, where a burst of
//! bytes goes, how the child's termination maps to an exit code — lives here
//! as pure functions of plain values.

use vstd::prelude::*;

use crate::dur::{dur_max, round_to_ms, Dur};
use crate::timeout::{spec_cmp_remaining, Timeout};

verus! {

/// The longest native timeout a single bounded wait accepts, in milliseconds.
pub const POLL_MAX_MILLIS: u64 = 0x7fff_ffff;

/// Identifies which of the two child streams an event refers to.
#[derive(Clone, Copy, Debug, PartialEq, Eq, Structural)]
pub enum StreamKey {
    /// The child's primary output stream.
    Primary,
    /// The child's secondary (error) output stream.
    Secondary,
}

/// Which of the two deadlines fired.
#[derive(Clone, Copy, Debug, PartialEq, Eq, Structural)]
pub enum TimeoutKind {
    /// The idle timeout: too much silence between readiness events.
    Idle,
    /// The run timeout: the whole invocation took too long.
    Run,
}

/// A readiness notification for one registered stream.
#[derive(Clone, Copy, Debug)]
pub struct ReadinessEvent {
    /// The stream the notification is about.
    pub key: StreamKey,
    /// Data is available to read.
    pub readable: bool,
    /// The far end closed; no further data will arrive.
    pub hangup: bool,
}

/// Classify an expired deadline.
///
/// `timeout` is the deadline that was being waited on and `expired` is the
/// value that its expiry check produced. The idle timeout is always waited on
/// in its planned (`Future`) form, while the run timeout is always counting
/// (`Pending`), so the variant of `timeout` decides which diagnostic the
/// wrapper emits; alongside it comes the expired deadline's elapsed time
/// rounded to the nearest millisecond, for the diagnostic text.
pub fn timeout_fail(timeout: &Timeout, expired: &Timeout) -> (r: (TimeoutKind, Dur))
    requires
        timeout is Future || timeout is Pending,
        expired is Expired,
        expired matches Timeout::Expired { actual, .. } ==> round_to_ms(actual@) <= dur_max(),
    ensures
        r.0 == if timeout is Future {
            TimeoutKind::Idle
        } else {
            TimeoutKind::Run
        },
        expired matches Timeout::Expired { actual, .. } ==> r.1@ == round_to_ms(actual@),
{
    let kind = if matches!(timeout, Timeout::Future { .. }) {
        TimeoutKind::Idle
    } else {
        TimeoutKind::Run
    };
    (kind, expired.elapsed_rounded(Dur::zero()))
}

/// A planned timeout of length `d`.
pub fn from_dur(d: Dur) -> (r: Timeout)
    ensures
        r == (Timeout::Future { timeout: d }),
{
    Timeout::Future { timeout: d }
}

/// A planned timeout of length `d`, or one that never fires when no length is
/// given.
pub fn from_opt_dur(d: Option<Dur>) -> (r: Timeout)
    ensures
        r == spec_from_opt(d),
{
    match d {
        Some(d) => Timeout::Future { timeout: d },
        None => Timeout::Never,
    }
}

/// The timeout an optional configured length stands for.
pub open spec fn spec_from_opt(d: Option<Dur>) -> Timeout {
    match d {
        Some(d) => Timeout::Future { timeout: d },
        None => Timeout::Never,
    }
}

/// The loop's view of the run: which sources are still registered and the two
/// deadlines.
#[derive(Clone, Copy, Debug)]
pub struct LoopState {
    /// The child's primary stream is still registered.
    pub primary_open: bool,
    /// The child's secondary stream is still registered.
    pub secondary_open: bool,
    /// The whole-run deadline, counting since launch; `Pending` or `Never`.
    pub run_timeout: Timeout,
    /// The per-wait silence deadline in its planned form; `Future` or `Never`.
    pub idle_timeout: Timeout,
}

/// What one cycle of the readiness loop does next.
#[derive(Clone, Copy, Debug)]
pub enum CyclePlan {
    /// No sources remain: wait for the child to terminate and translate its
    /// exit.
    Finished,
    /// A deadline expired: abort with this classification.
    Fail { kind: TimeoutKind, rounded: Dur },
    /// Wait for readiness under this deadline, the tighter of run and idle.
    Wait { timeout: Timeout },
}

impl LoopState {
    /// Both deadlines are in the shape the loop keeps them in: the run
    /// deadline counts from launch, the idle deadline is re-started every
    /// cycle from its planned form.
    pub open spec fn wf(self) -> bool {
        &&& (self.run_timeout is Pending || self.run_timeout is Never)
        &&& (self.idle_timeout is Future || self.idle_timeout is Never)
    }

    /// The deadline the next wait runs under: whichever of run and idle has
    /// the less remaining time, the run deadline when they tie.
    pub open spec fn spec_min_timeout(self, now: int) -> Timeout {
        if spec_cmp_remaining(
            self.idle_timeout.spec_remaining(now),
            self.run_timeout.spec_remaining(now),
        ) is Less {
            self.idle_timeout
        } else {
            self.run_timeout
        }
    }

    /// The state at launch: both streams registered, the run deadline started
    /// at instant `now`, the idle deadline kept planned.
    pub fn new(run: Option<Dur>, idle: Option<Dur>, now: Dur) -> (r: LoopState)
        ensures
            r.primary_open,
            r.secondary_open,
            r.run_timeout == spec_from_opt(run).spec_start(now),
            r.idle_timeout == spec_from_opt(idle),
            r.wf(),
    {
        LoopState {
            primary_open: true,
            secondary_open: true,
            run_timeout: from_opt_dur(run).start(now),
            idle_timeout: from_opt_dur(idle),
        }
    }

    /// True while at least one stream is still registered.
    pub fn has_sources(&self) -> (r: bool)
        ensures
            r == (self.primary_open || self.secondary_open),
    {
        self.primary_open || self.secondary_open
    }

    /// Digest one readiness notification: a hangup removes the stream from
    /// the registry, since nothing further will arrive on it; anything else
    /// leaves the state unchanged.
    pub fn apply_event(&mut self, event: ReadinessEvent)
        ensures
            final(self).primary_open == (old(self).primary_open && !(event.hangup
                && event.key is Primary)),
            final(self).secondary_open == (old(self).secondary_open && !(event.hangup
                && event.key is Secondary)),
            final(self).run_timeout == old(self).run_timeout,
            final(self).idle_timeout == old(self).idle_timeout,
    {
        if event.hangup {
            self.unregister(event.key);
        }
    }

    /// Remove a stream from the registry; removing one that is already gone
    /// changes nothing.
    pub fn unregister(&mut self, key: StreamKey)
        ensures
            final(self).primary_open == (old(self).primary_open && !(key is Primary)),
            final(self).secondary_open == (old(self).secondary_open && !(key is Secondary)),
            final(self).run_timeout == old(self).run_timeout,
            final(self).idle_timeout == old(self).idle_timeout,
    {
        match key {
            StreamKey::Primary => self.primary_open = false,
            StreamKey::Secondary => self.secondary_open = false,
        }
    }

    /// Decide what one cycle of the loop does at instant `now`: finish when no
    /// sources remain, abort when the tighter deadline has already expired,
    /// otherwise wait under that deadline.
    pub fn cycle_plan(&self, now: Dur) -> (r: CyclePlan)
        requires
            self.wf(),
            round_to_ms(now@) <= dur_max(),
        ensures
            !self.primary_open && !self.secondary_open ==> r is Finished,
            (self.primary_open || self.secondary_open) && self.spec_min_timeout(now@).spec_expires(
                now@,
            ) ==> (r matches CyclePlan::Fail { kind, rounded }
                && kind == if self.spec_min_timeout(now@) is Future {
                TimeoutKind::Idle
            } else {
                TimeoutKind::Run
            } && rounded@ == round_to_ms(self.spec_min_timeout(now@).spec_elapsed(now@))),
            (self.primary_open || self.secondary_open) && !self.spec_min_timeout(
                now@,
            ).spec_expires(now@) ==> r == (CyclePlan::Wait { timeout: self.spec_min_timeout(now@) }),
    {
        if !self.has_sources() {
            return CyclePlan::Finished;
        }
        let timeout = self.run_timeout.min_at(self.idle_timeout, now);
        match timeout.check_expired(now) {
            Some(expired) => {
                proof {
                    lemma_round_to_ms_monotone(expired->Expired_actual@, now@);
                }
                let (kind, rounded) = timeout_fail(&timeout, &expired);
                CyclePlan::Fail { kind, rounded }
            },
            None => CyclePlan::Wait { timeout },
        }
    }
}

/// What the bounded wait does next.
#[derive(Clone, Copy, Debug)]
pub enum PollStep {
    /// The deadline expired before anything arrived.
    Expired { expired: Timeout },
    /// Issue one bounded wait with this native timeout, then come back with a
    /// fresh instant.
    Wait { native: Option<Dur> },
}

/// Decide one round of the bounded wait at instant `now`.
///
/// `started` is the deadline the wait runs under, already counting. When it
/// has expired, report the expiry. Otherwise issue a native wait whose length
/// is the remaining time, capped at the ceiling the wait primitive accepts —
/// a deadline that never fires still waits no longer than the ceiling, and is
/// simply re-checked afterwards.
pub fn poll_step(started: &Timeout, now: Dur) -> (r: PollStep)
    ensures
        started is Pending && started.spec_expires(now@)
            ==> (r matches PollStep::Expired { expired } && expired matches Timeout::Expired {
            requested,
            actual,
        } && requested == started->Pending_timeout && actual@ == started.spec_elapsed(now@)),
        started is Expired ==> (r matches PollStep::Expired { expired } && expired == *started),
        !started.spec_expires(now@) ==> (r matches PollStep::Wait { native }
            && native matches Some(d) && d@ == match started.spec_remaining(now@) {
            Some(v) => if v <= POLL_MAX_MILLIS * 1_000_000 {
                v
            } else {
                POLL_MAX_MILLIS * 1_000_000
            },
            None => POLL_MAX_MILLIS * 1_000_000,
        }),
{
    match started.check_expired(now) {
        Some(expired) => PollStep::Expired { expired },
        None => {
            let ceiling = Timeout::Future { timeout: Dur::from_millis(POLL_MAX_MILLIS) };
            let native = started.min_at(ceiling, now).timeout(now);
            PollStep::Wait { native }
        },
    }
}

/// True when a failed bounded wait only reports that its native timeout
/// elapsed: such a failure is swallowed and the deadline re-checked, rather
/// than surfaced.
pub fn poll_retry(native_was_some: bool, err_timed_out: bool) -> (r: bool)
    ensures
        r == (native_was_some && err_timed_out),
{
    native_was_some && err_timed_out
}

/// The result of one non-blocking read of a ready stream, as plain values.
#[derive(Clone, Copy, Debug)]
pub enum ReadResult {
    /// The read returned this many bytes.
    Bytes { count: usize },
    /// The read would have blocked: the stream is drained for now.
    WouldBlock,
    /// The read failed with any other error.
    Failed,
}

/// What the dispatcher does after one read of a ready stream.
#[derive(Clone, Copy, Debug, PartialEq, Eq, Structural)]
pub enum ReadStep {
    /// Forward the bytes and read again: a full buffer suggests more is
    /// waiting.
    ForwardAndContinue,
    /// Forward the bytes and stop: a short read suggests the stream has
    /// momentarily quiesced, so the other stream gets a turn.
    ForwardAndYield,
    /// Nothing to forward; stop reading this stream for now.
    Stop,
    /// The read failed fatally: abort the run.
    Fail,
}

/// Decide what to do with one read result.
///
/// Bytes are forwarded exactly when the read returned more than zero of them;
/// reading continues only while each read fills the buffer completely.
pub fn read_step(result: ReadResult, buffer_len: usize) -> (r: ReadStep)
    requires
        buffer_len > 0,
        result matches ReadResult::Bytes { count } ==> count <= buffer_len,
    ensures
        result matches ReadResult::Bytes { count } && count == buffer_len
            ==> r is ForwardAndContinue,
        result matches ReadResult::Bytes { count } && 0 < count < buffer_len
            ==> r is ForwardAndYield,
        result matches ReadResult::Bytes { count } && count == 0 ==> r is Stop,
        result is WouldBlock ==> r is Stop,
        result is Failed ==> r is Fail,
{
    match result {
        ReadResult::Bytes { count } => {
            if count == buffer_len {
                ReadStep::ForwardAndContinue
            } else if count > 0 {
                ReadStep::ForwardAndYield
            } else {
                ReadStep::Stop
            }
        },
        ReadResult::WouldBlock => ReadStep::Stop,
        ReadResult::Failed => ReadStep::Fail,
    }
}

/// Where one burst of bytes goes, and how.
#[derive(Clone, Copy, Debug, PartialEq, Eq, Structural)]
pub struct WritePlan {
    /// Write to the secondary sink; otherwise to the primary sink.
    pub to_secondary: bool,
    /// Wrap the bytes in highlight and reset sequences.
    pub highlight: bool,
}

/// Decide where a burst of bytes from stream `key` goes.
///
/// Secondary-stream bytes go to the secondary sink only when the two sinks
/// are kept separate; they are highlighted exactly when color is enabled.
/// Primary-stream bytes are never highlighted.
pub fn write_plan(key: StreamKey, separate: bool, color: bool) -> (r: WritePlan)
    ensures
        r.to_secondary == (separate && key is Secondary),
        r.highlight == (color && key is Secondary),
        r.highlight ==> key is Secondary,
{
    WritePlan {
        to_secondary: separate && matches!(key, StreamKey::Secondary),
        highlight: color && matches!(key, StreamKey::Secondary),
    }
}

/// The wrapper's exit code when the child is seen to have exited with `code`,
/// or to have been terminated by `signal`.
pub open spec fn spec_exit_code(code: Option<i32>, signal: Option<i32>) -> Option<int> {
    match code {
        Some(c) => Some(c as int),
        None => match signal {
            Some(s) => Some(
                if s + 128 > i32::MAX {
                    i32::MAX as int
                } else {
                    s + 128
                },
            ),
            None => None,
        },
    }
}

/// Translate how the child terminated into the wrapper's exit code.
///
/// A numeric exit status is passed through; termination by a signal becomes
/// `128 + signal`, saturating; when neither is reported there is no code, a
/// fatal internal error for the wrapper.
pub fn wait_status_to_code(code: Option<i32>, signal: Option<i32>) -> (r: Option<i32>)
    ensures
        match spec_exit_code(code, signal) {
            Some(v) => r matches Some(x) && x == v,
            None => r is None,
        },
{
    match code {
        Some(c) => Some(c),
        None => match signal {
            Some(s) => {
                if s > i32::MAX - 128 {
                    Some(i32::MAX)
                } else {
                    Some(s + 128)
                }
            },
            None => None,
        },
    }
}

/// Rounding to the nearest millisecond is monotone, so a bound on the raw
/// value bounds the rounded one.
proof fn lemma_round_to_ms_monotone(a: int, b: int)
    requires
        a <= b,
    ensures
        round_to_ms(a) <= round_to_ms(b),
{
    vstd::arithmetic::div_mod::lemma_div_is_ordered(a + 500_000, b + 500_000, 1_000_000);
    assert(round_to_ms(a) <= round_to_ms(b)) by (nonlinear_arith)
        requires
            (a + 500_000) / 1_000_000 <= (b + 500_000) / 1_000_000,
            round_to_ms(a) == ((a + 500_000) / 1_000_000) * 1_000_000,
            round_to_ms(b) == ((b + 500_000) / 1_000_000) * 1_000_000,
    ;
}

} // verus!
