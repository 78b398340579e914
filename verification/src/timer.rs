//! A periodic countdown timer over the system's monotonic clock.
//!
//! The clock itself is read through trusted wrappers; the countdown
//! decision is verified against the reading.

use vstd::prelude::*;

verus! {

/// Declares `std::time::Instant`, an opaque point on the monotonic clock.
#[verifier::external_type_specification]
#[verifier::external_body]
pub struct ExInstant(std::time::Instant);

/// Relies on `std::time::Instant::now`: a fresh reading of the monotonic
/// clock. Nothing can be promised of its value.
#[verifier::external_body]
fn instant_now() -> std::time::Instant {
    std::time::Instant::now()
}

/// Relies on `std::time::Instant::elapsed`: the time since `start`,
/// converted to whole nanoseconds, saturated into a `u64`. Nothing can be
/// promised of its value.
#[verifier::external_body]
fn elapsed_ns(start: &std::time::Instant) -> u64 {
    u64::try_from(start.elapsed().as_nanos()).unwrap_or(u64::MAX)
}

/// Outcome of polling a countdown.
#[derive(Clone, Copy, Debug, PartialEq, Eq, Structural)]
pub enum TimerPoll {
    /// The duration has elapsed; the timer has restarted for the next
    /// period.
    Ready,
    /// The duration has not elapsed yet; poll again.
    Pending,
}

/// A periodic timer based on the monotonic clock: started with a
/// duration, it reports ready once that much time has elapsed, and then
/// restarts itself so that it fires once per period.
pub struct SysTimer {
    /// Clock reading the current period counts from.
    pub start: std::time::Instant,
    /// Length of a period, in nanoseconds.
    pub duration_ns: u64,
}

/// Whether a countdown of `duration_ns` is over after `elapsed_ns`.
pub open spec fn spec_countdown_over(elapsed_ns: u64, duration_ns: u64) -> bool {
    elapsed_ns >= duration_ns
}

impl SysTimer {
    /// Creates a timer instance. The duration is initialized to zero, so
    /// start the timer with the desired duration before waiting on it.
    pub fn new() -> (t: SysTimer)
        ensures
            t.duration_ns == 0,
    {
        SysTimer { start: instant_now(), duration_ns: 0 }
    }

    /// Starts (or restarts) the countdown: the timer becomes ready once
    /// `duration_ns` nanoseconds have elapsed from now.
    pub fn try_start(&mut self, duration_ns: u64)
        ensures
            final(self).duration_ns == duration_ns,
    {
        self.start = instant_now();
        self.duration_ns = duration_ns;
    }

    /// Decides one poll from an elapsed-time reading: ready exactly when
    /// the duration has elapsed. [`SysTimer::try_wait`] feeds this the
    /// clock's reading.
    pub fn poll_at(elapsed_ns: u64, duration_ns: u64) -> (r: TimerPoll)
        ensures
            r == TimerPoll::Ready <==> spec_countdown_over(elapsed_ns, duration_ns),
    {
        if elapsed_ns >= duration_ns {
            TimerPoll::Ready
        } else {
            TimerPoll::Pending
        }
    }

    /// Polls the countdown against the monotonic clock. Once ready the
    /// timer restarts from now, keeping its duration, so that it fires
    /// periodically.
    pub fn try_wait(&mut self) -> (r: TimerPoll)
        ensures
            final(self).duration_ns == old(self).duration_ns,
    {
        let elapsed: u64 = elapsed_ns(&self.start);
        match SysTimer::poll_at(elapsed, self.duration_ns) {
            TimerPoll::Ready => {
                self.start = instant_now();
                TimerPoll::Ready
            },
            TimerPoll::Pending => TimerPoll::Pending,
        }
    }
}

} // verus!
