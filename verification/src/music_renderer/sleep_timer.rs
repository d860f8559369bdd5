//! Sleep timer that stops playback after a configured duration, at most two
//! hours.
use crate::error::msg;
use vstd::prelude::*;

verus! {

/// A point of the monotonic clock.
#[verifier::external_type_specification]
#[verifier::external_body]
pub struct ExInstant(std::time::Instant);

/// The current point of the monotonic clock (`Instant::now`); nothing is
/// promised of it.
#[verifier::external_body]
fn instant_now() -> std::time::Instant {
    std::time::Instant::now()
}

/// The span from `earlier` to `later` (`Instant::duration_since`, which
/// gives zero when `earlier` is later).
#[verifier::external_body]
fn instant_duration_since(later: &std::time::Instant, earlier: &std::time::Instant) -> core::time::Duration {
    later.duration_since(*earlier)
}

/// Nanoseconds in one second.
pub const NANOS_PER_SEC: u128 = 1_000_000_000;

/// More nanoseconds than any span holds: a `Duration` holds at most
/// `u64::MAX` whole seconds and less than one second more.
pub const SPAN_NANOS_BOUND: u128 = 18_446_744_073_709_551_616_000_000_000;

/// Nanoseconds of a span (`Duration::as_nanos`), below the bound that the
/// representation of `Duration` (whole seconds in a `u64`, plus less than a
/// second) sets.
#[verifier::external_body]
fn duration_as_nanos(d: &core::time::Duration) -> (r: u128)
    ensures
        r < SPAN_NANOS_BOUND,
{
    d.as_nanos()
}

/// Seconds left before `deadline_ns` when the clock reads `now_ns` (both in
/// nanoseconds on the timer's clock): zero once the deadline is reached,
/// otherwise the whole seconds left.
pub open spec fn spec_remaining(deadline_ns: u128, now_ns: u128) -> u32 {
    if now_ns >= deadline_ns {
        0
    } else {
        ((deadline_ns - now_ns) / (NANOS_PER_SEC as int)) as u32
    }
}

/// The deadline `d` seconds after the clock reading `now`.
pub open spec fn deadline_after(now: u128, d: u32) -> u128 {
    (now + d * (NANOS_PER_SEC as int)) as u128
}

/// Seconds left before a deadline at a clock reading (see [`spec_remaining`]).
pub fn remaining_at(deadline_ns: u128, now_ns: u128) -> (r: u32)
    ensures
        r == spec_remaining(deadline_ns, now_ns),
{
    if now_ns >= deadline_ns {
        0
    } else {
        #[verifier::truncate]
        (((deadline_ns - now_ns) / NANOS_PER_SEC) as u32)
    }
}

/// The deadline is reached at the clock reading `now_ns`.
pub open spec fn reached(deadline_ns: u128, now_ns: u128) -> bool {
    now_ns >= deadline_ns
}

/// Whether a deadline is reached at a clock reading.
pub fn expired_at(deadline_ns: u128, now_ns: u128) -> (r: bool)
    ensures
        r == reached(deadline_ns, now_ns),
{
    now_ns >= deadline_ns
}

/// Sleep timer state: the deadline, in nanoseconds after the timer's
/// clock origin, and the configured duration.
#[derive(Debug)]
pub struct SleepTimer {
    origin: std::time::Instant,
    deadline_ns: Option<u128>,
    duration_seconds: u32,
}

impl Clone for SleepTimer {
    fn clone(&self) -> (r: Self)
        ensures
            r.deadline() == self.deadline(),
            r.configured() == self.configured(),
    {
        SleepTimer { origin: self.origin, deadline_ns: self.deadline_ns, duration_seconds: self.duration_seconds }
    }
}

impl Default for SleepTimer {
    fn default() -> (r: Self)
        ensures
            !r.active(),
            r.configured() == 0,
    {
        SleepTimer { origin: instant_now(), deadline_ns: None, duration_seconds: 0 }
    }
}

/// Why a duration is refused, if it is.
pub open spec fn duration_error(duration_seconds: u32) -> Option<Seq<char>> {
    if duration_seconds == 0 {
        Some("Duration must be greater than 0"@)
    } else if duration_seconds > 7200 {
        Some("Duration cannot exceed 7200 seconds (2 hours)"@)
    } else {
        None
    }
}

impl SleepTimer {
    /// Maximum timer duration in seconds (2 hours).
    pub const MAX_DURATION: u32 = 7200;

    /// Whether a timer runs.
    pub closed spec fn active(&self) -> bool {
        self.deadline_ns is Some
    }

    /// The deadline, in nanoseconds on the timer's clock, when a timer runs.
    pub closed spec fn deadline(&self) -> Option<u128> {
        self.deadline_ns
    }

    /// A timer runs exactly when it has a deadline.
    pub proof fn lemma_active_has_deadline(&self)
        ensures
            self.active() <==> self.deadline() is Some,
    {
    }

    /// The configured duration.
    pub closed spec fn configured(&self) -> u32 {
        self.duration_seconds
    }

    /// A new inactive timer.
    pub fn new() -> (r: Self)
        ensures
            !r.active(),
            r.configured() == 0,
    {
        Self::default()
    }

    /// Reads the timer's clock: nanoseconds since its origin.
    fn clock_reading(&self) -> (r: u128)
        ensures
            r < SPAN_NANOS_BOUND,
    {
        let now = instant_now();
        duration_as_nanos(&instant_duration_since(&now, &self.origin))
    }

    /// Seconds left, or `None` when no timer runs; `0` once it has expired.
    /// The clock is read once; the result is [`remaining_at`] of the deadline
    /// and that reading.
    pub fn remaining_seconds(&self) -> (r: Option<u32>)
        ensures
            match self.deadline() {
                None => r is None,
                Some(d) => exists|now: u128| now < SPAN_NANOS_BOUND && r == Some(spec_remaining(d, now)),
            },
    {
        match self.deadline_ns {
            None => None,
            Some(end) => {
                let now = self.clock_reading();
                Some(remaining_at(end, now))
            },
        }
    }

    /// The configured duration in seconds.
    pub fn duration_seconds(&self) -> (r: u32)
        ensures
            r == self.configured(),
    {
        self.duration_seconds
    }

    /// Whether a timer runs.
    pub fn is_active(&self) -> (r: bool)
        ensures
            r == self.active(),
    {
        self.deadline_ns.is_some()
    }

    /// Whether the timer has expired (never when none runs). The clock is
    /// read once; the result is [`expired_at`] of the deadline and that
    /// reading.
    pub fn is_expired(&self) -> (r: bool)
        ensures
            match self.deadline() {
                None => !r,
                Some(d) => exists|now: u128| now < SPAN_NANOS_BOUND && r == #[trigger] reached(d, now),
            },
    {
        match self.deadline_ns {
            None => false,
            Some(end) => {
                let now = self.clock_reading();
                expired_at(end, now)
            },
        }
    }

    /// Checks a duration: refused when zero or above the maximum.
    fn check_duration(duration_seconds: u32) -> (r: Result<(), String>)
        ensures
            match duration_error(duration_seconds) {
                Some(m) => r matches Err(e) && e@ == m,
                None => r is Ok,
            },
    {
        if duration_seconds == 0 {
            return Err(msg("Duration must be greater than 0"));
        }
        if duration_seconds > Self::MAX_DURATION {
            return Err(msg("Duration cannot exceed 7200 seconds (2 hours)"));
        }
        Ok(())
    }

    /// Starts or restarts the timer for `duration_seconds` from now.
    pub fn start(&mut self, duration_seconds: u32) -> (r: Result<(), String>)
        ensures
            match duration_error(duration_seconds) {
                Some(m) => (r matches Err(e) && e@ == m) && *final(self) == *old(self),
                None => r is Ok && final(self).active() && final(self).configured() == duration_seconds && exists|now: u128|
                    now < SPAN_NANOS_BOUND && final(self).deadline() == Some(#[trigger] deadline_after(now, duration_seconds)),
            },
    {
        Self::check_duration(duration_seconds)?;
        let now = self.clock_reading();
        self.duration_seconds = duration_seconds;
        self.deadline_ns = Some(now + (duration_seconds as u128) * NANOS_PER_SEC);
        assert(self.deadline() == Some(deadline_after(now, duration_seconds)));
        Ok(())
    }

    /// Resets the timer to `duration_seconds` from now.
    pub fn update(&mut self, duration_seconds: u32) -> (r: Result<(), String>)
        ensures
            match duration_error(duration_seconds) {
                Some(m) => (r matches Err(e) && e@ == m) && *final(self) == *old(self),
                None => r is Ok && final(self).active() && final(self).configured() == duration_seconds && exists|now: u128|
                    now < SPAN_NANOS_BOUND && final(self).deadline() == Some(#[trigger] deadline_after(now, duration_seconds)),
            },
    {
        Self::check_duration(duration_seconds)?;
        let now = self.clock_reading();
        self.duration_seconds = duration_seconds;
        self.deadline_ns = Some(now + (duration_seconds as u128) * NANOS_PER_SEC);
        assert(self.deadline() == Some(deadline_after(now, duration_seconds)));
        Ok(())
    }

    /// Cancels the timer.
    pub fn cancel(&mut self)
        ensures
            !final(self).active(),
            final(self).configured() == 0,
    {
        self.deadline_ns = None;
        self.duration_seconds = 0;
    }
}

/// A timer accepts exactly the durations from one second to two hours;
/// once started it runs with the given duration, and once cancelled it is
/// idle again.
pub proof fn law_timer_accepts_one_second_to_two_hours(d: u32)
    ensures
        duration_error(d) is None <==> 1 <= d <= 7200,
{
}

/// A timer started at clock reading `t` for `d` seconds reports `d` seconds
/// left at once, never more than `d` afterwards, fewer or as many as time
/// goes on, and zero (and expiry) from the deadline on; before it, it has
/// not expired.
pub proof fn law_timer_counts_down(t: u128, d: u32, now: u128, later: u128)
    requires
        1 <= d <= 7200,
        t < SPAN_NANOS_BOUND,
        t <= now <= later,
    ensures
        spec_remaining(deadline_after(t, d), t) == d,
        spec_remaining(deadline_after(t, d), now) <= d,
        spec_remaining(deadline_after(t, d), later) <= spec_remaining(deadline_after(t, d), now),
        later >= t + d * (NANOS_PER_SEC as int) ==> spec_remaining(deadline_after(t, d), later) == 0 && reached(
            deadline_after(t, d),
            later,
        ),
        now < t + d * (NANOS_PER_SEC as int) ==> !reached(deadline_after(t, d), now),
        
{
    let dl: int = t + d * 1_000_000_000;
    assert((d * 1_000_000_000) / 1_000_000_000 == d) by (nonlinear_arith);
    if now < dl {
        assert((dl - now) / 1_000_000_000 <= (dl - t) / 1_000_000_000) by (nonlinear_arith)
            requires
                t <= now < dl,
        ;
        if later < dl {
            assert((dl - later) / 1_000_000_000 <= (dl - now) / 1_000_000_000) by (nonlinear_arith)
                requires
                    now <= later < dl,
            ;
        }
    }
}

} // verus!
