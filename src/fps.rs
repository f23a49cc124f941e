//! The frame-rate clock: target interval and drift-free pacing decisions.
use vstd::prelude::*;

verus! {

/// Frame rate used when the configured one is missing or not positive.
pub const DEFAULT_FPS: u32 = 20;

/// Unit in which a time span is expressed.
#[derive(Clone, Copy, Debug, PartialEq, Eq, Structural)]
pub enum TimeUnit {
    Nanosecond,
    Microsecond,
    Millisecond,
    Second,
}

/// How many of `unit` make up one second.
pub open spec fn units_per_second(unit: TimeUnit) -> nat {
    match unit {
        TimeUnit::Nanosecond => 1_000_000_000,
        TimeUnit::Microsecond => 1_000_000,
        TimeUnit::Millisecond => 1_000,
        TimeUnit::Second => 1,
    }
}

/// Length of one frame period at `fps` frames per second, in `unit`, rounded down.
pub open spec fn interval_in(fps: nat, unit: TimeUnit) -> nat
    recommends
        fps > 0,
{
    units_per_second(unit) / fps
}

/// Length of one frame period in nanoseconds.
pub open spec fn interval_ns(fps: nat) -> nat {
    interval_in(fps, TimeUnit::Nanosecond)
}

/// How long to sleep after `elapsed` of the period `target` has passed: just
/// enough to reach the target, nothing when it is already exceeded.
pub open spec fn pacing_sleep(target: nat, elapsed: nat) -> nat {
    if elapsed < target {
        (target - elapsed) as nat
    } else {
        0
    }
}

/// The wall time one tick takes once its sleep is added.
pub open spec fn paced_span(target: nat, elapsed: nat) -> nat {
    elapsed + pacing_sleep(target, elapsed)
}

/// How far a tick ran past its target, zero when it did not.
pub open spec fn overrun(target: nat, elapsed: nat) -> nat {
    if elapsed > target {
        (elapsed - target) as nat
    } else {
        0
    }
}

/// Total wall time of a run of ticks whose working times are `elapsed`.
pub open spec fn total_paced(target: nat, elapsed: Seq<u64>) -> nat
    decreases elapsed.len(),
{
    if elapsed.len() == 0 {
        0
    } else {
        total_paced(target, elapsed.drop_last()) + paced_span(target, elapsed.last() as nat)
    }
}

/// Total overrun of a run of ticks whose working times are `elapsed`.
pub open spec fn total_overrun(target: nat, elapsed: Seq<u64>) -> nat
    decreases elapsed.len(),
{
    if elapsed.len() == 0 {
        0
    } else {
        total_overrun(target, elapsed.drop_last()) + overrun(target, elapsed.last() as nat)
    }
}

/// A clock that paces frames at a fixed, positive frame rate.
#[derive(Clone, Copy, Debug)]
pub struct FpsClock {
    fps: u32,
}

impl FpsClock {
    /// The configured frame rate.
    pub closed spec fn rate(&self) -> nat {
        self.fps as nat
    }

    /// A clock is well formed when its frame rate is positive.
    pub open spec fn wf(&self) -> bool {
        self.rate() > 0
    }

    /// Creates a clock for `fps` frames per second; a rate of zero must be
    /// replaced by a default before this is called.
    pub fn new(fps: u32) -> (r: Self)
        requires
            fps > 0,
        ensures
            r.rate() == fps,
            r.wf(),
    {
        FpsClock { fps }
    }

    /// The configured frame rate.
    pub fn fps(&self) -> (r: u32)
        ensures
            r == self.rate(),
    {
        self.fps
    }

    /// The frame period expressed in `unit`, rounded down.
    pub fn target_interval(&self, unit: TimeUnit) -> (r: u64)
        requires
            self.wf(),
        ensures
            r == interval_in(self.rate(), unit),
    {
        let per_second: u64 = match unit {
            TimeUnit::Nanosecond => 1_000_000_000,
            TimeUnit::Microsecond => 1_000_000,
            TimeUnit::Millisecond => 1_000,
            TimeUnit::Second => 1,
        };
        per_second / (self.fps as u64)
    }

    /// Nanoseconds to sleep after `elapsed_ns` have passed since the previous
    /// tick, so that the tick lasts exactly one frame period, measured from
    /// the real elapsed time and never from a nominal running count.
    pub fn pacing_sleep(&self, elapsed_ns: u64) -> (r: u64)
        requires
            self.wf(),
        ensures
            r == pacing_sleep(interval_ns(self.rate()), elapsed_ns as nat),
            elapsed_ns < interval_ns(self.rate()) ==> elapsed_ns + r == interval_ns(self.rate()),
    {
        let target = self.target_interval(TimeUnit::Nanosecond);
        if elapsed_ns < target {
            target - elapsed_ns
        } else {
            0
        }
    }

    /// Signed deviation of a tick that actually lasted `actual_ns` from the
    /// frame period: positive when it ran late.
    pub fn deviation(&self, actual_ns: u64) -> (r: i64)
        requires
            self.wf(),
            actual_ns <= i64::MAX,
        ensures
            r == actual_ns - interval_ns(self.rate()),
    {
        let target = self.target_interval(TimeUnit::Nanosecond);
        (actual_ns as i64) - (target as i64)
    }
}

/// Pacing keeps no running debt: over any number of ticks the wall time is
/// the number of ticks times the frame period, plus only the time by which
/// individual ticks overran it.
pub proof fn lemma_pacing_has_no_drift(clock: FpsClock, elapsed: Seq<u64>)
    requires
        clock.wf(),
    ensures
        total_paced(interval_ns(clock.rate()), elapsed) == elapsed.len() * interval_ns(
            clock.rate(),
        ) + total_overrun(interval_ns(clock.rate()), elapsed),
    decreases elapsed.len(),
{
    let t = interval_ns(clock.rate());
    if elapsed.len() > 0 {
        lemma_pacing_has_no_drift(clock, elapsed.drop_last());
        assert(elapsed.len() * t == (elapsed.len() - 1) * t + t) by (nonlinear_arith);
    }
}

} // verus!
