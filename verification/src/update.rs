//! Fixed-timestep update scheduling: a desired update rate becomes a
//! fixed interval, elapsed wall-clock time accumulates as lag, and
//! each poll drains one callback run per whole interval of lag.

use vstd::prelude::*;
use vstd::arithmetic::div_mod::lemma_basic_div;
use vstd::arithmetic::div_mod::lemma_div_non_zero;
use vstd::arithmetic::div_mod::lemma_fundamental_div_mod_converse;
use vstd::arithmetic::div_mod::lemma_small_mod;

verus! {

/// Nanoseconds in one second.
pub const NANOS_PER_SECOND: u64 = 1_000_000_000;

/// Nanoseconds in one minute.
pub const NANOS_PER_MINUTE: u64 = 60_000_000_000;

/// A span of time as a whole number of nanoseconds (up to roughly
/// 584 years), the unit all scheduling arithmetic is carried out in.
#[derive(Debug, Clone, Copy, PartialEq, Eq, Hash, Structural)]
pub struct TimeSpan {
    pub nanos: u64,
}

/// How often a scheduler should run its update callback: an explicit
/// interval between updates, or a count of updates per second or per
/// minute.
#[derive(Debug, Clone, Copy, PartialEq, Eq, Hash, Structural)]
pub enum UpdateRate {
    Interval(TimeSpan),
    PerSecond(u32),
    PerMinute(u32),
}

impl UpdateRate {
    /// The interval this rate stands for, in nanoseconds: an explicit
    /// interval unchanged, one second divided by a per-second count,
    /// one minute divided by a per-minute count (whole-nanosecond
    /// division, rounding down).
    pub open spec fn interval_nanos(self) -> int {
        match self {
            UpdateRate::Interval(span) => span.nanos as int,
            UpdateRate::PerSecond(count) => NANOS_PER_SECOND as int / count as int,
            UpdateRate::PerMinute(count) => NANOS_PER_MINUTE as int / count as int,
        }
    }

    /// A rate is valid when it stands for a positive interval. A count
    /// of zero (division by zero), a count so large that the interval
    /// rounds down to nothing, and an explicit zero interval are all
    /// configuration errors.
    pub open spec fn wf(self) -> bool {
        match self {
            UpdateRate::Interval(span) => span.nanos > 0,
            UpdateRate::PerSecond(count) => count != 0 && NANOS_PER_SECOND as int / count as int > 0,
            UpdateRate::PerMinute(count) => count != 0 && NANOS_PER_MINUTE as int / count as int > 0,
        }
    }

    /// Checks validity of the rate, so that a caller can reject a bad
    /// configuration outright instead of constructing a scheduler
    /// from it.
    pub fn is_valid(&self) -> (r: bool)
        ensures
            r == self.wf(),
    {
        match *self {
            UpdateRate::Interval(span) => span.nanos > 0,
            UpdateRate::PerSecond(count) => count != 0 && NANOS_PER_SECOND / (count as u64) > 0,
            UpdateRate::PerMinute(count) => count != 0 && NANOS_PER_MINUTE / (count as u64) > 0,
        }
    }

    /// The fixed interval between two updates that this rate stands
    /// for.
    pub fn to_interval(self) -> (r: TimeSpan)
        requires
            self.wf(),
        ensures
            r.nanos == self.interval_nanos(),
            r.nanos > 0,
    {
        match self {
            UpdateRate::Interval(span) => span,
            UpdateRate::PerSecond(count) => TimeSpan { nanos: NANOS_PER_SECOND / (count as u64) },
            UpdateRate::PerMinute(count) => TimeSpan { nanos: NANOS_PER_MINUTE / (count as u64) },
        }
    }
}

/// The greatest number of nanoseconds the platform clock can report
/// at once: `u64::MAX` seconds and `999_999_999` nanoseconds, the
/// upper bound of a standard-library duration.
pub open spec fn elapsed_bound() -> int {
    0xffff_ffff_ffff_ffffint * 1_000_000_000 + 999_999_999
}

/// Number of whole update intervals contained in the lag carried over
/// from the previous poll plus the newly elapsed time: how many times
/// one poll runs the update callback.
pub open spec fn ticks_of(lag: int, interval: int, elapsed: int) -> int {
    (lag + elapsed) / interval
}

/// The lag that remains once a poll has drained every whole interval
/// into a callback run.
pub open spec fn lag_after(lag: int, interval: int, elapsed: int) -> int {
    (lag + elapsed) % interval
}

/// A poll runs the callback at least once exactly when the carried
/// lag and the newly elapsed time together reach one interval — the
/// lookahead answers true precisely when the next poll would perform
/// an update.
pub proof fn lemma_tick_pending(lag: int, interval: int, elapsed: int)
    requires
        0 < interval,
        0 <= lag,
        0 <= elapsed,
    ensures
        ticks_of(lag, interval, elapsed) >= 1 <==> lag + elapsed >= interval,
{
    if lag + elapsed >= interval {
        lemma_div_non_zero(lag + elapsed, interval);
    } else {
        lemma_basic_div(lag + elapsed, interval);
    }
}

/// When exactly `k` whole intervals plus a remainder `r` have elapsed
/// on top of a carried lag (the lag and remainder together still
/// short of one interval), a poll runs the callback exactly `k` times
/// and carries `lag + r` forward.
pub proof fn lemma_whole_intervals(lag: int, interval: int, k: int, r: int)
    requires
        0 < interval,
        0 <= lag,
        0 <= k,
        0 <= r,
        lag + r < interval,
    ensures
        ticks_of(lag, interval, k * interval + r) == k,
        lag_after(lag, interval, k * interval + r) == lag + r,
{
    lemma_fundamental_div_mod_converse(lag + (k * interval + r), interval, k, lag + r);
}

/// Draining zero elapsed time leaves everything as it was: no
/// callback runs and the lag — hence the interpolation fraction — is
/// unchanged.
pub proof fn lemma_zero_elapsed(lag: int, interval: int)
    requires
        0 < interval,
        0 <= lag < interval,
    ensures
        ticks_of(lag, interval, 0) == 0,
        lag_after(lag, interval, 0) == lag,
{
    lemma_basic_div(lag, interval);
    lemma_small_mod(lag as nat, interval as nat);
}

impl Default for UpdateRate {
    /// Sixty updates per second.
    fn default() -> (r: Self)
        ensures
            r == UpdateRate::PerSecond(60u32),
            r.wf(),
    {
        UpdateRate::PerSecond(60)
    }
}

/// `instant::Instant`, the monotonic clock reading the scheduler
/// stores between polls. Opaque to verification; read only through
/// the trusted clock functions below.
#[verifier::external_type_specification]
#[verifier::external_body]
pub struct ExInstant(instant::Instant);

/// Relies on `instant::Instant::now`: a reading of the monotonic
/// clock. Nothing is assumed of the value.
#[verifier::external_body]
fn clock_now() -> (r: instant::Instant) {
    instant::Instant::now()
}

/// Relies on `instant::Instant::elapsed` and the standard library's
/// conversion of a duration to whole nanoseconds: the time passed
/// since `earlier`, at most `u64::MAX` seconds and `999_999_999`
/// nanoseconds — the documented upper bound of a duration.
#[verifier::external_body]
fn nanos_since(earlier: &instant::Instant) -> (r: u128)
    ensures
        r <= elapsed_bound(),
{
    earlier.elapsed().as_nanos()
}

/// Interpolation fraction returned by a poll: the exact quotient
/// `numer / denom` of the remaining lag over the update interval,
/// always in `[0, 1)`. Zero means an update just ran; approaching one
/// means the next update is imminent.
#[derive(Debug, Clone, Copy, PartialEq, Eq, Structural)]
pub struct Delta {
    pub numer: u64,
    pub denom: u64,
}

/// Fixed-timestep update scheduler: converts a desired update rate
/// into a fixed interval, accumulates elapsed wall-clock time as lag,
/// and on each poll drains one callback run per whole interval of
/// lag, carrying the remainder.
pub struct UpdateLoop {
    interval: TimeSpan,
    previous: instant::Instant,
    lag: TimeSpan,
}

impl UpdateLoop {
    /// The fixed interval between two updates, in nanoseconds.
    pub closed spec fn interval_ns(self) -> int {
        self.interval.nanos as int
    }

    /// The accumulated, not yet drained wall-clock time, in
    /// nanoseconds.
    pub closed spec fn lag_ns(self) -> int {
        self.lag.nanos as int
    }

    /// The scheduler invariant: a positive interval, and less than
    /// one whole interval of lag — every poll drains the rest.
    pub open spec fn wf(self) -> bool {
        0 < self.interval_ns() && self.lag_ns() < self.interval_ns()
    }

    /// A scheduler for the given rate: the interval is derived once,
    /// the previous poll time is set to now, and the lag starts at
    /// zero.
    pub fn new(rate: UpdateRate) -> (r: Self)
        requires
            rate.wf(),
        ensures
            r.wf(),
            r.interval_ns() == rate.interval_nanos(),
            r.lag_ns() == 0,
    {
        UpdateLoop {
            interval: rate.to_interval(),
            previous: clock_now(),
            lag: TimeSpan { nanos: 0 },
        }
    }

    /// Drains `elapsed_nanos` of newly passed time: adds it to the
    /// lag, then runs `f` once per whole interval contained in the
    /// lag, leaving the remainder — zero runs when less than one
    /// interval has accrued, several in a row when catching up after
    /// a stall. Returns how many times `f` ran.
    pub fn advance<F: Fn()>(&mut self, elapsed_nanos: u128, f: F) -> (ticks: u128)
        requires
            old(self).wf(),
            elapsed_nanos <= elapsed_bound(),
            call_requires(f, ()),
        ensures
            final(self).wf(),
            final(self).interval_ns() == old(self).interval_ns(),
            ticks == ticks_of(old(self).lag_ns(), old(self).interval_ns(), elapsed_nanos as int),
            final(self).lag_ns() == lag_after(
                old(self).lag_ns(),
                old(self).interval_ns(),
                elapsed_nanos as int,
            ),
            final(self).lag_ns() < final(self).interval_ns(),
            elapsed_nanos == 0 ==> ticks == 0 && final(self).lag_ns() == old(self).lag_ns(),
    {
        let interval: u64 = self.interval.nanos;
        let ghost total: int = old(self).lag_ns() + elapsed_nanos as int;
        let mut acc: u128 = self.lag.nanos as u128 + elapsed_nanos;
        let mut ticks: u128 = 0;
        while acc >= interval as u128
            invariant
                0 < interval as int,
                total == old(self).lag_ns() + elapsed_nanos as int,
                old(self).lag_ns() < 0x1_0000_0000_0000_0000,
                elapsed_nanos <= elapsed_bound(),
                ticks as int * interval as int + acc as int == total,
                call_requires(f, ()),
            decreases acc,
        {
            f();
            proof {
                assert(ticks as int <= ticks as int * interval as int) by (nonlinear_arith)
                    requires
                        0 <= ticks as int,
                        1 <= interval as int,
                ;
                assert((ticks as int + 1) * interval as int == ticks as int * interval as int
                    + interval as int) by (nonlinear_arith);
            }
            acc = acc - interval as u128;
            ticks = ticks + 1;
        }
        proof {
            lemma_fundamental_div_mod_converse(total, interval as int, ticks as int, acc as int);
            if elapsed_nanos == 0 {
                lemma_zero_elapsed(old(self).lag_ns(), old(self).interval_ns());
            }
        }
        self.lag = TimeSpan { nanos: acc as u64 };
        ticks
    }

    /// One poll of the host loop: reads the monotonic clock, drains
    /// the time elapsed since the previous poll into callback runs,
    /// and returns the interpolation fraction that remains. However
    /// much time has passed, afterwards less than one interval of lag
    /// is left.
    pub fn update<F: Fn()>(&mut self, f: F) -> (d: Delta)
        requires
            old(self).wf(),
            call_requires(f, ()),
        ensures
            final(self).wf(),
            final(self).interval_ns() == old(self).interval_ns(),
            final(self).lag_ns() < final(self).interval_ns(),
            d.numer == final(self).lag_ns(),
            d.denom == final(self).interval_ns(),
            d.numer < d.denom,
    {
        let elapsed: u128 = nanos_since(&self.previous);
        self.previous = clock_now();
        let _ticks: u128 = self.advance(elapsed, f);
        self.delta()
    }

    /// The interpolation fraction `lag / interval`, in `[0, 1)`: zero
    /// right after an update ran, approaching one as the next update
    /// comes due.
    pub fn delta(&self) -> (d: Delta)
        requires
            self.wf(),
        ensures
            d.numer == self.lag_ns(),
            d.denom == self.interval_ns(),
            d.numer < d.denom,
    {
        Delta { numer: self.lag.nanos, denom: self.interval.nanos }
    }

    /// Whether a poll performed on `elapsed_nanos` of newly passed
    /// time would run the callback at least once.
    pub fn will_update_after(&self, elapsed_nanos: u128) -> (r: bool)
        requires
            self.wf(),
            elapsed_nanos <= elapsed_bound(),
        ensures
            r <==> ticks_of(self.lag_ns(), self.interval_ns(), elapsed_nanos as int) >= 1,
    {
        proof {
            lemma_tick_pending(self.lag_ns(), self.interval_ns(), elapsed_nanos as int);
        }
        self.lag.nanos as u128 + elapsed_nanos >= self.interval.nanos as u128
    }

    /// Whether a poll performed right now — counting the time elapsed
    /// since the previous poll — would run the callback at least
    /// once. Reads the clock only; mutates nothing.
    pub fn will_update(&self) -> (r: bool)
        requires
            self.wf(),
    {
        let elapsed: u128 = nanos_since(&self.previous);
        self.will_update_after(elapsed)
    }
}

impl Default for UpdateLoop {
    /// A scheduler at the default rate of sixty updates per second.
    fn default() -> (r: Self)
        ensures
            r.wf(),
            r.interval_ns() == NANOS_PER_SECOND as int / 60,
            r.lag_ns() == 0,
    {
        UpdateLoop::new(UpdateRate::PerSecond(60))
    }
}

} // verus!
