//! The repeating countdown that gates periodic events (shape spawning and
//! income accrual). Time is measured in milliseconds held in `u64` values.
//!
//! The countdown keeps a remaining time in `(0, period]`. A tick subtracts the
//! elapsed time; when that reaches or crosses zero the clock reports that it
//! fired and reloads, carrying any surplus beyond the firing point into the
//! next round so that a slow frame does not stretch the cycle.

use vstd::prelude::*;

verus! {

/// Why a clock could not be built.
#[derive(Clone, Copy, Debug, PartialEq, Eq, Structural)]
pub enum ClockConfigError {
    /// The requested period was zero; a repeating countdown needs a positive period.
    ZeroPeriod,
}

/// A repeating countdown timer.
#[derive(Clone, Copy, Debug, PartialEq, Eq, Structural)]
pub struct Clock {
    /// The configured cycle length; stays fixed over the clock's life.
    pub period: u64,
    /// Time left until the next firing.
    pub remaining: u64,
}

/// Does a tick with this much time left fire when `elapsed` time passes?
pub open spec fn tick_fires(remaining: int, elapsed: int) -> bool {
    elapsed >= remaining
}

/// The remaining time after a tick: either the countdown simply shrinks, or it
/// fires and reloads with the surplus beyond the firing point carried over.
pub open spec fn next_remaining(remaining: int, period: int, elapsed: int) -> int {
    if elapsed >= remaining {
        period - ((elapsed - remaining) % period)
    } else {
        remaining - elapsed
    }
}

impl Clock {
    /// The clock invariant: a positive period, and a remaining time that is
    /// positive and never beyond one full period.
    pub open spec fn wf(self) -> bool {
        &&& 1 <= self.period
        &&& 1 <= self.remaining <= self.period
    }

    /// Builds a repeating clock that first fires after one full period.
    /// Rejects a zero period: such a countdown could never measure time.
    pub fn new(period: u64) -> (result: Result<Clock, ClockConfigError>)
        ensures
            period >= 1 ==> (result matches Ok(c) && c.period == period && c.remaining == period
                && c.wf()),
            period == 0 ==> (result matches Err(e) && e == ClockConfigError::ZeroPeriod),
    {
        if period == 0 {
            Err(ClockConfigError::ZeroPeriod)
        } else {
            Ok(Clock { period, remaining: period })
        }
    }

    /// Advances the countdown by `elapsed` time. Reports whether it fired, in
    /// which case the countdown has reloaded with any surplus carried over.
    pub fn tick(&mut self, elapsed: u64) -> (fired: bool)
        requires
            old(self).wf(),
        ensures
            final(self).wf(),
            final(self).period == old(self).period,
            fired == tick_fires(old(self).remaining as int, elapsed as int),
            final(self).remaining == next_remaining(
                old(self).remaining as int,
                old(self).period as int,
                elapsed as int,
            ),
    {
        if elapsed >= self.remaining {
            let surplus = (elapsed - self.remaining) % self.period;
            self.remaining = self.period - surplus;
            true
        } else {
            self.remaining = self.remaining - elapsed;
            false
        }
    }
}

/// The total time of a sequence of elapsed-time steps.
pub open spec fn total_time(elapsed_times: Seq<int>) -> int
    decreases elapsed_times.len(),
{
    if elapsed_times.len() == 0 {
        0
    } else {
        elapsed_times[0] + total_time(elapsed_times.drop_first())
    }
}

/// Does a clock with this much time left fire at least once over the given
/// sequence of elapsed-time steps?
pub open spec fn fires_within(remaining: int, period: int, elapsed_times: Seq<int>) -> bool
    decreases elapsed_times.len(),
{
    if elapsed_times.len() == 0 {
        false
    } else if tick_fires(remaining, elapsed_times[0]) {
        true
    } else {
        fires_within(
            next_remaining(remaining, period, elapsed_times[0]),
            period,
            elapsed_times.drop_first(),
        )
    }
}

/// Over any sequence of non-negative elapsed times whose total reaches the
/// remaining countdown, the clock fires at least once.
pub proof fn lemma_clock_fires_with_time_left(remaining: int, period: int, elapsed_times: Seq<
    int,
>)
    requires
        1 <= remaining <= period,
        forall|i: int| 0 <= i < elapsed_times.len() ==> elapsed_times[i] >= 0,
        total_time(elapsed_times) >= remaining,
    ensures
        fires_within(remaining, period, elapsed_times),
    decreases elapsed_times.len(),
{
    if elapsed_times.len() == 0 {
        assert(total_time(elapsed_times) == 0);
    } else if tick_fires(remaining, elapsed_times[0]) {
    } else {
        let rest = elapsed_times.drop_first();
        assert(forall|i: int| 0 <= i < rest.len() ==> rest[i] == elapsed_times[i + 1]);
        lemma_clock_fires_with_time_left(remaining - elapsed_times[0], period, rest);
    }
}

/// Over any sequence of non-negative elapsed times whose total reaches one
/// full period, the clock fires at least once: the remaining countdown never
/// exceeds the period.
pub proof fn lemma_clock_fires_within_period(remaining: int, period: int, elapsed_times: Seq<
    int,
>)
    requires
        1 <= remaining <= period,
        forall|i: int| 0 <= i < elapsed_times.len() ==> elapsed_times[i] >= 0,
        total_time(elapsed_times) >= period,
    ensures
        fires_within(remaining, period, elapsed_times),
{
    lemma_clock_fires_with_time_left(remaining, period, elapsed_times);
}

/// After a firing that does not land exactly on a period boundary, the
/// reloaded countdown is strictly below one full period (and non-negative).
/// A tick whose elapsed time hits the boundary exactly reloads to the full
/// period instead.
pub proof fn lemma_remaining_after_firing(remaining: int, period: int, elapsed: int)
    requires
        1 <= remaining <= period,
        elapsed >= remaining,
        (elapsed - remaining) % period != 0,
    ensures
        0 <= next_remaining(remaining, period, elapsed) < period,
{
}

} // verus!
