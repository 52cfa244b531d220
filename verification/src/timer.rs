//! A repeating timer driven by the time that passed since the last tick.

use vstd::prelude::*;

verus! {

/// Nanoseconds in half a second, the period of every timer in the game.
pub const HALF_SECOND: u64 = 500_000_000;

/// A repeating timer. Time is counted in nanoseconds.
///
/// Each tick adds the elapsed time of one frame. When the accumulated time
/// reaches the period the timer has just finished: it keeps what exceeds a
/// whole number of periods and starts over.
#[derive(Clone, Copy, Debug, PartialEq, Eq, Structural)]
pub struct Timer {
    /// Time accumulated since the timer last finished.
    pub elapsed: u64,
    /// Length of one period.
    pub period: u64,
    /// Whether the last tick completed at least one period.
    pub finished: bool,
}

impl Timer {
    /// The timer after `delta` more nanoseconds.
    ///
    /// A timer with period zero finishes on every tick.
    pub open spec fn ticked(self, delta: u64) -> Timer {
        let total = self.elapsed + delta;
        Timer {
            elapsed: if self.period == 0 {
                0
            } else {
                (total % (self.period as int)) as u64
            },
            period: self.period,
            finished: total >= self.period,
        }
    }

    /// Number of whole periods completed by a tick of `delta` nanoseconds.
    pub open spec fn periods_completed(self, delta: u64) -> int
        recommends
            self.period > 0,
    {
        (self.elapsed + delta) / (self.period as int)
    }

    /// A fresh repeating timer with the given period.
    pub fn new(period: u64) -> (timer: Timer)
        ensures
            timer == (Timer { elapsed: 0, period, finished: false }),
    {
        Timer { elapsed: 0, period, finished: false }
    }

    /// Advances the timer by `delta` nanoseconds.
    pub fn tick(&mut self, delta: u64)
        ensures
            *final(self) == old(self).ticked(delta),
    {
        let total: u128 = self.elapsed as u128 + delta as u128;
        let period: u128 = self.period as u128;
        let rest: u64 = if period == 0 {
            0
        } else {
            (total % period) as u64
        };
        *self = Timer { elapsed: rest, period: self.period, finished: total >= period };
    }

    /// Whether the last tick completed a period.
    pub fn just_finished(&self) -> (done: bool)
        ensures
            done == self.finished,
    {
        self.finished
    }
}

/// A tick finishes the timer exactly when it completes at least one whole
/// period, and the time kept is what the completed periods leave over.
pub proof fn tick_keeps_remainder(timer: Timer, delta: u64)
    requires
        timer.period > 0,
    ensures
        timer.ticked(delta).finished <==> timer.periods_completed(delta) >= 1,
        timer.ticked(delta).elapsed + timer.periods_completed(delta) * timer.period
            == timer.elapsed + delta,
        timer.ticked(delta).elapsed < timer.period,
{
    let total = timer.elapsed + delta;
    let period = timer.period as int;
    vstd::arithmetic::div_mod::lemma_fundamental_div_mod(total, period);
    vstd::arithmetic::div_mod::lemma_mod_bound(total, period);
    assert(total == period * (total / period) + total % period);
    assert(period * (total / period) == (total / period) * period) by (nonlinear_arith);
    if total >= period {
        vstd::arithmetic::div_mod::lemma_div_is_ordered(period, total, period);
        vstd::arithmetic::div_mod::lemma_div_basics(period);
    } else {
        vstd::arithmetic::div_mod::lemma_basic_div(total, period);
    }
}

/// Ticks that never add up to a period leave the timer unfinished and only
/// accumulate.
pub proof fn short_tick_accumulates(timer: Timer, delta: u64)
    requires
        timer.elapsed + delta < timer.period,
    ensures
        timer.ticked(delta) == (Timer {
            elapsed: (timer.elapsed + delta) as u64,
            period: timer.period,
            finished: false,
        }),
{
    vstd::arithmetic::div_mod::lemma_small_mod(
        (timer.elapsed + delta) as nat,
        timer.period as nat,
    );
}

} // verus!
