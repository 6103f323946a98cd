//! A countdown timer over whole milliseconds.
//!
//! A `Countdown` holds the time remaining until it next fires. Each frame it
//! is ticked with the elapsed time; it fires when the remaining time is used
//! up. A repeating countdown then rearms itself for the next period,
//! carrying any overshoot so that firings stay exactly one period apart; a
//! one-shot countdown stays at zero and never fires again.

use vstd::arithmetic::div_mod::lemma_mod_bound;
use vstd::arithmetic::div_mod::lemma_small_mod;
use vstd::prelude::*;

verus! {

/// Countdown state: `remaining` milliseconds until the next firing, the
/// configured `period` in milliseconds, and whether it rearms after firing.
#[derive(Clone, Copy, Debug, PartialEq, Eq, Structural)]
pub struct Countdown {
    pub remaining: u64,
    pub period: u64,
    pub repeating: bool,
}

impl Countdown {
    /// Well-formedness: the period is positive, the remaining time never
    /// exceeds it, and a repeating countdown always has a firing ahead.
    pub open spec fn inv(self) -> bool {
        &&& 1 <= self.period
        &&& self.remaining <= self.period
        &&& self.repeating ==> 1 <= self.remaining
    }

    /// A repeating countdown a full period away from its first firing.
    pub fn new_repeating(period: u64) -> (c: Countdown)
        requires
            1 <= period,
        ensures
            c == (Countdown { remaining: period, period, repeating: true }),
            c.inv(),
    {
        Countdown { remaining: period, period, repeating: true }
    }

    /// A one-shot countdown that fires once, `duration` milliseconds from now.
    pub fn new_one_shot(duration: u64) -> (c: Countdown)
        requires
            1 <= duration,
        ensures
            c == (Countdown { remaining: duration, period: duration, repeating: false }),
            c.inv(),
    {
        Countdown { remaining: duration, period: duration, repeating: false }
    }

    /// Advance the countdown by `delta` milliseconds.
    ///
    /// Returns whether the countdown fired during this tick, i.e. whether
    /// the remaining time was positive and `delta` used it up.
    pub fn tick(&mut self, delta: u64) -> (fired: bool)
        requires
            old(self).inv(),
        ensures
            *final(self) == ticked(*old(self), delta),
            fired == fires(*old(self), delta),
            final(self).inv(),
    {
        if delta >= self.remaining {
            let fired: bool = self.remaining > 0;
            if self.repeating {
                let overshoot: u64 = delta - self.remaining;
                self.remaining = self.period - overshoot % self.period;
            } else {
                self.remaining = 0;
            }
            fired
        } else {
            self.remaining = self.remaining - delta;
            false
        }
    }
}

/// The state a countdown is left in after one tick of `delta` milliseconds.
///
/// While time remains, it just counts down. When `delta` reaches the
/// remaining time, a repeating countdown rearms: the overshoot past the
/// firing instant is carried into the next period, so the new remaining time
/// is `period - overshoot % period`; a one-shot countdown stops at zero.
pub open spec fn ticked(c: Countdown, delta: u64) -> Countdown {
    if delta >= c.remaining {
        if c.repeating {
            Countdown { remaining: (c.period - (delta - c.remaining) % (c.period as int)) as u64, ..c }
        } else {
            Countdown { remaining: 0, ..c }
        }
    } else {
        Countdown { remaining: (c.remaining - delta) as u64, ..c }
    }
}

/// Whether a tick of `delta` milliseconds makes the countdown fire: there
/// was time remaining and `delta` used it up.
pub open spec fn fires(c: Countdown, delta: u64) -> bool {
    0 < c.remaining && c.remaining <= delta
}

/// The total time, in milliseconds, of a sequence of frame times.
pub open spec fn total(deltas: Seq<u64>) -> int
    decreases deltas.len(),
{
    if deltas.len() == 0 {
        0
    } else {
        deltas[0] + total(deltas.drop_first())
    }
}

/// The state a countdown is left in after ticking once per frame time, in
/// order.
pub open spec fn run(c: Countdown, deltas: Seq<u64>) -> Countdown
    decreases deltas.len(),
{
    if deltas.len() == 0 {
        c
    } else {
        run(ticked(c, deltas[0]), deltas.drop_first())
    }
}

/// Whether the countdown fires at some tick while the frame times are
/// played through.
pub open spec fn fires_during(c: Countdown, deltas: Seq<u64>) -> bool
    decreases deltas.len(),
{
    deltas.len() > 0 && (fires(c, deltas[0]) || fires_during(ticked(c, deltas[0]), deltas.drop_first()))
}

/// How many of the ticks fire while the frame times are played through.
pub open spec fn fire_count(c: Countdown, deltas: Seq<u64>) -> int
    decreases deltas.len(),
{
    if deltas.len() == 0 {
        0
    } else {
        (if fires(c, deltas[0]) {
            1int
        } else {
            0int
        }) + fire_count(ticked(c, deltas[0]), deltas.drop_first())
    }
}

/// The total time of a sequence of frame times is never negative.
pub proof fn lemma_total_nonneg(deltas: Seq<u64>)
    ensures
        total(deltas) >= 0,
    decreases deltas.len(),
{
    if deltas.len() > 0 {
        lemma_total_nonneg(deltas.drop_first());
    }
}

/// Consecutive firings of a repeating countdown are exactly one period
/// apart. Over any sequence of frame times, each shorter than the period,
/// the time played through plus the time still remaining afterwards equals
/// the time that was initially remaining plus one full period per firing:
/// so the countdown fires precisely when the accumulated time reaches
/// `remaining`, `remaining + period`, `remaining + 2 * period`, and so on.
pub proof fn lemma_repeating_spacing(c: Countdown, deltas: Seq<u64>)
    requires
        c.inv(),
        c.repeating,
        forall|i: int| 0 <= i < deltas.len() ==> #[trigger] deltas[i] < c.period,
    ensures
        run(c, deltas).period == c.period,
        run(c, deltas).repeating,
        run(c, deltas).inv(),
        total(deltas) + run(c, deltas).remaining == c.remaining + c.period * fire_count(c, deltas),
    decreases deltas.len(),
{
    if deltas.len() > 0 {
        let d0: u64 = deltas[0];
        let rest = deltas.drop_first();
        let c1 = ticked(c, d0);
        if fires(c, d0) {
            let overshoot: int = d0 - c.remaining;
            lemma_small_mod(overshoot as nat, c.period as nat);
            assert(c1.remaining == c.period - overshoot);
        }
        lemma_repeating_spacing(c1, rest);
        assert(c.period * (1 + fire_count(c1, rest)) == c.period + c.period * fire_count(c1, rest))
            by (nonlinear_arith);
    }
}

/// A one-shot countdown fires exactly when the accumulated time reaches
/// its remaining time: never before it has fully elapsed, and certainly
/// once it has. Afterwards nothing remains, and a one-shot countdown with
/// nothing remaining never fires again.
pub proof fn lemma_one_shot_expiry(c: Countdown, deltas: Seq<u64>)
    requires
        c.inv(),
        !c.repeating,
    ensures
        run(c, deltas).period == c.period,
        !run(c, deltas).repeating,
        run(c, deltas).inv(),
        run(c, deltas).remaining == if total(deltas) >= c.remaining {
            0int
        } else {
            c.remaining - total(deltas)
        },
        fires_during(c, deltas) <==> (0 < c.remaining && c.remaining <= total(deltas)),
    decreases deltas.len(),
{
    if deltas.len() > 0 {
        let d0: u64 = deltas[0];
        let rest = deltas.drop_first();
        lemma_total_nonneg(rest);
        lemma_one_shot_expiry(ticked(c, d0), rest);
    }
}

/// A bullet is despawned only once: a one-shot countdown whose time has
/// already elapsed never fires again, however much more time passes.
pub proof fn lemma_spent_one_shot_never_fires(c: Countdown, deltas: Seq<u64>)
    requires
        c.inv(),
        !c.repeating,
        c.remaining == 0,
    ensures
        !fires_during(c, deltas),
{
    lemma_one_shot_expiry(c, deltas);
}

} // verus!
