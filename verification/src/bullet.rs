//! A bullet's lifetime: a one-shot countdown after which the bullet is to
//! be removed from the world.

use crate::countdown::Countdown;
use crate::countdown::fires;
use crate::countdown::ticked;
use vstd::prelude::*;

verus! {

/// How long a bullet lives, in milliseconds, from spawn to despawn.
pub const BULLET_LIFETIME_MILLIS: u64 = 500;

/// Lifetime component of a bullet: a one-shot countdown. When it fires the
/// bullet, with everything attached to it, is removed from the world.
#[derive(Clone, Copy, Debug, PartialEq, Eq, Structural)]
pub struct Lifetime {
    pub timer: Countdown,
}

impl Lifetime {
    /// Well-formedness: the countdown is well formed and one-shot, so the
    /// bullet is despawned at most once.
    pub open spec fn inv(self) -> bool {
        &&& self.timer.inv()
        &&& !self.timer.repeating
    }

    /// The lifetime of a freshly spawned bullet: the full
    /// `BULLET_LIFETIME_MILLIS` still to run.
    pub fn new() -> (l: Lifetime)
        ensures
            l.timer == (Countdown {
                remaining: BULLET_LIFETIME_MILLIS,
                period: BULLET_LIFETIME_MILLIS,
                repeating: false,
            }),
            l.inv(),
    {
        Lifetime { timer: Countdown::new_one_shot(BULLET_LIFETIME_MILLIS) }
    }

    /// Advance the bullet's lifetime by `delta` milliseconds.
    ///
    /// Returns whether the lifetime just elapsed, i.e. whether the bullet
    /// is to be despawned during this frame. This is true exactly once:
    /// on the tick where the accumulated time first reaches the lifetime.
    pub fn tick(&mut self, delta: u64) -> (expired: bool)
        requires
            old(self).inv(),
        ensures
            final(self).timer == ticked(old(self).timer, delta),
            final(self).inv(),
            expired == fires(old(self).timer, delta),
    {
        self.timer.tick(delta)
    }
}

} // verus!
