//! The tower's shooting logic: a repeating countdown that spawns one
//! bullet, at a fixed offset and orientation, every time it fires.

use crate::bullet::Lifetime;
use crate::countdown::Countdown;
use crate::countdown::fires;
use crate::countdown::ticked;
use crate::scene::Vec3Centi;
use vstd::prelude::*;

verus! {

/// The tower's shooting period, in milliseconds: one shot per second.
pub const TOWER_PERIOD_MILLIS: u64 = 1000;

/// Tower component: a repeating countdown. Every time it fires the tower
/// spawns one bullet. The single countdown also means a tower never holds
/// more than one pending shot.
#[derive(Clone, Copy, Debug, PartialEq, Eq, Structural)]
pub struct Tower {
    pub shooting_timer: Countdown,
}

/// Everything a newly spawned bullet is made of: where it appears, how it
/// is turned, and the lifetime after which it despawns.
#[derive(Clone, Copy, Debug, PartialEq, Eq, Structural)]
pub struct BulletSpawn {
    /// Spawn position, in hundredths of a world unit.
    pub position: Vec3Centi,
    /// Rotation about the vertical axis, in whole degrees.
    pub yaw_degrees: i64,
    /// The bullet's lifetime, armed in full.
    pub lifetime: Lifetime,
}

/// The one bullet a tower fires: at (0, 0.7, 0.6) world units, turned a
/// quarter turn clockwise about the vertical axis, with a full lifetime.
pub open spec fn spec_bullet_spawn() -> BulletSpawn {
    BulletSpawn {
        position: Vec3Centi { x: 0, y: 70, z: 60 },
        yaw_degrees: -90i64,
        lifetime: Lifetime {
            timer: Countdown {
                remaining: crate::bullet::BULLET_LIFETIME_MILLIS,
                period: crate::bullet::BULLET_LIFETIME_MILLIS,
                repeating: false,
            },
        },
    }
}

/// Build the fixed bullet spawn.
pub fn bullet_spawn() -> (b: BulletSpawn)
    ensures
        b == spec_bullet_spawn(),
        b.lifetime.inv(),
{
    BulletSpawn {
        position: Vec3Centi { x: 0, y: 70, z: 60 },
        yaw_degrees: -90,
        lifetime: Lifetime::new(),
    }
}

impl Tower {
    /// Well-formedness: the countdown is well formed and repeating, so
    /// after each shot the tower rearms itself.
    pub open spec fn inv(self) -> bool {
        &&& self.shooting_timer.inv()
        &&& self.shooting_timer.repeating
    }

    /// A fresh tower, a full period away from its first shot.
    pub fn new() -> (t: Tower)
        ensures
            t.shooting_timer == (Countdown {
                remaining: TOWER_PERIOD_MILLIS,
                period: TOWER_PERIOD_MILLIS,
                repeating: true,
            }),
            t.inv(),
    {
        Tower { shooting_timer: Countdown::new_repeating(TOWER_PERIOD_MILLIS) }
    }

    /// Advance the tower's cooldown by `delta` milliseconds.
    ///
    /// Returns the bullet to spawn this frame: `Some` exactly when the
    /// cooldown fired, and then always the same fixed bullet. The
    /// countdown rearms itself, so consecutive shots stay one period
    /// apart.
    pub fn tick(&mut self, delta: u64) -> (shot: Option<BulletSpawn>)
        requires
            old(self).inv(),
        ensures
            final(self).shooting_timer == ticked(old(self).shooting_timer, delta),
            final(self).inv(),
            shot == if fires(old(self).shooting_timer, delta) {
                Some(spec_bullet_spawn())
            } else {
                None::<BulletSpawn>
            },
    {
        let fired = self.shooting_timer.tick(delta);
        if fired {
            Some(bullet_spawn())
        } else {
            None
        }
    }
}

} // verus!
