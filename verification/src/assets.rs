//! The process-wide asset registry: created once at startup, read
//! thereafter, never mutated.

use vstd::prelude::*;
use vstd::string::StringExecFns;

verus! {

/// Handles to the game's pre-loaded assets. The library identifies an
/// asset by its path; the application resolves the path to whatever handle
/// the engine uses.
#[derive(Clone, Debug)]
pub struct GameAssets {
    /// The path of the bullet's visual scene asset.
    pub bullet_scene: String,
}

impl GameAssets {
    /// The registry as startup fills it: the bullet's scene under its
    /// fixed asset path.
    pub fn new() -> (a: GameAssets)
        ensures
            a.bullet_scene@ == "Bullet.glb#Scene0"@,
    {
        GameAssets { bullet_scene: String::from_str("Bullet.glb#Scene0") }
    }
}

} // verus!
