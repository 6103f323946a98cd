//! Core logic of a small tower-defense prototype: countdown timers that
//! drive a tower's shooting cadence and a bullet's lifetime, and the fixed
//! scene that is built at startup.
//!
//! Time is measured in whole milliseconds, world coordinates in hundredths
//! of a world unit, so that every quantity the logic touches is an integer.
//! The surrounding application translates these plain values into whatever
//! the rendering engine expects.

pub mod assets;
pub mod bullet;
pub mod countdown;
pub mod scene;
pub mod tower;
