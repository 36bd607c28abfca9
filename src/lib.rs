//! Simulation core of a side-scrolling flying game: physics, obstacle
//! spawning and scrolling, collision detection, scoring, the session state
//! machine and the saved leaderboard.
//!
//! Lengths are counted in micro-units (a millionth of a world unit), times in
//! milliseconds, velocities in micro-units per millisecond, and accelerations
//! in micro-units per square millisecond. Scale and size factors are counted
//! in thousandths.
use vstd::prelude::*;

pub mod audio;
pub mod catalog;
pub mod collision;
pub mod display;
pub mod entities;
pub mod physics;
mod random;
pub mod save;
pub mod scoring;
pub mod scroll;
pub mod session;
pub mod spawner;
pub mod states;
pub mod world;

verus! {

} // verus!
