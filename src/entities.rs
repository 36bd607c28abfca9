//! The records that the simulation moves: the player and the scrolling
//! obstacles and background elements.
use vstd::prelude::*;
use crate::catalog::{BirdCharacter, PipeType};

verus! {

/// Vertical velocity, in micro-units per millisecond; positive is upward.
#[derive(Debug, Clone, Copy, PartialEq, Eq, Structural)]
pub struct Velocity {
    pub y: i64,
}

/// Downward acceleration, in micro-units per square millisecond.
#[derive(Debug, Clone, Copy, PartialEq, Eq, Structural)]
pub struct Gravity(pub i64);

/// Leftward speed, in micro-units per millisecond.
#[derive(Debug, Clone, Copy, PartialEq, Eq, Structural)]
pub struct Scrolling {
    pub speed: i64,
}

/// The player: its character, position, vertical motion and the cosmetic
/// tilt (in milliradians) derived from its velocity.
#[derive(Debug, Clone, Copy, PartialEq, Eq, Structural)]
pub struct Bird {
    pub character: BirdCharacter,
    pub x: i64,
    pub y: i64,
    pub velocity: Velocity,
    pub gravity: Gravity,
    pub tilt: i64,
}

/// One obstacle of a pair; the upper one is drawn turned by half a turn.
#[derive(Debug, Clone, Copy, PartialEq, Eq, Structural)]
pub struct Pipe {
    pub id: u64,
    pub pipe_type: PipeType,
    pub x: i64,
    pub y: i64,
    pub upper: bool,
    pub scrolling: Scrolling,
}

/// Background layers, each with its own speed and re-entry spacing.
#[derive(Debug, Clone, Copy, PartialEq, Eq, Structural)]
pub enum BackgroundLayer {
    Mountain,
    Cloud,
}

/// A background element that loops instead of leaving the world.
#[derive(Debug, Clone, Copy, PartialEq, Eq, Structural)]
pub struct BackgroundElement {
    pub id: u64,
    pub layer: BackgroundLayer,
    pub x: i64,
    pub y: i64,
    pub scrolling: Scrolling,
}

} // verus!
