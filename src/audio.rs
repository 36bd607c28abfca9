//! Sound cues that the simulation emits for the audio collaborator.
use vstd::prelude::*;

verus! {

/// A fire-and-forget sound cue.
#[derive(Debug, Clone, Copy, PartialEq, Eq, Structural)]
pub enum AudioEvent {
    Jump,
    Score,
    Hit,
    Die,
    Swoosh,
}

} // verus!
