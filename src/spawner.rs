//! Timed generation of obstacle pairs around a randomly placed gap.
use vstd::prelude::*;
use crate::catalog::{PipeType, UNIT};
use crate::entities::{Pipe, Scrolling};

verus! {

/// Horizontal position at which new obstacles appear, right of the screen.
pub const SPAWN_X: i64 = 500 * UNIT;

/// Gap centres are drawn from `[-GAP_CENTER_RANGE, GAP_CENTER_RANGE)`.
pub const GAP_CENTER_RANGE: i64 = 100 * UNIT;

/// The gap half width never drops below this floor.
pub const MIN_GAP: i64 = 80 * UNIT;

/// The gap half width shrinks by this much per [`POINTS_PER_STEP`] points.
pub const GAP_STEP: i64 = 10 * UNIT;

pub const POINTS_PER_STEP: u32 = 5;

/// Largest gap, obstacle offset or speed that a configuration may hold.
pub const MAX_EXTENT: i64 = 0x100_0000_0000;

/// Gap half width for a score: the base, less one step per five points,
/// but never under the floor.
pub open spec fn gap_half_width_of(base_gap: int, score: int) -> int {
    let g = base_gap - (score / POINTS_PER_STEP as int) * GAP_STEP;
    if g < MIN_GAP {
        MIN_GAP as int
    } else {
        g
    }
}

pub fn gap_half_width(base_gap: i64, score: u32) -> (r: i64)
    ensures
        r == gap_half_width_of(base_gap as int, score as int),
        r >= MIN_GAP,
{
    let steps = (score / POINTS_PER_STEP) as i128;
    let g = base_gap as i128 - steps * (GAP_STEP as i128);
    if g < MIN_GAP as i128 {
        MIN_GAP
    } else {
        g as i64
    }
}

/// Heights of the upper and lower obstacle of a pair: each sits the gap half
/// width plus the obstacle offset away from the gap centre.
pub open spec fn pair_heights_of(gap_center: int, gap_half_width: int, offset: int) -> (int, int) {
    (gap_center + (gap_half_width + offset), gap_center - (gap_half_width + offset))
}

pub fn pair_heights(gap_center: i64, gap_half_width: i64, offset: i64) -> (r: (i64, i64))
    requires
        -GAP_CENTER_RANGE <= gap_center <= GAP_CENTER_RANGE,
        0 <= gap_half_width <= MAX_EXTENT,
        0 <= offset <= MAX_EXTENT,
    ensures
        r.0 == pair_heights_of(gap_center as int, gap_half_width as int, offset as int).0,
        r.1 == pair_heights_of(gap_center as int, gap_half_width as int, offset as int).1,
{
    (gap_center + (gap_half_width + offset), gap_center - (gap_half_width + offset))
}

/// The obstacle pair for a gap: same variant, same position and speed; the
/// upper one turned, above the gap, the lower one below it.
pub open spec fn spawned_pair(
    first_id: u64,
    pipe_type: PipeType,
    gap_center: int,
    gap_half_width: int,
    offset: int,
    speed: i64,
) -> (Pipe, Pipe) {
    let (upper_y, lower_y) = pair_heights_of(gap_center, gap_half_width, offset);
    (
        Pipe {
            id: first_id,
            pipe_type,
            x: SPAWN_X,
            y: upper_y as i64,
            upper: true,
            scrolling: Scrolling { speed },
        },
        Pipe {
            id: (first_id + 1) as u64,
            pipe_type,
            x: SPAWN_X,
            y: lower_y as i64,
            upper: false,
            scrolling: Scrolling { speed },
        },
    )
}

/// Builds the two obstacles of a pair.
pub fn spawn_pair(
    first_id: u64,
    pipe_type: PipeType,
    gap_center: i64,
    gap_half_width: i64,
    offset: i64,
    speed: i64,
) -> (r: (Pipe, Pipe))
    requires
        first_id < u64::MAX,
        -GAP_CENTER_RANGE <= gap_center <= GAP_CENTER_RANGE,
        0 <= gap_half_width <= MAX_EXTENT,
        0 <= offset <= MAX_EXTENT,
    ensures
        r == spawned_pair(first_id, pipe_type, gap_center as int, gap_half_width as int, offset as int, speed),
        r.0.pipe_type == r.1.pipe_type && r.0.x == r.1.x,
{
    let (upper_y, lower_y) = pair_heights(gap_center, gap_half_width, offset);
    (
        Pipe { id: first_id, pipe_type, x: SPAWN_X, y: upper_y, upper: true, scrolling: Scrolling { speed } },
        Pipe {
            id: first_id + 1,
            pipe_type,
            x: SPAWN_X,
            y: lower_y,
            upper: false,
            scrolling: Scrolling { speed },
        },
    )
}

/// Whatever the score, the gap half width is at least the floor, so the
/// centres of a spawned pair are at least twice the floor plus twice the
/// offset apart.
pub proof fn lemma_spawn_gap_floor(
    first_id: u64,
    pipe_type: PipeType,
    gap_center: int,
    base_gap: int,
    score: nat,
    offset: int,
    speed: i64,
)
    requires
        -GAP_CENTER_RANGE <= gap_center <= GAP_CENTER_RANGE,
        0 <= base_gap <= MAX_EXTENT,
        0 <= offset <= MAX_EXTENT,
    ensures
        gap_half_width_of(base_gap, score as int) >= MIN_GAP,
        ({
            let (upper, lower) = spawned_pair(
                first_id,
                pipe_type,
                gap_center,
                gap_half_width_of(base_gap, score as int),
                offset,
                speed,
            );
            upper.y - lower.y >= 2 * (MIN_GAP + offset)
        }),
{
    assert(((score as int) / (POINTS_PER_STEP as int)) * GAP_STEP >= 0) by (nonlinear_arith)
        requires
            score >= 0,
    ;
}

/// Both members of a spawned pair share the variant, the horizontal
/// position and the speed; only the upper one is turned.
pub proof fn lemma_pair_members_match(
    first_id: u64,
    pipe_type: PipeType,
    gap_center: int,
    gap_half_width: int,
    offset: int,
    speed: i64,
)
    ensures
        ({
            let (upper, lower) = spawned_pair(first_id, pipe_type, gap_center, gap_half_width, offset, speed);
            &&& upper.pipe_type == pipe_type && lower.pipe_type == pipe_type
            &&& upper.x == lower.x && upper.x == SPAWN_X
            &&& upper.scrolling == lower.scrolling
            &&& upper.upper && !lower.upper
        }),
{
}

/// A repeating countdown: it fires each time the elapsed time reaches the
/// interval, and keeps the remainder.
#[derive(Debug, Clone, Copy, PartialEq, Eq, Structural)]
pub struct SpawnTimer {
    pub elapsed_ms: u64,
    pub interval_ms: u64,
}

impl SpawnTimer {
    pub open spec fn wf(self) -> bool {
        0 < self.interval_ms && self.elapsed_ms < self.interval_ms
    }

    /// A fresh timer of the given interval.
    pub fn new(interval_ms: u64) -> (r: SpawnTimer)
        requires
            interval_ms > 0,
        ensures
            r.wf(),
            r.elapsed_ms == 0,
            r.interval_ms == interval_ms,
    {
        SpawnTimer { elapsed_ms: 0, interval_ms }
    }

    /// Advances the timer; reports whether it fired during this step.
    pub fn tick(&mut self, dt_ms: u32) -> (fired: bool)
        requires
            old(self).wf(),
        ensures
            final(self).wf(),
            final(self).interval_ms == old(self).interval_ms,
            fired == (old(self).elapsed_ms + dt_ms >= old(self).interval_ms),
            final(self).elapsed_ms == (old(self).elapsed_ms + dt_ms) % (old(self).interval_ms as int),
    {
        let total = self.elapsed_ms as u128 + dt_ms as u128;
        let interval = self.interval_ms as u128;
        self.elapsed_ms = (total % interval) as u64;
        total >= interval
    }
}

} // verus!
