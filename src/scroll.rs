//! Leftward scrolling: obstacles leave the world past the left edge,
//! background elements loop back in from the right.
use vstd::prelude::*;
use crate::catalog::UNIT;
use crate::entities::{BackgroundElement, BackgroundLayer, Pipe};

verus! {

/// Entities whose position falls below this are off screen on the left.
pub const DESPAWN_X: i64 = -600 * UNIT;

/// Right screen edge from which recycled background elements re-enter.
pub const REENTRY_X: i64 = 600 * UNIT;

/// Position after moving left at `speed` for `dt` milliseconds.
pub open spec fn moved_x(x: int, speed: int, dt: int) -> int {
    x - speed * dt
}

/// Whether a move fits the machine integers.
pub open spec fn move_fits(x: int, speed: int, dt: int) -> bool {
    i64::MIN <= moved_x(x, speed, dt) <= i64::MAX
}

proof fn lemma_step_bound(speed: int, dt: int)
    requires
        i64::MIN <= speed <= i64::MAX,
        0 <= dt <= u32::MAX,
    ensures
        -0x8000_0000_0000_0000 * 0x1_0000_0000 <= speed * dt <= 0x8000_0000_0000_0000 * 0x1_0000_0000,
{
    assert(-0x8000_0000_0000_0000 * 0x1_0000_0000 <= speed * dt <= 0x8000_0000_0000_0000 * 0x1_0000_0000)
        by (nonlinear_arith)
        requires
            i64::MIN <= speed <= i64::MAX,
            0 <= dt <= u32::MAX,
    ;
}

/// The moved position, when it fits.
pub fn checked_move(x: i64, speed: i64, dt_ms: u32) -> (r: Option<i64>)
    ensures
        r is Some <==> move_fits(x as int, speed as int, dt_ms as int),
        r is Some ==> r->0 == moved_x(x as int, speed as int, dt_ms as int),
{
    proof {
        lemma_step_bound(speed as int, dt_ms as int);
    }
    let m = x as i128 - (speed as i128) * (dt_ms as i128);
    if m < i64::MIN as i128 || m > i64::MAX as i128 {
        None
    } else {
        Some(m as i64)
    }
}

/// An obstacle after one step, or nothing once it has left the world.
pub open spec fn scrolled_pipe(p: Pipe, dt: int) -> Option<Pipe> {
    let x = moved_x(p.x as int, p.scrolling.speed as int, dt);
    if x < DESPAWN_X {
        None
    } else {
        Some(Pipe { x: x as i64, ..p })
    }
}

/// All obstacles after one step, in their order, without those that left.
pub open spec fn scrolled_pipes(s: Seq<Pipe>, dt: int) -> Seq<Pipe> {
    s.filter_map(|p: Pipe| scrolled_pipe(p, dt))
}

pub open spec fn pipes_move_fits(s: Seq<Pipe>, dt: int) -> bool {
    forall|i: int|
        0 <= i < s.len() ==> move_fits(#[trigger] s[i].x as int, s[i].scrolling.speed as int, dt)
}

/// Moves every obstacle left and removes those past the left edge.
pub fn scroll_pipes(pipes: &Vec<Pipe>, dt_ms: u32) -> (r: Vec<Pipe>)
    requires
        pipes_move_fits(pipes@, dt_ms as int),
    ensures
        r@ == scrolled_pipes(pipes@, dt_ms as int),
{
    let ghost f = |p: Pipe| scrolled_pipe(p, dt_ms as int);
    let mut r: Vec<Pipe> = Vec::new();
    let mut i: usize = 0;
    while i < pipes.len()
        invariant
            i <= pipes@.len(),
            pipes_move_fits(pipes@, dt_ms as int),
            f == (|p: Pipe| scrolled_pipe(p, dt_ms as int)),
            r@ == pipes@.take(i as int).filter_map(f),
        decreases pipes@.len() - i,
    {
        let p = pipes[i];
        assert(move_fits(pipes@[i as int].x as int, pipes@[i as int].scrolling.speed as int, dt_ms as int));
        let x = checked_move(p.x, p.scrolling.speed, dt_ms).unwrap();
        assert(pipes@.take(i as int + 1).drop_last() =~= pipes@.take(i as int));
        if x >= DESPAWN_X {
            r.push(Pipe { x, ..p });
        }
        i += 1;
    }
    assert(pipes@.take(i as int) =~= pipes@);
    r
}

impl BackgroundLayer {
    /// Scroll speed: mountains 50 units per second, clouds 30.
    pub open spec fn spec_speed(self) -> i64 {
        match self {
            BackgroundLayer::Mountain => 50_000,
            BackgroundLayer::Cloud => 30_000,
        }
    }

    /// Fixed spacing added beyond the right edge on re-entry.
    pub open spec fn spec_base_offset(self) -> int {
        match self {
            BackgroundLayer::Mountain => 200 * UNIT,
            BackgroundLayer::Cloud => 300 * UNIT,
        }
    }

    /// The random spacing is drawn from `[gap_min, gap_max)`.
    pub open spec fn spec_gap_range(self) -> (int, int) {
        match self {
            BackgroundLayer::Mountain => (100 * UNIT, 400 * UNIT),
            BackgroundLayer::Cloud => (200 * UNIT, 600 * UNIT),
        }
    }

    pub fn speed(&self) -> (r: i64)
        ensures
            r == self.spec_speed(),
    {
        match self {
            BackgroundLayer::Mountain => 50_000,
            BackgroundLayer::Cloud => 30_000,
        }
    }

    pub fn base_offset(&self) -> (r: i64)
        ensures
            r == self.spec_base_offset(),
    {
        match self {
            BackgroundLayer::Mountain => 200 * UNIT,
            BackgroundLayer::Cloud => 300 * UNIT,
        }
    }

    pub fn gap_range(&self) -> (r: (i64, i64))
        ensures
            r.0 == self.spec_gap_range().0,
            r.1 == self.spec_gap_range().1,
    {
        match self {
            BackgroundLayer::Mountain => (100 * UNIT, 400 * UNIT),
            BackgroundLayer::Cloud => (200 * UNIT, 600 * UNIT),
        }
    }
}

/// Whether a background element crosses the left edge in this step.
pub open spec fn needs_recycle(e: BackgroundElement, dt: int) -> bool {
    moved_x(e.x as int, e.scrolling.speed as int, dt) < DESPAWN_X
}

/// A background element after one step, with `gap` as the random spacing
/// used if it re-enters.
pub open spec fn scrolled_background(e: BackgroundElement, dt: int, gap: int) -> BackgroundElement {
    if needs_recycle(e, dt) {
        BackgroundElement { x: (REENTRY_X + e.layer.spec_base_offset() + gap) as i64, ..e }
    } else {
        BackgroundElement { x: moved_x(e.x as int, e.scrolling.speed as int, dt) as i64, ..e }
    }
}

/// Whether `gap` lies in the element layer's spacing range.
pub open spec fn gap_in_range(e: BackgroundElement, gap: int) -> bool {
    e.layer.spec_gap_range().0 <= gap < e.layer.spec_gap_range().1
}

/// Moves one background element; one that crosses the left edge re-enters
/// at the right edge plus its layer's offset plus `gap`.
pub fn scroll_background_element(e: BackgroundElement, dt_ms: u32, gap: i64) -> (r: BackgroundElement)
    requires
        move_fits(e.x as int, e.scrolling.speed as int, dt_ms as int),
        gap_in_range(e, gap as int),
    ensures
        r == scrolled_background(e, dt_ms as int, gap as int),
{
    let x = checked_move(e.x, e.scrolling.speed, dt_ms).unwrap();
    if x < DESPAWN_X {
        BackgroundElement { x: REENTRY_X + e.layer.base_offset() + gap, ..e }
    } else {
        BackgroundElement { x, ..e }
    }
}

} // verus!
