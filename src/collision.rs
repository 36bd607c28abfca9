//! Player against playfield bounds and against obstacles.
//!
//! Obstacle geometry is computed exactly on integers: every coordinate below
//! is a length in micro-units multiplied by [`FINE`], which makes all scaled
//! sizes and half sizes whole numbers.
use vstd::prelude::*;
use crate::catalog::{
    CollisionSegment, PipeGeometry, PipeGeometryView, PIPE_BASE_HEIGHT, PIPE_BASE_WIDTH,
    SEGMENT_Y_SPAN, UNIT,
};
use crate::entities::{Bird, Pipe};

verus! {

/// Distance from the centre line to either playfield bound, in micro-units.
pub const BOUND: i64 = 280 * UNIT;

/// Fine coordinates per micro-unit: two (for halves) times a thousand for
/// each of the two factors in thousandths that a size multiplies.
pub const FINE: i64 = 2_000_000;

/// Whether a player circle at height `y` crosses the lower or upper bound.
pub open spec fn hits_boundary(y: int, radius: int) -> bool {
    y - radius < -BOUND || y + radius > BOUND
}

/// Boundary test of a player circle.
pub fn boundary_collision(y: i64, radius: i64) -> (r: bool)
    ensures
        r == hits_boundary(y as int, radius as int),
{
    let y = y as i128;
    let radius = radius as i128;
    y - radius < -(BOUND as i128) || y + radius > BOUND as i128
}

/// An axis-aligned box in fine coordinates, by centre and half extents.
pub struct FineBox {
    pub cx: int,
    pub cy: int,
    pub half_w: int,
    pub half_h: int,
}

/// The player circle's bounding box in fine coordinates.
pub open spec fn bird_box(x: int, y: int, radius: int) -> FineBox {
    FineBox { cx: FINE * x, cy: FINE * y, half_w: FINE * radius, half_h: FINE * radius }
}

/// Open-interval overlap on the horizontal axis.
pub open spec fn x_overlap(a: FineBox, b: FineBox) -> bool {
    a.cx + a.half_w > b.cx - b.half_w && a.cx - a.half_w < b.cx + b.half_w
}

/// Open-interval overlap on the vertical axis.
pub open spec fn y_overlap(a: FineBox, b: FineBox) -> bool {
    a.cy + a.half_h > b.cy - b.half_h && a.cy - a.half_h < b.cy + b.half_h
}

/// Collision centre of an obstacle at (px, py): its position moved by the
/// scaled base offset.
pub open spec fn center_x(px: int, g: PipeGeometryView) -> int {
    FINE * px + 2000 * g.offset_x * g.scale
}

pub open spec fn center_y(py: int, g: PipeGeometryView) -> int {
    FINE * py + 2000 * g.offset_y * g.scale
}

/// The obstacle's single collision box: base width and height scaled by the
/// variant's scale and its collision factors.
pub open spec fn pipe_box(px: int, py: int, g: PipeGeometryView) -> FineBox {
    FineBox {
        cx: center_x(px, g),
        cy: center_y(py, g),
        half_w: PIPE_BASE_WIDTH * UNIT * g.scale * g.width_factor,
        half_h: PIPE_BASE_HEIGHT * UNIT * g.scale * g.height_factor,
    }
}

/// A segment's box: horizontal offsets count in base widths, vertical ones
/// in half base heights, both scaled with the obstacle.
pub open spec fn segment_box(px: int, py: int, g: PipeGeometryView, s: CollisionSegment) -> FineBox {
    FineBox {
        cx: center_x(px, g) + 2 * PIPE_BASE_WIDTH * UNIT * s.offset_x * g.scale,
        cy: center_y(py, g) + 2 * SEGMENT_Y_SPAN * UNIT * s.offset_y * g.scale,
        half_w: PIPE_BASE_WIDTH * UNIT * g.scale * s.width_factor,
        half_h: PIPE_BASE_HEIGHT * UNIT * g.scale * s.height_factor,
    }
}

/// Whether the player box overlaps segment `i` on both axes.
pub open spec fn segment_hit(b: FineBox, px: int, py: int, g: PipeGeometryView, i: int) -> bool {
    x_overlap(b, segment_box(px, py, g, g.segments[i]))
        && y_overlap(b, segment_box(px, py, g, g.segments[i]))
}

/// The collision rule: no hit without horizontal overlap with the obstacle's
/// box; then either any segment overlaps (precise variants) or the box
/// overlaps vertically (simple variants).
pub open spec fn pipe_hit(x: int, y: int, radius: int, px: int, py: int, g: PipeGeometryView) -> bool {
    let b = bird_box(x, y, radius);
    x_overlap(b, pipe_box(px, py, g)) && if g.precise {
        exists|i: int| 0 <= i < g.segments.len() && #[trigger] segment_hit(b, px, py, g, i)
    } else {
        y_overlap(b, pipe_box(px, py, g))
    }
}

/// Largest constant factor that [`triple`] accepts.
const MAX_K: i64 = 400_000_000;

/// Bound on the size of a [`triple`] result.
const WIDE: i128 = 400_000_000 * 0x8000_0000_0000_0000 * 0x8000_0000;

proof fn lemma_triple_bound(k: int, a: int, b: int)
    requires
        0 <= k <= MAX_K,
        -0x8000_0000_0000_0000 <= a <= 0x7fff_ffff_ffff_ffff,
        -0x8000_0000 <= b <= 0x7fff_ffff,
    ensures
        -MAX_K * 0x8000_0000_0000_0000 <= k * a <= MAX_K * 0x8000_0000_0000_0000,
        -MAX_K * 0x8000_0000_0000_0000 * 0x8000_0000 <= k * a * b <= MAX_K * 0x8000_0000_0000_0000
            * 0x8000_0000,
{
    assert(-MAX_K * 0x8000_0000_0000_0000 <= k * a <= MAX_K * 0x8000_0000_0000_0000)
        by (nonlinear_arith)
        requires
            0 <= k <= MAX_K,
            -0x8000_0000_0000_0000 <= a <= 0x7fff_ffff_ffff_ffff,
    ;
    let ka = k * a;
    assert(-MAX_K * 0x8000_0000_0000_0000 * 0x8000_0000 <= ka * b <= MAX_K * 0x8000_0000_0000_0000
        * 0x8000_0000) by (nonlinear_arith)
        requires
            -MAX_K * 0x8000_0000_0000_0000 <= ka <= MAX_K * 0x8000_0000_0000_0000,
            -0x8000_0000 <= b <= 0x7fff_ffff,
    ;
}

/// k * a * b on wide integers, for a small constant k.
fn triple(k: i64, a: i64, b: i32) -> (r: i128)
    requires
        0 <= k <= MAX_K,
    ensures
        r == k * a * b,
        -WIDE <= r <= WIDE,
{
    proof {
        lemma_triple_bound(k as int, a as int, b as int);
    }
    (k as i128) * (a as i128) * (b as i128)
}

/// The player circle at (x, y) with `radius` against an obstacle of
/// geometry `g` placed at (px, py).
pub fn pipe_geometry_collision(x: i64, y: i64, radius: i64, px: i64, py: i64, g: &PipeGeometry) -> (r: bool)
    ensures
        r == pipe_hit(x as int, y as int, radius as int, px as int, py as int, g@),
{
    let ghost gv = g@;
    let ghost b = bird_box(x as int, y as int, radius as int);
    let bird_left = triple(FINE, x, 1) - triple(FINE, radius, 1);
    let bird_right = triple(FINE, x, 1) + triple(FINE, radius, 1);
    let bird_bottom = triple(FINE, y, 1) - triple(FINE, radius, 1);
    let bird_top = triple(FINE, y, 1) + triple(FINE, radius, 1);

    let pipe_center_x = triple(FINE, px, 1) + triple(2000, g.offset_x, g.scale);
    let pipe_center_y = triple(FINE, py, 1) + triple(2000, g.offset_y, g.scale);
    let half_width = triple(PIPE_BASE_WIDTH * UNIT, g.scale as i64, g.width_factor);
    let pipe_left = pipe_center_x - half_width;
    let pipe_right = pipe_center_x + half_width;
    assert(pipe_left == pipe_box(px as int, py as int, gv).cx - pipe_box(px as int, py as int, gv).half_w);

    if bird_right <= pipe_left || bird_left >= pipe_right {
        return false;
    }
    if g.precise {
        let mut i: usize = 0;
        while i < g.segments.len()
            invariant
                i <= g.segments@.len(),
                gv == g@,
                b == bird_box(x as int, y as int, radius as int),
                bird_left == b.cx - b.half_w,
                bird_right == b.cx + b.half_w,
                bird_bottom == b.cy - b.half_h,
                bird_top == b.cy + b.half_h,
                pipe_center_x == center_x(px as int, gv),
                pipe_center_y == center_y(py as int, gv),
                -2 * WIDE <= pipe_center_x <= 2 * WIDE,
                -2 * WIDE <= pipe_center_y <= 2 * WIDE,
                -2 * WIDE <= bird_left <= 2 * WIDE,
                -2 * WIDE <= bird_right <= 2 * WIDE,
                -2 * WIDE <= bird_bottom <= 2 * WIDE,
                -2 * WIDE <= bird_top <= 2 * WIDE,
                x_overlap(b, pipe_box(px as int, py as int, gv)),
                gv.precise,
                forall|j: int| 0 <= j < i ==> !#[trigger] segment_hit(b, px as int, py as int, gv, j),
            decreases g.segments@.len() - i,
        {
            let s = g.segments[i];
            let ghost sb = segment_box(px as int, py as int, gv, s);
            let seg_center_x = pipe_center_x + triple(2 * PIPE_BASE_WIDTH * UNIT, s.offset_x as i64, g.scale);
            let seg_center_y = pipe_center_y + triple(2 * SEGMENT_Y_SPAN * UNIT, s.offset_y as i64, g.scale);
            let seg_half_w = triple(PIPE_BASE_WIDTH * UNIT, g.scale as i64, s.width_factor);
            let seg_half_h = triple(PIPE_BASE_HEIGHT * UNIT, g.scale as i64, s.height_factor);
            assert(seg_center_x == sb.cx && seg_center_y == sb.cy);
            if bird_right > seg_center_x - seg_half_w && bird_left < seg_center_x + seg_half_w {
                if bird_top > seg_center_y - seg_half_h && bird_bottom < seg_center_y + seg_half_h {
                    assert(segment_hit(b, px as int, py as int, gv, i as int));
                    return true;
                }
            }
            i += 1;
        }
        false
    } else {
        let pipe_center_y2 = pipe_center_y;
        let half_height = triple(PIPE_BASE_HEIGHT * UNIT, g.scale as i64, g.height_factor);
        bird_top > pipe_center_y2 - half_height && bird_bottom < pipe_center_y2 + half_height
    }
}

/// The player against one obstacle, with the obstacle variant's geometry.
pub fn check_pipe_collision(bird: &Bird, pipe: &Pipe) -> (r: bool)
    ensures
        r == pipe_hit(
            bird.x as int,
            bird.y as int,
            bird.character.spec_collision_radius(),
            pipe.x as int,
            pipe.y as int,
            pipe.pipe_type.spec_geometry(),
        ),
{
    let g = pipe.pipe_type.geometry();
    pipe_geometry_collision(bird.x, bird.y, bird.character.get_collision_radius(), pipe.x, pipe.y, &g)
}

} // verus!
