use flappy_bird::catalog::{PipeType, UNIT};
use flappy_bird::spawner::{gap_half_width, pair_heights, spawn_pair, SpawnTimer, MIN_GAP, SPAWN_X};

#[test]
fn gap_shrinks_per_five_points() {
    assert_eq!(gap_half_width(150 * UNIT, 0), 150 * UNIT);
    assert_eq!(gap_half_width(150 * UNIT, 4), 150 * UNIT);
    assert_eq!(gap_half_width(150 * UNIT, 5), 140 * UNIT);
    assert_eq!(gap_half_width(150 * UNIT, 34), 90 * UNIT);
    assert_eq!(gap_half_width(150 * UNIT, 35), 80 * UNIT);
}

#[test]
fn gap_never_below_floor() {
    for score in [0u32, 10, 35, 36, 40, 100, 1000, u32::MAX] {
        assert!(gap_half_width(150 * UNIT, score) >= 80 * UNIT);
    }
    assert_eq!(gap_half_width(150 * UNIT, u32::MAX), MIN_GAP);
    assert_eq!(gap_half_width(0, 0), MIN_GAP);
}

#[test]
fn pair_heights_around_centre() {
    let (upper, lower) = pair_heights(0, 75 * UNIT, 150 * UNIT);
    assert_eq!(upper, 225 * UNIT);
    assert_eq!(lower, -225 * UNIT);
    let (upper, lower) = pair_heights(-40 * UNIT, 80 * UNIT, 200 * UNIT);
    assert_eq!(upper, 240 * UNIT);
    assert_eq!(lower, -320 * UNIT);
}

#[test]
fn pair_members_share_variant_and_x() {
    let (upper, lower) = spawn_pair(7, PipeType::Red, 30 * UNIT, 100 * UNIT, 200 * UNIT, 200_000);
    assert_eq!(upper.pipe_type, lower.pipe_type);
    assert_eq!(upper.pipe_type, PipeType::Red);
    assert_eq!(upper.x, lower.x);
    assert_eq!(upper.x, SPAWN_X);
    assert_eq!(upper.scrolling, lower.scrolling);
    assert!(upper.upper && !lower.upper);
    assert_eq!((upper.id, lower.id), (7, 8));
    assert_eq!(upper.y, 330 * UNIT);
    assert_eq!(lower.y, -270 * UNIT);
}

#[test]
fn timer_fires_on_interval_and_keeps_remainder() {
    let mut t = SpawnTimer::new(2000);
    assert!(!t.tick(1999));
    assert_eq!(t.elapsed_ms, 1999);
    assert!(t.tick(1));
    assert_eq!(t.elapsed_ms, 0);
    assert!(t.tick(4500));
    assert_eq!(t.elapsed_ms, 500);
}
