use flappy_bird::audio::AudioEvent;
use flappy_bird::catalog::{BirdCharacter, PipeType, UNIT};
use flappy_bird::entities::{Pipe, Scrolling};
use flappy_bird::scoring::{passed_pipe_positions, round_to_unit, score_window_contains};
use flappy_bird::world::World;

fn pipe(id: u64, x: i64) -> Pipe {
    Pipe { id, pipe_type: PipeType::Green, x, y: 0, upper: id % 2 == 0, scrolling: Scrolling { speed: 200_000 } }
}

#[test]
fn pair_at_same_rounded_position_scores_once() {
    let mut world = World::setup_game(BirdCharacter::YellowBird);
    world.bird.x = 100 * UNIT;
    world.pipes.push(pipe(10, 44_600_000));
    world.pipes.push(pipe(11, 45_200_000));
    world.score_system();
    assert_eq!(world.score, 1);
    assert_eq!(world.events, vec![AudioEvent::Score]);
}

#[test]
fn distinct_positions_score_separately() {
    let mut world = World::setup_game(BirdCharacter::YellowBird);
    world.bird.x = 100 * UNIT;
    world.pipes.push(pipe(10, 46 * UNIT));
    world.pipes.push(pipe(11, 48 * UNIT));
    world.pipes.push(pipe(12, 30 * UNIT));
    world.score = 3;
    world.score_system();
    assert_eq!(world.score, 5);
    assert_eq!(world.events, vec![AudioEvent::Score, AudioEvent::Score]);
}

#[test]
fn window_is_open_on_both_ends() {
    assert!(!score_window_contains(50 * UNIT, 100 * UNIT));
    assert!(!score_window_contains(45 * UNIT, 100 * UNIT));
    assert!(score_window_contains(45 * UNIT + 1, 100 * UNIT));
    assert!(score_window_contains(50 * UNIT - 1, 100 * UNIT));
}

#[test]
fn rounding_is_half_away_from_zero() {
    assert_eq!(round_to_unit(44_600_000), 45);
    assert_eq!(round_to_unit(45_200_000), 45);
    assert_eq!(round_to_unit(44_500_000), 45);
    assert_eq!(round_to_unit(44_499_999), 44);
    assert_eq!(round_to_unit(-44_500_000), -45);
    assert_eq!(round_to_unit(-44_400_000), -44);
    assert_eq!(round_to_unit(i64::MIN), -9_223_372_036_855);
}

#[test]
fn passed_positions_are_distinct() {
    let pipes = vec![pipe(1, -154_600_000), pipe(2, -154_700_000), pipe(3, -152 * UNIT), pipe(4, 0)];
    let r = passed_pipe_positions(&pipes, -100 * UNIT);
    assert_eq!(r, vec![-155, -152]);
}
