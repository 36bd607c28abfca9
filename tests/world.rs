use flappy_bird::audio::AudioEvent;
use flappy_bird::catalog::{BirdCharacter, PipeType, UNIT};
use flappy_bird::entities::{BackgroundElement, BackgroundLayer, Pipe, Scrolling};
use flappy_bird::scroll::{scroll_background_element, scroll_pipes};
use flappy_bird::world::{GameConfig, World};

fn pipe(id: u64, x: i64, y: i64) -> Pipe {
    Pipe { id, pipe_type: PipeType::Green, x, y, upper: false, scrolling: Scrolling { speed: 200_000 } }
}

#[test]
fn new_session_layout() {
    let world = World::setup_game(BirdCharacter::JiYi);
    assert_eq!(world.bird.x, -200 * UNIT);
    assert_eq!(world.bird.y, 0);
    assert_eq!(world.bird.velocity.y, 0);
    assert_eq!(world.bird.gravity.0, 980);
    assert_eq!(world.score, 0);
    assert!(world.pipes.is_empty());
    let mountains: Vec<i64> = world
        .background
        .iter()
        .filter(|e| e.layer == BackgroundLayer::Mountain)
        .map(|e| e.x / UNIT)
        .collect();
    assert_eq!(mountains, vec![-400, -200, 0, 200, 400]);
    let clouds: Vec<i64> =
        world.background.iter().filter(|e| e.layer == BackgroundLayer::Cloud).map(|e| e.x / UNIT).collect();
    assert_eq!(clouds, vec![-300, 0, 300]);
}

#[test]
fn pipes_scroll_and_leave_past_left_edge() {
    let pipes = vec![pipe(1, 0, 0), pipe(2, -599 * UNIT, 0), pipe(3, -598 * UNIT, 0)];
    // 10 ms at 200 units/s: two units left.
    let r = scroll_pipes(&pipes, 10);
    assert_eq!(r.len(), 2);
    assert_eq!(r[0].x, -2 * UNIT);
    assert_eq!(r[0].id, 1);
    assert_eq!(r[1].x, -600 * UNIT);
    assert_eq!(r[1].id, 3);
}

#[test]
fn background_recycles_to_the_right() {
    let m = BackgroundElement {
        id: 1,
        layer: BackgroundLayer::Mountain,
        x: -599 * UNIT,
        y: -250 * UNIT,
        scrolling: Scrolling { speed: 50_000 },
    };
    let r = scroll_background_element(m, 100, 150 * UNIT);
    assert_eq!(r.x, (600 + 200 + 150) * UNIT);
    assert_eq!(r.y, m.y);
    let c = BackgroundElement {
        id: 2,
        layer: BackgroundLayer::Cloud,
        x: 0,
        y: 200 * UNIT,
        scrolling: Scrolling { speed: 30_000 },
    };
    let r = scroll_background_element(c, 100, 250 * UNIT);
    assert_eq!(r.x, -3 * UNIT);
}

#[test]
fn scrolling_system_keeps_recycled_elements_in_range() {
    let mut world = World::setup_game(BirdCharacter::YellowBird);
    for e in world.background.iter_mut() {
        e.x = -599 * UNIT;
    }
    world.scrolling_system(1000);
    for e in &world.background {
        match e.layer {
            BackgroundLayer::Mountain => assert!(e.x >= 900 * UNIT && e.x < 1200 * UNIT),
            BackgroundLayer::Cloud => assert!(e.x >= 1100 * UNIT && e.x < 1500 * UNIT),
        }
    }
}

#[test]
fn spawn_system_adds_a_pair_when_timer_fires() {
    let mut world = World::setup_game(BirdCharacter::YellowBird);
    let mut config = GameConfig::new();
    assert!(!world.pipe_spawn_system(&mut config, 1500));
    assert!(world.pipes.is_empty());
    assert!(world.pipe_spawn_system(&mut config, 500));
    assert_eq!(world.pipes.len(), 2);
    let (a, b) = (world.pipes[0], world.pipes[1]);
    assert_eq!(a.pipe_type, b.pipe_type);
    assert_eq!(a.x, 500 * UNIT);
    assert_eq!(b.x, 500 * UNIT);
    // Gap centre in [-100, 100), gap half width 150, offset 200.
    assert_eq!(a.y - b.y, 2 * 350 * UNIT);
    let centre = (a.y + b.y) / 2;
    assert!(centre >= -100 * UNIT && centre < 100 * UNIT);
    assert!(a.upper && !b.upper);
}

#[test]
fn spawn_pipes_uses_score_for_gap() {
    let mut world = World::setup_game(BirdCharacter::YellowBird);
    let config = GameConfig::new();
    world.score = 100;
    world.spawn_pipes(&config, 0, PipeType::Red);
    assert_eq!(world.pipes[0].y, (80 + 200) * UNIT);
    assert_eq!(world.pipes[1].y, -(80 + 200) * UNIT);
    assert_eq!(world.next_id, 11);
}

#[test]
fn tick_with_flap_moves_up_and_emits_jump() {
    let mut world = World::setup_game(BirdCharacter::YellowBird);
    let mut config = GameConfig::new();
    assert!(world.can_tick(&config, 10, true));
    let over = world.tick(&mut config, 10, true);
    assert!(!over);
    assert_eq!(world.bird.velocity.y, 400_000 - 9_800);
    assert_eq!(world.bird.y, 390_200 * 10);
    assert_eq!(world.drain_events(), vec![AudioEvent::Jump]);
    assert!(world.events.is_empty());
}

#[test]
fn tick_ends_game_on_boundary_and_skips_scoring() {
    let mut world = World::setup_game(BirdCharacter::YellowBird);
    let mut config = GameConfig::new();
    world.bird.y = 270 * UNIT;
    world.bird.velocity.y = 100_000;
    world.pipes.push(pipe(50, world.bird.x - 52 * UNIT, 1000 * UNIT));
    let over = world.tick(&mut config, 10, false);
    assert!(over);
    assert_eq!(world.score, 0);
    assert_eq!(world.events, vec![AudioEvent::Hit]);
}

#[test]
fn tick_scores_passed_pair() {
    let mut world = World::setup_game(BirdCharacter::YellowBird);
    let mut config = GameConfig::new();
    let x = world.bird.x - 50 * UNIT;
    // After 10 ms both move two units left, into the scoring window.
    world.pipes.push(pipe(50, x, 1000 * UNIT));
    world.pipes.push(pipe(51, x + 300_000, -1000 * UNIT));
    let over = world.tick(&mut config, 10, false);
    assert!(!over);
    assert_eq!(world.score, 1);
    assert_eq!(world.events, vec![AudioEvent::Score]);
}

#[test]
fn tick_overflow_is_reported() {
    let world = World::setup_game(BirdCharacter::YellowBird);
    let mut config = GameConfig::new();
    config.pipe_speed = i64::MAX;
    assert!(!world.can_tick(&config, 1000, false));
}

#[test]
fn spawned_gap_centres_vary() {
    let mut world = World::setup_game(BirdCharacter::YellowBird);
    let mut config = GameConfig::new();
    let mut centres = Vec::new();
    for _ in 0..20 {
        assert!(world.pipe_spawn_system(&mut config, 2000));
        let n = world.pipes.len();
        let (a, b) = (world.pipes[n - 2], world.pipes[n - 1]);
        let centre = (a.y + b.y) / 2;
        assert!(centre >= -100 * UNIT && centre < 100 * UNIT);
        centres.push(centre);
    }
    assert!(centres.iter().any(|c| *c != centres[0]));
    assert_eq!(world.next_id, 9 + 40);
}

#[test]
fn recycled_spacing_varies() {
    let mut world = World::setup_game(BirdCharacter::YellowBird);
    for e in world.background.iter_mut() {
        e.x = -599 * UNIT;
    }
    world.scrolling_system(1000);
    let xs: Vec<i64> = world.background.iter().map(|e| e.x).collect();
    assert!(xs.iter().any(|x| *x != xs[0]));
    assert!(xs.iter().any(|x| *x != 900 * UNIT && *x != 1100 * UNIT));
}
