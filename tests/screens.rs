use flappy_bird::audio::AudioEvent;
use flappy_bird::catalog::{BirdCharacter, PipeType, UNIT};
use flappy_bird::display::{decimal_digits, elapsed_since, number_score_display, ElapsedTime, ScoreDigit};
use flappy_bird::session::on_game_over;
use flappy_bird::states::{GameState, InputEvent};

#[test]
fn menu_transitions() {
    let s = GameState::new();
    assert_eq!(s, GameState::Menu);
    assert_eq!(s.transition(InputEvent::Confirm), Some((GameState::Playing, Some(AudioEvent::Swoosh))));
    assert_eq!(s.transition(InputEvent::OpenLeaderboard), Some((GameState::Leaderboard, Some(AudioEvent::Swoosh))));
    assert_eq!(s.transition(InputEvent::Cancel), None);
    assert_eq!(s.transition(InputEvent::Restart), None);
}

#[test]
fn in_game_transitions() {
    assert_eq!(GameState::Playing.transition(InputEvent::Cancel), Some((GameState::Menu, None)));
    assert_eq!(GameState::Playing.transition(InputEvent::Restart), None);
    assert_eq!(GameState::GameOver.transition(InputEvent::Restart), Some((GameState::Playing, None)));
    assert_eq!(GameState::GameOver.transition(InputEvent::Cancel), Some((GameState::Menu, None)));
    assert_eq!(GameState::Leaderboard.transition(InputEvent::Cancel), Some((GameState::Menu, Some(AudioEvent::Swoosh))));
    assert_eq!(GameState::Leaderboard.transition(InputEvent::Confirm), None);
    assert_eq!(GameState::Playing.after_collision(), GameState::GameOver);
    assert_eq!(GameState::Menu.after_collision(), GameState::Menu);
    assert_eq!(on_game_over(), AudioEvent::Die);
}

#[test]
fn score_digits_are_centred() {
    assert_eq!(decimal_digits(0), vec![0]);
    assert_eq!(decimal_digits(907), vec![9, 0, 7]);
    assert_eq!(number_score_display(5), vec![ScoreDigit { digit: 5, x: 0 }]);
    assert_eq!(
        number_score_display(42),
        vec![ScoreDigit { digit: 4, x: -14 * UNIT }, ScoreDigit { digit: 2, x: 14 * UNIT }]
    );
    let r = number_score_display(123);
    assert_eq!(r.iter().map(|d| d.x / UNIT).collect::<Vec<_>>(), vec![-28, 0, 28]);
    assert_eq!(number_score_display(u32::MAX).len(), 10);
}

#[test]
fn elapsed_time_buckets() {
    assert_eq!(elapsed_since(100, 100), ElapsedTime::JustNow);
    assert_eq!(elapsed_since(159, 100), ElapsedTime::JustNow);
    assert_eq!(elapsed_since(160, 100), ElapsedTime::MinutesAgo(1));
    assert_eq!(elapsed_since(3699, 100), ElapsedTime::MinutesAgo(59));
    assert_eq!(elapsed_since(3700, 100), ElapsedTime::HoursAgo(1));
    assert_eq!(elapsed_since(86_500, 100), ElapsedTime::DaysAgo(1));
    assert_eq!(elapsed_since(0, 100), ElapsedTime::JustNow);
}

#[test]
fn character_catalog() {
    let all = BirdCharacter::all_characters();
    for (i, c) in all.iter().enumerate() {
        assert_eq!(c.index(), i);
        assert_eq!(c.next().previous(), *c);
    }
    assert_eq!(BirdCharacter::XiaoBa.next(), BirdCharacter::YellowBird);
    assert_eq!(BirdCharacter::YellowBird.get_collision_radius(), 12 * UNIT);
    assert_eq!(BirdCharacter::JiYi.get_collision_radius(), 10 * UNIT);
    assert_eq!(BirdCharacter::WuSaQi.get_name(), "乌撒奇");
    assert_eq!(BirdCharacter::RedBird.get_texture_path(), "birds/redbird-midflap.png");
    assert_eq!(BirdCharacter::RedBird.get_scale(), 2000);
    assert_eq!(BirdCharacter::XiaoBa.get_scale(), 300);
}

#[test]
fn pipe_catalog() {
    assert_eq!(PipeType::all_types(), [PipeType::Green, PipeType::Red]);
    let g = PipeType::Red.geometry();
    assert_eq!((g.scale, g.width_factor, g.height_factor), (1000, 800, 900));
    assert!(!g.precise);
    assert_eq!(g.segments.len(), 1);
    assert_eq!(PipeType::Green.get_texture_path(), "pipes/pipe-green.png");
}
