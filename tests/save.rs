use flappy_bird::catalog::BirdCharacter;
use flappy_bird::save::{add_score_to_leaderboard, player_name, LeaderboardEntry, SaveData};
use flappy_bird::session::{load_or_default, GameData};

fn entry(score: u32, timestamp: u64) -> LeaderboardEntry {
    LeaderboardEntry { score, character: BirdCharacter::RedBird, timestamp, player_name: String::from("p") }
}

fn record(scores: &[u32]) -> SaveData {
    let mut s = SaveData::new();
    for (i, sc) in scores.iter().enumerate() {
        s.leaderboard.push(entry(*sc, i as u64));
    }
    s.total_games = scores.len() as u32;
    s.total_score = scores.iter().sum();
    s.high_score = scores.iter().copied().max().unwrap_or(0);
    s
}

#[test]
fn new_entry_is_ranked_after_equal_scores() {
    let s = record(&[9, 5, 5, 2]);
    let r = add_score_to_leaderboard(s, 5, BirdCharacter::XiaoBa, 1000);
    let scores: Vec<u32> = r.leaderboard.iter().map(|e| e.score).collect();
    assert_eq!(scores, vec![9, 5, 5, 5, 2]);
    assert_eq!(r.leaderboard[3].timestamp, 1000);
    assert_eq!(r.leaderboard[3].character, BirdCharacter::XiaoBa);
    assert_eq!(r.leaderboard[3].player_name, "玩家小八");
    assert_eq!(r.total_games, 5);
    assert_eq!(r.total_score, 21 + 5);
    assert_eq!(r.high_score, 9);
}

#[test]
fn board_keeps_best_ten() {
    let s = record(&[20, 19, 18, 17, 16, 15, 14, 13, 12, 11]);
    let r = add_score_to_leaderboard(s, 15, BirdCharacter::YellowBird, 7);
    let scores: Vec<u32> = r.leaderboard.iter().map(|e| e.score).collect();
    assert_eq!(scores, vec![20, 19, 18, 17, 16, 15, 15, 14, 13, 12]);
    let s = record(&[20, 19, 18, 17, 16, 15, 14, 13, 12, 11]);
    let r = add_score_to_leaderboard(s, 3, BirdCharacter::YellowBird, 7);
    let scores: Vec<u32> = r.leaderboard.iter().map(|e| e.score).collect();
    assert_eq!(scores, vec![20, 19, 18, 17, 16, 15, 14, 13, 12, 11]);
    assert_eq!(r.total_games, 11);
}

#[test]
fn high_score_rises() {
    let r = add_score_to_leaderboard(SaveData::new(), 42, BirdCharacter::BlueBird, 1);
    assert_eq!(r.high_score, 42);
    assert_eq!(r.leaderboard.len(), 1);
    assert_eq!(r.leaderboard[0].player_name, "玩家Blue Bird");
}

#[test]
fn player_name_prefix() {
    assert_eq!(player_name(BirdCharacter::WuSaQi), "玩家乌撒奇");
}

#[test]
fn well_formed_record_loads_unchanged() {
    let s = record(&[30, 20, 10]);
    assert!(s.is_well_formed());
    let r = load_or_default(Some(s));
    let scores: Vec<u32> = r.leaderboard.iter().map(|e| e.score).collect();
    assert_eq!(scores, vec![30, 20, 10]);
    assert_eq!(r.total_games, 3);
    assert_eq!(r.total_score, 60);
}

#[test]
fn malformed_or_missing_record_gives_empty() {
    let unsorted = record(&[10, 30]);
    assert!(!unsorted.is_well_formed());
    let r = load_or_default(Some(unsorted));
    assert!(r.leaderboard.is_empty());
    assert_eq!(r.total_games, 0);
    let too_long = record(&[11, 10, 9, 8, 7, 6, 5, 4, 3, 2, 1]);
    assert!(!too_long.is_well_formed());
    let r = load_or_default(None);
    assert_eq!(r.high_score, 0);
    assert_eq!(r.selected_character, BirdCharacter::YellowBird);
}

#[test]
fn totals_overflow_is_detected() {
    let mut s = SaveData::new();
    s.total_score = u32::MAX - 1;
    assert!(s.can_add_score(1));
    assert!(!s.can_add_score(2));
}

#[test]
fn game_over_records_session() {
    let mut data = GameData::new(record(&[50]));
    assert_eq!(data.high_score, 50);
    data.score = 70;
    data.game_over_system();
    assert_eq!(data.high_score, 70);
    data.save_game_data(99);
    assert_eq!(data.save_data.high_score, 70);
    assert_eq!(data.high_score, 70);
    assert_eq!(data.save_data.leaderboard[0].score, 70);
    assert_eq!(data.save_data.leaderboard[1].score, 50);
    assert_eq!(data.save_data.total_games, 2);
}

#[test]
fn character_selection_cycles() {
    let mut data = GameData::new(SaveData::new());
    data.character_selection_system(false);
    assert_eq!(data.selected_character, BirdCharacter::XiaoBa);
    data.character_selection_system(true);
    data.character_selection_system(true);
    assert_eq!(data.selected_character, BirdCharacter::RedBird);
}

#[test]
fn entering_game_over_records_and_sounds_die() {
    let mut data = GameData::new(record(&[8, 3]));
    data.selected_character = BirdCharacter::JiYi;
    let cue = data.enter_game_over(5, 1234);
    assert_eq!(cue, flappy_bird::audio::AudioEvent::Die);
    assert_eq!(data.score, 5);
    assert_eq!(data.high_score, 8);
    let scores: Vec<u32> = data.save_data.leaderboard.iter().map(|e| e.score).collect();
    assert_eq!(scores, vec![8, 5, 3]);
    assert_eq!(data.save_data.leaderboard[1].player_name, "玩家吉伊");
    assert_eq!(data.save_data.leaderboard[1].timestamp, 1234);
    assert_eq!(data.save_data.total_games, 3);
    assert_eq!(data.save_data.total_score, 16);
    let cue = data.enter_game_over(12, 1300);
    assert_eq!(cue, flappy_bird::audio::AudioEvent::Die);
    assert_eq!(data.high_score, 12);
    assert_eq!(data.save_data.high_score, 12);
}
