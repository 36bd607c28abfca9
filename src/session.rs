//! Data that outlives a playing session: the last score, the high score, the
//! selected character and the saved record, with what happens on game over.
use vstd::prelude::*;
use crate::audio::AudioEvent;
use crate::catalog::BirdCharacter;
use crate::save::{add_score_to_leaderboard, board_view, player_name_of, ranked_insert, EntryView, SaveData};

verus! {

pub struct GameData {
    /// Score of the current or last session.
    pub score: u32,
    pub high_score: u32,
    pub selected_character: BirdCharacter,
    pub save_data: SaveData,
}

/// The record that loading yields: the stored one if it could be read and is
/// well formed, else an empty one.
pub open spec fn loaded_record_ok(loaded: Option<SaveData>, r: SaveData) -> bool {
    match loaded {
        Some(s) => if s.wf() {
            r == s
        } else {
            is_empty_record(r)
        },
        None => is_empty_record(r),
    }
}

pub open spec fn is_empty_record(r: SaveData) -> bool {
    &&& r.high_score == 0
    &&& r.selected_character == BirdCharacter::YellowBird
    &&& r.leaderboard@.len() == 0
    &&& r.total_games == 0
    &&& r.total_score == 0
}

/// Keeps a record read from storage if it is well formed; a missing or
/// malformed one gives way to an empty record.
pub fn load_or_default(loaded: Option<SaveData>) -> (r: SaveData)
    ensures
        r.wf(),
        loaded_record_ok(loaded, r),
{
    match loaded {
        Some(s) => {
            if s.is_well_formed() {
                s
            } else {
                SaveData::new()
            }
        },
        None => SaveData::new(),
    }
}

/// A well-formed record, such as every record that
/// [`add_score_to_leaderboard`] produces, comes back from loading exactly as
/// it was stored: same leaderboard order, same totals.
pub proof fn lemma_stored_record_reloads(stored: SaveData, loaded: SaveData)
    requires
        stored.wf(),
        loaded_record_ok(Some(stored), loaded),
    ensures
        loaded == stored,
        board_view(loaded.leaderboard@) == board_view(stored.leaderboard@),
        loaded.total_games == stored.total_games,
        loaded.total_score == stored.total_score,
{
}

impl GameData {
    /// Process start: the high score and character come from the record.
    pub fn new(save_data: SaveData) -> (r: GameData)
        ensures
            r.score == 0,
            r.high_score == save_data.high_score,
            r.selected_character == save_data.selected_character,
            r.save_data == save_data,
    {
        GameData {
            score: 0,
            high_score: save_data.high_score,
            selected_character: save_data.selected_character,
            save_data,
        }
    }

    /// Moves the character selection one step back or forward in the cycle.
    pub fn character_selection_system(&mut self, forward: bool)
        ensures
            final(self).selected_character.spec_index() == if forward {
                (old(self).selected_character.spec_index() + 1) % 6
            } else {
                (old(self).selected_character.spec_index() + 5) % 6
            },
            final(self).score == old(self).score,
            final(self).high_score == old(self).high_score,
            final(self).save_data == old(self).save_data,
    {
        self.selected_character = if forward {
            self.selected_character.next()
        } else {
            self.selected_character.previous()
        };
    }

    /// Raises the high score to the session score if it is higher.
    pub fn game_over_system(&mut self)
        ensures
            final(self).high_score == if old(self).score > old(self).high_score {
                old(self).score
            } else {
                old(self).high_score
            },
            final(self).score == old(self).score,
            final(self).selected_character == old(self).selected_character,
            final(self).save_data == old(self).save_data,
    {
        if self.score > self.high_score {
            self.high_score = self.score;
        }
    }

    /// Entering the game-over screen: the session's score becomes the last
    /// score, the high score rises to it, the game is recorded in the saved
    /// record, and the game-over cue is returned.
    pub fn enter_game_over(&mut self, session_score: u32, timestamp: u64) -> (r: AudioEvent)
        requires
            old(self).save_data.wf(),
            old(self).save_data.can_record(session_score),
        ensures
            r == AudioEvent::Die,
            final(self).score == session_score,
            final(self).save_data.wf(),
            board_view(final(self).save_data.leaderboard@) == ranked_insert(
                board_view(old(self).save_data.leaderboard@),
                EntryView {
                    score: session_score,
                    character: old(self).selected_character,
                    timestamp,
                    player_name: player_name_of(old(self).selected_character),
                },
            ),
            final(self).save_data.total_games == old(self).save_data.total_games + 1,
            final(self).save_data.total_score == old(self).save_data.total_score + session_score,
            final(self).save_data.high_score == if session_score > old(self).save_data.high_score {
                session_score
            } else {
                old(self).save_data.high_score
            },
            final(self).high_score == final(self).save_data.high_score,
            final(self).selected_character == old(self).selected_character,
    {
        self.score = session_score;
        self.game_over_system();
        self.save_game_data(timestamp);
        on_game_over()
    }

    /// Records the session score in the saved record, ranked on the
    /// leaderboard, and takes the record's high score.
    pub fn save_game_data(&mut self, timestamp: u64)
        requires
            old(self).save_data.wf(),
            old(self).save_data.can_record(old(self).score),
        ensures
            final(self).save_data.wf(),
            board_view(final(self).save_data.leaderboard@) == ranked_insert(
                board_view(old(self).save_data.leaderboard@),
                EntryView {
                    score: old(self).score,
                    character: old(self).selected_character,
                    timestamp,
                    player_name: player_name_of(old(self).selected_character),
                },
            ),
            final(self).save_data.total_games == old(self).save_data.total_games + 1,
            final(self).save_data.total_score == old(self).save_data.total_score + old(self).score,
            final(self).save_data.high_score == if old(self).score > old(self).save_data.high_score {
                old(self).score
            } else {
                old(self).save_data.high_score
            },
            final(self).save_data.selected_character == old(self).save_data.selected_character,
            final(self).high_score == final(self).save_data.high_score,
            final(self).score == old(self).score,
            final(self).selected_character == old(self).selected_character,
    {
        let mut record = SaveData::new();
        std::mem::swap(&mut record, &mut self.save_data);
        let updated = add_score_to_leaderboard(record, self.score, self.selected_character, timestamp);
        self.high_score = updated.high_score;
        self.save_data = updated;
    }
}

/// The cue that sounds when a game ends.
pub fn on_game_over() -> (r: AudioEvent)
    ensures
        r == AudioEvent::Die,
{
    AudioEvent::Die
}

} // verus!
