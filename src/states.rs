//! The screens of the game and the inputs that move between them.
use vstd::prelude::*;
use crate::audio::AudioEvent;

verus! {

#[derive(Debug, Clone, Copy, PartialEq, Eq, Hash, Structural)]
pub enum GameState {
    Menu,
    Playing,
    GameOver,
    Leaderboard,
}

/// Debounced, edge-triggered player inputs.
#[derive(Debug, Clone, Copy, PartialEq, Eq, Structural)]
pub enum InputEvent {
    Flap,
    SelectPrevious,
    SelectNext,
    Confirm,
    Cancel,
    Restart,
    OpenLeaderboard,
}

/// The screen an input leads to, with the cue it sounds; `None` when the
/// input does nothing on this screen. Confirm starts a game from the menu,
/// which also opens the leaderboard; restart replays after a game over;
/// cancel returns to the menu from any other screen.
pub open spec fn transition_of(state: GameState, input: InputEvent) -> Option<(GameState, Option<AudioEvent>)> {
    match (state, input) {
        (GameState::Menu, InputEvent::Confirm) => Some((GameState::Playing, Some(AudioEvent::Swoosh))),
        (GameState::Menu, InputEvent::OpenLeaderboard) => Some((GameState::Leaderboard, Some(AudioEvent::Swoosh))),
        (GameState::GameOver, InputEvent::Restart) => Some((GameState::Playing, None)),
        (GameState::Playing, InputEvent::Cancel) => Some((GameState::Menu, None)),
        (GameState::GameOver, InputEvent::Cancel) => Some((GameState::Menu, None)),
        (GameState::Leaderboard, InputEvent::Cancel) => Some((GameState::Menu, Some(AudioEvent::Swoosh))),
        _ => None,
    }
}

impl GameState {
    /// The initial screen.
    pub fn new() -> (r: GameState)
        ensures
            r == GameState::Menu,
    {
        GameState::Menu
    }

    /// Applies an input, see [`transition_of`].
    pub fn transition(self, input: InputEvent) -> (r: Option<(GameState, Option<AudioEvent>)>)
        ensures
            r == transition_of(self, input),
    {
        match (self, input) {
            (GameState::Menu, InputEvent::Confirm) => Some((GameState::Playing, Some(AudioEvent::Swoosh))),
            (GameState::Menu, InputEvent::OpenLeaderboard) => Some(
                (GameState::Leaderboard, Some(AudioEvent::Swoosh)),
            ),
            (GameState::GameOver, InputEvent::Restart) => Some((GameState::Playing, None)),
            (GameState::Playing, InputEvent::Cancel) => Some((GameState::Menu, None)),
            (GameState::GameOver, InputEvent::Cancel) => Some((GameState::Menu, None)),
            (GameState::Leaderboard, InputEvent::Cancel) => Some((GameState::Menu, Some(AudioEvent::Swoosh))),
            _ => None,
        }
    }

    /// A collision ends a game in progress; elsewhere it changes nothing.
    pub fn after_collision(self) -> (r: GameState)
        ensures
            r == if self == GameState::Playing {
                GameState::GameOver
            } else {
                self
            },
    {
        match self {
            GameState::Playing => GameState::GameOver,
            _ => self,
        }
    }
}

/// The leaderboard is reached from the menu only.
pub proof fn lemma_leaderboard_only_from_menu(state: GameState, input: InputEvent)
    requires
        transition_of(state, input) matches Some((next, _)) && next == GameState::Leaderboard,
    ensures
        state == GameState::Menu,
{
}

} // verus!
