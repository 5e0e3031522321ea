//! The two modes of the game.

use vstd::prelude::*;

verus! {

/// Whether the game is still in its menu or is being played.
#[derive(Clone, Copy, Debug, PartialEq, Eq, Hash, Structural)]
pub enum GameState {
    /// The menu is up and waits for the player.
    Menu,
    /// The game runs.
    Playing,
}

impl Default for GameState {
    /// The game starts in its menu.
    fn default() -> (state: GameState)
        ensures
            state == GameState::Menu,
    {
        GameState::Menu
    }
}

impl GameState {
    /// The mode after the player asked to play: always `Playing`.
    pub open spec fn started(self) -> GameState {
        GameState::Playing
    }

    /// Starts the game. Says whether the world is to be set up, which is the
    /// case when the game was not being played yet. There is no way back to
    /// the menu.
    pub fn start(&mut self) -> (set_up: bool)
        ensures
            *final(self) == old(self).started(),
            set_up == (*old(self) == GameState::Menu),
    {
        let set_up = match self {
            GameState::Menu => true,
            GameState::Playing => false,
        };
        *self = GameState::Playing;
        set_up
    }
}

} // verus!
