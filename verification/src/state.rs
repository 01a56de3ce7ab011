//! The screens of the program.

use vstd::prelude::*;

verus! {

/// The screen that is showing: the menu, or one of the three ways to play.
#[derive(Debug, Clone, Copy, PartialEq, Eq, Hash, Structural)]
pub enum GameState {
    Menu,
    Mode1P,
    Mode2P,
    ModeWall,
}

impl Default for GameState {
    fn default() -> (state: GameState)
        ensures
            state == GameState::Menu,
    {
        GameState::Menu
    }
}

} // verus!
