//! Which screen the game shows.

use vstd::prelude::*;

verus! {

/// The screens of the game.
#[derive(Clone, Copy, PartialEq, Eq, Debug, Structural)]
pub enum Screen {
    Splash,
    Menu,
    About,
    Game,
    Exit,
    Lost,
    Win,
}

/// The screen shown and the best score so far.
#[derive(Clone, Copy, PartialEq, Eq, Debug, Structural)]
pub struct GameScreen {
    pub current_screen: Screen,
    pub highscore: u32,
}

impl Default for GameScreen {
    fn default() -> (screen: GameScreen)
        ensures
            screen == (GameScreen { current_screen: Screen::Splash, highscore: 0 }),
    {
        GameScreen { current_screen: Screen::Splash, highscore: 0 }
    }
}

impl GameScreen {
    /// Whether `score` beats a best score that was ever set.
    pub fn is_new_highscore(&self, score: u32) -> (new: bool)
        ensures
            new == (self.highscore != 0 && score > self.highscore),
    {
        self.highscore != 0 && score > self.highscore
    }
}

} // verus!
