//! What can be tuned.

use vstd::prelude::*;

verus! {

/// The settings of a match. Chances are in thousandths, factors in
/// hundredths, times in milliseconds.
#[derive(Clone, Copy, PartialEq, Eq, Debug, Structural)]
pub struct Config {
    /// The chance that a ship of the human player comes out bigger.
    pub bigger_player_ship_rate: u32,
    /// The factor by which a bigger ship is bigger.
    pub bigger_player_ship_change: u32,
    /// The time between two waves from the planet.
    pub fleet_timer: u32,
    /// The time before the first wave can come.
    pub fleet_delay: u32,
    /// The chance that a wave comes when its time has come.
    pub fleet_chance: u32,
    /// The time between two asteroids.
    pub asteroid_timer: u32,
    /// The chance that an asteroid comes when its time has come.
    pub asteroid_chance: u32,
}

impl Default for Config {
    fn default() -> (config: Config)
        ensures
            config == (Config {
                bigger_player_ship_rate: 250,
                bigger_player_ship_change: 125,
                fleet_timer: 1000,
                fleet_delay: 15000,
                fleet_chance: 200,
                asteroid_timer: 30000,
                asteroid_chance: 500,
            }),
    {
        Config {
            bigger_player_ship_rate: 250,
            bigger_player_ship_change: 125,
            fleet_timer: 1000,
            fleet_delay: 15000,
            fleet_chance: 200,
            asteroid_timer: 30000,
            asteroid_chance: 500,
        }
    }
}

/// A chance in thousandths, as its numerator: what is more than certain is
/// certain.
pub open spec fn capped(chance: int) -> int {
    if chance > 1000 {
        1000
    } else {
        chance
    }
}

} // verus!
