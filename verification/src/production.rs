//! The ships that a body turns out.

use crate::chance::{draw_between, happens};
use crate::config::Config;
use crate::fleet::NewShip;
use crate::owner::OwnedBy;
use crate::space::{Motion, Orbiter, Rotation, Ship, SpawnShip, SpawnShipType, FULL_TURN};
use crate::timer::Timer;
use vstd::prelude::*;

verus! {

/// The number of the set of ship pictures for an owner: the slot of a
/// player, 2 for nobody.
pub fn ship_set(owner: OwnedBy) -> (set: usize)
    ensures
        set == match owner {
            OwnedBy::Player(slot) => slot,
            OwnedBy::Neutral => 2,
        },
{
    match owner {
        OwnedBy::Player(slot) => slot,
        OwnedBy::Neutral => 2,
    }
}

/// The colour that shows how far a body's next ship is.
#[derive(Clone, Copy, PartialEq, Eq, Debug, Structural)]
pub enum ProgressColor {
    Own,
    Enemy,
    Neutral,
}

/// The colour that shows how far the next ship of a body of `owner` is.
pub fn progress_color(owner: OwnedBy) -> (color: ProgressColor)
    ensures
        color == match owner {
            OwnedBy::Player(slot) => if slot == 0 {
                ProgressColor::Own
            } else {
                ProgressColor::Enemy
            },
            OwnedBy::Neutral => ProgressColor::Neutral,
        },
{
    match owner {
        OwnedBy::Player(slot) => if slot == 0 {
            ProgressColor::Own
        } else {
            ProgressColor::Enemy
        },
        OwnedBy::Neutral => ProgressColor::Neutral,
    }
}

/// Whether the ship that a body of `owner` turns out is a bigger one: only
/// the human player draws for it.
pub open spec fn enlarged(owner: OwnedBy, lucky: bool) -> bool {
    owner == OwnedBy::human() && lucky
}

/// The hit points with which a ship of the usual size comes into play:
/// those of the production, but one at least.
pub open spec fn usual(hit_points: i32) -> i32 {
    if hit_points < 1 {
        1
    } else {
        hit_points
    }
}

/// The hit points of a bigger ship: those of the production times `change`
/// hundredths, rounded up, but one at least and no more than an `i32`
/// holds.
pub open spec fn boosted(hit_points: i32, change: u32) -> int {
    let raised = -((-(hit_points * change)) / 100);
    if raised > i32::MAX {
        i32::MAX as int
    } else if raised < 1 {
        1
    } else {
        raised
    }
}

/// The hit points of a bigger ship.
pub fn bigger(hit_points: i32, change: u32) -> (raised: i32)
    ensures
        raised == boosted(hit_points, change),
        raised >= 1,
{
    if hit_points <= 0 {
        assert(hit_points * change <= 0) by (nonlinear_arith)
            requires
                hit_points <= 0,
                0 <= change,
        ;
        return 1;
    }
    assert(0 <= hit_points * change <= 0x7fff_ffff * 0xffff_ffff) by (nonlinear_arith)
        requires
            0 <= hit_points <= 0x7fff_ffff,
            0 <= change <= 0xffff_ffff,
    ;
    let scaled: u64 = hit_points as u64 * change as u64;
    let raised: u64 = (scaled + 99) / 100;
    if raised > i32::MAX as u64 {
        i32::MAX
    } else if raised < 1 {
        1
    } else {
        raised as i32
    }
}

/// The period of a neutral production after it has turned out a ship: a
/// fiftieth longer, as far as a `u32` goes.
pub open spec fn slowed(period: u32) -> u32 {
    if period + period / 50 > u32::MAX {
        u32::MAX
    } else {
        (period + period / 50) as u32
    }
}

/// A ship turned out, and whether it is a bigger one.
#[derive(Clone, Copy, PartialEq, Eq, Debug, Structural)]
pub struct Spawned {
    pub ship: NewShip,
    pub bigger: bool,
}

/// The slowest that a ship turns around the body that has turned it out,
/// in millionths of a radian per second.
pub const SPAWN_SPEED_MIN: i32 = 500_000;

/// The speed that a ship just turned out stays below, in millionths of a
/// radian per second.
pub const SPAWN_SPEED_MAX: i32 = 1_000_000;

/// The ship that the body `producer` of `owner` turns out: it belongs to
/// the owner and orbits the body the way the body's ships do, at the
/// body's orbiting distance, with the speed and phase given. A bigger
/// ship, for which only the human player draws, has more hit points. Any
/// ship has one hit point at least.
pub open spec fn produced(
    producer: u64,
    owner: OwnedBy,
    spawn: SpawnShip,
    lucky: bool,
    speed: u32,
    offset: i32,
    config: Config,
) -> Spawned {
    Spawned {
        ship: NewShip {
            owner,
            ship: Ship {
                hit_points: if enlarged(owner, lucky) {
                    boosted(spawn.hit_points, config.bigger_player_ship_change) as i32
                } else {
                    usual(spawn.hit_points)
                },
            },
            motion: Motion::Orbit(
                Orbiter {
                    speed,
                    offset,
                    direction: spawn.rotation_direction,
                    distance: spawn.orbit_distance() as u64,
                    around: producer,
                    rotation: Rotation::Free,
                },
            ),
        },
        bigger: enlarged(owner, lucky),
    }
}

/// The production after it has turned out a ship for `owner`: one that runs
/// the neutral profile is slower from then on.
pub open spec fn worn_out(spawn: SpawnShip, owner: OwnedBy) -> SpawnShip {
    if SpawnShipType::of_owner(owner) == SpawnShipType::Neutral {
        SpawnShip { every: Timer { duration: slowed(spawn.every.duration), ..spawn.every }, ..spawn }
    } else {
        spawn
    }
}

/// Turns out a ship for the body `producer` of `owner`, given the draw for
/// a bigger ship and the speed and phase drawn for its orbit.
pub fn produce(
    producer: u64,
    owner: OwnedBy,
    spawn: &mut SpawnShip,
    lucky: bool,
    speed: u32,
    offset: i32,
    config: &Config,
) -> (made: Spawned)
    ensures
        made == produced(producer, owner, *old(spawn), lucky, speed, offset, *config),
        made.ship.ship.hit_points >= 1,
        *final(spawn) == worn_out(*old(spawn), owner),
{
    let enlarged = owner.is_human() && lucky;
    let hit_points = if enlarged {
        bigger(spawn.hit_points, config.bigger_player_ship_change)
    } else if spawn.hit_points < 1 {
        1
    } else {
        spawn.hit_points
    };
    let made = Spawned {
        ship: NewShip {
            owner,
            ship: Ship { hit_points },
            motion: Motion::Orbit(
                Orbiter::every_with_offset(
                    speed,
                    producer,
                    spawn.rotation_direction,
                    spawn.orbiting_distance(),
                    offset,
                ),
            ),
        },
        bigger: enlarged,
    };
    if !owner.is_human() {
        let period = spawn.every.duration;
        let longer: u64 = period as u64 + (period / 50) as u64;
        spawn.every.duration = if longer > u32::MAX as u64 {
            u32::MAX
        } else {
            longer as u32
        };
    }
    made
}

/// Moves the production of the body `producer` on by `delta` milliseconds.
/// When its time has come round, the body turns out one ship, only one
/// however long the step, and starts on the next. Whether the ship is a
/// bigger one is drawn with the configured chance; the speed of its orbit
/// is drawn within a band, its phase within a full turn.
pub fn spawn_ship(
    producer: u64,
    owner: OwnedBy,
    spawn: &mut SpawnShip,
    delta: u32,
    config: &Config,
) -> (made: Option<Spawned>)
    ensures
        made is Some <==> old(spawn).every.fires(delta),
        made is None ==> *final(spawn) == (SpawnShip {
            every: old(spawn).every.ticked(delta),
            ..*old(spawn)
        }),
        made matches Some(spawned) ==> spawned.ship.ship.hit_points >= 1 && spawned.ship.owner
            == owner,
        made matches Some(spawned) ==> exists|lucky: bool, speed: u32, offset: i32|
            {
                &&& (config.bigger_player_ship_rate == 0 ==> !lucky)
                &&& (config.bigger_player_ship_rate >= 1000 ==> lucky)
                &&& SPAWN_SPEED_MIN <= speed < SPAWN_SPEED_MAX
                &&& 0 <= offset < FULL_TURN
                &&& spawned == #[trigger] produced(
                    producer,
                    owner,
                    *old(spawn),
                    lucky,
                    speed,
                    offset,
                    *config,
                )
                &&& *final(spawn) == worn_out(
                    SpawnShip { every: old(spawn).every.ticked(delta), ..*old(spawn) },
                    owner,
                )
            },
{
    if !spawn.every.tick(delta) {
        return None;
    }
    let speed = draw_between(SPAWN_SPEED_MIN, SPAWN_SPEED_MAX) as u32;
    let offset = draw_between(0, FULL_TURN);
    let lucky = happens(config.bigger_player_ship_rate);
    let spawned = produce(producer, owner, spawn, lucky, speed, offset, config);
    proof {
        assert(spawned == produced(producer, owner, *old(spawn), lucky, speed, offset, *config));
    }
    Some(spawned)
}

} // verus!
