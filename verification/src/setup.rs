//! How a match begins.

use crate::chance::{draw_between, happens};
use crate::game::{Moon, MoonEntity};
use crate::owner::OwnedBy;
use crate::space::{Orbiter, Rotation, RotationDirection, SpawnShipType, FULL_TURN};
use vstd::prelude::*;

verus! {

/// The number of moons around the planet.
pub const NB_MOON: i32 = 3;

/// The distance, in hundredths, within which all the moons circle, but for
/// what is drawn on top.
pub const MOON_RANGE: i32 = 30000;

/// What is drawn for a moon: how fast it spins on itself, in millionths of
/// a radian per second and backwards below zero; how fast it circles the
/// planet, in the same unit; whether it circles clockwise; how much farther
/// out it circles than its place says, in hundredths; and the phase of its
/// orbit, in millionths of a radian.
#[derive(Clone, Copy, PartialEq, Eq, Debug, Structural)]
pub struct MoonDraws {
    pub spin: i32,
    pub speed: u32,
    pub clockwise: bool,
    pub extra: u32,
    pub offset: i32,
}

/// A moon as a match begins: the moon itself, its orbit around the planet,
/// and how fast it spins on itself.
#[derive(Clone, Copy, PartialEq, Eq, Debug, Structural)]
pub struct StartingMoon {
    pub moon: MoonEntity,
    pub orbiter: Orbiter,
    pub spin: i32,
}

/// Whether the draws for a moon are within their bounds: a spin of less
/// than an eighth of a turn per second either way, a speed between a
/// hundredth and a twentieth of a radian per second, up to thirty farther
/// out, and a phase within a full turn.
pub open spec fn in_bounds(draws: MoonDraws) -> bool {
    &&& -785_398 <= draws.spin < 785_398
    &&& 10_000 <= draws.speed < 50_000
    &&& draws.extra < 3000
    &&& 0 <= draws.offset < FULL_TURN
}

/// Draws the moon, of `nb_moon`, that the human player starts with.
pub fn pick_start_moon(nb_moon: i32) -> (start: i32)
    requires
        nb_moon > 0,
    ensures
        0 <= start < nb_moon,
{
    draw_between(0, nb_moon)
}

/// Draws what is drawn for a moon.
pub fn draw_moon() -> (draws: MoonDraws)
    ensures
        in_bounds(draws),
{
    let spin = draw_between(-785_398, 785_398);
    let speed = draw_between(10_000, 50_000) as u32;
    let clockwise = happens(500);
    let extra = draw_between(0, 3000) as u32;
    let offset = draw_between(0, FULL_TURN);
    MoonDraws { spin, speed, clockwise, extra, offset }
}

/// The sense in which a moon's ships turn: that of the moon's own spin.
pub fn spin_direction(spin: i32) -> (direction: RotationDirection)
    ensures
        direction == if spin < 0 {
            RotationDirection::Clockwise
        } else {
            RotationDirection::CounterClockwise
        },
{
    if spin < 0 {
        RotationDirection::Clockwise
    } else {
        RotationDirection::CounterClockwise
    }
}

/// The owner that the moon in place `i` starts with: the human player
/// where it is the player's first moon, nobody otherwise.
pub open spec fn first_owner(i: i32, player_start_moon: i32) -> OwnedBy {
    if player_start_moon == i {
        OwnedBy::Player(0)
    } else {
        OwnedBy::Neutral
    }
}

/// The distance, in hundredths, at which the moon in place `i` of `nb_moon`
/// circles the planet: the moons share the range evenly, each a little
/// farther out as drawn for it.
pub open spec fn moon_distance(i: i32, nb_moon: i32, extra: u32) -> int {
    (i + 1) * (MOON_RANGE / nb_moon) + extra
}

/// The moon in place `i` of `nb_moon`, counted from 0, as the match begins.
///
/// It belongs to the human player where `i` is the player's first moon and
/// to nobody otherwise, and produces for its owner; its ships turn the way
/// it spins. It circles the planet, spinning on its own, as drawn for it.
pub fn starting_moon(
    entity: u64,
    planet: u64,
    i: i32,
    nb_moon: i32,
    player_start_moon: i32,
    draws: MoonDraws,
) -> (start: StartingMoon)
    requires
        0 <= i < nb_moon,
    ensures
        start.moon == (MoonEntity {
            entity,
            owner: first_owner(i, player_start_moon),
            moon: Moon { index: (i + 1) as i32, planet },
            spawn: SpawnShipType::of_owner(first_owner(i, player_start_moon)).components(
                if draws.spin < 0 {
                    RotationDirection::Clockwise
                } else {
                    RotationDirection::CounterClockwise
                },
            ),
        }),
        start.orbiter == (Orbiter {
            speed: draws.speed,
            offset: draws.offset,
            direction: if draws.clockwise {
                RotationDirection::Clockwise
            } else {
                RotationDirection::CounterClockwise
            },
            distance: moon_distance(i, nb_moon, draws.extra) as u64,
            around: planet,
            rotation: Rotation::Fixed,
        }),
        start.spin == draws.spin,
{
    let owner = if player_start_moon == i {
        OwnedBy::Player(0)
    } else {
        OwnedBy::Neutral
    };
    let share: i32 = MOON_RANGE / nb_moon;
    assert(0 <= (i + 1) * share <= 30000) by (nonlinear_arith)
        requires
            0 <= i < nb_moon,
            share == 30000int / (nb_moon as int),
    ;
    let distance: u64 = ((i + 1) * share) as u64 + draws.extra as u64;
    let direction = if draws.clockwise {
        RotationDirection::Clockwise
    } else {
        RotationDirection::CounterClockwise
    };
    StartingMoon {
        moon: MoonEntity {
            entity,
            owner,
            moon: Moon { index: i + 1, planet },
            spawn: SpawnShipType::for_owner(owner).to_components(spin_direction(draws.spin)),
        },
        orbiter: Orbiter::every_with_offset(
            draws.speed,
            planet,
            direction,
            distance,
            draws.offset,
        ).self_rotate(),
        spin: draws.spin,
    }
}

} // verus!
