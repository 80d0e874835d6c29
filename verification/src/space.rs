//! Ships, the two ways a ship moves, and what a moon produces.

use crate::chance::draw_between;
use crate::entity::{position, Named};
use crate::owner::OwnedBy;
use crate::timer::Timer;
use vstd::prelude::*;

verus! {

/// The sense in which something turns.
#[derive(Clone, Copy, PartialEq, Eq, Debug, Structural)]
pub enum RotationDirection {
    Clockwise,
    CounterClockwise,
}

impl RotationDirection {
    /// The other sense.
    pub open spec fn flipped(self) -> RotationDirection {
        match self {
            RotationDirection::Clockwise => RotationDirection::CounterClockwise,
            RotationDirection::CounterClockwise => RotationDirection::Clockwise,
        }
    }

    /// The sign by which an orbit's angle advances with time: clockwise
    /// orbits count upwards.
    pub open spec fn sweep(self) -> int {
        match self {
            RotationDirection::Clockwise => 1,
            RotationDirection::CounterClockwise => -1,
        }
    }

    /// The sign of a rotation of the body on itself: -1 clockwise, 1
    /// counter-clockwise.
    pub fn to_factor(&self) -> (factor: i32)
        ensures
            factor == -self.sweep(),
    {
        match self {
            RotationDirection::Clockwise => -1,
            RotationDirection::CounterClockwise => 1,
        }
    }

    /// The sign by which an orbit's angle advances with time.
    pub fn orbit_sign(&self) -> (sign: i32)
        ensures
            sign == self.sweep(),
    {
        match self {
            RotationDirection::Clockwise => 1,
            RotationDirection::CounterClockwise => -1,
        }
    }

    /// The other sense.
    pub fn opposite(&self) -> (other: RotationDirection)
        ensures
            other == self.flipped(),
    {
        match self {
            RotationDirection::Clockwise => RotationDirection::CounterClockwise,
            RotationDirection::CounterClockwise => RotationDirection::Clockwise,
        }
    }
}

/// Turning twice gives the sense one started with, and a sense never equals
/// its opposite.
pub proof fn lemma_opposite_involution(direction: RotationDirection)
    ensures
        direction.flipped().flipped() == direction,
        direction.flipped() != direction,
        direction.flipped().sweep() == -direction.sweep(),
{
}

/// Whether an orbiting body faces the way it travels (`Free`) or spins on
/// its own, whatever its orbit (`Fixed`).
#[derive(Clone, Copy, PartialEq, Eq, Debug, Structural)]
pub enum Rotation {
    Free,
    Fixed,
}

/// A full turn, in millionths of a radian.
pub const FULL_TURN: i32 = 6_283_185;

/// The speed of a ship on its way.
pub const SHIP_SPEED: u32 = 2000;

/// Circling a body. The speed is in millionths of a radian per second, the
/// phase `offset` in millionths of a radian, the distance in hundredths.
#[derive(Clone, Copy, PartialEq, Eq, Debug, Structural)]
pub struct Orbiter {
    pub speed: u32,
    pub offset: i32,
    pub direction: RotationDirection,
    pub distance: u64,
    pub around: u64,
    pub rotation: Rotation,
}

impl Orbiter {
    /// The angle of the orbit after `millis` milliseconds, in millionths of
    /// a radian: the phase, and what the speed has added to it, or taken
    /// from it, in that time.
    pub open spec fn phase(self, millis: int) -> int {
        self.direction.sweep() * (millis * self.speed / 1000) + self.offset
    }

    /// The time that a full turn takes, in milliseconds, rounded down; for
    /// an orbit that moves.
    pub open spec fn period(self) -> int {
        FULL_TURN * 1000 / (self.speed as int)
    }

    /// An orbit around `around` whose body faces the way it travels. Its
    /// phase is drawn within a full turn.
    pub fn every(speed: u32, around: u64, direction: RotationDirection, distance: u64) -> (orbiter:
        Orbiter)
        ensures
            orbiter == (Orbiter {
                speed,
                offset: orbiter.offset,
                direction,
                distance,
                around,
                rotation: Rotation::Free,
            }),
            0 <= orbiter.offset < FULL_TURN,
    {
        let offset = draw_between(0, FULL_TURN);
        Orbiter { speed, offset, direction, distance, around, rotation: Rotation::Free }
    }

    /// An orbit around `around`, of the given phase, whose body faces the
    /// way it travels.
    pub fn every_with_offset(
        speed: u32,
        around: u64,
        direction: RotationDirection,
        distance: u64,
        offset: i32,
    ) -> (orbiter: Orbiter)
        ensures
            orbiter == (Orbiter {
                speed,
                offset,
                direction,
                distance,
                around,
                rotation: Rotation::Free,
            }),
    {
        Orbiter { speed, offset, direction, distance, around, rotation: Rotation::Free }
    }

    /// The same orbit, with the body spinning on its own.
    pub fn self_rotate(self) -> (orbiter: Orbiter)
        ensures
            orbiter == (Orbiter { rotation: Rotation::Fixed, ..self }),
    {
        Orbiter {
            speed: self.speed,
            offset: self.offset,
            direction: self.direction,
            distance: self.distance,
            around: self.around,
            rotation: Rotation::Fixed,
        }
    }

    /// Whether the driver turns the body to face its travel. For a
    /// counter-clockwise orbit the facing is half a turn further.
    pub fn faces_travel(&self) -> (free: bool)
        ensures
            free == (self.rotation == Rotation::Free),
    {
        match self.rotation {
            Rotation::Free => true,
            Rotation::Fixed => false,
        }
    }

    /// The angle of the orbit after `millis` milliseconds, within a full
    /// turn, in millionths of a radian.
    pub fn angle(&self, millis: u64) -> (angle: i32)
        ensures
            angle == self.phase(millis as int) % (FULL_TURN as int),
            0 <= angle < FULL_TURN,
    {
        assert(0 <= millis * self.speed <= 0xffff_ffff_ffff_ffff * 0xffff_ffff) by (nonlinear_arith)
            requires
                0 <= millis <= 0xffff_ffff_ffff_ffff,
                0 <= self.speed <= 0xffff_ffff,
        ;
        let swept: u128 = millis as u128 * self.speed as u128 / 1000;
        let turned: i32 = (swept % FULL_TURN as u128) as i32;
        let start: i64 = self.offset as i64 % FULL_TURN as i64;
        let start: i64 = if start < 0 {
            start + FULL_TURN as i64
        } else {
            start
        };
        let sum: i64 = match self.direction {
            RotationDirection::Clockwise => start + turned as i64,
            RotationDirection::CounterClockwise => start - turned as i64,
        };
        let angle: i64 = if sum < 0 {
            sum + FULL_TURN as i64
        } else if sum >= FULL_TURN as i64 {
            sum - FULL_TURN as i64
        } else {
            sum
        };
        angle as i32
    }
}

/// Over the time of a full turn an orbit comes round: its angle has moved
/// on by a full turn, to within what the speed adds in a millisecond and a
/// millionth of a radian for the rounding.
pub proof fn lemma_orbit_closes(orbiter: Orbiter, millis: nat)
    requires
        orbiter.speed > 0,
    ensures
        ({
            let turned = orbiter.direction.sweep() * (orbiter.phase(millis + orbiter.period())
                - orbiter.phase(millis as int));
            FULL_TURN - orbiter.speed / 1000 - 1 <= turned <= FULL_TURN + 1
        }),
{
    let s = orbiter.speed as int;
    let full = FULL_TURN as int;
    let period = orbiter.period();
    assert(period * s <= full * 1000 < period * s + s) by (nonlinear_arith)
        requires
            s > 0,
            period == full * 1000 / s,
    ;
    let before = millis * s;
    let after = (millis + period) * s;
    assert(after == before + period * s) by (nonlinear_arith)
        requires
            after == (millis + period) * s,
            before == millis * s,
    ;
    let sweep = orbiter.direction.sweep();
    assert(sweep * (sweep * (after / 1000) + orbiter.offset - (sweep * (before / 1000)
        + orbiter.offset)) == after / 1000 - before / 1000) by (nonlinear_arith)
        requires
            sweep == 1 || sweep == -1,
    ;
}

/// Heading straight for a body, at the given speed.
#[derive(Clone, Copy, PartialEq, Eq, Debug, Structural)]
pub struct MoveTowards {
    pub speed: u32,
    pub towards: u64,
    pub from: u64,
}

/// How a ship moves: it orbits, or it is on its way. Never both.
#[derive(Clone, Copy, PartialEq, Eq, Debug, Structural)]
pub enum Motion {
    Orbit(Orbiter),
    Transit(MoveTowards),
}

impl Motion {
    /// Whether this is an orbit around `body`.
    pub open spec fn orbits(self, body: u64) -> bool {
        self matches Motion::Orbit(orbiter) && orbiter.around == body
    }

    /// Whether this is an orbit around `body`.
    pub fn is_orbiting(&self, body: u64) -> (b: bool)
        ensures
            b == self.orbits(body),
    {
        match self {
            Motion::Orbit(orbiter) => orbiter.around == body,
            Motion::Transit(_) => false,
        }
    }
}

/// What makes a ship a ship: how much damage it can still take.
#[derive(Clone, Copy, PartialEq, Eq, Debug, Structural)]
pub struct Ship {
    pub hit_points: i32,
}

/// What a hit of `amount` takes away: nothing, where the amount is not
/// positive.
pub open spec fn absorbed(amount: i32) -> int {
    if amount > 0 {
        amount as int
    } else {
        0
    }
}

impl Ship {
    /// The hit points left after a hit of `amount`, before they are fitted
    /// into an `i32`.
    pub open spec fn after_hit(self, amount: i32) -> int {
        self.hit_points - absorbed(amount)
    }

    /// Whether a hit of `amount` destroys the ship.
    pub open spec fn destroyed_by(self, amount: i32) -> bool {
        self.after_hit(amount) <= 0
    }

    /// The ship after a hit of `amount`. The hit points stop at `i32::MIN`.
    pub open spec fn hit_by(self, amount: i32) -> Ship {
        Ship {
            hit_points: if self.after_hit(amount) < i32::MIN {
                i32::MIN
            } else {
                self.after_hit(amount) as i32
            },
        }
    }

    /// Takes a hit of `amount` and says whether the ship is destroyed by it.
    /// Hit points never go up: an amount that is not positive takes nothing.
    pub fn damage(&mut self, amount: i32) -> (destroyed: bool)
        ensures
            *final(self) == old(self).hit_by(amount),
            destroyed == old(self).destroyed_by(amount),
            final(self).hit_points <= old(self).hit_points,
            amount <= 0 ==> final(self).hit_points == old(self).hit_points,
            amount <= 0 && old(self).hit_points > 0 ==> !destroyed,
    {
        let taken: i64 = if amount > 0 {
            amount as i64
        } else {
            0
        };
        let left: i64 = self.hit_points as i64 - taken;
        self.hit_points = if left < i32::MIN as i64 {
            i32::MIN
        } else {
            left as i32
        };
        left <= 0
    }
}

/// A ship in play.
#[derive(Clone, Copy, PartialEq, Eq, Debug, Structural)]
pub struct ShipEntity {
    pub entity: u64,
    pub owner: OwnedBy,
    pub ship: Ship,
    pub motion: Motion,
}

/// The two production profiles of a moon.
#[derive(Clone, Copy, PartialEq, Eq, Debug, Structural)]
pub enum SpawnShipType {
    Neutral,
    Basic,
}

/// What a producing body turns out, and how often. The scale is in
/// hundredths.
#[derive(Clone, Copy, PartialEq, Eq, Debug, Structural)]
pub struct SpawnShip {
    pub every: Timer,
    pub scale: u32,
    pub rotation_direction: RotationDirection,
    pub hit_points: i32,
}

/// The period of the basic profile, in milliseconds.
pub const BASE_DELAY: u32 = 5000;

/// The hit points of a ship that a moon turns out.
pub const BASE_HIT_POINTS: i32 = 2;

/// Distance at which ships orbit a body of scale 1.
pub const SHIP_ORBITING_DISTANCE: u32 = 50;

impl SpawnShipType {
    /// The period of this profile: neutral moons take a fifth longer.
    pub open spec fn period(self) -> u32 {
        match self {
            SpawnShipType::Neutral => 6000,
            SpawnShipType::Basic => 5000,
        }
    }

    /// The profile that a moon of this owner runs: basic for the human
    /// player, neutral for everyone else.
    pub open spec fn of_owner(owner: OwnedBy) -> SpawnShipType {
        if owner == OwnedBy::human() {
            SpawnShipType::Basic
        } else {
            SpawnShipType::Neutral
        }
    }

    /// A fresh production of this profile, turning as given.
    pub open spec fn components(self, rotation_direction: RotationDirection) -> SpawnShip {
        SpawnShip {
            every: Timer { duration: self.period(), elapsed: 0, repeating: true, finished: false },
            scale: 100,
            rotation_direction,
            hit_points: BASE_HIT_POINTS,
        }
    }

    /// The profile that a moon of this owner runs.
    pub fn for_owner(owner: OwnedBy) -> (kind: SpawnShipType)
        ensures
            kind == SpawnShipType::of_owner(owner),
    {
        if owner.is_human() {
            SpawnShipType::Basic
        } else {
            SpawnShipType::Neutral
        }
    }

    /// A fresh production of this profile, turning as given.
    pub fn to_components(&self, rotation_direction: RotationDirection) -> (spawn: SpawnShip)
        ensures
            spawn == self.components(rotation_direction),
    {
        let period: u32 = match self {
            SpawnShipType::Neutral => BASE_DELAY / 5 * 6,
            SpawnShipType::Basic => BASE_DELAY,
        };
        SpawnShip {
            every: Timer::from_millis(period, true),
            scale: 100,
            rotation_direction,
            hit_points: BASE_HIT_POINTS,
        }
    }
}

impl SpawnShip {
    /// A production of one-hit ships every `duration` milliseconds.
    pub fn every(duration: u32, rotation_direction: RotationDirection) -> (spawn: SpawnShip)
        ensures
            spawn == (SpawnShip {
                every: Timer { duration, elapsed: 0, repeating: true, finished: false },
                scale: 100,
                rotation_direction,
                hit_points: 1,
            }),
    {
        SpawnShip {
            every: Timer::from_millis(duration, true),
            scale: 100,
            rotation_direction,
            hit_points: 1,
        }
    }

    /// The same production at another scale, in hundredths.
    pub fn with_scale(self, scale: u32) -> (spawn: SpawnShip)
        ensures
            spawn == (SpawnShip { scale, ..self }),
    {
        SpawnShip {
            every: self.every,
            scale,
            rotation_direction: self.rotation_direction,
            hit_points: self.hit_points,
        }
    }

    /// The same production, three quarters of the way to its next ship.
    pub fn with_headstart(self) -> (spawn: SpawnShip)
        ensures
            spawn == (SpawnShip {
                every: Timer { elapsed: (3 * self.every.duration / 4) as i64, ..self.every },
                ..self
            }),
            spawn.every.elapsed <= self.every.duration,
    {
        let elapsed: i64 = 3 * (self.every.duration as i64) / 4;
        SpawnShip {
            every: Timer {
                duration: self.every.duration,
                elapsed,
                repeating: self.every.repeating,
                finished: self.every.finished,
            },
            scale: self.scale,
            rotation_direction: self.rotation_direction,
            hit_points: self.hit_points,
        }
    }

    /// The distance, in hundredths, at which this body's ships orbit it and
    /// within which an arriving ship falls into orbit.
    pub open spec fn orbit_distance(self) -> int {
        self.scale * SHIP_ORBITING_DISTANCE
    }

    /// The distance, in hundredths, at which this body's ships orbit it.
    pub fn orbiting_distance(&self) -> (distance: u64)
        ensures
            distance == self.orbit_distance(),
    {
        assert(self.scale * SHIP_ORBITING_DISTANCE <= u64::MAX) by (nonlinear_arith)
            requires
                self.scale <= u32::MAX,
                SHIP_ORBITING_DISTANCE == 50,
        ;
        self.scale as u64 * SHIP_ORBITING_DISTANCE as u64
    }
}

impl Named for ShipEntity {
    open spec fn name(&self) -> u64 {
        self.entity
    }

    fn entity(&self) -> u64 {
        self.entity
    }
}

/// The ship named `entity`, if it is among `ships`: the first, should
/// several have the name.
pub open spec fn ship_of(ships: Seq<ShipEntity>, entity: u64) -> Option<ShipEntity> {
    match position(ships, entity) {
        Some(i) => Some(ships[i]),
        None => None,
    }
}

} // verus!
