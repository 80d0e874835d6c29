//! Sending ships from one body to another, and their arrival.

use crate::chance::draw_between;
use crate::entity::find;
use crate::game::{moon_of, Game, MoonEntity};
use crate::owner::OwnedBy;
use crate::space::{
    Motion, MoveTowards, Orbiter, Rotation, RotationDirection, ShipEntity, SHIP_SPEED,
};
use vstd::prelude::*;

verus! {

/// Whether an order given at `selected` can send this ship: it is the human
/// player's and in orbit there.
pub open spec fn eligible(ship: ShipEntity, selected: u64) -> bool {
    ship.motion.orbits(selected) && ship.owner == OwnedBy::human()
}

/// The number of ships that an order could send among the first `k`.
pub open spec fn rank(ships: Seq<ShipEntity>, selected: u64, k: int) -> nat {
    ships.take(k).filter(|ship: ShipEntity| eligible(ship, selected)).len()
}

/// The ship on its way from `selected` to `targeted`.
pub open spec fn sent(ship: ShipEntity, selected: u64, targeted: u64) -> ShipEntity {
    ShipEntity {
        motion: Motion::Transit(
            MoveTowards { speed: SHIP_SPEED, towards: targeted, from: selected },
        ),
        ..ship
    }
}

/// The ships after an order for `quota` of them: the first `quota` that the
/// order can send are on their way, all others are as they were.
pub open spec fn dispatched(
    ships: Seq<ShipEntity>,
    selected: u64,
    targeted: u64,
    quota: nat,
) -> Seq<ShipEntity> {
    Seq::new(
        ships.len(),
        |k: int|
            if eligible(ships[k], selected) && rank(ships, selected, k) < quota {
                sent(ships[k], selected, targeted)
            } else {
                ships[k]
            },
    )
}

/// How many ships an order given at `selected` sends at most: the current
/// share of the human player's ships last counted there.
pub open spec fn quota(game: Game, selected: u64) -> nat {
    game.ratio.share(game.present(selected).count(OwnedBy::human()) as int) as nat
}

proof fn lemma_rank_step(ships: Seq<ShipEntity>, selected: u64, k: int)
    requires
        0 <= k < ships.len(),
    ensures
        rank(ships, selected, k + 1) == rank(ships, selected, k) + if eligible(
            ships[k],
            selected,
        ) {
            1nat
        } else {
            0nat
        },
{
    reveal(Seq::filter);
    assert(ships.take(k + 1).drop_last() == ships.take(k));
}

/// Carries out the order to send ships from the selected body to the
/// targeted one. It counts only where both are set and the selected body is
/// the human player's (`owner` is its owner). Then the current share of the
/// player's ships last counted there leaves, the first in the list first.
pub fn orders(game: &Game, owner: OwnedBy, ships: &mut Vec<ShipEntity>)
    ensures
        final(ships)@ == match (game.selected, game.targeted) {
            (Some(selected), Some(targeted)) => if owner == OwnedBy::human() {
                dispatched(old(ships)@, selected, targeted, quota(*game, selected))
            } else {
                old(ships)@
            },
            _ => old(ships)@,
        },
{
    let (selected, targeted) = match (game.selected, game.targeted) {
        (Some(selected), Some(targeted)) => (selected, targeted),
        _ => {
            return ;
        },
    };
    if !owner.is_human() {
        return ;
    }
    let ship_count = match game.counts(selected) {
        Some(counts) => counts.get(OwnedBy::Player(0)),
        None => 0,
    };
    let limit = game.ratio.of(ship_count);
    let ghost goal = dispatched(old(ships)@, selected, targeted, limit as nat);
    let mut seen: usize = 0;
    let mut i: usize = 0;
    while i < ships.len()
        invariant
            i <= ships.len(),
            ships.len() == old(ships).len(),
            seen == rank(old(ships)@, selected, i as int),
            seen <= i,
            goal == dispatched(old(ships)@, selected, targeted, limit as nat),
            forall|k: int| 0 <= k < i ==> ships@[k] == goal[k],
            forall|k: int| i <= k < ships.len() ==> ships@[k] == old(ships)@[k],
        decreases ships.len() - i,
    {
        proof {
            lemma_rank_step(old(ships)@, selected, i as int);
        }
        let ship = ships[i];
        if ship.motion.is_orbiting(selected) && ship.owner.is_human() {
            if seen < limit {
                ships.set(
                    i,
                    ShipEntity {
                        entity: ship.entity,
                        owner: ship.owner,
                        ship: ship.ship,
                        motion: Motion::Transit(
                            MoveTowards { speed: SHIP_SPEED, towards: targeted, from: selected },
                        ),
                    },
                );
            }
            seen += 1;
        }
        i += 1;
    }
}

/// The way a ship of `owner` turns around `target` once it has arrived:
/// with the moon's own ships where the moon is its owner's, against them
/// where it is not.
pub open spec fn arrival_direction(owner: OwnedBy, target: MoonEntity) -> RotationDirection {
    if owner == target.owner {
        target.spawn.rotation_direction
    } else {
        target.spawn.rotation_direction.flipped()
    }
}

/// The slowest that a ship can come to turn around the body where it
/// arrives, in millionths of a radian per second.
pub const ARRIVAL_SPEED_MIN: i32 = 800_000;

/// The speed that a ship arriving at a body stays below, in millionths of a
/// radian per second.
pub const ARRIVAL_SPEED_MAX: i32 = 1_200_000;

/// The ship after one step of the driver, when it is `distance` hundredths
/// from the body it heads for and heads there at the angle `heading`.
///
/// A ship on its way to a producing body of `moons`, and nearer to it than
/// that body's orbiting distance, falls into orbit around it, at that
/// distance and at the speed `speed`; the phase of the orbit is the ship's
/// heading. Any other ship goes on as it did.
pub open spec fn moved(
    ship: ShipEntity,
    moons: Seq<MoonEntity>,
    distance: u64,
    heading: i32,
    speed: u32,
) -> ShipEntity {
    match ship.motion {
        Motion::Transit(transit) => match moon_of(moons, transit.towards) {
            Some(target) => if distance < target.spawn.orbit_distance() {
                ShipEntity {
                    motion: Motion::Orbit(
                        Orbiter {
                            speed,
                            offset: heading,
                            direction: arrival_direction(ship.owner, target),
                            distance: target.spawn.orbit_distance() as u64,
                            around: transit.towards,
                            rotation: Rotation::Free,
                        },
                    ),
                    ..ship
                }
            } else {
                ship
            },
            None => ship,
        },
        Motion::Orbit(_) => ship,
    }
}

/// Takes the ship one step on, given the speed at which it is to turn
/// should it arrive. Says whether the ship has arrived by this step.
pub fn arrive(
    ship: &mut ShipEntity,
    moons: &Vec<MoonEntity>,
    distance: u64,
    heading: i32,
    speed: u32,
) -> (arrived: bool)
    ensures
        *final(ship) == moved(*old(ship), moons@, distance, heading, speed),
        arrived == (old(ship).motion is Transit && final(ship).motion is Orbit),
{
    match ship.motion {
        Motion::Transit(transit) => {
            match find(moons, transit.towards) {
                Some(at) => {
                    let target = moons[at];
                    let reach = target.spawn.orbiting_distance();
                    if distance >= reach {
                        return false;
                    }
                    let direction = if ship.owner == target.owner {
                        target.spawn.rotation_direction
                    } else {
                        target.spawn.rotation_direction.opposite()
                    };
                    ship.motion = Motion::Orbit(
                        Orbiter::every_with_offset(
                            speed,
                            transit.towards,
                            direction,
                            reach,
                            heading,
                        ),
                    );
                    true
                },
                None => false,
            }
        },
        Motion::Orbit(_) => false,
    }
}

/// Whether a ship at `distance` hundredths from the body it heads for
/// arrives there by the next step.
pub open spec fn arrives(ship: ShipEntity, moons: Seq<MoonEntity>, distance: u64) -> bool {
    ship.motion matches Motion::Transit(transit) && moon_of(moons, transit.towards) matches Some(
        target,
    ) && distance < target.spawn.orbit_distance()
}

/// Takes the ship one step on, when it is `distance` hundredths from the
/// body it heads for and heads there at the angle `heading`. A ship that
/// arrives turns at a speed drawn for it. Says whether the ship has
/// arrived by this step.
pub fn move_towards(
    ship: &mut ShipEntity,
    moons: &Vec<MoonEntity>,
    distance: u64,
    heading: i32,
) -> (arrived: bool)
    ensures
        arrived == arrives(*old(ship), moons@, distance),
        !arrived ==> *final(ship) == *old(ship),
        arrived ==> exists|speed: u32|
            ARRIVAL_SPEED_MIN <= speed < ARRIVAL_SPEED_MAX && *final(ship) == #[trigger] moved(
                *old(ship),
                moons@,
                distance,
                heading,
                speed,
            ),
{
    let near = match ship.motion {
        Motion::Transit(transit) => match find(moons, transit.towards) {
            Some(at) => distance < moons[at].spawn.orbiting_distance(),
            None => false,
        },
        Motion::Orbit(_) => false,
    };
    if !near {
        return false;
    }
    let speed = draw_between(ARRIVAL_SPEED_MIN, ARRIVAL_SPEED_MAX) as u32;
    arrive(ship, moons, distance, heading, speed)
}

/// A ship on its way that comes nearer to the producing body it heads for
/// than that body's orbiting distance is, after the step, in orbit around
/// that body and on its way no longer. It is still the same ship, and it
/// sets out on its orbit from where it is: at the body's orbiting distance
/// and at the angle of its heading.
pub proof fn lemma_hand_off(
    ship: ShipEntity,
    moons: Seq<MoonEntity>,
    distance: u64,
    heading: i32,
    speed: u32,
)
    requires
        arrives(ship, moons, distance),
    ensures
        ({
            let after = moved(ship, moons, distance, heading, speed);
            &&& after.motion.orbits(ship.motion->Transit_0.towards)
            &&& !(after.motion is Transit)
            &&& after.motion->Orbit_0.offset == heading
            &&& after.motion->Orbit_0.distance == moon_of(
                moons,
                ship.motion->Transit_0.towards,
            )->0.spawn.orbit_distance()
            &&& after.entity == ship.entity
            &&& after.owner == ship.owner
            &&& after.ship == ship.ship
        }),
{
    assert(moon_of(moons, ship.motion->Transit_0.towards)->0.spawn.scale * 50 <= u64::MAX)
        by (nonlinear_arith)
        requires
            moon_of(moons, ship.motion->Transit_0.towards)->0.spawn.scale <= u32::MAX,
    ;
}

/// A ship that does not arrive is left alone by the step: one in orbit, one
/// that heads for something that produces nothing, and one that is still
/// too far.
pub proof fn lemma_no_hand_off(
    ship: ShipEntity,
    moons: Seq<MoonEntity>,
    distance: u64,
    heading: i32,
    speed: u32,
)
    requires
        !arrives(ship, moons, distance),
    ensures
        moved(ship, moons, distance, heading, speed) == ship,
{
}

/// The ships that an order could send, among all of `ships`, are the human
/// player's ships counted around the selected body.
pub proof fn lemma_rank_is_count(ships: Seq<ShipEntity>, selected: u64)
    ensures
        rank(ships, selected, ships.len() as int) == crate::game::orbiting_owners(
            ships,
            selected,
        ).count(OwnedBy::human()),
    decreases ships.len(),
{
    broadcast use vstd::multiset::group_multiset_axioms;

    reveal(Seq::filter);
    assert(ships.take(ships.len() as int) == ships);
    if ships.len() > 0 {
        let rest = ships.drop_last();
        lemma_rank_is_count(rest, selected);
        assert(rest.take(rest.len() as int) == rest);
    }
}

/// An order changes nothing but the way ships move. It sends `quota` of
/// the ships that it could send, or all of them where there are fewer; the
/// others stay in orbit.
pub proof fn lemma_dispatch(ships: Seq<ShipEntity>, selected: u64, targeted: u64, quota: nat)
    ensures
        dispatched(ships, selected, targeted, quota).len() == ships.len(),
        forall|k: int|
            0 <= k < ships.len() ==> {
                let after = #[trigger] dispatched(ships, selected, targeted, quota)[k];
                &&& after.entity == ships[k].entity
                &&& after.owner == ships[k].owner
                &&& after.ship == ships[k].ship
                &&& after == ships[k] || (eligible(ships[k], selected) && after.motion
                    == Motion::Transit(
                    MoveTowards { speed: SHIP_SPEED, towards: targeted, from: selected },
                ))
            },
        rank(
            dispatched(ships, selected, targeted, quota),
            selected,
            ships.len() as int,
        ) == if rank(ships, selected, ships.len() as int) > quota {
            rank(ships, selected, ships.len() as int) - quota
        } else {
            0
        },
{
    lemma_dispatch_prefix(ships, selected, targeted, quota, ships.len() as int);
}

proof fn lemma_dispatch_prefix(
    ships: Seq<ShipEntity>,
    selected: u64,
    targeted: u64,
    quota: nat,
    k: int,
)
    requires
        0 <= k <= ships.len(),
    ensures
        rank(dispatched(ships, selected, targeted, quota), selected, k) == if rank(
            ships,
            selected,
            k,
        ) > quota {
            rank(ships, selected, k) - quota
        } else {
            0
        },
    decreases k,
{
    let after = dispatched(ships, selected, targeted, quota);
    if k == 0 {
        reveal(Seq::filter);
    } else {
        lemma_dispatch_prefix(ships, selected, targeted, quota, k - 1);
        lemma_rank_step(ships, selected, k - 1);
        lemma_rank_step(after, selected, k - 1);
    }
}

} // verus!
