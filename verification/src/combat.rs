//! What contacts between ships, and between ships and hazards or planets,
//! lead to.

use crate::game::{GameEvents, MoonEntity};
use crate::owner::OwnedBy;
use crate::entity::{find, is_among};
use crate::space::{ship_of, Ship, ShipEntity};
use std::collections::HashSet;
use vstd::prelude::*;
use vstd::std_specs::hash::*;

verus! {

/// Two bodies begin or cease to touch.
#[derive(Clone, Copy, PartialEq, Eq, Debug, Structural)]
pub enum ContactEvent {
    Started(u64, u64),
    Stopped(u64, u64),
}

/// How near two bodies are.
#[derive(Clone, Copy, PartialEq, Eq, Debug, Structural)]
pub enum Proximity {
    Intersecting,
    WithinMargin,
    Disjoint,
}

/// Two bodies, one of them a sensor, come nearer or part.
#[derive(Clone, Copy, PartialEq, Eq, Debug, Structural)]
pub struct ProximityEvent {
    pub collider1: u64,
    pub collider2: u64,
    pub new_status: Proximity,
}

/// The damage of an asteroid, or of a planet's shield: more than any ship
/// can take.
pub const OVERKILL: i32 = 500;

/// The damage that a ship deals on contact: one point, or less where it has
/// less than one point left itself.
pub open spec fn blow(ship: Ship) -> i32 {
    if ship.hit_points < 1 {
        ship.hit_points
    } else {
        1
    }
}

/// The events of one contact between `a` and `b`: where both are ships of
/// different owners, each takes the other's blow.
pub open spec fn clash(ships: Seq<ShipEntity>, a: u64, b: u64) -> Seq<GameEvents> {
    match (ship_of(ships, a), ship_of(ships, b)) {
        (Some(first), Some(second)) => if first.owner != second.owner {
            seq![
                GameEvents::ShipDamaged(a, blow(second.ship)),
                GameEvents::ShipDamaged(b, blow(first.ship)),
            ]
        } else {
            Seq::empty()
        },
        _ => Seq::empty(),
    }
}

/// The events of a batch of contacts, taken in order, when the ships in
/// `settled` have had their exchange already. A ship has one exchange in a
/// batch: its later contacts are passed over.
pub open spec fn contact_events(
    contacts: Seq<ContactEvent>,
    ships: Seq<ShipEntity>,
    settled: Set<u64>,
) -> Seq<GameEvents>
    decreases contacts.len(),
{
    if contacts.len() == 0 {
        Seq::empty()
    } else {
        let rest = contacts.drop_first();
        match contacts.first() {
            ContactEvent::Started(a, b) => {
                if settled.contains(a) || settled.contains(b) || clash(ships, a, b).len() == 0 {
                    contact_events(rest, ships, settled)
                } else {
                    clash(ships, a, b) + contact_events(rest, ships, settled.insert(a).insert(b))
                }
            },
            ContactEvent::Stopped(_, _) => contact_events(rest, ships, settled),
        }
    }
}

fn blow_of(ship: &Ship) -> (amount: i32)
    ensures
        amount == blow(*ship),
{
    if ship.hit_points < 1 {
        ship.hit_points
    } else {
        1
    }
}

/// Resolves a batch of contacts. Two ships of different owners that begin to
/// touch damage each other at once, each by the other's blow; neither takes
/// part in a later contact of the batch. Contacts with anything that is not
/// a ship, and between ships of one owner, lead to nothing.
pub fn ship_collision(contacts: &Vec<ContactEvent>, ships: &Vec<ShipEntity>) -> (events: Vec<
    GameEvents,
>)
    ensures
        events@ == contact_events(contacts@, ships@, Set::empty()),
{
    broadcast use group_hash_axioms;

    let mut removed: HashSet<u64> = HashSet::new();
    let mut events: Vec<GameEvents> = Vec::new();
    let mut i: usize = 0;
    proof {
        assert(contacts@.skip(0) == contacts@);
    }
    while i < contacts.len()
        invariant
            i <= contacts.len(),
            events@ + contact_events(contacts@.skip(i as int), ships@, removed@) == contact_events(
                contacts@,
                ships@,
                Set::empty(),
            ),
        decreases contacts.len() - i,
    {
        proof {
            assert(contacts@.skip(i as int).drop_first() == contacts@.skip(i + 1));
        }
        match contacts[i] {
            ContactEvent::Started(a, b) => {
                if !removed.contains(&a) && !removed.contains(&b) {
                    match (find(ships, a), find(ships, b)) {
                        (Some(first), Some(second)) => {
                            if ships[first].owner != ships[second].owner {
                                events.push(GameEvents::ShipDamaged(a, blow_of(&ships[second].ship)));
                                removed.insert(a);
                                events.push(GameEvents::ShipDamaged(b, blow_of(&ships[first].ship)));
                                removed.insert(b);
                            }
                        },
                        _ => {},
                    }
                }
            },
            ContactEvent::Stopped(_, _) => {},
        }
        i += 1;
    }
    events
}

/// The ship that an event damages, if it damages one.
pub open spec fn victim(event: GameEvents) -> Option<u64> {
    match event {
        GameEvents::ShipDamaged(entity, _) => Some(entity),
        _ => None,
    }
}

/// In a batch of contacts every event is a hit of one point at most, on a
/// ship that was not settled before, and no ship is hit twice.
pub proof fn lemma_one_exchange_each(
    contacts: Seq<ContactEvent>,
    ships: Seq<ShipEntity>,
    settled: Set<u64>,
)
    ensures
        forall|k: int|
            0 <= k < contact_events(contacts, ships, settled).len() ==> match (
            #[trigger] contact_events(contacts, ships, settled)[k]) {
                GameEvents::ShipDamaged(entity, amount) => amount <= 1 && !settled.contains(entity)
                    && ship_of(ships, entity) is Some,
                _ => false,
            },
        forall|k: int, l: int|
            0 <= k < l < contact_events(contacts, ships, settled).len() ==> victim(
                #[trigger] contact_events(contacts, ships, settled)[k],
            ) != victim(#[trigger] contact_events(contacts, ships, settled)[l]),
    decreases contacts.len(),
{
    if contacts.len() > 0 {
        let rest = contacts.drop_first();
        match contacts.first() {
            ContactEvent::Started(a, b) => {
                if settled.contains(a) || settled.contains(b) || clash(ships, a, b).len() == 0 {
                    lemma_one_exchange_each(rest, ships, settled);
                } else {
                    let next = settled.insert(a).insert(b);
                    lemma_one_exchange_each(rest, ships, next);
                }
            },
            ContactEvent::Stopped(_, _) => {
                lemma_one_exchange_each(rest, ships, settled);
            },
        }
    }
}

/// Whether the human player holds every one of `moons`.
pub open spec fn all_human(moons: Seq<MoonEntity>) -> bool {
    forall|i: int| 0 <= i < moons.len() ==> (#[trigger] moons[i]).owner == OwnedBy::human()
}

/// Whether the human player holds every one of `moons`.
pub fn holds_all_moons(moons: &Vec<MoonEntity>) -> (all: bool)
    ensures
        all == all_human(moons@),
{
    let mut i: usize = 0;
    while i < moons.len()
        invariant
            i <= moons.len(),
            forall|j: int| 0 <= j < i ==> (#[trigger] moons@[j]).owner == OwnedBy::human(),
        decreases moons.len() - i,
    {
        if !moons[i].owner.is_human() {
            return false;
        }
        i += 1;
    }
    true
}

/// The hit that an asteroid deals in an encounter: it strikes the other
/// body, with more than a ship can take.
pub open spec fn asteroid_hit(event: ProximityEvent, asteroids: Seq<u64>) -> Seq<GameEvents> {
    if asteroids.contains(event.collider1) {
        seq![GameEvents::ShipDamaged(event.collider2, OVERKILL)]
    } else if asteroids.contains(event.collider2) {
        seq![GameEvents::ShipDamaged(event.collider1, OVERKILL)]
    } else {
        Seq::empty()
    }
}

/// The asteroids that an encounter uses up: each asteroid that takes part
/// in it, the first body first.
pub open spec fn asteroids_spent(event: ProximityEvent, asteroids: Seq<u64>) -> Seq<GameEvents> {
    let first: Seq<GameEvents> = if asteroids.contains(event.collider1) {
        seq![GameEvents::AsteroidSpent(event.collider1)]
    } else {
        Seq::empty()
    };
    let second: Seq<GameEvents> = if asteroids.contains(event.collider2) && event.collider2
        != event.collider1 {
        seq![GameEvents::AsteroidSpent(event.collider2)]
    } else {
        Seq::empty()
    };
    first + second
}

/// What an asteroid does in an encounter: it strikes the other body and is
/// spent by the impact, whatever it has hit.
pub open spec fn asteroid_strike(event: ProximityEvent, asteroids: Seq<u64>) -> Seq<GameEvents> {
    asteroid_hit(event, asteroids) + asteroids_spent(event, asteroids)
}

/// What a planet does in an encounter. Only a ship of the human player
/// concerns it: while a moon is not the player's, the planet's shield
/// destroys the ship; once all are, the planet falls.
pub open spec fn planet_approach(
    event: ProximityEvent,
    ships: Seq<ShipEntity>,
    moons: Seq<MoonEntity>,
    planets: Seq<u64>,
) -> Seq<GameEvents> {
    let pair = if planets.contains(event.collider1) {
        Some((event.collider2, event.collider1))
    } else if planets.contains(event.collider2) {
        Some((event.collider1, event.collider2))
    } else {
        None
    };
    match pair {
        Some((ship, planet)) => match ship_of(ships, ship) {
            Some(found) => if found.owner != OwnedBy::human() {
                Seq::empty()
            } else if all_human(moons) {
                seq![GameEvents::PlanetConquered(planet)]
            } else {
                seq![GameEvents::ShipDamaged(ship, OVERKILL), GameEvents::PlanetShield(planet)]
            },
            None => Seq::empty(),
        },
        None => Seq::empty(),
    }
}

/// The events of one encounter: nothing unless the two intersect, else what
/// the asteroid does, then what the planet does.
pub open spec fn encounter(
    event: ProximityEvent,
    ships: Seq<ShipEntity>,
    moons: Seq<MoonEntity>,
    planets: Seq<u64>,
    asteroids: Seq<u64>,
) -> Seq<GameEvents> {
    if event.new_status == Proximity::Intersecting {
        asteroid_strike(event, asteroids) + planet_approach(event, ships, moons, planets)
    } else {
        Seq::empty()
    }
}

/// The events of a batch of encounters, in order.
pub open spec fn encounters(
    events: Seq<ProximityEvent>,
    ships: Seq<ShipEntity>,
    moons: Seq<MoonEntity>,
    planets: Seq<u64>,
    asteroids: Seq<u64>,
) -> Seq<GameEvents>
    decreases events.len(),
{
    if events.len() == 0 {
        Seq::empty()
    } else {
        encounters(events.drop_last(), ships, moons, planets, asteroids) + encounter(
            events.last(),
            ships,
            moons,
            planets,
            asteroids,
        )
    }
}

fn push_strike(events: &mut Vec<GameEvents>, event: ProximityEvent, asteroids: &Vec<u64>)
    ensures
        final(events)@ == old(events)@ + asteroid_strike(event, asteroids@),
{
    let first = is_among(asteroids, event.collider1);
    let second = is_among(asteroids, event.collider2);
    if first {
        events.push(GameEvents::ShipDamaged(event.collider2, OVERKILL));
    } else if second {
        events.push(GameEvents::ShipDamaged(event.collider1, OVERKILL));
    }
    if first {
        events.push(GameEvents::AsteroidSpent(event.collider1));
    }
    if second && event.collider2 != event.collider1 {
        events.push(GameEvents::AsteroidSpent(event.collider2));
    }
}

fn push_approach(
    events: &mut Vec<GameEvents>,
    event: ProximityEvent,
    ships: &Vec<ShipEntity>,
    moons: &Vec<MoonEntity>,
    planets: &Vec<u64>,
    conquered: bool,
)
    requires
        conquered == all_human(moons@),
    ensures
        final(events)@ == old(events)@ + planet_approach(event, ships@, moons@, planets@),
{
    let pair = if is_among(planets, event.collider1) {
        Some((event.collider2, event.collider1))
    } else if is_among(planets, event.collider2) {
        Some((event.collider1, event.collider2))
    } else {
        None
    };
    match pair {
        Some((ship, planet)) => match find(ships, ship) {
            Some(at) => {
                if ships[at].owner.is_human() {
                    if conquered {
                        events.push(GameEvents::PlanetConquered(planet));
                    } else {
                        events.push(GameEvents::ShipDamaged(ship, OVERKILL));
                        events.push(GameEvents::PlanetShield(planet));
                    }
                }
            },
            None => {},
        },
        None => {},
    }
}

/// Resolves a batch of encounters with asteroids and planets.
pub fn object_collision(
    proximities: &Vec<ProximityEvent>,
    ships: &Vec<ShipEntity>,
    moons: &Vec<MoonEntity>,
    planets: &Vec<u64>,
    asteroids: &Vec<u64>,
) -> (events: Vec<GameEvents>)
    ensures
        events@ == encounters(proximities@, ships@, moons@, planets@, asteroids@),
{
    let conquered = holds_all_moons(moons);
    let mut events: Vec<GameEvents> = Vec::new();
    let mut i: usize = 0;
    while i < proximities.len()
        invariant
            i <= proximities.len(),
            conquered == all_human(moons@),
            events@ == encounters(
                proximities@.take(i as int),
                ships@,
                moons@,
                planets@,
                asteroids@,
            ),
        decreases proximities.len() - i,
    {
        proof {
            assert(proximities@.take(i + 1).drop_last() == proximities@.take(i as int));
        }
        let event = proximities[i];
        if event.new_status == Proximity::Intersecting {
            push_strike(&mut events, event, asteroids);
            push_approach(&mut events, event, ships, moons, planets, conquered);
        }
        i += 1;
    }
    proof {
        assert(proximities@.take(i as int) == proximities@);
    }
    events
}

/// An asteroid that meets anything is spent by the impact: the encounter
/// says so, and so does every batch that holds the encounter.
pub proof fn lemma_asteroid_spent_on_impact(
    events: Seq<ProximityEvent>,
    ships: Seq<ShipEntity>,
    moons: Seq<MoonEntity>,
    planets: Seq<u64>,
    asteroids: Seq<u64>,
    k: int,
    asteroid: u64,
)
    requires
        0 <= k < events.len(),
        events[k].new_status == Proximity::Intersecting,
        asteroids.contains(asteroid),
        events[k].collider1 == asteroid || events[k].collider2 == asteroid,
    ensures
        encounter(events[k], ships, moons, planets, asteroids).contains(
            GameEvents::AsteroidSpent(asteroid),
        ),
        encounters(events, ships, moons, planets, asteroids).contains(
            GameEvents::AsteroidSpent(asteroid),
        ),
    decreases events.len(),
{
    let spent = asteroids_spent(events[k], asteroids);
    let hit = asteroid_hit(events[k], asteroids);
    let at = if events[k].collider1 == asteroid {
        0int
    } else {
        spent.len() - 1
    };
    let rest = encounters(events.drop_last(), ships, moons, planets, asteroids);
    let all = encounters(events, ships, moons, planets, asteroids);
    if k == events.len() - 1 {
        assert(all[rest.len() + hit.len() + at] == GameEvents::AsteroidSpent(asteroid));
    } else {
        lemma_asteroid_spent_on_impact(
            events.drop_last(),
            ships,
            moons,
            planets,
            asteroids,
            k,
            asteroid,
        );
        let j = choose|j: int|
            0 <= j < rest.len() && rest[j] == GameEvents::AsteroidSpent(asteroid);
        assert(all[j] == GameEvents::AsteroidSpent(asteroid));
    }
}

/// A shield is raised only by a planet that is listed, and only while a
/// moon is not the human player's: no batch of encounters announces the
/// shield of anything else.
pub proof fn lemma_shield_is_a_planets(
    events: Seq<ProximityEvent>,
    ships: Seq<ShipEntity>,
    moons: Seq<MoonEntity>,
    planets: Seq<u64>,
    asteroids: Seq<u64>,
    planet: u64,
)
    requires
        encounters(events, ships, moons, planets, asteroids).contains(
            GameEvents::PlanetShield(planet),
        ),
    ensures
        planets.contains(planet),
        !all_human(moons),
    decreases events.len(),
{
    let all = encounters(events, ships, moons, planets, asteroids);
    let at = choose|at: int| 0 <= at < all.len() && all[at] == GameEvents::PlanetShield(planet);
    if events.len() > 0 {
        let rest = encounters(events.drop_last(), ships, moons, planets, asteroids);
        if at < rest.len() {
            lemma_shield_is_a_planets(events.drop_last(), ships, moons, planets, asteroids, planet);
        }
    }
}

} // verus!
