//! What the announced events do to ships, moons and the screen.

use crate::entity::{find, is_among, lemma_position, position};
use crate::game::{GameEvents, MoonEntity};
use crate::owner::OwnedBy;
use crate::screen::{GameScreen, Screen};
use crate::space::{Motion, Orbiter, RotationDirection, ShipEntity, SpawnShip, SpawnShipType};
use crate::timer::Timer;
use vstd::prelude::*;

verus! {

/// What is to be shown for an event.
#[derive(Clone, Copy, PartialEq, Eq, Debug, Structural)]
pub enum Effect {
    /// The ship is gone: an explosion takes its place.
    Explosion(u64),
    /// The planet's shield flashes.
    Shield(u64),
    /// The asteroid is gone: it leaves play.
    AsteroidGone(u64),
}

/// Ships, moons, planets, asteroids and screen at some point of a batch of
/// events, with what there has been to show so far.
pub struct Course {
    pub ships: Seq<ShipEntity>,
    pub moons: Seq<MoonEntity>,
    pub planets: Seq<u64>,
    pub asteroids: Seq<u64>,
    pub screen: GameScreen,
    pub effects: Seq<Effect>,
}

/// The production that a moon runs once `owner` has taken it: the profile
/// of the new owner, started afresh, turning as the moon did.
pub open spec fn taken_over(spawn: SpawnShip, owner: OwnedBy) -> SpawnShip {
    SpawnShipType::of_owner(owner).components(spawn.rotation_direction)
}

/// The ship as it is once `owner` has taken `body`: a ship of that owner in
/// orbit around that body turns the way the body's ships do.
pub open spec fn aligned(
    ship: ShipEntity,
    body: u64,
    owner: OwnedBy,
    direction: RotationDirection,
) -> ShipEntity {
    match ship.motion {
        Motion::Orbit(orbiter) => if orbiter.around == body && ship.owner == owner {
            ShipEntity { motion: Motion::Orbit(Orbiter { direction, ..orbiter }), ..ship }
        } else {
            ship
        },
        Motion::Transit(_) => ship,
    }
}

/// Where things stand after one event.
///
/// A hit on a ship takes the hit points away; the ship that has none left
/// is removed and explodes. A hit on what is no ship, or no longer one,
/// does nothing. A conquered moon gets its new owner and that owner's
/// production, and the new owner's ships around it fall in with its
/// turning. The shield of a planet is shown; it changes nothing. A
/// conquered planet wins the match. A spent asteroid leaves play. An event
/// that names a ship, a moon, a planet or an asteroid that is not there, or
/// no longer there, is passed over.
pub open spec fn after_event(course: Course, event: GameEvents) -> Course {
    match event {
        GameEvents::ShipDamaged(entity, amount) => match position(course.ships, entity) {
            Some(i) => if course.ships[i].ship.destroyed_by(amount) {
                Course {
                    ships: course.ships.remove(i),
                    effects: course.effects.push(Effect::Explosion(entity)),
                    ..course
                }
            } else {
                Course {
                    ships: course.ships.update(
                        i,
                        ShipEntity { ship: course.ships[i].ship.hit_by(amount), ..course.ships[i] },
                    ),
                    ..course
                }
            },
            None => course,
        },
        GameEvents::MoonConquered(entity, new_owner) => match position(course.moons, entity) {
            Some(j) => Course {
                moons: course.moons.update(
                    j,
                    MoonEntity {
                        owner: new_owner,
                        spawn: taken_over(course.moons[j].spawn, new_owner),
                        ..course.moons[j]
                    },
                ),
                ships: course.ships.map_values(
                    |ship: ShipEntity|
                        aligned(ship, entity, new_owner, course.moons[j].spawn.rotation_direction),
                ),
                ..course
            },
            None => course,
        },
        GameEvents::PlanetShield(entity) => if course.planets.contains(entity) {
            Course { effects: course.effects.push(Effect::Shield(entity)), ..course }
        } else {
            course
        },
        GameEvents::PlanetConquered(_) => Course {
            screen: GameScreen { current_screen: Screen::Win, ..course.screen },
            ..course
        },
        GameEvents::AsteroidSpent(entity) => match position(course.asteroids, entity) {
            Some(i) => Course {
                asteroids: course.asteroids.remove(i),
                effects: course.effects.push(Effect::AsteroidGone(entity)),
                ..course
            },
            None => course,
        },
    }
}

/// Where things stand after a batch of events, taken in order.
pub open spec fn after_events(course: Course, events: Seq<GameEvents>) -> Course
    decreases events.len(),
{
    if events.len() == 0 {
        course
    } else {
        after_event(after_events(course, events.drop_last()), events.last())
    }
}

fn align_ships(
    ships: &mut Vec<ShipEntity>,
    body: u64,
    owner: OwnedBy,
    direction: RotationDirection,
)
    ensures
        final(ships)@ == old(ships)@.map_values(
            |ship: ShipEntity| aligned(ship, body, owner, direction),
        ),
{
    let ghost turn = |ship: ShipEntity| aligned(ship, body, owner, direction);
    let mut k: usize = 0;
    while k < ships.len()
        invariant
            k <= ships.len(),
            ships.len() == old(ships).len(),
            turn == (|ship: ShipEntity| aligned(ship, body, owner, direction)),
            forall|n: int| 0 <= n < k ==> ships@[n] == turn(old(ships)@[n]),
            forall|n: int| k <= n < ships.len() ==> ships@[n] == old(ships)@[n],
        decreases ships.len() - k,
    {
        let ship = ships[k];
        match ship.motion {
            Motion::Orbit(orbiter) => {
                if orbiter.around == body && ship.owner == owner {
                    ships.set(
                        k,
                        ShipEntity {
                            entity: ship.entity,
                            owner: ship.owner,
                            ship: ship.ship,
                            motion: Motion::Orbit(
                                Orbiter {
                                    speed: orbiter.speed,
                                    offset: orbiter.offset,
                                    direction,
                                    distance: orbiter.distance,
                                    around: orbiter.around,
                                    rotation: orbiter.rotation,
                                },
                            ),
                        },
                    );
                }
            },
            Motion::Transit(_) => {},
        }
        k += 1;
    }
}

/// Applies a batch of events, in order, and says what there is to show.
pub fn game_events(
    events: &Vec<GameEvents>,
    ships: &mut Vec<ShipEntity>,
    moons: &mut Vec<MoonEntity>,
    planets: &Vec<u64>,
    asteroids: &mut Vec<u64>,
    game_screen: &mut GameScreen,
) -> (effects: Vec<Effect>)
    ensures
        (Course {
            ships: final(ships)@,
            moons: final(moons)@,
            planets: planets@,
            asteroids: final(asteroids)@,
            screen: *final(game_screen),
            effects: effects@,
        }) == after_events(
            Course {
                ships: old(ships)@,
                moons: old(moons)@,
                planets: planets@,
                asteroids: old(asteroids)@,
                screen: *old(game_screen),
                effects: Seq::empty(),
            },
            events@,
        ),
{
    let ghost start = Course {
        ships: old(ships)@,
        moons: old(moons)@,
        planets: planets@,
        asteroids: old(asteroids)@,
        screen: *old(game_screen),
        effects: Seq::empty(),
    };
    let mut effects: Vec<Effect> = Vec::new();
    let mut i: usize = 0;
    while i < events.len()
        invariant
            i <= events.len(),
            start == (Course {
                ships: old(ships)@,
                moons: old(moons)@,
                planets: planets@,
                asteroids: old(asteroids)@,
                screen: *old(game_screen),
                effects: Seq::empty(),
            }),
            (Course {
                ships: ships@,
                moons: moons@,
                planets: planets@,
                asteroids: asteroids@,
                screen: *game_screen,
                effects: effects@,
            }) == after_events(start, events@.take(i as int)),
        decreases events.len() - i,
    {
        proof {
            assert(events@.take(i + 1).drop_last() == events@.take(i as int));
        }
        match events[i] {
            GameEvents::ShipDamaged(entity, amount) => {
                match find(ships, entity) {
                    Some(at) => {
                        let mut hit = ships[at];
                        let destroyed = hit.ship.damage(amount);
                        if destroyed {
                            ships.remove(at);
                            effects.push(Effect::Explosion(entity));
                        } else {
                            ships.set(at, hit);
                        }
                    },
                    None => {},
                }
            },
            GameEvents::MoonConquered(entity, new_owner) => {
                match find(moons, entity) {
                    Some(at) => {
                        let moon = moons[at];
                        let direction = moon.spawn.rotation_direction;
                        let spawn = SpawnShipType::for_owner(new_owner).to_components(direction);
                        moons.set(
                            at,
                            MoonEntity {
                                entity: moon.entity,
                                owner: new_owner,
                                moon: moon.moon,
                                spawn,
                            },
                        );
                        align_ships(ships, entity, new_owner, direction);
                    },
                    None => {},
                }
            },
            GameEvents::PlanetShield(entity) => {
                if is_among(planets, entity) {
                    effects.push(Effect::Shield(entity));
                }
            },
            GameEvents::PlanetConquered(_) => {
                game_screen.current_screen = Screen::Win;
            },
            GameEvents::AsteroidSpent(entity) => {
                match find(asteroids, entity) {
                    Some(at) => {
                        asteroids.remove(at);
                        effects.push(Effect::AsteroidGone(entity));
                    },
                    None => {},
                }
            },
        }
        i += 1;
    }
    proof {
        assert(events@.take(i as int) == events@);
    }
    effects
}

/// Whether `ship` is one of `prev`, under the same name and of the same
/// owner, with no more hit points than it had.
pub open spec fn has_ancestor(ship: ShipEntity, prev: Seq<ShipEntity>) -> bool {
    exists|j: int| 0 <= j < prev.len() && worn(ship, #[trigger] prev[j])
}

/// Whether every ship of `next` is a ship of `prev`, under the same name and
/// of the same owner, with no more hit points than it had.
pub open spec fn descends(next: Seq<ShipEntity>, prev: Seq<ShipEntity>) -> bool {
    forall|k: int| 0 <= k < next.len() ==> has_ancestor(#[trigger] next[k], prev)
}

/// Whether `later` is the ship `earlier` with no more hit points than it
/// had.
pub open spec fn worn(later: ShipEntity, earlier: ShipEntity) -> bool {
    &&& later.entity == earlier.entity
    &&& later.owner == earlier.owner
    &&& later.ship.hit_points <= earlier.ship.hit_points
}

/// A hit that is not positive takes nothing: the ship it falls on keeps its
/// hit points, and is not destroyed if it had any left. Nothing else
/// changes either.
pub proof fn lemma_harmless_hit(course: Course, entity: u64, amount: i32)
    requires
        amount <= 0,
    ensures
        ({
            let next = after_event(course, GameEvents::ShipDamaged(entity, amount));
            &&& next.moons == course.moons
            &&& next.planets == course.planets
            &&& next.asteroids == course.asteroids
            &&& next.screen == course.screen
            &&& match position(course.ships, entity) {
                Some(i) => if course.ships[i].ship.hit_points > 0 {
                    next.ships == course.ships && next.effects == course.effects
                } else {
                    next.ships == course.ships.remove(i) && next.effects
                        == course.effects.push(Effect::Explosion(entity))
                },
                None => next == course,
            }
        }),
{
}

/// No event adds a ship, renames one, gives it to another owner or raises
/// its hit points; only a hit changes hit points or removes a ship; only a
/// conquest changes a moon, and then only its owner and production. No
/// event changes the planets; only a spent asteroid changes the asteroids,
/// and none brings an asteroid into being.
pub proof fn lemma_event_wears(course: Course, event: GameEvents)
    ensures
        after_event(course, event).planets == course.planets,
        !(event is AsteroidSpent) ==> after_event(course, event).asteroids == course.asteroids,
        among(after_event(course, event).asteroids, course.asteroids),
        after_event(course, event).asteroids.len() <= course.asteroids.len(),
        descends(after_event(course, event).ships, course.ships),
        after_event(course, event).ships.len() <= course.ships.len(),
        !(event is ShipDamaged) ==> after_event(course, event).ships.len() == course.ships.len()
            && forall|k: int|
            0 <= k < course.ships.len() ==> (#[trigger] after_event(course, event).ships[k]).ship
                == course.ships[k].ship,
        !(event is MoonConquered) ==> after_event(course, event).moons == course.moons,
        after_event(course, event).moons.len() == course.moons.len(),
        forall|k: int|
            0 <= k < course.moons.len() ==> (#[trigger] after_event(course, event).moons[k]).entity
                == course.moons[k].entity && after_event(course, event).moons[k].moon
                == course.moons[k].moon,
{
}

/// Through a whole batch of events hit points never rise and no ship comes
/// into being.
pub proof fn lemma_events_wear(course: Course, events: Seq<GameEvents>)
    ensures
        descends(after_events(course, events).ships, course.ships),
        after_events(course, events).ships.len() <= course.ships.len(),
        after_events(course, events).moons.len() == course.moons.len(),
    decreases events.len(),
{
    if events.len() > 0 {
        lemma_events_wear(course, events.drop_last());
    }
}

/// Whether every one of `next` is one of `prev`.
pub open spec fn among(next: Seq<u64>, prev: Seq<u64>) -> bool {
    forall|k: int| 0 <= k < next.len() ==> prev.contains(#[trigger] next[k])
}

/// A spent asteroid leaves play: where no asteroid is listed twice, the one
/// that is spent is listed no more, and the others stay as they were.
pub proof fn lemma_spent_asteroid_leaves(course: Course, asteroid: u64)
    requires
        course.asteroids.no_duplicates(),
    ensures
        ({
            let next = after_event(course, GameEvents::AsteroidSpent(asteroid));
            &&& !next.asteroids.contains(asteroid)
            &&& next.asteroids.no_duplicates()
            &&& forall|other: u64|
                other != asteroid ==> next.asteroids.contains(other) == course.asteroids.contains(
                    other,
                )
            &&& next.ships == course.ships
            &&& next.moons == course.moons
            &&& next.screen == course.screen
        }),
{
    lemma_position(course.asteroids, asteroid);
    let next = after_event(course, GameEvents::AsteroidSpent(asteroid));
    match position(course.asteroids, asteroid) {
        Some(i) => {
            assert forall|other: u64| other != asteroid implies next.asteroids.contains(other)
                == course.asteroids.contains(other) by {
                if course.asteroids.contains(other) {
                    let j = choose|j: int|
                        0 <= j < course.asteroids.len() && course.asteroids[j] == other;
                    if j < i {
                        assert(next.asteroids[j] == other);
                    } else {
                        assert(next.asteroids[j - 1] == other);
                    }
                }
            }
        },
        None => {
            assert(forall|j: int|
                0 <= j < course.asteroids.len() ==> course.asteroids[j] != asteroid);
        },
    }
}

/// Through a whole batch of events no asteroid comes into being and none is
/// listed twice that was not before; the planets stay as they were.
pub proof fn lemma_asteroids_dwindle(course: Course, events: Seq<GameEvents>)
    ensures
        after_events(course, events).planets == course.planets,
        among(after_events(course, events).asteroids, course.asteroids),
        after_events(course, events).asteroids.len() <= course.asteroids.len(),
        course.asteroids.no_duplicates() ==> after_events(course, events).asteroids.no_duplicates(),
    decreases events.len(),
{
    if events.len() > 0 {
        lemma_asteroids_dwindle(course, events.drop_last());
    }
}

/// An asteroid that a batch of events has spent is in play no more at the
/// end of the batch, where no asteroid is listed twice.
pub proof fn lemma_spent_asteroids_are_gone(
    course: Course,
    events: Seq<GameEvents>,
    asteroid: u64,
)
    requires
        course.asteroids.no_duplicates(),
        events.contains(GameEvents::AsteroidSpent(asteroid)),
    ensures
        !after_events(course, events).asteroids.contains(asteroid),
    decreases events.len(),
{
    lemma_asteroids_dwindle(course, events.drop_last());
    if events.last() == GameEvents::AsteroidSpent(asteroid) {
        lemma_spent_asteroid_leaves(after_events(course, events.drop_last()), asteroid);
    } else {
        let at = choose|at: int|
            0 <= at < events.len() && events[at] == GameEvents::AsteroidSpent(asteroid);
        assert(events.drop_last()[at] == GameEvents::AsteroidSpent(asteroid));
        lemma_spent_asteroids_are_gone(course, events.drop_last(), asteroid);
    }
}

/// A shield is shown only for a planet that is there, and an asteroid
/// leaves only if it was there.
pub proof fn lemma_effects_name_what_is_there(
    course: Course,
    events: Seq<GameEvents>,
    effect: Effect,
)
    requires
        course.effects.len() == 0,
        after_events(course, events).effects.contains(effect),
    ensures
        effect matches Effect::Shield(planet) ==> course.planets.contains(planet),
        effect matches Effect::AsteroidGone(asteroid) ==> course.asteroids.contains(asteroid),
    decreases events.len(),
{
    if events.len() > 0 {
        let before = after_events(course, events.drop_last());
        let next = after_events(course, events);
        lemma_asteroids_dwindle(course, events.drop_last());
        let at = choose|at: int| 0 <= at < next.effects.len() && next.effects[at] == effect;
        if at < before.effects.len() {
            lemma_effects_name_what_is_there(course, events.drop_last(), effect);
        }
    }
}

/// The shield of a planet while it shows.
#[derive(Clone, Copy, PartialEq, Eq, Debug, Structural)]
pub struct Shield(pub Timer);

/// The time that a shield shows, in milliseconds.
pub const SHIELD_DURATION: u32 = 500;

impl Shield {
    /// A shield that has just come up.
    pub fn new() -> (shield: Shield)
        ensures
            shield == Shield(
                Timer { duration: 500, elapsed: 0, repeating: false, finished: false },
            ),
    {
        Shield(Timer::from_millis(SHIELD_DURATION, false))
    }
}

/// Moves a shield on by `delta` milliseconds and says whether it is to be
/// taken down.
pub fn manage_shield(shield: &mut Shield, delta: u32) -> (over: bool)
    ensures
        over == old(shield).0.fires(delta),
        final(shield).0 == old(shield).0.ticked(delta),
{
    shield.0.tick(delta)
}

/// An explosion: the picture it shows and the timer that moves it on.
#[derive(Clone, Copy, PartialEq, Eq, Debug, Structural)]
pub struct Explosion {
    pub timer: Timer,
    pub index: u32,
}

/// The last picture of an explosion.
pub const LAST_FRAME: u32 = 6;

/// The time that a picture of an explosion shows, in milliseconds.
pub const FRAME_DURATION: u32 = 100;

impl Explosion {
    /// An explosion that has just begun.
    pub fn new() -> (explosion: Explosion)
        ensures
            explosion == (Explosion {
                timer: Timer { duration: 100, elapsed: 0, repeating: true, finished: false },
                index: 0,
            }),
    {
        Explosion { timer: Timer::from_millis(FRAME_DURATION, true), index: 0 }
    }
}

/// Moves an explosion on by `delta` milliseconds. Each time its timer runs
/// out it shows the next picture; when it runs out on the last picture,
/// the explosion is over, which is what is said.
pub fn explode(explosion: &mut Explosion, delta: u32) -> (over: bool)
    ensures
        final(explosion).timer == old(explosion).timer.ticked(delta),
        over == (old(explosion).timer.fires(delta) && old(explosion).index >= LAST_FRAME),
        final(explosion).index == if old(explosion).timer.fires(delta) && old(explosion).index
            < LAST_FRAME {
            (old(explosion).index + 1) as u32
        } else {
            old(explosion).index
        },
{
    if !explosion.timer.tick(delta) {
        return false;
    }
    if explosion.index >= LAST_FRAME {
        true
    } else {
        explosion.index = explosion.index + 1;
        false
    }
}

} // verus!
