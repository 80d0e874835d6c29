//! One round of the rules, in the order in which they depend on each other:
//! fights first, then the count of ships, then conquests.

use crate::combat::{
    contact_events, encounters, lemma_asteroid_spent_on_impact, object_collision, ship_collision,
    ContactEvent, Proximity, ProximityEvent,
};
use crate::events::{
    after_events, aligned, game_events, lemma_asteroids_dwindle, lemma_spent_asteroids_are_gone,
    Course, Effect,
};
use crate::game::{
    change_owner, conquests, orbiting_owners, ship_count, Game, GameEvents, MoonEntity,
};
use crate::screen::GameScreen;
use crate::space::ShipEntity;
use vstd::prelude::*;

verus! {

/// The events of the fights of a round: those of the contacts between
/// ships, then those of the encounters with asteroids and planets.
pub open spec fn fought(
    contacts: Seq<ContactEvent>,
    proximities: Seq<ProximityEvent>,
    ships: Seq<ShipEntity>,
    moons: Seq<MoonEntity>,
    planets: Seq<u64>,
    asteroids: Seq<u64>,
) -> Seq<GameEvents> {
    contact_events(contacts, ships, Set::empty()) + encounters(
        proximities,
        ships,
        moons,
        planets,
        asteroids,
    )
}

/// The bodies around which ships are counted: the moons, then the planets.
pub open spec fn bodies(moons: Seq<MoonEntity>, planets: Seq<u64>) -> Seq<u64> {
    moons.map_values(|moon: MoonEntity| moon.entity) + planets
}

/// Whether every one of `events` is the conquest of a moon.
pub open spec fn all_conquests(events: Seq<GameEvents>) -> bool {
    forall|i: int| 0 <= i < events.len() ==> (#[trigger] events[i]) is MoonConquered
}

/// What is shown in a batch of events comes after what was shown before
/// it, and nothing else of the outcome depends on what was shown before.
pub proof fn lemma_effects_add_up(course: Course, events: Seq<GameEvents>)
    ensures
        after_events(course, events) == (Course {
            effects: course.effects + after_events(
                Course { effects: Seq::empty(), ..course },
                events,
            ).effects,
            ..after_events(Course { effects: Seq::empty(), ..course }, events)
        }),
    decreases events.len(),
{
    if events.len() > 0 {
        lemma_effects_add_up(course, events.drop_last());
    }
}

proof fn lemma_aligned_keeps_counts(
    ships: Seq<ShipEntity>,
    turn: spec_fn(ShipEntity) -> ShipEntity,
    body: u64,
)
    requires
        forall|ship: ShipEntity|
            (#[trigger] turn(ship)).owner == ship.owner && turn(ship).motion.orbits(body)
                == ship.motion.orbits(body),
    ensures
        orbiting_owners(ships.map_values(turn), body) == orbiting_owners(ships, body),
    decreases ships.len(),
{
    if ships.len() > 0 {
        lemma_aligned_keeps_counts(ships.drop_last(), turn, body);
        assert(ships.map_values(turn).drop_last() =~= ships.drop_last().map_values(turn));
    }
}

/// Conquests move no ship into or out of an orbit and change no ship's
/// owner: the count of ships around each body stays the same.
pub proof fn lemma_conquests_keep_counts(course: Course, events: Seq<GameEvents>, body: u64)
    requires
        all_conquests(events),
    ensures
        orbiting_owners(after_events(course, events).ships, body) == orbiting_owners(
            course.ships,
            body,
        ),
    decreases events.len(),
{
    if events.len() > 0 {
        let before = after_events(course, events.drop_last());
        lemma_conquests_keep_counts(course, events.drop_last(), body);
        match events.last() {
            GameEvents::MoonConquered(entity, new_owner) => {
                match crate::entity::position(before.moons, entity) {
                    Some(j) => {
                        let direction = before.moons[j].spawn.rotation_direction;
                        let turn = |ship: ShipEntity| aligned(ship, entity, new_owner, direction);
                        lemma_aligned_keeps_counts(before.ships, turn, body);
                    },
                    None => {},
                }
            },
            _ => {},
        }
    }
}

/// What the resolver announces is conquests and nothing else.
pub proof fn lemma_conquests_are_conquests(moons: Seq<MoonEntity>, game: Game)
    ensures
        all_conquests(conquests(moons, game)),
    decreases moons.len(),
{
    if moons.len() > 0 {
        lemma_conquests_are_conquests(moons.drop_last(), game);
    }
}

/// An asteroid that meets anything in a round is in play no more once the
/// events of the round are applied, whatever else the round brings: it is
/// spent by the impact. No asteroid is listed twice.
pub proof fn lemma_impact_ends_asteroid(
    start: Course,
    contacts: Seq<ContactEvent>,
    proximities: Seq<ProximityEvent>,
    more: Seq<GameEvents>,
    k: int,
    asteroid: u64,
)
    requires
        start.asteroids.no_duplicates(),
        start.asteroids.contains(asteroid),
        0 <= k < proximities.len(),
        proximities[k].new_status == Proximity::Intersecting,
        proximities[k].collider1 == asteroid || proximities[k].collider2 == asteroid,
    ensures
        ({
            let fights = after_events(
                start,
                fought(
                    contacts,
                    proximities,
                    start.ships,
                    start.moons,
                    start.planets,
                    start.asteroids,
                ),
            );
            &&& !fights.asteroids.contains(asteroid)
            &&& !after_events(fights, more).asteroids.contains(asteroid)
        }),
{
    let hits = contact_events(contacts, start.ships, Set::empty());
    let met = encounters(proximities, start.ships, start.moons, start.planets, start.asteroids);
    let events = fought(
        contacts,
        proximities,
        start.ships,
        start.moons,
        start.planets,
        start.asteroids,
    );
    lemma_asteroid_spent_on_impact(
        proximities,
        start.ships,
        start.moons,
        start.planets,
        start.asteroids,
        k,
        asteroid,
    );
    let at = choose|at: int| 0 <= at < met.len() && met[at] == GameEvents::AsteroidSpent(asteroid);
    assert(events[hits.len() + at] == GameEvents::AsteroidSpent(asteroid));
    lemma_spent_asteroids_are_gone(start, events, asteroid);
    let fights = after_events(start, events);
    let last = after_events(fights, more);
    lemma_asteroids_dwindle(fights, more);
}

fn body_names(moons: &Vec<MoonEntity>, planets: &Vec<u64>) -> (names: Vec<u64>)
    ensures
        names@ == bodies(moons@, planets@),
{
    let mut names: Vec<u64> = Vec::new();
    let mut i: usize = 0;
    while i < moons.len()
        invariant
            i <= moons.len(),
            names@ == moons@.take(i as int).map_values(|moon: MoonEntity| moon.entity),
        decreases moons.len() - i,
    {
        names.push(moons[i].entity);
        i += 1;
    }
    let mut k: usize = 0;
    while k < planets.len()
        invariant
            k <= planets.len(),
            names@ == moons@.map_values(|moon: MoonEntity| moon.entity) + planets@.take(k as int),
        decreases planets.len() - k,
    {
        names.push(planets[k]);
        k += 1;
    }
    names
}

/// Plays one round of the rules on the contacts and encounters that the
/// physics has reported.
///
/// First the fights: the contacts between ships and the encounters with
/// asteroids and planets are resolved on the ships as they stand, and the
/// events of both are applied. Then the ships in orbit around each moon and
/// planet are counted, so that a ship just destroyed counts no more. Then
/// the moons that have fallen are found by these counts, and the conquests
/// are applied. In the end the counts are those of the ships that are
/// left, and the asteroids are those that have met nothing.
pub fn resolve(
    contacts: &Vec<ContactEvent>,
    proximities: &Vec<ProximityEvent>,
    ships: &mut Vec<ShipEntity>,
    moons: &mut Vec<MoonEntity>,
    planets: &Vec<u64>,
    asteroids: &mut Vec<u64>,
    game: &mut Game,
    game_screen: &mut GameScreen,
) -> (effects: Vec<Effect>)
    ensures
        ({
            let start = Course {
                ships: old(ships)@,
                moons: old(moons)@,
                planets: planets@,
                asteroids: old(asteroids)@,
                screen: *old(game_screen),
                effects: Seq::empty(),
            };
            let fights = after_events(
                start,
                fought(
                    contacts@,
                    proximities@,
                    old(ships)@,
                    old(moons)@,
                    planets@,
                    old(asteroids)@,
                ),
            );
            &&& (Course {
                ships: final(ships)@,
                moons: final(moons)@,
                planets: planets@,
                asteroids: final(asteroids)@,
                screen: *final(game_screen),
                effects: effects@,
            }) == after_events(fights, conquests(fights.moons, *final(game)))
            &&& forall|body: u64| #[trigger]
                bodies(fights.moons, planets@).contains(body) ==> final(game).present(body)
                    == orbiting_owners(fights.ships, body) && final(game).present(body)
                    == orbiting_owners(final(ships)@, body)
        }),
        final(game).score == old(game).score,
        final(game).selected == old(game).selected,
        final(game).ratio == old(game).ratio,
        final(game).targeted == old(game).targeted,
        final(game).elapsed == old(game).elapsed,
{
    let mut events = ship_collision(contacts, ships);
    let mut met = object_collision(proximities, ships, moons, planets, asteroids);
    events.append(&mut met);
    let mut effects = game_events(&events, ships, moons, planets, asteroids, game_screen);
    let ghost fights = Course {
        ships: ships@,
        moons: moons@,
        planets: planets@,
        asteroids: asteroids@,
        screen: *game_screen,
        effects: effects@,
    };
    let names = body_names(moons, planets);
    ship_count(game, &names, ships);
    let conquered = change_owner(moons, game);
    let mut more = game_events(&conquered, ships, moons, planets, asteroids, game_screen);
    effects.append(&mut more);
    proof {
        lemma_effects_add_up(fights, conquered@);
        lemma_conquests_are_conquests(fights.moons, *game);
        assert forall|body: u64| #[trigger]
            bodies(fights.moons, planets@).contains(body) implies game.present(body)
            == orbiting_owners(fights.ships, body) && game.present(body) == orbiting_owners(
            ships@,
            body,
        ) by {
            lemma_conquests_keep_counts(
                Course { effects: Seq::empty(), ..fights },
                conquered@,
                body,
            );
        }
    }
    effects
}

} // verus!
