//! The state of a match, the count of ships around each body, and the rule
//! by which a moon changes hands.

use crate::counts::{sole_owner, OwnerCounts};
use crate::entity::{position, Named};
use crate::owner::OwnedBy;
use crate::ratio::Ratio;
use crate::space::{ShipEntity, SpawnShip};
use std::collections::HashMap;
use vstd::multiset::*;
use vstd::prelude::*;
use vstd::std_specs::hash::*;

verus! {

/// The planet at the centre.
pub struct Planet {
    pub name: String,
}

/// A moon: the `index`-th around its planet, counted from 1.
#[derive(Clone, Copy, PartialEq, Eq, Debug, Structural)]
pub struct Moon {
    pub index: i32,
    pub planet: u64,
}

/// A moon in play, with its owner and what it produces.
#[derive(Clone, Copy, PartialEq, Eq, Debug, Structural)]
pub struct MoonEntity {
    pub entity: u64,
    pub owner: OwnedBy,
    pub moon: Moon,
    pub spawn: SpawnShip,
}

impl Named for MoonEntity {
    open spec fn name(&self) -> u64 {
        self.entity
    }

    fn entity(&self) -> u64 {
        self.entity
    }
}

/// The moon named `entity`, if it is among `moons`: the first, should
/// several have the name.
pub open spec fn moon_of(moons: Seq<MoonEntity>, entity: u64) -> Option<MoonEntity> {
    match position(moons, entity) {
        Some(i) => Some(moons[i]),
        None => None,
    }
}

/// What the rules announce.
#[derive(Clone, Copy, PartialEq, Eq, Debug, Structural)]
pub enum GameEvents {
    /// A ship takes a hit of the given amount.
    ShipDamaged(u64, i32),
    /// A planet turns away a ship.
    PlanetShield(u64),
    /// A moon falls to a new owner.
    MoonConquered(u64, OwnedBy),
    /// A planet is taken: the match is won.
    PlanetConquered(u64),
    /// An asteroid has hit something and is spent.
    AsteroidSpent(u64),
}

/// The state of a match. The time played is in milliseconds.
pub struct Game {
    pub score: u32,
    pub selected: Option<u64>,
    pub ratio: Ratio,
    pub targeted: Option<u64>,
    pub elapsed: u64,
    pub ship_counts: HashMap<u64, OwnerCounts>,
}

impl Default for Game {
    fn default() -> (game: Game)
        ensures
            game.score == 0,
            game.selected is None,
            game.targeted is None,
            game.ratio == Ratio::ThreeQuarter,
            game.elapsed == 0,
            game.ship_counts@ == Map::<u64, OwnerCounts>::empty(),
    {
        Game {
            score: 0,
            selected: None,
            ratio: Ratio::ThreeQuarter,
            targeted: None,
            elapsed: 0,
            ship_counts: HashMap::new(),
        }
    }
}

/// The owners of the ships of `ships` that orbit `body`, each as often as it
/// has ships there. Ships on their way count for no body.
pub open spec fn orbiting_owners(ships: Seq<ShipEntity>, body: u64) -> Multiset<OwnedBy>
    decreases ships.len(),
{
    if ships.len() == 0 {
        Multiset::empty()
    } else {
        let rest = orbiting_owners(ships.drop_last(), body);
        if ships.last().motion.orbits(body) {
            rest.insert(ships.last().owner)
        } else {
            rest
        }
    }
}

/// The ships of `ships` that orbit `body`.
pub open spec fn orbiting(ships: Seq<ShipEntity>, body: u64) -> Seq<ShipEntity> {
    ships.filter(|ship: ShipEntity| ship.motion.orbits(body))
}

/// The counts around a body add up to the number of ships in orbit around
/// it, and the count of each owner is the number of its ships there.
pub proof fn lemma_counts_match_ships(ships: Seq<ShipEntity>, body: u64)
    ensures
        orbiting_owners(ships, body).len() == orbiting(ships, body).len(),
        forall|owner: OwnedBy| #[trigger]
            orbiting_owners(ships, body).count(owner) == orbiting(ships, body).filter(
                |ship: ShipEntity| ship.owner == owner,
            ).len(),
        orbiting(ships, body).len() <= ships.len(),
    decreases ships.len(),
{
    broadcast use group_multiset_axioms;

    reveal(Seq::filter);
    if ships.len() > 0 {
        lemma_counts_match_ships(ships.drop_last(), body);
        let last = ships.last();
        let rest = orbiting(ships.drop_last(), body);
        assert forall|owner: OwnedBy| #[trigger]
            orbiting_owners(ships, body).count(owner) == orbiting(ships, body).filter(
                |ship: ShipEntity| ship.owner == owner,
            ).len() by {
            if last.motion.orbits(body) {
                assert(rest.push(last).drop_last() == rest);
            }
        }
    } else {
        assert forall|owner: OwnedBy| #[trigger]
            orbiting_owners(ships, body).count(owner) == orbiting(ships, body).filter(
                |ship: ShipEntity| ship.owner == owner,
            ).len() by {}
    }
}

/// Counts the ships of `ships` in orbit around `body`, by owner.
pub fn count_orbiting(ships: &Vec<ShipEntity>, body: u64) -> (counts: OwnerCounts)
    ensures
        counts@ == orbiting_owners(ships@, body),
{
    broadcast use group_multiset_axioms;

    let mut counts = OwnerCounts::new();
    let mut i: usize = 0;
    while i < ships.len()
        invariant
            i <= ships.len(),
            counts@ == orbiting_owners(ships@.take(i as int), body),
            counts@.len() <= i,
        decreases ships.len() - i,
    {
        proof {
            assert(ships@.take(i + 1).drop_last() == ships@.take(i as int));
        }
        if ships[i].motion.is_orbiting(body) {
            counts.add(ships[i].owner);
        }
        i += 1;
    }
    proof {
        assert(ships@.take(i as int) == ships@);
    }
    counts
}

impl Game {
    /// Adds `delta` milliseconds to the time played, as far as a `u64`
    /// goes.
    pub fn tick(&mut self, delta: u32)
        ensures
            final(self).elapsed == if old(self).elapsed + delta > u64::MAX {
                u64::MAX
            } else {
                (old(self).elapsed + delta) as u64
            },
            final(self).score == old(self).score,
            final(self).selected == old(self).selected,
            final(self).ratio == old(self).ratio,
            final(self).targeted == old(self).targeted,
            final(self).ship_counts == old(self).ship_counts,
    {
        self.elapsed = if self.elapsed > u64::MAX - delta as u64 {
            u64::MAX
        } else {
            self.elapsed + delta as u64
        };
    }

    /// The owners of the ships last counted around `body`; none where the
    /// body was never counted.
    pub open spec fn present(&self, body: u64) -> Multiset<OwnedBy> {
        if self.ship_counts@.contains_key(body) {
            self.ship_counts@[body]@
        } else {
            Multiset::empty()
        }
    }

    /// The counts last taken around `body`, if any were.
    pub fn counts(&self, body: u64) -> (counts: Option<&OwnerCounts>)
        ensures
            match counts {
                Some(found) => self.ship_counts@.contains_key(body) && *found
                    == self.ship_counts@[body],
                None => !self.ship_counts@.contains_key(body),
            },
            counts is Some ==> counts->0@ == self.present(body),
            counts is None ==> self.present(body) == Multiset::<OwnedBy>::empty(),
    {
        broadcast use group_hash_axioms;

        self.ship_counts.get(&body)
    }
}

/// Counts anew, for each of `bodies`, the ships in orbit around it. The
/// counts of other bodies stay as they were.
pub fn ship_count(game: &mut Game, bodies: &Vec<u64>, ships: &Vec<ShipEntity>)
    ensures
        forall|body: u64| #[trigger]
            bodies@.contains(body) ==> {
                &&& final(game).ship_counts@.contains_key(body)
                &&& final(game).present(body) == orbiting_owners(ships@, body)
                &&& final(game).present(body).len() == orbiting(ships@, body).len()
            },
        forall|body: u64|
            !bodies@.contains(body) ==> (#[trigger] final(game).ship_counts@.contains_key(body)
                <==> old(game).ship_counts@.contains_key(body)),
        forall|body: u64|
            !bodies@.contains(body) && old(game).ship_counts@.contains_key(body) ==> (
            #[trigger] final(game).ship_counts@[body]) == old(game).ship_counts@[body],
        final(game).score == old(game).score,
        final(game).selected == old(game).selected,
        final(game).ratio == old(game).ratio,
        final(game).targeted == old(game).targeted,
        final(game).elapsed == old(game).elapsed,
{
    broadcast use group_hash_axioms;

    let mut i: usize = 0;
    while i < bodies.len()
        invariant
            i <= bodies.len(),
            forall|k: int|
                0 <= k < i ==> game.ship_counts@.contains_key(#[trigger] bodies@[k])
                    && game.ship_counts@[bodies@[k]]@ == orbiting_owners(ships@, bodies@[k]),
            forall|body: u64|
                !bodies@.take(i as int).contains(body) ==> (
                #[trigger] game.ship_counts@.contains_key(body) <==> old(game).ship_counts@.contains_key(body)),
            forall|body: u64|
                !bodies@.take(i as int).contains(body) && old(game).ship_counts@.contains_key(
                    body,
                ) ==> (#[trigger] game.ship_counts@[body]) == old(game).ship_counts@[body],
            game.score == old(game).score,
            game.selected == old(game).selected,
            game.ratio == old(game).ratio,
            game.targeted == old(game).targeted,
            game.elapsed == old(game).elapsed,
        decreases bodies.len() - i,
    {
        let body = bodies[i];
        let counts = count_orbiting(ships, body);
        game.ship_counts.insert(body, counts);
        proof {
            assert(bodies@.take(i + 1).last() == body);
            assert forall|other: u64| !bodies@.take(i + 1).contains(other) implies other != body
                && !bodies@.take(i as int).contains(other) by {
                if bodies@.take(i as int).contains(other) {
                    let k = choose|k: int|
                        0 <= k < i && bodies@.take(i as int)[k] == other;
                }
            }
        }
        i += 1;
    }
    proof {
        assert forall|body: u64| #[trigger] bodies@.contains(body) implies {
            &&& game.ship_counts@.contains_key(body)
            &&& game.present(body) == orbiting_owners(ships@, body)
            &&& game.present(body).len() == orbiting(ships@, body).len()
        } by {
            lemma_counts_match_ships(ships@, body);
        }
    }
}

/// The event, if any, by which `moon` changes hands when `present` are the
/// owners of the ships around it: one owner alone is there, and it is not
/// the moon's.
pub open spec fn conquest(moon: MoonEntity, present: Multiset<OwnedBy>) -> Option<GameEvents> {
    match sole_owner(present) {
        Some(new_owner) => if new_owner != moon.owner {
            Some(GameEvents::MoonConquered(moon.entity, new_owner))
        } else {
            None
        },
        None => None,
    }
}

/// The conquests among `moons`, in their order.
pub open spec fn conquests(moons: Seq<MoonEntity>, game: Game) -> Seq<GameEvents>
    decreases moons.len(),
{
    if moons.len() == 0 {
        Seq::empty()
    } else {
        let before = conquests(moons.drop_last(), game);
        match conquest(moons.last(), game.present(moons.last().entity)) {
            Some(event) => before.push(event),
            None => before,
        }
    }
}

/// Says which moons change hands, going by the counts last taken: a moon
/// with the ships of one owner only, who is not its own, falls to that
/// owner. A moon with no ship around it, or with ships of several owners,
/// stays with its owner. No owner is changed here: that is for whoever
/// takes the events.
pub fn change_owner(moons: &Vec<MoonEntity>, game: &Game) -> (events: Vec<GameEvents>)
    ensures
        events@ == conquests(moons@, *game),
{
    let mut events: Vec<GameEvents> = Vec::new();
    let mut i: usize = 0;
    while i < moons.len()
        invariant
            i <= moons.len(),
            events@ == conquests(moons@.take(i as int), *game),
        decreases moons.len() - i,
    {
        proof {
            assert(moons@.take(i + 1).drop_last() == moons@.take(i as int));
        }
        let moon = moons[i];
        let sole = match game.counts(moon.entity) {
            Some(counts) => counts.sole_owner(),
            None => {
                None
            },
        };
        match sole {
            Some(new_owner) => {
                if new_owner != moon.owner {
                    events.push(GameEvents::MoonConquered(moon.entity, new_owner));
                }
            },
            None => {},
        }
        i += 1;
    }
    proof {
        assert(moons@.take(i as int) == moons@);
    }
    events
}

/// A conquest is announced for a moon only if the ships around it all
/// belong to the new owner, there is at least one, and the moon is not
/// that owner's already.
pub proof fn lemma_conquest_sound(moon: MoonEntity, present: Multiset<OwnedBy>)
    ensures
        match conquest(moon, present) {
            Some(GameEvents::MoonConquered(entity, new_owner)) => {
                &&& entity == moon.entity
                &&& new_owner != moon.owner
                &&& present.len() > 0
                &&& present.count(new_owner) == present.len()
            },
            Some(_) => false,
            None => true,
        },
        present.len() == 0 ==> conquest(moon, present) is None,
        crate::counts::contested(present) ==> conquest(moon, present) is None,
        forall|owner: OwnedBy|
            crate::counts::is_sole(present, owner) && owner != moon.owner ==> conquest(
                moon,
                present,
            ) == Some(GameEvents::MoonConquered(moon.entity, owner)),
{
    crate::counts::lemma_empty_sole_or_contested(present);
}

/// Once a moon has taken the owner that a conquest names, the same ships
/// around it lead to no further conquest.
pub proof fn lemma_conquest_settles(moon: MoonEntity, present: Multiset<OwnedBy>)
    requires
        conquest(moon, present) is Some,
    ensures
        conquest(moon, present) matches Some(GameEvents::MoonConquered(_, new_owner)) && conquest(
            MoonEntity { owner: new_owner, ..moon },
            present,
        ) is None,
{
}

/// Whether the counts last taken make `moon` change hands.
pub open spec fn falls(moon: MoonEntity, game: Game) -> bool {
    conquest(moon, game.present(moon.entity)) is Some
}

/// Whether `event` is the conquest of one of `moons`.
pub open spec fn conquest_of_one(moons: Seq<MoonEntity>, game: Game, event: GameEvents) -> bool {
    exists|k: int|
        0 <= k < moons.len() && conquest(#[trigger] moons[k], game.present(moons[k].entity))
            == Some(event)
}

/// The resolver goes moon by moon: it announces one conquest for each moon
/// in the list that falls, none for any other, and each conquest that it
/// announces is that of a moon in the list.
pub proof fn lemma_conquests_per_moon(moons: Seq<MoonEntity>, game: Game)
    ensures
        conquests(moons, game).len() == moons.filter(|moon: MoonEntity| falls(moon, game)).len(),
        forall|k: int|
            0 <= k < moons.len() && falls(#[trigger] moons[k], game) ==> conquests(
                moons,
                game,
            ).contains(conquest(moons[k], game.present(moons[k].entity))->0),
        forall|i: int|
            0 <= i < conquests(moons, game).len() ==> conquest_of_one(
                moons,
                game,
                #[trigger] conquests(moons, game)[i],
            ),
    decreases moons.len(),
{
    reveal(Seq::filter);
    if moons.len() > 0 {
        let rest = moons.drop_last();
        lemma_conquests_per_moon(rest, game);
        let before = conquests(rest, game);
        let all = conquests(moons, game);
        assert forall|k: int|
            0 <= k < moons.len() && falls(#[trigger] moons[k], game) implies all.contains(
            conquest(moons[k], game.present(moons[k].entity))->0,
        ) by {
            let event = conquest(moons[k], game.present(moons[k].entity))->0;
            if k < rest.len() {
                assert(rest[k] == moons[k]);
                let j = choose|j: int| 0 <= j < before.len() && before[j] == event;
                assert(all[j] == event);
            } else {
                assert(all[all.len() - 1] == event);
            }
        }
    }
}

} // verus!
