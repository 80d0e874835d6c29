//! The waves of neutral ships that the planet sends against the moons.

use crate::chance::{draw_between, draw_place, happens};
use crate::config::{capped, Config};
use crate::game::MoonEntity;
use crate::owner::OwnedBy;
use crate::screen::{GameScreen, Screen};
use crate::space::{Motion, MoveTowards, Ship, ShipEntity, SHIP_SPEED};
use crate::timer::Timer;
use vstd::prelude::*;

verus! {

/// A ship about to enter play: all of it but the name of its entity.
#[derive(Clone, Copy, PartialEq, Eq, Debug, Structural)]
pub struct NewShip {
    pub owner: OwnedBy,
    pub ship: Ship,
    pub motion: Motion,
}

impl NewShip {
    /// The ship in play, as the entity `entity`.
    pub fn named(self, entity: u64) -> (ship: ShipEntity)
        ensures
            ship == (ShipEntity {
                entity,
                owner: self.owner,
                ship: self.ship,
                motion: self.motion,
            }),
    {
        ShipEntity { entity, owner: self.owner, ship: self.ship, motion: self.motion }
    }
}

/// The moons of `moons` that `owner` holds.
pub open spec fn held_by(moons: Seq<MoonEntity>, owner: OwnedBy) -> Seq<MoonEntity> {
    moons.filter(|moon: MoonEntity| moon.owner == owner)
}

/// Counts the moons that `owner` holds.
pub fn count_moons(moons: &Vec<MoonEntity>, owner: OwnedBy) -> (count: usize)
    ensures
        count == held_by(moons@, owner).len(),
        count <= moons.len(),
{
    let mut count: usize = 0;
    let mut i: usize = 0;
    while i < moons.len()
        invariant
            i <= moons.len(),
            count == held_by(moons@.take(i as int), owner).len(),
            count <= i,
        decreases moons.len() - i,
    {
        proof {
            reveal(Seq::filter);
            assert(moons@.take(i + 1).drop_last() == moons@.take(i as int));
        }
        if moons[i].owner == owner {
            count += 1;
        }
        i += 1;
    }
    proof {
        assert(moons@.take(i as int) == moons@);
    }
    count
}

/// A wave of neutral ships leaving a planet.
///
/// `budget` is what is left of the hit points to send; `min_health` and
/// `max_health` bound the draw of each ship's hit points, the second not
/// included.
#[derive(Clone, Copy, PartialEq, Eq, Debug, Structural)]
pub struct FleetWave {
    pub planet: u64,
    pub budget: i64,
    pub min_health: i32,
    pub max_health: i32,
}

/// Whether no moon is neutral any more: waves then come twice as likely,
/// and their ships are drawn from a higher range.
pub open spec fn ramped(moons: Seq<MoonEntity>) -> bool {
    held_by(moons, OwnedBy::Neutral).len() == 0
}

/// The bounds of the draw of a ship's hit points.
pub open spec fn health_bounds(ramped: bool) -> (i32, i32) {
    if ramped {
        (0i32, 4i32)
    } else {
        (-4i32, 2i32)
    }
}

/// The planet's readiness to send waves: the timer of the waves, the time
/// since the last one, and how many there have been.
#[derive(Clone, Copy, PartialEq, Eq, Debug, Structural)]
pub struct PlanetFleet {
    pub timer: Timer,
    pub last_happened: i64,
    pub iteration: u32,
}

/// A number cut to fit an `i32`.
pub open spec fn within_i32(n: int) -> int {
    if n < i32::MIN {
        i32::MIN as int
    } else if n > i32::MAX {
        i32::MAX as int
    } else {
        n
    }
}

/// A number cut to fit an `i64`.
pub open spec fn within_i64(n: int) -> int {
    if n < i64::MIN {
        i64::MIN as int
    } else if n > i64::MAX {
        i64::MAX as int
    } else {
        n
    }
}

/// The quotient of `n` by a positive `d`, rounded towards zero.
pub open spec fn quotient(n: int, d: int) -> int {
    if n >= 0 {
        n / d
    } else {
        -((-n) / d)
    }
}

/// How strong the next wave is: the configured chance, times the periods
/// gone by since the last wave plus the number of waves so far, over two
/// and a half; rounded towards zero and cut to fit an `i32`. A fleet whose
/// timer has no duration has no strength.
pub open spec fn intensity(fleet: PlanetFleet, config: Config) -> int {
    if fleet.timer.duration == 0 {
        0
    } else {
        within_i32(
            quotient(
                config.fleet_chance * (fleet.last_happened + fleet.iteration
                    * fleet.timer.duration),
                2500 * fleet.timer.duration,
            ),
        )
    }
}

/// The hit points that a wave sets out with: `intensity` for each moon of
/// the human player, less one, cut to fit an `i64`.
pub open spec fn wave_budget(intensity: int, player_moons: nat) -> int {
    within_i64(intensity * player_moons - 1)
}

/// The chance, in thousandths, that a wave leaves when its time has come:
/// the configured one, doubled once no moon is neutral.
pub open spec fn wave_chance(config: Config, moons: Seq<MoonEntity>) -> int {
    if ramped(moons) {
        2 * config.fleet_chance
    } else {
        config.fleet_chance as int
    }
}

/// The fleet after a step of `delta` milliseconds in which no wave leaves.
pub open spec fn waited(fleet: PlanetFleet, delta: u32) -> PlanetFleet {
    PlanetFleet {
        timer: fleet.timer.ticked(delta),
        last_happened: within_i64(fleet.last_happened + delta) as i64,
        ..fleet
    }
}

/// The wave that leaves `planet`.
pub open spec fn mustered(
    planet: u64,
    fleet: PlanetFleet,
    config: Config,
    moons: Seq<MoonEntity>,
) -> FleetWave {
    FleetWave {
        planet,
        budget: wave_budget(
            intensity(fleet, config),
            held_by(moons, OwnedBy::human()).len(),
        ) as i64,
        min_health: health_bounds(ramped(moons)).0,
        max_health: health_bounds(ramped(moons)).1,
    }
}

/// The fleet after a wave has left.
pub open spec fn relieved(fleet: PlanetFleet) -> PlanetFleet {
    PlanetFleet {
        last_happened: 0,
        iteration: if fleet.iteration == u32::MAX {
            u32::MAX
        } else {
            (fleet.iteration + 1) as u32
        },
        ..fleet
    }
}

/// Whether the next wave is to come with twice the usual chance.
pub fn is_ramped(moons: &Vec<MoonEntity>) -> (ramp: bool)
    ensures
        ramp == ramped(moons@),
{
    count_moons(moons, OwnedBy::Neutral) == 0
}

fn strength(fleet: &PlanetFleet, config: &Config) -> (strength: i32)
    ensures
        strength == intensity(*fleet, *config),
{
    let duration = fleet.timer.duration;
    if duration == 0 {
        return 0;
    }
    assert(0 <= fleet.iteration * duration <= 0xffff_ffff * 0xffff_ffff) by (nonlinear_arith)
        requires
            0 <= fleet.iteration <= 0xffff_ffff,
            0 <= duration <= 0xffff_ffff,
    ;
    let span: i128 = fleet.iteration as i128 * duration as i128;
    let total: i128 = fleet.last_happened as i128 + span;
    assert(-0xffff_ffff * 0x2_0000_0000_0000_0000 <= config.fleet_chance * total <= 0xffff_ffff
        * 0x2_0000_0000_0000_0000) by (nonlinear_arith)
        requires
            0 <= config.fleet_chance <= 0xffff_ffff,
            -0x2_0000_0000_0000_0000 <= total <= 0x2_0000_0000_0000_0000,
    ;
    let n: i128 = config.fleet_chance as i128 * total;
    let d: u128 = 2500 * duration as u128;
    if n >= 0 {
        let q: u128 = n as u128 / d;
        if q > i32::MAX as u128 {
            i32::MAX
        } else {
            q as i32
        }
    } else {
        let q: u128 = (-n) as u128 / d;
        if q > 0x8000_0000 {
            i32::MIN
        } else {
            (-(q as i64)) as i32
        }
    }
}

/// Sends off the wave whose time has come and whose draw has come out in
/// favour. Where the human player holds no moon at this point, the match
/// is lost. The fleet starts counting towards the next wave.
pub fn muster(
    planet: u64,
    fleet: &mut PlanetFleet,
    config: &Config,
    moons: &Vec<MoonEntity>,
    game_screen: &mut GameScreen,
) -> (wave: FleetWave)
    ensures
        wave == mustered(planet, *old(fleet), *config, moons@),
        wave.drawable(),
        *final(fleet) == relieved(*old(fleet)),
        final(game_screen).highscore == old(game_screen).highscore,
        final(game_screen).current_screen == if held_by(moons@, OwnedBy::human()).len() == 0 {
            Screen::Lost
        } else {
            old(game_screen).current_screen
        },
{
    let (min_health, max_health) = if is_ramped(moons) {
        (0, 4)
    } else {
        (-4, 2)
    };
    let player_moons = count_moons(moons, OwnedBy::Player(0));
    if player_moons == 0 {
        game_screen.current_screen = Screen::Lost;
    }
    let intensity = strength(fleet, config);
    assert(-0x8000_0000 * 0x1_0000_0000_0000_0000 <= intensity * player_moons <= 0x8000_0000
        * 0x1_0000_0000_0000_0000) by (nonlinear_arith)
        requires
            -0x8000_0000 <= intensity <= 0x8000_0000,
            0 <= player_moons <= 0x1_0000_0000_0000_0000,
    ;
    let exact: i128 = intensity as i128 * player_moons as i128 - 1;
    let budget: i64 = if exact < i64::MIN as i128 {
        i64::MIN
    } else if exact > i64::MAX as i128 {
        i64::MAX
    } else {
        exact as i64
    };
    fleet.last_happened = 0;
    if fleet.iteration < u32::MAX {
        fleet.iteration = fleet.iteration + 1;
    }
    FleetWave { planet, budget, min_health, max_health }
}

impl PlanetFleet {
    /// The fleet of a planet as a match begins: the first wave cannot come
    /// before the configured delay and one period are over.
    pub fn new(config: &Config) -> (fleet: PlanetFleet)
        ensures
            fleet == fresh(*config),
    {
        PlanetFleet {
            timer: Timer {
                duration: config.fleet_timer,
                elapsed: -(config.fleet_delay as i64),
                repeating: true,
                finished: false,
            },
            last_happened: -(config.fleet_delay as i64),
            iteration: 0,
        }
    }
}

/// The chance, in thousandths and no more than a thousand, that a wave
/// leaves when its time has come: the configured one, twice that once no
/// moon is neutral.
pub fn wave_odds(config: &Config, moons: &Vec<MoonEntity>) -> (odds: u32)
    ensures
        odds == capped(wave_chance(*config, moons@)),
{
    let chance: u64 = if is_ramped(moons) {
        2 * config.fleet_chance as u64
    } else {
        config.fleet_chance as u64
    };
    if chance > 1000 {
        1000
    } else {
        chance as u32
    }
}

/// Decides on the wave whose time has come, given how its draw has come
/// out. On a lucky draw the wave leaves, as `muster` sets it up; on any
/// other nothing changes.
pub fn wave_on(
    planet: u64,
    fleet: &mut PlanetFleet,
    config: &Config,
    moons: &Vec<MoonEntity>,
    game_screen: &mut GameScreen,
    lucky: bool,
) -> (wave: Option<FleetWave>)
    ensures
        wave is Some <==> lucky,
        !lucky ==> *final(fleet) == *old(fleet) && *final(game_screen) == *old(game_screen),
        lucky ==> {
            &&& wave == Some(mustered(planet, *old(fleet), *config, moons@))
            &&& wave->0.drawable()
            &&& *final(fleet) == relieved(*old(fleet))
            &&& final(game_screen).highscore == old(game_screen).highscore
            &&& final(game_screen).current_screen == if held_by(moons@, OwnedBy::human()).len()
                == 0 {
                Screen::Lost
            } else {
                old(game_screen).current_screen
            }
        },
{
    if lucky {
        Some(muster(planet, fleet, config, moons, game_screen))
    } else {
        None
    }
}

/// Moves the planet's fleet on by `delta` milliseconds. When the time of a
/// wave has come, it is drawn, with the odds that `wave_odds` gives,
/// whether the wave leaves; `wave_on` decides on the draw. Before its time
/// no wave leaves.
pub fn planet_defense(
    planet: u64,
    fleet: &mut PlanetFleet,
    delta: u32,
    config: &Config,
    moons: &Vec<MoonEntity>,
    game_screen: &mut GameScreen,
) -> (wave: Option<FleetWave>)
    ensures
        wave is Some ==> old(fleet).timer.fires(delta),
        old(fleet).timer.fires(delta) && capped(wave_chance(*config, moons@)) == 1000
            ==> wave is Some,
        capped(wave_chance(*config, moons@)) == 0 ==> wave is None,
        wave is None ==> *final(fleet) == waited(*old(fleet), delta) && *final(game_screen)
            == *old(game_screen),
        wave matches Some(sent) ==> {
            &&& sent == mustered(planet, waited(*old(fleet), delta), *config, moons@)
            &&& sent.drawable()
            &&& *final(fleet) == relieved(waited(*old(fleet), delta))
            &&& final(game_screen).highscore == old(game_screen).highscore
            &&& final(game_screen).current_screen == if held_by(moons@, OwnedBy::human()).len()
                == 0 {
                Screen::Lost
            } else {
                old(game_screen).current_screen
            }
        },
{
    let fired = fleet.timer.tick(delta);
    let later: i128 = fleet.last_happened as i128 + delta as i128;
    fleet.last_happened = if later > i64::MAX as i128 {
        i64::MAX
    } else {
        later as i64
    };
    if !fired {
        return None;
    }
    let lucky = happens(wave_odds(config, moons));
    wave_on(planet, fleet, config, moons, game_screen, lucky)
}

impl FleetWave {
    /// The hit points of a ship whose draw is `drawn`: the draw, but one at
    /// least, since a ship comes into play with a hit point to lose.
    pub open spec fn health(drawn: i32) -> i32 {
        if drawn < 1 {
            1
        } else {
            drawn
        }
    }

    /// The ship that leaves for `target` on a draw of `drawn`.
    pub open spec fn raider(self, drawn: i32, target: u64) -> NewShip {
        NewShip {
            owner: OwnedBy::Neutral,
            ship: Ship { hit_points: Self::health(drawn) },
            motion: Motion::Transit(
                MoveTowards { speed: SHIP_SPEED, towards: target, from: self.planet },
            ),
        }
    }

    /// Whether the draws of this wave have a range to come from.
    pub open spec fn drawable(self) -> bool {
        self.min_health < self.max_health
    }

    /// Sends the next ship of the wave, with the hit points drawn for it,
    /// against `target`. While hit points are left to send, a ship leaves
    /// and takes its own, one at least, from them; after that none does.
    pub fn next_ship(&mut self, drawn: i32, target: u64) -> (ship: Option<NewShip>)
        ensures
            old(self).budget > 0 ==> ship == Some(old(self).raider(drawn, target)) && *final(self)
                == (FleetWave {
                budget: (old(self).budget - Self::health(drawn)) as i64,
                ..*old(self)
            }),
            old(self).budget <= 0 ==> ship is None && *final(self) == *old(self),
            ship matches Some(sent) ==> sent.ship.hit_points >= 1 && final(self).budget < old(
                self,
            ).budget,
    {
        if self.budget <= 0 {
            return None;
        }
        let hit_points: i32 = if drawn < 1 {
            1
        } else {
            drawn
        };
        self.budget = self.budget - hit_points as i64;
        Some(
            NewShip {
                owner: OwnedBy::Neutral,
                ship: Ship { hit_points },
                motion: Motion::Transit(
                    MoveTowards { speed: SHIP_SPEED, towards: target, from: self.planet },
                ),
            },
        )
    }

    /// Sends the next ship of the wave against one of `moons`: its hit
    /// points are drawn within the wave's bounds, its target among the
    /// moons. Whatever is drawn, the ship is neutral, on its way from the
    /// planet to one of the moons, and has one hit point at least, which it
    /// takes from the budget. None leaves once the budget is used up, or
    /// where there is no moon to send it to; so a wave is over after as many
    /// ships, at most, as it has hit points to send.
    pub fn launch(&mut self, moons: &Vec<MoonEntity>) -> (ship: Option<NewShip>)
        requires
            old(self).drawable(),
        ensures
            ship is Some <==> old(self).budget > 0 && moons.len() > 0,
            ship is None ==> *final(self) == *old(self),
            ship matches Some(sent) ==> {
                &&& sent.ship.hit_points >= 1
                &&& final(self).budget == old(self).budget - sent.ship.hit_points
                &&& final(self).budget < old(self).budget
                &&& sent.owner == OwnedBy::Neutral
            },
            ship matches Some(sent) ==> exists|drawn: i32, k: int|
                {
                    &&& old(self).min_health <= drawn < old(self).max_health
                    &&& 0 <= k < moons.len()
                    &&& sent == #[trigger] old(self).raider(drawn, moons@[k].entity)
                    &&& *final(self) == (FleetWave {
                        budget: (old(self).budget - Self::health(drawn)) as i64,
                        ..*old(self)
                    })
                },
    {
        if self.budget <= 0 {
            return None;
        }
        match draw_place(moons.len()) {
            Some(place) => {
                let drawn = draw_between(self.min_health, self.max_health);
                self.next_ship(drawn, moons[place].entity)
            },
            None => None,
        }
    }
}

/// The fleet of a planet as a match begins.
pub open spec fn fresh(config: Config) -> PlanetFleet {
    PlanetFleet {
        timer: Timer {
            duration: config.fleet_timer,
            elapsed: (-config.fleet_delay) as i64,
            repeating: true,
            finished: false,
        },
        last_happened: (-config.fleet_delay) as i64,
        iteration: 0,
    }
}

/// Taken in one step, the time of the first wave has come exactly when the
/// configured delay and one period are over.
pub proof fn lemma_grace_period(config: Config, step: u32)
    ensures
        fresh(config).timer.fires(step) <==> step >= config.fleet_delay + config.fleet_timer,
{
}

/// The time that `steps` take together, in milliseconds.
pub open spec fn time_of(steps: Seq<u32>) -> int
    decreases steps.len(),
{
    if steps.len() == 0 {
        0
    } else {
        time_of(steps.drop_last()) + steps.last()
    }
}

/// The fleet after `steps`, one after the other, in none of which a wave
/// leaves.
pub open spec fn waited_through(fleet: PlanetFleet, steps: Seq<u32>) -> PlanetFleet
    decreases steps.len(),
{
    if steps.len() == 0 {
        fleet
    } else {
        waited(waited_through(fleet, steps.drop_last()), steps.last())
    }
}

/// However the time is cut into steps: as long as the steps together take
/// less than the configured delay and one period, the time of a wave comes
/// in none of them, and the fleet has only counted the time.
pub proof fn lemma_no_wave_in_grace(config: Config, steps: Seq<u32>)
    requires
        time_of(steps) < config.fleet_delay + config.fleet_timer,
    ensures
        time_of(steps) >= 0,
        waited_through(fresh(config), steps) == (PlanetFleet {
            timer: Timer {
                elapsed: (time_of(steps) - config.fleet_delay) as i64,
                ..fresh(config).timer
            },
            last_happened: (time_of(steps) - config.fleet_delay) as i64,
            iteration: 0,
        }),
        forall|k: int|
            0 <= k < steps.len() ==> !(#[trigger] waited_through(
                fresh(config),
                steps.take(k),
            )).timer.fires(steps[k]),
    decreases steps.len(),
{
    if steps.len() > 0 {
        let before = steps.drop_last();
        lemma_no_wave_in_grace(config, before);
        assert forall|k: int| 0 <= k < steps.len() implies !(#[trigger] waited_through(
            fresh(config),
            steps.take(k),
        )).timer.fires(steps[k]) by {
            if k < before.len() {
                assert(steps.take(k) == before.take(k));
            }
        }
    }
}

/// A wave has hit points to send exactly where its intensity and the number
/// of the player's moons are both positive and their product exceeds one;
/// a player without a moon faces an empty wave.
pub proof fn lemma_wave_budget(intensity: int, player_moons: nat, ramp: bool)
    ensures
        health_bounds(ramp).0 < health_bounds(ramp).1,
        wave_budget(intensity, player_moons) > 0 <==> intensity * player_moons > 1,
        player_moons == 0 ==> wave_budget(intensity, player_moons) == -1,
{
}

} // verus!
