use wotm::config::Config;
use wotm::fleet::{
    count_moons, is_ramped, muster, planet_defense, wave_odds, wave_on, FleetWave, NewShip,
    PlanetFleet,
};
use wotm::game::{Moon, MoonEntity};
use wotm::owner::OwnedBy;
use wotm::screen::{GameScreen, Screen};
use wotm::space::{
    Motion, MoveTowards, Orbiter, RotationDirection, Ship, ShipEntity, SpawnShipType,
};
use wotm::timer::Timer;

const PLANET: u64 = 1;

fn moon(entity: u64, owner: OwnedBy) -> MoonEntity {
    MoonEntity {
        entity,
        owner,
        moon: Moon { index: 1, planet: PLANET },
        spawn: SpawnShipType::for_owner(owner).to_components(RotationDirection::Clockwise),
    }
}

fn moons(owners: &[OwnedBy]) -> Vec<MoonEntity> {
    owners.iter().enumerate().map(|(i, owner)| moon(2 + i as u64, *owner)).collect()
}

fn playing() -> GameScreen {
    GameScreen { current_screen: Screen::Game, highscore: 3 }
}

#[test]
fn moons_are_counted_by_owner() {
    let moons = moons(&[OwnedBy::Player(0), OwnedBy::Neutral, OwnedBy::Player(0)]);
    assert_eq!(count_moons(&moons, OwnedBy::Player(0)), 2);
    assert_eq!(count_moons(&moons, OwnedBy::Neutral), 1);
    assert_eq!(count_moons(&moons, OwnedBy::Player(1)), 0);
    assert_eq!(count_moons(&vec![], OwnedBy::Neutral), 0);
}

#[test]
fn waves_ramp_up_once_no_moon_is_neutral() {
    assert!(!is_ramped(&moons(&[OwnedBy::Player(0), OwnedBy::Neutral])));
    assert!(is_ramped(&moons(&[OwnedBy::Player(0), OwnedBy::Player(0)])));
    assert!(is_ramped(&moons(&[OwnedBy::Player(0), OwnedBy::Player(1)])));
}

fn fleet(last_happened: i64, iteration: u32) -> PlanetFleet {
    PlanetFleet {
        timer: Timer { duration: 1000, elapsed: 0, repeating: true, finished: true },
        last_happened,
        iteration,
    }
}

#[test]
fn a_fleet_waits_out_its_delay_before_the_first_wave() {
    let fleet = PlanetFleet::new(&Config::default());
    assert_eq!(
        fleet,
        PlanetFleet {
            timer: Timer { duration: 1000, elapsed: -15000, repeating: true, finished: false },
            last_happened: -15000,
            iteration: 0,
        }
    );
}

#[test]
fn a_wave_has_its_intensity_for_each_moon_of_the_player_less_one() {
    let mut screen = playing();
    let mut state = fleet(50_000, 0);
    let wave = muster(
        PLANET,
        &mut state,
        &Config::default(),
        &moons(&[OwnedBy::Player(0), OwnedBy::Neutral, OwnedBy::Player(0)]),
        &mut screen,
    );
    assert_eq!(wave, FleetWave { planet: PLANET, budget: 7, min_health: -4, max_health: 2 });
    assert_eq!(screen, playing());
    assert_eq!(state, fleet(0, 1));
}

#[test]
fn the_intensity_of_a_wave_grows_with_time_and_with_the_waves_sent() {
    let targets = moons(&[OwnedBy::Player(0), OwnedBy::Neutral]);
    for (last_happened, iteration, budget) in [
        (0, 0, -1),
        (12_499, 0, -1),
        (12_500, 0, 0),
        (24_999, 0, 0),
        (25_000, 0, 1),
        (1_000, 12, 0),
        (500, 12, 0),
        (499, 12, -1),
        (1_000, 24, 1),
        (16_000, 0, 0),
        (-30_000, 0, -3),
        (-12_499, 0, -1),
    ] {
        let mut screen = playing();
        let mut state = fleet(last_happened, iteration);
        let wave = muster(PLANET, &mut state, &Config::default(), &targets, &mut screen);
        assert_eq!(wave.budget, budget);
        assert_eq!(state, fleet(0, iteration + 1));
    }
}

#[test]
fn a_wave_is_stronger_once_no_moon_is_neutral() {
    let mut screen = playing();
    let wave = muster(
        PLANET,
        &mut fleet(12_500, 0),
        &Config::default(),
        &moons(&[OwnedBy::Player(0), OwnedBy::Player(0), OwnedBy::Player(0)]),
        &mut screen,
    );
    assert_eq!(wave, FleetWave { planet: PLANET, budget: 2, min_health: 0, max_health: 4 });
}

#[test]
fn a_player_without_a_moon_has_lost() {
    let mut screen = playing();
    let wave = muster(
        PLANET,
        &mut fleet(500_000, 3),
        &Config::default(),
        &moons(&[OwnedBy::Neutral, OwnedBy::Neutral]),
        &mut screen,
    );
    assert_eq!(screen, GameScreen { current_screen: Screen::Lost, highscore: 3 });
    assert_eq!(wave.budget, -1);
    let mut wave = wave;
    assert_eq!(wave.next_ship(1, 2), None);
    assert_eq!(wave.launch(&moons(&[OwnedBy::Neutral])), None);
}

#[test]
fn a_wave_of_no_intensity_sends_nothing() {
    let mut screen = playing();
    let targets = moons(&[OwnedBy::Player(0)]);
    let mut wave = muster(PLANET, &mut fleet(1_000, 0), &Config::default(), &targets, &mut screen);
    assert_eq!(wave.budget, -1);
    assert_eq!(wave.launch(&targets), None);
    let mut wave = muster(PLANET, &mut fleet(12_500, 0), &Config::default(), &targets, &mut screen);
    assert_eq!(wave.budget, 0);
    assert_eq!(wave.launch(&targets), None);
    assert_eq!(screen, playing());
}

#[test]
fn a_fleet_without_a_period_has_no_strength() {
    let mut screen = playing();
    let mut state = PlanetFleet {
        timer: Timer { duration: 0, elapsed: 0, repeating: true, finished: true },
        last_happened: 90_000,
        iteration: 9,
    };
    let wave =
        muster(PLANET, &mut state, &Config::default(), &moons(&[OwnedBy::Player(0)]), &mut screen);
    assert_eq!(wave.budget, -1);
}

#[test]
fn the_budget_of_a_wave_stays_within_bounds() {
    let mut screen = playing();
    let config = Config { fleet_chance: u32::MAX, ..Config::default() };
    let mut state = PlanetFleet {
        timer: Timer { duration: 1, elapsed: 0, repeating: true, finished: true },
        last_happened: i64::MAX,
        iteration: u32::MAX,
    };
    let wave = muster(PLANET, &mut state, &config, &moons(&[OwnedBy::Player(0)]), &mut screen);
    assert_eq!(wave.budget, 2_147_483_646);
    assert_eq!(state.iteration, u32::MAX);
    assert_eq!(state.last_happened, 0);
    let mut state = PlanetFleet {
        timer: Timer { duration: 1, elapsed: 0, repeating: true, finished: true },
        last_happened: i64::MIN,
        iteration: 0,
    };
    let wave = muster(PLANET, &mut state, &config, &moons(&[OwnedBy::Player(0)]), &mut screen);
    assert_eq!(wave.budget, -2_147_483_649);
}

#[test]
fn no_wave_leaves_before_its_time() {
    let config = Config { fleet_chance: 1000, ..Config::default() };
    let targets = moons(&[OwnedBy::Player(0), OwnedBy::Neutral]);
    let mut state = PlanetFleet::new(&config);
    let mut screen = playing();
    assert_eq!(planet_defense(PLANET, &mut state, 15_999, &config, &targets, &mut screen), None);
    assert_eq!(
        state,
        PlanetFleet {
            timer: Timer { duration: 1000, elapsed: 999, repeating: true, finished: false },
            last_happened: 999,
            iteration: 0,
        }
    );
    let wave = planet_defense(PLANET, &mut state, 1, &config, &targets, &mut screen);
    assert_eq!(
        wave,
        Some(FleetWave { planet: PLANET, budget: -1, min_health: -4, max_health: 2 })
    );
    assert_eq!(
        state,
        PlanetFleet {
            timer: Timer { duration: 1000, elapsed: 0, repeating: true, finished: true },
            last_happened: 0,
            iteration: 1,
        }
    );
    assert_eq!(screen, playing());
}

#[test]
fn a_wave_without_a_chance_never_leaves() {
    let config = Config { fleet_chance: 0, ..Config::default() };
    let targets = moons(&[OwnedBy::Player(0)]);
    let mut state = PlanetFleet::new(&config);
    let mut screen = playing();
    for step in 1..200 {
        assert_eq!(planet_defense(PLANET, &mut state, 500, &config, &targets, &mut screen), None);
        assert_eq!(state.last_happened, -15_000 + 500 * step);
        assert_eq!(state.iteration, 0);
    }
    assert_eq!(screen, playing());
}

#[test]
fn the_chance_of_a_wave_doubles_once_no_moon_is_neutral() {
    let config = Config { fleet_chance: 500, fleet_delay: 0, ..Config::default() };
    let ramped = moons(&[OwnedBy::Player(0), OwnedBy::Player(1)]);
    for _ in 0..50 {
        let mut state = PlanetFleet::new(&config);
        let mut screen = playing();
        assert!(planet_defense(PLANET, &mut state, 1000, &config, &ramped, &mut screen).is_some());
    }
    let calm = moons(&[OwnedBy::Player(0), OwnedBy::Neutral]);
    let mut left = 0;
    for _ in 0..400 {
        let mut state = PlanetFleet::new(&config);
        let mut screen = playing();
        if planet_defense(PLANET, &mut state, 1000, &config, &calm, &mut screen).is_some() {
            left += 1;
        }
    }
    assert!(left > 0);
    assert!(left < 400);
}

#[test]
fn a_wave_that_leaves_a_player_without_a_moon_ends_the_match() {
    let config = Config { fleet_chance: 1000, fleet_delay: 0, ..Config::default() };
    let targets = moons(&[OwnedBy::Neutral, OwnedBy::Player(1)]);
    let mut state = PlanetFleet::new(&config);
    let mut screen = playing();
    assert_eq!(planet_defense(PLANET, &mut state, 999, &config, &targets, &mut screen), None);
    assert_eq!(screen, playing());
    assert!(planet_defense(PLANET, &mut state, 1, &config, &targets, &mut screen).is_some());
    assert_eq!(screen.current_screen, Screen::Lost);
}

#[test]
fn each_ship_takes_its_hit_points_from_the_budget() {
    let mut wave = FleetWave { planet: PLANET, budget: 3, min_health: -4, max_health: 2 };
    assert_eq!(
        wave.next_ship(1, 7),
        Some(NewShip {
            owner: OwnedBy::Neutral,
            ship: Ship { hit_points: 1 },
            motion: Motion::Transit(MoveTowards { speed: 2000, towards: 7, from: PLANET }),
        })
    );
    assert_eq!(wave.budget, 2);
    assert_eq!(
        wave.next_ship(-3, 8),
        Some(NewShip {
            owner: OwnedBy::Neutral,
            ship: Ship { hit_points: 1 },
            motion: Motion::Transit(MoveTowards { speed: 2000, towards: 8, from: PLANET }),
        })
    );
    assert_eq!(wave.budget, 1);
    assert!(wave.next_ship(2, 7).is_some());
    assert_eq!(wave.budget, -1);
    assert_eq!(wave.next_ship(1, 7), None);
    assert_eq!(wave, FleetWave { planet: PLANET, budget: -1, min_health: -4, max_health: 2 });
}

#[test]
fn a_launched_wave_runs_out_and_stays_within_its_rules() {
    let targets = moons(&[OwnedBy::Player(0), OwnedBy::Neutral, OwnedBy::Player(0)]);
    let mut screen = playing();
    let mut wave = muster(PLANET, &mut fleet(375_000, 0), &Config::default(), &targets, &mut screen);
    assert_eq!(wave.budget, 59);
    let mut sent = 0;
    let mut launched = 0;
    let mut seen = vec![];
    while let Some(ship) = wave.launch(&targets) {
        assert_eq!(ship.owner, OwnedBy::Neutral);
        assert_eq!(ship.ship.hit_points, 1);
        match ship.motion {
            Motion::Transit(MoveTowards { speed, towards, from }) => {
                assert_eq!(speed, 2000);
                assert_eq!(from, PLANET);
                assert!(targets.iter().any(|moon| moon.entity == towards));
                if !seen.contains(&towards) {
                    seen.push(towards);
                }
            }
            Motion::Orbit(_) => panic!("a ship of a wave is on its way"),
        }
        sent += ship.ship.hit_points as i64;
        launched += 1;
        assert_eq!(wave.budget, 59 - sent);
        assert!(launched <= 59);
    }
    assert_eq!(sent, 59);
    assert_eq!(wave.budget, 0);
    assert_eq!(launched, 59);
    assert!(seen.len() > 1);
}

#[test]
fn a_ramped_wave_draws_from_one_to_three_hit_points() {
    let targets = moons(&[OwnedBy::Player(0)]);
    let mut wave = FleetWave { planet: PLANET, budget: 3000, min_health: 0, max_health: 4 };
    let mut seen = [false; 4];
    while let Some(ship) = wave.launch(&targets) {
        assert!((1..4).contains(&ship.ship.hit_points));
        seen[ship.ship.hit_points as usize] = true;
    }
    assert!(wave.budget <= 0);
    assert!(wave.budget > -3);
    assert_eq!(seen, [false, true, true, true]);
}

#[test]
fn a_wave_without_a_moon_to_go_to_sends_nothing() {
    let mut wave = FleetWave { planet: PLANET, budget: 5, min_health: 0, max_health: 4 };
    assert_eq!(wave.launch(&vec![]), None);
    assert_eq!(wave.budget, 5);
}

#[test]
fn a_new_ship_takes_the_name_of_its_entity() {
    let new = NewShip {
        owner: OwnedBy::Player(0),
        ship: Ship { hit_points: 2 },
        motion: Motion::Orbit(Orbiter::every_with_offset(700_000, 2, RotationDirection::Clockwise, 5000, 0)),
    };
    assert_eq!(
        new.named(44),
        ShipEntity {
            entity: 44,
            owner: OwnedBy::Player(0),
            ship: Ship { hit_points: 2 },
            motion: Motion::Orbit(Orbiter::every_with_offset(700_000, 2, RotationDirection::Clockwise, 5000, 0)),
        }
    );
}

#[test]
fn every_ship_of_a_wave_has_a_hit_point_to_lose() {
    for drawn in [i32::MIN, -4, -1, 0, 1] {
        let mut wave = FleetWave { planet: PLANET, budget: 5, min_health: -4, max_health: 2 };
        let ship = wave.next_ship(drawn, 7).unwrap();
        assert_eq!(ship.ship.hit_points, 1);
        assert_eq!(wave.budget, 4);
    }
    let mut wave = FleetWave { planet: PLANET, budget: 5, min_health: 0, max_health: 4 };
    assert_eq!(wave.next_ship(3, 7).unwrap().ship.hit_points, 3);
    assert_eq!(wave.budget, 2);
    let mut wave = FleetWave { planet: PLANET, budget: 1, min_health: 0, max_health: 4 };
    assert_eq!(wave.next_ship(i32::MAX, 7).unwrap().ship.hit_points, i32::MAX);
    assert_eq!(wave.budget, 1 - i32::MAX as i64);
}

#[test]
fn a_wave_is_over_after_as_many_ships_as_it_has_hit_points() {
    let targets = moons(&[OwnedBy::Player(0), OwnedBy::Neutral]);
    for budget in [1i64, 2, 17] {
        let mut wave = FleetWave { planet: PLANET, budget, min_health: -4, max_health: 2 };
        let mut launched = 0;
        while wave.launch(&targets).is_some() {
            launched += 1;
            assert!(launched <= budget);
        }
        assert_eq!(launched, budget);
    }
}

#[test]
fn the_odds_of_a_wave_are_the_chance_doubled_once_no_moon_is_neutral() {
    let calm = moons(&[OwnedBy::Player(0), OwnedBy::Neutral]);
    let ramped = moons(&[OwnedBy::Player(0), OwnedBy::Player(1)]);
    assert_eq!(wave_odds(&Config::default(), &calm), 200);
    assert_eq!(wave_odds(&Config::default(), &ramped), 400);
    let config = Config { fleet_chance: 500, ..Config::default() };
    assert_eq!(wave_odds(&config, &calm), 500);
    assert_eq!(wave_odds(&config, &ramped), 1000);
    let config = Config { fleet_chance: 501, ..Config::default() };
    assert_eq!(wave_odds(&config, &ramped), 1000);
    let config = Config { fleet_chance: u32::MAX, ..Config::default() };
    assert_eq!(wave_odds(&config, &calm), 1000);
    assert_eq!(wave_odds(&config, &ramped), 1000);
    let config = Config { fleet_chance: 0, ..Config::default() };
    assert_eq!(wave_odds(&config, &ramped), 0);
    assert_eq!(wave_odds(&Config::default(), &vec![]), 400);
}

#[test]
fn a_lucky_draw_sends_the_wave_and_any_other_changes_nothing() {
    let targets = moons(&[OwnedBy::Player(0), OwnedBy::Neutral, OwnedBy::Player(0)]);
    let mut state = fleet(50_000, 2);
    let mut screen = playing();
    assert_eq!(
        wave_on(PLANET, &mut state, &Config::default(), &targets, &mut screen, false),
        None
    );
    assert_eq!(state, fleet(50_000, 2));
    assert_eq!(screen, playing());
    assert_eq!(
        wave_on(PLANET, &mut state, &Config::default(), &targets, &mut screen, true),
        Some(FleetWave { planet: PLANET, budget: 7, min_health: -4, max_health: 2 })
    );
    assert_eq!(state, fleet(0, 3));
    assert_eq!(screen, playing());
    let nobody = moons(&[OwnedBy::Neutral]);
    assert!(wave_on(PLANET, &mut state, &Config::default(), &nobody, &mut screen, true).is_some());
    assert_eq!(screen.current_screen, Screen::Lost);
}

#[test]
fn a_wave_leaves_at_the_default_odds_sooner_or_later() {
    let config = Config { fleet_delay: 0, ..Config::default() };
    let targets = moons(&[OwnedBy::Player(0), OwnedBy::Neutral]);
    let mut state = PlanetFleet::new(&config);
    let mut screen = playing();
    let mut waves = 0;
    let mut times = 0;
    for _ in 0..400 {
        times += 1;
        if planet_defense(PLANET, &mut state, 1000, &config, &targets, &mut screen).is_some() {
            waves += 1;
        }
    }
    assert_eq!(times, 400);
    assert!(waves > 0);
    assert!(waves < 400);
    assert_eq!(state.iteration, waves);
}

#[test]
fn no_wave_leaves_within_the_grace_period_however_the_time_is_cut() {
    let config = Config { fleet_chance: 1000, ..Config::default() };
    let targets = moons(&[OwnedBy::Player(0)]);
    for step in [1u32, 7, 250, 999, 15_999] {
        let mut state = PlanetFleet::new(&config);
        let mut screen = playing();
        let mut elapsed = 0;
        while elapsed + step < 16_000 {
            assert_eq!(planet_defense(PLANET, &mut state, step, &config, &targets, &mut screen), None);
            elapsed += step;
        }
        let rest = 16_000 - elapsed;
        assert!(planet_defense(PLANET, &mut state, rest, &config, &targets, &mut screen).is_some());
    }
}
