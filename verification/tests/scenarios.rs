use wotm::combat::{object_collision, ship_collision, ContactEvent, Proximity, ProximityEvent};
use wotm::events::{game_events, Effect};
use wotm::game::{change_owner, ship_count, Game, GameEvents, Moon, MoonEntity};
use wotm::orders::{move_towards, orders};
use wotm::owner::OwnedBy;
use wotm::ratio::Ratio;
use wotm::screen::{GameScreen, Screen};
use wotm::selection::{interaction, InteractionEvent};
use wotm::space::{Motion, Orbiter, RotationDirection, Ship, ShipEntity, SpawnShipType};

const PLANET: u64 = 1;
const HOME: u64 = 2;
const MOON_M: u64 = 3;
const THIRD: u64 = 4;

fn orbiting(entity: u64, owner: OwnedBy, around: u64) -> ShipEntity {
    ShipEntity {
        entity,
        owner,
        ship: Ship { hit_points: 2 },
        motion: Motion::Orbit(Orbiter::every_with_offset(700_000, around, RotationDirection::Clockwise, 5000, 0)),
    }
}

fn moon(entity: u64, index: i32, owner: OwnedBy) -> MoonEntity {
    MoonEntity {
        entity,
        owner,
        moon: Moon { index, planet: PLANET },
        spawn: SpawnShipType::for_owner(owner).to_components(RotationDirection::Clockwise),
    }
}

fn playing() -> GameScreen {
    GameScreen { current_screen: Screen::Game, highscore: 0 }
}

#[test]
fn three_ships_sent_to_an_empty_neutral_moon_conquer_it() {
    let bodies = vec![HOME, MOON_M, PLANET];
    let mut ships = vec![
        orbiting(10, OwnedBy::Player(0), HOME),
        orbiting(11, OwnedBy::Player(0), HOME),
        orbiting(12, OwnedBy::Player(0), HOME),
    ];
    let mut moons = vec![moon(HOME, 1, OwnedBy::Player(0)), moon(MOON_M, 2, OwnedBy::Neutral)];
    let mut screen = playing();
    let mut game = Game::default();

    ship_count(&mut game, &bodies, &ships);
    assert_eq!(game.counts(MOON_M).unwrap().total(), 0);
    assert_eq!(change_owner(&moons, &game), vec![]);

    interaction(&mut game, InteractionEvent::Clicked(Some(HOME)));
    interaction(&mut game, InteractionEvent::Hovered(Some(MOON_M)));
    game.ratio = Ratio::All;
    orders(&game, OwnedBy::Player(0), &mut ships);
    assert!(ships.iter().all(|ship| !ship.motion.is_orbiting(HOME)));

    ship_count(&mut game, &bodies, &ships);
    assert_eq!(game.counts(HOME).unwrap().total(), 0);
    assert_eq!(game.counts(MOON_M).unwrap().total(), 0);
    assert_eq!(change_owner(&moons, &game), vec![]);

    for ship in ships.iter_mut() {
        assert!(!move_towards(ship, &moons, 12_000, 0));
        assert!(matches!(ship.motion, Motion::Transit(_)));
    }
    for ship in ships.iter_mut() {
        assert!(move_towards(ship, &moons, 4_900, 0));
        assert!(ship.motion.is_orbiting(MOON_M));
        assert!(!matches!(ship.motion, Motion::Transit(_)));
    }

    ship_count(&mut game, &bodies, &ships);
    assert_eq!(game.counts(MOON_M).unwrap().get(OwnedBy::Player(0)), 3);
    let events = change_owner(&moons, &game);
    assert_eq!(events, vec![GameEvents::MoonConquered(MOON_M, OwnedBy::Player(0))]);

    let effects = game_events(
        &events,
        &mut ships,
        &mut moons,
        &vec![PLANET],
        &mut vec![],
        &mut screen,
    );
    assert_eq!(effects, vec![]);
    assert_eq!(moons[1].owner, OwnedBy::Player(0));
    assert_eq!(moons[1].spawn.every.duration, 5000);
    assert_eq!(moons[0].owner, OwnedBy::Player(0));
    assert_eq!(screen, playing());

    ship_count(&mut game, &bodies, &ships);
    assert_eq!(change_owner(&moons, &game), vec![]);
}

#[test]
fn a_ship_that_reaches_the_planet_with_all_moons_held_wins() {
    let mut ships = vec![orbiting(10, OwnedBy::Player(0), HOME)];
    let mut moons = vec![
        moon(HOME, 1, OwnedBy::Player(0)),
        moon(MOON_M, 2, OwnedBy::Player(0)),
        moon(THIRD, 3, OwnedBy::Player(0)),
    ];
    let mut screen = playing();
    let events = object_collision(
        &vec![ProximityEvent {
            collider1: 10,
            collider2: PLANET,
            new_status: Proximity::Intersecting,
        }],
        &ships,
        &moons,
        &vec![PLANET],
        &vec![],
    );
    assert_eq!(events, vec![GameEvents::PlanetConquered(PLANET)]);
    assert!(!events.iter().any(|event| matches!(event, GameEvents::ShipDamaged(_, _))));
    let effects = game_events(
        &events,
        &mut ships,
        &mut moons,
        &vec![PLANET],
        &mut vec![],
        &mut screen,
    );
    assert_eq!(effects, vec![]);
    assert_eq!(screen.current_screen, Screen::Win);
    assert_eq!(ships, vec![orbiting(10, OwnedBy::Player(0), HOME)]);
}

#[test]
fn a_ship_that_reaches_the_planet_with_a_neutral_moon_left_is_destroyed() {
    let mut ships = vec![orbiting(10, OwnedBy::Player(0), HOME)];
    let mut moons = vec![
        moon(HOME, 1, OwnedBy::Player(0)),
        moon(MOON_M, 2, OwnedBy::Neutral),
        moon(THIRD, 3, OwnedBy::Player(0)),
    ];
    let mut screen = playing();
    let events = object_collision(
        &vec![ProximityEvent {
            collider1: 10,
            collider2: PLANET,
            new_status: Proximity::Intersecting,
        }],
        &ships,
        &moons,
        &vec![PLANET],
        &vec![],
    );
    assert_eq!(
        events,
        vec![GameEvents::ShipDamaged(10, 500), GameEvents::PlanetShield(PLANET)]
    );
    let effects = game_events(
        &events,
        &mut ships,
        &mut moons,
        &vec![PLANET],
        &mut vec![],
        &mut screen,
    );
    assert_eq!(effects, vec![Effect::Explosion(10), Effect::Shield(PLANET)]);
    assert_eq!(ships, vec![]);
    assert_eq!(screen, playing());
}

#[test]
fn four_presses_on_the_selected_body_bring_the_ratio_round() {
    let mut game = Game::default();
    interaction(&mut game, InteractionEvent::Clicked(Some(HOME)));
    assert_eq!(game.ratio, Ratio::ThreeQuarter);
    let mut seen = vec![];
    for _ in 0..4 {
        interaction(&mut game, InteractionEvent::Clicked(Some(HOME)));
        seen.push(game.ratio);
    }
    assert_eq!(seen, vec![Ratio::Half, Ratio::OneQuarter, Ratio::All, Ratio::ThreeQuarter]);
    assert_eq!(game.selected, Some(HOME));
}

#[test]
fn a_fight_around_a_moon_ends_with_one_side_alone() {
    let bodies = vec![MOON_M];
    let mut ships = vec![
        orbiting(10, OwnedBy::Player(0), MOON_M),
        orbiting(11, OwnedBy::Player(0), MOON_M),
        orbiting(20, OwnedBy::Neutral, MOON_M),
    ];
    let mut moons = vec![moon(MOON_M, 1, OwnedBy::Neutral)];
    let mut screen = playing();
    let mut game = Game::default();

    ship_count(&mut game, &bodies, &ships);
    assert!(game.counts(MOON_M).unwrap().is_contested());
    assert_eq!(change_owner(&moons, &game), vec![]);

    let hits = ship_collision(&vec![ContactEvent::Started(10, 20)], &ships);
    game_events(&hits, &mut ships, &mut moons, &vec![PLANET], &mut vec![], &mut screen);
    assert_eq!(ships.iter().map(|ship| ship.ship.hit_points).collect::<Vec<_>>(), vec![1, 2, 1]);

    let hits = ship_collision(&vec![ContactEvent::Started(20, 11)], &ships);
    let effects = game_events(
        &hits,
        &mut ships,
        &mut moons,
        &vec![PLANET],
        &mut vec![],
        &mut screen,
    );
    assert_eq!(effects, vec![Effect::Explosion(20)]);
    assert_eq!(ships.iter().map(|ship| ship.entity).collect::<Vec<_>>(), vec![10, 11]);

    ship_count(&mut game, &bodies, &ships);
    let events = change_owner(&moons, &game);
    assert_eq!(events, vec![GameEvents::MoonConquered(MOON_M, OwnedBy::Player(0))]);
    game_events(&events, &mut ships, &mut moons, &vec![PLANET], &mut vec![], &mut screen);
    assert_eq!(moons[0].owner, OwnedBy::Player(0));
}
