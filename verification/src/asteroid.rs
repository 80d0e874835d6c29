//! The asteroids that cross the field.

use crate::chance::{draw_between, happens};
use crate::config::Config;
use crate::game::Game;
use crate::timer::Timer;
use vstd::multiset::*;
use vstd::prelude::*;

verus! {

/// The edge of the field by which an asteroid comes in.
#[derive(Clone, Copy, PartialEq, Eq, Debug, Structural)]
pub enum Edge {
    Left,
    Right,
    Bottom,
    Top,
}

/// Half the width of the field.
pub const HALF_WIDTH: i32 = 700;

/// Half the height of the field.
pub const HALF_HEIGHT: i32 = 400;

/// The edge that goes with a draw: 0 the left one, 1 the right one, 2 the
/// bottom, anything else the top.
pub open spec fn edge_of(drawn: i32) -> Edge {
    if drawn == 0 {
        Edge::Left
    } else if drawn == 1 {
        Edge::Right
    } else if drawn == 2 {
        Edge::Bottom
    } else {
        Edge::Top
    }
}

/// The edge that goes with a draw.
pub fn entry_edge(drawn: i32) -> (edge: Edge)
    ensures
        edge == edge_of(drawn),
{
    match drawn {
        0 => Edge::Left,
        1 => Edge::Right,
        2 => Edge::Bottom,
        _ => Edge::Top,
    }
}

/// Whether an asteroid that comes in by `edge` can start at the point
/// `x`, `y`, in hundredths: the point is on that edge of the field.
pub open spec fn starts_on(edge: Edge, x: i32, y: i32) -> bool {
    match edge {
        Edge::Left => x == -70000 && -40000 <= y < 40000,
        Edge::Right => x == 70000 && -40000 <= y < 40000,
        Edge::Bottom => -70000 <= x < 70000 && y == -40000,
        Edge::Top => -70000 <= x < 70000 && y == 40000,
    }
}

impl Edge {
    /// The point of this edge that is `along` hundredths along it from the
    /// middle.
    pub fn start(&self, along: i32) -> (point: (i32, i32))
        ensures
            point == match *self {
                Edge::Left => (-70000i32, along),
                Edge::Right => (70000i32, along),
                Edge::Bottom => (along, -40000i32),
                Edge::Top => (along, 40000i32),
            },
    {
        let w = HALF_WIDTH * 100;
        let h = HALF_HEIGHT * 100;
        match self {
            Edge::Left => (-w, along),
            Edge::Right => (w, along),
            Edge::Bottom => (along, -h),
            Edge::Top => (along, h),
        }
    }
}

/// Whether `k` is the place, in `bodies`, of the body that an asteroid aims
/// at: no body has more ships around it, and none after it has as many.
pub open spec fn most_crowded_at(game: Game, bodies: Seq<u64>, k: int) -> bool {
    &&& 0 <= k < bodies.len()
    &&& forall|j: int|
        0 <= j < bodies.len() ==> game.present(#[trigger] bodies[j]).len() <= game.present(
            bodies[k],
        ).len()
    &&& forall|j: int|
        k < j < bodies.len() ==> game.present(#[trigger] bodies[j]).len() < game.present(
            bodies[k],
        ).len()
}

/// The body, among `bodies`, that the next asteroid aims at: the one with
/// the most ships around it by the counts last taken, the last of them
/// where several have the most. There is none where there is no body.
pub fn most_crowded(game: &Game, bodies: &Vec<u64>) -> (target: Option<u64>)
    ensures
        bodies.len() == 0 <==> target is None,
        target matches Some(body) ==> exists|k: int|
            #[trigger] most_crowded_at(*game, bodies@, k) && bodies@[k] == body,
{
    broadcast use group_multiset_axioms;

    if bodies.len() == 0 {
        return None;
    }
    let mut best: usize = 0;
    let mut most: usize = match game.counts(bodies[0]) {
        Some(counts) => counts.total(),
        None => 0,
    };
    let mut i: usize = 1;
    while i < bodies.len()
        invariant
            1 <= i <= bodies.len(),
            best < i,
            most == game.present(bodies@[best as int]).len(),
            forall|j: int|
                0 <= j < i ==> game.present(#[trigger] bodies@[j]).len() <= game.present(
                    bodies@[best as int],
                ).len(),
            forall|j: int|
                best < j < i ==> game.present(#[trigger] bodies@[j]).len() < game.present(
                    bodies@[best as int],
                ).len(),
        decreases bodies.len() - i,
    {
        let total = match game.counts(bodies[i]) {
            Some(counts) => counts.total(),
            None => 0,
        };
        if total >= most {
            best = i;
            most = total;
        }
        i += 1;
    }
    proof {
        assert(most_crowded_at(*game, bodies@, best as int));
    }
    Some(bodies[best])
}

/// The belt from which asteroids come.
#[derive(Clone, Copy, PartialEq, Eq, Debug, Structural)]
pub struct AsteroidBelt {
    pub timer: Timer,
}

impl AsteroidBelt {
    /// The belt as a match begins.
    pub fn new(config: &Config) -> (belt: AsteroidBelt)
        ensures
            belt == (AsteroidBelt {
                timer: Timer {
                    duration: config.asteroid_timer,
                    elapsed: 0,
                    repeating: true,
                    finished: false,
                },
            }),
    {
        AsteroidBelt { timer: Timer::from_millis(config.asteroid_timer, true) }
    }
}

/// An asteroid on its way in: the edge it comes in by, the point where it
/// starts, in hundredths, the body it aims at, its speed, in hundredths per
/// second, and its spin, in millionths of a radian per second.
#[derive(Clone, Copy, PartialEq, Eq, Debug, Structural)]
pub struct Incoming {
    pub edge: Edge,
    pub x: i32,
    pub y: i32,
    pub target: u64,
    pub speed: u32,
    pub spin: i32,
}

/// The slowest that an asteroid goes, in hundredths per second.
pub const ASTEROID_SPEED_MIN: i32 = 17500;

/// The speed that an asteroid stays below, in hundredths per second.
pub const ASTEROID_SPEED_MAX: i32 = 25000;

/// The asteroid that the draws make: `edge_draw` gives its edge, `along`
/// the point on that edge where it starts.
pub open spec fn launched(
    target: u64,
    edge_draw: i32,
    along: i32,
    speed: u32,
    spin: i32,
) -> Incoming {
    let edge = edge_of(edge_draw);
    Incoming {
        edge,
        x: match edge {
            Edge::Left => -70000i32,
            Edge::Right => 70000,
            _ => along,
        },
        y: match edge {
            Edge::Bottom => -40000i32,
            Edge::Top => 40000,
            _ => along,
        },
        target,
        speed,
        spin,
    }
}

/// The room along an edge, in hundredths either way from its middle: half
/// the height of the field for the edges at the sides, half its width for
/// the other two.
pub open spec fn room(edge: Edge) -> int {
    match edge {
        Edge::Left => 40000,
        Edge::Right => 40000,
        Edge::Bottom => 70000,
        Edge::Top => 70000,
    }
}

/// The asteroid that the draws make, aimed at `target`.
pub fn incoming(target: u64, edge_draw: i32, along: i32, speed: u32, spin: i32) -> (asteroid:
    Incoming)
    ensures
        asteroid == launched(target, edge_draw, along, speed, spin),
        -room(asteroid.edge) <= along < room(asteroid.edge) ==> starts_on(
            asteroid.edge,
            asteroid.x,
            asteroid.y,
        ),
{
    let edge = entry_edge(edge_draw);
    let (x, y) = edge.start(along);
    Incoming { edge, x, y, target, speed, spin }
}

/// Moves the belt on by `delta` milliseconds. When the time of an asteroid
/// has come, it is drawn with the configured chance whether one comes. If
/// so, it comes in by an edge that is drawn, from a point drawn on that
/// edge, with a speed and a spin that are drawn too, and aims at the most
/// crowded of `bodies`: it is the asteroid that `incoming` makes of the
/// draws. None comes where there is no body to aim at.
pub fn asteroid_belt(
    belt: &mut AsteroidBelt,
    delta: u32,
    config: &Config,
    game: &Game,
    bodies: &Vec<u64>,
) -> (coming: Option<Incoming>)
    ensures
        final(belt).timer == old(belt).timer.ticked(delta),
        coming is Some ==> old(belt).timer.fires(delta) && bodies.len() > 0,
        old(belt).timer.fires(delta) && config.asteroid_chance >= 1000 && bodies.len() > 0
            ==> coming is Some,
        config.asteroid_chance == 0 ==> coming is None,
        coming matches Some(asteroid) ==> {
            &&& exists|k: int|
                #[trigger] most_crowded_at(*game, bodies@, k) && bodies@[k] == asteroid.target
            &&& exists|edge_draw: i32, along: i32|
                {
                    &&& 0 <= edge_draw < 5
                    &&& -room(edge_of(edge_draw)) <= along < room(edge_of(edge_draw))
                    &&& asteroid == #[trigger] launched(
                        asteroid.target,
                        edge_draw,
                        along,
                        asteroid.speed,
                        asteroid.spin,
                    )
                }
            &&& starts_on(asteroid.edge, asteroid.x, asteroid.y)
            &&& ASTEROID_SPEED_MIN <= asteroid.speed < ASTEROID_SPEED_MAX
            &&& -1_000_000 <= asteroid.spin < 1_000_000
        },
{
    if !belt.timer.tick(delta) {
        return None;
    }
    if !happens(config.asteroid_chance) {
        return None;
    }
    match most_crowded(game, bodies) {
        Some(target) => {
            let edge_draw = draw_between(0, 5);
            let along = match entry_edge(edge_draw) {
                Edge::Left => draw_between(-40000, 40000),
                Edge::Right => draw_between(-40000, 40000),
                Edge::Bottom => draw_between(-70000, 70000),
                Edge::Top => draw_between(-70000, 70000),
            };
            let speed = draw_between(ASTEROID_SPEED_MIN, ASTEROID_SPEED_MAX) as u32;
            let spin = draw_between(-1_000_000, 1_000_000);
            let asteroid = incoming(target, edge_draw, along, speed, spin);
            assert(asteroid == launched(
                asteroid.target,
                edge_draw,
                along,
                asteroid.speed,
                asteroid.spin,
            ));
            Some(asteroid)
        },
        None => None,
    }
}

/// An asteroid in play: the time it has left.
#[derive(Clone, Copy, PartialEq, Eq, Debug, Structural)]
pub struct Asteroid(pub Timer);

/// The time that an asteroid stays in play, in milliseconds.
pub const ASTEROID_LIFETIME: u32 = 40000;

impl Asteroid {
    /// An asteroid that has just come in.
    pub fn new() -> (asteroid: Asteroid)
        ensures
            asteroid == Asteroid(
                Timer { duration: 40000, elapsed: 0, repeating: false, finished: false },
            ),
    {
        Asteroid(Timer::from_millis(ASTEROID_LIFETIME, false))
    }
}

/// Moves an asteroid on by `delta` milliseconds and says whether its time
/// is up: it then leaves play, whether or not it has hit anything.
pub fn asteroid(rock: &mut Asteroid, delta: u32) -> (gone: bool)
    ensures
        gone == old(rock).0.fires(delta),
        final(rock).0 == old(rock).0.ticked(delta),
{
    rock.0.tick(delta)
}

} // verus!
