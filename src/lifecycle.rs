use vstd::prelude::*;

use crate::asteroid::asteroid_lower_bound;
use crate::collision::{Body, BodyState};
use crate::constants::{
    BOTTOM_WALL, CAMERA_LIMIT, KINEMATIC_OBJECTS_SPEED, SHIP_GAME_HEIGHT, SHIP_PADDING,
    WALL_THICKNESS,
};
use crate::geometry::{advance, advance_spec, Pos};
use crate::ship::{rocket_step, update_rocket};

verus! {

/// Whether a body survives the asteroid pass: a live asteroid below the view is
/// removed; everything else stays.
pub open spec fn survives_asteroid_pass(b: Body, cam_y: int) -> bool {
    match b.state {
        BodyState::Asteroid(a, _) => a.exploding || b.pos.y >= asteroid_lower_bound(cam_y),
        _ => true,
    }
}

pub open spec fn asteroid_filter(cam_y: int) -> spec_fn(Body) -> bool {
    |b: Body| survives_asteroid_pass(b, cam_y)
}

/// Removes the asteroids that escaped past the bottom of the view. Exploding
/// asteroids are left to their animation.
pub fn asteroid_manager(bodies: &Vec<Body>, camera: Pos) -> (r: Vec<Body>)
    requires
        camera.camera_ok(),
    ensures
        r@ == bodies@.filter(asteroid_filter(camera.y as int)),
{
    let mut kept: Vec<Body> = Vec::new();
    let n: usize = bodies.len();
    let mut i: usize = 0;
    while i < n
        invariant
            i <= n,
            n == bodies@.len(),
            camera.camera_ok(),
            kept@ == bodies@.take(i as int).filter(asteroid_filter(camera.y as int)),
        decreases n - i,
    {
        let b: Body = bodies[i];
        proof {
            assert(bodies@.take(i + 1) == bodies@.take(i as int).push(b));
            bodies@.take(i as int).lemma_filter_push(b, asteroid_filter(camera.y as int));
        }
        let keep: bool = match b.state {
            BodyState::Asteroid(a, _) => {
                let lower_bound: i64 = BOTTOM_WALL - WALL_THICKNESS / 2 - SHIP_GAME_HEIGHT / 2
                    - SHIP_PADDING + camera.y;
                a.exploding || b.pos.y >= lower_bound
            },
            _ => true,
        };
        if keep {
            kept.push(b);
        }
        i = i + 1;
    }
    proof {
        assert(bodies@.take(n as int) == bodies@);
    }
    kept
}

/// The bodies after the rocket pass: each rocket moves up or, on a hit or once it
/// has left the view, is removed; other bodies are kept as they are.
pub open spec fn rockets_after(bodies: Seq<Body>, cam_y: int, dt: int) -> Seq<Body>
    decreases bodies.len(),
{
    if bodies.len() == 0 {
        bodies
    } else {
        let prev = rockets_after(bodies.drop_last(), cam_y, dt);
        let b = bodies.last();
        match b.state {
            BodyState::Rocket(r) => match rocket_step(r, b.pos, cam_y, dt) {
                Some(p) => prev.push(Body { pos: p, ..b }),
                None => prev,
            },
            _ => prev.push(b),
        }
    }
}

/// Moves every rocket for one tick and removes the rockets that hit or left the view.
pub fn update_active_rockets(bodies: &Vec<Body>, camera: Pos, dt: u64) -> (r: Vec<Body>)
    requires
        camera.camera_ok(),
    ensures
        r@ == rockets_after(bodies@, camera.y as int, dt as int),
{
    let mut kept: Vec<Body> = Vec::new();
    let n: usize = bodies.len();
    let mut i: usize = 0;
    while i < n
        invariant
            i <= n,
            n == bodies@.len(),
            camera.camera_ok(),
            kept@ == rockets_after(bodies@.take(i as int), camera.y as int, dt as int),
        decreases n - i,
    {
        let b: Body = bodies[i];
        proof {
            assert(bodies@.take(i + 1).drop_last() == bodies@.take(i as int));
            assert(bodies@.take(i + 1).last() == b);
        }
        match b.state {
            BodyState::Rocket(r) => {
                match update_rocket(&r, b.pos, camera, dt) {
                    Some(p) => kept.push(Body { pos: p, ..b }),
                    None => {},
                }
            },
            _ => kept.push(b),
        }
        i = i + 1;
    }
    proof {
        assert(bodies@.take(n as int) == bodies@);
    }
    kept
}

/// The camera and the walls scroll up at a constant speed.
pub fn update_kinematic_object(pos: Pos, dt: u64) -> (r: Pos)
    requires
        pos.camera_ok(),
    ensures
        r == (Pos {
            y: advance_spec(pos.y as int, KINEMATIC_OBJECTS_SPEED as int, dt as int, CAMERA_LIMIT as int) as i64,
            ..pos
        }),
        r.camera_ok(),
{
    Pos { x: pos.x, y: advance(pos.y, KINEMATIC_OBJECTS_SPEED, dt, CAMERA_LIMIT) }
}

} // verus!
