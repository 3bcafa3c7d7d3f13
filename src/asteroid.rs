use vstd::prelude::*;

use crate::collider::{Collider, ColliderKind, ColliderShape};
use crate::constants::{
    ASTEROID_EXPLOSION_MICROS, ASTEROID_SCALED_RADIUS, BOTTOM_WALL, LEFT_WALL, RIGHT_WALL,
    ROCKET_HALF_EXTENT, SHIP_GAME_HEIGHT, SHIP_PADDING, SHIP_SCALED_RADIUS, TOP_WALL,
    WALL_THICKNESS,
};
use crate::geometry::{box_intersects_circle, box_meets_circle, circles_intersect, circles_meet, Pos};
use crate::random::random_in_range;
use crate::timer::{AnimationIndices, AnimationProperties, AnimationTimer};

verus! {

#[derive(Clone, Copy, Debug, PartialEq, Eq, Structural)]
pub struct Asteroid {
    pub exploding: bool,
}

/// Height below which an asteroid has escaped the field, for a camera at `cam_y`.
pub open spec fn asteroid_lower_bound(cam_y: int) -> int {
    BOTTOM_WALL - WALL_THICKNESS / 2 - SHIP_GAME_HEIGHT / 2 - SHIP_PADDING + cam_y
}

/// Whether an asteroid at `asteroid_pos` touches `other`: a rocket by its square,
/// the ship by its circle. Asteroids never collide with each other.
pub open spec fn asteroid_hits(asteroid_pos: Pos, other_pos: Pos, other_name: ColliderKind) -> bool {
    match other_name {
        ColliderKind::Rocket => box_meets_circle(
            other_pos,
            ROCKET_HALF_EXTENT as int,
            asteroid_pos,
            ASTEROID_SCALED_RADIUS as int,
        ),
        ColliderKind::Ship => circles_meet(
            asteroid_pos,
            ASTEROID_SCALED_RADIUS as int,
            other_pos,
            SHIP_SCALED_RADIUS as int,
        ),
        ColliderKind::Asteroid => false,
    }
}

impl Asteroid {
    /// Starts the explosion; it can never be undone.
    pub fn take_damage(&mut self)
        ensures
            final(self).exploding,
    {
        self.exploding = true;
    }

    /// A fresh place for the asteroid: a random column of the field at the top
    /// edge of the view.
    pub fn reset(&mut self, camera: Pos) -> (r: Pos)
        requires
            camera.camera_ok(),
        ensures
            *final(self) == *old(self),
            r.y == camera.y + TOP_WALL,
            LEFT_WALL <= r.x <= RIGHT_WALL,
            r.wf(),
    {
        Pos { x: random_in_range(LEFT_WALL, RIGHT_WALL + 1), y: camera.y + TOP_WALL }
    }

    /// Whether the asteroid has scrolled past the bottom of the visible field.
    pub fn is_outside_window(&self, asteroid_pos: Pos, camera: Pos) -> (r: bool)
        requires
            camera.camera_ok(),
        ensures
            r == (asteroid_pos.y < asteroid_lower_bound(camera.y as int)),
    {
        let lower_bound: i64 = BOTTOM_WALL - WALL_THICKNESS / 2 - SHIP_GAME_HEIGHT / 2
            - SHIP_PADDING + camera.y;
        asteroid_pos.y < lower_bound
    }

    /// Tests the asteroid against `other`. A rocket that touches it sets it exploding.
    pub fn check_collision(&mut self, asteroid_pos: Pos, other_pos: Pos, other_name: ColliderKind) -> (r:
        bool)
        requires
            asteroid_pos.wf(),
            other_pos.wf(),
        ensures
            r == asteroid_hits(asteroid_pos, other_pos, other_name),
            final(self).exploding == (old(self).exploding || (r && other_name
                == ColliderKind::Rocket)),
    {
        match other_name {
            ColliderKind::Rocket => {
                if box_intersects_circle(
                    other_pos,
                    ROCKET_HALF_EXTENT,
                    asteroid_pos,
                    ASTEROID_SCALED_RADIUS,
                ) {
                    self.take_damage();
                    true
                } else {
                    false
                }
            },
            ColliderKind::Ship => circles_intersect(
                asteroid_pos,
                ASTEROID_SCALED_RADIUS,
                other_pos,
                SHIP_SCALED_RADIUS,
            ),
            ColliderKind::Asteroid => false,
        }
    }
}

/// An asteroid with its collider and explosion animation.
#[derive(Clone, Copy, Debug, PartialEq, Eq, Structural)]
pub struct AsteroidBundle {
    pub asteroid: Asteroid,
    pub position: Pos,
    pub collider: Collider,
    pub animation: AnimationProperties,
    pub frame: usize,
}

pub open spec fn asteroid_at(p: Pos) -> AsteroidBundle {
    AsteroidBundle {
        asteroid: Asteroid { exploding: false },
        position: p,
        collider: Collider { name: ColliderKind::Asteroid, shape: ColliderShape::Circle },
        animation: AnimationProperties {
            indices: AnimationIndices { first: 0, last: 7 },
            timer: AnimationTimer::new_spec(ASTEROID_EXPLOSION_MICROS, false),
        },
        frame: 0,
    }
}

impl AsteroidBundle {
    /// A fresh asteroid at `spawn_location`, or, without one, at a random column of
    /// the field at the top edge of the view.
    pub fn new(camera: Pos, spawn_location: Option<Pos>) -> (r: AsteroidBundle)
        requires
            camera.camera_ok(),
        ensures
            r == asteroid_at(r.position),
            r.animation.timer.wf(),
            spawn_location matches Some(p) ==> r.position == p,
            spawn_location is None ==> r.position.y == camera.y + TOP_WALL && LEFT_WALL
                <= r.position.x <= RIGHT_WALL && r.position.wf(),
    {
        let position = match spawn_location {
            Some(p) => p,
            None => Pos { x: random_in_range(LEFT_WALL, RIGHT_WALL + 1), y: camera.y + TOP_WALL },
        };
        AsteroidBundle {
            asteroid: Asteroid { exploding: false },
            position,
            collider: Collider { name: ColliderKind::Asteroid, shape: ColliderShape::Circle },
            animation: AnimationProperties {
                indices: AnimationIndices { first: 0, last: 7 },
                timer: AnimationTimer::new(ASTEROID_EXPLOSION_MICROS, false),
            },
            frame: 0,
        }
    }
}

} // verus!
