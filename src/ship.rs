use vstd::prelude::*;

use crate::collider::{Collider, ColliderKind, ColliderShape};
use crate::constants::{
    ASTEROID_SCALED_RADIUS, BOTTOM_WALL, COORD_LIMIT, INVULNERABLE_MICROS, LEFT_WALL,
    RIGHT_WALL, ROCKET_FRAME_MICROS, ROCKET_HALF_EXTENT, ROCKET_SPEED, SHIP_GAME_HEIGHT,
    SHIP_GAME_WIDTH, SHIP_PADDING, TOP_WALL, WALL_THICKNESS,
};
use crate::geometry::{
    advance, advance_spec, box_intersects_circle, box_meets_circle, clamp, clamp_spec,
    lemma_round_to_pixel_monotone, round_to_pixel, round_to_pixel_spec, Pos,
};
use crate::timer::{AnimationIndices, AnimationTimer};

verus! {

/// Hull state of the ship, from intact to destroyed.
#[derive(Clone, Copy, Debug, PartialEq, Eq, Structural)]
pub enum ShipHealth {
    Full,
    Damaged,
    VeryDamaged,
    Empty,
}

/// How many hits the ship has taken: 0 when `Full`, 3 when `Empty`.
pub open spec fn health_rank(h: ShipHealth) -> int {
    match h {
        ShipHealth::Full => 0,
        ShipHealth::Damaged => 1,
        ShipHealth::VeryDamaged => 2,
        ShipHealth::Empty => 3,
    }
}

/// The health one hit leaves; `Empty` stays `Empty`.
pub open spec fn damaged(h: ShipHealth) -> ShipHealth {
    match h {
        ShipHealth::Full => ShipHealth::Damaged,
        ShipHealth::Damaged => ShipHealth::VeryDamaged,
        ShipHealth::VeryDamaged => ShipHealth::Empty,
        ShipHealth::Empty => ShipHealth::Empty,
    }
}

#[derive(Clone, Copy, Debug, PartialEq, Eq, Structural)]
pub struct Ship {
    pub health: ShipHealth,
    pub invulnerable: bool,
    pub invulnerable_timer: AnimationTimer,
    pub animation_indices: AnimationIndices,
    pub cooldown_length: u64,
    pub cooldown_time_left: u64,
}

/// Which movement keys are held during a tick.
#[derive(Clone, Copy, Debug, PartialEq, Eq, Structural)]
pub struct MovementInput {
    pub up: bool,
    pub down: bool,
    pub left: bool,
    pub right: bool,
}

pub open spec fn flag(b: bool) -> int {
    if b {
        1
    } else {
        0
    }
}

/// Vertical ship speed in pixels per second: the ship always drifts up with the
/// scroll, faster with up held, not at all with down held.
pub open spec fn ship_speed_y(i: MovementInput) -> int {
    150 * (1 + flag(i.up) - flag(i.down))
}

/// Horizontal ship speed in pixels per second.
pub open spec fn ship_speed_x(i: MovementInput) -> int {
    150 * (flag(i.right) - flag(i.left))
}

/// Highest and lowest centre the ship may take for a camera at height `cam_y`,
/// rounded to whole pixels.
pub open spec fn ship_y_bounds(cam_y: int) -> (int, int) {
    (
        round_to_pixel_spec(TOP_WALL - SHIP_GAME_HEIGHT / 2 + cam_y),
        round_to_pixel_spec(BOTTOM_WALL + SHIP_GAME_HEIGHT / 2 + cam_y),
    )
}

pub open spec fn ship_left_bound() -> int {
    LEFT_WALL + SHIP_GAME_WIDTH / 2
}

pub open spec fn ship_right_bound() -> int {
    RIGHT_WALL - SHIP_GAME_WIDTH / 2
}

/// Where the ship goes in `dt` microseconds with the keys `i` held.
pub open spec fn moved_ship(pos: Pos, i: MovementInput, dt: int, cam_y: int) -> Pos {
    let (upper, lower) = ship_y_bounds(cam_y);
    Pos {
        x: clamp_spec(
            advance_spec(pos.x as int, ship_speed_x(i), dt, COORD_LIMIT as int),
            ship_left_bound(),
            ship_right_bound(),
        ) as i64,
        y: clamp_spec(
            advance_spec(pos.y as int, ship_speed_y(i), dt, COORD_LIMIT as int),
            lower,
            upper,
        ) as i64,
    }
}

/// Whether the ship may shoot now.
pub open spec fn can_fire(s: Ship) -> bool {
    s.cooldown_time_left == 0 && s.health != ShipHealth::Empty && !s.invulnerable
}

impl Ship {
    pub open spec fn wf(self) -> bool {
        self.invulnerable_timer.wf()
    }

    /// Applies one hit and returns the new health.
    pub fn take_damage(&mut self) -> (r: ShipHealth)
        ensures
            r == damaged(old(self).health),
            *final(self) == (Ship { health: r, ..*old(self) }),
    {
        match self.health {
            ShipHealth::Full => {
                self.health = ShipHealth::Damaged;
                ShipHealth::Damaged
            },
            ShipHealth::Damaged => {
                self.health = ShipHealth::VeryDamaged;
                ShipHealth::VeryDamaged
            },
            ShipHealth::VeryDamaged => {
                self.health = ShipHealth::Empty;
                ShipHealth::Empty
            },
            ShipHealth::Empty => {
                self.health = ShipHealth::Empty;
                ShipHealth::Empty
            },
        }
    }

    /// Launches a rocket from `ship_pos` if the ship may fire (cooldown over, not
    /// destroyed, not blinking), and starts the cooldown again.
    pub fn fire_rocket(&mut self, ship_pos: Pos) -> (r: Option<RocketBundle>)
        ensures
            can_fire(*old(self)) ==> r == Some(rocket_at(ship_pos)) && *final(self) == (Ship {
                cooldown_time_left: old(self).cooldown_length,
                ..*old(self)
            }),
            !can_fire(*old(self)) ==> r is None && *final(self) == *old(self),
    {
        if self.cooldown_time_left == 0 && self.health != ShipHealth::Empty && !self.invulnerable {
            let rocket_bundle = RocketBundle::new(ship_pos);
            self.cooldown_time_left = self.cooldown_length;
            Some(rocket_bundle)
        } else {
            None
        }
    }
}

/// The ship after one tick of the fire key: it shoots when the key is held and
/// it may fire, which starts the cooldown over; otherwise a running cooldown goes
/// down by `dt`, never below zero.
pub open spec fn firing_step(s: Ship, pressed: bool, dt: int) -> Ship {
    if pressed && can_fire(s) {
        Ship { cooldown_time_left: s.cooldown_length, ..s }
    } else if s.cooldown_time_left > 0 {
        Ship {
            cooldown_time_left: if s.cooldown_time_left > dt {
                (s.cooldown_time_left - dt) as u64
            } else {
                0
            },
            ..s
        }
    } else {
        s
    }
}

/// Handles the fire key for one tick; returns the rocket launched, if any.
pub fn check_if_firing(ship: &mut Ship, ship_pos: Pos, pressed: bool, dt: u64) -> (r: Option<
    RocketBundle,
>)
    ensures
        *final(ship) == firing_step(*old(ship), pressed, dt as int),
        r == (if pressed && can_fire(*old(ship)) {
            Some(rocket_at(ship_pos))
        } else {
            None
        }),
{
    if pressed && ship.cooldown_time_left == 0 && ship.health != ShipHealth::Empty
        && !ship.invulnerable {
        ship.fire_rocket(ship_pos)
    } else {
        if ship.cooldown_time_left > 0 {
            ship.cooldown_time_left = ship.cooldown_time_left.saturating_sub(dt);
        }
        None
    }
}

/// The vertical range the ship may occupy, as `(upper, lower)`.
pub fn get_y_bounds(camera: Pos) -> (r: (i64, i64))
    requires
        camera.camera_ok(),
    ensures
        r.0 == ship_y_bounds(camera.y as int).0,
        r.1 == ship_y_bounds(camera.y as int).1,
        r.1 <= r.0,
{
    let upper_bound: i64 = TOP_WALL - SHIP_GAME_HEIGHT / 2 + camera.y;
    let lower_bound: i64 = BOTTOM_WALL + SHIP_GAME_HEIGHT / 2 + camera.y;
    proof {
        lemma_round_to_pixel_monotone(lower_bound as int, upper_bound as int);
    }
    (round_to_pixel(upper_bound), round_to_pixel(lower_bound))
}

/// Moves the ship for one tick. A destroyed ship stays where it is.
pub fn ship_movement(ship: &Ship, pos: Pos, input: MovementInput, dt: u64, camera: Pos) -> (r: Pos)
    requires
        camera.camera_ok(),
    ensures
        ship.health == ShipHealth::Empty ==> r == pos,
        ship.health != ShipHealth::Empty ==> r == moved_ship(pos, input, dt as int, camera.y as int),
        ship.health != ShipHealth::Empty ==> r.wf(),
{
    if ship.health == ShipHealth::Empty {
        return pos;
    }
    let (upper_bound, lower_bound) = get_y_bounds(camera);
    let left_bound: i64 = LEFT_WALL + SHIP_GAME_WIDTH / 2;
    let right_bound: i64 = RIGHT_WALL - SHIP_GAME_WIDTH / 2;
    let up: i64 = if input.up {
        1
    } else {
        0
    };
    let down: i64 = if input.down {
        1
    } else {
        0
    };
    let left: i64 = if input.left {
        1
    } else {
        0
    };
    let right: i64 = if input.right {
        1
    } else {
        0
    };
    let speed_y: i64 = 150 * (1 + up - down);
    let speed_x: i64 = 150 * (right - left);
    let new_y: i64 = advance(pos.y, speed_y, dt, COORD_LIMIT);
    let new_x: i64 = advance(pos.x, speed_x, dt, COORD_LIMIT);
    Pos { x: clamp(new_x, left_bound, right_bound), y: clamp(new_y, lower_bound, upper_bound) }
}

/// The ship with its collider, as it enters the game.
#[derive(Clone, Copy, Debug, PartialEq, Eq, Structural)]
pub struct ShipBundle {
    pub ship: Ship,
    pub position: Pos,
    pub collider: Collider,
    pub frame: usize,
}

impl ShipBundle {
    /// A ship at full health at the origin, whose first shot waits one cooldown.
    pub fn new(cooldown_length: u64) -> (r: ShipBundle)
        ensures
            r.ship.wf(),
            r.ship.health == ShipHealth::Full,
            !r.ship.invulnerable,
            r.ship.cooldown_length == cooldown_length,
            r.ship.cooldown_time_left == cooldown_length,
            r.ship.invulnerable_timer == AnimationTimer::new_spec(INVULNERABLE_MICROS, true),
            r.ship.animation_indices == (AnimationIndices { first: 1, last: 4 }),
            r.position == (Pos { x: 0, y: 0 }),
            r.collider == (Collider { name: ColliderKind::Ship, shape: ColliderShape::Circle }),
            r.frame == 1,
    {
        ShipBundle {
            ship: Ship {
                health: ShipHealth::Full,
                invulnerable: false,
                invulnerable_timer: AnimationTimer::new(INVULNERABLE_MICROS, true),
                animation_indices: AnimationIndices { first: 1, last: 4 },
                cooldown_length,
                cooldown_time_left: cooldown_length,
            },
            position: Pos { x: 0, y: 0 },
            collider: Collider { name: ColliderKind::Ship, shape: ColliderShape::Circle },
            frame: 1,
        }
    }
}

#[derive(Clone, Copy, Debug, PartialEq, Eq, Structural)]
pub struct Rocket {
    pub animation_indices: AnimationIndices,
    pub animation_timer: AnimationTimer,
    pub hit_target: bool,
}

/// Height above which a rocket has left the field, for a camera at `cam_y`.
pub open spec fn rocket_despawn_threshold(cam_y: int) -> int {
    TOP_WALL + WALL_THICKNESS / 2 + SHIP_GAME_HEIGHT / 2 + SHIP_PADDING + cam_y
}

impl Rocket {
    pub open spec fn wf(self) -> bool {
        self.animation_timer.wf()
    }

    /// Whether the rocket has flown past the top of the visible field.
    pub fn is_outside_window(&self, rocket_pos: Pos, camera: Pos) -> (r: bool)
        requires
            camera.camera_ok(),
        ensures
            r == (rocket_pos.y > rocket_despawn_threshold(camera.y as int)),
    {
        let despawn_threshold: i64 = TOP_WALL + WALL_THICKNESS / 2 + SHIP_GAME_HEIGHT / 2
            + SHIP_PADDING + camera.y;
        rocket_pos.y > despawn_threshold
    }

    /// Whether the rocket's box meets `other`; only asteroids can be hit.
    pub fn check_collision(&self, rocket_pos: Pos, other_pos: Pos, other_name: ColliderKind) -> (r:
        bool)
        requires
            rocket_pos.wf(),
            other_pos.wf(),
        ensures
            r == rocket_hits(rocket_pos, other_pos, other_name),
    {
        if other_name == ColliderKind::Asteroid {
            box_intersects_circle(rocket_pos, ROCKET_HALF_EXTENT, other_pos, ASTEROID_SCALED_RADIUS)
        } else {
            false
        }
    }
}

/// A rocket's square meets an asteroid's circle.
pub open spec fn rocket_hits(rocket_pos: Pos, other_pos: Pos, other_name: ColliderKind) -> bool {
    other_name == ColliderKind::Asteroid && box_meets_circle(
        rocket_pos,
        ROCKET_HALF_EXTENT as int,
        other_pos,
        ASTEROID_SCALED_RADIUS as int,
    )
}

/// Where a live rocket is after one tick, or `None` when it is removed: on a hit,
/// or once it has left the top of the field.
pub open spec fn rocket_step(rocket: Rocket, pos: Pos, cam_y: int, dt: int) -> Option<Pos> {
    if rocket.hit_target || pos.y > rocket_despawn_threshold(cam_y) {
        None
    } else {
        Some(Pos { y: advance_spec(pos.y as int, ROCKET_SPEED as int, dt, COORD_LIMIT as int) as i64, ..pos })
    }
}

/// Moves a rocket for one tick; `None` means it is removed.
pub fn update_rocket(rocket: &Rocket, pos: Pos, camera: Pos, dt: u64) -> (r: Option<Pos>)
    requires
        camera.camera_ok(),
    ensures
        r == rocket_step(*rocket, pos, camera.y as int, dt as int),
        r matches Some(p) ==> p.x == pos.x && (pos.wf() ==> p.wf()),
{
    if rocket.hit_target {
        return None;
    }
    if rocket.is_outside_window(pos, camera) {
        None
    } else {
        Some(Pos { x: pos.x, y: advance(pos.y, ROCKET_SPEED, dt, COORD_LIMIT) })
    }
}

/// A rocket with its collider and animation, as it leaves the ship.
#[derive(Clone, Copy, Debug, PartialEq, Eq, Structural)]
pub struct RocketBundle {
    pub rocket: Rocket,
    pub position: Pos,
    pub collider: Collider,
    pub frame: usize,
}

pub open spec fn rocket_at(p: Pos) -> RocketBundle {
    RocketBundle {
        rocket: Rocket {
            animation_indices: AnimationIndices { first: 0, last: 2 },
            animation_timer: AnimationTimer::new_spec(ROCKET_FRAME_MICROS, true),
            hit_target: false,
        },
        position: p,
        collider: Collider { name: ColliderKind::Rocket, shape: ColliderShape::Rectangle },
        frame: 0,
    }
}

impl RocketBundle {
    /// A fresh rocket at `spawn_location`.
    pub fn new(spawn_location: Pos) -> (r: RocketBundle)
        ensures
            r == rocket_at(spawn_location),
            r.rocket.wf(),
    {
        RocketBundle {
            rocket: Rocket {
                animation_indices: AnimationIndices { first: 0, last: 2 },
                animation_timer: AnimationTimer::new(ROCKET_FRAME_MICROS, true),
                hit_target: false,
            },
            position: spawn_location,
            collider: Collider { name: ColliderKind::Rocket, shape: ColliderShape::Rectangle },
            frame: 0,
        }
    }
}

} // verus!
