use vstd::prelude::*;

use crate::asteroid::Asteroid;
use crate::ship::{Rocket, Ship, ShipHealth};
use crate::timer::{AnimationProperties, AnimationTimer};

verus! {

/// The sprite frame that shows the ship's hull state.
pub open spec fn health_frame(h: ShipHealth) -> usize {
    match h {
        ShipHealth::Full => 1,
        ShipHealth::Damaged => 3,
        ShipHealth::VeryDamaged => 4,
        ShipHealth::Empty => 4,
    }
}

pub fn ship_frame(h: ShipHealth) -> (r: usize)
    ensures
        r == health_frame(h),
{
    match h {
        ShipHealth::Full => 1,
        ShipHealth::Damaged => 3,
        ShipHealth::VeryDamaged => 4,
        ShipHealth::Empty => 4,
    }
}

/// While blinking, the ship is hidden during these parts of its two-second timer.
pub open spec fn ship_hidden(elapsed: int) -> bool {
    (0 < elapsed < 400_000) || (800_000 < elapsed < 1_200_000) || (1_600_000 < elapsed < 2_000_000)
}

/// The ship and the frame to show after one tick of its blinking.
pub open spec fn ship_animation_step(ship: Ship, dt: int) -> (Ship, usize) {
    if !ship.invulnerable {
        (ship, health_frame(ship.health))
    } else {
        let t = ship.invulnerable_timer.ticked(dt);
        if t.is_finished() {
            (
                Ship {
                    invulnerable: false,
                    invulnerable_timer: AnimationTimer { elapsed: 0, just_finished: false, ..t },
                    ..ship
                },
                health_frame(ship.health),
            )
        } else {
            (
                Ship { invulnerable_timer: t, ..ship },
                if ship_hidden(t.elapsed as int) {
                    0
                } else {
                    health_frame(ship.health)
                },
            )
        }
    }
}

/// One tick of the ship's blinking while it is invulnerable. When the timer
/// completes, the timer restarts and the ship is vulnerable again. Returns the
/// frame to show; 0 is the empty frame.
pub fn play_ship_animation(ship: &mut Ship, dt: u64) -> (frame: usize)
    requires
        old(ship).wf(),
    ensures
        final(ship).wf(),
        (*final(ship), frame) == ship_animation_step(*old(ship), dt as int),
{
    if !ship.invulnerable {
        return ship_frame(ship.health);
    }
    ship.invulnerable_timer.tick(dt);
    if ship.invulnerable_timer.finished() {
        ship.invulnerable_timer.reset();
        ship.invulnerable = false;
        ship_frame(ship.health)
    } else {
        let elapsed: u64 = ship.invulnerable_timer.elapsed;
        let show_nothing: bool = (elapsed > 0 && elapsed < 400_000) || (elapsed > 800_000
            && elapsed < 1_200_000) || (elapsed > 1_600_000 && elapsed < 2_000_000);
        if show_nothing {
            0
        } else {
            ship_frame(ship.health)
        }
    }
}

/// The animation and frame of an asteroid after one tick; `None` for the frame
/// means the explosion is over.
pub open spec fn asteroid_animation_step(
    asteroid: Asteroid,
    animation: AnimationProperties,
    frame: usize,
    dt: int,
) -> (AnimationProperties, Option<usize>) {
    if !asteroid.exploding {
        (animation, Some(frame))
    } else {
        let t = animation.timer.ticked(dt);
        (
            AnimationProperties { timer: t, ..animation },
            if t.just_finished {
                None
            } else if frame >= animation.indices.last {
                Some(frame)
            } else {
                Some((frame + 1) as usize)
            },
        )
    }
}

/// The rocket and its frame after one tick.
pub open spec fn rocket_animation_step(rocket: Rocket, frame: usize, dt: int) -> (Rocket, usize) {
    if rocket.hit_target {
        (rocket, frame)
    } else {
        let t = rocket.animation_timer.ticked(dt);
        (
            Rocket { animation_timer: t, ..rocket },
            if !t.is_finished() {
                frame
            } else if frame >= rocket.animation_indices.last {
                rocket.animation_indices.first
            } else {
                (frame + 1) as usize
            },
        )
    }
}

/// One tick of an asteroid's explosion. A live asteroid is left alone. An
/// exploding one steps through its frames up to the last; `None` means the
/// explosion is over and the asteroid is removed.
pub fn play_asteroid_animation(
    asteroid: &Asteroid,
    animation: &mut AnimationProperties,
    frame: usize,
    dt: u64,
) -> (r: Option<usize>)
    requires
        old(animation).timer.wf(),
    ensures
        final(animation).timer.wf(),
        (*final(animation), r) == asteroid_animation_step(*asteroid, *old(animation), frame, dt as int),
{
    if !asteroid.exploding {
        return Some(frame);
    }
    if animation.timer.tick(dt) {
        None
    } else if frame >= animation.indices.last {
        Some(frame)
    } else {
        Some(frame + 1)
    }
}

/// One tick of a rocket's flame: each time its timer completes the frame moves
/// on, wrapping from the last back to the first. A rocket that hit is frozen.
pub fn play_rocket_animation(rocket: &mut Rocket, frame: usize, dt: u64) -> (r: usize)
    requires
        old(rocket).wf(),
    ensures
        final(rocket).wf(),
        (*final(rocket), r) == rocket_animation_step(*old(rocket), frame, dt as int),
{
    if rocket.hit_target {
        return frame;
    }
    rocket.animation_timer.tick(dt);
    if rocket.animation_timer.finished() {
        if frame >= rocket.animation_indices.last {
            rocket.animation_indices.first
        } else {
            frame + 1
        }
    } else {
        frame
    }
}

} // verus!
