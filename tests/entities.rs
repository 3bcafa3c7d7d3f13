use space_shooter::asteroid::{Asteroid, AsteroidBundle};
use space_shooter::collider::{Collider, ColliderKind, ColliderShape};
use space_shooter::geometry::{
    advance, box_intersects_circle, circles_intersect, clamp, round_to_pixel, Pos,
};
use space_shooter::ship::{
    check_if_firing, get_y_bounds, ship_movement, update_rocket, MovementInput, Rocket,
    RocketBundle, Ship, ShipBundle, ShipHealth,
};
use space_shooter::timer::AnimationIndices;
use space_shooter::wall::{GameWall, WallBundle};

fn no_keys() -> MovementInput {
    MovementInput { up: false, down: false, left: false, right: false }
}

fn ready_ship() -> Ship {
    let mut ship = ShipBundle::new(500_000).ship;
    ship.cooldown_time_left = 0;
    ship
}

#[test]
fn take_damage_steps_down_to_empty() {
    let mut ship = ready_ship();
    assert_eq!(ship.take_damage(), ShipHealth::Damaged);
    assert_eq!(ship.take_damage(), ShipHealth::VeryDamaged);
    assert_eq!(ship.take_damage(), ShipHealth::Empty);
    assert_eq!(ship.take_damage(), ShipHealth::Empty);
    assert_eq!(ship.health, ShipHealth::Empty);
}

#[test]
fn ship_bundle_starts_full_and_cooling_down() {
    let bundle = ShipBundle::new(500_000);
    assert_eq!(bundle.ship.health, ShipHealth::Full);
    assert!(!bundle.ship.invulnerable);
    assert_eq!(bundle.ship.cooldown_time_left, 500_000);
    assert_eq!(bundle.ship.animation_indices, AnimationIndices { first: 1, last: 4 });
    assert_eq!(bundle.position, Pos::new(0, 0));
    assert_eq!(bundle.collider, Collider { name: ColliderKind::Ship, shape: ColliderShape::Circle });
    assert_eq!(bundle.frame, 1);
}

#[test]
fn firing_starts_the_cooldown() {
    let mut ship = ready_ship();
    let rocket = check_if_firing(&mut ship, Pos::new(5_000, -7_000), true, 15_625);
    assert_eq!(rocket, Some(RocketBundle::new(Pos::new(5_000, -7_000))));
    assert_eq!(ship.cooldown_time_left, 500_000);
    let again = check_if_firing(&mut ship, Pos::new(5_000, -7_000), true, 15_625);
    assert_eq!(again, None);
    assert_eq!(ship.cooldown_time_left, 500_000 - 15_625);
}

#[test]
fn cooldown_never_goes_below_zero() {
    let mut ship = ready_ship();
    ship.cooldown_time_left = 10_000;
    assert_eq!(check_if_firing(&mut ship, Pos::new(0, 0), false, 15_625), None);
    assert_eq!(ship.cooldown_time_left, 0);
    assert!(check_if_firing(&mut ship, Pos::new(0, 0), true, 15_625).is_some());
}

#[test]
fn destroyed_ship_neither_fires_nor_moves() {
    let mut ship = ready_ship();
    ship.health = ShipHealth::Empty;
    let before = ship;
    assert_eq!(check_if_firing(&mut ship, Pos::new(0, 0), true, 15_625), None);
    assert_eq!(ship, before);
    let keys = MovementInput { up: true, down: false, left: true, right: false };
    let pos = Pos::new(12_345, -6_789);
    assert_eq!(ship_movement(&ship, pos, keys, 15_625, Pos::new(0, 0)), pos);
}

#[test]
fn invulnerable_ship_cannot_fire() {
    let mut ship = ready_ship();
    ship.invulnerable = true;
    assert_eq!(check_if_firing(&mut ship, Pos::new(0, 0), true, 15_625), None);
    assert_eq!(ship.cooldown_time_left, 0);
}

#[test]
fn fire_rocket_waits_for_cooldown() {
    let mut ship = ready_ship();
    ship.cooldown_time_left = 1;
    assert_eq!(ship.fire_rocket(Pos::new(0, 0)), None);
    ship.cooldown_time_left = 0;
    let rocket = ship.fire_rocket(Pos::new(1, 2)).unwrap();
    assert_eq!(rocket.position, Pos::new(1, 2));
    assert!(!rocket.rocket.hit_target);
    assert_eq!(rocket.collider, Collider { name: ColliderKind::Rocket, shape: ColliderShape::Rectangle });
    assert_eq!(ship.cooldown_time_left, 500_000);
}

#[test]
fn ship_drifts_up_and_is_clamped() {
    let ship = ready_ship();
    let camera = Pos::new(0, 0);
    // One second with no key: the ship drifts up 150 pixels.
    assert_eq!(ship_movement(&ship, Pos::new(0, 0), no_keys(), 1_000_000, camera), Pos::new(0, 150_000));
    let right_up = MovementInput { up: true, down: false, left: false, right: true };
    assert_eq!(
        ship_movement(&ship, Pos::new(0, 0), right_up, 100_000, camera),
        Pos::new(15_000, 30_000)
    );
    let down = MovementInput { up: false, down: true, left: false, right: false };
    assert_eq!(ship_movement(&ship, Pos::new(0, 0), down, 100_000, camera), Pos::new(0, 0));
    let left = MovementInput { up: false, down: false, left: true, right: false };
    assert_eq!(
        ship_movement(&ship, Pos::new(-150_000, 270_000), left, 1_000_000, camera),
        Pos::new(-155_000, 275_000)
    );
}

#[test]
fn y_bounds_follow_camera_and_round() {
    assert_eq!(get_y_bounds(Pos::new(0, 0)), (275_000, -275_000));
    assert_eq!(get_y_bounds(Pos::new(0, 2_400)), (277_000, -273_000));
    assert_eq!(get_y_bounds(Pos::new(0, 2_500)), (278_000, -273_000));
    assert_eq!(get_y_bounds(Pos::new(0, -600_000)), (-325_000, -875_000));
}

#[test]
fn rocket_above_the_top_is_removed() {
    let camera = Pos::new(0, 0);
    let mut rocket = RocketBundle::new(Pos::new(0, 0)).rocket;
    assert!(rocket.is_outside_window(Pos::new(0, 330_001), camera));
    assert!(!rocket.is_outside_window(Pos::new(0, 330_000), camera));
    assert_eq!(update_rocket(&rocket, Pos::new(0, 330_001), camera, 15_625), None);
    rocket.hit_target = true;
    assert_eq!(update_rocket(&rocket, Pos::new(0, 330_001), camera, 15_625), None);
    assert_eq!(update_rocket(&rocket, Pos::new(0, 0), camera, 15_625), None);
}

#[test]
fn rocket_flies_up() {
    let rocket = RocketBundle::new(Pos::new(0, 0)).rocket;
    assert_eq!(
        update_rocket(&rocket, Pos::new(7, 100_000), Pos::new(0, 0), 100_000),
        Some(Pos::new(7, 130_000))
    );
    assert_eq!(
        update_rocket(&rocket, Pos::new(0, 0), Pos::new(0, 0), 15_625),
        Some(Pos::new(0, 4_687))
    );
}

#[test]
fn rocket_only_hits_asteroids() {
    let rocket: Rocket = RocketBundle::new(Pos::new(0, 0)).rocket;
    let p = Pos::new(0, 0);
    assert!(rocket.check_collision(p, Pos::new(28_500, 0), ColliderKind::Asteroid));
    assert!(!rocket.check_collision(p, Pos::new(28_501, 0), ColliderKind::Asteroid));
    assert!(!rocket.check_collision(p, Pos::new(0, 0), ColliderKind::Ship));
    assert!(!rocket.check_collision(p, Pos::new(0, 0), ColliderKind::Rocket));
}

#[test]
fn asteroid_collision_tests() {
    let mut asteroid = Asteroid { exploding: false };
    let p = Pos::new(0, 0);
    assert!(asteroid.check_collision(p, Pos::new(48_000, 0), ColliderKind::Ship));
    assert!(!asteroid.exploding);
    assert!(!asteroid.check_collision(p, Pos::new(48_001, 0), ColliderKind::Ship));
    assert!(!asteroid.check_collision(p, Pos::new(0, 0), ColliderKind::Asteroid));
    assert!(!asteroid.exploding);
    assert!(asteroid.check_collision(p, Pos::new(0, -28_500), ColliderKind::Rocket));
    assert!(asteroid.exploding);
}

#[test]
fn asteroid_take_damage_latches() {
    let mut asteroid = Asteroid { exploding: false };
    asteroid.take_damage();
    assert!(asteroid.exploding);
    asteroid.take_damage();
    assert!(asteroid.exploding);
}

#[test]
fn asteroid_below_the_view_is_outside() {
    let asteroid = Asteroid { exploding: false };
    let camera = Pos::new(0, 1_000_000);
    assert!(asteroid.is_outside_window(Pos::new(0, 669_999), camera));
    assert!(!asteroid.is_outside_window(Pos::new(0, 670_000), camera));
}

#[test]
fn asteroid_bundle_uses_given_or_random_spot() {
    let camera = Pos::new(0, 40_000);
    let given = AsteroidBundle::new(camera, Some(Pos::new(3, 4)));
    assert_eq!(given.position, Pos::new(3, 4));
    assert!(!given.asteroid.exploding);
    assert_eq!(given.animation.indices, AnimationIndices { first: 0, last: 7 });
    assert_eq!(given.collider, Collider { name: ColliderKind::Asteroid, shape: ColliderShape::Circle });
    for _ in 0..50 {
        let random = AsteroidBundle::new(camera, None);
        assert_eq!(random.position.y, 340_000);
        assert!(random.position.x >= -180_000 && random.position.x <= 180_000);
    }
}

#[test]
fn geometry_helpers() {
    assert_eq!(clamp(5, 0, 3), 3);
    assert_eq!(clamp(-5, 0, 3), 0);
    assert_eq!(clamp(2, 0, 3), 2);
    assert!(circles_intersect(Pos::new(0, 0), 3, Pos::new(3, 4), 2));
    assert!(!circles_intersect(Pos::new(0, 0), 3, Pos::new(3, 4), 1));
    assert!(box_intersects_circle(Pos::new(0, 0), 1, Pos::new(4, 5), 5));
    assert!(!box_intersects_circle(Pos::new(0, 0), 1, Pos::new(4, 5), 4));
    assert_eq!(round_to_pixel(1_499), 1_000);
    assert_eq!(round_to_pixel(1_500), 2_000);
    assert_eq!(round_to_pixel(-1_500), -2_000);
    assert_eq!(round_to_pixel(-1_499), -1_000);
    assert_eq!(advance(0, 150, 1_000_000, 1_000_000_000), 150_000);
    assert_eq!(advance(0, -150, 15_625, 1_000_000_000), -2_343);
    assert_eq!(advance(10, 300, u64::MAX, 1_000), 1_000);
}

#[test]
fn walls_frame_the_field() {
    assert_eq!(GameWall::Top.position(), Pos::new(0, 300_000));
    assert_eq!(GameWall::Bottom.position(), Pos::new(0, -300_000));
    assert_eq!(GameWall::Left.position(), Pos::new(-180_000, 0));
    assert_eq!(GameWall::Right.position(), Pos::new(180_000, 0));
    assert_eq!(GameWall::Left.size(), Pos::new(10_000, 610_000));
    assert_eq!(GameWall::Top.size(), Pos::new(370_000, 10_000));
    let wall = WallBundle::new(GameWall::Right);
    assert_eq!(wall.position, Pos::new(180_000, 0));
    assert_eq!(wall.size, Pos::new(10_000, 610_000));
}

#[test]
fn asteroid_reset_picks_a_new_spot_at_the_top() {
    let mut asteroid = Asteroid { exploding: false };
    let camera = Pos::new(0, -1_000_000);
    for _ in 0..50 {
        let p = asteroid.reset(camera);
        assert_eq!(p.y, -700_000);
        assert!(p.x >= -180_000 && p.x <= 180_000);
    }
    assert!(!asteroid.exploding);
}

#[test]
fn cooldown_runs_down_while_blinking() {
    let mut ship = ready_ship();
    ship.invulnerable = true;
    ship.cooldown_time_left = 100_000;
    assert_eq!(check_if_firing(&mut ship, Pos::new(0, 0), true, 40_000), None);
    assert_eq!(ship.cooldown_time_left, 60_000);
}

#[test]
fn destroyed_or_blinking_ship_cannot_fire_rocket() {
    let mut ship = ready_ship();
    ship.health = ShipHealth::Empty;
    let before = ship;
    assert_eq!(ship.fire_rocket(Pos::new(0, 0)), None);
    assert_eq!(ship, before);
    let mut blinking = ready_ship();
    blinking.invulnerable = true;
    assert_eq!(blinking.fire_rocket(Pos::new(0, 0)), None);
    assert_eq!(blinking.cooldown_time_left, 0);
}
