use space_shooter::asteroid::Asteroid;
use space_shooter::collider::ColliderKind;
use space_shooter::collision::{
    collision_checks, process_collision, Body, BodyState, ExplosionAnimations, ExplosionEvent,
};
use space_shooter::events::{explosion_event_listener, AppState};
use space_shooter::geometry::Pos;
use space_shooter::grid::{Grid, GridEntry};
use space_shooter::ship::{Rocket, Ship, ShipBundle, ShipHealth};
use space_shooter::timer::{AnimationIndices, AnimationProperties, AnimationTimer};

const SHIP_ID: u64 = 100;

fn ship_with(health: ShipHealth, invulnerable: bool) -> Ship {
    let mut ship = ShipBundle::new(500_000).ship;
    ship.health = health;
    ship.invulnerable = invulnerable;
    ship
}

fn asteroid_body(entity: u64, x: i64, y: i64, exploding: bool) -> Body {
    Body {
        entity,
        pos: Pos::new(x, y),
        frame: 0,
        state: BodyState::Asteroid(
            Asteroid { exploding },
            AnimationProperties {
                indices: AnimationIndices { first: 0, last: 7 },
                timer: AnimationTimer::new(120_000, false),
            },
        ),
    }
}

fn rocket_body(entity: u64, x: i64, y: i64) -> Body {
    Body {
        entity,
        pos: Pos::new(x, y),
        frame: 0,
        state: BodyState::Rocket(Rocket {
            animation_indices: AnimationIndices { first: 0, last: 2 },
            animation_timer: AnimationTimer::new(100_000, true),
            hit_target: false,
        }),
    }
}

/// Builds the grid from the bodies and the ship, then runs the resolver.
fn resolve(bodies: &mut Vec<Body>, ship: &mut Ship, ship_pos: Pos) -> Vec<ExplosionEvent> {
    let camera = Pos::new(0, 0);
    let mut grid = Grid::new(360_000, 600_000, 40_000).unwrap();
    let mut entries: Vec<GridEntry> = bodies.iter().map(|b| b.grid_entry()).collect();
    entries.push(GridEntry { entity: SHIP_ID, kind: ColliderKind::Ship, pos: ship_pos });
    grid.update_grid(camera, &entries);
    collision_checks(&grid, camera, bodies, ship)
}

fn exploding(b: &Body) -> bool {
    match b.state {
        BodyState::Asteroid(a, _) => a.exploding,
        _ => false,
    }
}

#[test]
fn full_ship_hit_by_asteroid_is_damaged() {
    let mut ship = ship_with(ShipHealth::Full, false);
    let mut bodies = vec![asteroid_body(1, 10_000, 5_000, false)];
    let events = resolve(&mut bodies, &mut ship, Pos::new(0, 0));
    assert_eq!(ship.health, ShipHealth::Damaged);
    assert!(ship.invulnerable);
    assert_eq!(
        events,
        vec![
            ExplosionEvent { explosion_type: ExplosionAnimations::AsteroidExplosion, entity: 1 },
            ExplosionEvent { explosion_type: ExplosionAnimations::DamageToShip, entity: SHIP_ID },
        ]
    );
    assert!(exploding(&bodies[0]));
}

#[test]
fn very_damaged_ship_hit_is_destroyed_and_game_ends() {
    let mut ship = ship_with(ShipHealth::VeryDamaged, false);
    let mut bodies = vec![asteroid_body(7, 0, 20_000, false)];
    let events = resolve(&mut bodies, &mut ship, Pos::new(0, 0));
    assert_eq!(ship.health, ShipHealth::Empty);
    assert!(!ship.invulnerable);
    assert_eq!(
        events,
        vec![
            ExplosionEvent { explosion_type: ExplosionAnimations::AsteroidExplosion, entity: 7 },
            ExplosionEvent { explosion_type: ExplosionAnimations::ShipExplosion, entity: SHIP_ID },
        ]
    );
    let mut state = AppState::InGame;
    let destroyed = explosion_event_listener(&events, &mut ship, &mut bodies, &mut state);
    assert_eq!(state, AppState::GameOverMenu);
    assert_eq!(destroyed, 1);
}

#[test]
fn exploding_asteroid_deals_no_damage() {
    let mut ship = ship_with(ShipHealth::Full, false);
    let mut bodies = vec![asteroid_body(1, 10_000, 0, true)];
    let before = ship;
    let events = resolve(&mut bodies, &mut ship, Pos::new(0, 0));
    assert!(events.is_empty());
    assert_eq!(ship, before);
    assert!(exploding(&bodies[0]));
}

#[test]
fn invulnerable_ship_takes_no_damage() {
    let mut ship = ship_with(ShipHealth::Damaged, true);
    let mut bodies = vec![asteroid_body(1, 10_000, 0, false), asteroid_body(2, -10_000, 0, false)];
    let events = resolve(&mut bodies, &mut ship, Pos::new(0, 0));
    assert!(events.is_empty());
    assert_eq!(ship.health, ShipHealth::Damaged);
    assert!(!exploding(&bodies[0]));
    assert!(!exploding(&bodies[1]));
}

#[test]
fn two_asteroids_in_one_pass_cost_one_step() {
    let mut ship = ship_with(ShipHealth::Full, false);
    let mut bodies = vec![asteroid_body(1, 10_000, 0, false), asteroid_body(2, -10_000, 0, false)];
    let events = resolve(&mut bodies, &mut ship, Pos::new(0, 0));
    assert_eq!(ship.health, ShipHealth::Damaged);
    assert_eq!(events.len(), 2);
    assert!(exploding(&bodies[0]));
    assert!(!exploding(&bodies[1]));
}

#[test]
fn rocket_hit_explodes_asteroid_and_marks_rocket() {
    let mut ship = ship_with(ShipHealth::Full, false);
    let mut bodies = vec![asteroid_body(1, 0, 100_000, false), rocket_body(2, 20_000, 100_000)];
    let events = resolve(&mut bodies, &mut ship, Pos::new(0, -200_000));
    assert_eq!(
        events,
        vec![ExplosionEvent { explosion_type: ExplosionAnimations::AsteroidExplosion, entity: 1 }]
    );
    assert!(exploding(&bodies[0]));
    match bodies[1].state {
        BodyState::Rocket(r) => assert!(r.hit_target),
        _ => panic!("rocket changed kind"),
    }
    assert_eq!(ship.health, ShipHealth::Full);
}

#[test]
fn far_apart_bodies_do_not_collide() {
    let mut ship = ship_with(ShipHealth::Full, false);
    let mut bodies = vec![asteroid_body(1, 100_000, 200_000, false), rocket_body(2, -100_000, 0)];
    let events = resolve(&mut bodies, &mut ship, Pos::new(0, -200_000));
    assert!(events.is_empty());
    assert_eq!(ship.health, ShipHealth::Full);
}

#[test]
fn asteroids_never_collide_with_each_other() {
    let cell = vec![GridEntry { entity: 2, kind: ColliderKind::Asteroid, pos: Pos::new(0, 0) }];
    let mut ship = ship_with(ShipHealth::Full, false);
    let mut state = asteroid_body(1, 0, 0, false).state;
    let mut events = Vec::new();
    process_collision(&cell, 1, Pos::new(0, 0), &mut events, &mut state, &mut ship);
    assert!(events.is_empty());
    assert_eq!(state, asteroid_body(1, 0, 0, false).state);
}

#[test]
fn damage_event_makes_ship_invulnerable() {
    let mut ship = ship_with(ShipHealth::Damaged, false);
    ship.invulnerable_timer.elapsed = 700_000;
    let mut bodies = vec![asteroid_body(3, 0, 0, false)];
    let mut state = AppState::InGame;
    let events = vec![
        ExplosionEvent { explosion_type: ExplosionAnimations::DamageToShip, entity: SHIP_ID },
        ExplosionEvent { explosion_type: ExplosionAnimations::AsteroidExplosion, entity: 3 },
        ExplosionEvent { explosion_type: ExplosionAnimations::AsteroidExplosion, entity: 99 },
    ];
    let destroyed = explosion_event_listener(&events, &mut ship, &mut bodies, &mut state);
    assert!(ship.invulnerable);
    assert_eq!(ship.invulnerable_timer.elapsed, 0);
    assert_eq!(destroyed, 1);
    assert!(exploding(&bodies[0]));
    assert_eq!(state, AppState::InGame);
}
