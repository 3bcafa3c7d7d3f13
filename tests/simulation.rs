use space_shooter::animation::{
    play_asteroid_animation, play_rocket_animation, play_ship_animation, ship_frame,
};
use space_shooter::asteroid::Asteroid;
use space_shooter::collision::{Body, BodyState};
use space_shooter::events::{pause_game, react_to_button_pressed, toggle_pause, AppState, ScoreTracker};
use space_shooter::geometry::Pos;
use space_shooter::lifecycle::{asteroid_manager, update_active_rockets, update_kinematic_object};
use space_shooter::ship::{MovementInput, RocketBundle, ShipBundle, ShipHealth};
use space_shooter::spawner::{choose_spawn_x, overlaps_any, place_spawn, spawn_asteroids};
use space_shooter::timer::{AnimationIndices, AnimationProperties, AnimationTimer};
use space_shooter::world::{animate_bodies, TickInput, World};

fn asteroid_body(entity: u64, x: i64, y: i64, exploding: bool) -> Body {
    Body {
        entity,
        pos: Pos::new(x, y),
        frame: 0,
        state: BodyState::Asteroid(
            Asteroid { exploding },
            AnimationProperties {
                indices: AnimationIndices { first: 0, last: 7 },
                timer: AnimationTimer::new(120_000, false),
            },
        ),
    }
}

fn rocket_body(entity: u64, x: i64, y: i64, hit_target: bool) -> Body {
    let mut rocket = RocketBundle::new(Pos::new(x, y)).rocket;
    rocket.hit_target = hit_target;
    Body { entity, pos: Pos::new(x, y), frame: 0, state: BodyState::Rocket(rocket) }
}

fn fired_timer() -> AnimationTimer {
    let mut timer = AnimationTimer::new(1_000_000, true);
    timer.elapsed = 999_999;
    timer
}

#[test]
fn spawner_respects_population_cap() {
    let camera = Pos::new(0, 0);
    let crowd: Vec<Pos> = (0..16).map(|i| Pos::new(-150_000 + i * 20_000, -200_000)).collect();
    let mut timer = fired_timer();
    assert_eq!(spawn_asteroids(&mut timer, 1, &crowd, camera), None);
    assert!(timer.just_finished);
    let fifteen: Vec<Pos> = crowd[..15].to_vec();
    let mut timer = fired_timer();
    let p = spawn_asteroids(&mut timer, 1, &fifteen, camera).unwrap();
    assert_eq!(p.y, 400_000);
    assert!(p.x >= -152_250 && p.x < 152_250);
    assert_eq!(timer.elapsed, 0);
    assert!(timer.duration >= 500_000 && timer.duration < 750_000);
}

#[test]
fn spawner_waits_for_its_timer() {
    let mut timer = AnimationTimer::new(1_000_000, true);
    assert_eq!(spawn_asteroids(&mut timer, 15_625, &Vec::new(), Pos::new(0, 0)), None);
    assert_eq!(timer.elapsed, 15_625);
}

#[test]
fn spawned_asteroids_keep_clear_when_possible() {
    let camera = Pos::new(0, 0);
    for _ in 0..20 {
        let existing = vec![Pos::new(0, 400_000)];
        let mut timer = fired_timer();
        let p = spawn_asteroids(&mut timer, 1, &existing, camera).unwrap();
        assert_eq!(p.y, 400_000);
        assert!(p.x >= -152_250 && p.x < 152_250);
    }
}

#[test]
fn choose_spawn_x_takes_first_clear_candidate() {
    let existing = vec![Pos::new(0, 0), Pos::new(50_000, 0)];
    assert_eq!(choose_spawn_x(&existing, 0, &vec![1_000, 60_000, 100_000]), 100_000);
    assert_eq!(choose_spawn_x(&existing, 0, &vec![13_875, 7]), 13_875);
    assert_eq!(choose_spawn_x(&existing, 0, &vec![1_000, 2_000]), 2_000);
    assert_eq!(choose_spawn_x(&existing, 13_875, &vec![0]), 0);
    assert!(overlaps_any(&existing, Pos::new(13_874, -13_874)));
    assert!(!overlaps_any(&existing, Pos::new(13_874, 13_875)));
    assert!(!overlaps_any(&Vec::new(), Pos::new(0, 0)));
}

#[test]
fn escaped_asteroids_are_removed() {
    let camera = Pos::new(0, 0);
    let bodies = vec![
        asteroid_body(1, 0, -330_001, false),
        asteroid_body(2, 0, -330_000, false),
        asteroid_body(3, 0, -900_000, true),
        rocket_body(4, 0, -900_000, false),
    ];
    let kept = asteroid_manager(&bodies, camera);
    assert_eq!(kept, vec![bodies[1], bodies[2], bodies[3]]);
}

#[test]
fn rockets_move_or_leave() {
    let camera = Pos::new(0, 0);
    let bodies = vec![
        rocket_body(1, 0, 0, false),
        rocket_body(2, 0, 0, true),
        asteroid_body(3, 0, 0, false),
        rocket_body(4, 0, 331_000, false),
        rocket_body(5, 10, 100, false),
    ];
    let kept = update_active_rockets(&bodies, camera, 100_000);
    assert_eq!(kept.len(), 3);
    assert_eq!(kept[0].entity, 1);
    assert_eq!(kept[0].pos, Pos::new(0, 30_000));
    assert_eq!(kept[1], bodies[2]);
    assert_eq!(kept[2].pos, Pos::new(10, 30_100));
}

#[test]
fn camera_scrolls_up() {
    assert_eq!(update_kinematic_object(Pos::new(0, 0), 1_000_000), Pos::new(0, 150_000));
    assert_eq!(update_kinematic_object(Pos::new(3, 0), 15_625), Pos::new(3, 2_343));
    assert_eq!(
        update_kinematic_object(Pos::new(0, 500_000_000_000), 1_000_000),
        Pos::new(0, 500_000_000_000)
    );
}

#[test]
fn pause_toggles_only_between_play_and_pause() {
    assert_eq!(toggle_pause(AppState::InGame), AppState::Paused);
    assert_eq!(toggle_pause(AppState::Paused), AppState::InGame);
    assert_eq!(toggle_pause(AppState::StartMenu), AppState::StartMenu);
    assert_eq!(toggle_pause(AppState::GameOverMenu), AppState::GameOverMenu);
    assert_eq!(pause_game(AppState::InGame, false), AppState::InGame);
    assert_eq!(pause_game(AppState::InGame, true), AppState::Paused);
    assert_eq!(react_to_button_pressed(AppState::Paused, true), AppState::InGame);
    assert_eq!(react_to_button_pressed(AppState::Paused, false), AppState::Paused);
}

#[test]
fn score_counts_time_and_asteroids() {
    let mut score = ScoreTracker::new();
    score.update_score(400_000);
    assert_eq!(score.score_count, 0);
    score.update_score(100_000);
    assert_eq!(score.score_count, 1);
    score.asteroid_destroyed(3);
    assert_eq!(score.score_count, 16);
    score.score_count = u64::MAX - 2;
    score.asteroid_destroyed(1);
    assert_eq!(score.score_count, u64::MAX);
    score.asteroid_destroyed(u64::MAX);
    assert_eq!(score.score_count, u64::MAX);
}

#[test]
fn timers_wrap_or_stop() {
    let mut repeating = AnimationTimer::new(100, true);
    assert!(!repeating.tick(99));
    assert!(repeating.tick(1));
    assert_eq!(repeating.elapsed, 0);
    assert!(repeating.tick(250));
    assert_eq!(repeating.elapsed, 50);
    assert!(repeating.finished());
    let mut once = AnimationTimer::new(100, false);
    assert!(once.tick(150));
    assert_eq!(once.elapsed, 100);
    assert!(once.finished());
    assert!(!once.tick(10));
    assert!(once.finished());
    once.reset();
    assert_eq!(once.elapsed, 0);
    assert!(!once.finished());
}

#[test]
fn ship_blinks_then_recovers() {
    let mut ship = ShipBundle::new(500_000).ship;
    ship.health = ShipHealth::Damaged;
    assert_eq!(play_ship_animation(&mut ship, 100_000), 3);
    ship.invulnerable = true;
    assert_eq!(play_ship_animation(&mut ship, 100_000), 0);
    assert_eq!(play_ship_animation(&mut ship, 400_000), 3);
    assert!(ship.invulnerable);
    assert_eq!(play_ship_animation(&mut ship, 1_500_000), 3);
    assert!(!ship.invulnerable);
    assert_eq!(ship.invulnerable_timer.elapsed, 0);
    assert_eq!(ship_frame(ShipHealth::Full), 1);
    assert_eq!(ship_frame(ShipHealth::Empty), 4);
}

#[test]
fn asteroid_explosion_plays_then_ends() {
    let live = Asteroid { exploding: false };
    let mut anim = AnimationProperties {
        indices: AnimationIndices { first: 0, last: 7 },
        timer: AnimationTimer::new(120_000, false),
    };
    assert_eq!(play_asteroid_animation(&live, &mut anim, 0, 15_625), Some(0));
    assert_eq!(anim.timer.elapsed, 0);
    let boom = Asteroid { exploding: true };
    assert_eq!(play_asteroid_animation(&boom, &mut anim, 0, 15_625), Some(1));
    assert_eq!(play_asteroid_animation(&boom, &mut anim, 7, 15_625), Some(7));
    assert_eq!(play_asteroid_animation(&boom, &mut anim, 3, 100_000), None);
}

#[test]
fn rocket_flame_cycles() {
    let mut rocket = RocketBundle::new(Pos::new(0, 0)).rocket;
    assert_eq!(play_rocket_animation(&mut rocket, 0, 50_000), 0);
    assert_eq!(play_rocket_animation(&mut rocket, 0, 50_000), 1);
    assert_eq!(play_rocket_animation(&mut rocket, 2, 100_000), 0);
    rocket.hit_target = true;
    assert_eq!(play_rocket_animation(&mut rocket, 1, 100_000), 1);
}

#[test]
fn finished_explosions_are_removed() {
    let bodies = vec![asteroid_body(1, 0, 0, true), asteroid_body(2, 0, 0, false), rocket_body(3, 0, 0, false)];
    let once = animate_bodies(&bodies, 15_625);
    assert_eq!(once.len(), 3);
    assert_eq!(once[0].frame, 1);
    assert_eq!(once[1], bodies[1]);
    let later = animate_bodies(&once, 200_000);
    assert_eq!(later.len(), 2);
    assert_eq!(later[0].entity, 2);
    assert_eq!(later[1].frame, 1);
}

fn keys(up: bool, fire: bool, pause: bool) -> TickInput {
    TickInput { movement: MovementInput { up, down: false, left: false, right: false }, fire, pause }
}

#[test]
fn world_runs_and_pauses() {
    let mut world = World::new();
    assert_eq!(world.state, AppState::InGame);
    world.tick(keys(false, false, false), 15_625);
    assert_eq!(world.camera, Pos::new(0, 2_343));
    assert_eq!(world.ship_pos, Pos::new(0, 2_343));
    world.ship.cooldown_time_left = 0;
    world.tick(keys(false, true, false), 15_625);
    assert_eq!(world.bodies.len(), 2);
    assert!(matches!(world.bodies[1].state, BodyState::Rocket(_)));
    assert_eq!(world.bodies[1].pos, Pos::new(0, 2_343 + 4_687));
    world.tick(keys(false, false, true), 15_625);
    assert_eq!(world.state, AppState::Paused);
    let camera = world.camera;
    world.tick(keys(true, true, false), 15_625);
    assert_eq!(world.camera, camera);
    world.tick(keys(false, false, true), 15_625);
    assert_eq!(world.state, AppState::InGame);
}

#[test]
fn destroyed_ship_stays_put_in_world() {
    let mut world = World::new();
    world.ship.health = ShipHealth::Empty;
    world.ship.cooldown_time_left = 0;
    let pos = world.ship_pos;
    for _ in 0..10 {
        world.tick(keys(true, true, false), 15_625);
    }
    assert_eq!(world.ship_pos, pos);
    assert_eq!(world.ship.health, ShipHealth::Empty);
    assert!(world.bodies.iter().all(|b| !matches!(b.state, BodyState::Rocket(_))));
}

#[test]
fn spawner_fills_the_world_over_time() {
    let mut world = World::new();
    for _ in 0..200 {
        world.tick(keys(false, false, false), 15_625);
    }
    assert!(world.bodies.iter().any(|b| matches!(b.state, BodyState::Asteroid(..))));
    assert!(world.score.score_count >= 6);
}

#[test]
fn new_world_holds_one_live_asteroid_at_the_top() {
    let world = World::new();
    assert_eq!(world.bodies.len(), 1);
    assert_eq!(world.bodies[0].pos.y, 300_000);
    assert!(world.bodies[0].pos.x >= -180_000 && world.bodies[0].pos.x <= 180_000);
    match world.bodies[0].state {
        BodyState::Asteroid(a, _) => assert!(!a.exploding),
        _ => panic!("expected an asteroid"),
    }
    assert_eq!(world.ship_pos, Pos::new(0, 0));
    assert_eq!(world.ship.health, ShipHealth::Full);
}

#[test]
fn tick_with_spawn_adds_the_given_asteroid() {
    let mut world = World::new();
    world.tick_with_spawn(keys(false, false, false), 15_625, Some(Pos::new(50_000, 400_000)));
    assert_eq!(world.bodies.len(), 2);
    assert_eq!(world.bodies[1].entity, 2);
    assert_eq!(world.bodies[1].pos, Pos::new(50_000, 400_000));
    assert_eq!(world.next_entity, 3);
    let mut paused = World::new();
    paused.state = AppState::Paused;
    paused.tick_with_spawn(keys(false, false, false), 15_625, Some(Pos::new(0, 0)));
    assert_eq!(paused.bodies.len(), 1);
}

#[test]
fn place_spawn_uses_first_clear_draw_and_new_delay() {
    let mut timer = fired_timer();
    let existing = vec![Pos::new(0, 400_000)];
    let p = place_spawn(&mut timer, &existing, Pos::new(0, 0), &vec![5_000, 20_000, -30_000], 600_000);
    assert_eq!(p, Pos::new(20_000, 400_000));
    assert_eq!(timer.duration, 600_000);
    assert_eq!(timer.elapsed, 0);
    let q = place_spawn(&mut timer, &existing, Pos::new(0, 0), &vec![5_000, -1_000], 700_000);
    assert_eq!(q, Pos::new(-1_000, 400_000));
}
