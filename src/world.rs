use vstd::prelude::*;

use crate::animation::{
    asteroid_animation_step, play_asteroid_animation, play_rocket_animation, play_ship_animation,
    rocket_animation_step, ship_animation_step,
};
use crate::asteroid::{asteroid_at, AsteroidBundle};
use crate::collision::{collision_checks, Body, BodyState};
use crate::collider::ColliderKind;
use crate::constants::{
    ASTEROID_CAP, ASTEROID_POINTS, CAMERA_LIMIT, GRID_SIZE, KINEMATIC_OBJECTS_SPEED, LEFT_WALL,
    RIGHT_WALL, SHIP_COOLDOWN_MICROS, SPAWN_FIRST_DELAY_MICROS, TOP_WALL, WINDOW_HEIGHT,
    WINDOW_WIDTH,
};
use crate::events::{
    add_capped, after_pause_key, apply_events, explosion_event_listener,
    lemma_apply_events_bodies, lemma_apply_events_ship, lemma_apply_events_state, pause_game,
    AppState, ScoreTracker,
};
use crate::geometry::{advance_spec, Pos};
use crate::grid::{Grid, GridEntry};
use crate::laws::{body_wf, lemma_resolve_all, unique_entities};
use crate::collision::resolve_all;
use crate::lifecycle::{
    asteroid_filter, asteroid_manager, rockets_after, update_active_rockets,
    update_kinematic_object,
};
use crate::ship::{
    can_fire, check_if_firing, firing_step, health_rank, moved_ship, rocket_at, ship_movement,
    MovementInput, Ship, ShipBundle, ShipHealth,
};
use crate::spawner::{spawn_asteroids, spawn_x_max, spawn_x_min, spawn_y};
use crate::timer::AnimationTimer;

verus! {

/// The keys that matter during one tick.
#[derive(Clone, Copy, Debug, PartialEq, Eq, Structural)]
pub struct TickInput {
    pub movement: MovementInput,
    pub fire: bool,
    pub pause: bool,
}

/// Everything the simulation owns: the grid, the camera, the ship, the other
/// collidable bodies, the game state, the score and the spawner's timer.
#[derive(Debug)]
pub struct World {
    pub grid: Grid,
    pub camera: Pos,
    pub ship: Ship,
    pub ship_entity: u64,
    pub ship_pos: Pos,
    pub ship_frame: usize,
    pub bodies: Vec<Body>,
    pub state: AppState,
    pub score: ScoreTracker,
    pub spawn_timer: AnimationTimer,
    pub next_entity: u64,
}

pub open spec fn bodies_wf(bodies: Seq<Body>) -> bool {
    forall|i: int| 0 <= i < bodies.len() ==> body_wf(#[trigger] bodies[i])
}

/// The bodies after one tick of their animations: exploding asteroids step
/// through their frames and are removed when the explosion is over; rockets in
/// flight cycle their frames.
pub open spec fn animated(bodies: Seq<Body>, dt: int) -> Seq<Body>
    decreases bodies.len(),
{
    if bodies.len() == 0 {
        bodies
    } else {
        let prev = animated(bodies.drop_last(), dt);
        let b = bodies.last();
        match b.state {
            BodyState::Asteroid(a, anim) => {
                let (anim2, f) = asteroid_animation_step(a, anim, b.frame, dt);
                match f {
                    Some(frame) => prev.push(
                        Body { frame, state: BodyState::Asteroid(a, anim2), ..b },
                    ),
                    None => prev,
                }
            },
            BodyState::Rocket(r) => {
                let (r2, frame) = rocket_animation_step(r, b.frame, dt);
                prev.push(Body { frame, state: BodyState::Rocket(r2), ..b })
            },
            BodyState::Ship => prev.push(b),
        }
    }
}

/// Runs one tick of every body's animation.
pub fn animate_bodies(bodies: &Vec<Body>, dt: u64) -> (r: Vec<Body>)
    requires
        bodies_wf(bodies@),
    ensures
        r@ == animated(bodies@, dt as int),
        bodies_wf(r@),
{
    let mut out: Vec<Body> = Vec::new();
    let n: usize = bodies.len();
    let mut i: usize = 0;
    while i < n
        invariant
            i <= n,
            n == bodies@.len(),
            bodies_wf(bodies@),
            bodies_wf(out@),
            out@ == animated(bodies@.take(i as int), dt as int),
        decreases n - i,
    {
        let b: Body = bodies[i];
        proof {
            assert(bodies@.take(i + 1).drop_last() == bodies@.take(i as int));
            assert(bodies@.take(i + 1).last() == b);
            assert(body_wf(bodies@[i as int]));
        }
        match b.state {
            BodyState::Asteroid(a, anim0) => {
                let mut anim = anim0;
                match play_asteroid_animation(&a, &mut anim, b.frame, dt) {
                    Some(frame) => out.push(Body { frame, state: BodyState::Asteroid(a, anim), ..b }),
                    None => {},
                }
            },
            BodyState::Rocket(r0) => {
                let mut r = r0;
                let frame: usize = play_rocket_animation(&mut r, b.frame, dt);
                out.push(Body { frame, state: BodyState::Rocket(r), ..b });
            },
            BodyState::Ship => out.push(b),
        }
        i = i + 1;
    }
    proof {
        assert(bodies@.take(n as int) == bodies@);
    }
    out
}

proof fn lemma_rockets_after_wf(bodies: Seq<Body>, cam_y: int, dt: int)
    requires
        bodies_wf(bodies),
    ensures
        bodies_wf(rockets_after(bodies, cam_y, dt)),
    decreases bodies.len(),
{
    if bodies.len() > 0 {
        let rest = bodies.drop_last();
        assert(bodies_wf(rest)) by {
            assert forall|i: int| 0 <= i < rest.len() implies body_wf(#[trigger] rest[i]) by {
                assert(rest[i] == bodies[i]);
            }
        }
        lemma_rockets_after_wf(rest, cam_y, dt);
        assert(body_wf(bodies[bodies.len() - 1]));
    }
}

proof fn lemma_filter_wf(bodies: Seq<Body>, pred: spec_fn(Body) -> bool)
    requires
        bodies_wf(bodies),
    ensures
        bodies_wf(bodies.filter(pred)),
{
    let f = bodies.filter(pred);
    assert forall|i: int| 0 <= i < f.len() implies body_wf(#[trigger] f[i]) by {
        assert(f.contains(f[i]));
        bodies.lemma_filter_contains_rev(pred, f[i]);
    }
}

/// Every body's entity lies strictly between `lo` and `hi`.
pub open spec fn ids_between(bodies: Seq<Body>, lo: int, hi: int) -> bool {
    forall|i: int| 0 <= i < bodies.len() ==> lo < (#[trigger] bodies[i]).entity < hi
}

/// Entities increase along the sequence, so no two bodies share one.
pub open spec fn sorted_ids(bodies: Seq<Body>) -> bool {
    forall|i: int, j: int| 0 <= i < j < bodies.len() ==> (#[trigger] bodies[i]).entity < (#[trigger] bodies[j]).entity
}

proof fn lemma_rockets_after_ids(bodies: Seq<Body>, cam_y: int, dt: int, lo: int, hi: int)
    requires
        ids_between(bodies, lo, hi),
    ensures
        ids_between(rockets_after(bodies, cam_y, dt), lo, hi),
    decreases bodies.len(),
{
    if bodies.len() > 0 {
        let rest = bodies.drop_last();
        assert(ids_between(rest, lo, hi)) by {
            assert forall|i: int| 0 <= i < rest.len() implies lo < (#[trigger] rest[i]).entity < hi by {
                assert(rest[i] == bodies[i]);
            }
        }
        lemma_rockets_after_ids(rest, cam_y, dt, lo, hi);
        assert(lo < bodies[bodies.len() - 1].entity < hi);
    }
}

proof fn lemma_rockets_after_sorted(bodies: Seq<Body>, cam_y: int, dt: int)
    requires
        sorted_ids(bodies),
    ensures
        sorted_ids(rockets_after(bodies, cam_y, dt)),
    decreases bodies.len(),
{
    if bodies.len() > 0 {
        let rest = bodies.drop_last();
        let last = bodies.last();
        assert(sorted_ids(rest)) by {
            assert forall|i: int, j: int| 0 <= i < j < rest.len() implies (#[trigger] rest[i]).entity
                < (#[trigger] rest[j]).entity by {
                assert(rest[i] == bodies[i] && rest[j] == bodies[j]);
            }
        }
        assert(ids_between(rest, -1, last.entity as int)) by {
            assert forall|i: int| 0 <= i < rest.len() implies -1 < (#[trigger] rest[i]).entity < last.entity by {
                assert(rest[i] == bodies[i]);
            }
        }
        lemma_rockets_after_sorted(rest, cam_y, dt);
        lemma_rockets_after_ids(rest, cam_y, dt, -1, last.entity as int);
    }
}

proof fn lemma_animated_ids(bodies: Seq<Body>, dt: int, lo: int, hi: int)
    requires
        ids_between(bodies, lo, hi),
    ensures
        ids_between(animated(bodies, dt), lo, hi),
    decreases bodies.len(),
{
    if bodies.len() > 0 {
        let rest = bodies.drop_last();
        assert(ids_between(rest, lo, hi)) by {
            assert forall|i: int| 0 <= i < rest.len() implies lo < (#[trigger] rest[i]).entity < hi by {
                assert(rest[i] == bodies[i]);
            }
        }
        lemma_animated_ids(rest, dt, lo, hi);
        assert(lo < bodies[bodies.len() - 1].entity < hi);
    }
}

proof fn lemma_animated_sorted(bodies: Seq<Body>, dt: int)
    requires
        sorted_ids(bodies),
    ensures
        sorted_ids(animated(bodies, dt)),
    decreases bodies.len(),
{
    if bodies.len() > 0 {
        let rest = bodies.drop_last();
        let last = bodies.last();
        assert(sorted_ids(rest)) by {
            assert forall|i: int, j: int| 0 <= i < j < rest.len() implies (#[trigger] rest[i]).entity
                < (#[trigger] rest[j]).entity by {
                assert(rest[i] == bodies[i] && rest[j] == bodies[j]);
            }
        }
        assert(ids_between(rest, -1, last.entity as int)) by {
            assert forall|i: int| 0 <= i < rest.len() implies -1 < (#[trigger] rest[i]).entity < last.entity by {
                assert(rest[i] == bodies[i]);
            }
        }
        lemma_animated_sorted(rest, dt);
        lemma_animated_ids(rest, dt, -1, last.entity as int);
    }
}

proof fn lemma_filter_ids(bodies: Seq<Body>, pred: spec_fn(Body) -> bool, lo: int, hi: int)
    requires
        ids_between(bodies, lo, hi),
    ensures
        ids_between(bodies.filter(pred), lo, hi),
{
    let f = bodies.filter(pred);
    assert forall|i: int| 0 <= i < f.len() implies lo < (#[trigger] f[i]).entity < hi by {
        assert(f.contains(f[i]));
        bodies.lemma_filter_contains_rev(pred, f[i]);
    }
}

proof fn lemma_filter_sorted(bodies: Seq<Body>, pred: spec_fn(Body) -> bool)
    requires
        sorted_ids(bodies),
    ensures
        sorted_ids(bodies.filter(pred)),
    decreases bodies.len(),
{
    if bodies.len() > 0 {
        let rest = bodies.drop_last();
        let last = bodies.last();
        assert(sorted_ids(rest)) by {
            assert forall|i: int, j: int| 0 <= i < j < rest.len() implies (#[trigger] rest[i]).entity
                < (#[trigger] rest[j]).entity by {
                assert(rest[i] == bodies[i] && rest[j] == bodies[j]);
            }
        }
        assert(ids_between(rest, -1, last.entity as int)) by {
            assert forall|i: int| 0 <= i < rest.len() implies -1 < (#[trigger] rest[i]).entity < last.entity by {
                assert(rest[i] == bodies[i]);
            }
        }
        lemma_filter_sorted(rest, pred);
        lemma_filter_ids(rest, pred, -1, last.entity as int);
        assert(bodies == rest.push(last));
        rest.lemma_filter_push(last, pred);
    }
}

/// The body of a rocket just fired from `p`.
pub open spec fn rocket_body(entity: u64, p: Pos) -> Body {
    let rb = rocket_at(p);
    Body { entity, pos: rb.position, frame: rb.frame, state: BodyState::Rocket(rb.rocket) }
}

/// The body of an asteroid just spawned at `p`.
pub open spec fn asteroid_body(entity: u64, p: Pos) -> Body {
    let ab = asteroid_at(p);
    Body { entity, pos: p, frame: ab.frame, state: BodyState::Asteroid(ab.asteroid, ab.animation) }
}

/// Adds `b` under the next free entity, while entities remain.
pub open spec fn with_body(bodies: Seq<Body>, next: u64, b: Body, add: bool) -> (Seq<Body>, u64) {
    if add && next < u64::MAX {
        (bodies.push(b), (next + 1) as u64)
    } else {
        (bodies, next)
    }
}

/// What the grid is built from: every body, then the ship.
pub open spec fn entries_of(bodies: Seq<Body>, ship_entity: u64, ship_pos: Pos) -> Seq<GridEntry> {
    bodies.map_values(|b: Body| b.entry()).push(
        GridEntry { entity: ship_entity, kind: ColliderKind::Ship, pos: ship_pos },
    )
}

pub open spec fn is_asteroid_body() -> spec_fn(Body) -> bool {
    |b: Body| b.state is Asteroid
}

/// How many asteroids are alive.
pub open spec fn asteroid_count(bodies: Seq<Body>) -> int {
    bodies.filter(is_asteroid_body()).len() as int
}

/// One tick from `w` to `n`, with `spawned` where the spawner put a new asteroid.
///
/// The pause key is handled first. Outside play nothing else changes. In play,
/// in order: the ship fires if it may (the rocket gets the next entity); rockets
/// fly or leave; the grid is rebuilt from the bodies and the ship; the collision
/// resolver runs over every body; the spawned asteroid joins; escaped asteroids
/// leave; the ship moves (unless destroyed) and the camera scrolls; the
/// explosion events are applied; the ship blinks, the other bodies animate, and
/// the score counts destroyed asteroids and survived time.
pub open spec fn stepped(w: World, n: World, input: TickInput, dt: int, spawned: Option<Pos>) -> bool {
    let state0 = after_pause_key(w.state, input.pause);
    let cam = w.camera;
    if state0 != AppState::InGame {
        &&& n.state == state0
        &&& n.bodies@ == w.bodies@
        &&& n.ship == w.ship
        &&& n.ship_pos == w.ship_pos
        &&& n.ship_frame == w.ship_frame
        &&& n.camera == w.camera
        &&& n.score == w.score
        &&& n.next_entity == w.next_entity
        &&& n.ship_entity == w.ship_entity
        &&& n.grid.same_shape(w.grid)
        &&& n.grid.cells@ == w.grid.cells@
    } else {
        let ship1 = firing_step(w.ship, input.fire, dt);
        let (bodies1, ne1) = with_body(
            w.bodies@,
            w.next_entity,
            rocket_body(w.next_entity, w.ship_pos),
            input.fire && can_fire(w.ship),
        );
        let bodies2 = rockets_after(bodies1, cam.y as int, dt);
        let (ship3, bodies3, events) = resolve_all(ship1, bodies2, n.grid, cam);
        let (bodies4, ne2) = match spawned {
            Some(p) => with_body(bodies3, ne1, asteroid_body(ne1, p), true),
            None => (bodies3, ne1),
        };
        let bodies5 = bodies4.filter(asteroid_filter(cam.y as int));
        let ship_pos = if ship3.health == ShipHealth::Empty {
            w.ship_pos
        } else {
            moved_ship(w.ship_pos, input.movement, dt, cam.y as int)
        };
        let (ship4, bodies6, state, destroyed) = apply_events((ship3, bodies5, state0, 0), events);
        let score1 = add_capped(w.score.score_count as int, ASTEROID_POINTS * destroyed);
        let (ship5, frame) = ship_animation_step(ship4, dt);
        let t = w.score.timer.ticked(dt);
        &&& n.grid.same_shape(w.grid)
        &&& forall|c: int|
            0 <= c < n.grid.cells@.len() ==> (#[trigger] n.grid.cells@[c])@ == entries_of(
                bodies2,
                w.ship_entity,
                w.ship_pos,
            ).filter(w.grid.in_cell(cam, c))
        &&& n.ship == ship5
        &&& n.ship_frame == frame
        &&& n.ship_pos == ship_pos
        &&& n.ship_entity == w.ship_entity
        &&& n.camera == (Pos {
            y: advance_spec(cam.y as int, KINEMATIC_OBJECTS_SPEED as int, dt, CAMERA_LIMIT as int) as i64,
            ..cam
        })
        &&& n.bodies@ == animated(bodies6, dt)
        &&& n.state == state
        &&& n.next_entity == ne2
        &&& n.score.timer == t
        &&& n.score.score_count == if t.just_finished {
            add_capped(score1, 1)
        } else {
            score1
        }
    }
}

/// What the spawner did in a tick from `w` to `n`: outside play nothing; in play
/// its timer ticked, and it placed an asteroid exactly when the timer fired with
/// no more than `ASTEROID_CAP` asteroids alive, at the spawn height and inside the
/// spawn columns, restarting its timer.
pub open spec fn spawn_outcome(w: World, n: World, input: TickInput, dt: int, spawned: Option<Pos>) -> bool {
    if after_pause_key(w.state, input.pause) != AppState::InGame {
        spawned is None && n.spawn_timer == w.spawn_timer
    } else {
        let t = w.spawn_timer.ticked(dt);
        &&& spawned is Some <==> (t.just_finished && asteroid_count(w.bodies@) <= ASTEROID_CAP)
        &&& spawned is None ==> n.spawn_timer == t
        &&& spawned matches Some(p) ==> p.y == spawn_y(cam_y_of(w)) && spawn_x_min() <= p.x < spawn_x_max()
            && n.spawn_timer.elapsed == 0
    }
}

pub open spec fn cam_y_of(w: World) -> int {
    w.camera.y as int
}

/// How a tick may change the ship's health: by at most one step; not at all while
/// it blinks through the whole tick; and a ship that survives a hit is left
/// blinking, unless the tick is longer than the whole blinking time.
pub open spec fn window_ok(w: World, n: World, dt: int) -> bool {
    &&& health_rank(w.ship.health) <= health_rank(n.ship.health) <= health_rank(w.ship.health) + 1
    &&& w.ship.invulnerable && !w.ship.invulnerable_timer.ticked(dt).is_finished() ==> n.ship.health
        == w.ship.health && n.ship.invulnerable
    &&& health_rank(n.ship.health) == health_rank(w.ship.health) + 1 && n.ship.health
        != ShipHealth::Empty && dt < w.ship.invulnerable_timer.duration ==> n.ship.invulnerable
}

impl World {
    pub open spec fn wf(self) -> bool {
        &&& self.grid.wf()
        &&& self.camera.camera_ok()
        &&& self.ship.wf()
        &&& self.ship_pos.wf()
        &&& self.spawn_timer.wf()
        &&& self.score.wf()
        &&& bodies_wf(self.bodies@)
        &&& sorted_ids(self.bodies@)
        &&& ids_between(self.bodies@, self.ship_entity as int, self.next_entity as int)
        &&& self.ship_entity < self.next_entity
        &&& !self.ship.invulnerable ==> self.ship.invulnerable_timer.elapsed == 0
    }

    /// In a well-formed world no two bodies share an entity, and none has the
    /// ship's.
    pub proof fn lemma_entities_unique(self)
        requires
            self.wf(),
        ensures
            unique_entities(self.bodies@),
            forall|i: int| 0 <= i < self.bodies@.len() ==> (#[trigger] self.bodies@[i]).entity != self.ship_entity,
    {
        assert forall|i: int, j: int|
            0 <= i < self.bodies@.len() && 0 <= j < self.bodies@.len() && i != j implies (#[trigger] self.bodies@[i]).entity
                != (#[trigger] self.bodies@[j]).entity by {
            if i < j {
                assert(self.bodies@[i].entity < self.bodies@[j].entity);
            } else {
                assert(self.bodies@[j].entity < self.bodies@[i].entity);
            }
        }
    }

    /// A world at the start of a game: the camera and the ship at the origin, one
    /// live asteroid at a random column of the top edge of the view, a zero score,
    /// and the game running.
    pub fn new() -> (r: World)
        ensures
            r.wf(),
            r.state == AppState::InGame,
            r.ship.health == ShipHealth::Full,
            r.ship_pos == (Pos { x: 0, y: 0 }),
            r.camera == (Pos { x: 0, y: 0 }),
            r.bodies@.len() == 1,
            r.bodies@[0] == asteroid_body(1, r.bodies@[0].pos),
            r.bodies@[0].pos.y == TOP_WALL,
            LEFT_WALL <= r.bodies@[0].pos.x <= RIGHT_WALL,
            r.score.score_count == 0,
    {
        let grid = Grid::new(WINDOW_WIDTH, WINDOW_HEIGHT, GRID_SIZE);
        proof {
            assert(crate::grid::ceil_div(WINDOW_WIDTH as int, GRID_SIZE as int) == 9);
            assert(crate::grid::ceil_div(WINDOW_HEIGHT as int, GRID_SIZE as int) == 15);
        }
        let grid = grid.unwrap();
        let camera = Pos { x: 0, y: 0 };
        let ship_bundle = ShipBundle::new(SHIP_COOLDOWN_MICROS);
        let asteroid = AsteroidBundle::new(camera, None);
        let mut bodies: Vec<Body> = Vec::new();
        bodies.push(
            Body {
                entity: 1,
                pos: asteroid.position,
                frame: asteroid.frame,
                state: BodyState::Asteroid(asteroid.asteroid, asteroid.animation),
            },
        );
        World {
            grid,
            camera,
            ship: ship_bundle.ship,
            ship_entity: 0,
            ship_pos: ship_bundle.position,
            ship_frame: ship_bundle.frame,
            bodies,
            state: AppState::InGame,
            score: ScoreTracker::new(),
            spawn_timer: AnimationTimer::new(SPAWN_FIRST_DELAY_MICROS, true),
            next_entity: 2,
        }
    }

    /// The grid snapshot of this tick: every body and the ship.
    fn grid_entries(&self) -> (r: Vec<GridEntry>)
        requires
            self.wf(),
        ensures
            r@ == entries_of(self.bodies@, self.ship_entity, self.ship_pos),
            forall|i: int| 0 <= i < r@.len() ==> (#[trigger] r@[i]).pos.wf(),
    {
        let mut entries: Vec<GridEntry> = Vec::new();
        let n: usize = self.bodies.len();
        let mut i: usize = 0;
        while i < n
            invariant
                i <= n,
                n == self.bodies@.len(),
                self.wf(),
                entries@ == self.bodies@.take(i as int).map_values(|b: Body| b.entry()),
                forall|k: int| 0 <= k < entries@.len() ==> (#[trigger] entries@[k]).pos.wf(),
            decreases n - i,
        {
            proof {
                assert(body_wf(self.bodies@[i as int]));
            }
            entries.push(self.bodies[i].grid_entry());
            proof {
                assert(self.bodies@.take(i + 1).map_values(|b: Body| b.entry()) =~= self.bodies@.take(
                    i as int,
                ).map_values(|b: Body| b.entry()).push(self.bodies@[i as int].entry()));
            }
            i = i + 1;
        }
        proof {
            assert(self.bodies@.take(n as int) == self.bodies@);
        }
        entries.push(GridEntry { entity: self.ship_entity, kind: ColliderKind::Ship, pos: self.ship_pos });
        entries
    }

    /// Positions of the asteroids, for the spawner.
    fn asteroid_positions(&self) -> (r: Vec<Pos>)
        requires
            self.wf(),
        ensures
            r@.len() == asteroid_count(self.bodies@),
            forall|i: int| 0 <= i < r@.len() ==> (#[trigger] r@[i]).wf(),
    {
        let mut out: Vec<Pos> = Vec::new();
        let n: usize = self.bodies.len();
        let mut i: usize = 0;
        while i < n
            invariant
                i <= n,
                n == self.bodies@.len(),
                self.wf(),
                out@.len() == self.bodies@.take(i as int).filter(is_asteroid_body()).len(),
                forall|k: int| 0 <= k < out@.len() ==> (#[trigger] out@[k]).wf(),
            decreases n - i,
        {
            proof {
                assert(body_wf(self.bodies@[i as int]));
                assert(self.bodies@.take(i + 1) == self.bodies@.take(i as int).push(self.bodies@[i as int]));
                self.bodies@.take(i as int).lemma_filter_push(self.bodies@[i as int], is_asteroid_body());
            }
            match self.bodies[i].state {
                BodyState::Asteroid(..) => out.push(self.bodies[i].pos),
                _ => {},
            }
            i = i + 1;
        }
        proof {
            assert(self.bodies@.take(n as int) == self.bodies@);
        }
        out
    }

    /// One fixed step of the game with the spawner's outcome given: `spawned` is
    /// where a new asteroid goes this tick, if anywhere.
    #[verifier::rlimit(100)]
    #[verifier::spinoff_prover]
    pub fn tick_with_spawn(&mut self, input: TickInput, dt: u64, spawned: Option<Pos>)
        requires
            old(self).wf(),
            spawned matches Some(p) ==> p.wf(),
        ensures
            final(self).wf(),
            stepped(*old(self), *final(self), input, dt as int, spawned),
            final(self).spawn_timer == old(self).spawn_timer,
            window_ok(*old(self), *final(self), dt as int),
            old(self).ship.health == ShipHealth::Empty ==> final(self).ship.health
                == ShipHealth::Empty && final(self).ship_pos == old(self).ship_pos,
    {
        let ghost w = *self;
        self.state = pause_game(self.state, input.pause);
        if self.state != AppState::InGame {
            return;
        }
        let fired = check_if_firing(&mut self.ship, self.ship_pos, input.fire, dt);
        match fired {
            Some(rocket_bundle) => {
                if self.next_entity < u64::MAX {
                    self.bodies.push(
                        Body {
                            entity: self.next_entity,
                            pos: rocket_bundle.position,
                            frame: rocket_bundle.frame,
                            state: BodyState::Rocket(rocket_bundle.rocket),
                        },
                    );
                    self.next_entity = self.next_entity + 1;
                }
            },
            None => {},
        }
        let ghost bodies1 = self.bodies@;
        let ghost ne1 = self.next_entity;
        proof {
            assert((bodies1, ne1) == with_body(
                w.bodies@,
                w.next_entity,
                rocket_body(w.next_entity, w.ship_pos),
                input.fire && can_fire(w.ship),
            ));
            assert forall|i: int| 0 <= i < bodies1.len() implies w.ship_entity < (#[trigger] bodies1[i]).entity < ne1 by {
                if i < w.bodies@.len() {
                    assert(bodies1[i] == w.bodies@[i]);
                }
            }
            assert forall|i: int, j: int| 0 <= i < j < bodies1.len() implies (#[trigger] bodies1[i]).entity
                < (#[trigger] bodies1[j]).entity by {
                assert(bodies1[i] == w.bodies@[i]);
                if j < w.bodies@.len() {
                    assert(bodies1[j] == w.bodies@[j]);
                }
            }
            lemma_rockets_after_wf(bodies1, self.camera.y as int, dt as int);
            lemma_rockets_after_sorted(bodies1, self.camera.y as int, dt as int);
            lemma_rockets_after_ids(bodies1, self.camera.y as int, dt as int, w.ship_entity as int, ne1 as int);
        }
        self.bodies = update_active_rockets(&self.bodies, self.camera, dt);

        let entries = self.grid_entries();
        self.grid.update_grid(self.camera, &entries);
        let ghost bodies2 = self.bodies@;
        let ghost ship1 = self.ship;
        let events = collision_checks(&self.grid, self.camera, &mut self.bodies, &mut self.ship);
        let ghost bodies3 = self.bodies@;
        let ghost ship3 = self.ship;
        proof {
            lemma_resolve_all(ship1, bodies2, self.grid, self.camera);
            assert forall|i: int| 0 <= i < bodies3.len() implies body_wf(#[trigger] bodies3[i]) by {
                assert(body_wf(bodies2[i]));
            }
            assert forall|i: int, j: int| 0 <= i < j < bodies3.len() implies (#[trigger] bodies3[i]).entity
                < (#[trigger] bodies3[j]).entity by {
                assert(bodies2[i].entity < bodies2[j].entity);
            }
            assert forall|i: int| 0 <= i < bodies3.len() implies w.ship_entity < (#[trigger] bodies3[i]).entity < ne1 by {
                assert(w.ship_entity < bodies2[i].entity < ne1);
            }
        }

        match spawned {
            Some(p) => {
                if self.next_entity < u64::MAX {
                    let bundle = AsteroidBundle::new(self.camera, Some(p));
                    self.bodies.push(
                        Body {
                            entity: self.next_entity,
                            pos: bundle.position,
                            frame: bundle.frame,
                            state: BodyState::Asteroid(bundle.asteroid, bundle.animation),
                        },
                    );
                    self.next_entity = self.next_entity + 1;
                }
            },
            None => {},
        }
        let ghost bodies4 = self.bodies@;
        proof {
            assert forall|i: int| 0 <= i < bodies4.len() implies w.ship_entity < (#[trigger] bodies4[i]).entity < self.next_entity by {
                if i < bodies3.len() {
                    assert(bodies4[i] == bodies3[i]);
                }
            }
            assert forall|i: int, j: int| 0 <= i < j < bodies4.len() implies (#[trigger] bodies4[i]).entity
                < (#[trigger] bodies4[j]).entity by {
                assert(bodies4[i] == bodies3[i]);
                if j < bodies3.len() {
                    assert(bodies4[j] == bodies3[j]);
                }
            }
            assert forall|i: int| 0 <= i < bodies4.len() implies body_wf(#[trigger] bodies4[i]) by {
                if i < bodies3.len() {
                    assert(bodies4[i] == bodies3[i]);
                }
            }
            lemma_filter_wf(bodies4, asteroid_filter(self.camera.y as int));
            lemma_filter_sorted(bodies4, asteroid_filter(self.camera.y as int));
            lemma_filter_ids(bodies4, asteroid_filter(self.camera.y as int), w.ship_entity as int, self.next_entity as int);
        }
        self.bodies = asteroid_manager(&self.bodies, self.camera);

        self.ship_pos = ship_movement(&self.ship, self.ship_pos, input.movement, dt, self.camera);
        self.camera = update_kinematic_object(self.camera, dt);

        let ghost bodies5 = self.bodies@;
        let destroyed: u64 = explosion_event_listener(&events, &mut self.ship, &mut self.bodies, &mut self.state);
        let ghost bodies6 = self.bodies@;
        let ghost ship4 = self.ship;
        proof {
            lemma_apply_events_bodies((ship3, bodies5, AppState::InGame, 0), events@);
            lemma_apply_events_state((ship3, bodies5, AppState::InGame, 0), events@);
            lemma_apply_events_ship((ship3, bodies5, AppState::InGame, 0), events@);
            assert forall|i: int| 0 <= i < bodies6.len() implies body_wf(#[trigger] bodies6[i]) by {
                assert(body_wf(bodies5[i]));
            }
            assert forall|i: int, j: int| 0 <= i < j < bodies6.len() implies (#[trigger] bodies6[i]).entity
                < (#[trigger] bodies6[j]).entity by {
                assert(bodies5[i].entity < bodies5[j].entity);
            }
            assert forall|i: int| 0 <= i < bodies6.len() implies w.ship_entity < (#[trigger] bodies6[i]).entity < self.next_entity by {
                assert(w.ship_entity < bodies5[i].entity < self.next_entity);
            }
        }
        self.score.asteroid_destroyed(destroyed);

        self.ship_frame = play_ship_animation(&mut self.ship, dt);
        proof {
            lemma_animated_sorted(bodies6, dt as int);
            lemma_animated_ids(bodies6, dt as int, w.ship_entity as int, self.next_entity as int);
        }
        self.bodies = animate_bodies(&self.bodies, dt);
        self.score.update_score(dt);
    }

    /// One fixed step of the game (see `stepped`): the spawner draws its outcome
    /// and the rest follows it exactly.
    pub fn tick(&mut self, input: TickInput, dt: u64)
        requires
            old(self).wf(),
        ensures
            final(self).wf(),
            exists|spawned: Option<Pos>|
                stepped(*old(self), *final(self), input, dt as int, spawned) && spawn_outcome(
                    *old(self),
                    *final(self),
                    input,
                    dt as int,
                    spawned,
                ),
            window_ok(*old(self), *final(self), dt as int),
            old(self).ship.health == ShipHealth::Empty ==> final(self).ship.health
                == ShipHealth::Empty && final(self).ship_pos == old(self).ship_pos,
    {
        let ghost w = *self;
        let state0 = pause_game(self.state, input.pause);
        let spawned = if state0 == AppState::InGame {
            let positions = self.asteroid_positions();
            spawn_asteroids(&mut self.spawn_timer, dt, &positions, self.camera)
        } else {
            None
        };
        let ghost mid = *self;
        self.tick_with_spawn(input, dt, spawned);
        proof {
            assert(stepped(mid, *self, input, dt as int, spawned));
            assert(stepped(w, *self, input, dt as int, spawned));
            assert(spawn_outcome(w, *self, input, dt as int, spawned));
        }
    }
}

} // verus!
