use vstd::prelude::*;

use crate::asteroid::Asteroid;
use crate::collision::{Body, BodyState, ExplosionAnimations, ExplosionEvent};
use crate::constants::{ASTEROID_POINTS, SCORE_INTERVAL_MICROS};
use crate::laws::body_wf;
use crate::ship::Ship;
use crate::timer::AnimationTimer;

verus! {

/// Which screen the game is on; it decides which systems run each tick.
#[derive(Clone, Copy, Debug, PartialEq, Eq, Structural)]
pub enum AppState {
    StartMenu,
    GameOverMenu,
    InGame,
    Paused,
}

/// The pause key (or the pause button) switches between playing and paused and
/// does nothing on the other screens.
pub open spec fn toggled(state: AppState) -> AppState {
    match state {
        AppState::InGame => AppState::Paused,
        AppState::Paused => AppState::InGame,
        _ => state,
    }
}

pub fn toggle_pause(state: AppState) -> (r: AppState)
    ensures
        r == toggled(state),
{
    match state {
        AppState::InGame => AppState::Paused,
        AppState::Paused => AppState::InGame,
        _ => state,
    }
}

pub open spec fn after_pause_key(state: AppState, just_pressed: bool) -> AppState {
    if just_pressed {
        toggled(state)
    } else {
        state
    }
}

/// The next state after the pause key was or was not pressed this tick.
pub fn pause_game(state: AppState, just_pressed: bool) -> (r: AppState)
    ensures
        r == after_pause_key(state, just_pressed),
{
    if just_pressed {
        toggle_pause(state)
    } else {
        state
    }
}

/// The next state after a pause button was or was not activated.
pub fn react_to_button_pressed(state: AppState, active: bool) -> (r: AppState)
    ensures
        r == (if active {
            toggled(state)
        } else {
            state
        }),
{
    if active {
        toggle_pause(state)
    } else {
        state
    }
}

/// The bodies with the asteroid `entity` set exploding.
pub open spec fn mark_exploding(bodies: Seq<Body>, entity: u64) -> Seq<Body> {
    bodies.map_values(
        |b: Body|
            match b.state {
                BodyState::Asteroid(_, anim) => if b.entity == entity {
                    Body { state: BodyState::Asteroid(Asteroid { exploding: true }, anim), ..b }
                } else {
                    b
                },
                _ => b,
            },
    )
}

pub open spec fn has_asteroid(bodies: Seq<Body>, entity: u64) -> bool {
    exists|j: int| 0 <= j < bodies.len() && (#[trigger] bodies[j]).entity == entity && bodies[j].state is Asteroid
}

/// Ship, bodies, game state and the number of asteroids destroyed.
pub type Listening = (Ship, Seq<Body>, AppState, nat);

/// The effect of one event: the ship's destruction ends the game; an asteroid
/// explosion sets the asteroid exploding and counts it as destroyed; damage to
/// the ship makes it invulnerable and starts its blinking over.
pub open spec fn apply_event(acc: Listening, ev: ExplosionEvent) -> Listening {
    let (ship, bodies, state, destroyed) = acc;
    match ev.explosion_type {
        ExplosionAnimations::ShipExplosion => (ship, bodies, AppState::GameOverMenu, destroyed),
        ExplosionAnimations::AsteroidExplosion => if has_asteroid(bodies, ev.entity) {
            (ship, mark_exploding(bodies, ev.entity), state, destroyed + 1)
        } else {
            acc
        },
        ExplosionAnimations::DamageToShip => (
            Ship {
                invulnerable: true,
                invulnerable_timer: AnimationTimer {
                    elapsed: 0,
                    just_finished: false,
                    ..ship.invulnerable_timer
                },
                ..ship
            },
            bodies,
            state,
            destroyed,
        ),
    }
}

pub open spec fn apply_events(acc: Listening, events: Seq<ExplosionEvent>) -> Listening
    decreases events.len(),
{
    if events.len() == 0 {
        acc
    } else {
        apply_event(apply_events(acc, events.drop_last()), events.last())
    }
}

/// Events never change the ship's health, and can only move the game to its
/// game-over screen.
pub proof fn lemma_apply_events_state(acc: Listening, events: Seq<ExplosionEvent>)
    ensures
        apply_events(acc, events).0.health == acc.0.health,
        apply_events(acc, events).2 == acc.2 || apply_events(acc, events).2 == AppState::GameOverMenu,
    decreases events.len(),
{
    if events.len() > 0 {
        lemma_apply_events_state(acc, events.drop_last());
    }
}

/// The ship as a damage event leaves it: invulnerable, with its blinking
/// timer started over.
pub open spec fn blinking(ship: Ship) -> Ship {
    Ship {
        invulnerable: true,
        invulnerable_timer: AnimationTimer { elapsed: 0, just_finished: false, ..ship.invulnerable_timer },
        ..ship
    }
}

/// Events leave the ship as it was, or make it blink from the start.
pub proof fn lemma_apply_events_ship(acc: Listening, events: Seq<ExplosionEvent>)
    ensures
        apply_events(acc, events).0 == acc.0 || apply_events(acc, events).0 == blinking(acc.0),
    decreases events.len(),
{
    if events.len() > 0 {
        lemma_apply_events_ship(acc, events.drop_last());
    }
}

/// Applying events keeps every body in place, keeps its kind and entity, and
/// keeps its timers well formed.
pub proof fn lemma_apply_events_bodies(acc: Listening, events: Seq<ExplosionEvent>)
    ensures
        apply_events(acc, events).1.len() == acc.1.len(),
        forall|i: int|
            0 <= i < acc.1.len() ==> {
                &&& (#[trigger] apply_events(acc, events).1[i]).pos == acc.1[i].pos
                &&& apply_events(acc, events).1[i].entity == acc.1[i].entity
                &&& body_wf(acc.1[i]) ==> body_wf(apply_events(acc, events).1[i])
            },
    decreases events.len(),
{
    if events.len() > 0 {
        lemma_apply_events_bodies(acc, events.drop_last());
    }
}

/// Sets the asteroid `entity` exploding; returns whether one was found.
fn explode_asteroid(bodies: &mut Vec<Body>, entity: u64) -> (found: bool)
    ensures
        found == has_asteroid(old(bodies)@, entity),
        final(bodies)@ == mark_exploding(old(bodies)@, entity),
{
    let ghost b0 = bodies@;
    let mut found: bool = false;
    let n: usize = bodies.len();
    let mut i: usize = 0;
    while i < n
        invariant
            i <= n,
            n == b0.len(),
            bodies@.len() == n,
            forall|j: int| i <= j < n ==> #[trigger] bodies@[j] == b0[j],
            forall|j: int| 0 <= j < i ==> #[trigger] bodies@[j] == mark_exploding(b0, entity)[j],
            found == exists|j: int| 0 <= j < i && (#[trigger] b0[j]).entity == entity && b0[j].state is Asteroid,
        decreases n - i,
    {
        let b: Body = bodies[i];
        match b.state {
            BodyState::Asteroid(_, anim) => {
                if b.entity == entity {
                    bodies.set(i, Body { state: BodyState::Asteroid(Asteroid { exploding: true }, anim), ..b });
                    found = true;
                }
            },
            _ => {},
        }
        i = i + 1;
    }
    proof {
        assert(bodies@ =~= mark_exploding(b0, entity));
    }
    found
}

/// Drains this tick's explosion events, in order, and applies them; returns how
/// many asteroids were destroyed.
pub fn explosion_event_listener(
    events: &Vec<ExplosionEvent>,
    ship: &mut Ship,
    bodies: &mut Vec<Body>,
    state: &mut AppState,
) -> (destroyed: u64)
    requires
        old(ship).wf(),
    ensures
        final(ship).wf(),
        (*final(ship), final(bodies)@, *final(state), destroyed as nat) == apply_events(
            (*old(ship), old(bodies)@, *old(state), 0),
            events@,
        ),
{
    let ghost init: Listening = (*ship, bodies@, *state, 0);
    let mut destroyed: u64 = 0;
    let n: usize = events.len();
    let mut i: usize = 0;
    while i < n
        invariant
            i <= n,
            n == events@.len(),
            ship.wf(),
            destroyed <= i,
            (*ship, bodies@, *state, destroyed as nat) == apply_events(init, events@.take(i as int)),
        decreases n - i,
    {
        let ev: ExplosionEvent = events[i];
        proof {
            assert(events@.take(i + 1).drop_last() == events@.take(i as int));
            assert(events@.take(i + 1).last() == ev);
        }
        match ev.explosion_type {
            ExplosionAnimations::ShipExplosion => {
                *state = AppState::GameOverMenu;
            },
            ExplosionAnimations::AsteroidExplosion => {
                if explode_asteroid(bodies, ev.entity) {
                    destroyed = destroyed + 1;
                }
            },
            ExplosionAnimations::DamageToShip => {
                ship.invulnerable = true;
                ship.invulnerable_timer.reset();
            },
        }
        i = i + 1;
    }
    proof {
        assert(events@.take(n as int) == events@);
    }
    destroyed
}

/// The running score, with the timer that pays one point per survived interval.
#[derive(Clone, Copy, Debug, PartialEq, Eq, Structural)]
pub struct ScoreTracker {
    pub score_count: u64,
    pub timer: AnimationTimer,
}

pub open spec fn add_capped(a: int, b: int) -> int {
    if a + b > u64::MAX {
        u64::MAX as int
    } else {
        a + b
    }
}

impl ScoreTracker {
    pub open spec fn wf(self) -> bool {
        self.timer.wf()
    }

    /// A zero score and a repeating survival timer.
    pub fn new() -> (r: ScoreTracker)
        ensures
            r.wf(),
            r.score_count == 0,
            r.timer == AnimationTimer::new_spec(SCORE_INTERVAL_MICROS, true),
    {
        ScoreTracker { score_count: 0, timer: AnimationTimer::new(SCORE_INTERVAL_MICROS, true) }
    }

    /// One point each time the survival timer completes; the score saturates.
    pub fn update_score(&mut self, dt: u64)
        requires
            old(self).wf(),
        ensures
            final(self).wf(),
            final(self).timer == old(self).timer.ticked(dt as int),
            final(self).score_count == if final(self).timer.just_finished {
                add_capped(old(self).score_count as int, 1)
            } else {
                old(self).score_count as int
            },
    {
        if self.timer.tick(dt) {
            self.score_count = self.score_count.saturating_add(1);
        }
    }

    /// `ASTEROID_POINTS` for each destroyed asteroid; the score saturates.
    pub fn asteroid_destroyed(&mut self, count: u64)
        ensures
            final(self).timer == old(self).timer,
            final(self).score_count == add_capped(
                old(self).score_count as int,
                ASTEROID_POINTS * count,
            ),
    {
        if count > (u64::MAX - self.score_count) / ASTEROID_POINTS {
            proof {
                let c = count as int;
                let q = (u64::MAX - self.score_count) as int / 5;
                vstd::arithmetic::div_mod::lemma_fundamental_div_mod((u64::MAX - self.score_count) as int, 5);
                assert(5 * c > (u64::MAX - self.score_count)) by (nonlinear_arith)
                    requires
                        c >= q + 1,
                        (u64::MAX - self.score_count) as int == 5 * q + (u64::MAX - self.score_count) as int % 5,
                        (u64::MAX - self.score_count) as int % 5 < 5,
                ;
            }
            self.score_count = u64::MAX;
        } else {
            proof {
                let c = count as int;
                let q = (u64::MAX - self.score_count) as int / 5;
                vstd::arithmetic::div_mod::lemma_fundamental_div_mod((u64::MAX - self.score_count) as int, 5);
                assert(5 * c <= (u64::MAX - self.score_count)) by (nonlinear_arith)
                    requires
                        c <= q,
                        (u64::MAX - self.score_count) as int == 5 * q + (u64::MAX - self.score_count) as int % 5,
                        (u64::MAX - self.score_count) as int % 5 >= 0,
                ;
            }
            self.score_count = self.score_count + count * ASTEROID_POINTS;
        }
    }
}

} // verus!
