use vstd::prelude::*;

use crate::asteroid::{asteroid_hits, Asteroid};
use crate::collider::ColliderKind;
use crate::geometry::Pos;
use crate::grid::{Grid, GridEntry};
use crate::ship::{damaged, rocket_hits, Rocket, Ship, ShipHealth};
use crate::timer::AnimationProperties;

verus! {

#[derive(Clone, Copy, Debug, PartialEq, Eq, Structural)]
pub enum ExplosionAnimations {
    ShipExplosion,
    AsteroidExplosion,
    DamageToShip,
}

/// A message from the collision resolver to the lifecycle managers.
#[derive(Clone, Copy, Debug, PartialEq, Eq, Structural)]
pub struct ExplosionEvent {
    pub explosion_type: ExplosionAnimations,
    pub entity: u64,
}

pub open spec fn event(explosion_type: ExplosionAnimations, entity: u64) -> ExplosionEvent {
    ExplosionEvent { explosion_type, entity }
}

/// What a collidable entity is, with the state that belongs to its kind.
#[derive(Clone, Copy, Debug, PartialEq, Eq, Structural)]
pub enum BodyState {
    Ship,
    Asteroid(Asteroid, AnimationProperties),
    Rocket(Rocket),
}

/// A collidable entity of the world.
#[derive(Clone, Copy, Debug, PartialEq, Eq, Structural)]
pub struct Body {
    pub entity: u64,
    pub pos: Pos,
    pub frame: usize,
    pub state: BodyState,
}

pub open spec fn kind_of(s: BodyState) -> ColliderKind {
    match s {
        BodyState::Ship => ColliderKind::Ship,
        BodyState::Asteroid(..) => ColliderKind::Asteroid,
        BodyState::Rocket(..) => ColliderKind::Rocket,
    }
}

impl Body {
    pub open spec fn entry(self) -> GridEntry {
        GridEntry { entity: self.entity, kind: kind_of(self.state), pos: self.pos }
    }

    /// The snapshot of this body that the grid stores.
    pub fn grid_entry(&self) -> (r: GridEntry)
        ensures
            r == self.entry(),
    {
        let kind = match self.state {
            BodyState::Ship => ColliderKind::Ship,
            BodyState::Asteroid(..) => ColliderKind::Asteroid,
            BodyState::Rocket(..) => ColliderKind::Rocket,
        };
        GridEntry { entity: self.entity, kind, pos: self.pos }
    }
}

/// The ship, the current body's state, and the events sent so far.
pub type Resolution = (Ship, BodyState, Seq<ExplosionEvent>);

/// One narrow-phase test of the current body (`cur_entity` at `cur_pos`) against
/// a grid entry, with its effects.
///
/// An asteroid that is exploding, or meets another asteroid, does nothing. One
/// hit by a rocket starts exploding and reports itself. One that touches the ship
/// while the ship is not invulnerable starts exploding, damages the ship by one
/// step, and reports itself and either the ship's destruction or its damage; a
/// ship that survives the hit becomes invulnerable. A rocket that touches an
/// asteroid is marked as having hit.
pub open spec fn pair_step(acc: Resolution, cur_entity: u64, cur_pos: Pos, nb: GridEntry) -> Resolution {
    let (ship, state, events) = acc;
    match state {
        BodyState::Asteroid(a, anim) => {
            if nb.kind == ColliderKind::Asteroid || a.exploding || !asteroid_hits(
                cur_pos,
                nb.pos,
                nb.kind,
            ) {
                acc
            } else if nb.kind == ColliderKind::Rocket {
                (
                    ship,
                    BodyState::Asteroid(Asteroid { exploding: true }, anim),
                    events.push(event(ExplosionAnimations::AsteroidExplosion, cur_entity)),
                )
            } else if ship.invulnerable {
                acc
            } else {
                let h = damaged(ship.health);
                (
                    Ship { health: h, invulnerable: h != ShipHealth::Empty, ..ship },
                    BodyState::Asteroid(Asteroid { exploding: true }, anim),
                    events.push(event(ExplosionAnimations::AsteroidExplosion, cur_entity)).push(
                        event(
                            if h == ShipHealth::Empty {
                                ExplosionAnimations::ShipExplosion
                            } else {
                                ExplosionAnimations::DamageToShip
                            },
                            nb.entity,
                        ),
                    ),
                )
            }
        },
        BodyState::Rocket(r) => {
            if rocket_hits(cur_pos, nb.pos, nb.kind) {
                (ship, BodyState::Rocket(Rocket { hit_target: true, ..r }), events)
            } else {
                acc
            }
        },
        BodyState::Ship => acc,
    }
}

/// The tests of the current body against a whole cell, in order.
pub open spec fn cell_fold(acc: Resolution, cur_entity: u64, cur_pos: Pos, cell: Seq<GridEntry>) -> Resolution
    decreases cell.len(),
{
    if cell.len() == 0 {
        acc
    } else {
        pair_step(cell_fold(acc, cur_entity, cur_pos, cell.drop_last()), cur_entity, cur_pos, cell.last())
    }
}

/// The `k`-th cell of the 3 by 3 block around `(x, y)`, column by column, if it
/// lies inside the grid.
pub open spec fn neighbor_cell(g: Grid, x: int, y: int, k: int) -> Option<int> {
    let nx = x + k / 3 - 1;
    let ny = y + k % 3 - 1;
    if 0 <= nx < g.columns && 0 <= ny < g.rows {
        Some(nx * g.rows + ny)
    } else {
        None
    }
}

/// The tests of the current body against the first `k` cells of its block.
pub open spec fn neighborhood_fold(
    acc: Resolution,
    g: Grid,
    cur_entity: u64,
    cur_pos: Pos,
    x: int,
    y: int,
    k: nat,
) -> Resolution
    decreases k,
{
    if k == 0 {
        acc
    } else {
        let prev = neighborhood_fold(acc, g, cur_entity, cur_pos, x, y, (k - 1) as nat);
        match neighbor_cell(g, x, y, k - 1) {
            Some(c) => cell_fold(prev, cur_entity, cur_pos, g.cells@[c]@),
            None => prev,
        }
    }
}

/// The effect of resolving one body: a body outside the grid takes part in no test.
pub open spec fn resolve_body(ship: Ship, events: Seq<ExplosionEvent>, b: Body, g: Grid, camera: Pos) -> (
    Ship,
    Body,
    Seq<ExplosionEvent>,
) {
    match g.placement(camera, b.pos) {
        None => (ship, b, events),
        Some((x, y)) => {
            let r = neighborhood_fold((ship, b.state, events), g, b.entity, b.pos, x, y, 9);
            (r.0, Body { state: r.1, ..b }, r.2)
        },
    }
}

/// The effect of resolving every body in order: the ship, the bodies and the events sent.
pub open spec fn resolve_all(ship: Ship, bodies: Seq<Body>, g: Grid, camera: Pos) -> (
    Ship,
    Seq<Body>,
    Seq<ExplosionEvent>,
)
    decreases bodies.len(),
{
    if bodies.len() == 0 {
        (ship, Seq::empty(), Seq::empty())
    } else {
        let prev = resolve_all(ship, bodies.drop_last(), g, camera);
        let r = resolve_body(prev.0, prev.2, bodies.last(), g, camera);
        (r.0, prev.1.push(r.1), r.2)
    }
}

/// Tests the current body against every entry of `cell` and applies the effects.
pub fn process_collision(
    cell: &Vec<GridEntry>,
    cur_entity: u64,
    cur_pos: Pos,
    events: &mut Vec<ExplosionEvent>,
    state: &mut BodyState,
    ship: &mut Ship,
)
    requires
        cur_pos.wf(),
        forall|j: int| 0 <= j < cell@.len() ==> (#[trigger] cell@[j]).pos.wf(),
    ensures
        (*final(ship), *final(state), final(events)@) == cell_fold(
            (*old(ship), *old(state), old(events)@),
            cur_entity,
            cur_pos,
            cell@,
        ),
{
    let ghost init = (*ship, *state, events@);
    let n: usize = cell.len();
    let mut i: usize = 0;
    while i < n
        invariant
            i <= n,
            n == cell@.len(),
            cur_pos.wf(),
            forall|j: int| 0 <= j < cell@.len() ==> (#[trigger] cell@[j]).pos.wf(),
            (*ship, *state, events@) == cell_fold(init, cur_entity, cur_pos, cell@.take(i as int)),
        decreases n - i,
    {
        let nb: GridEntry = cell[i];
        proof {
            assert(cell@.take(i + 1).drop_last() == cell@.take(i as int));
            assert(cell@.take(i + 1).last() == nb);
        }
        let cur: BodyState = *state;
        match cur {
            BodyState::Asteroid(a0, anim) => {
                if nb.kind != ColliderKind::Asteroid && !a0.exploding {
                    let mut a: Asteroid = a0;
                    let collided: bool = a.check_collision(cur_pos, nb.pos, nb.kind);
                    if collided {
                        match nb.kind {
                            ColliderKind::Rocket => {
                                *state = BodyState::Asteroid(a, anim);
                                events.push(
                                    ExplosionEvent {
                                        explosion_type: ExplosionAnimations::AsteroidExplosion,
                                        entity: cur_entity,
                                    },
                                );
                            },
                            ColliderKind::Ship => {
                                if !ship.invulnerable {
                                    let new_health: ShipHealth = ship.take_damage();
                                    if new_health != ShipHealth::Empty {
                                        ship.invulnerable = true;
                                    }
                                    a.take_damage();
                                    *state = BodyState::Asteroid(a, anim);
                                    events.push(
                                        ExplosionEvent {
                                            explosion_type: ExplosionAnimations::AsteroidExplosion,
                                            entity: cur_entity,
                                        },
                                    );
                                    let ship_event = if new_health == ShipHealth::Empty {
                                        ExplosionAnimations::ShipExplosion
                                    } else {
                                        ExplosionAnimations::DamageToShip
                                    };
                                    events.push(
                                        ExplosionEvent { explosion_type: ship_event, entity: nb.entity },
                                    );
                                }
                            },
                            ColliderKind::Asteroid => {},
                        }
                    }
                }
            },
            BodyState::Rocket(r0) => {
                if nb.kind == ColliderKind::Asteroid {
                    let collided: bool = r0.check_collision(cur_pos, nb.pos, nb.kind);
                    if collided {
                        *state = BodyState::Rocket(Rocket { hit_target: true, ..r0 });
                    }
                }
            },
            BodyState::Ship => {},
        }
        i = i + 1;
    }
    proof {
        assert(cell@.take(n as int) == cell@);
    }
}

/// Resolves one body against the 3 by 3 block of cells around its own, and
/// returns the body with its new state.
pub fn resolve_one(
    grid: &Grid,
    camera: Pos,
    body: Body,
    ship: &mut Ship,
    events: &mut Vec<ExplosionEvent>,
) -> (r: Body)
    requires
        grid.wf(),
        grid.entries_wf(),
        camera.camera_ok(),
        body.pos.wf(),
    ensures
        (*final(ship), r, final(events)@) == resolve_body(*old(ship), old(events)@, body, *grid, camera),
{
    let placed = grid.position_cell(camera, body.pos);
    match placed {
        None => body,
        Some((x, y)) => {
            let ghost init = (*ship, body.state, events@);
            let mut state: BodyState = body.state;
            let mut k: usize = 0;
            while k < 9
                invariant
                    k <= 9,
                    grid.wf(),
                    grid.entries_wf(),
                    body.pos.wf(),
                    x < grid.columns,
                    y < grid.rows,
                    (*ship, state, events@) == neighborhood_fold(
                        init,
                        *grid,
                        body.entity,
                        body.pos,
                        x as int,
                        y as int,
                        k as nat,
                    ),
                decreases 9 - k,
            {
                let dx: usize = k / 3;
                let dy: usize = k % 3;
                if x + dx >= 1 && x + dx - 1 < grid.columns && y + dy >= 1 && y + dy - 1 < grid.rows {
                    let nx: usize = x + dx - 1;
                    let ny: usize = y + dy - 1;
                    proof {
                        crate::grid::lemma_flat_in_range(
                            grid.columns as int,
                            grid.rows as int,
                            nx as int,
                            ny as int,
                        );
                    }
                    let c: usize = nx * grid.rows + ny;
                    process_collision(&grid.cells[c], body.entity, body.pos, events, &mut state, ship);
                }
                k = k + 1;
            }
            Body { state, ..body }
        },
    }
}

/// Runs the collision resolver over every body, in order, and returns the events
/// it sent. The grid must have been built from the same bodies this tick.
pub fn collision_checks(grid: &Grid, camera: Pos, bodies: &mut Vec<Body>, ship: &mut Ship) -> (r: Vec<
    ExplosionEvent,
>)
    requires
        grid.wf(),
        grid.entries_wf(),
        camera.camera_ok(),
        forall|i: int| 0 <= i < old(bodies)@.len() ==> (#[trigger] old(bodies)@[i]).pos.wf(),
    ensures
        (*final(ship), final(bodies)@, r@) == resolve_all(*old(ship), old(bodies)@, *grid, camera),
{
    let ghost b0 = bodies@;
    let ghost s0 = *ship;
    let mut events: Vec<ExplosionEvent> = Vec::new();
    let n: usize = bodies.len();
    let mut i: usize = 0;
    while i < n
        invariant
            i <= n,
            n == b0.len(),
            bodies@.len() == n,
            grid.wf(),
            grid.entries_wf(),
            camera.camera_ok(),
            forall|j: int| 0 <= j < b0.len() ==> (#[trigger] b0[j]).pos.wf(),
            forall|j: int| i <= j < n ==> #[trigger] bodies@[j] == b0[j],
            (*ship, bodies@.take(i as int), events@) == resolve_all(s0, b0.take(i as int), *grid, camera),
        decreases n - i,
    {
        let body: Body = bodies[i];
        let ghost before = bodies@;
        proof {
            assert(b0.take(i + 1).drop_last() == b0.take(i as int));
            assert(b0.take(i + 1).last() == b0[i as int]);
        }
        let new_body: Body = resolve_one(grid, camera, body, ship, &mut events);
        bodies.set(i, new_body);
        proof {
            assert(bodies@.take(i + 1) == before.take(i as int).push(new_body));
        }
        i = i + 1;
    }
    proof {
        assert(b0.take(n as int) == b0);
        assert(bodies@.take(n as int) == bodies@);
    }
    events
}

} // verus!
