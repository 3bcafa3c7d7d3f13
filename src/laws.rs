use vstd::prelude::*;

use crate::collision::{
    cell_fold, kind_of, neighbor_cell, neighborhood_fold, pair_step, resolve_all, resolve_body,
    Body, BodyState, ExplosionAnimations, ExplosionEvent, Resolution,
};
use crate::geometry::Pos;
use crate::grid::{Grid, GridEntry};
use crate::ship::{health_rank, Ship, ShipHealth};

verus! {

pub open spec fn exploding_of(s: BodyState) -> bool {
    match s {
        BodyState::Asteroid(a, _) => a.exploding,
        _ => false,
    }
}

/// The timers a body carries are well formed.
pub open spec fn timers_wf(s: BodyState) -> bool {
    match s {
        BodyState::Asteroid(_, anim) => anim.timer.wf(),
        BodyState::Rocket(r) => r.wf(),
        BodyState::Ship => true,
    }
}

/// A body whose position is in range and whose timers are well formed.
pub open spec fn body_wf(b: Body) -> bool {
    b.pos.wf() && timers_wf(b.state)
}

/// An asteroid that has not started exploding.
pub open spec fn live_asteroid(s: BodyState) -> bool {
    s is Asteroid && !exploding_of(s)
}

/// No two bodies share an entity.
pub open spec fn unique_entities(bodies: Seq<Body>) -> bool {
    forall|i: int, j: int|
        0 <= i < bodies.len() && 0 <= j < bodies.len() && i != j ==> (#[trigger] bodies[i]).entity
            != (#[trigger] bodies[j]).entity
}

/// How the resolver may change the ship: not at all while it is invulnerable, and
/// otherwise by at most one hit, after which it is invulnerable or destroyed.
pub open spec fn ship_ok(s0: Ship, s: Ship) -> bool {
    &&& s0.invulnerable ==> s == s0
    &&& s == s0 || (health_rank(s.health) == health_rank(s0.health) + 1 && (s.invulnerable
        || s.health == ShipHealth::Empty) && s == (Ship {
        health: s.health,
        invulnerable: s.invulnerable,
        ..s0
    }))
}

/// How resolving one body may change its state and the events: its kind stays,
/// an exploding asteroid changes nothing, events are only appended, and each new
/// asteroid explosion names this body, which was a live asteroid.
pub open spec fn step_ok(init: Resolution, r: Resolution, e: u64) -> bool {
    &&& kind_of(r.1) == kind_of(init.1)
    &&& timers_wf(init.1) ==> timers_wf(r.1)
    &&& exploding_of(init.1) ==> r == init
    &&& init.2.len() <= r.2.len()
    &&& r.2.subrange(0, init.2.len() as int) == init.2
    &&& forall|k: int|
        init.2.len() <= k < r.2.len() && (#[trigger] r.2[k]).explosion_type
            == ExplosionAnimations::AsteroidExplosion ==> r.2[k].entity == e && live_asteroid(init.1)
}

proof fn lemma_ship_ok_trans(s0: Ship, s1: Ship, s2: Ship)
    requires
        ship_ok(s0, s1),
        ship_ok(s1, s2),
        s1.invulnerable || s1.health == ShipHealth::Empty || s1 == s0,
    ensures
        ship_ok(s0, s2),
{
}

proof fn lemma_step_ok_trans(a: Resolution, b: Resolution, c: Resolution, e: u64)
    requires
        step_ok(a, b, e),
        step_ok(b, c, e),
    ensures
        step_ok(a, c, e),
{
    assert forall|k: int| 0 <= k < a.2.len() implies c.2[k] == a.2[k] by {
        assert(c.2[k] == c.2.subrange(0, b.2.len() as int)[k]);
        assert(b.2[k] == b.2.subrange(0, a.2.len() as int)[k]);
    }
    assert(c.2.subrange(0, a.2.len() as int) =~= a.2);
    assert forall|k: int|
        a.2.len() <= k < c.2.len() && (#[trigger] c.2[k]).explosion_type
            == ExplosionAnimations::AsteroidExplosion implies c.2[k].entity == e && live_asteroid(
        a.1,
    ) by {
        if k < b.2.len() {
            assert(c.2[k] == c.2.subrange(0, b.2.len() as int)[k]);
        } else {
            assert(live_asteroid(b.1));
            if exploding_of(a.1) {
                assert(b == a);
            }
            assert(kind_of(a.1) == kind_of(b.1));
        }
    }
}

proof fn lemma_pair_step(acc: Resolution, e: u64, p: Pos, nb: GridEntry)
    ensures
        step_ok(acc, pair_step(acc, e, p, nb), e),
        ship_ok(acc.0, pair_step(acc, e, p, nb).0),
{
    let r = pair_step(acc, e, p, nb);
    assert(r.2.subrange(0, acc.2.len() as int) == acc.2);
}

/// Resolution states reachable from `init` by the resolver keep the ship and body
/// within the bounds above.
pub open spec fn fold_ok(init: Resolution, r: Resolution, e: u64) -> bool {
    &&& step_ok(init, r, e)
    &&& ship_ok(init.0, r.0)
}

proof fn lemma_fold_ok_refl(init: Resolution, e: u64)
    ensures
        fold_ok(init, init, e),
{
    assert(init.2.subrange(0, init.2.len() as int) == init.2);
}

proof fn lemma_fold_ok_extend(init: Resolution, mid: Resolution, e: u64, p: Pos, nb: GridEntry)
    requires
        fold_ok(init, mid, e),
    ensures
        fold_ok(init, pair_step(mid, e, p, nb), e),
{
    lemma_pair_step(mid, e, p, nb);
    lemma_step_ok_trans(init, mid, pair_step(mid, e, p, nb), e);
}

proof fn lemma_cell_fold(init: Resolution, mid: Resolution, e: u64, p: Pos, cell: Seq<GridEntry>)
    requires
        fold_ok(init, mid, e),
    ensures
        fold_ok(init, cell_fold(mid, e, p, cell), e),
    decreases cell.len(),
{
    if cell.len() > 0 {
        lemma_cell_fold(init, mid, e, p, cell.drop_last());
        lemma_fold_ok_extend(init, cell_fold(mid, e, p, cell.drop_last()), e, p, cell.last());
    }
}

proof fn lemma_neighborhood_fold(init: Resolution, g: Grid, e: u64, p: Pos, x: int, y: int, k: nat)
    ensures
        fold_ok(init, neighborhood_fold(init, g, e, p, x, y, k), e),
    decreases k,
{
    if k == 0 {
        lemma_fold_ok_refl(init, e);
    } else {
        lemma_neighborhood_fold(init, g, e, p, x, y, (k - 1) as nat);
        let prev = neighborhood_fold(init, g, e, p, x, y, (k - 1) as nat);
        match neighbor_cell(g, x, y, k - 1) {
            Some(c) => lemma_cell_fold(init, prev, e, p, g.cells@[c]@),
            None => {},
        }
    }
}

proof fn lemma_resolve_body(ship: Ship, events: Seq<ExplosionEvent>, b: Body, g: Grid, camera: Pos)
    ensures
        ({
            let r = resolve_body(ship, events, b, g, camera);
            &&& r.1.entity == b.entity
            &&& r.1.pos == b.pos
            &&& r.1.frame == b.frame
            &&& fold_ok((ship, b.state, events), (r.0, r.1.state, r.2), b.entity)
        }),
{
    match g.placement(camera, b.pos) {
        None => lemma_fold_ok_refl((ship, b.state, events), b.entity),
        Some((x, y)) => lemma_neighborhood_fold((ship, b.state, events), g, b.entity, b.pos, x, y, 9),
    }
}

/// What a whole resolver pass keeps: each body keeps its entity, place and kind;
/// an exploding asteroid is left as it was; every asteroid explosion reported
/// names a body that was a live asteroid; and the ship changes as `ship_ok` allows.
pub open spec fn pass_ok(ship: Ship, bodies: Seq<Body>, r: (Ship, Seq<Body>, Seq<ExplosionEvent>)) -> bool {
    &&& r.1.len() == bodies.len()
    &&& forall|j: int|
        0 <= j < bodies.len() ==> {
            &&& (#[trigger] r.1[j]).entity == bodies[j].entity
            &&& r.1[j].pos == bodies[j].pos
            &&& kind_of(r.1[j].state) == kind_of(bodies[j].state)
            &&& body_wf(bodies[j]) ==> body_wf(r.1[j])
            &&& exploding_of(bodies[j].state) ==> r.1[j] == bodies[j]
        }
    &&& forall|k: int|
        0 <= k < r.2.len() && (#[trigger] r.2[k]).explosion_type
            == ExplosionAnimations::AsteroidExplosion ==> exists|j: int|
            0 <= j < bodies.len() && (#[trigger] bodies[j]).entity == r.2[k].entity
                && live_asteroid(bodies[j].state)
    &&& ship_ok(ship, r.0)
}

pub proof fn lemma_resolve_all(ship: Ship, bodies: Seq<Body>, g: Grid, camera: Pos)
    ensures
        pass_ok(ship, bodies, resolve_all(ship, bodies, g, camera)),
    decreases bodies.len(),
{
    if bodies.len() > 0 {
        let rest = bodies.drop_last();
        let b = bodies.last();
        lemma_resolve_all(ship, rest, g, camera);
        let prev = resolve_all(ship, rest, g, camera);
        let r = resolve_body(prev.0, prev.2, b, g, camera);
        lemma_resolve_body(prev.0, prev.2, b, g, camera);
        let res = resolve_all(ship, bodies, g, camera);
        assert(res == (r.0, prev.1.push(r.1), r.2));
        let n = bodies.len() - 1;
        assert forall|j: int| 0 <= j < bodies.len() implies {
            &&& (#[trigger] res.1[j]).entity == bodies[j].entity
            &&& res.1[j].pos == bodies[j].pos
            &&& kind_of(res.1[j].state) == kind_of(bodies[j].state)
            &&& body_wf(bodies[j]) ==> body_wf(res.1[j])
            &&& exploding_of(bodies[j].state) ==> res.1[j] == bodies[j]
        } by {
            if j < n {
                assert(res.1[j] == prev.1[j]);
                assert(bodies[j] == rest[j]);
            } else {
                assert(res.1[j] == r.1);
                if exploding_of(b.state) {
                    assert((r.0, r.1.state, r.2) == (prev.0, b.state, prev.2));
                }
            }
        }
        assert forall|k: int|
            0 <= k < res.2.len() && (#[trigger] res.2[k]).explosion_type
                == ExplosionAnimations::AsteroidExplosion implies exists|j: int|
            0 <= j < bodies.len() && (#[trigger] bodies[j]).entity == res.2[k].entity
                && live_asteroid(bodies[j].state) by {
            if k < prev.2.len() {
                assert(res.2[k] == res.2.subrange(0, prev.2.len() as int)[k]);
                let j0 = choose|j: int|
                    0 <= j < rest.len() && (#[trigger] rest[j]).entity == prev.2[k].entity
                        && live_asteroid(rest[j].state);
                assert(bodies[j0] == rest[j0]);
            } else {
                assert(bodies[n] == b);
            }
        }
        if !ship.invulnerable && prev.0 != ship {
            assert(prev.0.invulnerable || prev.0.health == ShipHealth::Empty);
        }
        lemma_ship_ok_trans(ship, prev.0, r.0);
    }
}

/// An exploding asteroid is inert in a resolver pass: it keeps its state (it
/// never stops exploding) and no asteroid explosion is reported for it.
pub proof fn lemma_exploding_asteroid_is_inert(
    ship: Ship,
    bodies: Seq<Body>,
    g: Grid,
    camera: Pos,
    j: int,
)
    requires
        0 <= j < bodies.len(),
        exploding_of(bodies[j].state),
        unique_entities(bodies),
    ensures
        ({
            let r = resolve_all(ship, bodies, g, camera);
            &&& r.1[j] == bodies[j]
            &&& exploding_of(r.1[j].state)
            &&& forall|k: int|
                0 <= k < r.2.len() ==> !((#[trigger] r.2[k]).explosion_type
                    == ExplosionAnimations::AsteroidExplosion && r.2[k].entity == bodies[j].entity)
        }),
{
    lemma_resolve_all(ship, bodies, g, camera);
    let r = resolve_all(ship, bodies, g, camera);
    assert(r.1[j] == bodies[j]);
    assert forall|k: int| 0 <= k < r.2.len() implies !((#[trigger] r.2[k]).explosion_type
        == ExplosionAnimations::AsteroidExplosion && r.2[k].entity == bodies[j].entity) by {
        if r.2[k].explosion_type == ExplosionAnimations::AsteroidExplosion && r.2[k].entity
            == bodies[j].entity {
            let j0 = choose|i: int|
                0 <= i < bodies.len() && (#[trigger] bodies[i]).entity == r.2[k].entity
                    && live_asteroid(bodies[i].state);
            assert(bodies[j0].entity == bodies[j].entity);
        }
    }
}

/// Exploding is a one-way latch: after a resolver pass every asteroid that was
/// exploding still is.
pub proof fn lemma_exploding_is_latched(ship: Ship, bodies: Seq<Body>, g: Grid, camera: Pos)
    ensures
        ({
            let r = resolve_all(ship, bodies, g, camera);
            forall|j: int|
                0 <= j < bodies.len() && exploding_of(bodies[j].state) ==> exploding_of(
                    (#[trigger] r.1[j]).state,
                )
        }),
{
    lemma_resolve_all(ship, bodies, g, camera);
}

/// The ship cannot be hurt twice while invulnerable: a resolver pass leaves an
/// invulnerable ship unchanged, and takes at most one step of health from any
/// other; a ship that survives that step is left invulnerable.
pub proof fn lemma_invulnerability_window(ship: Ship, bodies: Seq<Body>, g: Grid, camera: Pos)
    ensures
        ({
            let s = resolve_all(ship, bodies, g, camera).0;
            &&& ship.invulnerable ==> s == ship
            &&& health_rank(ship.health) <= health_rank(s.health) <= health_rank(ship.health) + 1
            &&& health_rank(s.health) == health_rank(ship.health) + 1 ==> (s.invulnerable
                || s.health == ShipHealth::Empty)
        }),
{
    lemma_resolve_all(ship, bodies, g, camera);
}

/// After a rebuild an entry sits only in the cell its position maps to, and
/// that cell lies inside the grid: an entity whose cell falls outside is in no
/// cell at all, and none is in two cells.
pub proof fn lemma_grid_cell_in_bounds(
    g: Grid,
    camera: Pos,
    entries: Seq<GridEntry>,
    e: GridEntry,
    c: int,
)
    requires
        g.wf(),
        0 <= c < g.cells@.len(),
        entries.filter(g.in_cell(camera, c)).contains(e),
    ensures
        g.placement(camera, e.pos) is Some,
        ({
            let (x, y) = g.placement(camera, e.pos)->0;
            &&& 0 <= x < g.columns
            &&& 0 <= y < g.rows
            &&& c == g.flat((x, y))
        }),
{
    broadcast use Seq::lemma_filter_pred;

    let f = entries.filter(g.in_cell(camera, c));
    let i = choose|i: int| 0 <= i < f.len() && f[i] == e;
    assert(g.in_cell(camera, c)(f[i]));
    let (lx, ly) = g.local(camera, e.pos);
    vstd::arithmetic::div_mod::lemma_div_pos_is_pos(lx, g.grid_size as int);
    vstd::arithmetic::div_mod::lemma_div_pos_is_pos(ly, g.grid_size as int);
}

/// The ship after a run of resolver passes, one per tick, with nothing else
/// touching it in between.
pub open spec fn resolve_passes(ship: Ship, passes: Seq<(Seq<Body>, Grid, Pos)>) -> Ship
    decreases passes.len(),
{
    if passes.len() == 0 {
        ship
    } else {
        let prev = resolve_passes(ship, passes.drop_last());
        let (bodies, g, camera) = passes.last();
        resolve_all(prev, bodies, g, camera).0
    }
}

proof fn lemma_resolve_passes_ok(ship: Ship, passes: Seq<(Seq<Body>, Grid, Pos)>)
    ensures
        ship_ok(ship, resolve_passes(ship, passes)),
    decreases passes.len(),
{
    if passes.len() > 0 {
        lemma_resolve_passes_ok(ship, passes.drop_last());
        let prev = resolve_passes(ship, passes.drop_last());
        let (bodies, g, camera) = passes.last();
        lemma_resolve_all(prev, bodies, g, camera);
        lemma_ship_ok_trans(ship, prev, resolve_all(prev, bodies, g, camera).0);
    }
}

/// However many collisions come within one invulnerability window (a run of
/// resolver passes with no recovery in between), the ship loses at most one step
/// of health, and none if it was invulnerable when the run began.
pub proof fn lemma_one_hit_per_window(ship: Ship, passes: Seq<(Seq<Body>, Grid, Pos)>)
    ensures
        ({
            let s = resolve_passes(ship, passes);
            &&& ship.invulnerable ==> s == ship
            &&& health_rank(ship.health) <= health_rank(s.health) <= health_rank(ship.health) + 1
        }),
{
    lemma_resolve_passes_ok(ship, passes);
}

/// A body whose cell falls outside the grid takes part in no test: resolving it
/// changes neither the ship, nor the body, nor the events.
pub proof fn lemma_outside_body_is_untouched(
    ship: Ship,
    events: Seq<ExplosionEvent>,
    b: Body,
    g: Grid,
    camera: Pos,
)
    requires
        g.placement(camera, b.pos) is None,
    ensures
        resolve_body(ship, events, b, g, camera) == (ship, b, events),
{
}

/// In a whole resolver pass, a body outside the grid keeps its state.
pub proof fn lemma_outside_bodies_keep_state(ship: Ship, bodies: Seq<Body>, g: Grid, camera: Pos, j: int)
    requires
        0 <= j < bodies.len(),
        g.placement(camera, bodies[j].pos) is None,
    ensures
        resolve_all(ship, bodies, g, camera).1[j] == bodies[j],
    decreases bodies.len(),
{
    let rest = bodies.drop_last();
    let prev = resolve_all(ship, rest, g, camera);
    lemma_resolve_all(ship, rest, g, camera);
    if j < bodies.len() - 1 {
        assert(rest[j] == bodies[j]);
        lemma_outside_bodies_keep_state(ship, rest, g, camera, j);
        assert(resolve_all(ship, bodies, g, camera).1[j] == prev.1[j]);
    }
}

} // verus!
