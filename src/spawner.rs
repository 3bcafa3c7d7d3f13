use vstd::prelude::*;

use crate::constants::{
    ASTEROID_CAP, ASTEROID_SCALED_RADIUS, ASTEROID_SPAWN_MARGIN, LEFT_WALL, MAX_SPAWN_ATTEMPTS,
    RIGHT_WALL, SPAWN_DELAY_MAX_MICROS, SPAWN_DELAY_MIN_MICROS, TOP_WALL,
};
use crate::geometry::Pos;
use crate::random::random_in_range;
use crate::timer::AnimationTimer;

verus! {

/// Lowest column a new asteroid may take (inclusive).
pub open spec fn spawn_x_min() -> int {
    LEFT_WALL + ASTEROID_SCALED_RADIUS
}

/// Highest column a new asteroid may take (exclusive).
pub open spec fn spawn_x_max() -> int {
    RIGHT_WALL - ASTEROID_SCALED_RADIUS
}

/// Height at which new asteroids appear, for a camera at `cam_y`.
pub open spec fn spawn_y(cam_y: int) -> int {
    TOP_WALL + ASTEROID_SPAWN_MARGIN + cam_y
}

pub open spec fn abs(v: int) -> int {
    if v < 0 {
        -v
    } else {
        v
    }
}

/// Two asteroids are too close when they are within half a radius on both axes.
pub open spec fn too_close(a: Pos, b: Pos) -> bool {
    abs(a.x - b.x) < ASTEROID_SCALED_RADIUS / 2 && abs(a.y - b.y) < ASTEROID_SCALED_RADIUS / 2
}

/// `p` is not too close to any of `existing`.
pub open spec fn clear_of(existing: Seq<Pos>, p: Pos) -> bool {
    forall|i: int| 0 <= i < existing.len() ==> !too_close(p, #[trigger] existing[i])
}

/// Whether `p` is too close to one of `existing`.
pub fn overlaps_any(existing: &Vec<Pos>, p: Pos) -> (r: bool)
    requires
        p.wf(),
        forall|i: int| 0 <= i < existing@.len() ==> (#[trigger] existing@[i]).wf(),
    ensures
        r == !clear_of(existing@, p),
{
    let half: i64 = ASTEROID_SCALED_RADIUS / 2;
    let n: usize = existing.len();
    let mut i: usize = 0;
    while i < n
        invariant
            i <= n,
            n == existing@.len(),
            p.wf(),
            half == ASTEROID_SCALED_RADIUS / 2,
            forall|k: int| 0 <= k < existing@.len() ==> (#[trigger] existing@[k]).wf(),
            forall|k: int| 0 <= k < i ==> !too_close(p, #[trigger] existing@[k]),
        decreases n - i,
    {
        let q: Pos = existing[i];
        let dx: i64 = if p.x >= q.x {
            p.x - q.x
        } else {
            q.x - p.x
        };
        let dy: i64 = if p.y >= q.y {
            p.y - q.y
        } else {
            q.y - p.y
        };
        if dx < half && dy < half {
            return true;
        }
        i = i + 1;
    }
    false
}

/// `x` is the first of `candidates` that keeps clear of `existing` at height
/// `y`, or the last candidate when none does.
pub open spec fn first_clear_pick(existing: Seq<Pos>, y: i64, candidates: Seq<i64>, x: i64) -> bool {
    exists|i: int|
        0 <= i < candidates.len() && x == candidates[i] && (clear_of(existing, Pos { x, y }) || i
            == candidates.len() - 1) && forall|j: int|
            0 <= j < i ==> !clear_of(existing, Pos { x: #[trigger] candidates[j], y })
}

/// Picks the first candidate column that keeps clear of every existing asteroid
/// at height `y`; when none does, the last candidate.
pub fn choose_spawn_x(existing: &Vec<Pos>, y: i64, candidates: &Vec<i64>) -> (r: i64)
    requires
        candidates@.len() > 0,
        crate::geometry::coord_ok(y as int),
        forall|i: int| 0 <= i < candidates@.len() ==> crate::geometry::coord_ok(#[trigger] candidates@[i] as int),
        forall|i: int| 0 <= i < existing@.len() ==> (#[trigger] existing@[i]).wf(),
    ensures
        first_clear_pick(existing@, y, candidates@, r),
{
    let n: usize = candidates.len();
    let mut i: usize = 0;
    while i + 1 < n
        invariant
            i < n,
            n == candidates@.len(),
            crate::geometry::coord_ok(y as int),
            forall|k: int| 0 <= k < candidates@.len() ==> crate::geometry::coord_ok(#[trigger] candidates@[k] as int),
            forall|k: int| 0 <= k < existing@.len() ==> (#[trigger] existing@[k]).wf(),
            forall|j: int| 0 <= j < i ==> !clear_of(existing@, Pos { x: #[trigger] candidates@[j], y }),
        decreases n - i,
    {
        let x: i64 = candidates[i];
        if !overlaps_any(existing, Pos { x, y }) {
            return x;
        }
        i = i + 1;
    }
    candidates[i]
}

/// Where a new asteroid goes, given the columns drawn and the next delay: at the
/// spawn height, in the first drawn column clear of the others (or the last one
/// drawn). The spawner's timer restarts with the new delay.
pub fn place_spawn(
    timer: &mut AnimationTimer,
    existing: &Vec<Pos>,
    camera: Pos,
    candidates: &Vec<i64>,
    delay: u64,
) -> (r: Pos)
    requires
        old(timer).wf(),
        delay > 0,
        camera.camera_ok(),
        candidates@.len() > 0,
        forall|i: int| 0 <= i < candidates@.len() ==> crate::geometry::coord_ok(#[trigger] candidates@[i] as int),
        forall|i: int| 0 <= i < existing@.len() ==> (#[trigger] existing@[i]).wf(),
    ensures
        r.y == spawn_y(camera.y as int),
        first_clear_pick(existing@, r.y, candidates@, r.x),
        r.wf(),
        final(timer).wf(),
        *final(timer) == (AnimationTimer {
            duration: delay,
            elapsed: 0,
            just_finished: false,
            ..*old(timer)
        }),
{
    let y: i64 = TOP_WALL + ASTEROID_SPAWN_MARGIN + camera.y;
    let x: i64 = choose_spawn_x(existing, y, candidates);
    proof {
        let i = choose|i: int|
            0 <= i < candidates@.len() && x == candidates@[i] && (clear_of(existing@, Pos { x, y })
                || i == candidates@.len() - 1) && forall|j: int|
                0 <= j < i ==> !clear_of(existing@, Pos { x: #[trigger] candidates@[j], y });
        assert(crate::geometry::coord_ok(candidates@[i] as int));
    }
    timer.reset();
    timer.duration = delay;
    Pos { x, y }
}

/// One tick of the spawner. When its timer fires and no more than `ASTEROID_CAP`
/// asteroids are alive, it returns where a new asteroid goes: a random column
/// clear of the others when one is found within `MAX_SPAWN_ATTEMPTS` draws, at
/// the spawn height above the view. It then restarts its timer with a random
/// delay.
pub fn spawn_asteroids(timer: &mut AnimationTimer, dt: u64, existing: &Vec<Pos>, camera: Pos) -> (r:
    Option<Pos>)
    requires
        old(timer).wf(),
        camera.camera_ok(),
        forall|i: int| 0 <= i < existing@.len() ==> (#[trigger] existing@[i]).wf(),
    ensures
        final(timer).wf(),
        existing@.len() > ASTEROID_CAP ==> r is None,
        r is Some <==> (old(timer).ticked(dt as int).just_finished && existing@.len() <= ASTEROID_CAP),
        r is None ==> *final(timer) == old(timer).ticked(dt as int),
        r matches Some(p) ==> {
            &&& p.y == spawn_y(camera.y as int)
            &&& spawn_x_min() <= p.x < spawn_x_max()
            &&& exists|draws: Seq<i64>|
                draws.len() == MAX_SPAWN_ATTEMPTS && (forall|i: int|
                    0 <= i < draws.len() ==> spawn_x_min() <= #[trigger] draws[i] < spawn_x_max())
                    && first_clear_pick(existing@, p.y, draws, p.x)
            &&& final(timer).elapsed == 0
            &&& SPAWN_DELAY_MIN_MICROS <= final(timer).duration < SPAWN_DELAY_MAX_MICROS
        },
{
    if !timer.tick(dt) {
        return None;
    }
    if existing.len() > ASTEROID_CAP {
        return None;
    }
    let lo: i64 = LEFT_WALL + ASTEROID_SCALED_RADIUS;
    let hi: i64 = RIGHT_WALL - ASTEROID_SCALED_RADIUS;
    let mut candidates: Vec<i64> = Vec::new();
    let mut k: u32 = 0;
    while k < MAX_SPAWN_ATTEMPTS
        invariant
            k <= MAX_SPAWN_ATTEMPTS,
            candidates@.len() == k,
            lo == spawn_x_min(),
            hi == spawn_x_max(),
            forall|i: int| 0 <= i < candidates@.len() ==> lo <= #[trigger] candidates@[i] < hi,
        decreases MAX_SPAWN_ATTEMPTS - k,
    {
        candidates.push(random_in_range(lo, hi));
        k = k + 1;
    }
    let delay: i64 = random_in_range(SPAWN_DELAY_MIN_MICROS as i64, SPAWN_DELAY_MAX_MICROS as i64);
    let p = place_spawn(timer, existing, camera, &candidates, delay as u64);
    proof {
        let i = choose|i: int|
            0 <= i < candidates@.len() && p.x == candidates@[i] && (clear_of(existing@, p) || i
                == candidates@.len() - 1) && forall|j: int|
                0 <= j < i ==> !clear_of(existing@, Pos { x: #[trigger] candidates@[j], y: p.y });
    }
    Some(p)
}

} // verus!
