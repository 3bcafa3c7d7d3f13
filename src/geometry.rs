use vstd::prelude::*;

use crate::constants::{CAMERA_LIMIT, COORD_LIMIT, SUBPIXELS_PER_PIXEL};

verus! {

/// A point of the play field, in sub-pixels.
#[derive(Clone, Copy, Debug, PartialEq, Eq, Structural)]
pub struct Pos {
    pub x: i64,
    pub y: i64,
}

pub open spec fn coord_ok(v: int) -> bool {
    -COORD_LIMIT <= v <= COORD_LIMIT
}

impl Pos {
    pub open spec fn wf(self) -> bool {
        coord_ok(self.x as int) && coord_ok(self.y as int)
    }

    /// A camera position: far enough inside the coordinate range that the whole
    /// visible field around it stays inside too.
    pub open spec fn camera_ok(self) -> bool {
        -CAMERA_LIMIT <= self.x <= CAMERA_LIMIT && -CAMERA_LIMIT <= self.y <= CAMERA_LIMIT
    }

    pub fn new(x: i64, y: i64) -> (r: Pos)
        ensures
            r == (Pos { x, y }),
    {
        Pos { x, y }
    }
}

pub open spec fn sq(v: int) -> int {
    v * v
}

pub open spec fn dist_sq(a: Pos, b: Pos) -> int {
    sq(a.x - b.x) + sq(a.y - b.y)
}

pub open spec fn clamp_spec(v: int, lo: int, hi: int) -> int {
    if v < lo {
        lo
    } else if v > hi {
        hi
    } else {
        v
    }
}

/// Two circles meet when their centres are no farther apart than the sum of the radii.
pub open spec fn circles_meet(a: Pos, ra: int, b: Pos, rb: int) -> bool {
    dist_sq(a, b) <= sq(ra + rb)
}

/// An axis-aligned box meets a circle when the point of the box closest to the
/// circle's centre lies within the radius.
pub open spec fn box_meets_circle(center: Pos, half: int, c: Pos, r: int) -> bool {
    let px = clamp_spec(c.x as int, center.x - half, center.x + half);
    let py = clamp_spec(c.y as int, center.y - half, center.y + half);
    sq(c.x - px) + sq(c.y - py) <= sq(r)
}

pub open spec fn radius_ok(r: int) -> bool {
    0 <= r <= COORD_LIMIT
}

proof fn lemma_sq_bound(v: int, b: int)
    requires
        0 <= b,
        -b <= v <= b,
    ensures
        0 <= sq(v) <= b * b,
{
    assert(0 <= v * v <= b * b) by (nonlinear_arith)
        requires
            0 <= b,
            -b <= v <= b,
    ;
}

/// Clamps `v` into `[lo, hi]`.
pub fn clamp(v: i64, lo: i64, hi: i64) -> (r: i64)
    requires
        lo <= hi,
    ensures
        r == clamp_spec(v as int, lo as int, hi as int),
{
    if v < lo {
        lo
    } else if v > hi {
        hi
    } else {
        v
    }
}

/// Whether two circles intersect (touching counts).
pub fn circles_intersect(a: Pos, ra: i64, b: Pos, rb: i64) -> (r: bool)
    requires
        a.wf(),
        b.wf(),
        radius_ok(ra as int),
        radius_ok(rb as int),
    ensures
        r == circles_meet(a, ra as int, b, rb as int),
{
    let dx: i128 = a.x as i128 - b.x as i128;
    let dy: i128 = a.y as i128 - b.y as i128;
    let rs: i128 = ra as i128 + rb as i128;
    proof {
        lemma_sq_bound(dx as int, 2 * COORD_LIMIT);
        lemma_sq_bound(dy as int, 2 * COORD_LIMIT);
        lemma_sq_bound(rs as int, 2 * COORD_LIMIT);
    }
    dx * dx + dy * dy <= rs * rs
}

/// Whether the square box of half side `half` centred at `center` meets a circle.
pub fn box_intersects_circle(center: Pos, half: i64, c: Pos, r: i64) -> (res: bool)
    requires
        center.wf(),
        c.wf(),
        radius_ok(half as int),
        radius_ok(r as int),
    ensures
        res == box_meets_circle(center, half as int, c, r as int),
{
    let px: i64 = clamp(c.x, center.x - half, center.x + half);
    let py: i64 = clamp(c.y, center.y - half, center.y + half);
    let dx: i128 = c.x as i128 - px as i128;
    let dy: i128 = c.y as i128 - py as i128;
    proof {
        lemma_sq_bound(dx as int, 3 * COORD_LIMIT);
        lemma_sq_bound(dy as int, 3 * COORD_LIMIT);
        lemma_sq_bound(r as int, COORD_LIMIT as int);
    }
    dx * dx + dy * dy <= (r as i128) * (r as i128)
}

/// Sub-pixels covered in `dt` microseconds at `speed` pixels per second, rounded
/// toward zero.
pub open spec fn travel(speed: int, dt: int) -> int {
    if speed >= 0 {
        speed * dt / 1000
    } else {
        -((-speed) * dt / 1000)
    }
}

/// `v` moved for `dt` microseconds at `speed` pixels per second, held within `[-limit, limit]`.
pub open spec fn advance_spec(v: int, speed: int, dt: int, limit: int) -> int {
    clamp_spec(v + travel(speed, dt), -limit, limit)
}

pub open spec fn speed_ok(speed: int) -> bool {
    -1_000_000 <= speed <= 1_000_000
}

/// Moves a coordinate for `dt` microseconds at `speed` pixels per second,
/// saturating at `limit`.
pub fn advance(v: i64, speed: i64, dt: u64, limit: i64) -> (r: i64)
    requires
        speed_ok(speed as int),
        0 <= limit,
    ensures
        r == advance_spec(v as int, speed as int, dt as int, limit as int),
{
    let s: i128 = if speed >= 0 {
        speed as i128
    } else {
        -(speed as i128)
    };
    proof {
        assert(0 <= s * (dt as int) <= 1_000_000 * 0x1_0000_0000_0000_0000) by (nonlinear_arith)
            requires
                0 <= s <= 1_000_000,
                0 <= dt <= 0xffff_ffff_ffff_ffff,
        ;
    }
    let dist: i128 = s * (dt as i128) / 1000;
    let moved: i128 = if speed >= 0 {
        v as i128 + dist
    } else {
        v as i128 - dist
    };
    if moved < -(limit as i128) {
        -limit
    } else if moved > limit as i128 {
        limit
    } else {
        moved as i64
    }
}

/// Rounds to the nearest whole pixel, halves away from zero.
pub open spec fn round_to_pixel_spec(v: int) -> int {
    if v >= 0 {
        (v + 500) / 1000 * 1000
    } else {
        -((-v + 500) / 1000 * 1000)
    }
}

pub proof fn lemma_round_to_pixel_monotone(a: int, b: int)
    requires
        a <= b,
    ensures
        round_to_pixel_spec(a) <= round_to_pixel_spec(b),
{
    if a >= 0 {
        vstd::arithmetic::div_mod::lemma_div_is_ordered(a + 500, b + 500, 1000);
        let qa = (a + 500) / 1000;
        let qb = (b + 500) / 1000;
        assert(qa * 1000 <= qb * 1000) by (nonlinear_arith)
            requires
                qa <= qb,
        ;
    } else if b < 0 {
        vstd::arithmetic::div_mod::lemma_div_is_ordered(-b + 500, -a + 500, 1000);
        let qa = (-a + 500) / 1000;
        let qb = (-b + 500) / 1000;
        assert(qb * 1000 <= qa * 1000) by (nonlinear_arith)
            requires
                qb <= qa,
        ;
    } else {
        vstd::arithmetic::div_mod::lemma_div_pos_is_pos(-a + 500, 1000);
        vstd::arithmetic::div_mod::lemma_div_pos_is_pos(b + 500, 1000);
        let qa = (-a + 500) / 1000;
        let qb = (b + 500) / 1000;
        assert(0 <= qa * 1000 && 0 <= qb * 1000) by (nonlinear_arith)
            requires
                0 <= qa,
                0 <= qb,
        ;
    }
}

/// Rounds a coordinate to the nearest whole pixel.
pub fn round_to_pixel(v: i64) -> (r: i64)
    requires
        -2 * COORD_LIMIT <= v <= 2 * COORD_LIMIT,
    ensures
        r == round_to_pixel_spec(v as int),
{
    if v >= 0 {
        (v + 500) / SUBPIXELS_PER_PIXEL * SUBPIXELS_PER_PIXEL
    } else {
        let m: i64 = -v;
        -((m + 500) / SUBPIXELS_PER_PIXEL * SUBPIXELS_PER_PIXEL)
    }
}

} // verus!
