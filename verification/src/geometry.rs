//! Plane geometry on whole-pixel coordinates: the position type, the two
//! clamping rules that keep sprites inside the window, and the
//! squared-distance test behind every collision.

use vstd::prelude::*;

use crate::settings::{FRACTION_ONE, POS_LIMIT};

verus! {

/// A position or direction in the plane, in whole pixels or in fixed-point
/// direction units.
#[derive(Clone, Copy, Debug, PartialEq, Eq, Structural)]
pub struct Vec2 {
    pub x: i64,
    pub y: i64,
}

impl Vec2 {
    pub fn new(x: i64, y: i64) -> (v: Vec2)
        ensures
            v == (Vec2 { x, y }),
    {
        Vec2 { x, y }
    }
}

/// The extent of the primary window, in whole pixels.
#[derive(Clone, Copy, Debug, PartialEq, Eq, Structural)]
pub struct Window {
    pub width: i64,
    pub height: i64,
}

impl Window {
    /// The window has room for at least one pixel on each axis and stays
    /// within the bound the arithmetic is stated for.
    pub open spec fn well_formed(self) -> bool {
        &&& 1 <= self.width <= POS_LIMIT
        &&& 1 <= self.height <= POS_LIMIT
    }

    pub fn new(width: i64, height: i64) -> (w: Window)
        requires
            1 <= width <= POS_LIMIT,
            1 <= height <= POS_LIMIT,
        ensures
            w == (Window { width, height }),
            w.well_formed(),
    {
        Window { width, height }
    }

    /// The window's centre, where the camera and the player start;
    /// halving rounds down to a whole pixel.
    pub open spec fn spec_center(self) -> Vec2 {
        Vec2 { x: (self.width / 2) as i64, y: (self.height / 2) as i64 }
    }

    pub fn center(&self) -> (c: Vec2)
        requires
            self.well_formed(),
        ensures
            c == self.spec_center(),
    {
        Vec2 { x: self.width / 2, y: self.height / 2 }
    }
}

/// Both coordinates lie within the bound the arithmetic is stated for.
pub open spec fn within_limit(v: Vec2) -> bool {
    &&& -POS_LIMIT <= v.x <= POS_LIMIT
    &&& -POS_LIMIT <= v.y <= POS_LIMIT
}

/// Clamp `v` by first raising it to `lo`, then capping the result at `hi`;
/// when `hi < lo` the cap wins and the result is `hi`.
pub open spec fn raise_then_cap(v: int, lo: int, hi: int) -> int {
    let raised = if v < lo {
        lo
    } else {
        v
    };
    if raised > hi {
        hi
    } else {
        raised
    }
}

/// Clamp `v` by capping it at `hi`, or else raising it to `lo`; when
/// `hi < lo` a value at most `hi` is raised to `lo`, so the raise wins.
pub open spec fn cap_or_raise(v: int, lo: int, hi: int) -> int {
    if v > hi {
        hi
    } else if v < lo {
        lo
    } else {
        v
    }
}

pub fn clamp_raise_then_cap(v: i64, lo: i64, hi: i64) -> (r: i64)
    ensures
        r == raise_then_cap(v as int, lo as int, hi as int),
{
    let raised: i64 = if v < lo {
        lo
    } else {
        v
    };
    if raised > hi {
        hi
    } else {
        raised
    }
}

pub fn clamp_cap_or_raise(v: i64, lo: i64, hi: i64) -> (r: i64)
    ensures
        r == cap_or_raise(v as int, lo as int, hi as int),
{
    if v > hi {
        hi
    } else if v < lo {
        lo
    } else {
        v
    }
}

/// On a well-formed interval the two clamping rules agree, land inside the
/// interval, and leave an already-clamped value alone.
pub proof fn lemma_clamp_agrees(v: int, lo: int, hi: int)
    requires
        lo <= hi,
    ensures
        raise_then_cap(v, lo, hi) == cap_or_raise(v, lo, hi),
        lo <= raise_then_cap(v, lo, hi) <= hi,
        raise_then_cap(raise_then_cap(v, lo, hi), lo, hi) == raise_then_cap(v, lo, hi),
{
}

/// Scale a random fraction `f` of [`FRACTION_ONE`] up to a coordinate in
/// `0 .. extent`, rounding down to a whole pixel.
pub open spec fn scaled(f: int, extent: int) -> int {
    f * extent / (FRACTION_ONE as int)
}

/// Place a point inside the window from two random fractions, one per
/// axis, the way a spawn draw does: each fraction of the window's extent,
/// rounded down to a whole pixel.
pub fn position_from_fractions(fx: u64, fy: u64, window: &Window) -> (v: Vec2)
    requires
        fx < FRACTION_ONE,
        fy < FRACTION_ONE,
        window.well_formed(),
    ensures
        v.x == scaled(fx as int, window.width as int),
        v.y == scaled(fy as int, window.height as int),
        0 <= v.x < window.width,
        0 <= v.y < window.height,
        within_limit(v),
{
    proof {
        lemma_scaled_in_range(fx as int, window.width as int);
        lemma_scaled_in_range(fy as int, window.height as int);
    }
    let x: u64 = fx * (window.width as u64) / FRACTION_ONE;
    let y: u64 = fy * (window.height as u64) / FRACTION_ONE;
    Vec2 { x: x as i64, y: y as i64 }
}

/// A fraction below one, scaled to an extent, lands strictly inside it.
pub proof fn lemma_scaled_in_range(f: int, extent: int)
    requires
        0 <= f < FRACTION_ONE,
        1 <= extent <= POS_LIMIT,
    ensures
        0 <= scaled(f, extent) < extent,
        f * extent <= FRACTION_ONE * POS_LIMIT,
{
    let fo = FRACTION_ONE as int;
    assert(0 <= f * extent < fo * extent) by (nonlinear_arith)
        requires
            0 <= f < fo,
            1 <= extent,
    ;
    assert(fo * extent <= fo * POS_LIMIT) by (nonlinear_arith)
        requires
            1 <= extent <= POS_LIMIT,
            0 < fo,
    ;
    vstd::arithmetic::div_mod::lemma_multiply_divide_lt(f * extent, fo, extent);
    vstd::arithmetic::div_mod::lemma_div_pos_is_pos(f * extent, fo);
}

/// Squared Euclidean distance between two positions.
pub open spec fn dist_sq(a: Vec2, b: Vec2) -> int {
    (a.x - b.x) * (a.x - b.x) + (a.y - b.y) * (a.y - b.y)
}

/// Whether two circles of combined radius `radius_sum`, centred at `a` and
/// `b`, overlap: their centres are strictly closer than `radius_sum`.
/// Compared on squares, which is exact on whole pixels.
pub open spec fn circles_overlap(a: Vec2, b: Vec2, radius_sum: int) -> bool {
    dist_sq(a, b) < radius_sum * radius_sum
}

pub fn circles_collide(a: Vec2, b: Vec2, radius_sum: i64) -> (r: bool)
    requires
        within_limit(a),
        within_limit(b),
        0 <= radius_sum <= POS_LIMIT,
    ensures
        r == circles_overlap(a, b, radius_sum as int),
{
    let dx: i64 = a.x - b.x;
    let dy: i64 = a.y - b.y;
    proof {
        assert(0 <= dx * dx <= 4000000000000000000) by (nonlinear_arith)
            requires
                -2 * POS_LIMIT <= dx <= 2 * POS_LIMIT,
        ;
        assert(0 <= dy * dy <= 4000000000000000000) by (nonlinear_arith)
            requires
                -2 * POS_LIMIT <= dy <= 2 * POS_LIMIT,
        ;
        assert(0 <= radius_sum * radius_sum <= 1000000000000000000) by (nonlinear_arith)
            requires
                0 <= radius_sum <= POS_LIMIT,
        ;
    }
    let d2: i64 = dx * dx + dy * dy;
    let r2: i64 = radius_sum * radius_sum;
    d2 < r2
}

} // verus!
