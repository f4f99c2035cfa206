//! Fixed-point plane coordinates and the exact floor division they rest on.
//!
//! A continuous position is stored as a pair of `i64` subunit counts, with
//! [`SUBUNITS_PER_UNIT`] subunits to one unit. All the positions the grid
//! math produces are multiples of half a unit, so they are represented
//! exactly; arbitrary caller positions round only where a contract says so.

use vstd::prelude::*;
use vstd::arithmetic::div_mod::lemma_fundamental_div_mod;
use vstd::arithmetic::div_mod::lemma_fundamental_div_mod_converse;
use vstd::arithmetic::div_mod::lemma_div_nonincreasing;
use vstd::arithmetic::div_mod::lemma_div_pos_is_pos;

verus! {

/// Subunits in one world or grid unit.
pub const SUBUNITS_PER_UNIT: i64 = 1000;

/// Subunits in half a unit: the parity offset and the tile-center offset.
pub const HALF_UNIT: i64 = 500;

/// Largest magnitude, in subunits, accepted for a camera translation.
pub const CAM_LIMIT: i64 = 900_000_000_000_000;

/// Largest magnitude, in subunits, accepted for a world or screen position.
pub const POS_LIMIT: i64 = 1_000_000_000_000_000;

/// Largest magnitude, in subunits, accepted for a camera-local position.
pub const LOCAL_LIMIT: i64 = 2_000_000_000_000_000;

/// Largest magnitude accepted for a raw tile index.
pub const INDEX_LIMIT: i64 = 10_000_000_000;

/// Largest magnitude, in whole units, of a representable world position.
pub const UNITS_LIMIT: i64 = 1_000_000_000_000;

/// Largest extent, in subunits, of one grid row or column of tiles.
pub const SPAN_LIMIT: i64 = 10_000_000_000_000;

/// A continuous 2D position in fixed-point subunits.
#[derive(Clone, Copy, Debug, PartialEq, Eq, Structural, Default)]
pub struct Fixed2 {
    pub x: i64,
    pub y: i64,
}

/// A 2D tile index.
#[derive(Clone, Copy, Debug, PartialEq, Eq, Structural)]
pub struct Index2 {
    pub x: i64,
    pub y: i64,
}

/// A 2D extent in whole tiles or pixels.
#[derive(Clone, Copy, Debug, PartialEq, Eq, Structural)]
pub struct Size2 {
    pub x: u32,
    pub y: u32,
}

/// Holds of a camera translation small enough for every transform.
pub open spec fn cam_in_range(p: Fixed2) -> bool {
    -CAM_LIMIT <= p.x <= CAM_LIMIT && -CAM_LIMIT <= p.y <= CAM_LIMIT
}

/// Holds of a world or screen position small enough for every transform.
pub open spec fn pos_in_range(p: Fixed2) -> bool {
    -POS_LIMIT <= p.x <= POS_LIMIT && -POS_LIMIT <= p.y <= POS_LIMIT
}

/// Holds of a camera-local position small enough for every transform.
pub open spec fn local_in_range(p: Fixed2) -> bool {
    -LOCAL_LIMIT <= p.x <= LOCAL_LIMIT && -LOCAL_LIMIT <= p.y <= LOCAL_LIMIT
}

/// Holds of a tile index small enough for every transform.
pub open spec fn index_in_limit(i: Index2) -> bool {
    -INDEX_LIMIT <= i.x <= INDEX_LIMIT && -INDEX_LIMIT <= i.y <= INDEX_LIMIT
}

impl Fixed2 {
    /// The position with both coordinates zero.
    pub fn zero() -> (r: Fixed2)
        ensures
            r.x == 0 && r.y == 0,
    {
        Fixed2 { x: 0, y: 0 }
    }

    /// The position with the given subunit coordinates.
    pub fn from_subunits(x: i64, y: i64) -> (r: Fixed2)
        ensures
            r.x == x && r.y == y,
    {
        Fixed2 { x, y }
    }

    /// The position `(x, y)` in whole units.
    pub fn from_units(x: i64, y: i64) -> (r: Fixed2)
        requires
            -UNITS_LIMIT <= x <= UNITS_LIMIT,
            -UNITS_LIMIT <= y <= UNITS_LIMIT,
        ensures
            r.x == x * SUBUNITS_PER_UNIT && r.y == y * SUBUNITS_PER_UNIT,
            pos_in_range(r),
    {
        Fixed2 { x: x * SUBUNITS_PER_UNIT, y: y * SUBUNITS_PER_UNIT }
    }
}

impl Index2 {
    /// The index `(x, y)`.
    pub fn new(x: i64, y: i64) -> (r: Index2)
        ensures
            r.x == x && r.y == y,
    {
        Index2 { x, y }
    }
}

impl Size2 {
    /// The extent `(x, y)`.
    pub fn new(x: u32, y: u32) -> (r: Size2)
        ensures
            r.x == x && r.y == y,
    {
        Size2 { x, y }
    }
}

/// Floor division of `a` by a positive `b`: the largest `q` with `q * b <= a`.
///
/// Ghost-code `/` on `int` is Euclidean division, which for a positive
/// divisor is exactly floor division, so the contract is stated with it.
pub fn floor_div(a: i64, b: i64) -> (q: i64)
    requires
        1 <= b,
        -i64::MAX <= a,
    ensures
        q == a as int / b as int,
{
    if a >= 0 {
        let qu: u64 = (a as u64) / (b as u64);
        proof {
            lemma_div_nonincreasing(a as int, b as int);
            lemma_div_pos_is_pos(a as int, b as int);
        }
        qu as i64
    } else {
        let na: u64 = (-a) as u64;
        let d: u64 = b as u64;
        let k: u64 = na / d;
        let r: u64 = na % d;
        proof {
            lemma_fundamental_div_mod(na as int, d as int);
            lemma_div_pos_is_pos(na as int, d as int);
            lemma_div_nonincreasing(na as int, d as int);
            if r == 0 {
                assert((-(k as int)) * (d as int) + 0 == a as int) by (nonlinear_arith)
                    requires
                        na as int == (d as int) * (k as int),
                        a as int == -(na as int),
                ;
                lemma_fundamental_div_mod_converse(a as int, d as int, -(k as int), 0);
            } else {
                assert((-(k as int) - 1) * (d as int) + ((d as int) - (r as int)) == a as int)
                    by (nonlinear_arith)
                    requires
                        na as int == (d as int) * (k as int) + (r as int),
                        a as int == -(na as int),
                ;
                lemma_fundamental_div_mod_converse(
                    a as int,
                    d as int,
                    -(k as int) - 1,
                    (d as int) - (r as int),
                );
            }
        }
        if r == 0 {
            -(k as i64)
        } else {
            -(k as i64) - 1
        }
    }
}

/// The subunit value snapped to the nearest whole pixel, with ties rounding
/// up: the floor of the value plus half a pixel, in whole pixels.
pub open spec fn spec_round_to_pixel(v: int) -> int {
    ((v + HALF_UNIT) / (SUBUNITS_PER_UNIT as int)) * SUBUNITS_PER_UNIT
}

/// Snap a subunit value to the nearest whole pixel, ties rounding up.
pub fn round_to_pixel(v: i64) -> (r: i64)
    requires
        -LOCAL_LIMIT <= v <= LOCAL_LIMIT,
    ensures
        r == spec_round_to_pixel(v as int),
        v - HALF_UNIT < r <= v + HALF_UNIT,
{
    let q: i64 = floor_div(v + HALF_UNIT, SUBUNITS_PER_UNIT);
    proof {
        lemma_fundamental_div_mod(v + HALF_UNIT, SUBUNITS_PER_UNIT as int);
    }
    q * SUBUNITS_PER_UNIT
}

/// Decomposing a flat, row-major cell number `i` over rows of width `w`
/// gives a column `i % w` below `w` and a row `i / w` below `h`.
pub proof fn lemma_row_col(i: int, w: int, h: int)
    requires
        0 <= i,
        0 < w,
        i < w * h,
    ensures
        0 <= i % w < w,
        0 <= i / w < h,
{
    lemma_fundamental_div_mod(i, w);
    lemma_div_pos_is_pos(i, w);
    let q: int = i / w;
    let r: int = i % w;
    assert(q < h) by (nonlinear_arith)
        requires
            i == w * q + r,
            0 <= r,
            i < w * h,
            0 < w,
            0 <= q,
    ;
}

} // verus!
