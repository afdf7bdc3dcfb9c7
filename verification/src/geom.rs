//! Basic fixed-point geometry: 2-D coordinates, axis-aligned bounding boxes,
//! and floor division, the building blocks of the projection and query steps.

use vstd::prelude::*;

verus! {

/// A 2-D point or vector in fixed-point units.
///
/// The unit is chosen by the caller (for example 10^-8 of a degree of
/// longitude/latitude, or a fraction of a pixel); the library never fixes it.
#[derive(Clone, Copy, PartialEq, Eq, Structural, Debug)]
pub struct Coord {
    pub x: i64,
    pub y: i64,
}

/// An axis-aligned rectangle `(min_x, min_y, max_x, max_y)` in fixed-point
/// source units.
#[derive(Clone, Copy, PartialEq, Eq, Structural, Debug)]
pub struct BBox {
    pub min_x: i64,
    pub min_y: i64,
    pub max_x: i64,
    pub max_y: i64,
}

impl BBox {
    /// Well-formed: each minimum does not exceed the matching maximum.
    pub open spec fn wf(self) -> bool {
        self.min_x <= self.max_x && self.min_y <= self.max_y
    }

    /// Two boxes intersect when they overlap on both axes (touching edges
    /// count as intersecting).
    pub open spec fn intersects_spec(self, other: BBox) -> bool {
        self.min_x <= other.max_x && other.min_x <= self.max_x
            && self.min_y <= other.max_y && other.min_y <= self.max_y
    }

    /// Decides whether `self` and `other` intersect.
    pub fn intersects(&self, other: &BBox) -> (r: bool)
        ensures
            r == self.intersects_spec(*other),
    {
        self.min_x <= other.max_x && other.min_x <= self.max_x
            && self.min_y <= other.max_y && other.min_y <= self.max_y
    }
}

/// Magnitude bound under which `div_floor` accepts its dividend.
pub const DIV_ARG_MAX: i64 = 0x2000_0000_0000_0000;

/// Floor division of `a` by a positive `b`, i.e. the mathematical quotient
/// rounded towards negative infinity. For `b > 0` this coincides with the
/// Euclidean quotient `a / b` of specification arithmetic.
pub fn div_floor(a: i64, b: i64) -> (q: i64)
    requires
        1 <= b,
        -DIV_ARG_MAX <= a <= DIV_ARG_MAX,
    ensures
        q == a as int / b as int,
{
    if a >= 0 {
        ((a as u64) / (b as u64)) as i64
    } else {
        let na: u64 = (-a) as u64;
        let bu: u64 = b as u64;
        let d: u64 = na / bu;
        let r: u64 = na % bu;
        proof {
            let ai = a as int;
            let bi = b as int;
            let di = d as int;
            let ri = r as int;
            vstd::arithmetic::div_mod::lemma_fundamental_div_mod(na as int, bu as int);
            assert(na as int == bi * di + ri);
            if r == 0 {
                assert(ai == (-di) * bi + 0) by (nonlinear_arith)
                    requires
                        na as int == bi * di + ri,
                        ai == -(na as int),
                        ri == 0,
                ;
                vstd::arithmetic::div_mod::lemma_fundamental_div_mod_converse(ai, bi, -di, 0);
            } else {
                assert(ai == (-di - 1) * bi + (bi - ri)) by (nonlinear_arith)
                    requires
                        na as int == bi * di + ri,
                        ai == -(na as int),
                ;
                vstd::arithmetic::div_mod::lemma_fundamental_div_mod_converse(
                    ai, bi, -di - 1, bi - ri);
            }
        }
        if r == 0 {
            -(d as i64)
        } else {
            -(d as i64) - 1
        }
    }
}

} // verus!
