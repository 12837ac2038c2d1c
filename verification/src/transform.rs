//! Affine transforms in 16.16 fixed point.
//!
//! A transform is the 2x3 matrix `[xx yx xy yy dx dy]`, mapping a point
//! `(x, y)` to `(x*xx + y*xy + dx, x*yx + y*yy + dy)`. Entries are 16.16
//! fixed-point values; products round to nearest and sums saturate, so
//! every operation here is total and exact against its specification.

use vstd::prelude::*;
use crate::fixed::sat_add;
use crate::fixed::sat_add_spec;
use crate::fixed::sat_neg;
use crate::fixed::sat_neg_spec;
use crate::fixed::FIXED_ONE;
use crate::hint_math::mul16_spec;

verus! {

/// A 2x3 affine matrix with 16.16 fixed-point entries.
#[derive(Clone, Copy, PartialEq, Eq, Structural, Debug)]
pub struct Transform {
    pub xx: i32,
    pub yx: i32,
    pub xy: i32,
    pub yy: i32,
    pub dx: i32,
    pub dy: i32,
}

/// The rounded, truncated 16.16 product of two matrix entries.
pub open spec fn entry_mul_spec(a: int, b: int) -> int {
    mul16_spec(a, b) as i32 as int
}

/// The identity matrix.
pub open spec fn identity_spec() -> Transform {
    Transform { xx: 0x1_0000, yx: 0, xy: 0, yy: 0x1_0000, dx: 0, dy: 0 }
}

/// A pure translation by `(x, y)`.
pub open spec fn translate_spec(x: int, y: int) -> Transform {
    Transform { xx: 0x1_0000, yx: 0, xy: 0, yy: 0x1_0000, dx: x as i32, dy: y as i32 }
}

/// A scale by `(x, y)` about the origin.
pub open spec fn scale_spec(x: int, y: int) -> Transform {
    Transform { xx: x as i32, yx: 0, xy: 0, yy: y as i32, dx: 0, dy: 0 }
}

/// A rotation by `a` half-turns (16.16), counter-clockwise.
pub open spec fn rotate_spec(a: int) -> Transform {
    Transform {
        xx: crate::fixed::cospi_spec(a) as i32,
        yx: crate::fixed::sinpi_spec(a) as i32,
        xy: (-crate::fixed::sinpi_spec(a)) as i32,
        yy: crate::fixed::cospi_spec(a) as i32,
        dx: 0,
        dy: 0,
    }
}

/// A skew by the angles `x` and `y` in half-turns (16.16).
pub open spec fn skew_spec(x: int, y: int) -> Transform {
    Transform {
        xx: 0x1_0000,
        yx: crate::fixed::tanpi_spec(y) as i32,
        xy: crate::fixed::tanpi_spec(x) as i32,
        yy: 0x1_0000,
        dx: 0,
        dy: 0,
    }
}

/// The matrix product `a * b`: entry products round, entry sums saturate.
pub open spec fn mul_spec(a: Transform, b: Transform) -> Transform {
    Transform {
        xx: sat_add_spec(entry_mul_spec(a.xx as int, b.xx as int), entry_mul_spec(a.xy as int, b.yx as int)) as i32,
        yx: sat_add_spec(entry_mul_spec(a.yx as int, b.xx as int), entry_mul_spec(a.yy as int, b.yx as int)) as i32,
        xy: sat_add_spec(entry_mul_spec(a.xx as int, b.xy as int), entry_mul_spec(a.xy as int, b.yy as int)) as i32,
        yy: sat_add_spec(entry_mul_spec(a.yx as int, b.xy as int), entry_mul_spec(a.yy as int, b.yy as int)) as i32,
        dx: sat_add_spec(
            sat_add_spec(entry_mul_spec(a.xx as int, b.dx as int), entry_mul_spec(a.xy as int, b.dy as int)),
            a.dx as int,
        ) as i32,
        dy: sat_add_spec(
            sat_add_spec(entry_mul_spec(a.yx as int, b.dx as int), entry_mul_spec(a.yy as int, b.dy as int)),
            a.dy as int,
        ) as i32,
    }
}

/// The matrix conjugated to act about the center `(x, y)`:
/// `translate(x, y) * m * translate(-x, -y)`.
pub open spec fn around_center_spec(m: Transform, x: int, y: int) -> Transform {
    mul_spec(
        mul_spec(translate_spec(x, y), m),
        translate_spec(sat_neg_spec(x), sat_neg_spec(y)),
    )
}

impl Transform {
    /// Returns the identity transform.
    pub fn identity() -> (r: Transform)
        ensures
            r == identity_spec(),
    {
        Transform { xx: FIXED_ONE, yx: 0, xy: 0, yy: FIXED_ONE, dx: 0, dy: 0 }
    }

    /// Returns a translation by `(x, y)` in 16.16 font units.
    pub fn translate(x: i32, y: i32) -> (r: Transform)
        ensures
            r == translate_spec(x as int, y as int),
    {
        Transform { xx: FIXED_ONE, yx: 0, xy: 0, yy: FIXED_ONE, dx: x, dy: y }
    }

    /// Returns a scale by `(x, y)` about the origin.
    pub fn scale(x: i32, y: i32) -> (r: Transform)
        ensures
            r == scale_spec(x as int, y as int),
    {
        Transform { xx: x, yx: 0, xy: 0, yy: y, dx: 0, dy: 0 }
    }

    /// Returns a rotation by `a` half-turns, counter-clockwise.
    pub fn rotate(a: i32) -> (r: Transform)
        ensures
            r == rotate_spec(a as int),
    {
        let c = crate::fixed::cospi(a);
        let s = crate::fixed::sinpi(a);
        Transform { xx: c, yx: s, xy: -s, yy: c, dx: 0, dy: 0 }
    }

    /// Returns a skew by the angles `x` and `y` in half-turns.
    pub fn skew(x: i32, y: i32) -> (r: Transform)
        ensures
            r == skew_spec(x as int, y as int),
    {
        let tx = crate::fixed::tanpi(x);
        let ty = crate::fixed::tanpi(y);
        Transform { xx: FIXED_ONE, yx: ty, xy: tx, yy: FIXED_ONE, dx: 0, dy: 0 }
    }

    /// Multiplies two transforms: the result applies `other` first, then
    /// `self`.
    pub fn mul(&self, other: &Transform) -> (r: Transform)
        ensures
            r == mul_spec(*self, *other),
    {
        let xx = sat_add(
            crate::hint_math::mul(self.xx, other.xx),
            crate::hint_math::mul(self.xy, other.yx),
        );
        let yx = sat_add(
            crate::hint_math::mul(self.yx, other.xx),
            crate::hint_math::mul(self.yy, other.yx),
        );
        let xy = sat_add(
            crate::hint_math::mul(self.xx, other.xy),
            crate::hint_math::mul(self.xy, other.yy),
        );
        let yy = sat_add(
            crate::hint_math::mul(self.yx, other.xy),
            crate::hint_math::mul(self.yy, other.yy),
        );
        let dx = sat_add(
            sat_add(
                crate::hint_math::mul(self.xx, other.dx),
                crate::hint_math::mul(self.xy, other.dy),
            ),
            self.dx,
        );
        let dy = sat_add(
            sat_add(
                crate::hint_math::mul(self.yx, other.dx),
                crate::hint_math::mul(self.yy, other.dy),
            ),
            self.dy,
        );
        Transform { xx, yx, xy, yy, dx, dy }
    }

    /// Conjugates the transform to act about the center `(x, y)`.
    pub fn around_center(&self, x: i32, y: i32) -> (r: Transform)
        ensures
            r == around_center_spec(*self, x as int, y as int),
    {
        let nx = sat_neg(x);
        let ny = sat_neg(y);
        Transform::translate(x, y).mul(self).mul(&Transform::translate(nx, ny))
    }
}

impl Default for Transform {
    /// The default transform is the identity.
    fn default() -> (r: Transform)
        ensures
            r == identity_spec(),
    {
        Transform::identity()
    }
}

} // verus!
