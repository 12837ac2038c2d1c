//! 16.16 fixed-point scalars, points, and trigonometry.
//!
//! The color table stores its scalars in binary fixed-point formats; this
//! module keeps every computation in 16.16 so that the whole pipeline stays
//! exact and free of floating point. Angles are measured in half-turns: a
//! value of `FIXED_ONE` is 180 degrees, matching the convention of the
//! font's angle records.

use vstd::prelude::*;
use vstd::arithmetic::div_mod::lemma_fundamental_div_mod;

verus! {

/// One in 16.16 fixed point.
pub const FIXED_ONE: i32 = 0x1_0000;

/// A point with 16.16 fixed-point coordinates.
#[derive(Clone, Copy, PartialEq, Eq, Structural, Debug)]
pub struct FixedPoint {
    pub x: i32,
    pub y: i32,
}

/// Saturating addition on `i32`.
pub open spec fn sat_add_spec(a: int, b: int) -> int {
    if a + b > i32::MAX {
        i32::MAX as int
    } else if a + b < i32::MIN {
        i32::MIN as int
    } else {
        a + b
    }
}

/// Adds two fixed-point values, saturating at the ends of the range.
pub fn sat_add(a: i32, b: i32) -> (r: i32)
    ensures
        r == sat_add_spec(a as int, b as int),
{
    let s = a as i64 + b as i64;
    if s > 0x7fff_ffff {
        i32::MAX
    } else if s < -0x8000_0000 {
        i32::MIN
    } else {
        s as i32
    }
}

/// Saturating negation on `i32` (the minimum value negates to the maximum).
pub open spec fn sat_neg_spec(a: int) -> int {
    if -a > i32::MAX {
        i32::MAX as int
    } else {
        -a
    }
}

/// Negates a fixed-point value, saturating for the least value.
pub fn sat_neg(a: i32) -> (r: i32)
    ensures
        r == sat_neg_spec(a as int),
{
    if a == i32::MIN {
        i32::MAX
    } else {
        -a
    }
}

/// Saturating subtraction on `i32`.
pub open spec fn sat_sub_spec(a: int, b: int) -> int {
    if a - b > i32::MAX {
        i32::MAX as int
    } else if a - b < i32::MIN {
        i32::MIN as int
    } else {
        a - b
    }
}

/// Subtracts two fixed-point values, saturating at the ends of the range.
pub fn sat_sub(a: i32, b: i32) -> (r: i32)
    ensures
        r == sat_sub_spec(a as int, b as int),
{
    let s = a as i64 - b as i64;
    if s > 0x7fff_ffff {
        i32::MAX
    } else if s < -0x8000_0000 {
        i32::MIN
    } else {
        s as i32
    }
}

/// Clamps an integer to the `i32` range.
pub open spec fn sat32_spec(a: int) -> int {
    if a > i32::MAX {
        i32::MAX as int
    } else if a < i32::MIN {
        i32::MIN as int
    } else {
        a
    }
}

/// Floor division of `num` by the positive divisor `den`, on 128-bit
/// values, computed with unsigned machine arithmetic.
pub fn div_floor_i128(num: i128, den: i128) -> (q: i128)
    requires
        0 < den <= 0x1_0000_0000_0000_0000,
        -0x4000_0000_0000_0000_0000_0000_0000_0000 <= num,
    ensures
        q == num as int / den as int,
{
    if num >= 0 {
        let qu = (num as u128) / (den as u128);
        proof {
            let ni = num as int;
            let di = den as int;
            lemma_fundamental_div_mod(ni, di);
            assert(qu as int <= di * (qu as int)) by (nonlinear_arith)
                requires
                    di >= 1,
                    qu as int >= 0,
            ;
        }
        qu as i128
    } else {
        let m = (-num) as u128;
        let d = den as u128;
        let q2 = (m + (d - 1)) / d;
        proof {
            let mi = m as int;
            let di = d as int;
            let s = (mi + di - 1) % di;
            lemma_fundamental_div_mod(mi + di - 1, di);
            assert(mi + di - 1 == di * (q2 as int) + s);
            assert(0 <= s < di);
            let r = di - 1 - s;
            assert(-mi == (-(q2 as int)) * di + r) by (nonlinear_arith)
                requires
                    mi + di - 1 == di * (q2 as int) + s,
                    r == di - 1 - s,
            ;
            vstd::arithmetic::div_mod::lemma_fundamental_div_mod_converse(
                -mi,
                di,
                -(q2 as int),
                r,
            );
            assert(q2 as int <= mi) by (nonlinear_arith)
                requires
                    di >= 1,
                    mi >= 0,
                    q2 as int >= 0,
                    di * (q2 as int) == mi + di - 1 - s,
                    0 <= s < di,
            ;
        }
        -(q2 as i128)
    }
}

/// The quarter-wave sine polynomial: an approximation of
/// `sin(w * pi / 0x1_0000) * 0x1_0000` for `w` in `[0, 0x8000]`, clamped to
/// `[0, 0x1_0000]` and exact at both ends.
pub open spec fn sin_quarter_spec(w: int) -> int {
    if w <= 0 {
        0
    } else if w >= 0x8000 {
        0x1_0000
    } else {
        let th = (w * 205887 + 0x8000) / 0x1_0000;
        let t2 = (th * th + 0x8000) / 0x1_0000;
        let t3 = (t2 * th + 0x8000) / 0x1_0000;
        let t5 = (t2 * t3 + 0x8000) / 0x1_0000;
        let t7 = (t2 * t5 + 0x8000) / 0x1_0000;
        let s = th + t5 / 120 - t3 / 6 - t7 / 5040;
        if s <= 0 {
            0
        } else if s >= 0x1_0000 {
            0x1_0000
        } else {
            s
        }
    }
}

/// Computes the quarter-wave sine for `w` in units of half-turns over
/// `0x1_0000`, restricted to the first quadrant.
fn sin_quarter(w: u32) -> (r: i32)
    requires
        w <= 0x8000,
    ensures
        r == sin_quarter_spec(w as int),
        0 <= r <= 0x1_0000,
{
    if w == 0 {
        0
    } else if w >= 0x8000 {
        FIXED_ONE
    } else {
        let wq = w as u64;
        let th = (wq * 205887 + 0x8000) / 0x1_0000;
        proof {
            lemma_fundamental_div_mod((wq * 205887 + 0x8000) as int, 0x1_0000);
            assert(th <= 102940);
            assert(th as int * th as int <= 102940 * 102940) by (nonlinear_arith)
                requires
                    0 <= th as int <= 102940,
            ;
        }
        let t2 = (th * th + 0x8000) / 0x1_0000;
        proof {
            lemma_fundamental_div_mod((th * th + 0x8000) as int, 0x1_0000);
            assert(t2 <= 161693);
            assert(t2 as int * th as int <= 161693 * 102940) by (nonlinear_arith)
                requires
                    0 <= t2 as int <= 161693,
                    0 <= th as int <= 102940,
            ;
        }
        let t3 = (t2 * th + 0x8000) / 0x1_0000;
        proof {
            lemma_fundamental_div_mod((t2 * th + 0x8000) as int, 0x1_0000);
            assert(t3 <= 253978);
            assert(t2 as int * t3 as int <= 161693 * 253978) by (nonlinear_arith)
                requires
                    0 <= t2 as int <= 161693,
                    0 <= t3 as int <= 253978,
            ;
        }
        let t5 = (t2 * t3 + 0x8000) / 0x1_0000;
        proof {
            lemma_fundamental_div_mod((t2 * t3 + 0x8000) as int, 0x1_0000);
            assert(t5 <= 626627);
            assert(t2 as int * t5 as int <= 161693 * 626627) by (nonlinear_arith)
                requires
                    0 <= t2 as int <= 161693,
                    0 <= t5 as int <= 626627,
            ;
        }
        let t7 = (t2 * t5 + 0x8000) / 0x1_0000;
        proof {
            lemma_fundamental_div_mod((t2 * t5 + 0x8000) as int, 0x1_0000);
            assert(t7 <= 1546100);
        }
        let s: i64 = th as i64 + (t5 / 120) as i64 - (t3 / 6) as i64 - (t7 / 5040) as i64;
        if s <= 0 {
            0
        } else if s >= 0x1_0000 {
            FIXED_ONE
        } else {
            s as i32
        }
    }
}

/// `sin(a * pi)` in 16.16 fixed point, for an angle `a` in 16.16 half-turns,
/// reduced by quadrant symmetry to [`sin_quarter_spec`]. Exact at every
/// quarter turn.
pub open spec fn sinpi_spec(a: int) -> int {
    let u = a % 0x2_0000;
    let q = u / 0x8000;
    let w = u % 0x8000;
    if q == 0 {
        sin_quarter_spec(w)
    } else if q == 1 {
        sin_quarter_spec(0x8000 - w)
    } else if q == 2 {
        -sin_quarter_spec(w)
    } else {
        -sin_quarter_spec(0x8000 - w)
    }
}

/// `cos(a * pi)` in 16.16 fixed point: the sine shifted by a quarter turn.
pub open spec fn cospi_spec(a: int) -> int {
    sinpi_spec(a + 0x8000)
}

/// Reduces an angle in 16.16 half-turns to `[0, 0x2_0000)`, its value
/// modulo one full turn.
fn reduce_turn(a: i32) -> (u: u32)
    ensures
        u == (a as int) % 0x2_0000,
{
    let fm = crate::hint_math::floor_pad(a, 0x2_0000);
    (a - fm) as u32
}

/// Computes the fixed-point sine of an angle in 16.16 half-turns.
pub fn sinpi(a: i32) -> (r: i32)
    ensures
        r == sinpi_spec(a as int),
        -0x1_0000 <= r <= 0x1_0000,
{
    let u = reduce_turn(a);
    let q = u / 0x8000;
    let w = u % 0x8000;
    if q == 0 {
        sin_quarter(w)
    } else if q == 1 {
        sin_quarter(0x8000 - w)
    } else if q == 2 {
        -sin_quarter(w)
    } else {
        -sin_quarter(0x8000 - w)
    }
}

/// Computes the fixed-point cosine of an angle in 16.16 half-turns.
pub fn cospi(a: i32) -> (r: i32)
    ensures
        r == cospi_spec(a as int),
        -0x1_0000 <= r <= 0x1_0000,
{
    if a > i32::MAX - 0x8000 {
        // Step back one full turn before the quarter-turn shift; the sine
        // is periodic in 0x2_0000, so the value is unchanged.
        let r = sinpi(a - 0x1_8000);
        proof {
            lemma_mod_sub_turn(a as int + 0x8000);
        }
        r
    } else {
        sinpi(a + 0x8000)
    }
}

/// One full turn splits off the modulus: `(x - 0x2_0000) % 0x2_0000 ==
/// x % 0x2_0000`, so shifting an angle by a whole turn keeps its sine.
proof fn lemma_mod_sub_turn(x: int)
    ensures
        (x - 0x2_0000) % 0x2_0000 == x % 0x2_0000,
{
    lemma_fundamental_div_mod(x, 0x2_0000);
    lemma_fundamental_div_mod(x - 0x2_0000, 0x2_0000);
    assert((x - 0x2_0000) == (x / 0x2_0000 - 1) * 0x2_0000 + x % 0x2_0000) by (nonlinear_arith)
        requires
            x == 0x2_0000 * (x / 0x2_0000) + x % 0x2_0000,
    ;
    vstd::arithmetic::div_mod::lemma_fundamental_div_mod_converse(
        x - 0x2_0000,
        0x2_0000,
        x / 0x2_0000 - 1,
        x % 0x2_0000,
    );
}

/// `tan(a * pi)` in 16.16 fixed point: the quotient of sine and cosine,
/// saturating where the cosine vanishes.
pub open spec fn tanpi_spec(a: int) -> int {
    crate::hint_math::div16_spec(sinpi_spec(a), cospi_spec(a))
}

/// Computes the fixed-point tangent of an angle in 16.16 half-turns.
pub fn tanpi(a: i32) -> (r: i32)
    ensures
        r == tanpi_spec(a as int),
{
    let s = sinpi(a);
    let c = cospi(a);
    crate::hint_math::div(s, c)
}

} // verus!
