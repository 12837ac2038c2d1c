//! Fixed-point arithmetic for the hinting engine.
//!
//! Values are binary fixed-point numbers: 26.6 for distances handled by the
//! rounding helpers, 16.16 for [`mul`] and [`div`], and 2.14 for the vector
//! helpers [`mul14`] and [`dot14`].

use vstd::prelude::*;
use vstd::arithmetic::div_mod::lemma_fundamental_div_mod;
use vstd::arithmetic::div_mod::lemma_fundamental_div_mod_converse;
use vstd::arithmetic::div_mod::lemma_div_is_ordered;
use vstd::arithmetic::mul::lemma_mul_inequality;

verus! {

/// Floor division of `num` by the positive divisor `d`, computed with
/// unsigned machine arithmetic so that no intermediate step can overflow.
pub(crate) fn floor_div_i64(num: i64, d: u64) -> (q: i64)
    requires
        1 <= d <= 0x1_0000_0000,
        -0x7fff_ffff_ffff_ffff <= num,
    ensures
        q == num as int / d as int,
{
    if num >= 0 {
        let qu = (num as u64) / d;
        proof {
            let ni = num as int;
            let di = d as int;
            lemma_fundamental_div_mod(ni, di);
            assert(ni == di * (ni / di) + ni % di);
            assert(qu as int == ni / di);
            assert(qu as int <= di * (qu as int)) by (nonlinear_arith)
                requires
                    di >= 1,
                    qu as int >= 0,
            ;
        }
        qu as i64
    } else {
        let m = (-num) as u64;
        let q2 = (m + (d - 1)) / d;
        proof {
            let mi = m as int;
            let di = d as int;
            let s = (mi + di - 1) % di;
            lemma_fundamental_div_mod(mi + di - 1, di);
            assert(mi + di - 1 == di * (q2 as int) + s);
            assert(0 <= s < di);
            // q2 * d lands in (m - 1, m + d - 1], so the remainder below fits.
            let r = di - 1 - s;
            assert(-mi == (-(q2 as int)) * di + r) by (nonlinear_arith)
                requires
                    mi + di - 1 == di * (q2 as int) + s,
                    r == di - 1 - s,
            ;
            lemma_fundamental_div_mod_converse(-mi, di, -(q2 as int), r);
            assert(q2 as int <= mi) by (nonlinear_arith)
                requires
                    di >= 1,
                    mi >= 0,
                    q2 as int >= 0,
                    di * (q2 as int) == mi + di - 1 - s,
                    0 <= s < di,
            ;
        }
        -(q2 as i64)
    }
}

/// Floors `x` to a multiple of `n`. `n` must divide 2^31 so that the result
/// cannot leave the `i32` range.
fn floor_mult(x: i32, n: i32) -> (r: i32)
    requires
        1 <= n,
        0x8000_0000int % (n as int) == 0,
    ensures
        r == x - (x as int) % (n as int),
        r == (n as int) * ((x as int) / (n as int)),
{
    let q = floor_div_i64(x as i64, n as u64);
    proof {
        let xi = x as int;
        let ni = n as int;
        lemma_fundamental_div_mod(xi, ni);
        assert(ni * (xi / ni) == xi - xi % ni);
        // Lower bound: since n divides 2^31, the floored value of the least
        // i32 is itself, and division is monotone from there.
        let a = 0x8000_0000int;
        lemma_fundamental_div_mod(a, ni);
        assert(a == (a / ni) * ni + 0) by (nonlinear_arith)
            requires
                a == ni * (a / ni) + a % ni,
                a % ni == 0,
        ;
        assert((-(a / ni)) * ni + 0 == -a) by (nonlinear_arith)
            requires
                a == (a / ni) * ni + 0,
        ;
        lemma_fundamental_div_mod_converse(-a, ni, -(a / ni), 0);
        lemma_div_is_ordered(-a, xi, ni);
        assert((-a / ni) * ni <= (xi / ni) * ni) by {
            lemma_mul_inequality(-a / ni, xi / ni, ni);
        }
        assert((xi / ni) * ni == ni * (xi / ni)) by (nonlinear_arith);
        assert((-a / ni) * ni == -a) by (nonlinear_arith)
            requires
                -a / ni == -(a / ni),
                a == (a / ni) * ni,
        ;
        assert(-0x8000_0000 <= ni * (xi / ni) <= 0x7fff_ffff);
    }
    let r64 = q * (n as i64);
    r64 as i32
}

/// Floors a 26.6 value to the grid: the greatest multiple of 64 that is not
/// above `x`.
pub fn floor(x: i32) -> (r: i32)
    ensures
        r == x - (x as int) % 64,
        r == 64 * ((x as int) / 64),
{
    floor_mult(x, 64)
}

/// Rounds a 26.6 value to the nearest grid line, halves rounding up.
pub fn round(x: i32) -> (r: i32)
    requires
        x + 32 <= i32::MAX,
    ensures
        r == (x + 32) - (x + 32int) % 64,
        r == 64 * ((x + 32int) / 64),
{
    floor_mult(x + 32, 64)
}

/// Ceils a 26.6 value to the grid: the least multiple of 64 that is not
/// below `x`.
pub fn ceil(x: i32) -> (r: i32)
    requires
        x + 63 <= i32::MAX,
    ensures
        r == (x + 63) - (x + 63int) % 64,
        r == 64 * ((x + 63int) / 64),
{
    floor_mult(x + 63, 64)
}

/// Floors `x` to a multiple of the power of two `n`.
pub fn floor_pad(x: i32, n: i32) -> (r: i32)
    requires
        1 <= n,
        0x8000_0000int % (n as int) == 0,
    ensures
        r == x - (x as int) % (n as int),
{
    floor_mult(x, n)
}

/// Rounds `x` to the nearest multiple of the power of two `n`, halves
/// rounding up.
pub fn round_pad(x: i32, n: i32) -> (r: i32)
    requires
        1 <= n,
        0x8000_0000int % (n as int) == 0,
        x + n / 2 <= i32::MAX,
    ensures
        r == (x + (n as int) / 2) - (x + (n as int) / 2) % (n as int),
{
    let half = floor_div_i64(n as i64, 2) as i32;
    floor_mult(x + half, n)
}

/// The rounded product of two 16.16 values, before truncation to `i32`.
pub open spec fn mul16_spec(a: int, b: int) -> int {
    (a * b + 0x8000 - (if a * b < 0 { 1int } else { 0int })) / 0x1_0000
}

/// Multiplies two 16.16 fixed-point values, rounding the product.
pub fn mul(a: i32, b: i32) -> (r: i32)
    ensures
        r == mul16_spec(a as int, b as int) as i32,
        i32::MIN <= mul16_spec(a as int, b as int) <= i32::MAX ==> r == mul16_spec(
            a as int,
            b as int,
        ),
{
    proof {
        assert(-0x4000_0000_0000_0000 <= (a as int) * (b as int) <= 0x4000_0000_0000_0000)
            by (nonlinear_arith)
            requires
                -0x8000_0000 <= a as int <= 0x7fff_ffff,
                -0x8000_0000 <= b as int <= 0x7fff_ffff,
        ;
    }
    let ab = (a as i64) * (b as i64);
    let neg: i64 = if ab < 0 {
        1
    } else {
        0
    };
    let num = ab + 0x8000 - neg;
    let q = floor_div_i64(num, 0x1_0000);
    #[verifier::truncate]
    (q as i32)
}

/// The rounded product of two 2.14 values, before truncation to `i32`.
pub open spec fn mul14_spec(a: int, b: int) -> int {
    (a * b + 0x2000 - (if a * b < 0 { 1int } else { 0int })) / 0x4000
}

/// Multiplies two 2.14 fixed-point values, rounding the product.
pub fn mul14(a: i32, b: i32) -> (r: i32)
    ensures
        r == mul14_spec(a as int, b as int) as i32,
        i32::MIN <= mul14_spec(a as int, b as int) <= i32::MAX ==> r == mul14_spec(
            a as int,
            b as int,
        ),
{
    proof {
        assert(-0x4000_0000_0000_0000 <= (a as int) * (b as int) <= 0x4000_0000_0000_0000)
            by (nonlinear_arith)
            requires
                -0x8000_0000 <= a as int <= 0x7fff_ffff,
                -0x8000_0000 <= b as int <= 0x7fff_ffff,
        ;
    }
    let ab = (a as i64) * (b as i64);
    let neg: i64 = if ab < 0 {
        1
    } else {
        0
    };
    let num = ab + 0x2000 - neg;
    let q = floor_div_i64(num, 0x4000);
    #[verifier::truncate]
    (q as i32)
}

/// The rounded 2.14 dot product of two vectors.
pub open spec fn dot14_spec(ax: int, ay: int, bx: int, by: int) -> int {
    let v = ax * bx + ay * by;
    (v + 0x2000 - (if v < 0 { 1int } else { 0int })) / 0x4000
}

/// Dot product of two vectors with 2.14 components, rounded.
pub fn dot14(ax: i32, ay: i32, bx: i32, by: i32) -> (r: i32)
    requires
        -0x4000_0000 <= ax <= 0x4000_0000,
        -0x4000_0000 <= ay <= 0x4000_0000,
        -0x4000_0000 <= bx <= 0x4000_0000,
        -0x4000_0000 <= by <= 0x4000_0000,
    ensures
        r == dot14_spec(ax as int, ay as int, bx as int, by as int) as i32,
        i32::MIN <= dot14_spec(ax as int, ay as int, bx as int, by as int) <= i32::MAX
            ==> r == dot14_spec(ax as int, ay as int, bx as int, by as int),
{
    proof {
        assert(-0x1000_0000_0000_0000 <= (ax as int) * (bx as int) <= 0x1000_0000_0000_0000)
            by (nonlinear_arith)
            requires
                -0x4000_0000 <= ax as int <= 0x4000_0000,
                -0x4000_0000 <= bx as int <= 0x4000_0000,
        ;
        assert(-0x1000_0000_0000_0000 <= (ay as int) * (by as int) <= 0x1000_0000_0000_0000)
            by (nonlinear_arith)
            requires
                -0x4000_0000 <= ay as int <= 0x4000_0000,
                -0x4000_0000 <= by as int <= 0x4000_0000,
        ;
    }
    let v1 = (ax as i64) * (bx as i64);
    let v2 = (ay as i64) * (by as i64);
    let v = v1 + v2;
    let neg: i64 = if v < 0 {
        1
    } else {
        0
    };
    let num = v + 0x2000 - neg;
    let q = floor_div_i64(num, 0x4000);
    #[verifier::truncate]
    (q as i32)
}

/// The rounded 16.16 quotient with the magnitude saturated at `i32::MAX`.
/// A zero divisor also saturates, as the hinting engine expects.
pub open spec fn div16_spec(a: int, b: int) -> int {
    let s: int = if (a < 0) != (b < 0) {
        -1
    } else {
        1
    };
    let aa = if a < 0 {
        -a
    } else {
        a
    };
    let bb = if b < 0 {
        -b
    } else {
        b
    };
    let q = if bb == 0 {
        0x7fff_ffffint
    } else {
        (aa * 0x1_0000 + bb / 2) / bb
    };
    if q > 0x7fff_ffff {
        s * 0x7fff_ffff
    } else {
        s * q
    }
}

/// Divides two 16.16 fixed-point values, rounding the quotient and
/// saturating its magnitude.
pub fn div(a: i32, b: i32) -> (r: i32)
    ensures
        r == div16_spec(a as int, b as int),
{
    let neg = (a < 0) != (b < 0);
    let aa: u64 = if a < 0 {
        (-(a as i64)) as u64
    } else {
        a as u64
    };
    let bb: u64 = if b < 0 {
        (-(b as i64)) as u64
    } else {
        b as u64
    };
    let q: u64 = if bb == 0 {
        0x7fff_ffff
    } else {
        (aa * 0x1_0000 + bb / 2) / bb
    };
    let q = if q > 0x7fff_ffff {
        0x7fff_ffff
    } else {
        q
    };
    if neg {
        -(q as i32)
    } else {
        q as i32
    }
}

/// The rounded `a * b / c` with the magnitude saturated at `i32::MAX`.
/// A zero divisor also saturates.
pub open spec fn muldiv_spec(a: int, b: int, c: int) -> int {
    let s: int = if ((a < 0) != (b < 0)) != (c < 0) {
        -1
    } else {
        1
    };
    let aa = if a < 0 {
        -a
    } else {
        a
    };
    let bb = if b < 0 {
        -b
    } else {
        b
    };
    let cc = if c < 0 {
        -c
    } else {
        c
    };
    let q = if cc == 0 {
        0x7fff_ffffint
    } else {
        (aa * bb + cc / 2) / cc
    };
    if q > 0x7fff_ffff {
        s * 0x7fff_ffff
    } else {
        s * q
    }
}

/// Computes `a * b / c` in 64 bits, rounding the quotient and saturating
/// its magnitude.
pub fn muldiv(a: i32, b: i32, c: i32) -> (r: i32)
    ensures
        r == muldiv_spec(a as int, b as int, c as int),
{
    let mut neg = false;
    let aa: u64 = if a < 0 {
        neg = !neg;
        (-(a as i64)) as u64
    } else {
        a as u64
    };
    let bb: u64 = if b < 0 {
        neg = !neg;
        (-(b as i64)) as u64
    } else {
        b as u64
    };
    let cc: u64 = if c < 0 {
        neg = !neg;
        (-(c as i64)) as u64
    } else {
        c as u64
    };
    proof {
        assert((aa as int) * (bb as int) <= 0x4000_0000_0000_0000) by (nonlinear_arith)
            requires
                aa as int <= 0x8000_0000,
                bb as int <= 0x8000_0000,
        ;
    }
    let q: u64 = if cc == 0 {
        0x7fff_ffff
    } else {
        (aa * bb + cc / 2) / cc
    };
    let q = if q > 0x7fff_ffff {
        0x7fff_ffff
    } else {
        q
    };
    if neg {
        -(q as i32)
    } else {
        q as i32
    }
}

/// The truncated `a * b / c` with the magnitude saturated at `i32::MAX`.
/// A zero divisor also saturates.
pub open spec fn muldiv_no_round_spec(a: int, b: int, c: int) -> int {
    let s: int = if ((a < 0) != (b < 0)) != (c < 0) {
        -1
    } else {
        1
    };
    let aa = if a < 0 {
        -a
    } else {
        a
    };
    let bb = if b < 0 {
        -b
    } else {
        b
    };
    let cc = if c < 0 {
        -c
    } else {
        c
    };
    let q = if cc == 0 {
        0x7fff_ffffint
    } else {
        (aa * bb) / cc
    };
    if q > 0x7fff_ffff {
        s * 0x7fff_ffff
    } else {
        s * q
    }
}

/// Computes `a * b / c` in 64 bits without rounding, saturating the
/// magnitude.
pub fn muldiv_no_round(a: i32, b: i32, c: i32) -> (r: i32)
    ensures
        r == muldiv_no_round_spec(a as int, b as int, c as int),
{
    let mut neg = false;
    let aa: u64 = if a < 0 {
        neg = !neg;
        (-(a as i64)) as u64
    } else {
        a as u64
    };
    let bb: u64 = if b < 0 {
        neg = !neg;
        (-(b as i64)) as u64
    } else {
        b as u64
    };
    let cc: u64 = if c < 0 {
        neg = !neg;
        (-(c as i64)) as u64
    } else {
        c as u64
    };
    proof {
        assert((aa as int) * (bb as int) <= 0x4000_0000_0000_0000) by (nonlinear_arith)
            requires
                aa as int <= 0x8000_0000,
                bb as int <= 0x8000_0000,
        ;
    }
    let q: u64 = if cc == 0 {
        0x7fff_ffff
    } else {
        (aa * bb) / cc
    };
    let q = if q > 0x7fff_ffff {
        0x7fff_ffff
    } else {
        q
    };
    if neg {
        -(q as i32)
    } else {
        q as i32
    }
}

} // verus!
