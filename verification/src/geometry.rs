//! Integer rectangles and bounded arithmetic on them.
use vstd::prelude::*;

pub mod laws;

verus! {

/// A rectangle in screen pixels.
#[derive(Clone, Copy, Debug, PartialEq, Eq, Structural)]
pub struct Rect {
    pub left: i32,
    pub top: i32,
    pub right: i32,
    pub bottom: i32,
}

/// The nearest number that fits into 32 bits.
pub open spec fn clamp32(v: int) -> int {
    if v < i32::MIN {
        i32::MIN as int
    } else if v > i32::MAX {
        i32::MAX as int
    } else {
        v
    }
}

/// The larger of two numbers.
pub open spec fn larger(a: int, b: int) -> int {
    if a >= b {
        a
    } else {
        b
    }
}

/// The smaller of two numbers.
pub open spec fn smaller(a: int, b: int) -> int {
    if a <= b {
        a
    } else {
        b
    }
}

/// The nearest number that fits into 32 bits.
pub fn saturate(v: i64) -> (r: i32)
    ensures
        r == clamp32(v as int),
{
    if v < -0x8000_0000 {
        i32::MIN
    } else if v > 0x7fff_ffff {
        i32::MAX
    } else {
        v as i32
    }
}

/// A sum, or the bound that it would pass.
pub fn add_within(a: i32, b: i32) -> (r: i32)
    ensures
        r == clamp32(a + b),
{
    saturate(a as i64 + b as i64)
}

/// A difference, or the bound that it would pass.
pub fn sub_within(a: i32, b: i32) -> (r: i32)
    ensures
        r == clamp32(a - b),
{
    saturate(a as i64 - b as i64)
}

/// The larger of two numbers.
pub fn upper(a: i32, b: i32) -> (r: i32)
    ensures
        r == larger(a as int, b as int),
{
    if a >= b {
        a
    } else {
        b
    }
}

/// The smaller of two numbers.
pub fn lower(a: i32, b: i32) -> (r: i32)
    ensures
        r == smaller(a as int, b as int),
{
    if a <= b {
        a
    } else {
        b
    }
}

/// A length of `dip` ninety-sixths of an inch in pixels: rounded to the nearest,
/// a half upwards, and at least one.
pub open spec fn pixels_of(dip: nat, dpi: nat) -> int {
    let scale: nat = if dpi == 0 {
        1
    } else {
        dpi
    };
    larger(clamp32((2 * dip * scale + 96) as int / 192), 1)
}

/// A length of `dip` ninety-sixths of an inch in pixels, at least one.
pub fn pixels(dip: u32, dpi: u32) -> (r: i32)
    ensures
        r == pixels_of(dip as nat, dpi as nat),
        1 <= r,
{
    let scale: u32 = if dpi == 0 {
        1
    } else {
        dpi
    };
    assert(0 <= dip * scale <= 0xffff_ffff * 0xffff_ffff) by (nonlinear_arith)
        requires
            0 <= dip <= 0xffff_ffff,
            0 <= scale <= 0xffff_ffff,
    ;
    let product: u128 = (dip as u128) * (scale as u128);
    let rounded: u128 = (2 * product + 96) / 192;
    assert(2 * product == 2 * dip * scale) by (nonlinear_arith)
        requires
            product == dip * scale,
    ;
    if rounded > 0x7fff_ffff {
        i32::MAX
    } else {
        upper(rounded as i32, 1)
    }
}

/// A number times one and divided by another, rounded downwards.
pub open spec fn scaled_down(v: int, times: int, by: int) -> int {
    v * times / by
}

/// A number times one and divided by another, rounded downwards.
pub fn scale_down(v: i32, times: u32, by: u32) -> (r: i64)
    requires
        by > 0,
        times <= 0x10000,
    ensures
        r == scaled_down(v as int, times as int, by as int),
{
    let d: i64 = by as i64;
    assert(-0x8000_0000_0000 <= v * times <= 0x8000_0000_0000) by (nonlinear_arith)
        requires
            -0x8000_0000 <= v <= 0x7fff_ffff,
            0 <= times <= 0x10000,
    ;
    let n: i64 = (v as i64) * (times as i64);
    if n >= 0 {
        return n / d;
    }
    let up: i64 = -n + (d - 1);
    let q: i64 = up / d;
    proof {
        let qi = q as int;
        let di = d as int;
        let ni = n as int;
        vstd::arithmetic::div_mod::lemma_fundamental_div_mod(up as int, di);
        let rest = di * qi + ni;
        assert(0 <= rest < di);
        assert(di * (-qi) == -(di * qi)) by (nonlinear_arith);
        assert(ni == di * (-qi) + rest);
        vstd::arithmetic::div_mod::lemma_fundamental_div_mod_converse(ni, di, -qi, rest);
    }
    -q
}

/// Half of a number, rounded towards zero.
pub open spec fn half_of(v: int) -> int {
    if v >= 0 {
        v / 2
    } else {
        -((-v) / 2)
    }
}

/// Half of a number, rounded towards zero.
pub fn half(v: i64) -> (r: i64)
    requires
        v > i64::MIN,
    ensures
        r == half_of(v as int),
{
    if v >= 0 {
        v / 2
    } else {
        -((-v) / 2)
    }
}

} // verus!
