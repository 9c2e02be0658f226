//! What bounded arithmetic keeps of the numbers that it is done on.
#[allow(unused_imports)]
use super::{clamp32, half_of, larger, pixels_of, scaled_down, smaller};
use vstd::prelude::*;

verus! {

/// A bounded number lies within 32 bits and is the number itself where that fits; of two
/// numbers the larger does not become the smaller.
pub proof fn law_bounded_numbers_keep_their_order(v: int, w: int)
    ensures
        i32::MIN <= clamp32(v) <= i32::MAX,
        i32::MIN <= v <= i32::MAX ==> clamp32(v) == v,
        v <= w ==> clamp32(v) <= clamp32(w),
{
}

/// The larger and the smaller of two numbers are the two, and the larger is no less.
pub proof fn law_two_numbers_are_told_apart(a: int, b: int)
    ensures
        smaller(a, b) <= a <= larger(a, b),
        smaller(a, b) <= b <= larger(a, b),
        smaller(a, b) + larger(a, b) == a + b,
{
}

/// A length in pixels is the nearest to the true one, as long as that is at least a pixel
/// and within the numbers that there are; it is never less than a pixel, and never gets
/// shorter where the length or the resolution grows.
pub proof fn law_length_is_the_nearest(dip: nat, dpi: nat)
    requires
        dpi > 0,
    ensures
        pixels_of(dip, dpi) >= 1,
        96 <= dip * dpi <= 96 * 0x7000_0000 ==> -96 <= 2 * (dip * dpi) - 192 * pixels_of(dip, dpi)
            < 96,
        dip * dpi < 96 ==> pixels_of(dip, dpi) == 1,
{
    let product = dip * dpi;
    assert(2 * dip * dpi == 2 * product) by (nonlinear_arith)
        requires
            product == dip * dpi,
    ;
}

/// At the usual resolution, a length is as many pixels.
pub proof fn law_usual_resolution_keeps_lengths(dip: nat)
    requires
        1 <= dip <= i32::MAX,
    ensures
        pixels_of(dip, 96) == dip,
{
    let scale: nat = 96;
    assert(2 * dip * scale == 192 * dip) by (nonlinear_arith)
        requires
            scale == 96,
    ;
}

/// A longer length is no shorter in pixels, nor is one at a finer resolution.
pub proof fn law_longer_lengths_are_longer(dip: nat, longer: nat, dpi: nat, finer: nat)
    requires
        dip <= longer,
        1 <= dpi <= finer,
    ensures
        pixels_of(dip, dpi) <= pixels_of(longer, finer),
{
    let a = 2 * dip * dpi;
    let b = 2 * longer * finer;
    assert(a <= b) by (nonlinear_arith)
        requires
            a == 2 * dip * dpi,
            b == 2 * longer * finer,
            dip <= longer,
            dpi <= finer,
    ;
    vstd::arithmetic::div_mod::lemma_div_is_ordered((a + 96) as int, (b + 96) as int, 192);
}

/// A scaled number is the largest whole one that is not more than the true one.
pub proof fn law_scaled_numbers_round_down(v: int, times: int, by: int)
    requires
        by > 0,
    ensures
        by * scaled_down(v, times, by) <= v * times < by * (scaled_down(v, times, by) + 1),
{
    let n = v * times;
    vstd::arithmetic::div_mod::lemma_fundamental_div_mod(n, by);
    let q = n / by;
    assert(by * (q + 1) == by * q + by) by (nonlinear_arith);
}

/// Twice the half of a number is the number, or the next one towards zero.
pub proof fn law_half_is_rounded_to_zero(v: int)
    ensures
        v >= 0 ==> v - 1 <= 2 * half_of(v) <= v,
        v <= 0 ==> v <= 2 * half_of(v) <= v + 1,
{
}

} // verus!
