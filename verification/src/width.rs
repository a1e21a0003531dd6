//! Integer arithmetic for the aspect-ratio-preserving target width used by
//! the resize operation.

use vstd::prelude::*;
use vstd::arithmetic::div_mod::{
    lemma_fundamental_div_mod, lemma_mod_bound, lemma_multiply_divide_lt,
};
use vstd::arithmetic::mul::{
    lemma_mul_inequality, lemma_mul_is_distributive_add, lemma_mul_upper_bound,
};

verus! {

/// The width that keeps the original `width : height` ratio once the height
/// becomes `max_height`: the real number `max_height * width / height`
/// rounded to the nearest integer, halves rounding up.
pub open spec fn scaled_width(width: int, height: int, max_height: int) -> int
    recommends
        0 < height,
{
    (2 * max_height * width + height) / (2 * height)
}

/// Computes `scaled_width` exactly, in 128-bit arithmetic. The result fits a
/// `u32` because resizing only ever shrinks (`max_height < height`), so the
/// new width never exceeds the old one.
pub(crate) fn compute_scaled_width(width: u32, height: u32, max_height: u32) -> (r: u32)
    requires
        0 < max_height,
        max_height < height,
    ensures
        r == scaled_width(width as int, height as int, max_height as int),
        r <= width,
{
    proof {
        lemma_mul_upper_bound(
            2 * (max_height as int),
            0x1_ffff_fffe,
            width as int,
            0xffff_ffff,
        );
    }
    let doubled: u128 = 2 * (max_height as u128) * (width as u128);
    let num: u128 = doubled + (height as u128);
    let den: u128 = 2 * (height as u128);
    proof {
        let w = width as int;
        let h = height as int;
        let mh = max_height as int;
        lemma_mul_inequality(2 * mh, 2 * h, w);
        lemma_mul_is_distributive_add(2 * h, w, 1);
        assert(num < den * (w + 1));
        lemma_multiply_divide_lt(num as int, den as int, w + 1);
    }
    let q: u128 = num / den;
    q as u32
}

/// The rounded width stays within half a pixel of the exact ratio: brought
/// to the common denominator `2 * height`, the scaled numerator
/// `2 * scaled_width * height` differs from the exact numerator
/// `2 * max_height * width` by more than `-height` and by at most `height`.
pub proof fn lemma_scaled_width_keeps_ratio(width: int, height: int, max_height: int)
    requires
        0 < height,
        0 <= width,
        0 <= max_height,
    ensures
        -height < 2 * scaled_width(width, height, max_height) * height - 2 * max_height * width,
        2 * scaled_width(width, height, max_height) * height - 2 * max_height * width <= height,
{
    let n = 2 * max_height * width + height;
    let d = 2 * height;
    let q = n / d;
    lemma_fundamental_div_mod(n, d);
    lemma_mod_bound(n, d);
    assert(2 * q * height == (2 * height) * q) by (nonlinear_arith);
    assert(scaled_width(width, height, max_height) == q);
}

} // verus!
