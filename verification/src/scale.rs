//! Scale-factor arithmetic: converting logical (scale-independent)
//! platform coordinates into physical pixels. A scale factor is carried
//! as an exact rational `num / den`, and products are truncated toward
//! zero and saturated to the `i32` coordinate range, as a narrowing cast
//! of the platform's scaled value would be.
use vstd::prelude::*;

verus! {

use vstd::arithmetic::div_mod::lemma_div_is_ordered;
use vstd::arithmetic::mul::lemma_mul_inequality;

/// `v` saturated to the `i32` range.
pub open spec fn clamp_to_i32(v: int) -> int {
    if v < i32::MIN as int {
        i32::MIN as int
    } else if v > i32::MAX as int {
        i32::MAX as int
    } else {
        v
    }
}

/// `v * num / den`, truncated toward zero.
pub open spec fn spec_scaled(v: int, num: int, den: int) -> int
    recommends
        den > 0,
{
    if v >= 0 {
        (v * num) / den
    } else {
        -(((-v) * num) / den)
    }
}

/// Scaling preserves order: a smaller coordinate never lands past a
/// larger one, so scaled geometry stays well-formed.
pub proof fn lemma_scaled_monotonic(v1: int, v2: int, num: int, den: int)
    requires
        v1 <= v2,
        num >= 0,
        den > 0,
    ensures
        spec_scaled(v1, num, den) <= spec_scaled(v2, num, den),
{
    if v1 >= 0 {
        lemma_mul_inequality(v1, v2, num);
        lemma_div_is_ordered(v1 * num, v2 * num, den);
    } else if v2 < 0 {
        lemma_mul_inequality(-v2, -v1, num);
        lemma_div_is_ordered((-v2) * num, (-v1) * num, den);
    } else {
        lemma_mul_inequality(0, -v1, num);
        lemma_div_is_ordered(0, (-v1) * num, den);
        lemma_mul_inequality(0, v2, num);
        lemma_div_is_ordered(0, v2 * num, den);
    }
}

/// One coordinate scaled by `num / den` and saturated into `i32`.
pub fn scale_saturating(v: i64, num: u32, den: u32) -> (r: i32)
    requires
        den > 0,
    ensures
        r as int == clamp_to_i32(spec_scaled(v as int, num as int, den as int)),
{
    if v >= 0 {
        let vu: u128 = v as u128;
        let nu: u128 = num as u128;
        assert(vu * nu <= 0x8000_0000_0000_0000u128 * 0xffff_ffffu128) by (nonlinear_arith)
            requires
                vu <= 0x8000_0000_0000_0000u128,
                nu <= 0xffff_ffffu128,
        ;
        let product: u128 = vu * nu;
        let scaled: u128 = product / (den as u128);
        if scaled > i32::MAX as u128 {
            i32::MAX
        } else {
            scaled as i32
        }
    } else {
        let mag: u128 = (-(v as i128)) as u128;
        let nu: u128 = num as u128;
        assert(mag * nu <= 0x8000_0000_0000_0000u128 * 0xffff_ffffu128) by (nonlinear_arith)
            requires
                mag <= 0x8000_0000_0000_0000u128,
                nu <= 0xffff_ffffu128,
        ;
        let product: u128 = mag * nu;
        let scaled: u128 = product / (den as u128);
        if scaled >= 0x8000_0000u128 {
            i32::MIN
        } else {
            -(scaled as i32)
        }
    }
}

/// The pointer position scaled from logical units into physical pixels,
/// each axis truncated toward zero and saturated to the `i32` range.
pub fn scale_position(x: i32, y: i32, num: u32, den: u32) -> (r: (i32, i32))
    requires
        den > 0,
    ensures
        r.0 as int == clamp_to_i32(spec_scaled(x as int, num as int, den as int)),
        r.1 as int == clamp_to_i32(spec_scaled(y as int, num as int, den as int)),
{
    (scale_saturating(x as i64, num, den), scale_saturating(y as i64, num, den))
}

/// All scale factors agree with the first; a set of at most one monitor
/// counts as consistent.
pub open spec fn spec_scale_factors_consistent(scales: Seq<u32>) -> bool {
    scales.len() <= 1 || forall|i: int| 0 <= i < scales.len() ==> #[trigger] scales[i] == scales[0]
}

/// Whether every monitor reports the same scale factor; cross-monitor
/// capture is only safe when they do. Factors are given in fixed-point
/// units so that equal platform factors compare equal exactly.
pub fn check_monitor_scale_factors_consistent(scale_factors: &Vec<u32>) -> (r: bool)
    ensures
        r == spec_scale_factors_consistent(scale_factors@),
{
    if scale_factors.len() <= 1 {
        return true;
    }
    let first: u32 = scale_factors[0];
    let mut i: usize = 1;
    while i < scale_factors.len()
        invariant
            1 <= i <= scale_factors@.len(),
            first == scale_factors@[0],
            forall|j: int| 0 <= j < i ==> scale_factors@[j] == first,
        decreases scale_factors@.len() - i,
    {
        if scale_factors[i] != first {
            return false;
        }
        i = i + 1;
    }
    true
}

} // verus!
