//! Quasi spherical linear interpolation: a linear blend whose factor is
//! warped to follow the arc, without trigonometry or square roots.
//!
//! With `d` how far the query time has gone through the interval and
//! `k = slope (1 - attenuation dot(p0, p1))^2`, the warp is
//! `y(d) = 2 k d^2 - 3 k d + k + 1`, and the blend is linear with the factor
//! `y(d)` in the lower half of the interval and `1 - y(1 - d)` in the upper.
//! A normalized result is scaled by an approximate inverse square root of its
//! squared magnitude `s`: the tangent line `additive + (s - neighbourhood) factor`
//! gives a first estimate `e(s)`, and each refinement pass multiplies the
//! estimate `k` by `e(k k s)`. It is meant for rotations of unit length only.
//! A track is sampled as for linear interpolation.

use vstd::prelude::*;
use crate::error::InterpolationError;
use crate::keyframes::{blend_factor, interpolation_factor};
use crate::layout::{request_fault, Layout};
use crate::linear::{lerp, linear_blend, linear_sample, linear_sample_of, Sample};
use crate::primitive::InterpolationPrimitive;
use crate::scalar::{Scalar, HALF, ONE, THREE, TWO};

verus! {

/// The pattern of 0.82279687, the attenuation of the warp.
pub const WARP_ATTENUATION: u32 = 0x3f52_a2d1;

/// The pattern of 0.58549219, the worst-case slope of the warp.
pub const WARP_WORST_CASE_SLOPE: u32 = 0x3f15_e2d1;

/// The pattern of 0.959066, the point around which the tangent line
/// approximates the inverse square root.
pub const ISQRT_NEIGHBOURHOOD: u32 = 0x3f75_8559;

/// The pattern of the tangent line's value at the neighbourhood point,
/// 1.000311 / 0.97931916.
pub const ISQRT_ADDITIVE_CONSTANT: u32 = 0x3f82_be63;

/// The pattern of the tangent line's slope,
/// 1.000311 * (-0.5 / (0.959066 * 0.97931916)).
pub const ISQRT_FACTOR: u32 = 0xbf08_52f1;

/// The pattern of 0.91521198. A squared magnitude up to this takes a
/// refinement pass.
pub const ONE_PASS_LIMIT: u32 = 0x3f6a_4b55;

/// The pattern of 0.65211970. A squared magnitude up to this takes a second
/// refinement pass.
pub const TWO_PASS_LIMIT: u32 = 0x3f26_f151;

/// Which form of the warp applies to a blend factor.
#[derive(Clone, Copy, Debug, PartialEq, Eq, Structural)]
pub enum Warp {
    /// The lower half of the interval: the factor is `y(d)`.
    Direct,
    /// The upper half of the interval: the factor is `1 - y(1 - d)`.
    Mirrored,
}

/// The form of the warp for the blend factor `d`: direct up to 0.5, mirrored
/// above it and for a NaN.
pub open spec fn warp_of(d: Scalar) -> Warp {
    if d.at_most(Scalar { bits: HALF }) {
        Warp::Direct
    } else {
        Warp::Mirrored
    }
}

/// Decides which form of the warp applies to the blend factor `d`.
pub fn warp_side(d: Scalar) -> (r: Warp)
    ensures
        r == warp_of(d),
{
    if d.le(Scalar::from_bits(HALF)) {
        Warp::Direct
    } else {
        Warp::Mirrored
    }
}

/// The number of refinement passes for a squared magnitude: two up to
/// 0.65211970, one up to 0.91521198, none above that and for a NaN.
pub open spec fn passes_for(magnitude2: Scalar) -> u8 {
    if magnitude2.at_most(Scalar { bits: TWO_PASS_LIMIT }) {
        2
    } else if magnitude2.at_most(Scalar { bits: ONE_PASS_LIMIT }) {
        1
    } else {
        0
    }
}

/// Decides how many refinement passes the approximate inverse square root
/// of a squared magnitude takes.
pub fn refinement_passes(magnitude2: Scalar) -> (r: u8)
    ensures
        r == passes_for(magnitude2),
{
    if magnitude2.le(Scalar::from_bits(ONE_PASS_LIMIT)) {
        if magnitude2.le(Scalar::from_bits(TWO_PASS_LIMIT)) {
            2
        } else {
            1
        }
    } else {
        0
    }
}

/// The warp `y(d) = 2 k d^2 - 3 k d + k + 1` for two values whose dot product
/// is `cos_alpha`, with `k = slope (1 - attenuation cos_alpha)^2`.
pub open spec fn warp(d: Scalar, cos_alpha: Scalar) -> Scalar {
    let factor = (Scalar { bits: ONE }).difference(
        (Scalar { bits: WARP_ATTENUATION }).product(cos_alpha),
    );
    let k = (Scalar { bits: WARP_WORST_CASE_SLOPE }).product(factor).product(factor);
    (Scalar { bits: TWO }).product(k).product(d).product(d).difference(
        (Scalar { bits: THREE }).product(k).product(d),
    ).sum(k).sum(Scalar { bits: ONE })
}

/// The warped blend factor: `y(d)` in the lower half of the interval, and
/// `1 - y(1 - d)` in the upper.
pub open spec fn warped_factor(d: Scalar, cos_alpha: Scalar) -> Scalar {
    match warp_of(d) {
        Warp::Direct => warp(d, cos_alpha),
        Warp::Mirrored => (Scalar { bits: ONE }).difference(
            warp((Scalar { bits: ONE }).difference(d), cos_alpha),
        ),
    }
}

/// The tangent line's estimate of the inverse square root of `s`:
/// `additive + (s - neighbourhood) factor`.
pub open spec fn isqrt_estimate(s: Scalar) -> Scalar {
    (Scalar { bits: ISQRT_ADDITIVE_CONSTANT }).sum(
        s.difference(Scalar { bits: ISQRT_NEIGHBOURHOOD }).product(Scalar { bits: ISQRT_FACTOR }),
    )
}

/// One refinement pass on the estimate `k` of the inverse square root of
/// `s`: `k e(k k s)`.
pub open spec fn refined(k: Scalar, s: Scalar) -> Scalar {
    k.product(isqrt_estimate(k.product(k).product(s)))
}

/// The approximate inverse square root of `s`: the tangent line's estimate
/// after as many refinement passes as `s` takes.
pub open spec fn fast_inverse_root(s: Scalar) -> Scalar {
    let estimate = isqrt_estimate(s);
    if passes_for(s) == 0 {
        estimate
    } else if passes_for(s) == 1 {
        refined(estimate, s)
    } else {
        refined(refined(estimate, s), s)
    }
}

/// A value scaled by the approximate inverse square root of its squared
/// magnitude.
pub open spec fn fast_normalized<T: InterpolationPrimitive>(value: &T) -> T {
    value.mul_spec(fast_inverse_root(value.magnitude2_spec()))
}

/// The quasi spherical linear interpolation of a track at `time`: a stored
/// output where the sample holds one, and else the straight blend of the two
/// outputs that bound the time by the warped factor, scaled by the
/// approximate inverse square root where a unit result is asked for.
pub open spec fn quasi_spherical_linear_value<T: InterpolationPrimitive>(
    time: Scalar,
    inputs: Seq<Scalar>,
    outputs: Seq<T>,
    normalize: bool,
) -> T {
    match linear_sample_of(time, inputs) {
        Sample::Hold { slot } => outputs[slot as int],
        Sample::Blend { left } => {
            let d = blend_factor(time, inputs[left as int], inputs[left + 1]);
            let dot = outputs[left as int].dot_spec(&outputs[left + 1]);
            let value = lerp(&outputs[left as int], &outputs[left + 1], warped_factor(d, dot));
            if normalize {
                fast_normalized(&value)
            } else {
                value
            }
        },
    }
}

/// At or after the last keyframe, the result is the last output, however far
/// after it the time lies and whether or not a unit result is asked for.
pub proof fn lemma_quasi_spherical_linear_past_range<T: InterpolationPrimitive>(
    time: Scalar,
    inputs: Seq<Scalar>,
    outputs: Seq<T>,
    normalize: bool,
)
    requires
        inputs.len() > 0,
        outputs.len() == inputs.len() <= usize::MAX,
        inputs.last().rank() <= time.rank(),
    ensures
        quasi_spherical_linear_value(time, inputs, outputs, normalize) == outputs.last(),
{
}

/// Computes the warp `2 k d^2 - 3 k d + k + 1` for two values whose dot
/// product is `cos_alpha`.
pub fn counter_warp(d: Scalar, cos_alpha: Scalar) -> (r: Scalar)
    ensures
        r == warp(d, cos_alpha),
{
    let one = Scalar { bits: ONE };
    let factor = one.minus(Scalar { bits: WARP_ATTENUATION }.times(cos_alpha));
    let k = Scalar { bits: WARP_WORST_CASE_SLOPE }.times(factor).times(factor);
    Scalar { bits: TWO }.times(k).times(d).times(d).minus(
        Scalar { bits: THREE }.times(k).times(d),
    ).plus(k).plus(one)
}

/// Computes the warped blend factor for two values whose dot product is
/// `cos_alpha`.
pub fn warp_factor(d: Scalar, cos_alpha: Scalar) -> (r: Scalar)
    ensures
        r == warped_factor(d, cos_alpha),
{
    let one = Scalar { bits: ONE };
    match warp_side(d) {
        Warp::Direct => counter_warp(d, cos_alpha),
        Warp::Mirrored => one.minus(counter_warp(one.minus(d), cos_alpha)),
    }
}

/// Estimates the inverse square root of `s` by the tangent line around the
/// neighbourhood point.
pub fn isqrt_approx_in_neighbourhood(s: Scalar) -> (r: Scalar)
    ensures
        r == isqrt_estimate(s),
{
    Scalar { bits: ISQRT_ADDITIVE_CONSTANT }.plus(
        s.minus(Scalar { bits: ISQRT_NEIGHBOURHOOD }).times(Scalar { bits: ISQRT_FACTOR }),
    )
}

/// Scales a value by the approximate inverse square root of its squared
/// magnitude, which brings a value near unit magnitude to unit magnitude.
pub fn fast_normalize<T: InterpolationPrimitive>(value: T) -> (r: T)
    ensures
        r == fast_normalized(&value),
{
    let s = value.magnitude2();
    let mut k = isqrt_approx_in_neighbourhood(s);
    let passes = refinement_passes(s);
    if passes >= 1 {
        k = k.times(isqrt_approx_in_neighbourhood(k.times(k).times(s)));
    }
    if passes >= 2 {
        k = k.times(isqrt_approx_in_neighbourhood(k.times(k).times(s)));
    }
    value.mul(k)
}

/// Interpolates a track of rotations at `input` by the warped linear blend.
/// The buffer holds one output per keyframe. Before the first keyframe the
/// result is the first output, and at or after the last keyframe it is the
/// last output; neither is normalized. Outputs that are not of unit length,
/// that oppose each other or that are zero give a result without meaning.
pub fn quasi_spherical_linear_interpolate<T: InterpolationPrimitive + Copy>(
    input: Scalar,
    inputs: &[Scalar],
    outputs: &[T],
    normalize: bool,
) -> (r: Result<T, InterpolationError>)
    ensures
        r == match request_fault(input, inputs@, outputs@.len(), Layout::PerKeyframe) {
            Some(fault) => Err::<T, InterpolationError>(fault),
            None => Ok(quasi_spherical_linear_value(input, inputs@, outputs@, normalize)),
        },
{
    match linear_sample(input, inputs, outputs.len()) {
        Err(fault) => Err(fault),
        Ok(Sample::Hold { slot }) => Ok(outputs[slot]),
        Ok(Sample::Blend { left }) => {
            let d = interpolation_factor(input, inputs[left], inputs[left + 1]);
            let dot = outputs[left].dot(&outputs[left + 1]);
            let value = linear_blend(&outputs[left], &outputs[left + 1], warp_factor(d, dot));
            if normalize {
                Ok(fast_normalize(value))
            } else {
                Ok(value)
            }
        },
    }
}

} // verus!
