//! Cubic Hermite splines over a buffer of explicit tangents.
//!
//! Between two keyframes the curve is
//! `p0 (2d^3 - 3d^2 + 1) + m0 (d^3 - 2d^2 + d) + p1 (-2d^3 + 3d^2) + m1 (d^3 - d^2)`,
//! where `d` is how far the query time has gone through the interval, `p0`
//! and `p1` are the positions of the two keyframes, and `m0` and `m1` are the
//! out-tangent of the left keyframe and the in-tangent of the right one, each
//! scaled by the width of the interval.

use vstd::prelude::*;
use crate::error::InterpolationError;
use crate::keyframes::{
    active_interval,
    get_input_index,
    lemma_active_interval,
    strictly_increasing,
};
use crate::layout::{check_request, request_fault, Layout};
use crate::linear::{finish, finished, Sample};
use crate::primitive::InterpolationPrimitive;
use crate::scalar::{Scalar, MINUS_TWO, ONE, THREE, TWO};

verus! {

/// The Hermite curve at the factor `d`, through the positions `p0` and `p1`
/// with the tangents `m0` and `m1`.
pub open spec fn hermite<D: InterpolationPrimitive>(d: Scalar, p0: &D, p1: &D, m0: &D, m1: &D) -> D {
    let d2 = d.product(d);
    let d3 = d2.product(d);
    let one = Scalar { bits: ONE };
    let two = Scalar { bits: TWO };
    let three = Scalar { bits: THREE };
    let minus_two = Scalar { bits: MINUS_TWO };
    p0.mul_spec(two.product(d3).difference(three.product(d2)).sum(one)).add_spec(
        &m0.mul_spec(d3.difference(two.product(d2)).sum(d)),
    ).add_spec(&p1.mul_spec(minus_two.product(d3).sum(three.product(d2)))).add_spec(
        &m1.mul_spec(d3.difference(d2)),
    )
}

/// The Hermite curve at the time `t`, in an interval that starts at `left_t`
/// and is `t_diff` wide.
pub open spec fn spline_at<D: InterpolationPrimitive>(
    t: Scalar,
    left_t: Scalar,
    t_diff: Scalar,
    p0: &D,
    p1: &D,
    m0: &D,
    m1: &D,
) -> D {
    hermite(t.difference(left_t).quotient(t_diff), p0, p1, m0, m1)
}

/// Evaluates the Hermite curve through the positions `p0` and `p1` with the
/// tangents `m0` and `m1` at the time `t`, in an interval that starts at
/// `left_t` and is `t_diff` wide. A width of zero gives a result of NaNs or
/// infinities.
pub fn spline<D: InterpolationPrimitive>(
    t: Scalar,
    left_t: Scalar,
    t_diff: Scalar,
    p0: &D,
    p1: &D,
    m0: &D,
    m1: &D,
) -> (r: D)
    ensures
        r == spline_at(t, left_t, t_diff, p0, p1, m0, m1),
{
    let one = Scalar { bits: ONE };
    let two = Scalar { bits: TWO };
    let three = Scalar { bits: THREE };
    let minus_two = Scalar { bits: MINUS_TWO };
    let d = t.minus(left_t).over(t_diff);
    let d2 = d.times(d);
    let d3 = d2.times(d);
    p0.mul(two.times(d3).minus(three.times(d2)).plus(one)).add(
        &m0.mul(d3.minus(two.times(d2)).plus(d)),
    ).add(&p1.mul(minus_two.times(d3).plus(three.times(d2)))).add(&m1.mul(d3.minus(d2)))
}

/// Cubic Hermite spline interpolation. The output buffer holds three values
/// per keyframe: `[in_tangent_0, position_0, out_tangent_0, in_tangent_1, ..]`.
#[derive(Clone, Copy, Debug)]
pub struct CubicSplineSetInterpolate;

impl CubicSplineSetInterpolate {
    /// What a sample at `time` is made of: the position of the first keyframe
    /// before it, the position of the last keyframe at or after it, and
    /// between two keyframes the curve between them.
    pub open spec fn sample_of(time: Scalar, inputs: Seq<Scalar>) -> Sample {
        let interval = active_interval(time, inputs);
        if interval < 0 {
            Sample::Hold { slot: 1 }
        } else if interval >= inputs.len() - 1 {
            Sample::Hold { slot: (3 * inputs.len() - 2) as usize }
        } else {
            Sample::Blend { left: interval as usize }
        }
    }

    /// The interpolation of a track at `time`: a stored position where the
    /// sample holds one, and else the Hermite curve through the positions of
    /// the two keyframes that bound the time, with the out-tangent of the
    /// first and the in-tangent of the second, each scaled by the width of
    /// the interval.
    pub open spec fn value<T: InterpolationPrimitive>(
        time: Scalar,
        inputs: Seq<Scalar>,
        outputs: Seq<T>,
        normalize: bool,
    ) -> T {
        match Self::sample_of(time, inputs) {
            Sample::Hold { slot } => outputs[slot as int],
            Sample::Blend { left } => {
                let width = inputs[left + 1].difference(inputs[left as int]);
                finished(
                    spline_at(
                        time,
                        inputs[left as int],
                        width,
                        &outputs[3 * left + 1],
                        &outputs[3 * left + 4],
                        &outputs[3 * left + 2].mul_spec(width),
                        &outputs[3 * left + 3].mul_spec(width),
                    ),
                    normalize,
                )
            },
        }
    }

    /// At the time of the first keyframe, the sample begins at the first
    /// keyframe: it is its position where the track has no other keyframe,
    /// and else the curve that has not left it.
    pub proof fn lemma_sample_at_first_keyframe(time: Scalar, inputs: Seq<Scalar>)
        requires
            inputs.len() > 0,
            strictly_increasing(inputs),
            time.rank() == inputs[0].rank(),
        ensures
            Self::sample_of(time, inputs) == if inputs.len() == 1 {
                Sample::Hold { slot: 1 }
            } else {
                Sample::Blend { left: 0 }
            },
    {
        lemma_active_interval(time, inputs, 0);
    }

    /// At or after the last keyframe, the result is the position of the last
    /// keyframe, however far after it the time lies.
    pub proof fn lemma_value_past_range<T: InterpolationPrimitive>(
        time: Scalar,
        inputs: Seq<Scalar>,
        outputs: Seq<T>,
        normalize: bool,
    )
        requires
            inputs.len() > 0,
            outputs.len() == 3 * inputs.len() <= usize::MAX,
            inputs.last().rank() <= time.rank(),
        ensures
            Self::value(time, inputs, outputs, normalize) == outputs[outputs.len() - 2],
    {
    }

    /// Interpolates a track at `input` along the Hermite curve between the
    /// two keyframes that bound it. Before the first keyframe the result is
    /// the position of the first keyframe, and at or after the last keyframe
    /// it is the position of the last; neither is normalized.
    pub fn interpolate<T: InterpolationPrimitive + Copy>(
        &self,
        input: Scalar,
        inputs: &[Scalar],
        outputs: &[T],
        normalize: bool,
    ) -> (r: Result<T, InterpolationError>)
        ensures
            r == match request_fault(input, inputs@, outputs@.len(), Layout::Triples) {
                Some(fault) => Err::<T, InterpolationError>(fault),
                None => Ok(Self::value(input, inputs@, outputs@, normalize)),
            },
    {
        match check_request(input, inputs, outputs.len(), Layout::Triples) {
            Err(fault) => Err(fault),
            Ok(()) => match get_input_index(input, inputs) {
                None => Ok(outputs[1]),
                Some(input_index) => if input_index >= inputs.len() - 1 {
                    Ok(outputs[outputs.len() - 2])
                } else {
                    let t_diff = inputs[input_index + 1].minus(inputs[input_index]);
                    let left_index = input_index * 3;
                    let right_index = (input_index + 1) * 3;
                    let v = spline(
                        input,
                        inputs[input_index],
                        t_diff,
                        &outputs[left_index + 1],
                        &outputs[right_index + 1],
                        &outputs[left_index + 2].mul(t_diff),
                        &outputs[right_index].mul(t_diff),
                    );
                    Ok(finish(v, normalize))
                },
            },
        }
    }
}

} // verus!
