//! Catmull-Rom splines: Hermite curves whose tangents are derived from the
//! neighbouring positions.
//!
//! The curve between two keyframes is the cubic Hermite curve through their
//! positions. The tangent at an interior keyframe `k` is the centered
//! difference `(position[k + 1] - position[k - 1]) / (input[k + 1] - input[k - 1])`;
//! the tangents at the first and last keyframe are stored at the two ends of
//! the buffer.

use vstd::prelude::*;
use crate::cubic_spline::{spline, spline_at};
use crate::error::InterpolationError;
use crate::keyframes::{
    active_interval,
    get_input_index,
    lemma_active_interval,
    strictly_increasing,
};
use crate::layout::{check_request, request_fault, Layout};
use crate::linear::{finish, finished, Sample};
use crate::primitive::InterpolationPrimitive;
use crate::scalar::Scalar;

verus! {

/// The tangent at keyframe `index`: the first value of the buffer for the
/// first keyframe, the last value for the last keyframe, and for any other
/// the difference of the positions of its two neighbours, scaled by the
/// reciprocal of the difference of their inputs.
pub open spec fn tangent_at<D: InterpolationPrimitive>(
    index: int,
    inputs: Seq<Scalar>,
    outputs: Seq<D>,
) -> D {
    if index == 0 {
        outputs[0]
    } else if index == inputs.len() - 1 {
        outputs[outputs.len() - 1]
    } else {
        outputs[index + 2].sub_spec(&outputs[index]).mul_spec(
            inputs[index + 1].difference(inputs[index - 1]).reciprocal(),
        )
    }
}

/// Derives the tangent at keyframe `index` of a track.
pub fn catmull_tangent<D: InterpolationPrimitive + Copy>(
    index: usize,
    inputs: &[Scalar],
    outputs: &[D],
) -> (r: D)
    requires
        index < inputs.len(),
        outputs.len() == inputs.len() + 2,
    ensures
        r == tangent_at(index as int, inputs@, outputs@),
{
    let output_index = index + 1;
    if index == 0 {
        outputs[0]
    } else if index == inputs.len() - 1 {
        outputs[outputs.len() - 1]
    } else {
        outputs[output_index + 1].sub(&outputs[output_index - 1]).mul(
            inputs[index + 1].minus(inputs[index - 1]).recip(),
        )
    }
}

/// Catmull-Rom spline interpolation. The output buffer holds the in-tangent
/// of the first keyframe, one position per keyframe and the out-tangent of
/// the last keyframe: `[in_tangent_0, position_0, .., position_n, out_tangent_n]`.
#[derive(Clone, Copy, Debug)]
pub struct CatmullRomSplineSetInterpolate;

impl CatmullRomSplineSetInterpolate {
    /// What a sample at `time` is made of: between two keyframes the curve
    /// between them, and otherwise the second-to-last value of the buffer,
    /// which is the position of the last keyframe.
    pub open spec fn sample_of(time: Scalar, inputs: Seq<Scalar>) -> Sample {
        let interval = active_interval(time, inputs);
        if interval < 0 || interval >= inputs.len() - 1 {
            Sample::Hold { slot: inputs.len() as usize }
        } else {
            Sample::Blend { left: interval as usize }
        }
    }

    /// The interpolation of a track at `time`: a stored position where the
    /// sample holds one, and else the Hermite curve through the positions of
    /// the two keyframes that bound the time, with the tangents at both.
    pub open spec fn value<T: InterpolationPrimitive>(
        time: Scalar,
        inputs: Seq<Scalar>,
        outputs: Seq<T>,
        normalize: bool,
    ) -> T {
        match Self::sample_of(time, inputs) {
            Sample::Hold { slot } => outputs[slot as int],
            Sample::Blend { left } => finished(
                spline_at(
                    time,
                    inputs[left as int],
                    inputs[left + 1].difference(inputs[left as int]),
                    &outputs[left + 1],
                    &outputs[left + 2],
                    &tangent_at(left as int, inputs, outputs),
                    &tangent_at(left + 1, inputs, outputs),
                ),
                normalize,
            ),
        }
    }

    /// At the time of the first keyframe, the sample begins at the first
    /// keyframe: it is its position where the track has no other keyframe,
    /// and else the curve that has not left it.
    pub proof fn lemma_sample_at_first_keyframe(time: Scalar, inputs: Seq<Scalar>)
        requires
            inputs.len() > 0,
            strictly_increasing(inputs),
            time.rank() == inputs[0].rank(),
        ensures
            Self::sample_of(time, inputs) == if inputs.len() == 1 {
                Sample::Hold { slot: 1 }
            } else {
                Sample::Blend { left: 0 }
            },
    {
        lemma_active_interval(time, inputs, 0);
    }

    /// At or after the last keyframe, the result is the position of the last
    /// keyframe, however far after it the time lies.
    pub proof fn lemma_value_past_range<T: InterpolationPrimitive>(
        time: Scalar,
        inputs: Seq<Scalar>,
        outputs: Seq<T>,
        normalize: bool,
    )
        requires
            inputs.len() > 0,
            outputs.len() == inputs.len() + 2 <= usize::MAX,
            inputs.last().rank() <= time.rank(),
        ensures
            Self::value(time, inputs, outputs, normalize) == outputs[outputs.len() - 2],
    {
    }

    /// Interpolates a track at `input` along the Catmull-Rom curve between
    /// the two keyframes that bound it. Before the first keyframe and at or
    /// after the last, the result is the second-to-last value of the buffer,
    /// the position of the last keyframe, and is not normalized.
    pub fn interpolate<T: InterpolationPrimitive + Copy>(
        &self,
        input: Scalar,
        inputs: &[Scalar],
        outputs: &[T],
        normalize: bool,
    ) -> (r: Result<T, InterpolationError>)
        ensures
            r == match request_fault(input, inputs@, outputs@.len(), Layout::Bracketed) {
                Some(fault) => Err::<T, InterpolationError>(fault),
                None => Ok(Self::value(input, inputs@, outputs@, normalize)),
            },
    {
        match check_request(input, inputs, outputs.len(), Layout::Bracketed) {
            Err(fault) => Err(fault),
            Ok(()) => match get_input_index(input, inputs) {
                None => Ok(outputs[outputs.len() - 2]),
                Some(input_index) => if input_index >= inputs.len() - 1 {
                    Ok(outputs[outputs.len() - 2])
                } else {
                    let t_diff = inputs[input_index + 1].minus(inputs[input_index]);
                    let v = spline(
                        input,
                        inputs[input_index],
                        t_diff,
                        &outputs[input_index + 1],
                        &outputs[input_index + 2],
                        &catmull_tangent(input_index, inputs, outputs),
                        &catmull_tangent(input_index + 1, inputs, outputs),
                    );
                    Ok(finish(v, normalize))
                },
            },
        }
    }
}

} // verus!
