//! Linear interpolation: `f(d) = p0 + (p1 - p0) d`, where `p0` and `p1` are the
//! outputs of the two keyframes that bound the query time and `d` is how far
//! the time has gone from the first towards the second.

use vstd::prelude::*;
use crate::error::InterpolationError;
use crate::keyframes::{
    active_interval,
    blend_factor,
    get_input_index,
    interpolation_factor,
    lemma_active_interval,
    lemma_before_range,
    strictly_increasing,
};
use crate::layout::{check_request, request_fault, Layout};
use crate::primitive::InterpolationPrimitive;
use crate::scalar::Scalar;

verus! {

/// What a sample of a track is made of.
#[derive(Clone, Copy, Debug, PartialEq, Eq, Structural)]
pub enum Sample {
    /// The output stored at `slot` of the buffer, as it is.
    Hold { slot: usize },
    /// A blend of the outputs of the keyframes `left` and `left + 1`, by how
    /// far the query time has gone from the input of the first towards the
    /// input of the second.
    Blend { left: usize },
}

/// What a sample at `time` is made of: the first output before the first
/// keyframe, the last output at or after the last keyframe, and between two
/// keyframes a blend of their outputs. A time that is exactly a keyframe's
/// belongs to the interval that this keyframe starts.
pub open spec fn linear_sample_of(time: Scalar, inputs: Seq<Scalar>) -> Sample {
    let interval = active_interval(time, inputs);
    if interval < 0 {
        Sample::Hold { slot: 0 }
    } else if interval >= inputs.len() - 1 {
        Sample::Hold { slot: (inputs.len() - 1) as usize }
    } else {
        Sample::Blend { left: interval as usize }
    }
}

/// At the time of the first keyframe, the sample begins at the first output:
/// it is that output where the track has no other, and else the blend of the
/// first two outputs that has not left the first.
pub proof fn lemma_sample_at_first_keyframe(time: Scalar, inputs: Seq<Scalar>)
    requires
        inputs.len() > 0,
        strictly_increasing(inputs),
        time.rank() == inputs[0].rank(),
    ensures
        linear_sample_of(time, inputs) == if inputs.len() == 1 {
            Sample::Hold { slot: 0 }
        } else {
            Sample::Blend { left: 0 }
        },
{
    lemma_active_interval(time, inputs, 0);
}

/// At or after the last keyframe, the sample is the last output, however far
/// after it the time lies.
pub proof fn lemma_sample_past_range(time: Scalar, inputs: Seq<Scalar>)
    requires
        inputs.len() > 0,
        inputs.last().rank() <= time.rank(),
    ensures
        linear_sample_of(time, inputs) == (Sample::Hold { slot: (inputs.len() - 1) as usize }),
{
}

/// Decides what the sample at `input` is made of, for a track of `outputs`
/// values, one per keyframe.
pub fn linear_sample(input: Scalar, inputs: &[Scalar], outputs: usize) -> (r: Result<
    Sample,
    InterpolationError,
>)
    ensures
        r == match request_fault(input, inputs@, outputs as nat, Layout::PerKeyframe) {
            Some(fault) => Err::<Sample, InterpolationError>(fault),
            None => Ok(linear_sample_of(input, inputs@)),
        },
        r matches Ok(Sample::Hold { slot }) ==> slot < outputs,
        r matches Ok(Sample::Blend { left }) ==> left + 1 < outputs,
{
    match check_request(input, inputs, outputs, Layout::PerKeyframe) {
        Err(fault) => Err(fault),
        Ok(()) => match get_input_index(input, inputs) {
            None => Ok(Sample::Hold { slot: 0 }),
            Some(index) => if index >= inputs.len() - 1 {
                Ok(Sample::Hold { slot: inputs.len() - 1 })
            } else {
                Ok(Sample::Blend { left: index })
            },
        },
    }
}

/// The straight blend of two values: `left + (right - left) d`.
pub open spec fn lerp<T: InterpolationPrimitive>(left: &T, right: &T, d: Scalar) -> T {
    left.add_spec(&right.sub_spec(left).mul_spec(d))
}

/// A blended value as it is returned: at unit magnitude where that is asked
/// for, and else as it is.
pub open spec fn finished<T: InterpolationPrimitive>(value: T, normalize: bool) -> T {
    if normalize {
        value.normalize_spec()
    } else {
        value
    }
}

/// The linear interpolation of a track at `time`: a stored output where the
/// sample holds one, and else the straight blend of the two outputs that
/// bound the time, by how far the time has gone between their keyframes.
pub open spec fn linear_value<T: InterpolationPrimitive>(
    time: Scalar,
    inputs: Seq<Scalar>,
    outputs: Seq<T>,
    normalize: bool,
) -> T {
    match linear_sample_of(time, inputs) {
        Sample::Hold { slot } => outputs[slot as int],
        Sample::Blend { left } => finished(
            lerp(
                &outputs[left as int],
                &outputs[left + 1],
                blend_factor(time, inputs[left as int], inputs[left + 1]),
            ),
            normalize,
        ),
    }
}

/// At or after the last keyframe, the result is the last output, however far
/// after it the time lies and whether or not a unit result is asked for.
pub proof fn lemma_linear_past_range<T: InterpolationPrimitive>(
    time: Scalar,
    inputs: Seq<Scalar>,
    outputs: Seq<T>,
    normalize: bool,
)
    requires
        inputs.len() > 0,
        outputs.len() == inputs.len() <= usize::MAX,
        inputs.last().rank() <= time.rank(),
    ensures
        linear_value(time, inputs, outputs, normalize) == outputs.last(),
{
}

/// Before the first keyframe, the result is the first output.
pub proof fn lemma_linear_before_range<T: InterpolationPrimitive>(
    time: Scalar,
    inputs: Seq<Scalar>,
    outputs: Seq<T>,
    normalize: bool,
)
    requires
        inputs.len() > 0,
        strictly_increasing(inputs),
        time.rank() < inputs[0].rank(),
    ensures
        linear_value(time, inputs, outputs, normalize) == outputs[0],
{
    lemma_before_range(time, inputs);
}

/// Blends two values on a straight line: `left + (right - left) d`.
pub fn linear_blend<T: InterpolationPrimitive>(left: &T, right: &T, d: Scalar) -> (r: T)
    ensures
        r == lerp(left, right, d),
{
    left.add(&right.sub(left).mul(d))
}

/// Returns a blended value at unit magnitude where `normalize` asks for it,
/// and else as it is.
pub fn finish<T: InterpolationPrimitive>(value: T, normalize: bool) -> (r: T)
    ensures
        r == finished(value, normalize),
{
    if normalize {
        value.normalize()
    } else {
        value
    }
}

/// Interpolates a track linearly at `input`. The buffer holds one output per
/// keyframe. Before the first keyframe the result is the first output, and at
/// or after the last keyframe it is the last output; neither is normalized.
pub fn linear_interpolate<T: InterpolationPrimitive + Copy>(
    input: Scalar,
    inputs: &[Scalar],
    outputs: &[T],
    normalize: bool,
) -> (r: Result<T, InterpolationError>)
    ensures
        r == match request_fault(input, inputs@, outputs@.len(), Layout::PerKeyframe) {
            Some(fault) => Err::<T, InterpolationError>(fault),
            None => Ok(linear_value(input, inputs@, outputs@, normalize)),
        },
{
    match linear_sample(input, inputs, outputs.len()) {
        Err(fault) => Err(fault),
        Ok(Sample::Hold { slot }) => Ok(outputs[slot]),
        Ok(Sample::Blend { left }) => {
            let d = interpolation_factor(input, inputs[left], inputs[left + 1]);
            Ok(finish(linear_blend(&outputs[left], &outputs[left + 1], d), normalize))
        },
    }
}

} // verus!
