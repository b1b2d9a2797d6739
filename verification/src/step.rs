//! Step interpolation: a track holds each keyframe's value until the next
//! keyframe is reached.

use vstd::prelude::*;
use crate::error::InterpolationError;
use crate::keyframes::{
    active_interval,
    get_input_index,
    lemma_active_interval,
    strictly_increasing,
};
use crate::layout::{check_request, request_fault, Layout};
use crate::scalar::Scalar;

verus! {

/// The slot of the output that a step track holds at `time`: that of the last
/// keyframe at or before `time`, and the first slot before the first keyframe.
pub open spec fn step_slot(time: Scalar, inputs: Seq<Scalar>) -> int {
    let interval = active_interval(time, inputs);
    if interval < 0 {
        0
    } else {
        interval
    }
}

/// At the time of the first keyframe, a step track holds the first output.
pub proof fn lemma_step_at_first_keyframe(time: Scalar, inputs: Seq<Scalar>)
    requires
        inputs.len() > 0,
        strictly_increasing(inputs),
        time.rank() == inputs[0].rank(),
    ensures
        step_slot(time, inputs) == 0,
{
    lemma_active_interval(time, inputs, 0);
}

/// At or after the last keyframe, a step track holds the last output, however
/// far after it the time lies.
pub proof fn lemma_step_past_range(time: Scalar, inputs: Seq<Scalar>)
    requires
        inputs.len() > 0,
        inputs.last().rank() <= time.rank(),
    ensures
        step_slot(time, inputs) == inputs.len() - 1,
{
}

/// Samples a step track at `input`. The buffer holds one output per keyframe,
/// and the sample is the stored value itself, so the flag that asks for a
/// normalized result has no effect.
pub fn step_interpolate<T: Copy>(input: Scalar, inputs: &[Scalar], outputs: &[T], normalize: bool) -> (r:
    Result<T, InterpolationError>)
    ensures
        r == match request_fault(input, inputs@, outputs@.len(), Layout::PerKeyframe) {
            Some(fault) => Err::<T, InterpolationError>(fault),
            None => Ok(outputs@[step_slot(input, inputs@)]),
        },
{
    match check_request(input, inputs, outputs.len(), Layout::PerKeyframe) {
        Err(fault) => Err(fault),
        Ok(()) => match get_input_index(input, inputs) {
            None => Ok(outputs[0]),
            Some(index) => Ok(outputs[index]),
        },
    }
}

} // verus!
