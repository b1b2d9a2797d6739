//! How an output buffer is laid out against its keyframes, and when a query
//! against a track is fit to be answered.

use vstd::prelude::*;
use crate::error::InterpolationError;
use crate::keyframes::{check_inputs, query_fault, well_formed};
use crate::scalar::Scalar;

verus! {

/// The layout of an output buffer.
#[derive(Clone, Copy, Debug, PartialEq, Eq, Structural)]
pub enum Layout {
    /// One output per keyframe.
    PerKeyframe,
    /// Three outputs per keyframe: its in-tangent, its position and its
    /// out-tangent, in that order.
    Triples,
    /// The in-tangent of the first keyframe, then one position per keyframe,
    /// then the out-tangent of the last keyframe.
    Bracketed,
}

impl Layout {
    /// The length of an output buffer for this many keyframes.
    pub open spec fn outputs_for(self, keyframes: nat) -> nat {
        match self {
            Layout::PerKeyframe => keyframes,
            Layout::Triples => 3 * keyframes,
            Layout::Bracketed => keyframes + 2,
        }
    }

    /// Whether a buffer of `outputs` values has the length that this layout
    /// gives it for `keyframes` keyframes.
    pub fn fits(self, keyframes: usize, outputs: usize) -> (r: bool)
        ensures
            r == (outputs == self.outputs_for(keyframes as nat)),
    {
        match self {
            Layout::PerKeyframe => outputs == keyframes,
            Layout::Triples => outputs % 3 == 0 && outputs / 3 == keyframes,
            Layout::Bracketed => outputs >= 2 && outputs - 2 == keyframes,
        }
    }
}

/// What is wrong with a query at `time` against a track of these inputs and
/// `outputs` output values in the given layout, if anything. Where several
/// faults are present, the first of these is reported: an empty sequence or
/// buffer, a buffer of the wrong length, a fault of the query against the
/// input sequence.
pub open spec fn request_fault(
    time: Scalar,
    inputs: Seq<Scalar>,
    outputs: nat,
    layout: Layout,
) -> Option<InterpolationError> {
    if inputs.len() == 0 || outputs == 0 {
        Some(InterpolationError::EmptyKeyframeSet)
    } else if outputs != layout.outputs_for(inputs.len()) {
        Some(InterpolationError::MismatchedBufferLength)
    } else {
        query_fault(time, inputs)
    }
}

/// A query that can be answered: the time is a number, the inputs are well
/// formed and the buffer has the length that the layout gives it.
pub open spec fn answerable(time: Scalar, inputs: Seq<Scalar>, outputs: nat, layout: Layout) -> bool {
    &&& !time.nan()
    &&& well_formed(inputs)
    &&& outputs == layout.outputs_for(inputs.len())
}

/// A query has no fault exactly when it can be answered.
pub proof fn lemma_fault_free_is_answerable(
    time: Scalar,
    inputs: Seq<Scalar>,
    outputs: nat,
    layout: Layout,
)
    ensures
        request_fault(time, inputs, outputs, layout) is None <==> answerable(
            time,
            inputs,
            outputs,
            layout,
        ),
{
    crate::keyframes::lemma_fault_free_is_well_formed(inputs);
}

/// Checks a query against a track, reporting its fault if it has one.
pub fn check_request(time: Scalar, inputs: &[Scalar], outputs: usize, layout: Layout) -> (r: Result<
    (),
    InterpolationError,
>)
    ensures
        r == match request_fault(time, inputs@, outputs as nat, layout) {
            Some(fault) => Err::<(), InterpolationError>(fault),
            None => Ok(()),
        },
        r is Ok <==> answerable(time, inputs@, outputs as nat, layout),
{
    proof {
        lemma_fault_free_is_answerable(time, inputs@, outputs as nat, layout);
    }
    if inputs.len() == 0 || outputs == 0 {
        return Err(InterpolationError::EmptyKeyframeSet);
    }
    if !layout.fits(inputs.len(), outputs) {
        return Err(InterpolationError::MismatchedBufferLength);
    }
    if time.is_nan() {
        return Err(InterpolationError::NotComparable);
    }
    check_inputs(inputs)
}

} // verus!
