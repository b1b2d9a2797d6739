//! The ways in which a track or a query can be unfit for sampling.

use vstd::prelude::*;

verus! {

/// Why a sample was refused. Every refusal is decided before any value is
/// addressed or blended.
#[derive(Clone, Copy, Debug, PartialEq, Eq, Structural)]
pub enum InterpolationError {
    /// The input sequence or the output buffer is empty.
    EmptyKeyframeSet,
    /// The output buffer does not have the length that the algorithm's layout
    /// gives it for this many keyframes.
    MismatchedBufferLength,
    /// An input time is greater than its successor, or the first is negative.
    NonMonotonicInputs,
    /// Two adjacent input times are equal, so the interval between them has
    /// no width to divide by.
    DegenerateInterval,
    /// The query time or an input time is a NaN and cannot be ordered.
    NotComparable,
}

} // verus!
