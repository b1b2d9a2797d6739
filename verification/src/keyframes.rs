//! Input sequences: what makes one fit for sampling, and where a query time
//! falls in it.

use vstd::prelude::*;
use crate::error::InterpolationError;
use crate::scalar::{Scalar, ZERO};

verus! {

/// No input time is a NaN.
pub open spec fn comparable(inputs: Seq<Scalar>) -> bool {
    forall|i: int| 0 <= i < inputs.len() ==> !(#[trigger] inputs[i]).nan()
}

/// Every input time is less than all that follow it.
pub open spec fn strictly_increasing(inputs: Seq<Scalar>) -> bool {
    forall|i: int, j: int|
        0 <= i < j < inputs.len() ==> (#[trigger] inputs[i]).rank() < (#[trigger] inputs[j]).rank()
}

/// The input time at `i` is greater than its successor.
pub open spec fn descends_at(inputs: Seq<Scalar>, i: int) -> bool {
    inputs[i].rank() > inputs[i + 1].rank()
}

/// The input time at `i` equals its successor.
pub open spec fn level_at(inputs: Seq<Scalar>, i: int) -> bool {
    inputs[i].rank() == inputs[i + 1].rank()
}

/// Some input time is greater than its successor.
pub open spec fn has_descent(inputs: Seq<Scalar>) -> bool {
    exists|i: int| 0 <= i < inputs.len() - 1 && #[trigger] descends_at(inputs, i)
}

/// Some input time equals its successor.
pub open spec fn has_plateau(inputs: Seq<Scalar>) -> bool {
    exists|i: int| 0 <= i < inputs.len() - 1 && #[trigger] level_at(inputs, i)
}

/// An input sequence fit for sampling: not empty, free of NaNs, starting at
/// zero or later, and strictly increasing.
pub open spec fn well_formed(inputs: Seq<Scalar>) -> bool {
    &&& inputs.len() > 0
    &&& comparable(inputs)
    &&& inputs[0].rank() >= 0
    &&& strictly_increasing(inputs)
}

/// What is wrong with an input sequence, if anything. Where several faults
/// are present, the first of these is reported: emptiness, a NaN, a descent
/// or a negative start, a plateau.
pub open spec fn inputs_fault(inputs: Seq<Scalar>) -> Option<InterpolationError> {
    if inputs.len() == 0 {
        Some(InterpolationError::EmptyKeyframeSet)
    } else if !comparable(inputs) {
        Some(InterpolationError::NotComparable)
    } else if inputs[0].rank() < 0 || has_descent(inputs) {
        Some(InterpolationError::NonMonotonicInputs)
    } else if has_plateau(inputs) {
        Some(InterpolationError::DegenerateInterval)
    } else {
        None
    }
}

/// What is wrong with a query at `time` against an input sequence, if
/// anything. Where several faults are present, the first of these is
/// reported: emptiness, a NaN as the query time, a fault of the sequence.
pub open spec fn query_fault(time: Scalar, inputs: Seq<Scalar>) -> Option<InterpolationError> {
    if inputs.len() == 0 {
        Some(InterpolationError::EmptyKeyframeSet)
    } else if time.nan() {
        Some(InterpolationError::NotComparable)
    } else {
        inputs_fault(inputs)
    }
}

/// The index of the last keyframe at or before `time`, or -1 where `time`
/// lies before the first keyframe.
pub open spec fn active_interval(time: Scalar, inputs: Seq<Scalar>) -> int
    decreases inputs.len(),
{
    if inputs.len() == 0 {
        -1
    } else if inputs.last().rank() <= time.rank() {
        inputs.len() - 1
    } else {
        active_interval(time, inputs.drop_last())
    }
}

/// The active interval of `time` and whether it is the last one, so that the
/// query is clamped to the end of the range. `None` before the first keyframe.
pub open spec fn location_of(time: Scalar, inputs: Seq<Scalar>) -> Option<(usize, bool)> {
    let interval = active_interval(time, inputs);
    if interval < 0 {
        None
    } else {
        Some((interval as usize, interval == inputs.len() - 1))
    }
}

/// How far `time` has gone from `start` towards `end`, as a fraction of the
/// way: `(time - start) / (end - start)`.
pub open spec fn blend_factor(time: Scalar, start: Scalar, end: Scalar) -> Scalar {
    time.difference(start).quotient(end.difference(start))
}

/// The active interval of `time` with the blend factor in it, which is 0 in
/// the last interval. `None` before the first keyframe.
pub open spec fn factor_of(time: Scalar, inputs: Seq<Scalar>) -> Option<(usize, Scalar)> {
    let interval = active_interval(time, inputs);
    if interval < 0 {
        None
    } else if interval >= inputs.len() - 1 {
        Some((interval as usize, Scalar { bits: ZERO }))
    } else {
        Some((interval as usize, blend_factor(time, inputs[interval], inputs[interval + 1])))
    }
}

/// An input sequence has no fault exactly when it is well formed.
pub proof fn lemma_fault_free_is_well_formed(inputs: Seq<Scalar>)
    ensures
        inputs_fault(inputs) is None <==> well_formed(inputs),
{
    if inputs.len() > 0 && comparable(inputs) && inputs[0].rank() >= 0 {
        if strictly_increasing(inputs) {
            assert forall|i: int| 0 <= i < inputs.len() - 1 implies !(#[trigger] descends_at(
                inputs,
                i,
            )) by {
                assert(inputs[i].rank() < inputs[i + 1].rank());
            }
            assert forall|i: int| 0 <= i < inputs.len() - 1 implies !(#[trigger] level_at(
                inputs,
                i,
            )) by {
                assert(inputs[i].rank() < inputs[i + 1].rank());
            }
        }
        if !has_descent(inputs) && !has_plateau(inputs) {
            lemma_adjacent_increase(inputs, inputs.len() as int);
        }
    }
}

/// Where each of the first `n` input times is less than its successor, each
/// is less than all that follow it among them.
proof fn lemma_adjacent_increase(inputs: Seq<Scalar>, n: int)
    requires
        0 <= n <= inputs.len(),
        forall|i: int| 0 <= i < n - 1 ==> !(#[trigger] descends_at(inputs, i)),
        forall|i: int| 0 <= i < n - 1 ==> !(#[trigger] level_at(inputs, i)),
    ensures
        forall|i: int, j: int|
            0 <= i < j < n ==> (#[trigger] inputs[i]).rank() < (#[trigger] inputs[j]).rank(),
    decreases n,
{
    if n > 1 {
        lemma_adjacent_increase(inputs, n - 1);
        assert(!descends_at(inputs, n - 2) && !level_at(inputs, n - 2));
    }
}

/// In a strictly increasing sequence, the active interval of `time` is the
/// one keyframe at or before it whose successor, if it has one, is after it.
pub proof fn lemma_active_interval(time: Scalar, inputs: Seq<Scalar>, i: int)
    requires
        strictly_increasing(inputs),
        0 <= i < inputs.len(),
        inputs[i].rank() <= time.rank(),
        i + 1 < inputs.len() ==> time.rank() < inputs[i + 1].rank(),
    ensures
        active_interval(time, inputs) == i,
    decreases inputs.len(),
{
    if i != inputs.len() - 1 {
        let shorter = inputs.drop_last();
        assert(inputs[i + 1].rank() <= inputs.last().rank());
        assert(forall|k: int| 0 <= k < shorter.len() ==> shorter[k] == inputs[k]);
        lemma_active_interval(time, shorter, i);
    }
}

/// A time that is exactly a keyframe's belongs to the interval that this
/// keyframe starts.
pub proof fn lemma_active_interval_at_keyframe(time: Scalar, inputs: Seq<Scalar>, i: int)
    requires
        strictly_increasing(inputs),
        0 <= i < inputs.len(),
        time.rank() == inputs[i].rank(),
    ensures
        active_interval(time, inputs) == i,
{
    lemma_active_interval(time, inputs, i);
}

/// A time before the first keyframe has no active interval.
pub proof fn lemma_before_range(time: Scalar, inputs: Seq<Scalar>)
    requires
        strictly_increasing(inputs),
        inputs.len() > 0,
        time.rank() < inputs[0].rank(),
    ensures
        active_interval(time, inputs) == -1,
    decreases inputs.len(),
{
    let shorter = inputs.drop_last();
    assert(forall|k: int| 0 <= k < shorter.len() ==> shorter[k] == inputs[k]);
    assert(inputs[0].rank() <= inputs.last().rank());
    if shorter.len() > 0 {
        lemma_before_range(time, shorter);
    } else {
        assert(active_interval(time, shorter) == -1);
    }
}

/// At or after the last keyframe, the active interval is the last one,
/// however far after it the time lies.
pub proof fn lemma_past_range(time: Scalar, inputs: Seq<Scalar>)
    requires
        inputs.len() > 0,
        inputs.last().rank() <= time.rank(),
    ensures
        active_interval(time, inputs) == inputs.len() - 1,
{
}

/// The active interval is -1 or the index of a keyframe.
pub proof fn lemma_active_interval_in_range(time: Scalar, inputs: Seq<Scalar>)
    ensures
        -1 <= active_interval(time, inputs) < inputs.len(),
    decreases inputs.len(),
{
    if inputs.len() > 0 {
        lemma_active_interval_in_range(time, inputs.drop_last());
    }
}

/// In a strictly increasing sequence, the active interval begins at or before
/// the time and ends after it.
pub proof fn lemma_active_interval_bounds(time: Scalar, inputs: Seq<Scalar>)
    requires
        strictly_increasing(inputs),
    ensures
        ({
            let interval = active_interval(time, inputs);
            &&& interval >= 0 ==> inputs[interval].rank() <= time.rank()
            &&& forall|k: int|
                interval < k < inputs.len() ==> time.rank() < (#[trigger] inputs[k]).rank()
        }),
    decreases inputs.len(),
{
    lemma_active_interval_in_range(time, inputs);
    if inputs.len() > 0 && inputs.last().rank() > time.rank() {
        let shorter = inputs.drop_last();
        assert(forall|k: int| 0 <= k < shorter.len() ==> shorter[k] == inputs[k]);
        lemma_active_interval_in_range(time, shorter);
        lemma_active_interval_bounds(time, shorter);
        let interval = active_interval(time, shorter);
        assert forall|k: int| interval < k < inputs.len() implies time.rank() < (
        #[trigger] inputs[k]).rank() by {
            if k < shorter.len() {
                assert(shorter[k] == inputs[k]);
            }
        }
    }
}

/// A later time never has an earlier active interval.
pub proof fn lemma_active_interval_monotonic(earlier: Scalar, later: Scalar, inputs: Seq<Scalar>)
    requires
        strictly_increasing(inputs),
        earlier.rank() <= later.rank(),
    ensures
        active_interval(earlier, inputs) <= active_interval(later, inputs),
{
    lemma_active_interval_in_range(earlier, inputs);
    lemma_active_interval_in_range(later, inputs);
    lemma_active_interval_bounds(earlier, inputs);
    lemma_active_interval_bounds(later, inputs);
    let a = active_interval(earlier, inputs);
    let b = active_interval(later, inputs);
    if b < a {
        assert(later.rank() < inputs[a].rank());
    }
}

/// Checks an input sequence, reporting its fault if it has one.
pub fn check_inputs(inputs: &[Scalar]) -> (r: Result<(), InterpolationError>)
    ensures
        r == match inputs_fault(inputs@) {
            Some(fault) => Err::<(), InterpolationError>(fault),
            None => Ok(()),
        },
        r is Ok <==> well_formed(inputs@),
{
    proof {
        lemma_fault_free_is_well_formed(inputs@);
    }
    let n = inputs.len();
    if n == 0 {
        return Err(InterpolationError::EmptyKeyframeSet);
    }
    let mut i: usize = 0;
    while i < n
        invariant
            n == inputs.len(),
            i <= n,
            forall|k: int| 0 <= k < i ==> !(#[trigger] inputs@[k]).nan(),
        decreases n - i,
    {
        if inputs[i].is_nan() {
            return Err(InterpolationError::NotComparable);
        }
        i += 1;
    }
    if inputs[0].order_key() < 0 {
        return Err(InterpolationError::NonMonotonicInputs);
    }
    let mut plateau = false;
    let ghost mut plateau_at: int = 0;
    let mut j: usize = 1;
    while j < n
        invariant
            n == inputs.len(),
            1 <= j <= n,
            comparable(inputs@),
            inputs@[0].rank() >= 0,
            forall|k: int| 0 <= k < j - 1 ==> !(#[trigger] descends_at(inputs@, k)),
            plateau ==> 0 <= plateau_at < n - 1 && level_at(inputs@, plateau_at),
            !plateau ==> forall|k: int| 0 <= k < j - 1 ==> !(#[trigger] level_at(inputs@, k)),
        decreases n - j,
    {
        let earlier = inputs[j - 1].order_key();
        let later = inputs[j].order_key();
        if earlier > later {
            assert(descends_at(inputs@, j - 1));
            return Err(InterpolationError::NonMonotonicInputs);
        }
        if earlier == later {
            plateau = true;
            proof {
                plateau_at = j - 1;
                assert(level_at(inputs@, j - 1));
            }
        }
        j += 1;
    }
    if plateau {
        Err(InterpolationError::DegenerateInterval)
    } else {
        Ok(())
    }
}

/// Finds the active interval of `input`: the index of the last keyframe at or
/// before it. An exact match belongs to the interval that it starts. `None`
/// where `input` lies before the first keyframe.
pub fn get_input_index(input: Scalar, inputs: &[Scalar]) -> (r: Option<usize>)
    requires
        inputs.len() > 0,
        !input.nan(),
        comparable(inputs@),
        strictly_increasing(inputs@),
    ensures
        r is None <==> input.rank() < inputs@[0].rank(),
        r is None <==> active_interval(input, inputs@) == -1,
        r matches Some(i) ==> {
            &&& i == active_interval(input, inputs@)
            &&& i < inputs.len()
            &&& inputs@[i as int].rank() <= input.rank()
            &&& i + 1 < inputs.len() ==> input.rank() < inputs@[i + 1].rank()
        },
{
    let key = input.order_key();
    if key < inputs[0].order_key() {
        proof {
            lemma_before_range(input, inputs@);
        }
        return None;
    }
    let mut low: usize = 1;
    let mut high: usize = inputs.len();
    while low < high
        invariant
            1 <= low <= high <= inputs.len(),
            key == input.rank(),
            strictly_increasing(inputs@),
            inputs@[low - 1].rank() <= input.rank(),
            high < inputs.len() ==> input.rank() < inputs@[high as int].rank(),
        decreases high - low,
    {
        let middle = low + (high - low) / 2;
        if inputs[middle].order_key() <= key {
            low = middle + 1;
        } else {
            high = middle;
        }
    }
    proof {
        lemma_active_interval(input, inputs@, low - 1);
    }
    Some(low - 1)
}

/// Computes how far `time` has gone from `start` towards `end`, as a fraction
/// of the way. Where `start` and `end` are equal, the result is an infinity
/// or a NaN.
pub fn interpolation_factor(time: Scalar, start: Scalar, end: Scalar) -> (r: Scalar)
    ensures
        r == blend_factor(time, start, end),
{
    time.minus(start).over(end.minus(start))
}

/// Finds the active interval of `input` and the blend factor in it: how far
/// `input` has gone from the keyframe that starts the interval towards the
/// next one. In the last interval the factor is 0. `None` where `input` lies
/// before the first keyframe.
pub fn get_interpolation_factor(input: Scalar, inputs: &[Scalar]) -> (r: Option<(usize, Scalar)>)
    requires
        inputs.len() > 0,
        !input.nan(),
        comparable(inputs@),
        strictly_increasing(inputs@),
    ensures
        r == factor_of(input, inputs@),
{
    match get_input_index(input, inputs) {
        None => None,
        Some(index) => if index >= inputs.len() - 1 {
            Some((index, Scalar { bits: ZERO }))
        } else {
            Some((index, interpolation_factor(input, inputs[index], inputs[index + 1])))
        },
    }
}

/// Locates `time` in an input sequence: the active interval, and whether the
/// query is at or past the last keyframe. `None` where `time` lies before the
/// first keyframe. A faulty sequence or a NaN as the query time is refused.
pub fn locate(time: Scalar, inputs: &[Scalar]) -> (r: Result<
    Option<(usize, bool)>,
    InterpolationError,
>)
    ensures
        r == match query_fault(time, inputs@) {
            Some(fault) => Err::<Option<(usize, bool)>, InterpolationError>(fault),
            None => Ok(location_of(time, inputs@)),
        },
        r is Ok <==> !time.nan() && well_formed(inputs@),
{
    proof {
        lemma_fault_free_is_well_formed(inputs@);
    }
    if inputs.len() == 0 {
        return Err(InterpolationError::EmptyKeyframeSet);
    }
    if time.is_nan() {
        return Err(InterpolationError::NotComparable);
    }
    match check_inputs(inputs) {
        Err(fault) => Err(fault),
        Ok(()) => match get_input_index(time, inputs) {
            None => Ok(None),
            Some(index) => Ok(Some((index, index == inputs.len() - 1))),
        },
    }
}

} // verus!
