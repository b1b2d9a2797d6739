//! Spherical linear interpolation: a blend along the arc between two values.
//!
//! With `a` the angle whose cosine is the dot product of the two outputs and
//! `d` how far the query time has gone through the interval, the blend is
//! `(sin((1 - d) a) p0 + sin(d a) p1) / sin(a)`. The sign of `p1` is never
//! flipped, so a negative dot product takes the long way round. A track is
//! sampled as for linear interpolation.
//!
//! The arc cosine and the sine are the caller's: they are handed in as
//! functions, and the result is stated for whatever they return.

use vstd::prelude::*;
use crate::error::InterpolationError;
use crate::keyframes::{blend_factor, interpolation_factor};
use crate::layout::{request_fault, Layout};
use crate::linear::{finish, finished, lerp, linear_blend, linear_sample, linear_sample_of, Sample};
use crate::primitive::InterpolationPrimitive;
use crate::scalar::{Scalar, MINUS_ONE, ONE};

verus! {

/// The pattern of 0.9995. Two values whose dot product is greater count as
/// parallel: the angle between them is too small to divide by its sine.
pub const PARALLEL_THRESHOLD: u32 = 0x3f7f_df3b;

/// How two values are blended, given their dot product.
#[derive(Clone, Copy, Debug, PartialEq, Eq, Structural)]
pub enum SphericalBlend {
    /// The values are nearly parallel: blend them linearly.
    Linear,
    /// Blend along the arc whose angle has this cosine.
    Arc { cosine: Scalar },
}

/// The dot product held to the range from -1 to 1. A NaN is left as it is.
pub open spec fn clamped_cosine(dot: Scalar) -> Scalar {
    if (Scalar { bits: ONE }).less(dot) {
        Scalar { bits: ONE }
    } else if dot.less(Scalar { bits: MINUS_ONE }) {
        Scalar { bits: MINUS_ONE }
    } else {
        dot
    }
}

/// How two values with this dot product are blended: linearly where it is
/// greater than 0.9995, and else along the arc, with the dot product held to
/// the range from -1 to 1 as the cosine of the angle.
pub open spec fn spherical_blend_of(dot: Scalar) -> SphericalBlend {
    if (Scalar { bits: PARALLEL_THRESHOLD }).less(dot) {
        SphericalBlend::Linear
    } else {
        SphericalBlend::Arc { cosine: clamped_cosine(dot) }
    }
}

/// The cosine of an arc lies between -1 and 1, whatever number the dot
/// product is.
pub proof fn lemma_cosine_in_range(dot: Scalar)
    requires
        !dot.nan(),
    ensures
        spherical_blend_of(dot) matches SphericalBlend::Arc { cosine } ==> (Scalar {
            bits: MINUS_ONE,
        }).at_most(cosine) && cosine.at_most(Scalar { bits: ONE }),
{
}

/// Decides how two values with this dot product are blended.
pub fn spherical_blend(dot: Scalar) -> (r: SphericalBlend)
    ensures
        r == spherical_blend_of(dot),
{
    let one = Scalar::from_bits(ONE);
    let minus_one = Scalar::from_bits(MINUS_ONE);
    if dot.gt(Scalar::from_bits(PARALLEL_THRESHOLD)) {
        SphericalBlend::Linear
    } else if dot.gt(one) {
        SphericalBlend::Arc { cosine: one }
    } else if dot.lt(minus_one) {
        SphericalBlend::Arc { cosine: minus_one }
    } else {
        SphericalBlend::Arc { cosine: dot }
    }
}

/// The blend along an arc: `(left scale1 + right scale2) / sine`, where
/// `scale1` and `scale2` are the sines of the two parts of the angle and
/// `sine` is the sine of the whole.
pub open spec fn arc<T: InterpolationPrimitive>(
    left: &T,
    right: &T,
    scale1: Scalar,
    scale2: Scalar,
    sine: Scalar,
) -> T {
    left.mul_spec(scale1).add_spec(&right.mul_spec(scale2)).mul_spec(sine.reciprocal())
}

/// Whether `value` is a blend of `left` and `right` along the arc whose angle
/// has the given cosine, at the factor `d`, for an angle and three sines that
/// `acos` and `sin` may return: the angle for the cosine, and the sines for
/// the angle times `1 - d`, for the angle times `d` and for the angle.
pub open spec fn on_arc<T: InterpolationPrimitive, A: Fn(Scalar) -> Scalar, S: Fn(Scalar) -> Scalar>(
    left: &T,
    right: &T,
    d: Scalar,
    cosine: Scalar,
    acos: A,
    sin: S,
    theta: Scalar,
    scale1: Scalar,
    scale2: Scalar,
    sine: Scalar,
    value: T,
) -> bool {
    &&& acos.ensures((cosine,), theta)
    &&& sin.ensures((theta.product((Scalar { bits: ONE }).difference(d)),), scale1)
    &&& sin.ensures((theta.product(d),), scale2)
    &&& sin.ensures((theta,), sine)
    &&& value == arc(left, right, scale1, scale2, sine)
}

/// Whether `result` is a spherical linear interpolation of a track at
/// `time`: a stored output where the sample holds one; the straight blend of
/// the two outputs that bound the time where they are nearly parallel; and
/// else a blend of the two along their arc, for an angle and sines that
/// `acos` and `sin` may return. A blend is at unit magnitude where that is
/// asked for.
pub open spec fn spherical_linear_outcome<
    T: InterpolationPrimitive,
    A: Fn(Scalar) -> Scalar,
    S: Fn(Scalar) -> Scalar,
>(
    time: Scalar,
    inputs: Seq<Scalar>,
    outputs: Seq<T>,
    normalize: bool,
    acos: A,
    sin: S,
    result: T,
) -> bool {
    match linear_sample_of(time, inputs) {
        Sample::Hold { slot } => result == outputs[slot as int],
        Sample::Blend { left } => {
            let d = blend_factor(time, inputs[left as int], inputs[left + 1]);
            let p0 = outputs[left as int];
            let p1 = outputs[left + 1];
            match spherical_blend_of(p0.dot_spec(&p1)) {
                SphericalBlend::Linear => result == finished(lerp(&p0, &p1, d), normalize),
                SphericalBlend::Arc { cosine } => exists|
                    theta: Scalar,
                    scale1: Scalar,
                    scale2: Scalar,
                    sine: Scalar,
                    value: T,
                |
                    #[trigger] on_arc(
                        &p0,
                        &p1,
                        d,
                        cosine,
                        acos,
                        sin,
                        theta,
                        scale1,
                        scale2,
                        sine,
                        value,
                    ) && result == finished(value, normalize),
            }
        },
    }
}

/// At or after the last keyframe, the result is the last output, however far
/// after it the time lies, whether or not a unit result is asked for and
/// whatever the arc cosine and the sine are.
pub proof fn lemma_spherical_linear_past_range<
    T: InterpolationPrimitive,
    A: Fn(Scalar) -> Scalar,
    S: Fn(Scalar) -> Scalar,
>(time: Scalar, inputs: Seq<Scalar>, outputs: Seq<T>, normalize: bool, acos: A, sin: S, result: T)
    requires
        inputs.len() > 0,
        outputs.len() == inputs.len() <= usize::MAX,
        inputs.last().rank() <= time.rank(),
    ensures
        spherical_linear_outcome(time, inputs, outputs, normalize, acos, sin, result) <==> result
            == outputs.last(),
{
}

/// Blends two values along an arc, from the sines of the two parts of the
/// angle between them and the sine of the whole.
pub fn arc_blend<T: InterpolationPrimitive>(
    left: &T,
    right: &T,
    scale1: Scalar,
    scale2: Scalar,
    sine: Scalar,
) -> (r: T)
    ensures
        r == arc(left, right, scale1, scale2, sine),
{
    left.mul(scale1).add(&right.mul(scale2)).mul(sine.recip())
}

/// Interpolates a track at `input` along the arc between the two outputs that
/// bound it. The buffer holds one output per keyframe. Before the first
/// keyframe the result is the first output, and at or after the last keyframe
/// it is the last output; neither is normalized. `acos` and `sin` are the
/// arc cosine and the sine to compute with.
pub fn spherical_linear_interpolate<
    T: InterpolationPrimitive + Copy,
    A: Fn(Scalar) -> Scalar,
    S: Fn(Scalar) -> Scalar,
>(input: Scalar, inputs: &[Scalar], outputs: &[T], normalize: bool, acos: A, sin: S) -> (r: Result<
    T,
    InterpolationError,
>)
    requires
        forall|x: Scalar| acos.requires((x,)),
        forall|x: Scalar| sin.requires((x,)),
    ensures
        match request_fault(input, inputs@, outputs@.len(), Layout::PerKeyframe) {
            Some(fault) => r == Err::<T, InterpolationError>(fault),
            None => r matches Ok(value) && spherical_linear_outcome(
                input,
                inputs@,
                outputs@,
                normalize,
                acos,
                sin,
                value,
            ),
        },
{
    match linear_sample(input, inputs, outputs.len()) {
        Err(fault) => Err(fault),
        Ok(Sample::Hold { slot }) => Ok(outputs[slot]),
        Ok(Sample::Blend { left }) => {
            let d = interpolation_factor(input, inputs[left], inputs[left + 1]);
            let p0 = outputs[left];
            let p1 = outputs[left + 1];
            match spherical_blend(p0.dot(&p1)) {
                SphericalBlend::Linear => Ok(finish(linear_blend(&p0, &p1, d), normalize)),
                SphericalBlend::Arc { cosine } => {
                    let theta = acos(cosine);
                    let scale1 = sin(theta.times(Scalar { bits: ONE }.minus(d)));
                    let scale2 = sin(theta.times(d));
                    let sine = sin(theta);
                    let value = arc_blend(&p0, &p1, scale1, scale2, sine);
                    assert(on_arc(
                        &p0,
                        &p1,
                        d,
                        cosine,
                        acos,
                        sin,
                        theta,
                        scale1,
                        scale2,
                        sine,
                        value,
                    ));
                    Ok(finish(value, normalize))
                },
            }
        },
    }
}

} // verus!
