//! The selector of an interpolation algorithm.

use vstd::prelude::*;
use vstd::std_specs::cmp::PartialEqSpecImpl;
use crate::catmull_rom_spline::CatmullRomSplineSetInterpolate;
use crate::cubic_spline::CubicSplineSetInterpolate;
use crate::error::InterpolationError;
use crate::layout::{request_fault, Layout};
use crate::linear::{linear_interpolate, linear_value};
use crate::primitive::InterpolationPrimitive;
use crate::quasi_spherical_linear::{
    quasi_spherical_linear_interpolate,
    quasi_spherical_linear_value,
};
use crate::scalar::Scalar;
use crate::spherical_linear::{spherical_linear_interpolate, spherical_linear_outcome};
use crate::step::{step_interpolate, step_slot};

verus! {

/// The supported interpolation functions.
#[derive(Clone, Copy)]
pub enum InterpolationFunction<F> {
    /// Linear interpolation.
    Linear,
    /// Spherical linear interpolation.
    SphericalLinear,
    /// Quasi spherical linear interpolation.
    QuasiSphericalLinear,
    /// Step interpolation.
    Step,
    /// Catmull-Rom spline interpolation.
    CatmullRomSpline,
    /// Cubic Hermite spline interpolation.
    CubicSpline,
    /// A function of the caller's, which takes the query time, the inputs,
    /// the outputs and the flag that asks for a normalized result.
    Function(F),
}

impl<F> InterpolationFunction<F> {
    /// The layout of the output buffer that the algorithm reads. A function
    /// of the caller's reads a layout of its own, which is not known here.
    pub open spec fn layout_of(self) -> Option<Layout> {
        match self {
            InterpolationFunction::Linear => Some(Layout::PerKeyframe),
            InterpolationFunction::SphericalLinear => Some(Layout::PerKeyframe),
            InterpolationFunction::QuasiSphericalLinear => Some(Layout::PerKeyframe),
            InterpolationFunction::Step => Some(Layout::PerKeyframe),
            InterpolationFunction::CatmullRomSpline => Some(Layout::Bracketed),
            InterpolationFunction::CubicSpline => Some(Layout::Triples),
            InterpolationFunction::Function(_) => None,
        }
    }

    /// The name of the selected algorithm.
    pub open spec fn name_of(self) -> Seq<char> {
        match self {
            InterpolationFunction::Linear => "Linear"@,
            InterpolationFunction::SphericalLinear => "SphericalLinear"@,
            InterpolationFunction::QuasiSphericalLinear => "QuasiSphericalLinear"@,
            InterpolationFunction::Step => "Step"@,
            InterpolationFunction::CatmullRomSpline => "CatmullRomSpline"@,
            InterpolationFunction::CubicSpline => "CubicSpline"@,
            InterpolationFunction::Function(_) => "Function"@,
        }
    }

    /// Whether `value` is an interpolation of a track by the named algorithm.
    /// A function of the caller's is no algorithm named here.
    pub open spec fn interpolates<
        T: InterpolationPrimitive,
        A: Fn(Scalar) -> Scalar,
        S: Fn(Scalar) -> Scalar,
    >(
        self,
        input: Scalar,
        inputs: Seq<Scalar>,
        outputs: Seq<T>,
        normalize: bool,
        acos: A,
        sin: S,
        value: T,
    ) -> bool {
        match self {
            InterpolationFunction::Linear => value == linear_value(
                input,
                inputs,
                outputs,
                normalize,
            ),
            InterpolationFunction::SphericalLinear => spherical_linear_outcome(
                input,
                inputs,
                outputs,
                normalize,
                acos,
                sin,
                value,
            ),
            InterpolationFunction::QuasiSphericalLinear => value == quasi_spherical_linear_value(
                input,
                inputs,
                outputs,
                normalize,
            ),
            InterpolationFunction::Step => value == outputs[step_slot(input, inputs)],
            InterpolationFunction::CatmullRomSpline => value
                == CatmullRomSplineSetInterpolate::value(input, inputs, outputs, normalize),
            InterpolationFunction::CubicSpline => value == CubicSplineSetInterpolate::value(
                input,
                inputs,
                outputs,
                normalize,
            ),
            InterpolationFunction::Function(_) => false,
        }
    }

    /// Whether `result` is what the selection gives for a query. A named
    /// algorithm refuses a faulty request and else interpolates the track. A
    /// function of the caller's is asked whatever the request is, and the
    /// result is what it may return.
    pub open spec fn outcome<
        T: InterpolationPrimitive,
        A: Fn(Scalar) -> Scalar,
        S: Fn(Scalar) -> Scalar,
    >(
        self,
        input: Scalar,
        inputs: &[Scalar],
        outputs: &[T],
        normalize: bool,
        acos: A,
        sin: S,
        result: Result<T, InterpolationError>,
    ) -> bool where F: Fn(Scalar, &[Scalar], &[T], bool) -> T {
        match self {
            InterpolationFunction::Function(f) => result matches Ok(value) && f.ensures(
                (input, inputs, outputs, normalize),
                value,
            ),
            _ => match request_fault(input, inputs@, outputs@.len(), self.layout_of().unwrap()) {
                Some(fault) => result == Err::<T, InterpolationError>(fault),
                None => result matches Ok(value) && self.interpolates(
                    input,
                    inputs@,
                    outputs@,
                    normalize,
                    acos,
                    sin,
                    value,
                ),
            },
        }
    }

    /// The layout of the output buffer that the algorithm reads, where it is
    /// one of those named here.
    pub fn layout(&self) -> (r: Option<Layout>)
        ensures
            r == self.layout_of(),
    {
        match self {
            InterpolationFunction::Linear => Some(Layout::PerKeyframe),
            InterpolationFunction::SphericalLinear => Some(Layout::PerKeyframe),
            InterpolationFunction::QuasiSphericalLinear => Some(Layout::PerKeyframe),
            InterpolationFunction::Step => Some(Layout::PerKeyframe),
            InterpolationFunction::CatmullRomSpline => Some(Layout::Bracketed),
            InterpolationFunction::CubicSpline => Some(Layout::Triples),
            InterpolationFunction::Function(_) => None,
        }
    }

    /// The name of the selected algorithm, without what a function of the
    /// caller's holds.
    pub fn name(&self) -> (r: &'static str)
        ensures
            r@ == self.name_of(),
    {
        match self {
            InterpolationFunction::Linear => "Linear",
            InterpolationFunction::SphericalLinear => "SphericalLinear",
            InterpolationFunction::QuasiSphericalLinear => "QuasiSphericalLinear",
            InterpolationFunction::Step => "Step",
            InterpolationFunction::CatmullRomSpline => "CatmullRomSpline",
            InterpolationFunction::CubicSpline => "CubicSpline",
            InterpolationFunction::Function(_) => "Function",
        }
    }

    /// Interpolates a track at `input` with the selected algorithm. `acos`
    /// and `sin` are the arc cosine and the sine that spherical linear
    /// interpolation computes with.
    pub fn interpolate<
        T: InterpolationPrimitive + Copy,
        A: Fn(Scalar) -> Scalar,
        S: Fn(Scalar) -> Scalar,
    >(
        &self,
        input: Scalar,
        inputs: &[Scalar],
        outputs: &[T],
        normalize: bool,
        acos: A,
        sin: S,
    ) -> (r: Result<T, InterpolationError>) where F: Fn(Scalar, &[Scalar], &[T], bool) -> T
        requires
            forall|x: Scalar| acos.requires((x,)),
            forall|x: Scalar| sin.requires((x,)),
            self matches InterpolationFunction::Function(f) ==> f.requires(
                (input, inputs, outputs, normalize),
            ),
        ensures
            self.outcome(input, inputs, outputs, normalize, acos, sin, r),
    {
        match self {
            InterpolationFunction::Linear => linear_interpolate(input, inputs, outputs, normalize),
            InterpolationFunction::SphericalLinear => spherical_linear_interpolate(
                input,
                inputs,
                outputs,
                normalize,
                acos,
                sin,
            ),
            InterpolationFunction::QuasiSphericalLinear => quasi_spherical_linear_interpolate(
                input,
                inputs,
                outputs,
                normalize,
            ),
            InterpolationFunction::Step => step_interpolate(input, inputs, outputs, normalize),
            InterpolationFunction::CubicSpline => CubicSplineSetInterpolate.interpolate(
                input,
                inputs,
                outputs,
                normalize,
            ),
            InterpolationFunction::CatmullRomSpline => CatmullRomSplineSetInterpolate.interpolate(
                input,
                inputs,
                outputs,
                normalize,
            ),
            InterpolationFunction::Function(f) => Ok(f(input, inputs, outputs, normalize)),
        }
    }
}

/// Two selectors are equal when they name the same algorithm. Two functions
/// of the caller's are never equal, not even one to itself.
impl<F> PartialEq for InterpolationFunction<F> {
    fn eq(&self, other: &InterpolationFunction<F>) -> (r: bool) {
        match (self, other) {
            (InterpolationFunction::Linear, InterpolationFunction::Linear) => true,
            (InterpolationFunction::SphericalLinear, InterpolationFunction::SphericalLinear) => true,
            (
                InterpolationFunction::QuasiSphericalLinear,
                InterpolationFunction::QuasiSphericalLinear,
            ) => true,
            (InterpolationFunction::Step, InterpolationFunction::Step) => true,
            (
                InterpolationFunction::CatmullRomSpline,
                InterpolationFunction::CatmullRomSpline,
            ) => true,
            (InterpolationFunction::CubicSpline, InterpolationFunction::CubicSpline) => true,
            _ => false,
        }
    }
}

impl<F> PartialEqSpecImpl for InterpolationFunction<F> {
    open spec fn obeys_eq_spec() -> bool {
        true
    }

    open spec fn eq_spec(&self, other: &InterpolationFunction<F>) -> bool {
        !(self is Function) && *self == *other
    }
}

/// A function of the caller's is equal to no selector, and no selector is
/// equal to it.
pub proof fn lemma_functions_are_never_equal<F>(
    function: InterpolationFunction<F>,
    other: InterpolationFunction<F>,
)
    requires
        function is Function,
    ensures
        !vstd::std_specs::cmp::PartialEqSpec::eq_spec(&function, &other),
        !vstd::std_specs::cmp::PartialEqSpec::eq_spec(&other, &function),
{
}

} // verus!
