//! Data set interpolation over keyframes, for `mint` `Vector3` and
//! `Quaternion`, arrays, plain numbers and any other type that offers the
//! arithmetic of an [`InterpolationPrimitive`].
//!
//! A track is a sequence of input times, strictly increasing from zero or
//! later, and a buffer of outputs laid out as the interpolation function
//! expects. Sampling a track at a time finds the keyframe interval that the
//! time falls in and blends the outputs around it: by holding the last one
//! ([`step_interpolate`]), on a straight line ([`linear_interpolate`]), along
//! an arc ([`spherical_linear_interpolate`],
//! [`quasi_spherical_linear_interpolate`]) or along a cubic curve
//! ([`CubicSplineSetInterpolate`], [`CatmullRomSplineSetInterpolate`]).
//! A request that cannot be answered is refused with an
//! [`InterpolationError`] before anything is computed.
//!
//! Numbers are IEEE-754 singles held by their bit patterns ([`Scalar`]).
//! Order is decided on the patterns, and arithmetic is carried out in
//! software, so a sample is the same on every machine.

pub mod catmull_rom_spline;
pub mod cubic_spline;
pub mod double;
pub mod error;
pub mod function;
pub mod keyframes;
pub mod layout;
pub mod linear;
pub mod primitive;
pub mod quasi_spherical_linear;
pub mod scalar;
pub mod spherical_linear;
pub mod step;

pub use catmull_rom_spline::CatmullRomSplineSetInterpolate;
pub use cubic_spline::CubicSplineSetInterpolate;
pub use double::Double;
pub use error::InterpolationError;
pub use function::InterpolationFunction;
pub use keyframes::{check_inputs, get_input_index, get_interpolation_factor, locate};
pub use layout::{check_request, Layout};
pub use linear::{linear_interpolate, linear_sample, Sample};
pub use primitive::InterpolationPrimitive;
pub use quasi_spherical_linear::quasi_spherical_linear_interpolate;
pub use scalar::Scalar;
pub use spherical_linear::spherical_linear_interpolate;
pub use step::step_interpolate;
