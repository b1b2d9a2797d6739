//! Double-precision numbers by their bit patterns, as values to interpolate.
//!
//! A double is added and subtracted in double precision. It is scaled by a
//! single that is widened first, and what it yields as a single (a dot
//! product, a magnitude) is narrowed to the nearest one.

use rustc_apfloat::ieee::{Double as SoftDouble, Single};
use rustc_apfloat::{Float, FloatConvert};
use vstd::prelude::*;
use crate::primitive::InterpolationPrimitive;
use crate::scalar::Scalar;

verus! {

/// The pattern of `a + b`, rounded to the nearest double, ties to even.
pub uninterp spec fn double_sum_bits(a: u64, b: u64) -> u64;

/// The pattern of `a - b`, rounded to the nearest double, ties to even.
pub uninterp spec fn double_difference_bits(a: u64, b: u64) -> u64;

/// The pattern of `a * b`, rounded to the nearest double, ties to even.
pub uninterp spec fn double_product_bits(a: u64, b: u64) -> u64;

/// The pattern of the double that is the single with the pattern `a`.
pub uninterp spec fn widened_bits(a: u32) -> u64;

/// The pattern of the single nearest to the double with the pattern `a`,
/// ties to even.
pub uninterp spec fn narrowed_bits(a: u64) -> u32;

/// Addition of `rustc_apfloat::ieee::Double`, with the default rounding. The
/// result depends on the two patterns alone.
#[verifier::external_body]
fn add_double_bits(a: u64, b: u64) -> (r: u64)
    ensures
        r == double_sum_bits(a, b),
{
    (SoftDouble::from_bits(a as u128) + SoftDouble::from_bits(b as u128)).value.to_bits() as u64
}

/// Subtraction of `rustc_apfloat::ieee::Double`, with the default rounding.
/// The result depends on the two patterns alone.
#[verifier::external_body]
fn sub_double_bits(a: u64, b: u64) -> (r: u64)
    ensures
        r == double_difference_bits(a, b),
{
    (SoftDouble::from_bits(a as u128) - SoftDouble::from_bits(b as u128)).value.to_bits() as u64
}

/// Multiplication of `rustc_apfloat::ieee::Double`, with the default
/// rounding. The result depends on the two patterns alone.
#[verifier::external_body]
fn mul_double_bits(a: u64, b: u64) -> (r: u64)
    ensures
        r == double_product_bits(a, b),
{
    (SoftDouble::from_bits(a as u128) * SoftDouble::from_bits(b as u128)).value.to_bits() as u64
}

/// `rustc_apfloat::FloatConvert::convert` from `Single` to `Double`. The
/// result depends on the pattern alone.
#[verifier::external_body]
fn widen_bits(a: u32) -> (r: u64)
    ensures
        r == widened_bits(a),
{
    let wide: SoftDouble = Single::from_bits(a as u128).convert(&mut false).value;
    wide.to_bits() as u64
}

/// `rustc_apfloat::FloatConvert::convert` from `Double` to `Single`, with
/// the default rounding. The result depends on the pattern alone.
#[verifier::external_body]
fn narrow_bits(a: u64) -> (r: u32)
    ensures
        r == narrowed_bits(a),
{
    let narrow: Single = SoftDouble::from_bits(a as u128).convert(&mut false).value;
    narrow.to_bits() as u32
}

/// An IEEE-754 double-precision number, held by its bit pattern. `==`
/// compares patterns.
#[derive(Clone, Copy, Debug, PartialEq, Eq, Hash, Structural)]
pub struct Double {
    pub bits: u64,
}

impl Double {
    /// `self + other`.
    pub open spec fn sum(self, other: Double) -> Double {
        Double { bits: double_sum_bits(self.bits, other.bits) }
    }

    /// `self - other`.
    pub open spec fn difference(self, other: Double) -> Double {
        Double { bits: double_difference_bits(self.bits, other.bits) }
    }

    /// `self * other`.
    pub open spec fn product(self, other: Double) -> Double {
        Double { bits: double_product_bits(self.bits, other.bits) }
    }

    /// The double that is the given single.
    pub open spec fn widened(value: Scalar) -> Double {
        Double { bits: widened_bits(value.bits) }
    }

    /// The single nearest to `self`.
    pub open spec fn narrowed(self) -> Scalar {
        Scalar { bits: narrowed_bits(self.bits) }
    }

    /// The number with the given bit pattern.
    pub fn from_bits(bits: u64) -> (r: Double)
        ensures
            r.bits == bits,
    {
        Double { bits }
    }

    /// The bit pattern of the number.
    pub fn to_bits(self) -> (r: u64)
        ensures
            r == self.bits,
    {
        self.bits
    }

    /// `self + other`.
    pub fn plus(self, other: Double) -> (r: Double)
        ensures
            r == self.sum(other),
    {
        Double { bits: add_double_bits(self.bits, other.bits) }
    }

    /// `self - other`.
    pub fn minus(self, other: Double) -> (r: Double)
        ensures
            r == self.difference(other),
    {
        Double { bits: sub_double_bits(self.bits, other.bits) }
    }

    /// `self * other`.
    pub fn times(self, other: Double) -> (r: Double)
        ensures
            r == self.product(other),
    {
        Double { bits: mul_double_bits(self.bits, other.bits) }
    }

    /// The double that is the given single.
    pub fn widen(value: Scalar) -> (r: Double)
        ensures
            r == Double::widened(value),
    {
        Double { bits: widen_bits(value.bits) }
    }

    /// The single nearest to `self`.
    pub fn narrow(self) -> (r: Scalar)
        ensures
            r == self.narrowed(),
    {
        Scalar { bits: narrow_bits(self.bits) }
    }
}

impl InterpolationPrimitive for Double {
    open spec fn add_spec(&self, other: &Self) -> Self {
        self.sum(*other)
    }

    open spec fn sub_spec(&self, other: &Self) -> Self {
        self.difference(*other)
    }

    open spec fn mul_spec(&self, scalar: Scalar) -> Self {
        self.product(Double::widened(scalar))
    }

    open spec fn dot_spec(&self, other: &Self) -> Scalar {
        self.product(*other).narrowed()
    }

    open spec fn magnitude2_spec(&self) -> Scalar {
        self.dot_spec(self)
    }

    open spec fn magnitude_spec(&self) -> Scalar {
        self.narrowed()
    }

    open spec fn normalize_spec(&self) -> Self {
        *self
    }

    fn add(&self, other: &Self) -> (r: Self) {
        self.plus(*other)
    }

    fn sub(&self, other: &Self) -> (r: Self) {
        self.minus(*other)
    }

    fn mul(&self, scalar: Scalar) -> (r: Self) {
        self.times(Double::widen(scalar))
    }

    fn dot(&self, other: &Self) -> (r: Scalar) {
        self.times(*other).narrow()
    }

    fn magnitude2(&self) -> (r: Scalar) {
        self.dot(self)
    }

    fn magnitude(&self) -> (r: Scalar) {
        self.narrow()
    }

    fn normalize(&self) -> (r: Self) {
        *self
    }
}

/// Normalizing a double twice gives what normalizing it once gives.
pub proof fn lemma_normalize_idempotent_double(value: Double)
    ensures
        value.normalize_spec().normalize_spec() == value.normalize_spec(),
{
}

} // verus!
