//! The values that can be interpolated, and the arithmetic they offer.
//!
//! Vectors and rotations are interpolated component by component. A plain
//! number is its own magnitude and its own unit value. An integer is scaled
//! as a single and then loses its fraction; sums, differences and products of
//! integers wrap around.

use mint::{Quaternion, Vector3};
use vstd::prelude::*;
use crate::scalar::{held_to_i64, held_to_u64, Scalar};

verus! {

/// `mint::Vector3`, a vector of three components `x`, `y` and `z`.
#[verifier::external_type_specification]
#[verifier::reject_recursive_types(T)]
pub struct ExVector3<T>(Vector3<T>);

/// `mint::Quaternion`, a rotation of a vector part `v` and a scalar part `s`.
#[verifier::external_type_specification]
#[verifier::reject_recursive_types(T)]
pub struct ExQuaternion<T>(Quaternion<T>);

/// Interpolation primitive: the arithmetic that interpolation needs of a
/// value. Any type that offers it can be interpolated.
///
/// Each operation is a function of its operands: what `add` returns is what
/// `add_spec` gives for the same operands, and so for the others.
pub trait InterpolationPrimitive: Sized {
    /// `self + other`.
    spec fn add_spec(&self, other: &Self) -> Self;

    /// `self - other`.
    spec fn sub_spec(&self, other: &Self) -> Self;

    /// `self * scalar`.
    spec fn mul_spec(&self, scalar: Scalar) -> Self;

    /// The inner product of `self` and `other`.
    spec fn dot_spec(&self, other: &Self) -> Scalar;

    /// The squared magnitude of `self`.
    spec fn magnitude2_spec(&self) -> Scalar;

    /// The magnitude of `self`.
    spec fn magnitude_spec(&self) -> Scalar;

    /// `self` at unit magnitude, for a type that has a magnitude to scale by.
    spec fn normalize_spec(&self) -> Self;

    /// Adds `other` to `self`.
    fn add(&self, other: &Self) -> (r: Self)
        ensures
            r == self.add_spec(other),
    ;

    /// Subtracts `other` from `self`.
    fn sub(&self, other: &Self) -> (r: Self)
        ensures
            r == self.sub_spec(other),
    ;

    /// Scales `self` by `scalar`.
    fn mul(&self, scalar: Scalar) -> (r: Self)
        ensures
            r == self.mul_spec(scalar),
    ;

    /// Computes the inner product of `self` and `other`.
    fn dot(&self, other: &Self) -> (r: Scalar)
        ensures
            r == self.dot_spec(other),
    ;

    /// Computes the squared magnitude of `self`.
    fn magnitude2(&self) -> (r: Scalar)
        ensures
            r == self.magnitude2_spec(),
    ;

    /// Computes the magnitude of `self`. Where the type has a squared
    /// magnitude to go by, this is its square root.
    fn magnitude(&self) -> (r: Scalar)
        ensures
            r == self.magnitude_spec(),
    ;

    /// Brings `self` to unit magnitude. Where the type has a magnitude to go
    /// by, this is `self` scaled by its reciprocal.
    fn normalize(&self) -> (r: Self)
        ensures
            r == self.normalize_spec(),
    ;
}

impl InterpolationPrimitive for [Scalar; 3] {
    open spec fn add_spec(&self, other: &Self) -> Self {
        [self[0].sum(other[0]), self[1].sum(other[1]), self[2].sum(other[2])]
    }

    open spec fn sub_spec(&self, other: &Self) -> Self {
        [
            self[0].difference(other[0]),
            self[1].difference(other[1]),
            self[2].difference(other[2]),
        ]
    }

    open spec fn mul_spec(&self, scalar: Scalar) -> Self {
        [self[0].product(scalar), self[1].product(scalar), self[2].product(scalar)]
    }

    open spec fn dot_spec(&self, other: &Self) -> Scalar {
        self[0].product(other[0]).sum(self[1].product(other[1])).sum(self[2].product(other[2]))
    }

    open spec fn magnitude2_spec(&self) -> Scalar {
        self.dot_spec(self)
    }

    open spec fn magnitude_spec(&self) -> Scalar {
        self.magnitude2_spec().root()
    }

    open spec fn normalize_spec(&self) -> Self {
        self.mul_spec(self.magnitude_spec().reciprocal())
    }

    fn add(&self, other: &Self) -> (r: Self) {
        [self[0].plus(other[0]), self[1].plus(other[1]), self[2].plus(other[2])]
    }

    fn sub(&self, other: &Self) -> (r: Self) {
        [self[0].minus(other[0]), self[1].minus(other[1]), self[2].minus(other[2])]
    }

    fn mul(&self, scalar: Scalar) -> (r: Self) {
        [self[0].times(scalar), self[1].times(scalar), self[2].times(scalar)]
    }

    fn dot(&self, other: &Self) -> (r: Scalar) {
        self[0].times(other[0]).plus(self[1].times(other[1])).plus(self[2].times(other[2]))
    }

    fn magnitude2(&self) -> (r: Scalar) {
        self.dot(self)
    }

    fn magnitude(&self) -> (r: Scalar) {
        self.magnitude2().sqrt()
    }

    fn normalize(&self) -> (r: Self) {
        self.mul(self.magnitude().recip())
    }
}

impl InterpolationPrimitive for [Scalar; 4] {
    open spec fn add_spec(&self, other: &Self) -> Self {
        [
            self[0].sum(other[0]),
            self[1].sum(other[1]),
            self[2].sum(other[2]),
            self[3].sum(other[3]),
        ]
    }

    open spec fn sub_spec(&self, other: &Self) -> Self {
        [
            self[0].difference(other[0]),
            self[1].difference(other[1]),
            self[2].difference(other[2]),
            self[3].difference(other[3]),
        ]
    }

    open spec fn mul_spec(&self, scalar: Scalar) -> Self {
        [
            self[0].product(scalar),
            self[1].product(scalar),
            self[2].product(scalar),
            self[3].product(scalar),
        ]
    }

    open spec fn dot_spec(&self, other: &Self) -> Scalar {
        self[0].product(other[0]).sum(self[1].product(other[1])).sum(
            self[2].product(other[2]),
        ).sum(self[3].product(other[3]))
    }

    open spec fn magnitude2_spec(&self) -> Scalar {
        self.dot_spec(self)
    }

    open spec fn magnitude_spec(&self) -> Scalar {
        self.magnitude2_spec().root()
    }

    open spec fn normalize_spec(&self) -> Self {
        self.mul_spec(self.magnitude_spec().reciprocal())
    }

    fn add(&self, other: &Self) -> (r: Self) {
        [
            self[0].plus(other[0]),
            self[1].plus(other[1]),
            self[2].plus(other[2]),
            self[3].plus(other[3]),
        ]
    }

    fn sub(&self, other: &Self) -> (r: Self) {
        [
            self[0].minus(other[0]),
            self[1].minus(other[1]),
            self[2].minus(other[2]),
            self[3].minus(other[3]),
        ]
    }

    fn mul(&self, scalar: Scalar) -> (r: Self) {
        [
            self[0].times(scalar),
            self[1].times(scalar),
            self[2].times(scalar),
            self[3].times(scalar),
        ]
    }

    fn dot(&self, other: &Self) -> (r: Scalar) {
        self[0].times(other[0]).plus(self[1].times(other[1])).plus(self[2].times(other[2])).plus(
            self[3].times(other[3]),
        )
    }

    fn magnitude2(&self) -> (r: Scalar) {
        self.dot(self)
    }

    fn magnitude(&self) -> (r: Scalar) {
        self.magnitude2().sqrt()
    }

    fn normalize(&self) -> (r: Self) {
        self.mul(self.magnitude().recip())
    }
}

impl InterpolationPrimitive for Vector3<Scalar> {
    open spec fn add_spec(&self, other: &Self) -> Self {
        Vector3 { x: self.x.sum(other.x), y: self.y.sum(other.y), z: self.z.sum(other.z) }
    }

    open spec fn sub_spec(&self, other: &Self) -> Self {
        Vector3 {
            x: self.x.difference(other.x),
            y: self.y.difference(other.y),
            z: self.z.difference(other.z),
        }
    }

    open spec fn mul_spec(&self, scalar: Scalar) -> Self {
        Vector3 {
            x: self.x.product(scalar),
            y: self.y.product(scalar),
            z: self.z.product(scalar),
        }
    }

    open spec fn dot_spec(&self, other: &Self) -> Scalar {
        self.x.product(other.x).sum(self.y.product(other.y)).sum(self.z.product(other.z))
    }

    open spec fn magnitude2_spec(&self) -> Scalar {
        self.dot_spec(self)
    }

    open spec fn magnitude_spec(&self) -> Scalar {
        self.magnitude2_spec().root()
    }

    open spec fn normalize_spec(&self) -> Self {
        self.mul_spec(self.magnitude_spec().reciprocal())
    }

    fn add(&self, other: &Self) -> (r: Self) {
        Vector3 { x: self.x.plus(other.x), y: self.y.plus(other.y), z: self.z.plus(other.z) }
    }

    fn sub(&self, other: &Self) -> (r: Self) {
        Vector3 { x: self.x.minus(other.x), y: self.y.minus(other.y), z: self.z.minus(other.z) }
    }

    fn mul(&self, scalar: Scalar) -> (r: Self) {
        Vector3 { x: self.x.times(scalar), y: self.y.times(scalar), z: self.z.times(scalar) }
    }

    fn dot(&self, other: &Self) -> (r: Scalar) {
        self.x.times(other.x).plus(self.y.times(other.y)).plus(self.z.times(other.z))
    }

    fn magnitude2(&self) -> (r: Scalar) {
        self.dot(self)
    }

    fn magnitude(&self) -> (r: Scalar) {
        self.magnitude2().sqrt()
    }

    fn normalize(&self) -> (r: Self) {
        self.mul(self.magnitude().recip())
    }
}

impl InterpolationPrimitive for Quaternion<Scalar> {
    open spec fn add_spec(&self, other: &Self) -> Self {
        Quaternion { s: self.s.sum(other.s), v: self.v.add_spec(&other.v) }
    }

    open spec fn sub_spec(&self, other: &Self) -> Self {
        Quaternion { s: self.s.difference(other.s), v: self.v.sub_spec(&other.v) }
    }

    open spec fn mul_spec(&self, scalar: Scalar) -> Self {
        Quaternion { s: self.s.product(scalar), v: self.v.mul_spec(scalar) }
    }

    open spec fn dot_spec(&self, other: &Self) -> Scalar {
        self.s.product(other.s).sum(self.v.dot_spec(&other.v))
    }

    open spec fn magnitude2_spec(&self) -> Scalar {
        self.dot_spec(self)
    }

    open spec fn magnitude_spec(&self) -> Scalar {
        self.magnitude2_spec().root()
    }

    open spec fn normalize_spec(&self) -> Self {
        self.mul_spec(self.magnitude_spec().reciprocal())
    }

    fn add(&self, other: &Self) -> (r: Self) {
        Quaternion { s: self.s.plus(other.s), v: self.v.add(&other.v) }
    }

    fn sub(&self, other: &Self) -> (r: Self) {
        Quaternion { s: self.s.minus(other.s), v: self.v.sub(&other.v) }
    }

    fn mul(&self, scalar: Scalar) -> (r: Self) {
        Quaternion { s: self.s.times(scalar), v: self.v.mul(scalar) }
    }

    fn dot(&self, other: &Self) -> (r: Scalar) {
        self.s.times(other.s).plus(self.v.dot(&other.v))
    }

    fn magnitude2(&self) -> (r: Scalar) {
        self.dot(self)
    }

    fn magnitude(&self) -> (r: Scalar) {
        self.magnitude2().sqrt()
    }

    fn normalize(&self) -> (r: Self) {
        self.mul(self.magnitude().recip())
    }
}

impl InterpolationPrimitive for Scalar {
    open spec fn add_spec(&self, other: &Self) -> Self {
        self.sum(*other)
    }

    open spec fn sub_spec(&self, other: &Self) -> Self {
        self.difference(*other)
    }

    open spec fn mul_spec(&self, scalar: Scalar) -> Self {
        self.product(scalar)
    }

    open spec fn dot_spec(&self, other: &Self) -> Scalar {
        self.product(*other)
    }

    open spec fn magnitude2_spec(&self) -> Scalar {
        self.dot_spec(self)
    }

    open spec fn magnitude_spec(&self) -> Scalar {
        *self
    }

    open spec fn normalize_spec(&self) -> Self {
        *self
    }

    fn add(&self, other: &Self) -> (r: Self) {
        self.plus(*other)
    }

    fn sub(&self, other: &Self) -> (r: Self) {
        self.minus(*other)
    }

    fn mul(&self, scalar: Scalar) -> (r: Self) {
        self.times(scalar)
    }

    fn dot(&self, other: &Self) -> (r: Scalar) {
        self.times(*other)
    }

    fn magnitude2(&self) -> (r: Scalar) {
        self.dot(self)
    }

    fn magnitude(&self) -> (r: Scalar) {
        *self
    }

    fn normalize(&self) -> (r: Self) {
        *self
    }
}

/// An integer held to the range of `u32`.
pub open spec fn held_to_u32(value: int) -> u32 {
    if value > u32::MAX {
        u32::MAX
    } else if value < 0 {
        0
    } else {
        value as u32
    }
}

impl InterpolationPrimitive for u32 {
    open spec fn add_spec(&self, other: &Self) -> Self {
        self.wrapping_add(*other)
    }

    open spec fn sub_spec(&self, other: &Self) -> Self {
        self.wrapping_sub(*other)
    }

    open spec fn mul_spec(&self, scalar: Scalar) -> Self {
        held_to_u32(Scalar::nearest(*self as int).product(scalar).whole())
    }

    open spec fn dot_spec(&self, other: &Self) -> Scalar {
        Scalar::nearest(self.wrapping_mul(*other) as int)
    }

    open spec fn magnitude2_spec(&self) -> Scalar {
        self.dot_spec(self)
    }

    open spec fn magnitude_spec(&self) -> Scalar {
        Scalar::nearest(*self as int)
    }

    open spec fn normalize_spec(&self) -> Self {
        *self
    }

    fn add(&self, other: &Self) -> (r: Self) {
        self.wrapping_add(*other)
    }

    fn sub(&self, other: &Self) -> (r: Self) {
        self.wrapping_sub(*other)
    }

    fn mul(&self, scalar: Scalar) -> (r: Self) {
        let whole = Scalar::from_i128(*self as i128).times(scalar).to_u64();
        if whole > u32::MAX as u64 {
            u32::MAX
        } else {
            whole as u32
        }
    }

    fn dot(&self, other: &Self) -> (r: Scalar) {
        Scalar::from_i128(self.wrapping_mul(*other) as i128)
    }

    fn magnitude2(&self) -> (r: Scalar) {
        self.dot(self)
    }

    fn magnitude(&self) -> (r: Scalar) {
        Scalar::from_i128(*self as i128)
    }

    fn normalize(&self) -> (r: Self) {
        *self
    }
}

impl InterpolationPrimitive for u64 {
    open spec fn add_spec(&self, other: &Self) -> Self {
        self.wrapping_add(*other)
    }

    open spec fn sub_spec(&self, other: &Self) -> Self {
        self.wrapping_sub(*other)
    }

    open spec fn mul_spec(&self, scalar: Scalar) -> Self {
        held_to_u64(Scalar::nearest(*self as int).product(scalar).whole())
    }

    open spec fn dot_spec(&self, other: &Self) -> Scalar {
        Scalar::nearest(self.wrapping_mul(*other) as int)
    }

    open spec fn magnitude2_spec(&self) -> Scalar {
        self.dot_spec(self)
    }

    open spec fn magnitude_spec(&self) -> Scalar {
        Scalar::nearest(*self as int)
    }

    open spec fn normalize_spec(&self) -> Self {
        *self
    }

    fn add(&self, other: &Self) -> (r: Self) {
        self.wrapping_add(*other)
    }

    fn sub(&self, other: &Self) -> (r: Self) {
        self.wrapping_sub(*other)
    }

    fn mul(&self, scalar: Scalar) -> (r: Self) {
        Scalar::from_i128(*self as i128).times(scalar).to_u64()
    }

    fn dot(&self, other: &Self) -> (r: Scalar) {
        Scalar::from_i128(self.wrapping_mul(*other) as i128)
    }

    fn magnitude2(&self) -> (r: Scalar) {
        self.dot(self)
    }

    fn magnitude(&self) -> (r: Scalar) {
        Scalar::from_i128(*self as i128)
    }

    fn normalize(&self) -> (r: Self) {
        *self
    }
}

/// An integer held to the range of `usize`.
pub open spec fn held_to_usize(value: int) -> usize {
    if value > usize::MAX {
        usize::MAX
    } else if value < 0 {
        0
    } else {
        value as usize
    }
}

impl InterpolationPrimitive for usize {
    open spec fn add_spec(&self, other: &Self) -> Self {
        self.wrapping_add(*other)
    }

    open spec fn sub_spec(&self, other: &Self) -> Self {
        self.wrapping_sub(*other)
    }

    open spec fn mul_spec(&self, scalar: Scalar) -> Self {
        held_to_usize(Scalar::nearest(*self as int).product(scalar).whole())
    }

    open spec fn dot_spec(&self, other: &Self) -> Scalar {
        Scalar::nearest(self.wrapping_mul(*other) as int)
    }

    open spec fn magnitude2_spec(&self) -> Scalar {
        self.dot_spec(self)
    }

    open spec fn magnitude_spec(&self) -> Scalar {
        Scalar::nearest(*self as int)
    }

    open spec fn normalize_spec(&self) -> Self {
        *self
    }

    fn add(&self, other: &Self) -> (r: Self) {
        self.wrapping_add(*other)
    }

    fn sub(&self, other: &Self) -> (r: Self) {
        self.wrapping_sub(*other)
    }

    fn mul(&self, scalar: Scalar) -> (r: Self) {
        let whole = Scalar::from_i128(*self as i128).times(scalar).to_u64();
        if whole > usize::MAX as u64 {
            usize::MAX
        } else {
            whole as usize
        }
    }

    fn dot(&self, other: &Self) -> (r: Scalar) {
        Scalar::from_i128(self.wrapping_mul(*other) as i128)
    }

    fn magnitude2(&self) -> (r: Scalar) {
        self.dot(self)
    }

    fn magnitude(&self) -> (r: Scalar) {
        Scalar::from_i128(*self as i128)
    }

    fn normalize(&self) -> (r: Self) {
        *self
    }
}

/// An integer held to the range of `i32`.
pub open spec fn held_to_i32(value: int) -> i32 {
    if value > i32::MAX {
        i32::MAX
    } else if value < i32::MIN {
        i32::MIN
    } else {
        value as i32
    }
}

impl InterpolationPrimitive for i32 {
    open spec fn add_spec(&self, other: &Self) -> Self {
        self.wrapping_add(*other)
    }

    open spec fn sub_spec(&self, other: &Self) -> Self {
        self.wrapping_sub(*other)
    }

    open spec fn mul_spec(&self, scalar: Scalar) -> Self {
        held_to_i32(Scalar::nearest(*self as int).product(scalar).whole())
    }

    open spec fn dot_spec(&self, other: &Self) -> Scalar {
        Scalar::nearest(self.wrapping_mul(*other) as int)
    }

    open spec fn magnitude2_spec(&self) -> Scalar {
        self.dot_spec(self)
    }

    open spec fn magnitude_spec(&self) -> Scalar {
        Scalar::nearest(*self as int)
    }

    open spec fn normalize_spec(&self) -> Self {
        *self
    }

    fn add(&self, other: &Self) -> (r: Self) {
        self.wrapping_add(*other)
    }

    fn sub(&self, other: &Self) -> (r: Self) {
        self.wrapping_sub(*other)
    }

    fn mul(&self, scalar: Scalar) -> (r: Self) {
        let whole = Scalar::from_i128(*self as i128).times(scalar).to_i64();
        if whole > i32::MAX as i64 {
            i32::MAX
        } else if whole < i32::MIN as i64 {
            i32::MIN
        } else {
            whole as i32
        }
    }

    fn dot(&self, other: &Self) -> (r: Scalar) {
        Scalar::from_i128(self.wrapping_mul(*other) as i128)
    }

    fn magnitude2(&self) -> (r: Scalar) {
        self.dot(self)
    }

    fn magnitude(&self) -> (r: Scalar) {
        Scalar::from_i128(*self as i128)
    }

    fn normalize(&self) -> (r: Self) {
        *self
    }
}

impl InterpolationPrimitive for i64 {
    open spec fn add_spec(&self, other: &Self) -> Self {
        self.wrapping_add(*other)
    }

    open spec fn sub_spec(&self, other: &Self) -> Self {
        self.wrapping_sub(*other)
    }

    open spec fn mul_spec(&self, scalar: Scalar) -> Self {
        held_to_i64(Scalar::nearest(*self as int).product(scalar).whole())
    }

    open spec fn dot_spec(&self, other: &Self) -> Scalar {
        Scalar::nearest(self.wrapping_mul(*other) as int)
    }

    open spec fn magnitude2_spec(&self) -> Scalar {
        self.dot_spec(self)
    }

    open spec fn magnitude_spec(&self) -> Scalar {
        Scalar::nearest(*self as int)
    }

    open spec fn normalize_spec(&self) -> Self {
        *self
    }

    fn add(&self, other: &Self) -> (r: Self) {
        self.wrapping_add(*other)
    }

    fn sub(&self, other: &Self) -> (r: Self) {
        self.wrapping_sub(*other)
    }

    fn mul(&self, scalar: Scalar) -> (r: Self) {
        Scalar::from_i128(*self as i128).times(scalar).to_i64()
    }

    fn dot(&self, other: &Self) -> (r: Scalar) {
        Scalar::from_i128(self.wrapping_mul(*other) as i128)
    }

    fn magnitude2(&self) -> (r: Scalar) {
        self.dot(self)
    }

    fn magnitude(&self) -> (r: Scalar) {
        Scalar::from_i128(*self as i128)
    }

    fn normalize(&self) -> (r: Self) {
        *self
    }
}

/// An integer held to the range of `isize`.
pub open spec fn held_to_isize(value: int) -> isize {
    if value > isize::MAX {
        isize::MAX
    } else if value < isize::MIN {
        isize::MIN
    } else {
        value as isize
    }
}

impl InterpolationPrimitive for isize {
    open spec fn add_spec(&self, other: &Self) -> Self {
        self.wrapping_add(*other)
    }

    open spec fn sub_spec(&self, other: &Self) -> Self {
        self.wrapping_sub(*other)
    }

    open spec fn mul_spec(&self, scalar: Scalar) -> Self {
        held_to_isize(Scalar::nearest(*self as int).product(scalar).whole())
    }

    open spec fn dot_spec(&self, other: &Self) -> Scalar {
        Scalar::nearest(self.wrapping_mul(*other) as int)
    }

    open spec fn magnitude2_spec(&self) -> Scalar {
        self.dot_spec(self)
    }

    open spec fn magnitude_spec(&self) -> Scalar {
        Scalar::nearest(*self as int)
    }

    open spec fn normalize_spec(&self) -> Self {
        *self
    }

    fn add(&self, other: &Self) -> (r: Self) {
        self.wrapping_add(*other)
    }

    fn sub(&self, other: &Self) -> (r: Self) {
        self.wrapping_sub(*other)
    }

    fn mul(&self, scalar: Scalar) -> (r: Self) {
        let whole = Scalar::from_i128(*self as i128).times(scalar).to_i64();
        if whole > isize::MAX as i64 {
            isize::MAX
        } else if whole < isize::MIN as i64 {
            isize::MIN
        } else {
            whole as isize
        }
    }

    fn dot(&self, other: &Self) -> (r: Scalar) {
        Scalar::from_i128(self.wrapping_mul(*other) as i128)
    }

    fn magnitude2(&self) -> (r: Scalar) {
        self.dot(self)
    }

    fn magnitude(&self) -> (r: Scalar) {
        Scalar::from_i128(*self as i128)
    }

    fn normalize(&self) -> (r: Self) {
        *self
    }
}

/// Normalizing a single twice gives what normalizing it once gives.
pub proof fn lemma_normalize_idempotent_scalar(value: Scalar)
    ensures
        value.normalize_spec().normalize_spec() == value.normalize_spec(),
{
}

/// Normalizing a `u32` twice gives what normalizing it once gives.
pub proof fn lemma_normalize_idempotent_u32(value: u32)
    ensures
        value.normalize_spec().normalize_spec() == value.normalize_spec(),
{
}

/// Normalizing a `u64` twice gives what normalizing it once gives.
pub proof fn lemma_normalize_idempotent_u64(value: u64)
    ensures
        value.normalize_spec().normalize_spec() == value.normalize_spec(),
{
}

/// Normalizing a `usize` twice gives what normalizing it once gives.
pub proof fn lemma_normalize_idempotent_usize(value: usize)
    ensures
        value.normalize_spec().normalize_spec() == value.normalize_spec(),
{
}

/// Normalizing an `i32` twice gives what normalizing it once gives.
pub proof fn lemma_normalize_idempotent_i32(value: i32)
    ensures
        value.normalize_spec().normalize_spec() == value.normalize_spec(),
{
}

/// Normalizing an `i64` twice gives what normalizing it once gives.
pub proof fn lemma_normalize_idempotent_i64(value: i64)
    ensures
        value.normalize_spec().normalize_spec() == value.normalize_spec(),
{
}

/// Normalizing an `isize` twice gives what normalizing it once gives.
pub proof fn lemma_normalize_idempotent_isize(value: isize)
    ensures
        value.normalize_spec().normalize_spec() == value.normalize_spec(),
{
}

} // verus!
