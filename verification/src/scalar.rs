//! Single-precision numbers by their bit patterns: classification, order and
//! arithmetic.
//!
//! Order is decided here, on the patterns. Arithmetic is carried out in
//! software, on the patterns as well, so that a result is the same on every
//! machine.

use const_soft_float::soft_f32::SoftF32;
use rustc_apfloat::ieee::Single;
use rustc_apfloat::Float;
use vstd::arithmetic::power2::{lemma_pow2_pos, lemma_pow2_strictly_increases, lemma_pow2_unfold, pow2};
use vstd::prelude::*;

verus! {

/// The sign bit of a single-precision pattern.
pub const SIGN_BIT: u32 = 0x8000_0000;

/// The pattern of positive infinity. Every greater magnitude is a NaN.
pub const INFINITY_BITS: u32 = 0x7f80_0000;

/// The weight of the lowest exponent bit of a pattern: the fraction of a
/// number is the part of its pattern below it.
pub const HIDDEN_BIT: u32 = 0x0080_0000;

/// The pattern of 0.
pub const ZERO: u32 = 0x0000_0000;

/// The pattern of 0.5.
pub const HALF: u32 = 0x3f00_0000;

/// The pattern of 1.
pub const ONE: u32 = 0x3f80_0000;

/// The pattern of -1.
pub const MINUS_ONE: u32 = 0xbf80_0000;

/// The pattern of 2.
pub const TWO: u32 = 0x4000_0000;

/// The pattern of -2.
pub const MINUS_TWO: u32 = 0xc000_0000;

/// The pattern of 3.
pub const THREE: u32 = 0x4040_0000;

/// The pattern of `a + b`, rounded to the nearest single, ties to even.
pub uninterp spec fn sum_bits(a: u32, b: u32) -> u32;

/// The pattern of `a - b`, rounded to the nearest single, ties to even.
pub uninterp spec fn difference_bits(a: u32, b: u32) -> u32;

/// The pattern of `a * b`, rounded to the nearest single, ties to even.
pub uninterp spec fn product_bits(a: u32, b: u32) -> u32;

/// The pattern of `a / b`, rounded to the nearest single, ties to even.
pub uninterp spec fn quotient_bits(a: u32, b: u32) -> u32;

/// The pattern of the square root of `a`, rounded to the nearest single.
pub uninterp spec fn root_bits(a: u32) -> u32;

/// The pattern of the single nearest to an integer, ties to even.
pub uninterp spec fn nearest_bits(value: int) -> u32;

/// How many times 2^-149, the least positive single, goes into the
/// magnitude of a number, given the pattern of the number without its sign
/// bit. A number with an exponent field of 0 is its fraction field; any other
/// is its fraction field under a hidden bit, doubled as often as the exponent
/// field exceeds 1. An infinity counts as the number that would follow the
/// greatest single in this way.
pub open spec fn units_of(absolute: int) -> int {
    let exponent = absolute / (HIDDEN_BIT as int);
    let fraction = absolute % (HIDDEN_BIT as int);
    if exponent == 0 {
        fraction
    } else {
        (HIDDEN_BIT + fraction) * pow2((exponent - 1) as nat)
    }
}

/// An integer held to the range of `i64`.
pub open spec fn held_to_i64(value: int) -> i64 {
    if value > i64::MAX {
        i64::MAX
    } else if value < i64::MIN {
        i64::MIN
    } else {
        value as i64
    }
}

/// An integer held to the range of `u64`.
pub open spec fn held_to_u64(value: int) -> u64 {
    if value > u64::MAX {
        u64::MAX
    } else if value < 0 {
        0
    } else {
        value as u64
    }
}

/// Addition of `rustc_apfloat::ieee::Single`, with the default rounding. The
/// result depends on the two patterns alone.
#[verifier::external_body]
fn add_bits(a: u32, b: u32) -> (r: u32)
    ensures
        r == sum_bits(a, b),
{
    (Single::from_bits(a as u128) + Single::from_bits(b as u128)).value.to_bits() as u32
}

/// Subtraction of `rustc_apfloat::ieee::Single`, with the default rounding.
/// The result depends on the two patterns alone.
#[verifier::external_body]
fn sub_bits(a: u32, b: u32) -> (r: u32)
    ensures
        r == difference_bits(a, b),
{
    (Single::from_bits(a as u128) - Single::from_bits(b as u128)).value.to_bits() as u32
}

/// Multiplication of `rustc_apfloat::ieee::Single`, with the default
/// rounding. The result depends on the two patterns alone.
#[verifier::external_body]
fn mul_bits(a: u32, b: u32) -> (r: u32)
    ensures
        r == product_bits(a, b),
{
    (Single::from_bits(a as u128) * Single::from_bits(b as u128)).value.to_bits() as u32
}

/// Division of `rustc_apfloat::ieee::Single`, with the default rounding. The
/// result depends on the two patterns alone; a zero divisor gives an
/// infinity or a NaN.
#[verifier::external_body]
fn div_bits(a: u32, b: u32) -> (r: u32)
    ensures
        r == quotient_bits(a, b),
{
    (Single::from_bits(a as u128) / Single::from_bits(b as u128)).value.to_bits() as u32
}

/// `const_soft_float::soft_f32::SoftF32::sqrt`. The result depends on the
/// pattern alone; a negative number gives a NaN.
#[verifier::external_body]
fn sqrt_bits(a: u32) -> (r: u32)
    ensures
        r == root_bits(a),
{
    SoftF32::from_bits(a).sqrt().to_bits()
}

/// `rustc_apfloat::Float::from_i128` for `Single`. The result depends on the
/// integer alone.
#[verifier::external_body]
fn bits_from_i128(value: i128) -> (r: u32)
    ensures
        r == nearest_bits(value as int),
{
    Single::from_i128(value).value.to_bits() as u32
}

/// `rustc_apfloat::Float::to_i128` for `Single`, at a width of 64 bits: the
/// number rounded toward zero, the least or the greatest 64-bit integer where
/// that is out of range, and 0 for a NaN.
#[verifier::external_body]
fn bits_to_i64(a: u32) -> (r: i64)
    ensures
        r == held_to_i64((Scalar { bits: a }).whole()),
{
    Single::from_bits(a as u128).to_i128(64).value as i64
}

/// `rustc_apfloat::Float::to_u128` for `Single`, at a width of 64 bits: the
/// number rounded toward zero, 0 or the greatest 64-bit integer where that is
/// out of range, and 0 for a NaN.
#[verifier::external_body]
fn bits_to_u64(a: u32) -> (r: u64)
    ensures
        r == held_to_u64((Scalar { bits: a }).whole()),
{
    Single::from_bits(a as u128).to_u128(64).value as u64
}

/// An IEEE-754 single-precision number, held by its bit pattern.
///
/// Every pattern is a value of this type. Two patterns stand for the same
/// number exactly when neither is a NaN and their ranks agree, so `0.0` and
/// `-0.0` are one number held by two patterns. `==` compares patterns;
/// `eq_number` compares numbers.
#[derive(Clone, Copy, Debug, PartialEq, Eq, Hash, Structural)]
pub struct Scalar {
    pub bits: u32,
}

impl Scalar {
    /// The pattern without its sign bit.
    pub open spec fn absolute(self) -> int {
        if self.bits >= SIGN_BIT {
            self.bits - SIGN_BIT
        } else {
            self.bits as int
        }
    }

    /// Whether the sign bit is set.
    pub open spec fn is_sign_negative(self) -> bool {
        self.bits >= SIGN_BIT
    }

    /// Whether the pattern is a NaN: it then stands for no number and is
    /// ordered against nothing.
    pub open spec fn nan(self) -> bool {
        self.absolute() > INFINITY_BITS
    }

    /// The place of the number on the number line. Among patterns that are
    /// not NaNs, one number is less than another exactly when its rank is.
    pub open spec fn rank(self) -> int {
        if self.is_sign_negative() {
            -self.absolute()
        } else {
            self.absolute()
        }
    }

    /// The number in units of 2^-149, the least positive single: the number
    /// is this integer divided by 2^149. It has no meaning for a NaN.
    pub open spec fn units(self) -> int {
        if self.is_sign_negative() {
            -units_of(self.absolute())
        } else {
            units_of(self.absolute())
        }
    }

    /// The number without its fraction: rounded toward zero. 0 for a NaN.
    pub open spec fn whole(self) -> int {
        if self.nan() {
            0
        } else if self.is_sign_negative() {
            -(units_of(self.absolute()) / (pow2(149) as int))
        } else {
            units_of(self.absolute()) / (pow2(149) as int)
        }
    }

    /// `self < other`, as IEEE-754 orders the two numbers.
    pub open spec fn less(self, other: Scalar) -> bool {
        !self.nan() && !other.nan() && self.rank() < other.rank()
    }

    /// `self <= other`, as IEEE-754 orders the two numbers.
    pub open spec fn at_most(self, other: Scalar) -> bool {
        !self.nan() && !other.nan() && self.rank() <= other.rank()
    }

    /// `self == other`, as IEEE-754 compares the two numbers.
    pub open spec fn same(self, other: Scalar) -> bool {
        !self.nan() && !other.nan() && self.rank() == other.rank()
    }

    /// `self + other`.
    pub open spec fn sum(self, other: Scalar) -> Scalar {
        Scalar { bits: sum_bits(self.bits, other.bits) }
    }

    /// `self - other`.
    pub open spec fn difference(self, other: Scalar) -> Scalar {
        Scalar { bits: difference_bits(self.bits, other.bits) }
    }

    /// `self * other`.
    pub open spec fn product(self, other: Scalar) -> Scalar {
        Scalar { bits: product_bits(self.bits, other.bits) }
    }

    /// `self / other`.
    pub open spec fn quotient(self, other: Scalar) -> Scalar {
        Scalar { bits: quotient_bits(self.bits, other.bits) }
    }

    /// The square root of `self`.
    pub open spec fn root(self) -> Scalar {
        Scalar { bits: root_bits(self.bits) }
    }

    /// `1 / self`.
    pub open spec fn reciprocal(self) -> Scalar {
        (Scalar { bits: ONE }).quotient(self)
    }

    /// The single nearest to an integer.
    pub open spec fn nearest(value: int) -> Scalar {
        Scalar { bits: nearest_bits(value) }
    }

    /// The number with the given bit pattern.
    pub fn from_bits(bits: u32) -> (r: Scalar)
        ensures
            r.bits == bits,
    {
        Scalar { bits }
    }

    /// The bit pattern of the number.
    pub fn to_bits(self) -> (r: u32)
        ensures
            r == self.bits,
    {
        self.bits
    }

    /// Whether the pattern is a NaN.
    pub fn is_nan(self) -> (r: bool)
        ensures
            r == self.nan(),
    {
        let magnitude: u32 = if self.bits >= SIGN_BIT {
            self.bits - SIGN_BIT
        } else {
            self.bits
        };
        magnitude > INFINITY_BITS
    }

    /// The rank of the number, as a machine integer.
    pub fn order_key(self) -> (r: i64)
        ensures
            r == self.rank(),
    {
        if self.bits >= SIGN_BIT {
            let magnitude: u32 = self.bits - SIGN_BIT;
            -(magnitude as i64)
        } else {
            self.bits as i64
        }
    }

    /// `self < other`; false where either is a NaN.
    pub fn lt(self, other: Scalar) -> (r: bool)
        ensures
            r == self.less(other),
    {
        !self.is_nan() && !other.is_nan() && self.order_key() < other.order_key()
    }

    /// `self <= other`; false where either is a NaN.
    pub fn le(self, other: Scalar) -> (r: bool)
        ensures
            r == self.at_most(other),
    {
        !self.is_nan() && !other.is_nan() && self.order_key() <= other.order_key()
    }

    /// `self > other`; false where either is a NaN.
    pub fn gt(self, other: Scalar) -> (r: bool)
        ensures
            r == other.less(self),
    {
        other.lt(self)
    }

    /// `self == other` as numbers; false where either is a NaN.
    pub fn eq_number(self, other: Scalar) -> (r: bool)
        ensures
            r == self.same(other),
    {
        !self.is_nan() && !other.is_nan() && self.order_key() == other.order_key()
    }

    /// `self + other`.
    pub fn plus(self, other: Scalar) -> (r: Scalar)
        ensures
            r == self.sum(other),
    {
        Scalar { bits: add_bits(self.bits, other.bits) }
    }

    /// `self - other`.
    pub fn minus(self, other: Scalar) -> (r: Scalar)
        ensures
            r == self.difference(other),
    {
        Scalar { bits: sub_bits(self.bits, other.bits) }
    }

    /// `self * other`.
    pub fn times(self, other: Scalar) -> (r: Scalar)
        ensures
            r == self.product(other),
    {
        Scalar { bits: mul_bits(self.bits, other.bits) }
    }

    /// `self / other`.
    pub fn over(self, other: Scalar) -> (r: Scalar)
        ensures
            r == self.quotient(other),
    {
        Scalar { bits: div_bits(self.bits, other.bits) }
    }

    /// The square root of `self`.
    pub fn sqrt(self) -> (r: Scalar)
        ensures
            r == self.root(),
    {
        Scalar { bits: sqrt_bits(self.bits) }
    }

    /// `1 / self`.
    pub fn recip(self) -> (r: Scalar)
        ensures
            r == self.reciprocal(),
    {
        Scalar { bits: ONE }.over(self)
    }

    /// The single nearest to an integer.
    pub fn from_i128(value: i128) -> (r: Scalar)
        ensures
            r == Scalar::nearest(value as int),
    {
        Scalar { bits: bits_from_i128(value) }
    }

    /// The number without its fraction, held to the range of `i64`; 0 for a
    /// NaN.
    pub fn to_i64(self) -> (r: i64)
        ensures
            r == held_to_i64(self.whole()),
    {
        bits_to_i64(self.bits)
    }

    /// The number without its fraction, held to the range of `u64`; 0 for a
    /// NaN.
    pub fn to_u64(self) -> (r: u64)
        ensures
            r == held_to_u64(self.whole()),
    {
        bits_to_u64(self.bits)
    }
}

/// A pattern with a greater magnitude stands for a number of more units.
proof fn lemma_units_increase(low: int, high: int)
    requires
        0 <= low < high <= INFINITY_BITS,
    ensures
        0 <= units_of(low) < units_of(high),
{
    let hidden = HIDDEN_BIT as int;
    let (e1, f1) = (low / hidden, low % hidden);
    let (e2, f2) = (high / hidden, high % hidden);
    if e1 == e2 {
        if e1 > 0 {
            let scale = pow2((e1 - 1) as nat) as int;
            lemma_pow2_pos((e1 - 1) as nat);
            assert((hidden + f1) * scale < (hidden + f2) * scale) by (nonlinear_arith)
                requires
                    f1 < f2,
                    scale > 0,
            ;
            assert(0 <= (hidden + f1) * scale) by (nonlinear_arith)
                requires
                    0 <= f1,
                    hidden > 0,
                    scale > 0,
            ;
        }
    } else {
        let scale2 = pow2((e2 - 1) as nat) as int;
        lemma_pow2_pos((e2 - 1) as nat);
        assert(hidden * scale2 <= (hidden + f2) * scale2) by (nonlinear_arith)
            requires
                0 <= f2,
                scale2 > 0,
        ;
        if e1 == 0 {
            assert(hidden <= hidden * scale2) by (nonlinear_arith)
                requires
                    hidden > 0,
                    scale2 >= 1,
            ;
        } else {
            let scale1 = pow2((e1 - 1) as nat) as int;
            lemma_pow2_pos((e1 - 1) as nat);
            lemma_pow2_unfold(e1 as nat);
            if e1 < e2 - 1 {
                lemma_pow2_strictly_increases(e1 as nat, (e2 - 1) as nat);
            }
            assert(0 <= (hidden + f1) * scale1 < hidden * (2 * scale1)) by (nonlinear_arith)
                requires
                    0 <= f1 < hidden,
                    scale1 > 0,
            ;
            assert(hidden * (2 * scale1) <= hidden * scale2) by (nonlinear_arith)
                requires
                    hidden > 0,
                    2 * scale1 <= scale2,
            ;
        }
    }
}

/// Rank orders the numbers: of two patterns that are not NaNs, one has the
/// lesser rank exactly when it stands for the lesser number, and the two have
/// one rank exactly when they stand for one number.
pub proof fn lemma_rank_orders_numbers(a: Scalar, b: Scalar)
    requires
        !a.nan(),
        !b.nan(),
    ensures
        a.rank() < b.rank() <==> a.units() < b.units(),
        a.rank() == b.rank() <==> a.units() == b.units(),
{
    let (x, y) = (a.absolute(), b.absolute());
    if x < y {
        lemma_units_increase(x, y);
    }
    if y < x {
        lemma_units_increase(y, x);
    }
    if 0 < x {
        lemma_units_increase(0, x);
    }
    if 0 < y {
        lemma_units_increase(0, y);
    }
    assert(units_of(0) == 0);
}

} // verus!
