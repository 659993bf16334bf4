//! Temperatures as the bit patterns of IEEE 754 single-precision numbers.
//!
//! A temperature is kept exactly as it was measured: the 32 bits of its
//! single-precision encoding. This module gives those bit patterns the order
//! that IEEE 754 gives the numbers they encode, so that thresholds can be
//! compared without rounding a reading first.
use vstd::prelude::*;

verus! {

/// The bit that holds the sign of an encoded number.
pub const SIGN_BIT: u32 = 0x8000_0000;

/// The magnitude bits of positive and negative infinity. Every larger
/// magnitude encodes a NaN.
pub const INFINITY_MAGNITUDE: u32 = 0x7f80_0000;

/// A temperature in degrees Celsius.
///
/// `bits` is the IEEE 754 single-precision encoding of the value. The derived
/// `==` compares encodings, so it tells `-0.0` from `+0.0` and finds a NaN
/// equal to itself; [`Temperature::same_value`] is the numeric equality.
#[derive(Clone, Copy, Debug, PartialEq, Eq, Structural)]
pub struct Temperature {
    pub bits: u32,
}

impl Temperature {
    /// Whether the sign bit is set.
    pub open spec fn is_negative(&self) -> bool {
        self.bits >= SIGN_BIT
    }

    /// The encoding without its sign bit. Among numbers of one sign, a larger
    /// magnitude encodes a number further from zero.
    pub open spec fn magnitude(&self) -> int {
        if self.bits >= SIGN_BIT {
            self.bits - SIGN_BIT
        } else {
            self.bits as int
        }
    }

    /// Whether the encoding is a NaN, which compares with nothing.
    pub open spec fn spec_is_nan(&self) -> bool {
        self.magnitude() > INFINITY_MAGNITUDE
    }

    /// The place of the encoded number on the number line: two encodings that
    /// are not NaN encode numbers in the order of their ranks. Both zeros
    /// have rank 0.
    pub open spec fn rank(&self) -> int {
        if self.is_negative() {
            -self.magnitude()
        } else {
            self.magnitude()
        }
    }

    /// `self <= other` as IEEE 754 defines it: false whenever either is a NaN.
    pub open spec fn spec_le(&self, other: &Temperature) -> bool {
        !self.spec_is_nan() && !other.spec_is_nan() && self.rank() <= other.rank()
    }

    /// `self < other` as IEEE 754 defines it: false whenever either is a NaN.
    pub open spec fn spec_lt(&self, other: &Temperature) -> bool {
        !self.spec_is_nan() && !other.spec_is_nan() && self.rank() < other.rank()
    }

    /// `self == other` as IEEE 754 defines it: the zeros are equal, and a NaN
    /// equals nothing.
    pub open spec fn spec_same_value(&self, other: &Temperature) -> bool {
        !self.spec_is_nan() && !other.spec_is_nan() && self.rank() == other.rank()
    }

    /// The temperature with the given encoding.
    pub fn from_bits(bits: u32) -> (t: Temperature)
        ensures
            t.bits == bits,
    {
        Temperature { bits }
    }

    /// The encoding of the temperature.
    pub fn to_bits(&self) -> (bits: u32)
        ensures
            bits == self.bits,
    {
        self.bits
    }

    /// The rank as a machine integer.
    fn key(&self) -> (k: i64)
        ensures
            k == self.rank(),
    {
        if self.bits >= SIGN_BIT {
            -((self.bits - SIGN_BIT) as i64)
        } else {
            self.bits as i64
        }
    }

    /// Whether the encoding is a NaN.
    #[verifier::when_used_as_spec(spec_is_nan)]
    pub fn is_nan(&self) -> (out: bool)
        ensures
            out == self.spec_is_nan(),
    {
        if self.bits >= SIGN_BIT {
            self.bits - SIGN_BIT > INFINITY_MAGNITUDE
        } else {
            self.bits > INFINITY_MAGNITUDE
        }
    }

    /// Whether `self <= other`.
    #[verifier::when_used_as_spec(spec_le)]
    pub fn le(&self, other: &Temperature) -> (out: bool)
        ensures
            out == self.spec_le(other),
    {
        !self.is_nan() && !other.is_nan() && self.key() <= other.key()
    }

    /// Whether `self < other`.
    #[verifier::when_used_as_spec(spec_lt)]
    pub fn lt(&self, other: &Temperature) -> (out: bool)
        ensures
            out == self.spec_lt(other),
    {
        !self.is_nan() && !other.is_nan() && self.key() < other.key()
    }

    /// The lower of two temperatures, ignoring NaN: where `self` is a NaN
    /// the result is `other`, where `other` is a NaN or not below `self` it
    /// is `self`. Of two zeros it is `self`.
    pub open spec fn spec_min(&self, other: &Temperature) -> Temperature {
        if self.spec_is_nan() {
            *other
        } else if other.spec_lt(self) {
            *other
        } else {
            *self
        }
    }

    /// The lower of two temperatures, ignoring NaN.
    #[verifier::when_used_as_spec(spec_min)]
    pub fn min(&self, other: &Temperature) -> (out: Temperature)
        ensures
            out == self.spec_min(other),
    {
        if self.is_nan() {
            *other
        } else if other.lt(self) {
            *other
        } else {
            *self
        }
    }

    /// Whether `self` and `other` encode the same number.
    #[verifier::when_used_as_spec(spec_same_value)]
    pub fn same_value(&self, other: &Temperature) -> (out: bool)
        ensures
            out == self.spec_same_value(other),
    {
        !self.is_nan() && !other.is_nan() && self.key() == other.key()
    }
}

/// Away from NaN the order is total: of two temperatures one is at most the
/// other, and `<` is the failure of `>=`.
pub proof fn lemma_order_total(a: Temperature, b: Temperature)
    requires
        !a.is_nan(),
        !b.is_nan(),
    ensures
        a.le(&b) || b.le(&a),
        a.lt(&b) <==> !b.le(&a),
        a.le(&a),
{
}

/// The order is transitive, and a strict step anywhere makes the whole step
/// strict.
pub proof fn lemma_order_transitive(a: Temperature, b: Temperature, c: Temperature)
    requires
        a.le(&b),
        b.le(&c),
    ensures
        a.le(&c),
        a.lt(&b) || b.lt(&c) ==> a.lt(&c),
{
}

/// Two temperatures with the same encoding have the same value unless they
/// are NaN, and two with the same value differ at most in the sign of zero.
pub proof fn lemma_same_value(a: Temperature, b: Temperature)
    ensures
        a == b && !a.is_nan() ==> a.same_value(&b),
        a.same_value(&b) ==> a == b || (a.magnitude() == 0 && b.magnitude() == 0),
        a.same_value(&b) <==> a.le(&b) && b.le(&a),
{
}

/// The lower of two temperatures is one of them and, away from NaN, at most
/// both; it is a NaN only where both are.
pub proof fn lemma_min_is_lower(a: Temperature, b: Temperature)
    ensures
        a.min(&b) == a || a.min(&b) == b,
        !a.is_nan() && !b.is_nan() ==> a.min(&b).le(&a) && a.min(&b).le(&b),
        a.min(&b).is_nan() <==> a.is_nan() && b.is_nan(),
{
}

} // verus!
