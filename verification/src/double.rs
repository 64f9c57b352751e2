//! Double-precision values, held by their IEEE 754 binary64 bit pattern.
//!
//! The pattern is one sign bit, eleven exponent bits and fifty-two fraction
//! bits. Read as an integer with the sign bit taken off, the rest grows with
//! the magnitude of the number it encodes, so two numbers compare as their
//! signed magnitudes do. Patterns above that of infinity encode no number.

use vstd::prelude::*;

verus! {

/// The pattern with only the sign bit set: negative zero.
pub const SIGN_BIT: u64 = 0x8000_0000_0000_0000;

/// The pattern of positive infinity, the largest magnitude that is a number.
pub const INFINITY_BITS: u64 = 0x7ff0_0000_0000_0000;

/// A double-precision value as its sixty-four bits.
#[derive(Clone, Copy, Debug)]
pub struct Double {
    pub bits: u64,
}

impl Double {
    /// The bits below the sign bit.
    pub open spec fn magnitude(self) -> int {
        if self.bits >= SIGN_BIT {
            self.bits - SIGN_BIT
        } else {
            self.bits as int
        }
    }

    /// Whether the sign bit is set.
    pub open spec fn is_negative(self) -> bool {
        self.bits >= SIGN_BIT
    }

    /// Whether the pattern encodes no number.
    pub open spec fn is_nan(self) -> bool {
        self.magnitude() > INFINITY_BITS
    }

    /// The place of a number on the line of all numbers: the larger the
    /// number, the larger its rank. Both zeros have rank zero.
    pub open spec fn rank(self) -> int {
        if self.is_negative() {
            -self.magnitude()
        } else {
            self.magnitude()
        }
    }

    /// `self <= other` as IEEE 754 defines it: false as soon as either side is
    /// no number.
    pub open spec fn le_spec(self, other: Double) -> bool {
        !self.is_nan() && !other.is_nan() && self.rank() <= other.rank()
    }

    /// `self < other` as IEEE 754 defines it.
    pub open spec fn lt_spec(self, other: Double) -> bool {
        !self.is_nan() && !other.is_nan() && self.rank() < other.rank()
    }

    /// `self == other` as IEEE 754 defines it: the two zeros are equal, and
    /// what is no number equals nothing, itself included.
    pub open spec fn same_number(self, other: Double) -> bool {
        !self.is_nan() && !other.is_nan() && self.rank() == other.rank()
    }

    /// `min <= self <= max`, both ends included.
    pub open spec fn within(self, min: Double, max: Double) -> bool {
        min.le_spec(self) && self.le_spec(max)
    }

    /// The value with the given bit pattern.
    pub fn from_bits(bits: u64) -> (r: Double)
        ensures
            r.bits == bits,
    {
        Double { bits }
    }

    /// The bit pattern of the value.
    pub fn to_bits(&self) -> (r: u64)
        ensures
            r == self.bits,
    {
        self.bits
    }

    /// Whether the value is no number.
    pub fn is_not_a_number(&self) -> (r: bool)
        ensures
            r == self.is_nan(),
    {
        if self.bits >= SIGN_BIT {
            self.bits - SIGN_BIT > INFINITY_BITS
        } else {
            self.bits > INFINITY_BITS
        }
    }

    /// Whether `self <= other`.
    pub fn le(&self, other: &Double) -> (r: bool)
        ensures
            r == self.le_spec(*other),
    {
        if self.is_not_a_number() || other.is_not_a_number() {
            return false;
        }
        if self.bits >= SIGN_BIT {
            if other.bits >= SIGN_BIT {
                // both negative: the larger magnitude is the smaller number
                other.bits <= self.bits
            } else {
                true
            }
        } else if other.bits >= SIGN_BIT {
            // a negative number is at most a positive one only as zero to zero
            self.bits == 0 && other.bits == SIGN_BIT
        } else {
            self.bits <= other.bits
        }
    }

    /// Whether `self < other`.
    pub fn lt(&self, other: &Double) -> (r: bool)
        ensures
            r == self.lt_spec(*other),
    {
        if self.is_not_a_number() || other.is_not_a_number() {
            return false;
        }
        !other.le(self)
    }

    /// Whether `min <= self <= max`.
    pub fn is_within(&self, min: &Double, max: &Double) -> (r: bool)
        ensures
            r == self.within(*min, *max),
    {
        min.le(self) && self.le(max)
    }
}

impl PartialEq for Double {
    fn eq(&self, other: &Double) -> (r: bool) {
        self.le(other) && other.le(self)
    }
}

impl vstd::std_specs::cmp::PartialEqSpecImpl for Double {
    open spec fn obeys_eq_spec() -> bool {
        true
    }

    open spec fn eq_spec(&self, other: &Double) -> bool {
        self.same_number(*other)
    }
}

/// Of two numbers, one is at most the other.
pub proof fn lemma_le_total(a: Double, b: Double)
    requires
        !a.is_nan(),
        !b.is_nan(),
    ensures
        a.le_spec(b) || b.le_spec(a),
{
}

/// The order passes along a chain.
pub proof fn lemma_le_transitive(a: Double, b: Double, c: Double)
    requires
        a.le_spec(b),
        b.le_spec(c),
    ensures
        a.le_spec(c),
{
}

/// Two numbers that are each at most the other are the same number.
pub proof fn lemma_le_antisymmetric(a: Double, b: Double)
    requires
        a.le_spec(b),
        b.le_spec(a),
    ensures
        a.same_number(b),
{
}

} // verus!
