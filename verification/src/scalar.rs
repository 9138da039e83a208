//! Binary64 values as bit patterns, with exact comparisons.
//!
//! A `Scalar` is the 64-bit pattern of an IEEE 754 double. Comparing two
//! doubles, negating one and taking an absolute value are exact operations
//! on the pattern, and they are what this module offers. Sums, products,
//! quotients and roots are not computed here: callers supply them.
use vstd::prelude::*;

verus! {

/// The bit that carries the sign.
pub const SIGN_BIT: u64 = 0x8000_0000_0000_0000;

/// Bit pattern of positive infinity. Every larger magnitude encodes a NaN.
pub const INFINITY_BITS: u64 = 0x7FF0_0000_0000_0000;

/// Bit pattern of 1.0.
pub const ONE_BITS: u64 = 0x3FF0_0000_0000_0000;

/// Bit pattern of the largest finite double, `f64::MAX`.
pub const MAX_BITS: u64 = 0x7FEF_FFFF_FFFF_FFFF;

/// Bit pattern of the smallest finite double, `f64::MIN`.
pub const MIN_BITS: u64 = 0xFFEF_FFFF_FFFF_FFFF;

/// Bit pattern of the machine epsilon, `f64::EPSILON` (2^-52).
pub const MACHINE_EPSILON_BITS: u64 = 0x3CB0_0000_0000_0000;

/// The sort key of every NaN: above the key of positive infinity.
pub const NAN_KEY: i64 = 0x7FFF_FFFF_FFFF_FFFF;

/// An IEEE 754 binary64 value, held as its bit pattern.
///
/// Derived equality compares bit patterns; `same_value` is numeric equality.
#[derive(Clone, Copy, Debug, PartialEq, Eq, Structural)]
pub struct Scalar {
    pub bits: u64,
}

impl Scalar {
    /// The bit pattern with the sign cleared.
    pub open spec fn magnitude(self) -> int {
        if self.bits >= SIGN_BIT {
            self.bits - SIGN_BIT
        } else {
            self.bits as int
        }
    }

    /// Whether the sign bit is set.
    pub open spec fn sign(self) -> bool {
        self.bits >= SIGN_BIT
    }

    /// Whether the pattern encodes no number.
    pub open spec fn nan(self) -> bool {
        self.magnitude() > INFINITY_BITS
    }

    /// Position on the number line: binary64 magnitudes grow with their bit
    /// patterns, so the signed magnitude orders all numbers, with both zeros
    /// at 0 and the infinities at the two ends.
    pub open spec fn rank(self) -> int {
        if self.sign() {
            -self.magnitude()
        } else {
            self.magnitude()
        }
    }

    /// `self < rhs` as doubles compare: false when either side is a NaN.
    pub open spec fn less(self, rhs: Scalar) -> bool {
        !self.nan() && !rhs.nan() && self.rank() < rhs.rank()
    }

    /// `self <= rhs` as doubles compare: false when either side is a NaN.
    pub open spec fn less_eq(self, rhs: Scalar) -> bool {
        !self.nan() && !rhs.nan() && self.rank() <= rhs.rank()
    }

    /// `self == rhs` as doubles compare: the zeros are equal, a NaN equals
    /// nothing.
    pub open spec fn same_value(self, rhs: Scalar) -> bool {
        !self.nan() && !rhs.nan() && self.rank() == rhs.rank()
    }

    /// `self >= 0` as doubles compare.
    pub open spec fn non_negative(self) -> bool {
        !self.nan() && self.rank() >= 0
    }

    /// A total preorder that extends `less`: numbers by rank, every NaN after
    /// positive infinity.
    pub open spec fn sort_key(self) -> int {
        if self.nan() {
            NAN_KEY as int
        } else {
            self.rank()
        }
    }

    /// The value with the sign flipped.
    pub open spec fn negated(self) -> Scalar {
        if self.bits >= SIGN_BIT {
            Scalar { bits: (self.bits - SIGN_BIT) as u64 }
        } else {
            Scalar { bits: (self.bits + SIGN_BIT) as u64 }
        }
    }

    /// The value with the sign cleared.
    pub open spec fn absolute(self) -> Scalar {
        Scalar { bits: self.magnitude() as u64 }
    }

    /// The larger of two values. As with `f64::max`, a NaN loses against a
    /// number; of two equal values the first is kept.
    pub open spec fn larger(self, rhs: Scalar) -> Scalar {
        if self.nan() {
            rhs
        } else if rhs.nan() {
            self
        } else if self.rank() < rhs.rank() {
            rhs
        } else {
            self
        }
    }

    /// The smaller of two values. As with `f64::min`, a NaN loses against a
    /// number; of two equal values the first is kept.
    pub open spec fn smaller(self, rhs: Scalar) -> Scalar {
        if self.nan() {
            rhs
        } else if rhs.nan() {
            self
        } else if rhs.rank() < self.rank() {
            rhs
        } else {
            self
        }
    }

    /// Wraps a bit pattern, as `f64::to_bits` gives it.
    pub fn from_bits(bits: u64) -> (r: Scalar)
        ensures
            r.bits == bits,
    {
        Scalar { bits }
    }

    /// The bit pattern, as `f64::from_bits` takes it.
    pub fn to_bits(&self) -> (r: u64)
        ensures
            r == self.bits,
    {
        self.bits
    }

    /// 0.0
    pub fn zero() -> (r: Scalar)
        ensures
            r.bits == 0,
    {
        Scalar { bits: 0 }
    }

    /// 1.0
    pub fn one() -> (r: Scalar)
        ensures
            r.bits == ONE_BITS,
    {
        Scalar { bits: ONE_BITS }
    }

    /// `f64::MAX`
    pub fn max_value() -> (r: Scalar)
        ensures
            r.bits == MAX_BITS,
    {
        Scalar { bits: MAX_BITS }
    }

    /// `f64::MIN`
    pub fn min_value() -> (r: Scalar)
        ensures
            r.bits == MIN_BITS,
    {
        Scalar { bits: MIN_BITS }
    }

    fn magnitude_bits(&self) -> (m: u64)
        ensures
            m == self.magnitude(),
            m < SIGN_BIT,
    {
        if self.bits >= SIGN_BIT {
            self.bits - SIGN_BIT
        } else {
            self.bits
        }
    }

    pub fn is_nan(&self) -> (r: bool)
        ensures
            r == self.nan(),
    {
        self.magnitude_bits() > INFINITY_BITS
    }

    /// The key that the candidate list is ordered by.
    pub fn key(&self) -> (k: i64)
        ensures
            k == self.sort_key(),
    {
        let m: u64 = self.magnitude_bits();
        if m > INFINITY_BITS {
            NAN_KEY
        } else if self.bits >= SIGN_BIT {
            -(m as i64)
        } else {
            m as i64
        }
    }

    pub fn lt(&self, rhs: &Scalar) -> (r: bool)
        ensures
            r == self.less(*rhs),
    {
        !self.is_nan() && !rhs.is_nan() && self.key() < rhs.key()
    }

    pub fn le(&self, rhs: &Scalar) -> (r: bool)
        ensures
            r == self.less_eq(*rhs),
    {
        !self.is_nan() && !rhs.is_nan() && self.key() <= rhs.key()
    }

    pub fn gt(&self, rhs: &Scalar) -> (r: bool)
        ensures
            r == rhs.less(*self),
    {
        rhs.lt(self)
    }

    pub fn ge(&self, rhs: &Scalar) -> (r: bool)
        ensures
            r == rhs.less_eq(*self),
    {
        rhs.le(self)
    }

    pub fn eq_value(&self, rhs: &Scalar) -> (r: bool)
        ensures
            r == self.same_value(*rhs),
    {
        !self.is_nan() && !rhs.is_nan() && self.key() == rhs.key()
    }

    pub fn is_non_negative(&self) -> (r: bool)
        ensures
            r == self.non_negative(),
    {
        !self.is_nan() && self.key() >= 0
    }

    pub fn neg(&self) -> (r: Scalar)
        ensures
            r == self.negated(),
    {
        if self.bits >= SIGN_BIT {
            Scalar { bits: self.bits - SIGN_BIT }
        } else {
            Scalar { bits: self.bits + SIGN_BIT }
        }
    }

    pub fn abs(&self) -> (r: Scalar)
        ensures
            r == self.absolute(),
    {
        Scalar { bits: self.magnitude_bits() }
    }

    pub fn max(&self, rhs: &Scalar) -> (r: Scalar)
        ensures
            r == self.larger(*rhs),
    {
        if self.is_nan() {
            *rhs
        } else if rhs.is_nan() {
            *self
        } else if self.key() < rhs.key() {
            *rhs
        } else {
            *self
        }
    }

    pub fn min(&self, rhs: &Scalar) -> (r: Scalar)
        ensures
            r == self.smaller(*rhs),
    {
        if self.is_nan() {
            *rhs
        } else if rhs.is_nan() {
            *self
        } else if rhs.key() < self.key() {
            *rhs
        } else {
            *self
        }
    }
}

/// Negation mirrors the number line: it keeps the magnitude, flips the sign
/// and therefore reverses the order; applied twice it gives the value back.
pub proof fn lemma_negation_mirrors(a: Scalar, b: Scalar)
    ensures
        a.negated().magnitude() == a.magnitude(),
        a.negated().nan() == a.nan(),
        a.negated().rank() == -a.rank(),
        a.negated().negated() == a,
        a.less(b) == b.negated().less(a.negated()),
{
}

/// An absolute value is never below zero, and is the value itself or its
/// negation.
pub proof fn lemma_absolute_value(a: Scalar)
    ensures
        a.absolute().nan() == a.nan(),
        !a.nan() ==> a.absolute().non_negative(),
        a.absolute() == a || a.absolute() == a.negated(),
        !a.nan() ==> a.absolute().rank() == (if a.rank() < 0 { -a.rank() } else { a.rank() }),
{
}

/// `less` is a strict order on the numbers: irreflexive, transitive, and
/// total up to `same_value`. `sort_key` extends it to all patterns.
pub proof fn lemma_less_is_strict_order(a: Scalar, b: Scalar, c: Scalar)
    ensures
        !a.less(a),
        a.less(b) && b.less(c) ==> a.less(c),
        !a.nan() && !b.nan() ==> (a.less(b) || b.less(a) || a.same_value(b)),
        a.less(b) ==> a.sort_key() < b.sort_key(),
        a.less_eq(b) == (a.less(b) || a.same_value(b)),
{
}

} // verus!
