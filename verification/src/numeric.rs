//! Fixed-point accrual fractions.
//!
//! Reward-per-unit ratios are tracked as `Numeric` values: an unsigned
//! 128-bit count of units of `1 / NUMERIC_SCALE`. The scale is large enough
//! that a fraction as small as one indivisible token unit over the maximum
//! token supply still accumulates instead of rounding to zero, and
//! multiplication by an integer principal truncates toward zero, so
//! fractional remainders stay inside the factor for the next party instead
//! of being lost.

use vstd::prelude::*;

verus! {

/// Units of `1 / NUMERIC_SCALE` per whole number; chosen so that
/// `from_fraction(1, d)` is nonzero for any denominator up to the maximum
/// token supply, and `from_u64(u64::MAX)` still fits a `u128`.
pub const NUMERIC_SCALE: u128 = 1_000_000_000_000_000_000;

/// A non-negative fixed-point fraction with `NUMERIC_SCALE` resolution.
///
/// The view of a `Numeric` is its raw count of scale units, so a contract
/// over `n@` speaks about exact integers throughout.
#[derive(Clone, Copy, Debug, PartialEq, Eq, Structural)]
pub struct Numeric {
    bits: u128,
}

impl View for Numeric {
    type V = u128;

    closed spec fn view(&self) -> u128 {
        self.bits
    }
}

impl Numeric {
    /// The additive identity.
    pub fn zero() -> (r: Numeric)
        ensures
            r@ == 0,
    {
        Numeric { bits: 0 }
    }

    /// The exact representation of an integer count.
    pub fn from_u64(n: u64) -> (r: Numeric)
        ensures
            r@ == n * NUMERIC_SCALE,
    {
        Numeric { bits: (n as u128) * NUMERIC_SCALE }
    }

    /// `numerator / denominator` at full internal precision, truncated
    /// toward zero at the last scale unit.
    pub fn from_fraction(numerator: u64, denominator: u64) -> (r: Numeric)
        requires
            denominator > 0,
        ensures
            r@ == numerator * NUMERIC_SCALE / denominator as int,
            r@ <= numerator * NUMERIC_SCALE,
    {
        proof {
            vstd::arithmetic::div_mod::lemma_div_nonincreasing(
                numerator * NUMERIC_SCALE,
                denominator as int,
            );
        }
        Numeric { bits: (numerator as u128) * NUMERIC_SCALE / (denominator as u128) }
    }

    /// Exact sum; the caller guarantees headroom, as a factor that
    /// overflowed would corrupt every later settlement.
    pub fn add(self, rhs: Numeric) -> (r: Numeric)
        requires
            self@ + rhs@ <= u128::MAX,
        ensures
            r@ == self@ + rhs@,
    {
        Numeric { bits: self.bits + rhs.bits }
    }

    /// Exact difference; the caller guarantees the left operand is not
    /// smaller, as a negative accrual is an invariant violation rather
    /// than a recoverable error.
    pub fn sub(self, rhs: Numeric) -> (r: Numeric)
        requires
            rhs@ <= self@,
        ensures
            r@ == self@ - rhs@,
    {
        Numeric { bits: self.bits - rhs.bits }
    }

    /// Multiplication by a plain integer principal, kept at full precision:
    /// `(a / S) * n` is exactly `a * n` scale units.
    pub fn mul_u64(self, n: u64) -> (r: Numeric)
        requires
            self@ * n <= u128::MAX,
        ensures
            r@ == self@ * n,
    {
        Numeric { bits: self.bits * (n as u128) }
    }

    /// The integer part, truncated toward zero.
    pub fn to_u64(self) -> (r: u64)
        requires
            self@ / NUMERIC_SCALE <= u64::MAX,
        ensures
            r == self@ / NUMERIC_SCALE,
    {
        (self.bits / NUMERIC_SCALE) as u64
    }

    /// Whether `self` is at most `rhs`.
    pub fn le(&self, rhs: &Numeric) -> (r: bool)
        ensures
            r == (self@ <= rhs@),
    {
        self.bits <= rhs.bits
    }

    /// Whether `self` is strictly below `rhs`.
    pub fn lt(&self, rhs: &Numeric) -> (r: bool)
        ensures
            r == (self@ < rhs@),
    {
        self.bits < rhs.bits
    }
}

} // verus!
