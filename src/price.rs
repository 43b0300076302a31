//! Prices as IEEE-754 binary64 encodings, and the candle validator.
//!
//! A price is carried as the 64-bit pattern of a binary64 value, so every
//! comparison that the validator makes is stated and proved over integers:
//! the sign is the top bit, and the remaining 63 bits (the magnitude) order
//! the absolute values, with infinity at `0x7ff0_0000_0000_0000` and NaN above it.

use vstd::prelude::*;

verus! {

/// The sign bit of a binary64 encoding.
pub const SIGN_BIT: u64 = 0x8000_0000_0000_0000;

/// The magnitude of positive and negative infinity.
pub const INFINITY_MAGNITUDE: u64 = 0x7ff0_0000_0000_0000;

/// A binary64 floating-point value, held as its bit pattern.
#[derive(Clone, Copy, Debug, PartialEq, Eq, Structural)]
pub struct Price {
    pub bits: u64,
}

impl Price {
    /// The encoding with the sign bit cleared.
    pub open spec fn magnitude(self) -> u64 {
        if self.bits >= SIGN_BIT {
            (self.bits - SIGN_BIT) as u64
        } else {
            self.bits
        }
    }

    pub open spec fn sign_negative(self) -> bool {
        self.bits >= SIGN_BIT
    }

    /// All exponent bits set and a non-zero fraction.
    pub open spec fn spec_is_nan(self) -> bool {
        self.magnitude() > INFINITY_MAGNITUDE
    }

    /// All exponent bits set and a zero fraction.
    pub open spec fn spec_is_infinite(self) -> bool {
        self.magnitude() == INFINITY_MAGNITUDE
    }

    pub open spec fn spec_is_finite(self) -> bool {
        self.magnitude() < INFINITY_MAGNITUDE
    }

    /// `+0.0` or `-0.0`.
    pub open spec fn spec_is_zero(self) -> bool {
        self.magnitude() == 0
    }

    /// The floating-point `self <= other`: false when either side is NaN,
    /// and the two zeros compare equal.
    pub open spec fn spec_le(self, other: Price) -> bool {
        &&& !self.spec_is_nan()
        &&& !other.spec_is_nan()
        &&& {
            ||| self.spec_is_zero() && other.spec_is_zero()
            ||| self.sign_negative() && !other.sign_negative()
            ||| !self.sign_negative() && !other.sign_negative() && self.bits <= other.bits
            ||| self.sign_negative() && other.sign_negative() && self.bits >= other.bits
        }
    }

    /// The floating-point `self < other`.
    pub open spec fn spec_lt(self, other: Price) -> bool {
        !self.spec_is_nan() && !other.spec_is_nan() && !other.spec_le(self)
    }

    /// `+0.0`.
    pub open spec fn spec_zero() -> Price {
        Price { bits: 0 }
    }

    /// Finite and greater than zero.
    pub open spec fn spec_is_positive_finite(self) -> bool {
        self.spec_is_finite() && Price::spec_zero().spec_lt(self)
    }

    /// Finite and not below zero (`-0.0` included).
    pub open spec fn spec_is_non_negative_finite(self) -> bool {
        self.spec_is_finite() && Price::spec_zero().spec_le(self)
    }

    pub fn from_bits(bits: u64) -> (r: Price)
        ensures
            r.bits == bits,
    {
        Price { bits }
    }

    pub fn to_bits(&self) -> (r: u64)
        ensures
            r == self.bits,
    {
        self.bits
    }

    pub fn zero() -> (r: Price)
        ensures
            r == Price::spec_zero(),
    {
        Price { bits: 0 }
    }

    fn magnitude_of(&self) -> (r: u64)
        ensures
            r == self.magnitude(),
    {
        if self.bits >= SIGN_BIT {
            self.bits - SIGN_BIT
        } else {
            self.bits
        }
    }

    pub fn is_nan(&self) -> (r: bool)
        ensures
            r == self.spec_is_nan(),
    {
        self.magnitude_of() > INFINITY_MAGNITUDE
    }

    pub fn is_infinite(&self) -> (r: bool)
        ensures
            r == self.spec_is_infinite(),
    {
        self.magnitude_of() == INFINITY_MAGNITUDE
    }

    /// `self <= other` on the values the encodings stand for.
    pub fn le(&self, other: &Price) -> (r: bool)
        ensures
            r == self.spec_le(*other),
    {
        if self.is_nan() || other.is_nan() {
            return false;
        }
        let a_neg = self.bits >= SIGN_BIT;
        let b_neg = other.bits >= SIGN_BIT;
        if self.magnitude_of() == 0 && other.magnitude_of() == 0 {
            true
        } else if a_neg != b_neg {
            a_neg
        } else if a_neg {
            self.bits >= other.bits
        } else {
            self.bits <= other.bits
        }
    }

    /// `self < other` on the values the encodings stand for.
    pub fn lt(&self, other: &Price) -> (r: bool)
        ensures
            r == self.spec_lt(*other),
    {
        !self.is_nan() && !other.is_nan() && !other.le(self)
    }
}

/// One OHLCV observation: the open time in milliseconds since the Unix
/// epoch (UTC), four prices and a traded volume.
#[derive(Clone, Copy, Debug, PartialEq, Eq, Structural)]
pub struct Candle {
    pub timestamp: i64,
    pub open: Price,
    pub high: Price,
    pub low: Price,
    pub close: Price,
    pub volume: Price,
}

impl Candle {
    pub fn new(timestamp: i64, open: Price, high: Price, low: Price, close: Price, volume: Price) -> (r: Candle)
        ensures
            r == (Candle { timestamp, open, high, low, close, volume }),
    {
        Candle { timestamp, open, high, low, close, volume }
    }

    /// The data-quality rule: the four prices are finite and positive, the
    /// volume is finite and not negative, and the high and the low bound the
    /// open and the close.
    pub open spec fn spec_is_admissible(self) -> bool {
        &&& self.open.spec_is_positive_finite()
        &&& self.high.spec_is_positive_finite()
        &&& self.low.spec_is_positive_finite()
        &&& self.close.spec_is_positive_finite()
        &&& self.volume.spec_is_non_negative_finite()
        &&& self.low.spec_le(self.high)
        &&& self.open.spec_le(self.high)
        &&& self.close.spec_le(self.high)
        &&& self.low.spec_le(self.open)
        &&& self.low.spec_le(self.close)
    }
}

fn is_positive_finite(p: &Price) -> (r: bool)
    ensures
        r == p.spec_is_positive_finite(),
{
    !p.is_nan() && !p.is_infinite() && Price::zero().lt(p)
}

/// Decides whether a candle may be stored.
pub fn validate(c: &Candle) -> (r: bool)
    ensures
        r == c.spec_is_admissible(),
{
    is_positive_finite(&c.open)
        && is_positive_finite(&c.high)
        && is_positive_finite(&c.low)
        && is_positive_finite(&c.close)
        && !c.volume.is_nan() && !c.volume.is_infinite() && Price::zero().le(&c.volume)
        && c.low.le(&c.high)
        && c.open.le(&c.high)
        && c.close.le(&c.high)
        && c.low.le(&c.open)
        && c.low.le(&c.close)
}

/// A candle with a NaN or infinite field, or with a price at or below zero,
/// is rejected; so is one whose high lies below its low; and one with finite
/// positive prices ordered `low <= min(open, close) <= max(open, close) <= high`
/// and a finite volume not below zero is admitted.
pub proof fn lemma_validator_correctness(c: Candle)
    ensures
        ({
            let bad = |p: Price| p.spec_is_nan() || p.spec_is_infinite();
            let not_positive = |p: Price| p.spec_le(Price::spec_zero());
            (bad(c.open) || bad(c.high) || bad(c.low) || bad(c.close) || bad(c.volume)
                || not_positive(c.open) || not_positive(c.high) || not_positive(c.low)
                || not_positive(c.close)) ==> !c.spec_is_admissible()
        }),
        c.high.spec_lt(c.low) ==> !c.spec_is_admissible(),
        (c.open.spec_is_positive_finite() && c.high.spec_is_positive_finite()
            && c.low.spec_is_positive_finite() && c.close.spec_is_positive_finite()
            && c.low.spec_le(c.open) && c.low.spec_le(c.close)
            && c.open.spec_le(c.high) && c.close.spec_le(c.high)
            && c.volume.spec_is_non_negative_finite()) ==> c.spec_is_admissible(),
{
}

} // verus!
