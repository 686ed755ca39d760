use vstd::arithmetic::div_mod::lemma_div_denominator;
use vstd::prelude::*;

verus! {

/// Number of fractional decimal digits that amounts keep.
pub const AMOUNT_SCALE: u32 = 4;

/// The largest magnitude of a decimal's mantissa (96 bits).
pub const MAX_MANTISSA: i128 = 79228162514264337593543950335;

/// The largest scale a decimal may carry.
pub const MAX_SCALE: u32 = 28;

pub open spec fn pow10(n: nat) -> nat
    decreases n,
{
    if n == 0 {
        1
    } else {
        10 * pow10((n - 1) as nat)
    }
}

/// A non-negative money amount, held exactly as a count of ten-thousandths.
#[derive(Clone, Copy, Debug, PartialEq, Eq, Structural)]
pub struct Amount {
    pub units: u128,
}

impl Amount {
    pub open spec fn value(self) -> nat {
        self.units as nat
    }

    pub fn new(units: u128) -> (r: Amount)
        ensures
            r.value() == units,
    {
        Amount { units }
    }

    pub fn zero() -> (r: Amount)
        ensures
            r.value() == 0,
    {
        Amount { units: 0 }
    }

    /// Exact sum, or `None` where it does not fit.
    pub fn checked_add(self, other: Amount) -> (r: Option<Amount>)
        ensures
            r matches Some(s) <==> self.value() + other.value() <= u128::MAX,
            r matches Some(s) ==> s.value() == self.value() + other.value(),
    {
        match self.units.checked_add(other.units) {
            Some(units) => Some(Amount { units }),
            None => None,
        }
    }

    /// Exact difference; the subtrahend may not exceed the amount.
    pub fn sub(self, other: Amount) -> (r: Amount)
        requires
            other.value() <= self.value(),
        ensures
            r.value() == self.value() - other.value(),
    {
        Amount { units: self.units - other.units }
    }
}

/// A decimal number as `mantissa / 10^scale`, with the sign in the mantissa.
#[derive(Clone, Copy, Debug, PartialEq, Eq, Structural)]
pub struct DecimalValue {
    pub mantissa: i128,
    pub scale: u32,
}

impl DecimalValue {
    /// The range a decimal can take: a 96-bit mantissa and a scale of at most 28.
    pub open spec fn wf(self) -> bool {
        -MAX_MANTISSA <= self.mantissa <= MAX_MANTISSA && self.scale <= MAX_SCALE
    }

    pub open spec fn is_positive(self) -> bool {
        self.mantissa > 0
    }

    /// For a non-negative decimal: its value in ten-thousandths, with the
    /// digits beyond the fourth fractional place dropped.
    pub open spec fn truncated_units(self) -> int {
        if self.scale >= AMOUNT_SCALE {
            (self.mantissa as int) / (pow10((self.scale - AMOUNT_SCALE) as nat) as int)
        } else {
            self.mantissa * pow10((AMOUNT_SCALE - self.scale) as nat)
        }
    }

    /// A decimal that is not positive stays non-positive when cut.
    pub proof fn lemma_non_positive_truncates_non_positive(self)
        requires
            self.mantissa <= 0,
        ensures
            self.truncated_units() <= 0,
    {
        if self.scale >= AMOUNT_SCALE {
            let p = pow10((self.scale - AMOUNT_SCALE) as nat) as int;
            lemma_pow10_positive((self.scale - AMOUNT_SCALE) as nat);
            let m = self.mantissa as int;
            assert(m / p <= 0) by (nonlinear_arith)
                requires
                    m <= 0,
                    p > 0,
            ;
        } else {
            let p = pow10((AMOUNT_SCALE - self.scale) as nat) as int;
            lemma_pow10_positive((AMOUNT_SCALE - self.scale) as nat);
            let m = self.mantissa as int;
            assert(m * p <= 0) by (nonlinear_arith)
                requires
                    m <= 0,
                    p > 0,
            ;
        }
    }

    pub fn new(mantissa: i128, scale: u32) -> (r: DecimalValue)
        ensures
            r.mantissa == mantissa,
            r.scale == scale,
    {
        DecimalValue { mantissa, scale }
    }

    /// Truncates a positive decimal to four fractional digits.
    pub fn truncate_to_amount(self) -> (r: Amount)
        requires
            self.wf(),
            self.is_positive(),
        ensures
            r.value() == self.truncated_units(),
    {
        if self.scale >= AMOUNT_SCALE {
            let steps: u32 = self.scale - AMOUNT_SCALE;
            let mut m: i128 = self.mantissa;
            let mut i: u32 = 0;
            assert(pow10(0) == 1);
            while i < steps
                invariant
                    i <= steps,
                    steps == self.scale - AMOUNT_SCALE,
                    self.mantissa > 0,
                    0 <= m <= self.mantissa,
                    m == (self.mantissa as int) / (pow10(i as nat) as int),
                decreases steps - i,
            {
                proof {
                    assert(pow10(i as nat) > 0) by {
                        lemma_pow10_positive(i as nat);
                    }
                    lemma_div_denominator(self.mantissa as int, pow10(i as nat) as int, 10);
                    assert(pow10((i + 1) as nat) == 10 * pow10(i as nat));
                }
                m = m / 10;
                i = i + 1;
            }
            Amount { units: m as u128 }
        } else {
            proof {
                reveal_with_fuel(pow10, 5);
            }
            let factor: i128 = if self.scale == 0 {
                10000
            } else if self.scale == 1 {
                1000
            } else if self.scale == 2 {
                100
            } else {
                10
            };
            assert(factor == pow10((AMOUNT_SCALE - self.scale) as nat));
            assert(0 < self.mantissa * factor <= MAX_MANTISSA * 10000) by (nonlinear_arith)
                requires
                    0 < self.mantissa <= MAX_MANTISSA,
                    0 < factor <= 10000,
            ;
            Amount { units: (self.mantissa * factor) as u128 }
        }
    }
}

pub proof fn lemma_pow10_positive(n: nat)
    ensures
        pow10(n) > 0,
    decreases n,
{
    if n > 0 {
        lemma_pow10_positive((n - 1) as nat);
    }
}

} // verus!
