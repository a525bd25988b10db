//! Fixed-point monetary values.
//!
//! Every amount the ledger stores is a scaled integer: the decimal value
//! multiplied by [`FIXED_DECIMAL_SCALING`], so that four fractional digits
//! are kept exactly and no accumulation error can creep in. Conversion
//! between the scaled form and a decimal with separate unit and fraction
//! parts happens only at the ingestion/reporting boundary.

use vstd::prelude::*;

verus! {

/// Scale factor between a decimal amount and its stored integer form:
/// four fractional digits.
pub const FIXED_DECIMAL_SCALING: i128 = 10_000;

/// The largest magnitude a scaled amount may have while still being
/// convertible back to a `Decimal` (whose unit part is a `u64`):
/// `u64::MAX * FIXED_DECIMAL_SCALING + 9_999`.
pub const FIXED_AMOUNT_LIMIT: i128 = 184_467_440_737_095_516_159_999;

/// A decimal amount with four fractional digits, the boundary form of a
/// monetary value: `units` whole currency units plus `ten_thousandths`
/// ten-thousandths, negated when `negative` is set.
#[derive(Clone, Copy, Debug, PartialEq, Eq, Structural)]
pub struct Decimal {
    pub negative: bool,
    pub units: u64,
    pub ten_thousandths: u16,
}

impl Decimal {
    /// The scaled integer this decimal denotes.
    pub open spec fn as_fixed(self) -> int {
        if self.negative {
            -(self.units * FIXED_DECIMAL_SCALING + self.ten_thousandths)
        } else {
            self.units * FIXED_DECIMAL_SCALING + self.ten_thousandths
        }
    }

    /// Canonical form: the fraction part is a proper fraction and zero is
    /// never marked negative, so each scaled integer has exactly one
    /// canonical decimal.
    pub open spec fn wf(self) -> bool {
        &&& self.ten_thousandths < 10_000
        &&& !(self.negative && self.units == 0 && self.ten_thousandths == 0)
    }
}

/// The canonical decimal form of a scaled integer.
pub open spec fn spec_from_fixed(v: int) -> Decimal {
    let m = if v < 0 {
        -v
    } else {
        v
    };
    Decimal {
        negative: v < 0,
        units: (m / (FIXED_DECIMAL_SCALING as int)) as u64,
        ten_thousandths: (m % (FIXED_DECIMAL_SCALING as int)) as u16,
    }
}

/// Converts a decimal amount to its scaled integer form.
pub fn to_fixed(value: Decimal) -> (r: i128)
    ensures
        r == value.as_fixed(),
{
    let magnitude: i128 = value.units as i128 * (FIXED_DECIMAL_SCALING)
        + value.ten_thousandths as i128;
    if value.negative {
        -magnitude
    } else {
        magnitude
    }
}

/// Converts a scaled integer back to its canonical decimal form, for
/// display with four fractional digits.
pub fn from_fixed(value: i128) -> (r: Decimal)
    requires
        -FIXED_AMOUNT_LIMIT <= value <= FIXED_AMOUNT_LIMIT,
    ensures
        r == spec_from_fixed(value as int),
        r.wf(),
        r.as_fixed() == value,
{
    let negative = value < 0;
    let magnitude: i128 = if negative {
        -value
    } else {
        value
    };
    let units_wide: i128 = magnitude / FIXED_DECIMAL_SCALING;
    let fraction_wide: i128 = magnitude % FIXED_DECIMAL_SCALING;
    let r = Decimal {
        negative,
        units: units_wide as u64,
        ten_thousandths: fraction_wide as u16,
    };
    proof {
        lemma_from_fixed_canonical(value as int);
    }
    r
}

/// Splitting a nonnegative scaled integer within range gives a unit part
/// that fits in a `u64`, a proper fraction, and parts that rebuild it.
proof fn lemma_split_fixed(m: int)
    requires
        0 <= m <= FIXED_AMOUNT_LIMIT,
    ensures
        0 <= m / (FIXED_DECIMAL_SCALING as int) <= u64::MAX,
        0 <= m % (FIXED_DECIMAL_SCALING as int) < 10_000,
        (m / (FIXED_DECIMAL_SCALING as int)) * (FIXED_DECIMAL_SCALING as int)
            + m % (FIXED_DECIMAL_SCALING as int) == m,
{
    let s = FIXED_DECIMAL_SCALING as int;
    vstd::arithmetic::div_mod::lemma_fundamental_div_mod(m, s);
    vstd::arithmetic::div_mod::lemma_fundamental_div_mod_converse(
        FIXED_AMOUNT_LIMIT as int,
        s,
        u64::MAX as int,
        9_999,
    );
    vstd::arithmetic::div_mod::lemma_div_is_ordered(m, FIXED_AMOUNT_LIMIT as int, s);
}

/// The canonical decimal of an in-range scaled integer is well formed and
/// denotes that same integer.
pub proof fn lemma_from_fixed_canonical(v: int)
    requires
        -FIXED_AMOUNT_LIMIT <= v <= FIXED_AMOUNT_LIMIT,
    ensures
        spec_from_fixed(v).wf(),
        spec_from_fixed(v).as_fixed() == v,
{
    let m = if v < 0 {
        -v
    } else {
        v
    };
    lemma_split_fixed(m);
}

/// Round trip: converting a canonical decimal to its scaled integer and
/// back reproduces the decimal exactly, to all four fractional digits.
pub proof fn lemma_fixed_round_trip(d: Decimal)
    requires
        d.wf(),
    ensures
        spec_from_fixed(d.as_fixed()) == d,
{
    let s = FIXED_DECIMAL_SCALING as int;
    let m = d.units * s + d.ten_thousandths;
    vstd::arithmetic::div_mod::lemma_fundamental_div_mod_converse(
        m,
        s,
        d.units as int,
        d.ten_thousandths as int,
    );
}

/// Round trip in the other direction: the scaled integer of the canonical
/// decimal of any in-range scaled integer is that integer again.
pub proof fn lemma_fixed_of_decimal_round_trip(v: int)
    requires
        -FIXED_AMOUNT_LIMIT <= v <= FIXED_AMOUNT_LIMIT,
    ensures
        spec_from_fixed(v).as_fixed() == v,
{
    lemma_from_fixed_canonical(v);
}

} // verus!
