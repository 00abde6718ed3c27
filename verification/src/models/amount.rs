//! Exact decimal amounts of money, as `rust_decimal::Decimal` holds them: an
//! integer mantissa of at most 96 bits and a decimal scale from 0 to 28.
//!
//! An [`Amount`] stands for `mantissa / 10^scale`. Parsing and arithmetic are
//! done by `rust_decimal`; each call is stated here by what it computes.

use rust_decimal::Decimal;
use std::str::FromStr;
use vstd::prelude::*;

verus! {

/// The largest mantissa magnitude a `Decimal` can hold: 2^96 - 1.
pub const MAX_MANTISSA: i128 = 0xFFFF_FFFF_FFFF_FFFF_FFFF_FFFF;

/// The largest scale a `Decimal` can hold.
pub const MAX_SCALE: u32 = 28;

/// `10^n`.
pub open spec fn pow10(n: nat) -> int
    decreases n,
{
    if n == 0 {
        1
    } else {
        10 * pow10((n - 1) as nat)
    }
}

/// `m` divided by `p`, rounded toward zero, as integer division in Rust does.
pub open spec fn div_toward_zero(m: int, p: int) -> int {
    if m >= 0 {
        m / p
    } else {
        -((-m) / p)
    }
}

/// A decimal amount: `mantissa / 10^scale`.
#[derive(Debug, Clone, Copy)]
pub struct Amount {
    mantissa: i128,
    scale: u32,
}

/// The results of `rust_decimal`'s `Decimal::from_str` on a text: the
/// mantissa and scale it reads, or `None` when it reports an error.
pub uninterp spec fn decimal_from_str(s: Seq<char>) -> Option<(int, int)>;

/// The result of `Decimal::checked_div` on two decimals given by mantissa and
/// scale.
pub uninterp spec fn decimal_checked_div(am: int, a_scale: int, bm: int, b_scale: int) -> Option<
    (int, int),
>;

/// The result of `Decimal::checked_mul` on two decimals given by mantissa and
/// scale.
pub uninterp spec fn decimal_checked_mul(am: int, a_scale: int, bm: int, b_scale: int) -> Option<
    (int, int),
>;

/// The result of `Decimal::checked_sub` on two decimals given by mantissa and
/// scale.
pub uninterp spec fn decimal_checked_sub(am: int, a_scale: int, bm: int, b_scale: int) -> Option<
    (int, int),
>;

/// The result of `Decimal::trunc_with_scale` on a decimal given by mantissa
/// and scale.
pub uninterp spec fn decimal_trunc_with_scale(m: int, scale: int, new_scale: int) -> (int, int);

impl Amount {
    #[verifier::type_invariant]
    spec fn inv(self) -> bool {
        &&& -MAX_MANTISSA <= self.mantissa <= MAX_MANTISSA
        &&& self.scale <= MAX_SCALE
    }

    /// The mantissa.
    pub closed spec fn m(self) -> int {
        self.mantissa as int
    }

    /// The scale: the number of decimal places.
    pub closed spec fn s(self) -> int {
        self.scale as int
    }

    /// The amount multiplied by `10^28`, an integer for every valid amount.
    pub open spec fn scaled(self) -> int {
        self.m() * pow10((MAX_SCALE - self.s()) as nat)
    }

    /// The pair of mantissa and scale.
    pub open spec fn parts(self) -> (int, int) {
        (self.m(), self.s())
    }

    /// Whether the mantissa and scale are those of a `Decimal`.
    pub open spec fn valid_parts(m: int, s: int) -> bool {
        -MAX_MANTISSA <= m <= MAX_MANTISSA && 0 <= s <= MAX_SCALE
    }

    /// The mantissa.
    pub fn mantissa(&self) -> (r: i128)
        ensures
            r == self.m(),
            -MAX_MANTISSA <= r <= MAX_MANTISSA,
    {
        proof {
            use_type_invariant(self);
        }
        self.mantissa
    }

    /// The scale.
    pub fn scale(&self) -> (r: u32)
        ensures
            r == self.s(),
            r <= MAX_SCALE,
    {
        proof {
            use_type_invariant(self);
        }
        self.scale
    }

    /// The amount `mantissa / 10^scale`, when the parts are those of a
    /// `Decimal` (`Decimal::try_from_i128_with_scale`).
    pub fn from_parts(mantissa: i128, scale: u32) -> (r: Option<Amount>)
        ensures
            r is Some <==> Self::valid_parts(mantissa as int, scale as int),
            r matches Some(a) ==> a.m() == mantissa && a.s() == scale,
    {
        if -MAX_MANTISSA <= mantissa && mantissa <= MAX_MANTISSA && scale <= MAX_SCALE {
            Some(Amount { mantissa, scale })
        } else {
            None
        }
    }

    /// Zero (`Decimal::ZERO`).
    pub fn zero() -> (r: Amount)
        ensures
            r.m() == 0 && r.s() == 0,
    {
        Amount { mantissa: 0, scale: 0 }
    }

    /// The whole number `n` (`Decimal::from` an `i16`).
    pub fn from_i16(n: i16) -> (r: Amount)
        ensures
            r.m() == n && r.s() == 0,
    {
        Amount { mantissa: n as i128, scale: 0 }
    }

    /// Whether the amount is greater than zero.
    pub fn is_positive(&self) -> (r: bool)
        ensures
            r == (self.m() > 0),
    {
        self.mantissa > 0
    }

    /// Whether the amount is zero or greater.
    pub fn is_non_negative(&self) -> (r: bool)
        ensures
            r == (self.m() >= 0),
    {
        self.mantissa >= 0
    }

    /// Whether the amount is zero.
    pub fn is_zero(&self) -> (r: bool)
        ensures
            r == (self.m() == 0),
    {
        self.mantissa == 0
    }

    /// `Decimal::from_str`. Claimed of `rust_decimal`: the result is what
    /// `decimal_from_str` names for the text.
    #[verifier::external_body]
    pub(crate) fn parse(s: &str) -> (r: Option<Amount>)
        ensures
            match r {
                Some(a) => decimal_from_str(s@) == Some(a.parts()),
                None => decimal_from_str(s@) is None,
            },
    {
        match Decimal::from_str(s) {
            Ok(d) => Some(Amount { mantissa: d.mantissa(), scale: d.scale() }),
            Err(_) => None,
        }
    }

    /// `Decimal::checked_div`: `self / other`, rounded to what a `Decimal` can
    /// hold. Claimed of `rust_decimal`: the result is what `decimal_checked_div`
    /// names; dividing by a non-zero whole number never overflows.
    #[verifier::external_body]
    pub(crate) fn checked_div(&self, other: &Amount) -> (r: Option<Amount>)
        ensures
            decimal_checked_div(self.m(), self.s(), other.m(), other.s()) == (match r {
                Some(a) => Some(a.parts()),
                None => None,
            }),
            other.s() == 0 && other.m() != 0 ==> r is Some,
    {
        let a = Decimal::from_i128_with_scale(self.mantissa, self.scale);
        let b = Decimal::from_i128_with_scale(other.mantissa, other.scale);
        match a.checked_div(b) {
            Some(d) => Some(Amount { mantissa: d.mantissa(), scale: d.scale() }),
            None => None,
        }
    }

    /// `Decimal::checked_mul`. Claimed of `rust_decimal`: the result is what
    /// `decimal_checked_mul` names; a product with a zero factor is zero at
    /// scale 0; when the exact product fits in 96 bits at the summed scale, it
    /// is returned exactly.
    #[verifier::external_body]
    pub(crate) fn checked_mul(&self, other: &Amount) -> (r: Option<Amount>)
        ensures
            decimal_checked_mul(self.m(), self.s(), other.m(), other.s()) == (match r {
                Some(a) => Some(a.parts()),
                None => None,
            }),
            self.m() == 0 || other.m() == 0 ==> r is Some && r.unwrap().m() == 0 && r.unwrap().s()
                == 0,
            self.m() != 0 && other.m() != 0 && self.s() + other.s() <= MAX_SCALE && -MAX_MANTISSA
                <= self.m() * other.m() <= MAX_MANTISSA ==> r is Some && r.unwrap().m() == self.m()
                * other.m() && r.unwrap().s() == self.s() + other.s(),
    {
        let a = Decimal::from_i128_with_scale(self.mantissa, self.scale);
        let b = Decimal::from_i128_with_scale(other.mantissa, other.scale);
        match a.checked_mul(b) {
            Some(d) => Some(Amount { mantissa: d.mantissa(), scale: d.scale() }),
            None => None,
        }
    }

    /// `Decimal::checked_sub`. Claimed of `rust_decimal`: the result is what
    /// `decimal_checked_sub` names; when the exact difference fits in 96 bits
    /// at the larger of the two scales, the result has exactly its value.
    #[verifier::external_body]
    pub(crate) fn checked_sub(&self, other: &Amount) -> (r: Option<Amount>)
        ensures
            decimal_checked_sub(self.m(), self.s(), other.m(), other.s()) == (match r {
                Some(a) => Some(a.parts()),
                None => None,
            }),
            difference_fits(*self, *other) ==> r is Some && r.unwrap().scaled() == self.scaled()
                - other.scaled(),
    {
        let a = Decimal::from_i128_with_scale(self.mantissa, self.scale);
        let b = Decimal::from_i128_with_scale(other.mantissa, other.scale);
        match a.checked_sub(b) {
            Some(d) => Some(Amount { mantissa: d.mantissa(), scale: d.scale() }),
            None => None,
        }
    }

    /// `Decimal::trunc_with_scale`: the amount cut, without rounding, to at
    /// most `scale` decimal places. Claimed of `rust_decimal` as its source
    /// shows: an amount already at that scale is kept; zero takes that scale;
    /// with more places the mantissa is divided toward zero by the dropped
    /// power of ten; with fewer places the value is kept at a scale no greater
    /// than the one asked for.
    #[verifier::external_body]
    pub(crate) fn trunc_with_scale(&self, scale: u32) -> (r: Amount)
        requires
            scale <= MAX_SCALE,
        ensures
            r.parts() == decimal_trunc_with_scale(self.m(), self.s(), scale as int),
            self.s() == scale ==> r.parts() == self.parts(),
            self.s() != scale && self.m() == 0 ==> r.m() == 0 && r.s() == scale,
            self.s() > scale ==> r.s() == scale && r.m() == div_toward_zero(
                self.m(),
                pow10((self.s() - scale) as nat),
            ),
            self.s() < scale ==> r.scaled() == self.scaled() && self.s() <= r.s() <= scale,
    {
        let d = Decimal::from_i128_with_scale(self.mantissa, self.scale).trunc_with_scale(scale);
        Amount { mantissa: d.mantissa(), scale: d.scale() }
    }

    /// `Decimal`'s `==`: whether the two amounts have the same value,
    /// whatever their scales.
    #[verifier::external_body]
    pub(crate) fn same_value(&self, other: &Amount) -> (r: bool)
        ensures
            r == (self.scaled() == other.scaled()),
    {
        Decimal::from_i128_with_scale(self.mantissa, self.scale) == Decimal::from_i128_with_scale(
            other.mantissa,
            other.scale,
        )
    }

    /// `Decimal`'s `>`: whether `self` is greater than `other`.
    #[verifier::external_body]
    pub(crate) fn exceeds(&self, other: &Amount) -> (r: bool)
        ensures
            r == (self.scaled() > other.scaled()),
    {
        Decimal::from_i128_with_scale(self.mantissa, self.scale) > Decimal::from_i128_with_scale(
            other.mantissa,
            other.scale,
        )
    }
}

/// The exact difference `a - b`, written at the larger of the two scales,
/// fits in the 96-bit mantissa of a `Decimal`.
pub open spec fn difference_fits(a: Amount, b: Amount) -> bool {
    difference_fits_parts(a.parts(), b.parts())
}

/// The exact difference of two decimals given by mantissa and scale, written
/// at the larger of the two scales, fits in the 96-bit mantissa of a `Decimal`.
pub open spec fn difference_fits_parts(a: (int, int), b: (int, int)) -> bool {
    let s = if a.1 >= b.1 {
        a.1
    } else {
        b.1
    };
    let d = a.0 * pow10((s - a.1) as nat) - b.0 * pow10((s - b.1) as nat);
    -MAX_MANTISSA <= d <= MAX_MANTISSA
}

/// A decimal given by mantissa and scale, multiplied by `10^28`.
pub open spec fn scaled_parts(p: (int, int)) -> int {
    p.0 * pow10((MAX_SCALE - p.1) as nat)
}

} // verus!
