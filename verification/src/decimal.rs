//! Decimal amounts of arbitrary precision, and the discount that a listing
//! offers on its declared value.
//!
//! A `Decimal` holds as plain values what a `bigdecimal::BigDecimal` holds:
//! an integer of any size and a scale. The arithmetic itself is the work of
//! `bigdecimal`; what this module claims of it is said on each wrapper.

use vstd::prelude::*;
use vstd::arithmetic::power::pow;
use bigdecimal::BigDecimal;
use bigdecimal::num_bigint::{BigInt, Sign};
use crate::error::{InternalReason, InvalidReason, MarketError};

verus! {

/// The largest scale, in either direction, on which this crate does
/// arithmetic.
pub const MAX_SCALE: i64 = 10000;

/// A decimal number: `unscaled / 10^scale`, where `unscaled` is the integer
/// that `negative` and `magnitude` spell out.
///
/// `==` compares the fields, not the numbers: 1.0 and 1.00 differ, and so
/// do two magnitudes of which one has a leading zero digit. The contracts
/// speak of the view.
#[derive(Clone, Debug, PartialEq, Eq)]
pub struct Decimal {
    pub negative: bool,
    /// The digits of the magnitude in base 2^32, least significant first.
    pub magnitude: Vec<u32>,
    /// The number of decimal places; a negative scale multiplies by a power
    /// of ten.
    pub scale: i64,
}

/// What a `Decimal` stands for: the number `unscaled / 10^scale`.
pub struct DecimalView {
    pub unscaled: int,
    pub scale: int,
}

/// The natural number that digits in base 2^32 spell out, least significant
/// digit first.
pub open spec fn limbs_value(limbs: Seq<u32>) -> nat
    decreases limbs.len(),
{
    if limbs.len() == 0 {
        0
    } else {
        limbs[0] as nat + 4294967296 * limbs_value(limbs.drop_first())
    }
}

impl View for Decimal {
    type V = DecimalView;

    open spec fn view(&self) -> DecimalView {
        DecimalView {
            unscaled: if self.negative {
                -(limbs_value(self.magnitude@) as int)
            } else {
                limbs_value(self.magnitude@) as int
            },
            scale: self.scale as int,
        }
    }
}

impl DecimalView {
    /// The scale lies within `MAX_SCALE` of zero.
    pub open spec fn scale_in_range(self) -> bool {
        -MAX_SCALE <= self.scale <= MAX_SCALE
    }

    /// The number is one: `unscaled == 10^scale`.
    pub open spec fn is_one(self) -> bool {
        self.scale >= 0 && self.unscaled == pow(10, self.scale as nat)
    }
}

/// The exact difference `a - b`, at the larger of the two scales.
pub open spec fn decimal_difference(a: DecimalView, b: DecimalView) -> DecimalView {
    let scale = if a.scale >= b.scale {
        a.scale
    } else {
        b.scale
    };
    DecimalView {
        unscaled: a.unscaled * pow(10, (scale - a.scale) as nat) - b.unscaled * pow(
            10,
            (scale - b.scale) as nat,
        ),
        scale,
    }
}

/// The exact product `a * b`. Where neither factor is one, the digits are
/// multiplied and the scales added; a factor that is one hands back the
/// other factor as it is.
pub open spec fn decimal_product(a: DecimalView, b: DecimalView) -> DecimalView {
    if a.is_one() {
        b
    } else if b.is_one() {
        a
    } else {
        DecimalView { unscaled: a.unscaled * b.unscaled, scale: a.scale + b.scale }
    }
}

/// The quotient `a / b` as `bigdecimal` computes it: exact where the
/// division ends within a hundred significant digits, rounded there where it
/// does not.
pub uninterp spec fn decimal_quotient(a: DecimalView, b: DecimalView) -> DecimalView;

/// The discount, in percent, of a selling price on an original value:
/// `((original - selling) / original) * 100`.
pub open spec fn discount_percent(original: DecimalView, selling: DecimalView) -> DecimalView {
    decimal_product(
        decimal_quotient(decimal_difference(original, selling), original),
        DecimalView { unscaled: 100, scale: 0 },
    )
}

/// Subtraction of `bigdecimal`, `&a - &b`: it brings both numbers to the
/// larger scale and subtracts the digits, so the difference is exact.
#[verifier::external_body]
fn decimal_sub(a: &Decimal, b: &Decimal) -> (r: Decimal)
    requires
        a@.scale_in_range(),
        b@.scale_in_range(),
    ensures
        r@ == decimal_difference(a@, b@),
{
    let a_sign = if a.negative { Sign::Minus } else { Sign::Plus };
    let b_sign = if b.negative { Sign::Minus } else { Sign::Plus };
    let x = BigDecimal::new(BigInt::from_slice(a_sign, &a.magnitude), a.scale);
    let y = BigDecimal::new(BigInt::from_slice(b_sign, &b.magnitude), b.scale);
    let (digits, scale) = (&x - &y).into_bigint_and_exponent();
    let (sign, magnitude) = digits.to_u32_digits();
    Decimal { negative: sign == Sign::Minus, magnitude, scale }
}

/// Division of `bigdecimal`, `a / &b`. It fails on a divisor that is zero.
/// The quotient is a function of the two numbers alone; this crate gives it
/// a name and claims nothing else of it.
#[verifier::external_body]
fn decimal_div(a: &Decimal, b: &Decimal) -> (r: Decimal)
    requires
        a@.scale_in_range(),
        b@.scale_in_range(),
        b@.unscaled != 0,
    ensures
        r@ == decimal_quotient(a@, b@),
{
    let a_sign = if a.negative { Sign::Minus } else { Sign::Plus };
    let b_sign = if b.negative { Sign::Minus } else { Sign::Plus };
    let x = BigDecimal::new(BigInt::from_slice(a_sign, &a.magnitude), a.scale);
    let y = BigDecimal::new(BigInt::from_slice(b_sign, &b.magnitude), b.scale);
    let (digits, scale) = (x / &y).into_bigint_and_exponent();
    let (sign, magnitude) = digits.to_u32_digits();
    Decimal { negative: sign == Sign::Minus, magnitude, scale }
}

/// Multiplication of `bigdecimal`, `a * b` on owned values: a factor equal
/// to one hands back the other factor unchanged, otherwise the digits are
/// multiplied and the scales added.
#[verifier::external_body]
fn decimal_mul(a: &Decimal, b: &Decimal) -> (r: Decimal)
    requires
        a@.scale_in_range(),
        b@.scale_in_range(),
    ensures
        r@ == decimal_product(a@, b@),
{
    let a_sign = if a.negative { Sign::Minus } else { Sign::Plus };
    let b_sign = if b.negative { Sign::Minus } else { Sign::Plus };
    let x = BigDecimal::new(BigInt::from_slice(a_sign, &a.magnitude), a.scale);
    let y = BigDecimal::new(BigInt::from_slice(b_sign, &b.magnitude), b.scale);
    let (digits, scale) = (x * y).into_bigint_and_exponent();
    let (sign, magnitude) = digits.to_u32_digits();
    Decimal { negative: sign == Sign::Minus, magnitude, scale }
}

/// A natural number in base 2^32 is zero exactly when all its digits are.
pub proof fn lemma_limbs_zero(limbs: Seq<u32>)
    ensures
        limbs_value(limbs) == 0 <==> forall|i: int| 0 <= i < limbs.len() ==> limbs[i] == 0,
    decreases limbs.len(),
{
    if limbs.len() > 0 {
        let rest = limbs.drop_first();
        lemma_limbs_zero(rest);
        if limbs_value(limbs) == 0 {
            assert(limbs[0] == 0 && limbs_value(rest) == 0);
            assert forall|i: int| 0 <= i < limbs.len() implies limbs[i] == 0 by {
                if i > 0 {
                    assert(rest[i - 1] == limbs[i]);
                }
            }
        }
        if forall|i: int| 0 <= i < limbs.len() ==> limbs[i] == 0 {
            assert forall|i: int| 0 <= i < rest.len() implies rest[i] == 0 by {
                assert(rest[i] == limbs[i + 1]);
            }
        }
    }
}

impl Decimal {
    /// The decimal `units / 10^scale`, with no more digits of the magnitude
    /// than it needs.
    pub fn from_i64(units: i64, scale: i64) -> (d: Decimal)
        ensures
            d@ == (DecimalView { unscaled: units as int, scale: scale as int }),
    {
        let negative = units < 0;
        let magnitude: u64 = if negative {
            (-(units as i128)) as u64
        } else {
            units as u64
        };
        let low: u32 = (magnitude % 4294967296) as u32;
        let high: u32 = (magnitude / 4294967296) as u32;
        let mut limbs: Vec<u32> = Vec::new();
        if high != 0 {
            limbs.push(low);
            limbs.push(high);
            proof {
                let s = limbs@;
                assert(s.drop_first() =~= seq![high]);
                assert(s.drop_first().drop_first() =~= Seq::<u32>::empty());
                reveal_with_fuel(limbs_value, 3);
                assert(limbs_value(s) == low + 4294967296 * high);
            }
        } else if low != 0 {
            limbs.push(low);
            proof {
                let s = limbs@;
                assert(s.drop_first() =~= Seq::<u32>::empty());
                reveal_with_fuel(limbs_value, 2);
            }
        }
        Decimal { negative, magnitude: limbs, scale }
    }

    /// Whether the scale is one on which this crate does arithmetic.
    pub fn scale_in_range(&self) -> (b: bool)
        ensures
            b == self@.scale_in_range(),
    {
        -MAX_SCALE <= self.scale && self.scale <= MAX_SCALE
    }

    /// Whether the number is zero.
    pub fn is_zero(&self) -> (b: bool)
        ensures
            b == (self@.unscaled == 0),
    {
        let mut i: usize = 0;
        while i < self.magnitude.len()
            invariant
                i <= self.magnitude.len(),
                forall|j: int| 0 <= j < i ==> self.magnitude@[j] == 0,
            decreases self.magnitude.len() - i,
        {
            if self.magnitude[i] != 0 {
                proof {
                    lemma_limbs_zero(self.magnitude@);
                }
                return false;
            }
            i += 1;
        }
        proof {
            lemma_limbs_zero(self.magnitude@);
        }
        true
    }

    /// A copy of the number.
    pub fn copy(&self) -> (d: Decimal)
        ensures
            d@ == self@,
            d.negative == self.negative,
            d.magnitude@ == self.magnitude@,
            d.scale == self.scale,
    {
        let mut magnitude: Vec<u32> = Vec::new();
        let mut i: usize = 0;
        while i < self.magnitude.len()
            invariant
                i <= self.magnitude.len(),
                magnitude@ == self.magnitude@.subrange(0, i as int),
            decreases self.magnitude.len() - i,
        {
            magnitude.push(self.magnitude[i]);
            assert(magnitude@ =~= self.magnitude@.subrange(0, i + 1));
            i += 1;
        }
        assert(magnitude@ =~= self.magnitude@);
        Decimal { negative: self.negative, magnitude, scale: self.scale }
    }
}

/// The percentage of a ratio that is not one has the digits of the ratio
/// times one hundred, at the scale of the ratio; the percentage of one is
/// one hundred.
pub proof fn lemma_percent_of_ratio(ratio: DecimalView)
    ensures
        !ratio.is_one() ==> decimal_product(ratio, DecimalView { unscaled: 100, scale: 0 }) == (
        DecimalView { unscaled: ratio.unscaled * 100, scale: ratio.scale }),
        ratio.is_one() ==> decimal_product(ratio, DecimalView { unscaled: 100, scale: 0 }) == (
        DecimalView { unscaled: 100, scale: 0 }),
{
    assert(pow(10, 0) == 1) by {
        reveal_with_fuel(pow, 1);
    }
}

/// A ratio as a percentage: the ratio times one hundred. A ratio with a
/// scale beyond `MAX_SCALE` is not computed on.
pub fn percent_of(ratio: &Decimal) -> (r: Result<Decimal, MarketError>)
    ensures
        !ratio@.scale_in_range() ==> r == Err::<Decimal, MarketError>(
            MarketError::Internal(InternalReason::DecimalOutOfRange),
        ),
        ratio@.scale_in_range() ==> r is Ok && r->Ok_0@ == decimal_product(
            ratio@,
            DecimalView { unscaled: 100, scale: 0 },
        ),
{
    if !ratio.scale_in_range() {
        return Err(MarketError::Internal(InternalReason::DecimalOutOfRange));
    }
    let hundred = Decimal::from_i64(100, 0);
    Ok(decimal_mul(ratio, &hundred))
}

/// The discount, in percent, of `selling` on `original`.
///
/// An original value of zero has no discount, and a scale beyond
/// `MAX_SCALE` is not computed on; both are rejected. The last error means
/// that the quotient itself left that range.
pub fn discount_percentage(original: &Decimal, selling: &Decimal) -> (r: Result<
    Decimal,
    MarketError,
>)
    ensures
        !original@.scale_in_range() || !selling@.scale_in_range() ==> r == Err::<
            Decimal,
            MarketError,
        >(MarketError::InvalidOperation(InvalidReason::AmountOutOfRange)),
        original@.scale_in_range() && selling@.scale_in_range() && original@.unscaled == 0 ==> r
            == Err::<Decimal, MarketError>(
            MarketError::InvalidOperation(InvalidReason::ZeroOriginalValue),
        ),
        original@.scale_in_range() && selling@.scale_in_range() && original@.unscaled != 0
            && !decimal_quotient(
            decimal_difference(original@, selling@),
            original@,
        ).scale_in_range() ==> r == Err::<Decimal, MarketError>(
            MarketError::Internal(InternalReason::DecimalOutOfRange),
        ),
        original@.scale_in_range() && selling@.scale_in_range() && original@.unscaled != 0
            && decimal_quotient(
            decimal_difference(original@, selling@),
            original@,
        ).scale_in_range() ==> r is Ok && r->Ok_0@ == discount_percent(original@, selling@),
{
    if !original.scale_in_range() || !selling.scale_in_range() {
        return Err(MarketError::InvalidOperation(InvalidReason::AmountOutOfRange));
    }
    if original.is_zero() {
        return Err(MarketError::InvalidOperation(InvalidReason::ZeroOriginalValue));
    }
    let difference = decimal_sub(original, selling);
    let quotient = decimal_div(&difference, original);
    percent_of(&quotient)
}

} // verus!
