//! Monetary amounts: a decimal number held as a mantissa and a scale, with the
//! arithmetic of `rust_decimal` behind a few trusted wrappers.
use rust_decimal::Decimal;
use vstd::prelude::*;
use vstd::std_specs::cmp::PartialEqSpecImpl;

verus! {

/// The largest number of digits after the decimal point.
pub const MAX_SCALE: u32 = 28;

/// `10^n`.
pub open spec fn pow10(n: nat) -> int
    decreases n,
{
    if n == 0 {
        1
    } else {
        10 * pow10((n - 1) as nat)
    }
}

/// Every mantissa lies strictly between minus and plus this bound (2^96).
pub open spec fn mantissa_bound() -> int {
    0x1_0000_0000_0000_0000_0000_0000
}

/// A decimal written as a mantissa, a number of digits after the point, and its sign
/// (which a decimal keeps even when the mantissa is zero: `-0.0`).
pub type Repr = (i128, u32, bool);

/// The representations a decimal can have.
pub open spec fn valid_repr(r: Repr) -> bool {
    &&& -mantissa_bound() < r.0 < mantissa_bound()
    &&& r.1 <= MAX_SCALE
    &&& r.0 != 0 ==> r.2 == (r.0 < 0)
}

/// The value of a representation, counted in units of `10^-28`.
pub open spec fn value(r: Repr) -> int {
    r.0 * pow10((MAX_SCALE - r.1) as nat)
}

/// A sum or difference `total` of two operands can be written exactly at the larger
/// of their scales.
pub open spec fn fits_at_scale_of(total: int, a: Repr, b: Repr) -> bool {
    let s = if a.1 >= b.1 { a.1 } else { b.1 };
    let unit = pow10((MAX_SCALE - s) as nat);
    -mantissa_bound() * unit < total < mantissa_bound() * unit
}

pub open spec fn add_fits(a: Repr, b: Repr) -> bool {
    fits_at_scale_of(value(a) + value(b), a, b)
}

pub open spec fn sub_fits(a: Repr, b: Repr) -> bool {
    fits_at_scale_of(value(a) - value(b), a, b)
}

/// What `Decimal::checked_add` returns for two decimals, by their representations.
pub uninterp spec fn decimal_checked_add(a: Repr, b: Repr) -> Option<Repr>;

/// What `Decimal::checked_sub` returns for two decimals, by their representations.
pub uninterp spec fn decimal_checked_sub(a: Repr, b: Repr) -> Option<Repr>;

/// `Decimal::checked_add` gives the exact sum of `a` and `b` (no rounding, no overflow).
pub open spec fn exact_sum(a: Repr, b: Repr) -> bool {
    decimal_checked_add(a, b) is Some && value(decimal_checked_add(a, b)->0) == value(a) + value(b)
}

/// `Decimal::checked_sub` gives the exact difference of `a` and `b`.
pub open spec fn exact_difference(a: Repr, b: Repr) -> bool {
    decimal_checked_sub(a, b) is Some && value(decimal_checked_sub(a, b)->0) == value(a) - value(
        b,
    )
}

/// Rounds to `dp` digits after the point, a tie going to the even neighbour
/// (the mantissa's magnitude is rounded and its sign kept, but for a non-zero amount
/// that rounds to zero, which comes out as `+0`).
pub open spec fn round_half_even(a: Repr, dp: u32) -> Repr {
    if a.1 <= dp {
        a
    } else {
        let d = pow10((a.1 - dp) as nat);
        let mag: int = if a.0 < 0 { -a.0 } else { a.0 as int };
        let q = mag / d;
        let r = mag % d;
        let rounded = if 2 * r > d || (2 * r == d && q % 2 == 1) { q + 1 } else { q };
        // A zero input keeps its sign; a non-zero one rounded to zero comes out positive.
        ((if a.2 { -rounded } else { rounded }) as i128, dp, a.2 && (a.0 == 0 || rounded != 0))
    }
}

/// A decimal number `mantissa / 10^scale`.
#[derive(Clone, Copy, Debug)]
pub struct Amount {
    mantissa: i128,
    scale: u32,
    negative: bool,
}

impl View for Amount {
    type V = Repr;

    closed spec fn view(&self) -> Repr {
        (self.mantissa, self.scale, self.negative)
    }
}

impl Amount {
    #[verifier::type_invariant]
    spec fn well_formed(self) -> bool {
        valid_repr((self.mantissa, self.scale, self.negative))
    }

    /// `num / 10^scale`.
    pub fn new(num: i64, scale: u32) -> (a: Amount)
        requires
            scale <= MAX_SCALE,
        ensures
            a@ == (num as i128, scale, num < 0),
    {
        Amount { mantissa: num as i128, scale, negative: num < 0 }
    }

    /// Zero, with no digits after the point.
    pub fn zero() -> (a: Amount)
        ensures
            a@ == (0i128, 0u32, false),
            a == Amount::zero_spec(),
    {
        Amount { mantissa: 0, scale: 0, negative: false }
    }

    /// Zero with no digits after the point, in specifications.
    pub closed spec fn zero_spec() -> Amount {
        Amount { mantissa: 0, scale: 0, negative: false }
    }

    pub proof fn lemma_zero_spec()
        ensures
            Amount::zero_spec()@ == (0i128, 0u32, false),
    {
    }

    /// The amount `mantissa / 10^scale` with the given sign, where a decimal can hold
    /// it (a non-zero mantissa carries its own sign).
    pub fn from_parts(mantissa: i128, scale: u32, negative: bool) -> (a: Option<Amount>)
        ensures
            a is Some <==> valid_repr((mantissa, scale, negative)),
            a matches Some(x) ==> x@ == (mantissa, scale, negative),
    {
        if scale <= MAX_SCALE && -0x1_0000_0000_0000_0000_0000_0000i128 < mantissa
            && mantissa < 0x1_0000_0000_0000_0000_0000_0000i128 && (mantissa == 0 || negative == (
        mantissa < 0)) {
            Some(Amount { mantissa, scale, negative })
        } else {
            None
        }
    }

    pub fn mantissa(&self) -> (m: i128)
        ensures
            m == self@.0,
            valid_repr(self@),
    {
        proof {
            use_type_invariant(self);
        }
        self.mantissa
    }

    pub fn scale(&self) -> (s: u32)
        ensures
            s == self@.1,
            valid_repr(self@),
    {
        proof {
            use_type_invariant(self);
        }
        self.scale
    }

    /// Whether the sign is negative; zero can carry either sign.
    pub fn is_sign_negative(&self) -> (n: bool)
        ensures
            n == self@.2,
            valid_repr(self@),
    {
        proof {
            use_type_invariant(self);
        }
        self.negative
    }
}

/// The representation of an optional amount.
pub open spec fn repr_of(a: Option<Amount>) -> Option<Repr> {
    match a {
        Some(x) => Some(x@),
        None => None,
    }
}

/// `Decimal::checked_add`: the sum, or nothing where the decimal type cannot hold it.
/// Claimed: the result is the named `decimal_checked_add` of the operands, and it is
/// the exact sum wherever that sum can be written at the larger of the two scales.
#[verifier::external_body]
pub(crate) fn checked_add(a: Amount, b: Amount) -> (r: Option<Amount>)
    ensures
        repr_of(r) == decimal_checked_add(a@, b@),
        add_fits(a@, b@) ==> r is Some,
        add_fits(a@, b@) ==> value(repr_of(r)->0) == value(a@) + value(b@),
{
    let mut x = Decimal::from_i128_with_scale(a.mantissa, a.scale);
    x.set_sign_negative(a.negative);
    let mut y = Decimal::from_i128_with_scale(b.mantissa, b.scale);
    y.set_sign_negative(b.negative);
    match x.checked_add(y) {
        Some(d) => Some(Amount { mantissa: d.mantissa(), scale: d.scale(), negative: d.is_sign_negative() }),
        None => None,
    }
}

/// `Decimal::checked_sub`: the difference, or nothing where the decimal type cannot
/// hold it. Claimed: the result is the named `decimal_checked_sub` of the operands, and
/// it is the exact difference wherever that can be written at the larger scale.
#[verifier::external_body]
pub(crate) fn checked_sub(a: Amount, b: Amount) -> (r: Option<Amount>)
    ensures
        repr_of(r) == decimal_checked_sub(a@, b@),
        sub_fits(a@, b@) ==> r is Some,
        sub_fits(a@, b@) ==> value(repr_of(r)->0) == value(a@) - value(b@),
{
    let mut x = Decimal::from_i128_with_scale(a.mantissa, a.scale);
    x.set_sign_negative(a.negative);
    let mut y = Decimal::from_i128_with_scale(b.mantissa, b.scale);
    y.set_sign_negative(b.negative);
    match x.checked_sub(y) {
        Some(d) => Some(Amount { mantissa: d.mantissa(), scale: d.scale(), negative: d.is_sign_negative() }),
        None => None,
    }
}

/// `<` on `Decimal`, which orders decimals by their values.
#[verifier::external_body]
pub(crate) fn less_than(a: Amount, b: Amount) -> (r: bool)
    ensures
        r == (value(a@) < value(b@)),
{
    let mut x = Decimal::from_i128_with_scale(a.mantissa, a.scale);
    x.set_sign_negative(a.negative);
    let mut y = Decimal::from_i128_with_scale(b.mantissa, b.scale);
    y.set_sign_negative(b.negative);
    x < y
}

/// `Decimal::round_dp`: rounds to `dp` digits after the point, ties to even, keeping
/// the sign except where a non-zero decimal rounds to zero; a decimal with no more
/// than `dp` such digits comes back unchanged.
#[verifier::external_body]
pub(crate) fn round_dp(a: Amount, dp: u32) -> (r: Amount)
    ensures
        r@ == round_half_even(a@, dp),
{
    let mut x = Decimal::from_i128_with_scale(a.mantissa, a.scale);
    x.set_sign_negative(a.negative);
    let d = x.round_dp(dp);
    Amount { mantissa: d.mantissa(), scale: d.scale(), negative: d.is_sign_negative() }
}

/// Two amounts are equal when their values are, whatever their scales: `1.0 == 1.00`.
impl PartialEq for Amount {
    fn eq(&self, other: &Amount) -> (r: bool) {
        !less_than(*self, *other) && !less_than(*other, *self)
    }
}

impl PartialEqSpecImpl for Amount {
    open spec fn obeys_eq_spec() -> bool {
        true
    }

    open spec fn eq_spec(&self, other: &Amount) -> bool {
        value(self@) == value(other@)
    }
}

} // verus!
