//! A plain-value model of `rust_decimal::Decimal` and the decimal operations
//! that the fee models use. Every operation is carried out by `rust_decimal`
//! itself; the contracts below state what its source does.

use vstd::prelude::*;

verus! {

/// The exclusive bound on the magnitude of a decimal mantissa (2^96).
pub const MANTISSA_BOUND: i128 = 79228162514264337593543950336;

/// The largest scale (number of fractional digits) a decimal can carry.
pub const MAX_SCALE: u32 = 28;

/// `10^n`.
pub open spec fn pow10(n: nat) -> nat
    decreases n,
{
    if n == 0 {
        1
    } else {
        10 * pow10((n - 1) as nat)
    }
}

pub open spec fn abs(x: int) -> int {
    if x < 0 {
        -x
    } else {
        x
    }
}

/// `m / 10^k`, rounded to the nearest integer, ties to the even neighbour,
/// with the sign of `m` (banker's rounding of the magnitude).
pub open spec fn round_half_even(m: int, k: nat) -> int {
    let d = pow10(k) as int;
    let q = abs(m) / d;
    let r = abs(m) % d;
    let mag = if 2 * r > d || (2 * r == d && q % 2 == 1) {
        q + 1
    } else {
        q
    };
    if m < 0 {
        -mag
    } else {
        mag
    }
}

/// `m / d` rounded toward zero, as Rust's integer division does.
pub open spec fn div_toward_zero(m: int, d: int) -> int {
    if m < 0 {
        -((-m) / d)
    } else {
        m / d
    }
}

/// A decimal number `mantissa / 10^scale`, held as the two plain values that
/// `rust_decimal::Decimal` exposes through `mantissa()` and `scale()`.
#[derive(Clone, Copy, Debug, PartialEq, Eq)]
pub struct Dec {
    pub mantissa: i128,
    pub scale: u32,
}

impl Dec {
    /// The values `rust_decimal::Decimal` can represent.
    pub open spec fn wf(self) -> bool {
        &&& -MANTISSA_BOUND < self.mantissa < MANTISSA_BOUND
        &&& self.scale <= MAX_SCALE
    }

    /// The denominator `10^scale` of the value.
    pub open spec fn den(self) -> int {
        pow10(self.scale as nat) as int
    }

    /// `mantissa / 10^scale`.
    pub fn new(mantissa: i128, scale: u32) -> (d: Dec)
        ensures
            d.mantissa == mantissa,
            d.scale == scale,
    {
        Dec { mantissa, scale }
    }

    /// The decimal zero, as `Decimal::ZERO` holds it.
    pub fn zero() -> (d: Dec)
        ensures
            d.mantissa == 0,
            d.scale == 0,
            d.wf(),
    {
        Dec { mantissa: 0, scale: 0 }
    }

    /// Whether the value is zero.
    pub fn is_zero(&self) -> (b: bool)
        ensures
            b == (self.mantissa == 0),
    {
        self.mantissa == 0
    }
}

/// `10^n` is positive.
pub proof fn lemma_pow10_pos(n: nat)
    ensures
        pow10(n) > 0,
    decreases n,
{
    if n > 0 {
        lemma_pow10_pos((n - 1) as nat);
    }
}

/// Denoting the same number is transitive.
pub proof fn lemma_same_value_trans(a: Dec, b: Dec, c: Dec)
    requires
        same_value(a, b),
        same_value(b, c),
    ensures
        same_value(a, c),
{
    lemma_pow10_pos(a.scale as nat);
    lemma_pow10_pos(b.scale as nat);
    lemma_pow10_pos(c.scale as nat);
    let (am, ad, bm, bd, cm, cd) = (a.mantissa as int, a.den(), b.mantissa as int, b.den(), c.mantissa as int, c.den());
    assert(am * cd == cm * ad) by (nonlinear_arith)
        requires
            am * bd == bm * ad,
            bm * cd == cm * bd,
            bd > 0,
    {
        assert(am * cd * bd == am * bd * cd);
        assert(am * bd * cd == bm * ad * cd);
        assert(bm * ad * cd == bm * cd * ad);
        assert(bm * cd * ad == cm * bd * ad);
        assert(cm * bd * ad == cm * ad * bd);
    }
}

/// Denoting the same number is symmetric.
pub proof fn lemma_same_value_sym(a: Dec, b: Dec)
    requires
        same_value(a, b),
    ensures
        same_value(b, a),
{
}

/// Banker's rounding keeps the sign (or gives zero).
pub proof fn lemma_round_half_even_sign(m: int, k: nat)
    ensures
        m >= 0 ==> round_half_even(m, k) >= 0,
        m <= 0 ==> round_half_even(m, k) <= 0,
        abs(round_half_even(m, k)) <= abs(m),
{
    lemma_pow10_pos(k);
    let d = pow10(k) as int;
    let q = abs(m) / d;
    let r = abs(m) % d;
    assert(q >= 0 && 0 <= r < d) by (nonlinear_arith)
        requires
            d > 0,
            abs(m) >= 0,
            q == abs(m) / d,
            r == abs(m) % d,
    ;
    assert(abs(m) == q * d + r) by (nonlinear_arith)
        requires
            d > 0,
            q == abs(m) / d,
            r == abs(m) % d,
    ;
    if 2 * r > d || (2 * r == d && q % 2 == 1) {
        assert(q + 1 <= abs(m)) by (nonlinear_arith)
            requires
                abs(m) == q * d + r,
                d >= 1,
                q >= 0,
                r >= 1,
        ;
    } else {
        assert(q <= abs(m)) by (nonlinear_arith)
            requires
                abs(m) == q * d + r,
                d >= 1,
                q >= 0,
                r >= 0,
        ;
    }
}

/// `a` and `b` denote the same number.
pub open spec fn same_value(a: Dec, b: Dec) -> bool {
    a.mantissa * b.den() == b.mantissa * a.den()
}

/// The number `a` is strictly less than the number `b`.
pub open spec fn less_than(a: Dec, b: Dec) -> bool {
    a.mantissa * b.den() < b.mantissa * a.den()
}

/// The number `a` is at most the number `b`.
pub open spec fn at_most(a: Dec, b: Dec) -> bool {
    a.mantissa * b.den() <= b.mantissa * a.den()
}

/// What `Decimal::round_dp(dp)` returns: unchanged when the scale is already at
/// most `dp`, otherwise rounded half-to-even to `dp` fractional digits.
pub open spec fn round_dp_spec(a: Dec, dp: u32) -> Dec {
    if a.scale <= dp {
        a
    } else {
        Dec {
            mantissa: round_half_even(a.mantissa as int, (a.scale - dp) as nat) as i128,
            scale: dp,
        }
    }
}

/// What `Decimal::min` returns: `b` when `a > b`, else `a`.
pub open spec fn min_spec(a: Dec, b: Dec) -> Dec {
    if less_than(b, a) {
        b
    } else {
        a
    }
}

/// The product of the mantissas fits in 96 bits and the scales add up to at
/// most 28, so that the product of `a` and `b` needs no rescaling.
pub open spec fn mul_fits(a: Dec, b: Dec) -> bool {
    &&& a.scale + b.scale <= MAX_SCALE
    &&& abs(a.mantissa * b.mantissa) < MANTISSA_BOUND
}

/// The exact product of `a` and `b` as a checked multiplication gives it
/// when no rescaling is needed: zero at scale 0 for a zero operand, else the
/// mantissas multiplied and the scales added.
pub open spec fn exact_mul(a: Dec, b: Dec) -> Dec {
    if a.mantissa == 0 || b.mantissa == 0 {
        Dec { mantissa: 0, scale: 0 }
    } else {
        Dec { mantissa: (a.mantissa * b.mantissa) as i128, scale: (a.scale + b.scale) as u32 }
    }
}

/// The larger of the two scales.
pub open spec fn aligned_scale(a: Dec, b: Dec) -> u32 {
    if a.scale >= b.scale {
        a.scale
    } else {
        b.scale
    }
}

/// The mantissa of `a` at the scale `s >= a.scale`.
pub open spec fn mantissa_at(a: Dec, s: u32) -> int {
    a.mantissa * pow10((s - a.scale) as nat)
}

/// Both operands aligned to the larger scale, and their difference, fit in
/// 96 bits, so that `a - b` needs no rescaling.
pub open spec fn sub_fits(a: Dec, b: Dec) -> bool {
    let s = aligned_scale(a, b);
    &&& abs(mantissa_at(a, s)) < MANTISSA_BOUND
    &&& abs(mantissa_at(b, s)) < MANTISSA_BOUND
    &&& abs(mantissa_at(a, s) - mantissa_at(b, s)) < MANTISSA_BOUND
}

/// The exact difference `a - b` as a checked subtraction gives it when no
/// rescaling is needed: the negated right operand for a zero left operand,
/// the left operand for a zero right one, else the difference of the
/// aligned mantissas at the larger scale.
pub open spec fn exact_sub(a: Dec, b: Dec) -> Dec {
    if a.mantissa == 0 {
        Dec { mantissa: (-b.mantissa) as i128, scale: b.scale }
    } else if b.mantissa == 0 {
        a
    } else {
        let s = aligned_scale(a, b);
        Dec { mantissa: (mantissa_at(a, s) - mantissa_at(b, s)) as i128, scale: s }
    }
}

/// The result of `rust_decimal::Decimal::checked_mul` on the two values;
/// `None` when the product cannot be represented.
pub uninterp spec fn decimal_checked_mul(a: Dec, b: Dec) -> Option<Dec>;

/// The result of `rust_decimal::Decimal::checked_sub` on the two values;
/// `None` when the difference cannot be represented.
pub uninterp spec fn decimal_checked_sub(a: Dec, b: Dec) -> Option<Dec>;

/// Multiplies two decimals with `Decimal::checked_mul`, `None` on overflow.
/// A zero operand gives zero at scale 0. When both operands are non-zero,
/// their scales add up to at most 28 and the product of the mantissas fits
/// in 96 bits, the product is exact: the mantissas multiply and the scales
/// add. A product that has to be rescaled is left unstated beyond its sign,
/// which is that of the exact product (or zero).
#[verifier::external_body]
pub(crate) fn dec_checked_mul(a: Dec, b: Dec) -> (r: Option<Dec>)
    requires
        a.wf(),
        b.wf(),
    ensures
        r == decimal_checked_mul(a, b),
        a.mantissa == 0 || b.mantissa == 0 || mul_fits(a, b) ==> r == Some(exact_mul(a, b)),
        r matches Some(d) ==> d.wf() && (a.mantissa * b.mantissa >= 0 ==> d.mantissa >= 0) && (
        a.mantissa * b.mantissa <= 0 ==> d.mantissa <= 0),
{
    let x = rust_decimal::Decimal::from_i128_with_scale(a.mantissa, a.scale);
    let y = rust_decimal::Decimal::from_i128_with_scale(b.mantissa, b.scale);
    match x.checked_mul(y) {
        Some(d) => Some(Dec { mantissa: d.mantissa(), scale: d.scale() }),
        None => None,
    }
}

/// Subtracts two decimals with `Decimal::checked_sub`, `None` on overflow.
/// Subtracting from zero gives the right operand negated, at its own scale;
/// subtracting zero from a non-zero value gives the left operand unchanged.
/// When both are non-zero and the operands aligned to the larger scale, and
/// their difference, all fit in 96 bits, the difference is exact at that
/// scale. Any result has the sign of the exact difference (or is zero).
#[verifier::external_body]
pub(crate) fn dec_checked_sub(a: Dec, b: Dec) -> (r: Option<Dec>)
    requires
        a.wf(),
        b.wf(),
    ensures
        r == decimal_checked_sub(a, b),
        a.mantissa == 0 || b.mantissa == 0 || sub_fits(a, b) ==> r == Some(exact_sub(a, b)),
        r matches Some(d) ==> d.wf() && (at_most(b, a) ==> d.mantissa >= 0) && (at_most(a, b)
            ==> d.mantissa <= 0),
{
    let x = rust_decimal::Decimal::from_i128_with_scale(a.mantissa, a.scale);
    let y = rust_decimal::Decimal::from_i128_with_scale(b.mantissa, b.scale);
    match x.checked_sub(y) {
        Some(d) => Some(Dec { mantissa: d.mantissa(), scale: d.scale() }),
        None => None,
    }
}

/// The result of `rust_decimal::Decimal::checked_div` on the two values;
/// `None` for a zero divisor or when the quotient cannot be represented.
pub uninterp spec fn decimal_checked_div(a: Dec, b: Dec) -> Option<Dec>;

/// Divides two decimals with `Decimal::checked_div`: `None` for a zero
/// divisor, zero at scale 0 for a zero dividend, and otherwise a quotient
/// (rounded to at most 28 fractional digits, left unstated beyond its sign,
/// which is that of the exact quotient or zero), or `None` when it cannot be
/// represented.
#[verifier::external_body]
pub(crate) fn dec_checked_div(a: Dec, b: Dec) -> (r: Option<Dec>)
    requires
        a.wf(),
        b.wf(),
    ensures
        r == decimal_checked_div(a, b),
        b.mantissa == 0 ==> r is None,
        a.mantissa == 0 && b.mantissa != 0 ==> r == Some(Dec { mantissa: 0, scale: 0 }),
        r matches Some(d) ==> d.wf() && (a.mantissa * b.mantissa >= 0 ==> d.mantissa >= 0) && (
        a.mantissa * b.mantissa <= 0 ==> d.mantissa <= 0),
{
    let x = rust_decimal::Decimal::from_i128_with_scale(a.mantissa, a.scale);
    let y = rust_decimal::Decimal::from_i128_with_scale(b.mantissa, b.scale);
    match x.checked_div(y) {
        Some(d) => Some(Dec { mantissa: d.mantissa(), scale: d.scale() }),
        None => None,
    }
}

/// Unary `-` on a decimal: the sign flips and the scale stays.
#[verifier::external_body]
pub(crate) fn dec_neg(a: Dec) -> (r: Dec)
    requires
        a.wf(),
    ensures
        r.mantissa == -a.mantissa,
        r.scale == a.scale,
        r.wf(),
{
    let d = -rust_decimal::Decimal::from_i128_with_scale(a.mantissa, a.scale);
    Dec { mantissa: d.mantissa(), scale: d.scale() }
}

/// `Decimal::min`: the smaller value, the left operand on a tie.
#[verifier::external_body]
pub(crate) fn dec_min(a: Dec, b: Dec) -> (r: Dec)
    requires
        a.wf(),
        b.wf(),
    ensures
        r == min_spec(a, b),
{
    let x = rust_decimal::Decimal::from_i128_with_scale(a.mantissa, a.scale);
    let y = rust_decimal::Decimal::from_i128_with_scale(b.mantissa, b.scale);
    let d = x.min(y);
    Dec { mantissa: d.mantissa(), scale: d.scale() }
}

/// `Decimal::round_dp`: banker's rounding to `dp` fractional digits; a value
/// with at most `dp` fractional digits is returned unchanged.
#[verifier::external_body]
pub(crate) fn dec_round_dp(a: Dec, dp: u32) -> (r: Dec)
    requires
        a.wf(),
    ensures
        r == round_dp_spec(a, dp),
        r.wf(),
{
    let d = rust_decimal::Decimal::from_i128_with_scale(a.mantissa, a.scale).round_dp(dp);
    Dec { mantissa: d.mantissa(), scale: d.scale() }
}

/// `Decimal::normalize`: the same number with trailing fractional zeros
/// stripped, and zero held as mantissa 0 at scale 0.
#[verifier::external_body]
pub(crate) fn dec_normalize(a: Dec) -> (r: Dec)
    requires
        a.wf(),
    ensures
        same_value(r, a),
        r.mantissa == 0 ==> r.scale == 0,
        r.scale > 0 ==> r.mantissa % 10 != 0,
        r.scale <= a.scale,
        r.wf(),
{
    let d = rust_decimal::Decimal::from_i128_with_scale(a.mantissa, a.scale).normalize();
    Dec { mantissa: d.mantissa(), scale: d.scale() }
}

/// `==` on decimals, which compares the numbers (so `0.5 == 0.50`).
#[verifier::external_body]
pub(crate) fn dec_eq(a: Dec, b: Dec) -> (r: bool)
    requires
        a.wf(),
        b.wf(),
    ensures
        r == same_value(a, b),
{
    rust_decimal::Decimal::from_i128_with_scale(a.mantissa, a.scale)
        == rust_decimal::Decimal::from_i128_with_scale(b.mantissa, b.scale)
}

/// `<` on decimals, which compares the numbers.
#[verifier::external_body]
pub(crate) fn dec_lt(a: Dec, b: Dec) -> (r: bool)
    requires
        a.wf(),
        b.wf(),
    ensures
        r == less_than(a, b),
{
    rust_decimal::Decimal::from_i128_with_scale(a.mantissa, a.scale)
        < rust_decimal::Decimal::from_i128_with_scale(b.mantissa, b.scale)
}

/// `<=` on decimals, which compares the numbers.
#[verifier::external_body]
pub(crate) fn dec_le(a: Dec, b: Dec) -> (r: bool)
    requires
        a.wf(),
        b.wf(),
    ensures
        r == at_most(a, b),
{
    rust_decimal::Decimal::from_i128_with_scale(a.mantissa, a.scale)
        <= rust_decimal::Decimal::from_i128_with_scale(b.mantissa, b.scale)
}

} // verus!
