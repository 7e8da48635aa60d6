//! A plain-value model of `nautilus_model`'s `Currency` and `Money`, and the
//! two conversions between money and decimals that the fee models use. The
//! conversions are carried out by `nautilus_model` itself.

use vstd::prelude::*;
use crate::decimal::{Dec, pow10, round_half_even, div_toward_zero, lemma_pow10_pos, lemma_round_half_even_sign};
use nautilus_model::enums::CurrencyType as ModelCurrencyType;
use nautilus_model::types::{Currency as ModelCurrency, Money as ModelMoney};
use rust_decimal::Decimal;

verus! {

/// The fixed-point precision of a money raw value (standard precision).
pub const FIXED_PRECISION: u8 = 9;

/// The largest raw money value (`9_223_372_036` units at scale 10^9).
pub const MONEY_RAW_MAX: i64 = 9223372036000000000;

/// The smallest raw money value.
pub const MONEY_RAW_MIN: i64 = -9223372036000000000;

#[verifier::external_type_specification]
#[verifier::external_body]
pub struct ExCorrectnessError(nautilus_core::correctness::CorrectnessError);

/// The category of a currency.
#[derive(Clone, Copy, Debug, PartialEq, Eq)]
pub enum CurrencyType {
    Crypto,
    Fiat,
    CommodityBacked,
}

/// A currency, held as the plain values of `nautilus_model`'s `Currency`.
#[derive(Debug)]
pub struct Currency {
    pub code: String,
    pub precision: u8,
    pub iso4217: u16,
    pub name: String,
    pub currency_type: CurrencyType,
}

impl Currency {
    /// The currencies `nautilus_model` admits: at most 9 decimal places.
    pub open spec fn wf(self) -> bool {
        self.precision <= FIXED_PRECISION
    }

    /// A copy of this currency.
    pub fn duplicate(&self) -> (c: Currency)
        ensures
            c == *self,
    {
        Currency {
            code: self.code.clone(),
            precision: self.precision,
            iso4217: self.iso4217,
            name: self.name.clone(),
            currency_type: self.currency_type,
        }
    }
}

/// An amount of money: `raw / 10^9` units of `currency`.
#[derive(Debug)]
pub struct Money {
    pub raw: i64,
    pub currency: Currency,
}

impl Money {
    /// The values `nautilus_model`'s `Money` admits.
    pub open spec fn wf(self) -> bool {
        &&& MONEY_RAW_MIN <= self.raw <= MONEY_RAW_MAX
        &&& self.currency.wf()
    }

    /// Zero in `currency`, as `Money::zero` builds it.
    pub fn zero(currency: Currency) -> (m: Money)
        requires
            currency.precision <= FIXED_PRECISION,
        ensures
            m.raw == 0,
            m.currency == currency,
            m.wf(),
    {
        Money { raw: 0, currency }
    }

    /// Whether the amount is zero.
    pub fn is_zero(&self) -> (b: bool)
        ensures
            b == (self.raw == 0),
    {
        self.raw == 0
    }

    /// A copy of this amount.
    pub fn duplicate(&self) -> (m: Money)
        ensures
            m == *self,
    {
        Money { raw: self.raw, currency: self.currency.duplicate() }
    }
}

/// The raw value `Money::from_decimal` produces for `amount` in a currency of
/// `precision` decimal places: the amount rounded half-to-even to `precision`
/// places, at scale 10^9; `None` when the precision exceeds 9 or the raw value
/// falls outside the money bounds.
pub open spec fn money_raw_from_decimal(amount: Dec, precision: u8) -> Option<int> {
    if precision > FIXED_PRECISION {
        None
    } else {
        let raw = if amount.scale > precision {
            round_half_even(amount.mantissa as int, (amount.scale - precision) as nat) * pow10(
                (FIXED_PRECISION - precision) as nat,
            )
        } else {
            amount.mantissa * pow10((FIXED_PRECISION - amount.scale) as nat)
        };
        if MONEY_RAW_MIN <= raw <= MONEY_RAW_MAX {
            Some(raw)
        } else {
            None
        }
    }
}

/// Converting a decimal to money keeps its sign.
pub proof fn lemma_money_raw_sign(amount: Dec, precision: u8)
    ensures
        money_raw_from_decimal(amount, precision) matches Some(raw) ==> (amount.mantissa >= 0
            ==> raw >= 0) && (amount.mantissa <= 0 ==> raw <= 0),
{
    if precision <= FIXED_PRECISION {
        let f = pow10((FIXED_PRECISION - precision) as nat) as int;
        let g = pow10((FIXED_PRECISION - amount.scale) as nat) as int;
        lemma_pow10_pos((FIXED_PRECISION - precision) as nat);
        lemma_pow10_pos((FIXED_PRECISION - amount.scale) as nat);
        if amount.scale > precision {
            let r = round_half_even(amount.mantissa as int, (amount.scale - precision) as nat);
            lemma_round_half_even_sign(amount.mantissa as int, (amount.scale - precision) as nat);
            assert(r >= 0 ==> r * f >= 0) by (nonlinear_arith)
                requires
                    f > 0,
            ;
            assert(r <= 0 ==> r * f <= 0) by (nonlinear_arith)
                requires
                    f > 0,
            ;
        } else {
            let m = amount.mantissa as int;
            assert(m >= 0 ==> m * g >= 0) by (nonlinear_arith)
                requires
                    g > 0,
            ;
            assert(m <= 0 ==> m * g <= 0) by (nonlinear_arith)
                requires
                    g > 0,
            ;
        }
    }
}

/// `10^n` is a multiple of `10^4` from `n = 4` on.
pub proof fn lemma_pow10_multiple_of_10000(n: nat)
    requires
        n >= 4,
    ensures
        pow10(n) % 10000 == 0,
    decreases n,
{
    if n == 4 {
        assert(pow10(0) == 1);
        assert(pow10(1) == 10);
        assert(pow10(2) == 100);
        assert(pow10(3) == 1000);
        assert(pow10(4) == 10000);
    } else {
        lemma_pow10_multiple_of_10000((n - 1) as nat);
        let p = pow10((n - 1) as nat) as int;
        assert((10 * p) % 10000 == 0) by (nonlinear_arith)
            requires
                p % 10000 == 0,
        {
            assert(p == 10000 * (p / 10000));
            assert(10 * p == 10000 * (10 * (p / 10000)));
        }
    }
}

/// A decimal with at most 5 fractional digits becomes money in whole
/// hundred-thousandths: its raw value is a multiple of `10^4`.
pub proof fn lemma_money_raw_granularity(amount: Dec, precision: u8)
    requires
        amount.scale <= 5,
    ensures
        money_raw_from_decimal(amount, precision) matches Some(raw) ==> raw % 10000 == 0,
{
    if precision <= FIXED_PRECISION {
        if amount.scale > precision {
            let r = round_half_even(amount.mantissa as int, (amount.scale - precision) as nat);
            let f = pow10((FIXED_PRECISION - precision) as nat) as int;
            lemma_pow10_multiple_of_10000((FIXED_PRECISION - precision) as nat);
            assert((r * f) % 10000 == 0) by (nonlinear_arith)
                requires
                    f % 10000 == 0,
            {
                assert(f == 10000 * (f / 10000));
                assert(r * f == 10000 * (r * (f / 10000)));
            }
        } else {
            let m = amount.mantissa as int;
            let g = pow10((FIXED_PRECISION - amount.scale) as nat) as int;
            lemma_pow10_multiple_of_10000((FIXED_PRECISION - amount.scale) as nat);
            assert((m * g) % 10000 == 0) by (nonlinear_arith)
                requires
                    g % 10000 == 0,
            {
                assert(g == 10000 * (g / 10000));
                assert(m * g == 10000 * (m * (g / 10000)));
            }
        }
    }
}

/// The decimal `Money::as_decimal` returns for a raw value in a currency of
/// `precision` places: the raw value cut (toward zero) to `precision` places.
pub open spec fn money_as_decimal_spec(raw: int, precision: u8) -> Dec {
    Dec {
        mantissa: div_toward_zero(raw, pow10((FIXED_PRECISION - precision) as nat) as int) as i128,
        scale: precision as u32,
    }
}

/// `Money::from_decimal`: the raw value of `amount` in `currency`, rounded
/// half-to-even to the currency's precision; an error when the precision
/// exceeds 9 or the amount is outside the money bounds.
#[verifier::external_body]
pub(crate) fn money_from_decimal(amount: Dec, currency: &Currency) -> (r: Result<
    i64,
    nautilus_core::correctness::CorrectnessError,
>)
    requires
        amount.wf(),
    ensures
        match money_raw_from_decimal(amount, currency.precision) {
            Some(raw) => r matches Ok(v) && v == raw,
            None => r is Err,
        },
{
    let c = currency;
    let currency_type = match c.currency_type {
        CurrencyType::Crypto => ModelCurrencyType::Crypto,
        CurrencyType::Fiat => ModelCurrencyType::Fiat,
        CurrencyType::CommodityBacked => ModelCurrencyType::CommodityBacked,
    };
    let (code, name) = (c.code.as_str().into(), c.name.as_str().into());
    let currency = ModelCurrency { code, precision: c.precision, iso4217: c.iso4217, name, currency_type };
    let d = Decimal::from_i128_with_scale(amount.mantissa, amount.scale);
    match ModelMoney::from_decimal(d, currency) {
        Ok(m) => Ok(m.raw),
        Err(e) => Err(e),
    }
}

/// `Money::as_decimal`: the amount as a decimal at the currency's precision.
#[verifier::external_body]
pub(crate) fn money_as_decimal(m: &Money) -> (d: Dec)
    requires
        m.wf(),
    ensures
        d == money_as_decimal_spec(m.raw as int, m.currency.precision),
        d.wf(),
{
    let c = &m.currency;
    let currency_type = match c.currency_type {
        CurrencyType::Crypto => ModelCurrencyType::Crypto,
        CurrencyType::Fiat => ModelCurrencyType::Fiat,
        CurrencyType::CommodityBacked => ModelCurrencyType::CommodityBacked,
    };
    let (code, name) = (c.code.as_str().into(), c.name.as_str().into());
    let currency = ModelCurrency { code, precision: c.precision, iso4217: c.iso4217, name, currency_type };
    let d = ModelMoney::from_raw(m.raw, currency).as_decimal();
    Dec { mantissa: d.mantissa(), scale: d.scale() }
}

} // verus!
