//! Commission models: what a fill costs (or, for a maker rebate, earns).
//!
//! The models read a few plain facts of the order, the fill and the
//! instrument ([`OrderInfo`], [`FillInfo`], [`InstrumentInfo`]); every
//! decimal and money operation goes through `rust_decimal` and
//! `nautilus_model` (see [`crate::decimal`] and [`crate::money`]).

use vstd::prelude::*;
use crate::decimal::{
    Dec, pow10, same_value, at_most, min_spec, round_dp_spec, decimal_checked_mul,
    decimal_checked_sub, decimal_checked_div, dec_checked_mul, dec_checked_sub, dec_checked_div, dec_neg, dec_min, dec_round_dp,
    dec_normalize, dec_eq, dec_lt, dec_le, lemma_same_value_trans, lemma_same_value_sym,
    lemma_round_half_even_sign, less_than, mul_fits, exact_mul, sub_fits, exact_sub, aligned_scale, mantissa_at,
};
use crate::money::{Currency, Money, money_raw_from_decimal, money_from_decimal, money_as_decimal,
    money_as_decimal_spec, lemma_money_raw_sign, lemma_money_raw_granularity};

verus! {

/// Which side of the book an order's fill was on.
#[derive(Clone, Copy, Debug, PartialEq, Eq)]
pub enum LiquiditySide {
    NoLiquiditySide,
    Maker,
    Taker,
}

/// What the fee models read of an order.
#[derive(Clone, Copy, Debug)]
pub struct OrderInfo {
    /// The liquidity side of the order's fill, if set.
    pub liquidity_side: Option<LiquiditySide>,
    /// The quantity filled so far, before this fill.
    pub filled_qty: Dec,
}

/// What the fee models read of a fill.
#[derive(Debug)]
pub struct FillInfo {
    /// The fill quantity.
    pub quantity: Dec,
    /// The fill price.
    pub price: Dec,
}

/// What the fee models read of an instrument.
#[derive(Debug)]
pub struct InstrumentInfo {
    /// The instrument is a crypto option or an option contract.
    pub is_option: bool,
    pub is_inverse: bool,
    /// The instrument has a base currency other than its settlement
    /// currency.
    pub is_quanto: bool,
    pub maker_fee: Dec,
    pub taker_fee: Dec,
    /// The contract multiplier.
    pub multiplier: Dec,
    pub quote_currency: Currency,
    pub base_currency: Option<Currency>,
    pub settlement_currency: Currency,
}

impl OrderInfo {
    pub open spec fn wf(self) -> bool {
        self.filled_qty.wf()
    }
}

impl FillInfo {
    pub open spec fn wf(self) -> bool {
        &&& self.quantity.wf()
        &&& self.price.wf()
    }
}

impl InstrumentInfo {
    pub open spec fn wf(self) -> bool {
        &&& self.maker_fee.wf()
        &&& self.taker_fee.wf()
        &&& self.multiplier.wf()
        &&& self.quote_currency.wf()
        &&& self.settlement_currency.wf()
        &&& (self.base_currency matches Some(c) ==> c.wf())
    }
}

/// The rate that a check refers to.
#[derive(Clone, Copy, Debug, PartialEq, Eq)]
pub enum RateName {
    MakerRate,
    TakerRate,
    CapRate,
    FeeRate,
}

/// The model that a check refers to.
#[derive(Clone, Copy, Debug, PartialEq, Eq)]
pub enum ModelName {
    CappedOptionFeeModel,
    TieredNotionalOptionFeeModel,
}

/// Why a model could not be built or a commission computed.
#[derive(Clone, Copy, Debug, PartialEq, Eq)]
pub enum FeeError {
    /// A fixed or per-contract commission was negative.
    NegativeCommission,
    /// The named rate was negative.
    NegativeRate(RateName),
    /// The order's liquidity side is unset or `NoLiquiditySide`.
    LiquiditySideNotSet,
    /// The named model requires an option instrument.
    OptionInstrumentRequired(ModelName),
    /// A non-inverse option fee needs the underlying price.
    UnderlyingPriceRequired,
    /// A decimal product or difference could not be represented.
    ArithmeticOverflow,
    /// The amount could not be represented as money in the currency.
    InvalidMoney,
    /// An inverse instrument's notional divides by a zero price.
    DivisionByZero,
    /// An inverse instrument's notional quotient could not be represented.
    DivisionOverflow,
    /// An inverse instrument has no base currency to value the notional in.
    MissingBaseCurrency,
    /// The notional could not be represented as money in its currency.
    InvalidNotional,
}

/// The commission for `amount` (when the arithmetic succeeded) in `currency`.
pub open spec fn money_result(amount: Option<Dec>, currency: Currency) -> Result<Money, FeeError> {
    match amount {
        None => Err(FeeError::ArithmeticOverflow),
        Some(d) => match money_raw_from_decimal(d, currency.precision) {
            Some(raw) => Ok(Money { raw: raw as i64, currency }),
            None => Err(FeeError::InvalidMoney),
        },
    }
}

/// The successful results of `money_result` are valid money.
pub proof fn lemma_money_result_wf(amount: Option<Dec>, currency: Currency)
    requires
        currency.wf(),
    ensures
        money_result(amount, currency) matches Ok(m) ==> m.wf() && m.currency == currency,
{
}

/// Converts `amount` to money in `currency`, as `Money::from_decimal` does.
fn to_money(amount: Option<Dec>, currency: Currency) -> (r: Result<Money, FeeError>)
    requires
        amount matches Some(d) ==> d.wf(),
        currency.wf(),
    ensures
        r == money_result(amount, currency),
{
    match amount {
        None => Err(FeeError::ArithmeticOverflow),
        Some(d) => match money_from_decimal(d, &currency) {
            Ok(raw) => Ok(Money { raw, currency }),
            Err(_) => Err(FeeError::InvalidMoney),
        },
    }
}

/// `rate` is present and negative.
pub open spec fn rate_is_negative(rate: Option<Dec>) -> bool {
    rate matches Some(r) && r.mantissa < 0
}

/// Rejects a negative rate, naming it.
pub fn check_fee_rate(rate: Option<Dec>, name: RateName) -> (r: Result<(), FeeError>)
    requires
        rate matches Some(d) ==> d.wf(),
    ensures
        r == (if rate_is_negative(rate) {
            Err(FeeError::NegativeRate(name))
        } else {
            Ok(())
        }),
{
    match rate {
        Some(d) => {
            if dec_lt(d, Dec::zero()) {
                assert(d.mantissa < 0) by (nonlinear_arith)
                    requires
                        d.mantissa * pow10(0) < 0 * d.den(),
                        pow10(0) == 1,
                ;
                Err(FeeError::NegativeRate(name))
            } else {
                assert(d.mantissa >= 0) by (nonlinear_arith)
                    requires
                        !(d.mantissa * pow10(0) < 0 * d.den()),
                        pow10(0) == 1,
                ;
                Ok(())
            }
        },
        None => Ok(()),
    }
}

/// The rate an option fee model applies to a fill: the model's own rate for
/// the fill's side when set, else the instrument's; it must not be negative.
pub open spec fn option_fee_rate_spec(
    order: OrderInfo,
    instrument: InstrumentInfo,
    maker_rate: Option<Dec>,
    taker_rate: Option<Dec>,
) -> Result<Dec, FeeError> {
    let rate = match order.liquidity_side {
        Some(LiquiditySide::Maker) => Some(
            match maker_rate {
                Some(r) => r,
                None => instrument.maker_fee,
            },
        ),
        Some(LiquiditySide::Taker) => Some(
            match taker_rate {
                Some(r) => r,
                None => instrument.taker_fee,
            },
        ),
        _ => None,
    };
    match rate {
        None => Err(FeeError::LiquiditySideNotSet),
        Some(r) => if r.mantissa < 0 {
            Err(FeeError::NegativeRate(RateName::FeeRate))
        } else {
            Ok(r)
        },
    }
}

/// The rate an option fee model applies to a fill.
fn option_fee_rate(
    order: &OrderInfo,
    instrument: &InstrumentInfo,
    maker_rate: Option<Dec>,
    taker_rate: Option<Dec>,
) -> (r: Result<Dec, FeeError>)
    requires
        instrument.wf(),
        maker_rate matches Some(d) ==> d.wf(),
        taker_rate matches Some(d) ==> d.wf(),
    ensures
        r == option_fee_rate_spec(*order, *instrument, maker_rate, taker_rate),
        r matches Ok(d) ==> d.wf(),
{
    let rate = match order.liquidity_side {
        Some(LiquiditySide::Maker) => match maker_rate {
            Some(r) => r,
            None => instrument.maker_fee,
        },
        Some(LiquiditySide::Taker) => match taker_rate {
            Some(r) => r,
            None => instrument.taker_fee,
        },
        _ => {
            return Err(FeeError::LiquiditySideNotSet);
        },
    };
    match check_fee_rate(Some(rate), RateName::FeeRate) {
        Err(e) => Err(e),
        Ok(()) => Ok(rate),
    }
}

/// Rejects an instrument that is not an option, naming the model.
fn check_option_instrument(instrument: &InstrumentInfo, model: ModelName) -> (r: Result<(), FeeError>)
    ensures
        r == (if instrument.is_option {
            Ok(())
        } else {
            Err(FeeError::OptionInstrumentRequired(model))
        }),
{
    if !instrument.is_option {
        Err(FeeError::OptionInstrumentRequired(model))
    } else {
        Ok(())
    }
}

/// The currency an option commission is charged in: the settlement
/// currency for inverse instruments, else the quote currency.
pub open spec fn commission_currency_spec(instrument: InstrumentInfo) -> Currency {
    if instrument.is_inverse {
        instrument.settlement_currency
    } else {
        instrument.quote_currency
    }
}

fn commission_currency(instrument: &InstrumentInfo) -> (c: Currency)
    ensures
        c == commission_currency_spec(*instrument),
{
    if instrument.is_inverse {
        instrument.settlement_currency.duplicate()
    } else {
        instrument.quote_currency.duplicate()
    }
}

/// The notional `amount` as money in `currency`, or `InvalidNotional` when
/// it cannot be represented.
pub open spec fn notional_money(amount: Dec, currency: Currency) -> Result<Money, FeeError> {
    match money_raw_from_decimal(amount, currency.precision) {
        Some(raw) => Ok(Money { raw: raw as i64, currency }),
        None => Err(FeeError::InvalidNotional),
    }
}

/// The notional value of a fill of `quantity` at `price`: for an inverse
/// instrument `quantity * multiplier / price` in the base currency, else
/// `quantity * multiplier * price` (multiplied left to right) in the
/// settlement currency for a quanto instrument and the quote currency
/// otherwise.
pub open spec fn notional_value_spec(quantity: Dec, price: Dec, instrument: InstrumentInfo) -> Result<
    Money,
    FeeError,
> {
    match decimal_checked_mul(quantity, instrument.multiplier) {
        None => Err(FeeError::ArithmeticOverflow),
        Some(qm) => if instrument.is_inverse {
            if price.mantissa == 0 {
                Err(FeeError::DivisionByZero)
            } else {
                match decimal_checked_div(qm, price) {
                    None => Err(FeeError::DivisionOverflow),
                    Some(amount) => match instrument.base_currency {
                        None => Err(FeeError::MissingBaseCurrency),
                        Some(c) => notional_money(amount, c),
                    },
                }
            }
        } else {
            match decimal_checked_mul(qm, price) {
                None => Err(FeeError::ArithmeticOverflow),
                Some(amount) => notional_money(
                    amount,
                    if instrument.is_quanto {
                        instrument.settlement_currency
                    } else {
                        instrument.quote_currency
                    },
                ),
            }
        },
    }
}

/// The notional value of a fill of `quantity` at `price` on `instrument`.
pub fn notional_value(quantity: Dec, price: Dec, instrument: &InstrumentInfo) -> (r: Result<
    Money,
    FeeError,
>)
    requires
        quantity.wf(),
        price.wf(),
        instrument.wf(),
    ensures
        r == notional_value_spec(quantity, price, *instrument),
        r matches Ok(m) ==> m.wf(),
{
    let qm = match dec_checked_mul(quantity, instrument.multiplier) {
        None => {
            return Err(FeeError::ArithmeticOverflow);
        },
        Some(d) => d,
    };
    let (amount, currency) = if instrument.is_inverse {
        if price.is_zero() {
            return Err(FeeError::DivisionByZero);
        }
        let amount = match dec_checked_div(qm, price) {
            None => {
                return Err(FeeError::DivisionOverflow);
            },
            Some(d) => d,
        };
        let currency = match &instrument.base_currency {
            None => {
                return Err(FeeError::MissingBaseCurrency);
            },
            Some(c) => c.duplicate(),
        };
        (amount, currency)
    } else {
        let amount = match dec_checked_mul(qm, price) {
            None => {
                return Err(FeeError::ArithmeticOverflow);
            },
            Some(d) => d,
        };
        let currency = if instrument.is_quanto {
            instrument.settlement_currency.duplicate()
        } else {
            instrument.quote_currency.duplicate()
        };
        (amount, currency)
    };
    match money_from_decimal(amount, &currency) {
        Ok(raw) => Ok(Money { raw, currency }),
        Err(_) => Err(FeeError::InvalidNotional),
    }
}

/// The currency a maker/taker commission is charged in: the base currency
/// for inverse instruments, else the quote currency.
pub open spec fn maker_taker_currency_spec(instrument: InstrumentInfo) -> Currency {
    if instrument.is_inverse {
        instrument.base_currency.unwrap()
    } else {
        instrument.quote_currency
    }
}

/// The commission of the maker/taker models: the fill's notional value
/// times the rate of the fill's side, in the base currency for inverse
/// instruments and the quote currency otherwise. The notional is valued
/// first, so its failures come before a missing liquidity side.
pub open spec fn maker_taker_commission(
    maker_rate: Dec,
    taker_rate: Dec,
    order: OrderInfo,
    fill: FillInfo,
    instrument: InstrumentInfo,
) -> Result<Money, FeeError> {
    match notional_value_spec(fill.quantity, fill.price, instrument) {
        Err(e) => Err(e),
        Ok(n) => {
            let notional = money_as_decimal_spec(n.raw as int, n.currency.precision);
            let commission = match order.liquidity_side {
                Some(LiquiditySide::Maker) => Some(decimal_checked_mul(notional, maker_rate)),
                Some(LiquiditySide::Taker) => Some(decimal_checked_mul(notional, taker_rate)),
                _ => None,
            };
            match commission {
                None => Err(FeeError::LiquiditySideNotSet),
                Some(amount) => money_result(amount, maker_taker_currency_spec(instrument)),
            }
        },
    }
}

/// The maker/taker commission computation shared by both maker/taker models.
fn maker_taker_get_commission(
    maker_rate: Dec,
    taker_rate: Dec,
    order: &OrderInfo,
    fill: &FillInfo,
    instrument: &InstrumentInfo,
) -> (r: Result<Money, FeeError>)
    requires
        maker_rate.wf(),
        taker_rate.wf(),
        fill.wf(),
        instrument.wf(),
    ensures
        r == maker_taker_commission(maker_rate, taker_rate, *order, *fill, *instrument),
{
    let notional = match notional_value(fill.quantity, fill.price, instrument) {
        Err(e) => {
            return Err(e);
        },
        Ok(n) => money_as_decimal(&n),
    };
    let commission = match order.liquidity_side {
        Some(LiquiditySide::Maker) => dec_checked_mul(notional, maker_rate),
        Some(LiquiditySide::Taker) => dec_checked_mul(notional, taker_rate),
        _ => {
            return Err(FeeError::LiquiditySideNotSet);
        },
    };
    let currency = if instrument.is_inverse {
        match &instrument.base_currency {
            Some(c) => c.duplicate(),
            None => vstd::pervasive::unreached(),
        }
    } else {
        instrument.quote_currency.duplicate()
    };
    to_money(commission, currency)
}

/// A fixed commission per order: charged on every fill, or only on the
/// order's first fill when `change_commission_once` is set.
#[derive(Debug)]
pub struct FixedFeeModel {
    commission: Money,
    zero_commission: Money,
    change_commission_once: bool,
}

impl FixedFeeModel {
    pub closed spec fn commission(self) -> Money {
        self.commission
    }

    pub closed spec fn zero_commission(self) -> Money {
        self.zero_commission
    }

    pub closed spec fn change_commission_once(self) -> bool {
        self.change_commission_once
    }

    /// The model's invariant: a non-negative commission and a zero in its
    /// currency.
    pub closed spec fn wf(self) -> bool {
        &&& self.commission.wf()
        &&& self.commission.raw >= 0
        &&& self.zero_commission == Money { raw: 0, currency: self.commission.currency }
    }

    /// Creates a model charging `commission`; `change_commission_once`
    /// defaults to `true`. Fails on a negative commission.
    pub fn new(commission: Money, change_commission_once: Option<bool>) -> (r: Result<Self, FeeError>)
        requires
            commission.wf(),
        ensures
            commission.raw < 0 ==> r == Err::<Self, FeeError>(FeeError::NegativeCommission),
            commission.raw >= 0 ==> (r matches Ok(m) && m.wf() && m.commission() == commission
                && m.zero_commission() == (Money { raw: 0, currency: commission.currency })
                && m.change_commission_once() == match change_commission_once {
                Some(b) => b,
                None => true,
            }),
    {
        if commission.raw < 0 {
            return Err(FeeError::NegativeCommission);
        }
        let zero_commission = Money::zero(commission.currency.duplicate());
        Ok(FixedFeeModel {
            commission,
            zero_commission,
            change_commission_once: match change_commission_once {
                Some(b) => b,
                None => true,
            },
        })
    }

    /// The commission for a fill of `order`.
    pub open spec fn commission_spec(self, order: OrderInfo) -> Result<Money, FeeError> {
        if !self.change_commission_once() || order.filled_qty.mantissa == 0 {
            Ok(self.commission())
        } else {
            Ok(self.zero_commission())
        }
    }

    /// The full commission unless it is charged once and the order has
    /// already been (partly) filled, in which case zero.
    pub fn get_commission(&self, order: &OrderInfo, fill: &FillInfo, instrument: &InstrumentInfo) -> (r:
        Result<Money, FeeError>)
        ensures
            r == self.commission_spec(*order),
    {
        if !self.change_commission_once || order.filled_qty.is_zero() {
            Ok(self.commission.duplicate())
        } else {
            Ok(self.zero_commission.duplicate())
        }
    }
}

/// A commission per unit of filled quantity.
#[derive(Debug)]
pub struct PerContractFeeModel {
    commission: Money,
}

impl PerContractFeeModel {
    pub closed spec fn commission(self) -> Money {
        self.commission
    }

    /// The model's invariant: a valid, non-negative commission.
    pub closed spec fn wf(self) -> bool {
        &&& self.commission.wf()
        &&& self.commission.raw >= 0
    }

    /// Creates a model charging `commission` per contract. Fails on a
    /// negative commission.
    pub fn new(commission: Money) -> (r: Result<Self, FeeError>)
        requires
            commission.wf(),
        ensures
            commission.raw < 0 ==> r == Err::<Self, FeeError>(FeeError::NegativeCommission),
            commission.raw >= 0 ==> (r matches Ok(m) && m.wf() && m.commission() == commission),
    {
        if commission.raw < 0 {
            return Err(FeeError::NegativeCommission);
        }
        Ok(PerContractFeeModel { commission })
    }

    /// The commission for a fill of `quantity` contracts.
    pub open spec fn commission_spec(self, fill: FillInfo) -> Result<Money, FeeError> {
        let per_contract = money_as_decimal_spec(
            self.commission().raw as int,
            self.commission().currency.precision,
        );
        money_result(decimal_checked_mul(per_contract, fill.quantity), self.commission().currency)
    }

    /// The commission times the fill quantity, in the commission's currency.
    pub fn get_commission(&self, order: &OrderInfo, fill: &FillInfo, instrument: &InstrumentInfo) -> (r:
        Result<Money, FeeError>)
        requires
            self.wf(),
            fill.wf(),
        ensures
            r == self.commission_spec(*fill),
    {
        let total = dec_checked_mul(money_as_decimal(&self.commission), fill.quantity);
        to_money(total, self.commission.currency.duplicate())
    }
}

/// Commission at the instrument's maker or taker rate on the fill's notional.
#[derive(Clone, Copy, Debug)]
pub struct MakerTakerFeeModel;

impl MakerTakerFeeModel {
    /// The fill's notional times the instrument's maker or taker fee, by the
    /// order's liquidity side; in the base currency for inverse instruments,
    /// else the quote currency. Fails when the liquidity side is not set.
    pub fn get_commission(&self, order: &OrderInfo, fill: &FillInfo, instrument: &InstrumentInfo) -> (r:
        Result<Money, FeeError>)
        requires
            fill.wf(),
            instrument.wf(),
        ensures
            r == maker_taker_commission(
                instrument.maker_fee,
                instrument.taker_fee,
                *order,
                *fill,
                *instrument,
            ),
    {
        maker_taker_get_commission(instrument.maker_fee, instrument.taker_fee, order, fill, instrument)
    }
}

/// Maker/taker commission at rates configured on the model instead of the
/// instrument's.
#[derive(Clone, Copy, Debug)]
pub struct ConfigurableMakerTakerFeeModel {
    maker_rate: Dec,
    taker_rate: Dec,
}

impl ConfigurableMakerTakerFeeModel {
    pub closed spec fn maker_rate(self) -> Dec {
        self.maker_rate
    }

    pub closed spec fn taker_rate(self) -> Dec {
        self.taker_rate
    }

    /// The model's invariant: valid, non-negative rates.
    pub closed spec fn wf(self) -> bool {
        &&& self.maker_rate.wf()
        &&& self.taker_rate.wf()
        &&& self.maker_rate.mantissa >= 0
        &&& self.taker_rate.mantissa >= 0
    }

    /// Creates a model with the given rates. Fails on a negative rate, the
    /// maker rate checked first.
    pub fn new(maker_rate: Dec, taker_rate: Dec) -> (r: Result<Self, FeeError>)
        requires
            maker_rate.wf(),
            taker_rate.wf(),
        ensures
            maker_rate.mantissa < 0 ==> r == Err::<Self, FeeError>(
                FeeError::NegativeRate(RateName::MakerRate),
            ),
            maker_rate.mantissa >= 0 && taker_rate.mantissa < 0 ==> r == Err::<Self, FeeError>(
                FeeError::NegativeRate(RateName::TakerRate),
            ),
            maker_rate.mantissa >= 0 && taker_rate.mantissa >= 0 ==> (r matches Ok(m) && m.wf()
                && m.maker_rate() == maker_rate && m.taker_rate() == taker_rate),
    {
        match check_fee_rate(Some(maker_rate), RateName::MakerRate) {
            Err(e) => {
                return Err(e);
            },
            Ok(()) => {},
        }
        match check_fee_rate(Some(taker_rate), RateName::TakerRate) {
            Err(e) => {
                return Err(e);
            },
            Ok(()) => {},
        }
        Ok(ConfigurableMakerTakerFeeModel { maker_rate, taker_rate })
    }

    /// The fill's notional times the model's maker or taker rate, with the
    /// same currency choice and failures as [`MakerTakerFeeModel`].
    pub fn get_commission(&self, order: &OrderInfo, fill: &FillInfo, instrument: &InstrumentInfo) -> (r:
        Result<Money, FeeError>)
        requires
            self.wf(),
            fill.wf(),
            instrument.wf(),
        ensures
            r == maker_taker_commission(
                self.maker_rate(),
                self.taker_rate(),
                *order,
                *fill,
                *instrument,
            ),
    {
        maker_taker_get_commission(self.maker_rate, self.taker_rate, order, fill, instrument)
    }
}

/// The commission of [`CappedOptionFeeModel`]: per contract the smaller of
/// the rate fee (the rate alone for inverse instruments, else the rate times
/// the underlying price) and the cap fee (cap rate times the fill price),
/// times the multiplier and the fill quantity.
pub open spec fn capped_option_commission(
    maker_rate: Option<Dec>,
    taker_rate: Option<Dec>,
    cap: Dec,
    order: OrderInfo,
    fill: FillInfo,
    instrument: InstrumentInfo,
    underlying_px: Option<Dec>,
) -> Result<Money, FeeError> {
    if !instrument.is_option {
        Err(FeeError::OptionInstrumentRequired(ModelName::CappedOptionFeeModel))
    } else {
        match option_fee_rate_spec(order, instrument, maker_rate, taker_rate) {
            Err(e) => Err(e),
            Ok(rate) => {
                let rate_fee = if instrument.is_inverse {
                    Some(Some(rate))
                } else {
                    match underlying_px {
                        None => None,
                        Some(u) => Some(decimal_checked_mul(rate, u)),
                    }
                };
                match rate_fee {
                    None => Err(FeeError::UnderlyingPriceRequired),
                    Some(None) => Err(FeeError::ArithmeticOverflow),
                    Some(Some(rate_fee)) => match decimal_checked_mul(cap, fill.price) {
                        None => Err(FeeError::ArithmeticOverflow),
                        Some(cap_fee) => match decimal_checked_mul(
                            min_spec(rate_fee, cap_fee),
                            instrument.multiplier,
                        ) {
                            None => Err(FeeError::ArithmeticOverflow),
                            Some(per_contract) => money_result(
                                decimal_checked_mul(per_contract, fill.quantity),
                                commission_currency_spec(instrument),
                            ),
                        },
                    },
                }
            },
        }
    }
}

/// An option fee capped at a fraction of the option price.
#[derive(Clone, Copy, Debug)]
pub struct CappedOptionFeeModel {
    maker_rate: Option<Dec>,
    taker_rate: Option<Dec>,
    cap_rate: Dec,
}

impl CappedOptionFeeModel {
    pub closed spec fn maker_rate(self) -> Option<Dec> {
        self.maker_rate
    }

    pub closed spec fn taker_rate(self) -> Option<Dec> {
        self.taker_rate
    }

    pub closed spec fn cap(self) -> Dec {
        self.cap_rate
    }

    /// The model's invariant: valid, non-negative rates.
    pub closed spec fn wf(self) -> bool {
        &&& (self.maker_rate matches Some(r) ==> r.wf() && r.mantissa >= 0)
        &&& (self.taker_rate matches Some(r) ==> r.wf() && r.mantissa >= 0)
        &&& self.cap_rate.wf()
        &&& self.cap_rate.mantissa >= 0
    }

    /// The cap rate used when none is given: 0.125.
    pub open spec fn default_cap() -> Dec {
        Dec { mantissa: 125, scale: 3 }
    }

    /// Creates a model; unset maker/taker rates fall back to the instrument's
    /// fees and the cap rate defaults to 0.125. Fails on a negative rate,
    /// checking the maker rate, the taker rate, then the cap rate.
    pub fn new(maker_rate: Option<Dec>, taker_rate: Option<Dec>, cap_rate: Option<Dec>) -> (r: Result<
        Self,
        FeeError,
    >)
        requires
            maker_rate matches Some(d) ==> d.wf(),
            taker_rate matches Some(d) ==> d.wf(),
            cap_rate matches Some(d) ==> d.wf(),
        ensures
            ({
                let cap = match cap_rate {
                    Some(c) => c,
                    None => Self::default_cap(),
                };
                if rate_is_negative(maker_rate) {
                    r == Err::<Self, FeeError>(FeeError::NegativeRate(RateName::MakerRate))
                } else if rate_is_negative(taker_rate) {
                    r == Err::<Self, FeeError>(FeeError::NegativeRate(RateName::TakerRate))
                } else if cap.mantissa < 0 {
                    r == Err::<Self, FeeError>(FeeError::NegativeRate(RateName::CapRate))
                } else {
                    r matches Ok(m) && m.wf() && m.maker_rate() == maker_rate && m.taker_rate()
                        == taker_rate && m.cap() == cap
                }
            }),
    {
        match check_fee_rate(maker_rate, RateName::MakerRate) {
            Err(e) => {
                return Err(e);
            },
            Ok(()) => {},
        }
        match check_fee_rate(taker_rate, RateName::TakerRate) {
            Err(e) => {
                return Err(e);
            },
            Ok(()) => {},
        }
        let cap_rate = match cap_rate {
            Some(c) => c,
            None => Dec::new(125, 3),
        };
        match check_fee_rate(Some(cap_rate), RateName::CapRate) {
            Err(e) => {
                return Err(e);
            },
            Ok(()) => {},
        }
        Ok(CappedOptionFeeModel { maker_rate, taker_rate, cap_rate })
    }

    /// The model with no rates of its own and the default cap.
    pub fn default() -> (m: Self)
        ensures
            m.wf(),
            m.maker_rate() is None,
            m.taker_rate() is None,
            m.cap() == Self::default_cap(),
    {
        CappedOptionFeeModel { maker_rate: None, taker_rate: None, cap_rate: Dec::new(125, 3) }
    }

    /// The commission without an underlying price (so only inverse
    /// instruments succeed).
    pub fn get_commission(&self, order: &OrderInfo, fill: &FillInfo, instrument: &InstrumentInfo) -> (r:
        Result<Money, FeeError>)
        requires
            self.wf(),
            fill.wf(),
            instrument.wf(),
        ensures
            r == capped_option_commission(
                self.maker_rate(),
                self.taker_rate(),
                self.cap(),
                *order,
                *fill,
                *instrument,
                None,
            ),
    {
        self.get_commission_with_context(order, fill, instrument, None)
    }

    /// The capped option commission; fails on a non-option instrument, an
    /// unset liquidity side, a negative rate, or a missing underlying price
    /// for a non-inverse instrument.
    pub fn get_commission_with_context(
        &self,
        order: &OrderInfo,
        fill: &FillInfo,
        instrument: &InstrumentInfo,
        underlying_px: Option<Dec>,
    ) -> (r: Result<Money, FeeError>)
        requires
            self.wf(),
            fill.wf(),
            instrument.wf(),
            underlying_px matches Some(u) ==> u.wf(),
        ensures
            r == capped_option_commission(
                self.maker_rate(),
                self.taker_rate(),
                self.cap(),
                *order,
                *fill,
                *instrument,
                underlying_px,
            ),
    {
        match check_option_instrument(instrument, ModelName::CappedOptionFeeModel) {
            Err(e) => {
                return Err(e);
            },
            Ok(()) => {},
        }
        let rate = match option_fee_rate(order, instrument, self.maker_rate, self.taker_rate) {
            Err(e) => {
                return Err(e);
            },
            Ok(r) => r,
        };
        let multiplier = instrument.multiplier;
        let rate_fee = if instrument.is_inverse {
            rate
        } else {
            let underlying_px = match underlying_px {
                None => {
                    return Err(FeeError::UnderlyingPriceRequired);
                },
                Some(u) => u,
            };
            match dec_checked_mul(rate, underlying_px) {
                None => {
                    return Err(FeeError::ArithmeticOverflow);
                },
                Some(f) => f,
            }
        };
        let cap_fee = match dec_checked_mul(self.cap_rate, fill.price) {
            None => {
                return Err(FeeError::ArithmeticOverflow);
            },
            Some(f) => f,
        };
        let fee_per_contract = match dec_checked_mul(dec_min(rate_fee, cap_fee), multiplier) {
            None => {
                return Err(FeeError::ArithmeticOverflow);
            },
            Some(f) => f,
        };
        let total = dec_checked_mul(fee_per_contract, fill.quantity);
        to_money(total, commission_currency(instrument))
    }
}

/// The commission of [`TieredNotionalOptionFeeModel`]: the fill's notional
/// value times the rate, in the notional's currency.
pub open spec fn tiered_notional_commission(
    maker_rate: Option<Dec>,
    taker_rate: Option<Dec>,
    order: OrderInfo,
    fill: FillInfo,
    instrument: InstrumentInfo,
) -> Result<Money, FeeError> {
    if !instrument.is_option {
        Err(FeeError::OptionInstrumentRequired(ModelName::TieredNotionalOptionFeeModel))
    } else {
        match option_fee_rate_spec(order, instrument, maker_rate, taker_rate) {
            Err(e) => Err(e),
            Ok(rate) => match notional_value_spec(fill.quantity, fill.price, instrument) {
                Err(e) => Err(e),
                Ok(n) => money_result(
                    decimal_checked_mul(
                        money_as_decimal_spec(n.raw as int, n.currency.precision),
                        rate,
                    ),
                    n.currency,
                ),
            },
        }
    }
}

/// An option fee proportional to the fill's notional.
#[derive(Clone, Copy, Debug)]
pub struct TieredNotionalOptionFeeModel {
    maker_rate: Option<Dec>,
    taker_rate: Option<Dec>,
}

impl TieredNotionalOptionFeeModel {
    pub closed spec fn maker_rate(self) -> Option<Dec> {
        self.maker_rate
    }

    pub closed spec fn taker_rate(self) -> Option<Dec> {
        self.taker_rate
    }

    /// The model's invariant: valid, non-negative rates.
    pub closed spec fn wf(self) -> bool {
        &&& (self.maker_rate matches Some(r) ==> r.wf() && r.mantissa >= 0)
        &&& (self.taker_rate matches Some(r) ==> r.wf() && r.mantissa >= 0)
    }

    /// Creates a model; unset rates fall back to the instrument's fees.
    /// Fails on a negative rate, the maker rate checked first.
    pub fn new(maker_rate: Option<Dec>, taker_rate: Option<Dec>) -> (r: Result<Self, FeeError>)
        requires
            maker_rate matches Some(d) ==> d.wf(),
            taker_rate matches Some(d) ==> d.wf(),
        ensures
            if rate_is_negative(maker_rate) {
                r == Err::<Self, FeeError>(FeeError::NegativeRate(RateName::MakerRate))
            } else if rate_is_negative(taker_rate) {
                r == Err::<Self, FeeError>(FeeError::NegativeRate(RateName::TakerRate))
            } else {
                r matches Ok(m) && m.wf() && m.maker_rate() == maker_rate && m.taker_rate()
                    == taker_rate
            },
    {
        match check_fee_rate(maker_rate, RateName::MakerRate) {
            Err(e) => {
                return Err(e);
            },
            Ok(()) => {},
        }
        match check_fee_rate(taker_rate, RateName::TakerRate) {
            Err(e) => {
                return Err(e);
            },
            Ok(()) => {},
        }
        Ok(TieredNotionalOptionFeeModel { maker_rate, taker_rate })
    }

    /// The model with no rates of its own.
    pub fn default() -> (m: Self)
        ensures
            m.wf(),
            m.maker_rate() is None,
            m.taker_rate() is None,
    {
        TieredNotionalOptionFeeModel { maker_rate: None, taker_rate: None }
    }

    /// The notional commission; fails on a non-option instrument, an unset
    /// liquidity side or a negative rate.
    pub fn get_commission(&self, order: &OrderInfo, fill: &FillInfo, instrument: &InstrumentInfo) -> (r:
        Result<Money, FeeError>)
        requires
            self.wf(),
            fill.wf(),
            instrument.wf(),
        ensures
            r == tiered_notional_commission(
                self.maker_rate(),
                self.taker_rate(),
                *order,
                *fill,
                *instrument,
            ),
    {
        match check_option_instrument(instrument, ModelName::TieredNotionalOptionFeeModel) {
            Err(e) => {
                return Err(e);
            },
            Ok(()) => {},
        }
        let rate = match option_fee_rate(order, instrument, self.maker_rate, self.taker_rate) {
            Err(e) => {
                return Err(e);
            },
            Ok(r) => r,
        };
        let notional = match notional_value(fill.quantity, fill.price, instrument) {
            Err(e) => {
                return Err(e);
            },
            Ok(n) => n,
        };
        let total = dec_checked_mul(money_as_decimal(&notional), rate);
        to_money(total, notional.currency.duplicate())
    }
}

/// The maker rebate share for a Polymarket taker fee rate: 0.20 at 0.07
/// (crypto), 0.25 at 0.03, 0.04 or 0.05, and 0 for any other rate.
pub open spec fn polymarket_rebate_share_spec(fee_rate: Dec) -> Dec {
    if same_value(fee_rate, Dec { mantissa: 7, scale: 2 }) {
        Dec { mantissa: 20, scale: 2 }
    } else if same_value(fee_rate, Dec { mantissa: 3, scale: 2 }) || same_value(
        fee_rate,
        Dec { mantissa: 4, scale: 2 },
    ) || same_value(fee_rate, Dec { mantissa: 5, scale: 2 }) {
        Dec { mantissa: 25, scale: 2 }
    } else {
        Dec { mantissa: 0, scale: 0 }
    }
}

/// The maker rebate share for a Polymarket market, inferred from its taker
/// fee rate (compared by value).
pub fn polymarket_rebate_share(fee_rate: Dec) -> (r: Dec)
    requires
        fee_rate.wf(),
    ensures
        r == polymarket_rebate_share_spec(fee_rate),
        r.wf(),
{
    let rate = dec_normalize(fee_rate);
    let c7 = Dec::new(7, 2);
    let c3 = Dec::new(3, 2);
    let c4 = Dec::new(4, 2);
    let c5 = Dec::new(5, 2);
    proof {
        lemma_same_value_sym(rate, fee_rate);
        if same_value(fee_rate, c7) {
            lemma_same_value_trans(rate, fee_rate, c7);
        }
        if same_value(rate, c7) {
            lemma_same_value_trans(fee_rate, rate, c7);
        }
        if same_value(fee_rate, c3) {
            lemma_same_value_trans(rate, fee_rate, c3);
        }
        if same_value(rate, c3) {
            lemma_same_value_trans(fee_rate, rate, c3);
        }
        if same_value(fee_rate, c4) {
            lemma_same_value_trans(rate, fee_rate, c4);
        }
        if same_value(rate, c4) {
            lemma_same_value_trans(fee_rate, rate, c4);
        }
        if same_value(fee_rate, c5) {
            lemma_same_value_trans(rate, fee_rate, c5);
        }
        if same_value(rate, c5) {
            lemma_same_value_trans(fee_rate, rate, c5);
        }
    }
    if dec_eq(rate, c7) {
        Dec::new(20, 2)
    } else if dec_eq(rate, c3) || dec_eq(rate, c4) || dec_eq(rate, c5) {
        Dec::new(25, 2)
    } else {
        Dec::new(0, 0)
    }
}

/// Rounding to `dp` places keeps the sign (or gives zero).
pub proof fn lemma_round_dp_sign(a: Dec, dp: u32)
    ensures
        a.mantissa >= 0 ==> round_dp_spec(a, dp).mantissa >= 0,
        a.mantissa <= 0 ==> round_dp_spec(a, dp).mantissa <= 0,
        round_dp_spec(a, dp).scale <= dp || round_dp_spec(a, dp) == a,
{
    if a.scale > dp {
        lemma_round_half_even_sign(a.mantissa as int, (a.scale - dp) as nat);
    }
}

/// The decimal `1`.
pub open spec fn one() -> Dec {
    Dec { mantissa: 1, scale: 0 }
}

/// Polymarket's fee-equivalent of a fill: `quantity * fee_rate * p * (1 - p)`,
/// multiplied left to right.
pub open spec fn polymarket_fee_equivalent(quantity: Dec, fee_rate: Dec, p: Dec) -> Option<Dec> {
    match decimal_checked_mul(quantity, fee_rate) {
        None => None,
        Some(a) => match decimal_checked_mul(a, p) {
            None => None,
            Some(b) => match decimal_checked_sub(one(), p) {
                None => None,
                Some(c) => decimal_checked_mul(b, c),
            },
        },
    }
}

/// The commission of [`PolymarketFeeModel`]: zero when the taker fee rate is
/// not positive; for a maker fill, zero without rebates or for a rate with
/// no rebate share, else the negated rebate (fee-equivalent times share,
/// rounded to 5 places); for any other fill the fee-equivalent rounded to 5
/// places. Always in the quote currency.
pub open spec fn polymarket_commission(
    maker_rebates_enabled: bool,
    order: OrderInfo,
    fill: FillInfo,
    instrument: InstrumentInfo,
) -> Result<Money, FeeError> {
    let quote = instrument.quote_currency;
    let fee_rate = instrument.taker_fee;
    let zero = Money { raw: 0, currency: quote };
    if fee_rate.mantissa <= 0 {
        Ok(zero)
    } else {
        match polymarket_fee_equivalent(fill.quantity, fee_rate, fill.price) {
            None => Err(FeeError::ArithmeticOverflow),
            Some(fee_equivalent) => match order.liquidity_side {
                Some(LiquiditySide::Maker) => {
                    let share = polymarket_rebate_share_spec(fee_rate);
                    if !maker_rebates_enabled || share.mantissa == 0 {
                        Ok(zero)
                    } else {
                        match decimal_checked_mul(fee_equivalent, share) {
                            None => Err(FeeError::ArithmeticOverflow),
                            Some(rebate) => {
                                let rounded = round_dp_spec(rebate, 5);
                                money_result(
                                    Some(Dec { mantissa: (-rounded.mantissa) as i128, scale: rounded.scale }),
                                    quote,
                                )
                            },
                        }
                    }
                },
                _ => money_result(Some(round_dp_spec(fee_equivalent, 5)), quote),
            },
        }
    }
}

/// Polymarket's fee curve `fee = quantity * fee_rate * p * (1 - p)` with the
/// taker fee rate of the instrument; makers pay no fee and may receive a
/// rebate instead.
#[derive(Clone, Copy, Debug)]
pub struct PolymarketFeeModel {
    maker_rebates_enabled: bool,
}

impl PolymarketFeeModel {
    pub closed spec fn maker_rebates_enabled(self) -> bool {
        self.maker_rebates_enabled
    }

    /// Creates a model; maker rebates are enabled unless `Some(false)` is given.
    pub fn new(maker_rebates_enabled: Option<bool>) -> (m: Self)
        ensures
            m.maker_rebates_enabled() == match maker_rebates_enabled {
                Some(b) => b,
                None => true,
            },
    {
        PolymarketFeeModel {
            maker_rebates_enabled: match maker_rebates_enabled {
                Some(b) => b,
                None => true,
            },
        }
    }

    /// The model with maker rebates enabled.
    pub fn default() -> (m: Self)
        ensures
            m.maker_rebates_enabled(),
    {
        Self::new(None)
    }

    /// The Polymarket commission of a fill (see [`polymarket_commission`]).
    pub fn get_commission(&self, order: &OrderInfo, fill: &FillInfo, instrument: &InstrumentInfo) -> (r:
        Result<Money, FeeError>)
        requires
            fill.wf(),
            instrument.wf(),
        ensures
            r == polymarket_commission(self.maker_rebates_enabled(), *order, *fill, *instrument),
            fill.quantity.mantissa >= 0 && fill.price.mantissa >= 0 && at_most(fill.price, one())
                ==> (r matches Ok(m) ==> if order.liquidity_side == Some(LiquiditySide::Maker) {
                m.raw <= 0
            } else {
                m.raw >= 0
            }),
    {
        let quote_currency = instrument.quote_currency.duplicate();
        let taker_fee = instrument.taker_fee;
        if dec_le(taker_fee, Dec::zero()) {
            assert(taker_fee.mantissa <= 0) by (nonlinear_arith)
                requires
                    taker_fee.mantissa * pow10(0) <= 0 * taker_fee.den(),
                    pow10(0) == 1,
            ;
            return Ok(Money::zero(quote_currency));
        }
        assert(taker_fee.mantissa > 0) by (nonlinear_arith)
            requires
                !(taker_fee.mantissa * pow10(0) <= 0 * taker_fee.den()),
                pow10(0) == 1,
        ;
        let qty = fill.quantity;
        let p = fill.price;
        let fee_equivalent = match dec_checked_mul(qty, taker_fee) {
            None => {
                return Err(FeeError::ArithmeticOverflow);
            },
            Some(a) => match dec_checked_mul(a, p) {
                None => {
                    return Err(FeeError::ArithmeticOverflow);
                },
                Some(b) => match dec_checked_sub(Dec::new(1, 0), p) {
                    None => {
                        return Err(FeeError::ArithmeticOverflow);
                    },
                    Some(c) => match dec_checked_mul(b, c) {
                        None => {
                            return Err(FeeError::ArithmeticOverflow);
                        },
                        Some(f) => f,
                    },
                },
            },
        };
        proof {
            let q = qty.mantissa as int;
            let f = taker_fee.mantissa as int;
            if q >= 0 && p.mantissa >= 0 && at_most(p, one()) {
                assert(q * f >= 0) by (nonlinear_arith)
                    requires
                        q >= 0,
                        f > 0,
                ;
                assert(fee_equivalent.mantissa >= 0) by {
                    let a = decimal_checked_mul(qty, taker_fee).unwrap();
                    let b = decimal_checked_mul(a, p).unwrap();
                    let c = decimal_checked_sub(one(), p).unwrap();
                    assert(a.mantissa >= 0);
                    assert(a.mantissa * p.mantissa >= 0) by (nonlinear_arith)
                        requires
                            a.mantissa >= 0,
                            p.mantissa >= 0,
                    ;
                    assert(b.mantissa >= 0);
                    assert(c.mantissa >= 0);
                    assert(b.mantissa * c.mantissa >= 0) by (nonlinear_arith)
                        requires
                            b.mantissa >= 0,
                            c.mantissa >= 0,
                    ;
                }
            }
        }
        let amount = match order.liquidity_side {
            Some(LiquiditySide::Maker) => {
                if !self.maker_rebates_enabled {
                    return Ok(Money::zero(quote_currency));
                }
                let rebate_share = polymarket_rebate_share(taker_fee);
                if rebate_share.is_zero() {
                    return Ok(Money::zero(quote_currency));
                }
                match dec_checked_mul(fee_equivalent, rebate_share) {
                    None => {
                        return Err(FeeError::ArithmeticOverflow);
                    },
                    Some(rebate) => {
                        proof {
                            if fee_equivalent.mantissa >= 0 {
                                assert(fee_equivalent.mantissa * rebate_share.mantissa >= 0) by (nonlinear_arith)
                                    requires
                                        fee_equivalent.mantissa >= 0,
                                        rebate_share.mantissa >= 0,
                                ;
                                lemma_round_dp_sign(rebate, 5);
                            }
                        }
                        dec_neg(dec_round_dp(rebate, 5))
                    },
                }
            },
            _ => {
                proof {
                    lemma_round_dp_sign(fee_equivalent, 5);
                }
                dec_round_dp(fee_equivalent, 5)
            },
        };
        proof {
            lemma_money_raw_sign(amount, quote_currency.precision);
        }
        to_money(Some(amount), quote_currency)
    }
}

/// Any of the fee models.
#[derive(Debug)]
pub enum FeeModelAny {
    Fixed(FixedFeeModel),
    MakerTaker(MakerTakerFeeModel),
    PerContract(PerContractFeeModel),
    CappedOption(CappedOptionFeeModel),
    TieredNotionalOption(TieredNotionalOptionFeeModel),
    Polymarket(PolymarketFeeModel),
    ConfigurableMakerTaker(ConfigurableMakerTakerFeeModel),
}

impl FeeModelAny {
    /// The invariant of the model held.
    pub open spec fn wf(self) -> bool {
        match self {
            FeeModelAny::Fixed(m) => m.wf(),
            FeeModelAny::MakerTaker(_) => true,
            FeeModelAny::PerContract(m) => m.wf(),
            FeeModelAny::CappedOption(m) => m.wf(),
            FeeModelAny::TieredNotionalOption(m) => m.wf(),
            FeeModelAny::Polymarket(_) => true,
            FeeModelAny::ConfigurableMakerTaker(m) => m.wf(),
        }
    }

    /// What the inputs must satisfy for the model held: valid values.
    pub open spec fn accepts(self, order: OrderInfo, fill: FillInfo, instrument: InstrumentInfo) -> bool {
        &&& fill.wf()
        &&& instrument.wf()
    }

    /// The commission of the model held; only the capped option model reads
    /// the underlying price.
    pub open spec fn commission_spec(
        self,
        order: OrderInfo,
        fill: FillInfo,
        instrument: InstrumentInfo,
        underlying_px: Option<Dec>,
    ) -> Result<Money, FeeError> {
        match self {
            FeeModelAny::Fixed(m) => m.commission_spec(order),
            FeeModelAny::MakerTaker(_) => maker_taker_commission(
                instrument.maker_fee,
                instrument.taker_fee,
                order,
                fill,
                instrument,
            ),
            FeeModelAny::PerContract(m) => m.commission_spec(fill),
            FeeModelAny::CappedOption(m) => capped_option_commission(
                m.maker_rate(),
                m.taker_rate(),
                m.cap(),
                order,
                fill,
                instrument,
                underlying_px,
            ),
            FeeModelAny::TieredNotionalOption(m) => tiered_notional_commission(
                m.maker_rate(),
                m.taker_rate(),
                order,
                fill,
                instrument,
            ),
            FeeModelAny::Polymarket(m) => polymarket_commission(
                m.maker_rebates_enabled(),
                order,
                fill,
                instrument,
            ),
            FeeModelAny::ConfigurableMakerTaker(m) => maker_taker_commission(
                m.maker_rate(),
                m.taker_rate(),
                order,
                fill,
                instrument,
            ),
        }
    }

    /// The default model: maker/taker at the instrument's fees.
    pub fn default() -> (m: Self)
        ensures
            m is MakerTaker,
    {
        FeeModelAny::MakerTaker(MakerTakerFeeModel)
    }

    /// The commission of the model held, without an underlying price.
    pub fn get_commission(&self, order: &OrderInfo, fill: &FillInfo, instrument: &InstrumentInfo) -> (r:
        Result<Money, FeeError>)
        requires
            self.wf(),
            self.accepts(*order, *fill, *instrument),
        ensures
            r == self.commission_spec(*order, *fill, *instrument, None),
    {
        match self {
            FeeModelAny::Fixed(m) => m.get_commission(order, fill, instrument),
            FeeModelAny::MakerTaker(m) => m.get_commission(order, fill, instrument),
            FeeModelAny::PerContract(m) => m.get_commission(order, fill, instrument),
            FeeModelAny::CappedOption(m) => m.get_commission(order, fill, instrument),
            FeeModelAny::TieredNotionalOption(m) => m.get_commission(order, fill, instrument),
            FeeModelAny::Polymarket(m) => m.get_commission(order, fill, instrument),
            FeeModelAny::ConfigurableMakerTaker(m) => m.get_commission(order, fill, instrument),
        }
    }

    /// The commission of the model held, with the underlying price when known.
    pub fn get_commission_with_context(
        &self,
        order: &OrderInfo,
        fill: &FillInfo,
        instrument: &InstrumentInfo,
        underlying_px: Option<Dec>,
    ) -> (r: Result<Money, FeeError>)
        requires
            self.wf(),
            self.accepts(*order, *fill, *instrument),
            underlying_px matches Some(u) ==> u.wf(),
        ensures
            r == self.commission_spec(*order, *fill, *instrument, underlying_px),
    {
        match self {
            FeeModelAny::Fixed(m) => m.get_commission(order, fill, instrument),
            FeeModelAny::MakerTaker(m) => m.get_commission(order, fill, instrument),
            FeeModelAny::PerContract(m) => m.get_commission(order, fill, instrument),
            FeeModelAny::CappedOption(m) => m.get_commission_with_context(
                order,
                fill,
                instrument,
                underlying_px,
            ),
            FeeModelAny::TieredNotionalOption(m) => m.get_commission(order, fill, instrument),
            FeeModelAny::Polymarket(m) => m.get_commission(order, fill, instrument),
            FeeModelAny::ConfigurableMakerTaker(m) => m.get_commission(order, fill, instrument),
        }
    }
}

/// A commission model for fills.
pub trait FeeModel {
    /// The model's own invariant.
    spec fn valid(&self) -> bool;

    /// The inputs the model can price: valid values (and the model's own
    /// invariant).
    spec fn accepts(&self, order: OrderInfo, fill: FillInfo, instrument: InstrumentInfo) -> bool;

    /// The commission of a fill, given the underlying price when known.
    spec fn commission(
        &self,
        order: OrderInfo,
        fill: FillInfo,
        instrument: InstrumentInfo,
        underlying_px: Option<Dec>,
    ) -> Result<Money, FeeError>;

    /// Calculates the commission for a fill.
    fn get_commission(&self, order: &OrderInfo, fill: &FillInfo, instrument: &InstrumentInfo) -> (r:
        Result<Money, FeeError>)
        requires
            self.accepts(*order, *fill, *instrument),
        ensures
            r == self.commission(*order, *fill, *instrument, None),
    ;

    /// Calculates the commission for a fill with the underlying price.
    fn get_commission_with_context(
        &self,
        order: &OrderInfo,
        fill: &FillInfo,
        instrument: &InstrumentInfo,
        underlying_px: Option<Dec>,
    ) -> (r: Result<Money, FeeError>)
        requires
            self.accepts(*order, *fill, *instrument),
            underlying_px matches Some(u) ==> u.wf(),
        ensures
            r == self.commission(*order, *fill, *instrument, underlying_px),
    ;
}

impl FeeModel for FeeModelAny {
    open spec fn valid(&self) -> bool {
        self.wf()
    }

    open spec fn accepts(&self, order: OrderInfo, fill: FillInfo, instrument: InstrumentInfo) -> bool {
        self.wf() && FeeModelAny::accepts(*self, order, fill, instrument)
    }

    open spec fn commission(
        &self,
        order: OrderInfo,
        fill: FillInfo,
        instrument: InstrumentInfo,
        underlying_px: Option<Dec>,
    ) -> Result<Money, FeeError> {
        self.commission_spec(order, fill, instrument, underlying_px)
    }

    fn get_commission(&self, order: &OrderInfo, fill: &FillInfo, instrument: &InstrumentInfo) -> (r:
        Result<Money, FeeError>) {
        FeeModelAny::get_commission(self, order, fill, instrument)
    }

    fn get_commission_with_context(
        &self,
        order: &OrderInfo,
        fill: &FillInfo,
        instrument: &InstrumentInfo,
        underlying_px: Option<Dec>,
    ) -> (r: Result<Money, FeeError>) {
        FeeModelAny::get_commission_with_context(self, order, fill, instrument, underlying_px)
    }
}

impl FeeModel for FixedFeeModel {
    open spec fn valid(&self) -> bool {
        self.wf()
    }

    open spec fn accepts(&self, order: OrderInfo, fill: FillInfo, instrument: InstrumentInfo) -> bool {
        self.wf()
    }

    open spec fn commission(
        &self,
        order: OrderInfo,
        fill: FillInfo,
        instrument: InstrumentInfo,
        underlying_px: Option<Dec>,
    ) -> Result<Money, FeeError> {
        self.commission_spec(order)
    }

    fn get_commission(&self, order: &OrderInfo, fill: &FillInfo, instrument: &InstrumentInfo) -> (r:
        Result<Money, FeeError>) {
        FixedFeeModel::get_commission(self, order, fill, instrument)
    }

    fn get_commission_with_context(
        &self,
        order: &OrderInfo,
        fill: &FillInfo,
        instrument: &InstrumentInfo,
        underlying_px: Option<Dec>,
    ) -> (r: Result<Money, FeeError>) {
        FixedFeeModel::get_commission(self, order, fill, instrument)
    }
}

impl FeeModel for PerContractFeeModel {
    open spec fn valid(&self) -> bool {
        self.wf()
    }

    open spec fn accepts(&self, order: OrderInfo, fill: FillInfo, instrument: InstrumentInfo) -> bool {
        self.wf() && fill.wf()
    }

    open spec fn commission(
        &self,
        order: OrderInfo,
        fill: FillInfo,
        instrument: InstrumentInfo,
        underlying_px: Option<Dec>,
    ) -> Result<Money, FeeError> {
        self.commission_spec(fill)
    }

    fn get_commission(&self, order: &OrderInfo, fill: &FillInfo, instrument: &InstrumentInfo) -> (r:
        Result<Money, FeeError>) {
        PerContractFeeModel::get_commission(self, order, fill, instrument)
    }

    fn get_commission_with_context(
        &self,
        order: &OrderInfo,
        fill: &FillInfo,
        instrument: &InstrumentInfo,
        underlying_px: Option<Dec>,
    ) -> (r: Result<Money, FeeError>) {
        PerContractFeeModel::get_commission(self, order, fill, instrument)
    }
}

impl FeeModel for MakerTakerFeeModel {
    open spec fn valid(&self) -> bool {
        true
    }

    open spec fn accepts(&self, order: OrderInfo, fill: FillInfo, instrument: InstrumentInfo) -> bool {
        fill.wf() && instrument.wf()
    }

    open spec fn commission(
        &self,
        order: OrderInfo,
        fill: FillInfo,
        instrument: InstrumentInfo,
        underlying_px: Option<Dec>,
    ) -> Result<Money, FeeError> {
        maker_taker_commission(instrument.maker_fee, instrument.taker_fee, order, fill, instrument)
    }

    fn get_commission(&self, order: &OrderInfo, fill: &FillInfo, instrument: &InstrumentInfo) -> (r:
        Result<Money, FeeError>) {
        MakerTakerFeeModel::get_commission(self, order, fill, instrument)
    }

    fn get_commission_with_context(
        &self,
        order: &OrderInfo,
        fill: &FillInfo,
        instrument: &InstrumentInfo,
        underlying_px: Option<Dec>,
    ) -> (r: Result<Money, FeeError>) {
        MakerTakerFeeModel::get_commission(self, order, fill, instrument)
    }
}

impl FeeModel for ConfigurableMakerTakerFeeModel {
    open spec fn valid(&self) -> bool {
        self.wf()
    }

    open spec fn accepts(&self, order: OrderInfo, fill: FillInfo, instrument: InstrumentInfo) -> bool {
        self.wf() && fill.wf() && instrument.wf()
    }

    open spec fn commission(
        &self,
        order: OrderInfo,
        fill: FillInfo,
        instrument: InstrumentInfo,
        underlying_px: Option<Dec>,
    ) -> Result<Money, FeeError> {
        maker_taker_commission(self.maker_rate(), self.taker_rate(), order, fill, instrument)
    }

    fn get_commission(&self, order: &OrderInfo, fill: &FillInfo, instrument: &InstrumentInfo) -> (r:
        Result<Money, FeeError>) {
        ConfigurableMakerTakerFeeModel::get_commission(self, order, fill, instrument)
    }

    fn get_commission_with_context(
        &self,
        order: &OrderInfo,
        fill: &FillInfo,
        instrument: &InstrumentInfo,
        underlying_px: Option<Dec>,
    ) -> (r: Result<Money, FeeError>) {
        ConfigurableMakerTakerFeeModel::get_commission(self, order, fill, instrument)
    }
}

impl FeeModel for CappedOptionFeeModel {
    open spec fn valid(&self) -> bool {
        self.wf()
    }

    open spec fn accepts(&self, order: OrderInfo, fill: FillInfo, instrument: InstrumentInfo) -> bool {
        self.wf() && fill.wf() && instrument.wf()
    }

    open spec fn commission(
        &self,
        order: OrderInfo,
        fill: FillInfo,
        instrument: InstrumentInfo,
        underlying_px: Option<Dec>,
    ) -> Result<Money, FeeError> {
        capped_option_commission(self.maker_rate(), self.taker_rate(), self.cap(), order, fill, instrument, underlying_px)
    }

    fn get_commission(&self, order: &OrderInfo, fill: &FillInfo, instrument: &InstrumentInfo) -> (r:
        Result<Money, FeeError>) {
        CappedOptionFeeModel::get_commission(self, order, fill, instrument)
    }

    fn get_commission_with_context(
        &self,
        order: &OrderInfo,
        fill: &FillInfo,
        instrument: &InstrumentInfo,
        underlying_px: Option<Dec>,
    ) -> (r: Result<Money, FeeError>) {
        CappedOptionFeeModel::get_commission_with_context(self, order, fill, instrument, underlying_px)
    }
}

impl FeeModel for TieredNotionalOptionFeeModel {
    open spec fn valid(&self) -> bool {
        self.wf()
    }

    open spec fn accepts(&self, order: OrderInfo, fill: FillInfo, instrument: InstrumentInfo) -> bool {
        self.wf() && fill.wf() && instrument.wf()
    }

    open spec fn commission(
        &self,
        order: OrderInfo,
        fill: FillInfo,
        instrument: InstrumentInfo,
        underlying_px: Option<Dec>,
    ) -> Result<Money, FeeError> {
        tiered_notional_commission(self.maker_rate(), self.taker_rate(), order, fill, instrument)
    }

    fn get_commission(&self, order: &OrderInfo, fill: &FillInfo, instrument: &InstrumentInfo) -> (r:
        Result<Money, FeeError>) {
        TieredNotionalOptionFeeModel::get_commission(self, order, fill, instrument)
    }

    fn get_commission_with_context(
        &self,
        order: &OrderInfo,
        fill: &FillInfo,
        instrument: &InstrumentInfo,
        underlying_px: Option<Dec>,
    ) -> (r: Result<Money, FeeError>) {
        TieredNotionalOptionFeeModel::get_commission(self, order, fill, instrument)
    }
}

impl FeeModel for PolymarketFeeModel {
    open spec fn valid(&self) -> bool {
        true
    }

    open spec fn accepts(&self, order: OrderInfo, fill: FillInfo, instrument: InstrumentInfo) -> bool {
        fill.wf() && instrument.wf()
    }

    open spec fn commission(
        &self,
        order: OrderInfo,
        fill: FillInfo,
        instrument: InstrumentInfo,
        underlying_px: Option<Dec>,
    ) -> Result<Money, FeeError> {
        polymarket_commission(self.maker_rebates_enabled(), order, fill, instrument)
    }

    fn get_commission(&self, order: &OrderInfo, fill: &FillInfo, instrument: &InstrumentInfo) -> (r:
        Result<Money, FeeError>) {
        PolymarketFeeModel::get_commission(self, order, fill, instrument)
    }

    fn get_commission_with_context(
        &self,
        order: &OrderInfo,
        fill: &FillInfo,
        instrument: &InstrumentInfo,
        underlying_px: Option<Dec>,
    ) -> (r: Result<Money, FeeError>) {
        PolymarketFeeModel::get_commission(self, order, fill, instrument)
    }
}

/// The configurable maker/taker model computes exactly what the maker/taker
/// model computes when configured with the instrument's own rates.
pub proof fn lemma_configurable_matches_maker_taker(
    model: ConfigurableMakerTakerFeeModel,
    order: OrderInfo,
    fill: FillInfo,
    instrument: InstrumentInfo,
)
    requires
        model.maker_rate() == instrument.maker_fee,
        model.taker_rate() == instrument.taker_fee,
    ensures
        FeeModelAny::ConfigurableMakerTaker(model).commission_spec(order, fill, instrument, None)
            == FeeModelAny::MakerTaker(MakerTakerFeeModel).commission_spec(
            order,
            fill,
            instrument,
            None,
        ),
{
}

/// Once the fill's notional can be valued, a maker/taker commission fails
/// for want of a liquidity side exactly when the fill is neither maker nor
/// taker.
pub proof fn lemma_maker_taker_needs_liquidity_side(
    maker_rate: Dec,
    taker_rate: Dec,
    order: OrderInfo,
    fill: FillInfo,
    instrument: InstrumentInfo,
)
    requires
        notional_value_spec(fill.quantity, fill.price, instrument) is Ok,
    ensures
        (maker_taker_commission(maker_rate, taker_rate, order, fill, instrument)
            == Err::<Money, FeeError>(FeeError::LiquiditySideNotSet)) <==> !(order.liquidity_side
            == Some(LiquiditySide::Maker) || order.liquidity_side == Some(LiquiditySide::Taker)),
{
}

/// Only the capped option model reads the underlying price: for every other
/// model the commission with context is the commission without it.
pub proof fn lemma_context_only_for_capped(
    model: FeeModelAny,
    order: OrderInfo,
    fill: FillInfo,
    instrument: InstrumentInfo,
    underlying_px: Option<Dec>,
)
    requires
        !(model is CappedOption),
    ensures
        model.commission_spec(order, fill, instrument, underlying_px) == model.commission_spec(
            order,
            fill,
            instrument,
            None,
        ),
{
}

/// The option fee models reject any instrument that is not an option,
/// whatever the order and fill.
pub proof fn lemma_option_models_require_options(
    model: FeeModelAny,
    order: OrderInfo,
    fill: FillInfo,
    instrument: InstrumentInfo,
    underlying_px: Option<Dec>,
)
    requires
        !instrument.is_option,
    ensures
        model is CappedOption ==> model.commission_spec(order, fill, instrument, underlying_px)
            == Err::<Money, FeeError>(
            FeeError::OptionInstrumentRequired(ModelName::CappedOptionFeeModel),
        ),
        model is TieredNotionalOption ==> model.commission_spec(
            order,
            fill,
            instrument,
            underlying_px,
        ) == Err::<Money, FeeError>(
            FeeError::OptionInstrumentRequired(ModelName::TieredNotionalOptionFeeModel),
        ),
{
}

/// A per-contract commission does not depend on the fill price: two fills of
/// the same quantity cost the same. When the product needs no rescaling it
/// is exactly the per-contract amount times the quantity, in the
/// commission's currency.
pub proof fn lemma_per_contract_ignores_price(
    model: PerContractFeeModel,
    fill: FillInfo,
    other: FillInfo,
)
    requires
        other.quantity == fill.quantity,
    ensures
        model.commission_spec(fill) == model.commission_spec(other),
        ({
            let per_contract = money_as_decimal_spec(
                model.commission().raw as int,
                model.commission().currency.precision,
            );
            decimal_checked_mul(per_contract, fill.quantity) == Some(
                exact_mul(per_contract, fill.quantity),
            ) ==> model.commission_spec(fill) == money_result(
                Some(exact_mul(per_contract, fill.quantity)),
                model.commission().currency,
            )
        }),
{
}

/// A maker/taker commission reads only the rate of the fill's side: a taker
/// fill costs the same whatever the maker rate, and a maker fill the same
/// whatever the taker rate, on inverse and linear instruments alike.
pub proof fn lemma_maker_taker_reads_own_side(
    maker_rate: Dec,
    other_maker_rate: Dec,
    taker_rate: Dec,
    other_taker_rate: Dec,
    order: OrderInfo,
    fill: FillInfo,
    instrument: InstrumentInfo,
)
    ensures
        order.liquidity_side == Some(LiquiditySide::Taker) ==> maker_taker_commission(
            maker_rate,
            taker_rate,
            order,
            fill,
            instrument,
        ) == maker_taker_commission(other_maker_rate, taker_rate, order, fill, instrument),
        order.liquidity_side == Some(LiquiditySide::Maker) ==> maker_taker_commission(
            maker_rate,
            taker_rate,
            order,
            fill,
            instrument,
        ) == maker_taker_commission(maker_rate, other_taker_rate, order, fill, instrument),
        ({
            let n = notional_value_spec(fill.quantity, fill.price, instrument);
            let side_rate = if order.liquidity_side == Some(LiquiditySide::Maker) {
                maker_rate
            } else {
                taker_rate
            };
            match n {
                Ok(notional) => (order.liquidity_side == Some(LiquiditySide::Maker)
                    || order.liquidity_side == Some(LiquiditySide::Taker)) ==> maker_taker_commission(
                    maker_rate,
                    taker_rate,
                    order,
                    fill,
                    instrument,
                ) == money_result(
                    decimal_checked_mul(
                        money_as_decimal_spec(notional.raw as int, notional.currency.precision),
                        side_rate,
                    ),
                    maker_taker_currency_spec(instrument),
                ),
                Err(e) => maker_taker_commission(maker_rate, taker_rate, order, fill, instrument)
                    == Err::<Money, FeeError>(e),
            }
        }),
{
}

/// `a` and `b` differ at most in their maker fee.
pub open spec fn same_but_maker_fee(a: InstrumentInfo, b: InstrumentInfo) -> bool {
    &&& a.is_option == b.is_option
    &&& a.is_inverse == b.is_inverse
    &&& a.is_quanto == b.is_quanto
    &&& a.taker_fee == b.taker_fee
    &&& a.multiplier == b.multiplier
    &&& a.quote_currency == b.quote_currency
    &&& a.base_currency == b.base_currency
    &&& a.settlement_currency == b.settlement_currency
}

/// `a` and `b` differ at most in their taker fee.
pub open spec fn same_but_taker_fee(a: InstrumentInfo, b: InstrumentInfo) -> bool {
    &&& a.is_option == b.is_option
    &&& a.is_inverse == b.is_inverse
    &&& a.is_quanto == b.is_quanto
    &&& a.maker_fee == b.maker_fee
    &&& a.multiplier == b.multiplier
    &&& a.quote_currency == b.quote_currency
    &&& a.base_currency == b.base_currency
    &&& a.settlement_currency == b.settlement_currency
}

/// The option fee models read only the rate of the fill's side: a taker
/// fill's rate is the model's taker rate, or the instrument's taker fee when
/// the model has none, so it does not change with the maker rate or the
/// instrument's maker fee; likewise for a maker fill. Hence a tiered notional
/// commission does not change either.
pub proof fn lemma_option_models_read_own_side(
    maker_rate: Option<Dec>,
    other_maker_rate: Option<Dec>,
    taker_rate: Option<Dec>,
    other_taker_rate: Option<Dec>,
    order: OrderInfo,
    fill: FillInfo,
    instrument: InstrumentInfo,
    other: InstrumentInfo,
)
    ensures
        order.liquidity_side == Some(LiquiditySide::Taker) ==> option_fee_rate_spec(
            order,
            instrument,
            maker_rate,
            taker_rate,
        ) == (match taker_rate {
            Some(r) => if r.mantissa < 0 {
                Err(FeeError::NegativeRate(RateName::FeeRate))
            } else {
                Ok(r)
            },
            None => if instrument.taker_fee.mantissa < 0 {
                Err(FeeError::NegativeRate(RateName::FeeRate))
            } else {
                Ok(instrument.taker_fee)
            },
        }),
        order.liquidity_side == Some(LiquiditySide::Maker) ==> option_fee_rate_spec(
            order,
            instrument,
            maker_rate,
            taker_rate,
        ) == (match maker_rate {
            Some(r) => if r.mantissa < 0 {
                Err(FeeError::NegativeRate(RateName::FeeRate))
            } else {
                Ok(r)
            },
            None => if instrument.maker_fee.mantissa < 0 {
                Err(FeeError::NegativeRate(RateName::FeeRate))
            } else {
                Ok(instrument.maker_fee)
            },
        }),
        order.liquidity_side == Some(LiquiditySide::Taker) && same_but_maker_fee(instrument, other)
            ==> tiered_notional_commission(maker_rate, taker_rate, order, fill, instrument)
            == tiered_notional_commission(other_maker_rate, taker_rate, order, fill, other),
        order.liquidity_side == Some(LiquiditySide::Maker) && same_but_taker_fee(instrument, other)
            ==> tiered_notional_commission(maker_rate, taker_rate, order, fill, instrument)
            == tiered_notional_commission(maker_rate, other_taker_rate, order, fill, other),
{
    if same_but_maker_fee(instrument, other) || same_but_taker_fee(instrument, other) {
        assert(notional_value_spec(fill.quantity, fill.price, instrument) == notional_value_spec(
            fill.quantity,
            fill.price,
            other,
        ));
    }
}

/// The per-contract fee of an option model before multiplier and quantity:
/// the rate alone for an inverse instrument, the rate times the underlying
/// price otherwise (`None` without an underlying price or on overflow).
pub open spec fn option_rate_fee(rate: Dec, instrument: InstrumentInfo, underlying_px: Option<Dec>) -> Option<Dec> {
    if instrument.is_inverse {
        Some(rate)
    } else {
        match underlying_px {
            Some(u) => decimal_checked_mul(rate, u),
            None => None,
        }
    }
}

/// The cap of the capped option model holds for inverse and linear
/// instruments alike: once the rate fee of either of two models exceeds the
/// cap fee (cap rate times the option price), the commission is the cap's and
/// no longer depends on the rate; and while the rate fee is at most the cap
/// fee of either of two caps, the commission no longer depends on the cap.
pub proof fn lemma_capped_option_cap_applies(
    rate: Dec,
    other_rate: Dec,
    cap: Dec,
    other_cap: Dec,
    order: OrderInfo,
    fill: FillInfo,
    instrument: InstrumentInfo,
    underlying_px: Option<Dec>,
)
    requires
        order.liquidity_side == Some(LiquiditySide::Taker),
        rate.mantissa >= 0,
        other_rate.mantissa >= 0,
    ensures
        ({
            let rf1 = option_rate_fee(rate, instrument, underlying_px);
            let rf2 = option_rate_fee(other_rate, instrument, underlying_px);
            let cf = decimal_checked_mul(cap, fill.price);
            match (rf1, rf2, cf) {
                (Some(r1), Some(r2), Some(c)) => instrument.is_option && less_than(c, r1)
                    && less_than(c, r2) ==> capped_option_commission(
                None,
                Some(rate),
                cap,
                order,
                fill,
                instrument,
                underlying_px,
            ) == capped_option_commission(
                None,
                Some(other_rate),
                cap,
                order,
                fill,
                instrument,
                underlying_px,
            ),
                _ => true,
            }
        }),
        ({
            let rf = option_rate_fee(rate, instrument, underlying_px);
            let cf1 = decimal_checked_mul(cap, fill.price);
            let cf2 = decimal_checked_mul(other_cap, fill.price);
            match (rf, cf1, cf2) {
                (Some(r), Some(c1), Some(c2)) => instrument.is_option && at_most(r, c1) && at_most(
                    r,
                    c2,
                ) ==> capped_option_commission(
                None,
                Some(rate),
                cap,
                order,
                fill,
                instrument,
                underlying_px,
            ) == capped_option_commission(
                None,
                Some(rate),
                other_cap,
                order,
                fill,
                instrument,
                underlying_px,
            ),
                _ => true,
            }
        }),
{
    crate::decimal::lemma_pow10_pos(rate.scale as nat);
    crate::decimal::lemma_pow10_pos(other_rate.scale as nat);
}

/// The capped option fee per contract (before the multiplier) is the rate
/// fee or the cap fee, and never more than either of them.
pub proof fn lemma_capped_fee_at_most_cap(rate_fee: Dec, cap_fee: Dec)
    requires
        rate_fee.wf(),
        cap_fee.wf(),
    ensures
        min_spec(rate_fee, cap_fee) == rate_fee || min_spec(rate_fee, cap_fee) == cap_fee,
        at_most(min_spec(rate_fee, cap_fee), cap_fee),
        at_most(min_spec(rate_fee, cap_fee), rate_fee),
{
    crate::decimal::lemma_pow10_pos(rate_fee.scale as nat);
    crate::decimal::lemma_pow10_pos(cap_fee.scale as nat);
}

/// Polymarket fees are charged in whole hundred-thousandths (0.00001) of the
/// quote currency: every successful commission's raw value is a multiple of
/// `10^4`.
pub proof fn lemma_polymarket_fee_granularity(
    maker_rebates_enabled: bool,
    order: OrderInfo,
    fill: FillInfo,
    instrument: InstrumentInfo,
)
    ensures
        polymarket_commission(maker_rebates_enabled, order, fill, instrument) matches Ok(m) ==> m.raw
            % 10000 == 0,
{
    let quote = instrument.quote_currency;
    if instrument.taker_fee.mantissa > 0 {
        if let Some(fe) = polymarket_fee_equivalent(fill.quantity, instrument.taker_fee, fill.price) {
            lemma_round_dp_sign(fe, 5);
            lemma_money_raw_granularity(round_dp_spec(fe, 5), quote.precision);
            if let Some(rebate) = decimal_checked_mul(
                fe,
                polymarket_rebate_share_spec(instrument.taker_fee),
            ) {
                let rounded = round_dp_spec(rebate, 5);
                lemma_round_dp_sign(rebate, 5);
                lemma_money_raw_granularity(
                    Dec { mantissa: (-rounded.mantissa) as i128, scale: rounded.scale },
                    quote.precision,
                );
            }
        }
    }
}

/// A maker fill never pays a Polymarket fee: without rebates, or for a
/// market without a rebate share, it is charged exactly zero.
pub proof fn lemma_polymarket_maker_without_rebate_is_free(
    maker_rebates_enabled: bool,
    order: OrderInfo,
    fill: FillInfo,
    instrument: InstrumentInfo,
)
    requires
        order.liquidity_side == Some(LiquiditySide::Maker),
        !maker_rebates_enabled || polymarket_rebate_share_spec(instrument.taker_fee).mantissa == 0,
    ensures
        polymarket_commission(maker_rebates_enabled, order, fill, instrument) matches Ok(m) ==> m.raw
            == 0 && m.currency == instrument.quote_currency,
{
}

/// The decimal steps of Polymarket's fee-equivalent for a fill of quantity
/// `q` at price `p` with rate `f` need no rescaling and give their exact
/// results: `(q * f) * p`, `1 - p` and their product.
pub open spec fn polymarket_steps_exact(q: Dec, f: Dec, p: Dec) -> bool {
    match decimal_checked_mul(q, f) {
        None => true,
        Some(a) => {
            let b = exact_mul(a, p);
            let c = exact_sub(one(), p);
            &&& (a.mantissa == 0 || p.mantissa == 0 || mul_fits(a, p))
            &&& decimal_checked_mul(a, p) == Some(b)
            &&& (p.mantissa == 0 || sub_fits(one(), p))
            &&& decimal_checked_sub(one(), p) == Some(c)
            &&& (b.mantissa == 0 || c.mantissa == 0 || mul_fits(b, c))
            &&& decimal_checked_mul(b, c) == Some(exact_mul(b, c))
        },
    }
}

/// Polymarket's fee curve is symmetric in `p` and `1 - p`: a fill at price
/// `p` (between 0 and 1) and a fill of the same quantity at `1 - p`, written
/// at the same scale, cost (or earn) the same, whenever the decimal steps of
/// both fee-equivalents are exact.
pub proof fn lemma_polymarket_fee_symmetric(
    maker_rebates_enabled: bool,
    order: OrderInfo,
    fill: FillInfo,
    mirrored: FillInfo,
    instrument: InstrumentInfo,
)
    requires
        mirrored.quantity == fill.quantity,
        0 <= fill.price.mantissa <= pow10(fill.price.scale as nat),
        mirrored.price.scale == fill.price.scale,
        mirrored.price.mantissa == pow10(fill.price.scale as nat) - fill.price.mantissa,
        polymarket_steps_exact(fill.quantity, instrument.taker_fee, fill.price),
        polymarket_steps_exact(fill.quantity, instrument.taker_fee, mirrored.price),
    ensures
        polymarket_commission(maker_rebates_enabled, order, fill, instrument)
            == polymarket_commission(maker_rebates_enabled, order, mirrored, instrument),
{
    let q = fill.quantity;
    let f = instrument.taker_fee;
    let p = fill.price;
    let p2 = mirrored.price;
    let s = p.scale;
    let ten_s = pow10(s as nat) as int;
    if let Some(a) = decimal_checked_mul(q, f) {
        assert(aligned_scale(one(), p) == s);
        let c1 = exact_sub(one(), p);
        let c2 = exact_sub(one(), p2);
        let b1 = exact_mul(a, p);
        let b2 = exact_mul(a, p2);
        let fe1 = exact_mul(b1, c1);
        let fe2 = exact_mul(b2, c2);
        assert(pow10(0) == 1);
        assert(mantissa_at(one(), s) == ten_s);
        assert(aligned_scale(one(), p2) == s);
        assert(pow10((s - p.scale) as nat) == 1);
        assert(mantissa_at(p, s) == p.mantissa);
        assert(pow10((s - p2.scale) as nat) == 1);
        assert(mantissa_at(p2, s) == p2.mantissa);
        if p.mantissa == 0 {
            assert(b1 == Dec { mantissa: 0, scale: 0 });
            assert(fe1 == Dec { mantissa: 0, scale: 0 });
            assert(p2.mantissa == ten_s);
            crate::decimal::lemma_pow10_pos(s as nat);
            assert(c2.mantissa == 0);
            assert(fe2 == Dec { mantissa: 0, scale: 0 });
        } else if p2.mantissa == 0 {
            assert(b2 == Dec { mantissa: 0, scale: 0 });
            assert(fe2 == Dec { mantissa: 0, scale: 0 });
            assert(p.mantissa == ten_s);
            assert(c1.mantissa == 0);
            assert(fe1 == Dec { mantissa: 0, scale: 0 });
        } else {
            assert(c1 == p2);
            assert(c2 == p);
            if a.mantissa == 0 {
                assert(fe1 == Dec { mantissa: 0, scale: 0 });
                assert(fe2 == Dec { mantissa: 0, scale: 0 });
            } else {
                let am = a.mantissa as int;
                let pm = p.mantissa as int;
                let qm = p2.mantissa as int;
                assert(am * pm != 0) by (nonlinear_arith)
                    requires
                        am != 0,
                        pm != 0,
                ;
                assert(am * qm != 0) by (nonlinear_arith)
                    requires
                        am != 0,
                        qm != 0,
                ;
                assert(b1.mantissa == am * pm);
                assert(b2.mantissa == am * qm);
                assert((am * pm) * qm == (am * qm) * pm) by (nonlinear_arith);
                assert((am * pm) * qm != 0) by (nonlinear_arith)
                    requires
                        am * pm != 0,
                        qm != 0,
                ;
                assert(fe1 == fe2);
            }
        }
        assert(fe1 == fe2);
    }
}

} // verus!
