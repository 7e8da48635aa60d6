use nautilus_calc::decimal::Dec;
use nautilus_calc::fee::{
    CappedOptionFeeModel, ConfigurableMakerTakerFeeModel, FeeError, FeeModelAny, FillInfo,
    FixedFeeModel, InstrumentInfo, LiquiditySide, MakerTakerFeeModel, ModelName, OrderInfo,
    PerContractFeeModel, PolymarketFeeModel, RateName, TieredNotionalOptionFeeModel,
    notional_value, polymarket_rebate_share,
};
use nautilus_calc::money::{Currency, CurrencyType, Money};

fn currency(code: &str, precision: u8, iso4217: u16, currency_type: CurrencyType) -> Currency {
    Currency {
        code: code.to_string(),
        precision,
        iso4217,
        name: code.to_string(),
        currency_type,
    }
}

fn usd() -> Currency {
    currency("USD", 2, 840, CurrencyType::Fiat)
}

fn aud() -> Currency {
    currency("AUD", 2, 36, CurrencyType::Fiat)
}

fn btc() -> Currency {
    currency("BTC", 8, 0, CurrencyType::Crypto)
}

fn usdc() -> Currency {
    currency("USDC", 8, 0, CurrencyType::Crypto)
}

/// `units` whole units plus `fraction / 10^9`.
fn money(raw: i64, currency: Currency) -> Money {
    Money { raw, currency }
}

const UNIT: i64 = 1_000_000_000;

/// AUD/USD: a spot pair quoted in USD with maker and taker fees of 0.00002.
fn audusd() -> InstrumentInfo {
    InstrumentInfo {
        is_option: false,
        is_inverse: false,
        is_quanto: false,
        maker_fee: Dec::new(2, 5),
        taker_fee: Dec::new(2, 5),
        multiplier: Dec::new(1, 0),
        quote_currency: usd(),
        base_currency: Some(aud()),
        settlement_currency: usd(),
    }
}

/// A BTC option on Deribit quoted in USD and settled in BTC.
fn btc_option(is_inverse: bool) -> InstrumentInfo {
    InstrumentInfo {
        is_option: true,
        is_inverse,
        is_quanto: false,
        maker_fee: Dec::new(3, 4),
        taker_fee: Dec::new(3, 4),
        multiplier: Dec::new(1, 0),
        quote_currency: usd(),
        base_currency: Some(btc()),
        settlement_currency: btc(),
    }
}

/// A Polymarket binary option with the given taker fee, quoted in USDC.
fn polymarket_market(taker_fee: Dec) -> InstrumentInfo {
    InstrumentInfo {
        is_option: false,
        is_inverse: false,
        is_quanto: false,
        maker_fee: Dec::new(0, 0),
        taker_fee,
        multiplier: Dec::new(1, 0),
        quote_currency: usdc(),
        base_currency: None,
        settlement_currency: usdc(),
    }
}

fn order(side: Option<LiquiditySide>, filled_qty: Dec) -> OrderInfo {
    OrderInfo { liquidity_side: side, filled_qty }
}

fn fill(quantity: Dec, price: Dec) -> FillInfo {
    FillInfo { quantity, price }
}

fn amount(m: &Money) -> (i64, String) {
    (m.raw, m.currency.code.clone())
}

#[test]
fn test_fixed_model_single_fill() {
    let fee_model = FixedFeeModel::new(money(UNIT, usd()), None).unwrap();
    let o = order(None, Dec::new(0, 0));
    let f = fill(Dec::new(100_000, 0), Dec::new(10, 1));
    let commission = fee_model.get_commission(&o, &f, &audusd()).unwrap();
    assert_eq!(amount(&commission), (UNIT, "USD".to_string()));
}

fn fixed_multiple_fills(charge_once: bool, expected_next: i64) {
    let fee_model = FixedFeeModel::new(money(UNIT, usd()), Some(charge_once)).unwrap();
    let f = fill(Dec::new(50_000, 0), Dec::new(10, 1));
    let first = fee_model.get_commission(&order(None, Dec::new(0, 0)), &f, &audusd()).unwrap();
    let next = fee_model.get_commission(&order(None, Dec::new(50_000, 0)), &f, &audusd()).unwrap();
    assert_eq!(first.raw, UNIT);
    assert_eq!(next.raw, expected_next);
    assert_eq!(next.currency.code, "USD");
}

#[test]
fn test_fixed_model_multiple_fills_charge_once() {
    fixed_multiple_fills(true, 0);
}

#[test]
fn test_fixed_model_multiple_fills_charge_every_fill() {
    fixed_multiple_fills(false, UNIT);
}

#[test]
fn test_fixed_model_ignores_the_notional() {
    // A zero price cannot value an inverse notional; the fixed model never needs it.
    let f = fill(Dec::new(2, 0), Dec::new(0, 0));
    let o = order(Some(LiquiditySide::Taker), Dec::new(0, 0));
    let fixed = FeeModelAny::Fixed(FixedFeeModel::new(money(UNIT, usd()), None).unwrap());
    assert_eq!(fixed.get_commission(&o, &f, &btc_option(true)).unwrap().raw, UNIT);
    let maker_taker = FeeModelAny::MakerTaker(MakerTakerFeeModel);
    assert_eq!(maker_taker.get_commission(&o, &f, &btc_option(true)).unwrap_err(), FeeError::DivisionByZero);
}

#[test]
fn test_notional_value() {
    // Linear: quantity * multiplier * price in the quote currency.
    let mut spot = audusd();
    spot.multiplier = Dec::new(10, 0);
    let n = notional_value(Dec::new(3, 0), Dec::new(125, 2), &spot).unwrap();
    assert_eq!(amount(&n), (37_500_000_000, "USD".to_string()));
    // Inverse: quantity * multiplier / price in the base currency.
    let n = notional_value(Dec::new(2, 0), Dec::new(10, 3), &btc_option(true)).unwrap();
    assert_eq!(amount(&n), (200 * UNIT, "BTC".to_string()));
    // Quanto: in the settlement currency.
    let mut quanto = audusd();
    quanto.is_quanto = true;
    quanto.settlement_currency = btc();
    let n = notional_value(Dec::new(5, 0), Dec::new(36, 3), &quanto).unwrap();
    assert_eq!(amount(&n), (180_000_000, "BTC".to_string()));
    // Failures.
    let mut no_base = btc_option(true);
    no_base.base_currency = None;
    assert_eq!(
        notional_value(Dec::new(2, 0), Dec::new(10, 3), &no_base).unwrap_err(),
        FeeError::MissingBaseCurrency
    );
    assert_eq!(
        notional_value(Dec::new(2, 0), Dec::new(0, 0), &btc_option(true)).unwrap_err(),
        FeeError::DivisionByZero
    );
    assert_eq!(
        notional_value(Dec::new(10_000_000_000, 0), Dec::new(1, 0), &audusd()).unwrap_err(),
        FeeError::InvalidNotional
    );
}

#[test]
fn test_fixed_model_negative_commission_fails() {
    let r = FixedFeeModel::new(money(-UNIT, usd()), None);
    assert_eq!(r.unwrap_err(), FeeError::NegativeCommission);
}

#[test]
fn test_maker_taker_fee_model_maker_commission() {
    let o = order(Some(LiquiditySide::Maker), Dec::new(100_000, 0));
    let f = fill(Dec::new(100_000, 0), Dec::new(10, 1));
    let commission = MakerTakerFeeModel.get_commission(&o, &f, &audusd()).unwrap();
    // 100_000 * 1.0 * 0.00002 = 2.00 USD
    assert_eq!(amount(&commission), (2 * UNIT, "USD".to_string()));
}

#[test]
fn test_maker_taker_fee_model_taker_commission() {
    let o = order(Some(LiquiditySide::Taker), Dec::new(100_000, 0));
    let f = fill(Dec::new(100_000, 0), Dec::new(10, 1));
    let commission = MakerTakerFeeModel.get_commission(&o, &f, &audusd()).unwrap();
    assert_eq!(amount(&commission), (2 * UNIT, "USD".to_string()));
}

#[test]
fn test_maker_taker_fee_model_uses_decimal_rounding() {
    // 117_250 * 1.0 * 0.00002 = 2.345, rounded half-to-even to 2.34 USD.
    let o = order(Some(LiquiditySide::Maker), Dec::new(117_250, 0));
    let f = fill(Dec::new(117_250, 0), Dec::new(10, 1));
    let commission = MakerTakerFeeModel.get_commission(&o, &f, &audusd()).unwrap();
    assert_eq!(commission.raw, 2_340_000_000);
}

#[test]
fn test_maker_taker_fee_model_requires_liquidity_side() {
    let f = fill(Dec::new(1, 0), Dec::new(10, 1));
    for side in [None, Some(LiquiditySide::NoLiquiditySide)] {
        let r = MakerTakerFeeModel.get_commission(&order(side, Dec::new(0, 0)), &f, &audusd());
        assert_eq!(r.unwrap_err(), FeeError::LiquiditySideNotSet);
    }
}

#[test]
fn test_maker_taker_fee_model_inverse_uses_base_currency() {
    let o = order(Some(LiquiditySide::Taker), Dec::new(0, 0));
    // Notional of 200 BTC; taker fee 0.0003.
    let f = fill(Dec::new(2, 0), Dec::new(10, 3));
    let commission = MakerTakerFeeModel.get_commission(&o, &f, &btc_option(true)).unwrap();
    assert_eq!(amount(&commission), (60_000_000, "BTC".to_string()));
}

#[test]
fn test_configurable_maker_taker_uses_own_rates() {
    let model = ConfigurableMakerTakerFeeModel::new(Dec::new(1, 4), Dec::new(5, 4)).unwrap();
    let f = fill(Dec::new(100_000, 0), Dec::new(10, 1));
    let maker = model.get_commission(&order(Some(LiquiditySide::Maker), Dec::new(0, 0)), &f, &audusd());
    let taker = model.get_commission(&order(Some(LiquiditySide::Taker), Dec::new(0, 0)), &f, &audusd());
    assert_eq!(maker.unwrap().raw, 10 * UNIT);
    assert_eq!(taker.unwrap().raw, 50 * UNIT);
}

#[test]
fn test_configurable_maker_taker_matches_maker_taker_at_instrument_rates() {
    let model = ConfigurableMakerTakerFeeModel::new(Dec::new(2, 5), Dec::new(2, 5)).unwrap();
    let o = order(Some(LiquiditySide::Maker), Dec::new(0, 0));
    let f = fill(Dec::new(117_250, 0), Dec::new(10, 1));
    let a = model.get_commission(&o, &f, &audusd()).unwrap();
    let b = MakerTakerFeeModel.get_commission(&o, &f, &audusd()).unwrap();
    assert_eq!(amount(&a), amount(&b));
}

#[test]
fn test_configurable_maker_taker_negative_rates_fail() {
    let r = ConfigurableMakerTakerFeeModel::new(Dec::new(-1, 4), Dec::new(-1, 4));
    assert_eq!(r.unwrap_err(), FeeError::NegativeRate(RateName::MakerRate));
    let r = ConfigurableMakerTakerFeeModel::new(Dec::new(1, 4), Dec::new(-1, 4));
    assert_eq!(r.unwrap_err(), FeeError::NegativeRate(RateName::TakerRate));
}

#[test]
fn test_per_contract_fee_model() {
    let fee_model = PerContractFeeModel::new(money(UNIT / 2, usd())).unwrap();
    let f = fill(Dec::new(100, 0), Dec::new(10, 1));
    let commission = fee_model.get_commission(&order(None, Dec::new(0, 0)), &f, &audusd()).unwrap();
    assert_eq!(amount(&commission), (50 * UNIT, "USD".to_string()));
}

#[test]
fn test_per_contract_fee_model_partial_fill() {
    let fee_model = PerContractFeeModel::new(money(1_250_000_000, usd())).unwrap();
    let f = fill(Dec::new(400, 0), Dec::new(10, 1));
    let commission = fee_model.get_commission(&order(None, Dec::new(0, 0)), &f, &audusd()).unwrap();
    assert_eq!(commission.raw, 500 * UNIT);
}

#[test]
fn test_per_contract_fee_model_uses_decimal_rounding() {
    // 0.50 * 4.69 = 2.345, rounded half-to-even to 2.34 USD.
    let fee_model = PerContractFeeModel::new(money(UNIT / 2, usd())).unwrap();
    let f = fill(Dec::new(469, 2), Dec::new(10, 1));
    let commission = fee_model.get_commission(&order(None, Dec::new(0, 0)), &f, &audusd()).unwrap();
    assert_eq!(commission.raw, 2_340_000_000);
}

#[test]
fn test_per_contract_fee_model_negative_commission_fails() {
    let result = PerContractFeeModel::new(money(-UNIT, usd()));
    assert_eq!(result.unwrap_err(), FeeError::NegativeCommission);
}

#[test]
fn test_capped_option_fee_model_negative_rate_fails() {
    let cases = [
        (Some(Dec::new(-1, 4)), Some(Dec::new(3, 4)), None, RateName::MakerRate),
        (Some(Dec::new(1, 4)), Some(Dec::new(-3, 4)), None, RateName::TakerRate),
        (Some(Dec::new(1, 4)), Some(Dec::new(3, 4)), Some(Dec::new(-125, 3)), RateName::CapRate),
    ];
    for (maker, taker, cap, field) in cases {
        let r = CappedOptionFeeModel::new(maker, taker, cap);
        assert_eq!(r.unwrap_err(), FeeError::NegativeRate(field));
    }
}

fn capped() -> CappedOptionFeeModel {
    CappedOptionFeeModel::new(Some(Dec::new(1, 4)), Some(Dec::new(3, 4)), None).unwrap()
}

#[test]
fn test_capped_option_fee_model_maker_commission_rate_bound() {
    // rate fee 0.0001 * 50000 = 5 < cap fee 0.125 * 100 = 12.5; 5 * 1 * 2 = 10.00 USD.
    let model = FeeModelAny::CappedOption(capped());
    let o = order(Some(LiquiditySide::Maker), Dec::new(20, 1));
    let f = fill(Dec::new(20, 1), Dec::new(10000, 2));
    let commission = model
        .get_commission_with_context(&o, &f, &btc_option(false), Some(Dec::new(5_000_000, 2)))
        .unwrap();
    assert_eq!(amount(&commission), (10 * UNIT, "USD".to_string()));
}

#[test]
fn test_capped_option_fee_model_taker_commission_cap_bound() {
    // rate fee 0.0003 * 50000 = 15 > cap fee 0.125 * 10 = 1.25; 1.25 * 2 = 2.50 USD.
    let o = order(Some(LiquiditySide::Taker), Dec::new(20, 1));
    let f = fill(Dec::new(20, 1), Dec::new(1000, 2));
    let commission = capped()
        .get_commission_with_context(&o, &f, &btc_option(false), Some(Dec::new(5_000_000, 2)))
        .unwrap();
    assert_eq!(amount(&commission), (2_500_000_000, "USD".to_string()));
}

#[test]
fn test_capped_option_fee_model_applies_contract_multiplier() {
    // rate fee 0.0001 * 150 = 0.015 < cap fee 0.125 * 2 = 0.25; 0.015 * 100 * 2 = 3.00 USD.
    let mut instrument = btc_option(false);
    instrument.multiplier = Dec::new(100, 0);
    instrument.settlement_currency = usd();
    let o = order(Some(LiquiditySide::Maker), Dec::new(2, 0));
    let f = fill(Dec::new(2, 0), Dec::new(200, 2));
    let commission = capped()
        .get_commission_with_context(&o, &f, &instrument, Some(Dec::new(15000, 2)))
        .unwrap();
    assert_eq!(amount(&commission), (3 * UNIT, "USD".to_string()));
}

#[test]
fn test_capped_option_fee_model_inverse_commission_uses_settlement_currency() {
    // rate 0.0003 < cap fee 0.125 * 0.010 = 0.00125; 0.0003 * 2 = 0.0006 BTC.
    let o = order(Some(LiquiditySide::Taker), Dec::new(20, 1));
    let f = fill(Dec::new(20, 1), Dec::new(10, 3));
    let commission = capped().get_commission(&o, &f, &btc_option(true)).unwrap();
    assert_eq!(amount(&commission), (600_000, "BTC".to_string()));
}

#[test]
fn test_capped_option_fee_model_requires_underlying_price() {
    let o = order(Some(LiquiditySide::Taker), Dec::new(20, 1));
    let f = fill(Dec::new(10, 1), Dec::new(1000, 2));
    let result = CappedOptionFeeModel::default().get_commission(&o, &f, &btc_option(false));
    assert_eq!(result.unwrap_err(), FeeError::UnderlyingPriceRequired);
}

#[test]
fn test_capped_option_fee_model_rejects_non_option_instrument() {
    let o = order(Some(LiquiditySide::Taker), Dec::new(20, 1));
    let f = fill(Dec::new(10, 1), Dec::new(1000, 2));
    let result = CappedOptionFeeModel::default().get_commission_with_context(
        &o,
        &f,
        &audusd(),
        Some(Dec::new(5_000_000, 2)),
    );
    assert_eq!(
        result.unwrap_err(),
        FeeError::OptionInstrumentRequired(ModelName::CappedOptionFeeModel)
    );
}

fn tiered() -> TieredNotionalOptionFeeModel {
    TieredNotionalOptionFeeModel::new(Some(Dec::new(2, 4)), Some(Dec::new(5, 4))).unwrap()
}

#[test]
fn test_tiered_notional_option_fee_model_commission() {
    // Notional 2.0 * 100.00 = 200 USD; maker 0.0002 -> 0.04, taker 0.0005 -> 0.10.
    let model = FeeModelAny::TieredNotionalOption(tiered());
    let f = fill(Dec::new(20, 1), Dec::new(10000, 2));
    for (side, expected) in [(LiquiditySide::Maker, 40_000_000), (LiquiditySide::Taker, 100_000_000)] {
        let commission = model
            .get_commission(&order(Some(side), Dec::new(20, 1)), &f, &btc_option(false))
            .unwrap();
        assert_eq!(amount(&commission), (expected, "USD".to_string()));
    }
}

#[test]
fn test_tiered_notional_option_fee_model_inverse_commission_uses_base_currency() {
    // Inverse notional 2.0 / 0.010 = 200 BTC; taker 0.0005 -> 0.10 BTC.
    let o = order(Some(LiquiditySide::Taker), Dec::new(20, 1));
    let f = fill(Dec::new(20, 1), Dec::new(10, 3));
    let commission = tiered().get_commission(&o, &f, &btc_option(true)).unwrap();
    assert_eq!(amount(&commission), (100_000_000, "BTC".to_string()));
}

#[test]
fn test_tiered_notional_option_fee_model_rejects_non_option_instrument() {
    let o = order(Some(LiquiditySide::Taker), Dec::new(20, 1));
    let f = fill(Dec::new(10, 1), Dec::new(1000, 2));
    let result = TieredNotionalOptionFeeModel::default().get_commission(&o, &f, &audusd());
    assert_eq!(
        result.unwrap_err(),
        FeeError::OptionInstrumentRequired(ModelName::TieredNotionalOptionFeeModel)
    );
}

#[test]
fn test_tiered_notional_option_fee_model_negative_rate_fails() {
    let r = TieredNotionalOptionFeeModel::new(Some(Dec::new(-2, 4)), Some(Dec::new(5, 4)));
    assert_eq!(r.unwrap_err(), FeeError::NegativeRate(RateName::MakerRate));
    let r = TieredNotionalOptionFeeModel::new(Some(Dec::new(2, 4)), Some(Dec::new(-5, 4)));
    assert_eq!(r.unwrap_err(), FeeError::NegativeRate(RateName::TakerRate));
}

#[test]
fn test_tiered_notional_option_fee_model_requires_liquidity_side() {
    let f = fill(Dec::new(10, 1), Dec::new(1000, 2));
    let result = TieredNotionalOptionFeeModel::default()
        .get_commission(&order(None, Dec::new(0, 0)), &f, &btc_option(false));
    assert_eq!(result.unwrap_err(), FeeError::LiquiditySideNotSet);
}

#[test]
fn test_option_fee_rate_falls_back_to_instrument_fee() {
    // No model rate: the instrument's maker fee 0.0003 on a 200 USD notional -> 0.06.
    let f = fill(Dec::new(20, 1), Dec::new(10000, 2));
    let o = order(Some(LiquiditySide::Maker), Dec::new(0, 0));
    let commission = TieredNotionalOptionFeeModel::default().get_commission(&o, &f, &btc_option(false));
    assert_eq!(commission.unwrap().raw, 60_000_000);
}

fn polymarket_fill(p: Dec) -> FillInfo {
    FillInfo { quantity: Dec::new(100, 0), price: p }
}

#[test]
fn test_polymarket_fee_model_taker_curve() {
    // 100 * 0.07 * p * (1 - p)
    let cases = [(10, 630_000_000), (30, 1_470_000_000), (50, 1_750_000_000), (70, 1_470_000_000), (90, 630_000_000)];
    let model = PolymarketFeeModel::new(None);
    for (cents, expected) in cases {
        let commission = model
            .get_commission(
                &order(Some(LiquiditySide::Taker), Dec::new(0, 0)),
                &polymarket_fill(Dec::new(cents, 2)),
                &polymarket_market(Dec::new(7, 2)),
            )
            .unwrap();
        assert_eq!(amount(&commission), (expected, "USDC".to_string()));
    }
}

#[test]
fn test_polymarket_fee_model_maker_disabled() {
    let commission = PolymarketFeeModel::new(Some(false))
        .get_commission(
            &order(Some(LiquiditySide::Maker), Dec::new(0, 0)),
            &polymarket_fill(Dec::new(50, 2)),
            &polymarket_market(Dec::new(7, 2)),
        )
        .unwrap();
    assert_eq!(amount(&commission), (0, "USDC".to_string()));
}

#[test]
fn test_polymarket_fee_model_maker_rebate_crypto() {
    // 1.75 * 0.20 = 0.35, credited as -0.35.
    let commission = PolymarketFeeModel::new(Some(true))
        .get_commission(
            &order(Some(LiquiditySide::Maker), Dec::new(0, 0)),
            &polymarket_fill(Dec::new(50, 2)),
            &polymarket_market(Dec::new(7, 2)),
        )
        .unwrap();
    assert_eq!(commission.raw, -350_000_000);
}

#[test]
fn test_polymarket_fee_model_maker_rebate_non_crypto() {
    // 100 * 0.04 * 0.25 = 1.00; * 0.25 = 0.25, credited as -0.25.
    let commission = PolymarketFeeModel::new(Some(true))
        .get_commission(
            &order(Some(LiquiditySide::Maker), Dec::new(0, 0)),
            &polymarket_fill(Dec::new(50, 2)),
            &polymarket_market(Dec::new(4, 2)),
        )
        .unwrap();
    assert_eq!(commission.raw, -250_000_000);
}

#[test]
fn test_polymarket_fee_model_zero_rate_returns_zero() {
    let commission = PolymarketFeeModel::default()
        .get_commission(
            &order(Some(LiquiditySide::Taker), Dec::new(0, 0)),
            &polymarket_fill(Dec::new(50, 2)),
            &polymarket_market(Dec::new(0, 0)),
        )
        .unwrap();
    assert_eq!(amount(&commission), (0, "USDC".to_string()));
}

#[test]
fn test_polymarket_fee_model_rounds_to_five_places() {
    // 1 * 0.07 * 0.333 * 0.667 = 0.015548373 -> 0.01555 USDC.
    let commission = PolymarketFeeModel::default()
        .get_commission(
            &order(None, Dec::new(0, 0)),
            &fill(Dec::new(1, 0), Dec::new(333, 3)),
            &polymarket_market(Dec::new(7, 2)),
        )
        .unwrap();
    assert_eq!(commission.raw, 15_550_000);
}

#[test]
fn test_polymarket_fee_model_unknown_rate_has_no_rebate() {
    let commission = PolymarketFeeModel::default()
        .get_commission(
            &order(Some(LiquiditySide::Maker), Dec::new(0, 0)),
            &polymarket_fill(Dec::new(50, 2)),
            &polymarket_market(Dec::new(6, 2)),
        )
        .unwrap();
    assert_eq!(commission.raw, 0);
}

#[test]
fn test_polymarket_rebate_share_table() {
    assert_eq!(polymarket_rebate_share(Dec::new(7, 2)), Dec::new(20, 2));
    assert_eq!(polymarket_rebate_share(Dec::new(700, 4)), Dec::new(20, 2));
    assert_eq!(polymarket_rebate_share(Dec::new(3, 2)), Dec::new(25, 2));
    assert_eq!(polymarket_rebate_share(Dec::new(40, 3)), Dec::new(25, 2));
    assert_eq!(polymarket_rebate_share(Dec::new(5, 2)), Dec::new(25, 2));
    assert_eq!(polymarket_rebate_share(Dec::new(0, 0)), Dec::new(0, 0));
    assert_eq!(polymarket_rebate_share(Dec::new(25, 2)), Dec::new(0, 0));
}

#[test]
fn test_fee_model_any_default_is_maker_taker() {
    let model = FeeModelAny::default();
    let o = order(Some(LiquiditySide::Maker), Dec::new(0, 0));
    let f = fill(Dec::new(100_000, 0), Dec::new(10, 1));
    assert_eq!(model.get_commission(&o, &f, &audusd()).unwrap().raw, 2 * UNIT);
}

#[test]
fn test_money_out_of_range_is_an_error() {
    // A notional near the money bound times a large rate exceeds it.
    let o = order(Some(LiquiditySide::Maker), Dec::new(0, 0));
    let f = fill(Dec::new(9_000_000_000, 0), Dec::new(1, 0));
    let model = ConfigurableMakerTakerFeeModel::new(Dec::new(2, 0), Dec::new(2, 0)).unwrap();
    assert_eq!(model.get_commission(&o, &f, &audusd()).unwrap_err(), FeeError::InvalidMoney);
}

#[test]
fn test_decimal_overflow_is_an_error() {
    let big = Dec::new(79_228_162_514_264_337_593_543_950_335, 0);
    let o = order(Some(LiquiditySide::Taker), Dec::new(0, 0));
    let f = fill(big, Dec::new(5, 1));
    let r = PolymarketFeeModel::default().get_commission(&o, &f, &polymarket_market(Dec::new(7, 0)));
    assert_eq!(r.unwrap_err(), FeeError::ArithmeticOverflow);
}

#[test]
fn test_polymarket_fee_symmetric_in_price() {
    let model = PolymarketFeeModel::new(Some(true));
    for side in [LiquiditySide::Taker, LiquiditySide::Maker] {
        let at = |p: Dec| {
            model
                .get_commission(
                    &order(Some(side), Dec::new(0, 0)),
                    &polymarket_fill(p),
                    &polymarket_market(Dec::new(5, 2)),
                )
                .unwrap()
                .raw
        };
        assert_eq!(at(Dec::new(333, 3)), at(Dec::new(667, 3)));
        assert_eq!(at(Dec::new(0, 2)), at(Dec::new(100, 2)));
    }
}
