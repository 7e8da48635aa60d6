use nautilus_calc::indicators::{MASlope, WaveTrendOscillator, ZeroLagExponentialMovingAverage, ZlemaStep};
use nautilus_calc::zigzag::{SwingAction, SwingChange, SwingSignals, ZigZag, decide_swing};

fn signals(high: bool, low: bool, over_high: bool, over_low: bool) -> SwingSignals {
    SwingSignals {
        is_swing_high: high,
        is_swing_low: low,
        over_high_deviation: over_high,
        over_low_deviation: over_low,
        high_above_last_swing: high,
        low_below_last_swing: low,
    }
}

#[test]
fn test_zigzag_initialized() {
    let zz = ZigZag::new();
    assert!(!zz.initialized());
    assert!(!zz.has_inputs());
    assert_eq!(zz.trend_direction(), 0);
    assert_eq!(zz.last_swing_idx(), -1);
    assert_eq!(zz.count(), 0);
}

#[test]
fn test_first_bars_no_swing() {
    let mut zz = ZigZag::new();
    assert!(!zz.record_bar());
    assert!(zz.has_inputs());
    assert!(!zz.initialized());
    assert_eq!(zz.count(), 1);
    assert!(!zz.record_bar());
    assert_eq!(zz.count(), 2);
    assert!(!zz.initialized());
    assert!(zz.record_bar());
}

#[test]
fn test_swing_high_without_deviation_is_no_swing() {
    let mut zz = ZigZag::new();
    zz.record_bar();
    zz.record_bar();
    assert!(zz.record_bar());
    assert_eq!(zz.apply_swing(signals(true, false, false, false)), SwingChange::NoSwing);
    assert!(!zz.initialized());
    assert_eq!(zz.trend_direction(), 0);
}

#[test]
fn test_swings_are_recorded_at_the_middle_bar() {
    let mut zz = ZigZag::new();
    zz.record_bar();
    zz.record_bar();
    zz.record_bar();
    assert_eq!(zz.apply_swing(signals(true, false, true, false)), SwingChange::NewHigh);
    assert_eq!(zz.trend_direction(), 1);
    assert_eq!(zz.last_swing_idx(), 2);
    assert!(zz.initialized());
    assert_eq!(zz.get_high_bars(), vec![2]);
    // A higher high two bars later moves the swing high.
    zz.record_bar();
    assert_eq!(zz.apply_swing(signals(false, false, false, false)), SwingChange::NoSwing);
    zz.record_bar();
    assert_eq!(zz.apply_swing(signals(true, false, false, false)), SwingChange::MovedHigh);
    assert_eq!(zz.get_high_bars(), vec![4]);
    assert_eq!(zz.last_swing_idx(), 4);
    // A deep low turns the trend down.
    zz.record_bar();
    zz.record_bar();
    assert_eq!(zz.apply_swing(signals(false, true, false, true)), SwingChange::NewLow);
    assert_eq!(zz.trend_direction(), -1);
    assert_eq!(zz.get_low_bars(), vec![6]);
    // Then a new high.
    zz.record_bar();
    zz.record_bar();
    assert_eq!(zz.apply_swing(signals(true, false, true, false)), SwingChange::NewHigh);
    assert_eq!(zz.get_high_bars(), vec![4, 8]);
    assert_eq!(zz.count(), 9);

    assert_eq!(zz.high_bar(0, 1, 100), 1);
    assert_eq!(zz.high_bar(0, 2, 100), 5);
    assert_eq!(zz.high_bar(0, 3, 100), -1);
    assert_eq!(zz.high_bar(1, 1, 100), 5);
    assert_eq!(zz.high_bar(0, 2, 3), -1);
    assert_eq!(zz.low_bar(0, 1, 100), 3);
    assert_eq!(zz.low_bar(4, 1, 100), -1);
}

#[test]
fn test_high_bar_and_low_bar_methods() {
    let zz = ZigZag::new();
    assert_eq!(zz.high_bar(-1, 1, 100), -1);
    assert_eq!(zz.high_bar(0, 0, 100), -1);
    assert_eq!(zz.low_bar(-1, 1, 100), -1);
    assert_eq!(zz.low_bar(0, 0, 100), -1);
}

#[test]
fn test_high_bar_with_extreme_lookback() {
    let mut zz = ZigZag::new();
    zz.record_bar();
    zz.record_bar();
    zz.record_bar();
    zz.apply_swing(signals(true, false, true, false));
    assert_eq!(zz.high_bar(0, 1, i32::MAX), 1);
    assert_eq!(zz.high_bar(0, 1, i32::MIN), -1);
}

#[test]
fn test_update_without_higher_high_keeps_swing() {
    let mut zz = ZigZag::new();
    for _ in 0..3 {
        zz.record_bar();
    }
    zz.apply_swing(signals(false, true, false, true));
    assert_eq!(zz.trend_direction(), -1);
    zz.record_bar();
    // An up swing during a down trend without enough deviation changes nothing.
    assert_eq!(zz.apply_swing(signals(true, false, false, false)), SwingChange::NoSwing);
    assert_eq!(zz.get_low_bars(), vec![2]);
}

#[test]
fn test_decide_swing_table() {
    assert_eq!(decide_swing(0, signals(false, false, true, true)), (SwingAction::NoSwing, 0));
    assert_eq!(decide_swing(0, signals(true, false, true, false)), (SwingAction::AddHigh, 1));
    assert_eq!(decide_swing(-1, signals(true, false, true, false)), (SwingAction::AddHigh, 1));
    assert_eq!(decide_swing(1, signals(true, false, true, false)), (SwingAction::UpdateHigh, 1));
    assert_eq!(decide_swing(0, signals(false, true, false, true)), (SwingAction::AddLow, -1));
    assert_eq!(decide_swing(-1, signals(false, true, false, true)), (SwingAction::UpdateLow, -1));
    assert_eq!(decide_swing(1, signals(false, true, false, false)), (SwingAction::NoSwing, 1));
}

#[test]
fn test_zigzag_reset() {
    let mut zz = ZigZag::new();
    for _ in 0..3 {
        zz.record_bar();
    }
    zz.apply_swing(signals(true, false, true, false));
    assert_eq!(zz.count(), 3);
    zz.reset();
    assert_eq!(zz.count(), 0);
    assert_eq!(zz.trend_direction(), 0);
    assert_eq!(zz.last_swing_idx(), -1);
    assert!(!zz.has_inputs());
    assert!(!zz.initialized());
    assert!(zz.get_high_bars().is_empty());
    assert!(zz.get_low_bars().is_empty());
}

#[test]
fn test_ma_slope_initialized() {
    let ma_slope: MASlope<f64> = MASlope::new(10, 5, Some(0));
    assert_eq!(ma_slope.ma_period(), 10);
    assert_eq!(ma_slope.start_bars_ago(), 5);
    assert_eq!(ma_slope.end_bars_ago(), 0);
    assert!(!ma_slope.initialized());
    assert!(!ma_slope.has_inputs());
}

#[test]
fn test_negative_index_conversion() {
    let ma_slope: MASlope<f64> = MASlope::new(10, -5, Some(-10));
    assert_eq!(ma_slope.start_bars_ago(), 5);
    assert_eq!(ma_slope.end_bars_ago(), 0);
}

#[test]
fn test_default_end_bars_ago() {
    let ma_slope: MASlope<f64> = MASlope::new(10, 5, None);
    assert_eq!(ma_slope.end_bars_ago(), 0);
}

#[test]
fn test_one_value_input_has_no_slope() {
    let mut ma_slope: MASlope<f64> = MASlope::new(10, 5, Some(0));
    assert_eq!(ma_slope.update_raw(100.0, false), None);
    assert!(ma_slope.has_inputs());
}

#[test]
fn test_ma_slope_calculation_points() {
    // SMA(5) of 1..=5: 1, 1.5, 2, 2.5, 3; newest first 3, 2.5, 2, 1.5, 1.
    let mut ma_slope: MASlope<f64> = MASlope::new(5, 2, Some(0));
    let values = [1.0, 1.5, 2.0, 2.5, 3.0];
    let mut points = None;
    for (i, v) in values.iter().enumerate() {
        points = ma_slope.update_raw(*v, i == 4);
    }
    assert!(ma_slope.initialized());
    assert_eq!(points, Some((2, 0)));
    assert_eq!(*ma_slope.ma_price(0), 3.0);
    assert_eq!(*ma_slope.ma_price(2), 2.0);
    assert_eq!((ma_slope.ma_price(0) - ma_slope.ma_price(2)) / 2.0, 0.5);
}

#[test]
fn test_ma_slope_history_is_bounded() {
    let mut ma_slope: MASlope<i64> = MASlope::new(3, 2, None);
    for v in 0..10 {
        ma_slope.update_raw(v, false);
    }
    assert_eq!(ma_slope.len(), 3);
    assert_eq!(*ma_slope.ma_price(0), 9);
    assert_eq!(*ma_slope.ma_price(2), 7);
}

#[test]
fn test_ma_slope_reset() {
    let mut ma_slope: MASlope<f64> = MASlope::new(10, 5, Some(0));
    ma_slope.update_raw(100.0, false);
    ma_slope.update_raw(200.0, false);
    assert_eq!(ma_slope.len(), 2);
    ma_slope.reset();
    assert_eq!(ma_slope.len(), 0);
    assert!(!ma_slope.has_inputs());
    assert!(!ma_slope.initialized());
}

#[test]
fn test_clamp_index_behavior() {
    let ma_slope: MASlope<f64> = MASlope::new(10, 5, Some(0));
    assert_eq!(ma_slope.clamp_index(0, 5), 0);
    assert_eq!(ma_slope.clamp_index(2, 5), 2);
    assert_eq!(ma_slope.clamp_index(4, 5), 4);
    assert_eq!(ma_slope.clamp_index(10, 5), 4);
    assert_eq!(ma_slope.clamp_index(5, 0), 0);
}

#[test]
fn test_lag_calculation() {
    assert_eq!(ZeroLagExponentialMovingAverage::<f64>::new(5).lag(), 2);
    assert_eq!(ZeroLagExponentialMovingAverage::<f64>::new(10).lag(), 5);
    assert_eq!(ZeroLagExponentialMovingAverage::<f64>::new(20).lag(), 10);
    assert_eq!(ZeroLagExponentialMovingAverage::<f64>::new(1).lag(), 0);
}

#[test]
fn test_zlema_one_value_input() {
    let mut zlema = ZeroLagExponentialMovingAverage::new(10);
    assert_eq!(zlema.update_raw(1.0), ZlemaStep::Seed);
    assert_eq!(zlema.count(), 1);
    assert!(zlema.has_inputs());
}

#[test]
fn test_zlema_period_one_behaviour() {
    let mut zlema = ZeroLagExponentialMovingAverage::new(1);
    assert_eq!(zlema.update_raw(10.0), ZlemaStep::Seed);
    assert!(zlema.initialized());
    assert_eq!(zlema.update_raw(42.0), ZlemaStep::Smooth(42.0));
}

#[test]
fn test_zlema_lagged_value_is_lag_bars_back() {
    let mut zlema = ZeroLagExponentialMovingAverage::new(5);
    let steps: Vec<ZlemaStep<i32>> = (1..=6).map(|v| zlema.update_raw(v)).collect();
    assert_eq!(steps[0], ZlemaStep::Seed);
    assert_eq!(steps[1], ZlemaStep::Seed);
    assert_eq!(steps[2], ZlemaStep::Smooth(1));
    assert_eq!(steps[5], ZlemaStep::Smooth(4));
    assert!(zlema.initialized());
    assert_eq!(zlema.count(), 6);
}

#[test]
fn test_zlema_reset() {
    let mut zlema = ZeroLagExponentialMovingAverage::new(10);
    zlema.update_raw(1.0);
    zlema.update_raw(2.0);
    zlema.reset();
    assert_eq!(zlema.count(), 0);
    assert!(!zlema.has_inputs());
    assert!(!zlema.initialized());
    assert_eq!(zlema.update_raw(7.0), ZlemaStep::Seed);
}

#[test]
fn test_wavetrend_initialization_threshold() {
    let mut wt = WaveTrendOscillator::new(10, 21);
    assert!(!wt.initialized());
    assert!(!wt.has_inputs());
    wt.update_raw(true, true, false, true);
    assert!(wt.has_inputs());
    assert!(!wt.initialized());
    wt.update_raw(true, true, true, true);
    assert!(wt.initialized());
    wt.reset();
    assert!(!wt.initialized());
    assert!(!wt.has_inputs());
}
