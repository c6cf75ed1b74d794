use indicator_math::phases::{
    adx_sums_smoothing, atr_smoothing, dx_step, rsi_phase, DxStep, RsiPhase, Smoothing,
};
use indicator_math::actions::{get_action_by_cut_type, get_action_by_simple, CutStrategy, EmaSignals, MaType};
use indicator_math::config::{apply_ma_configs, ma_window_capacity, MaConfig, MaSettings};
use indicator_math::signals::{CutType, Direction, ShortRelation};
use indicator_math::ticks::{minute_start, tick_step, TickStep};
use indicator_math::window::push_bounded;
use std::collections::VecDeque;

fn row(
    above: Option<ShortRelation>,
    short_slope: Direction,
    medium_slope: Direction,
    short_cut: Option<CutType>,
    long_cut: Option<CutType>,
) -> EmaSignals {
    EmaSignals {
        ema_above: above,
        ema_short_slope_direction: short_slope,
        ema_medium_slope_direction: medium_slope,
        ema_cut_short_type: short_cut,
        ema_cut_long_type: long_cut,
    }
}

#[test]
fn simple_actions() {
    let rows = vec![
        row(Some(ShortRelation::ShortAbove), Direction::Up, Direction::Up, None, None),
        row(Some(ShortRelation::MediumAbove), Direction::Up, Direction::Up, None, None),
        row(None, Direction::Flat, Direction::Flat, None, None),
    ];
    assert_eq!(get_action_by_simple(&rows, 0), "call");
    assert_eq!(get_action_by_simple(&rows, 1), "put");
    assert_eq!(get_action_by_simple(&rows, 2), "hold");
    assert_eq!(get_action_by_simple(&rows, 3), "none");
}

#[test]
fn cut_actions() {
    let rows = vec![
        row(None, Direction::Up, Direction::Down, Some(CutType::UpTrend), Some(CutType::DownTrend)),
        row(None, Direction::Down, Direction::Up, Some(CutType::DownTrend), Some(CutType::UpTrend)),
        row(None, Direction::Flat, Direction::Flat, Some(CutType::UpTrend), None),
        row(None, Direction::Up, Direction::Up, Some(CutType::DownTrend), None),
    ];
    assert_eq!(get_action_by_cut_type(&rows, 0, CutStrategy::ShortCut), "call");
    assert_eq!(get_action_by_cut_type(&rows, 0, CutStrategy::LongCut), "put");
    assert_eq!(get_action_by_cut_type(&rows, 1, CutStrategy::ShortCut), "put");
    assert_eq!(get_action_by_cut_type(&rows, 1, CutStrategy::LongCut), "call");
    assert_eq!(get_action_by_cut_type(&rows, 2, CutStrategy::ShortCut), "hold");
    assert_eq!(get_action_by_cut_type(&rows, 3, CutStrategy::ShortCut), "hold");
    assert_eq!(get_action_by_cut_type(&rows, 3, CutStrategy::LongCut), "hold");
    assert_eq!(get_action_by_cut_type(&rows, 9, CutStrategy::LongCut), "none");
    assert_ne!(MaType::EMA, MaType::HMA);
}

#[test]
fn minute_buckets() {
    assert_eq!(minute_start(0), 0);
    assert_eq!(minute_start(59), 0);
    assert_eq!(minute_start(60), 60);
    assert_eq!(minute_start(1700000059), 1700000040);
    assert_eq!(minute_start(1700000039), 1699999980);
    assert_eq!(minute_start(u64::MAX), u64::MAX - 15);
}

#[test]
fn tick_steps() {
    assert_eq!(tick_step(None, 1700000001), TickStep::Open { start: 1699999980 });
    assert_eq!(tick_step(Some(1699999980), 1700000001), TickStep::Extend);
    assert_eq!(tick_step(Some(1699999980), 1700000039), TickStep::Extend);
    assert_eq!(
        tick_step(Some(1699999980), 1700000040),
        TickStep::CloseAndOpen { start: 1700000040 }
    );
    assert_eq!(
        tick_step(Some(1699999980), 1700000185),
        TickStep::CloseAndOpen { start: 1700000160 }
    );
    // an out-of-order tick is folded into the open candle
    assert_eq!(tick_step(Some(1699999980), 1699990000), TickStep::Extend);
}

#[test]
fn bounded_window_keeps_latest() {
    let mut w: VecDeque<f64> = VecDeque::new();
    for x in [1.0, 2.0, 3.0, 4.0, 5.0] {
        push_bounded(&mut w, x, 3);
    }
    assert_eq!(w, VecDeque::from(vec![3.0, 4.0, 5.0]));
    let mut w: VecDeque<u8> = VecDeque::new();
    push_bounded(&mut w, 1, 0);
    assert!(w.is_empty());
    let mut w: VecDeque<u8> = VecDeque::new();
    push_bounded(&mut w, 1, 4);
    push_bounded(&mut w, 2, 4);
    assert_eq!(w, VecDeque::from(vec![1, 2]));
}

fn base() -> MaSettings {
    MaSettings {
        ema1_period: 20,
        ema1_type: "EMA".to_string(),
        ema2_period: 50,
        ema2_type: "EMA".to_string(),
        ema3_period: 200,
        ema3_type: "EMA".to_string(),
    }
}

#[test]
fn ma_configs_apply_in_order() {
    let configs = vec![
        MaConfig { ma_type: "HMA".to_string(), period: 9 },
        MaConfig { ma_type: "EHMA".to_string(), period: 21 },
    ];
    let s = apply_ma_configs(base(), &configs);
    assert_eq!((s.ema1_type.as_str(), s.ema1_period), ("HMA", 9));
    assert_eq!((s.ema2_type.as_str(), s.ema2_period), ("EHMA", 21));
    assert_eq!((s.ema3_type.as_str(), s.ema3_period), ("EMA", 200));
    let s = apply_ma_configs(base(), &[]);
    assert_eq!(s.ema1_period, 20);
    let four = vec![
        MaConfig { ma_type: "WMA".to_string(), period: 1 },
        MaConfig { ma_type: "WMA".to_string(), period: 2 },
        MaConfig { ma_type: "WMA".to_string(), period: 3 },
        MaConfig { ma_type: "WMA".to_string(), period: 4 },
    ];
    let s = apply_ma_configs(base(), &four);
    assert_eq!((s.ema1_period, s.ema2_period, s.ema3_period), (1, 2, 3));
}

#[test]
fn ma_window_capacity_is_twice_longest() {
    assert_eq!(ma_window_capacity(20, 50, 200), 400);
    assert_eq!(ma_window_capacity(30, 5, 7), 60);
    assert_eq!(ma_window_capacity(0, 0, 0), 0);
}

#[test]
fn indicator_phases() {
    assert_eq!(atr_smoothing(0, 14), Smoothing::First);
    assert_eq!(atr_smoothing(5, 14), Smoothing::Average);
    assert_eq!(atr_smoothing(14, 14), Smoothing::Smooth);
    assert_eq!(rsi_phase(3, 5), RsiPhase::Seed { finalize: false });
    assert_eq!(rsi_phase(4, 5), RsiPhase::Seed { finalize: true });
    assert_eq!(rsi_phase(5, 5), RsiPhase::Smooth);
    assert_eq!(adx_sums_smoothing(2, 3), Smoothing::Average);
    assert_eq!(adx_sums_smoothing(3, 3), Smoothing::Smooth);
    assert_eq!(dx_step(2, 3, 0, true), None);
    assert_eq!(dx_step(3, 3, 0, false), None);
    assert_eq!(
        dx_step(3, 3, 0, true),
        Some(DxStep { dx_count: 1, smoothing: Smoothing::Average, emit: false })
    );
    assert_eq!(
        dx_step(5, 3, 2, true),
        Some(DxStep { dx_count: 3, smoothing: Smoothing::Average, emit: true })
    );
    assert_eq!(
        dx_step(6, 3, 3, true),
        Some(DxStep { dx_count: 4, smoothing: Smoothing::Smooth, emit: true })
    );
}

#[test]
fn wma_weights() {
    assert_eq!(indicator_math::config::wma_weight_total(0), 0);
    assert_eq!(indicator_math::config::wma_weight_total(1), 1);
    assert_eq!(indicator_math::config::wma_weight_total(5), 15);
    assert_eq!(indicator_math::config::wma_weight_total(200), 20100);
}
