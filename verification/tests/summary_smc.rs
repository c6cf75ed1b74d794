use indicator_math::signals::{CandleColor, CutType, Direction};
use indicator_math::smc::{
    pivot_index, process_structure, swing_type, trend_name, trim_order_blocks,
    update_strong_weak_levels, LevelSide, LevelStrength, PivotState, SmcTrendState,
    StructureKind, StrongWeakLevel, BEARISH, BULLISH,
};
use indicator_math::summary::{summarize, CandleFacts};

fn facts(color: CandleColor, abnormal: bool, cut: Option<CutType>) -> CandleFacts {
    CandleFacts {
        color,
        is_abnormal_candle: abnormal,
        is_abnormal_atr: !abnormal,
        ema_cut_long_type: cut,
        ema_short_direction: Direction::Up,
        ema_medium_direction: Direction::Flat,
        ema_long_direction: Direction::Down,
        up_con_medium_ema: 3,
        down_con_medium_ema: 0,
        up_con_long_ema: 0,
        down_con_long_ema: 2,
    }
}

#[test]
fn summary_counts() {
    assert_eq!(summarize(&[]), None);
    let rows = vec![
        facts(CandleColor::Green, false, None),
        facts(CandleColor::Red, true, Some(CutType::UpTrend)),
        facts(CandleColor::Equal, false, None),
        facts(CandleColor::Green, true, Some(CutType::DownTrend)),
        facts(CandleColor::Green, false, Some(CutType::UpTrend)),
    ];
    let s = summarize(&rows).unwrap();
    assert_eq!(s.total_candles, 5);
    assert_eq!(s.green_count, 3);
    assert_eq!(s.red_count, 1);
    assert_eq!(s.abnormal_count, 2);
    assert_eq!(s.abnormal_atr_count, 3);
    assert_eq!(s.ema_crossover_count, 3);
    assert_eq!(s.uptrend_count, 2);
    assert_eq!(s.downtrend_count, 1);
    assert!(s.green_count + s.red_count <= s.total_candles);
    assert_eq!(s.uptrend_count + s.downtrend_count, s.ema_crossover_count);
    assert_eq!(s.latest_ema_long_direction, Direction::Down);
    assert_eq!(s.latest_up_con_medium_ema, 3);
    assert_eq!(s.latest_down_con_long_ema, 2);
}

#[test]
fn trend_labels() {
    assert_eq!(trend_name(BULLISH), "bullish");
    assert_eq!(trend_name(BEARISH), "bearish");
    assert_eq!(trend_name(0), "neutral");
    let t = SmcTrendState { swing_trend: BULLISH, internal_trend: BEARISH };
    assert_eq!(t.get_trend("internal"), "bearish");
    assert_eq!(t.get_trend("swing"), "bullish");
    assert_eq!(t.get_trend("anything"), "bullish");
    let neutral = SmcTrendState { swing_trend: 0, internal_trend: 7 };
    assert_eq!(neutral.get_trend("swing"), "neutral");
    assert_eq!(neutral.get_trend("internal"), "neutral");
}

#[test]
fn structure_breaks_and_trend() {
    let mut high: PivotState<f64> = PivotState::new();
    let mut low: PivotState<f64> = PivotState::new();
    let mut trend = 0;
    // no pivot yet: nothing breaks
    let (b, s) = process_structure(&mut high, &mut low, &mut trend, true, true);
    assert!(b.is_none() && s.is_none());
    high.record(105.0, 10, 3);
    low.record(95.0, 20, 5);
    let (b, s) = process_structure(&mut high, &mut low, &mut trend, true, false);
    let b = b.unwrap();
    assert!(s.is_none());
    assert_eq!(b.kind, StructureKind::Bos);
    assert!(b.bullish);
    assert_eq!(b.price, 105.0);
    assert_eq!(b.start_time, 10);
    assert_eq!(b.pivot_index, Some(3));
    assert_eq!(trend, BULLISH);
    assert!(high.crossed);
    // the same pivot does not break twice
    let (b, _) = process_structure(&mut high, &mut low, &mut trend, true, false);
    assert!(b.is_none());
    // a bearish break against a bullish trend changes character
    let (_, s) = process_structure(&mut high, &mut low, &mut trend, false, true);
    let s = s.unwrap();
    assert_eq!(s.kind, StructureKind::Choch);
    assert_eq!(s.kind.as_str(), "CHoCH");
    assert_eq!(trend, BEARISH);
    // a new pivot can be broken again
    high.record(110.0, 30, 8);
    assert_eq!(high.last_level, Some(105.0));
    let (b, _) = process_structure(&mut high, &mut low, &mut trend, true, false);
    assert_eq!(b.unwrap().kind, StructureKind::Choch);
}

#[test]
fn both_breaks_on_one_close() {
    let mut high: PivotState<f64> = PivotState::new();
    let mut low: PivotState<f64> = PivotState::new();
    high.record(2.0, 1, 1);
    low.record(1.0, 2, 2);
    let mut trend = BEARISH;
    let (b, s) = process_structure(&mut high, &mut low, &mut trend, true, true);
    assert_eq!(b.unwrap().kind, StructureKind::Choch);
    assert_eq!(s.unwrap().kind, StructureKind::Choch);
    assert_eq!(trend, BEARISH);
}

#[test]
fn swing_labels_and_pivots() {
    assert_eq!(swing_type(true, true), "HH");
    assert_eq!(swing_type(true, false), "LH");
    assert_eq!(swing_type(false, true), "LL");
    assert_eq!(swing_type(false, false), "HL");
    assert_eq!(pivot_index(10, 5), Some(5));
    assert_eq!(pivot_index(4, 5), None);
    assert_eq!(pivot_index(5, 5), Some(0));
}

#[test]
fn order_blocks_trimmed() {
    let mut blocks: Vec<u32> = (0..20).collect();
    trim_order_blocks(&mut blocks, 5);
    assert_eq!(blocks, (0..20).collect::<Vec<u32>>());
    blocks.push(20);
    trim_order_blocks(&mut blocks, 5);
    assert_eq!(blocks, (1..21).collect::<Vec<u32>>());
    let mut few = vec![1u32, 2, 3];
    trim_order_blocks(&mut few, 0);
    assert!(few.is_empty());
}

#[test]
fn strong_weak_levels_replace_sides() {
    let mut levels: Vec<StrongWeakLevel<f64>> = Vec::new();
    update_strong_weak_levels(&mut levels, BEARISH, (10, 120.0), (20, 80.0));
    assert_eq!(levels.len(), 2);
    assert_eq!(levels[0].level_type, LevelSide::High);
    assert_eq!(levels[0].strength, LevelStrength::Strong);
    assert_eq!(levels[1].level_type, LevelSide::Low);
    assert_eq!(levels[1].strength, LevelStrength::Weak);
    update_strong_weak_levels(&mut levels, BULLISH, (30, 125.0), (40, 85.0));
    assert_eq!(levels.len(), 2);
    assert_eq!((levels[0].time, levels[0].price), (30, 125.0));
    assert_eq!(levels[0].strength.as_str(), "weak");
    assert_eq!(levels[1].level_type.as_str(), "low");
    assert_eq!(levels[1].strength.as_str(), "strong");
}
