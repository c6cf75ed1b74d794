use indicator_math::signals::{
    convergence_kind, ema_cut_type, ema_row_convergence, macd_convergence, tick_convergence,
    turn_type, BbPosition, CandleColor, Comparison, ConvergenceCode, ConvergenceKind, CutType,
    Direction, LongRelation, ShortRelation, TurnType,
};
use indicator_math::trend::{consecutive_step, track_ema_cut};

#[test]
fn bb_position_labels() {
    assert_eq!(BbPosition::NearUpper.as_str(), "NearUpper");
    assert_eq!(BbPosition::Middle.as_str(), "Middle");
    assert_eq!(BbPosition::NearLower.as_str(), "NearLower");
    assert_eq!(BbPosition::Unknown.as_str(), "Unknown");
}

#[test]
fn labels_and_letters() {
    assert_eq!(Direction::Up.as_str(), "Up");
    assert_eq!(Direction::Down.letter(), "D");
    assert_eq!(Direction::Flat.letter(), "F");
    assert_eq!(CandleColor::Green.as_str(), "Green");
    assert_eq!(CandleColor::Red.letter(), "R");
    assert_eq!(CandleColor::Equal.letter(), "E");
    assert_eq!(LongRelation::MediumAbove.letter(), "M");
    assert_eq!(LongRelation::LongAbove.as_str(), "LongAbove");
    assert_eq!(ShortRelation::ShortAbove.as_str(), "ShortAbove");
    assert_eq!(CutType::DownTrend.as_str(), "DownTrend");
    assert_eq!(ConvergenceKind::Neutral.as_str(), "neutral");
}

#[test]
fn relations_from_comparisons() {
    assert_eq!(ShortRelation::from_short_above(true), ShortRelation::ShortAbove);
    assert_eq!(ShortRelation::from_short_above(false), ShortRelation::MediumAbove);
    assert_eq!(LongRelation::from_medium_above(true), LongRelation::MediumAbove);
    assert_eq!(LongRelation::from_medium_above(false), LongRelation::LongAbove);
}

#[test]
fn turn_types() {
    assert_eq!(turn_type(Direction::Down, Direction::Up), TurnType::TurnUp);
    assert_eq!(turn_type(Direction::Up, Direction::Down), TurnType::TurnDown);
    assert_eq!(turn_type(Direction::Up, Direction::Up), TurnType::NoTurn);
    assert_eq!(turn_type(Direction::Flat, Direction::Up), TurnType::NoTurn);
    assert_eq!(turn_type(Direction::Down, Direction::Flat), TurnType::NoTurn);
    assert_eq!(TurnType::NoTurn.as_str(), "-");
    assert_eq!(TurnType::NoTurn.as_row_str(), "None");
    assert_eq!(TurnType::TurnUp.as_row_str(), "TurnUp");
}

#[test]
fn cut_types() {
    assert_eq!(ema_cut_type(false, true), Some(CutType::UpTrend));
    assert_eq!(ema_cut_type(true, false), Some(CutType::DownTrend));
    assert_eq!(ema_cut_type(true, true), None);
    assert_eq!(ema_cut_type(false, false), None);
}

#[test]
fn convergence_codes() {
    assert_eq!(convergence_kind(Comparison::Greater), ConvergenceKind::Divergence);
    assert_eq!(convergence_kind(Comparison::Less), ConvergenceKind::Convergence);
    assert_eq!(convergence_kind(Comparison::Same), ConvergenceKind::Neutral);
    assert_eq!(macd_convergence(true, Comparison::Greater), Some(ConvergenceCode::Narrow));
    assert_eq!(macd_convergence(false, Comparison::Greater), Some(ConvergenceCode::Divergence));
    assert_eq!(macd_convergence(false, Comparison::Less), Some(ConvergenceCode::Convergence));
    assert_eq!(macd_convergence(false, Comparison::Same), None);
    assert_eq!(tick_convergence(None), ConvergenceCode::Narrow);
    assert_eq!(tick_convergence(Some(Comparison::Same)), ConvergenceCode::Narrow);
    assert_eq!(tick_convergence(Some(Comparison::Greater)), ConvergenceCode::Divergence);
    assert_eq!(tick_convergence(Some(Comparison::Less)), ConvergenceCode::Convergence);
    assert_eq!(ema_row_convergence(None), "Neutral");
    assert_eq!(ema_row_convergence(Some(Comparison::Same)), "Neutral");
    assert_eq!(ema_row_convergence(Some(Comparison::Greater)), "divergence");
    assert_eq!(ema_row_convergence(Some(Comparison::Less)), "convergence");
}

#[test]
fn consecutive_runs_over_history() {
    let moves = [
        Direction::Up,
        Direction::Up,
        Direction::Flat,
        Direction::Up,
        Direction::Down,
        Direction::Flat,
        Direction::Down,
    ];
    let mut state = (0usize, 0usize);
    let mut seen = Vec::new();
    for d in moves {
        state = consecutive_step(state.0, state.1, d);
        seen.push(state);
        assert!(state.0 == 0 || state.1 == 0);
    }
    assert_eq!(
        seen,
        vec![(1, 0), (2, 0), (2, 0), (3, 0), (0, 1), (0, 1), (0, 2)]
    );
}

#[test]
fn candles_since_cut() {
    assert_eq!(track_ema_cut(None, 0, false), (None, None));
    assert_eq!(track_ema_cut(None, 4, true), (Some(4), Some(0)));
    assert_eq!(track_ema_cut(Some(4), 5, false), (Some(4), Some(1)));
    assert_eq!(track_ema_cut(Some(4), 9, false), (Some(4), Some(5)));
    assert_eq!(track_ema_cut(Some(4), 9, true), (Some(9), Some(0)));
}

#[test]
fn labels_read_back() {
    for d in [Direction::Up, Direction::Down, Direction::Flat] {
        assert_eq!(Direction::from_label(d.as_str()), Some(d));
    }
    for c in [CandleColor::Green, CandleColor::Red, CandleColor::Equal] {
        assert_eq!(CandleColor::from_label(c.as_str()), Some(c));
    }
    for r in [ShortRelation::ShortAbove, ShortRelation::MediumAbove] {
        assert_eq!(ShortRelation::from_label(r.as_str()), Some(r));
    }
    for t in [CutType::UpTrend, CutType::DownTrend] {
        assert_eq!(CutType::from_label(t.as_str()), Some(t));
    }
    assert_eq!(Direction::from_label("up"), None);
    assert_eq!(ShortRelation::from_label("Unknown"), None);
    assert_eq!(CutType::from_label("None"), None);
    assert_eq!(CandleColor::from_label(""), None);
}
