use vstd::prelude::*;

use crate::signals::{CutType, Direction, ShortRelation};

verus! {

/// The kind of moving average used for a line.
#[derive(Debug, Clone, Copy, PartialEq, Eq, Structural)]
pub enum MaType {
    EMA,
    HMA,
    WMA,
    SMA,
    EHMA,
}

/// Which cross decides a cut-based action.
#[derive(Debug, Clone, Copy, PartialEq, Eq, Structural)]
pub enum CutStrategy {
    /// The short/medium cross together with the short slope.
    ShortCut,
    /// The medium/long cross together with the medium slope.
    LongCut,
}

/// What the trade actions read of one row of EMA analysis.
#[derive(Debug, Clone, Copy, PartialEq, Eq, Structural)]
pub struct EmaSignals {
    /// Relation of the short and medium averages; `None` while one is unknown.
    pub ema_above: Option<ShortRelation>,
    pub ema_short_slope_direction: Direction,
    pub ema_medium_slope_direction: Direction,
    /// Cross of the short and medium averages on this candle.
    pub ema_cut_short_type: Option<CutType>,
    /// Cross of the medium and long averages on this candle.
    pub ema_cut_long_type: Option<CutType>,
}

/// The action that the averages' order suggests for a row.
pub open spec fn simple_action(s: EmaSignals) -> Seq<char> {
    match s.ema_above {
        Some(ShortRelation::ShortAbove) => "call"@,
        Some(ShortRelation::MediumAbove) => "put"@,
        None => "hold"@,
    }
}

/// A cross confirmed by the slope in its own direction calls or puts; anything else holds.
pub open spec fn cut_action(cut: Option<CutType>, slope: Direction) -> Seq<char> {
    if cut == Some(CutType::UpTrend) && slope == Direction::Up {
        "call"@
    } else if cut == Some(CutType::DownTrend) && slope == Direction::Down {
        "put"@
    } else {
        "hold"@
    }
}

/// The cross that a strategy reads of a row.
pub open spec fn strategy_cut(s: EmaSignals, strategy: CutStrategy) -> Option<CutType> {
    match strategy {
        CutStrategy::ShortCut => s.ema_cut_short_type,
        CutStrategy::LongCut => s.ema_cut_long_type,
    }
}

/// The slope that a strategy reads of a row.
pub open spec fn strategy_slope(s: EmaSignals, strategy: CutStrategy) -> Direction {
    match strategy {
        CutStrategy::ShortCut => s.ema_short_slope_direction,
        CutStrategy::LongCut => s.ema_medium_slope_direction,
    }
}

proof fn lemma_action_words_distinct()
    ensures
        "call"@ != "put"@,
        "call"@ != "hold"@,
        "call"@ != "none"@,
        "put"@ != "hold"@,
        "put"@ != "none"@,
        "hold"@ != "none"@,
{
    reveal_strlit("call");
    reveal_strlit("put");
    reveal_strlit("hold");
    reveal_strlit("none");
    assert("call"@.len() != "put"@.len());
    assert("call"@[0] != "hold"@[0]);
    assert("call"@[0] != "none"@[0]);
    assert("put"@.len() != "hold"@.len());
    assert("put"@.len() != "none"@.len());
    assert("hold"@[0] != "none"@[0]);
}

/// Law: a cut-based action calls exactly on an up-trend cross with a rising slope,
/// puts exactly on a down-trend cross with a falling slope, and holds otherwise; in
/// particular, without a cross it always holds.
pub proof fn law_cut_action_needs_cross(cut: Option<CutType>, slope: Direction)
    ensures
        cut_action(cut, slope) == "call"@ <==> (cut == Some(CutType::UpTrend) && slope
            == Direction::Up),
        cut_action(cut, slope) == "put"@ <==> (cut == Some(CutType::DownTrend) && slope
            == Direction::Down),
        cut_action(cut, slope) == "hold"@ <==> !(cut == Some(CutType::UpTrend) && slope
            == Direction::Up) && !(cut == Some(CutType::DownTrend) && slope == Direction::Down),
        cut is None ==> cut_action(cut, slope) == "hold"@,
{
    lemma_action_words_distinct();
}

/// Law: the simple action calls exactly when the short average is above the medium
/// one, puts exactly when the medium one is above, and holds while either is unknown.
pub proof fn law_simple_action_follows_order(s: EmaSignals)
    ensures
        simple_action(s) == "call"@ <==> s.ema_above == Some(ShortRelation::ShortAbove),
        simple_action(s) == "put"@ <==> s.ema_above == Some(ShortRelation::MediumAbove),
        simple_action(s) == "hold"@ <==> s.ema_above is None,
{
    lemma_action_words_distinct();
}

pub open spec fn strategy_action(s: EmaSignals, strategy: CutStrategy) -> Seq<char> {
    match strategy {
        CutStrategy::ShortCut => cut_action(s.ema_cut_short_type, s.ema_short_slope_direction),
        CutStrategy::LongCut => cut_action(s.ema_cut_long_type, s.ema_medium_slope_direction),
    }
}

/// The simple action of the row at `index`, or `none` when there is no such row.
pub fn get_action_by_simple(results: &[EmaSignals], index: usize) -> (a: &'static str)
    ensures
        a@ == (if index < results@.len() {
            simple_action(results@[index as int])
        } else {
            "none"@
        }),
        index >= results@.len() ==> a@ == "none"@,
        index < results@.len() ==> {
            let above = results@[index as int].ema_above;
            &&& a@ == "call"@ <==> above == Some(ShortRelation::ShortAbove)
            &&& a@ == "put"@ <==> above == Some(ShortRelation::MediumAbove)
            &&& a@ == "hold"@ <==> above is None
        },
{
    proof {
        lemma_action_words_distinct();
    }
    if index < results.len() {
        match results[index].ema_above {
            Some(ShortRelation::ShortAbove) => "call",
            Some(ShortRelation::MediumAbove) => "put",
            None => "hold",
        }
    } else {
        "none"
    }
}

fn action_for_cut(cut: Option<CutType>, slope: Direction) -> (a: &'static str)
    ensures
        a@ == cut_action(cut, slope),
        a@ == "call"@ <==> (cut == Some(CutType::UpTrend) && slope == Direction::Up),
        a@ == "put"@ <==> (cut == Some(CutType::DownTrend) && slope == Direction::Down),
        a@ == "hold"@ <==> !(cut == Some(CutType::UpTrend) && slope == Direction::Up) && !(cut
            == Some(CutType::DownTrend) && slope == Direction::Down),
{
    proof {
        lemma_action_words_distinct();
    }
    match (cut, slope) {
        (Some(CutType::UpTrend), Direction::Up) => "call",
        (Some(CutType::DownTrend), Direction::Down) => "put",
        _ => "hold",
    }
}

/// The cut-based action of the row at `index` under a strategy, or `none` when
/// there is no such row.
pub fn get_action_by_cut_type(results: &[EmaSignals], index: usize, use_cut_type: CutStrategy) -> (a:
    &'static str)
    ensures
        a@ == (if index < results@.len() {
            strategy_action(results@[index as int], use_cut_type)
        } else {
            "none"@
        }),
        index >= results@.len() ==> a@ == "none"@,
        index < results@.len() ==> {
            let cut = strategy_cut(results@[index as int], use_cut_type);
            let slope = strategy_slope(results@[index as int], use_cut_type);
            &&& a@ == "call"@ <==> (cut == Some(CutType::UpTrend) && slope == Direction::Up)
            &&& a@ == "put"@ <==> (cut == Some(CutType::DownTrend) && slope == Direction::Down)
            &&& cut is None ==> a@ == "hold"@
        },
{
    proof {
        lemma_action_words_distinct();
    }
    if index < results.len() {
        let row = &results[index];
        match use_cut_type {
            CutStrategy::ShortCut => action_for_cut(
                row.ema_cut_short_type,
                row.ema_short_slope_direction,
            ),
            CutStrategy::LongCut => action_for_cut(
                row.ema_cut_long_type,
                row.ema_medium_slope_direction,
            ),
        }
    } else {
        "none"
    }
}

} // verus!
