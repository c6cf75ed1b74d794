use vstd::prelude::*;

use crate::signals::{CandleColor, CutType, Direction};

verus! {

/// What the summary reads of one analysed candle.
#[derive(Debug, Clone, Copy, PartialEq, Eq, Structural)]
pub struct CandleFacts {
    pub color: CandleColor,
    pub is_abnormal_candle: bool,
    pub is_abnormal_atr: bool,
    pub ema_cut_long_type: Option<CutType>,
    pub ema_short_direction: Direction,
    pub ema_medium_direction: Direction,
    pub ema_long_direction: Direction,
    pub up_con_medium_ema: usize,
    pub down_con_medium_ema: usize,
    pub up_con_long_ema: usize,
    pub down_con_long_ema: usize,
}

/// Counts over a whole analysis, with the trend state of its latest candle.
#[derive(Debug, Clone, Copy, PartialEq, Eq, Structural)]
pub struct SummaryCounts {
    pub total_candles: usize,
    pub green_count: usize,
    pub red_count: usize,
    pub abnormal_count: usize,
    pub abnormal_atr_count: usize,
    pub ema_crossover_count: usize,
    pub uptrend_count: usize,
    pub downtrend_count: usize,
    pub latest_ema_short_direction: Direction,
    pub latest_ema_medium_direction: Direction,
    pub latest_ema_long_direction: Direction,
    pub latest_up_con_medium_ema: usize,
    pub latest_down_con_medium_ema: usize,
    pub latest_up_con_long_ema: usize,
    pub latest_down_con_long_ema: usize,
}

/// The number of candles of `facts` that satisfy `p`.
pub open spec fn count_where(facts: Seq<CandleFacts>, p: spec_fn(CandleFacts) -> bool) -> nat
    decreases facts.len(),
{
    if facts.len() == 0 {
        0
    } else {
        count_where(facts.drop_last(), p) + if p(facts.last()) {
            1nat
        } else {
            0nat
        }
    }
}

pub open spec fn is_green(f: CandleFacts) -> bool {
    f.color == CandleColor::Green
}

pub open spec fn is_red(f: CandleFacts) -> bool {
    f.color == CandleColor::Red
}

pub open spec fn is_abnormal(f: CandleFacts) -> bool {
    f.is_abnormal_candle
}

pub open spec fn is_abnormal_atr(f: CandleFacts) -> bool {
    f.is_abnormal_atr
}

pub open spec fn is_crossover(f: CandleFacts) -> bool {
    f.ema_cut_long_type is Some
}

pub open spec fn is_uptrend_cross(f: CandleFacts) -> bool {
    f.ema_cut_long_type == Some(CutType::UpTrend)
}

pub open spec fn is_downtrend_cross(f: CandleFacts) -> bool {
    f.ema_cut_long_type == Some(CutType::DownTrend)
}

/// The summary of a non-empty analysis.
pub open spec fn spec_summary(facts: Seq<CandleFacts>) -> SummaryCounts {
    let latest = facts.last();
    SummaryCounts {
        total_candles: facts.len() as usize,
        green_count: count_where(facts, |f: CandleFacts| is_green(f)) as usize,
        red_count: count_where(facts, |f: CandleFacts| is_red(f)) as usize,
        abnormal_count: count_where(facts, |f: CandleFacts| is_abnormal(f)) as usize,
        abnormal_atr_count: count_where(facts, |f: CandleFacts| is_abnormal_atr(f)) as usize,
        ema_crossover_count: count_where(facts, |f: CandleFacts| is_crossover(f)) as usize,
        uptrend_count: count_where(facts, |f: CandleFacts| is_uptrend_cross(f)) as usize,
        downtrend_count: count_where(facts, |f: CandleFacts| is_downtrend_cross(f)) as usize,
        latest_ema_short_direction: latest.ema_short_direction,
        latest_ema_medium_direction: latest.ema_medium_direction,
        latest_ema_long_direction: latest.ema_long_direction,
        latest_up_con_medium_ema: latest.up_con_medium_ema,
        latest_down_con_medium_ema: latest.down_con_medium_ema,
        latest_up_con_long_ema: latest.up_con_long_ema,
        latest_down_con_long_ema: latest.down_con_long_ema,
    }
}

proof fn lemma_count_bounded(facts: Seq<CandleFacts>, p: spec_fn(CandleFacts) -> bool)
    ensures
        count_where(facts, p) <= facts.len(),
    decreases facts.len(),
{
    if facts.len() > 0 {
        lemma_count_bounded(facts.drop_last(), p);
    }
}

proof fn lemma_count_step(facts: Seq<CandleFacts>, i: int, p: spec_fn(CandleFacts) -> bool)
    requires
        0 <= i < facts.len(),
    ensures
        count_where(facts.take(i + 1), p) == count_where(facts.take(i), p) + if p(facts[i]) {
            1nat
        } else {
            0nat
        },
{
    assert(facts.take(i + 1).drop_last() =~= facts.take(i));
}

/// Count colours, abnormal candles and crosses over an analysis, and report the
/// trend state of its latest candle; `None` for an empty analysis.
pub fn summarize(facts: &[CandleFacts]) -> (r: Option<SummaryCounts>)
    ensures
        r == (if facts@.len() == 0 {
            None
        } else {
            Some(spec_summary(facts@))
        }),
        r matches Some(c) ==> {
            let last = facts@[facts@.len() - 1];
            &&& c.total_candles == facts@.len()
            &&& c.latest_ema_short_direction == last.ema_short_direction
            &&& c.latest_ema_medium_direction == last.ema_medium_direction
            &&& c.latest_ema_long_direction == last.ema_long_direction
            &&& c.latest_up_con_medium_ema == last.up_con_medium_ema
            &&& c.latest_down_con_medium_ema == last.down_con_medium_ema
            &&& c.latest_up_con_long_ema == last.up_con_long_ema
            &&& c.latest_down_con_long_ema == last.down_con_long_ema
            &&& c.green_count == facts@.filter(|f: CandleFacts| is_green(f)).len()
            &&& c.red_count == facts@.filter(|f: CandleFacts| is_red(f)).len()
            &&& c.abnormal_count == facts@.filter(|f: CandleFacts| is_abnormal(f)).len()
            &&& c.abnormal_atr_count == facts@.filter(|f: CandleFacts| is_abnormal_atr(f)).len()
            &&& c.ema_crossover_count == facts@.filter(|f: CandleFacts| is_crossover(f)).len()
            &&& c.uptrend_count == facts@.filter(|f: CandleFacts| is_uptrend_cross(f)).len()
            &&& c.downtrend_count == facts@.filter(|f: CandleFacts| is_downtrend_cross(f)).len()
        },
{
    proof {
        if facts@.len() > 0 {
            law_summary_of_history(facts@.drop_last(), facts@.last());
            assert(facts@.drop_last().push(facts@.last()) =~= facts@);
        }
    }
    let n = facts.len();
    if n == 0 {
        return None;
    }
    let mut green: usize = 0;
    let mut red: usize = 0;
    let mut abnormal: usize = 0;
    let mut abnormal_atr: usize = 0;
    let mut crossover: usize = 0;
    let mut up: usize = 0;
    let mut down: usize = 0;
    let mut i: usize = 0;
    while i < n
        invariant
            n == facts@.len(),
            i <= n,
            green == count_where(facts@.take(i as int), |f: CandleFacts| is_green(f)),
            red == count_where(facts@.take(i as int), |f: CandleFacts| is_red(f)),
            abnormal == count_where(facts@.take(i as int), |f: CandleFacts| is_abnormal(f)),
            abnormal_atr == count_where(
                facts@.take(i as int),
                |f: CandleFacts| is_abnormal_atr(f),
            ),
            crossover == count_where(facts@.take(i as int), |f: CandleFacts| is_crossover(f)),
            up == count_where(facts@.take(i as int), |f: CandleFacts| is_uptrend_cross(f)),
            down == count_where(facts@.take(i as int), |f: CandleFacts| is_downtrend_cross(f)),
        decreases n - i,
    {
        let f = &facts[i];
        proof {
            lemma_count_step(facts@, i as int, |f: CandleFacts| is_green(f));
            lemma_count_step(facts@, i as int, |f: CandleFacts| is_red(f));
            lemma_count_step(facts@, i as int, |f: CandleFacts| is_abnormal(f));
            lemma_count_step(facts@, i as int, |f: CandleFacts| is_abnormal_atr(f));
            lemma_count_step(facts@, i as int, |f: CandleFacts| is_crossover(f));
            lemma_count_step(facts@, i as int, |f: CandleFacts| is_uptrend_cross(f));
            lemma_count_step(facts@, i as int, |f: CandleFacts| is_downtrend_cross(f));
            lemma_count_bounded(facts@.take(i as int), |f: CandleFacts| is_green(f));
            lemma_count_bounded(facts@.take(i as int), |f: CandleFacts| is_red(f));
            lemma_count_bounded(facts@.take(i as int), |f: CandleFacts| is_abnormal(f));
            lemma_count_bounded(facts@.take(i as int), |f: CandleFacts| is_abnormal_atr(f));
            lemma_count_bounded(facts@.take(i as int), |f: CandleFacts| is_crossover(f));
            lemma_count_bounded(facts@.take(i as int), |f: CandleFacts| is_uptrend_cross(f));
            lemma_count_bounded(facts@.take(i as int), |f: CandleFacts| is_downtrend_cross(f));
        }
        if f.color == CandleColor::Green {
            green = green + 1;
        }
        if f.color == CandleColor::Red {
            red = red + 1;
        }
        if f.is_abnormal_candle {
            abnormal = abnormal + 1;
        }
        if f.is_abnormal_atr {
            abnormal_atr = abnormal_atr + 1;
        }
        if f.ema_cut_long_type.is_some() {
            crossover = crossover + 1;
        }
        if f.ema_cut_long_type == Some(CutType::UpTrend) {
            up = up + 1;
        }
        if f.ema_cut_long_type == Some(CutType::DownTrend) {
            down = down + 1;
        }
        i = i + 1;
    }
    proof {
        assert(facts@.take(n as int) =~= facts@);
    }
    let latest = &facts[n - 1];
    Some(
        SummaryCounts {
            total_candles: n,
            green_count: green,
            red_count: red,
            abnormal_count: abnormal,
            abnormal_atr_count: abnormal_atr,
            ema_crossover_count: crossover,
            uptrend_count: up,
            downtrend_count: down,
            latest_ema_short_direction: latest.ema_short_direction,
            latest_ema_medium_direction: latest.ema_medium_direction,
            latest_ema_long_direction: latest.ema_long_direction,
            latest_up_con_medium_ema: latest.up_con_medium_ema,
            latest_down_con_medium_ema: latest.down_con_medium_ema,
            latest_up_con_long_ema: latest.up_con_long_ema,
            latest_down_con_long_ema: latest.down_con_long_ema,
        },
    )
}

/// Law: no candle is both green and red, and every cross is either an up-trend or a
/// down-trend cross, so green plus red never exceeds the total and the up-trend and
/// down-trend crosses add up to all crosses.
pub proof fn law_summary_partitions(facts: Seq<CandleFacts>)
    ensures
        count_where(facts, |f: CandleFacts| is_green(f)) + count_where(
            facts,
            |f: CandleFacts| is_red(f),
        ) <= facts.len(),
        count_where(facts, |f: CandleFacts| is_uptrend_cross(f)) + count_where(
            facts,
            |f: CandleFacts| is_downtrend_cross(f),
        ) == count_where(facts, |f: CandleFacts| is_crossover(f)),
    decreases facts.len(),
{
    if facts.len() > 0 {
        law_summary_partitions(facts.drop_last());
        let f = facts.last();
        match f.ema_cut_long_type {
            Some(CutType::UpTrend) => {},
            Some(CutType::DownTrend) => {},
            None => {},
        }
    }
}

/// Law: counting the candles that satisfy a property gives the number of candles
/// that a filter on the property keeps.
pub proof fn law_count_is_filter_length(facts: Seq<CandleFacts>, p: spec_fn(CandleFacts) -> bool)
    ensures
        count_where(facts, p) == facts.filter(p).len(),
    decreases facts.len(),
{
    if facts.len() > 0 {
        law_count_is_filter_length(facts.drop_last(), p);
        facts.drop_last().lemma_filter_push(facts.last(), p);
        assert(facts.drop_last().push(facts.last()) =~= facts);
    }
}

/// Law: the summary of a history ending in candle `last` reports its trend state as
/// the latest one, counts one candle more than the history before it, and counts
/// each property as the number of candles that have it.
pub proof fn law_summary_of_history(history: Seq<CandleFacts>, last: CandleFacts)
    ensures
        ({
            let s = spec_summary(history.push(last));
            &&& s.latest_ema_short_direction == last.ema_short_direction
            &&& s.latest_ema_medium_direction == last.ema_medium_direction
            &&& s.latest_ema_long_direction == last.ema_long_direction
            &&& s.latest_up_con_medium_ema == last.up_con_medium_ema
            &&& s.latest_down_con_medium_ema == last.down_con_medium_ema
            &&& s.latest_up_con_long_ema == last.up_con_long_ema
            &&& s.latest_down_con_long_ema == last.down_con_long_ema
        }),
        history.push(last).len() <= usize::MAX ==> ({
            let all = history.push(last);
            let s = spec_summary(all);
            &&& s.total_candles == history.len() + 1
            &&& s.green_count == all.filter(|f: CandleFacts| is_green(f)).len()
            &&& s.red_count == all.filter(|f: CandleFacts| is_red(f)).len()
            &&& s.abnormal_count == all.filter(|f: CandleFacts| is_abnormal(f)).len()
            &&& s.abnormal_atr_count == all.filter(|f: CandleFacts| is_abnormal_atr(f)).len()
            &&& s.ema_crossover_count == all.filter(|f: CandleFacts| is_crossover(f)).len()
            &&& s.uptrend_count == all.filter(|f: CandleFacts| is_uptrend_cross(f)).len()
            &&& s.downtrend_count == all.filter(|f: CandleFacts| is_downtrend_cross(f)).len()
        }),
{
    let all = history.push(last);
    assert(all.last() == last);
    law_count_is_filter_length(all, |f: CandleFacts| is_green(f));
    law_count_is_filter_length(all, |f: CandleFacts| is_red(f));
    law_count_is_filter_length(all, |f: CandleFacts| is_abnormal(f));
    law_count_is_filter_length(all, |f: CandleFacts| is_abnormal_atr(f));
    law_count_is_filter_length(all, |f: CandleFacts| is_crossover(f));
    law_count_is_filter_length(all, |f: CandleFacts| is_uptrend_cross(f));
    law_count_is_filter_length(all, |f: CandleFacts| is_downtrend_cross(f));
    lemma_count_bounded(all, |f: CandleFacts| is_green(f));
    lemma_count_bounded(all, |f: CandleFacts| is_red(f));
    lemma_count_bounded(all, |f: CandleFacts| is_abnormal(f));
    lemma_count_bounded(all, |f: CandleFacts| is_abnormal_atr(f));
    lemma_count_bounded(all, |f: CandleFacts| is_crossover(f));
    lemma_count_bounded(all, |f: CandleFacts| is_uptrend_cross(f));
    lemma_count_bounded(all, |f: CandleFacts| is_downtrend_cross(f));
}

} // verus!
