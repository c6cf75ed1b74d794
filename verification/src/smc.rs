use vstd::prelude::*;
use vstd::string::*;

use crate::signals::label_is;

verus! {

/// Trend value of a bullish structure.
pub const BULLISH: i32 = 1;

/// Trend value of a bearish structure.
pub const BEARISH: i32 = -1;

/// Leg value while price makes new lows after a swing high.
pub const BULLISH_LEG: i32 = 1;

/// Leg value while price makes new highs after a swing low.
pub const BEARISH_LEG: i32 = 0;

/// The label of a trend value.
pub open spec fn trend_label(trend: i32) -> Seq<char> {
    if trend == BULLISH {
        "bullish"@
    } else if trend == BEARISH {
        "bearish"@
    } else {
        "neutral"@
    }
}

pub fn trend_name(trend: i32) -> (s: &'static str)
    ensures
        s@ == trend_label(trend),
        s@ == "bullish"@ <==> trend == BULLISH,
        s@ == "bearish"@ <==> trend == BEARISH,
        s@ == "neutral"@ <==> trend != BULLISH && trend != BEARISH,
{
    proof {
        reveal_strlit("bullish");
        reveal_strlit("bearish");
        reveal_strlit("neutral");
        assert("bullish"@[1] != "bearish"@[1]);
        assert("bullish"@[0] != "neutral"@[0]);
        assert("bearish"@[0] != "neutral"@[0]);
    }
    if trend == BULLISH {
        "bullish"
    } else if trend == BEARISH {
        "bearish"
    } else {
        "neutral"
    }
}

/// The swing and internal trends of the structure analysis.
#[derive(Debug, Clone, Copy, PartialEq, Eq, Structural)]
pub struct SmcTrendState {
    pub swing_trend: i32,
    pub internal_trend: i32,
}

impl SmcTrendState {
    /// The label of the internal trend for the level `internal`, of the swing trend for
    /// any other level.
    pub fn get_trend(&self, level: &str) -> (s: String)
        ensures
            s@ == trend_label(
                if level@ == "internal"@ {
                    self.internal_trend
                } else {
                    self.swing_trend
                },
            ),
    {
        let trend = if label_is(level, "internal") {
            self.internal_trend
        } else {
            self.swing_trend
        };
        trend_name(trend).to_owned()
    }
}

/// The last two levels of a pivot, whether price has broken through it, and when
/// and where it was formed.
#[derive(Debug, Clone, Copy)]
pub struct PivotState<P> {
    pub current_level: Option<P>,
    pub last_level: Option<P>,
    pub crossed: bool,
    pub time: Option<u64>,
    pub index: Option<usize>,
}

impl<P: Copy> PivotState<P> {
    /// A pivot that has not been formed yet.
    pub fn new() -> (s: PivotState<P>)
        ensures
            s.current_level is None,
            s.last_level is None,
            !s.crossed,
            s.time is None,
            s.index is None,
    {
        PivotState { current_level: None, last_level: None, crossed: false, time: None, index: None }
    }

    /// A new pivot forms at `price`: the current level becomes the last one and the
    /// pivot can be broken again.
    pub fn record(&mut self, price: P, time: u64, index: usize)
        ensures
            final(self).last_level == old(self).current_level,
            final(self).current_level == Some(price),
            !final(self).crossed,
            final(self).time == Some(time),
            final(self).index == Some(index),
    {
        self.last_level = self.current_level;
        self.current_level = Some(price);
        self.crossed = false;
        self.time = Some(time);
        self.index = Some(index);
    }
}

/// A break of structure is a continuation; a change of character breaks against the
/// trend.
#[derive(Debug, Clone, Copy, PartialEq, Eq, Structural)]
pub enum StructureKind {
    Bos,
    Choch,
}

pub open spec fn structure_kind_label(k: StructureKind) -> Seq<char> {
    match k {
        StructureKind::Bos => "BOS"@,
        StructureKind::Choch => "CHoCH"@,
    }
}

impl StructureKind {
    pub fn as_str(&self) -> (s: &'static str)
        ensures
            s@ == structure_kind_label(*self),
    {
        match self {
            StructureKind::Bos => "BOS",
            StructureKind::Choch => "CHoCH",
        }
    }
}

/// A close through a pivot: its kind, its side, the pivot's level, when the pivot
/// formed (0 if unknown) and where.
#[derive(Debug, Clone, Copy)]
pub struct StructureBreak<P> {
    pub kind: StructureKind,
    pub bullish: bool,
    pub price: P,
    pub start_time: u64,
    pub pivot_index: Option<usize>,
}

/// A bullish break against a bearish trend, or a bearish break against a bullish
/// trend, changes character; any other break continues the structure.
pub open spec fn spec_break_kind(trend: i32, bullish: bool) -> StructureKind {
    if bullish {
        if trend == BEARISH {
            StructureKind::Choch
        } else {
            StructureKind::Bos
        }
    } else {
        if trend == BULLISH {
            StructureKind::Choch
        } else {
            StructureKind::Bos
        }
    }
}

/// A pivot breaks when it has a level, the close is beyond it and it has not been
/// broken since it formed.
pub open spec fn breaks<P>(pivot: PivotState<P>, close_beyond: bool) -> bool {
    pivot.current_level is Some && close_beyond && !pivot.crossed
}

pub open spec fn spec_break<P>(pivot: PivotState<P>, trend: i32, bullish: bool) -> StructureBreak<P> {
    StructureBreak {
        kind: spec_break_kind(trend, bullish),
        bullish,
        price: pivot.current_level->0,
        start_time: match pivot.time {
            Some(t) => t,
            None => 0,
        },
        pivot_index: pivot.index,
    }
}

/// The pivot after a possible break: a broken pivot is marked crossed.
pub open spec fn after_break<P>(pivot: PivotState<P>, close_beyond: bool) -> PivotState<P> {
    if breaks(pivot, close_beyond) {
        PivotState { crossed: true, ..pivot }
    } else {
        pivot
    }
}

/// Check one close against the high and low pivots of a level: first for a bullish
/// break of the high, which makes the trend bullish, then for a bearish break of the
/// low, judged against the trend as it stands after the first check.
pub fn process_structure<P: Copy>(
    high: &mut PivotState<P>,
    low: &mut PivotState<P>,
    trend: &mut i32,
    close_above_high: bool,
    close_below_low: bool,
) -> (r: (Option<StructureBreak<P>>, Option<StructureBreak<P>>))
    ensures
        r.0 == (if breaks(*old(high), close_above_high) {
            Some(spec_break(*old(high), *old(trend), true))
        } else {
            None
        }),
        *final(high) == after_break(*old(high), close_above_high),
        ({
            let mid = if breaks(*old(high), close_above_high) {
                BULLISH
            } else {
                *old(trend)
            };
            &&& r.1 == (if breaks(*old(low), close_below_low) {
                Some(spec_break(*old(low), mid, false))
            } else {
                None
            })
            &&& *final(trend) == (if breaks(*old(low), close_below_low) {
                BEARISH
            } else {
                mid
            })
        }),
        *final(low) == after_break(*old(low), close_below_low),
        r.0 is Some <==> (old(high).current_level is Some && close_above_high && !old(
            high,
        ).crossed),
        r.1 is Some <==> (old(low).current_level is Some && close_below_low && !old(low).crossed),
        r.0 matches Some(b) ==> {
            &&& Some(b.price) == old(high).current_level
            &&& b.bullish
            &&& b.pivot_index == old(high).index
            &&& (b.kind == StructureKind::Choch <==> *old(trend) == BEARISH)
        },
        r.1 matches Some(b) ==> {
            &&& Some(b.price) == old(low).current_level
            &&& !b.bullish
            &&& b.pivot_index == old(low).index
            &&& (b.kind == StructureKind::Choch <==> (*old(trend) == BULLISH || r.0 is Some))
        },
        r.1 is Some ==> *final(trend) == BEARISH,
        r.0 is Some && r.1 is None ==> *final(trend) == BULLISH,
        r.0 is None && r.1 is None ==> *final(trend) == *old(trend),
        final(high).current_level == old(high).current_level,
        final(low).current_level == old(low).current_level,
        final(high).crossed == (old(high).crossed || r.0 is Some),
        final(low).crossed == (old(low).crossed || r.1 is Some),
{
    let mut bullish_break = None;
    if let Some(level) = high.current_level {
        if close_above_high && !high.crossed {
            let kind = if *trend == BEARISH {
                StructureKind::Choch
            } else {
                StructureKind::Bos
            };
            let start_time = match high.time {
                Some(t) => t,
                None => 0,
            };
            bullish_break = Some(
                StructureBreak {
                    kind,
                    bullish: true,
                    price: level,
                    start_time,
                    pivot_index: high.index,
                },
            );
            high.crossed = true;
            *trend = BULLISH;
        }
    }
    let mut bearish_break = None;
    if let Some(level) = low.current_level {
        if close_below_low && !low.crossed {
            let kind = if *trend == BULLISH {
                StructureKind::Choch
            } else {
                StructureKind::Bos
            };
            let start_time = match low.time {
                Some(t) => t,
                None => 0,
            };
            bearish_break = Some(
                StructureBreak {
                    kind,
                    bullish: false,
                    price: level,
                    start_time,
                    pivot_index: low.index,
                },
            );
            low.crossed = true;
            *trend = BEARISH;
        }
    }
    (bullish_break, bearish_break)
}

/// Law: a pivot breaks at most once: after a break, further closes beyond it do not
/// break it again until a new pivot is recorded, which makes it breakable again.
pub proof fn law_pivot_breaks_once<P>(pivot: PivotState<P>, first: bool, second: bool)
    ensures
        breaks(pivot, first) ==> !breaks(after_break(pivot, first), second),
        !breaks(pivot, first) ==> after_break(pivot, first) == pivot,
{
}

/// Law: a break reports the level that the pivot stands at when it is broken, the
/// side it is broken from and where the pivot formed; a pivot recorded anew at some
/// price, then broken, reports that price whatever levels it had before.
pub proof fn law_break_reports_broken_level<P>(
    pivot: PivotState<P>,
    trend: i32,
    bullish: bool,
    close_beyond: bool,
    price: P,
)
    ensures
        breaks(pivot, close_beyond) ==> {
            let b = spec_break(pivot, trend, bullish);
            &&& Some(b.price) == pivot.current_level
            &&& b.bullish == bullish
            &&& b.pivot_index == pivot.index
        },
        pivot.current_level == Some(price) && !pivot.crossed ==> breaks(pivot, true)
            && spec_break(pivot, trend, bullish).price == price,
{
}

/// Law: a break is a change of character exactly when it goes against the trend it
/// meets, so when one close breaks both pivots, the bearish break (which meets the
/// bullish trend left by the first) always changes character.
pub proof fn law_change_of_character(trend: i32)
    ensures
        spec_break_kind(trend, true) == StructureKind::Choch <==> trend == BEARISH,
        spec_break_kind(trend, false) == StructureKind::Choch <==> trend == BULLISH,
        spec_break_kind(BULLISH, false) == StructureKind::Choch,
{
}

/// The label of a new swing pivot: a high above the previous high (or the first
/// one) is a higher high, otherwise a lower high; a low below the previous low (or
/// the first one) is a lower low, otherwise a higher low.
pub open spec fn swing_label(is_high: bool, beyond_last: bool) -> Seq<char> {
    if is_high {
        if beyond_last {
            "HH"@
        } else {
            "LH"@
        }
    } else {
        if beyond_last {
            "LL"@
        } else {
            "HL"@
        }
    }
}

/// `beyond_last` tells whether the new pivot has no previous level or lies beyond it
/// (above for a high, below for a low).
pub fn swing_type(is_high: bool, beyond_last: bool) -> (s: &'static str)
    ensures
        s@ == swing_label(is_high, beyond_last),
        s@ == "HH"@ <==> is_high && beyond_last,
        s@ == "LH"@ <==> is_high && !beyond_last,
        s@ == "LL"@ <==> !is_high && beyond_last,
        s@ == "HL"@ <==> !is_high && !beyond_last,
{
    proof {
        reveal_strlit("HH");
        reveal_strlit("LH");
        reveal_strlit("LL");
        reveal_strlit("HL");
        assert("HH"@[0] != "LH"@[0]);
        assert("HH"@[1] != "HL"@[1]);
        assert("LH"@[1] != "LL"@[1]);
        assert("LL"@[0] != "HL"@[0]);
        assert("HH"@[0] != "LL"@[0]);
        assert("LH"@ != "HL"@);
    }
    if is_high {
        if beyond_last {
            "HH"
        } else {
            "LH"
        }
    } else {
        if beyond_last {
            "LL"
        } else {
            "HL"
        }
    }
}

/// The pivot a leg change points at: `size` candles before the current one, when
/// there are that many.
pub fn pivot_index(index: usize, size: usize) -> (r: Option<usize>)
    ensures
        r == (if index >= size {
            Some((index - size) as usize)
        } else {
            None
        }),
{
    if index >= size {
        Some(index - size)
    } else {
        None
    }
}

/// The order blocks kept: when there are more than four times the configured
/// maximum, only the latest four times the maximum remain.
pub open spec fn kept_order_blocks<T>(blocks: Seq<T>, max_order_blocks: nat) -> Seq<T> {
    let keep = 4 * max_order_blocks;
    if blocks.len() > keep {
        blocks.skip(blocks.len() - keep)
    } else {
        blocks
    }
}

pub fn trim_order_blocks<T>(blocks: &mut Vec<T>, max_order_blocks: usize)
    requires
        4 * max_order_blocks <= usize::MAX,
    ensures
        final(blocks)@ == kept_order_blocks(old(blocks)@, max_order_blocks as nat),
        final(blocks)@.len() == vstd::math::min(
            old(blocks)@.len() as int,
            4 * max_order_blocks as int,
        ),
        final(blocks)@ == old(blocks)@.subrange(
            old(blocks)@.len() - final(blocks)@.len(),
            old(blocks)@.len() as int,
        ),
{
    let max_ob = max_order_blocks * 2;
    let keep = max_ob * 2;
    if blocks.len() > keep {
        let start = blocks.len() - keep;
        let tail = blocks.split_off(start);
        *blocks = tail;
        proof {
            assert(final(blocks)@ =~= kept_order_blocks(old(blocks)@, max_order_blocks as nat));
        }
    }
}

/// Whether a trailing extreme is likely to hold.
#[derive(Debug, Clone, Copy, PartialEq, Eq, Structural)]
pub enum LevelStrength {
    Strong,
    Weak,
}

pub open spec fn strength_label(s: LevelStrength) -> Seq<char> {
    match s {
        LevelStrength::Strong => "strong"@,
        LevelStrength::Weak => "weak"@,
    }
}

impl LevelStrength {
    pub fn as_str(&self) -> (s: &'static str)
        ensures
            s@ == strength_label(*self),
    {
        match self {
            LevelStrength::Strong => "strong",
            LevelStrength::Weak => "weak",
        }
    }
}

/// Whether a level is the trailing top or the trailing bottom.
#[derive(Debug, Clone, Copy, PartialEq, Eq, Structural)]
pub enum LevelSide {
    High,
    Low,
}

pub open spec fn side_label(s: LevelSide) -> Seq<char> {
    match s {
        LevelSide::High => "high"@,
        LevelSide::Low => "low"@,
    }
}

impl LevelSide {
    pub fn as_str(&self) -> (s: &'static str)
        ensures
            s@ == side_label(*self),
    {
        match self {
            LevelSide::High => "high",
            LevelSide::Low => "low",
        }
    }
}

/// A strong or weak level: a trailing extreme of the swing structure.
#[derive(Debug, Clone, Copy)]
pub struct StrongWeakLevel<P> {
    pub time: u64,
    pub price: P,
    pub strength: LevelStrength,
    pub level_type: LevelSide,
}

/// The levels after a new one replaces all earlier levels of its side.
pub open spec fn replaced_levels<P>(levels: Seq<StrongWeakLevel<P>>, level: StrongWeakLevel<P>) -> Seq<
    StrongWeakLevel<P>,
> {
    levels.filter(|l: StrongWeakLevel<P>| l.level_type != level.level_type).push(level)
}

/// Put `level` in place of every earlier level of its side.
pub fn replace_level<P: Copy>(levels: &mut Vec<StrongWeakLevel<P>>, level: StrongWeakLevel<P>)
    ensures
        final(levels)@ == replaced_levels(old(levels)@, level),
        final(levels)@.len() >= 1,
        final(levels)@.last() == level,
        final(levels)@.len() <= old(levels)@.len() + 1,
        forall|i: int|
            0 <= i < final(levels)@.len() - 1 ==> final(levels)@[i].level_type != level.level_type
                && old(levels)@.contains(final(levels)@[i]),
        forall|i: int|
            0 <= i < old(levels)@.len() && old(levels)@[i].level_type != level.level_type
                ==> final(levels)@.contains(old(levels)@[i]),
{
    proof {
        law_replace_level(old(levels)@, level);
    }
    let ghost keep = |l: StrongWeakLevel<P>| l.level_type != level.level_type;
    let mut kept: Vec<StrongWeakLevel<P>> = Vec::new();
    let n = levels.len();
    let mut i: usize = 0;
    while i < n
        invariant
            n == levels@.len(),
            i <= n,
            keep == (|l: StrongWeakLevel<P>| l.level_type != level.level_type),
            kept@ == levels@.take(i as int).filter(keep),
        decreases n - i,
    {
        proof {
            reveal_with_fuel(Seq::filter, 1);
            assert(levels@.take(i + 1).drop_last() =~= levels@.take(i as int));
        }
        let l = levels[i];
        if l.level_type != level.level_type {
            kept.push(l);
        }
        i = i + 1;
    }
    proof {
        assert(levels@.take(n as int) =~= levels@);
    }
    kept.push(level);
    *levels = kept;
}

/// Law: after a level replaces those of its side it is the last level and the only
/// one of its side, every level of the other side stays, and no level is made up.
pub proof fn law_replace_level<P>(levels: Seq<StrongWeakLevel<P>>, level: StrongWeakLevel<P>)
    ensures
        ({
            let r = replaced_levels(levels, level);
            &&& r.len() >= 1
            &&& r.last() == level
            &&& r.len() <= levels.len() + 1
            &&& forall|i: int|
                0 <= i < r.len() - 1 ==> r[i].level_type != level.level_type && levels.contains(
                    r[i],
                )
            &&& forall|i: int|
                0 <= i < levels.len() && levels[i].level_type != level.level_type ==> r.contains(
                    levels[i],
                )
        }),
{
    broadcast use vstd::seq_lib::group_filter_ensures;

    let keep = |l: StrongWeakLevel<P>| l.level_type != level.level_type;
    let kept = levels.filter(keep);
    let r = replaced_levels(levels, level);
    assert(r == kept.push(level));
    assert forall|i: int| 0 <= i < r.len() - 1 implies r[i].level_type != level.level_type
        && levels.contains(r[i]) by {
        assert(r[i] == kept[i]);
        assert(keep(kept[i]));
        assert(kept.contains(kept[i]));
        levels.lemma_filter_contains_rev(keep, kept[i]);
    }
    assert forall|i: int|
        0 <= i < levels.len() && levels[i].level_type != level.level_type implies r.contains(
        levels[i],
    ) by {
        assert(keep(levels[i]));
        assert(kept.contains(levels[i]));
        let j = choose|j: int| 0 <= j < kept.len() && kept[j] == levels[i];
        assert(r[j] == levels[i]);
    }
}

/// The strength of the trailing top in a swing trend: strong when bearish.
pub open spec fn top_strength(swing_trend: i32) -> LevelStrength {
    if swing_trend == BEARISH {
        LevelStrength::Strong
    } else {
        LevelStrength::Weak
    }
}

/// The strength of the trailing bottom in a swing trend: strong when bullish.
pub open spec fn bottom_strength(swing_trend: i32) -> LevelStrength {
    if swing_trend == BULLISH {
        LevelStrength::Strong
    } else {
        LevelStrength::Weak
    }
}

pub open spec fn spec_strong_weak_levels<P>(
    levels: Seq<StrongWeakLevel<P>>,
    swing_trend: i32,
    top: (u64, P),
    bottom: (u64, P),
) -> Seq<StrongWeakLevel<P>> {
    let after_top = replaced_levels(
        levels,
        StrongWeakLevel {
            time: top.0,
            price: top.1,
            strength: top_strength(swing_trend),
            level_type: LevelSide::High,
        },
    );
    replaced_levels(
        after_top,
        StrongWeakLevel {
            time: bottom.0,
            price: bottom.1,
            strength: bottom_strength(swing_trend),
            level_type: LevelSide::Low,
        },
    )
}

/// Record the trailing top and bottom (time and price) as the current high and low
/// levels, each replacing the earlier level of its side.
pub fn update_strong_weak_levels<P: Copy>(
    levels: &mut Vec<StrongWeakLevel<P>>,
    swing_trend: i32,
    top: (u64, P),
    bottom: (u64, P),
)
    ensures
        final(levels)@ == spec_strong_weak_levels(old(levels)@, swing_trend, top, bottom),
        final(levels)@.len() == 2,
        final(levels)@[0] == (StrongWeakLevel {
            time: top.0,
            price: top.1,
            strength: if swing_trend == BEARISH {
                LevelStrength::Strong
            } else {
                LevelStrength::Weak
            },
            level_type: LevelSide::High,
        }),
        final(levels)@[1] == (StrongWeakLevel {
            time: bottom.0,
            price: bottom.1,
            strength: if swing_trend == BULLISH {
                LevelStrength::Strong
            } else {
                LevelStrength::Weak
            },
            level_type: LevelSide::Low,
        }),
{
    proof {
        law_one_level_per_side(old(levels)@, swing_trend, top, bottom);
    }
    let top_strength = if swing_trend == BEARISH {
        LevelStrength::Strong
    } else {
        LevelStrength::Weak
    };
    let bottom_strength = if swing_trend == BULLISH {
        LevelStrength::Strong
    } else {
        LevelStrength::Weak
    };
    replace_level(
        levels,
        StrongWeakLevel { time: top.0, price: top.1, strength: top_strength, level_type: LevelSide::High },
    );
    replace_level(
        levels,
        StrongWeakLevel {
            time: bottom.0,
            price: bottom.1,
            strength: bottom_strength,
            level_type: LevelSide::Low,
        },
    );
}

/// Law: after an update there is exactly one high level and one low level, the high
/// level last but one and the low level last.
pub proof fn law_one_level_per_side<P>(
    levels: Seq<StrongWeakLevel<P>>,
    swing_trend: i32,
    top: (u64, P),
    bottom: (u64, P),
)
    ensures
        ({
            let r = spec_strong_weak_levels(levels, swing_trend, top, bottom);
            &&& r.len() == 2
            &&& r[0].level_type == LevelSide::High
            &&& r[0].time == top.0
            &&& r[0].price == top.1
            &&& (r[0].strength == LevelStrength::Strong <==> swing_trend == BEARISH)
            &&& r[1].level_type == LevelSide::Low
            &&& r[1].time == bottom.0
            &&& r[1].price == bottom.1
            &&& (r[1].strength == LevelStrength::Strong <==> swing_trend == BULLISH)
        }),
{
    broadcast use vstd::seq_lib::group_filter_ensures;

    let high = StrongWeakLevel {
        time: top.0,
        price: top.1,
        strength: top_strength(swing_trend),
        level_type: LevelSide::High,
    };
    let low = StrongWeakLevel {
        time: bottom.0,
        price: bottom.1,
        strength: bottom_strength(swing_trend),
        level_type: LevelSide::Low,
    };
    let not_high = |l: StrongWeakLevel<P>| l.level_type != LevelSide::High;
    let not_low = |l: StrongWeakLevel<P>| l.level_type != LevelSide::Low;
    let lows = levels.filter(not_high);
    assert(lows.all(|x: StrongWeakLevel<P>| !not_low(x))) by {
        assert forall|i: int| 0 <= i < lows.len() implies !not_low(#[trigger] lows[i]) by {
            assert(not_high(lows[i]));
        }
    }
    lows.lemma_all_neg_filter_empty(not_low);
    lows.lemma_filter_push(high, not_low);
    assert(replaced_levels(levels, high) == lows.push(high));
    let after_top = lows.push(high);
    assert(after_top.filter(not_low) =~= seq![high]);
    assert(spec_strong_weak_levels(levels, swing_trend, top, bottom) =~= seq![high, low]);
}

} // verus!
