use vstd::prelude::*;
use vstd::string::*;

verus! {

/// Whether a string reads exactly `label`.
pub fn label_is(s: &str, label: &str) -> (b: bool)
    ensures
        b == (s@ == label@),
{
    let given = s.to_owned();
    let expected = label.to_owned();
    given.eq(&expected)
}

/// Where a close sits inside the Bollinger band.
#[derive(Debug, Clone, Copy, PartialEq, Eq, Structural)]
pub enum BbPosition {
    NearUpper,
    Middle,
    NearLower,
    Unknown,
}

/// The label of each Bollinger position.
pub open spec fn bb_position_label(p: BbPosition) -> Seq<char> {
    match p {
        BbPosition::NearUpper => "NearUpper"@,
        BbPosition::Middle => "Middle"@,
        BbPosition::NearLower => "NearLower"@,
        BbPosition::Unknown => "Unknown"@,
    }
}

impl BbPosition {
    pub fn as_str(&self) -> (s: &'static str)
        ensures
            s@ == bb_position_label(*self),
    {
        match self {
            BbPosition::NearUpper => "NearUpper",
            BbPosition::Middle => "Middle",
            BbPosition::NearLower => "NearLower",
            BbPosition::Unknown => "Unknown",
        }
    }
}

/// The slope of a moving average from one candle to the next.
#[derive(Debug, Clone, Copy, PartialEq, Eq, Structural)]
pub enum Direction {
    Up,
    Down,
    Flat,
}

pub open spec fn direction_label(d: Direction) -> Seq<char> {
    match d {
        Direction::Up => "Up"@,
        Direction::Down => "Down"@,
        Direction::Flat => "Flat"@,
    }
}

/// The one-letter code of a direction inside a status description.
pub open spec fn direction_letter(d: Direction) -> Seq<char> {
    match d {
        Direction::Up => "U"@,
        Direction::Down => "D"@,
        Direction::Flat => "F"@,
    }
}

/// The value whose label is `s`, if any.
pub open spec fn parse_direction(s: Seq<char>) -> Option<Direction> {
    if s == "Up"@ {
        Some(Direction::Up)
    } else if s == "Down"@ {
        Some(Direction::Down)
    } else if s == "Flat"@ {
        Some(Direction::Flat)
    } else {
        None
    }
}

/// Law: reading the label of a value gives the value back.
pub proof fn law_direction_label_round_trip(x: Direction)
    ensures
        parse_direction(direction_label(x)) == Some(x),
{
    reveal_strlit("Up");
    assert("Up"@[0] == 'U');
    reveal_strlit("Down");
    assert("Down"@[0] == 'D');
    reveal_strlit("Flat");
    assert("Flat"@[0] == 'F');
}

impl Direction {
    /// The value whose label `s` is, if any.
    pub fn from_label(s: &str) -> (r: Option<Direction>)
        ensures
            r == parse_direction(s@),
    {
        if label_is(s, "Up") {
            Some(Direction::Up)
        } else if label_is(s, "Down") {
            Some(Direction::Down)
        } else if label_is(s, "Flat") {
            Some(Direction::Flat)
        } else {
            None
        }
    }

    pub fn as_str(&self) -> (s: &'static str)
        ensures
            s@ == direction_label(*self),
    {
        match self {
            Direction::Up => "Up",
            Direction::Down => "Down",
            Direction::Flat => "Flat",
        }
    }

    pub fn letter(&self) -> (s: &'static str)
        ensures
            s@ == direction_letter(*self),
    {
        match self {
            Direction::Up => "U",
            Direction::Down => "D",
            Direction::Flat => "F",
        }
    }
}

/// The colour of a candle: close above, below or equal to its open.
#[derive(Debug, Clone, Copy, PartialEq, Eq, Structural)]
pub enum CandleColor {
    Green,
    Red,
    Equal,
}

pub open spec fn color_label(c: CandleColor) -> Seq<char> {
    match c {
        CandleColor::Green => "Green"@,
        CandleColor::Red => "Red"@,
        CandleColor::Equal => "Equal"@,
    }
}

pub open spec fn color_letter(c: CandleColor) -> Seq<char> {
    match c {
        CandleColor::Green => "G"@,
        CandleColor::Red => "R"@,
        CandleColor::Equal => "E"@,
    }
}

/// The value whose label is `s`, if any.
pub open spec fn parse_color(s: Seq<char>) -> Option<CandleColor> {
    if s == "Green"@ {
        Some(CandleColor::Green)
    } else if s == "Red"@ {
        Some(CandleColor::Red)
    } else if s == "Equal"@ {
        Some(CandleColor::Equal)
    } else {
        None
    }
}

/// Law: reading the label of a value gives the value back.
pub proof fn law_color_label_round_trip(x: CandleColor)
    ensures
        parse_color(color_label(x)) == Some(x),
{
    reveal_strlit("Green");
    assert("Green"@[0] == 'G');
    reveal_strlit("Red");
    assert("Red"@[0] == 'R');
    reveal_strlit("Equal");
    assert("Equal"@[0] == 'E');
}

impl CandleColor {
    /// The value whose label `s` is, if any.
    pub fn from_label(s: &str) -> (r: Option<CandleColor>)
        ensures
            r == parse_color(s@),
    {
        if label_is(s, "Green") {
            Some(CandleColor::Green)
        } else if label_is(s, "Red") {
            Some(CandleColor::Red)
        } else if label_is(s, "Equal") {
            Some(CandleColor::Equal)
        } else {
            None
        }
    }

    pub fn as_str(&self) -> (s: &'static str)
        ensures
            s@ == color_label(*self),
    {
        match self {
            CandleColor::Green => "Green",
            CandleColor::Red => "Red",
            CandleColor::Equal => "Equal",
        }
    }

    pub fn letter(&self) -> (s: &'static str)
        ensures
            s@ == color_letter(*self),
    {
        match self {
            CandleColor::Green => "G",
            CandleColor::Red => "R",
            CandleColor::Equal => "E",
        }
    }
}

/// Which of the short and medium averages lies above the other.
#[derive(Debug, Clone, Copy, PartialEq, Eq, Structural)]
pub enum ShortRelation {
    ShortAbove,
    MediumAbove,
}

pub open spec fn short_relation_label(r: ShortRelation) -> Seq<char> {
    match r {
        ShortRelation::ShortAbove => "ShortAbove"@,
        ShortRelation::MediumAbove => "MediumAbove"@,
    }
}

/// The value whose label is `s`, if any.
pub open spec fn parse_short_relation(s: Seq<char>) -> Option<ShortRelation> {
    if s == "ShortAbove"@ {
        Some(ShortRelation::ShortAbove)
    } else if s == "MediumAbove"@ {
        Some(ShortRelation::MediumAbove)
    } else {
        None
    }
}

/// Law: reading the label of a value gives the value back.
pub proof fn law_short_relation_label_round_trip(x: ShortRelation)
    ensures
        parse_short_relation(short_relation_label(x)) == Some(x),
{
    reveal_strlit("ShortAbove");
    assert("ShortAbove"@[0] == 'S');
    reveal_strlit("MediumAbove");
    assert("MediumAbove"@[0] == 'M');
}

impl ShortRelation {
    /// The value whose label `s` is, if any.
    pub fn from_label(s: &str) -> (r: Option<ShortRelation>)
        ensures
            r == parse_short_relation(s@),
    {
        if label_is(s, "ShortAbove") {
            Some(ShortRelation::ShortAbove)
        } else if label_is(s, "MediumAbove") {
            Some(ShortRelation::MediumAbove)
        } else {
            None
        }
    }

    /// `ShortAbove` exactly when the short average is strictly above the medium one.
    pub fn from_short_above(short_above: bool) -> (r: ShortRelation)
        ensures
            r == (if short_above { ShortRelation::ShortAbove } else { ShortRelation::MediumAbove }),
    {
        if short_above {
            ShortRelation::ShortAbove
        } else {
            ShortRelation::MediumAbove
        }
    }

    pub fn as_str(&self) -> (s: &'static str)
        ensures
            s@ == short_relation_label(*self),
    {
        match self {
            ShortRelation::ShortAbove => "ShortAbove",
            ShortRelation::MediumAbove => "MediumAbove",
        }
    }
}

/// Which of the medium and long averages lies above the other.
#[derive(Debug, Clone, Copy, PartialEq, Eq, Structural)]
pub enum LongRelation {
    MediumAbove,
    LongAbove,
}

pub open spec fn long_relation_label(r: LongRelation) -> Seq<char> {
    match r {
        LongRelation::MediumAbove => "MediumAbove"@,
        LongRelation::LongAbove => "LongAbove"@,
    }
}

pub open spec fn long_relation_letter(r: LongRelation) -> Seq<char> {
    match r {
        LongRelation::MediumAbove => "M"@,
        LongRelation::LongAbove => "L"@,
    }
}

impl LongRelation {
    /// `MediumAbove` exactly when the medium average is strictly above the long one.
    pub fn from_medium_above(medium_above: bool) -> (r: LongRelation)
        ensures
            r == (if medium_above { LongRelation::MediumAbove } else { LongRelation::LongAbove }),
    {
        if medium_above {
            LongRelation::MediumAbove
        } else {
            LongRelation::LongAbove
        }
    }

    pub fn as_str(&self) -> (s: &'static str)
        ensures
            s@ == long_relation_label(*self),
    {
        match self {
            LongRelation::MediumAbove => "MediumAbove",
            LongRelation::LongAbove => "LongAbove",
        }
    }

    pub fn letter(&self) -> (s: &'static str)
        ensures
            s@ == long_relation_letter(*self),
    {
        match self {
            LongRelation::MediumAbove => "M",
            LongRelation::LongAbove => "L",
        }
    }
}

/// The outcome of comparing a current value with a previous one.
#[derive(Debug, Clone, Copy, PartialEq, Eq, Structural)]
pub enum Comparison {
    Greater,
    Less,
    Same,
}

/// How the gap between two averages evolved, in words.
#[derive(Debug, Clone, Copy, PartialEq, Eq, Structural)]
pub enum ConvergenceKind {
    Divergence,
    Convergence,
    Neutral,
}

pub open spec fn convergence_kind_label(k: ConvergenceKind) -> Seq<char> {
    match k {
        ConvergenceKind::Divergence => "divergence"@,
        ConvergenceKind::Convergence => "convergence"@,
        ConvergenceKind::Neutral => "neutral"@,
    }
}

impl ConvergenceKind {
    pub fn as_str(&self) -> (s: &'static str)
        ensures
            s@ == convergence_kind_label(*self),
    {
        match self {
            ConvergenceKind::Divergence => "divergence",
            ConvergenceKind::Convergence => "convergence",
            ConvergenceKind::Neutral => "neutral",
        }
    }
}

/// A gap that widened diverges, one that shrank converges, an unchanged one is neutral.
pub fn convergence_kind(gap_now_vs_before: Comparison) -> (k: ConvergenceKind)
    ensures
        k == (match gap_now_vs_before {
            Comparison::Greater => ConvergenceKind::Divergence,
            Comparison::Less => ConvergenceKind::Convergence,
            Comparison::Same => ConvergenceKind::Neutral,
        }),
{
    match gap_now_vs_before {
        Comparison::Greater => ConvergenceKind::Divergence,
        Comparison::Less => ConvergenceKind::Convergence,
        Comparison::Same => ConvergenceKind::Neutral,
    }
}

/// The label of the short/medium convergence in the EMA analysis rows: the
/// comparison of the current gap with the previous one, or `Neutral` (capitalised)
/// when either gap is missing or the two are equal.
pub open spec fn ema_row_convergence_label(gap_now_vs_before: Option<Comparison>) -> Seq<char> {
    match gap_now_vs_before {
        Some(Comparison::Greater) => "divergence"@,
        Some(Comparison::Less) => "convergence"@,
        _ => "Neutral"@,
    }
}

pub fn ema_row_convergence(gap_now_vs_before: Option<Comparison>) -> (s: &'static str)
    ensures
        s@ == ema_row_convergence_label(gap_now_vs_before),
{
    match gap_now_vs_before {
        Some(Comparison::Greater) => "divergence",
        Some(Comparison::Less) => "convergence",
        _ => "Neutral",
    }
}

/// The one-letter convergence code of the medium/long gap.
#[derive(Debug, Clone, Copy, PartialEq, Eq, Structural)]
pub enum ConvergenceCode {
    Divergence,
    Convergence,
    Narrow,
}

pub open spec fn convergence_letter(c: ConvergenceCode) -> Seq<char> {
    match c {
        ConvergenceCode::Divergence => "D"@,
        ConvergenceCode::Convergence => "C"@,
        ConvergenceCode::Narrow => "N"@,
    }
}

impl ConvergenceCode {
    pub fn letter(&self) -> (s: &'static str)
        ensures
            s@ == convergence_letter(*self),
    {
        match self {
            ConvergenceCode::Divergence => "D",
            ConvergenceCode::Convergence => "C",
            ConvergenceCode::Narrow => "N",
        }
    }
}

/// The MACD convergence code of a full analysis: a gap at most the narrow threshold
/// is `N`; otherwise a widening gap is `D`, a shrinking one `C`, and an unchanged one
/// has no code.
pub fn macd_convergence(within_narrow: bool, gap_now_vs_before: Comparison) -> (c: Option<
    ConvergenceCode,
>)
    ensures
        c == (if within_narrow {
            Some(ConvergenceCode::Narrow)
        } else {
            match gap_now_vs_before {
                Comparison::Greater => Some(ConvergenceCode::Divergence),
                Comparison::Less => Some(ConvergenceCode::Convergence),
                Comparison::Same => None,
            }
        }),
{
    if within_narrow {
        return Some(ConvergenceCode::Narrow);
    }
    match gap_now_vs_before {
        Comparison::Greater => Some(ConvergenceCode::Divergence),
        Comparison::Less => Some(ConvergenceCode::Convergence),
        Comparison::Same => None,
    }
}

/// The convergence code of an incrementally appended candle: `D` or `C` when the
/// gap widened or shrank, `N` when it is unchanged or there is no previous gap.
pub fn tick_convergence(gap_now_vs_before: Option<Comparison>) -> (c: ConvergenceCode)
    ensures
        c == (match gap_now_vs_before {
            Some(Comparison::Greater) => ConvergenceCode::Divergence,
            Some(Comparison::Less) => ConvergenceCode::Convergence,
            _ => ConvergenceCode::Narrow,
        }),
{
    match gap_now_vs_before {
        Some(Comparison::Greater) => ConvergenceCode::Divergence,
        Some(Comparison::Less) => ConvergenceCode::Convergence,
        _ => ConvergenceCode::Narrow,
    }
}

/// A turn of the short average.
#[derive(Debug, Clone, Copy, PartialEq, Eq, Structural)]
pub enum TurnType {
    TurnUp,
    TurnDown,
    NoTurn,
}

/// Labels of a turn in a full analysis, where the absence of a turn reads `-`.
pub open spec fn turn_label(t: TurnType) -> Seq<char> {
    match t {
        TurnType::TurnUp => "TurnUp"@,
        TurnType::TurnDown => "TurnDown"@,
        TurnType::NoTurn => "-"@,
    }
}

/// Labels of a turn in an EMA analysis row, where the absence of a turn reads `None`.
pub open spec fn turn_row_label(t: TurnType) -> Seq<char> {
    match t {
        TurnType::TurnUp => "TurnUp"@,
        TurnType::TurnDown => "TurnDown"@,
        TurnType::NoTurn => "None"@,
    }
}

impl TurnType {
    pub fn as_str(&self) -> (s: &'static str)
        ensures
            s@ == turn_label(*self),
    {
        match self {
            TurnType::TurnUp => "TurnUp",
            TurnType::TurnDown => "TurnDown",
            TurnType::NoTurn => "-",
        }
    }

    pub fn as_row_str(&self) -> (s: &'static str)
        ensures
            s@ == turn_row_label(*self),
    {
        match self {
            TurnType::TurnUp => "TurnUp",
            TurnType::TurnDown => "TurnDown",
            TurnType::NoTurn => "None",
        }
    }
}

pub open spec fn spec_turn_type(previous: Direction, current: Direction) -> TurnType {
    if current == Direction::Up && previous == Direction::Down {
        TurnType::TurnUp
    } else if current == Direction::Down && previous == Direction::Up {
        TurnType::TurnDown
    } else {
        TurnType::NoTurn
    }
}

/// The short average turns up when it went down and now goes up, and turns down in
/// the opposite case; every other pair of moves is no turn.
pub fn turn_type(previous: Direction, current: Direction) -> (t: TurnType)
    ensures
        t == spec_turn_type(previous, current),
        (t == TurnType::TurnUp) == (previous == Direction::Down && current == Direction::Up),
        (t == TurnType::TurnDown) == (previous == Direction::Up && current == Direction::Down),
        previous == current ==> t == TurnType::NoTurn,
{
    match (previous, current) {
        (Direction::Down, Direction::Up) => TurnType::TurnUp,
        (Direction::Up, Direction::Down) => TurnType::TurnDown,
        _ => TurnType::NoTurn,
    }
}

/// Law: a turn needs a change of direction: the short average turns up exactly when
/// a fall is followed by a rise, turns down exactly when a rise is followed by a
/// fall, and two moves in the same direction are never a turn.
pub proof fn law_turn_needs_change(previous: Direction, current: Direction)
    ensures
        (spec_turn_type(previous, current) == TurnType::TurnUp) == (previous == Direction::Down
            && current == Direction::Up),
        (spec_turn_type(previous, current) == TurnType::TurnDown) == (previous == Direction::Up
            && current == Direction::Down),
        previous == current ==> spec_turn_type(previous, current) == TurnType::NoTurn,
{
}

/// A cross of two averages.
#[derive(Debug, Clone, Copy, PartialEq, Eq, Structural)]
pub enum CutType {
    UpTrend,
    DownTrend,
}

pub open spec fn cut_label(c: CutType) -> Seq<char> {
    match c {
        CutType::UpTrend => "UpTrend"@,
        CutType::DownTrend => "DownTrend"@,
    }
}

/// The value whose label is `s`, if any.
pub open spec fn parse_cut(s: Seq<char>) -> Option<CutType> {
    if s == "UpTrend"@ {
        Some(CutType::UpTrend)
    } else if s == "DownTrend"@ {
        Some(CutType::DownTrend)
    } else {
        None
    }
}

/// Law: reading the label of a value gives the value back.
pub proof fn law_cut_label_round_trip(x: CutType)
    ensures
        parse_cut(cut_label(x)) == Some(x),
{
    reveal_strlit("UpTrend");
    assert("UpTrend"@[0] == 'U');
    reveal_strlit("DownTrend");
    assert("DownTrend"@[0] == 'D');
}

impl CutType {
    /// The value whose label `s` is, if any.
    pub fn from_label(s: &str) -> (r: Option<CutType>)
        ensures
            r == parse_cut(s@),
    {
        if label_is(s, "UpTrend") {
            Some(CutType::UpTrend)
        } else if label_is(s, "DownTrend") {
            Some(CutType::DownTrend)
        } else {
            None
        }
    }

    pub fn as_str(&self) -> (s: &'static str)
        ensures
            s@ == cut_label(*self),
    {
        match self {
            CutType::UpTrend => "UpTrend",
            CutType::DownTrend => "DownTrend",
        }
    }
}

pub open spec fn spec_cut_type(previously_above: bool, now_above: bool) -> Option<CutType> {
    if previously_above == now_above {
        None
    } else if now_above {
        Some(CutType::UpTrend)
    } else {
        Some(CutType::DownTrend)
    }
}

/// A cross happens when the faster average changes side: crossing above is an
/// up-trend, crossing below a down-trend.
pub fn ema_cut_type(previously_above: bool, now_above: bool) -> (c: Option<CutType>)
    ensures
        c == spec_cut_type(previously_above, now_above),
        c is None <==> previously_above == now_above,
        c == Some(CutType::UpTrend) <==> !previously_above && now_above,
        c == Some(CutType::DownTrend) <==> previously_above && !now_above,
{
    if now_above != previously_above {
        if now_above {
            Some(CutType::UpTrend)
        } else {
            Some(CutType::DownTrend)
        }
    } else {
        None
    }
}

/// Law: a cross is a change of side: there is none while the faster average stays
/// on one side, an up-trend cross exactly when it moves from below to above, and a
/// down-trend cross exactly when it moves from above to below.
pub proof fn law_cross_is_change_of_side(previously_above: bool, now_above: bool)
    ensures
        spec_cut_type(previously_above, now_above) is None <==> previously_above == now_above,
        spec_cut_type(previously_above, now_above) == Some(CutType::UpTrend) <==> !previously_above
            && now_above,
        spec_cut_type(previously_above, now_above) == Some(CutType::DownTrend)
            <==> previously_above && !now_above,
{
}

} // verus!
