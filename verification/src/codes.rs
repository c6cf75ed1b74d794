use vstd::prelude::*;
use vstd::string::*;

use crate::signals::{
    color_letter, convergence_letter, direction_letter, long_relation_letter, CandleColor,
    ConvergenceCode, Direction, LongRelation,
};

verus! {

/// A trading rule of the candle master table: a status code for a status description.
#[derive(Debug, Clone)]
pub struct CandleMasterCode {
    pub status_code: String,
    pub status_desc: String,
}

/// One row of the series code table: a numeric series code for a status description.
#[derive(Debug, Clone)]
pub struct MasterRecord {
    pub status_code: u32,
    pub status_desc: String,
}

/// The map that a list of records describes when they are entered in order: a later
/// record for the same description replaces an earlier one.
pub open spec fn records_map(records: Seq<MasterRecord>) -> Map<Seq<char>, u32>
    decreases records.len(),
{
    if records.len() == 0 {
        Map::empty()
    } else {
        records_map(records.drop_last()).insert(
            records.last().status_desc@,
            records.last().status_code,
        )
    }
}

/// The table from status descriptions to series codes.
pub struct SeriesCodeTable {
    records: Vec<MasterRecord>,
}

impl View for SeriesCodeTable {
    type V = Map<Seq<char>, u32>;

    closed spec fn view(&self) -> Map<Seq<char>, u32> {
        records_map(self.records@)
    }
}

impl SeriesCodeTable {
    pub fn new() -> (t: SeriesCodeTable)
        ensures
            t@ == Map::<Seq<char>, u32>::empty(),
    {
        SeriesCodeTable { records: Vec::new() }
    }

    /// Enter a record; it replaces any earlier code of the same description.
    pub fn insert(&mut self, status_desc: String, status_code: u32)
        ensures
            final(self)@ == old(self)@.insert(status_desc@, status_code),
    {
        let ghost before = self.records@;
        self.records.push(MasterRecord { status_code, status_desc });
        proof {
            assert(self.records@.drop_last() =~= before);
        }
    }
}

/// Build the table from records in order: for each description, the code of its
/// last record counts.
pub fn build_status_code_map(records: Vec<MasterRecord>) -> (t: SeriesCodeTable)
    ensures
        t@ == records_map(records@),
{
    SeriesCodeTable { records }
}

/// The series code of a status description, if the table has one.
pub fn lookup_series_code(table: &SeriesCodeTable, status_desc: &str) -> (r: Option<u32>)
    ensures
        r == (if table@.dom().contains(status_desc@) {
            Some(table@[status_desc@])
        } else {
            None
        }),
{
    let key = status_desc.to_owned();
    let records = &table.records;
    let mut i = records.len();
    proof {
        assert(table@ == records_map(records@));
        assert(records@.take(i as int) =~= records@);
    }
    while i > 0
        invariant
            i <= records@.len(),
            key@ == status_desc@,
            table@ == records_map(records@),
            records_map(records@).dom().contains(key@) == records_map(
                records@.take(i as int),
            ).dom().contains(key@),
            records_map(records@).dom().contains(key@) ==> records_map(records@)[key@]
                == records_map(records@.take(i as int))[key@],
        decreases i,
    {
        let record = &records[i - 1];
        proof {
            assert(records@.take(i as int).drop_last() =~= records@.take(i - 1));
            assert(records@.take(i as int).last() == records@[i - 1]);
        }
        if record.status_desc.eq(&key) {
            proof {
                assert(records_map(records@.take(i as int)) == records_map(
                    records@.take(i - 1),
                ).insert(key@, record.status_code));
            }
            return Some(record.status_code);
        }
        i = i - 1;
    }
    proof {
        assert(records@.take(0) =~= Seq::<MasterRecord>::empty());
    }
    None
}

/// Law: a status description entered last is looked up with its code, whatever
/// came before; other descriptions keep their codes.
pub proof fn law_lookup_after_insert(
    before: Map<Seq<char>, u32>,
    status_desc: Seq<char>,
    status_code: u32,
    other: Seq<char>,
)
    requires
        other != status_desc,
    ensures
        before.insert(status_desc, status_code).dom().contains(status_desc),
        before.insert(status_desc, status_code)[status_desc] == status_code,
        before.insert(status_desc, status_code).dom().contains(other) == before.dom().contains(
            other,
        ),
        before.dom().contains(other) ==> before.insert(status_desc, status_code)[other]
            == before[other],
{
}

/// Law: the table built from records maps each description to the code of its last
/// record, and knows no description without a record.
pub proof fn law_last_record_wins(records: Seq<MasterRecord>, i: int)
    requires
        0 <= i < records.len(),
        forall|j: int| i < j < records.len() ==> records[j].status_desc@ != records[i].status_desc@,
    ensures
        records_map(records).dom().contains(records[i].status_desc@),
        records_map(records)[records[i].status_desc@] == records[i].status_code,
    decreases records.len(),
{
    if i < records.len() - 1 {
        law_last_record_wins(records.drop_last(), i);
    }
}

/// Law: a description that no record carries has no code.
pub proof fn law_unknown_description(records: Seq<MasterRecord>, desc: Seq<char>)
    requires
        forall|j: int| 0 <= j < records.len() ==> records[j].status_desc@ != desc,
    ensures
        !records_map(records).dom().contains(desc),
    decreases records.len(),
{
    if records.len() > 0 {
        law_unknown_description(records.drop_last(), desc);
    }
}

/// The status description of a full analysis: the relation of the medium and long
/// averages (`-` when unknown), the medium and long directions, the candle colour and
/// the convergence code (`-` when there is none), as `R-MLd-C-V`.
pub open spec fn series_desc(
    long_above: Option<LongRelation>,
    medium: Direction,
    long: Direction,
    color: CandleColor,
    convergence: Option<ConvergenceCode>,
) -> Seq<char> {
    (match long_above {
        Some(r) => long_relation_letter(r),
        None => "-"@,
    }) + "-"@ + direction_letter(medium) + direction_letter(long) + "-"@ + color_letter(color)
        + "-"@ + (match convergence {
        Some(c) => convergence_letter(c),
        None => "-"@,
    })
}

pub fn series_status_desc(
    long_above: Option<LongRelation>,
    medium: Direction,
    long: Direction,
    color: CandleColor,
    convergence: Option<ConvergenceCode>,
) -> (s: String)
    ensures
        s@ == series_desc(long_above, medium, long, color, convergence),
{
    let mut s = String::new();
    match long_above {
        Some(r) => s.append(r.letter()),
        None => s.append("-"),
    }
    s.append("-");
    s.append(medium.letter());
    s.append(long.letter());
    s.append("-");
    s.append(color.letter());
    s.append("-");
    match convergence {
        Some(c) => s.append(c.letter()),
        None => s.append("-"),
    }
    s
}

/// The status description of an appended candle, as `R-M-L-C-V`: relation of the
/// medium and long averages, medium direction, long direction, colour, convergence.
pub open spec fn tick_desc(
    long_above: LongRelation,
    medium: Direction,
    long: Direction,
    color: CandleColor,
    convergence: ConvergenceCode,
) -> Seq<char> {
    long_relation_letter(long_above) + "-"@ + direction_letter(medium) + "-"@ + direction_letter(
        long,
    ) + "-"@ + color_letter(color) + "-"@ + convergence_letter(convergence)
}

pub fn tick_status_desc(
    long_above: LongRelation,
    medium: Direction,
    long: Direction,
    color: CandleColor,
    convergence: ConvergenceCode,
) -> (s: String)
    ensures
        s@ == tick_desc(long_above, medium, long, color, convergence),
{
    let mut s = String::new();
    s.append(long_above.letter());
    s.append("-");
    s.append(medium.letter());
    s.append("-");
    s.append(long.letter());
    s.append("-");
    s.append(color.letter());
    s.append("-");
    s.append(convergence.letter());
    s
}

proof fn lemma_letters()
    ensures
        "-"@ == seq!['-'],
        "M"@ == seq!['M'],
        "L"@ == seq!['L'],
        "U"@ == seq!['U'],
        "D"@ == seq!['D'],
        "F"@ == seq!['F'],
        "G"@ == seq!['G'],
        "R"@ == seq!['R'],
        "E"@ == seq!['E'],
        "C"@ == seq!['C'],
        "N"@ == seq!['N'],
{
    reveal_strlit("-");
    reveal_strlit("M");
    reveal_strlit("L");
    reveal_strlit("U");
    reveal_strlit("D");
    reveal_strlit("F");
    reveal_strlit("G");
    reveal_strlit("R");
    reveal_strlit("E");
    reveal_strlit("C");
    reveal_strlit("N");
}

spec fn long_char(r: Option<LongRelation>) -> char {
    match r {
        Some(LongRelation::MediumAbove) => 'M',
        Some(LongRelation::LongAbove) => 'L',
        None => '-',
    }
}

spec fn direction_char(d: Direction) -> char {
    match d {
        Direction::Up => 'U',
        Direction::Down => 'D',
        Direction::Flat => 'F',
    }
}

spec fn color_char(c: CandleColor) -> char {
    match c {
        CandleColor::Green => 'G',
        CandleColor::Red => 'R',
        CandleColor::Equal => 'E',
    }
}

spec fn convergence_char(c: Option<ConvergenceCode>) -> char {
    match c {
        Some(ConvergenceCode::Divergence) => 'D',
        Some(ConvergenceCode::Convergence) => 'C',
        Some(ConvergenceCode::Narrow) => 'N',
        None => '-',
    }
}

proof fn lemma_series_desc_chars(
    long_above: Option<LongRelation>,
    medium: Direction,
    long: Direction,
    color: CandleColor,
    convergence: Option<ConvergenceCode>,
)
    ensures
        series_desc(long_above, medium, long, color, convergence) == seq![
            long_char(long_above),
            '-',
            direction_char(medium),
            direction_char(long),
            '-',
            color_char(color),
            '-',
            convergence_char(convergence),
        ],
{
    lemma_letters();
    let a = match long_above {
        Some(r) => long_relation_letter(r),
        None => "-"@,
    };
    let e = match convergence {
        Some(c) => convergence_letter(c),
        None => "-"@,
    };
    assert(a == seq![long_char(long_above)]);
    assert(direction_letter(medium) == seq![direction_char(medium)]);
    assert(direction_letter(long) == seq![direction_char(long)]);
    assert(color_letter(color) == seq![color_char(color)]);
    assert(e == seq![convergence_char(convergence)]);
    assert(series_desc(long_above, medium, long, color, convergence) =~= seq![
        long_char(long_above),
        '-',
        direction_char(medium),
        direction_char(long),
        '-',
        color_char(color),
        '-',
        convergence_char(convergence),
    ]);
}

/// Law: a full-analysis status description has eight characters, with `-` at
/// positions 1, 4 and 6, and it determines the state it describes: two states
/// with the same description are the same state.
pub proof fn law_series_desc_identifies_state(
    long_above: Option<LongRelation>,
    medium: Direction,
    long: Direction,
    color: CandleColor,
    convergence: Option<ConvergenceCode>,
    long_above2: Option<LongRelation>,
    medium2: Direction,
    long2: Direction,
    color2: CandleColor,
    convergence2: Option<ConvergenceCode>,
)
    ensures
        series_desc(long_above, medium, long, color, convergence).len() == 8,
        series_desc(long_above, medium, long, color, convergence)[1] == '-',
        series_desc(long_above, medium, long, color, convergence)[4] == '-',
        series_desc(long_above, medium, long, color, convergence)[6] == '-',
        series_desc(long_above, medium, long, color, convergence) == series_desc(
            long_above2,
            medium2,
            long2,
            color2,
            convergence2,
        ) ==> long_above == long_above2 && medium == medium2 && long == long2 && color == color2
            && convergence == convergence2,
{
    lemma_series_desc_chars(long_above, medium, long, color, convergence);
    lemma_series_desc_chars(long_above2, medium2, long2, color2, convergence2);
    let d1 = series_desc(long_above, medium, long, color, convergence);
    let d2 = series_desc(long_above2, medium2, long2, color2, convergence2);
    if d1 == d2 {
        assert(long_char(long_above) == long_char(long_above2));
        assert(direction_char(medium) == direction_char(medium2));
        assert(direction_char(long) == direction_char(long2));
        assert(color_char(color) == color_char(color2));
        assert(convergence_char(convergence) == convergence_char(convergence2));
    }
}

/// Law: an appended-candle status description has nine characters, with `-` at
/// every odd position, and it determines the state it describes.
pub proof fn law_tick_desc_identifies_state(
    long_above: LongRelation,
    medium: Direction,
    long: Direction,
    color: CandleColor,
    convergence: ConvergenceCode,
    long_above2: LongRelation,
    medium2: Direction,
    long2: Direction,
    color2: CandleColor,
    convergence2: ConvergenceCode,
)
    ensures
        tick_desc(long_above, medium, long, color, convergence).len() == 9,
        forall|i: int|
            0 <= i < 9 && i % 2 == 1 ==> #[trigger] tick_desc(
                long_above,
                medium,
                long,
                color,
                convergence,
            )[i] == '-',
        tick_desc(long_above, medium, long, color, convergence) == tick_desc(
            long_above2,
            medium2,
            long2,
            color2,
            convergence2,
        ) ==> long_above == long_above2 && medium == medium2 && long == long2 && color == color2
            && convergence == convergence2,
{
    lemma_letters();
    let d1 = tick_desc(long_above, medium, long, color, convergence);
    let d2 = tick_desc(long_above2, medium2, long2, color2, convergence2);
    if d1 == d2 {
        assert(d1[0] == d2[0]);
        assert(d1[2] == d2[2]);
        assert(d1[4] == d2[4]);
        assert(d1[6] == d2[6]);
        assert(d1[8] == d2[8]);
    }
}

/// The status code of the first rule whose description is `desc`, or the empty
/// string when no rule has it.
pub open spec fn first_status_code(codes: Seq<CandleMasterCode>, desc: Seq<char>) -> Seq<char>
    decreases codes.len(),
{
    if codes.len() == 0 {
        Seq::empty()
    } else if codes[0].status_desc@ == desc {
        codes[0].status_code@
    } else {
        first_status_code(codes.drop_first(), desc)
    }
}

proof fn lemma_first_rule_at(codes: Seq<CandleMasterCode>, desc: Seq<char>, i: int)
    requires
        0 <= i < codes.len(),
        codes[i].status_desc@ == desc,
        forall|j: int| 0 <= j < i ==> codes[j].status_desc@ != desc,
    ensures
        first_status_code(codes, desc) == codes[i].status_code@,
    decreases i,
{
    if i > 0 {
        assert(codes[0].status_desc@ != desc);
        let rest = codes.drop_first();
        assert forall|j: int| 0 <= j < i - 1 implies rest[j].status_desc@ != desc by {
            assert(rest[j] == codes[j + 1]);
        }
        lemma_first_rule_at(rest, desc, i - 1);
    }
}

proof fn lemma_no_rule(codes: Seq<CandleMasterCode>, desc: Seq<char>)
    requires
        forall|j: int| 0 <= j < codes.len() ==> codes[j].status_desc@ != desc,
    ensures
        first_status_code(codes, desc) == Seq::<char>::empty(),
    decreases codes.len(),
{
    if codes.len() > 0 {
        assert(codes[0].status_desc@ != desc);
        let rest = codes.drop_first();
        assert forall|j: int| 0 <= j < rest.len() implies rest[j].status_desc@ != desc by {
            assert(rest[j] == codes[j + 1]);
        }
        lemma_no_rule(rest, desc);
    }
}

/// Law: every rule of the table can match: a description gets the code of the first
/// rule, wherever it stands, that has that description, and the empty code when no
/// rule has it.
pub proof fn law_first_matching_rule(codes: Seq<CandleMasterCode>, desc: Seq<char>)
    ensures
        forall|i: int|
            0 <= i < codes.len() && codes[i].status_desc@ == desc && (forall|j: int|
                0 <= j < i ==> codes[j].status_desc@ != desc) ==> first_status_code(codes, desc)
                == codes[i].status_code@,
        (forall|j: int| 0 <= j < codes.len() ==> codes[j].status_desc@ != desc)
            ==> first_status_code(codes, desc) == Seq::<char>::empty(),
{
    assert forall|i: int|
        0 <= i < codes.len() && codes[i].status_desc@ == desc && (forall|j: int|
            0 <= j < i ==> codes[j].status_desc@ != desc) implies first_status_code(codes, desc)
        == codes[i].status_code@ by {
        lemma_first_rule_at(codes, desc, i);
    }
    if forall|j: int| 0 <= j < codes.len() ==> codes[j].status_desc@ != desc {
        lemma_no_rule(codes, desc);
    }
}

/// Match a status description against the rules of the master table.
pub fn match_status_code(master_codes: &[CandleMasterCode], status_desc: &String) -> (s: String)
    ensures
        s@ == first_status_code(master_codes@, status_desc@),
        forall|i: int|
            0 <= i < master_codes@.len() && master_codes@[i].status_desc@
                == status_desc@ && (forall|j: int|
                0 <= j < i ==> master_codes@[j].status_desc@ != status_desc@) ==> s@
                == master_codes@[i].status_code@,
        (forall|j: int| 0 <= j < master_codes@.len() ==> master_codes@[j].status_desc@ != status_desc@)
            ==> s@ == Seq::<char>::empty(),
{
    let mut i: usize = 0;
    proof {
        assert(master_codes@.skip(0) =~= master_codes@);
    }
    while i < master_codes.len()
        invariant
            i <= master_codes@.len(),
            first_status_code(master_codes@, status_desc@) == first_status_code(
                master_codes@.skip(i as int),
                status_desc@,
            ),
        decreases master_codes.len() - i,
    {
        proof {
            assert(master_codes@.skip(i as int).drop_first() =~= master_codes@.skip(i + 1));
        }
        let code = &master_codes[i];
        if code.status_desc.eq(status_desc) {
            proof {
                law_first_matching_rule(master_codes@, status_desc@);
            }
            return code.status_code.clone();
        }
        i = i + 1;
    }
    proof {
        law_first_matching_rule(master_codes@, status_desc@);
    }
    String::new()
}

} // verus!
