use indicator_math::codes::{
    build_status_code_map, lookup_series_code, match_status_code, series_status_desc,
    tick_status_desc, CandleMasterCode, MasterRecord, SeriesCodeTable,
};
use indicator_math::signals::{CandleColor, ConvergenceCode, Direction, LongRelation};

fn record(desc: &str, code: u32) -> MasterRecord {
    MasterRecord {
        status_code: code,
        status_desc: desc.to_string(),
    }
}

/// The rows of the candle master table that the lookup is checked against.
fn master_table() -> SeriesCodeTable {
    build_status_code_map(vec![
        record("L-DD-E-D", 1),
        record("L-DD-G-C", 2),
        record("M-UU-G-N", 81),
    ])
}

#[test]
fn test_series_code_lookup() {
    let table = master_table();
    assert_eq!(lookup_series_code(&table, "L-DD-G-C"), Some(2));
    assert_eq!(lookup_series_code(&table, "M-UU-G-N"), Some(81));
    assert_eq!(lookup_series_code(&table, "INVALID"), None);
}

#[test]
fn later_record_replaces_earlier_one() {
    let table = build_status_code_map(vec![
        record("M-UU-G-D", 10),
        record("L-FF-R-C", 11),
        record("M-UU-G-D", 12),
    ]);
    assert_eq!(lookup_series_code(&table, "M-UU-G-D"), Some(12));
    assert_eq!(lookup_series_code(&table, "L-FF-R-C"), Some(11));
}

#[test]
fn insert_then_lookup() {
    let mut table = SeriesCodeTable::new();
    assert_eq!(lookup_series_code(&table, "L-DD-G-C"), None);
    table.insert("L-DD-G-C".to_string(), 2);
    table.insert("M-UU-G-N".to_string(), 81);
    assert_eq!(lookup_series_code(&table, "L-DD-G-C"), Some(2));
    table.insert("L-DD-G-C".to_string(), 7);
    assert_eq!(lookup_series_code(&table, "L-DD-G-C"), Some(7));
    assert_eq!(lookup_series_code(&table, "M-UU-G-N"), Some(81));
    assert_eq!(lookup_series_code(&table, ""), None);
}

#[test]
fn series_desc_format() {
    let desc = series_status_desc(
        Some(LongRelation::LongAbove),
        Direction::Down,
        Direction::Down,
        CandleColor::Green,
        Some(ConvergenceCode::Convergence),
    );
    assert_eq!(desc, "L-DD-G-C");
    assert_eq!(lookup_series_code(&master_table(), &desc), Some(2));
    let desc = series_status_desc(
        Some(LongRelation::MediumAbove),
        Direction::Up,
        Direction::Up,
        CandleColor::Green,
        Some(ConvergenceCode::Narrow),
    );
    assert_eq!(desc, "M-UU-G-N");
    assert_eq!(lookup_series_code(&master_table(), &desc), Some(81));
}

#[test]
fn series_desc_with_unknown_parts() {
    let desc = series_status_desc(None, Direction::Flat, Direction::Up, CandleColor::Equal, None);
    assert_eq!(desc, "--FU-E--");
    let desc = series_status_desc(
        Some(LongRelation::MediumAbove),
        Direction::Up,
        Direction::Flat,
        CandleColor::Red,
        Some(ConvergenceCode::Divergence),
    );
    assert_eq!(desc, "M-UF-R-D");
}

#[test]
fn tick_desc_format() {
    let desc = tick_status_desc(
        LongRelation::MediumAbove,
        Direction::Up,
        Direction::Up,
        CandleColor::Green,
        ConvergenceCode::Divergence,
    );
    assert_eq!(desc, "M-U-U-G-D");
    let desc = tick_status_desc(
        LongRelation::LongAbove,
        Direction::Down,
        Direction::Flat,
        CandleColor::Equal,
        ConvergenceCode::Narrow,
    );
    assert_eq!(desc, "L-D-F-E-N");
}

fn rule(code: &str, desc: &str) -> CandleMasterCode {
    CandleMasterCode {
        status_code: code.to_string(),
        status_desc: desc.to_string(),
    }
}

#[test]
fn status_code_first_match() {
    let rules = vec![
        rule("1", "L-D-D-E-D"),
        rule("14", "M-U-U-G-D"),
        rule("99", "M-U-U-G-D"),
    ];
    assert_eq!(match_status_code(&rules, &"M-U-U-G-D".to_string()), "14");
    assert_eq!(match_status_code(&rules, &"L-D-D-E-D".to_string()), "1");
    assert_eq!(match_status_code(&rules, &"L-U-D-R-C".to_string()), "");
    assert_eq!(match_status_code(&[], &"L-D-D-E-D".to_string()), "");
}
