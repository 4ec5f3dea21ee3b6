use access_to_sql::import::{build_units, Action, Event, ImportError, ImportRun, Stage};
use access_to_sql::models::{AccessData, AccessUnit, TblUnit};
use access_to_sql::sql::{SqlParam, UnitKey, MAX_ISN_UNIT_SQL, STRUCTURE_EXISTS_SQL};
use access_to_sql::text::LineError;

fn access_unit(number: &str, name: &str) -> AccessUnit {
    AccessUnit {
        unit_number: number.to_string(),
        name: name.to_string(),
        year_start: 1920,
        year_end: 1925,
        pages_count: 48,
        exact_date: "1920-1925".to_string(),
        inventory_number: "4л".to_string(),
        fund_number: "Р-137".to_string(),
    }
}

#[test]
fn access_data_reads_null_columns_as_defaults() {
    let row = AccessData::from_columns(
        Some("12а".to_string()),
        None,
        Some(1930),
        None,
        Some(10),
        None,
        Some("1".to_string()),
        Some("Р-137".to_string()),
    );
    let u = row.into_unit();
    assert_eq!(u.unit_number, "12а");
    assert_eq!(u.name, "");
    assert_eq!(u.year_start, 1930);
    assert_eq!(u.year_end, 0);
    assert_eq!(u.pages_count, 10);
    assert_eq!(u.exact_date, "");
    assert_eq!(u.inventory_number, "1");
    assert_eq!(u.fund_number, "Р-137");
}

#[test]
fn tbl_unit_new_fills_fixed_and_copied_fields() {
    let a = access_unit("12а", "Приказы");
    let u = TblUnit::new(&a, 55, 901);
    assert_eq!(
        u.owner_id.bytes,
        [0x12, 0x34, 0x56, 0x78, 0x90, 0x12, 0x34, 0x56, 0x78, 0x90, 0x12, 0x34, 0x56, 0x78, 0x90, 0x12]
    );
    assert_eq!(
        u.status_id.bytes,
        [0xdd, 0x6a, 0xbd, 0xff, 0xd9, 0x22, 0x47, 0x46, 0x80, 0xb8, 0x15, 0xbe, 0x42, 0x6e, 0x38, 0x49]
    );
    assert_eq!(u.id.bytes[6] >> 4, 4);
    assert_eq!(u.id.bytes[8] >> 6, 2);
    assert!(!u.deleted);
    assert_eq!(u.isn_unit, 901);
    assert_eq!(u.isn_inventory, 55);
    assert_eq!(u.isn_inventory_cls, 55);
    assert_eq!(u.isn_doc_type, 1);
    assert_eq!(u.isn_securlevel, 1);
    assert_eq!(u.security_char, "o");
    assert_eq!(u.unit_kind, 703);
    assert_eq!(u.unit_num_1, "12");
    assert_eq!(u.unit_num_2, Some("а".to_string()));
    assert_eq!(u.name, "Приказы");
    assert_eq!(u.start_year, 1920);
    assert_eq!(u.end_year, 1925);
    assert_eq!(u.page_count, 48);
    assert_eq!(u.all_date, "1920-1925");
    assert_eq!(u.medium_type, "T");
    assert_eq!(u.weight, 0);
    for t in [&u.is_in_search, &u.is_lost, &u.has_sf, &u.has_fp, &u.has_defects, &u.catalogued,
              &u.start_year_inexact, &u.end_year_inexact, &u.has_treasures, &u.is_museum_item,
              &u.cardboarded] {
        assert_eq!(t, "N");
    }
    assert!(u.creation_date_time > 1_600_000_000_000);
}

#[test]
fn build_units_numbers_from_max_plus_one() {
    let rows = vec![access_unit("1", "a"), access_unit("2", "b"), access_unit("3", "c")];
    let units = build_units(&rows, 55, 900).unwrap();
    let numbers: Vec<i64> = units.iter().map(|u| u.isn_unit).collect();
    assert_eq!(numbers, vec![901, 902, 903]);
    assert!(units[0].id != units[1].id);
    for u in &units {
        assert_eq!(u.id.bytes[6] >> 4, 4);
        assert_eq!(u.id.bytes[8] >> 6, 2);
    }
}

#[test]
fn build_units_refuses_number_overflow() {
    let rows = vec![access_unit("1", "a"), access_unit("2", "b")];
    assert!(build_units(&rows, 55, i64::MAX - 1).is_none());
    assert!(build_units(&rows, 55, i64::MAX - 2).is_some());
    assert!(build_units(&Vec::new(), 55, i64::MAX).unwrap().is_empty());
}

#[test]
fn run_imports_one_inventory_without_structure() {
    let mut run = ImportRun::new();
    let a = run.step(Event::Line("Р-137\t4л".to_string()));
    match a {
        Action::FetchMaxIsnUnit(q) => assert_eq!(q.sql, MAX_ISN_UNIT_SQL),
        other => panic!("{:?}", other),
    }
    let a = run.step(Event::FirstRow(Some(Some(900))));
    match a {
        Action::FetchIsnInventory { query: q, fund, inventory } => {
            assert_eq!(fund, "Р-137");
            assert_eq!(inventory, "4л");
            assert_eq!(q.params.len(), 3);
            assert_eq!(q.params[2], SqlParam::Text("л".to_string()));
        }
        other => panic!("{:?}", other),
    }
    let a = run.step(Event::FirstRow(Some(Some(55))));
    assert!(matches!(a, Action::FetchAccessUnits(_)));
    let a = run.step(Event::AccessUnits(vec![access_unit("1", "a"), access_unit("2а", "b")]));
    match a {
        Action::CheckStructure(q) => {
            assert_eq!(q.sql, STRUCTURE_EXISTS_SQL);
            assert_eq!(q.params, vec![SqlParam::Int(55)]);
        }
        other => panic!("{:?}", other),
    }
    assert_eq!(run.total_units, 2);
    let a = run.step(Event::RowCount(0));
    match a {
        Action::InsertStructure(sql) => {
            assert!(sql.contains("'00000000-0000-0000-0000-000000000037'"));
            assert!(sql.ends_with(", 55, 55, '...', 'T', 'N', 0)"));
        }
        other => panic!("{:?}", other),
    }
    let a = run.step(Event::Executed);
    assert!(matches!(a, Action::FetchExistingUnits(_)));
    let a = run.step(Event::ExistingUnits(vec![UnitKey { num_1: "1".to_string(), num_2: String::new() }]));
    match a {
        Action::InsertUnits { sql, count } => {
            assert_eq!(count, 1);
            assert!(sql.contains(", 902, 55, 1, 1, 'o', 55, 703, 2, 'а', 'b', "));
            assert!(!sql.contains(", 901, 55,"));
        }
        other => panic!("{:?}", other),
    }
    assert_eq!(run.inserted_units, 1);
    let a = run.step(Event::Executed);
    assert!(matches!(a, Action::ReadLine));
    let a = run.step(Event::EndOfList);
    match a {
        Action::Finish { total_units, inserted_units } => {
            assert_eq!(total_units, 2);
            assert_eq!(inserted_units, 1);
        }
        other => panic!("{:?}", other),
    }
    assert!(matches!(run.stage, Stage::Finished));
}

#[test]
fn run_skips_unknown_inventory() {
    let mut run = ImportRun::new();
    run.step(Event::Line("Р-137 9".to_string()));
    run.step(Event::FirstRow(None));
    let a = run.step(Event::FirstRow(None));
    assert!(matches!(a, Action::SkipInventory));
    let a = run.step(Event::EndOfList);
    assert!(matches!(a, Action::Finish { total_units: 0, inserted_units: 0 }));
}

#[test]
fn run_with_structure_and_all_units_present() {
    let mut run = ImportRun::new();
    run.step(Event::Line("Р-137 1".to_string()));
    run.step(Event::FirstRow(Some(None)));
    run.step(Event::FirstRow(Some(Some(8))));
    run.step(Event::AccessUnits(vec![access_unit("5", "x")]));
    let a = run.step(Event::RowCount(1));
    assert!(matches!(a, Action::FetchExistingUnits(_)));
    let a = run.step(Event::ExistingUnits(vec![UnitKey { num_1: "5".to_string(), num_2: String::new() }]));
    assert!(matches!(a, Action::AllUnitsPresent));
    let a = run.step(Event::EndOfList);
    assert!(matches!(a, Action::Finish { total_units: 1, inserted_units: 0 }));
}

#[test]
fn run_stops_on_short_line() {
    let mut run = ImportRun::new();
    let a = run.step(Event::Line("Р-137".to_string()));
    assert!(matches!(a, Action::Fail(ImportError::BadLine(LineError::MissingInventory))));
    let mut run = ImportRun::new();
    let a = run.step(Event::Line("   ".to_string()));
    assert!(matches!(a, Action::Fail(ImportError::BadLine(LineError::MissingFund))));
}

#[test]
fn run_stops_on_unexpected_event() {
    let mut run = ImportRun::new();
    let a = run.step(Event::Executed);
    assert!(matches!(a, Action::Fail(ImportError::UnexpectedEvent)));
    let a = run.step(Event::EndOfList);
    assert!(matches!(a, Action::Fail(ImportError::UnexpectedEvent)));
}

#[test]
fn run_stops_on_unit_number_overflow() {
    let mut run = ImportRun::new();
    run.step(Event::Line("Р-137 1".to_string()));
    run.step(Event::FirstRow(Some(Some(i64::MAX))));
    run.step(Event::FirstRow(Some(Some(8))));
    let a = run.step(Event::AccessUnits(vec![access_unit("5", "x")]));
    assert!(matches!(a, Action::Fail(ImportError::UnitNumberOverflow)));
}

#[test]
fn run_stops_on_count_overflow() {
    let mut run = ImportRun {
        stage: Stage::AwaitAccessUnits { isn_inventory: 8, max_isn_unit: 0 },
        total_units: usize::MAX,
        inserted_units: 0,
    };
    let a = run.step(Event::AccessUnits(vec![access_unit("5", "x")]));
    assert!(matches!(a, Action::Fail(ImportError::CountOverflow)));
    assert!(matches!(run.stage, Stage::Failed));
    assert_eq!(run.total_units, usize::MAX);
}

#[test]
fn run_inserts_batch_with_fresh_increasing_numbers() {
    let mut run = ImportRun::new();
    run.step(Event::Line("Р-137 1".to_string()));
    run.step(Event::FirstRow(Some(Some(41))));
    run.step(Event::FirstRow(Some(Some(8))));
    run.step(Event::AccessUnits(vec![access_unit("1", "a"), access_unit("2", "b"), access_unit("3", "c")]));
    run.step(Event::RowCount(1));
    let a = run.step(Event::ExistingUnits(vec![UnitKey { num_1: "2".to_string(), num_2: String::new() }]));
    match a {
        Action::InsertUnits { sql, count } => {
            assert_eq!(count, 2);
            let p42 = sql.find(", 42, 8, 1, 1, 'o', 8, 703, 1, '', 'a', ").unwrap();
            let p44 = sql.find(", 44, 8, 1, 1, 'o', 8, 703, 3, '', 'c', ").unwrap();
            assert!(p42 < p44);
            assert!(!sql.contains(", 43, 8,"));
        }
        other => panic!("{:?}", other),
    }
}
