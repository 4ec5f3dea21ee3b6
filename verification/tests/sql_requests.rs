use access_to_sql::guid::{create_uuid, Guid};
use access_to_sql::models::TblUnit;
use access_to_sql::sql::{
    access_units_request, existing_units_request, insert_new_units_sql, isn_inventory_from_reply,
    isn_inventory_request, max_isn_unit_from_reply, max_isn_unit_request, non_existent_units,
    structure_exists_from_reply, structure_exists_request, structure_insert_sql, SqlParam,
    UnitKey, ACCESS_UNITS_SQL, INVENTORY_NUM_2_CLAUSE, ISN_INVENTORY_SQL, MAX_ISN_UNIT_SQL,
    STRUCTURE_EXISTS_SQL, UNITS_INSERT_HEAD,
};

fn text(s: &str) -> SqlParam {
    SqlParam::Text(s.to_string())
}

#[test]
fn isn_inventory_request_with_suffix() {
    let r = isn_inventory_request("Р-137", "4л");
    assert_eq!(r.sql, format!("{}{}", ISN_INVENTORY_SQL, INVENTORY_NUM_2_CLAUSE));
    assert_eq!(r.params, vec![text("Р-137"), text("4"), text("л")]);
}

#[test]
fn isn_inventory_request_without_suffix() {
    let r = isn_inventory_request("Р-137", "1");
    assert_eq!(r.sql, ISN_INVENTORY_SQL);
    assert_eq!(r.params, vec![text("Р-137"), text("1")]);
}

#[test]
fn isn_inventory_reply() {
    assert_eq!(isn_inventory_from_reply(None), -1);
    assert_eq!(isn_inventory_from_reply(Some(None)), 0);
    assert_eq!(isn_inventory_from_reply(Some(Some(5012))), 5012);
}

#[test]
fn max_isn_unit_request_and_reply() {
    let r = max_isn_unit_request();
    assert_eq!(r.sql, "SELECT MAX(ISN_UNIT) from TblUnit");
    assert_eq!(r.sql, MAX_ISN_UNIT_SQL);
    assert!(r.params.is_empty());
    assert_eq!(max_isn_unit_from_reply(None), 0);
    assert_eq!(max_isn_unit_from_reply(Some(None)), 0);
    assert_eq!(max_isn_unit_from_reply(Some(Some(900))), 900);
}

#[test]
fn structure_request_and_reply() {
    let r = structure_exists_request(77);
    assert_eq!(r.sql, STRUCTURE_EXISTS_SQL);
    assert_eq!(r.params, vec![SqlParam::Int(77)]);
    assert!(!structure_exists_from_reply(0));
    assert!(structure_exists_from_reply(1));
    assert!(structure_exists_from_reply(3));
}

#[test]
fn access_units_request_binds_fund_and_inventory() {
    let r = access_units_request("Р-137", "4л");
    assert_eq!(r.sql, ACCESS_UNITS_SQL);
    assert!(r.sql.starts_with("SELECT\n    [Номер_Дела]"));
    assert_eq!(r.params, vec![text("Р-137"), text("4л")]);
}

#[test]
fn existing_units_request_binds_inventory() {
    let r = existing_units_request(12);
    assert_eq!(r.params, vec![SqlParam::Int(12)]);
}

#[test]
fn structure_insert_statement() {
    let created = "2024-01-31T12:34:56.789";
    let sql = structure_insert_sql(300, created);
    let expected = format!(
        r#"
        insert into tblINVENTORY_STRUCTURE (ID, OwnerID, CreationDateTime, DocID, RowID, StatusID, Deleted, ISN_INVENTORY_CLS, ISN_INVENTORY, NAME, FOREST_ELEM, PROTECTED, WEIGHT)
        values ('{}', '{}', '{}', '{}', {}, '{}', '{}', {}, {}, '{}', '{}', '{}', {})"#,
        "00000000-0000-0000-0000-00000000012c",
        "12345678-9012-3456-7890-123456789012",
        created,
        "00000000-0000-0000-0000-000000000000",
        0,
        "A4366C7E-ACBA-4A71-B59A-15D51107DBFE",
        false,
        300,
        300,
        "...",
        "T",
        "N",
        0
    );
    assert_eq!(sql, expected);
    let _ = create_uuid(0, 300);
}

fn sample_unit(isn_unit: i64, num_1: &str, num_2: &str, millis: i64) -> TblUnit {
    TblUnit {
        id: Guid { bytes: [0xab; 16] },
        owner_id: Guid { bytes: [0x12, 0x34, 0x56, 0x78, 0x90, 0x12, 0x34, 0x56, 0x78, 0x90, 0x12, 0x34, 0x56, 0x78, 0x90, 0x12] },
        creation_date_time: millis,
        status_id: Guid { bytes: [0xdd, 0x6a, 0xbd, 0xff, 0xd9, 0x22, 0x47, 0x46, 0x80, 0xb8, 0x15, 0xbe, 0x42, 0x6e, 0x38, 0x49] },
        deleted: false,
        isn_unit,
        isn_inventory: 55,
        isn_doc_type: 1,
        isn_securlevel: 1,
        security_char: "o".to_string(),
        isn_inventory_cls: 55,
        unit_kind: 703,
        unit_num_1: num_1.to_string(),
        unit_num_2: Some(num_2.to_string()),
        name: "Переписка".to_string(),
        is_in_search: "N".to_string(),
        is_lost: "N".to_string(),
        has_sf: "N".to_string(),
        has_fp: "N".to_string(),
        has_defects: "N".to_string(),
        catalogued: "N".to_string(),
        weight: 0,
        start_year: 1941,
        start_year_inexact: "N".to_string(),
        end_year: -5,
        end_year_inexact: "N".to_string(),
        medium_type: "T".to_string(),
        has_treasures: "N".to_string(),
        is_museum_item: "N".to_string(),
        page_count: 120,
        cardboarded: "N".to_string(),
        all_date: "1941-1945".to_string(),
    }
}

fn row(u: &TblUnit, created: &str) -> String {
    format!("('{}', '{}', '{}', '{}', '{}', {}, {}, {}, {}, '{}', {}, {}, {}, '{}', '{}', '{}', '{}', '{}', '{}', '{}', '{}', {}, {}, '{}', {}, '{}', '{}', '{}', '{}', {}, '{}', '{}')",
        "abababab-abab-abab-abab-abababababab",
        "12345678-9012-3456-7890-123456789012",
        created,
        "dd6abdff-d922-4746-80b8-15be426e3849",
        u.deleted,
        u.isn_unit,
        u.isn_inventory,
        u.isn_doc_type,
        u.isn_securlevel,
        u.security_char,
        u.isn_inventory_cls,
        u.unit_kind,
        u.unit_num_1,
        u.unit_num_2.clone().unwrap(),
        u.name,
        u.is_in_search,
        u.is_lost,
        u.has_sf,
        u.has_fp,
        u.has_defects,
        u.catalogued,
        u.weight,
        u.start_year,
        u.start_year_inexact,
        u.end_year,
        u.end_year_inexact,
        u.medium_type,
        u.has_treasures,
        u.is_museum_item,
        u.page_count,
        u.cardboarded,
        u.all_date)
}

#[test]
fn units_insert_statement() {
    let a = sample_unit(901, "1", "а", 0);
    let b = sample_unit(902, "2", "", 1706704496789);
    let sql = insert_new_units_sql(&vec![a.clone(), b.clone()]).unwrap();
    let expected = format!(
        "{}{}, {}",
        UNITS_INSERT_HEAD,
        row(&a, "1970-01-01T00:00:00.000"),
        row(&b, "2024-01-31T12:34:56.789")
    );
    assert_eq!(sql, expected);
}

#[test]
fn units_insert_statement_with_unwritable_time() {
    let a = sample_unit(901, "1", "а", i64::MAX);
    assert!(insert_new_units_sql(&vec![a]).is_none());
}

#[test]
fn non_existent_units_keep_order_and_drop_recorded() {
    let units = vec![
        sample_unit(1, "1", "", 0),
        sample_unit(2, "2", "а", 0),
        sample_unit(3, "3", "", 0),
    ];
    let existing = vec![
        UnitKey { num_1: "2".to_string(), num_2: "а".to_string() },
        UnitKey { num_1: "3".to_string(), num_2: "б".to_string() },
    ];
    let fresh = non_existent_units(units, &existing);
    let numbers: Vec<i64> = fresh.iter().map(|u| u.isn_unit).collect();
    assert_eq!(numbers, vec![1, 3]);
}

#[test]
fn non_existent_units_all_recorded() {
    let units = vec![sample_unit(1, "1", "", 0)];
    let existing = vec![UnitKey { num_1: "1".to_string(), num_2: String::new() }];
    assert!(non_existent_units(units, &existing).is_empty());
}

#[test]
fn unit_key_reads_null_as_empty() {
    let k = UnitKey::from_columns(Some("12".to_string()), None);
    assert_eq!(k, UnitKey { num_1: "12".to_string(), num_2: String::new() });
    let k = UnitKey::from_columns(None, Some("а".to_string()));
    assert_eq!(k, UnitKey { num_1: String::new(), num_2: "а".to_string() });
}
