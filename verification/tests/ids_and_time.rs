use access_to_sql::clock::sql_timestamp;
use access_to_sql::guid::create_uuid;
use access_to_sql::sql::structure_insert_sql;

#[test]
fn create_uuid_is_big_endian_halves() {
    let g = create_uuid(0, 1);
    let mut expected = [0u8; 16];
    expected[15] = 1;
    assert_eq!(g.bytes, expected);
    let g = create_uuid(0x0102030405060708, -1);
    assert_eq!(
        g.bytes,
        [1, 2, 3, 4, 5, 6, 7, 8, 0xff, 0xff, 0xff, 0xff, 0xff, 0xff, 0xff, 0xff]
    );
}

#[test]
fn create_uuid_differs_for_different_classes() {
    assert_ne!(create_uuid(0, 41).bytes, create_uuid(0, 42).bytes);
    assert_ne!(create_uuid(0, 1).bytes, create_uuid(1, 0).bytes);
}

#[test]
fn structure_id_in_hyphenated_form() {
    assert!(structure_insert_sql(255, "t").contains("values ('00000000-0000-0000-0000-0000000000ff', "));
    assert!(structure_insert_sql(-1, "t").contains("values ('00000000-0000-0000-ffff-ffffffffffff', "));
    assert!(structure_insert_sql(0x1234_5678_9abc_def0, "t").contains("values ('00000000-0000-0000-1234-56789abcdef0', "));
}

#[test]
fn sql_timestamp_of_epoch_and_a_known_instant() {
    assert_eq!(sql_timestamp(0).unwrap(), "1970-01-01T00:00:00.000");
    assert_eq!(sql_timestamp(1706704496789).unwrap(), "2024-01-31T12:34:56.789");
    assert_eq!(sql_timestamp(-1).unwrap(), "1969-12-31T23:59:59.999");
}

#[test]
fn sql_timestamp_out_of_range() {
    assert!(sql_timestamp(i64::MAX).is_none());
    assert!(sql_timestamp(i64::MIN).is_none());
}
