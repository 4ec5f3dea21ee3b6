use access_to_sql::numbering::split_number;
use access_to_sql::text::{i64_text, parse_list_line, LineError};

#[test]
fn i64_text_writes_decimal() {
    assert_eq!(i64_text(0), "0");
    assert_eq!(i64_text(7), "7");
    assert_eq!(i64_text(-42), "-42");
    assert_eq!(i64_text(1234567890), "1234567890");
    assert_eq!(i64_text(i64::MAX), i64::MAX.to_string());
    assert_eq!(i64_text(i64::MIN), i64::MIN.to_string());
}

#[test]
fn list_line_with_tab() {
    let (fund, inventory) = parse_list_line("Р-137\t1").unwrap();
    assert_eq!(fund, "Р-137");
    assert_eq!(inventory, "1");
}

#[test]
fn list_line_with_runs_of_spaces_and_more_words() {
    let (fund, inventory) = parse_list_line("  Р-489   1грф  extra\r").unwrap();
    assert_eq!(fund, "Р-489");
    assert_eq!(inventory, "1грф");
}

#[test]
fn list_line_with_unicode_space() {
    let (fund, inventory) = parse_list_line("Р-137\u{00A0}4л").unwrap();
    assert_eq!(fund, "Р-137");
    assert_eq!(inventory, "4л");
}

#[test]
fn list_line_empty_lacks_fund() {
    assert_eq!(parse_list_line(""), Err(LineError::MissingFund));
    assert_eq!(parse_list_line(" \t "), Err(LineError::MissingFund));
}

#[test]
fn list_line_single_word_lacks_inventory() {
    assert_eq!(parse_list_line("Р-137"), Err(LineError::MissingInventory));
    assert_eq!(parse_list_line("  Р-137  "), Err(LineError::MissingInventory));
}

#[test]
fn split_number_digits_and_cyrillic_suffix() {
    assert_eq!(split_number("4л"), ("4".to_string(), Some("л".to_string())));
    assert_eq!(split_number("1грф"), ("1".to_string(), Some("грф".to_string())));
}

#[test]
fn split_number_digits_only_has_empty_suffix() {
    assert_eq!(split_number("12"), ("12".to_string(), Some(String::new())));
}

#[test]
fn split_number_without_digits() {
    assert_eq!(split_number("abc"), (String::new(), Some("abc".to_string())));
    assert_eq!(split_number(""), (String::new(), Some(String::new())));
}

#[test]
fn split_number_stops_at_second_digit_run() {
    assert_eq!(split_number("12a3b"), ("12".to_string(), Some("a".to_string())));
}

#[test]
fn readme_example_lines() {
    let lines = "Р-137\t1\nР-137\t4л\nР-489\t1грф";
    let parsed: Vec<(String, String)> = lines.lines().map(|l| parse_list_line(l).unwrap()).collect();
    assert_eq!(parsed, vec![
        ("Р-137".to_string(), "1".to_string()),
        ("Р-137".to_string(), "4л".to_string()),
        ("Р-489".to_string(), "1грф".to_string()),
    ]);
    assert_eq!(split_number("1грф"), ("1".to_string(), Some("грф".to_string())));
}

#[test]
fn split_number_with_non_ascii_digits() {
    assert_eq!(split_number("٣٤б"), ("٣٤".to_string(), Some("б".to_string())));
    assert_eq!(split_number("４л"), ("４".to_string(), Some("л".to_string())));
    assert_eq!(split_number("Ⅻ"), (String::new(), Some("Ⅻ".to_string())));
    assert_eq!(split_number("4л5"), ("4".to_string(), Some("л".to_string())));
}

#[test]
fn list_line_with_other_unicode_spaces() {
    let (fund, inventory) = parse_list_line("Р-137\u{3000}1\u{0085}").unwrap();
    assert_eq!(fund, "Р-137");
    assert_eq!(inventory, "1");
    assert_eq!(parse_list_line("Р-137\u{200B}1"), Err(LineError::MissingInventory));
}
