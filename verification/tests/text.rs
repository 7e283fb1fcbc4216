use elvi::internal::table::Table;
use elvi::internal::text::{
    is_before, join_texts, number_text, parse_bounded, same_text, starts_with, strip_final_newline,
};

#[test]
fn numbers_are_read_as_rust_reads_them() {
    assert_eq!(parse_bounded("0", u64::MAX), Some(0));
    assert_eq!(parse_bounded("007", u64::MAX), Some(7));
    assert_eq!(parse_bounded("+12", u64::MAX), Some(12));
    assert_eq!(parse_bounded("18446744073709551615", u64::MAX), Some(u64::MAX));
    assert_eq!(parse_bounded("18446744073709551616", u64::MAX), None);
    assert_eq!(parse_bounded("255", 255), Some(255));
    assert_eq!(parse_bounded("256", 255), None);
    assert_eq!(parse_bounded("", 9), None);
    assert_eq!(parse_bounded("+", 9), None);
    assert_eq!(parse_bounded("-1", 9), None);
    assert_eq!(parse_bounded("++1", 9), None);
    assert_eq!(parse_bounded("1 ", 9), None);
    assert_eq!(parse_bounded("٣", 9), None);
    for text in ["0", "17", "+5", "x", "", "99999999999999999999999"] {
        assert_eq!(parse_bounded(text, u64::MAX), text.parse::<u64>().ok());
        assert_eq!(parse_bounded(text, u16::MAX as u64), text.parse::<u16>().ok().map(u64::from));
    }
}

#[test]
fn numbers_are_written_in_decimal() {
    assert_eq!(number_text(0), "0");
    assert_eq!(number_text(9), "9");
    assert_eq!(number_text(10), "10");
    assert_eq!(number_text(1234567890), "1234567890");
    assert_eq!(number_text(u64::MAX), "18446744073709551615");
}

#[test]
fn texts_are_compared_character_by_character() {
    assert!(same_text("héllo", "héllo"));
    assert!(!same_text("hello", "hellO"));
    assert!(!same_text("a", "ab"));
    assert!(same_text("", ""));
    assert!(is_before("a", "b"));
    assert!(is_before("", "a"));
    assert!(is_before("a", "aa"));
    assert!(!is_before("", ""));
    assert!(!is_before("b", "a"));
    assert!(is_before("Z", "a"));
    assert!(is_before("z", "é"));
    for (a, b) in [("abc", "abd"), ("x", ""), ("same", "same"), ("é", "z"), ("10", "9")] {
        assert_eq!(is_before(a, b), a < b);
    }
}

#[test]
fn a_prefix_is_found_at_the_start_only() {
    assert!(starts_with("./run", "./"));
    assert!(starts_with("abc", ""));
    assert!(starts_with("abc", "abc"));
    assert!(!starts_with("abc", "abcd"));
    assert!(!starts_with("a./", "./"));
}

#[test]
fn texts_are_joined_with_a_separator_between() {
    let parts = vec!["a".to_string(), "".to_string(), "c".to_string()];
    assert_eq!(join_texts(&parts, ", "), "a, , c");
    assert_eq!(join_texts(&parts, ""), "ac");
    assert_eq!(join_texts(&vec!["only".to_string()], "-"), "only");
    assert_eq!(join_texts(&vec![], "-"), "");
}

#[test]
fn one_final_newline_is_taken_away() {
    assert_eq!(strip_final_newline("out\n"), "out");
    assert_eq!(strip_final_newline("out\n\n"), "out\n");
    assert_eq!(strip_final_newline("out"), "out");
    assert_eq!(strip_final_newline("\n"), "");
    assert_eq!(strip_final_newline(""), "");
}

#[test]
fn a_table_keeps_one_entry_for_each_name_in_order() {
    let mut t: Table<String> = Table::new();
    assert_eq!(t.len(), 0);
    t.insert("b".into(), "1".into());
    t.insert("a".into(), "2".into());
    t.insert("b".into(), "3".into());
    assert_eq!(t.len(), 2);
    assert_eq!(t.name_at(0), "b");
    assert_eq!(t.value_at(0), "3");
    assert_eq!(t.find("a"), Some(1));
    assert_eq!(t.get("a"), Some(&"2".to_string()));
    assert_eq!(t.get("c"), None);
    assert!(t.contains("b"));
    assert_eq!(t.remove("b"), Some("3".to_string()));
    assert_eq!(t.remove("b"), None);
    assert_eq!(t.find("a"), Some(0));
    t.append_new("z".into(), "9".into());
    assert_eq!(t.name_at(1), "z");
}
