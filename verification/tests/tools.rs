//! Texts, lists, maps and times.

use agira::rows::{pad, pad_left, paginate, truncate_chars};
use agira::string_map::StringMap;
use agira::text::{
    after_last_str, contains, decimal_padded_str, decimal_str, decimal_wide_str, find_str, is_blank, join_path,
    join_strs, lines_of, parse_i32, parse_u64, replace_char, signed_decimal_str, split_str, str_lt,
    strip_prefix, trim_str,
};
use agira::text_set::sort_texts;
use agira::time::Instant;
use agira::topo::sort_by_needs;

#[test]
fn texts_are_cut_and_joined() {
    assert_eq!(trim_str(" \t\u{2003}x y\u{a0}\n"), "x y");
    assert!(is_blank(" \u{3000}\n") && !is_blank(" x"));
    assert_eq!(split_str("a,,b", ','), vec!["a", "", "b"]);
    assert_eq!(join_strs(&vec!["a".to_owned(), "b".to_owned()], " → "), "a → b");
    assert_eq!(lines_of("a\r\nb\n\nc"), vec!["a", "b", "", "c"]);
    assert_eq!(lines_of("a\n"), vec!["a"]);
    assert_eq!(strip_prefix("task-007", "task-"), Some("007"));
    assert_eq!(strip_prefix("x", "task-"), None);
    assert_eq!(find_str("äbc", "c"), Some(2));
    assert!(contains("abc", "bc") && contains("abc", "") && !contains("abc", "cb"));
    assert_eq!(after_last_str("/a/b", '/'), Some("b".to_owned()));
    assert_eq!(replace_char("it's", '\'', "'\\''"), "it'\\''s");
    assert_eq!(join_path("/a", "b"), "/a/b");
    assert_eq!(join_path("/a/", "b"), "/a/b");
    assert_eq!(join_path("/a", "/b"), "/b");
    assert!(str_lt("a", "b") && str_lt("a", "aa") && !str_lt("b", "a") && !str_lt("a", "a"));
}

#[test]
fn numbers_are_written_and_read() {
    assert_eq!(decimal_str(0), "0");
    assert_eq!(decimal_str(u64::MAX), "18446744073709551615");
    assert_eq!(decimal_wide_str(u128::MAX), "340282366920938463463374607431768211455");
    assert_eq!(decimal_padded_str(7, 3), "007");
    assert_eq!(decimal_padded_str(1234, 3), "1234");
    assert_eq!(signed_decimal_str(i32::MIN), "-2147483648");
    assert_eq!(parse_u64("+42", u64::MAX), Some(42));
    assert_eq!(parse_u64("300", 255), None);
    assert_eq!(parse_u64("", u64::MAX), None);
    assert_eq!(parse_i32("-12"), Some(-12));
    assert_eq!(parse_i32("2147483648"), None);
}

#[test]
fn rows_are_padded_and_parted() {
    assert_eq!(pad("ab", 4), "ab  ");
    assert_eq!(pad("abcde", 4), "abcde");
    assert_eq!(pad_left("7", 3), "  7");
    assert_eq!(truncate_chars("äöü", 2), "äö…");
    assert_eq!(truncate_chars("äöü", 3), "äöü");
    let items: Vec<String> = ["a", "b", "c", "d"].iter().map(|s| s.to_string()).collect();
    assert_eq!(paginate(&items, 2, 1), vec!["b", "c"]);
    assert!(paginate(&items, 2, 9).is_empty());
}

#[test]
fn a_map_is_kept_in_the_order_of_its_keys() {
    let mut map: StringMap<String> = StringMap::new();
    for key in ["b", "a", "c", "a"] {
        map.insert(key.to_owned(), format!("{key}!"));
    }
    assert_eq!(map.key_list(), vec!["a", "b", "c"]);
    assert_eq!(map.get("b").map(String::as_str), Some("b!"));
    map.remove("b");
    assert!(!map.contains_key("b"));
    assert_eq!(map.len(), 2);
    assert_eq!(
        sort_texts(&vec!["b".to_owned(), "a".to_owned(), "b".to_owned()]),
        vec!["a", "b"]
    );
}

#[test]
fn what_is_needed_comes_first() {
    assert_eq!(sort_by_needs(&vec![vec![1], vec![2], vec![]]), vec![2, 1, 0]);
    assert!(sort_by_needs(&vec![vec![1], vec![0], vec![]]).len() < 3);
}

#[test]
fn times_are_read_and_written() {
    let time = Instant::parse("2026-06-11T14:00:00.5+02:00").unwrap();
    assert_eq!(time.text(), "2026-06-11T12:00:00.500+00:00");
    assert!(time.is_on_calendar());
    assert_eq!(time.plus_seconds(90).text(), "2026-06-11T12:01:30.500+00:00");
    assert_eq!(time.plus_seconds(-1).text(), "2026-06-11T11:59:59.500+00:00");
    assert_eq!(time.minus_seconds(1).text(), "2026-06-11T11:59:59.500+00:00");
    assert!(time.plus_seconds(1).reached(&time) && !time.reached(&time.plus_seconds(1)));
    assert_eq!(Instant::parse("yesterday"), None);
    assert!(Instant::now().is_on_calendar());
}
