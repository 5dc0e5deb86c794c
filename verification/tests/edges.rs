//! The text cases no corpus file can state, and what each text assertion reports.

use dokimi_assert::failure::{Detail, Where};
use dokimi_assert::matcher::containment::{contains, contains_in_order, not_contains, text_holds};
use dokimi_assert::matcher::sizes::{is_empty, is_not_empty, length};
use dokimi_assert::matcher::text::{has_prefix, has_suffix};

fn here() -> Where {
    Where { file: "edges.rs", line: 3 }
}

#[test]
fn a_pattern_that_does_not_compile_is_reported_as_a_broken_pattern() {
    let held = dokimi_assert::matcher::text::matches("GET /users", "[unclosed", "the line names the collection", here());

    let held = held.expect("a pattern that cannot compile has to say so");
    assert_eq!(held.assertion, "matches");
    // Without this the message reads as a subject that failed to match,
    // and the typo sends someone looking for a bug in the code under test.
    assert!(
        held.detail("pattern").is_some_and(|pattern| pattern.text().contains("[unclosed")),
        "{}",
        held.render()
    );
    assert!(held.detail("error").is_some(), "{}", held.render());
}

#[test]
fn matches_searches_rather_than_anchoring() {
    let searching = dokimi_assert::matcher::text::matches("GET /users 200", "users", "the line names the collection", here());
    assert!(searching.is_none(), "{:?}", searching);

    let anchored = dokimi_assert::matcher::text::matches("GET /users 200", "^users", "the line starts with the path", here());
    assert!(anchored.is_some(), "an anchor is honoured where one is written");
}

#[test]
fn length_counts_characters_rather_than_bytes() {
    // A value that reads as one character counts as one however it encodes.
    let held = length("é", 1, "the accented letter is one character", here());
    assert!(held.is_none(), "{:?}", held);
}

#[test]
fn a_failed_match_carries_both_texts_as_written() {
    let held = dokimi_assert::matcher::text::matches("GET /users 200", "^users", "the line starts with the path", here()).unwrap();
    assert_eq!(
        held.render(),
        "the line starts with the path: got \"GET /users 200\", pattern \"^users\""
    );
    assert_eq!(held.where_at, here());
}

#[test]
fn prefix_and_suffix_report_what_they_compared() {
    assert_eq!(has_prefix("GET /users", "GET", "the method", here()), None);
    let held = has_prefix("GET", "POST", "the method is right", here()).unwrap();
    assert_eq!(held.assertion, "has-prefix");
    assert_eq!(held.render(), "the method is right: got \"GET\", prefix \"POST\"");

    assert_eq!(has_suffix("report.json", ".json", "the extension", here()), None);
    let held = has_suffix("report.json", ".csv", "the extension", here()).unwrap();
    assert_eq!(held.assertion, "has-suffix");
    assert_eq!(held.detail("suffix"), Some(&Detail::Said("\".csv\"".to_owned())));
    assert!(has_suffix("a", "longer", "a suffix longer than the text", here()).is_some());
    assert_eq!(has_prefix("any", "", "the empty prefix", here()), None);
}

#[test]
fn needles_are_found_in_order_each_after_the_last() {
    assert_eq!(contains_in_order("a b c", &["a", "b", "c"], "in order", here()), None);
    assert_eq!(contains_in_order("anything", &[], "nothing asked", here()), None);

    let held = contains_in_order("c b a", &["a", "b"], "in order", here()).unwrap();
    assert_eq!(held.assertion, "contains-in-order");
    assert_eq!(held.detail("missing"), Some(&Detail::Said("\"b\"".to_owned())));

    // The same text cannot satisfy two needles.
    let once = contains_in_order("ab", &["ab", "b"], "no overlap", here()).unwrap();
    assert_eq!(once.render(), "no overlap: got \"ab\", missing \"b\"");
}

#[test]
fn containment_follows_the_container() {
    assert!(text_holds("hello world", "o w"));
    assert!(!text_holds("hello", "world"));
    assert_eq!(contains("hello", "ell", "\"hello\"", "\"ell\"", "the greeting", here()), None);

    let held = contains(&vec![1, 2, 3], &4, "[1, 2, 3]", "4", "the ids", here()).unwrap();
    assert_eq!(held.render(), "the ids: haystack [1, 2, 3], needle 4");

    assert_eq!(not_contains(&vec![1, 2, 3], &4, "[1, 2, 3]", "4", "the ids", here()), None);
    let held = not_contains("hello", "ell", "\"hello\"", "\"ell\"", "the greeting", here()).unwrap();
    assert_eq!(held.assertion, "not-contains");
}

#[test]
fn sizes_report_the_count_they_read() {
    let held = length(&vec![1, 2], 3, "every item comes back", here()).unwrap();
    assert_eq!(held.render(), "every item comes back: want 3, got 2");
    assert_eq!(is_empty("", "nothing left", here()), None);
    let held = is_empty("ab", "nothing left", here()).unwrap();
    assert_eq!(held.detail("length"), Some(&Detail::Count(2)));
    assert!(is_not_empty("", "the name", here()).is_some());
    assert_eq!(is_not_empty("ada", "the name", here()), None);
}

#[test]
fn one_needle_in_order_is_one_needle_anywhere() {
    for (text, needle) in [("abc", "b"), ("abc", "x"), ("", ""), ("aa", "aaa")] {
        let in_order = contains_in_order(text, &[needle], "in order", here()).is_none();
        assert_eq!(in_order, text_holds(text, needle), "{text:?} and {needle:?}");
    }
}
