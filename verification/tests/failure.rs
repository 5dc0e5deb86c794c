//! The record a failing assertion reports, and the sentence it renders to.

use dokimi_assert::failure::{Detail, Failure, Where};
use dokimi_assert::seat::{report, Reported};

/// A record carrying nothing, for the assertions that report the contract alone.
fn bare(assertion: &'static str, contract: &str) -> Failure {
    Failure {
        assertion,
        contract: contract.to_owned(),
        detail: Vec::new(),
        where_at: Where {
            file: "here.rs",
            line: 1,
        },
    }
}

#[test]
fn a_record_carrying_nothing_renders_the_contract_alone() {
    assert_eq!(bare("true", "the flag is set").render(), "the flag is set");
}

#[test]
fn the_detail_reads_in_the_order_the_assertion_states_it() {
    let mut held = bare("length", "every item comes back");
    held.detail = vec![
        ("want", "3".to_owned().into()),
        ("got", "2".to_owned().into()),
    ];

    assert_eq!(held.render(), "every item comes back: want 3, got 2");
}

#[test]
fn detail_answers_a_field_by_name_and_nothing_for_one_it_lacks() {
    let mut held = bare("equal", "the count is right");
    held.detail = vec![
        ("want", "2".to_owned().into()),
        ("got", "1".to_owned().into()),
    ];

    assert_eq!(
        held.detail("want").map(Detail::text).as_deref(),
        Some("2")
    );
    assert_eq!(held.detail("absent"), None);
}

#[test]
fn a_count_renders_in_decimal_and_a_number_as_written() {
    let mut held = bare("in-range", "the page size is sane");
    held.detail = vec![
        ("length", 1_204_usize.into()),
        ("low", Detail::Number("0.5".to_owned())),
        ("zero", Detail::Count(0)),
    ];
    assert_eq!(held.render(), "the page size is sane: length 1204, low 0.5, zero 0");
}

#[test]
fn the_first_field_of_a_repeated_name_is_answered() {
    let mut held = bare("equal", "c");
    held.detail = vec![("got", Detail::Count(1)), ("got", Detail::Count(2))];
    assert_eq!(held.detail("got"), Some(&Detail::Count(1)));
    assert_eq!(held.copy(), held);
}

#[test]
fn a_recorder_keeps_the_first_fatal_and_every_record() {
    let mut seat = Reported::new();
    seat.fail("first");
    seat.fail("second");
    seat.record("recorded");

    assert_eq!(seat.message(), "first", "the aborting path keeps the first failure");
    assert_eq!(seat.messages(), vec!["recorded".to_owned()], "and the recording path keeps its own");
    assert!(seat.failed());
}

#[test]
fn a_record_reported_is_kept_and_rendered_through_its_path() {
    let mut seat = Reported::new();
    assert!(!seat.failed());
    assert_eq!(seat.message(), "");
    let mut held = bare("length", "every item comes back");
    held.detail = vec![("want", Detail::Count(3)), ("got", Detail::Count(2))];
    seat.report(held.clone(), false);
    seat.report(bare("true", "the flag is set"), true);
    seat.helper();

    assert_eq!(seat.messages(), vec!["every item comes back: want 3, got 2".to_owned()]);
    assert_eq!(seat.message(), "the flag is set");
    assert_eq!(seat.failures(), vec![held, bare("true", "the flag is set")]);
    assert_eq!(seat.helper_calls(), 1);
}

#[test]
fn a_collector_report_numbers_every_failure_and_says_where() {
    let at = |line| Where { file: "tests/surface.rs", line };
    assert_eq!(
        report(&[("the count is right: want 2, got 1".to_owned(), at(14))]),
        "the count is right: want 2, got 1\n  at tests/surface.rs:14"
    );
    assert_eq!(
        report(&[("a".to_owned(), at(14)), ("b".to_owned(), at(15))]),
        "2 failures:\n  1. a\n     at tests/surface.rs:14\n  2. b\n     at tests/surface.rs:15"
    );
}

#[test]
fn a_reported_failure_carries_the_call_site() {
    let held = dokimi_assert::matcher::values::equal(
        1_i64 == 2_i64,
        "2",
        "1",
        "the values match",
        Where { file: "tests/failure.rs", line: 116 },
    )
    .expect("unequal values are reported");

    assert!(
        held.where_at.file.ends_with("failure.rs"),
        "the record names the file the caller wrote in, got {}",
        held.where_at.file
    );
    assert!(held.where_at.line > 0, "the record names a line");
}
