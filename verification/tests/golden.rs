//! Comparison against a recorded file.
//!
//! Reading and writing the file is the runner's part; what the recorded text and a fresh
//! output make of the comparison is checked here, handed the file's content.

use dokimi_assert::golden::{
    compare_field, compare_recorded, raw_value_of, scrub_hashes, scrub_json_fields, scrub_run_ids, scrub_timestamps,
    scrubbed, trim, unwritable, update_requested, Scrubber, UPDATE_ENV,
};

#[test]
fn matching_content_passes_and_differing_content_is_reported() {
    assert_eq!(compare_recorded("same.txt", "content", Some("content"), &[]), None);

    let held = compare_recorded("differs.txt", "changed", Some("content"), &[])
        .expect("a changed output must be reported");
    assert!(held.contains(UPDATE_ENV), "{held}");
    assert_eq!(
        held,
        "differs.txt does not match; run the test again with UPDATE_GOLDEN=1 to accept it\n--- recorded\ncontent\n--- got\nchanged"
    );
}

#[test]
fn a_missing_file_says_how_to_record_it() {
    let held = compare_recorded("absent.txt", "content", None, &[]).expect("a file that is not there cannot match");
    assert!(held.contains(UPDATE_ENV), "{held}");
}

#[test]
fn scrubbers_replace_what_changes_every_run() {
    let timestamps = scrub_timestamps().expect("the timestamp shape compiles");
    let held = compare_recorded("scrubbed.txt", "at 2026-08-30T11:22:33Z", Some("at SCRUBBED_TIMESTAMP"), &[timestamps]);
    assert_eq!(held, None);
}

#[test]
fn every_scrubber_replaces_its_own_shape() {
    let scrubbers = [
        scrub_run_ids().expect("the run id shape compiles"),
        scrub_hashes().expect("the hash shape compiles"),
        scrub_timestamps().expect("the timestamp shape compiles"),
    ];
    let held = compare_recorded(
        "all.txt",
        "run 3f2504e0-4f89-11d3-9a0c-0305e82c3301 \
         digest 9f86d081884c7d659a2feaa0c55ad015a3bf4f1b2b0b822cd15d6c15b0f00a08 \
         at 2026-08-30T11:22:33Z",
        Some("run SCRUBBED_RUN_ID digest SCRUBBED_HASH at SCRUBBED_TIMESTAMP"),
        &scrubbers,
    );
    assert_eq!(held, None);
}

#[test]
fn a_nested_object_is_read_whole_not_cut_at_its_first_brace() {
    // A regular expression cannot find where a value ends. Scanning can.
    let recorded = "{\n  \"items\": {\"a\": 1},\n  \"other\": 2\n}";
    assert_eq!(compare_field("golden.json", "items", "{\"a\": 1}", false, Some(recorded), &[]), None);
    assert!(
        compare_field("golden.json", "items", "{\"a\": 2}", false, Some(recorded), &[]).is_some(),
        "a changed nested value must be reported"
    );
}

#[test]
fn an_array_of_objects_is_read_whole() {
    let recorded = "{\n  \"items\": [{\"a\": 1}, {\"b\": 2}]\n}";
    assert_eq!(compare_field("golden.json", "items", "[{\"a\": 1}, {\"b\": 2}]", false, Some(recorded), &[]), None);
}

#[test]
fn a_brace_inside_a_string_is_not_a_structural_brace() {
    let recorded = "{\n  \"items\": \"a } and a , inside\"\n}";
    assert_eq!(compare_field("golden.json", "items", "\"a } and a , inside\"", false, Some(recorded), &[]), None);
}

#[test]
fn a_missing_field_says_so() {
    let held = compare_field("golden.json", "absent", "[1]", false, Some("{\"other\": 1}"), &[])
        .expect("a field that is not there cannot match");
    assert!(held.contains("absent"), "{held}");
}

#[test]
fn the_raw_value_is_cut_where_the_value_ends() {
    assert_eq!(raw_value_of("{\"a\": 1, \"b\": 2}", "a").as_deref(), Some("1"));
    assert_eq!(raw_value_of("{\"a\":   [1, [2]], \"b\": 2}", "a").as_deref(), Some("[1, [2]]"));
    assert_eq!(raw_value_of("{\"a\": \"x \\\" } y\"}", "a").as_deref(), Some("\"x \\\" } y\""));
    assert_eq!(raw_value_of("{\"a\": 3", "a").as_deref(), Some("3"));
    assert_eq!(raw_value_of("{\"a\" 3}", "a"), None);
    assert_eq!(raw_value_of("{}", "a"), None);
}

#[test]
fn a_field_cannot_be_rewritten_and_a_file_that_is_not_there_is_named() {
    let held = compare_field("g.json", "items", "1", true, Some("{\"items\": 1}"), &[]).unwrap();
    assert_eq!(
        held,
        "g.json: UPDATE_GOLDEN cannot rewrite one field of a golden file; edit it or record the whole file with matches_at"
    );
    assert_eq!(compare_field("g.json", "items", "1", false, None, &[]).unwrap(), "g.json does not exist");
    let held = compare_field("g.json", "items", " 2 ", false, Some("{\"items\": 1}"), &[]).unwrap();
    assert_eq!(held, "g.json field \"items\" does not match\n--- recorded\n1\n--- got\n2");
}

#[test]
fn only_a_set_value_other_than_zero_asks_for_a_rewrite() {
    assert!(!update_requested(None));
    assert!(!update_requested(Some("")));
    assert!(!update_requested(Some("0")));
    assert!(update_requested(Some("1")));
    assert!(update_requested(Some("00")));
}

#[test]
fn scrubbing_applies_every_scrubber_in_order() {
    let first = Scrubber::try_new("a+", "b").expect("the pattern compiles");
    let second = Scrubber::try_new("b", "c").expect("the pattern compiles");
    assert_eq!(first.apply("xaax"), "xbx");
    assert_eq!(scrubbed("aa-b", &[first.clone(), second.clone()]), "c-c");
    assert_eq!(scrubbed("aa-b", &[second, first]), "b-c");
    assert!(Scrubber::try_new("(unclosed", "x").is_err());
    assert_eq!(trim("  \t value \n"), "value");
    assert_eq!(trim("   "), "");
    assert_eq!(unwritable("g.txt", "denied", true), "g.txt: the golden file could not be written: denied");
    assert_eq!(unwritable("dir", "denied", false), "dir: denied");
}

#[test]
fn a_nested_member_of_the_same_name_is_not_the_field() {
    let document = "{\"outer\": {\"items\": 1}, \"items\": 2}";
    assert_eq!(raw_value_of(document, "items").map(|v| v.trim().to_owned()), Some("2".to_owned()));
    assert_eq!(raw_value_of("{\"outer\": {\"items\": 1}}", "items"), None);
    assert_eq!(raw_value_of("{\"note\": \"\\\"items\\\": 3\", \"items\": 4}", "items").as_deref(), Some("4"));
    assert_eq!(raw_value_of("[{\"items\": 1}]", "items"), None);
}

#[test]
fn json_fields_are_scrubbed_by_name_and_keep_their_keys() {
    let scrubber = scrub_json_fields(&["id", "a.b"]).expect("the field shape compiles");
    assert_eq!(
        scrubber.apply("{\"id\": \"x-1\", \"n\": 2, \"a.b\": 3.5, \"axb\": true}"),
        "{\"id\": \"SCRUBBED_FIELD\", \"n\": 2, \"a.b\": \"SCRUBBED_FIELD\", \"axb\": true}"
    );
    let none = scrub_json_fields(&[]).expect("the empty shape compiles");
    assert_eq!(none.apply("{\"\": 1}"), "{\"\": 1}");
}
