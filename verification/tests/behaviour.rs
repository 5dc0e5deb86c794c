//! How a subject behaves, rather than what it answers.

use dokimi_assert::failure::{Detail, Failure, Where};
use dokimi_assert::matcher::behaviour::{self, Answer, Cancel, Stop};
use dokimi_assert::matcher::sizes::is_not_empty;
use dokimi_assert::seat::Reported;
use std::sync::atomic::{AtomicBool, Ordering};
use std::sync::Mutex;

fn here() -> Where {
    Where { file: "behaviour.rs", line: 7 }
}

#[test]
fn a_stopped_handle_says_why() {
    assert_eq!(Cancel::cancelled().stopped(), Some(Stop::Cancelled));
    assert_eq!(Cancel::expired().stopped(), Some(Stop::DeadlineExceeded));
    assert_eq!(
        Cancel::new().stopped(),
        None,
        "a fresh handle has not been stopped"
    );

    let held = Cancel::new();
    held.stop();
    assert!(
        held.is_stopped(),
        "stopping is what a caller giving up looks like"
    );

    // The first reason wins, so a later expire does not rewrite history.
    held.expire();
    assert_eq!(held.stopped(), Some(Stop::Cancelled));
}

#[test]
fn an_expired_handle_keeps_its_reason_when_stopped_later() {
    let held = Cancel::new();
    held.expire();
    held.stop();
    assert_eq!(held.stopped(), Some(Stop::DeadlineExceeded));
    assert!(!Cancel::default().is_stopped());
}

#[test]
fn a_subject_that_gives_the_wanted_reason_passes() {
    let answer = Answer::Refused { reasons: vec![Stop::Cancelled], said: "cancelled".to_owned() };
    assert_eq!(behaviour::honours(Stop::Cancelled, answer, "the worker stops when told", here()), None);
}

#[test]
fn a_subject_that_did_the_work_is_reported_under_the_assertion_asked_for() {
    let failure = behaviour::honours(Stop::Cancelled, Answer::Done, "the worker stops when told", here())
        .expect("a subject that did the work fails");
    assert_eq!(failure.assertion, "honours-cancellation");
    assert_eq!(failure.contract, "the worker stops when told");
    assert_eq!(failure.detail("got").map(Detail::text).as_deref(), Some("returned as if it had done the work"));
    assert_eq!(failure.where_at, here());
}

#[test]
fn a_subject_giving_the_other_reason_is_reported_with_what_it_said() {
    let answer = Answer::Refused { reasons: vec![Stop::Cancelled], said: "cancelled".to_owned() };
    let failure = behaviour::honours(Stop::DeadlineExceeded, answer, "the worker respects no time", here())
        .expect("the wrong reason is not the right reason");
    assert_eq!(failure.assertion, "honours-deadline");
    assert_eq!(failure.render(), "the worker respects no time: got cancelled");
}

#[test]
fn a_token_subject_is_reported_in_a_sentence() {
    assert_eq!(
        behaviour::honours_token(Stop::Cancelled, Answer::Done, "the worker stops when told").as_deref(),
        Some("the worker stops when told: a subject given a cancelled token completed as if it had done the work")
    );
    let answer = Answer::Refused { reasons: vec![], said: "disk full".to_owned() };
    assert_eq!(
        behaviour::honours_token(Stop::DeadlineExceeded, answer, "m").as_deref(),
        Some("m: a subject given a deadline exceeded token failed with disk full instead")
    );
    let answer = Answer::Refused { reasons: vec![Stop::DeadlineExceeded], said: String::new() };
    assert_eq!(behaviour::honours_token(Stop::DeadlineExceeded, answer, "m"), None);
}

#[test]
fn completes_within_writes_whole_milliseconds() {
    assert_eq!(behaviour::completes_within(10_000_000, 9_999_999, "quick", here()), None);
    assert_eq!(behaviour::completes_within(10_000_000, 10_000_000, "quick", here()), None);
    let failure = behaviour::completes_within(10_000_000, 61_900_000, "get stays quick", here())
        .expect("a body over the ceiling must be reported");
    assert_eq!(failure.assertion, "completes-within");
    assert_eq!(failure.render(), "get stays quick: want 10ms, got 61ms");
    assert_eq!(
        behaviour::still_running(30_500_000, "get stays quick"),
        "get stays quick: still running after 30ms, want at most the same"
    );
}

#[test]
fn none_handle_safe_reports_only_a_panic() {
    assert_eq!(behaviour::none_handle_safe(false, "get survives no handle", here()), None);
    let failure = behaviour::none_handle_safe(true, "get survives no handle", here()).expect("a panic fails");
    assert_eq!(failure.assertion, "nil-context-safe");
    assert_eq!(failure.render(), "get survives no handle: got a panic");
}

#[test]
fn is_pure_carries_both_readings() {
    assert_eq!(behaviour::is_pure(true, "1", "1", "count reads", here()), None);
    let failure = behaviour::is_pure(false, "1", "2", "count reads", here()).expect("a change fails");
    assert_eq!(failure.assertion, "pure");
    assert_eq!(failure.render(), "count reads: want 1, got 2");
}

#[test]
fn rejects_fails_a_body_that_reported_nothing() {
    assert_eq!(behaviour::rejects(true, "an empty name is refused", here()), None);
    let failure = behaviour::rejects(false, "an empty name is refused", here()).expect("a quiet body fails");
    assert_eq!(failure.assertion, "rejects");
    assert_eq!(failure.render(), "an empty name is refused");
}

#[test]
fn each_reason_reads_as_its_words() {
    assert_eq!(Stop::Cancelled.words(), "cancelled");
    assert_eq!(Stop::DeadlineExceeded.words(), "deadline exceeded");
    assert_eq!(behaviour::assertion_for(Stop::Cancelled), "honours-cancellation");
    assert_eq!(behaviour::assertion_for(Stop::DeadlineExceeded), "honours-deadline");
}

/// Hand a subject a handle and say how it answered, as the runner does.
fn answer_of(outcome: Result<(), Stop>) -> Answer {
    match outcome {
        Ok(()) => Answer::Done,
        Err(why) => Answer::Refused { reasons: vec![why], said: why.words().to_owned() },
    }
}

/// Drive a subject with a cancelled or an expired handle.
fn honours(want: Stop, body: impl FnOnce(Option<&Cancel>) -> Result<(), Stop>, msg: &str) -> Option<Failure> {
    let handle = match want {
        Stop::Cancelled => Cancel::cancelled(),
        Stop::DeadlineExceeded => Cancel::expired(),
    };
    behaviour::honours(want, answer_of(body(Some(&handle))), msg, here())
}

/// A subject that reads the handle and stops when told.
fn stops_when_told(ran: &AtomicBool) -> impl FnOnce(Option<&Cancel>) -> Result<(), Stop> + '_ {
    move |handle| {
        ran.store(true, Ordering::SeqCst);
        match handle.and_then(Cancel::stopped) {
            Some(why) => Err(why),
            None => Ok(()),
        }
    }
}

/// A subject that never looks at the handle and does the work anyway.
fn ignores_the_handle(ran: &AtomicBool) -> impl FnOnce(Option<&Cancel>) -> Result<(), Stop> + '_ {
    move |_handle| {
        ran.store(true, Ordering::SeqCst);
        Ok(())
    }
}

#[test]
fn honours_cancellation_passes_a_subject_that_stops_and_it_ran() {
    let ran = AtomicBool::new(false);
    let held = honours(Stop::Cancelled, stops_when_told(&ran), "the worker stops when told");

    assert_eq!(held, None);
    assert!(ran.load(Ordering::SeqCst), "the subject has to run, or passing means nothing");
}

#[test]
fn honours_cancellation_reports_a_subject_that_ignores_the_handle() {
    let ran = AtomicBool::new(false);
    let held = honours(Stop::Cancelled, ignores_the_handle(&ran), "the worker stops when told");

    assert!(ran.load(Ordering::SeqCst), "the subject has to run");
    let held = held.expect("a subject that never reads the handle must be reported");
    assert_eq!(held.assertion, "honours-cancellation");
}

#[test]
fn behaviour_honours_cancellation_reports_a_subject_that_fails_for_its_own_reasons() {
    // Failing and happening to do so in time is not honouring the handle.
    let held = honours(Stop::Cancelled, |_handle| Err(Stop::DeadlineExceeded), "the worker stops when told")
        .expect("the wrong reason is not the right reason");
    assert_eq!(held.assertion, "honours-cancellation");
}

#[test]
fn behaviour_honours_deadline_asks_for_the_other_reason() {
    let ran = AtomicBool::new(false);
    assert_eq!(honours(Stop::DeadlineExceeded, stops_when_told(&ran), "the worker respects no time"), None);
    assert!(ran.load(Ordering::SeqCst), "the subject has to run");

    let wrong = honours(Stop::DeadlineExceeded, |_h| Err(Stop::Cancelled), "the worker respects no time");
    assert!(wrong.is_some(), "a subject reporting the other reason must be reported");
}

#[test]
fn none_handle_safe_passes_a_subject_that_declines_and_reports_one_that_panics() {
    // Catching the panic is the runner's part; what each outcome reports is checked here.
    let returning: Result<(), Stop> = Ok(());
    assert!(returning.is_ok());
    assert_eq!(behaviour::none_handle_safe(false, "get survives no handle", here()), None);

    let declining: Result<(), Stop> = Err(Stop::Cancelled);
    assert!(declining.is_err(), "an error of its own is declining, not crashing");
    assert_eq!(behaviour::none_handle_safe(false, "get survives no handle", here()), None);

    let crashing = behaviour::none_handle_safe(true, "get survives no handle", here())
        .expect("unwrapping the missing handle must be reported");
    assert_eq!(crashing.assertion, "nil-context-safe");
}

/// Read before and after the body, and say what the library makes of the two readings.
fn is_pure<S: PartialEq + std::fmt::Debug>(observe: impl Fn() -> S, body: impl FnOnce(), msg: &str) -> Option<Failure> {
    let before = observe();
    body();
    let after = observe();
    behaviour::is_pure(before == after, &format!("{before:?}"), &format!("{after:?}"), msg, here())
}

#[test]
fn is_pure_passes_an_unchanged_projection_and_reports_a_changed_one() {
    let store = Mutex::new(vec!["a".to_owned(), "b".to_owned()]);
    let read = || store.lock().expect("the lock is held briefly").clone();

    assert_eq!(is_pure(read, || {}, "count reads"), None);

    let failing = is_pure(
        read,
        || store.lock().expect("the lock is held briefly").push("c".to_owned()),
        "count reads",
    )
    .expect("a changed projection must be reported");
    assert_eq!(failing.assertion, "pure");
}

#[test]
fn is_pure_answers_an_owned_value_so_the_reading_is_a_snapshot() {
    let store = Mutex::new(vec![1]);
    let held = is_pure(
        || store.lock().expect("the lock is held briefly").clone(),
        || store.lock().expect("the lock is held briefly").push(2),
        "the store is only read",
    );
    assert!(held.is_some(), "an owned reading sees the change a borrow would have missed");
}

/// Run a body against a seat of its own, and say what the library makes of it.
fn rejects(body: impl FnOnce(&mut Reported), msg: &str) -> (Option<Failure>, String) {
    let mut trial = Reported::new();
    body(&mut trial);
    let reported = trial.failed();
    let said = if reported { trial.message() } else { String::new() };
    (behaviour::rejects(reported, msg, here()), said)
}

#[test]
fn rejects_passes_a_failing_body_and_reports_a_passing_one() {
    let (held, reported) = rejects(
        |trial| {
            if let Some(failure) = is_not_empty("", "the name", here()) {
                trial.report(failure, true);
            }
        },
        "an empty name is refused",
    );
    assert_eq!(held, None);
    assert!(reported.contains("the name"), "{reported}");

    let (held, nothing) = rejects(
        |trial| {
            if let Some(failure) = is_not_empty("ada", "the name", here()) {
                trial.report(failure, true);
            }
        },
        "an empty name is refused",
    );
    assert!(held.is_some(), "a body that reported nothing is what rejects looks for");
    assert!(nothing.is_empty(), "there is no failure text to hand back");
}

#[test]
fn rejects_sees_a_soft_assertion_inside_the_body() {
    let (held, _) = rejects(
        |trial| {
            if let Some(failure) = is_not_empty("", "name", here()) {
                trial.report(failure, false);
            }
        },
        "an empty name is refused",
    );
    assert_eq!(held, None, "recorded or thrown, the body failed either way");
}

#[test]
fn stopping_moves_only_a_running_state() {
    assert_eq!(behaviour::next_state(0, Stop::Cancelled), 1);
    assert_eq!(behaviour::next_state(0, Stop::DeadlineExceeded), 2);
    assert_eq!(behaviour::next_state(1, Stop::DeadlineExceeded), 1);
    assert_eq!(behaviour::next_state(2, Stop::Cancelled), 2);
}

#[test]
fn the_wanted_reason_counts_anywhere_in_the_chain() {
    // A chain that names another reason first still honours the handle when the wanted
    // one follows.
    let answer = Answer::Refused {
        reasons: vec![Stop::DeadlineExceeded, Stop::Cancelled],
        said: "while saving".to_owned(),
    };
    assert_eq!(behaviour::honours(Stop::Cancelled, answer.clone(), "the worker stops when told", here()), None);
    assert_eq!(behaviour::honours_token(Stop::Cancelled, answer.clone(), "the worker stops when told"), None);
    assert_eq!(behaviour::honours(Stop::DeadlineExceeded, answer, "the worker respects no time", here()), None);

    let other = Answer::Refused { reasons: vec![Stop::DeadlineExceeded], said: "late".to_owned() };
    let held = behaviour::honours(Stop::Cancelled, other, "the worker stops when told", here()).unwrap();
    assert_eq!(held.render(), "the worker stops when told: got late");
    assert!(behaviour::gives_reason(&vec![Stop::Cancelled], Stop::Cancelled));
    assert!(!behaviour::gives_reason(&vec![], Stop::Cancelled));
}
