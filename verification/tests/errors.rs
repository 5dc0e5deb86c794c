//! Failures handed back as values, and the chain of sources.
//!
//! Every assertion is driven twice, with an error that satisfies it and one that does
//! not. An assertion that reports nothing whatever it is handed passes a one-sided test.

use dokimi_assert::failure::Where;
use dokimi_assert::seat::Reported;
use dokimi_assert::matcher::errors::{
    error_as, error_is, error_is_not, has_error, no_error, takes_link, MAX_SOURCES,
};
use std::error::Error;
use std::fmt;

fn here() -> Where {
    Where { file: "errors.rs", line: 5 }
}

/// An error with a name of its own, so a downcast is not a match on anything.
#[derive(Debug, PartialEq)]
struct Refused(&'static str);

impl fmt::Display for Refused {
    fn fmt(&self, f: &mut fmt::Formatter<'_>) -> fmt::Result {
        f.write_str("refused: ")?;
        f.write_str(self.0)
    }
}

impl Error for Refused {}

/// An error wrapping another, so a test can prove the chain is walked.
#[derive(Debug)]
struct WhileSaving(Refused);

impl fmt::Display for WhileSaving {
    fn fmt(&self, f: &mut fmt::Formatter<'_>) -> fmt::Result {
        f.write_str("while saving")
    }
}

impl Error for WhileSaving {
    fn source(&self) -> Option<&(dyn Error + 'static)> {
        Some(&self.0)
    }
}

/// Every link of the chain, walked for as long as the library says to take one more.
fn chain<'a>(error: &'a (dyn Error + 'static)) -> Vec<&'a (dyn Error + 'static)> {
    let mut found: Vec<&(dyn Error + 'static)> = Vec::new();
    let mut seen: Vec<usize> = Vec::new();
    let mut current = Some(error);
    while let Some(link) = current {
        // Identity, not equality: a link already taken answers where it was taken.
        let identity = found.iter().position(|taken| std::ptr::eq(*taken, link)).unwrap_or(found.len());
        if !takes_link(&seen, identity) {
            break;
        }
        seen.push(identity);
        found.push(link);
        current = link.source();
    }
    found
}

/// Whether a link equal to target sits anywhere in the chain.
fn matched<T: PartialEq + Error + 'static>(error: &(dyn Error + 'static), target: &T) -> bool {
    chain(error).into_iter().any(|link| link.downcast_ref::<T>().is_some_and(|held| held == target))
}

#[test]
fn no_error_passes_ok_and_reports_err() {
    let ok: Result<(), Refused> = Ok(());
    let said = ok.as_ref().err().map(|error| format!("{error:?}"));
    assert_eq!(no_error(said.as_deref(), "the call succeeds", here()), None);

    let failing: Result<(), Refused> = Err(Refused("no room"));
    let said = failing.as_ref().err().map(|error| format!("{error:?}"));
    let held = no_error(said.as_deref(), "the call succeeds", here()).expect("an error must be reported");
    assert!(held.render().contains("no room"), "{}", held.render());
}

#[test]
fn has_error_passes_err_and_reports_ok() {
    let refused: Result<(), Refused> = Err(Refused("no room"));
    let said = refused.as_ref().ok().map(|value| format!("{value:?}"));
    assert_eq!(has_error(said.as_deref(), "the call refuses", here()), None);

    let failing: Result<i32, Refused> = Ok(7);
    let said = failing.as_ref().ok().map(|value| format!("{value:?}"));
    let held = has_error(said.as_deref(), "the call refuses", here())
        .expect("the absence of an error must be reported");
    assert_eq!(held.assertion, "err-present", "{}", held.render());
}

#[test]
fn error_is_matches_and_rejects() {
    let error = Refused("no room");
    let target = Refused("no room");
    let passing = error_is(matched(&error, &target), &error.to_string(), &format!("{target:?}"), "the reason is stated", here());
    assert_eq!(passing, None);

    let error = Refused("some other reason");
    let failing = error_is(matched(&error, &target), &error.to_string(), &format!("{target:?}"), "the reason is stated", here())
        .expect("a different value must be reported");
    assert_eq!(failing.assertion, "err-is", "{}", failing.render());
}

#[test]
fn error_is_reaches_a_wrapped_source() {
    let error = WhileSaving(Refused("no room"));
    let target = Refused("no room");
    assert!(matched(&error, &target));
    let held = error_is(matched(&error, &target), &error.to_string(), &format!("{target:?}"), "the reason survives wrapping", here());
    assert_eq!(held, None);
}

#[test]
fn error_is_not_is_the_mirror() {
    let error = Refused("no room");
    let other = Refused("other");
    assert_eq!(
        error_is_not(matched(&error, &other), &error.to_string(), &format!("{other:?}"), "it fails otherwise", here()),
        None
    );

    let same = Refused("no room");
    let failing = error_is_not(matched(&error, &same), &error.to_string(), &format!("{same:?}"), "it fails otherwise", here())
        .expect("a match must be reported");
    assert_eq!(failing.assertion, "err-is-not", "{}", failing.render());
}

#[test]
fn error_as_answers_none_and_reports_when_nothing_matches() {
    let error = Refused("no room");
    let found = chain(&error).into_iter().find_map(|link| link.downcast_ref::<WhileSaving>());
    assert!(found.is_none(), "nothing matched, so there is nothing to hand back");

    let held = error_as(found.is_some(), "errors::WhileSaving", &error.to_string(), "the reason is typed", here())
        .expect("a chain with no match must be reported");
    assert!(held.render().contains("WhileSaving"), "{}", held.render());
}

#[test]
fn a_chain_that_loops_stops_rather_than_spinning() {
    // A source that answers itself is a cycle. Walking it has to end.
    #[derive(Debug)]
    struct Loops;
    impl fmt::Display for Loops {
        fn fmt(&self, f: &mut fmt::Formatter<'_>) -> fmt::Result {
            f.write_str("loops")
        }
    }
    impl Error for Loops {
        fn source(&self) -> Option<&(dyn Error + 'static)> {
            Some(&Loops)
        }
    }

    let target = Refused("no room");
    let held = error_is(matched(&Loops, &target), &Loops.to_string(), &format!("{target:?}"), "the chain is walked once", here());
    assert!(held.is_some(), "nothing in the loop matches, so it must be reported");
}

#[test]
fn the_walk_stops_at_a_link_already_taken_and_at_the_limit() {
    assert!(takes_link(&vec![], 7));
    assert!(takes_link(&vec![1, 2, 3], 7));
    assert!(!takes_link(&vec![1, 7, 3], 7));
    let full: Vec<usize> = (0..MAX_SOURCES).collect();
    assert!(!takes_link(&full, MAX_SOURCES + 1));
    assert!(takes_link(&full[..MAX_SOURCES - 1].to_vec(), MAX_SOURCES + 1));
}

#[test]
fn each_error_assertion_names_what_it_compared() {
    let held = error_is(false, "refused: x", "Refused(\"y\")", "the reason", here()).unwrap();
    assert_eq!(held.render(), "the reason: got refused: x, target Refused(\"y\")");
    let held = error_as(false, "Refused", "while saving", "typed", here()).unwrap();
    assert_eq!(held.render(), "typed: got while saving, wanted Refused");
    assert_eq!(error_as(true, "Refused", "while saving", "typed", here()), None);
    let held = no_error(Some("Refused(\"no room\")"), "the call succeeds", here()).unwrap();
    assert_eq!(held.assertion, "err-absent");
}

#[test]
fn both_surfaces_report_the_same_text() {
    let failing: Result<(), Refused> = Err(Refused("no room"));
    let said = failing.as_ref().err().map(|error| format!("{error:?}"));

    let mut aborting = Reported::new();
    aborting.report(no_error(said.as_deref(), "the call succeeds", here()).unwrap(), true);
    let mut recording = Reported::new();
    recording.report(no_error(said.as_deref(), "the call succeeds", here()).unwrap(), false);

    assert_eq!(aborting.message(), recording.message(), "only the path differs");
    assert!(aborting.messages().is_empty(), "check uses the aborting path");
    assert_eq!(recording.messages().len(), 1, "soft uses the recording path");
}
