//! Assertions about text.
use crate::pattern::{compile, is_match, pattern_complaint, pattern_compiles, pattern_matches};
use crate::failure::{is_said, names, Detail, Failure, Where};
use crate::words::{chars_of, debug_text, quoted};
use vstd::prelude::*;
use vstd::string::*;

verus! {

/// Whether a text starts with another.
pub open spec fn starts_with(text: Seq<char>, prefix: Seq<char>) -> bool {
    prefix.len() <= text.len() && text.subrange(0, prefix.len() as int) == prefix
}

/// Whether a text ends with another.
pub open spec fn ends_with(text: Seq<char>, suffix: Seq<char>) -> bool {
    suffix.len() <= text.len() && text.subrange(text.len() - suffix.len(), text.len() as int) == suffix
}

/// Whether `part` sits in `text` starting at `at`, compared character by character.
pub(crate) fn sits_at(text: &Vec<char>, part: &Vec<char>, at: usize) -> (same: bool)
    requires
        at + part@.len() <= text@.len(),
    ensures
        same == (text@.subrange(at as int, at + part@.len()) == part@),
{
    let mut k: usize = 0;
    while k < part.len()
        invariant
            at + part.len() <= text.len(),
            k <= part@.len(),
            forall|j: int| 0 <= j < k ==> text@[at + j] == part@[j],
        decreases part@.len() - k,
    {
        assert(at + k < text.len());
        if text[at + k] != part[k] {
            assert(text@.subrange(at as int, at + part@.len())[k as int] != part@[k as int]);
            return false;
        }
        k += 1;
    }
    assert(text@.subrange(at as int, at + part@.len()) =~= part@);
    true
}

/// Report when got does not start with prefix.
///
/// The record carries both texts as their `Debug` writes them.
pub fn has_prefix(got: &str, prefix: &str, msg: &str, at: Where) -> (out: Option<Failure>)
    ensures
        out is None <==> starts_with(got@, prefix@),
        out matches Some(f) ==> {
            &&& names(f, "has-prefix"@, msg@, at)
            &&& f.detail@.len() == 2
            &&& f.detail@[0].0@ == "got"@ && is_said(f.detail@[0].1, quoted(got@))
            &&& f.detail@[1].0@ == "prefix"@ && is_said(f.detail@[1].1, quoted(prefix@))
        },
{
    let text = chars_of(got);
    let part = chars_of(prefix);
    if part.len() <= text.len() && sits_at(&text, &part, 0) {
        None
    } else {
        Some(
            Failure::new(
                "has-prefix",
                msg,
                vec![("got", Detail::Said(debug_text(got))), ("prefix", Detail::Said(debug_text(prefix)))],
                at,
            ),
        )
    }
}

/// Report when got does not end with suffix.
pub fn has_suffix(got: &str, suffix: &str, msg: &str, at: Where) -> (out: Option<Failure>)
    ensures
        out is None <==> ends_with(got@, suffix@),
        out matches Some(f) ==> {
            &&& names(f, "has-suffix"@, msg@, at)
            &&& f.detail@.len() == 2
            &&& f.detail@[0].0@ == "got"@ && is_said(f.detail@[0].1, quoted(got@))
            &&& f.detail@[1].0@ == "suffix"@ && is_said(f.detail@[1].1, quoted(suffix@))
        },
{
    let text = chars_of(got);
    let part = chars_of(suffix);
    if part.len() <= text.len() && sits_at(&text, &part, text.len() - part.len()) {
        None
    } else {
        Some(
            Failure::new(
                "has-suffix",
                msg,
                vec![("got", Detail::Said(debug_text(got))), ("suffix", Detail::Said(debug_text(suffix)))],
                at,
            ),
        )
    }
}

/// Report when got does not match the pattern.
///
/// The pattern is searched rather than anchored: use `^` and `$` where you mean the whole
/// value. A pattern that does not compile is reported as the failure, with what the
/// pattern engine said of it, so a typo in a pattern does not read like a failing subject.
pub fn matches(got: &str, pattern: &str, msg: &str, at: Where) -> (out: Option<Failure>)
    ensures
        !pattern_compiles(pattern@) ==> (out matches Some(f) && {
            &&& names(f, "matches"@, msg@, at)
            &&& f.detail@.len() == 2
            &&& f.detail@[0].0@ == "pattern"@ && is_said(f.detail@[0].1, quoted(pattern@))
            &&& f.detail@[1].0@ == "error"@ && is_said(f.detail@[1].1, pattern_complaint(pattern@))
        }),
        pattern_compiles(pattern@) ==> (out is None <==> pattern_matches(pattern@, got@)),
        pattern_compiles(pattern@) ==> (out matches Some(f) ==> {
            &&& names(f, "matches"@, msg@, at)
            &&& f.detail@.len() == 2
            &&& f.detail@[0].0@ == "got"@ && is_said(f.detail@[0].1, quoted(got@))
            &&& f.detail@[1].0@ == "pattern"@ && is_said(f.detail@[1].1, quoted(pattern@))
        }),
{
    match compile(pattern) {
        Err(broken) => {
            Some(
                Failure::new(
                    "matches",
                    msg,
                    vec![("pattern", Detail::Said(debug_text(pattern))), ("error", Detail::Said(broken))],
                    at,
                ),
            )
        },
        Ok(compiled) => {
            if is_match(&compiled, got) {
                None
            } else {
                Some(
                    Failure::new(
                        "matches",
                        msg,
                        vec![("got", Detail::Said(debug_text(got))), ("pattern", Detail::Said(debug_text(pattern)))],
                        at,
                    ),
                )
            }
        },
    }
}

} // verus!
