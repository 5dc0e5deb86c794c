//! Assertions about a failure handed back rather than raised.
//!
//! Rust states failure in the type: a call that can fail answers a `Result`, and the
//! caller holds the error as a value. Matching follows the chain of sources, which is what
//! `Error::source` is for and what lets a wrapped failure still be recognised. Walking
//! that chain reads the caller's own error types, so it is the caller's side that walks;
//! what is decided here is when the walk stops and what each failure says.
use crate::failure::{is_said, names, Detail, Failure, Where};
use vstd::prelude::*;
use vstd::string::*;

verus! {

/// How far down a source chain to look before calling it cyclic.
pub const MAX_SOURCES: usize = 100;

/// Whether the walk down a chain of sources takes one more link.
///
/// `seen` holds the identity of every link taken so far. The walk stops at the limit, and
/// at a link already taken: a chain that loops back on itself has to stop, and two
/// distinct errors can compare equal, so identity rather than equality decides.
pub fn takes_link(seen: &Vec<usize>, link: usize) -> (more: bool)
    ensures
        more == (seen@.len() < MAX_SOURCES && !seen@.contains(link)),
{
    if seen.len() >= MAX_SOURCES {
        return false;
    }
    let mut at: usize = 0;
    while at < seen.len()
        invariant
            at <= seen@.len(),
            forall|j: int| 0 <= j < at ==> seen@[j] != link,
        decreases seen@.len() - at,
    {
        if seen[at] == link {
            assert(seen@[at as int] == link);
            return false;
        }
        at += 1;
    }
    true
}

/// Report when the result is an error. `error_said` is the error as its `Debug` writes
/// it, or `None` when the result is a value.
pub fn no_error(error_said: Option<&str>, msg: &str, at: Where) -> (out: Option<Failure>)
    ensures
        out is None <==> error_said is None,
        out matches Some(f) ==> {
            &&& names(f, "err-absent"@, msg@, at)
            &&& f.detail@.len() == 1
            &&& f.detail@[0].0@ == "got"@ && is_said(f.detail@[0].1, error_said->0@)
        },
{
    match error_said {
        None => None,
        Some(said) => Some(Failure::new("err-absent", msg, vec![("got", Detail::Said(said.to_owned()))], at)),
    }
}

/// Report when the result is not an error. `value_said` is the value as its `Debug` writes
/// it, or `None` when the result is an error.
pub fn has_error(value_said: Option<&str>, msg: &str, at: Where) -> (out: Option<Failure>)
    ensures
        out is None <==> value_said is None,
        out matches Some(f) ==> {
            &&& names(f, "err-present"@, msg@, at)
            &&& f.detail@.len() == 1
            &&& f.detail@[0].0@ == "got"@ && is_said(f.detail@[0].1, value_said->0@)
        },
{
    match value_said {
        None => None,
        Some(said) => Some(Failure::new("err-present", msg, vec![("got", Detail::Said(said.to_owned()))], at)),
    }
}

/// Report when the error does not match target anywhere in its chain.
///
/// `error_said` is the error as its `Display` writes it; `target_said` is the target as its
/// `Debug` writes it.
pub fn error_is(matched: bool, error_said: &str, target_said: &str, msg: &str, at: Where) -> (out: Option<Failure>)
    ensures
        out is None <==> matched,
        out matches Some(f) ==> {
            &&& names(f, "err-is"@, msg@, at)
            &&& f.detail@.len() == 2
            &&& f.detail@[0].0@ == "got"@ && is_said(f.detail@[0].1, error_said@)
            &&& f.detail@[1].0@ == "target"@ && is_said(f.detail@[1].1, target_said@)
        },
{
    if matched {
        None
    } else {
        Some(
            Failure::new(
                "err-is",
                msg,
                vec![("got", Detail::Said(error_said.to_owned())), ("target", Detail::Said(target_said.to_owned()))],
                at,
            ),
        )
    }
}

/// Report when the error matches target somewhere in its chain.
pub fn error_is_not(matched: bool, error_said: &str, target_said: &str, msg: &str, at: Where) -> (out: Option<Failure>)
    ensures
        out is None <==> !matched,
        out matches Some(f) ==> {
            &&& names(f, "err-is-not"@, msg@, at)
            &&& f.detail@.len() == 2
            &&& f.detail@[0].0@ == "got"@ && is_said(f.detail@[0].1, error_said@)
            &&& f.detail@[1].0@ == "target"@ && is_said(f.detail@[1].1, target_said@)
        },
{
    if matched {
        Some(
            Failure::new(
                "err-is-not",
                msg,
                vec![("got", Detail::Said(error_said.to_owned())), ("target", Detail::Said(target_said.to_owned()))],
                at,
            ),
        )
    } else {
        None
    }
}

/// Report when no error of the wanted type sits in the chain.
///
/// `wanted` names the wanted type; `error_said` is the error as its `Display` writes it.
pub fn error_as(found: bool, wanted: &str, error_said: &str, msg: &str, at: Where) -> (out: Option<Failure>)
    ensures
        out is None <==> found,
        out matches Some(f) ==> {
            &&& names(f, "err-as"@, msg@, at)
            &&& f.detail@.len() == 2
            &&& f.detail@[0].0@ == "got"@ && is_said(f.detail@[0].1, error_said@)
            &&& f.detail@[1].0@ == "wanted"@ && is_said(f.detail@[1].1, wanted@)
        },
{
    if found {
        None
    } else {
        Some(
            Failure::new(
                "err-as",
                msg,
                vec![("got", Detail::Said(error_said.to_owned())), ("wanted", Detail::Said(wanted.to_owned()))],
                at,
            ),
        )
    }
}

} // verus!
