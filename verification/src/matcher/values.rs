//! Equality, truth and absence.
//!
//! Comparison is the language's own `==`, which is already what the standard asks for:
//! NaN is unequal to itself, the two zeroes are equal, and containers compare by their
//! elements. Values of different types never compare, because they do not compile. So the
//! comparison and the rendering of the caller's values are the caller's types' own, and
//! what is decided here is what fails and what the failure carries.
use crate::failure::{is_said, names, Detail, Failure, Where};
use vstd::prelude::*;
use vstd::string::*;

verus! {

/// Report when got and want differ.
///
/// `want_said` and `got_said` are the two values as their `Debug` writes them.
pub fn equal(same: bool, want_said: &str, got_said: &str, msg: &str, at: Where) -> (out: Option<Failure>)
    ensures
        out is None <==> same,
        out matches Some(f) ==> {
            &&& names(f, "equal"@, msg@, at)
            &&& f.detail@.len() == 2
            &&& f.detail@[0].0@ == "want"@ && is_said(f.detail@[0].1, want_said@)
            &&& f.detail@[1].0@ == "got"@ && is_said(f.detail@[1].1, got_said@)
        },
{
    if same {
        None
    } else {
        Some(
            Failure::new(
                "equal",
                msg,
                vec![("want", Detail::Said(want_said.to_owned())), ("got", Detail::Said(got_said.to_owned()))],
                at,
            ),
        )
    }
}

/// Report when got and want are equal.
///
/// The failure shows the value the two shared, since printing one says everything.
pub fn not_equal(same: bool, got_said: &str, msg: &str, at: Where) -> (out: Option<Failure>)
    ensures
        out is None <==> !same,
        out matches Some(f) ==> {
            &&& names(f, "not-equal"@, msg@, at)
            &&& f.detail@.len() == 1
            &&& f.detail@[0].0@ == "got"@ && is_said(f.detail@[0].1, got_said@)
        },
{
    if same {
        Some(Failure::new("not-equal", msg, vec![("got", Detail::Said(got_said.to_owned()))], at))
    } else {
        None
    }
}

/// Report when the condition does not hold.
///
/// The failure carries the message alone: a bare false says nothing the message does not.
pub fn is_true(condition: bool, msg: &str, at: Where) -> (out: Option<Failure>)
    ensures
        out is None <==> condition,
        out matches Some(f) ==> names(f, "true"@, msg@, at) && f.detail@.len() == 0,
{
    if condition {
        None
    } else {
        Some(Failure::new("true", msg, Vec::new(), at))
    }
}

/// Report when the condition holds.
pub fn is_false(condition: bool, msg: &str, at: Where) -> (out: Option<Failure>)
    ensures
        out is None <==> !condition,
        out matches Some(f) ==> names(f, "false"@, msg@, at) && f.detail@.len() == 0,
{
    if condition {
        Some(Failure::new("false", msg, Vec::new(), at))
    } else {
        None
    }
}

/// Report when got is present.
///
/// `got_said` is the present value as its `Debug` writes it, or `None` when it is absent.
pub fn is_none(got_said: Option<&str>, msg: &str, at: Where) -> (out: Option<Failure>)
    ensures
        out is None <==> got_said is None,
        out matches Some(f) ==> {
            &&& names(f, "nil"@, msg@, at)
            &&& f.detail@.len() == 1
            &&& f.detail@[0].0@ == "got"@ && is_said(f.detail@[0].1, got_said->0@)
        },
{
    match got_said {
        Some(held) => Some(Failure::new("nil", msg, vec![("got", Detail::Said(held.to_owned()))], at)),
        None => None,
    }
}

/// Report when got is absent.
pub fn is_some(present: bool, msg: &str, at: Where) -> (out: Option<Failure>)
    ensures
        out is None <==> present,
        out matches Some(f) ==> names(f, "not-nil"@, msg@, at) && f.detail@.len() == 0,
{
    if present {
        None
    } else {
        Some(Failure::new("not-nil", msg, Vec::new(), at))
    }
}

} // verus!
