//! How much a container holds.
use crate::failure::{is_count, names, Detail, Failure, Where};
use vstd::prelude::*;
use vstd::string::*;

verus! {

/// Something with a number of items.
///
/// A trait rather than a runtime type switch: a value with no length does not compile,
/// so that failure cannot happen.
pub trait Container {
    /// How many items this holds, as its model counts them. Text counts characters rather
    /// than bytes, so a value that reads as one character counts as one however it is
    /// encoded.
    spec fn size_spec(&self) -> nat;

    /// How many items this holds.
    fn size(&self) -> (n: usize)
        ensures
            n == self.size_spec();
}

impl Container for str {
    open spec fn size_spec(&self) -> nat {
        self@.len()
    }

    fn size(&self) -> (n: usize) {
        self.unicode_len()
    }
}

impl Container for String {
    open spec fn size_spec(&self) -> nat {
        self@.len()
    }

    fn size(&self) -> (n: usize) {
        self.as_str().unicode_len()
    }
}

impl<T> Container for [T] {
    open spec fn size_spec(&self) -> nat {
        self@.len()
    }

    fn size(&self) -> (n: usize) {
        self.len()
    }
}

impl<T> Container for Vec<T> {
    open spec fn size_spec(&self) -> nat {
        self@.len()
    }

    fn size(&self) -> (n: usize) {
        self.len()
    }
}

/// Report when got does not hold want items.
pub fn length<C: Container + ?Sized>(got: &C, want: usize, msg: &str, at: Where) -> (out: Option<Failure>)
    ensures
        out is None <==> got.size_spec() == want,
        out matches Some(f) ==> {
            &&& names(f, "length"@, msg@, at)
            &&& f.detail@.len() == 2
            &&& f.detail@[0].0@ == "want"@ && is_count(f.detail@[0].1, want as nat)
            &&& f.detail@[1].0@ == "got"@ && is_count(f.detail@[1].1, got.size_spec())
        },
{
    let size = got.size();
    if size == want {
        None
    } else {
        Some(Failure::new("length", msg, vec![("want", Detail::Count(want)), ("got", Detail::Count(size))], at))
    }
}

/// Report when got holds anything.
///
/// Empty is not absent. An absent container is an `Option` and does not reach here.
pub fn is_empty<C: Container + ?Sized>(got: &C, msg: &str, at: Where) -> (out: Option<Failure>)
    ensures
        out is None <==> got.size_spec() == 0,
        out matches Some(f) ==> {
            &&& names(f, "empty"@, msg@, at)
            &&& f.detail@.len() == 1
            &&& f.detail@[0].0@ == "length"@ && is_count(f.detail@[0].1, got.size_spec())
        },
{
    let size = got.size();
    if size == 0 {
        None
    } else {
        Some(Failure::new("empty", msg, vec![("length", Detail::Count(size))], at))
    }
}

/// Report when got holds nothing.
pub fn is_not_empty<C: Container + ?Sized>(got: &C, msg: &str, at: Where) -> (out: Option<Failure>)
    ensures
        out is None <==> got.size_spec() != 0,
        out matches Some(f) ==> names(f, "not-empty"@, msg@, at) && f.detail@.len() == 0,
{
    if got.size() != 0 {
        None
    } else {
        Some(Failure::new("not-empty", msg, Vec::new(), at))
    }
}

} // verus!
