//! Assertions about a call that panics.
//!
//! A panic is not how Rust reports a failure a caller is meant to handle; that is a
//! `Result`. A panic means a broken invariant, and these are for asserting on that.
//! Catching the panic is the runtime's business; what is decided here is what each
//! outcome reports.
use crate::failure::{is_said, names, Detail, Failure, Where};
use crate::words::{debug_text, quoted};
use vstd::prelude::*;
use vstd::string::*;

verus! {

/// What a panic that carried neither kind of text is described as.
pub fn undescribed() -> (out: String)
    ensures
        out@ == "a panic carrying a value that is not a string"@,
{
    "a panic carrying a value that is not a string".to_owned()
}

/// Report when the body did not panic. `raised` is what it panicked with, if it did.
pub fn panics(raised: Option<&str>, msg: &str, at: Where) -> (out: Option<Failure>)
    ensures
        out is None <==> raised is Some,
        out matches Some(f) ==> names(f, "throws"@, msg@, at) && f.detail@.len() == 0,
{
    match raised {
        Some(_) => None,
        None => Some(Failure::new("throws", msg, Vec::new(), at)),
    }
}

/// Report when the body panicked. `raised` is what it panicked with, if it did; the record
/// carries it as its `Debug` writes it.
pub fn does_not_panic(raised: Option<&str>, msg: &str, at: Where) -> (out: Option<Failure>)
    ensures
        out is None <==> raised is None,
        out matches Some(f) ==> {
            &&& names(f, "does-not-throw"@, msg@, at)
            &&& f.detail@.len() == 1
            &&& f.detail@[0].0@ == "got"@ && is_said(f.detail@[0].1, quoted(raised->0@))
        },
{
    match raised {
        None => None,
        Some(said) => Some(Failure::new("does-not-throw", msg, vec![("got", Detail::Said(debug_text(said)))], at)),
    }
}

} // verus!
