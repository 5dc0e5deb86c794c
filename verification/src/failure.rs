//! The record a failing assertion reports, and where it came from.
//!
//! The record is the same shape in every implementation of the standard. The sentence a
//! person reads is rendered from it and is not standardised, because each language reads
//! its own conventions.
use crate::words::{decimal, decimal_text, push_text, same_text};
use vstd::prelude::*;

verus! {

/// The call site a failure came from.
#[derive(Debug, Clone, Copy, PartialEq, Eq)]
pub struct Where {
    /// The file the assertion was called from.
    pub file: &'static str,
    /// The line within it.
    pub line: u32,
}

/// One value a failure carries.
///
/// A field the library computes itself is held as the number it is, so a reader
/// comparing it does not have to parse a rendering. A field holding the caller's own
/// value is text, as the assertion would have printed it.
#[derive(Debug, Clone, PartialEq)]
pub enum Detail {
    /// A count the library measured: a length, an index, a number of attempts.
    Count(usize),
    /// A number the caller stated, such as a tolerance or an end of a range, written out
    /// as the language writes it.
    Number(String),
    /// Anything else, as the assertion would have printed it.
    Said(String),
}

/// What a failing assertion reports.
///
/// `detail` carries exactly the fields the assertion declares, already written out, in
/// the order it declares them.
#[derive(Debug, Clone, PartialEq)]
pub struct Failure {
    /// The canonical id the definition names.
    pub assertion: &'static str,
    /// The caller's message, unchanged.
    pub contract: String,
    /// The values named by that assertion's declared fields, in the order it declares
    /// them.
    pub detail: Vec<(&'static str, Detail)>,
    /// The call site.
    pub where_at: Where,
}

/// How one detail value reads in a sentence.
pub open spec fn detail_text(value: Detail) -> Seq<char> {
    match value {
        Detail::Count(n) => decimal(n as nat),
        Detail::Number(s) => s@,
        Detail::Said(s) => s@,
    }
}

/// How one named detail field reads: its name, a space, its value.
pub open spec fn field_text(field: (&'static str, Detail)) -> Seq<char> {
    field.0@ + " "@ + detail_text(field.1)
}

/// The named fields, each as it reads, separated by a comma and a space.
pub open spec fn fields_text(fields: Seq<(&'static str, Detail)>) -> Seq<char>
    decreases fields.len(),
{
    if fields.len() == 0 {
        Seq::empty()
    } else if fields.len() == 1 {
        field_text(fields[0])
    } else {
        fields_text(fields.drop_last()) + ", "@ + field_text(fields.last())
    }
}

/// The sentence a person reads for a record: the contract alone when the record carries
/// nothing, else the contract, a colon, and the fields in order.
pub open spec fn rendered(failure: Failure) -> Seq<char> {
    if failure.detail@.len() == 0 {
        failure.contract@
    } else {
        failure.contract@ + ": "@ + fields_text(failure.detail@)
    }
}

impl Detail {
    /// The value as it reads in a sentence.
    pub fn text(&self) -> (out: String)
        ensures
            out@ == detail_text(*self),
    {
        match self {
            Detail::Count(n) => decimal_text(*n as u128),
            Detail::Number(s) => s.clone(),
            Detail::Said(s) => s.clone(),
        }
    }
}

impl Failure {
    /// Answer one detail field, or `None` when the record does not carry it.
    ///
    /// When two fields share a name, the first is the one answered.
    pub fn detail(&self, name: &str) -> (found: Option<&Detail>)
        ensures
            found is None <==> forall|i: int|
                0 <= i < self.detail@.len() ==> self.detail@[i].0@ != name@,
            found matches Some(d) ==> exists|i: int|
                0 <= i < self.detail@.len() && self.detail@[i].0@ == name@ && *d == self.detail@[i].1
                    && forall|j: int| 0 <= j < i ==> self.detail@[j].0@ != name@,
    {
        let mut at: usize = 0;
        while at < self.detail.len()
            invariant
                at <= self.detail@.len(),
                forall|j: int| 0 <= j < at ==> self.detail@[j].0@ != name@,
            decreases self.detail@.len() - at,
        {
            if same_text(self.detail[at].0, name) {
                return Some(&self.detail[at].1);
            }
            at += 1;
        }
        None
    }

    /// Turn this record into the sentence a person reads.
    ///
    /// The contract leads, then the detail in the order the assertion states it.
    pub fn render(&self) -> (said: String)
        ensures
            said@ == rendered(*self),
    {
        if self.detail.len() == 0 {
            return self.contract.clone();
        }
        let mut said = self.contract.clone();
        push_text(&mut said, ": ");
        let mut at: usize = 0;
        while at < self.detail.len()
            invariant
                at <= self.detail@.len(),
                0 < self.detail@.len(),
                at == 0 ==> said@ == self.contract@ + ": "@,
                at > 0 ==> said@ == self.contract@ + ": "@ + fields_text(self.detail@.take(at as int)),
            decreases self.detail@.len() - at,
        {
            let ghost before = said@;
            if at > 0 {
                push_text(&mut said, ", ");
            }
            push_text(&mut said, self.detail[at].0);
            push_text(&mut said, " ");
            let value = self.detail[at].1.text();
            push_text(&mut said, value.as_str());
            proof {
                let taken = self.detail@.take(at + 1);
                assert(taken.drop_last() =~= self.detail@.take(at as int));
                assert(taken.last() == self.detail@[at as int]);
                if at == 0 {
                    assert(taken.len() == 1);
                    assert(said@ =~= self.contract@ + ": "@ + fields_text(taken));
                } else {
                    assert(said@ =~= self.contract@ + ": "@ + fields_text(taken));
                }
            }
            at += 1;
        }
        assert(self.detail@.take(self.detail@.len() as int) =~= self.detail@);
        said
    }
}

} // verus!

verus! {

/// A record as it reads: the assertion's id, the contract, and each field's name beside
/// its value as it reads.
pub type Shape = (Seq<char>, Seq<char>, Seq<(Seq<char>, Seq<char>)>);

/// How a record reads, field by field.
pub open spec fn shape(failure: Failure) -> Shape {
    (
        failure.assertion@,
        failure.contract@,
        failure.detail@.map_values(|field: (&'static str, Detail)| (field.0@, detail_text(field.1))),
    )
}

/// Whether a record names the given assertion, carries the given contract, and points at
/// the given call site.
pub open spec fn names(failure: Failure, assertion: Seq<char>, contract: Seq<char>, at: Where) -> bool {
    &&& failure.assertion@ == assertion
    &&& failure.contract@ == contract
    &&& failure.where_at == at
}

/// Whether a detail value is the given text.
pub open spec fn is_said(value: Detail, text: Seq<char>) -> bool {
    value matches Detail::Said(s) && s@ == text
}

/// Whether a detail value is the given count.
pub open spec fn is_count(value: Detail, n: nat) -> bool {
    value matches Detail::Count(c) && c == n
}

impl Failure {
    /// Return the record an assertion reports.
    pub fn new(
        assertion: &'static str,
        contract: &str,
        detail: Vec<(&'static str, Detail)>,
        at: Where,
    ) -> (failure: Failure)
        ensures
            names(failure, assertion@, contract@, at),
            failure.detail@ == detail@,
    {
        Failure { assertion, contract: contract.to_owned(), detail, where_at: at }
    }
}

} // verus!

verus! {

/// Whether two records say the same: same assertion, contract, fields and call site.
pub open spec fn same_record(a: Failure, b: Failure) -> bool {
    &&& a.assertion@ == b.assertion@
    &&& a.contract@ == b.contract@
    &&& a.detail@ == b.detail@
    &&& a.where_at == b.where_at
}

impl Detail {
    /// A copy of this value.
    pub fn copy(&self) -> (out: Detail)
        ensures
            out == *self,
    {
        match self {
            Detail::Count(n) => Detail::Count(*n),
            Detail::Number(s) => Detail::Number(s.clone()),
            Detail::Said(s) => Detail::Said(s.clone()),
        }
    }
}

impl Failure {
    /// A copy of this record, saying the same.
    pub fn copy(&self) -> (out: Failure)
        ensures
            same_record(out, *self),
    {
        let mut detail: Vec<(&'static str, Detail)> = Vec::new();
        let mut at: usize = 0;
        while at < self.detail.len()
            invariant
                at <= self.detail@.len(),
                detail@ == self.detail@.take(at as int),
            decreases self.detail@.len() - at,
        {
            let field = &self.detail[at];
            detail.push((field.0, field.1.copy()));
            at += 1;
            assert(detail@ =~= self.detail@.take(at as int));
        }
        assert(self.detail@.take(at as int) =~= self.detail@);
        Failure { assertion: self.assertion, contract: self.contract.clone(), detail, where_at: self.where_at }
    }
}

} // verus!

verus! {

impl From<usize> for Detail {
    fn from(held: usize) -> (value: Self) {
        Detail::Count(held)
    }
}

impl vstd::std_specs::convert::FromSpecImpl<usize> for Detail {
    open spec fn obeys_from_spec() -> bool {
        true
    }

    open spec fn from_spec(held: usize) -> Self {
        Detail::Count(held)
    }
}

impl From<String> for Detail {
    fn from(held: String) -> (value: Self) {
        Detail::Said(held)
    }
}

impl vstd::std_specs::convert::FromSpecImpl<String> for Detail {
    open spec fn obeys_from_spec() -> bool {
        true
    }

    open spec fn from_spec(held: String) -> Self {
        Detail::Said(held)
    }
}

} // verus!
