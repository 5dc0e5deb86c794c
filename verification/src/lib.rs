//! Test assertions defined by a language-neutral standard.
//!
//! Every assertion decides whether its property failed and, when it did, what it
//! reports: a record carrying the assertion's id, the caller's contract and the values it
//! names, or a sentence saying what was supposed to be true and what was observed. Those
//! decisions are made here, each with what it reports stated exactly.
//!
//! # Equality
//!
//! Comparison is the language's own `==`, which is already what the standard asks for:
//! NaN is unequal to itself, `0.0` equals `-0.0`, and containers compare by their
//! elements. Values of different types do not compare because they do not compile.
//!
//! # Where a failure goes
//!
//! A seat is where a failure goes. Which seat a test holds decides what each surface does
//! with a failure; [`seat::Reported`] is what a recording seat keeps, and
//! [`seat::report`] is how a collecting seat writes what it holds.
pub mod bench;
pub mod clock;
pub mod failure;
pub mod golden;
pub mod matcher;
pub mod pattern;
pub mod seat;
pub mod words;

pub use seat::Standard;
