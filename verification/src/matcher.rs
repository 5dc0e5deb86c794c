//! The comparisons both surfaces report through.
//!
//! Each family is a module. A matcher here decides whether an assertion failed and, when
//! it did, writes what it reports; where that report goes is the seat's business, and the
//! two surfaces differ only in the [`Mode`] they report under, which is what makes them
//! agree by construction rather than by review.
pub mod behaviour;
pub mod containment;
pub mod errors;
pub mod keyed;
pub mod order;
pub mod ordered;
pub mod panics;
pub mod report;
pub mod sizes;
pub mod text;
pub mod values;
pub mod waiting;

pub use report::Mode;
pub use sizes::Container;
