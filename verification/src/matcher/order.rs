//! How neighbouring items relate.
//!
//! One assertion rather than sorted, unique and strictly increasing, because each of
//! those is a relation that has to hold between every adjacent pair and nothing more.
use crate::words::{decimal, push_decimal, push_text};
use vstd::prelude::*;
use vstd::string::*;

verus! {

/// Find the first adjacent pair the predicate refuses.
///
/// Nought or one item has no pair, so nothing is refused. The walk stops at the first
/// refused pair, so the predicate is not called again after that. Whatever the predicate
/// answers for a pair, the answer is one it could give: every pair before the one reported
/// was accepted, and the one reported was refused.
pub fn first_refused<T, P: Fn(&T, &T) -> bool>(items: &[T], predicate: P) -> (broken: Option<usize>)
    requires
        forall|i: int| 0 <= i < items@.len() - 1 ==> #[trigger] predicate.requires((&items@[i], &items@[i + 1])),
    ensures
        broken matches Some(at) ==> {
            &&& at + 1 < items@.len()
            &&& predicate.ensures((&items@[at as int], &items@[at + 1]), false)
            &&& forall|j: int| 0 <= j < at ==> #[trigger] predicate.ensures((&items@[j], &items@[j + 1]), true)
        },
        items@.len() < 2 ==> broken is None,
        broken is None ==> forall|j: int|
            0 <= j < items@.len() - 1 ==> #[trigger] predicate.ensures((&items@[j], &items@[j + 1]), true),
{
    if items.len() < 2 {
        return None;
    }
    let mut at: usize = 0;
    while at < items.len() - 1
        invariant
            2 <= items@.len(),
            at + 1 <= items@.len(),
            items@.len() == items.len(),
            forall|i: int| 0 <= i < items@.len() - 1 ==> #[trigger] predicate.requires((&items@[i], &items@[i + 1])),
            forall|j: int| 0 <= j < at ==> #[trigger] predicate.ensures((&items@[j], &items@[j + 1]), true),
        decreases items@.len() - at,
    {
        let accepted = predicate(&items[at], &items[at + 1]);
        if !accepted {
            return Some(at);
        }
        at += 1;
    }
    None
}

/// What a refused pair reports: its index and the two items, as their `Debug` writes them.
pub fn refused_pair(at: usize, earlier_said: &str, later_said: &str, msg: &str) -> (out: String)
    ensures
        out@ == msg@ + ": the pair at index "@ + decimal(at as nat) + " fails: "@ + earlier_said@
            + " then "@ + later_said@,
{
    let mut out = msg.to_owned();
    push_text(&mut out, ": the pair at index ");
    push_decimal(&mut out, at as u128);
    push_text(&mut out, " fails: ");
    push_text(&mut out, earlier_said);
    push_text(&mut out, " then ");
    push_text(&mut out, later_said);
    out
}

} // verus!
