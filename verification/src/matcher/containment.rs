//! What a container holds.
use crate::failure::{is_said, names, Detail, Failure, Where};
use crate::words::{
    chars_of, debug_text, find_from, first_from, holds_text, lemma_first_from, occurs_at, quoted,
};
use vstd::prelude::*;
use vstd::std_specs::cmp::PartialEqSpec;
use vstd::string::*;

verus! {

/// The characters of every needle, in order.
pub open spec fn texts_of(needles: Seq<&str>) -> Seq<Seq<char>> {
    needles.map_values(|s: &str| s@)
}

/// Which needle the in-order search stops at, when one is missing.
///
/// Each needle is looked for after the previous one's match ends, so the same text cannot
/// satisfy two needles. The answer is the index of the first needle not found that way,
/// or `None` when every needle was.
pub open spec fn missing_from(text: Seq<char>, needles: Seq<Seq<char>>, from: int) -> Option<int>
    decreases needles.len(),
{
    if needles.len() == 0 {
        None
    } else {
        match first_from(text, needles[0], from) {
            None => Some(0),
            Some(at) => match missing_from(text, needles.drop_first(), at + needles[0].len()) {
                None => None,
                Some(k) => Some(k + 1),
            },
        }
    }
}

/// Whether `at` places every needle in `text`, in order, each after the previous one's
/// end and the first at or after `from`.
pub open spec fn places(text: Seq<char>, needles: Seq<Seq<char>>, from: int, at: Seq<int>) -> bool {
    &&& at.len() == needles.len()
    &&& forall|i: int| 0 <= i < at.len() ==> occurs_at(text, needles[i], #[trigger] at[i])
    &&& at.len() > 0 ==> from <= at[0]
    &&& forall|i: int| 0 < i < at.len() ==> at[i - 1] + needles[i - 1].len() <= #[trigger] at[i]
}

/// Searching greedily finds every needle exactly when some placement of them all in order
/// exists: taking the leftmost match of each needle never loses a placement.
pub proof fn lemma_greedy_is_complete(text: Seq<char>, needles: Seq<Seq<char>>, from: int)
    requires
        0 <= from,
    ensures
        missing_from(text, needles, from) is None <==> exists|at: Seq<int>| places(text, needles, from, at),
    decreases needles.len(),
{
    if needles.len() == 0 {
        assert(places(text, needles, from, Seq::<int>::empty()));
    } else {
        lemma_first_from(text, needles[0], from);
        let rest = needles.drop_first();
        match first_from(text, needles[0], from) {
            None => {
                if exists|at: Seq<int>| places(text, needles, from, at) {
                    let at = choose|at: Seq<int>| places(text, needles, from, at);
                    assert(occurs_at(text, needles[0], at[0]));
                }
            },
            Some(a) => {
                let next = a + needles[0].len();
                lemma_greedy_is_complete(text, rest, next);
                if missing_from(text, rest, next) is None {
                    let tail = choose|at: Seq<int>| places(text, rest, next, at);
                    let whole = seq![a].add(tail);
                    assert forall|i: int| 0 <= i < whole.len() implies occurs_at(
                        text,
                        needles[i],
                        #[trigger] whole[i],
                    ) by {
                        if i > 0 {
                            assert(whole[i] == tail[i - 1]);
                            assert(needles[i] == rest[i - 1]);
                        }
                    }
                    assert forall|i: int| 0 < i < whole.len() implies whole[i - 1] + needles[i
                        - 1].len() <= #[trigger] whole[i] by {
                        if i > 1 {
                            assert(whole[i] == tail[i - 1]);
                            assert(whole[i - 1] == tail[i - 2]);
                            assert(needles[i - 1] == rest[i - 2]);
                        }
                    }
                    assert(places(text, needles, from, whole));
                }
                if exists|at: Seq<int>| places(text, needles, from, at) {
                    let at = choose|at: Seq<int>| places(text, needles, from, at);
                    // The leftmost match is no later than the placed one, so the rest of the
                    // placement still fits after it.
                    assert(occurs_at(text, needles[0], at[0]));
                    assert(a <= at[0]);
                    let tail = at.drop_first();
                    assert forall|i: int| 0 <= i < tail.len() implies occurs_at(
                        text,
                        rest[i],
                        #[trigger] tail[i],
                    ) by {
                        assert(tail[i] == at[i + 1]);
                        assert(rest[i] == needles[i + 1]);
                    }
                    assert forall|i: int| 0 < i < tail.len() implies tail[i - 1] + rest[i
                        - 1].len() <= #[trigger] tail[i] by {
                        assert(tail[i] == at[i + 1]);
                        assert(tail[i - 1] == at[i]);
                        assert(rest[i - 1] == needles[i]);
                    }
                    if tail.len() > 0 {
                        assert(at[0] + needles[0].len() <= at[1]);
                    }
                    assert(places(text, rest, next, tail));
                }
            },
        }
    }
}

/// Where the in-order search stops, the needles before the one it names still search
/// through, and with that needle added they no longer do.
proof fn lemma_missing_splits_the_needles(text: Seq<char>, needles: Seq<Seq<char>>, from: int, k: int)
    requires
        missing_from(text, needles, from) == Some(k),
    ensures
        0 <= k < needles.len(),
        missing_from(text, needles.take(k), from) is None,
        missing_from(text, needles.take(k + 1), from) is Some,
    decreases needles.len(),
{
    let rest = needles.drop_first();
    match first_from(text, needles[0], from) {
        None => {
            assert(k == 0);
            assert(needles.take(0).len() == 0);
            assert(needles.take(1)[0] == needles[0]);
        },
        Some(at) => {
            let next = at + needles[0].len();
            let j = missing_from(text, rest, next)->0;
            assert(missing_from(text, rest, next) == Some(j));
            assert(k == j + 1);
            lemma_missing_splits_the_needles(text, rest, next, j);
            assert(needles.take(k)[0] == needles[0]);
            assert(needles.take(k).drop_first() =~= rest.take(j));
            assert(needles.take(k + 1)[0] == needles[0]);
            assert(needles.take(k + 1).drop_first() =~= rest.take(j + 1));
        },
    }
}

/// Whether every needle can be placed in `text` in order, each after the previous one's
/// end.
pub open spec fn placeable(text: Seq<char>, needles: Seq<Seq<char>>) -> bool {
    exists|placed: Seq<int>| places(text, needles, 0, placed)
}

/// The needle an in-order search reports missing is the first that cannot be placed:
/// every needle before it can be placed in order, each after the previous one's end, and
/// with it added no placement exists.
pub proof fn lemma_missing_is_the_first_unplaced(text: Seq<char>, needles: Seq<Seq<char>>, k: int)
    requires
        missing_from(text, needles, 0) == Some(k),
    ensures
        0 <= k < needles.len(),
        placeable(text, needles.take(k)),
        !placeable(text, needles.take(k + 1)),
{
    lemma_missing_splits_the_needles(text, needles, 0, k);
    lemma_greedy_is_complete(text, needles.take(k), 0);
    lemma_greedy_is_complete(text, needles.take(k + 1), 0);
}

/// One needle in order is one needle anywhere: asking for a single needle in order
/// passes exactly when the text holds it.
pub proof fn lemma_one_needle_is_containment(text: Seq<char>, needle: Seq<char>)
    ensures
        missing_from(text, seq![needle], 0) is None <==> holds_text(text, needle),
{
    let needles = seq![needle];
    lemma_first_from(text, needle, 0);
    assert(needles[0] == needle);
    assert(needles.drop_first().len() == 0);
    if let Some(a) = first_from(text, needle, 0) {
        assert(occurs_at(text, needle, a));
        assert(missing_from(text, needles.drop_first(), a + needle.len()) is None);
    } else {
        if holds_text(text, needle) {
            let q = choose|q: int| occurs_at(text, needle, q);
            assert(occurs_at(text, needle, q));
        }
    }
}

/// Report when got does not hold every needle, in order.
///
/// Each needle is looked for after the previous one's match ends, so the same text cannot
/// satisfy two needles. Anything may sit between them. The failure names the first needle
/// that could not be found that way.
pub fn contains_in_order(got: &str, needles: &[&str], msg: &str, at: Where) -> (out: Option<Failure>)
    ensures
        out is None <==> missing_from(got@, texts_of(needles@), 0) is None,
        out is None <==> exists|placed: Seq<int>| places(got@, texts_of(needles@), 0, placed),
        out matches Some(f) ==> ({
            let k = missing_from(got@, texts_of(needles@), 0)->0;
            &&& names(f, "contains-in-order"@, msg@, at)
            &&& f.detail@.len() == 2
            &&& f.detail@[0].0@ == "got"@ && is_said(f.detail@[0].1, quoted(got@))
            &&& f.detail@[1].0@ == "missing"@ && is_said(f.detail@[1].1, quoted(needles@[k]@))
        }),
{
    let ghost all = texts_of(needles@);
    let text = chars_of(got);
    let mut from: usize = 0;
    let mut i: usize = 0;
    proof {
        lemma_greedy_is_complete(got@, all, 0);
        assert(all.skip(0) =~= all);
    }
    while i < needles.len()
        invariant
            i <= needles@.len(),
            all == texts_of(needles@),
            text@ == got@,
            from <= text@.len(),
            missing_from(got@, all, 0) is None <==> exists|placed: Seq<int>| places(got@, all, 0, placed),
            missing_from(got@, all, 0) == match missing_from(got@, all.skip(i as int), from as int) {
                None => None::<int>,
                Some(k) => Some(k + i),
            },
        decreases needles@.len() - i,
    {
        let needle = chars_of(needles[i]);
        let ghost suffix = all.skip(i as int);
        assert(suffix[0] == needle@);
        assert(suffix.drop_first() =~= all.skip(i + 1));
        match find_from(&text, &needle, from) {
            None => {
                return Some(
                    Failure::new(
                        "contains-in-order",
                        msg,
                        vec![("got", Detail::Said(debug_text(got))), ("missing", Detail::Said(debug_text(needles[i])))],
                        at,
                    ),
                );
            },
            Some(found) => {
                proof {
                    lemma_first_from(text@, needle@, from as int);
                    assert(occurs_at(text@, needle@, found as int));
                    assert(found + needle@.len() <= text@.len());
                }
                assert(found + needle.len() <= text.len());
                from = found + needle.len();
            },
        }
        i += 1;
    }
    assert(all.skip(i as int).len() == 0);
    None
}

} // verus!

verus! {

/// A container that can be asked whether it holds a needle.
///
/// What holding means follows the container, which is the rule the standard states: text
/// holds a substring, a sequence holds an element, and a map holds a key. Each is a
/// separate implementation rather than a run-time test of what was passed.
pub trait Holds<N: ?Sized> {
    /// Whether this holds the needle, as the container's own model says.
    spec fn holds_spec(&self, needle: &N) -> bool;

    /// Whether the element type behaves as its model says, so that the answer of
    /// [`Holds::holds`] is the modelled one. Text always does; a sequence does when its
    /// element's `==` is the model's equality; a map or set does when its key's hashing or
    /// ordering is.
    spec fn modelled(&self) -> bool;

    /// Whether this holds the needle.
    fn holds(&self, needle: &N) -> (held: bool)
        ensures
            self.modelled() ==> held == self.holds_spec(needle);
}

/// Whether text holds a needle anywhere, found by a forward search.
pub fn text_holds(haystack: &str, needle: &str) -> (held: bool)
    ensures
        held == holds_text(haystack@, needle@),
{
    let text = chars_of(haystack);
    let wanted = chars_of(needle);
    proof {
        lemma_first_from(text@, wanted@, 0);
    }
    let found = find_from(&text, &wanted, 0);
    proof {
        if let Some(a) = found {
            assert(occurs_at(haystack@, needle@, a as int));
        }
    }
    found.is_some()
}

impl Holds<str> for str {
    open spec fn holds_spec(&self, needle: &str) -> bool {
        holds_text(self@, needle@)
    }

    open spec fn modelled(&self) -> bool {
        true
    }

    fn holds(&self, needle: &str) -> (held: bool) {
        text_holds(self, needle)
    }
}

impl Holds<str> for String {
    open spec fn holds_spec(&self, needle: &str) -> bool {
        holds_text(self@, needle@)
    }

    open spec fn modelled(&self) -> bool {
        true
    }

    fn holds(&self, needle: &str) -> (held: bool) {
        text_holds(self.as_str(), needle)
    }
}

/// Whether some element of a sequence equals the needle, by the element type's `==`.
pub open spec fn seq_holds<T: PartialEq>(items: Seq<T>, needle: &T) -> bool {
    exists|i: int| 0 <= i < items.len() && items[i].eq_spec(needle)
}

/// Whether a slice holds an element equal to the needle.
pub fn slice_holds<T: PartialEq>(items: &[T], needle: &T) -> (held: bool)
    ensures
        T::obeys_eq_spec() ==> held == seq_holds(items@, needle),
{
    let mut at: usize = 0;
    while at < items.len()
        invariant
            at <= items@.len(),
            T::obeys_eq_spec() ==> forall|j: int| 0 <= j < at ==> !items@[j].eq_spec(needle),
        decreases items@.len() - at,
    {
        if items[at] == *needle {
            return true;
        }
        at += 1;
    }
    false
}

impl<T: PartialEq> Holds<T> for [T] {
    open spec fn holds_spec(&self, needle: &T) -> bool {
        seq_holds(self@, needle)
    }

    open spec fn modelled(&self) -> bool {
        T::obeys_eq_spec()
    }

    fn holds(&self, needle: &T) -> (held: bool) {
        slice_holds(self, needle)
    }
}

impl<T: PartialEq> Holds<T> for Vec<T> {
    open spec fn holds_spec(&self, needle: &T) -> bool {
        seq_holds(self@, needle)
    }

    open spec fn modelled(&self) -> bool {
        T::obeys_eq_spec()
    }

    fn holds(&self, needle: &T) -> (held: bool) {
        slice_holds(self.as_slice(), needle)
    }
}

/// Report when haystack does not hold needle.
///
/// The two renderings are of the caller's own values, written as the caller's `Debug`
/// writes them; the decision is the haystack's own.
pub fn contains<H: Holds<N> + ?Sized, N: ?Sized>(
    haystack: &H,
    needle: &N,
    haystack_said: &str,
    needle_said: &str,
    msg: &str,
    at: Where,
) -> (out: Option<Failure>)
    ensures
        haystack.modelled() ==> (out is None <==> haystack.holds_spec(needle)),
        out matches Some(f) ==> {
            &&& names(f, "contains"@, msg@, at)
            &&& f.detail@.len() == 2
            &&& f.detail@[0].0@ == "haystack"@ && is_said(f.detail@[0].1, haystack_said@)
            &&& f.detail@[1].0@ == "needle"@ && is_said(f.detail@[1].1, needle_said@)
        },
{
    if haystack.holds(needle) {
        None
    } else {
        Some(
            Failure::new(
                "contains",
                msg,
                vec![("haystack", Detail::Said(haystack_said.to_owned())), ("needle", Detail::Said(needle_said.to_owned()))],
                at,
            ),
        )
    }
}

/// Report when haystack holds needle.
pub fn not_contains<H: Holds<N> + ?Sized, N: ?Sized>(
    haystack: &H,
    needle: &N,
    haystack_said: &str,
    needle_said: &str,
    msg: &str,
    at: Where,
) -> (out: Option<Failure>)
    ensures
        haystack.modelled() ==> (out is None <==> !haystack.holds_spec(needle)),
        out matches Some(f) ==> {
            &&& names(f, "not-contains"@, msg@, at)
            &&& f.detail@.len() == 2
            &&& f.detail@[0].0@ == "haystack"@ && is_said(f.detail@[0].1, haystack_said@)
            &&& f.detail@[1].0@ == "needle"@ && is_said(f.detail@[1].1, needle_said@)
        },
{
    if !haystack.holds(needle) {
        None
    } else {
        Some(
            Failure::new(
                "not-contains",
                msg,
                vec![("haystack", Detail::Said(haystack_said.to_owned())), ("needle", Detail::Said(needle_said.to_owned()))],
                at,
            ),
        )
    }
}

} // verus!
