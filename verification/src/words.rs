//! The text the library writes, and the few operations on text it needs.
//!
//! A failure is a sentence, so every assertion ends up writing text: the caller's message,
//! a count, a value quoted as the standard library's `Debug` quotes it. These are the
//! pieces that sentence is assembled from, each with what it writes stated exactly.
use vstd::prelude::*;
use vstd::string::*;

verus! {

/// The characters of a text, in order.
pub fn chars_of(text: &str) -> (out: Vec<char>)
    ensures
        out@ == text@,
{
    let mut out: Vec<char> = Vec::new();
    for c in it: text.chars()
        invariant
            out@ == it.seq().take(it.index()),
            it.seq() == text@,
    {
        out.push(c);
    }
    out
}

/// Append one character to a text, with `String::push`, which claims that the text
/// gains exactly that character, at its end.
#[verifier::external_body]
pub fn push_char(text: &mut String, c: char)
    ensures
        final(text)@ == old(text)@.push(c),
{
    text.push(c);
}

/// The text made of a run of characters.
pub fn text_of(chars: &[char], from: usize, to: usize) -> (out: String)
    requires
        from <= to <= chars@.len(),
    ensures
        out@ == chars@.subrange(from as int, to as int),
{
    let mut out = String::new();
    let mut at = from;
    while at < to
        invariant
            from <= at <= to <= chars@.len(),
            out@ == chars@.subrange(from as int, at as int),
        decreases to - at,
    {
        push_char(&mut out, chars[at]);
        at += 1;
        assert(out@ =~= chars@.subrange(from as int, at as int));
    }
    out
}

/// Whether two texts hold the same characters.
pub fn same_text(a: &str, b: &str) -> (same: bool)
    ensures
        same == (a@ == b@),
{
    let x = chars_of(a);
    let y = chars_of(b);
    if x.len() != y.len() {
        return false;
    }
    let mut at: usize = 0;
    while at < x.len()
        invariant
            x@ == a@,
            y@ == b@,
            x.len() == y.len(),
            at <= x.len(),
            forall|i: int| 0 <= i < at ==> x@[i] == y@[i],
        decreases x.len() - at,
    {
        if x[at] != y[at] {
            return false;
        }
        at += 1;
    }
    assert(x@ =~= y@);
    true
}

/// What the standard library's `Debug` writes for a text: the text in double quotes, with
/// quotes, backslashes and unprintable characters escaped.
pub uninterp spec fn quoted(text: Seq<char>) -> Seq<char>;

/// Write a text as the standard library's `Debug` writes it, with `format!`, which claims
/// only that the answer is the one named for the text.
#[verifier::external_body]
pub fn debug_text(text: &str) -> (out: String)
    ensures
        out@ == quoted(text@),
{
    format!("{text:?}")
}

/// The character that writes one decimal digit.
pub open spec fn digit(d: nat) -> char {
    ((48 + d) as u32) as char
}

/// How a number is written in decimal, with no sign, no padding and no separators.
pub open spec fn decimal(n: nat) -> Seq<char>
    decreases n,
{
    if n < 10 {
        seq![digit(n)]
    } else {
        decimal(n / 10).push(digit(n % 10))
    }
}

/// Write a number in decimal onto the end of a text.
pub fn push_decimal(out: &mut String, n: u128)
    ensures
        final(out)@ == old(out)@ + decimal(n as nat),
    decreases n,
{
    if n >= 10 {
        push_decimal(out, n / 10);
    }
    let d = (n % 10) as u32;
    let c = char_of_digit(d);
    push_char(out, c);
    assert(final(out)@ =~= old(out)@ + decimal(n as nat)) by {
        if n >= 10 {
            assert(decimal(n as nat) == decimal((n / 10) as nat).push(digit((n % 10) as nat)));
        }
    }
}

/// The character of one decimal digit.
pub fn char_of_digit(d: u32) -> (c: char)
    requires
        d < 10,
    ensures
        c == digit(d as nat),
{
    if d == 0 { '0' }
    else if d == 1 { '1' }
    else if d == 2 { '2' }
    else if d == 3 { '3' }
    else if d == 4 { '4' }
    else if d == 5 { '5' }
    else if d == 6 { '6' }
    else if d == 7 { '7' }
    else if d == 8 { '8' }
    else { '9' }
}

/// A number written in decimal.
pub fn decimal_text(n: u128) -> (out: String)
    ensures
        out@ == decimal(n as nat),
{
    let mut out = String::new();
    push_decimal(&mut out, n);
    assert(out@ =~= decimal(n as nat));
    out
}

/// Append a text to the end of another.
pub fn push_text(out: &mut String, more: &str)
    ensures
        final(out)@ == old(out)@ + more@,
{
    out.append(more);
}

} // verus!

verus! {

/// Whether `needle` sits in `text` starting at position `at`.
pub open spec fn occurs_at(text: Seq<char>, needle: Seq<char>, at: int) -> bool {
    &&& 0 <= at
    &&& at + needle.len() <= text.len()
    &&& text.subrange(at, at + needle.len()) == needle
}

/// The leftmost position at or after `from` where `needle` sits in `text`.
pub open spec fn first_from(text: Seq<char>, needle: Seq<char>, from: int) -> Option<int>
    decreases text.len() + 1 - from,
{
    if from < 0 || from + needle.len() > text.len() {
        None
    } else if occurs_at(text, needle, from) {
        Some(from)
    } else {
        first_from(text, needle, from + 1)
    }
}

/// Whether `text` holds `needle` anywhere.
pub open spec fn holds_text(text: Seq<char>, needle: Seq<char>) -> bool {
    exists|at: int| occurs_at(text, needle, at)
}

/// What `first_from` answers: the leftmost occurrence at or after `from`.
pub proof fn lemma_first_from(text: Seq<char>, needle: Seq<char>, from: int)
    requires
        0 <= from,
    ensures
        first_from(text, needle, from) matches Some(a) ==> from <= a && occurs_at(text, needle, a)
            && forall|q: int| from <= q < a ==> !occurs_at(text, needle, q),
        first_from(text, needle, from) is None ==> forall|q: int|
            from <= q ==> !occurs_at(text, needle, q),
    decreases text.len() + 1 - from,
{
    if from + needle.len() > text.len() {
    } else if occurs_at(text, needle, from) {
    } else {
        lemma_first_from(text, needle, from + 1);
    }
}

/// The position where `needle` first sits at or after `from`, searching forward.
pub fn find_from(text: &Vec<char>, needle: &Vec<char>, from: usize) -> (found: Option<usize>)
    ensures
        found is None ==> first_from(text@, needle@, from as int) is None,
        found matches Some(a) ==> first_from(text@, needle@, from as int) == Some(a as int),
{
    let mut at = from;
    proof {
        lemma_first_from(text@, needle@, from as int);
    }
    while at <= text.len() && needle.len() <= text.len() - at
        invariant
            from <= at,
            first_from(text@, needle@, from as int) == first_from(text@, needle@, at as int),
        decreases text.len() + 1 - at,
    {
        let mut k: usize = 0;
        let mut same = true;
        while k < needle.len()
            invariant
                at + needle.len() <= text.len(),
                k <= needle.len(),
                same <==> forall|j: int| 0 <= j < k ==> text@[at + j] == needle@[j],
            decreases needle.len() - k,
        {
            if text[at + k] != needle[k] {
                same = false;
            }
            k += 1;
        }
        proof {
            if same {
                assert(text@.subrange(at as int, at + needle.len()) =~= needle@);
            } else {
                assert(!(text@.subrange(at as int, at + needle.len()) =~= needle@));
            }
        }
        if same {
            return Some(at);
        }
        at += 1;
    }
    None
}

} // verus!
