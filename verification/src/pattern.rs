//! Regular expressions, as the `regex` crate compiles and runs them.
//!
//! What a pattern matches takes the crate's whole syntax to state, so it is named here
//! rather than written out: the crate decides, and the library's contracts speak of the
//! names below. Each is a function of the pattern and the text alone.
use vstd::prelude::*;

verus! {

#[verifier::external_type_specification]
#[verifier::external_body]
pub struct ExRegex(regex::Regex);

/// Whether the `regex` crate compiles a pattern.
pub uninterp spec fn pattern_compiles(pattern: Seq<char>) -> bool;

/// What the `regex` crate says of a pattern it refuses, as its error's `Display` writes it.
pub uninterp spec fn pattern_complaint(pattern: Seq<char>) -> Seq<char>;

/// Whether a compiled pattern matches anywhere in a text.
pub uninterp spec fn pattern_matches(pattern: Seq<char>, text: Seq<char>) -> bool;

/// The text with every match of the pattern replaced, as `Regex::replace_all` writes it.
pub uninterp spec fn pattern_replaced(pattern: Seq<char>, replacement: Seq<char>, text: Seq<char>) -> Seq<char>;

/// A pattern, kept with the text it was compiled from.
#[derive(Debug)]
pub struct Pattern {
    source: String,
    compiled: regex::Regex,
}

impl Pattern {
    /// The text this was compiled from.
    pub closed spec fn source(&self) -> Seq<char> {
        self.source@
    }
}

/// Copy a compiled pattern with `regex::Regex::clone`, which shares the compiled program.
#[verifier::external_body]
fn copy_regex(compiled: &regex::Regex) -> regex::Regex {
    compiled.clone()
}

impl Clone for Pattern {
    fn clone(&self) -> (copy: Self)
        ensures
            copy.source() == self.source(),
    {
        Pattern { source: self.source.clone(), compiled: copy_regex(&self.compiled) }
    }
}

/// Compile a pattern with `regex::Regex::new`.
///
/// Claims of that function that it compiles exactly the patterns named as compiling, and
/// that a refusal reads as its error's `Display`.
#[verifier::external_body]
pub fn compile(pattern: &str) -> (out: Result<Pattern, String>)
    ensures
        out is Ok <==> pattern_compiles(pattern@),
        out matches Ok(p) ==> p.source() == pattern@,
        out matches Err(complaint) ==> complaint@ == pattern_complaint(pattern@),
{
    match regex::Regex::new(pattern) {
        Ok(compiled) => Ok(Pattern { source: pattern.to_owned(), compiled }),
        Err(broken) => Err(broken.to_string()),
    }
}

/// Whether a pattern matches anywhere in a text, with `regex::Regex::is_match`.
///
/// Claims of that function only that its answer is the one named for the pattern and the
/// text.
#[verifier::external_body]
pub fn is_match(pattern: &Pattern, text: &str) -> (found: bool)
    ensures
        found == pattern_matches(pattern.source(), text@),
{
    pattern.compiled.is_match(text)
}

/// Replace every match of a pattern, with `regex::Regex::replace_all`.
///
/// Claims of that function only that its answer is the one named for the pattern, the
/// replacement and the text.
#[verifier::external_body]
pub fn replace_all(pattern: &Pattern, text: &str, replacement: &str) -> (out: String)
    ensures
        out@ == pattern_replaced(pattern.source(), replacement@, text@),
{
    pattern.compiled.replace_all(text, replacement).into_owned()
}

/// Whether the `regex` crate gives a character a meaning of its own in a pattern, as
/// `regex_syntax::is_meta_character` lists them.
pub open spec fn is_meta(c: char) -> bool {
    c == '\\' || c == '.' || c == '+' || c == '*' || c == '?' || c == '(' || c == ')' || c == '|'
        || c == '[' || c == ']' || c == '{' || c == '}' || c == '^' || c == '$' || c == '#' || c == '&'
        || c == '-' || c == '~'
}

/// A text with a backslash put before every character that has a meaning of its own in a
/// pattern, so the pattern matches the text literally.
pub open spec fn escaped(text: Seq<char>) -> Seq<char>
    decreases text.len(),
{
    if text.len() == 0 {
        Seq::empty()
    } else {
        escaped(text.drop_last()) + if is_meta(text.last()) {
            seq!['\\', text.last()]
        } else {
            seq![text.last()]
        }
    }
}

/// Escape a text for use in a pattern, with `regex::escape`, which claims (as its source
/// in `regex_syntax::escape_into` shows) that each character is kept, in order, with a
/// backslash before each one `is_meta` names.
#[verifier::external_body]
pub fn escape(text: &str) -> (out: String)
    ensures
        out@ == escaped(text@),
{
    regex::escape(text)
}

} // verus!
