//! Comparison against a recorded file.
//!
//! For output too large or too fiddly to write out in a test: record it once, and let the
//! test say only that it has not changed. Reading and writing the file is the harness's
//! business; what is compared, what counts as a match and what a mismatch reports are
//! decided here.
use crate::pattern::{
    compile, escape, escaped, pattern_compiles, pattern_complaint, pattern_replaced, replace_all, Pattern,
};
use crate::matcher::text::sits_at;
use crate::words::{chars_of, debug_text, occurs_at, push_text, quoted, same_text, text_of};
use vstd::prelude::*;
use vstd::string::*;

verus! {

/// The variable that rewrites the files rather than comparing against them.
pub const UPDATE_ENV: &'static str = "UPDATE_GOLDEN";

/// The directory a golden file's name is resolved against.
pub const GOLDEN_DIR: &'static str = "testdata/golden";

/// A replacement applied to both sides before they are compared.
///
/// For the parts of an output that change every run. A timestamp differs each time and
/// says nothing about whether the code is right, so it is replaced on both sides rather
/// than left to fail.
#[derive(Debug, Clone)]
pub struct Scrubber {
    pattern: Pattern,
    replacement: &'static str,
}

/// What one scrubber makes of a text.
pub open spec fn scrubbed_by(scrubber: Scrubber, text: Seq<char>) -> Seq<char> {
    pattern_replaced(scrubber.source(), scrubber.replacement_text(), text)
}

/// What every scrubber makes of a text, applied in order.
pub open spec fn scrubbed_all(text: Seq<char>, scrubbers: Seq<Scrubber>) -> Seq<char>
    decreases scrubbers.len(),
{
    if scrubbers.len() == 0 {
        text
    } else {
        scrubbed_by(scrubbers.last(), scrubbed_all(text, scrubbers.drop_last()))
    }
}

impl Scrubber {
    /// The pattern this replaces.
    pub closed spec fn source(&self) -> Seq<char> {
        self.pattern.source()
    }

    /// What each match is replaced with.
    pub closed spec fn replacement_text(&self) -> Seq<char> {
        self.replacement@
    }

    /// Return a scrubber replacing what pattern matches.
    ///
    /// The pattern has to compile. A scrubber is written once by the test author, so a
    /// pattern that cannot compile is a mistake in the test rather than a failure of the
    /// subject; [`Scrubber::try_new`] says which without that demand.
    pub fn new(pattern: &str, replacement: &'static str) -> (scrubber: Self)
        requires
            pattern_compiles(pattern@),
        ensures
            scrubber.source() == pattern@,
            scrubber.replacement_text() == replacement@,
    {
        Scrubber { pattern: compile(pattern).unwrap(), replacement }
    }

    /// Return a scrubber replacing what pattern matches, or what the pattern's compiler
    /// says of it when it does not compile.
    pub fn try_new(pattern: &str, replacement: &'static str) -> (out: Result<Self, String>)
        ensures
            out is Ok <==> pattern_compiles(pattern@),
            out matches Ok(s) ==> s.source() == pattern@ && s.replacement_text() == replacement@,
            out matches Err(complaint) ==> complaint@ == pattern_complaint(pattern@),
    {
        match compile(pattern) {
            Ok(_) => Ok(Scrubber::new(pattern, replacement)),
            Err(complaint) => Err(complaint),
        }
    }

    /// Replace every match in a text.
    pub fn apply(&self, text: &str) -> (out: String)
        ensures
            out@ == scrubbed_by(*self, text@),
    {
        replace_all(&self.pattern, text, self.replacement)
    }
}

/// What [`scrub_timestamps`] replaces: anything shaped like an RFC 3339 timestamp.
pub const TIMESTAMP_SHAPE: &'static str = "\\d{4}-\\d{2}-\\d{2}[T ]\\d{2}:\\d{2}:\\d{2}(\\.\\d+)?(Z|[+-]\\d{2}:?\\d{2})?";

/// What [`scrub_hashes`] replaces: anything shaped like a hex digest of 32 characters or
/// more.
pub const HASH_SHAPE: &'static str = "\\b[0-9a-fA-F]{32,}\\b";

/// What [`scrub_run_ids`] replaces: anything shaped like a UUID.
pub const RUN_ID_SHAPE: &'static str = "\\b[0-9a-fA-F]{8}-[0-9a-fA-F]{4}-[0-9a-fA-F]{4}-[0-9a-fA-F]{4}-[0-9a-fA-F]{12}\\b";

/// Replace anything shaped like an RFC 3339 timestamp with `SCRUBBED_TIMESTAMP`.
///
/// The shape is written here, so it compiles; what the pattern engine says is still
/// what decides, and a shape it refused would come back as its complaint.
pub fn scrub_timestamps() -> (out: Result<Scrubber, String>)
    ensures
        out is Ok <==> pattern_compiles(TIMESTAMP_SHAPE@),
        out matches Ok(s) ==> s.source() == TIMESTAMP_SHAPE@ && s.replacement_text() == "SCRUBBED_TIMESTAMP"@,
        out matches Err(complaint) ==> complaint@ == pattern_complaint(TIMESTAMP_SHAPE@),
{
    Scrubber::try_new(TIMESTAMP_SHAPE, "SCRUBBED_TIMESTAMP")
}

/// Replace anything shaped like a hex digest of 32 characters or more with
/// `SCRUBBED_HASH`.
pub fn scrub_hashes() -> (out: Result<Scrubber, String>)
    ensures
        out is Ok <==> pattern_compiles(HASH_SHAPE@),
        out matches Ok(s) ==> s.source() == HASH_SHAPE@ && s.replacement_text() == "SCRUBBED_HASH"@,
        out matches Err(complaint) ==> complaint@ == pattern_complaint(HASH_SHAPE@),
{
    Scrubber::try_new(HASH_SHAPE, "SCRUBBED_HASH")
}

/// Replace anything shaped like a UUID with `SCRUBBED_RUN_ID`.
pub fn scrub_run_ids() -> (out: Result<Scrubber, String>)
    ensures
        out is Ok <==> pattern_compiles(RUN_ID_SHAPE@),
        out matches Ok(s) ==> s.source() == RUN_ID_SHAPE@ && s.replacement_text() == "SCRUBBED_RUN_ID"@,
        out matches Err(complaint) ==> complaint@ == pattern_complaint(RUN_ID_SHAPE@),
{
    Scrubber::try_new(RUN_ID_SHAPE, "SCRUBBED_RUN_ID")
}

/// What the value of a scrubbed JSON field is replaced with; the field's key is kept.
pub const JSON_FIELD_REPLACEMENT: &'static str = "\"${1}\": \"SCRUBBED_FIELD\"";

/// What stands for the names when no field is named: a pattern that matches nowhere.
pub const NO_FIELD: &'static str = "\\b\\B";

/// What follows the names in the pattern of [`scrub_json_fields`]: the closing quote, the
/// colon, and a value that is a string, a number, `true`, `false` or `null`.
pub const JSON_VALUE_SHAPE: &'static str = ")\"\\s*:\\s*(?:\"(?:[^\"\\\\]|\\\\.)*\"|-?[0-9][0-9.eE+-]*|true|false|null)";

/// The field names, each escaped to match literally, separated by `|`.
pub open spec fn field_alternatives(fields: Seq<&str>) -> Seq<char>
    decreases fields.len(),
{
    if fields.len() == 0 {
        Seq::empty()
    } else if fields.len() == 1 {
        escaped(fields[0]@)
    } else {
        field_alternatives(fields.drop_last()) + "|"@ + escaped(fields.last()@)
    }
}

/// The pattern [`scrub_json_fields`] replaces: a quoted key that is one of the fields,
/// captured, then a colon and a scalar value.
pub open spec fn json_fields_shape(fields: Seq<&str>) -> Seq<char> {
    "\"("@ + (if fields.len() == 0 { NO_FIELD@ } else { field_alternatives(fields) }) + JSON_VALUE_SHAPE@
}

/// Replace the value of every JSON member named by one of the fields with
/// `"SCRUBBED_FIELD"`, keeping its key.
///
/// A value that is a string, a number, `true`, `false` or `null` is replaced; a nested
/// object or array is left as it is, since a pattern cannot find where one ends. The names
/// match literally, whatever characters they hold.
pub fn scrub_json_fields(fields: &[&str]) -> (out: Result<Scrubber, String>)
    ensures
        out is Ok <==> pattern_compiles(json_fields_shape(fields@)),
        out matches Ok(s) ==> s.source() == json_fields_shape(fields@) && s.replacement_text()
            == JSON_FIELD_REPLACEMENT@,
        out matches Err(complaint) ==> complaint@ == pattern_complaint(json_fields_shape(fields@)),
{
    let mut pattern = String::new();
    push_text(&mut pattern, "\"(");
    if fields.len() == 0 {
        push_text(&mut pattern, NO_FIELD);
    } else {
        let mut i: usize = 0;
        while i < fields.len()
            invariant
                i <= fields@.len(),
                pattern@ == "\"("@ + field_alternatives(fields@.take(i as int)),
            decreases fields@.len() - i,
        {
            let ghost before = pattern@;
            if i > 0 {
                push_text(&mut pattern, "|");
            }
            push_text(&mut pattern, escape(fields[i]).as_str());
            proof {
                let taken = fields@.take(i + 1);
                assert(taken.drop_last() =~= fields@.take(i as int));
                assert(taken.last() == fields@[i as int]);
                if i == 0 {
                    assert(taken.len() == 1);
                    assert(pattern@ =~= "\"("@ + field_alternatives(taken));
                } else {
                    assert(pattern@ =~= "\"("@ + field_alternatives(taken));
                }
            }
            i += 1;
        }
        assert(fields@.take(i as int) =~= fields@);
    }
    push_text(&mut pattern, JSON_VALUE_SHAPE);
    Scrubber::try_new(pattern.as_str(), JSON_FIELD_REPLACEMENT)
}

/// Apply every scrubber, in order.
pub fn scrubbed(text: &str, scrubbers: &[Scrubber]) -> (out: String)
    ensures
        out@ == scrubbed_all(text@, scrubbers@),
{
    let mut out = text.to_owned();
    let mut at: usize = 0;
    while at < scrubbers.len()
        invariant
            at <= scrubbers@.len(),
            out@ == scrubbed_all(text@, scrubbers@.take(at as int)),
        decreases scrubbers@.len() - at,
    {
        out = scrubbers[at].apply(out.as_str());
        proof {
            let taken = scrubbers@.take(at + 1);
            assert(taken.drop_last() =~= scrubbers@.take(at as int));
        }
        at += 1;
    }
    assert(scrubbers@.take(at as int) =~= scrubbers@);
    out
}

/// Whether the value of the update variable asks for the files to be rewritten: set, not
/// empty, and not `0`.
pub fn update_requested(value: Option<&str>) -> (rewrite: bool)
    ensures
        rewrite == (value matches Some(v) && v@.len() > 0 && v@ != "0"@),
{
    match value {
        None => false,
        Some(v) => {
            let chars = chars_of(v);
            chars.len() > 0 && !same_text(v, "0")
        },
    }
}

/// Whether a character is ASCII whitespace: space, tab, line feed, form feed or carriage
/// return.
pub open spec fn is_ascii_space(c: char) -> bool {
    c == ' ' || c == '\t' || c == '\n' || c == '\x0C' || c == '\r'
}

/// The first position at or after `at` that does not hold ASCII whitespace.
pub open spec fn skip_space(text: Seq<char>, at: int) -> int
    decreases text.len() - at,
{
    if at < 0 || at >= text.len() || !is_ascii_space(text[at]) {
        at
    } else {
        skip_space(text, at + 1)
    }
}

/// Where a JSON value starting at `at` ends, scanning with the given nesting depth and
/// string state.
///
/// A value ends at a comma outside any string and at the top level, or at a closing
/// bracket or brace that closes nothing the value opened, or at the end of the document.
/// A backslash inside a string escapes the next character, so an escaped quote does not
/// end the string.
pub open spec fn value_end(text: Seq<char>, at: int, depth: nat, in_string: bool, escaped: bool) -> int
    decreases text.len() - at,
{
    if at < 0 || at >= text.len() {
        text.len() as int
    } else if escaped {
        value_end(text, at + 1, depth, in_string, false)
    } else {
        let c = text[at];
        if c == '\\' && in_string {
            value_end(text, at + 1, depth, in_string, true)
        } else if c == '"' {
            value_end(text, at + 1, depth, !in_string, false)
        } else if (c == '[' || c == '{') && !in_string {
            value_end(text, at + 1, depth + 1, in_string, false)
        } else if (c == ']' || c == '}') && !in_string {
            if depth == 0 {
                at
            } else {
                value_end(text, at + 1, (depth - 1) as nat, in_string, false)
            }
        } else if c == ',' && !in_string && depth == 0 {
            at
        } else {
            value_end(text, at + 1, depth, in_string, false)
        }
    }
}

/// The key a field is written under: its name in double quotes.
pub open spec fn key_text(field: Seq<char>) -> Seq<char> {
    seq!['"'] + field + seq!['"']
}

/// One step of a scan through a JSON document: the nesting depth, whether the scan is
/// inside a string, and whether the previous character was a backslash inside one, after
/// reading `c`. A closing bracket or brace with nothing open leaves the depth at nought.
pub open spec fn scan_step(c: char, depth: nat, in_string: bool, escaped: bool) -> (nat, bool, bool) {
    if escaped {
        (depth, in_string, false)
    } else if c == '\\' && in_string {
        (depth, in_string, true)
    } else if c == '"' {
        (depth, !in_string, false)
    } else if (c == '[' || c == '{') && !in_string {
        (depth + 1, in_string, false)
    } else if (c == ']' || c == '}') && !in_string {
        (if depth == 0 { 0 } else { (depth - 1) as nat }, in_string, false)
    } else {
        (depth, in_string, false)
    }
}

/// The scan's state just before position `at`, from the start of the document.
pub open spec fn scan_state(text: Seq<char>, at: int) -> (nat, bool, bool)
    decreases at,
{
    if at <= 0 {
        (0, false, false)
    } else {
        let before = scan_state(text, at - 1);
        scan_step(text[at - 1], before.0, before.1, before.2)
    }
}

/// Whether a member named `field` of the outermost object starts at `at`: its key stands
/// there at depth one, outside any string, followed by whitespace and a colon.
pub open spec fn key_at(text: Seq<char>, field: Seq<char>, at: int) -> bool {
    let after = skip_space(text, at + key_text(field).len());
    &&& scan_state(text, at) == (1nat, false, false)
    &&& occurs_at(text, key_text(field), at)
    &&& after < text.len()
    &&& text[after] == ':'
}

/// The first position at or after `from` where a top-level member named `field` starts.
pub open spec fn first_key_from(text: Seq<char>, field: Seq<char>, from: int) -> Option<int>
    decreases text.len() - from,
{
    if from < 0 || from >= text.len() {
        None
    } else if key_at(text, field, from) {
        Some(from)
    } else {
        first_key_from(text, field, from + 1)
    }
}

/// The raw text of a top-level field's value: after the first member of the outermost
/// object with that name and its colon, from the first character that is not whitespace
/// to where the value ends. A member of a nested object, or text inside a string, is not
/// the field.
pub open spec fn raw_value(document: Seq<char>, field: Seq<char>) -> Option<Seq<char>> {
    match first_key_from(document, field, 0) {
        None => None,
        Some(k) => {
            let colon = skip_space(document, k + key_text(field).len());
            let start = skip_space(document, colon + 1);
            Some(document.subrange(start, value_end(document, start, 0, false, false)))
        },
    }
}

/// Inside a string the scan looks only for the closing quote: a run of characters with no
/// quote or backslash, closed by a quote, leaves the scan at the depth it had, whatever
/// brackets or commas the run holds.
proof fn lemma_a_string_is_skipped(text: Seq<char>, k: int, q: int, depth: nat)
    requires
        0 <= k <= q < text.len(),
        text[q] == '"',
        forall|i: int| k <= i < q ==> text[i] != '"' && text[i] != '\\',
    ensures
        value_end(text, k, depth, true, false) == value_end(text, q + 1, depth, false, false),
    decreases q - k,
{
    if k < q {
        lemma_a_string_is_skipped(text, k + 1, q, depth);
    }
}

/// A string value is read whole: a value that is a string literal with no quote or
/// backslash inside ends just after its closing quote when a comma, a closing brace or
/// bracket, or the end of the document follows, whatever brackets or commas it holds.
pub proof fn lemma_a_string_value_is_read_whole(text: Seq<char>, start: int, q: int)
    requires
        0 <= start < q < text.len(),
        text[start] == '"',
        text[q] == '"',
        forall|i: int| start < i < q ==> text[i] != '"' && text[i] != '\\',
        q + 1 == text.len() || text[q + 1] == ',' || text[q + 1] == '}' || text[q + 1] == ']',
    ensures
        value_end(text, start, 0, false, false) == q + 1,
{
    lemma_a_string_is_skipped(text, start + 1, q, 0);
}

/// The field of a one-line JSON object whose first member is that field with a string
/// value is exactly that string literal, quotes included, whatever brackets or commas the
/// literal holds and whatever follows it.
pub proof fn lemma_a_string_field_is_its_literal(field: Seq<char>, body: Seq<char>, rest: Seq<char>)
    requires
        forall|i: int| 0 <= i < body.len() ==> body[i] != '"' && body[i] != '\\',
        rest.len() > 0,
        rest[0] == ',' || rest[0] == '}',
    ensures
        raw_value(
            seq!['{'] + key_text(field) + seq![':', ' '] + (seq!['"'] + body + seq!['"']) + rest,
            field,
        ) == Some(seq!['"'] + body + seq!['"']),
{
    let key = key_text(field);
    let literal = seq!['"'] + body + seq!['"'];
    let doc = seq!['{'] + key + seq![':', ' '] + literal + rest;
    let kl = key.len() as int;
    let start = kl + 3;
    let q = start + body.len() + 1;
    assert(doc.subrange(1, 1 + kl) =~= key);
    assert(doc[0] == '{');
    assert(scan_state(doc, 0) == (0nat, false, false));
    assert(scan_state(doc, 1) == (1nat, false, false));
    assert(doc[1 + kl] == ':');
    assert(skip_space(doc, 1 + kl) == 1 + kl);
    assert(doc[2 + kl] == ' ');
    assert(doc[start] == '"');
    assert(skip_space(doc, start) == start);
    assert(skip_space(doc, 2 + kl) == start);
    assert(key_at(doc, field, 1));
    assert(!key_at(doc, field, 0));
    assert(first_key_from(doc, field, 1) == Some(1int));
    assert(first_key_from(doc, field, 0) == Some(1int));
    assert forall|i: int| start < i < q implies doc[i] != '"' && doc[i] != '\\' by {
        assert(doc[i] == body[i - start - 1]);
    }
    assert(doc[q] == '"');
    assert(doc[q + 1] == rest[0]);
    lemma_a_string_value_is_read_whole(doc, start, q);
    assert(doc.subrange(start, q + 1) =~= literal);
}

/// Where a value starting at `start` ends.
fn end_of_value(text: &Vec<char>, start: usize) -> (end: usize)
    requires
        start <= text@.len(),
    ensures
        end == value_end(text@, start as int, 0, false, false),
        start <= end <= text@.len(),
{
    let mut at = start;
    let mut depth: usize = 0;
    let mut in_string = false;
    let mut escaped = false;
    while at < text.len()
        invariant
            start <= at <= text@.len(),
            depth <= at,
            value_end(text@, start as int, 0, false, false) == value_end(text@, at as int, depth as nat, in_string, escaped),
        decreases text@.len() - at,
    {
        let c = text[at];
        if escaped {
            escaped = false;
        } else if c == '\\' && in_string {
            escaped = true;
        } else if c == '"' {
            in_string = !in_string;
        } else if (c == '[' || c == '{') && !in_string {
            depth = depth + 1;
        } else if (c == ']' || c == '}') && !in_string {
            if depth == 0 {
                return at;
            }
            depth = depth - 1;
        } else if c == ',' && !in_string && depth == 0 {
            return at;
        }
        at += 1;
    }
    at
}

/// The first position at or after `at` that does not hold ASCII whitespace.
fn first_non_space(text: &Vec<char>, from: usize) -> (at: usize)
    requires
        from <= text@.len(),
    ensures
        at == skip_space(text@, from as int),
        from <= at <= text@.len(),
{
    let mut at = from;
    while at < text.len() && (text[at] == ' ' || text[at] == '\t' || text[at] == '\n' || text[at] == '\x0C' || text[at] == '\r')
        invariant
            from <= at <= text@.len(),
            skip_space(text@, from as int) == skip_space(text@, at as int),
        decreases text@.len() - at,
    {
        at += 1;
    }
    at
}

/// The raw text of one top-level field's value, brackets balanced: the value of the first
/// member of the outermost object with that name, never a nested member's.
///
/// A regular expression cannot find where a value ends, which is why this is a scan: a
/// nested object would be cut short at its first closing brace.
pub fn raw_value_of(document: &str, field: &str) -> (value: Option<String>)
    ensures
        value is None <==> raw_value(document@, field@) is None,
        value matches Some(v) ==> raw_value(document@, field@) == Some(v@),
{
    let text = chars_of(document);
    let mut key: Vec<char> = Vec::new();
    key.push('"');
    let name = chars_of(field);
    let mut i: usize = 0;
    while i < name.len()
        invariant
            i <= name@.len(),
            key@ == seq!['"'] + name@.take(i as int),
        decreases name@.len() - i,
    {
        key.push(name[i]);
        i += 1;
        assert(key@ =~= seq!['"'] + name@.take(i as int));
    }
    key.push('"');
    assert(key@ =~= key_text(field@));
    let mut at: usize = 0;
    let mut depth: usize = 0;
    let mut in_string = false;
    let mut escaped = false;
    while at < text.len()
        invariant
            at <= text@.len(),
            text@ == document@,
            key@ == key_text(field@),
            depth <= at,
            scan_state(text@, at as int) == (depth as nat, in_string, escaped),
            first_key_from(text@, field@, 0) == first_key_from(text@, field@, at as int),
        decreases text@.len() - at,
    {
        if depth == 1 && !in_string && !escaped && key.len() <= text.len() - at && sits_at(&text, &key, at) {
            let after = first_non_space(&text, at + key.len());
            if after < text.len() && text[after] == ':' {
                assert(key_at(text@, field@, at as int));
                let start = first_non_space(&text, after + 1);
                let end = end_of_value(&text, start);
                return Some(text_of(text.as_slice(), start, end));
            }
        }
        assert(!key_at(text@, field@, at as int));
        let c = text[at];
        if escaped {
            escaped = false;
        } else if c == '\\' && in_string {
            escaped = true;
        } else if c == '"' {
            in_string = !in_string;
        } else if (c == '[' || c == '{') && !in_string {
            depth = depth + 1;
        } else if (c == ']' || c == '}') && !in_string {
            if depth > 0 {
                depth = depth - 1;
            }
        }
        at += 1;
    }
    None
}

} // verus!

verus! {

/// Whether a character is whitespace as Unicode's `White_Space` property says, which is
/// what `str::trim` strips.
pub open spec fn is_white(c: char) -> bool {
    let n = c as u32;
    (0x9 <= n <= 0xD) || n == 0x20 || n == 0x85 || n == 0xA0 || n == 0x1680 || (0x2000 <= n
        <= 0x200A) || n == 0x2028 || n == 0x2029 || n == 0x202F || n == 0x205F || n == 0x3000
}

/// Where a text starts once leading whitespace is stripped.
pub open spec fn trim_start(text: Seq<char>, at: int) -> int
    decreases text.len() - at,
{
    if at < 0 || at >= text.len() || !is_white(text[at]) {
        at
    } else {
        trim_start(text, at + 1)
    }
}

/// Where a text ends once trailing whitespace is stripped, looking back from `end`.
pub open spec fn trim_end(text: Seq<char>, end: int) -> int
    decreases end,
{
    if end <= 0 || end > text.len() || !is_white(text[end - 1]) {
        end
    } else {
        trim_end(text, end - 1)
    }
}

/// A text without its leading and trailing whitespace.
pub open spec fn trimmed(text: Seq<char>) -> Seq<char> {
    let start = trim_start(text, 0);
    if start == text.len() {
        Seq::empty()
    } else {
        text.subrange(start, trim_end(text, text.len() as int))
    }
}

/// Whether a character is whitespace as Unicode's `White_Space` property says.
fn white(c: char) -> (w: bool)
    ensures
        w == is_white(c),
{
    let n = c as u32;
    (0x9 <= n && n <= 0xD) || n == 0x20 || n == 0x85 || n == 0xA0 || n == 0x1680 || (0x2000 <= n
        && n <= 0x200A) || n == 0x2028 || n == 0x2029 || n == 0x202F || n == 0x205F || n == 0x3000
}

proof fn lemma_trim_end_bounds(text: Seq<char>, end: int)
    requires
        0 <= end <= text.len(),
    ensures
        0 <= trim_end(text, end) <= end,
        trim_end(text, end) > 0 ==> !is_white(text[trim_end(text, end) - 1]),
    decreases end,
{
    if end > 0 && is_white(text[end - 1]) {
        lemma_trim_end_bounds(text, end - 1);
    }
}

proof fn lemma_trim_start_bounds(text: Seq<char>, at: int)
    requires
        0 <= at <= text.len(),
    ensures
        at <= trim_start(text, at) <= text.len(),
        trim_start(text, at) < text.len() ==> !is_white(text[trim_start(text, at)]),
        forall|j: int| at <= j < trim_start(text, at) ==> is_white(text[j]),
    decreases text.len() - at,
{
    if at < text.len() && is_white(text[at]) {
        lemma_trim_start_bounds(text, at + 1);
    }
}

/// A text without its leading and trailing whitespace.
pub fn trim(text: &str) -> (out: String)
    ensures
        out@ == trimmed(text@),
{
    let chars = chars_of(text);
    let mut start: usize = 0;
    while start < chars.len() && white(chars[start])
        invariant
            start <= chars@.len(),
            trim_start(chars@, 0) == trim_start(chars@, start as int),
        decreases chars@.len() - start,
    {
        start += 1;
    }
    if start == chars.len() {
        return String::new();
    }
    let mut end: usize = chars.len();
    proof {
        lemma_trim_start_bounds(chars@, 0);
    }
    while end > 0 && white(chars[end - 1])
        invariant
            end <= chars@.len(),
            start < chars@.len(),
            !is_white(chars@[start as int]),
            start < end,
            trim_end(chars@, chars@.len() as int) == trim_end(chars@, end as int),
        decreases end,
    {
        end -= 1;
    }
    text_of(chars.as_slice(), start, end)
}

/// Write a golden file's path, then the rest of a sentence about it.
fn about(path: &str, rest: &str) -> (out: String)
    ensures
        out@ == path@ + rest@,
{
    let mut out = path.to_owned();
    push_text(&mut out, rest);
    out
}

/// What a recorded file and a fresh output make of the comparison.
///
/// `recorded` is the file's content, or `None` when it could not be read. Both sides are
/// scrubbed before they are compared, so what changes every run does not fail.
pub fn compare_recorded(path: &str, got: &str, recorded: Option<&str>, scrubbers: &[Scrubber]) -> (out: Option<String>)
    ensures
        recorded is None ==> (out matches Some(m) && m@ == path@
            + " does not exist; run the test again with UPDATE_GOLDEN=1 to record it"@),
        recorded matches Some(r) ==> (out is None <==> scrubbed_all(r@, scrubbers@) == scrubbed_all(got@, scrubbers@)),
        recorded matches Some(r) ==> (out matches Some(m) ==> m@ == path@
            + " does not match; run the test again with UPDATE_GOLDEN=1 to accept it\n--- recorded\n"@
            + scrubbed_all(r@, scrubbers@) + "\n--- got\n"@ + scrubbed_all(got@, scrubbers@)),
{
    let recorded = match recorded {
        None => return Some(about(path, " does not exist; run the test again with UPDATE_GOLDEN=1 to record it")),
        Some(r) => r,
    };
    let cleaned = scrubbed(got, scrubbers);
    let want = scrubbed(recorded, scrubbers);
    if same_text(cleaned.as_str(), want.as_str()) {
        None
    } else {
        let mut m = about(path, " does not match; run the test again with UPDATE_GOLDEN=1 to accept it\n--- recorded\n");
        push_text(&mut m, want.as_str());
        push_text(&mut m, "\n--- got\n");
        push_text(&mut m, cleaned.as_str());
        Some(m)
    }
}

/// What a golden JSON file and a fresh value make of the comparison of one field.
///
/// `updating` says the run was asked to rewrite golden files, which one field cannot be.
/// `recorded` is the file's content, or `None` when it could not be read. Both the field's
/// raw value and the fresh one are trimmed and scrubbed before they are compared.
pub fn compare_field(
    path: &str,
    field: &str,
    got: &str,
    updating: bool,
    recorded: Option<&str>,
    scrubbers: &[Scrubber],
) -> (out: Option<String>)
    ensures
        updating ==> (out matches Some(m) && m@ == path@
            + ": UPDATE_GOLDEN cannot rewrite one field of a golden file; edit it or record the whole file with matches_at"@),
        !updating ==> (recorded is None ==> (out matches Some(m) && m@ == path@ + " does not exist"@)),
        !updating ==> (recorded matches Some(r) ==> (raw_value(r@, field@) is None ==> (out matches Some(m)
            && m@ == path@ + " carries no field "@ + quoted(field@)
            + "; add it, or record the whole file with UPDATE_GOLDEN=1"@))),
        !updating ==> (recorded matches Some(r) ==> (raw_value(r@, field@) matches Some(raw) ==> ({
            let want = scrubbed_all(trimmed(raw), scrubbers@);
            let cleaned = scrubbed_all(trimmed(got@), scrubbers@);
            &&& out is None <==> want == cleaned
            &&& out matches Some(m) ==> m@ == path@ + " field "@ + quoted(field@)
                + " does not match\n--- recorded\n"@ + want + "\n--- got\n"@ + cleaned
        }))),
{
    if updating {
        return Some(about(path, ": UPDATE_GOLDEN cannot rewrite one field of a golden file; edit it or record the whole file with matches_at"));
    }
    let recorded = match recorded {
        None => return Some(about(path, " does not exist")),
        Some(r) => r,
    };
    let raw = match raw_value_of(recorded, field) {
        None => {
            let mut m = about(path, " carries no field ");
            push_text(&mut m, debug_text(field).as_str());
            push_text(&mut m, "; add it, or record the whole file with UPDATE_GOLDEN=1");
            return Some(m);
        },
        Some(raw) => raw,
    };
    let want = scrubbed(trim(raw.as_str()).as_str(), scrubbers);
    let cleaned = scrubbed(trim(got).as_str(), scrubbers);
    if same_text(cleaned.as_str(), want.as_str()) {
        None
    } else {
        let mut m = about(path, " field ");
        push_text(&mut m, debug_text(field).as_str());
        push_text(&mut m, " does not match\n--- recorded\n");
        push_text(&mut m, want.as_str());
        push_text(&mut m, "\n--- got\n");
        push_text(&mut m, cleaned.as_str());
        Some(m)
    }
}

/// What a golden file that could not be written reports: `whole_file` says whether the
/// file itself failed rather than the directory it goes in.
pub fn unwritable(path: &str, complaint: &str, whole_file: bool) -> (out: String)
    ensures
        out@ == path@ + ": "@ + (if whole_file { "the golden file could not be written: "@ } else { Seq::empty() })
            + complaint@,
{
    let mut m = about(path, ": ");
    if whole_file {
        push_text(&mut m, "the golden file could not be written: ");
    }
    push_text(&mut m, complaint);
    assert(whole_file ==> m@ =~= path@ + ": "@ + "the golden file could not be written: "@ + complaint@);
    assert(!whole_file ==> m@ =~= path@ + ": "@ + Seq::<char>::empty() + complaint@);
    m
}

} // verus!
