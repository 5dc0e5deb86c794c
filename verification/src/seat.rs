//! What a seat is told, and how a collector reports it.
//!
//! A seat is where a failure goes. The seats themselves live with the test harness, since
//! one panics, one reports from its drop and every one keeps its state behind a lock; what
//! a seat keeps and how it writes its report are decided here.
use crate::failure::{rendered, same_record, Failure, Where};
use crate::words::{decimal, push_decimal, push_text};
use vstd::prelude::*;
use vstd::string::*;

verus! {

/// A seat that panics on either path.
///
/// The panic is what a Rust test harness reads as a failure, so this is the seat for code
/// that has no seat of its own.
#[derive(Debug, Default)]
pub struct Standard;

impl Standard {
    /// Return a seat that panics on either path.
    pub fn new() -> Self {
        Standard
    }
}

/// What a seat that has said `fatal` through the aborting path and `recorded` through
/// the recording path says after taking one record: the aborting path keeps its first
/// sentence, the recording path adds the record's sentence at its end.
pub open spec fn after_report(
    fatal: Option<Seq<char>>,
    recorded: Seq<Seq<char>>,
    failure: Failure,
    aborting: bool,
) -> (Option<Seq<char>>, Seq<Seq<char>>) {
    if aborting {
        (
            match fatal {
                Some(first) => Some(first),
                None => Some(rendered(failure)),
            },
            recorded,
        )
    } else {
        (fatal, recorded.push(rendered(failure)))
    }
}

/// The message a seat answers: the first failure through the aborting path, else the first
/// through the recording path, else nothing.
pub open spec fn message_of(fatal: Option<Seq<char>>, recorded: Seq<Seq<char>>) -> Seq<char> {
    match fatal {
        Some(first) => first,
        None => if recorded.len() > 0 {
            recorded[0]
        } else {
            Seq::empty()
        },
    }
}

/// Both surfaces report the same text: a seat that has been told nothing answers a
/// record's sentence whichever path the record took, and only the aborting path counts it
/// as the failure that stopped the test.
pub proof fn lemma_paths_say_the_same(failure: Failure)
    ensures
        ({
            let (fatal, recorded) = after_report(None, Seq::empty(), failure, true);
            message_of(fatal, recorded) == rendered(failure) && recorded.len() == 0
        }),
        ({
            let (fatal, recorded) = after_report(None, Seq::empty(), failure, false);
            message_of(fatal, recorded) == rendered(failure) && fatal is None && recorded.len() == 1
        }),
{
}

/// The failure that matters is the first: a seat's message is its first aborting
/// failure however many follow it, and with none, the first recorded one however many are
/// recorded after it. Once an aborting failure is kept nothing reported later changes the
/// message, and while there is none a later recorded failure does not change it either;
/// only a first aborting failure takes precedence over what was recorded.
pub proof fn lemma_the_first_failure_is_the_message(
    fatal: Option<Seq<char>>,
    recorded: Seq<Seq<char>>,
    failure: Failure,
    aborting: bool,
    said: Seq<char>,
)
    ensures
        fatal matches Some(first) ==> message_of(fatal, recorded) == first,
        message_of(None, seq![said]) == said,
        message_of(None, seq![said] + recorded) == said,
        (fatal is Some || (recorded.len() > 0 && !aborting)) ==> ({
            let (after_fatal, after_recorded) = after_report(fatal, recorded, failure, aborting);
            message_of(after_fatal, after_recorded) == message_of(fatal, recorded)
        }),
{
    assert((seq![said] + recorded)[0] == said);
    if !aborting && fatal is None && recorded.len() > 0 {
        assert(recorded.push(rendered(failure))[0] == recorded[0]);
    }
}

/// What a recording seat has been told.
///
/// The aborting path keeps its first failure, since that is where the test would have
/// stopped; the recording path keeps every failure, in call order; a record reported as
/// a record is kept as well as the sentence rendered from it.
#[derive(Debug, Default)]
pub struct Reported {
    fatal: Option<String>,
    recorded: Vec<String>,
    records: Vec<Failure>,
    helpers: usize,
}

impl Reported {
    /// The first failure through the aborting path, if any.
    pub closed spec fn fatal_said(&self) -> Option<Seq<char>> {
        match self.fatal {
            Some(s) => Some(s@),
            None => None,
        }
    }

    /// Every failure through the recording path, in call order.
    pub closed spec fn recorded_said(&self) -> Seq<Seq<char>> {
        self.recorded@.map_values(|s: String| s@)
    }

    /// Every record reported, in call order.
    pub closed spec fn records(&self) -> Seq<Failure> {
        self.records@
    }

    /// How many times a frame was marked as the library's.
    pub closed spec fn helper_count(&self) -> nat {
        self.helpers as nat
    }

    /// Whether anything failed, through either path.
    pub open spec fn has_failed(&self) -> bool {
        self.fatal_said() is Some || self.recorded_said().len() > 0
    }

    /// What a seat that has been told nothing holds.
    pub fn new() -> (fresh: Self)
        ensures
            fresh.fatal_said() is None,
            fresh.recorded_said().len() == 0,
            fresh.records().len() == 0,
            fresh.helper_count() == 0,
    {
        Reported { fatal: None, recorded: Vec::new(), records: Vec::new(), helpers: 0 }
    }

    /// Mark one frame as the library's.
    pub fn helper(&mut self)
        requires
            old(self).helper_count() < usize::MAX,
        ensures
            final(self).helper_count() == old(self).helper_count() + 1,
            final(self).fatal_said() == old(self).fatal_said(),
            final(self).recorded_said() == old(self).recorded_said(),
            final(self).records() == old(self).records(),
    {
        self.helpers = self.helpers + 1;
    }

    /// Take a failure that stops the test. Only the first is kept.
    pub fn fail(&mut self, message: &str)
        ensures
            final(self).fatal_said() == match old(self).fatal_said() {
                Some(first) => Some(first),
                None => Some(message@),
            },
            final(self).recorded_said() == old(self).recorded_said(),
            final(self).records() == old(self).records(),
            final(self).helper_count() == old(self).helper_count(),
    {
        if self.fatal.is_none() {
            self.fatal = Some(message.to_owned());
        }
    }

    /// Take a failure the test carries on past. Every one is kept, in order.
    pub fn record(&mut self, message: &str)
        ensures
            final(self).recorded_said() == old(self).recorded_said().push(message@),
            final(self).fatal_said() == old(self).fatal_said(),
            final(self).records() == old(self).records(),
            final(self).helper_count() == old(self).helper_count(),
    {
        let ghost before = self.recorded@;
        self.recorded.push(message.to_owned());
        assert(self.recorded@.map_values(|s: String| s@) =~= before.map_values(|s: String| s@).push(message@));
    }

    /// Take one record, and the sentence rendered from it through the path it asks for.
    pub fn report(&mut self, failure: Failure, aborting: bool)
        ensures
            final(self).records() == old(self).records().push(failure),
            (final(self).fatal_said(), final(self).recorded_said()) == after_report(
                old(self).fatal_said(),
                old(self).recorded_said(),
                failure,
                aborting,
            ),
            final(self).helper_count() == old(self).helper_count(),
    {
        let said = failure.render();
        self.records.push(failure);
        if aborting {
            self.fail(said.as_str());
        } else {
            self.record(said.as_str());
        }
    }

    /// Whether any failure was reported, through either path.
    pub fn failed(&self) -> (any: bool)
        ensures
            any == self.has_failed(),
    {
        self.fatal.is_some() || self.recorded.len() > 0
    }

    /// The first failure reported, preferring the aborting path; empty when nothing failed.
    pub fn message(&self) -> (said: String)
        ensures
            said@ == message_of(self.fatal_said(), self.recorded_said()),
    {
        match &self.fatal {
            Some(first) => first.clone(),
            None => {
                if self.recorded.len() > 0 {
                    self.recorded[0].clone()
                } else {
                    String::new()
                }
            },
        }
    }

    /// Every failure reported through the recording path, in call order.
    pub fn messages(&self) -> (all: Vec<String>)
        ensures
            all@.map_values(|s: String| s@) == self.recorded_said(),
    {
        let mut all: Vec<String> = Vec::new();
        let mut at: usize = 0;
        while at < self.recorded.len()
            invariant
                at <= self.recorded@.len(),
                all@.len() == at,
                forall|i: int| 0 <= i < at ==> (#[trigger] all@[i])@ == self.recorded@[i]@,
            decreases self.recorded@.len() - at,
        {
            all.push(self.recorded[at].clone());
            at += 1;
        }
        assert(all@.map_values(|s: String| s@) =~= self.recorded@.map_values(|s: String| s@));
        all
    }

    /// Every record reported, in call order.
    pub fn failures(&self) -> (all: Vec<Failure>)
        ensures
            all@.len() == self.records().len(),
            forall|i: int| 0 <= i < all@.len() ==> same_record(#[trigger] all@[i], self.records()[i]),
    {
        let mut all: Vec<Failure> = Vec::new();
        let mut at: usize = 0;
        while at < self.records.len()
            invariant
                at <= self.records@.len(),
                all@.len() == at,
                forall|i: int| 0 <= i < at ==> same_record(#[trigger] all@[i], self.records@[i]),
            decreases self.records@.len() - at,
        {
            all.push(self.records[at].copy());
            at += 1;
        }
        all
    }

    /// How many times a frame was marked as the library's.
    pub fn helper_calls(&self) -> (n: usize)
        ensures
            n == self.helper_count(),
    {
        self.helpers
    }
}

/// How one collected failure reads in a numbered report.
pub open spec fn numbered_text(index: nat, failure: (String, Where)) -> Seq<char> {
    "\n  "@ + decimal(index + 1) + ". "@ + failure.0@ + "\n     at "@ + failure.1.file@ + ":"@
        + decimal(failure.1.line as nat)
}

/// The numbered lines for the first `n` collected failures.
pub open spec fn numbered_lines(failures: Seq<(String, Where)>, n: nat) -> Seq<char>
    decreases n,
{
    if n == 0 {
        Seq::empty()
    } else {
        numbered_lines(failures, (n - 1) as nat) + numbered_text((n - 1) as nat, failures[n - 1])
    }
}

/// What a collector reports: one failure alone with where it was written, or a count
/// followed by every failure, numbered, each with where it was written.
pub open spec fn collected_report(failures: Seq<(String, Where)>) -> Seq<char> {
    if failures.len() == 1 {
        failures[0].0@ + "\n  at "@ + failures[0].1.file@ + ":"@ + decimal(failures[0].1.line as nat)
    } else {
        decimal(failures.len()) + " failures:"@ + numbered_lines(failures, failures.len())
    }
}

/// Render what a collector holds as one report.
///
/// Each line carries where the assertion was written. A collector reports from its drop,
/// which has no caller to attribute the failure to, so without this a reader is told only
/// that something failed somewhere in the test.
pub fn report(failures: &[(String, Where)]) -> (out: String)
    ensures
        out@ == collected_report(failures@),
{
    if failures.len() == 1 {
        let mut out = failures[0].0.clone();
        push_text(&mut out, "\n  at ");
        push_text(&mut out, failures[0].1.file);
        push_text(&mut out, ":");
        push_decimal(&mut out, failures[0].1.line as u128);
        return out;
    }
    let mut out = String::new();
    push_decimal(&mut out, failures.len() as u128);
    push_text(&mut out, " failures:");
    let mut at: usize = 0;
    while at < failures.len()
        invariant
            at <= failures@.len(),
            out@ == decimal(failures@.len()) + " failures:"@ + numbered_lines(failures@, at as nat),
        decreases failures@.len() - at,
    {
        let ghost before = out@;
        push_text(&mut out, "\n  ");
        push_decimal(&mut out, at as u128 + 1);
        push_text(&mut out, ". ");
        push_text(&mut out, failures[at].0.as_str());
        push_text(&mut out, "\n     at ");
        push_text(&mut out, failures[at].1.file);
        push_text(&mut out, ":");
        push_decimal(&mut out, failures[at].1.line as u128);
        assert(out@ =~= before + numbered_text(at as nat, failures@[at as int]));
        at += 1;
    }
    out
}

} // verus!
