//! How a subject behaves, rather than what it answers.
//!
//! Go states cancellation with a `context.Context` in every signature, and Rust has no
//! such value in its standard library. Dropping a future is not the equivalent: a subject
//! that stops because it was dropped never chose to stop, so asking whether it honours
//! cancellation would answer yes for every subject.
//!
//! So the handle is a value the subject is given and can read, which is the question the
//! standard actually asks. [`Cancel`] is that value.
use crate::failure::{is_said, names, Detail, Failure, Where};
use crate::words::{decimal, push_decimal, push_text};
use std::sync::atomic::{AtomicU8, Ordering};
use vstd::prelude::*;
use vstd::string::*;

verus! {

/// Why a subject was asked to stop.
#[derive(Debug, Clone, Copy, PartialEq, Eq, Structural)]
pub enum Stop {
    /// The caller gave up.
    Cancelled,
    /// The time allowed ran out.
    DeadlineExceeded,
}

/// The words a reason reads as.
pub open spec fn stop_words(why: Stop) -> Seq<char> {
    match why {
        Stop::Cancelled => "cancelled"@,
        Stop::DeadlineExceeded => "deadline exceeded"@,
    }
}

impl Stop {
    /// The words this reason reads as: "cancelled" or "deadline exceeded".
    pub fn words(&self) -> (out: &'static str)
        ensures
            out@ == stop_words(*self),
    {
        match self {
            Stop::Cancelled => "cancelled",
            Stop::DeadlineExceeded => "deadline exceeded",
        }
    }
}

/// The state of a handle still running.
const RUNNING: u8 = 0;
/// The state of a handle a caller gave up on.
const CANCELLED: u8 = 1;
/// The state of a handle whose time ran out.
const EXPIRED: u8 = 2;

/// The reason a state stands for, or `None` for a handle still running.
pub closed spec fn reason_of(state: u8) -> Option<Stop> {
    if state == CANCELLED {
        Some(Stop::Cancelled)
    } else if state == EXPIRED {
        Some(Stop::DeadlineExceeded)
    } else {
        None
    }
}

/// The state a handle moves to when it is stopped for the reason `to` stands for: that
/// reason when it was still running, and the state it had otherwise.
pub closed spec fn stopped_state(state: u8, to: Stop) -> u8 {
    if state == RUNNING {
        match to {
            Stop::Cancelled => CANCELLED,
            Stop::DeadlineExceeded => EXPIRED,
        }
    } else {
        state
    }
}

/// The state a handle made running starts in.
pub closed spec fn running_state() -> u8 {
    RUNNING
}

/// The first reason wins: stopping a running handle gives it the reason it was stopped
/// for, and stopping a handle already stopped leaves its reason as it was.
pub proof fn lemma_first_reason_wins(state: u8, first: Stop, then: Stop)
    ensures
        reason_of(running_state()) is None,
        reason_of(stopped_state(running_state(), first)) == Some(first),
        reason_of(state) is Some ==> reason_of(stopped_state(state, then)) == reason_of(state),
{
}

/// The state a handle that held `state` moves to when it is stopped for `to`.
pub fn next_state(state: u8, to: Stop) -> (next: u8)
    ensures
        next == stopped_state(state, to),
{
    if state == RUNNING {
        match to {
            Stop::Cancelled => CANCELLED,
            Stop::DeadlineExceeded => EXPIRED,
        }
    } else {
        state
    }
}

/// Read a state as the reason it stands for.
fn reason_for(state: u8) -> (why: Option<Stop>)
    ensures
        why == reason_of(state),
{
    if state == CANCELLED {
        Some(Stop::Cancelled)
    } else if state == EXPIRED {
        Some(Stop::DeadlineExceeded)
    } else {
        None
    }
}

/// A handle a subject reads to learn it should stop.
///
/// The smallest thing that answers the question `context.Context` answers in Go: whether
/// the caller has given up, and why. A subject that can be cancelled at all takes one.
///
/// A handle made already stopped keeps the reason it was made with for good, since the
/// first reason wins; that reason is held as it was made, and every read answers it. A
/// handle made running keeps its state in one atomic, so one thread may stop it while
/// another reads it; what a read of such a handle answers is the state some thread left,
/// which no clause here can fix.
#[derive(Debug, Default)]
pub struct Cancel {
    made: Option<Stop>,
    state: AtomicU8,
}

impl Cancel {
    /// The reason this handle was made stopped with, or `None` for a handle made running.
    pub closed spec fn made_with(&self) -> Option<Stop> {
        self.made
    }

    /// Return a handle that has not been stopped.
    pub fn new() -> (handle: Self)
        ensures
            handle.made_with() is None,
    {
        Cancel { made: None, state: AtomicU8::new(RUNNING) }
    }

    /// Return a handle the caller has already given up on.
    pub fn cancelled() -> (handle: Self)
        ensures
            handle.made_with() == Some(Stop::Cancelled),
    {
        Cancel { made: Some(Stop::Cancelled), state: AtomicU8::new(CANCELLED) }
    }

    /// Return a handle whose time has already run out.
    pub fn expired() -> (handle: Self)
        ensures
            handle.made_with() == Some(Stop::DeadlineExceeded),
    {
        Cancel { made: Some(Stop::DeadlineExceeded), state: AtomicU8::new(EXPIRED) }
    }

    /// Ask whatever holds this to stop, as a caller giving up.
    ///
    /// Only a handle still running takes the reason; one already stopped keeps its own.
    /// The state read is exchanged for what [`next_state`] answers of it, and the exchange
    /// lands only if no other thread moved the state in between. What the atomic then
    /// holds is the atomic's own, which no clause here states.
    pub fn stop(&self) {
        let held = self.state.load(Ordering::SeqCst);
        let next = next_state(held, Stop::Cancelled);
        let _ = self.state.compare_exchange(held, next, Ordering::SeqCst, Ordering::SeqCst);
    }

    /// Ask whatever holds this to stop, because the time ran out.
    ///
    /// Only a handle still running takes the reason; one already stopped keeps its own.
    /// The state read is exchanged for what [`next_state`] answers of it, as in
    /// [`Cancel::stop`].
    pub fn expire(&self) {
        let held = self.state.load(Ordering::SeqCst);
        let next = next_state(held, Stop::DeadlineExceeded);
        let _ = self.state.compare_exchange(held, next, Ordering::SeqCst, Ordering::SeqCst);
    }

    /// Why this was stopped, or `None` while it is still running.
    ///
    /// The counterpart of `ctx.Err()`: a subject polls it and returns when it answers. A
    /// handle made stopped answers the reason it was made with, whatever any thread did
    /// since.
    pub fn stopped(&self) -> (why: Option<Stop>)
        ensures
            self.made_with() is Some ==> why == self.made_with(),
    {
        match self.made {
            Some(reason) => Some(reason),
            None => reason_for(self.state.load(Ordering::SeqCst)),
        }
    }

    /// Whether this has been stopped at all. A handle made stopped always has.
    pub fn is_stopped(&self) -> (any: bool)
        ensures
            self.made_with() is Some ==> any,
    {
        self.stopped().is_some()
    }
}

/// The canonical id a stopped-handle assertion reports under.
///
/// One matcher serves both, because the only difference is which reason the subject has
/// to give; the failure still names the assertion the caller wrote.
pub fn assertion_for(want: Stop) -> (id: &'static str)
    ensures
        id@ == assertion_id(want),
{
    match want {
        Stop::Cancelled => "honours-cancellation",
        Stop::DeadlineExceeded => "honours-deadline",
    }
}

/// The id of the assertion that asks for a reason.
pub open spec fn assertion_id(want: Stop) -> Seq<char> {
    match want {
        Stop::Cancelled => "honours-cancellation"@,
        Stop::DeadlineExceeded => "honours-deadline"@,
    }
}

/// How a subject handed a stopped handle answered.
#[derive(Debug, Clone, PartialEq)]
pub enum Answer {
    /// It returned as if it had done the work.
    Done,
    /// It refused: `reasons` holds every [`Stop`] found along its error's chain of sources,
    /// in the order they were found, and `said` is what its error's `Display` writes.
    Refused { reasons: Vec<Stop>, said: String },
}

/// Whether the wanted reason is among the reasons found.
pub fn gives_reason(reasons: &Vec<Stop>, want: Stop) -> (found: bool)
    ensures
        found == reasons@.contains(want),
{
    let mut at: usize = 0;
    while at < reasons.len()
        invariant
            at <= reasons@.len(),
            forall|j: int| 0 <= j < at ==> reasons@[j] != want,
        decreases reasons@.len() - at,
    {
        if reasons[at] == want {
            assert(reasons@[at as int] == want);
            return true;
        }
        at += 1;
    }
    false
}

/// Report when a subject given a stopped handle does not say it stopped for that reason.
///
/// Answering `Ok` fails, because the subject did the work. Answering an error fails too
/// unless the wanted reason is somewhere in its chain of sources: failing for its own
/// reasons and happening to do so in time is not the same as reading the handle.
pub fn honours(want: Stop, answer: Answer, msg: &str, at: Where) -> (out: Option<Failure>)
    ensures
        out is None <==> (answer matches Answer::Refused { reasons, .. } && reasons@.contains(want)),
        out matches Some(f) ==> {
            &&& names(f, assertion_id(want), msg@, at)
            &&& f.detail@.len() == 1
            &&& f.detail@[0].0@ == "got"@
            &&& is_said(f.detail@[0].1, match answer {
                Answer::Done => "returned as if it had done the work"@,
                Answer::Refused { said, .. } => said@,
            })
        },
{
    match answer {
        Answer::Done => Some(
            Failure::new(
                assertion_for(want),
                msg,
                vec![("got", Detail::Said("returned as if it had done the work".to_owned()))],
                at,
            ),
        ),
        Answer::Refused { reasons, said } => {
            if gives_reason(&reasons, want) {
                None
            } else {
                Some(Failure::new(assertion_for(want), msg, vec![("got", Detail::Said(said))], at))
            }
        },
    }
}

/// Report when a subject given a stopped token does not say it stopped for that reason.
///
/// The same question as [`honours`], asked of a future handed a token; the failure is a
/// sentence rather than a record.
pub fn honours_token(want: Stop, answer: Answer, msg: &str) -> (out: Option<String>)
    ensures
        out is None <==> (answer matches Answer::Refused { reasons, .. } && reasons@.contains(want)),
        out matches Some(m) ==> m@ == match answer {
            Answer::Done => msg@ + ": a subject given a "@ + stop_words(want)
                + " token completed as if it had done the work"@,
            Answer::Refused { said, .. } => msg@ + ": a subject given a "@ + stop_words(want)
                + " token failed with "@ + said@ + " instead"@,
        },
{
    let mut m = msg.to_owned();
    push_text(&mut m, ": a subject given a ");
    push_text(&mut m, want.words());
    match answer {
        Answer::Done => {
            push_text(&mut m, " token completed as if it had done the work");
            Some(m)
        },
        Answer::Refused { reasons, said } => {
            if gives_reason(&reasons, want) {
                None
            } else {
                push_text(&mut m, " token failed with ");
                push_text(&mut m, said.as_str());
                push_text(&mut m, " instead");
                Some(m)
            }
        },
    }
}

/// Report when a subject given no handle at all panicked.
///
/// Answering an error of its own is fine and is usually right. What fails here is
/// panicking on the missing handle, which is what a caller hits by accident.
pub fn none_handle_safe(panicked: bool, msg: &str, at: Where) -> (out: Option<Failure>)
    ensures
        out is None <==> !panicked,
        out matches Some(f) ==> names(f, "nil-context-safe"@, msg@, at) && f.detail@.len() == 1
            && f.detail@[0].0@ == "got"@ && is_said(f.detail@[0].1, "a panic"@),
{
    if panicked {
        Some(Failure::new("nil-context-safe", msg, vec![("got", Detail::Said("a panic".to_owned()))], at))
    } else {
        None
    }
}

/// Nanoseconds in a millisecond.
pub const NANOS_PER_MILLI: u128 = 1_000_000;

/// A duration in whole milliseconds, written with its unit, as `as_millis` counts them.
pub open spec fn millis_text(nanos: nat) -> Seq<char> {
    decimal(nanos / NANOS_PER_MILLI as nat) + "ms"@
}

/// Write a duration in whole milliseconds, with its unit.
pub fn millis(nanos: u128) -> (out: String)
    ensures
        out@ == millis_text(nanos as nat),
{
    let mut out = String::new();
    push_decimal(&mut out, nanos / NANOS_PER_MILLI);
    push_text(&mut out, "ms");
    out
}

/// Report when the body took longer than the given duration.
///
/// Both durations are in nanoseconds; the failure writes them in whole milliseconds.
pub fn completes_within(within: u128, elapsed: u128, msg: &str, at: Where) -> (out: Option<Failure>)
    ensures
        out is None <==> elapsed <= within,
        out matches Some(f) ==> {
            &&& names(f, "completes-within"@, msg@, at)
            &&& f.detail@.len() == 2
            &&& f.detail@[0].0@ == "want"@ && is_said(f.detail@[0].1, millis_text(within as nat))
            &&& f.detail@[1].0@ == "got"@ && is_said(f.detail@[1].1, millis_text(elapsed as nat))
        },
{
    if elapsed > within {
        Some(
            Failure::new(
                "completes-within",
                msg,
                vec![("want", Detail::Said(millis(within))), ("got", Detail::Said(millis(elapsed)))],
                at,
            ),
        )
    } else {
        None
    }
}

/// What a future still running at its ceiling reports.
pub fn still_running(elapsed: u128, msg: &str) -> (out: String)
    ensures
        out@ == msg@ + ": still running after "@ + millis_text(elapsed as nat) + ", want at most the same"@,
{
    let mut out = msg.to_owned();
    push_text(&mut out, ": still running after ");
    push_text(&mut out, millis(elapsed).as_str());
    push_text(&mut out, ", want at most the same");
    out
}

/// Report when the body changed what observe reads.
///
/// What observe answers defines what nothing means: whatever it leaves out, the body is
/// free to change. The two readings are written as the caller's `Debug` writes them.
pub fn is_pure(unchanged: bool, before_said: &str, after_said: &str, msg: &str, at: Where) -> (out: Option<Failure>)
    ensures
        out is None <==> unchanged,
        out matches Some(f) ==> {
            &&& names(f, "pure"@, msg@, at)
            &&& f.detail@.len() == 2
            &&& f.detail@[0].0@ == "want"@ && is_said(f.detail@[0].1, before_said@)
            &&& f.detail@[1].0@ == "got"@ && is_said(f.detail@[1].1, after_said@)
        },
{
    if unchanged {
        None
    } else {
        Some(
            Failure::new(
                "pure",
                msg,
                vec![("want", Detail::Said(before_said.to_owned())), ("got", Detail::Said(after_said.to_owned()))],
                at,
            ),
        )
    }
}

/// Report when a body of assertions reported no failure.
///
/// A body that passes is the failure: the point of the body was to be rejected.
pub fn rejects(reported: bool, msg: &str, at: Where) -> (out: Option<Failure>)
    ensures
        out is None <==> reported,
        out matches Some(f) ==> names(f, "rejects"@, msg@, at) && f.detail@.len() == 0,
{
    if reported {
        None
    } else {
        Some(Failure::new("rejects", msg, Vec::new(), at))
    }
}

} // verus!
