//! Assertions that retry, and the one that checks nothing was left running.
//!
//! They are for a condition something outside the test makes true. The retrying itself
//! runs wherever the body and the clock are; each step it takes is decided here, from the
//! readings it hands over, all in nanoseconds.
use crate::failure::{is_count, is_said, names, Detail, Failure, Where};
use crate::matcher::behaviour::{millis, millis_text};
use crate::words::{decimal, push_decimal, push_text};
use vstd::prelude::*;
use vstd::string::*;

verus! {

/// The largest number of nanoseconds a `Duration` holds.
pub const MAX_DURATION_NANOS: u128 = 18_446_744_073_709_551_615_999_999_999;

/// The shortest wait between attempts: a millisecond.
pub const SHORTEST_WAIT: u128 = 1_000_000;

/// What to do after an attempt.
#[derive(Debug, Clone, Copy, PartialEq, Eq, Structural)]
pub enum Step {
    /// The attempt passed: stop, reporting nothing.
    Passed,
    /// The attempt failed after the deadline: stop, reporting the failure.
    GiveUp,
    /// The attempt failed before the deadline: wait, then try again.
    Retry,
}

/// Decide what follows an attempt, from whether it failed and when it ended.
///
/// A passing attempt ends the wait however late it came, which is why the body runs at
/// least once however short the timeout. A failing one is retried until the clock has
/// passed the deadline.
pub fn after_attempt(failed: bool, now: u128, deadline: u128) -> (step: Step)
    ensures
        step == if !failed {
            Step::Passed
        } else if now > deadline {
            Step::GiveUp
        } else {
            Step::Retry
        },
{
    if !failed {
        Step::Passed
    } else if now > deadline {
        Step::GiveUp
    } else {
        Step::Retry
    }
}

/// The moment a wait that started at `now` gives up.
pub fn deadline_of(now: u128, timeout: u128) -> (deadline: u128)
    requires
        now <= MAX_DURATION_NANOS,
        timeout <= MAX_DURATION_NANOS,
    ensures
        deadline == now + timeout,
{
    now + timeout
}

/// How long to wait between attempts: the interval asked for, but never less than a
/// millisecond, so a zero interval does not spin.
pub fn interval_wait(interval: u128) -> (wait: u128)
    ensures
        wait == if interval < SHORTEST_WAIT { SHORTEST_WAIT } else { interval },
{
    if interval < SHORTEST_WAIT {
        SHORTEST_WAIT
    } else {
        interval
    }
}

/// How much of a wait is still to be slept after the clock was moved forward by `moved`.
///
/// A clock a test controls moves the whole wait when advanced, so nothing is left to
/// sleep; the platform clock ignores an advance, so the whole wait is left.
pub fn left_to_sleep(wait: u128, moved: u128) -> (left: u128)
    ensures
        left == if moved < wait { wait - moved } else { 0 },
{
    if moved < wait {
        wait - moved
    } else {
        0
    }
}

/// The most a backoff grows to: a quarter of the timeout, but never less than a
/// millisecond.
pub open spec fn backoff_ceiling(timeout: nat) -> nat {
    if timeout / 4 < SHORTEST_WAIT { SHORTEST_WAIT as nat } else { timeout / 4 }
}

/// The backoff after the given one: doubled, capped at a quarter of the timeout, so the
/// last attempts are not one long sleep.
pub fn next_backoff(backoff: u128, timeout: u128) -> (next: u128)
    requires
        backoff <= backoff_ceiling(timeout as nat),
    ensures
        next == if 2 * backoff < backoff_ceiling(timeout as nat) {
            2 * backoff
        } else {
            backoff_ceiling(timeout as nat) as int
        },
{
    let quarter = timeout / 4;
    let ceiling = if quarter < SHORTEST_WAIT { SHORTEST_WAIT } else { quarter };
    let doubled = backoff * 2;
    if doubled < ceiling {
        doubled
    } else {
        ceiling
    }
}

/// The backoff starts at a millisecond and only grows from there: once inside its bounds,
/// the next backoff stays inside them, never shrinks, and never passes the ceiling.
pub proof fn lemma_backoff_stays_in_bounds(backoff: nat, timeout: nat)
    requires
        SHORTEST_WAIT <= backoff <= backoff_ceiling(timeout),
    ensures
        ({
            let next: nat = if 2 * backoff < backoff_ceiling(timeout) {
                2 * backoff
            } else {
                backoff_ceiling(timeout)
            };
            &&& SHORTEST_WAIT <= next <= backoff_ceiling(timeout)
            &&& backoff <= next
        }),
{
}

/// What a body of assertions that never passed reports: how long it was given, how many
/// attempts it had, and the last attempt's own reason, unchanged.
pub fn still_failing(timeout: u128, attempts: usize, last: &str, msg: &str, at: Where) -> (f: Failure)
    ensures
        names(f, "eventually"@, msg@, at),
        f.detail@.len() == 3,
        f.detail@[0].0@ == "timeout"@ && is_said(f.detail@[0].1, millis_text(timeout as nat)),
        f.detail@[1].0@ == "attempts"@ && is_count(f.detail@[1].1, attempts as nat),
        f.detail@[2].0@ == "last"@ && is_said(f.detail@[2].1, last@),
{
    Failure::new(
        "eventually",
        msg,
        vec![
            ("timeout", Detail::Said(millis(timeout))),
            ("attempts", Detail::Count(attempts)),
            ("last", Detail::Said(last.to_owned())),
        ],
        at,
    )
}

/// What a predicate that never held reports: how long it was given and how many attempts
/// it had.
pub fn still_false(timeout: u128, attempts: usize, msg: &str, at: Where) -> (f: Failure)
    ensures
        names(f, "eventually-true"@, msg@, at),
        f.detail@.len() == 2,
        f.detail@[0].0@ == "timeout"@ && is_said(f.detail@[0].1, millis_text(timeout as nat)),
        f.detail@[1].0@ == "attempts"@ && is_count(f.detail@[1].1, attempts as nat),
{
    Failure::new(
        "eventually-true",
        msg,
        vec![("timeout", Detail::Said(millis(timeout))), ("attempts", Detail::Count(attempts))],
        at,
    )
}

/// The sentence a surface that reports text writes for a body that never passed.
pub fn still_failing_text(timeout: u128, attempts: usize, last: &str, msg: &str) -> (out: String)
    ensures
        out@ == msg@ + ": still failing after "@ + millis_text(timeout as nat) + " and "@
            + decimal(attempts as nat) + " attempts: "@ + last@,
{
    let mut out = msg.to_owned();
    push_text(&mut out, ": still failing after ");
    push_text(&mut out, millis(timeout).as_str());
    push_text(&mut out, " and ");
    push_decimal(&mut out, attempts as u128);
    push_text(&mut out, " attempts: ");
    push_text(&mut out, last);
    out
}

/// The sentence a surface that reports text writes for a predicate that never held.
pub fn still_false_text(timeout: u128, attempts: usize, msg: &str) -> (out: String)
    ensures
        out@ == msg@ + ": still false after "@ + millis_text(timeout as nat) + " and "@
            + decimal(attempts as nat) + " attempts"@,
{
    let mut out = msg.to_owned();
    push_text(&mut out, ": still false after ");
    push_text(&mut out, millis(timeout).as_str());
    push_text(&mut out, " and ");
    push_decimal(&mut out, attempts as u128);
    push_text(&mut out, " attempts");
    out
}

/// Report when more tasks are alive after a body than before it: each one the body left
/// running outlived it.
pub fn leaked_tasks(before: usize, after: usize, msg: &str) -> (out: Option<String>)
    ensures
        out is None <==> after <= before,
        out matches Some(m) ==> m@ == msg@ + ": "@ + decimal((after - before) as nat) + " task(s) still running"@,
{
    if after > before {
        let mut m = msg.to_owned();
        push_text(&mut m, ": ");
        push_decimal(&mut m, (after - before) as u128);
        push_text(&mut m, " task(s) still running");
        Some(m)
    } else {
        None
    }
}

} // verus!
