//! Where an assertion reads time.
//!
//! An assertion that waits, retries or measures reads a clock the seat carries rather
//! than calling the platform, so a test can supply time it controls and a busy machine
//! cannot make the assertion flaky.
//!
//! Time is the one thing no clause here can fix: the platform clock moves on its own, and
//! a controlled clock is one atomic that any thread may move. What each reading answers is
//! therefore stated nowhere; what is stated is how the two clocks are made, and where one
//! advance moves a controlled reading.
use std::sync::atomic::{AtomicU64, Ordering};
use std::time::{Duration, Instant};
use vstd::prelude::*;

verus! {

#[verifier::external_type_specification]
#[verifier::external_body]
pub struct ExInstant(std::time::Instant);

/// `Instant::now` reads the platform's monotonic clock; nothing is claimed of what it reads.
pub assume_specification[ std::time::Instant::now ]() -> std::time::Instant;

/// `Duration::from_nanos` builds a duration of that many nanoseconds; a duration has no
/// model here, so nothing is claimed of it.
pub assume_specification[ core::time::Duration::from_nanos ](nanos: u64) -> core::time::Duration;

/// `Duration::as_nanos` counts a duration in whole nanoseconds; a duration has no model
/// here, so nothing is claimed of the count.
pub assume_specification[ core::time::Duration::as_nanos ](duration: &core::time::Duration) -> u128;

/// Reads the platform clock.
///
/// This is what an assertion gets when the seat carries no other, so an assertion that
/// reads time behaves as it did before a clock existed.
#[derive(Debug)]
pub struct System {
    /// When this clock started, or `None` for the shared one, which reads from the
    /// process rather than from a moment a caller chose.
    started: Option<Instant>,
}

impl System {
    /// Whether this clock reads from the process's origin rather than its own start.
    pub closed spec fn is_shared(&self) -> bool {
        self.started is None
    }

    /// Return a clock reading the platform, from now.
    pub fn new() -> (clock: Self)
        ensures
            !clock.is_shared(),
    {
        System { started: Some(Instant::now()) }
    }

    /// The clock a seat gets when it supplies none.
    pub fn shared() -> (clock: Self)
        ensures
            clock.is_shared(),
    {
        System { started: None }
    }

    /// When this clock started, or `None` for the shared one.
    pub fn started(&self) -> (at: Option<Instant>)
        ensures
            at is None <==> self.is_shared(),
    {
        self.started
    }
}

impl Default for System {
    fn default() -> Self {
        System::new()
    }
}

/// A clock that moves only when a test advances it.
///
/// [`Controlled::now`] answers what [`Controlled::advance`] last left it at. An assertion
/// that retries advances this clock between attempts rather than sleeping against it, so a
/// body that settles on the third attempt costs three attempts and no waiting.
///
/// A controlled clock cannot reach the subject: code under test that calls the platform
/// directly reads a different now, and nothing here detects that. The reading is held in
/// whole nanoseconds, so it stops at the largest count that fits, some five centuries of
/// controlled time, rather than wrapping.
#[derive(Debug, Default)]
pub struct Controlled {
    instant: AtomicU64,
}

impl Controlled {
    /// Return a clock reading zero until it is advanced.
    pub fn new() -> Self {
        Controlled { instant: AtomicU64::new(0) }
    }

    /// How far this clock has been advanced.
    pub fn now(&self) -> Duration {
        Duration::from_nanos(self.instant.load(Ordering::SeqCst))
    }

    /// How far this clock has been advanced, in nanoseconds.
    pub fn now_nanos(&self) -> u64 {
        self.instant.load(Ordering::SeqCst)
    }

    /// Move the clock forward. An empty advance moves nothing.
    ///
    /// Each attempt reads the reading and exchanges it for [`advanced`] of what it read,
    /// as [`step_within`] states; an exchange that finds the reading changed under it
    /// reads again and retries. The reading itself is the atomic's, which no clause here
    /// states.
    pub fn advance(&self, duration: Duration) {
        let wanted = duration.as_nanos();
        if wanted == 0 {
            return;
        }
        let mut tries: u64 = 0;
        while tries < u64::MAX
            decreases u64::MAX - tries,
        {
            let held = self.instant.load(Ordering::SeqCst);
            let next = held + step_within(wanted, held);
            match self.instant.compare_exchange(held, next, Ordering::SeqCst, Ordering::SeqCst) {
                Ok(_) => return,
                Err(_) => {},
            }
            tries += 1;
        }
    }
}

/// Where a reading of `held` nanoseconds moves when advanced by `wanted` more: their sum,
/// or the largest count a reading holds when the sum would not fit.
pub open spec fn advanced(held: nat, wanted: nat) -> nat {
    if held + wanted <= u64::MAX { held + wanted } else { u64::MAX as nat }
}

/// How far a reading of `held` nanoseconds can move towards `wanted` more without passing
/// the largest count a reading holds.
pub fn step_within(wanted: u128, held: u64) -> (step: u64)
    ensures
        step == if wanted < u64::MAX - held { wanted } else { (u64::MAX - held) as u128 },
        held + step == advanced(held as nat, wanted as nat),
{
    let room = u64::MAX - held;
    if wanted < room as u128 {
        wanted as u64
    } else {
        room
    }
}

/// Advancing never moves a reading backwards, an empty advance moves nothing, and two
/// advances in a row land where one advance by their sum does.
pub proof fn lemma_advances_add_up(held: nat, first: nat, second: nat)
    requires
        held <= u64::MAX,
    ensures
        held <= advanced(held, first),
        advanced(held, 0) == held,
        advanced(advanced(held, first), second) == advanced(held, first + second),
{
}

} // verus!
