//! Whether a failure stops the test or is recorded.
use vstd::prelude::*;

verus! {

/// Whether a failure stops the test or is recorded.
#[derive(Debug, Clone, Copy, PartialEq, Eq, Structural)]
pub enum Mode {
    /// Stop the test at this failure.
    Fatal,
    /// Record the failure and carry on.
    Soft,
}

impl Mode {
    /// Whether a failure under this mode stops the test.
    pub fn aborts(self) -> (stops: bool)
        ensures
            stops == (self == Mode::Fatal),
    {
        match self {
            Mode::Fatal => true,
            Mode::Soft => false,
        }
    }
}

} // verus!
