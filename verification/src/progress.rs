//! What one poll reports.

use vstd::prelude::*;

verus! {

/// The outcome of one poll of a timer.
#[derive(Clone, Copy, Debug, PartialEq, Eq, Structural)]
pub enum Progress {
    /// Nothing to report yet: poll again once the timer descriptor is readable.
    Pending,
    /// A delay has completed, or an interval has ticked.
    Ready,
}

impl Progress {
    /// Whether the poll reported a completion or a tick.
    pub fn is_ready(self) -> (r: bool)
        ensures
            r == (self is Ready),
    {
        match self {
            Progress::Ready => true,
            Progress::Pending => false,
        }
    }
}

} // verus!
