//! The lifecycle status of the job slot.

use vstd::prelude::*;

verus! {

/// Where the job slot currently stands in its lifecycle.
///
/// `Idle` marks a free slot and is never part of a response handed to a
/// caller; the remaining variants describe a live or finished job.
#[derive(Clone, Copy, Debug, PartialEq, Eq, Structural)]
pub enum Status {
    Idle,
    Failed,
    Starting,
    Canceled,
    Succeeded,
    Processing,
}

impl Status {
    /// A terminal status: the job is over and a response can be consumed.
    pub open spec fn is_terminal(self) -> bool {
        self is Succeeded || self is Failed || self is Canceled
    }

    /// Executable twin of [`Status::is_terminal`].
    pub fn terminal(&self) -> (r: bool)
        ensures
            r == self.is_terminal(),
    {
        matches!(*self, Status::Succeeded | Status::Failed | Status::Canceled)
    }
}

} // verus!
