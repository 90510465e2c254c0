use vstd::prelude::*;

verus! {

/// Where a job stands in its lifecycle.
#[derive(Debug, Clone, Copy, PartialEq, Eq, Structural)]
pub enum Status {
    /// Waiting in the queue for a worker to claim it.
    QUEUED,
    /// Claimed by a worker; processing has been started.
    RUNNING,
    /// Processing did not report back before the timeout.
    LOST,
    /// Processing returned a result.
    FINISHED,
    /// Processing returned an error.
    FAILED,
}

} // verus!
