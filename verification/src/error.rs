//! The error taxonomy of the orchestration pipeline.

use vstd::prelude::*;

verus! {

/// The failure kinds a build or removal can surface, one per pipeline stage.
/// No failure is silently recovered: every stage failure aborts the rest of
/// the pipeline and reaches the caller as one of these.
#[derive(Clone, Copy, Debug, PartialEq, Eq, Structural)]
pub enum Error {
    /// The image-pull stream reported an error, or the image reference is
    /// invalid or unreachable.
    PullFailed,
    /// The runtime rejected resource creation (name collision, invalid
    /// configuration, quota).
    CreateFailed,
    /// The resource was created but could not transition to running.
    StartFailed,
    /// The resource is running but its state could not be retrieved.
    InspectFailed,
    /// Forced removal was rejected, or the resource was already absent.
    DeleteFailed,
}

/// Maps the outcome of a forced-removal request: a removal the runtime
/// rejected — including one whose resource was already removed out-of-band —
/// surfaces as [`Error::DeleteFailed`]; nothing is masked as a no-op.
pub fn removal_outcome(removed: bool) -> (r: Result<(), Error>)
    ensures
        r is Ok <==> removed,
        r matches Err(e) ==> e == Error::DeleteFailed,
{
    if removed {
        Ok(())
    } else {
        Err(Error::DeleteFailed)
    }
}

} // verus!
