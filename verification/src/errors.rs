use vstd::prelude::*;

verus! {

/// Failures surfaced by the routing layer to a caller of the manager's entry
/// points.
///
/// A ping for a folder that was never opened server-side is not an error: it
/// is answered with success and surfaces nowhere.
#[derive(Clone, Copy, Debug, PartialEq, Eq, Structural)]
pub enum SyncError {
    /// An explicit create request produced no record from persistence: the
    /// folder already exists or the request was rejected.
    CreateConflict,
    /// The command queue was closed or a reply channel was dropped before it
    /// answered: the runner for the folder is gone.
    RoutingFailure,
    /// The synchronizer rejected or failed to merge the submitted revisions.
    /// No retry is attempted at this layer.
    SynchronizationFailure,
}

} // verus!
