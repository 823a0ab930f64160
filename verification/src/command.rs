use crate::errors::SyncError;
use crate::revision::Revision;
use vstd::prelude::*;

verus! {

/// One command queued for a folder's runner.  Each command carries the reply
/// token `ret` of the single-use channel its caller is awaiting; the token is
/// chosen by the caller, who owns the receiving end.
#[derive(Debug, PartialEq, Eq)]
pub enum FolderCommand {
    /// Apply an ordered batch of revisions through the synchronizer.
    ApplyRevisions { user_id: String, revisions: Vec<Revision>, ret: u64 },
    /// Liveness check: let the client confirm it is caught up to `rev_id`.
    Ping { user_id: String, rev_id: i64, ret: u64 },
}

impl FolderCommand {
    /// The reply token the command's caller is awaiting.
    pub open spec fn reply_id(self) -> u64 {
        match self {
            FolderCommand::ApplyRevisions { ret, .. } => ret,
            FolderCommand::Ping { ret, .. } => ret,
        }
    }
}

/// The synchronizer call a dequeued command requires of the host.
#[derive(Debug, PartialEq, Eq)]
pub enum SynchronizerRequest {
    /// Merge the batch and advance the durable revision counter.
    SyncRevisions { user_id: String, revisions: Vec<Revision> },
    /// Answer a liveness check against `rev_id`.
    Pong { user_id: String, rev_id: i64 },
}

/// What the runner places on a command's reply channel once the command is
/// fully handled.
#[derive(Debug, PartialEq, Eq)]
pub struct FolderReply {
    /// The reply token of the command being answered.
    pub ret: u64,
    /// Success, or the wrapped synchronizer failure.
    pub result: Result<(), SyncError>,
}

} // verus!
