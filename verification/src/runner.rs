//! The runner: one folder's sole sequential executor.
//!
//! Its loop belongs to the host, because each turn awaits a synchronizer
//! call: take the oldest command with `OpenFolderHandler::next_command`,
//! perform the synchronizer call `synchronizer_request_for` names, answer
//! the command's reply channel with what `complete_command` builds, and
//! repeat; stop exactly when `OpenFolderHandler::runner_finished` holds.  A
//! command failure never stops the loop, and a reply whose awaiting caller
//! is gone is simply dropped.

use crate::command::{FolderCommand, FolderReply, SynchronizerRequest};
use crate::errors::SyncError;
use vstd::prelude::*;

verus! {

/// Which synchronizer call a dequeued command requires, together with the
/// reply token of the caller awaiting that command.
pub fn synchronizer_request_for(msg: FolderCommand) -> (r: (SynchronizerRequest, u64))
    ensures
        msg matches FolderCommand::ApplyRevisions { user_id, revisions, ret }
            ==> r == ((SynchronizerRequest::SyncRevisions { user_id, revisions }), ret),
        msg matches FolderCommand::Ping { user_id, rev_id, ret }
            ==> r == ((SynchronizerRequest::Pong { user_id, rev_id }), ret),
        r.1 == msg.reply_id(),
{
    match msg {
        FolderCommand::ApplyRevisions { user_id, revisions, ret } => (
            SynchronizerRequest::SyncRevisions { user_id, revisions },
            ret,
        ),
        FolderCommand::Ping { user_id, rev_id, ret } => (
            SynchronizerRequest::Pong { user_id, rev_id },
            ret,
        ),
    }
}

/// What the runner puts on the reply channel once the synchronizer call for
/// the command awaited under `ret` has come back: success passes through,
/// and any failure is wrapped as a synchronization failure — it is answered
/// to the one caller, never propagated past the runner.
pub fn complete_command(ret: u64, sync_result: Result<(), SyncError>) -> (r: FolderReply)
    ensures
        r.ret == ret,
        sync_result is Ok ==> r.result is Ok,
        sync_result is Err ==> r.result == Err::<(), SyncError>(SyncError::SynchronizationFailure),
{
    match sync_result {
        Ok(()) => FolderReply { ret, result: Ok(()) },
        Err(_) => FolderReply { ret, result: Err(SyncError::SynchronizationFailure) },
    }
}

} // verus!
