use crate::command::FolderCommand;
use crate::queue::{CommandQueue, SendOutcome};
use crate::revision::{FolderInfo, Revision};
use vstd::prelude::*;

verus! {

/// The per-folder façade: it owns the folder's command queue and translates
/// calls into queued commands.  The folder's mutable document state itself
/// never lives here — it belongs to the synchronizer the host constructs
/// from the same `FolderInfo` — so the handler carries only the folder's
/// identity and the queue its runner drains.
pub struct OpenFolderHandler {
    folder_id: String,
    queue: CommandQueue,
}

impl OpenFolderHandler {
    /// The folder this handler serves.
    pub closed spec fn id(self) -> Seq<char> {
        self.folder_id@
    }

    /// Commands enqueued and not yet taken by the runner, oldest first.
    pub closed spec fn pending(self) -> Seq<FolderCommand> {
        self.queue.pending()
    }

    /// Commands the runner has already taken, in the order it took them.
    pub closed spec fn processed(self) -> Seq<FolderCommand> {
        self.queue.processed()
    }

    /// Every command this handler ever accepted, in enqueue order.
    pub open spec fn enqueued(self) -> Seq<FolderCommand> {
        self.processed() + self.pending()
    }

    /// Whether the producer side is gone and the queue closed.
    pub closed spec fn is_closed(self) -> bool {
        self.queue.is_closed()
    }

    pub closed spec fn wf(self) -> bool {
        self.queue.wf()
    }

    /// A handler for the folder the record describes, with a fresh, open,
    /// empty queue.  The record's snapshot and revision id are the host's to
    /// hand to the synchronizer it spawns the runner around.
    pub fn new(folder_info: FolderInfo) -> (h: Self)
        ensures
            h.wf(),
            h.id() == folder_info.folder_id@,
            h.pending() == Seq::<FolderCommand>::empty(),
            h.processed() == Seq::<FolderCommand>::empty(),
            !h.is_closed(),
    {
        let FolderInfo { folder_id, .. } = folder_info;
        OpenFolderHandler { folder_id, queue: CommandQueue::new() }
    }

    /// The folder's identity, for routing and acknowledgments.
    pub fn folder_id(&self) -> (r: &String)
        ensures
            r@ == self.id(),
    {
        &self.folder_id
    }

    /// Queue an `ApplyRevisions` command whose caller awaits the reply token
    /// `ret`.  Accepted exactly when the queue is open and below capacity;
    /// a rejected command is handed back whole.
    pub fn apply_revisions(&mut self, user_id: String, revisions: Vec<Revision>, ret: u64) -> (r:
        SendOutcome)
        requires
            old(self).wf(),
        ensures
            final(self).wf(),
            send_transition(
                *old(self),
                *final(self),
                (FolderCommand::ApplyRevisions { user_id, revisions, ret }),
                r,
            ),
    {
        let msg = FolderCommand::ApplyRevisions { user_id, revisions, ret };
        self.send(msg)
    }

    /// Queue a `Ping` command whose caller awaits the reply token `ret`.
    pub fn apply_ping(&mut self, rev_id: i64, user_id: String, ret: u64) -> (r: SendOutcome)
        requires
            old(self).wf(),
        ensures
            final(self).wf(),
            send_transition(
                *old(self),
                *final(self),
                (FolderCommand::Ping { user_id, rev_id, ret }),
                r,
            ),
    {
        let msg = FolderCommand::Ping { user_id, rev_id, ret };
        self.send(msg)
    }

    /// Offer one command to the folder's queue.
    pub fn send(&mut self, msg: FolderCommand) -> (r: SendOutcome)
        requires
            old(self).wf(),
        ensures
            final(self).wf(),
            send_transition(*old(self), *final(self), msg, r),
    {
        self.queue.send(msg)
    }

    /// How many commands are waiting for this folder's runner.
    pub fn pending_len(&self) -> (n: usize)
        ensures
            n == self.pending().len(),
    {
        self.queue.pending_len()
    }

    /// Whether this handler's queue has been closed.
    pub fn queue_closed(&self) -> (r: bool)
        ensures
            r == self.is_closed(),
    {
        self.queue.closed()
    }

    /// Consumer side: the runner takes the oldest pending command.  The
    /// enqueue history never changes here, only the split between pending
    /// and processed.
    pub fn next_command(&mut self) -> (r: Option<FolderCommand>)
        requires
            old(self).wf(),
        ensures
            final(self).wf(),
            final(self).id() == old(self).id(),
            final(self).is_closed() == old(self).is_closed(),
            final(self).enqueued() == old(self).enqueued(),
            old(self).pending().len() == 0
                ==> r is None
                    && final(self).pending() == old(self).pending()
                    && final(self).processed() == old(self).processed(),
            old(self).pending().len() > 0
                ==> r == Some(old(self).pending()[0])
                    && final(self).pending() == old(self).pending().drop_first()
                    && final(self).processed() == old(self).processed().push(
                    old(self).pending()[0],
                ),
    {
        self.queue.recv()
    }

    /// The producer side is dropped: the queue closes.  The runner still
    /// drains what is pending, then finds the queue empty and closed and
    /// terminates.
    pub fn close(&mut self)
        requires
            old(self).wf(),
        ensures
            final(self).wf(),
            final(self).id() == old(self).id(),
            final(self).is_closed(),
            final(self).pending() == old(self).pending(),
            final(self).processed() == old(self).processed(),
    {
        self.queue.close()
    }

    /// The runner's exit condition: true exactly when the queue is closed
    /// and drained.  A runner that sees this stops cleanly; queue closure is
    /// the only thing that ever stops it.
    pub fn runner_finished(&self) -> (r: bool)
        ensures
            r == (self.is_closed() && self.pending().len() == 0),
    {
        self.queue.runner_should_exit()
    }

    /// FIFO law: the commands the runner has taken are exactly the oldest
    /// prefix of this handler's enqueue history, in enqueue order, and the
    /// pending commands are exactly the rest of it, in order.  Commands for
    /// one folder are therefore applied in strict enqueue order.
    pub proof fn lemma_runs_in_enqueue_order(self)
        ensures
            self.processed() =~= self.enqueued().take(self.processed().len() as int),
            self.pending() =~= self.enqueued().skip(self.processed().len() as int),
    {
    }
}

/// How one `send` call relates the handler state before and after it: the
/// command is appended exactly when the queue is open and below capacity,
/// and a rejected command comes back whole while nothing changes.
pub open spec fn send_transition(
    pre: OpenFolderHandler,
    post: OpenFolderHandler,
    msg: FolderCommand,
    r: SendOutcome,
) -> bool {
    &&& post.id() == pre.id()
    &&& post.processed() == pre.processed()
    &&& post.is_closed() == pre.is_closed()
    &&& pre.is_closed() ==> r == SendOutcome::Closed(msg) && post.pending() == pre.pending()
    &&& !pre.is_closed() && pre.pending().len() >= crate::queue::FOLDER_COMMAND_QUEUE_CAPACITY
        ==> r == SendOutcome::Full(msg) && post.pending() == pre.pending()
    &&& !pre.is_closed() && pre.pending().len() < crate::queue::FOLDER_COMMAND_QUEUE_CAPACITY
        ==> r == SendOutcome::Sent && post.pending() == pre.pending().push(msg)
}

} // verus!
