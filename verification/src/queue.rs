use crate::command::FolderCommand;
use vstd::prelude::*;

verus! {

/// Capacity of a folder's command queue: a producer that finds the queue
/// full must wait, which bounds the memory one folder can pin.
pub const FOLDER_COMMAND_QUEUE_CAPACITY: usize = 1000;

/// What an attempt to enqueue a command came to.  A rejected command is
/// handed back to the producer, who owns it again.
pub enum SendOutcome {
    /// The command is in the queue and will be run in its turn.
    Sent,
    /// The queue is at capacity: the producer must wait for the runner to
    /// drain before retrying.
    Full(FolderCommand),
    /// The queue is closed: no runner will ever take the command.
    Closed(FolderCommand),
}

/// The bounded FIFO command queue of one folder: the channel between the
/// producers (callers of the folder's handler) and its single consumer, the
/// runner.
///
/// Beside the live contents the queue carries the history of commands the
/// runner has already taken, so the order guarantee is a stated invariant:
/// the commands handed out are exactly a prefix, in order, of the commands
/// enqueued.
pub struct CommandQueue {
    items: Vec<FolderCommand>,
    closed: bool,
    processed: Ghost<Seq<FolderCommand>>,
}

impl CommandQueue {
    /// Commands enqueued and not yet taken by the runner, oldest first.
    pub closed spec fn pending(self) -> Seq<FolderCommand> {
        self.items@
    }

    /// Commands the runner has already taken, in the order it took them.
    pub closed spec fn processed(self) -> Seq<FolderCommand> {
        self.processed@
    }

    /// Every command ever accepted, in enqueue order.
    pub open spec fn enqueued(self) -> Seq<FolderCommand> {
        self.processed() + self.pending()
    }

    /// Whether the producer side is gone: nothing can be enqueued any more.
    pub closed spec fn is_closed(self) -> bool {
        self.closed
    }

    pub open spec fn wf(self) -> bool {
        self.pending().len() <= FOLDER_COMMAND_QUEUE_CAPACITY
    }

    /// A fresh, open, empty queue.
    pub fn new() -> (q: Self)
        ensures
            q.wf(),
            q.pending() == Seq::<FolderCommand>::empty(),
            q.processed() == Seq::<FolderCommand>::empty(),
            !q.is_closed(),
    {
        CommandQueue { items: Vec::new(), closed: false, processed: Ghost(Seq::empty()) }
    }

    /// Producer side: offer a command.  It is accepted exactly when the
    /// queue is open and below capacity, and then goes to the back; a
    /// rejected command comes back unchanged and the queue is untouched.
    pub fn send(&mut self, msg: FolderCommand) -> (r: SendOutcome)
        requires
            old(self).wf(),
        ensures
            final(self).wf(),
            final(self).processed() == old(self).processed(),
            final(self).is_closed() == old(self).is_closed(),
            old(self).is_closed()
                ==> r == SendOutcome::Closed(msg) && final(self).pending() == old(self).pending(),
            !old(self).is_closed() && old(self).pending().len() >= FOLDER_COMMAND_QUEUE_CAPACITY
                ==> r == SendOutcome::Full(msg) && final(self).pending() == old(self).pending(),
            !old(self).is_closed() && old(self).pending().len() < FOLDER_COMMAND_QUEUE_CAPACITY
                ==> r == SendOutcome::Sent
                    && final(self).pending() == old(self).pending().push(msg),
    {
        if self.closed {
            SendOutcome::Closed(msg)
        } else if self.items.len() >= FOLDER_COMMAND_QUEUE_CAPACITY {
            SendOutcome::Full(msg)
        } else {
            self.items.push(msg);
            SendOutcome::Sent
        }
    }

    /// Consumer side: the runner takes the oldest pending command, which
    /// moves from the pending contents to the processed history; the enqueue
    /// history as a whole never changes here.
    pub fn recv(&mut self) -> (r: Option<FolderCommand>)
        requires
            old(self).wf(),
        ensures
            final(self).wf(),
            final(self).is_closed() == old(self).is_closed(),
            final(self).enqueued() == old(self).enqueued(),
            old(self).pending().len() == 0
                ==> r is None
                    && final(self).pending() == old(self).pending()
                    && final(self).processed() == old(self).processed(),
            old(self).pending().len() > 0
                ==> r == Some(old(self).pending()[0])
                    && final(self).pending() == old(self).pending().drop_first()
                    && final(self).processed() == old(self).processed().push(old(self).pending()[0]),
    {
        if self.items.len() == 0 {
            assert(self.enqueued() =~= self.processed() + self.pending());
            None
        } else {
            let cmd = self.items.remove(0);
            proof {
                self.processed@ = self.processed@.push(cmd);
                assert(self.items@ =~= old(self).items@.drop_first());
                assert(self.processed@ + self.items@ =~= old(self).processed@ + old(self).items@);
            }
            Some(cmd)
        }
    }

    /// The producer side is dropped: the queue closes.  Pending commands are
    /// kept — the runner still drains them — but nothing new is accepted.
    pub fn close(&mut self)
        requires
            old(self).wf(),
        ensures
            final(self).wf(),
            final(self).is_closed(),
            final(self).pending() == old(self).pending(),
            final(self).processed() == old(self).processed(),
    {
        self.closed = true;
    }

    /// How many commands are pending.
    pub fn pending_len(&self) -> (n: usize)
        ensures
            n == self.pending().len(),
    {
        self.items.len()
    }

    /// Whether the queue has been closed.
    pub fn closed(&self) -> (r: bool)
        ensures
            r == self.is_closed(),
    {
        self.closed
    }

    /// The runner's exit condition: the queue is closed and drained.
    pub fn runner_should_exit(&self) -> (r: bool)
        ensures
            r == (self.is_closed() && self.pending().len() == 0),
    {
        self.closed && self.items.len() == 0
    }

    /// FIFO law: at every point, the commands the runner has taken are
    /// exactly the oldest prefix of the enqueue history, in enqueue order,
    /// and what is still pending is exactly the rest of it, in order.
    pub proof fn lemma_fifo_order(self)
        ensures
            self.processed() =~= self.enqueued().take(self.processed().len() as int),
            self.pending() =~= self.enqueued().skip(self.processed().len() as int),
    {
    }
}

} // verus!
