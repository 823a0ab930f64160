use crate::command::FolderCommand;
use crate::errors::SyncError;
use crate::handler::{send_transition, OpenFolderHandler};
use crate::queue::{SendOutcome, FOLDER_COMMAND_QUEUE_CAPACITY};
use crate::revision::{ClientRevisionWSData, FolderInfo, ServerRevisionWSData};
use vstd::prelude::*;

verus! {

/// The top-level registry: one handler per open folder, looked up by folder
/// id.  The registry is insert-only; a folder's handler, once registered, is
/// the single route to that folder's runner.
///
/// The registry's two collaborators stay with the host: persistence, asked
/// to read or create durable folder records, and the per-folder
/// synchronizer.  Every entry point here that needs a collaborator's answer
/// takes it as an argument and decides what it means for the registry.
pub struct ServerFolderManager {
    folder_handlers: Vec<OpenFolderHandler>,
}

/// What routing an inbound revision batch came to, and what the host must
/// do next.
#[derive(Debug, PartialEq, Eq)]
pub enum RevisionStep {
    /// The folder's handler accepted the command; await the reply token.
    Enqueued { handler: usize },
    /// The folder's queue is at capacity: retry with the same message once
    /// the runner has drained.
    Busy { client_data: ClientRevisionWSData },
    /// The call's result is already decided.
    Done { result: Result<(), SyncError> },
    /// No handler is registered: ask persistence to read the folder, then
    /// continue with `resolve_revisions_read`.
    NeedsFolder { client_data: ClientRevisionWSData },
    /// The folder does not exist durably either: ask persistence to create
    /// it from the batch, then continue with `create_folder`.
    NeedsCreate { client_data: ClientRevisionWSData },
}

/// What routing an inbound ping came to, and what the host must do next.
#[derive(Debug, PartialEq, Eq)]
pub enum PingStep {
    /// The folder's handler accepted the command; await the reply token.
    Enqueued { handler: usize },
    /// The folder's queue is at capacity: retry once the runner has
    /// drained.
    Busy,
    /// The call's result is already decided.
    Done { result: Result<(), SyncError> },
    /// No handler is registered: ask persistence to read the folder, then
    /// continue with `resolve_ping_read`.
    NeedsFolder,
}

impl ServerFolderManager {
    /// The registered handlers, in registration order.
    pub closed spec fn handlers(self) -> Seq<OpenFolderHandler> {
        self.folder_handlers@
    }

    /// Registry invariant: folder ids are unique — at most one live handler
    /// per folder — and every handler is well-formed.
    pub open spec fn wf(self) -> bool {
        &&& forall|i: int, j: int|
            #![trigger self.handlers()[i].id(), self.handlers()[j].id()]
            0 <= i < j < self.handlers().len() ==> self.handlers()[i].id()
                != self.handlers()[j].id()
        &&& forall|i: int| 0 <= i < self.handlers().len() ==> (#[trigger] self.handlers()[i]).wf()
    }

    /// Whether a handler for the folder is registered.
    pub open spec fn has_handler(self, id: Seq<char>) -> bool {
        exists|i: int| 0 <= i < self.handlers().len() && (#[trigger] self.handlers()[i]).id() == id
    }

    /// The index of the folder's handler, when one is registered.
    pub open spec fn handler_index_of(self, id: Seq<char>) -> int {
        choose|i: int|
            0 <= i < self.handlers().len() && (#[trigger] self.handlers()[i]).id() == id
    }

    /// At most one live handler exists per folder id.
    pub proof fn lemma_at_most_one_handler(self, i: int, j: int)
        requires
            self.wf(),
            0 <= i < self.handlers().len(),
            0 <= j < self.handlers().len(),
            self.handlers()[i].id() == self.handlers()[j].id(),
        ensures
            i == j,
    {
    }

    /// A manager with an empty registry.
    pub fn new() -> (m: Self)
        ensures
            m.wf(),
            m.handlers().len() == 0,
    {
        ServerFolderManager { folder_handlers: Vec::new() }
    }

    /// Registry lookup — the shared fast path of every entry point.  `None`
    /// is the normal representation of "not yet opened", never an error; the
    /// caller then consults persistence.
    pub fn get_folder_handler(&self, folder_id: &String) -> (r: Option<usize>)
        ensures
            r matches Some(i) ==> (i as int) < self.handlers().len() && self.handlers()[
                i as int
            ].id() == folder_id@,
            r is Some <==> self.has_handler(folder_id@),
    {
        let n = self.folder_handlers.len();
        let mut k: usize = 0;
        while k < n
            invariant
                n == self.handlers().len(),
                k <= n,
                forall|j: int| 0 <= j < k ==> (#[trigger] self.handlers()[j]).id() != folder_id@,
            decreases n - k,
        {
            if *self.folder_handlers[k].folder_id() == *folder_id {
                return Some(k);
            }
            k += 1;
        }
        None
    }

    /// Register a handler for the record's folder.  First touch wins: if a
    /// handler for the id already exists — two callers raced through the
    /// registry miss — the existing handler is kept and returned, and the
    /// registry does not change; otherwise a fresh handler is appended.
    /// Either way exactly one handler serves the folder afterwards, and no
    /// other folder's handler is disturbed.
    pub fn create_folder_handler(&mut self, folder_info: FolderInfo) -> (i: usize)
        requires
            old(self).wf(),
        ensures
            final(self).wf(),
            (i as int) < final(self).handlers().len(),
            final(self).handlers()[i as int].id() == folder_info.folder_id@,
            final(self).has_handler(folder_info.folder_id@),
            forall|j: int|
                0 <= j < old(self).handlers().len() ==> final(self).handlers()[j] == old(self).handlers()[j],
            old(self).has_handler(folder_info.folder_id@) ==> final(self).handlers() == old(self).handlers(),
            !old(self).has_handler(folder_info.folder_id@) ==> {
                &&& i as int == old(self).handlers().len()
                &&& final(self).handlers().len() == old(self).handlers().len() + 1
                &&& final(self).handlers()[i as int].pending() == Seq::<FolderCommand>::empty()
                &&& final(self).handlers()[i as int].processed() == Seq::<FolderCommand>::empty()
                &&& !final(self).handlers()[i as int].is_closed()
            },
    {
        match self.get_folder_handler(&folder_info.folder_id) {
            Some(i) => i,
            None => {
                let h = OpenFolderHandler::new(folder_info);
                self.folder_handlers.push(h);
                self.folder_handlers.len() - 1
            },
        }
    }

    /// Offer one command to the handler at index `i`; no other handler is
    /// touched.
    fn send_at(&mut self, i: usize, msg: FolderCommand) -> (r: SendOutcome)
        requires
            old(self).wf(),
            (i as int) < old(self).handlers().len(),
        ensures
            final(self).wf(),
            final(self).handlers().len() == old(self).handlers().len(),
            forall|j: int|
                0 <= j < old(self).handlers().len() && j != i as int ==> final(self).handlers()[j]
                    == old(self).handlers()[j],
            send_transition(
                old(self).handlers()[i as int],
                final(self).handlers()[i as int],
                msg,
                r,
            ),
    {
        let h = &mut self.folder_handlers[i];
        h.send(msg)
    }

    /// Translate a revision batch into an `ApplyRevisions` command for the
    /// handler at index `i` and offer it to that handler's queue.
    fn enqueue_revisions_at(
        &mut self,
        i: usize,
        user_id: &String,
        client_data: ClientRevisionWSData,
        ret: u64,
    ) -> (r: RevisionStep)
        requires
            old(self).wf(),
            (i as int) < old(self).handlers().len(),
        ensures
            final(self).wf(),
            final(self).handlers().len() == old(self).handlers().len(),
            forall|j: int|
                0 <= j < old(self).handlers().len() && j != i as int ==> final(self).handlers()[j]
                    == old(self).handlers()[j],
            final(self).handlers()[i as int].id() == old(self).handlers()[i as int].id(),
            final(self).handlers()[i as int].processed() == old(self).handlers()[
                i as int
            ].processed(),
            final(self).handlers()[i as int].is_closed() == old(self).handlers()[
                i as int
            ].is_closed(),
            old(self).handlers()[i as int].is_closed() ==> r == (RevisionStep::Done {
                result: Err::<(), SyncError>(SyncError::RoutingFailure),
            }) && final(self).handlers()[i as int].pending() == old(self).handlers()[
                i as int
            ].pending(),
            !old(self).handlers()[i as int].is_closed() && old(self).handlers()[
                i as int
            ].pending().len() >= FOLDER_COMMAND_QUEUE_CAPACITY ==> r == (RevisionStep::Busy {
                client_data,
            }) && final(self).handlers()[i as int].pending() == old(self).handlers()[
                i as int
            ].pending(),
            !old(self).handlers()[i as int].is_closed() && old(self).handlers()[
                i as int
            ].pending().len() < FOLDER_COMMAND_QUEUE_CAPACITY ==> r == (RevisionStep::Enqueued {
                handler: i,
            }) && final(self).handlers()[i as int].pending() == old(self).handlers()[
                i as int
            ].pending().push(
                (FolderCommand::ApplyRevisions {
                    user_id: *user_id,
                    revisions: client_data.revisions,
                    ret,
                }),
            ),
    {
        if self.folder_handlers[i].queue_closed() {
            return RevisionStep::Done { result: Err(SyncError::RoutingFailure) };
        }
        if self.folder_handlers[i].pending_len() >= FOLDER_COMMAND_QUEUE_CAPACITY {
            return RevisionStep::Busy { client_data };
        }
        let revisions = client_data.revisions;
        let msg = FolderCommand::ApplyRevisions { user_id: user_id.clone(), revisions, ret };
        let out = self.send_at(i, msg);
        match out {
            SendOutcome::Sent => RevisionStep::Enqueued { handler: i },
            _ => {
                proof {
                    assert(false);
                }
                RevisionStep::Done { result: Err(SyncError::RoutingFailure) }
            },
        }
    }

    /// Translate a ping into a `Ping` command for the handler at index `i`
    /// and offer it to that handler's queue.
    fn enqueue_ping_at(&mut self, i: usize, user_id: &String, rev_id: i64, ret: u64) -> (r:
        PingStep)
        requires
            old(self).wf(),
            (i as int) < old(self).handlers().len(),
        ensures
            final(self).wf(),
            final(self).handlers().len() == old(self).handlers().len(),
            forall|j: int|
                0 <= j < old(self).handlers().len() && j != i as int ==> final(self).handlers()[j]
                    == old(self).handlers()[j],
            final(self).handlers()[i as int].id() == old(self).handlers()[i as int].id(),
            final(self).handlers()[i as int].processed() == old(self).handlers()[
                i as int
            ].processed(),
            final(self).handlers()[i as int].is_closed() == old(self).handlers()[
                i as int
            ].is_closed(),
            old(self).handlers()[i as int].is_closed() ==> r == (PingStep::Done {
                result: Err::<(), SyncError>(SyncError::RoutingFailure),
            }) && final(self).handlers()[i as int].pending() == old(self).handlers()[
                i as int
            ].pending(),
            !old(self).handlers()[i as int].is_closed() && old(self).handlers()[
                i as int
            ].pending().len() >= FOLDER_COMMAND_QUEUE_CAPACITY ==> r == PingStep::Busy && final(self).handlers()[i as int].pending() == old(self).handlers()[i as int].pending(),
            !old(self).handlers()[i as int].is_closed() && old(self).handlers()[
                i as int
            ].pending().len() < FOLDER_COMMAND_QUEUE_CAPACITY ==> r == (PingStep::Enqueued {
                handler: i,
            }) && final(self).handlers()[i as int].pending() == old(self).handlers()[
                i as int
            ].pending().push((FolderCommand::Ping { user_id: *user_id, rev_id, ret })),
    {
        if self.folder_handlers[i].queue_closed() {
            return PingStep::Done { result: Err(SyncError::RoutingFailure) };
        }
        if self.folder_handlers[i].pending_len() >= FOLDER_COMMAND_QUEUE_CAPACITY {
            return PingStep::Busy;
        }
        let msg = FolderCommand::Ping { user_id: user_id.clone(), rev_id, ret };
        let out = self.send_at(i, msg);
        match out {
            SendOutcome::Sent => PingStep::Enqueued { handler: i },
            _ => {
                proof {
                    assert(false);
                }
                PingStep::Done { result: Err(SyncError::RoutingFailure) }
            },
        }
    }

    /// Route an inbound revision batch.  With a registered handler the
    /// batch becomes an `ApplyRevisions` command on that folder's queue and
    /// no other folder is touched; on a registry miss nothing changes and
    /// the batch comes back with the instruction to consult persistence.
    pub fn handle_client_revisions(
        &mut self,
        user_id: &String,
        client_data: ClientRevisionWSData,
        ret: u64,
    ) -> (r: RevisionStep)
        requires
            old(self).wf(),
        ensures
            final(self).wf(),
            final(self).handlers().len() == old(self).handlers().len(),
            forall|j: int|
                0 <= j < old(self).handlers().len() && (#[trigger] old(self).handlers()[j]).id()
                    != client_data.object_id@ ==> final(self).handlers()[j] == old(self).handlers()[j],
            !old(self).has_handler(client_data.object_id@) ==> r == (RevisionStep::NeedsFolder {
                client_data,
            }) && final(self).handlers() == old(self).handlers(),
            old(self).has_handler(client_data.object_id@) ==> ({
                let i = old(self).handler_index_of(client_data.object_id@);
                let h0 = old(self).handlers()[i];
                let h1 = final(self).handlers()[i];
                &&& h1.id() == h0.id()
                &&& h1.processed() == h0.processed()
                &&& h1.is_closed() == h0.is_closed()
                &&& h0.is_closed() ==> r == (RevisionStep::Done {
                    result: Err::<(), SyncError>(SyncError::RoutingFailure),
                }) && h1.pending() == h0.pending()
                &&& !h0.is_closed() && h0.pending().len() >= FOLDER_COMMAND_QUEUE_CAPACITY ==> r
                    == (RevisionStep::Busy { client_data }) && h1.pending() == h0.pending()
                &&& !h0.is_closed() && h0.pending().len() < FOLDER_COMMAND_QUEUE_CAPACITY ==> r
                    == (RevisionStep::Enqueued { handler: i as usize }) && h1.pending()
                    == h0.pending().push(
                    (FolderCommand::ApplyRevisions {
                        user_id: *user_id,
                        revisions: client_data.revisions,
                        ret,
                    }),
                )
            }),
    {
        let found = self.get_folder_handler(&client_data.object_id);
        match found {
            None => RevisionStep::NeedsFolder { client_data },
            Some(i) => {
                proof {
                    let k = old(self).handler_index_of(client_data.object_id@);
                    assert(old(self).has_handler(client_data.object_id@));
                    old(self).lemma_at_most_one_handler(i as int, k);
                }
                self.enqueue_revisions_at(i, user_id, client_data, ret)
            },
        }
    }

    /// Decision after a revision batch missed the registry and the host
    /// asked persistence to read the folder.  A record registers the
    /// folder's handler — first touch wins — and the batch is queued for
    /// it; a failed read means the folder must be created from the batch
    /// itself, and nothing changes yet.
    pub fn resolve_revisions_read(
        &mut self,
        user_id: &String,
        client_data: ClientRevisionWSData,
        ret: u64,
        read_result: Option<FolderInfo>,
    ) -> (r: RevisionStep)
        requires
            old(self).wf(),
            read_result matches Some(info) ==> info.folder_id@ == client_data.object_id@,
        ensures
            final(self).wf(),
            forall|j: int|
                0 <= j < old(self).handlers().len() && (#[trigger] old(self).handlers()[j]).id()
                    != client_data.object_id@ ==> final(self).handlers()[j] == old(self).handlers()[j],
            read_result is None ==> r == (RevisionStep::NeedsCreate { client_data }) && final(self).handlers() == old(self).handlers(),
            read_result is Some && !old(self).has_handler(client_data.object_id@) ==> ({
                let i = old(self).handlers().len() as int;
                &&& r == (RevisionStep::Enqueued { handler: i as usize })
                &&& final(self).handlers().len() == i + 1
                &&& final(self).handlers()[i].id() == client_data.object_id@
                &&& final(self).handlers()[i].pending() == seq![
                    (FolderCommand::ApplyRevisions {
                        user_id: *user_id,
                        revisions: client_data.revisions,
                        ret,
                    }),
                ]
                &&& final(self).handlers()[i].processed() == Seq::<FolderCommand>::empty()
                &&& !final(self).handlers()[i].is_closed()
            }),
            read_result is Some && old(self).has_handler(client_data.object_id@) ==> ({
                let i = old(self).handler_index_of(client_data.object_id@);
                let h0 = old(self).handlers()[i];
                let h1 = final(self).handlers()[i];
                &&& final(self).handlers().len() == old(self).handlers().len()
                &&& h1.id() == h0.id()
                &&& h1.processed() == h0.processed()
                &&& h1.is_closed() == h0.is_closed()
                &&& h0.is_closed() ==> r == (RevisionStep::Done {
                    result: Err::<(), SyncError>(SyncError::RoutingFailure),
                }) && h1.pending() == h0.pending()
                &&& !h0.is_closed() && h0.pending().len() >= FOLDER_COMMAND_QUEUE_CAPACITY ==> r
                    == (RevisionStep::Busy { client_data }) && h1.pending() == h0.pending()
                &&& !h0.is_closed() && h0.pending().len() < FOLDER_COMMAND_QUEUE_CAPACITY ==> r
                    == (RevisionStep::Enqueued { handler: i as usize }) && h1.pending()
                    == h0.pending().push(
                    (FolderCommand::ApplyRevisions {
                        user_id: *user_id,
                        revisions: client_data.revisions,
                        ret,
                    }),
                )
            }),
    {
        match read_result {
            None => RevisionStep::NeedsCreate { client_data },
            Some(info) => {
                let ghost pre = *self;
                let i = self.create_folder_handler(info);
                proof {
                    if pre.has_handler(client_data.object_id@) {
                        let k = pre.handler_index_of(client_data.object_id@);
                        pre.lemma_at_most_one_handler(i as int, k);
                    }
                }
                self.enqueue_revisions_at(i, user_id, client_data, ret)
            },
        }
    }

    /// Route an inbound ping.  With a registered handler the ping becomes a
    /// `Ping` command on that folder's queue and no other folder is
    /// touched; on a registry miss nothing changes anywhere — in
    /// particular, nothing reaches any runner, so no synchronizer call can
    /// follow — and the host is told to consult persistence.
    pub fn handle_client_ping(
        &mut self,
        user_id: &String,
        client_data: &ClientRevisionWSData,
        ret: u64,
    ) -> (r: PingStep)
        requires
            old(self).wf(),
        ensures
            final(self).wf(),
            final(self).handlers().len() == old(self).handlers().len(),
            forall|j: int|
                0 <= j < old(self).handlers().len() && (#[trigger] old(self).handlers()[j]).id()
                    != client_data.object_id@ ==> final(self).handlers()[j] == old(self).handlers()[j],
            !old(self).has_handler(client_data.object_id@) ==> r == PingStep::NeedsFolder && final(self).handlers() == old(self).handlers(),
            old(self).has_handler(client_data.object_id@) ==> ({
                let i = old(self).handler_index_of(client_data.object_id@);
                let h0 = old(self).handlers()[i];
                let h1 = final(self).handlers()[i];
                &&& h1.id() == h0.id()
                &&& h1.processed() == h0.processed()
                &&& h1.is_closed() == h0.is_closed()
                &&& h0.is_closed() ==> r == (PingStep::Done {
                    result: Err::<(), SyncError>(SyncError::RoutingFailure),
                }) && h1.pending() == h0.pending()
                &&& !h0.is_closed() && h0.pending().len() >= FOLDER_COMMAND_QUEUE_CAPACITY ==> r
                    == PingStep::Busy && h1.pending() == h0.pending()
                &&& !h0.is_closed() && h0.pending().len() < FOLDER_COMMAND_QUEUE_CAPACITY ==> r
                    == (PingStep::Enqueued { handler: i as usize }) && h1.pending() == h0.pending().push(
                    (FolderCommand::Ping { user_id: *user_id, rev_id: client_data.rev_id, ret }),
                )
            }),
    {
        let found = self.get_folder_handler(&client_data.object_id);
        match found {
            None => PingStep::NeedsFolder,
            Some(i) => {
                proof {
                    let k = old(self).handler_index_of(client_data.object_id@);
                    assert(old(self).has_handler(client_data.object_id@));
                    old(self).lemma_at_most_one_handler(i as int, k);
                }
                self.enqueue_ping_at(i, user_id, client_data.rev_id, ret)
            },
        }
    }

    /// Decision after a ping missed the registry and the host asked
    /// persistence to read the folder.  A record registers the folder's
    /// handler — first touch wins — and the ping is queued for it.  A
    /// failed read means the folder was never opened server-side: the ping
    /// is silently ignored, the call succeeds, and nothing changes
    /// anywhere, so no synchronizer call can follow.
    pub fn resolve_ping_read(
        &mut self,
        user_id: &String,
        client_data: &ClientRevisionWSData,
        ret: u64,
        read_result: Option<FolderInfo>,
    ) -> (r: PingStep)
        requires
            old(self).wf(),
            read_result matches Some(info) ==> info.folder_id@ == client_data.object_id@,
        ensures
            final(self).wf(),
            forall|j: int|
                0 <= j < old(self).handlers().len() && (#[trigger] old(self).handlers()[j]).id()
                    != client_data.object_id@ ==> final(self).handlers()[j] == old(self).handlers()[j],
            read_result is None ==> r == (PingStep::Done { result: Ok::<(), SyncError>(()) })
                && final(self).handlers() == old(self).handlers(),
            read_result is Some && !old(self).has_handler(client_data.object_id@) ==> ({
                let i = old(self).handlers().len() as int;
                &&& r == (PingStep::Enqueued { handler: i as usize })
                &&& final(self).handlers().len() == i + 1
                &&& final(self).handlers()[i].id() == client_data.object_id@
                &&& final(self).handlers()[i].pending() == seq![
                    (FolderCommand::Ping { user_id: *user_id, rev_id: client_data.rev_id, ret }),
                ]
                &&& final(self).handlers()[i].processed() == Seq::<FolderCommand>::empty()
                &&& !final(self).handlers()[i].is_closed()
            }),
            read_result is Some && old(self).has_handler(client_data.object_id@) ==> ({
                let i = old(self).handler_index_of(client_data.object_id@);
                let h0 = old(self).handlers()[i];
                let h1 = final(self).handlers()[i];
                &&& final(self).handlers().len() == old(self).handlers().len()
                &&& h1.id() == h0.id()
                &&& h1.processed() == h0.processed()
                &&& h1.is_closed() == h0.is_closed()
                &&& h0.is_closed() ==> r == (PingStep::Done {
                    result: Err::<(), SyncError>(SyncError::RoutingFailure),
                }) && h1.pending() == h0.pending()
                &&& !h0.is_closed() && h0.pending().len() >= FOLDER_COMMAND_QUEUE_CAPACITY ==> r
                    == PingStep::Busy && h1.pending() == h0.pending()
                &&& !h0.is_closed() && h0.pending().len() < FOLDER_COMMAND_QUEUE_CAPACITY ==> r
                    == (PingStep::Enqueued { handler: i as usize }) && h1.pending() == h0.pending().push(
                    (FolderCommand::Ping { user_id: *user_id, rev_id: client_data.rev_id, ret }),
                )
            }),
    {
        match read_result {
            None => PingStep::Done { result: Ok(()) },
            Some(info) => {
                let ghost pre = *self;
                let i = self.create_folder_handler(info);
                proof {
                    if pre.has_handler(client_data.object_id@) {
                        let k = pre.handler_index_of(client_data.object_id@);
                        pre.lemma_at_most_one_handler(i as int, k);
                    }
                }
                self.enqueue_ping_at(i, user_id, client_data.rev_id, ret)
            },
        }
    }

    /// Runner step for the handler at index `i`: take its oldest pending
    /// command.  No other handler is touched.
    pub fn next_command_at(&mut self, i: usize) -> (r: Option<FolderCommand>)
        requires
            old(self).wf(),
            (i as int) < old(self).handlers().len(),
        ensures
            final(self).wf(),
            final(self).handlers().len() == old(self).handlers().len(),
            forall|j: int|
                0 <= j < old(self).handlers().len() && j != i as int ==> final(self).handlers()[j]
                    == old(self).handlers()[j],
            final(self).handlers()[i as int].id() == old(self).handlers()[i as int].id(),
            final(self).handlers()[i as int].is_closed() == old(self).handlers()[
                i as int
            ].is_closed(),
            final(self).handlers()[i as int].enqueued() == old(self).handlers()[
                i as int
            ].enqueued(),
            old(self).handlers()[i as int].pending().len() == 0 ==> r is None && final(self).handlers()[i as int].pending() == old(self).handlers()[i as int].pending() && final(self).handlers()[i as int].processed() == old(self).handlers()[i as int].processed(),
            old(self).handlers()[i as int].pending().len() > 0 ==> r == Some(
                old(self).handlers()[i as int].pending()[0],
            ) && final(self).handlers()[i as int].pending() == old(self).handlers()[
                i as int
            ].pending().drop_first() && final(self).handlers()[i as int].processed() == old(self).handlers()[i as int].processed().push(old(self).handlers()[i as int].pending()[0]),
    {
        let h = &mut self.folder_handlers[i];
        h.next_command()
    }

    /// The exit condition of the runner serving the handler at index `i`.
    pub fn runner_finished_at(&self, i: usize) -> (r: bool)
        requires
            (i as int) < self.handlers().len(),
        ensures
            r == (self.handlers()[i as int].is_closed() && self.handlers()[
                i as int
            ].pending().len() == 0),
    {
        self.folder_handlers[i].runner_finished()
    }

    /// Retire hook: close the queue of the handler at index `i`, as
    /// dropping its last producer would.  Pending commands stay for the
    /// runner to drain; nothing else changes.
    pub fn close_handler(&mut self, i: usize)
        requires
            old(self).wf(),
            (i as int) < old(self).handlers().len(),
        ensures
            final(self).wf(),
            final(self).handlers().len() == old(self).handlers().len(),
            forall|j: int|
                0 <= j < old(self).handlers().len() && j != i as int ==> final(self).handlers()[j]
                    == old(self).handlers()[j],
            final(self).handlers()[i as int].id() == old(self).handlers()[i as int].id(),
            final(self).handlers()[i as int].is_closed(),
            final(self).handlers()[i as int].pending() == old(self).handlers()[i as int].pending(),
            final(self).handlers()[i as int].processed() == old(self).handlers()[
                i as int
            ].processed(),
    {
        let h = &mut self.folder_handlers[i];
        h.close()
    }

    /// How many handlers the registry holds.
    pub fn handler_count(&self) -> (n: usize)
        ensures
            n == self.handlers().len(),
    {
        self.folder_handlers.len()
    }

    /// Decision on persistence's answer to an explicit create request: a
    /// record registers the folder's handler; no record means the folder
    /// already exists or the request was rejected, which surfaces as an
    /// internal conflict and leaves the registry untouched.
    pub fn create_folder(&mut self, folder_id: &String, created: Option<FolderInfo>) -> (r: Result<
        usize,
        SyncError,
    >)
        requires
            old(self).wf(),
            created matches Some(info) ==> info.folder_id@ == folder_id@,
        ensures
            final(self).wf(),
            created is None ==> r == Err::<usize, SyncError>(SyncError::CreateConflict) && final(self).handlers() == old(self).handlers(),
            created is Some ==> (r matches Ok(i) && (i as int) < final(self).handlers().len()
                && final(self).handlers()[i as int].id() == folder_id@
                && final(self).has_handler(folder_id@)),
            created is Some && old(self).has_handler(folder_id@) ==> final(self).handlers() == old(self).handlers(),
            created is Some && !old(self).has_handler(folder_id@) ==> ({
                let i = old(self).handlers().len() as int;
                &&& r == Ok::<usize, SyncError>(i as usize)
                &&& final(self).handlers().len() == i + 1
                &&& final(self).handlers()[i].pending() == Seq::<FolderCommand>::empty()
                &&& final(self).handlers()[i].processed() == Seq::<FolderCommand>::empty()
                &&& !final(self).handlers()[i].is_closed()
            }),
            forall|j: int|
                0 <= j < old(self).handlers().len() ==> final(self).handlers()[j] == old(self).handlers()[j],
    {
        match created {
            Some(info) => Ok(self.create_folder_handler(info)),
            None => Err(SyncError::CreateConflict),
        }
    }
}

/// Build the acknowledgment for a folder and the revision id a client's
/// message carried.
pub fn build_ack_message(object_id: &String, rev_id: i64) -> (r: ServerRevisionWSData)
    ensures
        r.object_id@ == object_id@,
        r.rev_id == rev_id,
{
    ServerRevisionWSData { object_id: object_id.clone(), rev_id }
}

/// The acknowledgment a finished revision call owes its client: exactly one
/// ack, carrying the original revision id, when the call succeeded; none
/// when it failed — absence is the client's signal to retry.
pub fn revisions_ack(result: &Result<(), SyncError>, object_id: &String, rev_id: i64) -> (r:
    Option<ServerRevisionWSData>)
    ensures
        result is Ok <==> r is Some,
        result is Ok ==> (r matches Some(a) && a.object_id@ == object_id@ && a.rev_id == rev_id),
{
    match result {
        Ok(_) => Some(build_ack_message(object_id, rev_id)),
        Err(_) => None,
    }
}

} // verus!
