//! Server-side routing core for a collaborative folder workspace.
//!
//! Clients submit ordered batches of revisions for one folder at a time.  The
//! routing layer keeps one handler per open folder; each handler owns a
//! bounded FIFO command queue whose sole consumer (the runner) applies
//! commands strictly in enqueue order, so revisions for one folder are never
//! interleaved while distinct folders proceed independently.
//!
//! The merge algorithm (the synchronizer) and the durable store (persistence)
//! are collaborators of the surrounding host: this crate decides, for every
//! registry state and inbound message, which collaborator call must be made
//! and how its outcome changes the registry, the queues and the reply owed to
//! the client.  The host performs the calls and feeds the outcomes back in.

pub mod command;
pub mod errors;
pub mod folder_manager;
pub mod handler;
pub mod queue;
pub mod revision;
pub mod runner;
