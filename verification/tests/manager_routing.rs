use folder_sync::command::{FolderCommand, SynchronizerRequest};
use folder_sync::errors::SyncError;
use folder_sync::folder_manager::{
    build_ack_message, revisions_ack, PingStep, RevisionStep, ServerFolderManager,
};
use folder_sync::revision::{ClientRevisionWSData, FolderInfo, Revision};
use folder_sync::runner::{complete_command, synchronizer_request_for};

fn folder_info(id: &str, rev_id: i64) -> FolderInfo {
    FolderInfo { folder_id: String::from(id), rev_id, text: Vec::new() }
}

fn revision(object_id: &str, rev_id: i64) -> Revision {
    Revision { object_id: String::from(object_id), rev_id, bytes: vec![0xAB] }
}

fn message(object_id: &str, rev_id: i64, revisions: Vec<Revision>) -> ClientRevisionWSData {
    ClientRevisionWSData { object_id: String::from(object_id), rev_id, revisions }
}

#[test]
fn ping_on_unopened_folder_is_silent_success() {
    let user = String::from("carol");
    let mut m = ServerFolderManager::new();
    let data = message("F1", 5, Vec::new());

    // registry miss: the host is told to consult persistence, nothing changed
    assert_eq!(m.handle_client_ping(&user, &data, 1), PingStep::NeedsFolder);
    assert_eq!(m.handler_count(), 0);

    // the read fails: the ping is silently ignored and the call succeeds,
    // with no handler created and no command enqueued anywhere
    assert_eq!(
        m.resolve_ping_read(&user, &data, 1, None),
        PingStep::Done { result: Ok(()) }
    );
    assert_eq!(m.handler_count(), 0);
}

#[test]
fn first_touch_create_then_ping_scenario() {
    let user = String::from("c");
    let mut m = ServerFolderManager::new();
    let data = message("F1", 9, vec![revision("F1", 1), revision("F1", 2)]);

    // never-opened folder: registry miss
    let step = m.handle_client_revisions(&user, data, 1);
    let data = match step {
        RevisionStep::NeedsFolder { client_data } => client_data,
        other => panic!("expected a registry miss, got {:?}", other),
    };

    // the durable read fails too: the folder must be created from the batch
    let step = m.resolve_revisions_read(&user, data, 1, None);
    let data = match step {
        RevisionStep::NeedsCreate { client_data } => client_data,
        other => panic!("expected a create instruction, got {:?}", other),
    };

    // persistence creates the record at rev 2; the handler is registered
    let created = folder_info("F1", 2);
    let r = m.create_folder(&data.object_id, Some(created));
    assert_eq!(r, Ok(0));
    assert_eq!(m.handler_count(), 1);

    // exactly one acknowledgment, carrying the client's original rev_id
    let ack = revisions_ack(&Ok(()), &data.object_id, data.rev_id);
    let ack = ack.expect("a successful call is acknowledged");
    assert_eq!(ack.object_id, "F1");
    assert_eq!(ack.rev_id, 9);

    // the client now pings at rev 2; the handler exists, so the ping queues
    let ping = message("F1", 2, Vec::new());
    assert_eq!(m.handle_client_ping(&user, &ping, 2), PingStep::Enqueued { handler: 0 });

    // the runner takes it, asks the synchronizer for a pong, and replies
    let cmd = m.next_command_at(0).expect("the ping is pending");
    let (req, ret) = synchronizer_request_for(cmd);
    assert!(matches!(req, SynchronizerRequest::Pong { rev_id: 2, .. }));
    let reply = complete_command(ret, Ok(()));
    assert_eq!(reply.ret, 2);
    assert_eq!(reply.result, Ok(()));

    // a ping is never acknowledged; only the reply reaches its caller
    assert_eq!(m.next_command_at(0), None);
}

#[test]
fn failing_create_surfaces_conflict_and_acks_nothing() {
    let user = String::from("c");
    let mut m = ServerFolderManager::new();
    let data = message("F9", 4, vec![revision("F9", 1)]);

    let step = m.handle_client_revisions(&user, data, 1);
    let data = match step {
        RevisionStep::NeedsFolder { client_data } => client_data,
        other => panic!("expected a registry miss, got {:?}", other),
    };
    let step = m.resolve_revisions_read(&user, data, 1, None);
    let data = match step {
        RevisionStep::NeedsCreate { client_data } => client_data,
        other => panic!("expected a create instruction, got {:?}", other),
    };

    // persistence reports no record: the folder already exists or was rejected
    let r = m.create_folder(&data.object_id, None);
    assert_eq!(r, Err(SyncError::CreateConflict));
    assert_eq!(m.handler_count(), 0);

    // a failing call delivers zero acknowledgments
    assert_eq!(revisions_ack(&Err(SyncError::CreateConflict), &data.object_id, data.rev_id), None);
}

#[test]
fn revisions_for_open_folder_reach_only_that_folder() {
    let user = String::from("c");
    let mut m = ServerFolderManager::new();

    // open two folders directly from durable records
    let a = m.create_folder_handler(folder_info("A", 0));
    let b = m.create_folder_handler(folder_info("B", 0));
    assert_ne!(a, b);
    assert_eq!(m.handler_count(), 2);

    // a batch for A queues on A's handler
    let data = message("A", 3, vec![revision("A", 1)]);
    assert_eq!(m.handle_client_revisions(&user, data, 11), RevisionStep::Enqueued { handler: a });

    // B is untouched: its runner has nothing to do
    assert_eq!(m.next_command_at(b), None);

    // B still completes its own work promptly while A's command is pending
    let ping = message("B", 1, Vec::new());
    assert_eq!(m.handle_client_ping(&user, &ping, 12), PingStep::Enqueued { handler: b });
    let cmd = m.next_command_at(b).expect("B's ping is pending");
    let (_req, ret) = synchronizer_request_for(cmd);
    assert_eq!(ret, 12);
    assert_eq!(m.next_command_at(b), None);

    // A's command is still waiting, in order
    let cmd = m.next_command_at(a).expect("A's batch is still pending");
    assert!(matches!(cmd, FolderCommand::ApplyRevisions { ret: 11, .. }));
}

#[test]
fn duplicate_first_touch_keeps_one_handler_and_its_queue() {
    let user = String::from("c");
    let mut m = ServerFolderManager::new();

    // first touch registers the handler
    let first = m.create_folder_handler(folder_info("F1", 0));
    assert_eq!(m.handler_count(), 1);

    // a command reaches the first handler
    let data = message("F1", 1, vec![revision("F1", 1)]);
    assert_eq!(
        m.handle_client_revisions(&user, data, 21),
        RevisionStep::Enqueued { handler: first }
    );

    // a racing second first-touch converges on the same handler: the
    // registry does not change and the queued command survives
    let second = m.create_folder_handler(folder_info("F1", 7));
    assert_eq!(first, second);
    assert_eq!(m.handler_count(), 1);
    let cmd = m.next_command_at(first).expect("the queued command survived");
    assert!(matches!(cmd, FolderCommand::ApplyRevisions { ret: 21, .. }));
}

#[test]
fn lazy_read_installs_handler_and_queues_the_batch() {
    let user = String::from("c");
    let mut m = ServerFolderManager::new();
    let data = message("F2", 6, vec![revision("F2", 3)]);

    let step = m.handle_client_revisions(&user, data, 31);
    let data = match step {
        RevisionStep::NeedsFolder { client_data } => client_data,
        other => panic!("expected a registry miss, got {:?}", other),
    };

    // the durable read succeeds: the handler is installed and the batch queued
    let step = m.resolve_revisions_read(&user, data, 31, Some(folder_info("F2", 3)));
    assert_eq!(step, RevisionStep::Enqueued { handler: 0 });
    assert_eq!(m.handler_count(), 1);

    let cmd = m.next_command_at(0).expect("the batch is pending");
    match cmd {
        FolderCommand::ApplyRevisions { user_id, revisions, ret } => {
            assert_eq!(user_id, "c");
            assert_eq!(ret, 31);
            assert_eq!(revisions.len(), 1);
            assert_eq!(revisions[0].rev_id, 3);
        },
        other => panic!("expected the queued batch, got {:?}", other),
    }
}

#[test]
fn lazy_read_installs_handler_and_queues_the_ping() {
    let user = String::from("c");
    let mut m = ServerFolderManager::new();
    let ping = message("F3", 8, Vec::new());

    assert_eq!(m.handle_client_ping(&user, &ping, 41), PingStep::NeedsFolder);
    let step = m.resolve_ping_read(&user, &ping, 41, Some(folder_info("F3", 8)));
    assert_eq!(step, PingStep::Enqueued { handler: 0 });

    let cmd = m.next_command_at(0).expect("the ping is pending");
    assert!(matches!(cmd, FolderCommand::Ping { rev_id: 8, ret: 41, .. }));
}

#[test]
fn closed_handler_turns_routing_into_failure() {
    let user = String::from("c");
    let mut m = ServerFolderManager::new();
    let h = m.create_folder_handler(folder_info("F1", 0));

    // retire the handler: its queue closes
    m.close_handler(h);
    assert!(m.runner_finished_at(h));

    let data = message("F1", 2, vec![revision("F1", 1)]);
    assert_eq!(
        m.handle_client_revisions(&user, data, 51),
        RevisionStep::Done { result: Err(SyncError::RoutingFailure) }
    );
    let ping = message("F1", 2, Vec::new());
    assert_eq!(
        m.handle_client_ping(&user, &ping, 52),
        PingStep::Done { result: Err(SyncError::RoutingFailure) }
    );

    // and a routing failure is never acknowledged
    assert_eq!(revisions_ack(&Err(SyncError::RoutingFailure), &String::from("F1"), 2), None);
}

#[test]
fn full_queue_reports_busy_and_returns_the_batch() {
    let user = String::from("c");
    let mut m = ServerFolderManager::new();
    m.create_folder_handler(folder_info("F1", 0));

    // fill the folder's queue to capacity
    for k in 0..folder_sync::queue::FOLDER_COMMAND_QUEUE_CAPACITY {
        let ping = message("F1", k as i64, Vec::new());
        assert_eq!(m.handle_client_ping(&user, &ping, k as u64), PingStep::Enqueued { handler: 0 });
    }

    // one more ping pushes back
    let ping = message("F1", -1, Vec::new());
    assert_eq!(m.handle_client_ping(&user, &ping, 7000), PingStep::Busy);

    // a revision batch pushes back too, and the batch comes back unchanged
    let data = message("F1", 3, vec![revision("F1", 1)]);
    match m.handle_client_revisions(&user, data, 7001) {
        RevisionStep::Busy { client_data } => {
            assert_eq!(client_data, message("F1", 3, vec![revision("F1", 1)]));
        },
        other => panic!("expected backpressure, got {:?}", other),
    }

    // after the runner takes one command there is room again
    assert!(m.next_command_at(0).is_some());
    let ping = message("F1", -2, Vec::new());
    assert_eq!(m.handle_client_ping(&user, &ping, 7002), PingStep::Enqueued { handler: 0 });
}

#[test]
fn lookup_reports_presence_exactly() {
    let mut m = ServerFolderManager::new();
    assert_eq!(m.get_folder_handler(&String::from("F1")), None);
    let i = m.create_folder_handler(folder_info("F1", 0));
    assert_eq!(m.get_folder_handler(&String::from("F1")), Some(i));
    assert_eq!(m.get_folder_handler(&String::from("F2")), None);
}

#[test]
fn ack_message_carries_folder_and_rev_id() {
    let ack = build_ack_message(&String::from("F1"), 42);
    assert_eq!(ack.object_id, "F1");
    assert_eq!(ack.rev_id, 42);
}
