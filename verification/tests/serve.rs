use prism::db::{search_message, stats_message, updated_message};
use prism::serve::{
    bind_address, completed_message, diff_entry_message, failure_message, node_messages, on_forward,
    on_frame, started_message, ConnectionAction, ForwardAction, ForwardEvent, IncomingFrame, ReplayAction, ReplayEvent, ReplayPhase,
    ReplaySession, ReplayStage, TraceStreamMessage, CPU_LIMIT, MEMORY_LIMIT,
};

#[test]
fn bind_address_joins_host_and_port() {
    assert_eq!(bind_address("127.0.0.1", 8080), "127.0.0.1:8080");
    assert_eq!(bind_address("0.0.0.0", 0), "0.0.0.0:0");
}

#[test]
fn resource_updates_every_tenth_node() {
    let mut updates = 0;
    let mut total = 0;
    for idx in 0..25usize {
        let msgs = node_messages(idx, serde_json::Value::Null, 7, 9);
        total += msgs.len();
        for m in &msgs {
            if let TraceStreamMessage::ResourceUpdate { cpu_used, memory_used, cpu_limit, memory_limit } = m {
                assert_eq!((*cpu_used, *memory_used), (7, 9));
                assert_eq!(*cpu_limit, 100_000_000);
                assert_eq!(*memory_limit, 40 * 1024 * 1024);
                updates += 1;
            }
        }
        match &msgs[0] {
            TraceStreamMessage::TraceNode { path, .. } => assert_eq!(path, &vec![idx]),
            _ => panic!("expected a node first"),
        }
    }
    assert_eq!(updates, 3);
    assert_eq!(total, 28);
    assert_eq!(CPU_LIMIT, 100_000_000);
    assert_eq!(MEMORY_LIMIT, 41_943_040);
}

#[test]
fn stream_messages() {
    match started_message("abc", 0) {
        TraceStreamMessage::TraceStarted { tx_hash, ledger_sequence } => {
            assert_eq!(tx_hash, "abc");
            assert_eq!(ledger_sequence, 0);
        }
        _ => panic!(),
    }
    match failure_message(ReplayStage::ReconstructState, "boom") {
        TraceStreamMessage::TraceError { error } => assert_eq!(error, "Failed to reconstruct state: boom"),
        _ => panic!(),
    }
    match failure_message(ReplayStage::Execute, "bad") {
        TraceStreamMessage::TraceError { error } => assert_eq!(error, "Sandbox execution failed: bad"),
        _ => panic!(),
    }
    match completed_message(12, 340) {
        TraceStreamMessage::TraceCompleted { total_nodes, duration_ms } => {
            assert_eq!((total_nodes, duration_ms), (12, 340))
        }
        _ => panic!(),
    }
    match diff_entry_message("k".into(), None, Some("v".into()), "Created".into()) {
        TraceStreamMessage::StateDiffEntry { key, before, after, change_type } => {
            assert_eq!(key, "k");
            assert_eq!(before, None);
            assert_eq!(after, Some("v".to_string()));
            assert_eq!(change_type, "Created");
        }
        _ => panic!(),
    }
}

#[test]
fn frames_and_actions() {
    match on_frame(IncomingFrame::Text { text: "{}".into(), request_tx_hash: Some("abc".into()) }) {
        ConnectionAction::StartTrace { tx_hash } => assert_eq!(tx_hash, "abc"),
        _ => panic!(),
    }
    match on_frame(IncomingFrame::Text { text: "nope".into(), request_tx_hash: None }) {
        ConnectionAction::RejectRequest { text } => assert_eq!(text, "nope"),
        _ => panic!(),
    }
    match on_frame(IncomingFrame::Ping(vec![1, 2])) {
        ConnectionAction::SendPong(p) => assert_eq!(p, vec![1, 2]),
        _ => panic!(),
    }
    assert!(matches!(on_frame(IncomingFrame::Close), ConnectionAction::Close));
    assert!(matches!(on_frame(IncomingFrame::Failed), ConnectionAction::Close));
    assert!(matches!(on_frame(IncomingFrame::Other), ConnectionAction::Ignore));
}

#[test]
fn db_messages() {
    assert_eq!(stats_message(42), "Taxonomy database: 42 entries");
    assert_eq!(search_message("budget"), "Searching for: budget");
    assert_eq!(updated_message(7), "📊 Database now contains 7 error definitions");
}

#[test]
fn replay_session_streams_the_documented_order() {
    let mut session = ReplaySession::new("abc");
    let mut sent: Vec<TraceStreamMessage> = Vec::new();
    let mut step = |session: &mut ReplaySession, event: ReplayEvent| {
        let (msgs, action) = session.advance(event);
        sent.extend(msgs);
        action
    };
    assert_eq!(step(&mut session, ReplayEvent::Begin), ReplayAction::ReconstructState);
    assert_eq!(step(&mut session, ReplayEvent::StateReconstructed), ReplayAction::Execute);
    assert_eq!(
        step(&mut session, ReplayEvent::Executed { total_cpu: 5, total_memory: 6 }),
        ReplayAction::NextNode
    );
    for _ in 0..12 {
        assert_eq!(
            step(&mut session, ReplayEvent::NodeResolved { node: serde_json::Value::Null }),
            ReplayAction::ThrottleThenNextNode
        );
    }
    assert_eq!(step(&mut session, ReplayEvent::NodesDone), ReplayAction::ComputeDiff);
    assert_eq!(
        step(
            &mut session,
            ReplayEvent::DiffEntry {
                key: "k".into(),
                before: None,
                after: Some("1".into()),
                change_type: "Created".into(),
            }
        ),
        ReplayAction::NextDiffEntry
    );
    assert_eq!(step(&mut session, ReplayEvent::DiffDone { duration_ms: 9 }), ReplayAction::Finish);
    assert_eq!(session.phase, ReplayPhase::Done);
    // 1 start + 12 nodes + 2 resource updates + 1 diff entry + 1 completion
    assert_eq!(sent.len(), 17);
    assert!(matches!(sent[0], TraceStreamMessage::TraceStarted { ledger_sequence: 0, .. }));
    let starts = sent.iter().filter(|m| matches!(m, TraceStreamMessage::TraceStarted { .. })).count();
    assert_eq!(starts, 1);
    assert!(matches!(sent[1], TraceStreamMessage::TraceNode { .. }));
    assert!(matches!(sent[2], TraceStreamMessage::ResourceUpdate { cpu_used: 5, memory_used: 6, .. }));
    assert!(matches!(sent[15], TraceStreamMessage::StateDiffEntry { .. }));
    assert!(matches!(sent[16], TraceStreamMessage::TraceCompleted { total_nodes: 12, duration_ms: 9 }));
}

#[test]
fn replay_session_failures_and_stray_events() {
    let mut session = ReplaySession::new("abc");
    let (msgs, action) = session.advance(ReplayEvent::NodesDone);
    assert!(msgs.is_empty());
    assert_eq!(action, ReplayAction::Ignore);
    assert_eq!(session.phase, ReplayPhase::Starting);
    session.advance(ReplayEvent::Begin);
    let (msgs, action) = session.advance(ReplayEvent::StateFailed { error: "no archive".into() });
    assert_eq!(action, ReplayAction::Abort);
    match &msgs[0] {
        TraceStreamMessage::TraceError { error } => {
            assert_eq!(error, "Failed to reconstruct state: no archive")
        }
        _ => panic!(),
    }
    let mut session = ReplaySession::new("abc");
    session.advance(ReplayEvent::Begin);
    session.advance(ReplayEvent::StateReconstructed);
    session.advance(ReplayEvent::Executed { total_cpu: 0, total_memory: 0 });
    let mut failing = ReplaySession::new("abc");
    failing.advance(ReplayEvent::Begin);
    failing.advance(ReplayEvent::StateReconstructed);
    failing.advance(ReplayEvent::Executed { total_cpu: 0, total_memory: 0 });
    let (msgs, action) = failing.advance(ReplayEvent::NodeFailed { error: "bad node".into() });
    assert_eq!(action, ReplayAction::Abort);
    match &msgs[..] {
        [TraceStreamMessage::TraceError { error }] => {
            assert_eq!(error, "Failed to serialize trace node: bad node")
        }
        _ => panic!(),
    }
    session.advance(ReplayEvent::NodesDone);
    let (msgs, action) = session.advance(ReplayEvent::DiffFailed { error: "no diff".into() });
    assert_eq!(action, ReplayAction::Abort);
    assert_eq!(session.phase, ReplayPhase::Failed);
    match &msgs[..] {
        [TraceStreamMessage::TraceError { error }] => {
            assert_eq!(error, "Failed to compute state diff: no diff")
        }
        _ => panic!(),
    }
    let (msgs, action) = session.advance(ReplayEvent::DiffDone { duration_ms: 1 });
    assert!(msgs.is_empty());
    assert_eq!(action, ReplayAction::Ignore);
}

#[test]
fn failed_sends_leave_the_replay_running() {
    let mut session = ReplaySession::new("abc");
    let mut sent: Vec<TraceStreamMessage> = Vec::new();
    let mut step = |session: &mut ReplaySession, event: ReplayEvent| {
        let (msgs, action) = session.advance(event);
        let delivered = msgs.len();
        sent.extend(msgs);
        // Every send fails: no receiver is listening.
        for _ in 0..delivered {
            let (extra, after) = session.advance(ReplayEvent::Delivered { ok: false });
            assert!(extra.is_empty());
            assert_eq!(after, ReplayAction::Continue);
        }
        action
    };
    assert_eq!(step(&mut session, ReplayEvent::Begin), ReplayAction::ReconstructState);
    assert_eq!(session.phase, ReplayPhase::Reconstructing);
    assert_eq!(step(&mut session, ReplayEvent::StateReconstructed), ReplayAction::Execute);
    assert_eq!(
        step(&mut session, ReplayEvent::Executed { total_cpu: 1, total_memory: 2 }),
        ReplayAction::NextNode
    );
    assert_eq!(
        step(&mut session, ReplayEvent::NodeResolved { node: serde_json::Value::Null }),
        ReplayAction::ThrottleThenNextNode
    );
    assert_eq!(session.phase, ReplayPhase::Streaming { next_index: 1 });
    assert_eq!(step(&mut session, ReplayEvent::NodesDone), ReplayAction::ComputeDiff);
    assert_eq!(step(&mut session, ReplayEvent::DiffDone { duration_ms: 3 }), ReplayAction::Finish);
    assert_eq!(session.phase, ReplayPhase::Done);
    // start + node + resource update + completion, all decided despite the failed sends
    assert_eq!(sent.len(), 4);
    assert!(matches!(sent[3], TraceStreamMessage::TraceCompleted { total_nodes: 1, duration_ms: 3 }));
}

#[test]
fn delivery_reports_change_no_phase() {
    let mut session = ReplaySession::new("abc");
    let (msgs, action) = session.advance(ReplayEvent::Delivered { ok: true });
    assert!(msgs.is_empty());
    assert_eq!(action, ReplayAction::Continue);
    assert_eq!(session.phase, ReplayPhase::Starting);
    session.advance(ReplayEvent::Begin);
    let (msgs, action) = session.advance(ReplayEvent::Delivered { ok: false });
    assert!(msgs.is_empty());
    assert_eq!(action, ReplayAction::Continue);
    assert_eq!(session.phase, ReplayPhase::Reconstructing);
}

#[test]
fn forwarding_decisions() {
    assert_eq!(on_forward(ForwardEvent::Update { serialized: true }), ForwardAction::Send);
    assert_eq!(on_forward(ForwardEvent::Update { serialized: false }), ForwardAction::Next);
    assert_eq!(on_forward(ForwardEvent::Sent { ok: true }), ForwardAction::Next);
    assert_eq!(on_forward(ForwardEvent::Sent { ok: false }), ForwardAction::Stop);
    assert_eq!(on_forward(ForwardEvent::Lagged), ForwardAction::Stop);
    assert_eq!(on_forward(ForwardEvent::ChannelClosed), ForwardAction::Stop);
}
