use pi_daemon::active_session_state::{ActiveSessionState, AgentSessionRuntime};
use pi_daemon::agent_message_transport::{
    DELIVERY_STATUS_DELIVERED, DELIVERY_STATUS_QUEUED, MessageSender, SendStep, list_peers,
    peers_from_response,
};
use pi_daemon::daemon_mode::{
    BoundSessionUnavailableError, DaemonClientHandle, DaemonOutbound, MAX_HISTORY_RANGE_MESSAGES,
    ModelIdentity, RuntimeOpenCancelledError, SessionHistorySnapshot,
    SlicePinnedSessionHistoryOptions, abort_client_snapshot_streaming, basename,
    cancel_pending_extension_ui_requests, detach_client_from_active_session, dirname,
    finish_client_snapshot_streaming, get_cron_jobs_path, get_daemon_log_path,
    get_daemon_update_restart_manifest_path, get_sessions_dir, is_sequenced_session_outbound,
    mark_client_snapshot_streaming, normalize_client_capabilities,
    remove_daemon_client_session_capabilities, session_history_representation,
    set_daemon_client_session_capabilities, should_send_daemon_outbound_to_client,
    slice_pinned_session_history, snapshot_transfer_id,
};
use pi_daemon::json::{Json, parse_json};
use pi_daemon::mutation_drain_latch::{DrainStep, MutationDrainLatch};
use pi_daemon::protocol::DaemonResponse;
use pi_daemon::text_map::TextMap;

fn json(text: &str) -> Json {
    parse_json(text.as_bytes()).expect("document")
}

fn set(names: &[&str]) -> TextMap<()> {
    let mut set = TextMap::new();
    for name in names {
        set.insert(name.to_string(), ());
    }
    set
}

fn receipt(status: &str) -> DaemonResponse {
    DaemonResponse::success(
        None,
        "send_message",
        Some(json(&format!(
            "{{\"id\":\"message-one\",\"source\":\"agent_message\",\"message\":\"hello peer\",\"target\":{{\"activeSessionId\":\"target-active\",\"sessionId\":\"target-session\"}},\"from\":{{\"activeSessionId\":\"source-active\",\"sessionId\":\"source-session\"}},\"deliveryStatus\":\"{status}\"}}"
        ))),
    )
}

fn sender() -> MessageSender {
    MessageSender::new("source-active", "target-active", "hello peer")
}

#[test]
fn messaging_safety_peer_discovery_uses_worker_token() {
    let command = list_peers("private-worker-token");
    assert_eq!(
        command.to_value(Some("daemon_1")),
        json("{\"type\":\"list_agent_peers\",\"id\":\"daemon_1\",\"workerToken\":\"private-worker-token\"}")
    );
    let answer = DaemonResponse::success(
        None,
        "list_agent_peers",
        Some(json(
            "{\"peers\":[{\"activeSessionId\":\"peer-active\",\"sessionId\":\"peer-session\",\"cwd\":\"fixture\",\"isStreaming\":false,\"unfinishedActionCount\":0}]}",
        )),
    );
    let peers = peers_from_response(Some(&answer));
    assert_eq!(peers.len(), 1);
    assert_eq!(peers[0].active_session_id, "peer-active");
}

#[test]
fn messaging_safety_old_supervisor_discovery_degrades_without_request() {
    assert!(peers_from_response(None).is_empty());
}

#[test]
fn messaging_safety_remote_receipt_preserves_delivered_and_queued() {
    for status in [DELIVERY_STATUS_DELIVERED, DELIVERY_STATUS_QUEUED] {
        let mut sender = sender();
        assert!(matches!(sender.next_attempt(false, false), SendStep::Connect));
        let command = sender.send_message();
        assert_eq!(
            command.to_value(None),
            json("{\"type\":\"send_message\",\"fromActiveSessionId\":\"source-active\",\"targetActiveSessionId\":\"target-active\",\"message\":\"hello peer\",\"agentOrigin\":true}")
        );
        let result = sender.answered(Ok(&receipt(status)), "").expect("receipt");
        assert_eq!(result.delivery_status, status);
        assert_eq!(
            result.from.expect("sender").str_at("activeSessionId"),
            Some("source-active")
        );
    }
}

#[test]
fn messaging_safety_rejected_admission_and_invalid_receipt_stay_errors() {
    let refused =
        DaemonResponse::failure(None, "send_message", "Agent message was not accepted", None);
    let empty = DaemonResponse::success(None, "send_message", Some(json("{}")));
    for (response, expected) in [
        (refused, "Agent message was not accepted"),
        (empty, "Supervisor returned an invalid agent-message receipt"),
        (receipt("rejected"), "Supervisor returned an invalid agent-message receipt"),
    ] {
        let mut sender = sender();
        sender.send_message();
        assert_eq!(sender.answered(Ok(&response), "").expect_err("fails"), expected);
    }
}

#[test]
fn messaging_safety_lost_response_is_never_replayed() {
    let mut sender = sender();
    sender.send_message();
    assert!(sender.answered(Err("socket closed"), "").is_err());
    assert_eq!(format!("{:?}", sender.phase), "Done");
}

#[test]
fn messaging_safety_shutdown_cancels_before_connecting() {
    let mut sender = sender();
    match sender.next_attempt(true, false) {
        SendStep::Fail(error) => assert_eq!(error, "Daemon is shutting down"),
        SendStep::Connect => panic!("connected"),
    }
}

#[test]
fn failed_connects_are_tried_again() {
    let mut sender = sender();
    sender.connect_failed("refused");
    assert!(matches!(sender.next_attempt(false, false), SendStep::Connect));
    match sender.next_attempt(false, true) {
        SendStep::Fail(error) => assert_eq!(error, "refused"),
        SendStep::Connect => panic!("connected"),
    }
}

#[test]
fn waits_for_in_flight_commands() {
    let mut latch = MutationDrainLatch::new();
    latch.begin();
    assert_eq!(latch.wait_for_drain(0, false, "aborted", 1), DrainStep::Wait);
    assert_eq!(latch.end(), vec![1]);
    assert_eq!(latch.wait_for_drain(0, false, "aborted", 1), DrainStep::Done);
    assert_eq!(latch.active(), 0);
}

#[test]
fn rejects_an_already_aborted_wait() {
    let mut latch = MutationDrainLatch::new();
    assert_eq!(
        latch.wait_for_drain(0, true, "update restart cancelled", 1),
        DrainStep::Aborted("update restart cancelled".to_string())
    );
}

#[test]
fn histories_are_paged_without_gaps() {
    let count: usize = 5;
    let history = SessionHistorySnapshot {
        messages: (0..count).map(|i| json(&i.to_string())).collect(),
        entry_ids: (0..count).map(|i| format!("e{i}")).collect(),
        tip_entry_id: Some("e4".to_string()),
    };
    let options = |before: Option<&str>, limit: Option<usize>| SlicePinnedSessionHistoryOptions {
        generation: "g".to_string(),
        representation: "r".to_string(),
        before_entry_id: before.map(str::to_string),
        limit,
    };
    let newest = slice_pinned_session_history(&history, &options(None, Some(2))).expect("range");
    assert_eq!(newest.entry_ids, vec!["e3".to_string(), "e4".to_string()]);
    assert!(newest.has_older);
    let older = slice_pinned_session_history(&history, &options(Some("e3"), Some(3))).expect("range");
    assert_eq!(older.entry_ids, vec!["e0".to_string(), "e1".to_string(), "e2".to_string()]);
    assert!(!older.has_older);
    assert_eq!(older.start_index + older.messages.len(), newest.start_index);
    assert_eq!(
        slice_pinned_session_history(&history, &options(None, Some(0))).expect_err("limit"),
        "Session history range limit must be a positive integer"
    );
    assert_eq!(
        slice_pinned_session_history(&history, &options(Some("x"), None)).expect_err("boundary"),
        "Session history boundary no longer exists: x"
    );
    let all = slice_pinned_session_history(&history, &options(None, Some(MAX_HISTORY_RANGE_MESSAGES + 1)))
        .expect("range");
    assert_eq!(all.messages.len(), 5);
    assert_eq!(all.to_value().u64_at("totalMessageCount"), Some(5));
    let broken = SessionHistorySnapshot {
        messages: Vec::new(),
        entry_ids: vec!["e".to_string()],
        tip_entry_id: None,
    };
    assert_eq!(
        slice_pinned_session_history(&broken, &options(None, None)).expect_err("aligned"),
        "Session history messages and entry ids are not aligned"
    );
    let model = ModelIdentity {
        provider: "p".to_string(),
        id: "m".to_string(),
        api: "a".to_string(),
        base_url: "u".to_string(),
    };
    assert_ne!(
        session_history_representation(Some(&model)),
        session_history_representation(None)
    );
}

#[test]
fn frames_say_what_they_are() {
    let event = DaemonOutbound::SessionEvent {
        active_session_id: "a".to_string(),
        event: json("{\"type\":\"agent_end\"}"),
    };
    assert_eq!(event.wire_type(), "session_event");
    assert_eq!(event.to_value().str_at("type"), Some("session_event"));
    assert_eq!(event.active_session_id(), Some("a"));
    assert!(is_sequenced_session_outbound("session_event"));
    assert!(!is_sequenced_session_outbound("heartbeats_changed"));
    assert_eq!(DaemonOutbound::HeartbeatsChanged.active_session_id(), None);
    let raw = DaemonOutbound::Raw(json("{\"type\":\"custom\",\"activeSessionId\":\"b\"}"));
    assert_eq!(raw.wire_type(), "custom");
}

#[test]
fn dialogs_go_where_they_can_be_shown() {
    let mut client = DaemonClientHandle::new("client-1");
    let dialog = DaemonOutbound::ExtensionUiRequest {
        active_session_id: "a".to_string(),
        id: "1".to_string(),
        method: "select".to_string(),
        payload: json("{}"),
    };
    assert!(!should_send_daemon_outbound_to_client(&client, &dialog));
    set_daemon_client_session_capabilities(&mut client, "a", set(&["extension_ui"]));
    assert!(client.supports_extension_ui_for_session("a"));
    assert!(should_send_daemon_outbound_to_client(&client, &dialog));
    remove_daemon_client_session_capabilities(&mut client, "a");
    assert!(!should_send_daemon_outbound_to_client(&client, &dialog));
    assert!(should_send_daemon_outbound_to_client(&client, &DaemonOutbound::HeartbeatsChanged));
    let known = normalize_client_capabilities(
        Some(&set(&["a", "b"])),
        Some(true),
        &set(&[]),
        &vec!["a".to_string()],
    );
    assert!(known.contains_key("a"));
    assert!(!known.contains_key("b"));
    assert!(known.contains_key("extension_ui"));
}

#[test]
fn snapshots_are_counted_per_session() {
    let mut client = DaemonClientHandle::new("client-1");
    assert!(!client.snapshot_streaming());
    mark_client_snapshot_streaming(&mut client, "a");
    mark_client_snapshot_streaming(&mut client, "a");
    assert!(client.snapshot_streaming());
    finish_client_snapshot_streaming(&mut client, "a");
    assert!(client.snapshot_streaming());
    finish_client_snapshot_streaming(&mut client, "a");
    assert!(!client.snapshot_streaming());
    mark_client_snapshot_streaming(&mut client, "b");
    abort_client_snapshot_streaming(&mut client, None);
    client.set_authenticated("supervisor");
    assert!(client.authenticated());
    client.set_id("client-2");
    assert_eq!(client.id(), "client-2");
    client.set_backpressured(true);
    assert!(client.is_backpressured());
    let snapshot = json(
        "{\"activeSessionId\":\"a\",\"lastEventCursor\":{\"generation\":\"g\",\"sequence\":5}}",
    );
    let id = snapshot_transfer_id(&snapshot);
    assert!(id.contains("a") && id.contains("g") && id.ends_with("full"));
}

#[test]
fn detached_clients_leave_nothing_open() {
    let mut client = DaemonClientHandle::new("client-1");
    client.state.attached_active_session_ids.insert("a".to_string(), ());
    let mut state = ActiveSessionState::new("a", AgentSessionRuntime::default());
    state.clients.push("client-1".to_string());
    state.extension_ui_requests.insert("request".to_string(), ());
    let cancelled = detach_client_from_active_session(&mut client, &mut state);
    assert!(state.clients.is_empty());
    assert!(client.attached_active_session_ids().is_empty());
    assert_eq!(cancelled, vec!["request".to_string()]);
    assert!(cancel_pending_extension_ui_requests(&mut state).is_empty());
}

#[test]
fn daemon_files_have_their_places() {
    assert_eq!(get_daemon_log_path("/tmp/daemon.sock"), "daemon-sock.log");
    assert_eq!(
        get_daemon_update_restart_manifest_path("/tmp/daemon.sock"),
        "/tmp/daemon.sock.update-restart.json"
    );
    assert_eq!(get_cron_jobs_path("/agent"), "/agent/cron-jobs.json");
    assert_eq!(get_sessions_dir("/agent"), "/agent/sessions");
    assert_eq!(basename("/a/b.jsonl", Some(".jsonl")), "b");
    assert_eq!(dirname("/b"), "/");
    assert_eq!(dirname("b"), ".");
    assert_eq!(RuntimeOpenCancelledError.message(), "Runtime open cancelled");
    assert_eq!(BoundSessionUnavailableError::new("gone").message, "gone");
}
