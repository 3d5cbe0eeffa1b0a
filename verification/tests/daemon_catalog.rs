use pi_daemon::daemon_catalog_entry::{
    DAEMON_CATALOG_FAILURE_PREFIX, DeleteSessionFileMethod, DeleteSessionFileResult,
    catalog_failure_text, deletion_value, reported_count,
};
use pi_daemon::daemon_catalog_process::{
    CatalogAction, CatalogEvent, CatalogMessage, CatalogOutbound, CatalogRequest,
    DaemonCatalogClient, PendingCatalogRequest, SessionInfoWire, WORKER_INTERRUPTED_CONTENT, archive_result,
    catalog_line, deserialize_session_info, handle_catalog_request, is_catalog_outbound,
    is_catalog_request, is_daemon_catalog_source_path, list_result, parse_catalog_request,
    progress_message, read_catalog_line, request_timeout_text, resolve_catalog_session_match,
    resolve_daemon_catalog_entrypoint, resolve_result, serialize_session_info, session_message,
};
use pi_daemon::json::{Json, parse_json};
use pi_daemon::session_info::{
    AgentStatus, AgentTaskState, SessionInfo, SessionState, SessionStateStatus,
};

fn json(text: &str) -> Json {
    parse_json(text.as_bytes()).expect("document")
}

fn session(id: &str, name: Option<&str>) -> SessionInfo {
    SessionInfo {
        path: format!("/tmp/{id}.jsonl"),
        id: id.to_string(),
        cwd: "/tmp".to_string(),
        name: name.map(str::to_string),
        state: None,
        parent_session_path: None,
        rlm_depth: 0,
        created: Some(0),
        modified: Some(0),
        message_count: 1,
        first_message: String::new(),
        all_messages_text: String::new(),
        agent_status: None,
        usage: None,
    }
}

#[test]
fn failure_prefix_matches_the_typescript() {
    assert_eq!(DAEMON_CATALOG_FAILURE_PREFIX, "Prime Agent daemon catalog failed: ");
    assert_eq!(catalog_failure_text("boom"), "Prime Agent daemon catalog failed: boom");
}

#[test]
fn source_path_detection_uses_the_src_directory() {
    assert!(is_daemon_catalog_source_path("/pkg/src/modes/daemon/daemon-catalog-entry.ts", "/pkg"));
    assert!(!is_daemon_catalog_source_path("/pkg/dist/modes/daemon/daemon-catalog-entry.js", "/pkg"));
}

#[test]
fn entrypoint_resolution_prefers_source_when_running_from_source() {
    let error = resolve_daemon_catalog_entrypoint(
        "/definitely-missing-package",
        "/definitely-missing-package/src/x.ts",
        &vec![],
    )
    .expect_err("no entrypoint");
    assert_eq!(error, "Cannot locate the daemon catalog entrypoint");
}

#[test]
fn session_info_round_trips_over_the_wire() {
    let original = SessionInfo {
        created: Some(0),
        modified: Some(5_000),
        state: Some(SessionState { status: SessionStateStatus::Archived }),
        agent_status: Some(AgentStatus {
            summary: "done".to_string(),
            task_state: Some(AgentTaskState::Completed),
            based_on_message_count: 1,
        }),
        ..session("abc", Some("named"))
    };
    let wire = serialize_session_info(&original);
    assert_eq!(wire.created, "1970-01-01T00:00:00.000Z");
    assert_eq!(wire.modified, "1970-01-01T00:00:05.000Z");
    let restored = deserialize_session_info(&wire);
    assert_eq!(restored.path, original.path);
    assert_eq!(restored.modified, Some(5000));
    assert_eq!(restored.state.map(|state| state.status), Some(SessionStateStatus::Archived));
    assert_eq!(
        restored.agent_status.and_then(|status| status.task_state),
        Some(AgentTaskState::Completed)
    );
}

#[test]
fn catalog_session_match_prefers_prefix_and_rejects_ambiguity() {
    let sessions = vec![session("abc123", None), session("abc999", None), session("zzz", Some("named"))];
    assert_eq!(
        resolve_catalog_session_match(&sessions, "zzz").expect("ok").expect("found").id,
        "zzz"
    );
    assert_eq!(
        resolve_catalog_session_match(&sessions, "named").expect("ok").expect("found").id,
        "zzz"
    );
    assert_eq!(
        resolve_catalog_session_match(&sessions, "abc").expect_err("ambiguous"),
        "Ambiguous session selector \"abc\""
    );
    assert!(resolve_catalog_session_match(&sessions, "missing").expect("ok").is_none());
}

#[test]
fn request_and_outbound_guards_match_the_typescript() {
    assert!(is_catalog_request(&json("{\"type\":\"request\",\"id\":\"1\",\"command\":\"list\"}")));
    assert!(!is_catalog_request(&json("{\"type\":\"request\",\"id\":\"1\",\"command\":\"other\"}")));
    assert!(!is_catalog_request(&json("{\"type\":\"request\",\"command\":\"list\"}")));
    assert!(is_catalog_outbound(&json("{\"type\":\"ready\"}")));
    assert!(is_catalog_outbound(&json("{\"type\":\"response\",\"id\":\"1\",\"success\":true}")));
    assert!(!is_catalog_outbound(&json("{\"type\":\"response\"}")));
}

#[test]
fn request_parsing_reads_every_command_shape() {
    let list = parse_catalog_request(&json(
        "{\"type\":\"request\",\"id\":\"1\",\"command\":\"list\",\"cwd\":\"/tmp\"}",
    ))
    .expect("parses");
    assert_eq!(list.command(), "list");
    assert_eq!(list.id(), "1");
    let interrupted = parse_catalog_request(&json(
        "{\"type\":\"request\",\"id\":\"2\",\"command\":\"mark_interrupted\",\"sessionPath\":\"/tmp/s.jsonl\",\"activeSessionId\":\"a\",\"operations\":[\"prompt\"]}",
    ))
    .expect("parses");
    match interrupted {
        CatalogRequest::MarkInterrupted { operations, .. } => {
            assert_eq!(operations, vec!["prompt".to_string()])
        }
        other => panic!("unexpected request: {other:?}"),
    }
}

#[test]
fn worker_interrupted_content_matches_the_typescript() {
    assert!(WORKER_INTERRUPTED_CONTENT.starts_with("<prime_agent_worker_interrupted>\n"));
    assert!(WORKER_INTERRUPTED_CONTENT.ends_with("</prime_agent_worker_interrupted>"));
}

#[test]
fn requests_are_read_back_from_their_line() {
    let mut client = DaemonCatalogClient::new();
    let first = client.list(Some("/tmp"), None);
    let second = client.archive("/s.jsonl", "s");
    assert_ne!(first.id(), second.id());
    let line = catalog_line(&first.to_value());
    assert!(line.ends_with('\n'));
    assert_eq!(read_catalog_line(line.trim_end()), Some(first));
    assert_eq!(read_catalog_line("not json"), None);
}

#[test]
fn a_list_is_answered_with_its_sessions() {
    let mut client = DaemonCatalogClient::new();
    let request = client.list(Some("/tmp"), None);
    match handle_catalog_request(&request, &CatalogEvent::Start) {
        CatalogAction::List { cwd, .. } => assert_eq!(cwd.as_deref(), Some("/tmp")),
        other => panic!("unexpected action: {other:?}"),
    }
    let listed = CatalogEvent::Listed(Ok(vec![session("abc", Some("named"))]));
    match handle_catalog_request(&request, &listed) {
        CatalogAction::Reply(CatalogOutbound::Response { id, success, data, .. }) => {
            assert_eq!(id, request.id());
            assert!(success);
            let sessions = list_result(&data.expect("data"));
            assert_eq!(sessions.len(), 1);
            assert_eq!(sessions[0].name.as_deref(), Some("named"));
        }
        other => panic!("unexpected action: {other:?}"),
    }
    match handle_catalog_request(&request, &CatalogEvent::Listed(Err("boom".to_string()))) {
        CatalogAction::Reply(CatalogOutbound::Response { success, error, .. }) => {
            assert!(!success);
            assert_eq!(error.as_deref(), Some("boom"));
        }
        other => panic!("unexpected action: {other:?}"),
    }
}

#[test]
fn answers_settle_their_request_once() {
    let mut client = DaemonCatalogClient::new();
    assert!(client.start());
    assert_eq!(client.handle_message(&json("{\"type\":\"ready\"}")), CatalogMessage::Ready);
    let request = client.resolve("abc", "/tmp", None);
    let id = request.id().to_string();
    let line = client
        .request(&request, PendingCatalogRequest { wants_progress: true, wants_sessions: true })
        .expect("sent");
    assert!(line.ends_with('\n'));
    let progress = progress_message(&request, 1, 2).to_value();
    assert_eq!(
        client.handle_message(&progress),
        CatalogMessage::Progress { id: id.clone(), loaded: 1, total: 2 }
    );
    match client.handle_message(&session_message(&request, &session("abc", None)).to_value()) {
        CatalogMessage::Session { session, .. } => assert_eq!(session.id, "abc"),
        other => panic!("unexpected message: {other:?}"),
    }
    let answer = json(&format!(
        "{{\"type\":\"response\",\"id\":\"{id}\",\"success\":true,\"data\":{{\"path\":\"/s.jsonl\"}}}}"
    ));
    match client.handle_message(&answer) {
        CatalogMessage::Settled { id: settled, result } => {
            assert_eq!(settled, id);
            assert!(result.is_ok());
        }
        other => panic!("unexpected message: {other:?}"),
    }
    assert_eq!(client.handle_message(&answer), CatalogMessage::Nothing);
    assert!(request_timeout_text(&request).contains("resolve"));
}

#[test]
fn a_closed_catalog_rejects_what_waits() {
    let mut client = DaemonCatalogClient::new();
    let request = client.delete("/s.jsonl");
    assert!(
        client
            .request(&request, PendingCatalogRequest { wants_progress: false, wants_sessions: false })
            .is_err()
    );
    client.start();
    client.handle_message(&json("{\"type\":\"ready\"}"));
    let request = client.rename("/s.jsonl", "name");
    client
        .request(&request, PendingCatalogRequest { wants_progress: false, wants_sessions: false })
        .expect("sent");
    assert_eq!(client.handle_close(), Some(vec![request.id().to_string()]));
}

#[test]
fn results_are_read() {
    assert!(resolve_result(&Json::Null).is_err());
    assert!(!archive_result(&Json::Null));
    assert_eq!(reported_count(-1), 0);
    assert_eq!(reported_count(3), 3);
    let deleted = DeleteSessionFileResult::Deleted { method: DeleteSessionFileMethod::Trash };
    assert_ne!(
        deletion_value(&deleted),
        deletion_value(&DeleteSessionFileResult::Error { error: "boom".to_string() })
    );
}

#[test]
fn lines_that_are_no_requests_are_passed_over() {
    assert!(parse_catalog_request(&json("{\"type\":\"request\",\"id\":\"1\",\"command\":\"rename\"}")).is_none());
    assert!(resolve_daemon_catalog_entrypoint(
        "/pkg",
        "/pkg/src/x.ts",
        &vec!["/pkg/src/modes/daemon/daemon-catalog-entry.ts".to_string()]
    )
    .is_ok());
}

#[test]
fn sessions_are_read_from_lists() {
    let mut row = json(
        "[\"/s.jsonl\",\"s\",\"/tmp\",null,null,null,2,\"c\",\"m\",3,\"first\",\"all\"]",
    );
    let read = SessionInfoWire::from_value(&row).expect("session");
    assert_eq!(read.path, "/s.jsonl");
    assert_eq!(read.name, None);
    assert_eq!(read.rlm_depth, Some(2));
    assert_eq!(read.message_count, 3);
    assert_eq!(read.all_messages_text, "all");
    let by_name = SessionInfoWire::from_value(&read.to_value());
    assert_eq!(by_name, Some(read));
    if let Json::Array(fields) = &mut row {
        fields.pop();
    }
    assert!(SessionInfoWire::from_value(&row).is_none());
}
