use pi_daemon::clock::{iso_from_ms, parse_iso_ms};
use pi_daemon::heartbeat_catalog::{
    HEARTBEAT_HELLO_TIMEOUT_MS, HeartbeatStep, heartbeats_from_response,
    is_unknown_daemon_command_error, is_unknown_heartbeats_command, list_daemon_heartbeats,
};
use pi_daemon::json::{Json, parse_json};
use pi_daemon::protocol::{DaemonClientError, DaemonResponse, get_daemon_socket_close_reason};
use pi_daemon::saved_session_catalog::{
    DaemonSavedSessionCatalogContext, SessionListUpdate, delete_daemon_saved_session, delete_result,
    list_daemon_saved_sessions, rename_daemon_saved_session, rename_result,
    saved_sessions_from_response, session_list_update,
};
use pi_daemon::saved_session_info::{
    AgentStatusRecord, DaemonSavedSessionInfo, SessionInfo, SessionState,
    deserialize_saved_session_info, serialize_saved_session_info,
};

fn json(text: &str) -> Json {
    parse_json(text.as_bytes()).expect("document")
}

fn response(text: &str) -> DaemonResponse {
    DaemonResponse::from_value(&json(text)).expect("response")
}

fn session() -> SessionInfo {
    SessionInfo {
        path: "/tmp/s.jsonl".to_string(),
        id: "abc".to_string(),
        cwd: "/tmp".to_string(),
        name: Some("named".to_string()),
        state: Some(SessionState { status: Some("archived".to_string()) }),
        parent_session_path: Some("/tmp/p.jsonl".to_string()),
        rlm_depth: Some(1),
        created_ms: Some(0),
        modified_ms: Some(1_000),
        message_count: 2,
        first_message: "hello".to_string(),
        all_messages_text: "hello world".to_string(),
        agent_status: Some(AgentStatusRecord {
            summary: "done".to_string(),
            task_state: Some("completed".to_string()),
            based_on_message_count: 2,
        }),
        usage: None,
    }
}

const SAVED: &str = "{\"path\":\"/tmp/s.jsonl\",\"id\":\"abc\",\"cwd\":\"/tmp\",\"created\":\"1970-01-01T00:00:00.000Z\",\"modified\":\"1970-01-01T00:00:01.000Z\",\"messageCount\":1,\"firstMessage\":\"hello\",\"allMessagesText\":\"hello\"}";

#[test]
fn round_trips_through_the_wire_shape() {
    let original = session();
    let wire = serialize_saved_session_info(&original);
    assert_eq!(wire.created, "1970-01-01T00:00:00.000Z");
    assert_eq!(wire.modified, "1970-01-01T00:00:01.000Z");
    let restored = deserialize_saved_session_info(&wire);
    assert_eq!(restored.path, original.path);
    assert_eq!(restored.id, original.id);
    assert_eq!(restored.created, Some(0));
    assert_eq!(restored.modified, Some(1000));
    assert_eq!(restored.message_count, 2);
    assert_eq!(restored.state.and_then(|state| state.status).as_deref(), Some("archived"));
    assert_eq!(
        restored.agent_status.and_then(|status| status.task_state).as_deref(),
        Some("completed")
    );
}

#[test]
fn absent_fields_stay_absent() {
    let mut bare = session();
    bare.name = None;
    bare.state = None;
    bare.parent_session_path = None;
    bare.rlm_depth = None;
    bare.agent_status = None;
    let wire = serialize_saved_session_info(&bare);
    assert!(wire.name.is_none());
    assert!(wire.state.is_none());
    assert!(wire.parent_session_path.is_none());
    assert!(wire.agent_status.is_none());
    let restored = deserialize_saved_session_info(&wire);
    assert!(restored.name.is_none());
    assert!(restored.state.is_none());
}

#[test]
fn rows_are_read_back() {
    let wire = serialize_saved_session_info(&session());
    assert_eq!(DaemonSavedSessionInfo::from_value(&wire.to_value()), Some(wire));
    assert!(DaemonSavedSessionInfo::from_value(&json("{\"path\":\"/tmp\"}")).is_none());
}

#[test]
fn times_are_written_and_read() {
    assert_eq!(iso_from_ms(Some(1_500)), "1970-01-01T00:00:01.500Z");
    assert_eq!(parse_iso_ms("1970-01-01T00:00:01.500Z"), Some(1_500));
    assert_eq!(parse_iso_ms("yesterday"), None);
}

#[test]
fn list_sends_the_session_context_and_returns_rows() {
    let context = DaemonSavedSessionCatalogContext::ActiveSessionId {
        active_session_id: "active-1".to_string(),
    };
    let command = list_daemon_saved_sessions(&context, "all");
    assert_eq!(command.string_field("activeSessionId"), Some("active-1"));
    assert_eq!(command.string_field("scope"), Some("all"));
    assert!(command.field("cwd").is_none());
    let answer = response(&format!(
        "{{\"type\":\"response\",\"command\":\"list_saved_sessions\",\"success\":true,\"data\":{{\"sessions\":[{SAVED}]}}}}"
    ));
    let sessions = saved_sessions_from_response(&answer, "").expect("ok");
    assert_eq!(sessions.len(), 1);
    assert_eq!(sessions[0].id, "abc");
}

#[test]
fn list_sends_the_cwd_context_without_an_active_session() {
    let context = DaemonSavedSessionCatalogContext::Cwd {
        cwd: "/tmp".to_string(),
        session_dir: Some("/tmp/sessions".to_string()),
    };
    let command = list_daemon_saved_sessions(&context, "cwd");
    assert_eq!(command.string_field("cwd"), Some("/tmp"));
    assert_eq!(command.string_field("sessionDir"), Some("/tmp/sessions"));
    assert!(command.field("activeSessionId").is_none());
    let answer = response(
        "{\"type\":\"response\",\"command\":\"list_saved_sessions\",\"success\":true,\"data\":{\"sessions\":[]}}",
    );
    assert!(saved_sessions_from_response(&answer, "").expect("ok").is_empty());
}

#[test]
fn a_failed_response_is_a_daemon_error() {
    let answer = response(
        "{\"type\":\"response\",\"command\":\"list_saved_sessions\",\"success\":false,\"error\":\"boom\"}",
    );
    let error = saved_sessions_from_response(&answer, "").expect_err("fails");
    assert_eq!(error.message(), "boom");
    assert_eq!(rename_result(&answer, "").expect_err("fails").message(), "boom");
    assert_eq!(delete_result(&answer, "").expect_err("fails").message(), "boom");
}

#[test]
fn rename_and_delete_send_their_commands() {
    let context =
        DaemonSavedSessionCatalogContext::Cwd { cwd: "/tmp".to_string(), session_dir: None };
    let command = rename_daemon_saved_session(&context, "/tmp/s.jsonl", "new name");
    assert_eq!(command.type_, "rename_saved_session");
    assert_eq!(command.string_field("name"), Some("new name"));
    assert!(command.field("activeSessionId").is_none());
    let answer =
        response("{\"type\":\"response\",\"command\":\"rename_saved_session\",\"success\":true}");
    assert!(rename_result(&answer, "").is_ok());
    let command = delete_daemon_saved_session(&context, "/tmp/s.jsonl");
    assert_eq!(command.type_, "delete_saved_session");
    assert_eq!(command.string_field("sessionPath"), Some("/tmp/s.jsonl"));
}

#[test]
fn listings_report_their_progress() {
    let progress = json("{\"type\":\"session_list_progress\",\"loaded\":1,\"total\":3}");
    match session_list_update(&progress) {
        Some(SessionListUpdate::Progress { loaded, total }) => assert_eq!((loaded, total), (1, 3)),
        _ => panic!("no progress"),
    }
    let row = json(&format!("{{\"type\":\"session_list_item\",\"session\":{SAVED}}}"));
    match session_list_update(&row) {
        Some(SessionListUpdate::Session(session)) => assert_eq!(session.id, "abc"),
        _ => panic!("no row"),
    }
    assert!(session_list_update(&json("{\"type\":\"other\"}")).is_none());
}

#[test]
fn returns_empty_without_the_capability() {
    assert!(matches!(list_daemon_heartbeats(true, false, None), HeartbeatStep::Nothing));
    match list_daemon_heartbeats(false, false, None) {
        HeartbeatStep::WaitForHello(timeout) => assert_eq!(timeout, HEARTBEAT_HELLO_TIMEOUT_MS),
        _ => panic!("no wait"),
    }
}

#[test]
fn returns_the_heartbeats_and_forwards_the_session_id() {
    match list_daemon_heartbeats(true, true, Some("active-1")) {
        HeartbeatStep::Request(command) => {
            assert_eq!(command.type_, "heartbeats_list");
            assert_eq!(command.string_field("activeSessionId"), Some("active-1"));
        }
        _ => panic!("no request"),
    }
    let answer = response(
        "{\"type\":\"response\",\"command\":\"heartbeats_list\",\"success\":true,\"data\":{\"heartbeats\":[{\"id\":\"h1\"}]}}",
    );
    let heartbeats = heartbeats_from_response(&answer, "").expect("ok");
    assert_eq!(heartbeats.len(), 1);
    assert_eq!(heartbeats[0].fields, vec![("id".to_string(), Json::Str("h1".to_string()))]);
}

#[test]
fn a_failed_response_becomes_a_daemon_error() {
    let answer = response(
        "{\"type\":\"response\",\"command\":\"heartbeats_list\",\"success\":false,\"error\":\"Unknown daemon command: heartbeats_list\"}",
    );
    let error = heartbeats_from_response(&answer, "").expect_err("fails");
    assert!(is_unknown_heartbeats_command(&error));
    assert!(!is_unknown_heartbeats_command(&DaemonClientError::Message("boom".to_string())));
    assert!(is_unknown_daemon_command_error("Unknown daemon command: list", "list"));
    assert!(!is_unknown_daemon_command_error("Unknown daemon command: list", "create"));
    assert_eq!(get_daemon_socket_close_reason(&error), None);
}

#[test]
fn responses_are_read_back() {
    let failed = DaemonResponse::failure(Some("1"), "list", "boom", Some(json("{\"code\":\"x\"}")));
    assert_eq!(DaemonResponse::from_value(&failed.to_value()), Some(failed));
    let done = DaemonResponse::success(None, "list", Some(json("[1]")));
    assert_eq!(DaemonResponse::from_value(&done.to_value()), Some(done));
    assert!(DaemonResponse::from_value(&json("{}")).is_none());
}
