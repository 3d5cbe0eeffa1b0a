use pi_daemon::daemon_errors::{
    DaemonError, DaemonErrorInfo, DaemonErrorResponse, DaemonSessionCreateError,
    DaemonSessionRecoveringError, daemon_error_from_response, deserialize_daemon_create_error,
    deserialize_daemon_error, serialize_daemon_error,
};
use pi_daemon::json::{Json, parse_json};
use pi_daemon::protocol::DaemonResponse;

fn response(error: &str, error_info: Option<DaemonErrorInfo>) -> DaemonErrorResponse {
    DaemonErrorResponse { error: Some(error.to_string()), error_info }
}

#[test]
fn wraps_generic_create_failures_so_the_cli_boundary_prints_one_line() {
    let error = deserialize_daemon_create_error(
        &response("Failed to spawn session worker: spawn node EMFILE", None),
        "",
    );
    assert_eq!(error.message(), "Failed to spawn session worker: spawn node EMFILE");
    assert!(matches!(error, DaemonError::Message(_)));
}

#[test]
fn preserves_typed_daemon_errors_for_their_dedicated_boundaries() {
    let error = deserialize_daemon_create_error(
        &response(
            "session already active",
            Some(DaemonErrorInfo::SessionAlreadyActive {
                session_path: "/tmp/session.jsonl".to_string(),
                active_session_id: None,
            }),
        ),
        "wording",
    );
    match error {
        DaemonError::SessionAlreadyActive(inner) => {
            assert_eq!(inner.session_path, "/tmp/session.jsonl");
            assert_eq!(inner.active_session_id, None);
        }
        other => panic!("unexpected {other:?}"),
    }
}

#[test]
fn serializes_for_old_clients_and_deserializes_for_new_clients() {
    let error = DaemonError::SessionRecovering(DaemonSessionRecoveringError::new("active-gap"));
    let error_info = serialize_daemon_error(&error).expect("known");
    assert_eq!(
        error_info.to_value(),
        parse_json(b"{\"code\":\"session_recovering\",\"activeSessionId\":\"active-gap\"}")
            .expect("document")
    );
    // Old client / new daemon: errorInfo is ignored, the message carries the state.
    assert_eq!(error.message(), "Active session active-gap is recovering; retry shortly");

    let round_tripped = deserialize_daemon_error(&response(&error.message(), Some(error_info)), "");
    match round_tripped {
        DaemonError::SessionRecovering(inner) => assert_eq!(inner.active_session_id, "active-gap"),
        other => panic!("unexpected {other:?}"),
    }

    let legacy = deserialize_daemon_error(&response("Unknown active session: active-gap", None), "");
    assert!(!matches!(legacy, DaemonError::SessionRecovering(_)));
}

#[test]
fn command_result_uncertain_without_a_class_stays_a_plain_error() {
    let error = deserialize_daemon_error(
        &response(
            "uncertain",
            Some(DaemonErrorInfo::CommandResultUncertain {
                client_id: "client-1".to_string(),
                command_id: "cmd-1".to_string(),
            }),
        ),
        "",
    );
    assert_eq!(error.message(), "uncertain");
}

#[test]
fn infos_are_read_back() {
    let infos = vec![
        DaemonErrorInfo::MissingSessionCwd { issue: Json::Str("gone".to_string()) },
        DaemonErrorInfo::SessionImportFileNotFound { file_path: "/f".to_string() },
        DaemonErrorInfo::SessionAlreadyActive {
            session_path: "/s".to_string(),
            active_session_id: Some("a".to_string()),
        },
        DaemonErrorInfo::SessionRecovering { active_session_id: "a".to_string() },
        DaemonErrorInfo::CommandResultUncertain {
            client_id: "c".to_string(),
            command_id: "1".to_string(),
        },
    ];
    for info in infos {
        let value = info.to_value();
        assert_eq!(value.str_at("code"), Some(info.code()));
        assert_eq!(DaemonErrorInfo::from_value(&value), Some(info));
    }
    assert!(DaemonErrorInfo::from_value(&Json::Null).is_none());
}

#[test]
fn responses_become_client_errors() {
    let failed = DaemonResponse::failure(Some("1"), "list", "boom", None);
    assert_eq!(daemon_error_from_response(&failed, "").message(), "boom");
    assert_eq!(DaemonSessionCreateError::new("m").message, "m");
    assert_eq!(DaemonSessionRecoveringError::new("x").message(), "Active session x is recovering; retry shortly");
}

#[test]
fn infos_are_read_from_lists() {
    let read = |text: &str| DaemonErrorInfo::from_value(&parse_json(text.as_bytes()).expect("document"));
    assert_eq!(
        read("[\"session_already_active\",\"/s\"]"),
        Some(DaemonErrorInfo::SessionAlreadyActive {
            session_path: "/s".to_string(),
            active_session_id: None,
        })
    );
    assert_eq!(
        read("[\"session_already_active\",\"/s\",\"a\"]"),
        Some(DaemonErrorInfo::SessionAlreadyActive {
            session_path: "/s".to_string(),
            active_session_id: Some("a".to_string()),
        })
    );
    assert_eq!(
        read("[\"session_recovering\",\"a\"]"),
        Some(DaemonErrorInfo::SessionRecovering { active_session_id: "a".to_string() })
    );
    assert_eq!(read("[\"session_recovering\",\"a\",1]"), None);
    assert_eq!(read("[\"command_result_uncertain\",\"c\"]"), None);
    assert_eq!(read("[\"unknown\"]"), None);
    assert_eq!(read("[]"), None);
}
