use pi_daemon::daemon_routed_client::{
    DaemonControlPlaneTransportError, DaemonDirectTransportClosedError, DaemonRoutedClient,
    RequestRoute, control_plane_error, create_daemon_session_transport,
    read_session_transport_ticket, serves_direct, session_transport_ticket, ticket_expired,
    ticket_socket_matches,
};
use pi_daemon::daemon_worker_protocol::DaemonSocketIdentity;
use pi_daemon::json::{Json, parse_json, remove_member, set_member};
use pi_daemon::protocol::{DaemonClientError, DaemonResponse, DaemonSocketClosedError};

fn json(text: &str) -> Json {
    parse_json(text.as_bytes()).expect("document")
}

fn ticket_value() -> Json {
    json(
        "{\"purpose\":\"session_client\",\"socketPath\":\"/tmp/worker.sock\",\"socketIdentity\":{\"dev\":1,\"ino\":2},\"workerInstanceId\":\"worker-1\",\"activeSessionId\":\"active-1\",\"grantId\":\"grant-1\",\"token\":\"token-1\",\"expiresAt\":\"2999-01-01T00:00:00.000Z\"}",
    )
}

fn with(value: Json, key: &str, member: Json) -> Json {
    match value {
        Json::Object(mut members) => {
            set_member(&mut members, key, member);
            Json::Object(members)
        }
        other => other,
    }
}

#[test]
fn the_ticket_reader_requires_every_field() {
    assert!(read_session_transport_ticket(&ticket_value()).is_some());
    let missing_purpose = with(ticket_value(), "purpose", Json::Str("other".to_string()));
    assert!(read_session_transport_ticket(&missing_purpose).is_none());
    let missing_identity = with(ticket_value(), "socketIdentity", json("{\"dev\":1}"));
    assert!(read_session_transport_ticket(&missing_identity).is_none());
    let missing_token = match ticket_value() {
        Json::Object(mut members) => {
            remove_member(&mut members, "token");
            Json::Object(members)
        }
        other => other,
    };
    assert!(read_session_transport_ticket(&missing_token).is_none());
}

#[test]
fn direct_transport_close_errors_use_the_direct_worker_socket() {
    let cause = DaemonClientError::SocketClosed(DaemonSocketClosedError::new(
        "/tmp/worker.sock",
        Some("shutdown"),
        Some("socket hangup"),
    ));
    let error = DaemonDirectTransportClosedError::new(&cause);
    assert_eq!(error.socket_path, "direct-worker");
    assert_eq!(error.daemon_closing_reason.as_deref(), Some("shutdown"));
    assert_eq!(error.cause.as_deref(), Some(cause.message().as_str()));
    assert!(error.message().contains("Socket: direct-worker"));
    let control = DaemonControlPlaneTransportError::new("boom");
    assert_eq!(control.message, "Daemon control-plane transport failed: boom");
}

#[test]
fn session_plane_commands_go_to_the_supervisor_when_direct_is_down() {
    let mut routed = DaemonRoutedClient::new(1);
    assert!(routed.is_connected(true, false));
    assert!(!routed.has_direct_transport(false));
    assert!(routed.is_control_plane_ready(true, true));
    assert_eq!(routed.request("prompt", false, true), RequestRoute::ControlPlane);
    assert_eq!(routed.request("prompt", true, true), RequestRoute::Direct(1));
    assert!(routed.close().is_some());
    assert!(routed.close().is_none());
}

#[test]
fn reattach_falls_back_to_the_supervisor_on_success() {
    let mut routed = DaemonRoutedClient::new(1);
    assert_eq!(routed.direct, Some(1));
    assert_eq!(routed.request("reattach", true, true), RequestRoute::Reattach);
    assert_eq!(routed.reattached(true), Some(1));
    assert_eq!(routed.direct, None);
}

#[test]
fn control_plane_errors_are_wrapped() {
    let error = control_plane_error(DaemonClientError::Message("no fake response".to_string()));
    assert_eq!(error.message(), "Daemon control-plane transport failed: no fake response");
}

#[test]
fn direct_disabled_returns_the_supervisor_unchanged() {
    assert!(create_daemon_session_transport("active-1", true, false, true).is_none());
    assert!(create_daemon_session_transport("active-1", false, false, false).is_none());
    let command = create_daemon_session_transport("active-1", false, false, true).expect("ticket");
    assert_eq!(command.string_field("activeSessionId"), Some("active-1"));
}

#[test]
fn listeners_hear_of_a_lost_direct_link() {
    let mut routed = DaemonRoutedClient::new(1);
    let first = routed.on_close();
    let second = routed.on_close();
    let message = routed.on_message();
    routed.off_close(first);
    assert_eq!(routed.emit_message(), vec![message]);
    routed.off_message(message);
    assert!(routed.emit_message().is_empty());
    let error = DaemonClientError::Message("gone".to_string());
    assert!(routed.bind_direct(2, &error).is_none());
    let notice = routed.bind_direct(1, &error).expect("notice");
    assert_eq!(notice.listeners, vec![second]);
    assert_eq!(routed.direct, None);
    assert!(routed.bind_direct(1, &error).is_none());
}

#[test]
fn tickets_have_to_fit() {
    let response = DaemonResponse::success(None, "get_direct_worker_transport", Some(ticket_value()));
    let ticket = session_transport_ticket(&response, "active-1", 0).expect("ticket");
    assert_eq!(ticket.grant_id, "grant-1");
    assert!(session_transport_ticket(&response, "other", 0).is_none());
    assert!(session_transport_ticket(&response, "active-1", 64_000_000_000_000).is_none());
    assert!(!ticket_expired(None, 0));
    assert!(ticket_expired(Some(5), 5));
    assert!(ticket_socket_matches(&ticket, Some(DaemonSocketIdentity { dev: 1, ino: 2 })));
    assert!(!ticket_socket_matches(&ticket, Some(DaemonSocketIdentity { dev: 1, ino: 3 })));
    assert!(!ticket_socket_matches(&ticket, None));
    assert!(serves_direct(true, true, true));
    assert!(!serves_direct(false, true, true));
}
