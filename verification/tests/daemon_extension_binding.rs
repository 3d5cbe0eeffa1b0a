use pi_daemon::active_session_state::{AgentSessionRuntime, ActiveSessionState, DaemonExtensionUIResponse};
use pi_daemon::daemon_extension_binding::{
    BindStep, DialogResponseKind, DialogResult, DialogStart, ExtensionBindingError,
    ExtensionUiContext, bind_active_session_state, confirm_payload, editor_payload,
    extension_error_frame, input_payload, is_daemon_dialog_extension_ui_request, present_payload,
    register_extension_ui_request, select_payload, session_event_frame, session_replaced_frame,
    slim_session_event_for_wire,
};
use pi_daemon::daemon_mode::DaemonOutbound;
use pi_daemon::json::{Json, parse_json};

fn json(text: &str) -> Json {
    parse_json(text.as_bytes()).expect("document")
}

fn context(clients: Vec<bool>) -> ExtensionUiContext {
    ExtensionUiContext::new("active-1", clients, None)
}

#[test]
fn message_update_events_lose_the_nested_partial_copy() {
    let event = json(
        "{\"type\":\"message_update\",\"message\":{\"role\":\"assistant\"},\"assistantMessageEvent\":{\"type\":\"text_delta\",\"partial\":{\"role\":\"assistant\"}}}",
    );
    let slim = slim_session_event_for_wire(&event);
    assert!(slim.get("message").is_some());
    let update = slim.get("assistantMessageEvent").expect("update");
    assert!(update.get("partial").is_none());
    assert_eq!(update.str_at("type"), Some("text_delta"));
    assert_eq!(slim_session_event_for_wire(&slim), slim);
}

#[test]
fn other_events_pass_through_untouched() {
    let event = json("{\"type\":\"turn_end\",\"partial\":1}");
    assert_eq!(slim_session_event_for_wire(&event), event);
}

#[test]
fn dialog_results_map_values_and_confirmations() {
    assert_eq!(
        DialogResult::from_response(
            DaemonExtensionUIResponse::Value("picked".to_string()),
            DialogResponseKind::Value
        )
        .value
        .as_deref(),
        Some("picked")
    );
    assert!(
        DialogResult::from_response(
            DaemonExtensionUIResponse::Confirmed(true),
            DialogResponseKind::Confirmed
        )
        .confirmed
    );
    assert_eq!(
        DialogResult::from_response(DaemonExtensionUIResponse::Cancelled, DialogResponseKind::Value)
            .value,
        None
    );
    assert_eq!(
        DialogResult::from_fallback(Some("fallback".to_string()), false, DialogResponseKind::Value)
            .value
            .as_deref(),
        Some("fallback")
    );
}

#[test]
fn non_dialog_methods_need_any_client() {
    let context = context(vec![false]);
    assert!(context.has_extension_ui_client_for_method("notify", None));
    assert!(!context.has_extension_ui_client_for_method("select", None));
}

#[test]
fn theme_switching_is_rejected_in_daemon_mode() {
    let context = context(vec![]);
    assert_eq!(
        context.set_theme().expect_err("unsupported"),
        "Theme switching is not supported in daemon mode"
    );
    assert!(!context.get_tools_expanded());
    assert_eq!(context.get_editor_text(), "");
}

#[test]
fn a_dialog_without_a_supporting_client_uses_the_fallback() {
    let mut context = context(vec![]);
    assert!(!context.has_extension_ui_client_for_method("select", None));
    let start = context.dialog_request(
        "select",
        json("{}"),
        false,
        None,
        None,
        false,
        DialogResponseKind::Value,
    );
    match start {
        DialogStart::Settled(result) => assert_eq!(result.value, None),
        other => panic!("unexpected start: {other:?}"),
    }
    let start = context.dialog_request(
        "confirm",
        json("{}"),
        true,
        None,
        None,
        false,
        DialogResponseKind::Confirmed,
    );
    match start {
        DialogStart::Settled(result) => assert!(!result.confirmed),
        other => panic!("unexpected start: {other:?}"),
    }
}

#[test]
fn a_supporting_client_gets_the_request_and_the_timeout_falls_back() {
    let mut context = context(vec![true]);
    assert!(context.has_extension_ui_client_for_method("select", None));
    let start = context.dialog_request(
        "select",
        json("{\"title\":\"t\"}"),
        false,
        None,
        None,
        false,
        DialogResponseKind::Value,
    );
    let request_id = match start {
        DialogStart::Ask { request_id, frame } => {
            match frame {
                DaemonOutbound::ExtensionUiRequest { method, .. } => assert_eq!(method, "select"),
                other => panic!("unexpected outbound: {other:?}"),
            }
            request_id
        }
        other => panic!("unexpected start: {other:?}"),
    };
    assert!(context.requests.contains_key(&request_id));
    let result =
        context.finish_dialog(&request_id, None, None, false, DialogResponseKind::Value);
    assert_eq!(result.value, None);
    assert!(!context.requests.contains_key(&request_id));
}

#[test]
fn canonical_dialog_uses_live_clients_and_response_registry() {
    let mut context = context(vec![]);
    let live = vec![true];
    assert_eq!(select_payload("Pick", &vec![], None).get("timeout"), Some(&Json::Null));
    let payload = present_payload(&vec![
        ("title".to_string(), Some(json("\"Pick\""))),
        ("options".to_string(), Some(json("[\"one\"]"))),
        ("timeout".to_string(), None),
    ]);
    assert_eq!(payload, json("{\"title\":\"Pick\",\"options\":[\"one\"]}"));
    assert!(payload.get("timeout").is_none());
    let start = context.dialog_request(
        "select",
        payload,
        false,
        Some(&live),
        None,
        false,
        DialogResponseKind::Value,
    );
    let request_id = match start {
        DialogStart::Ask { request_id, .. } => request_id,
        other => panic!("unexpected start: {other:?}"),
    };
    let result = context.finish_dialog(
        &request_id,
        Some(DaemonExtensionUIResponse::Value("one".to_string())),
        None,
        false,
        DialogResponseKind::Value,
    );
    assert_eq!(result.value.as_deref(), Some("one"));
    let pending = context.dialog_request(
        "input",
        present_payload(&vec![("title".to_string(), Some(json("\"Input\"")))]),
        false,
        Some(&live),
        None,
        false,
        DialogResponseKind::Value,
    );
    assert_eq!(context.requests.len(), 1);
    match pending {
        DialogStart::Ask { request_id, .. } => {
            context.finish_dialog(&request_id, None, None, false, DialogResponseKind::Value)
        }
        other => panic!("unexpected start: {other:?}"),
    };
    assert!(context.requests.is_empty());
}

#[test]
fn dialogs_are_told_from_notices() {
    for method in ["select", "confirm", "input", "editor"] {
        assert!(is_daemon_dialog_extension_ui_request(method));
    }
    assert!(!is_daemon_dialog_extension_ui_request("notify"));
    assert_eq!(confirm_payload("t", "m", Some(5)).u64_at("timeout"), Some(5));
    assert_eq!(input_payload("t", Some("p"), None).str_at("placeholder"), Some("p"));
    assert_eq!(editor_payload("t", Some("x")).str_at("prefill"), Some("x"));
}

#[test]
fn notices_carry_what_is_shown() {
    let context = context(vec![true]);
    let (id, frame) = context.notify("hello", Some("info"));
    match frame {
        DaemonOutbound::ExtensionUiRequest { active_session_id, id: sent, method, payload } => {
            assert_eq!(active_session_id, "active-1");
            assert_eq!(sent, id);
            assert_eq!(method, "notify");
            assert_eq!(payload.str_at("message"), Some("hello"));
        }
        other => panic!("unexpected outbound: {other:?}"),
    }
    let (_, frame) = context.set_status("key", "text");
    assert_eq!(frame.active_session_id(), Some("active-1"));
}

#[test]
fn binding_subscribes_before_extensions() {
    let steps = bind_active_session_state(true, true);
    assert!(steps.contains(&BindStep::Unsubscribe));
    assert!(steps.contains(&BindStep::SetSubagentHost));
    assert_eq!(steps.last(), Some(&BindStep::BindExtensions));
    let fresh = bind_active_session_state(false, false);
    assert!(!fresh.contains(&BindStep::Unsubscribe));
    assert!(!fresh.contains(&BindStep::SetSubagentHost));
}

#[test]
fn frames_name_their_session() {
    let event = session_event_frame("a", &json("{\"type\":\"agent_end\"}"));
    assert_eq!(event.to_value().str_at("type"), Some("session_event"));
    let failure = ExtensionBindingError {
        extension_path: Some("/e".to_string()),
        event: None,
        error: "boom".to_string(),
    };
    assert_eq!(extension_error_frame("a", &failure).to_value().str_at("error"), Some("boom"));
    assert_eq!(session_replaced_frame("a", None, vec![]).active_session_id(), Some("a"));
    let mut state = ActiveSessionState::new("a", AgentSessionRuntime::default());
    register_extension_ui_request(&mut state, "request");
    assert!(state.extension_ui_requests.contains_key("request"));
}
