use pi_daemon::active_session_state::{
    ActiveSessionState, AgentSessionRuntime, TextSet, active_session_id_from,
    create_active_session_id, extension_ui_payload_fields, resolve_active_session_state,
};
use pi_daemon::json::{Json, parse_json};
use pi_daemon::text_map::TextMap;

fn state(active_session_id: &str, session_id: &str, name: Option<&str>) -> ActiveSessionState {
    let mut runtime = AgentSessionRuntime::default();
    runtime.session.session_id = session_id.to_string();
    runtime.session.session_name = name.map(str::to_string);
    ActiveSessionState::new(active_session_id, runtime)
}

#[test]
fn selectors_find_sessions_by_id_name_and_ending() {
    let mut sessions: TextMap<ActiveSessionState> = TextMap::new();
    sessions.insert(
        "aabbccddeeff".to_string(),
        state("aabbccddeeff", "001122334455", Some("alpha")),
    );
    for selector in ["aabbccddeeff", "001122334455", "alpha", "eeff", "EE-FF", "4455"] {
        let found = resolve_active_session_state(&sessions, selector).ok().expect(selector);
        assert_eq!(found.active_session_id, "aabbccddeeff");
    }
    for selector in ["zzz", "aabb", "lpha", ""] {
        let error = resolve_active_session_state(&sessions, selector).err().expect("unknown");
        assert_eq!(error.message(), format!("Unknown active session: {selector}"));
    }
}

#[test]
fn ambiguous_selectors_are_reported() {
    let mut sessions: TextMap<ActiveSessionState> = TextMap::new();
    sessions.insert("11aa".to_string(), state("11aa", "s1", Some("twin")));
    sessions.insert("22aa".to_string(), state("22aa", "s2", Some("twin")));
    let error = resolve_active_session_state(&sessions, "aa").err().expect("ambiguous");
    assert_eq!(
        error.message(),
        "Ambiguous active session \"aa\": matches 11aa/s1 (twin), 22aa/s2 (twin)"
    );
    let error = resolve_active_session_state(&sessions, "twin").err().expect("ambiguous");
    assert!(error.message().starts_with("Ambiguous active session \"twin\": matches "));
    assert!(resolve_active_session_state(&sessions, "s2").is_ok());
}

#[test]
fn generated_active_session_ids_avoid_existing_ids() {
    let id = create_active_session_id(None, 1).expect("id");
    assert_eq!(id.len(), 12);
    let mut index: TextSet = TextMap::new();
    index.insert(id.clone(), ());
    let next = create_active_session_id(Some(&index), 8).expect("another id");
    assert_ne!(id, next);
}

#[test]
fn taken_ids_are_passed_over() {
    let uuid = "0a1b2c3d-4e5f-4a6b-8c7d-0123456789ab";
    assert_eq!(active_session_id_from(uuid, None), Some("0123456789ab".to_string()));
    let mut index: TextSet = TextMap::new();
    index.insert("0123456789ab".to_string(), ());
    assert_eq!(active_session_id_from(uuid, Some(&index)), None);
    assert_eq!(create_active_session_id(None, 0), None);
    let empty: TextSet = TextMap::new();
    assert!(create_active_session_id(Some(&empty), 1).is_some());
}

#[test]
fn active_session_state_starts_with_the_session_generation() {
    let session = state("abc", "def", None);
    assert_eq!(session.event_generation, "abc");
    assert_eq!(session.last_event_sequence, 0);
    assert!(session.clients.is_empty());
}

#[test]
fn payload_fields_are_listed() {
    let payload = parse_json(b"{\"title\":\"t\",\"options\":[]}").expect("document");
    assert_eq!(extension_ui_payload_fields(&payload), vec!["title".to_string(), "options".to_string()]);
    assert!(extension_ui_payload_fields(&Json::Null).is_empty());
}
