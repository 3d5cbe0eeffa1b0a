use pi_daemon::json::{Json, Num, as_double, json_from_value, parse_json, print_json, value_from_json};
use pi_daemon::daemon_runtime_identity::{
    DaemonRuntimeEnvironment, PRIME_AGENT_BUILD_ID_ENV, PRIME_AGENT_LAUNCHER_PATH_ENV,
    get_daemon_runtime_identity, normalize_lexically,
};
use pi_daemon::daemon_session_id::{
    format_session_display_id, matches_saved_session_selector, matches_session_id_suffix,
    normalize_session_id,
};
use pi_daemon::text_map::TextMap;

fn environment(variable: Option<(&str, &str)>) -> DaemonRuntimeEnvironment {
    let mut variables: TextMap<String> = TextMap::new();
    if let Some((key, value)) = variable {
        variables.insert(key.to_string(), value.to_string());
    }
    DaemonRuntimeEnvironment {
        variables,
        bundled_build_id: None,
        version: "1.2.3".to_string(),
        current_dir: "/work".to_string(),
    }
}

#[test]
fn build_id_precedence_matches_the_typescript() {
    // An explicit variable wins, the empty one included.
    let explicit = environment(Some((PRIME_AGENT_BUILD_ID_ENV, "build-1")));
    let identity = get_daemon_runtime_identity(&explicit, None, "/usr/bin/prime-agent");
    assert_eq!(identity.build_id, "build-1");

    let empty = environment(Some((PRIME_AGENT_BUILD_ID_ENV, "")));
    let identity = get_daemon_runtime_identity(&empty, None, "/usr/bin/prime-agent");
    assert_eq!(identity.build_id, "");

    let none = environment(None);
    let identity = get_daemon_runtime_identity(&none, None, "/usr/bin/prime-agent");
    assert_eq!(identity.build_id, format!("release-{}", "1.2.3"));
}

#[test]
fn optional_paths_are_omitted_when_absent_or_empty() {
    let none = environment(None);
    let identity = get_daemon_runtime_identity(&none, None, "prime-agent");
    assert!(identity.entrypoint_path.is_none());
    assert!(identity.launcher_path.is_none());

    let empty = environment(Some((PRIME_AGENT_LAUNCHER_PATH_ENV, "")));
    let identity = get_daemon_runtime_identity(&empty, Some(""), "prime-agent");
    assert!(identity.entrypoint_path.is_none());
    assert!(identity.launcher_path.is_none());

    let launcher = environment(Some((PRIME_AGENT_LAUNCHER_PATH_ENV, "bin/launcher")));
    let identity = get_daemon_runtime_identity(&launcher, Some("bin/cli.js"), "/exe");
    assert!(identity.launcher_path.unwrap().ends_with("bin/launcher"));
    assert!(identity.entrypoint_path.unwrap().ends_with("bin/cli.js"));
    assert!(identity.executable_path.ends_with("exe"));
}

#[test]
fn drive_roots_survive_the_lexical_collapse() {
    let rooted = normalize_lexically("/tmp/x");
    assert!(rooted.starts_with('/'), "root separator dropped: {rooted}");
    assert_eq!(normalize_lexically("C:registry"), "C:registry");
}

#[test]
fn paths_are_collapsed() {
    assert_eq!(normalize_lexically("/a/./b/../c"), "/a/c");
    let identity = get_daemon_runtime_identity(&environment(None), Some("bin/../cli.js"), "exe");
    assert_eq!(identity.executable_path, "/work/exe");
    assert_eq!(identity.entrypoint_path.as_deref(), Some("/work/cli.js"));
}

#[test]
fn display_id_is_the_trailing_twelve_characters() {
    assert_eq!(format_session_display_id("0011223344556677"), "223344556677");
    assert_eq!(format_session_display_id("abc"), "abc");
    assert_eq!(format_session_display_id("00112233-4455-6677"), "223344556677");
}

#[test]
fn suffix_matching_requires_hex_identifiers() {
    assert!(matches_session_id_suffix("00112233", "2233"));
    assert!(!matches_session_id_suffix("hello", "lo"));
}

#[test]
fn shown_ids_lead_back_to_their_session() {
    let id = "0A1B2C3D-4E5F-4A6B-8C7D-0123456789AB";
    assert_eq!(normalize_session_id(id), "0a1b2c3d4e5f4a6b8c7d0123456789ab");
    assert!(matches_session_id_suffix(id, &format_session_display_id(id)));
    assert!(matches_saved_session_selector(id, "0a1b"));
    assert!(matches_saved_session_selector("named", "na"));
    assert!(!matches_saved_session_selector("named", "ed"));
}

#[test]
fn normal_forms_are_stable() {
    for id in ["0A-1b", "Stra\u{df}e-\u{c4}", "\u{130}-9", "plain", ""] {
        let normal = normalize_session_id(id);
        assert_eq!(normalize_session_id(&normal), normal);
        assert!(!normal.contains('-'));
    }
    assert_eq!(normalize_session_id("AB-CD"), normalize_session_id("a-bcd"));
    assert!(matches_saved_session_selector("0A-1B", "0A-"));
    assert!(matches_saved_session_selector("0A-1B", "1b"));
    assert!(!matches_session_id_suffix("00ff", ""));
    assert!(!matches_saved_session_selector("Named", "na"));
}

#[test]
fn numbers_keep_their_kind() {
    for text in ["0.5", "7", "-7", "1e300", "[1,2.5,{\"a\":-3}]"] {
        let document = parse_json(text.as_bytes()).expect("document");
        assert_eq!(json_from_value(value_from_json(&document)), document);
    }
    let five = json_from_value(serde_json::Value::from(5u64));
    assert_eq!(five, Json::Number(Num::Unsigned(5)));
    assert!(matches!(as_double(&Num::Unsigned(5)), Num::Double(_)));
    assert_eq!(print_json(&Json::Number(Num::Whole(5))), "5.0");
}
