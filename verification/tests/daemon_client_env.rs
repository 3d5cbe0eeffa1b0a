use pi_daemon::daemon_client_env::{
    ClientEnvGate, EnvMap, enter_client_env, exec_env_for_session, filter_client_env,
    leave_client_env,
};

fn keys() -> Vec<String> {
    vec!["HERDR_PANE_ID".to_string(), "HERDR_TAB_ID".to_string(), "TERM_PROGRAM".to_string()]
}

#[test]
fn filters_to_the_allowlist() {
    let mut env = EnvMap::new();
    env.insert("HERDR_PANE_ID".to_string(), "pane-1".to_string());
    env.insert("SOMETHING_ELSE".to_string(), "nope".to_string());
    let filtered = filter_client_env(Some(&env), &keys()).expect("allowlisted key survives");
    assert_eq!(filtered.len(), 1);
    assert_eq!(filtered.get("HERDR_PANE_ID").map(String::as_str), Some("pane-1"));
    assert!(filter_client_env(None, &keys()).is_none());
    assert!(filter_client_env(Some(&EnvMap::new()), &keys()).is_none());
}

#[test]
fn exec_env_pins_every_allowlisted_key() {
    let env = exec_env_for_session(None, &EnvMap::new(), &keys());
    assert_eq!(env.len(), keys().len());
}

#[test]
fn client_env_window_is_restored() {
    let mut process = EnvMap::new();
    process.insert("TERM_PROGRAM".to_string(), "daemon".to_string());
    process.insert("HOME".to_string(), "/home".to_string());
    let mut env = EnvMap::new();
    env.insert("HERDR_PANE_ID".to_string(), "pane-window".to_string());
    let previous = enter_client_env(&mut process, &env, &keys());
    assert_eq!(process.get("HERDR_PANE_ID").map(String::as_str), Some("pane-window"));
    assert!(process.get("TERM_PROGRAM").is_none());
    assert_eq!(process.get("HOME").map(String::as_str), Some("/home"));
    leave_client_env(&mut process, &previous);
    assert!(process.get("HERDR_PANE_ID").is_none());
    assert_eq!(process.get("TERM_PROGRAM").map(String::as_str), Some("daemon"));
    assert_eq!(process.len(), 2);
}

#[test]
fn pinned_and_shared_loads_exclude_each_other() {
    let mut gate = ClientEnvGate::new();
    assert!(gate.begin_shared());
    assert!(gate.claim());
    assert!(!gate.claim());
    assert!(!gate.begin_shared());
    assert!(!gate.begin_pinned());
    gate.end_shared();
    assert!(gate.begin_pinned());
    assert!(!gate.begin_shared());
    gate.end_pinned();
    assert!(gate.begin_shared());
}
