use pi_daemon::agent_roster::{
    AgentRoster, AgentRosterMutation, AgentRosterStatus, AgentStatusInput, RegisteredHeartbeatFlags,
    RosterEntryMarks, RosterSessionSummary, RosterSummaryView, SessionPaths, WorkerRosterEntry,
    agent_roster_entry_from_value, agent_roster_entry_to_value, canonical_session_path,
    classify_agent_status, classify_session_roster_status, is_session_summary_busy,
    passivated_worker_roster_entry, read_summary, roster_agent_id_for_entry,
    roster_agent_id_for_summary, session_summary_from_roster_entry, worker_roster_entry_from_summary,
};
use pi_daemon::daemon_worker_protocol::DaemonWorkerRosterOutbound;
use pi_daemon::json::{Json, parse_json};
use pi_daemon::path_facts::PathFacts;

fn paths() -> SessionPaths {
    SessionPaths { facts: PathFacts::none(), current_dir: "/work".to_string() }
}

fn summary(active_session_id: Option<&str>, activity: &str) -> RosterSessionSummary {
    RosterSessionSummary {
        id: "id".to_string(),
        lifecycle: "live".to_string(),
        activity: activity.to_string(),
        is_session_active: activity == "working",
        active_session_id: active_session_id.map(str::to_string),
        session_id: "session".to_string(),
        cwd: "/tmp".to_string(),
        is_streaming: false,
        is_compacting: false,
        attached_clients: 0,
        message_count: 0,
        ..Default::default()
    }
}

fn worker_entry(agent_id: &str, summary: RosterSessionSummary) -> WorkerRosterEntry {
    WorkerRosterEntry { agent_id: agent_id.to_string(), queued_child: None, seeded_cwd: None, summary }
}

#[test]
fn status_formula_matches_the_typescript() {
    assert_eq!(
        classify_agent_status(AgentStatusInput { resident: false, queued_child: true, busy: false }),
        AgentRosterStatus::Running
    );
    assert_eq!(
        classify_agent_status(AgentStatusInput { resident: false, queued_child: false, busy: true }),
        AgentRosterStatus::Inactive
    );
    assert_eq!(
        classify_agent_status(AgentStatusInput { resident: true, queued_child: false, busy: true }),
        AgentRosterStatus::Running
    );
    assert_eq!(
        classify_agent_status(AgentStatusInput { resident: true, queued_child: false, busy: false }),
        AgentRosterStatus::Idle
    );
    assert!(is_session_summary_busy(false, Some(true)));
    assert!(!is_session_summary_busy(false, None));
    assert_eq!(
        classify_session_roster_status(
            &RosterSummaryView {
                active_session_id: Some("a".to_string()),
                activity: Some("idle".to_string()),
                is_session_active: Some(false)
            },
            false
        ),
        AgentRosterStatus::Idle
    );
}

#[test]
fn background_residency_does_not_override_foreground_idle_but_queued_work_does() {
    let mut summary = RosterSummaryView {
        active_session_id: Some("a".into()),
        activity: Some("idle".into()),
        is_session_active: Some(true),
    };
    assert_eq!(classify_session_roster_status(&summary, false), AgentRosterStatus::Idle);
    assert!(is_session_summary_busy(true, None), "display classification must not weaken shutdown safety");
    assert_eq!(classify_session_roster_status(&summary, true), AgentRosterStatus::Running);
    summary.activity = Some("working".into());
    assert_eq!(classify_session_roster_status(&summary, false), AgentRosterStatus::Running);
    summary.activity = None;
    assert_eq!(classify_session_roster_status(&summary, false), AgentRosterStatus::Running);
}

#[test]
fn roster_agent_id_qualifies_child_ids_with_the_parent() {
    let paths = paths();
    assert_eq!(
        roster_agent_id_for_summary(
            Some("subagent"),
            Some("c1"),
            "s",
            Some("/p/session.jsonl"),
            None,
            &paths
        ),
        format!("{}#c1", canonical_session_path("/p/session.jsonl", &paths))
    );
    assert_eq!(
        roster_agent_id_for_summary(
            Some("subagent"),
            Some("c1"),
            "s",
            None,
            Some("parent-active"),
            &paths
        ),
        "parent-active#c1"
    );
    assert_eq!(
        roster_agent_id_for_summary(Some("subagent"), Some("c1"), "s", None, None, &paths),
        "c1"
    );
    assert_eq!(
        roster_agent_id_for_summary(Some("top-level"), Some("c1"), "s", None, None, &paths),
        "s"
    );
}

#[test]
fn passivation_clears_residency_fields() {
    let mut base = summary(Some("active"), "working");
    base.has_active_heartbeat = Some(true);
    base.has_registered_heartbeat = Some(true);
    base.has_registered_cron_job = Some(true);
    base.is_bash_running = Some(true);
    base.has_running_rlm_children = Some(true);
    base.worker_state = Some("ready".to_string());
    let entry = worker_entry("a", base);
    let passivated = passivated_worker_roster_entry(&entry, None);
    assert!(passivated.summary.active_session_id.is_none());
    assert_eq!(passivated.summary.activity, "idle");
    assert_eq!(passivated.summary.attached_clients, 0);
    assert!(passivated.summary.has_active_heartbeat.is_none());
    assert!(passivated.summary.worker_state.is_none());
    assert_eq!(passivated.summary.id, "session");

    let with_registrations = passivated_worker_roster_entry(
        &entry,
        Some(RegisteredHeartbeatFlags {
            has_registered_heartbeat: true,
            has_registered_cron_job: false,
        }),
    );
    assert_eq!(with_registrations.summary.has_registered_heartbeat, Some(true));
    assert!(with_registrations.summary.has_registered_cron_job.is_none());
}

#[test]
fn roster_store_indexes_and_mutations() {
    let paths = paths();
    let mut roster = AgentRoster::new();
    let mut first = summary(Some("active-1"), "working");
    first.session_file = Some("/tmp/session.jsonl".to_string());
    let entry = worker_entry("agent-1", first);
    let stored = roster.write(entry.clone(), Some("worker-1"), None, &paths);
    assert_eq!(stored.status, AgentRosterStatus::Running);
    assert_eq!(stored.worker_id.as_deref(), Some("worker-1"));
    assert!(roster.has("agent-1"));
    assert!(roster.by_active_session_id("active-1").is_some());
    let file = canonical_session_path("/tmp/session.jsonl", &paths);
    assert!(roster.by_session_file(&file).is_some());
    assert!(roster.has_session_file(&file));
    assert_eq!(roster.entries_for_worker("worker-1").len(), 1);

    // A second agent claiming the same file evicts the first.
    let mut second = summary(None, "idle");
    second.session_file = Some("/tmp/session.jsonl".to_string());
    roster.write(worker_entry("agent-2", second), None, None, &paths);
    assert!(!roster.has("agent-1"));
    assert!(roster.has("agent-2"));
    assert!(roster.by_active_session_id("active-1").is_none());

    roster.amend(
        "agent-2",
        RosterEntryMarks {
            status_label: Some(Some("failed".to_string())),
            last_heard_from_at: None,
        },
    );
    assert_eq!(roster.get("agent-2").expect("entry").status_label.as_deref(), Some("failed"));
    assert_eq!(roster.values().len(), 1);
    roster.delete("agent-2", &paths);
    assert!(!roster.has("agent-2"));
    assert!(!roster.has_session_file(&file));
    assert!(matches!(roster.mutations.last(), Some(AgentRosterMutation::Delete { .. })));
}

#[test]
fn queued_children_are_labelled_queued() {
    let mut roster = AgentRoster::new();
    let mut entry = summary(None, "idle");
    entry.runtime_kind = Some("subagent".to_string());
    entry.rlm_child_id = Some("child".to_string());
    let stored = roster.write(
        WorkerRosterEntry {
            agent_id: "child".to_string(),
            queued_child: Some(true),
            seeded_cwd: None,
            summary: entry,
        },
        None,
        Some("failed"),
        &paths(),
    );
    assert_eq!(stored.status_label.as_deref(), Some("queued"));
    assert_eq!(stored.status, AgentRosterStatus::Running);
}

#[test]
fn summaries_keep_unknown_fields() {
    let mut value = summary(Some("active"), "idle").to_value();
    if let Json::Object(members) = &mut value {
        members.push(("inventedLater".to_string(), Json::Bool(true)));
    }
    let read = read_summary(&value).expect("summary");
    assert_eq!(read.active_session_id.as_deref(), Some("active"));
    assert_eq!(read.to_value().get("inventedLater"), Some(&Json::Bool(true)));
    assert!(read_summary(&Json::Null).is_none());
}

#[test]
fn entries_are_read_back() {
    let mut roster = AgentRoster::new();
    let stored = roster.write(
        worker_entry("agent", summary(Some("active"), "working")),
        Some("worker"),
        Some("label"),
        &paths(),
    );
    let value = agent_roster_entry_to_value(&stored);
    assert_eq!(value.str_at("status"), Some("running"));
    assert_eq!(value.str_at("workerId"), Some("worker"));
    assert_eq!(agent_roster_entry_from_value(&value), Some(stored));
}

#[test]
fn canonical_paths_follow_what_is_on_disk() {
    let mut paths = paths();
    assert_eq!(canonical_session_path("a/../s.jsonl", &paths), "/work/s.jsonl");
    paths.facts.canonical.insert("/work/s.jsonl".to_string(), "/real/s.jsonl".to_string());
    assert_eq!(canonical_session_path("s.jsonl", &paths), "/real/s.jsonl");
}

#[test]
fn worker_entries_are_named_after_their_summary() {
    let paths = paths();
    let mut child = summary(None, "idle");
    child.runtime_kind = Some("subagent".to_string());
    child.rlm_child_id = Some("c".to_string());
    assert_eq!(roster_agent_id_for_entry(&child, &paths), "c");
    let entry = worker_roster_entry_from_summary(&child, &paths);
    assert_eq!(entry.agent_id, "c");
    let shown = session_summary_from_roster_entry(
        &child,
        Some(AgentRosterStatus::Idle),
        Some("label"),
        Some("then"),
    );
    assert_eq!(shown.to_value().str_at("rosterStatus"), Some("idle"));
}

#[test]
fn roster_frames_say_what_changed() {
    let delta = DaemonWorkerRosterOutbound::RosterDelta {
        entries: vec![worker_entry("agent", summary(None, "idle"))],
        removed_agent_ids: Some(vec!["gone".to_string()]),
        snapshot: Some(true),
    };
    let value = delta.to_value();
    assert_eq!(value.str_at("type"), Some("roster_delta"));
    assert_eq!(value.get("entries").and_then(Json::as_array).map(Vec::len), Some(1));
    assert_eq!(value.get("removedAgentIds"), parse_json(b"[\"gone\"]").ok().as_ref());
    assert_eq!(value.bool_at("snapshot"), Some(true));
    assert_eq!(
        DaemonWorkerRosterOutbound::RosterHeartbeat.to_value(),
        parse_json(b"{\"type\":\"roster_heartbeat\"}").expect("document")
    );
}

#[test]
fn entries_are_read_from_lists() {
    let mut roster = AgentRoster::new();
    let stored = roster.write(
        worker_entry("agent", summary(Some("active"), "working")),
        None,
        None,
        &paths(),
    );
    let value = agent_roster_entry_to_value(&stored);
    let fields = vec![
        value.get("agentId").expect("id").clone(),
        Json::Null,
        Json::Null,
        value.get("summary").expect("summary").clone(),
        value.get("status").expect("status").clone(),
        Json::Str("label".to_string()),
    ];
    let read = agent_roster_entry_from_value(&Json::Array(fields.clone())).expect("entry");
    assert_eq!(read.agent_id, stored.agent_id);
    assert_eq!(read.summary, stored.summary);
    assert_eq!(read.status_label.as_deref(), Some("label"));
    assert!(agent_roster_entry_from_value(&Json::Array(fields[..4].to_vec())).is_none());
}
