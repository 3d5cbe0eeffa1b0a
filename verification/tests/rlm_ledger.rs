use pi_daemon::json::{Json, Num, parse_json, set_member};
use pi_daemon::path_facts::{PathFacts, basename_of, collapse, dirname_of, join_dir, resolve};
use pi_daemon::rlm_ledger::{
    RLM_LEDGER_DIR, RlmLedgerDeleteReason, RlmLedgerRecord, RlmLedgerSeedRegistryEntry,
    RlmSpawnInput, RlmSpawnLedger, SeedRoot, SeedScan, consistent_edges, parse_ledger, parse_ledger_line,
    read_legacy_rlm_subagent_registry, read_registry_for_session_file, record_line,
    registry_session_id, rlm_ledger_path, seed_files, session_file_names, tombstone_saved_session_delete, with_passive_rlm_descendant_infos,
};
use pi_daemon::rlm_subagent_display::{
    RlmSubagentDisplayEntry, display_entry_from_value, is_rlm_subagent_display_entry,
    read_rlm_subagent_display_entry, rlm_subagent_display_path, write_rlm_subagent_display_entry,
};
use pi_daemon::session_info::SessionInfo;
use pi_daemon::text_map::TextMap;

const PARENT: &str = "/sessions/parent.jsonl";
const CHILD: &str = "/sessions/child.jsonl";
const OTHER: &str = "/sessions/other.jsonl";

fn json(text: &str) -> Json {
    parse_json(text.as_bytes()).expect("document")
}

fn with(value: Json, key: &str, member: Json) -> Json {
    match value {
        Json::Object(mut members) => {
            set_member(&mut members, key, member);
            Json::Object(members)
        }
        other => other,
    }
}

fn files(names: &[&str]) -> PathFacts {
    let mut facts = PathFacts::none();
    facts.files = names.iter().map(|name| name.to_string()).collect();
    facts
}

fn ledger() -> RlmSpawnLedger {
    RlmSpawnLedger::new("/agent", "/sessions", Vec::new())
}

fn spawn(child_id: &str, parent: &str, child: &str, depth: i64, name: &str) -> RlmSpawnInput {
    RlmSpawnInput {
        child_id: child_id.to_string(),
        parent: parent.to_string(),
        child: child.to_string(),
        depth,
        name: name.to_string(),
    }
}

fn info(path: &str) -> SessionInfo {
    SessionInfo {
        path: path.to_string(),
        id: basename_of(path),
        cwd: "/work".to_string(),
        name: None,
        state: None,
        parent_session_path: None,
        rlm_depth: 0,
        created: Some(0),
        modified: Some(0),
        message_count: 0,
        first_message: String::new(),
        all_messages_text: String::new(),
        agent_status: None,
        usage: None,
    }
}

#[test]
fn the_ledger_path_is_hashed_per_sessions_dir() {
    let path = rlm_ledger_path("/agent", "/agent/sessions");
    assert!(path.contains(RLM_LEDGER_DIR));
    assert!(path.ends_with(".jsonl"));
    let file_name = basename_of(&path);
    assert_eq!(file_name.len(), ".jsonl".len() + 16);
    assert_ne!(path, rlm_ledger_path("/agent", "/agent/other"));
}

#[test]
fn ledger_lines_are_parsed_and_validated() {
    let spawn_line = "{\"v\":1,\"op\":\"spawn\",\"at\":\"2026-01-01T00:00:00.000Z\",\"childId\":\"c1\",\"parent\":\"/p.jsonl\",\"child\":\"/c.jsonl\",\"depth\":1,\"name\":\"child\"}";
    let record = parse_ledger_line(spawn_line, 0).expect("parses").expect("record");
    match record {
        RlmLedgerRecord::Spawn(record) => {
            assert_eq!(record.child_id, "c1");
            assert_eq!(record.depth, 1);
        }
        other => panic!("unexpected record: {other:?}"),
    }
    let unknown_op = "{\"v\":1,\"op\":\"future\",\"at\":\"x\"}";
    assert!(parse_ledger_line(unknown_op, 0).expect("ok").is_none());
    let bad_depth = "{\"v\":1,\"op\":\"spawn\",\"at\":\"x\",\"childId\":\"c\",\"parent\":\"p\",\"child\":\"c\",\"depth\":0,\"name\":\"n\"}";
    assert_eq!(
        parse_ledger_line(bad_depth, 3).expect_err("invalid"),
        "Malformed RLM ledger line 4: invalid spawn record"
    );
    let missing_version = "{\"op\":\"meta\",\"at\":\"x\",\"sessionsDir\":\"/s\"}";
    assert_eq!(
        parse_ledger_line(missing_version, 0).expect_err("invalid"),
        "Malformed RLM ledger line 1: missing v/at"
    );
    assert!(
        parse_ledger_line("{not json", 1)
            .expect_err("invalid")
            .starts_with("Malformed RLM ledger line 2: ")
    );
}

#[test]
fn records_are_read_back() {
    let line = "{\"v\":1,\"op\":\"delete\",\"at\":\"x\",\"childId\":\"c\",\"child\":\"/c.jsonl\",\"reason\":\"parent-teardown\"}";
    let record = parse_ledger_line(line, 0).expect("parses").expect("record");
    assert_eq!(record.op(), "delete");
    let printed = record_line(&record);
    assert_eq!(parse_ledger_line(&printed, 0), Ok(Some(record)));
    for reason in [
        RlmLedgerDeleteReason::User,
        RlmLedgerDeleteReason::ParentTeardown,
        RlmLedgerDeleteReason::Revoked,
        RlmLedgerDeleteReason::Gc,
    ] {
        assert_eq!(RlmLedgerDeleteReason::from_str(reason.as_str()), Some(reason));
    }
    assert_eq!(RlmLedgerDeleteReason::from_str("other"), None);
}

#[test]
fn appends_replay_into_edges_and_tombstones() {
    let paths = files(&[PARENT, CHILD]);
    let mut ledger = ledger();
    ledger.append_spawn(&spawn("c1", PARENT, CHILD, 1, "child"), &paths).expect("spawn");
    assert_eq!(ledger.edges(false, &paths).len(), 1);
    ledger.append_rename("c1", CHILD, "renamed", &paths);
    assert_eq!(ledger.edges(false, &paths)[0].name, "renamed");
    ledger.append_delete("c1", CHILD, RlmLedgerDeleteReason::User, &paths);
    assert!(ledger.edges(false, &paths).is_empty());
    assert_eq!(ledger.edges(true, &paths)[0].deleted, Some(RlmLedgerDeleteReason::User));
    ledger.append_rename_by_child_path(CHILD, "again", &paths);
    assert_eq!(parse_ledger(&ledger.lines).expect("parses").len(), ledger.lines.len());
}

#[test]
fn spawn_rejects_invalid_and_duplicate_inputs() {
    let paths = files(&[PARENT, CHILD]);
    let mut ledger = ledger();
    assert_eq!(
        ledger.append_spawn(&spawn("", PARENT, CHILD, 1, "n"), &paths).expect_err("invalid"),
        "RLM ledger: invalid spawn for <missing childId> (depth 1)"
    );
    assert_eq!(
        ledger.append_spawn(&spawn("c1", PARENT, CHILD, 0, "n"), &paths).expect_err("invalid"),
        "RLM ledger: invalid spawn for c1 (depth 0)"
    );
    ledger.append_spawn(&spawn("c1", PARENT, CHILD, 1, "n"), &paths).expect("spawn");
    assert!(
        ledger
            .append_spawn(&spawn("c2", PARENT, CHILD, 1, "n"), &paths)
            .expect_err("duplicate")
            .starts_with("RLM ledger: duplicate child session path ")
    );
}

#[test]
fn families_follow_the_ledger() {
    let paths = files(&[PARENT, CHILD, OTHER]);
    let names = session_file_names(&vec![
        "parent.jsonl".to_string(),
        "child.jsonl".to_string(),
        "other.jsonl".to_string(),
        "notes.txt".to_string(),
    ]);
    assert_eq!(names.len(), 3);
    let mut ledger = ledger();
    ledger.append_spawn(&spawn("c1", PARENT, CHILD, 1, "child"), &paths).expect("spawn");
    let read: TextMap<SessionInfo> = TextMap::new();
    let family = ledger.family(&names, &paths, &read);
    assert_eq!(family.len(), 3);
    let child_row = family.iter().find(|row| row.path == CHILD).expect("child row");
    assert_eq!(child_row.rlm_depth, 1);
    assert_eq!(child_row.parent_session_path.as_deref(), Some(PARENT));
    let siblings = ledger.siblings(PARENT, None, &names, &paths, &read);
    assert_eq!(siblings.len(), 2);
    assert!(siblings.iter().any(|row| row.path == OTHER));
    let siblings = ledger.siblings(CHILD, None, &names, &paths, &read);
    assert_eq!(siblings.len(), 1);
    assert_eq!(siblings[0].path, CHILD);
}

#[test]
fn dead_edges_are_dropped_and_delete_policy_tombstones_children() {
    let paths = files(&[PARENT, CHILD]);
    let mut ledger = ledger();
    ledger.append_spawn(&spawn("c1", PARENT, CHILD, 1, "child"), &paths).expect("spawn");
    let paths = files(&[CHILD]);
    assert!(ledger.live_edges(&paths).is_empty());

    let child = info(CHILD);
    let result = tombstone_saved_session_delete(&mut ledger, CHILD, None, Some(&child), &paths);
    assert!(result.ledger_edge.is_some());
    assert_eq!(ledger.edges(true, &paths)[0].deleted, Some(RlmLedgerDeleteReason::User));

    let top_level =
        tombstone_saved_session_delete(&mut ledger, PARENT, Some("top-level"), None, &paths);
    assert!(top_level.ledger_edge.is_none());
}

fn listed(
    child_id: &str,
    session_name: &str,
    session_file: &str,
    rlm_depth: Option<i64>,
) -> RlmLedgerSeedRegistryEntry {
    RlmLedgerSeedRegistryEntry {
        child_id: child_id.to_string(),
        session_name: session_name.to_string(),
        session_file: session_file.to_string(),
        rlm_depth,
        status: "running".to_string(),
    }
}

fn seeded(
    names: &[&str],
    paths: &PathFacts,
    registry: impl Fn(&str) -> Vec<RlmLedgerSeedRegistryEntry>,
) -> SeedScan {
    let names: Vec<String> = names.iter().map(|name| name.to_string()).collect();
    let roots: Vec<SeedRoot> = seed_files(&names, "/sessions")
        .into_iter()
        .map(|file| SeedRoot { entries: registry(&file), file })
        .collect();
    let mut scan = SeedScan::start(&roots, paths);
    while let Some(current) = scan.current() {
        let entries = registry(current);
        scan.feed_at(&entries, paths, "2026-01-01T00:00:00.000Z");
    }
    scan
}

fn spawns(scan: &SeedScan) -> Vec<(String, String, i64)> {
    scan.records
        .iter()
        .map(|record| match record {
            RlmLedgerRecord::Spawn(spawn) => {
                (spawn.parent.clone(), spawn.child.clone(), spawn.depth)
            }
            other => panic!("unexpected record: {other:?}"),
        })
        .collect()
}

#[test]
fn seeded_spawns_never_lead_back() {
    let paths = files(&[PARENT, CHILD, OTHER]);
    let own = seeded(&["parent.jsonl"], &paths, |_| vec![listed("c", "n", PARENT, None)]);
    assert!(own.records.is_empty());
    let circle = seeded(&["child.jsonl", "parent.jsonl"], &paths, |file| {
        vec![listed("c", "n", if file == PARENT { CHILD } else { PARENT }, None)]
    });
    assert_eq!(spawns(&circle), vec![(CHILD.to_string(), PARENT.to_string(), 1)]);
    assert_eq!(circle.queue.len(), 2);
    assert!(circle.waiting.is_empty());
}

#[test]
fn listed_files_are_walked_below_their_parents() {
    let paths = files(&[PARENT, CHILD, OTHER]);
    let scan = seeded(&["child.jsonl", "other.jsonl", "parent.jsonl"], &paths, |file| {
        if file == PARENT {
            vec![listed("c", "n", CHILD, None)]
        } else if file == CHILD {
            vec![listed("o", "n", OTHER, None)]
        } else {
            Vec::new()
        }
    });
    assert_eq!(
        spawns(&scan),
        vec![
            (PARENT.to_string(), CHILD.to_string(), 1),
            (CHILD.to_string(), OTHER.to_string(), 2),
        ]
    );
}

#[test]
fn seeding_publishes_registry_edges_once() {
    let paths = files(&[PARENT, CHILD]);
    let scan = seeded(&["child.jsonl", "parent.jsonl"], &paths, |file| {
        if file == PARENT { vec![listed("seed-child", "seeded", CHILD, Some(0))] } else { Vec::new() }
    });
    let payload = scan.payload_at("/sessions", "2026-01-01T00:00:00.000Z").expect("payload");
    let lines: Vec<String> = payload.lines().map(str::to_string).collect();
    let seeded = RlmSpawnLedger::new("/agent", "/sessions", lines);
    let edges = seeded.edges(false, &paths);
    assert_eq!(edges.len(), 1);
    assert_eq!(edges[0].child_id, "seed-child");
    assert_eq!(edges[0].depth, 1);
    assert_eq!(consistent_edges(&edges, &paths).len(), 1);
}

#[test]
fn passive_descendants_are_merged_and_cwd_filtered() {
    let paths = files(&[PARENT, CHILD]);
    let mut ledger = ledger();
    ledger.append_spawn(&spawn("c1", PARENT, CHILD, 1, "child"), &paths).expect("spawn");
    let saved = vec![info(PARENT)];
    let live = ledger.live_edges(&paths);
    let mut read: TextMap<SessionInfo> = TextMap::new();
    read.insert(CHILD.to_string(), info(CHILD));
    let merged = with_passive_rlm_descendant_infos(&saved, &live, &paths, &read, None, None);
    assert_eq!(merged.len(), 2);
    let filtered = with_passive_rlm_descendant_infos(
        &saved,
        &live,
        &paths,
        &read,
        Some("/definitely/not/the/cwd"),
        None,
    );
    assert_eq!(filtered.len(), 1);
}

#[test]
fn the_legacy_registry_read_is_tolerant_and_latest_wins() {
    let entry = |name: &str, status: &str| {
        format!(
            "{{\"type\":\"rlm_subagent\",\"childId\":\"c1\",\"sessionName\":\"{name}\",\"sessionFile\":\"/tmp/c1.jsonl\",\"parentSessionId\":\"p\",\"createdAt\":1,\"updatedAt\":\"x\",\"status\":\"{status}\"}}"
        )
    };
    let contents =
        format!("{}\nnot json\n{}\n", entry("first", "running"), entry("second", "deleted"));
    let entries = read_legacy_rlm_subagent_registry(&contents);
    assert_eq!(entries.len(), 1);
    assert_eq!(entries[0].session_name, "second");
    assert_eq!(entries[0].session_dir, "/tmp");
    assert!(read_legacy_rlm_subagent_registry("").is_empty());
}

#[test]
fn the_display_path_is_the_child_session_dir() {
    assert!(rlm_subagent_display_path("/tmp/child").ends_with("rlm-subagent.json"));
}

#[test]
fn the_entry_guard_matches_the_typescript() {
    let value = json(
        "{\"type\":\"rlm_subagent\",\"childId\":\"c\",\"sessionName\":\"n\",\"sessionDir\":\"/tmp\",\"sessionFile\":\"/tmp/s.jsonl\",\"status\":\"running\",\"createdAt\":1}",
    );
    assert!(is_rlm_subagent_display_entry(&value));
    let value = with(value, "rlmMaxDepth", json("-1"));
    assert!(!is_rlm_subagent_display_entry(&value));
    let value = with(value, "rlmMaxDepth", json("2"));
    assert!(is_rlm_subagent_display_entry(&value));
    let value = with(value, "status", Json::Str("other".to_string()));
    assert!(!is_rlm_subagent_display_entry(&value));
}

#[test]
fn writes_are_atomic_and_deletion_tombstones_win() {
    let entry = |status: &str| {
        let mut entry =
            RlmSubagentDisplayEntry::new("child-1", "child", "/tmp/dir", "/tmp/child.jsonl", status);
        entry.created_at = Num::Whole(1);
        entry
    };
    let running = write_rlm_subagent_display_entry(&entry("running"), None).expect("writes");
    let stored = read_rlm_subagent_display_entry(&running).expect("stored");
    assert_eq!(stored.status, "running");
    assert_eq!(stored.child_id, "child-1");
    let deleted =
        write_rlm_subagent_display_entry(&entry("deleted"), Some(&running)).expect("writes");
    assert!(write_rlm_subagent_display_entry(&entry("completed"), Some(&deleted)).is_none());
    assert!(write_rlm_subagent_display_entry(&entry("deleted"), Some(&deleted)).is_none());
    let stored = read_rlm_subagent_display_entry(&deleted).expect("stored");
    assert_eq!(stored.status, "deleted");
    assert!(display_entry_from_value(&stored.to_value()).is_some());
    assert!(read_rlm_subagent_display_entry("not json").is_none());
}

#[test]
fn paths_have_parts() {
    assert_eq!(dirname_of("/a/b.jsonl"), "/a");
    assert_eq!(basename_of("/a/b.jsonl"), "b.jsonl");
    assert_eq!(join_dir("/a", "b"), "/a/b");
    assert_eq!(resolve("b", Some("/a")), "/a/b");
    assert_eq!(collapse("/a/../b", false), "/b");
    let mut facts = PathFacts::none();
    facts.canonical.insert("/link".to_string(), "/target".to_string());
    facts.files.push("/target".to_string());
    assert_eq!(facts.canonical("/link"), "/target");
    assert!(facts.is_file("/link"));
    assert!(!facts.is_file("/other"));
}

#[test]
fn a_new_file_begins_with_the_directory_of_the_ledger() {
    let mut ledger = ledger();
    let line = ledger.begin_file().expect("first line");
    match parse_ledger_line(&line, 0).expect("sound line") {
        Some(RlmLedgerRecord::Meta(meta)) => assert_eq!(meta.sessions_dir, "/sessions"),
        other => panic!("no meta record: {other:?}"),
    }
    assert_eq!(ledger.lines, vec![line]);
    assert_eq!(ledger.begin_file(), None);
}

#[test]
fn registries_are_kept_under_the_id_of_the_session() {
    assert_eq!(
        registry_session_id("{\"type\":\"session\",\"id\":\"abc\"}"),
        Some("abc".to_string())
    );
    assert_eq!(registry_session_id("{\"type\":\"session\"}"), None);
    assert_eq!(registry_session_id("{\"id\":3}"), None);
    assert_eq!(registry_session_id("no document"), None);
}

#[test]
fn seeding_takes_the_entries_of_a_registry() {
    let contents = concat(&[
        "{\"type\":\"rlm_subagent\",\"childId\":\"c1\",\"sessionName\":\"one\",",
        "\"sessionDir\":\"/sessions\",\"sessionFile\":\"/sessions/c1.jsonl\",",
        "\"parentSessionId\":\"p\",\"createdAt\":1,\"updatedAt\":\"\",",
        "\"rlmDepth\":2,\"status\":\"running\"}\n",
        "no document\n",
        "{\"type\":\"rlm_subagent\",\"childId\":\"c3\",\"sessionName\":\"three\",",
        "\"sessionFile\":\"/sessions/c3.jsonl\",\"rlmDepth\":2,\"status\":\"deleted\"}\n",
        "{\"type\":\"rlm_subagent\",\"childId\":\"c2\",\"sessionName\":\"two\",",
        "\"sessionFile\":\"/sessions/c2.jsonl\",\"status\":\"unheard\"}\n",
    ]);
    let seeds = read_registry_for_session_file(&contents);
    assert_eq!(seeds.len(), 2);
    assert_eq!(seeds[0].child_id, "c1");
    assert_eq!(seeds[0].session_name, "one");
    assert_eq!(seeds[0].session_file, "/sessions/c1.jsonl");
    assert_eq!(seeds[0].rlm_depth, Some(2));
    assert_eq!(seeds[0].status, "running");
    // An entry that lacks a member of the full form keeps only its names.
    assert_eq!(seeds[1].child_id, "c3");
    assert_eq!(seeds[1].rlm_depth, None);
    assert_eq!(seeds[1].status, "deleted");
    assert!(read_registry_for_session_file("").is_empty());
}

fn concat(parts: &[&str]) -> String {
    parts.concat()
}

#[test]
fn models_are_read_from_lists() {
    let value = json(
        "{\"type\":\"rlm_subagent\",\"childId\":\"c\",\"sessionName\":\"n\",\"sessionDir\":\"/tmp\",\"sessionFile\":\"/tmp/s.jsonl\",\"status\":\"running\",\"createdAt\":1,\"updatedAt\":\"u\",\"model\":[\"p\",\"m\"]}",
    );
    let model = display_entry_from_value(&value).and_then(|entry| entry.model).expect("model");
    assert_eq!((model.provider.as_str(), model.model_id.as_str()), ("p", "m"));
    let short = with(value, "model", json("[\"p\"]"));
    assert!(display_entry_from_value(&short).is_none());
    let long = with(short, "model", json("[\"p\",\"m\",1]"));
    assert!(display_entry_from_value(&long).is_none());
}
