use pi_daemon::daemon_supervisor_ownership::{
    AcquireDaemonSupervisorOwnershipOptions, AdmissionCheck, CanonicalSearch,
    DaemonShutdownAdmission, DaemonSupervisorAlreadyRunningError, DaemonSupervisorHelloIdentity,
    DaemonSupervisorOwnerRecord, DaemonSupervisorOwnership, FenceClear, FenceWait, GuardWait,
    LivenessAnswer, OwnerDirectory, OwnerLiveness, ProcessIdentity, RegistryStep,
    RenewAction, RenewEvent, RenewableRegistryRecord,
    acquire_daemon_shutdown_admission, acquire_daemon_supervisor_ownership, acquire_registry_guard,
    admission_contents, assert_daemon_supervisor_owner_current, check_shutdown_admission,
    clear_startup_fence, default_daemon_supervisor_registry_dir_for, fence_contents,
    holds_owner_files, is_daemon_shutdown_admission_active, is_process_identity_alive,
    legacy_daemon_supervisor_registry_dir_for, list_owner_directories, match_startup_owner,
    matches_exact_process_identity, mutate_daemon_supervisor_owner, new_shutdown_admission,
    owner_conflicts, owner_contents, owner_directory_path, owner_record_fingerprint,
    owner_to_mutate, persist_daemon_startup_fence_from_owner, read_legacy_owners_for_socket,
    read_owner_record, read_owner_scope, read_shutdown_admission, read_startup_fence,
    renew_shutdown_admission, same_owner_record, scope_contents, shutdown_admission_path,
    starting_owner, startup_fence_path, wait_for_daemon_startup_fence,
    with_daemon_supervisor_registry_guard,
};
use pi_daemon::json::{Json, print_json};
use pi_daemon::native_supervisor::supervisor_claim;

fn owner(generation: &str, socket_path: &str) -> DaemonSupervisorOwnerRecord {
    let options = AcquireDaemonSupervisorOwnershipOptions {
        socket_path: socket_path.to_string(),
        descriptor_dir: "/descriptors".to_string(),
        agent_dir: "/agent".to_string(),
        generation: generation.to_string(),
        app_version: "1.2.3".to_string(),
        registry_dir: None,
    };
    let process = ProcessIdentity { pid: 7, process_start_id: Some("start".to_string()) };
    starting_owner(
        &options,
        "token",
        &process,
        socket_path,
        &format!("/descriptors/{generation}"),
        "/agent",
        "2026-01-01T00:00:00.000Z",
    )
}

fn directory(record: &DaemonSupervisorOwnerRecord, alive: bool) -> OwnerDirectory {
    OwnerDirectory {
        path: owner_directory_path("/registry", &record.generation).expect("path"),
        owner: Some(record.clone()),
        scope: Some(record.scope()),
        has_files: true,
        alive,
    }
}

#[test]
fn owners_exclude_each_other() {
    let running = owner("one", "/tmp/daemon.sock");
    let claim = owner("two", "/tmp/daemon.sock");
    assert!(owner_conflicts(&running.scope(), &claim.scope()));
    let plan =
        acquire_daemon_supervisor_ownership(&vec![directory(&running, true)], &claim.scope(), false);
    assert!(plan.refusal.is_some());
    assert!(plan.steps.is_empty());
    let plan =
        acquire_daemon_supervisor_ownership(&vec![directory(&running, false)], &claim.scope(), false);
    assert!(plan.refusal.is_none());
    assert_eq!(plan.steps, vec![RegistryStep::Retire("/registry/one.owner".to_string())]);
    let plan = acquire_daemon_supervisor_ownership(&Vec::new(), &claim.scope(), true);
    assert!(plan.refusal.is_some());
    let elsewhere = owner("three", "/tmp/other.sock");
    let plan = acquire_daemon_supervisor_ownership(
        &vec![directory(&elsewhere, true)],
        &claim.scope(),
        false,
    );
    assert!(plan.refusal.is_none());
}

#[test]
fn owner_records_are_read_back() {
    let record = owner("one", "/tmp/daemon.sock");
    assert_eq!(read_owner_record(&owner_contents(&record)), Some(record.clone()));
    assert_eq!(read_owner_record("{}"), None);
    assert_eq!(read_owner_record("not json"), None);
    let directory = "/registry/one.owner";
    let scope = read_owner_scope(directory, &scope_contents(&record, directory)).expect("scope");
    assert_eq!(scope, record.scope());
    assert!(read_owner_scope("/registry/two.owner", &scope_contents(&record, directory)).is_none());
    assert_eq!(
        owner_directory_path("/registry", "a/b"),
        Err("Invalid daemon supervisor generation: a/b".to_string())
    );
    let refused = DaemonSupervisorAlreadyRunningError { owner: record };
    assert!(refused.message().contains("/tmp/daemon.sock"));
}

#[test]
fn owner_directories_are_listed() {
    let names = vec!["b.owner".to_string(), "a.owner".to_string(), "x.json".to_string()];
    let listed = list_owner_directories("/registry", &names);
    assert_eq!(listed.len(), 2);
    assert!(listed.contains(&"/registry/a.owner".to_string()));
    assert!(!holds_owner_files(&Vec::new()));
}

#[test]
fn processes_are_told_by_their_start() {
    let identity = ProcessIdentity { pid: 7, process_start_id: Some("start".to_string()) };
    assert!(is_process_identity_alive(&identity, true, None));
    assert!(!matches_exact_process_identity(&identity, true, None));
    assert!(matches_exact_process_identity(&identity, true, Some("start")));
    assert!(!is_process_identity_alive(&identity, true, Some("other")));
    assert!(!is_process_identity_alive(&identity, false, Some("start")));
}

#[test]
fn admissions_last_as_long_as_they_are_renewed() {
    let admission = new_shutdown_admission("token", 7, Some("start"), 1_000);
    assert_eq!(admission.expires_at, "1970-01-01T00:00:06.000Z");
    assert_eq!(check_shutdown_admission(None, 0, true), AdmissionCheck::Absent);
    assert_eq!(check_shutdown_admission(Some(&admission), 5_999, true), AdmissionCheck::Active);
    assert_eq!(check_shutdown_admission(Some(&admission), 6_000, true), AdmissionCheck::Expired);
    assert_eq!(check_shutdown_admission(Some(&admission), 5_000, false), AdmissionCheck::Expired);
    assert!(is_daemon_shutdown_admission_active(Some(&admission), 2_000, true));
    assert!(
        acquire_daemon_shutdown_admission(Some(&admission), true, "other", 8, None, 2_000).is_none()
    );
    assert!(
        acquire_daemon_shutdown_admission(Some(&admission), true, "other", 8, None, 7_000).is_some()
    );
    let renewed =
        renew_shutdown_admission(Some(&admission), &admission, 2_000, true).expect("renewed");
    assert_eq!(renewed.expires_at, "1970-01-01T00:00:07.000Z");
    assert_eq!(
        renew_shutdown_admission(None, &admission, 2_000, true),
        Err("Daemon shutdown admission was lost".to_string())
    );
    assert_eq!(
        read_shutdown_admission(&admission_contents(&admission)),
        Some(admission.clone())
    );
    let mut held = DaemonShutdownAdmission::new(admission.clone(), "/registry");
    assert!(held.owns(Some(&admission)));
    assert!(held.assert_or_renew().is_ok());
    assert_eq!(held.renewed(Err("lost".to_string())), Err("lost".to_string()));
    assert!(held.assert_or_renew().is_err());
    assert!(held.release());
    assert!(!held.release());
}

#[test]
fn fences_keep_successors_waiting() {
    let record = owner("one", "/tmp/daemon.sock");
    let fence = persist_daemon_startup_fence_from_owner(
        &record,
        Some("start"),
        "fence",
        "2026-01-01T00:00:00.000Z",
        "/tmp/daemon.sock",
    )
    .expect("fence");
    assert_eq!(
        persist_daemon_startup_fence_from_owner(&record, None, "fence", "x", "/tmp/daemon.sock"),
        Err("Daemon supervisor process identity changed for /tmp/daemon.sock".to_string())
    );
    let contents = fence_contents(&fence);
    let read = read_startup_fence("/fence.json", Some(&contents)).expect("reads");
    assert_eq!(read_startup_fence("/fence.json", None), Ok(None));
    assert!(read_startup_fence("/fence.json", Some("{}")).is_err());
    let wait = |alive: bool, now: i64| {
        wait_for_daemon_startup_fence(&read, "/tmp/daemon.sock", "/tmp/daemon.sock", alive, now, 10)
    };
    assert_eq!(wait(true, 0), FenceWait::Wait);
    assert_eq!(wait(false, 0), FenceWait::Clear("fence".to_string()));
    assert_eq!(
        wait(true, 10),
        FenceWait::Fail("Timed out waiting for predecessor daemon process 7 to exit".to_string())
    );
    assert!(matches!(
        wait_for_daemon_startup_fence(&read, "/other", "/tmp/daemon.sock", true, 0, 10),
        FenceWait::Fail(_)
    ));
    assert_eq!(clear_startup_fence(&read, "fence"), FenceClear::Remove);
    assert_eq!(clear_startup_fence(&read, "other"), FenceClear::Replaced);
    assert_eq!(clear_startup_fence(&None, "fence"), FenceClear::Gone);
    assert!(startup_fence_path("/fences", "/tmp/daemon.sock").ends_with(".json"));
}

#[test]
fn successors_name_the_owner_they_met() {
    let record = owner("one", "/tmp/daemon.sock");
    let hello = DaemonSupervisorHelloIdentity {
        supervisor_generation: Some("one".to_string()),
        supervisor_owner_token: Some("token".to_string()),
        supervisor_pid: Some(7),
        supervisor_process_start_id: Some("start".to_string()),
        supervisor_socket_path: Some("/tmp/daemon.sock".to_string()),
    };
    let found = match_startup_owner(
        &vec![directory(&record, true)],
        &Vec::new(),
        &hello,
        Some("/tmp/daemon.sock"),
        "/tmp/daemon.sock",
        "/tmp/daemon.sock",
    );
    assert_eq!(found.result, Ok(record.clone()));
    let missing = match_startup_owner(
        &Vec::new(),
        &Vec::new(),
        &hello,
        Some("/tmp/daemon.sock"),
        "/tmp/daemon.sock",
        "/tmp/daemon.sock",
    );
    assert!(missing.result.is_err());
    let owners = vec![record, owner("two", "/tmp/other.sock")];
    assert_eq!(read_legacy_owners_for_socket(&owners, "/tmp/other.sock").len(), 1);
}

#[test]
fn the_guard_changes_hands() {
    assert_eq!(acquire_registry_guard(Some(5_001), 0, 10), GuardWait::TakeOver);
    assert_eq!(acquire_registry_guard(Some(5_000), 0, 10), GuardWait::Retry);
    assert_eq!(acquire_registry_guard(None, 10, 10), GuardWait::GiveUp);
    let done = with_daemon_supervisor_registry_guard(Some(1), Some(1), None);
    assert!(done.release);
    assert!(done.result.is_ok());
    let stolen = with_daemon_supervisor_registry_guard(Some(1), Some(2), None);
    assert!(!stolen.release);
    assert!(stolen.result.is_err());
    let failed = with_daemon_supervisor_registry_guard(None, None, Some("boom".to_string()));
    assert_eq!(failed.result.expect_err("fails").message, "boom");
}

#[test]
fn owners_are_changed_by_their_holder() {
    let record = owner("one", "/tmp/daemon.sock");
    let mut changed = record.clone();
    changed.phase = "owner".to_string();
    let dated =
        mutate_daemon_supervisor_owner("one", "token", changed.clone(), "later").expect("changed");
    assert_eq!(dated.updated_at, "later");
    changed.phase = "gone".to_string();
    assert_eq!(
        mutate_daemon_supervisor_owner("one", "token", changed, "later"),
        Err("Invalid mutation for daemon supervisor owner one".to_string())
    );
    assert_eq!(owner_to_mutate("/d", false, None, "token"), Ok(None));
    assert_eq!(owner_to_mutate("/d", true, Some(record.clone()), "other"), Ok(None));
    assert!(owner_to_mutate("/d", true, None, "token").is_err());
    assert!(same_owner_record(&record, &record));
    let print = owner_record_fingerprint(&record);
    assert_eq!(print.len(), 64);
    assert_eq!(
        assert_daemon_supervisor_owner_current(
            Some(&record),
            &record,
            "/tmp/daemon.sock",
            None,
            true,
            true,
            "/registry"
        ),
        Ok(print)
    );
    assert!(
        assert_daemon_supervisor_owner_current(
            None,
            &record,
            "/tmp/daemon.sock",
            None,
            true,
            true,
            "/registry"
        )
        .is_err()
    );
}

#[test]
fn ownership_is_given_up_once() {
    let record = owner("one", "/tmp/daemon.sock");
    let mut held = DaemonSupervisorOwnership::new(record.clone(), "/registry", "/registry/one.owner");
    assert!(held.owns(Some(&record)));
    assert!(held.assert_current(Some(&record)).is_ok());
    assert!(held.assert_current(None).is_err());
    let next = held.update_phase("owner").expect("phase");
    assert_eq!(next.phase, "owner");
    assert!(held.phase_updated(Some(&next)).is_ok());
    assert_eq!(held.snapshot().phase, "owner");
    assert!(held.release());
    assert!(!held.release());
}

#[test]
fn zombies_are_looked_at_now_and_then() {
    let mut liveness = OwnerLiveness::new();
    assert_eq!(liveness.is_owner_process_alive(7, true, 0), LivenessAnswer::Look);
    assert!(liveness.confirm(7, false, 0));
    assert_eq!(liveness.is_owner_process_alive(7, true, 4_999), LivenessAnswer::Alive);
    assert_eq!(liveness.is_owner_process_alive(7, true, 5_000), LivenessAnswer::Look);
    assert!(!liveness.confirm(7, true, 5_000));
    assert_eq!(liveness.is_owner_process_alive(7, false, 5_000), LivenessAnswer::Dead);
}

#[test]
fn registries_have_their_places() {
    assert_eq!(default_daemon_supervisor_registry_dir_for(Some("/r"), Some("/home")), "/r");
    assert_eq!(
        default_daemon_supervisor_registry_dir_for(None, Some("/home")),
        "/home/.prime/supervisor-owners"
    );
    assert_eq!(legacy_daemon_supervisor_registry_dir_for(Some("/r"), "/tmp"), None);
    assert_eq!(
        legacy_daemon_supervisor_registry_dir_for(None, "/tmp").as_deref(),
        Some("/tmp/supervisor-owners")
    );
    assert_eq!(shutdown_admission_path("/registry"), "/registry/shutdown-admission.json");
}

#[test]
fn missing_paths_are_canonical_below_what_exists() {
    let mut search = CanonicalSearch::begin("/link/missing/file", None);
    assert_eq!(search.ancestor, "/link/missing/file");
    assert_eq!(search.not_found(false), None);
    assert_eq!(search.not_found(false), None);
    assert_eq!(search.ancestor, "/link");
    assert_eq!(search.found("/target", false), "/target/missing/file");
    assert!(search.failed("denied").contains("denied"));
}

#[test]
fn supervisors_name_themselves_to_workers() {
    let mut record = owner("one", "/tmp/daemon.sock");
    let claim = print_json(&Json::Object(supervisor_claim(&record)));
    assert_eq!(
        claim,
        "{\"supervisorGeneration\":\"one\",\"supervisorPid\":7,\"supervisorSocketPath\":\"/tmp/daemon.sock\",\"supervisorProcessStartId\":\"start\"}"
    );
    record.process_start_id = None;
    let claim = print_json(&Json::Object(supervisor_claim(&record)));
    assert!(!claim.contains("supervisorProcessStartId"));
}

#[test]
fn stopped_records_are_not_renewed() {
    let mut record = RenewableRegistryRecord::new();
    assert_eq!(record.perform_renew(RenewEvent::GuardHeld), RenewAction::Renew);
    assert_eq!(record.perform_renew(RenewEvent::Renewed(Ok(()))), RenewAction::Done(Ok(())));
    assert!(record.assert_or_renew("gone").is_ok());
    record.stop();
    assert_eq!(record.perform_renew(RenewEvent::GuardHeld), RenewAction::Done(Ok(())));
    assert_eq!(record.assert_or_renew("gone"), Err("gone".to_string()));
    let mut record = RenewableRegistryRecord::new();
    assert_eq!(
        record.perform_renew(RenewEvent::GuardFailed("busy".to_string())),
        RenewAction::Done(Err("busy".to_string()))
    );
    assert!(record.lost && !record.stopped);
}
