use pi_daemon::daemon_socket::{
    CleanupPlan, DAEMON_SOCKET_RELEASE_POLL_MS, DaemonSocketError, DaemonSocketPathLease,
    LockAttempt, LockStep, PrepareEvent, PrepareStart, PrepareStep, SocketFound, SocketPreparation,
    acquire_daemon_socket_path_lease, assert_socket_lease, assert_socket_lease_held,
    cleanup_daemon_socket_path, cleanup_unix_daemon_socket_path, default_daemon_socket_dir,
    default_daemon_socket_path, ensure_default_daemon_socket_dir, is_default_daemon_socket_dir,
    lock_directory_path, lock_is_stale, prepare_daemon_socket_path, without_lease,
};
use pi_daemon::daemon_worker_protocol::DaemonSocketIdentity;

fn identity() -> DaemonSocketIdentity {
    DaemonSocketIdentity { dev: 1, ino: 2 }
}

#[test]
fn default_paths_match_the_platform() {
    assert_eq!(default_daemon_socket_path(true, "/tmp", Some(1)), "\\\\.\\pipe\\prime-agent-daemon");
    assert!(default_daemon_socket_path(false, "/tmp", Some(1)).ends_with("daemon.sock"));
    assert!(default_daemon_socket_dir("/tmp", Some(1)).contains("prime-agent-"));
}

#[test]
fn lease_compromise_notifies_listeners_once() {
    let mut lease = DaemonSocketPathLease::new("/tmp/s.sock", None);
    assert!(lease.on_compromised(7).is_none());
    let told = lease.record_compromise(DaemonSocketError { message: "lock lost".to_string() });
    assert_eq!(told, vec![7]);
    let told = lease.record_compromise(DaemonSocketError { message: "second".to_string() });
    assert!(told.is_empty());
    assert_eq!(lease.compromise().map(|error| error.message), Some("lock lost".to_string()));
    assert_eq!(
        assert_socket_lease("/tmp/other.sock", &lease).expect_err("mismatch").message,
        "Daemon socket lease does not match /tmp/other.sock"
    );
    assert_eq!(
        assert_socket_lease_held("/tmp/s.sock", &lease).expect_err("compromised").message,
        "Daemon socket lease for /tmp/s.sock was compromised: lock lost"
    );
}

#[test]
fn late_listeners_learn_of_a_compromise() {
    let mut lease = DaemonSocketPathLease::new("/tmp/s.sock", None);
    lease.on_compromised(1);
    lease.unsubscribe(1);
    assert!(lease.record_compromise(DaemonSocketError { message: "lost".to_string() }).is_empty());
    assert_eq!(lease.on_compromised(2).map(|error| error.message), Some("lost".to_string()));
}

#[test]
fn a_lease_blocks_a_second_acquire_until_release() {
    let path = "/tmp/daemon.sock";
    let mut lease = match acquire_daemon_socket_path_lease(path, LockAttempt::Created, false) {
        LockStep::Acquired(lease) => lease,
        other => panic!("unexpected step: {other:?}"),
    };
    assert!(matches!(
        acquire_daemon_socket_path_lease(path, LockAttempt::Present(Some(0)), false),
        LockStep::Wait(_)
    ));
    assert_eq!(
        acquire_daemon_socket_path_lease(path, LockAttempt::Present(Some(60_000)), false),
        LockStep::RemoveStale
    );
    assert_eq!(
        acquire_daemon_socket_path_lease(path, LockAttempt::Present(Some(0)), true),
        LockStep::GiveUp
    );
    assert_eq!(lease.release(), Some(lock_directory_path(path)));
    assert_eq!(lease.release(), None);
    assert!(!lock_is_stale(None));
}

#[test]
fn cleanup_removes_the_socket_when_the_identity_matches() {
    assert_eq!(cleanup_daemon_socket_path("/s", true, None), CleanupPlan::Leave);
    assert!(cleanup_unix_daemon_socket_path(true, Some(identity()), Some(identity())));
    assert!(!cleanup_unix_daemon_socket_path(
        true,
        Some(DaemonSocketIdentity { dev: 0, ino: 0 }),
        Some(identity())
    ));
}

#[test]
fn prepare_rejects_a_non_socket_path_and_ignores_missing_paths() {
    let mut preparation = SocketPreparation::new("/tmp/daemon.sock");
    assert_eq!(
        preparation.prepare_unix_daemon_socket_path(PrepareEvent::Inspected(SocketFound::Nothing)),
        PrepareStep::Ready
    );
    let mut preparation = SocketPreparation::new("/tmp/daemon.sock");
    match preparation.prepare_unix_daemon_socket_path(PrepareEvent::Inspected(SocketFound::Other)) {
        PrepareStep::Fail(error) => assert_eq!(
            error.message,
            "Daemon socket path exists and is not a socket: /tmp/daemon.sock"
        ),
        other => panic!("unexpected step: {other:?}"),
    }
}

#[test]
fn a_silent_socket_is_removed_after_its_grace() {
    let mut preparation = SocketPreparation::new("/s");
    let found = SocketFound::Socket(Some(identity()));
    assert_eq!(
        preparation.prepare_unix_daemon_socket_path(PrepareEvent::Inspected(found)),
        PrepareStep::Probe
    );
    assert_eq!(
        preparation.prepare_unix_daemon_socket_path(PrepareEvent::Probed(false)),
        PrepareStep::CheckClock
    );
    assert_eq!(
        preparation.prepare_unix_daemon_socket_path(PrepareEvent::Clock(false, None)),
        PrepareStep::Wait(DAEMON_SOCKET_RELEASE_POLL_MS)
    );
    let step = preparation.prepare_unix_daemon_socket_path(PrepareEvent::Watched(Some(identity())));
    assert_eq!(step, PrepareStep::Probe);
}

#[test]
fn an_answering_socket_is_left_alone() {
    let mut preparation = SocketPreparation::new("/s");
    preparation.prepare_unix_daemon_socket_path(PrepareEvent::Inspected(SocketFound::Socket(Some(
        identity(),
    ))));
    assert!(matches!(
        preparation.prepare_unix_daemon_socket_path(PrepareEvent::Probed(true)),
        PrepareStep::Fail(_)
    ));
}

#[test]
fn preparation_needs_a_lease() {
    assert_eq!(prepare_daemon_socket_path("/s", true, None), PrepareStart::Ready);
    assert_eq!(prepare_daemon_socket_path("/s", false, None), PrepareStart::TakeLease);
    let lease = DaemonSocketPathLease::new("/s", None);
    assert_eq!(prepare_daemon_socket_path("/s", false, Some(&lease)), PrepareStart::Begin);
    assert!(matches!(
        prepare_daemon_socket_path("/other", false, Some(&lease)),
        PrepareStart::Fail(_)
    ));
    assert_eq!(without_lease("/s", false, false), Ok(false));
    assert!(without_lease("/s", true, true).is_err());
}

#[test]
fn the_default_directory_has_to_be_ones_own() {
    let dir = default_daemon_socket_dir("/tmp", Some(7));
    assert!(is_default_daemon_socket_dir(false, &format!("{dir}/daemon.sock"), &dir));
    assert!(!is_default_daemon_socket_dir(false, "/elsewhere/daemon.sock", &dir));
    assert!(ensure_default_daemon_socket_dir(&dir, true, Some(7), Some(7)).is_ok());
    assert!(ensure_default_daemon_socket_dir(&dir, true, Some(8), Some(7)).is_err());
    assert!(ensure_default_daemon_socket_dir(&dir, false, Some(7), Some(7)).is_err());
}
