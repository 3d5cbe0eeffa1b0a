//! The socket of the daemon: where it lies, who may use its path, and when one
//! that was left behind may be removed.

use vstd::prelude::*;

use crate::daemon_worker_protocol::DaemonSocketIdentity;
use crate::json;
use crate::path_facts;
use crate::path_facts::{dirname_of, join_dir};
use crate::text;
use crate::text::{cat2, cat4, decimal, same};

verus! {

/// The permissions of the socket.
pub const DAEMON_SOCKET_MODE: u32 = 0o600;

/// The permissions of the directory of the socket.
pub const DAEMON_SOCKET_DIR_MODE: u32 = 0o700;

/// How long a socket that was left behind is watched, in milliseconds.
pub const DAEMON_SOCKET_RELEASE_GRACE_MS: u64 = 1000;

/// How long to wait between two looks, in milliseconds.
pub const DAEMON_SOCKET_RELEASE_POLL_MS: u64 = 25;

/// How old a lock is that nobody holds any more, in milliseconds.
pub const DAEMON_SOCKET_LOCK_STALE_MS: u64 = 5000;

/// How often a lock is renewed, in milliseconds.
pub const DAEMON_SOCKET_LOCK_UPDATE_MS: u64 = 1000;

/// How often a lock is tried.
pub const DAEMON_SOCKET_LOCK_RETRIES: u32 = 600;

/// How long a lock is tried, in milliseconds.
pub const DAEMON_SOCKET_LOCK_DEADLINE_MS: u64 = 15000;

/// What went wrong with the socket.
#[derive(Debug, PartialEq)]
pub struct DaemonSocketError {
    pub message: String,
}

impl Clone for DaemonSocketError {
    fn clone(&self) -> (r: Self)
        ensures
            r.message@ == self.message@,
    {
        DaemonSocketError { message: self.message.clone() }
    }
}

/// What an error that may be absent says.
pub open spec fn opt_error(error: Option<DaemonSocketError>) -> Option<Seq<char>> {
    match error {
        Some(error) => Some(error.message@),
        None => None,
    }
}

/// The right to use the path of a socket. Those who want to know that it was lost
/// are listed by a number of their own.
#[derive(Debug, PartialEq)]
pub struct DaemonSocketPathLease {
    pub socket_path: String,
    pub released: bool,
    pub compromised_error: Option<DaemonSocketError>,
    pub compromise_listeners: Vec<u64>,
    pub lock_path: Option<String>,
}

/// The listeners but one.
pub open spec fn without_listener(listeners: Seq<u64>, listener: u64) -> Seq<u64>
    decreases listeners.len(),
{
    if listeners.len() == 0 {
        Seq::empty()
    } else if listeners.last() == listener {
        without_listener(listeners.drop_last(), listener)
    } else {
        without_listener(listeners.drop_last(), listener).push(listeners.last())
    }
}

impl DaemonSocketPathLease {
    /// A lease that has just been taken.
    pub fn new(socket_path: &str, lock_path: Option<String>) -> (r: Self)
        ensures
            r.socket_path@ == socket_path@,
            !r.released,
            r.compromised_error is None,
            r.compromise_listeners@.len() == 0,
            r.lock_path == lock_path,
    {
        DaemonSocketPathLease {
            socket_path: socket_path.to_owned(),
            released: false,
            compromised_error: None,
            compromise_listeners: Vec::new(),
            lock_path,
        }
    }

    /// Why the lease was lost, where it was.
    pub fn compromise(&self) -> (r: Option<DaemonSocketError>)
        ensures
            opt_error(r) == opt_error(self.compromised_error),
    {
        match &self.compromised_error {
            Some(error) => Some(error.clone()),
            None => None,
        }
    }

    /// Lists a listener. Where the lease is lost already, the listener is to be
    /// told at once, and is not listed.
    pub fn on_compromised(&mut self, listener: u64) -> (r: Option<DaemonSocketError>)
        ensures
            opt_error(r) == opt_error(old(self).compromised_error),
            final(self).compromise_listeners@ == if r is Some {
                old(self).compromise_listeners@
            } else {
                old(self).compromise_listeners@.push(listener)
            },
            *final(self) == (DaemonSocketPathLease {
                compromise_listeners: final(self).compromise_listeners,
                ..*old(self)
            }),
    {
        if let Some(error) = &self.compromised_error {
            return Some(error.clone());
        }
        self.compromise_listeners.push(listener);
        None
    }

    /// Takes a listener off the list.
    pub fn unsubscribe(&mut self, listener: u64)
        ensures
            final(self).compromise_listeners@ == without_listener(
                old(self).compromise_listeners@,
                listener,
            ),
            *final(self) == (DaemonSocketPathLease {
                compromise_listeners: final(self).compromise_listeners,
                ..*old(self)
            }),
    {
        let ghost all = self.compromise_listeners@;
        let mut kept: Vec<u64> = Vec::new();
        let mut i: usize = 0;
        assert(all.take(0) =~= Seq::empty());
        while i < self.compromise_listeners.len()
            invariant
                i <= self.compromise_listeners.len(),
                *self == *old(self),
                all == self.compromise_listeners@,
                kept@ == without_listener(all.take(i as int), listener),
            decreases self.compromise_listeners.len() - i,
        {
            assert(all.take(i + 1).drop_last() =~= all.take(i as int));
            assert(all.take(i + 1).last() == all[i as int]);
            if self.compromise_listeners[i] != listener {
                kept.push(self.compromise_listeners[i]);
            }
            i += 1;
        }
        assert(all.take(i as int) =~= all);
        self.compromise_listeners = kept;
    }

    /// Notes that the lease was lost. The listeners that are to be told are handed
    /// out once: a second loss tells nobody.
    pub fn record_compromise(&mut self, error: DaemonSocketError) -> (r: Vec<u64>)
        ensures
            r@ == if old(self).compromised_error is Some {
                Seq::empty()
            } else {
                old(self).compromise_listeners@
            },
            opt_error(final(self).compromised_error) == if old(self).compromised_error is Some {
                opt_error(old(self).compromised_error)
            } else {
                Some(error.message@)
            },
            final(self).compromise_listeners@ == if old(self).compromised_error is Some {
                old(self).compromise_listeners@
            } else {
                Seq::empty()
            },
            *final(self) == (DaemonSocketPathLease {
                compromised_error: final(self).compromised_error,
                compromise_listeners: final(self).compromise_listeners,
                ..*old(self)
            }),
    {
        let mut told: Vec<u64> = Vec::new();
        if self.compromised_error.is_some() {
            return told;
        }
        self.compromised_error = Some(error);
        let mut i: usize = 0;
        let ghost listed = self.compromise_listeners@;
        while i < self.compromise_listeners.len()
            invariant
                i <= self.compromise_listeners.len(),
                listed == self.compromise_listeners@,
                self.compromise_listeners == old(self).compromise_listeners,
                self.compromised_error == Some(error),
                self.socket_path == old(self).socket_path,
                self.released == old(self).released,
                self.lock_path == old(self).lock_path,
                told@ == listed.take(i as int),
            decreases self.compromise_listeners.len() - i,
        {
            told.push(self.compromise_listeners[i]);
            i += 1;
            assert(listed.take(i as int) =~= listed.take(i - 1).push(listed[i - 1]));
        }
        assert(listed.take(i as int) =~= listed);
        self.compromise_listeners = Vec::new();
        told
    }

    /// Gives the lease back. The lock is to be removed the first time, and nobody
    /// is told of a loss any more.
    pub fn release(&mut self) -> (r: Option<String>)
        ensures
            final(self).released,
            json::opt_view(r) == if old(self).released {
                None
            } else {
                json::opt_view(old(self).lock_path)
            },
            final(self).compromise_listeners@ == if old(self).released {
                old(self).compromise_listeners@
            } else {
                Seq::empty()
            },
            *final(self) == (DaemonSocketPathLease {
                released: true,
                compromise_listeners: final(self).compromise_listeners,
                ..*old(self)
            }),
    {
        if self.released {
            return None;
        }
        self.released = true;
        self.compromise_listeners = Vec::new();
        self.lock_path.clone()
    }
}

/// The directory of the socket: one for each user.
pub open spec fn socket_dir(temp_dir: Seq<char>, uid: Option<u32>) -> Seq<char> {
    path_facts::joined_path(
        temp_dir,
        "prime-agent-"@ + match uid {
            Some(uid) => text::decimal_digits(uid as nat),
            None => "user"@,
        },
    )
}

/// The directory of the socket: one for each user.
pub fn default_daemon_socket_dir(temp_dir: &str, uid: Option<u32>) -> (r: String)
    ensures
        r@ == socket_dir(temp_dir@, uid),
{
    let suffix = match uid {
        Some(uid) => decimal(uid as u64),
        None => "user".to_owned(),
    };
    let name = cat2("prime-agent-", &suffix);
    join_dir(temp_dir, &name)
}

/// Where the socket lies.
pub fn default_daemon_socket_path(on_windows: bool, temp_dir: &str, uid: Option<u32>) -> (r: String)
    ensures
        r@ == if on_windows {
            "\\\\.\\pipe\\prime-agent-daemon"@
        } else {
            path_facts::joined_path(socket_dir(temp_dir@, uid), "daemon.sock"@)
        },
{
    if on_windows {
        return "\\\\.\\pipe\\prime-agent-daemon".to_owned();
    }
    let dir = default_daemon_socket_dir(temp_dir, uid);
    join_dir(&dir, "daemon.sock")
}

/// The lock of a socket's path.
pub fn lock_directory_path(socket_path: &str) -> (r: String)
    ensures
        r@ == socket_path@ + ".lock"@,
{
    cat2(socket_path, ".lock")
}

/// Whether a lock of a known age is held by nobody any more.
pub fn lock_is_stale(age: Option<u64>) -> (r: bool)
    ensures
        r == (age matches Some(age) && age > DAEMON_SOCKET_LOCK_STALE_MS),
{
    match age {
        Some(age) => age > DAEMON_SOCKET_LOCK_STALE_MS,
        None => false,
    }
}

/// What a try to make the lock gave.
#[derive(Debug, Clone, Copy, PartialEq, Eq, Structural)]
pub enum LockAttempt {
    Created,
    /// It is there already, and has this age where that is known.
    Present(Option<u64>),
    Failed,
}

/// What is to be done after a try to make the lock.
#[derive(Debug, PartialEq)]
pub enum LockStep {
    Acquired(DaemonSocketPathLease),
    /// Remove the lock, which nobody holds any more, and try again.
    RemoveStale,
    /// Try again after so many milliseconds.
    Wait(u64),
    GiveUp,
}

/// What is to be done after a try to make the lock of a socket's path. `expired`
/// says whether the time to try is over.
pub fn acquire_daemon_socket_path_lease(
    socket_path: &str,
    attempt: LockAttempt,
    expired: bool,
) -> (r: LockStep)
    ensures
        match attempt {
            LockAttempt::Created => r is Acquired && {
                let lease = r->Acquired_0;
                &&& lease.socket_path@ == socket_path@
                &&& json::opt_view(lease.lock_path) == Some(socket_path@ + ".lock"@)
                &&& !lease.released
                &&& lease.compromised_error is None
                &&& lease.compromise_listeners@.len() == 0
            },
            LockAttempt::Present(age) => if age matches Some(age) && age
                > DAEMON_SOCKET_LOCK_STALE_MS {
                r is RemoveStale
            } else if expired {
                r is GiveUp
            } else {
                r == LockStep::Wait(DAEMON_SOCKET_RELEASE_POLL_MS)
            },
            LockAttempt::Failed => r is GiveUp,
        },
{
    match attempt {
        LockAttempt::Created => {
            let lock_path = lock_directory_path(socket_path);
            LockStep::Acquired(DaemonSocketPathLease::new(socket_path, Some(lock_path)))
        },
        LockAttempt::Present(age) => if lock_is_stale(age) {
            LockStep::RemoveStale
        } else if expired {
            LockStep::GiveUp
        } else {
            LockStep::Wait(DAEMON_SOCKET_RELEASE_POLL_MS)
        },
        LockAttempt::Failed => LockStep::GiveUp,
    }
}

/// The text for a lease of another path.
pub open spec fn mismatch_text(socket_path: Seq<char>) -> Seq<char> {
    "Daemon socket lease does not match "@ + socket_path
}

/// The text for a lease that was lost.
pub open spec fn lost_text(socket_path: Seq<char>, reason: Seq<char>) -> Seq<char> {
    "Daemon socket lease for "@ + socket_path + " was compromised: "@ + reason
}

/// Checks that a lease is for a path.
pub fn assert_socket_lease(socket_path: &str, lease: &DaemonSocketPathLease) -> (r: Result<
    (),
    DaemonSocketError,
>)
    ensures
        match r {
            Ok(_) => lease.socket_path@ == socket_path@,
            Err(error) => lease.socket_path@ != socket_path@ && error.message@ == mismatch_text(
                socket_path@,
            ),
        },
{
    if !same(&lease.socket_path, socket_path) {
        return Err(
            DaemonSocketError { message: cat2("Daemon socket lease does not match ", socket_path) },
        );
    }
    Ok(())
}

/// Checks that a lease was not lost.
pub fn assert_socket_lease_held(socket_path: &str, lease: &DaemonSocketPathLease) -> (r: Result<
    (),
    DaemonSocketError,
>)
    ensures
        match r {
            Ok(_) => lease.compromised_error is None,
            Err(error) => lease.compromised_error is Some && error.message@ == lost_text(
                socket_path@,
                lease.compromised_error->0.message@,
            ),
        },
{
    if let Some(error) = &lease.compromised_error {
        return Err(
            DaemonSocketError {
                message: cat4(
                    "Daemon socket lease for ",
                    socket_path,
                    " was compromised: ",
                    &error.message,
                ),
            },
        );
    }
    Ok(())
}

/// Whether the directory of a socket is the user's own, which is to be made and
/// checked.
pub fn is_default_daemon_socket_dir(
    on_windows: bool,
    socket_path: &str,
    default_dir: &str,
) -> (r: bool)
    ensures
        r == (!on_windows && path_facts::parent_of(socket_path@) == default_dir@),
{
    if on_windows {
        return false;
    }
    let parent = dirname_of(socket_path);
    same(&parent, default_dir)
}

/// Why the user's own directory for the socket cannot be used.
pub open spec fn dir_error(
    default_dir: Seq<char>,
    is_dir: bool,
    owner: Option<u32>,
    uid: Option<u32>,
) -> Option<Seq<char>> {
    if !is_dir {
        Some("Daemon socket directory exists and is not a directory: "@ + default_dir)
    } else if owner is Some && uid is Some && owner != uid {
        Some("Daemon socket directory is not owned by the current user: "@ + default_dir)
    } else {
        None
    }
}

/// Checks the user's own directory for the socket: it must be a directory and
/// belong to the user.
pub fn ensure_default_daemon_socket_dir(
    default_dir: &str,
    is_dir: bool,
    owner: Option<u32>,
    uid: Option<u32>,
) -> (r: Result<(), DaemonSocketError>)
    ensures
        match r {
            Ok(_) => dir_error(default_dir@, is_dir, owner, uid) is None,
            Err(error) => dir_error(default_dir@, is_dir, owner, uid) == Some(error.message@),
        },
{
    if !is_dir {
        return Err(
            DaemonSocketError {
                message: cat2(
                    "Daemon socket directory exists and is not a directory: ",
                    default_dir,
                ),
            },
        );
    }
    if let (Some(uid), Some(owner)) = (uid, owner) {
        if owner != uid {
            return Err(
                DaemonSocketError {
                    message: cat2(
                        "Daemon socket directory is not owned by the current user: ",
                        default_dir,
                    ),
                },
            );
        }
    }
    Ok(())
}

/// What was found at the path of the socket.
#[derive(Debug, PartialEq)]
pub enum SocketFound {
    Nothing,
    /// It could not be looked at, for this reason.
    Unreadable(String),
    /// Something else than a socket.
    Other,
    /// A socket, and which one where that could be told.
    Socket(Option<DaemonSocketIdentity>),
}

/// What happens while a path is made ready for a socket.
#[derive(Debug, PartialEq)]
pub enum PrepareEvent {
    /// This was found at the path.
    Inspected(SocketFound),
    /// Whether somebody answered on the socket.
    Probed(bool),
    /// Whether the time to watch is over, and why the lease was lost where it was.
    Clock(bool, Option<DaemonSocketError>),
    /// The socket that is there after a wait, where one can be told.
    Watched(Option<DaemonSocketIdentity>),
}

/// What is to be done to make a path ready for a socket.
#[derive(Debug, PartialEq)]
pub enum PrepareStep {
    /// Look what is at the path.
    Inspect,
    /// See whether somebody answers on the socket.
    Probe,
    /// Look at the clock and at the lease.
    CheckClock,
    /// Wait so many milliseconds, then see which socket is there.
    Wait(u64),
    /// Remove the socket.
    Remove,
    /// The path is ready.
    Ready,
    /// The path cannot be used.
    Fail(DaemonSocketError),
}

/// What is to be done.
pub enum StepV {
    Inspect,
    Probe,
    CheckClock,
    Wait(u64),
    Remove,
    Ready,
    Fail(Seq<char>),
}

impl View for PrepareStep {
    type V = StepV;

    open spec fn view(&self) -> StepV {
        match self {
            PrepareStep::Inspect => StepV::Inspect,
            PrepareStep::Probe => StepV::Probe,
            PrepareStep::CheckClock => StepV::CheckClock,
            PrepareStep::Wait(ms) => StepV::Wait(*ms),
            PrepareStep::Remove => StepV::Remove,
            PrepareStep::Ready => StepV::Ready,
            PrepareStep::Fail(error) => StepV::Fail(error.message@),
        }
    }
}

/// How far a path is.
#[derive(Debug, Clone, Copy, PartialEq, Eq, Structural)]
pub enum PreparePhase {
    /// It is being looked at.
    Inspecting,
    /// This socket is there; it is tried whether somebody answers.
    Probing(DaemonSocketIdentity),
    /// Nobody answered; the clock is looked at.
    Timing(DaemonSocketIdentity),
    /// It is watched whether the socket stays the same.
    Watching(DaemonSocketIdentity),
    Done,
}

/// A path that is made ready for a socket.
pub struct SocketPreparation {
    pub socket_path: String,
    pub phase: PreparePhase,
}

/// The text for a socket that is in use.
pub open spec fn in_use_text(socket_path: Seq<char>) -> Seq<char> {
    "Daemon socket already in use: "@ + socket_path
}

/// The event can happen in this phase.
pub open spec fn can_happen(phase: PreparePhase, event: PrepareEvent) -> bool {
    match phase {
        PreparePhase::Inspecting => event is Inspected,
        PreparePhase::Probing(_) => event is Probed,
        PreparePhase::Timing(_) => event is Clock,
        PreparePhase::Watching(_) => event is Watched,
        PreparePhase::Done => false,
    }
}

/// The phase after an event, and what is to be done then.
pub open spec fn prepared(
    socket_path: Seq<char>,
    phase: PreparePhase,
    event: PrepareEvent,
) -> (PreparePhase, StepV) {
    match (phase, event) {
        (PreparePhase::Inspecting, PrepareEvent::Inspected(found)) => match found {
            SocketFound::Nothing => (PreparePhase::Done, StepV::Ready),
            SocketFound::Unreadable(reason) => (PreparePhase::Done, StepV::Fail(reason@)),
            SocketFound::Other => (
                PreparePhase::Done,
                StepV::Fail("Daemon socket path exists and is not a socket: "@ + socket_path),
            ),
            SocketFound::Socket(None) => (PreparePhase::Done, StepV::Ready),
            SocketFound::Socket(Some(id)) => (PreparePhase::Probing(id), StepV::Probe),
        },
        (PreparePhase::Probing(id), PrepareEvent::Probed(answered)) => if answered {
            (PreparePhase::Done, StepV::Fail(in_use_text(socket_path)))
        } else {
            (PreparePhase::Timing(id), StepV::CheckClock)
        },
        (PreparePhase::Timing(id), PrepareEvent::Clock(expired, lost)) => if !expired {
            (PreparePhase::Watching(id), StepV::Wait(DAEMON_SOCKET_RELEASE_POLL_MS))
        } else {
            match opt_error(lost) {
                Some(reason) => (
                    PreparePhase::Done,
                    StepV::Fail(lost_text(socket_path, reason)),
                ),
                None => (PreparePhase::Done, StepV::Remove),
            }
        },
        (PreparePhase::Watching(id), PrepareEvent::Watched(current)) => match current {
            None => (PreparePhase::Done, StepV::Ready),
            Some(now) => if now != id {
                (
                    PreparePhase::Done,
                    StepV::Fail(
                        "Daemon socket changed ownership while waiting for cleanup: "@
                            + socket_path,
                    ),
                )
            } else {
                (PreparePhase::Probing(id), StepV::Probe)
            },
        },
        _ => (PreparePhase::Done, StepV::Ready),
    }
}

fn failed(text: &str, socket_path: &str) -> (r: PrepareStep)
    ensures
        r@ == StepV::Fail(text@ + socket_path@),
{
    PrepareStep::Fail(DaemonSocketError { message: cat2(text, socket_path) })
}

/// What is to be done first with the path of a socket.
#[derive(Debug, PartialEq)]
pub enum PrepareStart {
    /// The path is ready: there is no file to care about.
    Ready,
    /// The path cannot be used.
    Fail(DaemonSocketError),
    /// The path is to be made ready under the lease that is held.
    Begin,
    /// There is no lease. Where nothing is at the path it is ready; where somebody
    /// answers it cannot be used; else a lease is to be taken first.
    TakeLease,
}

/// What is to be done first with the path of a socket: a lease that is held must be
/// for it and must not have been lost.
pub fn prepare_daemon_socket_path(
    socket_path: &str,
    on_windows: bool,
    lease: Option<&DaemonSocketPathLease>,
) -> (r: PrepareStart)
    ensures
        r is Ready <==> on_windows,
        r is TakeLease <==> !on_windows && lease is None,
        r is Fail <==> !on_windows && (lease matches Some(lease) && (lease.socket_path@
            != socket_path@ || lease.compromised_error is Some)),
        r matches PrepareStart::Fail(error) ==> error.message@ == if lease->0.socket_path@
            != socket_path@ {
            mismatch_text(socket_path@)
        } else {
            lost_text(socket_path@, lease->0.compromised_error->0.message@)
        },
{
    if on_windows {
        return PrepareStart::Ready;
    }
    match lease {
        Some(lease) => {
            if let Err(error) = assert_socket_lease(socket_path, lease) {
                return PrepareStart::Fail(error);
            }
            if let Err(error) = assert_socket_lease_held(socket_path, lease) {
                return PrepareStart::Fail(error);
            }
            PrepareStart::Begin
        },
        None => PrepareStart::TakeLease,
    }
}

/// What is to be done without a lease, once it is known whether something is at
/// the path and whether somebody answers there: nothing, fail, or take a lease.
pub fn without_lease(socket_path: &str, present: bool, answered: bool) -> (r: Result<
    bool,
    DaemonSocketError,
>)
    ensures
        match r {
            Ok(take_lease) => take_lease == present && !(present && answered),
            Err(error) => present && answered && error.message@ == in_use_text(socket_path@),
        },
{
    if !present {
        return Ok(false);
    }
    if answered {
        return Err(
            DaemonSocketError { message: cat2("Daemon socket already in use: ", socket_path) },
        );
    }
    Ok(true)
}

impl SocketPreparation {
    /// A path that is to be made ready; what is at it is looked at first.
    pub fn new(socket_path: &str) -> (r: Self)
        ensures
            r.socket_path@ == socket_path@,
            r.phase == PreparePhase::Inspecting,
    {
        SocketPreparation {
            socket_path: socket_path.to_owned(),
            phase: PreparePhase::Inspecting,
        }
    }

    /// What is to be done after an event.
    pub fn prepare_unix_daemon_socket_path(&mut self, event: PrepareEvent) -> (r: PrepareStep)
        requires
            can_happen(old(self).phase, event),
        ensures
            final(self).socket_path == old(self).socket_path,
            (final(self).phase, r@) == prepared(old(self).socket_path@, old(self).phase, event),
    {
        match (self.phase, event) {
            (PreparePhase::Inspecting, PrepareEvent::Inspected(found)) => match found {
                SocketFound::Nothing => {
                    self.phase = PreparePhase::Done;
                    PrepareStep::Ready
                },
                SocketFound::Unreadable(reason) => {
                    self.phase = PreparePhase::Done;
                    PrepareStep::Fail(DaemonSocketError { message: reason })
                },
                SocketFound::Other => {
                    self.phase = PreparePhase::Done;
                    failed("Daemon socket path exists and is not a socket: ", &self.socket_path)
                },
                SocketFound::Socket(None) => {
                    self.phase = PreparePhase::Done;
                    PrepareStep::Ready
                },
                SocketFound::Socket(Some(id)) => {
                    self.phase = PreparePhase::Probing(id);
                    PrepareStep::Probe
                },
            },
            (PreparePhase::Probing(id), PrepareEvent::Probed(answered)) => if answered {
                self.phase = PreparePhase::Done;
                failed("Daemon socket already in use: ", &self.socket_path)
            } else {
                self.phase = PreparePhase::Timing(id);
                PrepareStep::CheckClock
            },
            (PreparePhase::Timing(id), PrepareEvent::Clock(expired, lost)) => if !expired {
                self.phase = PreparePhase::Watching(id);
                PrepareStep::Wait(DAEMON_SOCKET_RELEASE_POLL_MS)
            } else {
                self.phase = PreparePhase::Done;
                match lost {
                    Some(error) => PrepareStep::Fail(
                        DaemonSocketError {
                            message: cat4(
                                "Daemon socket lease for ",
                                &self.socket_path,
                                " was compromised: ",
                                &error.message,
                            ),
                        },
                    ),
                    None => PrepareStep::Remove,
                }
            },
            (PreparePhase::Watching(id), PrepareEvent::Watched(current)) => match current {
                None => {
                    self.phase = PreparePhase::Done;
                    PrepareStep::Ready
                },
                Some(now) => if now != id {
                    self.phase = PreparePhase::Done;
                    failed(
                        "Daemon socket changed ownership while waiting for cleanup: ",
                        &self.socket_path,
                    )
                } else {
                    self.phase = PreparePhase::Probing(id);
                    PrepareStep::Probe
                },
            },
            _ => {
                self.phase = PreparePhase::Done;
                PrepareStep::Ready
            },
        }
    }
}

/// The phase and the last step after these events; nothing where they cannot
/// happen.
pub open spec fn run(socket_path: Seq<char>, events: Seq<PrepareEvent>) -> Option<
    (PreparePhase, StepV),
>
    decreases events.len(),
{
    if events.len() == 0 {
        Some((PreparePhase::Inspecting, StepV::Inspect))
    } else {
        match run(socket_path, events.drop_last()) {
            Some((phase, _)) => if can_happen(phase, events.last()) {
                Some(prepared(socket_path, phase, events.last()))
            } else {
                None
            },
            None => None,
        }
    }
}

/// Only one socket was seen, and nobody ever answered on it.
pub open spec fn was_silent(events: Seq<PrepareEvent>, id: DaemonSocketIdentity) -> bool {
    &&& events.len() > 0 && events[0] == PrepareEvent::Inspected(SocketFound::Socket(Some(id)))
    &&& forall|i: int|
        0 <= i < events.len() ==> match #[trigger] events[i] {
            PrepareEvent::Inspected(found) => i == 0,
            PrepareEvent::Probed(answered) => !answered,
            PrepareEvent::Clock(_, _) => true,
            PrepareEvent::Watched(current) => current == Some(id),
        }
}

/// The socket that a phase is about.
pub open spec fn phase_socket(phase: PreparePhase) -> Option<DaemonSocketIdentity> {
    match phase {
        PreparePhase::Probing(id) => Some(id),
        PreparePhase::Timing(id) => Some(id),
        PreparePhase::Watching(id) => Some(id),
        _ => None,
    }
}

proof fn watched_sockets_are_silent(socket_path: Seq<char>, events: Seq<PrepareEvent>)
    requires
        run(socket_path, events) is Some,
    ensures
        (run(socket_path, events)->0).0 is Inspecting ==> events.len() == 0,
        phase_socket((run(socket_path, events)->0).0) matches Some(id) ==> was_silent(events, id),
    decreases events.len(),
{
    if events.len() > 0 {
        let before = events.drop_last();
        watched_sockets_are_silent(socket_path, before);
        let phase = (run(socket_path, before)->0).0;
        let after = (run(socket_path, events)->0).0;
        if let Some(id) = phase_socket(after) {
            if phase is Inspecting {
                assert(events[0] == events.last());
            } else {
                assert(was_silent(before, id));
                assert(events[0] == before[0]);
            }
            assert forall|i: int| 0 <= i < events.len() implies match #[trigger] events[i] {
                PrepareEvent::Inspected(found) => i == 0,
                PrepareEvent::Probed(answered) => !answered,
                PrepareEvent::Clock(_, _) => true,
                PrepareEvent::Watched(current) => current == Some(id),
            } by {
                if i < before.len() {
                    assert(before[i] == events[i]);
                }
            }
        }
    }
}

/// A socket is removed only where it was there from the beginning, stayed the same
/// one while it was watched, nobody answered on it at any time, the time to watch
/// was over, and the lease was not lost.
pub proof fn only_silent_sockets_are_removed(socket_path: Seq<char>, events: Seq<PrepareEvent>)
    requires
        run(socket_path, events) matches Some((_, step)) && step is Remove,
    ensures
        exists|id: DaemonSocketIdentity| #[trigger] was_silent(events, id),
        events.last() == PrepareEvent::Clock(true, None),
{
    let before = events.drop_last();
    watched_sockets_are_silent(socket_path, before);
    let phase = (run(socket_path, before)->0).0;
    let id = phase_socket(phase)->0;
    assert(was_silent(before, id));
    assert(events[0] == before[0]);
    assert forall|i: int| 0 <= i < events.len() implies match #[trigger] events[i] {
        PrepareEvent::Inspected(found) => i == 0,
        PrepareEvent::Probed(answered) => !answered,
        PrepareEvent::Clock(_, _) => true,
        PrepareEvent::Watched(current) => current == Some(id),
    } by {
        if i < before.len() {
            assert(before[i] == events[i]);
        }
    }
    assert(was_silent(events, id));
}

/// How a socket is to be cleaned up.
#[derive(Debug, PartialEq)]
pub enum CleanupPlan {
    /// It is left alone.
    Leave,
    /// It is removed under the lease that is held.
    Remove,
    /// It is removed while this lock is held.
    RemoveLocked(String),
}

/// How a socket is to be cleaned up: not where the lease is for another path or
/// was lost.
pub fn cleanup_daemon_socket_path(
    socket_path: &str,
    on_windows: bool,
    lease: Option<&DaemonSocketPathLease>,
) -> (r: CleanupPlan)
    ensures
        match r {
            CleanupPlan::Leave => on_windows || (lease matches Some(lease) && (lease.socket_path@
                != socket_path@ || lease.compromised_error is Some)),
            CleanupPlan::Remove => !on_windows && (lease matches Some(lease)
                && lease.socket_path@ == socket_path@ && lease.compromised_error is None),
            CleanupPlan::RemoveLocked(lock) => !on_windows && lease is None && lock@ == socket_path@
                + ".lock"@,
        },
{
    if on_windows {
        return CleanupPlan::Leave;
    }
    match lease {
        Some(lease) => if assert_socket_lease(socket_path, lease).is_err()
            || lease.compromised_error.is_some() {
            CleanupPlan::Leave
        } else {
            CleanupPlan::Remove
        },
        None => CleanupPlan::RemoveLocked(lock_directory_path(socket_path)),
    }
}

/// Whether the socket that is there may be removed: only the one that is expected.
pub fn cleanup_unix_daemon_socket_path(
    present: bool,
    expected: Option<DaemonSocketIdentity>,
    current: Option<DaemonSocketIdentity>,
) -> (r: bool)
    ensures
        r == (present && (expected is None || current == expected)),
{
    if !present {
        return false;
    }
    match expected {
        Some(expected) => match current {
            Some(current) => current == expected,
            None => false,
        },
        None => true,
    }
}

} // verus!
