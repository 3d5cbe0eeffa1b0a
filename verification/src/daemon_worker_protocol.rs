//! The protocol between the supervisor and its session workers: environment
//! keys, routing headers, peer tickets and the durable worker descriptor.

use vstd::hash_map::StringHashMap;
use vstd::prelude::*;

use crate::agent_roster;
use crate::agent_roster::WorkerRosterEntry;
use crate::assistant_message::clone_members;
use crate::json;
use crate::json::{Json, JsonV, owned, set_member};
use crate::path_facts;
use crate::path_facts::basename_of;
use crate::protocol;
use crate::protocol::{DaemonCommand, DaemonHello};
use crate::text::{cat3, same, slice_text, to_chars};

verus! {

pub const SESSION_LEASE_OWNER_ID_ENV: &'static str = "PRIME_AGENT_INTERNAL_SESSION_LEASE_OWNER_ID";

pub const SESSION_LEASES_ENABLED_ENV: &'static str = "PRIME_AGENT_INTERNAL_SESSION_LEASES";

pub const DAEMON_WORKER_ROLE_ENV: &'static str = "PRIME_AGENT_INTERNAL_DAEMON_WORKER";

pub const DAEMON_WORKER_TOKEN_ENV: &'static str = "PRIME_AGENT_INTERNAL_DAEMON_WORKER_TOKEN";

pub const DAEMON_WORKER_INSTANCE_ID_ENV: &'static str =
    "PRIME_AGENT_INTERNAL_DAEMON_WORKER_INSTANCE_ID";

pub const DAEMON_WORKER_ACTIVE_SESSION_ID_ENV: &'static str =
    "PRIME_AGENT_INTERNAL_DAEMON_WORKER_ACTIVE_SESSION_ID";

pub const DAEMON_WORKER_SUPERVISOR_SOCKET_ENV: &'static str =
    "PRIME_AGENT_INTERNAL_DAEMON_SUPERVISOR_SOCKET";

pub const DAEMON_WORKER_RECOVERY_JOURNAL_ENV: &'static str =
    "PRIME_AGENT_INTERNAL_DAEMON_WORKER_RECOVERY_JOURNAL";

pub const DAEMON_WORKER_STARTUP_GATE_FD_ENV: &'static str =
    "PRIME_AGENT_INTERNAL_DAEMON_WORKER_STARTUP_GATE_FD";

pub const DAEMON_WORKER_STARTUP_GATE_COMMIT: &'static str = "start\n";

/// Advertised by workers that report their agents to the supervisor.
pub const DAEMON_WORKER_ROSTER_CAPABILITY: &'static str = "agent_roster";

/// Advertised by workers that accept peer transport grants.
pub const DAEMON_WORKER_PEER_TRANSPORT_CAPABILITY: &'static str = "peer_transport";

/// Idle keepalive cadence of roster frames.
pub const ROSTER_HEARTBEAT_INTERVAL_MS: u64 = 15_000;

pub type DaemonWorkerLifecycle = &'static str;

pub const DAEMON_WORKER_LIFECYCLE_STARTING: &'static str = "starting";

pub const DAEMON_WORKER_LIFECYCLE_READY: &'static str = "ready";

pub const DAEMON_WORKER_LIFECYCLE_RECOVERING: &'static str = "recovering";

pub const DAEMON_WORKER_LIFECYCLE_STOPPING: &'static str = "stopping";

pub const DAEMON_WORKER_LIFECYCLE_FAILED: &'static str = "failed";

/// The environment of a process: variable names and their values.
pub type Environment = StringHashMap<String>;

/// A member that may be absent but, where present, is a string.
pub open spec fn absent_or_text(value: JsonV, key: Seq<char>) -> bool {
    value.get(key) is Some ==> value.str_at(key) is Some
}

/// A routing header of the worker socket.
pub open spec fn is_frame_header(value: JsonV) -> bool {
    let kind = value.str_at("kind"@);
    ||| {
        &&& kind == Some("command"@)
        &&& value.str_at("requestId"@) is Some
        &&& value.str_at("commandType"@) is Some
    }
    ||| {
        &&& kind == Some("outbound"@)
        &&& value.str_at("outboundType"@) is Some
        &&& absent_or_text(value, "requestId"@)
        &&& absent_or_text(value, "activeSessionId"@)
        &&& absent_or_text(value, "snapshotId"@)
        &&& absent_or_text(value, "sessionEventType"@)
        &&& value.get("snapshotPurpose"@) is Some ==> (value.str_at("snapshotPurpose"@) == Some(
            "attach"@,
        ) || value.str_at("snapshotPurpose"@) == Some("replacement"@) || value.str_at(
            "snapshotPurpose"@,
        ) == Some("catchup"@))
        &&& value.get("payloadEncoding"@) is Some ==> (value.str_at("payloadEncoding"@) == Some(
            "jsonl"@,
        ) || value.str_at("payloadEncoding"@) == Some("assistant-delta"@))
    }
}

fn text_if_present(value: &Json, key: &str) -> (r: bool)
    ensures
        r == absent_or_text(value@, key@),
{
    match value.get(key) {
        None => true,
        Some(member) => member.as_str().is_some(),
    }
}

/// Whether a document is a routing header of the worker socket.
pub fn is_daemon_worker_frame_header(value: &Json) -> (r: bool)
    ensures
        r == is_frame_header(value@),
{
    if value.str_is("kind", "command") {
        proof {
            reveal_strlit("command");
            reveal_strlit("outbound");
            assert("command"@[0] != "outbound"@[0]);
        }
        return value.str_at("requestId").is_some() && value.str_at("commandType").is_some();
    }
    if !value.str_is("kind", "outbound") {
        return false;
    }
    value.str_at("outboundType").is_some() && text_if_present(value, "requestId")
        && text_if_present(value, "activeSessionId") && text_if_present(value, "snapshotId")
        && text_if_present(value, "sessionEventType") && (value.get("snapshotPurpose").is_none()
        || value.str_is("snapshotPurpose", "attach") || value.str_is(
        "snapshotPurpose",
        "replacement",
    ) || value.str_is("snapshotPurpose", "catchup")) && (value.get("payloadEncoding").is_none()
        || value.str_is("payloadEncoding", "jsonl") || value.str_is(
        "payloadEncoding",
        "assistant-delta",
    ))
}

/// The private-frame routing header used on the worker socket.
#[allow(inconsistent_fields)]
#[derive(Debug, Clone, PartialEq)]
pub enum DaemonWorkerFrameHeader {
    Command { request_id: String, command_type: String },
    Outbound {
        request_id: Option<String>,
        outbound_type: String,
        active_session_id: Option<String>,
        snapshot_id: Option<String>,
        session_event_type: Option<String>,
        payload_encoding: Option<String>,
        snapshot_purpose: Option<String>,
    },
}

/// A single-use, worker-memory-only admission for one direct peer.
#[derive(Debug, Clone, PartialEq, Eq)]
pub struct DaemonWorkerPeerGrant {
    pub grant_id: String,
    pub token: String,
    pub expires_at: String,
    pub purpose: String,
    pub worker_instance_id: String,
    pub active_session_id: String,
    pub issuer_generation: String,
}

/// Device and inode of a socket file.
#[derive(Debug, Clone, Copy, PartialEq, Eq, Structural)]
pub struct DaemonSocketIdentity {
    pub dev: u64,
    pub ino: u64,
}

/// The ticket the supervisor hands a client for one direct worker connection.
#[derive(Debug, Clone, PartialEq, Eq)]
pub struct DaemonPeerTransportTicket {
    pub purpose: String,
    pub socket_path: String,
    pub socket_identity: DaemonSocketIdentity,
    pub worker_instance_id: String,
    pub active_session_id: String,
    pub grant_id: String,
    pub token: String,
    pub expires_at: String,
}

/// The document holds every field of a ticket for a session client.
pub open spec fn is_ticket(value: JsonV) -> bool {
    &&& value.str_at("purpose"@) == Some("session_client"@)
    &&& value.get("socketIdentity"@) is Some
    &&& value.get("socketIdentity"@)->0.u64_at("dev"@) is Some
    &&& value.get("socketIdentity"@)->0.u64_at("ino"@) is Some
    &&& value.str_at("socketPath"@) is Some
    &&& value.str_at("workerInstanceId"@) is Some
    &&& value.str_at("activeSessionId"@) is Some
    &&& value.str_at("grantId"@) is Some
    &&& value.str_at("token"@) is Some
    &&& value.str_at("expiresAt"@) is Some
}

/// The ticket says what the document says.
pub open spec fn ticket_of(ticket: DaemonPeerTransportTicket, value: JsonV) -> bool {
    &&& value.str_at("purpose"@) == Some(ticket.purpose@)
    &&& value.get("socketIdentity"@)->0.u64_at("dev"@) == Some(ticket.socket_identity.dev)
    &&& value.get("socketIdentity"@)->0.u64_at("ino"@) == Some(ticket.socket_identity.ino)
    &&& value.str_at("socketPath"@) == Some(ticket.socket_path@)
    &&& value.str_at("workerInstanceId"@) == Some(ticket.worker_instance_id@)
    &&& value.str_at("activeSessionId"@) == Some(ticket.active_session_id@)
    &&& value.str_at("grantId"@) == Some(ticket.grant_id@)
    &&& value.str_at("token"@) == Some(ticket.token@)
    &&& value.str_at("expiresAt"@) == Some(ticket.expires_at@)
}

impl DaemonPeerTransportTicket {
    /// Reads a ticket for a session client; nothing where a field is missing or
    /// has another type.
    pub fn from_value(value: &Json) -> (r: Option<Self>)
        ensures
            r is Some <==> is_ticket(value@),
            r matches Some(ticket) ==> ticket_of(ticket, value@),
    {
        if !value.str_is("purpose", "session_client") {
            return None;
        }
        let identity = match value.get("socketIdentity") {
            Some(identity) => identity,
            None => return None,
        };
        let dev: u64 = match identity.u64_at("dev") {
            Some(dev) => dev,
            None => return None,
        };
        let ino: u64 = match identity.u64_at("ino") {
            Some(ino) => ino,
            None => return None,
        };
        match (
            value.str_at("socketPath"),
            value.str_at("workerInstanceId"),
            value.str_at("activeSessionId"),
            value.str_at("grantId"),
            value.str_at("token"),
            value.str_at("expiresAt"),
        ) {
            (Some(path), Some(instance), Some(active), Some(grant), Some(token), Some(expires)) => Some(
                DaemonPeerTransportTicket {
                    purpose: "session_client".to_owned(),
                    socket_path: path.to_owned(),
                    socket_identity: DaemonSocketIdentity { dev, ino },
                    worker_instance_id: instance.to_owned(),
                    active_session_id: active.to_owned(),
                    grant_id: grant.to_owned(),
                    token: token.to_owned(),
                    expires_at: expires.to_owned(),
                },
            ),
            _ => None,
        }
    }
}

/// The durable create command written before a worker spawns. `extra` is only
/// filled when a first-version descriptor is read.
#[derive(Debug, PartialEq)]
pub struct DurableDaemonCreateCommand {
    pub type_: String,
    pub session_path: Option<String>,
    pub no_session: Option<bool>,
    pub extra: Vec<(String, Json)>,
}

/// What a durable create command says.
pub struct CreateCommandV {
    pub type_: Seq<char>,
    pub session_path: Option<Seq<char>>,
    pub no_session: Option<bool>,
    pub extra: Seq<(Seq<char>, JsonV)>,
}

impl View for DurableDaemonCreateCommand {
    type V = CreateCommandV;

    open spec fn view(&self) -> CreateCommandV {
        CreateCommandV {
            type_: self.type_@,
            session_path: json::opt_view(self.session_path),
            no_session: self.no_session,
            extra: json::members(self.extra@),
        }
    }
}

/// The fields of a create command that are worth keeping on disk.
pub fn durable_daemon_create_command(command: &DaemonCommand) -> (r: DurableDaemonCreateCommand)
    ensures
        r@ == (CreateCommandV {
            type_: "create"@,
            session_path: JsonV::Obj(json::members(command.body@)).str_at("sessionPath"@),
            no_session: JsonV::Obj(json::members(command.body@)).bool_at("noSession"@),
            extra: Seq::empty(),
        }),
{
    let no_session: Option<bool> = match command.field("noSession") {
        Some(value) => value.as_bool(),
        None => None,
    };
    let r = DurableDaemonCreateCommand {
        type_: "create".to_owned(),
        session_path: owned(command.string_field("sessionPath")),
        no_session,
        extra: Vec::new(),
    };
    assert(json::members(r.extra@) =~= Seq::empty());
    r
}

/// Reads a durable create command; a first-version one carried its whole
/// `config` object, which is kept.
pub fn durable_create_command_from_value(value: &Json) -> (r: Option<DurableDaemonCreateCommand>)
    ensures
        r is Some <==> value@.str_at("type"@) == Some("create"@),
        r matches Some(command) ==> command@ == (CreateCommandV {
            type_: "create"@,
            session_path: value@.str_at("sessionPath"@),
            no_session: value@.bool_at("noSession"@),
            extra: match value@.get("config"@) {
                Some(config) => seq![("config"@, config)],
                None => Seq::empty(),
            },
        }),
{
    if !value.str_is("type", "create") {
        return None;
    }
    let mut extra: Vec<(String, Json)> = Vec::new();
    if let Some(config) = value.get("config") {
        extra.push(("config".to_owned(), config.clone()));
    }
    assert(json::members(extra@) =~= match value@.get("config"@) {
        Some(config) => seq![("config"@, config)],
        None => Seq::empty(),
    });
    Some(
        DurableDaemonCreateCommand {
            type_: "create".to_owned(),
            session_path: owned(value.str_at("sessionPath")),
            no_session: value.bool_at("noSession"),
            extra,
        },
    )
}

/// What is kept on disk about one worker.
#[derive(Debug, PartialEq)]
pub struct DaemonWorkerDescriptor {
    pub version: u32,
    pub worker_id: String,
    pub pid: i32,
    pub process_start_id: Option<String>,
    pub socket_path: String,
    pub recovery_journal_path: String,
    pub orphan_process_journal_path: Option<String>,
    pub supervisor_socket_path: String,
    pub authentication_token: String,
    pub worker_instance_id: Option<String>,
    pub root_active_session_id: String,
    /// Stable protocol client that owns this worker; absent for resident sessions.
    pub owner_client_id: Option<String>,
    pub root_session_id: Option<String>,
    pub session_file: Option<String>,
    pub session_dir: Option<String>,
    pub telemetry_disabled: Option<bool>,
    pub created_at: String,
    pub updated_at: String,
    pub lifecycle: String,
    pub create_command: DurableDaemonCreateCommand,
    pub consecutive_failures: u32,
    /// Written before root termination so that no later supervisor recovers it.
    pub stop_requested_at: Option<String>,
    /// Complete the root's archived state after its process has stopped.
    pub archive_on_stop: Option<bool>,
    pub last_failure_at: Option<String>,
    pub last_error: Option<String>,
}

/// The value a first-version descriptor holds under `key` of its create config.
pub open spec fn version_one(descriptor: DaemonWorkerDescriptor, key: Seq<char>) -> Option<JsonV> {
    if descriptor.version == 1 {
        match json::lookup(json::members(descriptor.create_command.extra@), "config"@) {
            Some(config) => config.get(key),
            None => None,
        }
    } else {
        None
    }
}

/// The session directory a descriptor is kept with.
pub open spec fn durable_session_dir(descriptor: DaemonWorkerDescriptor) -> Option<Seq<char>> {
    match descriptor.session_dir {
        Some(dir) => Some(dir@),
        None => match version_one(descriptor, "sessionDir"@) {
            Some(dir) => dir.str(),
            None => None,
        },
    }
}

/// Whether a descriptor is kept with telemetry off.
pub open spec fn durable_telemetry_disabled(descriptor: DaemonWorkerDescriptor) -> bool {
    descriptor.telemetry_disabled == Some(true) || version_one(
        descriptor,
        "telemetryDisabled"@,
    ) == Some(JsonV::Bool(true))
}

/// `kept` is the durable form of `descriptor`: the second version, with what a
/// first-version create config held moved to the descriptor's own fields, and
/// with a failure reduced to a fixed notice.
pub open spec fn durable_descriptor_of(
    kept: DaemonWorkerDescriptor,
    descriptor: DaemonWorkerDescriptor,
) -> bool {
    &&& kept.version == 2
    &&& kept.worker_id == descriptor.worker_id
    &&& kept.pid == descriptor.pid
    &&& kept.process_start_id == descriptor.process_start_id
    &&& kept.socket_path == descriptor.socket_path
    &&& kept.recovery_journal_path == descriptor.recovery_journal_path
    &&& kept.orphan_process_journal_path == descriptor.orphan_process_journal_path
    &&& kept.supervisor_socket_path == descriptor.supervisor_socket_path
    &&& kept.authentication_token == descriptor.authentication_token
    &&& kept.worker_instance_id == descriptor.worker_instance_id
    &&& kept.root_active_session_id == descriptor.root_active_session_id
    &&& kept.owner_client_id == descriptor.owner_client_id
    &&& kept.root_session_id == descriptor.root_session_id
    &&& kept.session_file == descriptor.session_file
    &&& json::opt_view(kept.session_dir) == durable_session_dir(descriptor)
    &&& kept.telemetry_disabled == if durable_telemetry_disabled(descriptor) {
        Some(true)
    } else {
        None
    }
    &&& kept.created_at == descriptor.created_at
    &&& kept.updated_at == descriptor.updated_at
    &&& kept.lifecycle == descriptor.lifecycle
    &&& kept.create_command@ == (CreateCommandV {
        type_: "create"@,
        session_path: json::opt_view(descriptor.create_command.session_path),
        no_session: descriptor.create_command.no_session,
        extra: Seq::empty(),
    })
    &&& kept.consecutive_failures == descriptor.consecutive_failures
    &&& kept.stop_requested_at == descriptor.stop_requested_at
    &&& kept.archive_on_stop == descriptor.archive_on_stop
    &&& kept.last_failure_at == descriptor.last_failure_at
    &&& json::opt_view(kept.last_error) == if descriptor.lifecycle@ == "failed"@ {
        Some("Waiting for a client with fresh runtime context"@)
    } else {
        None
    }
}

/// The descriptor as it is kept on disk.
pub fn durable_daemon_worker_descriptor(descriptor: &DaemonWorkerDescriptor) -> (r:
    DaemonWorkerDescriptor)
    ensures
        durable_descriptor_of(r, *descriptor),
{
    let config: Option<&Json> = if descriptor.version == 1 {
        json::member(&descriptor.create_command.extra, "config")
    } else {
        None
    };
    let session_dir: Option<String> = match &descriptor.session_dir {
        Some(dir) => Some(dir.clone()),
        None => match config {
            Some(config) => owned(config.str_at("sessionDir")),
            None => None,
        },
    };
    let config_disabled: bool = match config {
        Some(config) => match config.get("telemetryDisabled") {
            Some(Json::Bool(disabled)) => *disabled,
            _ => false,
        },
        None => false,
    };
    let disabled: bool = descriptor.telemetry_disabled == Some(true) || config_disabled;
    let create_command = DurableDaemonCreateCommand {
        type_: "create".to_owned(),
        session_path: descriptor.create_command.session_path.clone(),
        no_session: descriptor.create_command.no_session,
        extra: Vec::new(),
    };
    assert(json::members(create_command.extra@) =~= Seq::empty());
    DaemonWorkerDescriptor {
        version: 2,
        worker_id: descriptor.worker_id.clone(),
        pid: descriptor.pid,
        process_start_id: descriptor.process_start_id.clone(),
        socket_path: descriptor.socket_path.clone(),
        recovery_journal_path: descriptor.recovery_journal_path.clone(),
        orphan_process_journal_path: descriptor.orphan_process_journal_path.clone(),
        supervisor_socket_path: descriptor.supervisor_socket_path.clone(),
        authentication_token: descriptor.authentication_token.clone(),
        worker_instance_id: descriptor.worker_instance_id.clone(),
        root_active_session_id: descriptor.root_active_session_id.clone(),
        owner_client_id: descriptor.owner_client_id.clone(),
        root_session_id: descriptor.root_session_id.clone(),
        session_file: descriptor.session_file.clone(),
        session_dir,
        telemetry_disabled: if disabled {
            Some(true)
        } else {
            None
        },
        created_at: descriptor.created_at.clone(),
        updated_at: descriptor.updated_at.clone(),
        lifecycle: descriptor.lifecycle.clone(),
        create_command,
        consecutive_failures: descriptor.consecutive_failures,
        stop_requested_at: descriptor.stop_requested_at.clone(),
        archive_on_stop: descriptor.archive_on_stop,
        last_failure_at: descriptor.last_failure_at.clone(),
        last_error: if same(&descriptor.lifecycle, "failed") {
            Some("Waiting for a client with fresh runtime context".to_owned())
        } else {
            None
        },
    }
}

/// Bringing a descriptor to its durable form twice is the same as doing it once.
pub proof fn durable_descriptor_is_stable(
    descriptor: DaemonWorkerDescriptor,
    once: DaemonWorkerDescriptor,
    twice: DaemonWorkerDescriptor,
)
    requires
        durable_descriptor_of(once, descriptor),
        durable_descriptor_of(twice, once),
    ensures
        durable_descriptor_of(twice, descriptor),
{
}

/// Whether the environment is that of a worker process.
pub fn is_daemon_worker_process(environment: &Environment) -> (r: bool)
    ensures
        r == (environment@.contains_key(DAEMON_WORKER_ROLE_ENV@)
            && environment@[DAEMON_WORKER_ROLE_ENV@]@ == "1"@),
{
    match environment.get(DAEMON_WORKER_ROLE_ENV) {
        Some(value) => same(value, "1"),
        None => false,
    }
}

/// A variable that is set and not empty.
pub open spec fn filled(environment: Map<Seq<char>, String>, key: Seq<char>) -> bool {
    environment.contains_key(key) && environment[key]@.len() > 0
}

/// The worker's instance id; an empty variable counts as unset.
pub fn daemon_worker_instance_id(environment: &Environment) -> (r: Option<String>)
    ensures
        r == if filled(environment@, DAEMON_WORKER_INSTANCE_ID_ENV@) {
            Some(environment@[DAEMON_WORKER_INSTANCE_ID_ENV@])
        } else {
            None
        },
{
    match environment.get(DAEMON_WORKER_INSTANCE_ID_ENV) {
        Some(value) => if value.as_str().is_empty() {
            None
        } else {
            Some(value.clone())
        },
        None => None,
    }
}

/// The worker's authentication token, which has to be set and not empty.
pub fn require_daemon_worker_authentication_token(environment: &Environment) -> (r: Result<
    String,
    String,
>)
    ensures
        match r {
            Ok(token) => filled(environment@, DAEMON_WORKER_TOKEN_ENV@)
                && environment@[DAEMON_WORKER_TOKEN_ENV@] == token,
            Err(error) => !filled(environment@, DAEMON_WORKER_TOKEN_ENV@) && error@
                == "Daemon session worker is missing its authentication token"@,
        },
{
    match environment.get(DAEMON_WORKER_TOKEN_ENV) {
        Some(value) => if value.as_str().is_empty() {
            Err("Daemon session worker is missing its authentication token".to_owned())
        } else {
            Ok(value.clone())
        },
        None => Err("Daemon session worker is missing its authentication token".to_owned()),
    }
}

/// Builds a worker command with the given fields, later ones overriding earlier
/// ones of the same name.
pub fn worker_command(type_: &str, fields: &Vec<(String, Json)>) -> (r: DaemonCommand)
    ensures
        r.id is None,
        r.type_@ == type_@,
        json::members(r.body@) == put_all(Seq::empty(), json::members(fields@)),
{
    let mut command = DaemonCommand::new(type_);
    let mut i: usize = 0;
    assert(json::members(command.body@) =~= Seq::empty());
    assert(json::members(fields@).take(0) =~= Seq::empty());
    while i < fields.len()
        invariant
            i <= fields.len(),
            command.id is None,
            command.type_@ == type_@,
            json::members(command.body@) == put_all(Seq::empty(), json::members(fields@).take(i as int)),
        decreases fields.len() - i,
    {
        let ghost next = json::members(fields@).take(i + 1);
        assert(next.drop_last() =~= json::members(fields@).take(i as int));
        set_member(&mut command.body, &fields[i].0, fields[i].1.clone());
        i += 1;
    }
    assert(json::members(fields@).take(i as int) =~= json::members(fields@));
    command
}

/// The fields of a command, without its id.
pub fn worker_command_body(command: &DaemonCommand) -> (r: Vec<(String, Json)>)
    ensures
        json::members(r@) == json::members(command.body@),
{
    clone_members(&command.body)
}

/// Reads what a worker says when it is connected to.
pub fn hello_from_value(value: &Json) -> (r: Option<DaemonHello>)
    ensures
        r is Some <==> protocol::is_hello(value@),
        r matches Some(hello) ==> protocol::hello_of(hello, value@),
{
    DaemonHello::from_value(value)
}

/// The last part of a path; the path itself where it has none.
pub fn file_name(path: &str) -> (r: String)
    ensures
        r@ == if path_facts::name_of(path@).len() == 0 {
            path@
        } else {
            path_facts::name_of(path@)
        },
{
    let name = basename_of(path);
    if name.as_str().unicode_len() == 0 {
        path.to_owned()
    } else {
        name
    }
}

/// What a worker tells the supervisor of its agents.
#[derive(Debug, PartialEq)]
pub enum DaemonWorkerRosterOutbound {
    RosterDelta {
        entries: Vec<WorkerRosterEntry>,
        removed_agent_ids: Option<Vec<String>>,
        snapshot: Option<bool>,
    },
    RosterHeartbeat,
}

/// The documents of agents.
pub open spec fn worker_entries(entries: Seq<WorkerRosterEntry>) -> Seq<JsonV> {
    Seq::new(entries.len(), |i: int| agent_roster::worker_entry_value(entries[i]@))
}

/// The documents of texts.
pub open spec fn text_list(texts: Seq<String>) -> Seq<JsonV> {
    Seq::new(texts.len(), |i: int| JsonV::Str(texts[i]@))
}

/// The document of what a worker tells the supervisor of its agents.
pub open spec fn roster_value(outbound: DaemonWorkerRosterOutbound) -> JsonV {
    match outbound {
        DaemonWorkerRosterOutbound::RosterDelta { entries, removed_agent_ids, snapshot } => {
            let head = Seq::<(Seq<char>, JsonV)>::empty().push(
                ("type"@, JsonV::Str("roster_delta"@)),
            ).push(("entries"@, JsonV::Arr(worker_entries(entries@))));
            let removed = match removed_agent_ids {
                Some(ids) => head.push(("removedAgentIds"@, JsonV::Arr(text_list(ids@)))),
                None => head,
            };
            JsonV::Obj(
                match snapshot {
                    Some(snapshot) => removed.push(("snapshot"@, JsonV::Bool(snapshot))),
                    None => removed,
                },
            )
        },
        DaemonWorkerRosterOutbound::RosterHeartbeat => JsonV::Obj(
            Seq::<(Seq<char>, JsonV)>::empty().push(("type"@, JsonV::Str("roster_heartbeat"@))),
        ),
    }
}

/// The document that lists texts.
pub fn text_array(texts: &Vec<String>) -> (r: Json)
    ensures
        r@ == JsonV::Arr(text_list(texts@)),
{
    let mut values: Vec<Json> = Vec::new();
    let mut i: usize = 0;
    while i < texts.len()
        invariant
            i <= texts.len(),
            json::items(values@) == text_list(texts@).take(i as int),
        decreases texts.len() - i,
    {
        let ghost before = values@;
        values.push(Json::Str(texts[i].clone()));
        assert(json::items(values@) =~= json::items(before).push(JsonV::Str(texts@[i as int]@)));
        i += 1;
        assert(json::items(values@) =~= text_list(texts@).take(i as int));
    }
    assert(text_list(texts@).take(i as int) =~= text_list(texts@));
    json::array(values)
}

impl DaemonWorkerRosterOutbound {
    /// The document of what a worker tells the supervisor of its agents.
    pub fn to_value(&self) -> (r: Json)
        ensures
            r@ == roster_value(*self),
    {
        let mut pairs = json::no_members();
        match self {
            DaemonWorkerRosterOutbound::RosterDelta { entries, removed_agent_ids, snapshot } => {
                json::add_text(&mut pairs, "type", "roster_delta");
                let mut values: Vec<Json> = Vec::new();
                let mut i: usize = 0;
                assert(json::items(values@) =~= worker_entries(entries@).take(0));
                while i < entries.len()
                    invariant
                        i <= entries.len(),
                        json::items(values@) == worker_entries(entries@).take(i as int),
                    decreases entries.len() - i,
                {
                    let ghost before = values@;
                    let value = entries[i].to_value();
                    let ghost shown = value@;
                    values.push(value);
                    assert(json::items(values@) =~= json::items(before).push(shown));
                    i += 1;
                    assert(json::items(values@) =~= worker_entries(entries@).take(i as int));
                }
                assert(worker_entries(entries@).take(i as int) =~= worker_entries(entries@));
                json::add_member(&mut pairs, "entries", json::array(values));
                if let Some(ids) = removed_agent_ids {
                    json::add_member(&mut pairs, "removedAgentIds", text_array(ids));
                }
                if let Some(snapshot) = snapshot {
                    json::add_member(&mut pairs, "snapshot", Json::Bool(*snapshot));
                }
            },
            DaemonWorkerRosterOutbound::RosterHeartbeat => {
                json::add_text(&mut pairs, "type", "roster_heartbeat");
            },
        }
        json::object(pairs)
    }
}

/// The members after all of `fields` were set, in order.
pub open spec fn put_all(
    base: Seq<(Seq<char>, JsonV)>,
    fields: Seq<(Seq<char>, JsonV)>,
) -> Seq<(Seq<char>, JsonV)>
    decreases fields.len(),
{
    if fields.len() == 0 {
        base
    } else {
        json::put(put_all(base, fields.drop_last()), fields.last().0, fields.last().1)
    }
}

/// The text without the `/` and `\` at its end.
pub open spec fn without_trailing_separators(path: Seq<char>) -> Seq<char>
    decreases path.len(),
{
    if path.len() > 0 && (path.last() == '/' || path.last() == '\\') {
        without_trailing_separators(path.drop_last())
    } else {
        path
    }
}

/// The text without the separators at its end.
pub fn trim_trailing_separators(path: &str) -> (r: String)
    ensures
        r@ == without_trailing_separators(path@),
{
    let chars = to_chars(path);
    let mut to: usize = chars.len();
    assert(path@.subrange(0, path@.len() as int) =~= path@);
    while to > 0 && (chars[to - 1] == '/' || chars[to - 1] == '\\')
        invariant
            to <= chars.len(),
            chars@ == path@,
            without_trailing_separators(path@) == without_trailing_separators(
                path@.subrange(0, to as int),
            ),
        decreases to,
    {
        assert(path@.subrange(0, to as int).drop_last() =~= path@.subrange(0, to - 1));
        to -= 1;
    }
    slice_text(&chars, 0, to)
}

/// A name below a directory, with one separator between them.
pub fn join_path(base: &str, name: &str) -> (r: String)
    ensures
        r@ == without_trailing_separators(base@) + "/"@ + name@,
{
    let base = trim_trailing_separators(base);
    cat3(&base, "/", name)
}

/// What the startup gate variable asks for.
#[derive(Debug, Clone, Copy, PartialEq, Eq, Structural)]
pub enum StartupGate {
    /// No gate: the worker starts at once.
    Open,
    /// The worker waits for the commit marker on this descriptor.
    Descriptor(i32),
}

/// The characters are all decimal digits, at least one of them.
pub open spec fn all_digits(text: Seq<char>) -> bool {
    text.len() > 0 && forall|i: int| 0 <= i < text.len() ==> '0' <= #[trigger] text[i] <= '9'
}

/// The number that decimal digits spell.
pub open spec fn digits_value(text: Seq<char>) -> nat
    decreases text.len(),
{
    if text.len() == 0 {
        0
    } else {
        10 * digits_value(text.drop_last()) + ((text.last() as u32 - '0' as u32) as nat)
    }
}

/// The digits of an optionally signed decimal number, with its sign.
pub open spec fn signed_parts(text: Seq<char>) -> (bool, Seq<char>) {
    if text.len() > 0 && text[0] == '-' {
        (true, text.drop_first())
    } else if text.len() > 0 && text[0] == '+' {
        (false, text.drop_first())
    } else {
        (false, text)
    }
}

/// The value of a decimal number that fits 32 signed bits.
pub open spec fn parsed_i32(text: Seq<char>) -> Option<int> {
    let parts = signed_parts(text);
    if !all_digits(parts.1) {
        None
    } else {
        let value: int = if parts.0 {
            -(digits_value(parts.1) as int)
        } else {
            digits_value(parts.1) as int
        };
        if i32::MIN <= value <= i32::MAX {
            Some(value)
        } else {
            None
        }
    }
}

proof fn digits_value_monotone(text: Seq<char>, n: int)
    requires
        0 <= n <= text.len(),
        forall|i: int| 0 <= i < text.len() ==> '0' <= #[trigger] text[i] <= '9',
    ensures
        digits_value(text.take(n)) <= digits_value(text),
    decreases text.len(),
{
    if n == text.len() {
        assert(text.take(n) =~= text);
    } else {
        digits_value_monotone(text.drop_last(), n);
        assert(text.drop_last().take(n) =~= text.take(n));
    }
}

/// Reads a decimal number that fits 32 signed bits.
pub fn parse_i32(text: &str) -> (r: Option<i32>)
    ensures
        match r {
            Some(n) => parsed_i32(text@) == Some(n as int),
            None => parsed_i32(text@) is None,
        },
{
    let chars = to_chars(text);
    let mut start: usize = 0;
    let mut negative: bool = false;
    if chars.len() > 0 && chars[0] == '-' {
        negative = true;
        start = 1;
    } else if chars.len() > 0 && chars[0] == '+' {
        start = 1;
    }
    let ghost digits = signed_parts(text@).1;
    assert(digits =~= text@.skip(start as int));
    if start == chars.len() {
        return None;
    }
    let mut i: usize = start;
    while i < chars.len()
        invariant
            start <= i <= chars.len(),
            chars@ == text@,
            digits == text@.skip(start as int),
            digits == signed_parts(text@).1,
            forall|j: int| 0 <= j < i - start ==> '0' <= #[trigger] digits[j] <= '9',
        decreases chars.len() - i,
    {
        if !('0' <= chars[i] && chars[i] <= '9') {
            assert(digits[i - start] == chars@[i as int]);
            assert(!all_digits(digits));
            return None;
        }
        i += 1;
    }
    let mut value: i64 = 0;
    i = start;
    while i < chars.len()
        invariant
            start <= i <= chars.len(),
            start < chars.len(),
            chars@ == text@,
            digits == text@.skip(start as int),
            digits == signed_parts(text@).1,
            negative == signed_parts(text@).0,
            forall|j: int| 0 <= j < digits.len() ==> '0' <= #[trigger] digits[j] <= '9',
            0 <= value <= 2_147_483_648,
            value == digits_value(digits.take(i - start)),
        decreases chars.len() - i,
    {
        assert(digits.take(i + 1 - start).drop_last() =~= digits.take(i - start));
        assert(digits.take(i + 1 - start).last() == chars@[i as int]);
        assert(digits[i - start] == chars@[i as int]);
        value = value * 10 + ((chars[i] as u32 - '0' as u32) as i64);
        i += 1;
        if value > 2_147_483_648 {
            proof {
                digits_value_monotone(digits, i - start);
            }
            return None;
        }
    }
    assert(digits.take(i - start) =~= digits);
    if negative {
        Some((-value) as i32)
    } else if value == 2_147_483_648 {
        None
    } else {
        Some(value as i32)
    }
}

/// Takes the startup gate out of the environment and says what to wait for. A
/// gate that is no number, or below the first descriptor a process can inherit
/// beside its standard streams, is refused.
pub fn wait_for_daemon_worker_startup_gate(environment: &mut Environment) -> (r: Result<StartupGate, String>)
    ensures
        final(environment)@ == old(environment)@.remove(DAEMON_WORKER_STARTUP_GATE_FD_ENV@),
        match r {
            Ok(StartupGate::Open) => !old(environment)@.contains_key(
                DAEMON_WORKER_STARTUP_GATE_FD_ENV@,
            ),
            Ok(StartupGate::Descriptor(fd)) => old(environment)@.contains_key(
                DAEMON_WORKER_STARTUP_GATE_FD_ENV@,
            ) && fd >= 3 && parsed_i32(old(environment)@[DAEMON_WORKER_STARTUP_GATE_FD_ENV@]@)
                == Some(fd as int),
            Err(error) => {
                &&& error@ == "Daemon session worker has an invalid startup gate"@
                &&& old(environment)@.contains_key(DAEMON_WORKER_STARTUP_GATE_FD_ENV@)
                &&& match parsed_i32(old(environment)@[DAEMON_WORKER_STARTUP_GATE_FD_ENV@]@) {
                    Some(fd) => fd < 3,
                    None => true,
                }
            },
        },
{
    let raw: Option<String> = match environment.get(DAEMON_WORKER_STARTUP_GATE_FD_ENV) {
        Some(raw) => Some(raw.clone()),
        None => None,
    };
    environment.remove(DAEMON_WORKER_STARTUP_GATE_FD_ENV);
    match raw {
        None => {
            assert(environment@ =~= old(environment)@.remove(DAEMON_WORKER_STARTUP_GATE_FD_ENV@));
            Ok(StartupGate::Open)
        },
        Some(raw) => match parse_i32(&raw) {
            Some(fd) => if fd < 3 {
                Err("Daemon session worker has an invalid startup gate".to_owned())
            } else {
                Ok(StartupGate::Descriptor(fd))
            },
            None => Err("Daemon session worker has an invalid startup gate".to_owned()),
        },
    }
}

/// Whether the marker read from the descriptor lets the worker start.
pub fn check_startup_marker(marker: &str) -> (r: Result<(), String>)
    ensures
        match r {
            Ok(_) => marker@ == DAEMON_WORKER_STARTUP_GATE_COMMIT@,
            Err(error) => marker@ != DAEMON_WORKER_STARTUP_GATE_COMMIT@ && error@
                == "Daemon session worker startup was cancelled"@,
        },
{
    if same(marker, DAEMON_WORKER_STARTUP_GATE_COMMIT) {
        Ok(())
    } else {
        Err("Daemon session worker startup was cancelled".to_owned())
    }
}

} // verus!
