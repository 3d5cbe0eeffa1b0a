//! Who owns the daemon's socket: owner records, the admission of a shutdown and
//! startup fences, and the decisions that are made under the registry's guard.
//! What the file system, the process table and the clock said comes in as
//! arguments.

use vstd::prelude::*;

use crate::clock;
use crate::clock::{iso_from_ms, parse_iso_ms};
use crate::digest;
use crate::digest::hash_prefix;
use crate::json;
use crate::json::{Json, JsonV, owned, parse_json, print_json, print_pretty};
use crate::path_facts;
use crate::path_facts::{basename_of, dirname_of, join_dir, resolve};
use crate::text;
use crate::text::{
    cat2, cat3, cat4, contains_text, ends_with, is_some_text, same, same_optional, signed_decimal,
    to_chars,
};

verus! {

pub const DAEMON_SUPERVISOR_REGISTRY_DIR_ENV: &'static str = "PRIME_AGENT_INTERNAL_DAEMON_SUPERVISOR_REGISTRY_DIR";

/// The version of the records.
pub const OWNER_VERSION: u32 = 1;

/// After how long a guard that nobody renewed is taken over, in milliseconds.
pub const REGISTRY_LOCK_STALE_MS: u64 = 5000;

pub const REGISTRY_LOCK_UPDATE_MS: u64 = 1000;

pub const REGISTRY_LOCK_RETRIES: u32 = 500;

pub const REGISTRY_LOCK_RETRY_MS: u64 = 10;

pub const STARTUP_FENCE_POLL_MS: u64 = 250;

pub const SHUTDOWN_ADMISSION_FILE_NAME: &'static str = "shutdown-admission.json";

/// How long an admission holds without being renewed, in milliseconds.
pub const SHUTDOWN_ADMISSION_LEASE_MS: i64 = 5000;

pub const SHUTDOWN_ADMISSION_REFRESH_MS: u64 = 1000;

pub const SHUTDOWN_ADMISSION_WAIT_MS: u64 = 50;

/// How long it is believed that a process is no zombie, in milliseconds.
pub const OWNER_ZOMBIE_CONFIRM_INTERVAL_MS: i64 = 5000;

pub const OWNER_PHASE_STARTING: &'static str = "starting";

pub const OWNER_PHASE_OWNER: &'static str = "owner";

pub const OWNER_PHASE_STOPPING: &'static str = "stopping";

/// The phase of an owner, by its name.
pub type DaemonSupervisorOwnerPhase = String;

/// A process: its number and, where it is known, when it was started.
#[derive(Debug, PartialEq)]
pub struct ProcessIdentity {
    pub pid: i64,
    pub process_start_id: Option<String>,
}

/// What identifies a process.
#[verifier::ext_equal]
pub struct IdentityV {
    pub pid: i64,
    pub process_start_id: Option<Seq<char>>,
}

impl View for ProcessIdentity {
    type V = IdentityV;

    open spec fn view(&self) -> IdentityV {
        IdentityV { pid: self.pid, process_start_id: json::opt_view(self.process_start_id) }
    }
}

impl Clone for ProcessIdentity {
    fn clone(&self) -> (r: Self)
        ensures
            r@ == self@,
    {
        ProcessIdentity { pid: self.pid, process_start_id: self.process_start_id.clone() }
    }
}

/// Who owns the daemon's socket.
#[derive(Debug, PartialEq)]
pub struct DaemonSupervisorOwnerRecord {
    pub version: u32,
    pub role: String,
    pub token: String,
    pub generation: String,
    pub pid: i64,
    pub process_start_id: Option<String>,
    pub socket_path: String,
    pub descriptor_dir: String,
    pub agent_dir: String,
    pub app_version: String,
    pub phase: String,
    pub created_at: String,
    pub updated_at: String,
}

/// What an owner record says.
#[verifier::ext_equal]
pub struct OwnerV {
    pub version: u32,
    pub role: Seq<char>,
    pub token: Seq<char>,
    pub generation: Seq<char>,
    pub pid: i64,
    pub process_start_id: Option<Seq<char>>,
    pub socket_path: Seq<char>,
    pub descriptor_dir: Seq<char>,
    pub agent_dir: Seq<char>,
    pub app_version: Seq<char>,
    pub phase: Seq<char>,
    pub created_at: Seq<char>,
    pub updated_at: Seq<char>,
}

impl View for DaemonSupervisorOwnerRecord {
    type V = OwnerV;

    open spec fn view(&self) -> OwnerV {
        OwnerV {
            version: self.version,
            role: self.role@,
            token: self.token@,
            generation: self.generation@,
            pid: self.pid,
            process_start_id: json::opt_view(self.process_start_id),
            socket_path: self.socket_path@,
            descriptor_dir: self.descriptor_dir@,
            agent_dir: self.agent_dir@,
            app_version: self.app_version@,
            phase: self.phase@,
            created_at: self.created_at@,
            updated_at: self.updated_at@,
        }
    }
}

impl Clone for DaemonSupervisorOwnerRecord {
    fn clone(&self) -> (r: Self)
        ensures
            r@ == self@,
    {
        DaemonSupervisorOwnerRecord {
            version: self.version,
            role: self.role.clone(),
            token: self.token.clone(),
            generation: self.generation.clone(),
            pid: self.pid,
            process_start_id: self.process_start_id.clone(),
            socket_path: self.socket_path.clone(),
            descriptor_dir: self.descriptor_dir.clone(),
            agent_dir: self.agent_dir.clone(),
            app_version: self.app_version.clone(),
            phase: self.phase.clone(),
            created_at: self.created_at.clone(),
            updated_at: self.updated_at.clone(),
        }
    }
}

/// What an owner claims, without its process.
#[derive(Debug, PartialEq)]
pub struct DaemonSupervisorOwnerScope {
    pub version: u32,
    pub role: String,
    pub token: String,
    pub generation: String,
    pub socket_path: String,
    pub descriptor_dir: String,
}

/// What a claim says.
#[verifier::ext_equal]
pub struct ScopeV {
    pub version: u32,
    pub role: Seq<char>,
    pub token: Seq<char>,
    pub generation: Seq<char>,
    pub socket_path: Seq<char>,
    pub descriptor_dir: Seq<char>,
}

impl View for DaemonSupervisorOwnerScope {
    type V = ScopeV;

    open spec fn view(&self) -> ScopeV {
        ScopeV {
            version: self.version,
            role: self.role@,
            token: self.token@,
            generation: self.generation@,
            socket_path: self.socket_path@,
            descriptor_dir: self.descriptor_dir@,
        }
    }
}

/// A shutdown that was admitted: no other one and no start is, until it expires.
#[derive(Debug, PartialEq)]
pub struct DaemonShutdownAdmissionRecord {
    pub version: u32,
    pub token: String,
    pub pid: i64,
    pub process_start_id: Option<String>,
    pub created_at: String,
    pub updated_at: String,
    pub expires_at: String,
}

/// What an admission says.
#[verifier::ext_equal]
pub struct AdmissionV {
    pub version: u32,
    pub token: Seq<char>,
    pub pid: i64,
    pub process_start_id: Option<Seq<char>>,
    pub created_at: Seq<char>,
    pub updated_at: Seq<char>,
    pub expires_at: Seq<char>,
}

impl View for DaemonShutdownAdmissionRecord {
    type V = AdmissionV;

    open spec fn view(&self) -> AdmissionV {
        AdmissionV {
            version: self.version,
            token: self.token@,
            pid: self.pid,
            process_start_id: json::opt_view(self.process_start_id),
            created_at: self.created_at@,
            updated_at: self.updated_at@,
            expires_at: self.expires_at@,
        }
    }
}

/// A predecessor that has to be gone before the socket is taken.
#[derive(Debug, PartialEq)]
pub struct DaemonStartupFenceRecord {
    pub version: u32,
    pub token: String,
    pub owner_token: String,
    pub pid: i64,
    pub process_start_id: String,
    pub socket_path: String,
    pub supervisor_generation: String,
    pub created_at: String,
}

/// What a fence says.
#[verifier::ext_equal]
pub struct FenceV {
    pub version: u32,
    pub token: Seq<char>,
    pub owner_token: Seq<char>,
    pub pid: i64,
    pub process_start_id: Seq<char>,
    pub socket_path: Seq<char>,
    pub supervisor_generation: Seq<char>,
    pub created_at: Seq<char>,
}

impl View for DaemonStartupFenceRecord {
    type V = FenceV;

    open spec fn view(&self) -> FenceV {
        FenceV {
            version: self.version,
            token: self.token@,
            owner_token: self.owner_token@,
            pid: self.pid,
            process_start_id: self.process_start_id@,
            socket_path: self.socket_path@,
            supervisor_generation: self.supervisor_generation@,
            created_at: self.created_at@,
        }
    }
}

/// The claim of an owner.
pub open spec fn scope_of_owner(owner: OwnerV) -> ScopeV {
    ScopeV {
        version: owner.version,
        role: owner.role,
        token: owner.token,
        generation: owner.generation,
        socket_path: owner.socket_path,
        descriptor_dir: owner.descriptor_dir,
    }
}

/// The document of an owner record.
pub open spec fn owner_value(owner: OwnerV) -> JsonV {
    let head = Seq::<(Seq<char>, JsonV)>::empty().push(
        ("version"@, json::int_value(owner.version as int)),
    ).push(("role"@, JsonV::Str(owner.role))).push(("token"@, JsonV::Str(owner.token))).push(
        ("generation"@, JsonV::Str(owner.generation)),
    ).push(("pid"@, json::int_value(owner.pid as int)));
    JsonV::Obj(
        json::push_opt_text(head, "processStartId"@, owner.process_start_id).push(
            ("socketPath"@, JsonV::Str(owner.socket_path)),
        ).push(("descriptorDir"@, JsonV::Str(owner.descriptor_dir))).push(
            ("agentDir"@, JsonV::Str(owner.agent_dir)),
        ).push(("appVersion"@, JsonV::Str(owner.app_version))).push(
            ("phase"@, JsonV::Str(owner.phase)),
        ).push(("createdAt"@, JsonV::Str(owner.created_at))).push(
            ("updatedAt"@, JsonV::Str(owner.updated_at)),
        ),
    )
}

/// The document of a claim.
pub open spec fn scope_value(scope: ScopeV) -> JsonV {
    JsonV::Obj(
        Seq::<(Seq<char>, JsonV)>::empty().push(
            ("version"@, json::int_value(scope.version as int)),
        ).push(("role"@, JsonV::Str(scope.role))).push(("token"@, JsonV::Str(scope.token))).push(
            ("generation"@, JsonV::Str(scope.generation)),
        ).push(("socketPath"@, JsonV::Str(scope.socket_path))).push(
            ("descriptorDir"@, JsonV::Str(scope.descriptor_dir)),
        ),
    )
}

/// The document of an admission.
pub open spec fn admission_value(admission: AdmissionV) -> JsonV {
    let head = Seq::<(Seq<char>, JsonV)>::empty().push(
        ("version"@, json::int_value(admission.version as int)),
    ).push(("token"@, JsonV::Str(admission.token))).push(
        ("pid"@, json::int_value(admission.pid as int)),
    );
    JsonV::Obj(
        json::push_opt_text(head, "processStartId"@, admission.process_start_id).push(
            ("createdAt"@, JsonV::Str(admission.created_at)),
        ).push(("updatedAt"@, JsonV::Str(admission.updated_at))).push(
            ("expiresAt"@, JsonV::Str(admission.expires_at)),
        ),
    )
}

/// The document of a fence.
pub open spec fn fence_value(fence: FenceV) -> JsonV {
    JsonV::Obj(
        Seq::<(Seq<char>, JsonV)>::empty().push(
            ("version"@, json::int_value(fence.version as int)),
        ).push(("token"@, JsonV::Str(fence.token))).push(
            ("ownerToken"@, JsonV::Str(fence.owner_token)),
        ).push(("pid"@, json::int_value(fence.pid as int))).push(
            ("processStartId"@, JsonV::Str(fence.process_start_id)),
        ).push(("socketPath"@, JsonV::Str(fence.socket_path))).push(
            ("supervisorGeneration"@, JsonV::Str(fence.supervisor_generation)),
        ).push(("createdAt"@, JsonV::Str(fence.created_at))),
    )
}

impl DaemonSupervisorOwnerRecord {
    /// The process of the owner.
    pub fn identity(&self) -> (r: ProcessIdentity)
        ensures
            r@ == (IdentityV { pid: self.pid, process_start_id: self@.process_start_id }),
    {
        ProcessIdentity { pid: self.pid, process_start_id: self.process_start_id.clone() }
    }

    /// The claim of the owner.
    pub fn scope(&self) -> (r: DaemonSupervisorOwnerScope)
        ensures
            r@ == scope_of_owner(self@),
    {
        DaemonSupervisorOwnerScope {
            version: self.version,
            role: self.role.clone(),
            token: self.token.clone(),
            generation: self.generation.clone(),
            socket_path: self.socket_path.clone(),
            descriptor_dir: self.descriptor_dir.clone(),
        }
    }

    /// The document of the record.
    pub fn to_value(&self) -> (r: Json)
        ensures
            r@ == owner_value(self@),
    {
        let mut pairs = json::no_members();
        json::add_member(&mut pairs, "version", json::count(self.version as u64));
        json::add_text(&mut pairs, "role", &self.role);
        json::add_text(&mut pairs, "token", &self.token);
        json::add_text(&mut pairs, "generation", &self.generation);
        json::add_member(&mut pairs, "pid", json::integer(self.pid));
        json::add_opt_text(&mut pairs, "processStartId", &self.process_start_id);
        json::add_text(&mut pairs, "socketPath", &self.socket_path);
        json::add_text(&mut pairs, "descriptorDir", &self.descriptor_dir);
        json::add_text(&mut pairs, "agentDir", &self.agent_dir);
        json::add_text(&mut pairs, "appVersion", &self.app_version);
        json::add_text(&mut pairs, "phase", &self.phase);
        json::add_text(&mut pairs, "createdAt", &self.created_at);
        json::add_text(&mut pairs, "updatedAt", &self.updated_at);
        json::object(pairs)
    }
}

impl DaemonSupervisorOwnerScope {
    /// The document of the claim.
    pub fn to_value(&self) -> (r: Json)
        ensures
            r@ == scope_value(self@),
    {
        let mut pairs = json::no_members();
        json::add_member(&mut pairs, "version", json::count(self.version as u64));
        json::add_text(&mut pairs, "role", &self.role);
        json::add_text(&mut pairs, "token", &self.token);
        json::add_text(&mut pairs, "generation", &self.generation);
        json::add_text(&mut pairs, "socketPath", &self.socket_path);
        json::add_text(&mut pairs, "descriptorDir", &self.descriptor_dir);
        json::object(pairs)
    }
}

impl DaemonShutdownAdmissionRecord {
    /// The process that shuts down.
    pub fn identity(&self) -> (r: ProcessIdentity)
        ensures
            r@ == (IdentityV { pid: self.pid, process_start_id: self@.process_start_id }),
    {
        ProcessIdentity { pid: self.pid, process_start_id: self.process_start_id.clone() }
    }

    /// The document of the record.
    pub fn to_value(&self) -> (r: Json)
        ensures
            r@ == admission_value(self@),
    {
        let mut pairs = json::no_members();
        json::add_member(&mut pairs, "version", json::count(self.version as u64));
        json::add_text(&mut pairs, "token", &self.token);
        json::add_member(&mut pairs, "pid", json::integer(self.pid));
        json::add_opt_text(&mut pairs, "processStartId", &self.process_start_id);
        json::add_text(&mut pairs, "createdAt", &self.created_at);
        json::add_text(&mut pairs, "updatedAt", &self.updated_at);
        json::add_text(&mut pairs, "expiresAt", &self.expires_at);
        json::object(pairs)
    }
}

impl Clone for DaemonShutdownAdmissionRecord {
    fn clone(&self) -> (r: Self)
        ensures
            r@ == self@,
    {
        DaemonShutdownAdmissionRecord {
            version: self.version,
            token: self.token.clone(),
            pid: self.pid,
            process_start_id: self.process_start_id.clone(),
            created_at: self.created_at.clone(),
            updated_at: self.updated_at.clone(),
            expires_at: self.expires_at.clone(),
        }
    }
}

impl DaemonStartupFenceRecord {
    /// The process that has to be gone.
    pub fn identity(&self) -> (r: ProcessIdentity)
        ensures
            r@ == (IdentityV { pid: self.pid, process_start_id: Some(self.process_start_id@) }),
    {
        ProcessIdentity { pid: self.pid, process_start_id: Some(self.process_start_id.clone()) }
    }

    /// The document of the record.
    pub fn to_value(&self) -> (r: Json)
        ensures
            r@ == fence_value(self@),
    {
        let mut pairs = json::no_members();
        json::add_member(&mut pairs, "version", json::count(self.version as u64));
        json::add_text(&mut pairs, "token", &self.token);
        json::add_text(&mut pairs, "ownerToken", &self.owner_token);
        json::add_member(&mut pairs, "pid", json::integer(self.pid));
        json::add_text(&mut pairs, "processStartId", &self.process_start_id);
        json::add_text(&mut pairs, "socketPath", &self.socket_path);
        json::add_text(&mut pairs, "supervisorGeneration", &self.supervisor_generation);
        json::add_text(&mut pairs, "createdAt", &self.created_at);
        json::object(pairs)
    }
}

/// The name is that of a phase.
pub open spec fn is_phase(phase: Seq<char>) -> bool {
    phase == "starting"@ || phase == "owner"@ || phase == "stopping"@
}

/// The document is an owner record.
pub open spec fn is_owner(value: JsonV) -> bool {
    &&& value.u64_at("version"@) == Some(OWNER_VERSION as u64)
    &&& value.str_at("role"@) == Some("supervisor"@)
    &&& value.str_at("token"@) is Some
    &&& value.str_at("generation"@) is Some
    &&& value.i64_at("pid"@) matches Some(pid) && pid > 0
    &&& value.get("processStartId"@) matches Some(start) ==> start is Str
    &&& value.str_at("socketPath"@) is Some
    &&& value.str_at("descriptorDir"@) is Some
    &&& value.str_at("agentDir"@) is Some
    &&& value.str_at("appVersion"@) is Some
    &&& value.str_at("phase"@) matches Some(phase) && is_phase(phase)
    &&& value.str_at("createdAt"@) is Some
    &&& value.str_at("updatedAt"@) is Some
}

/// The owner record in a document.
pub open spec fn owner_of(value: JsonV) -> OwnerV {
    OwnerV {
        version: OWNER_VERSION,
        role: json::text_or_empty(value, "role"@),
        token: json::text_or_empty(value, "token"@),
        generation: json::text_or_empty(value, "generation"@),
        pid: value.i64_at("pid"@)->0,
        process_start_id: value.str_at("processStartId"@),
        socket_path: json::text_or_empty(value, "socketPath"@),
        descriptor_dir: json::text_or_empty(value, "descriptorDir"@),
        agent_dir: json::text_or_empty(value, "agentDir"@),
        app_version: json::text_or_empty(value, "appVersion"@),
        phase: json::text_or_empty(value, "phase"@),
        created_at: json::text_or_empty(value, "createdAt"@),
        updated_at: json::text_or_empty(value, "updatedAt"@),
    }
}

/// The owner record is one that can be read: a supervisor's, in a known phase.
pub open spec fn is_valid_owner(owner: OwnerV) -> bool {
    owner.version == OWNER_VERSION && owner.role == "supervisor"@ && owner.pid > 0 && is_phase(
        owner.phase,
    )
}

/// Whether the document is an owner record.
pub fn is_daemon_supervisor_owner_record(value: &Json) -> (r: bool)
    ensures
        r == is_owner(value@),
{
    match value.u64_at("version") {
        Some(version) if version == OWNER_VERSION as u64 => {},
        _ => return false,
    }
    if !value.str_is("role", "supervisor") {
        return false;
    }
    match value.i64_at("pid") {
        Some(pid) if pid > 0 => {},
        _ => return false,
    }
    match value.get("processStartId") {
        None => {},
        Some(Json::Str(_)) => {},
        _ => return false,
    }
    if !(value.str_is("phase", "starting") || value.str_is("phase", "owner") || value.str_is(
        "phase",
        "stopping",
    )) {
        return false;
    }
    value.str_at("token").is_some() && value.str_at("generation").is_some() && value.str_at(
        "socketPath",
    ).is_some() && value.str_at("descriptorDir").is_some() && value.str_at("agentDir").is_some()
        && value.str_at("appVersion").is_some() && value.str_at("createdAt").is_some()
        && value.str_at("updatedAt").is_some()
}

/// The owner record that a file holds.
pub open spec fn owner_in(contents: Seq<char>) -> Option<OwnerV> {
    match json::parsed_json(vstd::utf8::encode_utf8(contents)) {
        Ok(value) => if is_owner(value) {
            Some(owner_of(value))
        } else {
            None
        },
        Err(_) => None,
    }
}

/// Reads the owner record from the contents of its file.
pub fn read_owner_record(contents: &str) -> (r: Option<DaemonSupervisorOwnerRecord>)
    ensures
        match r {
            Some(owner) => owner_in(contents@) == Some(owner@) && is_valid_owner(owner@),
            None => owner_in(contents@) is None,
        },
{
    let value = match parse_json(contents.as_bytes()) {
        Ok(value) => value,
        Err(_) => return None,
    };
    if !is_daemon_supervisor_owner_record(&value) {
        return None;
    }
    let pid: i64 = match value.i64_at("pid") {
        Some(pid) => pid,
        None => return None,
    };
    Some(
        DaemonSupervisorOwnerRecord {
            version: OWNER_VERSION,
            role: json::text_at(&value, "role"),
            token: json::text_at(&value, "token"),
            generation: json::text_at(&value, "generation"),
            pid,
            process_start_id: owned(value.str_at("processStartId")),
            socket_path: json::text_at(&value, "socketPath"),
            descriptor_dir: json::text_at(&value, "descriptorDir"),
            agent_dir: json::text_at(&value, "agentDir"),
            app_version: json::text_at(&value, "appVersion"),
            phase: json::text_at(&value, "phase"),
            created_at: json::text_at(&value, "createdAt"),
            updated_at: json::text_at(&value, "updatedAt"),
        },
    )
}

proof fn owner_keys_differ()
    ensures
        "version"@.len() == 7,
        "role"@.len() == 4,
        "token"@.len() == 5 && "token"@[0] == 't',
        "generation"@.len() == 10 && "generation"@[0] == 'g',
        "pid"@.len() == 3,
        "processStartId"@.len() == 14,
        "socketPath"@.len() == 10 && "socketPath"@[0] == 's',
        "descriptorDir"@.len() == 13,
        "agentDir"@.len() == 8,
        "appVersion"@.len() == 10 && "appVersion"@[0] == 'a',
        "phase"@.len() == 5 && "phase"@[0] == 'p',
        "createdAt"@.len() == 9 && "createdAt"@[0] == 'c',
        "updatedAt"@.len() == 9 && "updatedAt"@[0] == 'u',
        "expiresAt"@.len() == 9 && "expiresAt"@[0] == 'e',
        "ownerToken"@.len() == 10 && "ownerToken"@[0] == 'o',
        "supervisorGeneration"@.len() == 20,
{
    reveal_strlit("version");
    reveal_strlit("role");
    reveal_strlit("token");
    reveal_strlit("generation");
    reveal_strlit("pid");
    reveal_strlit("processStartId");
    reveal_strlit("socketPath");
    reveal_strlit("descriptorDir");
    reveal_strlit("agentDir");
    reveal_strlit("appVersion");
    reveal_strlit("phase");
    reveal_strlit("createdAt");
    reveal_strlit("updatedAt");
    reveal_strlit("expiresAt");
    reveal_strlit("ownerToken");
    reveal_strlit("supervisorGeneration");
}

/// An owner record is read from its document as it was written.
pub proof fn owner_is_read_back(owner: OwnerV)
    requires
        is_valid_owner(owner),
    ensures
        is_owner(owner_value(owner)),
        owner_of(owner_value(owner)) == owner,
{
    broadcast use {json::lookup_push, json::lookup_empty};

    owner_keys_differ();
    let value = owner_value(owner);
    assert(value.u64_at("version"@) == Some(owner.version as u64));
    assert(value.str_at("role"@) == Some(owner.role));
    assert(value.str_at("token"@) == Some(owner.token));
    assert(value.str_at("generation"@) == Some(owner.generation));
    assert(value.i64_at("pid"@) == Some(owner.pid));
    assert(value.str_at("processStartId"@) == owner.process_start_id);
    assert(value.str_at("socketPath"@) == Some(owner.socket_path));
    assert(value.str_at("descriptorDir"@) == Some(owner.descriptor_dir));
    assert(value.str_at("agentDir"@) == Some(owner.agent_dir));
    assert(value.str_at("appVersion"@) == Some(owner.app_version));
    assert(value.str_at("phase"@) == Some(owner.phase));
    assert(value.str_at("createdAt"@) == Some(owner.created_at));
    assert(value.str_at("updatedAt"@) == Some(owner.updated_at));
    assert(owner_of(value) =~= owner);
}

/// The document of an owner record can be read back from its text.
pub proof fn owner_fits(owner: OwnerV)
    ensures
        json::reads_back(owner_value(owner)),
{
    broadcast use {json::lookup_push, json::lookup_empty};

    owner_keys_differ();
    let limit = json::MAX_NESTING as nat;
    let a = Seq::<(Seq<char>, JsonV)>::empty();
    json::fits_empty(limit);
    json::fits_push(a, "version"@, json::int_value(owner.version as int), limit);
    let b = a.push(("version"@, json::int_value(owner.version as int)));
    json::fits_push(b, "role"@, JsonV::Str(owner.role), limit);
    let c = b.push(("role"@, JsonV::Str(owner.role)));
    json::fits_push(c, "token"@, JsonV::Str(owner.token), limit);
    let d = c.push(("token"@, JsonV::Str(owner.token)));
    json::fits_push(d, "generation"@, JsonV::Str(owner.generation), limit);
    let e = d.push(("generation"@, JsonV::Str(owner.generation)));
    json::fits_push(e, "pid"@, json::int_value(owner.pid as int), limit);
    let f = e.push(("pid"@, json::int_value(owner.pid as int)));
    json::fits_push_opt_text(f, "processStartId"@, owner.process_start_id, limit);
    let g = json::push_opt_text(f, "processStartId"@, owner.process_start_id);
    json::fits_push(g, "socketPath"@, JsonV::Str(owner.socket_path), limit);
    let h = g.push(("socketPath"@, JsonV::Str(owner.socket_path)));
    json::fits_push(h, "descriptorDir"@, JsonV::Str(owner.descriptor_dir), limit);
    let i = h.push(("descriptorDir"@, JsonV::Str(owner.descriptor_dir)));
    json::fits_push(i, "agentDir"@, JsonV::Str(owner.agent_dir), limit);
    let j = i.push(("agentDir"@, JsonV::Str(owner.agent_dir)));
    json::fits_push(j, "appVersion"@, JsonV::Str(owner.app_version), limit);
    let k = j.push(("appVersion"@, JsonV::Str(owner.app_version)));
    json::fits_push(k, "phase"@, JsonV::Str(owner.phase), limit);
    let l = k.push(("phase"@, JsonV::Str(owner.phase)));
    json::fits_push(l, "createdAt"@, JsonV::Str(owner.created_at), limit);
    let m = l.push(("createdAt"@, JsonV::Str(owner.created_at)));
    json::fits_push(m, "updatedAt"@, JsonV::Str(owner.updated_at), limit);
}

/// The contents of an owner record's file. A valid record is read back from them.
pub fn owner_contents(owner: &DaemonSupervisorOwnerRecord) -> (r: String)
    ensures
        r@ == json::pretty_json(owner_value(owner@)).push('\n'),
        is_valid_owner(owner@) ==> owner_in(r@) == Some(owner@),
{
    proof {
        owner_fits(owner@);
        if is_valid_owner(owner@) {
            owner_is_read_back(owner@);
        }
    }
    let value = owner.to_value();
    print_pretty(&value)
}

/// The document is a claim.
pub open spec fn is_scope(value: JsonV) -> bool {
    &&& value.u64_at("version"@) == Some(OWNER_VERSION as u64)
    &&& value.str_at("role"@) == Some("supervisor"@)
    &&& value.str_at("token"@) is Some
    &&& value.str_at("generation"@) is Some
    &&& value.str_at("socketPath"@) is Some
    &&& value.str_at("descriptorDir"@) is Some
}

/// The claim in a document.
pub open spec fn scope_of(value: JsonV) -> ScopeV {
    ScopeV {
        version: OWNER_VERSION,
        role: json::text_or_empty(value, "role"@),
        token: json::text_or_empty(value, "token"@),
        generation: json::text_or_empty(value, "generation"@),
        socket_path: json::text_or_empty(value, "socketPath"@),
        descriptor_dir: json::text_or_empty(value, "descriptorDir"@),
    }
}

/// Whether the document is a claim.
pub fn is_daemon_supervisor_owner_scope(value: &Json) -> (r: bool)
    ensures
        r == is_scope(value@),
{
    match value.u64_at("version") {
        Some(version) if version == OWNER_VERSION as u64 => {},
        _ => return false,
    }
    value.str_is("role", "supervisor") && value.str_at("token").is_some() && value.str_at(
        "generation",
    ).is_some() && value.str_at("socketPath").is_some() && value.str_at("descriptorDir").is_some()
}

/// The character may stand in the name of a generation.
pub open spec fn is_generation_char(c: char) -> bool {
    ('a' <= c && c <= 'z') || ('A' <= c && c <= 'Z') || ('0' <= c && c <= '9') || c == '.' || c
        == '_' || c == '-'
}

/// The text may name a generation.
pub open spec fn is_generation(generation: Seq<char>) -> bool {
    forall|i: int| 0 <= i < generation.len() ==> is_generation_char(#[trigger] generation[i])
}

/// The directory of a generation's owner.
pub open spec fn owner_directory(registry_dir: Seq<char>, generation: Seq<char>) -> Seq<char> {
    path_facts::joined_path(registry_dir, generation + ".owner"@)
}

/// The directory of a generation's owner; an error for a generation whose name
/// could lead elsewhere.
pub fn owner_directory_path(registry_dir: &str, generation: &str) -> (r: Result<String, String>)
    ensures
        match r {
            Ok(path) => is_generation(generation@) && path@ == owner_directory(
                registry_dir@,
                generation@,
            ),
            Err(error) => !is_generation(generation@) && error@
                == "Invalid daemon supervisor generation: "@ + generation@,
        },
{
    let chars = to_chars(generation);
    let mut i: usize = 0;
    while i < chars.len()
        invariant
            i <= chars.len(),
            chars@ == generation@,
            forall|j: int| 0 <= j < i ==> is_generation_char(#[trigger] generation@[j]),
        decreases chars.len() - i,
    {
        let c = chars[i];
        let allowed: bool = ('a' <= c && c <= 'z') || ('A' <= c && c <= 'Z') || ('0' <= c && c
            <= '9') || c == '.' || c == '_' || c == '-';
        if !allowed {
            assert(!is_generation_char(generation@[i as int]));
            return Err(cat2("Invalid daemon supervisor generation: ", generation));
        }
        i += 1;
    }
    let name = cat2(generation, ".owner");
    Ok(join_dir(registry_dir, &name))
}

/// The claim that the file of a directory holds: one that is made for that
/// directory.
pub open spec fn scope_in(directory: Seq<char>, contents: Seq<char>) -> Option<ScopeV> {
    match json::parsed_json(vstd::utf8::encode_utf8(contents)) {
        Ok(value) => if is_scope(value) && is_generation(scope_of(value).generation)
            && owner_directory(path_facts::parent_of(directory), scope_of(value).generation)
            == directory {
            Some(scope_of(value))
        } else {
            None
        },
        Err(_) => None,
    }
}

/// Reads the claim from the contents of its file in a directory.
pub fn read_owner_scope(directory: &str, contents: &str) -> (r: Option<DaemonSupervisorOwnerScope>)
    ensures
        match r {
            Some(scope) => scope_in(directory@, contents@) == Some(scope@),
            None => scope_in(directory@, contents@) is None,
        },
{
    let value = match parse_json(contents.as_bytes()) {
        Ok(value) => value,
        Err(_) => return None,
    };
    if !is_daemon_supervisor_owner_scope(&value) {
        return None;
    }
    let scope = DaemonSupervisorOwnerScope {
        version: OWNER_VERSION,
        role: json::text_at(&value, "role"),
        token: json::text_at(&value, "token"),
        generation: json::text_at(&value, "generation"),
        socket_path: json::text_at(&value, "socketPath"),
        descriptor_dir: json::text_at(&value, "descriptorDir"),
    };
    let parent = dirname_of(directory);
    match owner_directory_path(&parent, &scope.generation) {
        Ok(expected) => if same(&expected, directory) {
            Some(scope)
        } else {
            None
        },
        Err(_) => None,
    }
}

/// The contents of a claim's file. The claim of a valid owner is read back from
/// them in the directory it is made for.
pub fn scope_contents(owner: &DaemonSupervisorOwnerRecord, directory: &str) -> (r: String)
    ensures
        r@ == json::pretty_json(scope_value(scope_of_owner(owner@))).push('\n'),
        is_valid_owner(owner@) && is_generation(owner@.generation) && directory@
            == owner_directory(path_facts::parent_of(directory@), owner@.generation) ==> scope_in(
            directory@,
            r@,
        ) == Some(scope_of_owner(owner@)),
{
    let scope = owner.scope();
    proof {
        broadcast use {json::lookup_push, json::lookup_empty};

        owner_keys_differ();
        let value = scope_value(scope@);
        let limit = json::MAX_NESTING as nat;
        let a = Seq::<(Seq<char>, JsonV)>::empty();
        json::fits_empty(limit);
        json::fits_push(a, "version"@, json::int_value(owner.version as int), limit);
        let b = a.push(("version"@, json::int_value(owner.version as int)));
        json::fits_push(b, "role"@, JsonV::Str(owner.role@), limit);
        let c = b.push(("role"@, JsonV::Str(owner.role@)));
        json::fits_push(c, "token"@, JsonV::Str(owner.token@), limit);
        let d = c.push(("token"@, JsonV::Str(owner.token@)));
        json::fits_push(d, "generation"@, JsonV::Str(owner.generation@), limit);
        let e = d.push(("generation"@, JsonV::Str(owner.generation@)));
        json::fits_push(e, "socketPath"@, JsonV::Str(owner.socket_path@), limit);
        let f = e.push(("socketPath"@, JsonV::Str(owner.socket_path@)));
        json::fits_push(f, "descriptorDir"@, JsonV::Str(owner.descriptor_dir@), limit);
        assert(value.u64_at("version"@) == Some(owner.version as u64));
        assert(value.str_at("role"@) == Some(owner.role@));
        assert(value.str_at("token"@) == Some(owner.token@));
        assert(value.str_at("generation"@) == Some(owner.generation@));
        assert(value.str_at("socketPath"@) == Some(owner.socket_path@));
        assert(value.str_at("descriptorDir"@) == Some(owner.descriptor_dir@));
        if is_valid_owner(owner@) {
            assert(scope_of(value) =~= scope@);
        }
    }
    let value = scope.to_value();
    print_pretty(&value)
}

/// The document is a startup fence.
pub open spec fn is_fence(value: JsonV) -> bool {
    &&& value.u64_at("version"@) == Some(OWNER_VERSION as u64)
    &&& value.str_at("token"@) is Some
    &&& value.str_at("ownerToken"@) is Some
    &&& value.i64_at("pid"@) matches Some(pid) && pid > 0
    &&& value.str_at("processStartId"@) is Some
    &&& value.str_at("socketPath"@) is Some
    &&& value.str_at("supervisorGeneration"@) is Some
    &&& value.str_at("createdAt"@) is Some
}

/// The fence in a document.
pub open spec fn fence_of(value: JsonV) -> FenceV {
    FenceV {
        version: OWNER_VERSION,
        token: json::text_or_empty(value, "token"@),
        owner_token: json::text_or_empty(value, "ownerToken"@),
        pid: value.i64_at("pid"@)->0,
        process_start_id: json::text_or_empty(value, "processStartId"@),
        socket_path: json::text_or_empty(value, "socketPath"@),
        supervisor_generation: json::text_or_empty(value, "supervisorGeneration"@),
        created_at: json::text_or_empty(value, "createdAt"@),
    }
}

/// The fence that the file at a path holds, where there is a file.
pub open spec fn fence_in(path: Seq<char>, contents: Option<Seq<char>>) -> Result<
    Option<FenceV>,
    Seq<char>,
> {
    match contents {
        None => Ok(None),
        Some(contents) => match json::parsed_json(vstd::utf8::encode_utf8(contents)) {
            Ok(value) => if is_fence(value) {
                Ok(Some(fence_of(value)))
            } else {
                Err("Invalid daemon startup fence: "@ + path)
            },
            Err(error) => Err(error),
        },
    }
}

/// Reads a startup fence from the contents of the file at a path, where there is
/// a file.
pub fn read_startup_fence(path: &str, contents: Option<&str>) -> (r: Result<
    Option<DaemonStartupFenceRecord>,
    String,
>)
    ensures
        match (r, fence_in(path@, json::opt_str_view(contents))) {
            (Ok(Some(fence)), Ok(Some(expected))) => fence@ == expected,
            (Ok(None), Ok(None)) => true,
            (Err(error), Err(expected)) => error@ == expected,
            _ => false,
        },
{
    let contents = match contents {
        Some(contents) => contents,
        None => return Ok(None),
    };
    let value = match parse_json(contents.as_bytes()) {
        Ok(value) => value,
        Err(error) => return Err(error),
    };
    let version: bool = match value.u64_at("version") {
        Some(version) => version == OWNER_VERSION as u64,
        None => false,
    };
    let texts: bool = value.str_at("token").is_some() && value.str_at("ownerToken").is_some()
        && value.str_at("processStartId").is_some() && value.str_at("socketPath").is_some()
        && value.str_at("supervisorGeneration").is_some() && value.str_at("createdAt").is_some();
    match value.i64_at("pid") {
        Some(pid) if pid > 0 && version && texts => Ok(
            Some(
                DaemonStartupFenceRecord {
                    version: OWNER_VERSION,
                    token: json::text_at(&value, "token"),
                    owner_token: json::text_at(&value, "ownerToken"),
                    pid,
                    process_start_id: json::text_at(&value, "processStartId"),
                    socket_path: json::text_at(&value, "socketPath"),
                    supervisor_generation: json::text_at(&value, "supervisorGeneration"),
                    created_at: json::text_at(&value, "createdAt"),
                },
            ),
        ),
        _ => Err(cat2("Invalid daemon startup fence: ", path)),
    }
}

/// The contents of a fence's file. The fence of a real process is read back from
/// them, at whatever path.
pub fn fence_contents(fence: &DaemonStartupFenceRecord) -> (r: String)
    ensures
        r@ == json::pretty_json(fence_value(fence@)).push('\n'),
        fence.version == OWNER_VERSION && fence.pid > 0 ==> forall|path: Seq<char>|
            (#[trigger] fence_in(path, Some(r@))) is Ok && fence_in(path, Some(r@))->Ok_0 == Some(
                fence@,
            ),
{
    proof {
        broadcast use {json::lookup_push, json::lookup_empty};

        owner_keys_differ();
        let value = fence_value(fence@);
        let limit = json::MAX_NESTING as nat;
        let a = Seq::<(Seq<char>, JsonV)>::empty();
        json::fits_empty(limit);
        json::fits_push(a, "version"@, json::int_value(fence.version as int), limit);
        let b = a.push(("version"@, json::int_value(fence.version as int)));
        json::fits_push(b, "token"@, JsonV::Str(fence.token@), limit);
        let c = b.push(("token"@, JsonV::Str(fence.token@)));
        json::fits_push(c, "ownerToken"@, JsonV::Str(fence.owner_token@), limit);
        let d = c.push(("ownerToken"@, JsonV::Str(fence.owner_token@)));
        json::fits_push(d, "pid"@, json::int_value(fence.pid as int), limit);
        let e = d.push(("pid"@, json::int_value(fence.pid as int)));
        json::fits_push(e, "processStartId"@, JsonV::Str(fence.process_start_id@), limit);
        let f = e.push(("processStartId"@, JsonV::Str(fence.process_start_id@)));
        json::fits_push(f, "socketPath"@, JsonV::Str(fence.socket_path@), limit);
        let g = f.push(("socketPath"@, JsonV::Str(fence.socket_path@)));
        json::fits_push(
            g,
            "supervisorGeneration"@,
            JsonV::Str(fence.supervisor_generation@),
            limit,
        );
        let h = g.push(("supervisorGeneration"@, JsonV::Str(fence.supervisor_generation@)));
        json::fits_push(h, "createdAt"@, JsonV::Str(fence.created_at@), limit);
        assert(value.u64_at("version"@) == Some(fence.version as u64));
        assert(value.str_at("token"@) == Some(fence.token@));
        assert(value.str_at("ownerToken"@) == Some(fence.owner_token@));
        assert(value.i64_at("pid"@) == Some(fence.pid));
        assert(value.str_at("processStartId"@) == Some(fence.process_start_id@));
        assert(value.str_at("socketPath"@) == Some(fence.socket_path@));
        assert(value.str_at("supervisorGeneration"@) == Some(fence.supervisor_generation@));
        assert(value.str_at("createdAt"@) == Some(fence.created_at@));
        if fence.version == OWNER_VERSION {
            assert(fence_of(value) =~= fence@);
        }
    }
    let value = fence.to_value();
    print_pretty(&value)
}

/// The document is the admission of a shutdown.
pub open spec fn is_admission(value: JsonV) -> bool {
    &&& value.u64_at("version"@) == Some(OWNER_VERSION as u64)
    &&& value.str_at("token"@) is Some
    &&& value.i64_at("pid"@) matches Some(pid) && pid > 0
    &&& value.get("processStartId"@) matches Some(start) ==> start is Null || start is Str
    &&& value.str_at("createdAt"@) is Some
    &&& value.str_at("updatedAt"@) is Some
    &&& value.str_at("expiresAt"@) matches Some(at) && clock::iso_millis(at) is Some
}

/// The admission in a document.
pub open spec fn admission_of(value: JsonV) -> AdmissionV {
    AdmissionV {
        version: OWNER_VERSION,
        token: json::text_or_empty(value, "token"@),
        pid: value.i64_at("pid"@)->0,
        process_start_id: value.str_at("processStartId"@),
        created_at: json::text_or_empty(value, "createdAt"@),
        updated_at: json::text_or_empty(value, "updatedAt"@),
        expires_at: json::text_or_empty(value, "expiresAt"@),
    }
}

/// The admission that a file holds.
pub open spec fn admission_in(contents: Seq<char>) -> Option<AdmissionV> {
    match json::parsed_json(vstd::utf8::encode_utf8(contents)) {
        Ok(value) => if is_admission(value) {
            Some(admission_of(value))
        } else {
            None
        },
        Err(_) => None,
    }
}

/// Reads the admission of a shutdown from the contents of its file.
pub fn read_shutdown_admission(contents: &str) -> (r: Option<DaemonShutdownAdmissionRecord>)
    ensures
        match r {
            Some(admission) => admission_in(contents@) == Some(admission@) && clock::iso_millis(
                admission.expires_at@,
            ) is Some,
            None => admission_in(contents@) is None,
        },
{
    let value = match parse_json(contents.as_bytes()) {
        Ok(value) => value,
        Err(_) => return None,
    };
    let version: bool = match value.u64_at("version") {
        Some(version) => version == OWNER_VERSION as u64,
        None => false,
    };
    let start: bool = match value.get("processStartId") {
        None => true,
        Some(Json::Null) => true,
        Some(Json::Str(_)) => true,
        _ => false,
    };
    let dated: bool = match value.str_at("expiresAt") {
        Some(at) => parse_iso_ms(at).is_some(),
        None => false,
    };
    let texts: bool = value.str_at("token").is_some() && value.str_at("createdAt").is_some()
        && value.str_at("updatedAt").is_some();
    match value.i64_at("pid") {
        Some(pid) if pid > 0 && version && start && dated && texts => Some(
            DaemonShutdownAdmissionRecord {
                version: OWNER_VERSION,
                token: json::text_at(&value, "token"),
                pid,
                process_start_id: owned(value.str_at("processStartId")),
                created_at: json::text_at(&value, "createdAt"),
                updated_at: json::text_at(&value, "updatedAt"),
                expires_at: json::text_at(&value, "expiresAt"),
            },
        ),
        _ => None,
    }
}

/// The contents of an admission's file. The admission of a real process whose end
/// is a time is read back from them.
pub fn admission_contents(admission: &DaemonShutdownAdmissionRecord) -> (r: String)
    ensures
        r@ == json::pretty_json(admission_value(admission@)).push('\n'),
        admission.version == OWNER_VERSION && admission.pid > 0 && clock::iso_millis(
            admission.expires_at@,
        ) is Some ==> admission_in(r@) == Some(admission@),
{
    proof {
        broadcast use {json::lookup_push, json::lookup_empty};

        owner_keys_differ();
        let shown = admission@;
        let value = admission_value(shown);
        let limit = json::MAX_NESTING as nat;
        let a = Seq::<(Seq<char>, JsonV)>::empty();
        json::fits_empty(limit);
        json::fits_push(a, "version"@, json::int_value(shown.version as int), limit);
        let b = a.push(("version"@, json::int_value(shown.version as int)));
        json::fits_push(b, "token"@, JsonV::Str(shown.token), limit);
        let c = b.push(("token"@, JsonV::Str(shown.token)));
        json::fits_push(c, "pid"@, json::int_value(shown.pid as int), limit);
        let d = c.push(("pid"@, json::int_value(shown.pid as int)));
        json::fits_push_opt_text(d, "processStartId"@, shown.process_start_id, limit);
        let e = json::push_opt_text(d, "processStartId"@, shown.process_start_id);
        json::fits_push(e, "createdAt"@, JsonV::Str(shown.created_at), limit);
        let f = e.push(("createdAt"@, JsonV::Str(shown.created_at)));
        json::fits_push(f, "updatedAt"@, JsonV::Str(shown.updated_at), limit);
        let g = f.push(("updatedAt"@, JsonV::Str(shown.updated_at)));
        json::fits_push(g, "expiresAt"@, JsonV::Str(shown.expires_at), limit);
        assert(value.u64_at("version"@) == Some(shown.version as u64));
        assert(value.str_at("token"@) == Some(shown.token));
        assert(value.i64_at("pid"@) == Some(shown.pid));
        assert(value.str_at("processStartId"@) == shown.process_start_id);
        assert(value.str_at("createdAt"@) == Some(shown.created_at));
        assert(value.str_at("updatedAt"@) == Some(shown.updated_at));
        assert(value.str_at("expiresAt"@) == Some(shown.expires_at));
        if shown.version == OWNER_VERSION {
            assert(admission_of(value) =~= shown);
        }
    }
    let value = admission.to_value();
    print_pretty(&value)
}

/// The process is alive as far as can be told: a process runs under its number,
/// and it is not known to have been started at another time.
pub open spec fn seems_alive(
    identity: IdentityV,
    running: bool,
    observed: Option<Seq<char>>,
) -> bool {
    running && (identity.process_start_id is None || observed is None || observed
        == identity.process_start_id)
}

/// Whether a process is alive as far as can be told. `running` says that a process
/// runs under its number, `observed` when that one was started.
pub fn is_process_identity_alive(
    identity: &ProcessIdentity,
    running: bool,
    observed: Option<&str>,
) -> (r: bool)
    ensures
        r == seems_alive(identity@, running, json::opt_str_view(observed)),
{
    if !running {
        return false;
    }
    match (&identity.process_start_id, observed) {
        (Some(expected), Some(observed)) => same(expected, observed),
        _ => true,
    }
}

/// The process is surely the one that is meant: it runs, and where its start is
/// known it was observed.
pub open spec fn surely_alive(
    identity: IdentityV,
    running: bool,
    observed: Option<Seq<char>>,
) -> bool {
    running && (identity.process_start_id is None || observed == identity.process_start_id)
}

/// Whether a process is surely the one that is meant.
pub fn matches_exact_process_identity(
    identity: &ProcessIdentity,
    running: bool,
    observed: Option<&str>,
) -> (r: bool)
    ensures
        r == surely_alive(identity@, running, json::opt_str_view(observed)),
{
    if !running {
        return false;
    }
    match (&identity.process_start_id, observed) {
        (Some(expected), Some(observed)) => same(expected, observed),
        (Some(_), None) => false,
        (None, _) => true,
    }
}

/// A process that is surely the one that is meant seems alive.
pub proof fn sure_identity_seems_alive(
    identity: IdentityV,
    running: bool,
    observed: Option<Seq<char>>,
)
    requires
        surely_alive(identity, running, observed),
    ensures
        seems_alive(identity, running, observed),
{
}

/// What is found of an admission.
#[derive(Debug, Clone, Copy, PartialEq, Eq, Structural)]
pub enum AdmissionCheck {
    /// There is none.
    Absent,
    /// A shutdown is going on.
    Active,
    /// It has run out, or its process is gone: its file is to be removed.
    Expired,
}

/// What is found of an admission at a time.
pub open spec fn admission_check(
    admission: Option<AdmissionV>,
    now: i64,
    alive: bool,
) -> AdmissionCheck {
    match admission {
        None => AdmissionCheck::Absent,
        Some(admission) => match clock::iso_millis(admission.expires_at) {
            Some(end) if end > now && alive => AdmissionCheck::Active,
            _ => AdmissionCheck::Expired,
        },
    }
}

/// What is found of an admission at a time; `alive` says that its process is alive
/// as far as can be told.
pub fn check_shutdown_admission(
    admission: Option<&DaemonShutdownAdmissionRecord>,
    now: i64,
    alive: bool,
) -> (r: AdmissionCheck)
    ensures
        r == admission_check(
            match admission {
                Some(admission) => Some(admission@),
                None => None,
            },
            now,
            alive,
        ),
{
    match admission {
        None => AdmissionCheck::Absent,
        Some(admission) => match parse_iso_ms(&admission.expires_at) {
            Some(end) if end > now && alive => AdmissionCheck::Active,
            _ => AdmissionCheck::Expired,
        },
    }
}

/// The admission of a shutdown that begins now.
pub fn new_shutdown_admission(
    token: &str,
    pid: i64,
    process_start_id: Option<&str>,
    now: i64,
) -> (r: DaemonShutdownAdmissionRecord)
    requires
        now <= i64::MAX - SHUTDOWN_ADMISSION_LEASE_MS,
    ensures
        r@ == (AdmissionV {
            version: OWNER_VERSION,
            token: token@,
            pid,
            process_start_id: json::opt_str_view(process_start_id),
            created_at: clock::written_time(Some(now)),
            updated_at: clock::written_time(Some(now)),
            expires_at: clock::written_time(Some((now + SHUTDOWN_ADMISSION_LEASE_MS) as i64)),
        }),
        clock::in_four_digit_year((now + SHUTDOWN_ADMISSION_LEASE_MS) as i64)
            ==> clock::iso_millis(r.expires_at@) == Some(
            (now + SHUTDOWN_ADMISSION_LEASE_MS) as i64,
        ),
{
    DaemonShutdownAdmissionRecord {
        version: OWNER_VERSION,
        token: token.to_owned(),
        pid,
        process_start_id: owned(process_start_id),
        created_at: iso_from_ms(Some(now)),
        updated_at: iso_from_ms(Some(now)),
        expires_at: iso_from_ms(Some(now + SHUTDOWN_ADMISSION_LEASE_MS)),
    }
}

/// Whether a shutdown is going on.
pub fn is_daemon_shutdown_admission_active(
    admission: Option<&DaemonShutdownAdmissionRecord>,
    now: i64,
    alive: bool,
) -> (r: bool)
    ensures
        r == (admission matches Some(admission) && admission_check(Some(admission@), now, alive)
            == AdmissionCheck::Active),
{
    check_shutdown_admission(admission, now, alive) == AdmissionCheck::Active
}

/// Admits a shutdown, where none is going on. `alive` says that the process of
/// the admission on disk is alive as far as can be told.
pub fn acquire_daemon_shutdown_admission(
    admission: Option<&DaemonShutdownAdmissionRecord>,
    alive: bool,
    token: &str,
    pid: i64,
    process_start_id: Option<&str>,
    now: i64,
) -> (r: Option<DaemonShutdownAdmissionRecord>)
    requires
        now <= i64::MAX - SHUTDOWN_ADMISSION_LEASE_MS,
    ensures
        match r {
            Some(admitted) => !(admission matches Some(current) && admission_check(
                Some(current@),
                now,
                alive,
            ) == AdmissionCheck::Active) && admitted@ == (AdmissionV {
                version: OWNER_VERSION,
                token: token@,
                pid,
                process_start_id: json::opt_str_view(process_start_id),
                created_at: clock::written_time(Some(now)),
                updated_at: clock::written_time(Some(now)),
                expires_at: clock::written_time(Some((now + SHUTDOWN_ADMISSION_LEASE_MS) as i64)),
            }),
            None => admission matches Some(current) && admission_check(Some(current@), now, alive)
                == AdmissionCheck::Active,
        },
{
    if is_daemon_shutdown_admission_active(admission, now, alive) {
        return None;
    }
    Some(new_shutdown_admission(token, pid, process_start_id, now))
}

/// The admission on disk is still the one that is held.
pub open spec fn still_admitted(
    current: Option<AdmissionV>,
    held: AdmissionV,
    now: i64,
    sure: bool,
) -> bool {
    match current {
        Some(current) => {
            &&& current.token == held.token
            &&& current.pid == held.pid
            &&& current.process_start_id == held.process_start_id
            &&& clock::iso_millis(current.expires_at) matches Some(end) && end > now
            &&& sure
        },
        None => false,
    }
}

/// Renews an admission, where the one on disk is still the one that is held.
/// `sure` says that the process of the held one is surely alive.
pub fn renew_shutdown_admission(
    current: Option<&DaemonShutdownAdmissionRecord>,
    held: &DaemonShutdownAdmissionRecord,
    now: i64,
    sure: bool,
) -> (r: Result<DaemonShutdownAdmissionRecord, String>)
    requires
        now <= i64::MAX - SHUTDOWN_ADMISSION_LEASE_MS,
    ensures
        ({
            let found = match current {
                Some(current) => Some(current@),
                None => None,
            };
            match r {
                Ok(renewed) => {
                    &&& still_admitted(found, held@, now, sure)
                    &&& renewed@ == (AdmissionV {
                        updated_at: clock::written_time(Some(now)),
                        expires_at: clock::written_time(
                            Some((now + SHUTDOWN_ADMISSION_LEASE_MS) as i64),
                        ),
                        ..held@
                    })
                },
                Err(error) => !still_admitted(found, held@, now, sure) && error@
                    == "Daemon shutdown admission was lost"@,
            }
        }),
{
    let valid: bool = match current {
        Some(current) => same(&current.token, &held.token) && current.pid == held.pid
            && same_optional(&current.process_start_id, &held.process_start_id) && sure
            && match parse_iso_ms(&current.expires_at) {
            Some(end) => end > now,
            None => false,
        },
        None => false,
    };
    if !valid {
        return Err("Daemon shutdown admission was lost".to_owned());
    }
    let mut renewed = held.clone();
    renewed.updated_at = iso_from_ms(Some(now));
    renewed.expires_at = iso_from_ms(Some(now + SHUTDOWN_ADMISSION_LEASE_MS));
    Ok(renewed)
}

/// What the supervisor that answers at the socket says of itself.
#[derive(Debug, PartialEq)]
pub struct DaemonSupervisorHelloIdentity {
    pub supervisor_generation: Option<String>,
    pub supervisor_owner_token: Option<String>,
    pub supervisor_pid: Option<i64>,
    pub supervisor_process_start_id: Option<String>,
    pub supervisor_socket_path: Option<String>,
}

/// What the supervisor says of itself.
#[verifier::ext_equal]
pub struct HelloV {
    pub generation: Option<Seq<char>>,
    pub owner_token: Option<Seq<char>>,
    pub pid: Option<i64>,
    pub process_start_id: Option<Seq<char>>,
    pub socket_path: Option<Seq<char>>,
}

impl View for DaemonSupervisorHelloIdentity {
    type V = HelloV;

    open spec fn view(&self) -> HelloV {
        HelloV {
            generation: json::opt_view(self.supervisor_generation),
            owner_token: json::opt_view(self.supervisor_owner_token),
            pid: self.supervisor_pid,
            process_start_id: json::opt_view(self.supervisor_process_start_id),
            socket_path: json::opt_view(self.supervisor_socket_path),
        }
    }
}

impl DaemonSupervisorHelloIdentity {
    /// Reads what the supervisor says of itself; what has another type is absent.
    pub fn from_value(value: &Json) -> (r: Self)
        ensures
            r@ == (HelloV {
                generation: value@.str_at("supervisorGeneration"@),
                owner_token: value@.str_at("supervisorOwnerToken"@),
                pid: value@.i64_at("supervisorPid"@),
                process_start_id: value@.str_at("supervisorProcessStartId"@),
                socket_path: value@.str_at("supervisorSocketPath"@),
            }),
    {
        DaemonSupervisorHelloIdentity {
            supervisor_generation: owned(value.str_at("supervisorGeneration")),
            supervisor_owner_token: owned(value.str_at("supervisorOwnerToken")),
            supervisor_pid: value.i64_at("supervisorPid"),
            supervisor_process_start_id: owned(value.str_at("supervisorProcessStartId")),
            supervisor_socket_path: owned(value.str_at("supervisorSocketPath")),
        }
    }
}

/// What a supervisor needs to own its socket.
#[derive(Debug, PartialEq)]
pub struct AcquireDaemonSupervisorOwnershipOptions {
    pub socket_path: String,
    pub descriptor_dir: String,
    pub agent_dir: String,
    pub generation: String,
    pub app_version: String,
    pub registry_dir: Option<String>,
}

/// Another supervisor owns the socket or the descriptors.
#[derive(Debug, PartialEq)]
pub struct DaemonSupervisorAlreadyRunningError {
    pub owner: DaemonSupervisorOwnerRecord,
}

/// What is said where another supervisor is the owner.
pub open spec fn already_running_text(owner: OwnerV) -> Seq<char> {
    "Daemon supervisor "@ + owner.generation + " already owns "@ + owner.socket_path
}

impl DaemonSupervisorAlreadyRunningError {
    pub const CODE: &'static str = "daemon_supervisor_already_running";

    pub fn message(&self) -> (r: String)
        ensures
            r@ == already_running_text(self.owner@),
    {
        cat4(
            "Daemon supervisor ",
            &self.owner.generation,
            " already owns ",
            &self.owner.socket_path,
        )
    }
}

/// A supervisor is no longer the owner.
#[derive(Debug, PartialEq)]
pub struct DaemonSupervisorOwnershipLostError {
    pub generation: String,
    pub socket_path: Option<String>,
    pub registry_dir: Option<String>,
}

/// What is said where a supervisor is no longer the owner.
pub open spec fn ownership_lost_text(
    generation: Seq<char>,
    socket_path: Option<Seq<char>>,
    registry_dir: Option<Seq<char>>,
) -> Seq<char> {
    let head = "Daemon supervisor generation "@ + generation
        + " no longer owns its registry entry (record on disk is missing or was replaced)"@;
    let context = match (socket_path, registry_dir) {
        (Some(socket), Some(registry)) => "; socket: "@ + socket + "; registry: "@ + registry,
        (Some(socket), None) => "; socket: "@ + socket,
        (None, Some(registry)) => "; registry: "@ + registry,
        (None, None) => Seq::empty(),
    };
    head + context + "; restart the daemon to recover — sessions are preserved"@
}

impl DaemonSupervisorOwnershipLostError {
    pub const CODE: &'static str = "supervisor_generation_stale";

    pub fn new(generation: &str, socket_path: Option<&str>, registry_dir: Option<&str>) -> (r: Self)
        ensures
            r.generation@ == generation@,
            json::opt_view(r.socket_path) == json::opt_str_view(socket_path),
            json::opt_view(r.registry_dir) == json::opt_str_view(registry_dir),
    {
        DaemonSupervisorOwnershipLostError {
            generation: generation.to_owned(),
            socket_path: owned(socket_path),
            registry_dir: owned(registry_dir),
        }
    }

    pub fn message(&self) -> (r: String)
        ensures
            r@ == ownership_lost_text(
                self.generation@,
                json::opt_view(self.socket_path),
                json::opt_view(self.registry_dir),
            ),
    {
        let head = cat3(
            "Daemon supervisor generation ",
            &self.generation,
            " no longer owns its registry entry (record on disk is missing or was replaced)",
        );
        let context = match (&self.socket_path, &self.registry_dir) {
            (Some(socket), Some(registry)) => cat4(
                "; socket: ",
                socket,
                "; registry: ",
                registry,
            ),
            (Some(socket), None) => cat2("; socket: ", socket),
            (None, Some(registry)) => cat2("; registry: ", registry),
            (None, None) => String::new(),
        };
        cat3(&head, &context, "; restart the daemon to recover — sessions are preserved")
    }
}

/// A shutdown is going on, or its admission was lost.
#[derive(Debug, PartialEq)]
pub struct DaemonShutdownAdmissionError {
    pub message: String,
}

impl DaemonShutdownAdmissionError {
    pub const CODE: &'static str = "daemon_shutdown_in_progress";

    pub fn new(message: Option<&str>) -> (r: Self)
        ensures
            r.message@ == json::opt_str_view(message).unwrap_or("Daemon shutdown is in progress"@),
    {
        DaemonShutdownAdmissionError {
            message: match message {
                Some(message) => message.to_owned(),
                None => "Daemon shutdown is in progress".to_owned(),
            },
        }
    }
}

/// The registry's guard could not be taken or was lost.
#[derive(Debug, PartialEq)]
pub struct DaemonSupervisorRegistryGuardError {
    pub message: String,
}

/// Two claims are in each other's way.
pub open spec fn claims_conflict(left: ScopeV, right: ScopeV) -> bool {
    left.socket_path == right.socket_path || left.descriptor_dir == right.descriptor_dir
}

/// Whether two claims are in each other's way.
pub fn owner_conflicts(
    left: &DaemonSupervisorOwnerScope,
    right: &DaemonSupervisorOwnerScope,
) -> (r: bool)
    ensures
        r == claims_conflict(left@, right@),
{
    same(&left.socket_path, &right.socket_path) || same(
        &left.descriptor_dir,
        &right.descriptor_dir,
    )
}

/// What was found in the directory of an owner.
pub struct OwnerDirectory {
    pub path: String,
    /// Its owner record, where it can be read.
    pub owner: Option<DaemonSupervisorOwnerRecord>,
    /// Its claim, where it can be read.
    pub scope: Option<DaemonSupervisorOwnerScope>,
    /// It holds the file of a record or of a claim.
    pub has_files: bool,
    /// The owner's process is alive as far as can be told.
    pub alive: bool,
}

/// The name of a file that the directory of an owner holds is among the names.
pub fn holds_owner_files(names: &Vec<String>) -> (r: bool)
    ensures
        r == (text::holds_text(names@, "owner.json"@) || text::holds_text(
            names@,
            "scope.json"@,
        )),
{
    contains_text(names, "owner.json") || contains_text(names, "scope.json")
}

/// The directories of owners among the names in a registry.
pub open spec fn owner_names(names: Seq<Seq<char>>) -> Seq<Seq<char>>
    decreases names.len(),
{
    if names.len() == 0 {
        Seq::empty()
    } else if text::ends(names.last(), ".owner"@) {
        owner_names(names.drop_last()).push(names.last())
    } else {
        owner_names(names.drop_last())
    }
}

/// The directories of owners among the names in a registry.
pub fn list_owner_directories(registry_dir: &str, names: &Vec<String>) -> (r: Vec<String>)
    ensures
        text::texts(r@) == Seq::new(
            owner_names(text::texts(names@)).len(),
            |i: int|
                path_facts::joined_path(registry_dir@, owner_names(text::texts(names@))[i]),
        ),
{
    let ghost all = text::texts(names@);
    let ghost under = |name: Seq<char>| path_facts::joined_path(registry_dir@, name);
    let mut out: Vec<String> = Vec::new();
    let mut i: usize = 0;
    assert(all.take(0) =~= Seq::empty());
    while i < names.len()
        invariant
            i <= names.len(),
            all == text::texts(names@),
            out@.len() == owner_names(all.take(i as int)).len(),
            forall|j: int|
                0 <= j < out@.len() ==> (#[trigger] out@[j])@ == path_facts::joined_path(
                    registry_dir@,
                    owner_names(all.take(i as int))[j],
                ),
        decreases names.len() - i,
    {
        assert(all.take(i + 1).drop_last() =~= all.take(i as int));
        assert(all.take(i + 1).last() == names@[i as int]@);
        if ends_with(&names[i], ".owner") {
            out.push(join_dir(registry_dir, &names[i]));
        }
        i += 1;
    }
    assert(all.take(i as int) =~= all);
    assert(text::texts(out@) =~= Seq::new(
        owner_names(all).len(),
        |j: int| path_facts::joined_path(registry_dir@, owner_names(all)[j]),
    ));
    out
}

/// What the directory of an owner holds for one who looks for an owner.
pub enum DirectoryReading {
    Owner(OwnerV),
    /// Nothing was ever written there.
    Abandoned,
    /// An owner whose record cannot be read, and whose claim is of no interest.
    Irrelevant,
    /// An owner whose record cannot be read.
    Invalid,
}

/// What the directory of an owner holds for one who looks for an owner.
pub open spec fn directory_reading(directory: OwnerDirectory, relevant: bool) -> DirectoryReading {
    match directory.owner {
        Some(owner) => DirectoryReading::Owner(owner@),
        None => if directory.scope is None && !directory.has_files {
            DirectoryReading::Abandoned
        } else if directory.scope is Some && !relevant {
            DirectoryReading::Irrelevant
        } else {
            DirectoryReading::Invalid
        },
    }
}

/// What is said of a directory whose record cannot be read.
pub open spec fn invalid_record_text(path: Seq<char>) -> Seq<char> {
    "Invalid daemon supervisor owner record: "@ + path
}

/// What is done to the directory of an owner.
#[derive(Debug, PartialEq)]
pub enum RegistryStep {
    /// Nothing was ever written there: it is removed.
    Abandon(String),
    /// Its owner is gone: it is moved aside and removed.
    Retire(String),
}

/// What is done to the directory of an owner.
pub enum StepV {
    Abandon(Seq<char>),
    Retire(Seq<char>),
}

impl View for RegistryStep {
    type V = StepV;

    open spec fn view(&self) -> StepV {
        match self {
            RegistryStep::Abandon(path) => StepV::Abandon(path@),
            RegistryStep::Retire(path) => StepV::Retire(path@),
        }
    }
}

/// What steps say.
pub open spec fn steps_view(steps: Seq<RegistryStep>) -> Seq<StepV> {
    Seq::new(steps.len(), |i: int| steps[i]@)
}

/// How the registry is made ready for a new owner: what is done, and why the new
/// owner is refused after that, where it is.
#[derive(Debug, PartialEq)]
pub struct AcquisitionPlan {
    pub steps: Vec<RegistryStep>,
    pub refusal: Option<String>,
}

/// How the registry is made ready for a new owner.
#[verifier::ext_equal]
pub struct PlanV {
    pub steps: Seq<StepV>,
    pub refusal: Option<Seq<char>>,
}

impl View for AcquisitionPlan {
    type V = PlanV;

    open spec fn view(&self) -> PlanV {
        PlanV { steps: steps_view(self.steps@), refusal: json::opt_view(self.refusal) }
    }
}

/// The owner in a directory is in the way of a claim.
pub open spec fn is_rival(directory: OwnerDirectory, claim: ScopeV) -> bool {
    directory.owner matches Some(owner) && claims_conflict(scope_of_owner(owner@), claim)
}

/// The plan after one more directory.
pub open spec fn plan_directory(plan: PlanV, directory: OwnerDirectory, claim: ScopeV) -> PlanV {
    if plan.refusal is Some {
        plan
    } else {
        match directory_reading(
            directory,
            directory.scope matches Some(scope) && claims_conflict(scope@, claim),
        ) {
            DirectoryReading::Owner(owner) => if !is_rival(directory, claim) {
                plan
            } else if directory.alive {
                PlanV { refusal: Some(already_running_text(owner)), ..plan }
            } else {
                PlanV { steps: plan.steps.push(StepV::Retire(directory.path@)), ..plan }
            },
            DirectoryReading::Abandoned => PlanV {
                steps: plan.steps.push(StepV::Abandon(directory.path@)),
                ..plan
            },
            DirectoryReading::Irrelevant => plan,
            DirectoryReading::Invalid => PlanV {
                refusal: Some(invalid_record_text(directory.path@)),
                ..plan
            },
        }
    }
}

/// The plan for a claim after these directories.
pub open spec fn plan_directories(directories: Seq<OwnerDirectory>, claim: ScopeV) -> PlanV
    decreases directories.len(),
{
    if directories.len() == 0 {
        PlanV { steps: Seq::empty(), refusal: None }
    } else {
        plan_directory(
            plan_directories(directories.drop_last(), claim),
            directories.last(),
            claim,
        )
    }
}

/// The plan for a claim: while a shutdown is going on it is refused at once.
pub open spec fn acquisition(
    directories: Seq<OwnerDirectory>,
    claim: ScopeV,
    shutting_down: bool,
) -> PlanV {
    if shutting_down {
        PlanV { steps: Seq::empty(), refusal: Some("Daemon shutdown is in progress"@) }
    } else {
        plan_directories(directories, claim)
    }
}

/// A supervisor becomes the owner only where no living supervisor is in its way,
/// and the directories of the dead ones that are in its way are moved aside.
pub proof fn owners_exclude_each_other(
    directories: Seq<OwnerDirectory>,
    claim: ScopeV,
    shutting_down: bool,
    i: int,
)
    requires
        acquisition(directories, claim, shutting_down).refusal is None,
        0 <= i < directories.len(),
        is_rival(directories[i], claim),
    ensures
        !shutting_down,
        !directories[i].alive,
        acquisition(directories, claim, shutting_down).steps.contains(
            StepV::Retire(directories[i].path@),
        ),
    decreases directories.len(),
{
    let fewer = directories.drop_last();
    let last = directories.last();
    let before = plan_directories(fewer, claim);
    let plan = plan_directories(directories, claim);
    assert(plan == plan_directory(before, last, claim));
    assert(before.refusal is None);
    if i == directories.len() - 1 {
        assert(plan.steps == before.steps.push(StepV::Retire(last.path@)));
        assert(plan.steps[before.steps.len() as int] == StepV::Retire(last.path@));
    } else {
        assert(fewer[i] == directories[i]);
        owners_exclude_each_other(fewer, claim, shutting_down, i);
        let wanted = StepV::Retire(directories[i].path@);
        let at = choose|k: int| 0 <= k < before.steps.len() && before.steps[k] == wanted;
        assert(plan.steps[at] == wanted);
    }
}

/// Only the directories of dead rivals are moved aside.
pub proof fn only_dead_rivals_are_retired(
    directories: Seq<OwnerDirectory>,
    claim: ScopeV,
    path: Seq<char>,
)
    requires
        plan_directories(directories, claim).steps.contains(StepV::Retire(path)),
    ensures
        exists|i: int|
            0 <= i < directories.len() && (#[trigger] directories[i]).path@ == path && is_rival(
                directories[i],
                claim,
            ) && !directories[i].alive,
    decreases directories.len(),
{
    let plan = plan_directories(directories, claim);
    let at = choose|k: int| 0 <= k < plan.steps.len() && plan.steps[k] == StepV::Retire(path);
    if directories.len() > 0 {
        let fewer = directories.drop_last();
        let before = plan_directories(fewer, claim);
        assert(plan == plan_directory(before, directories.last(), claim));
        if at < before.steps.len() {
            assert(before.steps[at] == StepV::Retire(path));
            only_dead_rivals_are_retired(fewer, claim, path);
            let i = choose|i: int|
                0 <= i < fewer.len() && (#[trigger] fewer[i]).path@ == path && is_rival(
                    fewer[i],
                    claim,
                ) && !fewer[i].alive;
            assert(directories[i] == fewer[i]);
        } else {
            let last = directories[directories.len() - 1];
            assert(last.path@ == path && is_rival(last, claim) && !last.alive);
        }
    }
}

enum Found<'a> {
    Owner(&'a DaemonSupervisorOwnerRecord),
    Abandoned,
    Irrelevant,
    Invalid,
}

fn read_directory(directory: &OwnerDirectory, relevant: bool) -> (r: Found<'_>)
    ensures
        match (r, directory_reading(*directory, relevant)) {
            (Found::Owner(owner), DirectoryReading::Owner(expected)) => owner@ == expected
                && directory.owner == Some(*owner),
            (Found::Abandoned, DirectoryReading::Abandoned) => true,
            (Found::Irrelevant, DirectoryReading::Irrelevant) => true,
            (Found::Invalid, DirectoryReading::Invalid) => true,
            _ => false,
        },
{
    match &directory.owner {
        Some(owner) => Found::Owner(owner),
        None => if directory.scope.is_none() && !directory.has_files {
            Found::Abandoned
        } else if directory.scope.is_some() && !relevant {
            Found::Irrelevant
        } else {
            Found::Invalid
        },
    }
}

/// Decides how the registry is made ready for a new owner with this claim.
pub fn acquire_daemon_supervisor_ownership(
    directories: &Vec<OwnerDirectory>,
    claim: &DaemonSupervisorOwnerScope,
    shutting_down: bool,
) -> (r: AcquisitionPlan)
    ensures
        r@ == acquisition(directories@, claim@, shutting_down),
{
    let mut steps: Vec<RegistryStep> = Vec::new();
    assert(steps_view(steps@) =~= Seq::<StepV>::empty());
    if shutting_down {
        let error = DaemonShutdownAdmissionError::new(None);
        return AcquisitionPlan { steps, refusal: Some(error.message) };
    }
    let mut refusal: Option<String> = None;
    let mut i: usize = 0;
    assert(directories@.take(0) =~= Seq::empty());
    while i < directories.len()
        invariant
            i <= directories.len(),
            (PlanV { steps: steps_view(steps@), refusal: json::opt_view(refusal) })
                == plan_directories(directories@.take(i as int), claim@),
        decreases directories.len() - i,
    {
        let directory = &directories[i];
        let ghost done = directories@.take(i as int);
        let ghost more = directories@.take(i + 1);
        let ghost before = steps@;
        assert(more.drop_last() =~= done);
        assert(more.last() == *directory);
        if refusal.is_none() {
            let relevant: bool = match &directory.scope {
                Some(scope) => owner_conflicts(scope, claim),
                None => false,
            };
            match read_directory(directory, relevant) {
                Found::Owner(owner) => {
                    let own = owner.scope();
                    if owner_conflicts(&own, claim) {
                        if directory.alive {
                            let error = DaemonSupervisorAlreadyRunningError {
                                owner: owner.clone(),
                            };
                            refusal = Some(error.message());
                        } else {
                            let step = RegistryStep::Retire(directory.path.clone());
                            let ghost shown = step@;
                            steps.push(step);
                            assert(steps_view(steps@) =~= steps_view(before).push(shown));
                        }
                    }
                },
                Found::Abandoned => {
                    let step = RegistryStep::Abandon(directory.path.clone());
                    let ghost shown = step@;
                    steps.push(step);
                    assert(steps_view(steps@) =~= steps_view(before).push(shown));
                },
                Found::Irrelevant => {},
                Found::Invalid => {
                    refusal = Some(
                        cat2("Invalid daemon supervisor owner record: ", &directory.path),
                    );
                },
            }
        }
        i += 1;
    }
    assert(directories@.take(i as int) =~= directories@);
    AcquisitionPlan { steps, refusal }
}

/// The record of a supervisor that starts.
pub fn starting_owner(
    options: &AcquireDaemonSupervisorOwnershipOptions,
    token: &str,
    process: &ProcessIdentity,
    socket_path: &str,
    descriptor_dir: &str,
    agent_dir: &str,
    at: &str,
) -> (r: DaemonSupervisorOwnerRecord)
    ensures
        r@ == (OwnerV {
            version: OWNER_VERSION,
            role: "supervisor"@,
            token: token@,
            generation: options.generation@,
            pid: process.pid,
            process_start_id: process@.process_start_id,
            socket_path: socket_path@,
            descriptor_dir: descriptor_dir@,
            agent_dir: agent_dir@,
            app_version: options.app_version@,
            phase: "starting"@,
            created_at: at@,
            updated_at: at@,
        }),
        process.pid > 0 ==> is_valid_owner(r@),
{
    DaemonSupervisorOwnerRecord {
        version: OWNER_VERSION,
        role: "supervisor".to_owned(),
        token: token.to_owned(),
        generation: options.generation.clone(),
        pid: process.pid,
        process_start_id: process.process_start_id.clone(),
        socket_path: socket_path.to_owned(),
        descriptor_dir: descriptor_dir.to_owned(),
        agent_dir: agent_dir.to_owned(),
        app_version: options.app_version.clone(),
        phase: OWNER_PHASE_STARTING.to_owned(),
        created_at: at.to_owned(),
        updated_at: at.to_owned(),
    }
}

/// The two records are of the same owner.
pub open spec fn same_owner(left: OwnerV, right: OwnerV) -> bool {
    &&& left.token == right.token
    &&& left.generation == right.generation
    &&& left.pid == right.pid
    &&& left.process_start_id == right.process_start_id
    &&& left.socket_path == right.socket_path
}

/// Whether the two records are of the same owner.
pub fn same_owner_record(
    left: &DaemonSupervisorOwnerRecord,
    right: &DaemonSupervisorOwnerRecord,
) -> (r: bool)
    ensures
        r == same_owner(left@, right@),
{
    same(&left.token, &right.token) && same(&left.generation, &right.generation) && left.pid
        == right.pid && same_optional(&left.process_start_id, &right.process_start_id) && same(
        &left.socket_path,
        &right.socket_path,
    )
}

/// A print of an owner record: records that differ have different prints as far
/// as the digest tells them apart.
pub fn owner_record_fingerprint(record: &DaemonSupervisorOwnerRecord) -> (r: String)
    ensures
        r@ == digest::digest_prefix(json::printed_json(owner_value(record@)), 64),
{
    proof {
        owner_fits(record@);
    }
    let value = record.to_value();
    let line = print_json(&value);
    hash_prefix(&line, 64)
}

/// The record of an owner that was read in the registry or, failing that, in the
/// old one, is still that owner's: `process` says that its process exists and is
/// no zombie, `identity` that it is the one in the record as far as can be told.
pub open spec fn owner_is_current(
    current: Option<OwnerV>,
    owner: OwnerV,
    socket_path: Seq<char>,
    validated: Option<Seq<char>>,
    process: bool,
    identity: bool,
) -> bool {
    match current {
        Some(current) => {
            &&& current.pid == owner.pid
            &&& current.process_start_id == owner.process_start_id
            &&& current.socket_path == socket_path
            &&& process
            &&& validated == Some(
                digest::digest_prefix(json::printed_json(owner_value(current)), 64),
            ) || identity
        },
        None => false,
    }
}

/// Makes sure that an owner is still the owner, and returns the print of its
/// record. A record whose print was validated before needs no look at its
/// process's start.
pub fn assert_daemon_supervisor_owner_current(
    current: Option<&DaemonSupervisorOwnerRecord>,
    owner: &DaemonSupervisorOwnerRecord,
    socket_path: &str,
    validated: Option<&str>,
    process: bool,
    identity: bool,
    registry_dir: &str,
) -> (r: Result<String, DaemonSupervisorOwnershipLostError>)
    ensures
        ({
            let found = match current {
                Some(current) => Some(current@),
                None => None,
            };
            let holds = owner_is_current(
                found,
                owner@,
                socket_path@,
                json::opt_str_view(validated),
                process,
                identity,
            );
            match r {
                Ok(print) => holds && print@ == digest::digest_prefix(
                    json::printed_json(owner_value(found->0)),
                    64,
                ),
                Err(error) => !holds && error.generation@ == owner.generation@ && json::opt_view(
                    error.socket_path,
                ) == Some(owner.socket_path@) && json::opt_view(error.registry_dir) == Some(
                    registry_dir@,
                ),
            }
        }),
{
    let lost = DaemonSupervisorOwnershipLostError::new(
        &owner.generation,
        Some(&owner.socket_path),
        Some(registry_dir),
    );
    let current = match current {
        Some(current) => current,
        None => return Err(lost),
    };
    if current.pid != owner.pid || !same_optional(
        &current.process_start_id,
        &owner.process_start_id,
    ) || !same(&current.socket_path, socket_path) || !process {
        return Err(lost);
    }
    let print = owner_record_fingerprint(current);
    let known: bool = match validated {
        Some(validated) => same(validated, &print),
        None => false,
    };
    if !known && !identity {
        return Err(lost);
    }
    Ok(print)
}

/// The record that a change may be made to: the one with the expected token. A
/// record that cannot be read is an error.
pub fn owner_to_mutate(
    directory: &str,
    present: bool,
    current: Option<DaemonSupervisorOwnerRecord>,
    expected_token: &str,
) -> (r: Result<Option<DaemonSupervisorOwnerRecord>, String>)
    ensures
        match r {
            Ok(Some(owner)) => present && current == Some(owner) && owner.token@ == expected_token@,
            Ok(None) => !present || (current is Some && current->0.token@ != expected_token@),
            Err(error) => present && current is None && error@ == invalid_record_text(directory@),
        },
{
    if !present {
        return Ok(None);
    }
    match current {
        Some(owner) => if same(&owner.token, expected_token) {
            Ok(Some(owner))
        } else {
            Ok(None)
        },
        None => Err(cat2("Invalid daemon supervisor owner record: ", directory)),
    }
}

/// The record after a change, dated; a change that spoils the record or its
/// identity is refused.
pub fn mutate_daemon_supervisor_owner(
    generation: &str,
    expected_token: &str,
    changed: DaemonSupervisorOwnerRecord,
    at: &str,
) -> (r: Result<DaemonSupervisorOwnerRecord, String>)
    ensures
        ({
            let dated = OwnerV { updated_at: at@, ..changed@ };
            let sound = is_valid_owner(changed@) && changed@.generation == generation@
                && changed@.token == expected_token@;
            match r {
                Ok(owner) => sound && owner@ == dated,
                Err(error) => !sound && error@ == "Invalid mutation for daemon supervisor owner "@
                    + generation@,
            }
        }),
{
    let mut changed = changed;
    let valid: bool = changed.version == OWNER_VERSION && same(&changed.role, "supervisor")
        && changed.pid > 0 && (same(&changed.phase, "starting") || same(&changed.phase, "owner")
        || same(&changed.phase, "stopping"));
    if !valid || !same(&changed.generation, generation) || !same(&changed.token, expected_token) {
        return Err(cat2("Invalid mutation for daemon supervisor owner ", generation));
    }
    changed.updated_at = at.to_owned();
    Ok(changed)
}

/// What owner records say.
pub open spec fn owners_view(owners: Seq<DaemonSupervisorOwnerRecord>) -> Seq<OwnerV> {
    Seq::new(owners.len(), |i: int| owners[i]@)
}

/// The owners of a socket that a walk through the registry has found, what it has
/// done on the way, and why it has stopped, where it has.
#[verifier::ext_equal]
pub struct OwnerSearch {
    pub owners: Seq<OwnerV>,
    pub steps: Seq<StepV>,
    pub refusal: Option<Seq<char>>,
}

/// The walk after one more directory.
pub open spec fn search_directory(
    search: OwnerSearch,
    directory: OwnerDirectory,
    socket_path: Seq<char>,
) -> OwnerSearch {
    if search.refusal is Some {
        search
    } else {
        match directory_reading(
            directory,
            directory.scope matches Some(scope) && scope@.socket_path == socket_path,
        ) {
            DirectoryReading::Owner(owner) => if owner.socket_path == socket_path {
                OwnerSearch { owners: search.owners.push(owner), ..search }
            } else {
                search
            },
            DirectoryReading::Abandoned => OwnerSearch {
                steps: search.steps.push(StepV::Abandon(directory.path@)),
                ..search
            },
            DirectoryReading::Irrelevant => search,
            DirectoryReading::Invalid => OwnerSearch {
                refusal: Some(invalid_record_text(directory.path@)),
                ..search
            },
        }
    }
}

/// The walk through these directories.
pub open spec fn search_directories(
    directories: Seq<OwnerDirectory>,
    socket_path: Seq<char>,
) -> OwnerSearch
    decreases directories.len(),
{
    if directories.len() == 0 {
        OwnerSearch { owners: Seq::empty(), steps: Seq::empty(), refusal: None }
    } else {
        search_directory(
            search_directories(directories.drop_last(), socket_path),
            directories.last(),
            socket_path,
        )
    }
}

/// The owner of the old registry is the one that answered at the socket.
pub open spec fn is_old_match(owner: OwnerV, hello: HelloV, socket_path: Seq<char>) -> bool {
    owner.socket_path == socket_path && hello.owner_token == Some(owner.token) && hello.pid
        == Some(owner.pid)
}

/// The owners of the old registry that answered at the socket.
pub open spec fn old_matches(
    owners: Seq<OwnerV>,
    hello: HelloV,
    socket_path: Seq<char>,
) -> Seq<OwnerV>
    decreases owners.len(),
{
    if owners.len() == 0 {
        Seq::empty()
    } else if is_old_match(owners.last(), hello, socket_path) {
        old_matches(owners.drop_last(), hello, socket_path).push(owners.last())
    } else {
        old_matches(owners.drop_last(), hello, socket_path)
    }
}

/// The owner is the supervisor that answered at the socket; `hello_socket` is the
/// normalized form of the socket's path that it gave.
pub open spec fn answers_for(hello: HelloV, hello_socket: Option<Seq<char>>, owner: OwnerV) -> bool {
    &&& hello.pid == Some(owner.pid)
    &&& hello.generation == Some(owner.generation)
    &&& hello.owner_token == Some(owner.token)
    &&& hello_socket == Some(owner.socket_path)
    &&& owner.process_start_id is Some
    &&& hello.process_start_id == owner.process_start_id
}

/// The owner that a fence is set up for.
pub open spec fn fenced_owner(
    search: OwnerSearch,
    old: Seq<OwnerV>,
    hello: HelloV,
    hello_socket: Option<Seq<char>>,
    normalized: Seq<char>,
    socket_path: Seq<char>,
) -> Result<OwnerV, Seq<char>> {
    let matching = if search.owners.len() == 0 {
        old_matches(old, hello, normalized)
    } else {
        search.owners
    };
    if search.refusal is Some {
        Err(search.refusal->0)
    } else if matching.len() == 0 {
        Err("Daemon supervisor owner does not match "@ + socket_path)
    } else if matching.len() > 1 {
        Err("Multiple daemon supervisor owners match "@ + socket_path)
    } else if !answers_for(hello, hello_socket, matching[0]) {
        Err("Daemon supervisor hello does not match its durable owner for "@ + socket_path)
    } else {
        Ok(matching[0])
    }
}

/// What comes of looking for the owner that a fence is set up for.
pub struct FenceMatch {
    pub steps: Vec<RegistryStep>,
    pub result: Result<DaemonSupervisorOwnerRecord, String>,
}

fn find_owners(
    directories: &Vec<OwnerDirectory>,
    socket_path: &str,
    steps: &mut Vec<RegistryStep>,
) -> (r: Result<Vec<DaemonSupervisorOwnerRecord>, String>)
    requires
        old(steps)@.len() == 0,
    ensures
        ({
            let search = search_directories(directories@, socket_path@);
            &&& steps_view(final(steps)@) == search.steps
            &&& match r {
                Ok(owners) => search.refusal is None && owners_view(owners@) == search.owners,
                Err(error) => search.refusal == Some(error@),
            }
        }),
{
    let mut owners: Vec<DaemonSupervisorOwnerRecord> = Vec::new();
    let mut refusal: Option<String> = None;
    let mut i: usize = 0;
    assert(directories@.take(0) =~= Seq::empty());
    assert(steps_view(steps@) =~= Seq::<StepV>::empty());
    assert(owners_view(owners@) =~= Seq::<OwnerV>::empty());
    while i < directories.len()
        invariant
            i <= directories.len(),
            (OwnerSearch {
                owners: owners_view(owners@),
                steps: steps_view(steps@),
                refusal: json::opt_view(refusal),
            }) == search_directories(directories@.take(i as int), socket_path@),
        decreases directories.len() - i,
    {
        let directory = &directories[i];
        let ghost more = directories@.take(i + 1);
        let ghost before = steps@;
        let ghost found = owners@;
        assert(more.drop_last() =~= directories@.take(i as int));
        assert(more.last() == *directory);
        if refusal.is_none() {
            let relevant: bool = match &directory.scope {
                Some(scope) => same(&scope.socket_path, socket_path),
                None => false,
            };
            match read_directory(directory, relevant) {
                Found::Owner(owner) => {
                    if same(&owner.socket_path, socket_path) {
                        let copy = owner.clone();
                        let ghost shown = copy@;
                        owners.push(copy);
                        assert(owners_view(owners@) =~= owners_view(found).push(shown));
                    }
                },
                Found::Abandoned => {
                    let step = RegistryStep::Abandon(directory.path.clone());
                    let ghost shown = step@;
                    steps.push(step);
                    assert(steps_view(steps@) =~= steps_view(before).push(shown));
                },
                Found::Irrelevant => {},
                Found::Invalid => {
                    refusal = Some(
                        cat2("Invalid daemon supervisor owner record: ", &directory.path),
                    );
                },
            }
        }
        i += 1;
    }
    assert(directories@.take(i as int) =~= directories@);
    match refusal {
        Some(error) => Err(error),
        None => Ok(owners),
    }
}

fn find_old_owners(
    owners: &Vec<DaemonSupervisorOwnerRecord>,
    hello: &DaemonSupervisorHelloIdentity,
    socket_path: &str,
) -> (r: Vec<DaemonSupervisorOwnerRecord>)
    ensures
        owners_view(r@) == old_matches(owners_view(owners@), hello@, socket_path@),
{
    let mut matching: Vec<DaemonSupervisorOwnerRecord> = Vec::new();
    let ghost all = owners_view(owners@);
    let mut i: usize = 0;
    assert(all.take(0) =~= Seq::empty());
    assert(owners_view(matching@) =~= Seq::<OwnerV>::empty());
    while i < owners.len()
        invariant
            i <= owners.len(),
            all == owners_view(owners@),
            owners_view(matching@) == old_matches(all.take(i as int), hello@, socket_path@),
        decreases owners.len() - i,
    {
        let owner = &owners[i];
        assert(all.take(i + 1).drop_last() =~= all.take(i as int));
        assert(all.take(i + 1).last() == owner@);
        let pid: bool = match hello.supervisor_pid {
            Some(pid) => pid == owner.pid,
            None => false,
        };
        if same(&owner.socket_path, socket_path) && is_some_text(
            &hello.supervisor_owner_token,
            &owner.token,
        ) && pid {
            let ghost found = matching@;
            let copy = owner.clone();
            let ghost shown = copy@;
            matching.push(copy);
            assert(owners_view(matching@) =~= owners_view(found).push(shown));
        }
        i += 1;
    }
    assert(all.take(i as int) =~= all);
    matching
}

fn hello_matches(
    hello: &DaemonSupervisorHelloIdentity,
    hello_socket: Option<&str>,
    owner: &DaemonSupervisorOwnerRecord,
) -> (r: bool)
    ensures
        r == answers_for(hello@, json::opt_str_view(hello_socket), owner@),
{
    let pid: bool = match hello.supervisor_pid {
        Some(pid) => pid == owner.pid,
        None => false,
    };
    let socket: bool = match hello_socket {
        Some(path) => same(path, &owner.socket_path),
        None => false,
    };
    pid && socket && is_some_text(&hello.supervisor_generation, &owner.generation) && is_some_text(
        &hello.supervisor_owner_token,
        &owner.token,
    ) && owner.process_start_id.is_some() && same_optional(
        &hello.supervisor_process_start_id,
        &owner.process_start_id,
    )
}

/// Looks for the owner that a fence is set up for: the only one of the socket,
/// and the one that answered there. The old registry counts only where the
/// registry knows none.
pub fn match_startup_owner(
    directories: &Vec<OwnerDirectory>,
    old_owners: &Vec<DaemonSupervisorOwnerRecord>,
    hello: &DaemonSupervisorHelloIdentity,
    hello_socket: Option<&str>,
    normalized: &str,
    socket_path: &str,
) -> (r: FenceMatch)
    ensures
        ({
            let search = search_directories(directories@, normalized@);
            &&& steps_view(r.steps@) == search.steps
            &&& match (
                r.result,
                fenced_owner(
                    search,
                    owners_view(old_owners@),
                    hello@,
                    json::opt_str_view(hello_socket),
                    normalized@,
                    socket_path@,
                ),
            ) {
                (Ok(owner), Ok(expected)) => owner@ == expected,
                (Err(error), Err(expected)) => error@ == expected,
                _ => false,
            }
        }),
{
    let mut steps: Vec<RegistryStep> = Vec::new();
    let owners = match find_owners(directories, normalized, &mut steps) {
        Ok(owners) => owners,
        Err(error) => return FenceMatch { steps, result: Err(error) },
    };
    let matching = if owners.len() == 0 {
        find_old_owners(old_owners, hello, normalized)
    } else {
        owners
    };
    if matching.len() == 0 {
        let error = cat2("Daemon supervisor owner does not match ", socket_path);
        return FenceMatch { steps, result: Err(error) };
    }
    if matching.len() > 1 {
        let error = cat2("Multiple daemon supervisor owners match ", socket_path);
        return FenceMatch { steps, result: Err(error) };
    }
    assert(owners_view(matching@)[0] == matching@[0]@);
    if !hello_matches(hello, hello_socket, &matching[0]) {
        let error = cat2(
            "Daemon supervisor hello does not match its durable owner for ",
            socket_path,
        );
        return FenceMatch { steps, result: Err(error) };
    }
    FenceMatch { steps, result: Ok(matching[0].clone()) }
}

/// The fence for an owner whose process is still the one in its record.
pub fn persist_daemon_startup_fence_from_owner(
    owner: &DaemonSupervisorOwnerRecord,
    observed: Option<&str>,
    token: &str,
    at: &str,
    socket_path: &str,
) -> (r: Result<DaemonStartupFenceRecord, String>)
    ensures
        match r {
            Ok(fence) => json::opt_str_view(observed) == owner@.process_start_id && fence@
                == (FenceV {
                version: OWNER_VERSION,
                token: token@,
                owner_token: owner.token@,
                pid: owner.pid,
                process_start_id: owner@.process_start_id.unwrap_or(Seq::empty()),
                socket_path: owner.socket_path@,
                supervisor_generation: owner.generation@,
                created_at: at@,
            }),
            Err(error) => json::opt_str_view(observed) != owner@.process_start_id && error@
                == "Daemon supervisor process identity changed for "@ + socket_path@,
        },
{
    let unchanged: bool = match (observed, &owner.process_start_id) {
        (Some(observed), Some(expected)) => same(observed, expected),
        (None, None) => true,
        _ => false,
    };
    if !unchanged {
        return Err(cat2("Daemon supervisor process identity changed for ", socket_path));
    }
    Ok(
        DaemonStartupFenceRecord {
            version: OWNER_VERSION,
            token: token.to_owned(),
            owner_token: owner.token.clone(),
            pid: owner.pid,
            process_start_id: match &owner.process_start_id {
                Some(id) => id.clone(),
                None => String::new(),
            },
            socket_path: owner.socket_path.clone(),
            supervisor_generation: owner.generation.clone(),
            created_at: at.to_owned(),
        },
    )
}

/// What one who waits for a fence does next.
#[derive(Debug, PartialEq)]
pub enum FenceWait {
    /// The way is free.
    Done,
    /// The fence's process is gone: the fence with this token is to be cleared.
    Clear(String),
    /// The fence's process is still there.
    Wait,
    Fail(String),
}

/// What one who waits for a fence does next; `alive` says that the fence's process
/// is alive as far as can be told.
pub fn wait_for_daemon_startup_fence(
    fence: &Option<DaemonStartupFenceRecord>,
    normalized: &str,
    socket_path: &str,
    alive: bool,
    now: i64,
    deadline: i64,
) -> (r: FenceWait)
    ensures
        match fence {
            None => r == FenceWait::Done,
            Some(fence) => if fence.socket_path@ != normalized@ {
                r matches FenceWait::Fail(error) && error@
                    == "Daemon startup fence does not match "@ + socket_path@
            } else if !alive {
                r matches FenceWait::Clear(token) && token@ == fence.token@
            } else if now >= deadline {
                r matches FenceWait::Fail(error) && error@
                    == "Timed out waiting for predecessor daemon process "@
                    + text::signed_digits(fence.pid as int) + " to exit"@
            } else {
                r == FenceWait::Wait
            },
        },
{
    let fence = match fence {
        Some(fence) => fence,
        None => return FenceWait::Done,
    };
    if !same(&fence.socket_path, normalized) {
        return FenceWait::Fail(cat2("Daemon startup fence does not match ", socket_path));
    }
    if !alive {
        return FenceWait::Clear(fence.token.clone());
    }
    if now >= deadline {
        let digits = signed_decimal(fence.pid);
        return FenceWait::Fail(
            cat3("Timed out waiting for predecessor daemon process ", &digits, " to exit"),
        );
    }
    FenceWait::Wait
}

/// What becomes of a fence that is to be cleared.
#[derive(Debug, Clone, Copy, PartialEq, Eq, Structural)]
pub enum FenceClear {
    /// It is gone already.
    Gone,
    /// Its file is removed.
    Remove,
    /// Another fence has taken its place.
    Replaced,
}

/// What becomes of the fence with a token that is to be cleared.
pub fn clear_startup_fence(current: &Option<DaemonStartupFenceRecord>, token: &str) -> (r:
    FenceClear)
    ensures
        r == match current {
            None => FenceClear::Gone,
            Some(fence) => if fence.token@ == token@ {
                FenceClear::Remove
            } else {
                FenceClear::Replaced
            },
        },
{
    match current {
        None => FenceClear::Gone,
        Some(fence) => if same(&fence.token, token) {
            FenceClear::Remove
        } else {
            FenceClear::Replaced
        },
    }
}

/// Whether the guard has passed to someone else: `held` is the identity of the
/// guard that was taken, `current` that of the one that is there. Where guards
/// have no identity it cannot be told.
pub fn guard_stolen(held: Option<u64>, current: Option<u64>) -> (r: bool)
    ensures
        r == (held is Some && current != held),
{
    match (held, current) {
        (None, _) => false,
        (Some(held), Some(current)) => current != held,
        (Some(_), None) => true,
    }
}

/// Whether a guard that was last touched so long ago, in milliseconds, is nobody's.
pub fn lock_is_stale(age: Option<u64>, stale_ms: u64) -> (r: bool)
    ensures
        r == (age matches Some(age) && age > stale_ms),
{
    match age {
        Some(age) => age > stale_ms,
        None => false,
    }
}

/// What one who wants the guard does after it was found taken.
#[derive(Debug, Clone, Copy, PartialEq, Eq, Structural)]
pub enum GuardWait {
    /// It is nobody's: it is removed and asked for again at once.
    TakeOver,
    GiveUp,
    /// It is asked for again later.
    Retry,
}

/// What one who wants the guard does after it was found taken.
pub fn acquire_registry_guard(age: Option<u64>, now: u64, deadline: u64) -> (r: GuardWait)
    ensures
        r == if age matches Some(age) && age > REGISTRY_LOCK_STALE_MS {
            GuardWait::TakeOver
        } else if now >= deadline {
            GuardWait::GiveUp
        } else {
            GuardWait::Retry
        },
{
    if lock_is_stale(age, REGISTRY_LOCK_STALE_MS) {
        GuardWait::TakeOver
    } else if now >= deadline {
        GuardWait::GiveUp
    } else {
        GuardWait::Retry
    }
}

/// Makes sure that the guard is still held.
pub fn assert_guard_held(held: Option<u64>, current: Option<u64>) -> (r: Result<
    (),
    DaemonSupervisorRegistryGuardError,
>)
    ensures
        match r {
            Ok(_) => held is None || current == held,
            Err(error) => held is Some && current != held && error.message@
                == "Daemon supervisor registry guard was compromised: the guard lock changed hands"@,
        },
{
    if guard_stolen(held, current) {
        return Err(
            DaemonSupervisorRegistryGuardError {
                message:
                    "Daemon supervisor registry guard was compromised: the guard lock changed hands".to_owned(),
            },
        );
    }
    Ok(())
}

/// What is left after an action was done under the guard.
#[derive(Debug, PartialEq)]
pub struct GuardedResult {
    /// The guard is to be given back; one that has passed to someone else is left
    /// to them.
    pub release: bool,
    pub result: Result<(), DaemonSupervisorRegistryGuardError>,
}

/// Ends an action that was done under the guard: what the action came to counts
/// only where the guard was still held when it was over.
pub fn with_daemon_supervisor_registry_guard(
    held: Option<u64>,
    current: Option<u64>,
    failure: Option<String>,
) -> (r: GuardedResult)
    ensures
        r.release == (held is None || current == held),
        match r.result {
            Ok(_) => (held is None || current == held) && failure is None,
            Err(error) => if held is Some && current != held {
                error.message@
                    == "Daemon supervisor registry guard was compromised: the guard lock changed hands"@
            } else {
                failure == Some(error.message)
            },
        },
{
    let release: bool = !guard_stolen(held, current);
    let result = match assert_guard_held(held, current) {
        Err(error) => Err(error),
        Ok(_) => match failure {
            Some(message) => Err(DaemonSupervisorRegistryGuardError { message }),
            None => Ok(()),
        },
    };
    GuardedResult { release, result }
}

/// The owners that are at a socket.
pub open spec fn owners_at(owners: Seq<OwnerV>, socket_path: Seq<char>) -> Seq<OwnerV>
    decreases owners.len(),
{
    if owners.len() == 0 {
        Seq::empty()
    } else if owners.last().socket_path == socket_path {
        owners_at(owners.drop_last(), socket_path).push(owners.last())
    } else {
        owners_at(owners.drop_last(), socket_path)
    }
}

/// The owners, among those that an old registry holds, that are at a socket.
pub fn read_legacy_owners_for_socket(
    owners: &Vec<DaemonSupervisorOwnerRecord>,
    normalized_socket_path: &str,
) -> (r: Vec<DaemonSupervisorOwnerRecord>)
    ensures
        owners_view(r@) == owners_at(owners_view(owners@), normalized_socket_path@),
{
    let mut found: Vec<DaemonSupervisorOwnerRecord> = Vec::new();
    let ghost all = owners_view(owners@);
    let mut i: usize = 0;
    assert(all.take(0) =~= Seq::empty());
    assert(owners_view(found@) =~= Seq::<OwnerV>::empty());
    while i < owners.len()
        invariant
            i <= owners.len(),
            all == owners_view(owners@),
            owners_view(found@) == owners_at(all.take(i as int), normalized_socket_path@),
        decreases owners.len() - i,
    {
        assert(all.take(i + 1).drop_last() =~= all.take(i as int));
        assert(all.take(i + 1).last() == owners@[i as int]@);
        if same(&owners[i].socket_path, normalized_socket_path) {
            let ghost before = found@;
            let copy = owners[i].clone();
            let ghost shown = copy@;
            found.push(copy);
            assert(owners_view(found@) =~= owners_view(before).push(shown));
        }
        i += 1;
    }
    assert(all.take(i as int) =~= all);
    found
}

/// A record on disk that has to be renewed: once it was lost or given up it is
/// never renewed again.
#[derive(Debug, Clone, Copy, PartialEq, Eq, Structural)]
pub struct RenewableRegistryRecord {
    pub stopped: bool,
    pub lost: bool,
}

/// How far a renewal has come.
#[derive(Debug, PartialEq)]
pub enum RenewEvent {
    /// The registry's guard was had.
    GuardHeld,
    /// It was not.
    GuardFailed(String),
    /// The record was written again, or not.
    Renewed(Result<(), String>),
}

/// What is next for a renewal.
#[derive(Debug, PartialEq)]
pub enum RenewAction {
    /// Write the record again.
    Renew,
    /// Nothing more; this came of it.
    Done(Result<(), String>),
}

/// What is next for a renewal. A record that was given up while the guard was waited
/// for is left alone.
pub open spec fn renew_action(record: RenewableRegistryRecord, event: RenewEvent) -> RenewAction {
    match event {
        RenewEvent::GuardHeld => if record.stopped {
            RenewAction::Done(Ok(()))
        } else {
            RenewAction::Renew
        },
        RenewEvent::GuardFailed(error) => RenewAction::Done(Err(error)),
        RenewEvent::Renewed(result) => RenewAction::Done(result),
    }
}

/// The record after an event of a renewal: one that could not be renewed is lost.
pub open spec fn renew_state(
    record: RenewableRegistryRecord,
    event: RenewEvent,
) -> RenewableRegistryRecord {
    match event {
        RenewEvent::GuardHeld => record,
        RenewEvent::GuardFailed(_) => RenewableRegistryRecord { lost: true, ..record },
        RenewEvent::Renewed(Ok(_)) => record,
        RenewEvent::Renewed(Err(_)) => RenewableRegistryRecord { lost: true, ..record },
    }
}

/// What happens to a record that is renewed.
pub enum RenewalInput {
    /// It is given up.
    Stop,
    /// A renewal goes on.
    Event(RenewEvent),
}

/// A fresh record after all this has happened to it.
pub open spec fn renewal_after(inputs: Seq<RenewalInput>) -> RenewableRegistryRecord
    decreases inputs.len(),
{
    if inputs.len() == 0 {
        RenewableRegistryRecord { stopped: false, lost: false }
    } else {
        let before = renewal_after(inputs.drop_last());
        match inputs.last() {
            RenewalInput::Stop => RenewableRegistryRecord { stopped: true, ..before },
            RenewalInput::Event(event) => renew_state(before, event),
        }
    }
}

/// A record that was given up is never written again, not even by a renewal that had
/// begun before and waited for the guard; and one that was lost stays lost.
pub proof fn stopped_records_are_not_renewed(
    inputs: Seq<RenewalInput>,
    stop: int,
    event: RenewEvent,
)
    requires
        0 <= stop < inputs.len(),
        inputs[stop] is Stop,
    ensures
        renewal_after(inputs).stopped,
        renew_action(renewal_after(inputs), event) !is Renew,
        renewal_after(inputs.take(stop)).lost ==> renewal_after(inputs).lost,
    decreases inputs.len(),
{
    if stop < inputs.len() - 1 {
        stopped_records_are_not_renewed(inputs.drop_last(), stop, event);
        assert(inputs.drop_last().take(stop) =~= inputs.take(stop));
    } else {
        assert(inputs.drop_last() =~= inputs.take(stop));
    }
}

impl RenewableRegistryRecord {
    pub fn new() -> (r: Self)
        ensures
            !r.stopped,
            !r.lost,
    {
        RenewableRegistryRecord { stopped: false, lost: false }
    }

    /// Whether the record may be renewed; otherwise the error that it was lost.
    pub fn assert_or_renew(&self, lost_error: &str) -> (r: Result<(), String>)
        ensures
            match r {
                Ok(_) => !self.stopped && !self.lost,
                Err(error) => (self.stopped || self.lost) && error@ == lost_error@,
            },
    {
        if self.stopped || self.lost {
            return Err(lost_error.to_owned());
        }
        Ok(())
    }

    /// Takes a renewal one step further.
    pub fn perform_renew(&mut self, event: RenewEvent) -> (r: RenewAction)
        ensures
            r == renew_action(*old(self), event),
            *final(self) == renew_state(*old(self), event),
    {
        match event {
            RenewEvent::GuardHeld => {
                if self.stopped {
                    RenewAction::Done(Ok(()))
                } else {
                    RenewAction::Renew
                }
            },
            RenewEvent::GuardFailed(error) => {
                self.lost = true;
                RenewAction::Done(Err(error))
            },
            RenewEvent::Renewed(Ok(done)) => RenewAction::Done(Ok(done)),
            RenewEvent::Renewed(Err(error)) => {
                self.lost = true;
                RenewAction::Done(Err(error))
            },
        }
    }

    /// Ends the renewing.
    pub fn stop(&mut self)
        ensures
            final(self).stopped,
            final(self).lost == old(self).lost,
    {
        self.stopped = true;
    }
}

/// What a supervisor holds while it is the owner.
pub struct DaemonSupervisorOwnership {
    pub record: DaemonSupervisorOwnerRecord,
    pub registry_dir: String,
    pub owner_directory: String,
    pub released: bool,
}

impl DaemonSupervisorOwnership {
    pub fn new(record: DaemonSupervisorOwnerRecord, registry_dir: &str, owner_directory: &str) -> (r:
        Self)
        ensures
            r.record == record,
            r.registry_dir@ == registry_dir@,
            r.owner_directory@ == owner_directory@,
            !r.released,
    {
        DaemonSupervisorOwnership {
            record,
            registry_dir: registry_dir.to_owned(),
            owner_directory: owner_directory.to_owned(),
            released: false,
        }
    }

    /// A copy of the record.
    pub fn snapshot(&self) -> (r: DaemonSupervisorOwnerRecord)
        ensures
            r@ == self.record@,
    {
        self.record.clone()
    }

    fn ownership_lost_error(&self) -> (r: DaemonSupervisorOwnershipLostError)
        ensures
            r.generation@ == self.record.generation@,
            json::opt_view(r.socket_path) == Some(self.record.socket_path@),
            json::opt_view(r.registry_dir) == Some(self.registry_dir@),
    {
        DaemonSupervisorOwnershipLostError::new(
            &self.record.generation,
            Some(&self.record.socket_path),
            Some(&self.registry_dir),
        )
    }

    /// Makes sure that the record on disk is still this owner's.
    pub fn assert_current(&self, current: Option<&DaemonSupervisorOwnerRecord>) -> (r: Result<
        (),
        DaemonSupervisorOwnershipLostError,
    >)
        ensures
            match r {
                Ok(_) => !self.released && current is Some && same_owner(
                    current->0@,
                    self.record@,
                ),
                Err(error) => {
                    &&& self.released || current is None || !same_owner(
                        current->0@,
                        self.record@,
                    )
                    &&& error.generation@ == self.record.generation@
                    &&& json::opt_view(error.socket_path) == Some(self.record.socket_path@)
                    &&& json::opt_view(error.registry_dir) == Some(self.registry_dir@)
                },
            },
    {
        if !self.released {
            if let Some(current) = current {
                if same_owner_record(current, &self.record) {
                    return Ok(());
                }
            }
        }
        Err(self.ownership_lost_error())
    }

    /// The record with another phase, to be written; nothing once the ownership
    /// was given up.
    pub fn update_phase(&self, phase: &str) -> (r: Option<DaemonSupervisorOwnerRecord>)
        ensures
            match r {
                Some(changed) => !self.released && changed@ == (OwnerV {
                    phase: phase@,
                    ..self.record@
                }),
                None => self.released,
            },
    {
        if self.released {
            return None;
        }
        let mut changed = self.record.clone();
        changed.phase = phase.to_owned();
        Some(changed)
    }

    /// Takes over what was written for a new phase; an error where the record on
    /// disk was no longer this owner's.
    pub fn phase_updated(&mut self, updated: Option<&DaemonSupervisorOwnerRecord>) -> (r: Result<
        (),
        String,
    >)
        ensures
            final(self).registry_dir == old(self).registry_dir,
            final(self).owner_directory == old(self).owner_directory,
            final(self).released == old(self).released,
            match updated {
                Some(updated) => r is Ok && final(self).record@ == (OwnerV {
                    phase: updated.phase@,
                    updated_at: updated.updated_at@,
                    ..old(self).record@
                }),
                None => {
                    &&& r matches Err(error) && error@
                        == "Daemon supervisor ownership was lost for "@
                        + old(self).record.socket_path@
                    &&& final(self).record == old(self).record
                },
            },
    {
        match updated {
            Some(updated) => {
                self.record.phase = updated.phase.clone();
                self.record.updated_at = updated.updated_at.clone();
                Ok(())
            },
            None => Err(
                cat2("Daemon supervisor ownership was lost for ", &self.record.socket_path),
            ),
        }
    }

    /// Gives the ownership up; tells whether it was still held.
    pub fn release(&mut self) -> (r: bool)
        ensures
            r == !old(self).released,
            *final(self) == (DaemonSupervisorOwnership { released: true, ..*old(self) }),
    {
        let held: bool = !self.released;
        self.released = true;
        held
    }

    /// Whether the record on disk is to be removed with the ownership.
    pub fn owns(&self, current: Option<&DaemonSupervisorOwnerRecord>) -> (r: bool)
        ensures
            r == (current is Some && current->0.token@ == self.record.token@),
    {
        match current {
            Some(current) => same(&current.token, &self.record.token),
            None => false,
        }
    }
}

/// What one who shuts the daemon down holds.
pub struct DaemonShutdownAdmission {
    pub record: DaemonShutdownAdmissionRecord,
    pub registry_dir: String,
    pub renewal: RenewableRegistryRecord,
    pub released: bool,
}

impl DaemonShutdownAdmission {
    pub fn new(record: DaemonShutdownAdmissionRecord, registry_dir: &str) -> (r: Self)
        ensures
            r.record == record,
            r.registry_dir@ == registry_dir@,
            !r.renewal.stopped,
            !r.renewal.lost,
            !r.released,
    {
        DaemonShutdownAdmission {
            record,
            registry_dir: registry_dir.to_owned(),
            renewal: RenewableRegistryRecord::new(),
            released: false,
        }
    }

    /// A copy of the record.
    pub fn record(&self) -> (r: DaemonShutdownAdmissionRecord)
        ensures
            r@ == self.record@,
    {
        self.record.clone()
    }

    /// Whether the admission may be renewed.
    pub fn assert_or_renew(&self) -> (r: Result<(), DaemonShutdownAdmissionError>)
        ensures
            match r {
                Ok(_) => !self.released && !self.renewal.stopped && !self.renewal.lost,
                Err(error) => (self.released || self.renewal.stopped || self.renewal.lost)
                    && error.message@ == "Daemon shutdown admission was lost"@,
            },
    {
        let lost = "Daemon shutdown admission was lost";
        if self.released {
            return Err(DaemonShutdownAdmissionError::new(Some(lost)));
        }
        match self.renewal.assert_or_renew(lost) {
            Ok(_) => Ok(()),
            Err(message) => Err(DaemonShutdownAdmissionError::new(Some(&message))),
        }
    }

    /// Takes a renewal one step further, up to the writing of the record.
    pub fn perform_renew(&mut self, event: RenewEvent) -> (r: RenewAction)
        ensures
            r == renew_action(old(self).renewal, event),
            *final(self) == (DaemonShutdownAdmission {
                renewal: renew_state(old(self).renewal, event),
                ..*old(self)
            }),
    {
        self.renewal.perform_renew(event)
    }

    /// Takes note of what came of the writing: the renewed record, or the loss of the
    /// admission.
    pub fn renewed(&mut self, result: Result<DaemonShutdownAdmissionRecord, String>) -> (r: Result<
        (),
        String,
    >)
        ensures
            final(self).registry_dir == old(self).registry_dir,
            final(self).released == old(self).released,
            match result {
                Ok(record) => r is Ok && final(self).record == record && final(self).renewal
                    == old(self).renewal,
                Err(error) => r == Err::<(), String>(error) && final(self).record
                    == old(self).record && final(self).renewal == (RenewableRegistryRecord {
                    lost: true,
                    ..old(self).renewal
                }),
            },
    {
        match result {
            Ok(record) => {
                self.record = record;
                Ok(())
            },
            Err(error) => match self.renewal.perform_renew(RenewEvent::Renewed(Err(error))) {
                RenewAction::Done(outcome) => outcome,
                RenewAction::Renew => Ok(()),
            },
        }
    }

    /// Gives the admission up; tells whether it was still held.
    pub fn release(&mut self) -> (r: bool)
        ensures
            r == !old(self).released,
            final(self).released,
            final(self).record == old(self).record,
            final(self).registry_dir == old(self).registry_dir,
            r ==> final(self).renewal.stopped,
    {
        if self.released {
            return false;
        }
        self.released = true;
        self.renewal.stop();
        true
    }

    /// Whether the file on disk is to be removed with the admission.
    pub fn owns(&self, current: Option<&DaemonShutdownAdmissionRecord>) -> (r: bool)
        ensures
            r == (current is Some && current->0.token@ == self.record.token@),
    {
        match current {
            Some(current) => same(&current.token, &self.record.token),
            None => false,
        }
    }
}

/// The registry of supervisors: where the environment says, else in the home.
pub fn default_daemon_supervisor_registry_dir_for(
    environment_value: Option<&str>,
    home_dir: Option<&str>,
) -> (r: String)
    ensures
        r@ == match json::opt_str_view(environment_value) {
            Some(value) => value,
            None => path_facts::joined_path(
                path_facts::joined_path(
                    json::opt_str_view(home_dir).unwrap_or("."@),
                    ".prime"@,
                ),
                "supervisor-owners"@,
            ),
        },
{
    match environment_value {
        Some(value) => value.to_owned(),
        None => {
            let home = match home_dir {
                Some(home) => home,
                None => ".",
            };
            let prime = join_dir(home, ".prime");
            join_dir(&prime, "supervisor-owners")
        },
    }
}

/// The old registry, beside the sockets; none where the environment says where the
/// registry is.
pub fn legacy_daemon_supervisor_registry_dir_for(
    environment_value: Option<&str>,
    socket_dir: &str,
) -> (r: Option<String>)
    ensures
        match r {
            Some(dir) => environment_value is None && dir@ == path_facts::joined_path(
                socket_dir@,
                "supervisor-owners"@,
            ),
            None => environment_value is Some,
        },
{
    if environment_value.is_some() {
        return None;
    }
    Some(join_dir(socket_dir, "supervisor-owners"))
}

/// The file of a socket's fence; `normalized` is the normalized form of the
/// socket's path.
pub fn startup_fence_path(directory: &str, normalized: &str) -> (r: String)
    ensures
        r@ == path_facts::joined_path(
            directory@,
            digest::digest_prefix(normalized@, 64) + ".json"@,
        ),
{
    let key = hash_prefix(normalized, 64);
    let name = cat2(&key, ".json");
    join_dir(directory, &name)
}

/// The file of the admission of a shutdown.
pub fn shutdown_admission_path(registry_dir: &str) -> (r: String)
    ensures
        r@ == path_facts::joined_path(registry_dir@, "shutdown-admission.json"@),
{
    join_dir(registry_dir, SHUTDOWN_ADMISSION_FILE_NAME)
}

/// Which processes were lately seen not to be zombies, and when.
pub struct OwnerLiveness {
    pub confirmations: Vec<(i64, i64)>,
}

/// When a process was last seen not to be a zombie.
pub open spec fn confirmed_at(confirmations: Seq<(i64, i64)>, pid: i64) -> Option<i64>
    decreases confirmations.len(),
{
    if confirmations.len() == 0 {
        None
    } else if confirmations.last().0 == pid {
        Some(confirmations.last().1)
    } else {
        confirmed_at(confirmations.drop_last(), pid)
    }
}

/// What was seen at `at` is still believed at `now`.
pub open spec fn still_believed(at: i64, now: i64) -> bool {
    now - at < OWNER_ZOMBIE_CONFIRM_INTERVAL_MS
}

/// No process was seen twice.
pub open spec fn pids_differ(confirmations: Seq<(i64, i64)>) -> bool {
    forall|i: int, j: int|
        0 <= i < j < confirmations.len() ==> confirmations[i].0 != confirmations[j].0
}

proof fn confirmed_index(confirmations: Seq<(i64, i64)>, i: int)
    requires
        pids_differ(confirmations),
        0 <= i < confirmations.len(),
    ensures
        confirmed_at(confirmations, confirmations[i].0) == Some(confirmations[i].1),
    decreases confirmations.len(),
{
    if i < confirmations.len() - 1 {
        assert(confirmations[i].0 != confirmations[confirmations.len() - 1].0);
        confirmed_index(confirmations.drop_last(), i);
        assert(confirmations.drop_last()[i] == confirmations[i]);
    }
}

proof fn unconfirmed(confirmations: Seq<(i64, i64)>, pid: i64)
    requires
        forall|i: int| 0 <= i < confirmations.len() ==> (#[trigger] confirmations[i]).0 != pid,
    ensures
        confirmed_at(confirmations, pid) is None,
    decreases confirmations.len(),
{
    if confirmations.len() > 0 {
        let fewer = confirmations.drop_last();
        assert forall|i: int| 0 <= i < fewer.len() implies (#[trigger] fewer[i]).0 != pid by {
            assert(fewer[i] == confirmations[i]);
        }
        assert(confirmations[confirmations.len() - 1].0 != pid);
        unconfirmed(fewer, pid);
    }
}

/// What is known of a process without looking whether it is a zombie.
#[derive(Debug, Clone, Copy, PartialEq, Eq, Structural)]
pub enum LivenessAnswer {
    Dead,
    Alive,
    /// It has to be looked whether it is a zombie.
    Look,
}

impl OwnerLiveness {
    pub open spec fn wf(self) -> bool {
        pids_differ(self.confirmations@)
    }

    pub fn new() -> (r: Self)
        ensures
            r.wf(),
            r.confirmations@.len() == 0,
    {
        OwnerLiveness { confirmations: Vec::new() }
    }

    fn find(&self, pid: i64) -> (r: Option<usize>)
        requires
            self.wf(),
        ensures
            match r {
                Some(i) => i < self.confirmations@.len() && self.confirmations@[i as int].0 == pid
                    && confirmed_at(self.confirmations@, pid) == Some(
                    self.confirmations@[i as int].1,
                ),
                None => confirmed_at(self.confirmations@, pid) is None && forall|j: int|
                    0 <= j < self.confirmations@.len() ==> (
                    #[trigger] self.confirmations@[j]).0 != pid,
            },
    {
        let mut i: usize = 0;
        while i < self.confirmations.len()
            invariant
                i <= self.confirmations.len(),
                self.wf(),
                forall|j: int| 0 <= j < i ==> (#[trigger] self.confirmations@[j]).0 != pid,
            decreases self.confirmations.len() - i,
        {
            if self.confirmations[i].0 == pid {
                proof {
                    confirmed_index(self.confirmations@, i as int);
                }
                return Some(i);
            }
            i += 1;
        }
        proof {
            unconfirmed(self.confirmations@, pid);
        }
        None
    }

    fn forget(&mut self, pid: i64)
        requires
            old(self).wf(),
        ensures
            final(self).wf(),
            confirmed_at(final(self).confirmations@, pid) is None,
            forall|other: i64|
                other != pid ==> #[trigger] confirmed_at(final(self).confirmations@, other)
                    == confirmed_at(old(self).confirmations@, other),
    {
        let ghost before = self.confirmations@;
        if let Some(i) = self.find(pid) {
            self.confirmations.remove(i);
            let ghost after = self.confirmations@;
            proof {
                assert forall|a: int, b: int| 0 <= a < b < after.len() implies after[a].0
                    != after[b].0 by {
                    let x = if a < i {
                        a
                    } else {
                        a + 1
                    };
                    let y = if b < i {
                        b
                    } else {
                        b + 1
                    };
                    assert(before[x].0 != before[y].0);
                }
                assert forall|j: int| 0 <= j < after.len() implies (#[trigger] after[j]).0 != pid by {
                    let x = if j < i {
                        j
                    } else {
                        j + 1
                    };
                    assert(after[j] == before[x]);
                    if x < i {
                        assert(before[x].0 != before[i as int].0);
                    } else {
                        assert(before[i as int].0 != before[x].0);
                    }
                }
                unconfirmed(after, pid);
                assert forall|other: i64| other != pid implies #[trigger] confirmed_at(after, other)
                    == confirmed_at(before, other) by {
                    same_elsewhere(before, after, other);
                }
            }
        }
    }

    /// What is known of a process at a time: `running` says that a process has its
    /// number. One that does not run is forgotten.
    pub fn is_owner_process_alive(&mut self, pid: i64, running: bool, now: i64) -> (r:
        LivenessAnswer)
        requires
            old(self).wf(),
        ensures
            final(self).wf(),
            r == if !running {
                LivenessAnswer::Dead
            } else {
                match confirmed_at(old(self).confirmations@, pid) {
                    Some(at) if still_believed(at, now) => LivenessAnswer::Alive,
                    _ => LivenessAnswer::Look,
                }
            },
            running ==> *final(self) == *old(self),
            !running ==> confirmed_at(final(self).confirmations@, pid) is None && forall|
                other: i64,
            |
                other != pid ==> #[trigger] confirmed_at(final(self).confirmations@, other)
                    == confirmed_at(old(self).confirmations@, other),
    {
        if !running {
            self.forget(pid);
            return LivenessAnswer::Dead;
        }
        if let Some(i) = self.find(pid) {
            let at: i64 = self.confirmations[i].1;
            if (now as i128) - (at as i128) < OWNER_ZOMBIE_CONFIRM_INTERVAL_MS as i128 {
                return LivenessAnswer::Alive;
            }
        }
        LivenessAnswer::Look
    }

    /// Takes note of whether a process was seen to be a zombie; tells whether it is
    /// alive. What is no longer believed is forgotten on the way.
    pub fn confirm(&mut self, pid: i64, zombie: bool, now: i64) -> (r: bool)
        requires
            old(self).wf(),
        ensures
            final(self).wf(),
            r == !zombie,
            forall|other: i64|
                #[trigger] confirmed_at(final(self).confirmations@, other) == if other == pid {
                    if zombie {
                        None
                    } else {
                        Some(now)
                    }
                } else {
                    match confirmed_at(old(self).confirmations@, other) {
                        Some(at) if zombie || still_believed(at, now) => Some(at),
                        _ => None,
                    }
                },
    {
        if zombie {
            self.forget(pid);
            return false;
        }
        let ghost before = self.confirmations@;
        self.forget(pid);
        let ghost others = self.confirmations@;
        let mut kept: Vec<(i64, i64)> = Vec::new();
        let mut i: usize = 0;
        while i < self.confirmations.len()
            invariant
                i <= self.confirmations.len(),
                self.confirmations@ == others,
                pids_differ(others),
                forall|a: int| 0 <= a < kept@.len() ==> exists|b: int|
                    0 <= b < i && others[b] == #[trigger] kept@[a],
                pids_differ(kept@),
                forall|b: int|
                    0 <= b < i && still_believed((#[trigger] others[b]).1, now) ==> kept@.contains(
                        others[b],
                    ),
                forall|a: int| 0 <= a < kept@.len() ==> still_believed((#[trigger] kept@[a]).1, now),
            decreases self.confirmations.len() - i,
        {
            let entry: (i64, i64) = self.confirmations[i];
            let ghost earlier = kept@;
            if (now as i128) - (entry.1 as i128) < OWNER_ZOMBIE_CONFIRM_INTERVAL_MS as i128 {
                kept.push(entry);
                proof {
                    assert(kept@ =~= earlier.push(entry));
                    assert forall|a: int, c: int| 0 <= a < c < kept@.len() implies kept@[a].0
                        != kept@[c].0 by {
                        if c == earlier.len() {
                            let b = choose|b: int| 0 <= b < i && others[b] == earlier[a];
                            assert(others[b].0 != others[i as int].0);
                        }
                    }
                    assert forall|b: int|
                        0 <= b < i + 1 && still_believed(
                            (#[trigger] others[b]).1,
                            now,
                        ) implies kept@.contains(others[b]) by {
                        if b < i {
                            let a = choose|a: int|
                                0 <= a < earlier.len() && earlier[a] == others[b];
                            assert(kept@[a] == others[b]);
                        } else {
                            assert(kept@[earlier.len() as int] == entry);
                        }
                    }
                    assert forall|a: int| 0 <= a < kept@.len() implies exists|b: int|
                        0 <= b < i + 1 && others[b] == #[trigger] kept@[a] by {
                        if a < earlier.len() {
                            let b = choose|b: int| 0 <= b < i && others[b] == earlier[a];
                            assert(others[b] == kept@[a]);
                        } else {
                            assert(others[i as int] == kept@[a]);
                        }
                    }
                }
            }
            i += 1;
        }
        let ghost believed = kept@;
        kept.push((pid, now));
        proof {
            let all = kept@;
            assert forall|a: int, b: int| 0 <= a < b < all.len() implies all[a].0 != all[b].0 by {
                if b == believed.len() {
                    let c = choose|c: int| 0 <= c < others.len() && others[c] == believed[a];
                    if others[c].0 == pid {
                        confirmed_index(others, c);
                    }
                } else {
                    assert(believed[a].0 != believed[b].0);
                }
            }
            assert forall|other: i64| #[trigger] confirmed_at(all, other) == if other == pid {
                Some(now)
            } else {
                match confirmed_at(before, other) {
                    Some(at) if still_believed(at, now) => Some(at),
                    _ => None,
                }
            } by {
                if other == pid {
                    confirmed_index(all, believed.len() as int);
                } else {
                    assert(all.drop_last() =~= believed);
                    assert(confirmed_at(all, other) == confirmed_at(believed, other));
                    assert(confirmed_at(others, other) == confirmed_at(before, other));
                    kept_when_believed(others, believed, now, other);
                }
            }
        }
        self.confirmations = kept;
        true
    }
}

proof fn same_elsewhere(before: Seq<(i64, i64)>, after: Seq<(i64, i64)>, other: i64)
    requires
        pids_differ(before),
        pids_differ(after),
        exists|i: int|
            0 <= i < before.len() && #[trigger] before[i].0 != other && after == before.remove(i),
    ensures
        confirmed_at(after, other) == confirmed_at(before, other),
{
    let i = choose|i: int|
        0 <= i < before.len() && #[trigger] before[i].0 != other && after == before.remove(i);
    if exists|j: int| 0 <= j < before.len() && (#[trigger] before[j]).0 == other {
        let j = choose|j: int| 0 <= j < before.len() && (#[trigger] before[j]).0 == other;
        let x = if j < i {
            j
        } else {
            j - 1
        };
        assert(after[x] == before[j]);
        confirmed_index(before, j);
        confirmed_index(after, x);
    } else {
        unconfirmed(before, other);
        assert forall|x: int| 0 <= x < after.len() implies (#[trigger] after[x]).0 != other by {
            let j = if x < i {
                x
            } else {
                x + 1
            };
            assert(after[x] == before[j]);
        }
        unconfirmed(after, other);
    }
}

proof fn kept_when_believed(
    others: Seq<(i64, i64)>,
    kept: Seq<(i64, i64)>,
    now: i64,
    other: i64,
)
    requires
        pids_differ(others),
        pids_differ(kept),
        forall|a: int| 0 <= a < kept.len() ==> exists|b: int|
            0 <= b < others.len() && others[b] == #[trigger] kept[a],
        forall|b: int|
            0 <= b < others.len() && still_believed((#[trigger] others[b]).1, now)
                ==> kept.contains(others[b]),
        forall|a: int| 0 <= a < kept.len() ==> still_believed((#[trigger] kept[a]).1, now),
    ensures
        confirmed_at(kept, other) == match confirmed_at(others, other) {
            Some(at) if still_believed(at, now) => Some(at),
            _ => None,
        },
{
    if exists|a: int| 0 <= a < kept.len() && (#[trigger] kept[a]).0 == other {
        let a = choose|a: int| 0 <= a < kept.len() && (#[trigger] kept[a]).0 == other;
        let b = choose|b: int| 0 <= b < others.len() && others[b] == kept[a];
        confirmed_index(kept, a);
        confirmed_index(others, b);
    } else {
        unconfirmed(kept, other);
        if exists|b: int| 0 <= b < others.len() && (#[trigger] others[b]).0 == other {
            let b = choose|b: int| 0 <= b < others.len() && (#[trigger] others[b]).0 == other;
            confirmed_index(others, b);
            if still_believed(others[b].1, now) {
                let a = choose|a: int| 0 <= a < kept.len() && kept[a] == others[b];
                assert(kept[a].0 == other);
            }
        } else {
            unconfirmed(others, other);
        }
    }
}

/// The search for the canonical form of a path that may not exist: the ancestor
/// that is looked at, and the names below it that are missing.
pub struct CanonicalSearch {
    pub path: String,
    pub ancestor: String,
    pub missing: Vec<String>,
}

/// The path has no parent.
pub open spec fn is_top(path: Seq<char>) -> bool {
    path.len() == 0 || path_facts::without_tail(path) == seq!['/']
}

/// The names below a directory, one below the other.
pub open spec fn below(dir: Seq<char>, names: Seq<Seq<char>>) -> Seq<char>
    decreases names.len(),
{
    if names.len() == 0 {
        dir
    } else {
        path_facts::joined_path(below(dir, names.drop_last()), names.last())
    }
}

/// The path in the form in which paths are compared on this platform.
pub open spec fn compared_form(path: Seq<char>, windows: bool) -> Seq<char> {
    if windows {
        text::lowered(path)
    } else {
        path
    }
}

fn to_compared_form(path: String, windows: bool) -> (r: String)
    ensures
        r@ == compared_form(path@, windows),
{
    if windows {
        text::lower(&path)
    } else {
        path
    }
}

impl CanonicalSearch {
    /// Begins at the path itself.
    pub fn begin(path: &str, current_dir: Option<&str>) -> (r: Self)
        ensures
            r.path@ == path_facts::resolved(path@, json::opt_str_view(current_dir)),
            r.ancestor@ == r.path@,
            r.missing@.len() == 0,
    {
        let resolved = resolve(path, current_dir);
        CanonicalSearch { path: resolved.clone(), ancestor: resolved, missing: Vec::new() }
    }

    /// The canonical form, once the physical path of the ancestor is known.
    pub fn found(&self, physical: &str, windows: bool) -> (r: String)
        ensures
            r@ == compared_form(below(physical@, text::texts(self.missing@)), windows),
    {
        let mut canonical = physical.to_owned();
        let ghost names = text::texts(self.missing@);
        let mut i: usize = 0;
        assert(names.take(0) =~= Seq::empty());
        while i < self.missing.len()
            invariant
                i <= self.missing.len(),
                names == text::texts(self.missing@),
                canonical@ == below(physical@, names.take(i as int)),
            decreases self.missing.len() - i,
        {
            assert(names.take(i + 1).drop_last() =~= names.take(i as int));
            assert(names.take(i + 1).last() == self.missing@[i as int]@);
            canonical = join_dir(&canonical, &self.missing[i]);
            i += 1;
        }
        assert(names.take(i as int) =~= names);
        to_compared_form(canonical, windows)
    }

    /// The ancestor does not exist: its parent is looked at next. Above the top
    /// there is nothing, and the path stays as it is.
    pub fn not_found(&mut self, windows: bool) -> (r: Option<String>)
        ensures
            final(self).path == old(self).path,
            match r {
                Some(unresolved) => {
                    &&& is_top(old(self).ancestor@)
                    &&& unresolved@ == compared_form(old(self).path@, windows)
                    &&& final(self).missing == old(self).missing
                },
                None => {
                    &&& !is_top(old(self).ancestor@)
                    &&& final(self).ancestor@ == path_facts::parent_of(old(self).ancestor@)
                    &&& final(self).ancestor@.len() < old(self).ancestor@.len()
                    &&& text::texts(final(self).missing@) == seq![
                        path_facts::name_of(old(self).ancestor@),
                    ] + text::texts(old(self).missing@)
                },
            },
    {
        let parent = dirname_of(&self.ancestor);
        let name = basename_of(&self.ancestor);
        let top: bool = self.ancestor.as_str().is_empty() || path_facts::is_root(&self.ancestor);
        if top {
            return Some(to_compared_form(self.path.clone(), windows));
        }
        proof {
            path_facts::parent_is_shorter(self.ancestor@);
        }
        let ghost before = self.missing@;
        let ghost shown = name@;
        self.missing.insert(0, name);
        assert(text::texts(self.missing@) =~= seq![shown] + text::texts(before));
        self.ancestor = parent;
        None
    }

    /// The ancestor could not be looked at.
    pub fn failed(&self, error: &str) -> (r: String)
        ensures
            r@ == self.ancestor@ + ": "@ + error@,
    {
        cat3(&self.ancestor, ": ", error)
    }
}

} // verus!
