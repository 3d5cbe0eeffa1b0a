//! What the supervisor decides: who its clients and workers are, where a command
//! goes, and what becomes of the answer.
//!
//! Each resident root runs in a separately authenticated worker process. Public
//! clients share the supervisor connection, never the worker's secret or socket.

use vstd::prelude::*;

use crate::active_session_state::TextSet;
use crate::assistant_message;
use crate::assistant_message::{AssistantMessage, clone_members};
use crate::command_recovery_journal::CommandJournalBeginResult;
use crate::compact_session_stream;
use crate::compact_session_stream::{CompactAssistantDelta, CompactAssistantStreamReconstructor};
use crate::daemon_catalog_process::DAEMON_CATALOG_ROLE_ENV;
use crate::daemon_supervisor_ownership::DaemonSupervisorOwnerRecord;
use crate::daemon_worker_client::PrivateFrame;
use crate::daemon_worker_protocol::{
    DAEMON_WORKER_ACTIVE_SESSION_ID_ENV, DAEMON_WORKER_INSTANCE_ID_ENV,
    DAEMON_WORKER_RECOVERY_JOURNAL_ENV, DAEMON_WORKER_ROLE_ENV, DAEMON_WORKER_SUPERVISOR_SOCKET_ENV,
    DAEMON_WORKER_TOKEN_ENV, DaemonWorkerDescriptor, DurableDaemonCreateCommand, Environment,
    SESSION_LEASES_ENABLED_ENV, SESSION_LEASE_OWNER_ID_ENV, text_array,
};
use crate::daemon_worker_protocol;
use crate::digest;
use crate::digest::hash_prefix;
use crate::json;
use crate::json::{Json, JsonV, owned, parse_json, print_json, remove_member, set_member};
use crate::path_facts;
use crate::path_facts::join_dir;
use crate::protocol;
use crate::protocol::{DaemonResponse, ResponseV};
use crate::saved_session_info;
use crate::saved_session_info::{SessionInfo, serialize_saved_session_info};
use crate::text;
use crate::text::{cat2, cat3, cat4, cat5, contains_str, same, slice_text, to_chars};
use crate::text_map::TextMap;

verus! {

/// How long a worker may take to answer, in milliseconds.
pub const REQUEST_TIMEOUT: u64 = 86_400_000;

/// What the supervisor does not serve, of what a daemon can.
pub const UNSERVED_CAPABILITIES: [&'static str; 6] = [
    "slim_attach",
    "chunked_snapshot",
    "history_ranges",
    "heartbeat_catalog",
    "authoritative_child_roster",
    "owned_session_recovery_context",
];

/// A client of the supervisor.
#[derive(Debug, PartialEq)]
pub struct PublicClient {
    pub connection_id: String,
    pub id: String,
    /// The name under which the client sends its commands.
    pub protocol_id: Option<String>,
    pub subscriptions: TextSet,
    pub supports_extension_ui: bool,
    /// Counts the releases of the client's pauses.
    pub pause_epoch: u64,
    pub stopped: bool,
}

impl PublicClient {
    /// A client that has just connected.
    pub fn new(connection_id: &str) -> (r: Self)
        ensures
            r.connection_id@ == connection_id@,
            r.id@ == connection_id@,
            r.protocol_id is None,
            r.subscriptions.wf(),
            r.subscriptions@ == Map::<Seq<char>, ()>::empty(),
            !r.supports_extension_ui,
            r.pause_epoch == 0,
            !r.stopped,
    {
        PublicClient {
            connection_id: connection_id.to_owned(),
            id: connection_id.to_owned(),
            protocol_id: None,
            subscriptions: TextMap::new(),
            supports_extension_ui: false,
            pause_epoch: 0,
            stopped: false,
        }
    }

    /// Who the client is: the name under which it sends its commands, else its id.
    pub open spec fn name(self) -> Seq<char> {
        match self.protocol_id {
            Some(id) => id@,
            None => self.id@,
        }
    }

    /// Who the client is.
    pub fn identity(&self) -> (r: String)
        ensures
            r@ == self.name(),
    {
        match &self.protocol_id {
            Some(id) => id.clone(),
            None => self.id.clone(),
        }
    }

    /// Whether the client has subscribed to a session.
    pub open spec fn subscribed(self, active: Seq<char>) -> bool {
        self.subscriptions@.contains_key(active)
    }
}

/// A worker of the supervisor.
#[derive(Debug, PartialEq)]
pub struct Worker {
    pub descriptor: DaemonWorkerDescriptor,
    /// The sessions that the worker listed last.
    pub summaries: Vec<Json>,
    pub stream: CompactAssistantStreamReconstructor,
}

impl Worker {
    /// A worker that has listed nothing yet.
    pub fn new(descriptor: DaemonWorkerDescriptor) -> (r: Self)
        ensures
            r.descriptor == descriptor,
            r.summaries@.len() == 0,
            r.stream.wf(),
            r.stream.messages() == Map::<Seq<char>, assistant_message::MessageV>::empty(),
            r.stream.fragments() == Map::<Seq<char>, Seq<char>>::empty(),
    {
        Worker {
            descriptor,
            summaries: Vec::new(),
            stream: CompactAssistantStreamReconstructor::new(),
        }
    }

    /// Whom the worker belongs to; a resident session's worker to nobody.
    pub open spec fn owner(self) -> Option<Seq<char>> {
        json::opt_view(self.descriptor.owner_client_id)
    }
}

/// The input of a session that a client holds back.
#[derive(Debug, PartialEq)]
pub struct InputPause {
    pub connection_id: String,
    pub worker_id: String,
    pub active: String,
    pub requested: String,
}

impl Clone for InputPause {
    fn clone(&self) -> (r: Self)
        ensures
            r == *self,
    {
        InputPause {
            connection_id: self.connection_id.clone(),
            worker_id: self.worker_id.clone(),
            active: self.active.clone(),
            requested: self.requested.clone(),
        }
    }
}

/// The supervisor: its clients, its workers, and the pauses that clients hold.
#[derive(Debug, PartialEq)]
pub struct Supervisor {
    pub socket_path: String,
    pub clients: Vec<PublicClient>,
    pub workers: Vec<Worker>,
    pub pauses: TextMap<InputPause>,
    pub stopped: bool,
}

/// A worker is shown to everybody, unless it belongs to another client.
pub open spec fn shown_to(worker: Worker, client: Seq<char>) -> bool {
    worker.owner() matches Some(owner) ==> owner == client
}

/// Whether a worker is shown to a client.
pub fn visible(worker: &Worker, client: &str) -> (r: bool)
    ensures
        r == shown_to(*worker, client@),
{
    match &worker.descriptor.owner_client_id {
        Some(owner) => same(owner, client),
        None => true,
    }
}

/// The members of a command without fields.
pub open spec fn bare_command(kind: Seq<char>) -> Seq<(Seq<char>, JsonV)> {
    seq![("type"@, JsonV::Str(kind))]
}

/// A command without fields.
pub fn command(kind: &str) -> (r: Vec<(String, Json)>)
    ensures
        json::members(r@) == bare_command(kind@),
{
    let mut pairs = json::no_members();
    json::add_text(&mut pairs, "type", kind);
    assert(json::members(pairs@) =~= bare_command(kind@));
    pairs
}

/// What an answer comes to: its data, or why there are none.
pub open spec fn answer_data(response: ResponseV) -> Result<JsonV, Seq<char>> {
    if response.success {
        Ok(
            match response.data {
                Some(data) => data,
                None => JsonV::Null,
            },
        )
    } else {
        Err(
            match response.error {
                Some(error) => error,
                None => "Session worker request failed"@,
            },
        )
    }
}

/// What an answer comes to: its data, or why there are none.
pub fn response_data(response: DaemonResponse) -> (r: Result<Json, String>)
    ensures
        match (r, answer_data(response@)) {
            (Ok(data), Ok(expected)) => data@ == expected,
            (Err(error), Err(expected)) => error@ == expected,
            _ => false,
        },
{
    if response.success {
        match response.data {
            Some(data) => Ok(data),
            None => Ok(Json::Null),
        }
    } else {
        match response.error {
            Some(error) => Err(error),
            None => Err("Session worker request failed".to_owned()),
        }
    }
}

/// The session file that a worker can be recovered from.
pub open spec fn recoverable_file(descriptor: DaemonWorkerDescriptor) -> Option<Seq<char>> {
    match descriptor.session_file {
        Some(file) => Some(file@),
        None => json::opt_view(descriptor.create_command.session_path),
    }
}

/// The document of an optional text.
pub open spec fn opt_text_value(value: Option<Seq<char>>) -> JsonV {
    match value {
        Some(text) => JsonV::Str(text),
        None => JsonV::Null,
    }
}

/// The document of an optional flag.
pub open spec fn opt_flag_value(value: Option<bool>) -> JsonV {
    match value {
        Some(flag) => JsonV::Bool(flag),
        None => JsonV::Null,
    }
}

/// The members of the command that recovers a worker's session from its file.
pub open spec fn recovery_members(
    file: Seq<char>,
    descriptor: DaemonWorkerDescriptor,
) -> Seq<(Seq<char>, JsonV)> {
    seq![
        ("type"@, JsonV::Str("create"@)),
        ("sessionPath"@, JsonV::Str(file)),
        (
            "config"@,
            JsonV::Obj(
                seq![
                    ("sessionDir"@, opt_text_value(json::opt_view(descriptor.session_dir))),
                    ("telemetryDisabled"@, opt_flag_value(descriptor.telemetry_disabled)),
                ],
            ),
        ),
    ]
}

fn opt_text_json(value: &Option<String>) -> (r: Json)
    ensures
        r@ == opt_text_value(json::opt_view(*value)),
{
    match value {
        Some(text) => Json::Str(text.clone()),
        None => Json::Null,
    }
}

/// The command that recovers a worker's session.
pub fn recovery_command(descriptor: &DaemonWorkerDescriptor) -> (r: Result<
    Vec<(String, Json)>,
    String,
>)
    ensures
        match (r, recoverable_file(*descriptor)) {
            (Ok(command), Some(file)) => json::members(command@) == recovery_members(
                file,
                *descriptor,
            ),
            (Err(error), None) => error@ == "Worker has no saved session to recover"@,
            _ => false,
        },
{
    let file: &String = match &descriptor.session_file {
        Some(file) => file,
        None => match &descriptor.create_command.session_path {
            Some(file) => file,
            None => return Err("Worker has no saved session to recover".to_owned()),
        },
    };
    let mut config = json::no_members();
    json::add_member(&mut config, "sessionDir", opt_text_json(&descriptor.session_dir));
    let telemetry = match descriptor.telemetry_disabled {
        Some(disabled) => Json::Bool(disabled),
        None => Json::Null,
    };
    json::add_member(&mut config, "telemetryDisabled", telemetry);
    assert(json::members(config@) =~= seq![
        ("sessionDir"@, opt_text_value(json::opt_view(descriptor.session_dir))),
        ("telemetryDisabled"@, opt_flag_value(descriptor.telemetry_disabled)),
    ]);
    let mut pairs = command("create");
    json::add_text(&mut pairs, "sessionPath", file);
    json::add_member(&mut pairs, "config", json::object(config));
    assert(json::members(pairs@) =~= recovery_members(file@, *descriptor));
    Ok(pairs)
}

/// The capability is one that the supervisor serves.
pub open spec fn served(capability: Seq<char>) -> bool {
    !text::holds_str(UNSERVED_CAPABILITIES@, capability)
}

/// What the supervisor offers to its clients, of what a daemon can by default: a
/// capability that it does not serve is not offered, so that clients fall back
/// instead of waiting in vain.
pub fn server_capabilities(defaults: &Vec<String>) -> (r: Vec<String>)
    ensures
        text::texts(r@) == text::texts(defaults@).filter(|c: Seq<char>| served(c)),
{
    let ghost keep = |c: Seq<char>| served(c);
    let ghost all = text::texts(defaults@);
    let mut kept: Vec<String> = Vec::new();
    let mut i: usize = 0;
    proof {
        reveal(Seq::filter);
        assert(all.take(0) =~= Seq::empty());
        assert(text::texts(kept@) =~= all.take(0).filter(keep));
    }
    while i < defaults.len()
        invariant
            i <= defaults.len(),
            keep == (|c: Seq<char>| served(c)),
            all == text::texts(defaults@),
            text::texts(kept@) == all.take(i as int).filter(keep),
        decreases defaults.len() - i,
    {
        proof {
            reveal(Seq::filter);
            assert(all.take(i + 1).drop_last() =~= all.take(i as int));
            assert(all.take(i + 1).last() == defaults@[i as int]@);
        }
        let ghost before = kept@;
        if !contains_str(&UNSERVED_CAPABILITIES, &defaults[i]) {
            kept.push(defaults[i].clone());
            assert(text::texts(kept@) =~= text::texts(before).push(defaults@[i as int]@));
        }
        i += 1;
    }
    assert(all.take(i as int) =~= all);
    kept
}

/// The supervisor offers everything that a daemon can by default but what it does
/// not serve, and nothing else.
pub proof fn served_defaults_are_offered(defaults: Seq<Seq<char>>, capability: Seq<char>)
    ensures
        defaults.filter(|c: Seq<char>| served(c)).contains(capability) <==> defaults.contains(
            capability,
        ) && served(capability),
{
    let keep = |c: Seq<char>| served(c);
    defaults.filter_lemma(keep);
    kept_is_there(defaults, keep, capability);
    if defaults.contains(capability) && served(capability) {
        let i = choose|i: int| 0 <= i < defaults.len() && defaults[i] == capability;
        assert(keep(defaults[i]));
        assert(defaults.filter(keep).contains(defaults[i]));
    }
    if defaults.filter(keep).contains(capability) {
        let i = choose|i: int|
            0 <= i < defaults.filter(keep).len() && defaults.filter(keep)[i] == capability;
        assert(keep(defaults.filter(keep)[i]));
    }
}

proof fn kept_is_there(all: Seq<Seq<char>>, keep: spec_fn(Seq<char>) -> bool, item: Seq<char>)
    ensures
        all.filter(keep).contains(item) ==> all.contains(item),
    decreases all.len(),
{
    reveal(Seq::filter);
    if all.len() > 0 && all.filter(keep).contains(item) {
        let i = choose|i: int| 0 <= i < all.filter(keep).len() && all.filter(keep)[i] == item;
        kept_is_there(all.drop_last(), keep, item);
        if i < all.drop_last().filter(keep).len() {
            assert(all.drop_last().filter(keep)[i] == item);
            let j = choose|j: int| 0 <= j < all.drop_last().len() && all.drop_last()[j] == item;
            assert(all[j] == item);
        } else {
            assert(all[all.len() - 1] == item);
        }
    }
}

/// The name under which a supervisor's files are kept.
pub fn descriptor_key(socket: &str) -> (r: String)
    ensures
        r@ == digest::digest_prefix(socket@, 12),
{
    hash_prefix(socket, 12)
}

/// Where the descriptors of a supervisor's workers are kept.
pub fn descriptor_directory(agent_dir: &str, socket_path: &str) -> (r: String)
    ensures
        r@ == path_facts::joined_path(
            path_facts::joined_path(agent_dir@, "daemon-workers"@),
            digest::digest_prefix(socket_path@, 12),
        ),
{
    let dir = join_dir(agent_dir, "daemon-workers");
    let key = descriptor_key(socket_path);
    join_dir(&dir, &key)
}

/// How many bytes a character takes.
pub open spec fn byte_width(c: char) -> nat {
    let n = c as u32;
    if n < 0x80 {
        1
    } else if n < 0x800 {
        2
    } else if n < 0x10000 {
        3
    } else {
        4
    }
}

/// The characters in the first bytes of a text, or all where it has fewer bytes;
/// nothing where the cut goes through a character.
pub open spec fn cut_at(text: Seq<char>, bytes: nat) -> Option<Seq<char>>
    decreases text.len(),
{
    if text.len() == 0 || bytes == 0 {
        Some(Seq::empty())
    } else if byte_width(text[0]) > bytes {
        None
    } else {
        match cut_at(text.drop_first(), (bytes - byte_width(text[0])) as nat) {
            Some(rest) => Some(seq![text[0]] + rest),
            None => None,
        }
    }
}

/// The characters in the first bytes of a text.
fn cut_text(text: &str, bytes: u64) -> (r: String)
    requires
        cut_at(text@, bytes as nat) is Some,
    ensures
        cut_at(text@, bytes as nat) == Some(r@),
{
    let chars = to_chars(text);
    let mut left: u64 = bytes;
    let mut i: usize = 0;
    assert(text@.skip(0) =~= text@);
    assert(cut_at(text@, bytes as nat)->0 =~= text@.take(0) + cut_at(text@, bytes as nat)->0);
    while i < chars.len() && left > 0
        invariant
            i <= chars.len(),
            chars@ == text@,
            cut_at(text@, bytes as nat) is Some,
            cut_at(text@.skip(i as int), left as nat) is Some,
            cut_at(text@, bytes as nat)->0 == text@.take(i as int) + cut_at(
                text@.skip(i as int),
                left as nat,
            )->0,
        decreases chars.len() - i,
    {
        let n: u32 = chars[i] as u32;
        let width: u64 = if n < 0x80 {
            1
        } else if n < 0x800 {
            2
        } else if n < 0x10000 {
            3
        } else {
            4
        };
        assert(text@.skip(i as int)[0] == chars@[i as int]);
        assert(text@.skip(i as int).drop_first() =~= text@.skip(i + 1));
        assert(text@.take(i + 1) =~= text@.take(i as int) + seq![text@[i as int]]);
        left = left - width;
        i += 1;
        assert(cut_at(text@, bytes as nat)->0 =~= text@.take(i as int) + cut_at(
            text@.skip(i as int),
            left as nat,
        )->0);
    }
    let r = slice_text(&chars, 0, i);
    assert(r@ =~= cut_at(text@, bytes as nat)->0);
    r
}

/// Where a worker listens, for the supervisor at a socket. On Windows it is a
/// pipe, elsewhere a socket in the daemon's directory.
pub fn worker_socket(on_windows: bool, socket_dir: &str, supervisor: &str, worker: &str) -> (r:
    String)
    requires
        cut_at(worker@, 12) is Some,
    ensures
        r@ == if on_windows {
            "\\\\.\\pipe\\prime-agent-worker-"@ + digest::digest_prefix(supervisor@, 12) + "-"@
                + cut_at(worker@, 12)->0
        } else {
            path_facts::joined_path(
                socket_dir@,
                "worker-"@ + digest::digest_prefix(supervisor@, 12) + "-"@ + cut_at(worker@, 12)->0
                    + ".sock"@,
            )
        },
{
    let key = descriptor_key(supervisor);
    let id = cut_text(worker, 12);
    if on_windows {
        cat4("\\\\.\\pipe\\prime-agent-worker-", &key, "-", &id)
    } else {
        let name = cat5("worker-", &key, "-", &id, ".sock");
        join_dir(socket_dir, &name)
    }
}

/// The id under which a session is active, as its summary tells it.
pub open spec fn active_of(summary: JsonV) -> Option<Seq<char>> {
    match summary.get("activeSessionId"@) {
        Some(id) => id.str(),
        None => summary.str_at("id"@),
    }
}

/// The id under which a session is active, as its summary tells it.
pub fn summary_active_id(summary: &Json) -> (r: Option<&str>)
    ensures
        json::opt_str_view(r) == active_of(summary@),
{
    match summary.get("activeSessionId") {
        Some(id) => id.as_str(),
        None => summary.str_at("id"),
    }
}

/// How many of the clients have subscribed to a session.
pub open spec fn subscribers(clients: Seq<PublicClient>, active: Seq<char>) -> nat
    decreases clients.len(),
{
    if clients.len() == 0 {
        0
    } else {
        subscribers(clients.drop_last(), active) + if clients.last().subscribed(active) {
            1nat
        } else {
            0
        }
    }
}

/// The summary of a session as clients see it: with the clients that are attached
/// to it and the worker that runs it. What is no summary stays as it is.
pub open spec fn public_of(
    summary: JsonV,
    clients: Seq<PublicClient>,
    descriptor: DaemonWorkerDescriptor,
) -> JsonV {
    match summary {
        JsonV::Obj(members) => {
            let active = active_of(summary).unwrap_or(Seq::empty());
            JsonV::Obj(
                json::put(
                    json::put(
                        json::put(
                            members,
                            "attachedClients"@,
                            json::int_value(subscribers(clients, active) as int),
                        ),
                        "workerState"@,
                        JsonV::Str(descriptor.lifecycle@),
                    ),
                    "workerPid"@,
                    json::int_value(descriptor.pid as int),
                ),
            )
        },
        _ => summary,
    }
}

/// The session is what is asked for: by its active id, its id or its file.
pub open spec fn session_meets(summary: JsonV, requested: Seq<char>) -> bool {
    ||| active_of(summary).unwrap_or(Seq::empty()) == requested
    ||| summary.str_at("sessionId"@) == Some(requested)
    ||| summary.str_at("sessionFile"@) == Some(requested)
}

/// The sessions of a list that are what is asked for: where the worker stands, and
/// the id under which the session is active.
pub open spec fn matches_in(at: int, summaries: Seq<Json>, requested: Seq<char>) -> Seq<
    (int, Seq<char>),
>
    decreases summaries.len(),
{
    if summaries.len() == 0 {
        Seq::empty()
    } else {
        let rest = matches_in(at, summaries.drop_last(), requested);
        if session_meets(summaries.last()@, requested) {
            rest.push((at, active_of(summaries.last()@).unwrap_or(Seq::empty())))
        } else {
            rest
        }
    }
}

/// The sessions that are what a client asks for, among those of the workers that
/// are shown to it.
pub open spec fn matches_of(workers: Seq<Worker>, identity: Seq<char>, requested: Seq<char>) -> Seq<
    (int, Seq<char>),
>
    decreases workers.len(),
{
    if workers.len() == 0 {
        Seq::empty()
    } else {
        let rest = matches_of(workers.drop_last(), identity, requested);
        if shown_to(workers.last(), identity) {
            rest + matches_in(workers.len() - 1, workers.last().summaries@, requested)
        } else {
            rest
        }
    }
}

/// Matches as they are found.
pub open spec fn found_views(found: Seq<(usize, String)>) -> Seq<(int, Seq<char>)> {
    Seq::new(found.len(), |i: int| (found[i].0 as int, found[i].1@))
}

proof fn matches_stand_in_range(at: int, summaries: Seq<Json>, requested: Seq<char>)
    ensures
        forall|i: int|
            0 <= i < matches_in(at, summaries, requested).len() ==> (#[trigger] matches_in(
                at,
                summaries,
                requested,
            )[i]).0 == at,
    decreases summaries.len(),
{
    if summaries.len() > 0 {
        matches_stand_in_range(at, summaries.drop_last(), requested);
        let rest = matches_in(at, summaries.drop_last(), requested);
        let all = matches_in(at, summaries, requested);
        assert forall|i: int| 0 <= i < all.len() implies (#[trigger] all[i]).0 == at by {
            if i < rest.len() {
                assert(all[i] == rest[i]);
            }
        }
    }
}

/// A session is found only at a worker that is shown to the client: the sessions
/// that belong to another client stay hidden.
pub proof fn sessions_are_found_only_where_they_are_shown(
    workers: Seq<Worker>,
    identity: Seq<char>,
    requested: Seq<char>,
)
    ensures
        forall|i: int|
            0 <= i < matches_of(workers, identity, requested).len() ==> 0 <= (
            #[trigger] matches_of(workers, identity, requested)[i]).0 < workers.len() && shown_to(
                workers[matches_of(workers, identity, requested)[i].0],
                identity,
            ),
    decreases workers.len(),
{
    if workers.len() > 0 {
        let rest = matches_of(workers.drop_last(), identity, requested);
        let n = workers.len() - 1;
        sessions_are_found_only_where_they_are_shown(workers.drop_last(), identity, requested);
        matches_stand_in_range(n, workers.last().summaries@, requested);
        let all = matches_of(workers, identity, requested);
        assert forall|i: int| 0 <= i < all.len() implies 0 <= (#[trigger] all[i]).0 < workers.len()
            && shown_to(workers[all[i].0], identity) by {
            if i < rest.len() {
                assert(all[i] == rest[i]);
                assert(workers.drop_last()[rest[i].0] == workers[rest[i].0]);
            } else {
                let own = matches_in(n, workers.last().summaries@, requested);
                assert(all[i] == own[i - rest.len()]);
            }
        }
    }
}

/// A client asks for the release of pauses: all of its own, or those of one
/// session.
pub open spec fn is_released(
    pause: InputPause,
    connection_id: Seq<char>,
    active: Option<Seq<char>>,
) -> bool {
    &&& pause.connection_id@ == connection_id
    &&& active matches Some(active) ==> active == pause.active@ || active == pause.requested@
}

/// The pauses that are released, in the order of the entries.
pub open spec fn released_pauses(
    entries: Seq<(String, InputPause)>,
    connection_id: Seq<char>,
    active: Option<Seq<char>>,
) -> Seq<(String, InputPause)> {
    entries.filter(|entry: (String, InputPause)| is_released(entry.1, connection_id, active))
}

/// The members of the command that releases a pause at its worker.
pub open spec fn release_members(id: Seq<char>, active: Seq<char>) -> Seq<(Seq<char>, JsonV)> {
    seq![
        ("type"@, JsonV::Str("release_session_input_pause"@)),
        ("activeSessionId"@, JsonV::Str(active)),
        ("pauseId"@, JsonV::Str(id)),
    ]
}

/// The command that releases a pause at its worker.
pub fn release_command(id: &str, pause: &InputPause) -> (r: Vec<(String, Json)>)
    ensures
        json::members(r@) == release_members(id@, pause.active@),
{
    let mut pairs = command("release_session_input_pause");
    json::add_text(&mut pairs, "activeSessionId", &pause.active);
    json::add_text(&mut pairs, "pauseId", id);
    assert(json::members(pairs@) =~= release_members(id@, pause.active@));
    pairs
}

/// Somebody who has subscribed to the session can show dialogs.
pub open spec fn dialogs_for(clients: Seq<PublicClient>, active: Seq<char>) -> bool {
    exists|i: int|
        0 <= i < clients.len() && (#[trigger] clients[i]).subscribed(active)
            && clients[i].supports_extension_ui
}

/// The members of the command with which the supervisor subscribes to a session of
/// a worker.
pub open spec fn subscription_members(active: Seq<char>, dialogs: bool) -> Seq<(Seq<char>, JsonV)> {
    let base = seq![JsonV::Str("attach_snapshot"@), JsonV::Str("event_sequence"@)];
    seq![
        ("type"@, JsonV::Str("worker_subscribe"@)),
        ("activeSessionId"@, JsonV::Str(active)),
        (
            "capabilities"@,
            JsonV::Arr(
                if dialogs {
                    base.push(JsonV::Str("extension_ui"@))
                } else {
                    base
                },
            ),
        ),
        ("supportsExtensionUi"@, JsonV::Bool(dialogs)),
    ]
}

/// A session that a worker may list: it has an id and the id of its session.
pub open spec fn is_listable(summary: JsonV) -> bool {
    summary.str_at("id"@) is Some && summary.str_at("sessionId"@) is Some
}

/// The sessions that a worker lists.
pub open spec fn listed_in(data: JsonV) -> Option<Seq<JsonV>> {
    match data.get("sessions"@) {
        Some(JsonV::Arr(sessions)) => if forall|i: int|
            0 <= i < sessions.len() ==> is_listable(#[trigger] sessions[i]) {
            Some(sessions)
        } else {
            None
        },
        _ => None,
    }
}

/// Reads the sessions that a worker lists.
pub fn listed_sessions(response: DaemonResponse) -> (r: Result<Vec<Json>, String>)
    ensures
        match (r, answer_data(response@)) {
            (Ok(sessions), Ok(data)) => listed_in(data) == Some(json::items(sessions@)),
            (Err(error), Ok(data)) => listed_in(data) is None && error@
                == "Session worker returned an invalid list response"@,
            (Err(error), Err(expected)) => error@ == expected,
            _ => false,
        },
{
    broadcast use json::array_view;

    let data = match response_data(response) {
        Ok(data) => data,
        Err(error) => return Err(error),
    };
    let listed: &Vec<Json> = match data.get("sessions") {
        Some(Json::Array(listed)) => listed,
        _ => return Err("Session worker returned an invalid list response".to_owned()),
    };
    let mut sessions: Vec<Json> = Vec::new();
    let ghost all = json::items(listed@);
    let mut i: usize = 0;
    assert(json::items(sessions@) =~= all.take(0));
    while i < listed.len()
        invariant
            i <= listed.len(),
            all == json::items(listed@),
            answer_data(response@) == Ok::<JsonV, Seq<char>>(data@),
            data@.get("sessions"@) == Some(JsonV::Arr(all)),
            json::items(sessions@) == all.take(i as int),
            forall|j: int| 0 <= j < i ==> is_listable(#[trigger] all[j]),
        decreases listed.len() - i,
    {
        let session = &listed[i];
        assert(all[i as int] == session@);
        if session.str_at("id").is_none() || session.str_at("sessionId").is_none() {
            assert(!is_listable(all[i as int]));
            return Err("Session worker returned an invalid list response".to_owned());
        }
        let ghost before = sessions@;
        sessions.push(session.clone());
        assert(json::items(sessions@) =~= json::items(before).push(session@));
        i += 1;
        assert(json::items(sessions@) =~= all.take(i as int));
    }
    assert(all.take(i as int) =~= all);
    Ok(sessions)
}

/// Why the sessions of a worker cannot be listed whose process is gone.
pub fn exited_error(descriptor: &DaemonWorkerDescriptor) -> (r: String)
    ensures
        r@ == "Session worker "@ + descriptor.worker_id@ + " exited; retry_worker is required"@,
{
    cat3("Session worker ", &descriptor.worker_id, " exited; retry_worker is required")
}

/// The first session of a list that has a text under a key.
pub open spec fn first_with(summaries: Seq<JsonV>, key: Seq<char>, value: Seq<char>) -> Option<JsonV>
    decreases summaries.len(),
{
    if summaries.len() == 0 {
        None
    } else if summaries[0].str_at(key) == Some(value) {
        Some(summaries[0])
    } else {
        first_with(summaries.drop_first(), key, value)
    }
}

/// The first session of a list that has a text under a key.
pub fn session_with(summaries: &Vec<Json>, key: &str, value: &str) -> (r: Option<Json>)
    ensures
        json::opt_json(r) == first_with(json::items(summaries@), key@, value@),
{
    let ghost all = json::items(summaries@);
    let mut i: usize = 0;
    assert(all.skip(0) =~= all);
    while i < summaries.len()
        invariant
            i <= summaries.len(),
            all == json::items(summaries@),
            first_with(all, key@, value@) == first_with(all.skip(i as int), key@, value@),
        decreases summaries.len() - i,
    {
        assert(all.skip(i as int)[0] == summaries@[i as int]@);
        assert(all.skip(i as int).drop_first() =~= all.skip(i + 1));
        if summaries[i].str_is(key, value) {
            return Some(summaries[i].clone());
        }
        i += 1;
    }
    None
}

/// The first session of a list that is active under an id.
pub open spec fn first_active(summaries: Seq<JsonV>, active: Seq<char>) -> Option<JsonV>
    decreases summaries.len(),
{
    if summaries.len() == 0 {
        None
    } else if active_of(summaries[0]) == Some(active) {
        Some(summaries[0])
    } else {
        first_active(summaries.drop_first(), active)
    }
}

/// The first session of a list that is active under an id.
pub fn active_session(summaries: &Vec<Json>, active: &str) -> (r: Option<Json>)
    ensures
        json::opt_json(r) == first_active(json::items(summaries@), active@),
{
    let ghost all = json::items(summaries@);
    let mut i: usize = 0;
    assert(all.skip(0) =~= all);
    while i < summaries.len()
        invariant
            i <= summaries.len(),
            all == json::items(summaries@),
            first_active(all, active@) == first_active(all.skip(i as int), active@),
        decreases summaries.len() - i,
    {
        assert(all.skip(i as int)[0] == summaries@[i as int]@);
        assert(all.skip(i as int).drop_first() =~= all.skip(i + 1));
        let hit: bool = match summary_active_id(&summaries[i]) {
            Some(id) => same(id, active),
            None => false,
        };
        if hit {
            return Some(summaries[i].clone());
        }
        i += 1;
    }
    None
}

impl Supervisor {
    /// Every client's subscriptions, every worker's stream and the pauses are sound.
    pub open spec fn wf(self) -> bool {
        &&& forall|i: int| 0 <= i < self.clients@.len() ==> (#[trigger] self.clients@[i]).subscriptions.wf()
        &&& forall|i: int| 0 <= i < self.workers@.len() ==> (#[trigger] self.workers@[i]).stream.wf()
        &&& self.pauses.wf()
    }

    /// A supervisor without clients and workers.
    pub fn new(socket_path: &str) -> (r: Self)
        ensures
            r.wf(),
            r.socket_path@ == socket_path@,
            r.clients@.len() == 0,
            r.workers@.len() == 0,
            r.pauses@ == Map::<Seq<char>, InputPause>::empty(),
            !r.stopped,
    {
        Supervisor {
            socket_path: socket_path.to_owned(),
            clients: Vec::new(),
            workers: Vec::new(),
            pauses: TextMap::new(),
            stopped: false,
        }
    }

    /// How many clients have subscribed to a session.
    pub fn attached_clients(&self, active: &str) -> (r: usize)
        requires
            self.wf(),
        ensures
            r == subscribers(self.clients@, active@),
    {
        let mut attached: usize = 0;
        let mut i: usize = 0;
        assert(self.clients@.take(0) =~= Seq::empty());
        while i < self.clients.len()
            invariant
                self.wf(),
                i <= self.clients.len(),
                attached <= i,
                attached == subscribers(self.clients@.take(i as int), active@),
            decreases self.clients.len() - i,
        {
            assert(self.clients@.take(i + 1).drop_last() =~= self.clients@.take(i as int));
            assert(self.clients@.take(i + 1).last() == self.clients@[i as int]);
            if self.clients[i].subscriptions.contains_key(active) {
                attached += 1;
            }
            i += 1;
        }
        assert(self.clients@.take(i as int) =~= self.clients@);
        attached
    }

    /// The summary of a session as clients see it.
    pub fn public_summary(&self, worker: usize, summary: &Json) -> (r: Json)
        requires
            self.wf(),
            worker < self.workers@.len(),
        ensures
            r@ == public_of(summary@, self.clients@, self.workers@[worker as int].descriptor),
    {
        broadcast use json::object_view;

        let active = match summary_active_id(summary) {
            Some(id) => id.to_owned(),
            None => String::new(),
        };
        assert(active@ =~= active_of(summary@).unwrap_or(Seq::empty()));
        match summary {
            Json::Object(members) => {
                let attached = self.attached_clients(&active);
                let descriptor = &self.workers[worker].descriptor;
                let mut shown = clone_members(members);
                set_member(&mut shown, "attachedClients", json::count(attached as u64));
                set_member(&mut shown, "workerState", Json::Str(descriptor.lifecycle.clone()));
                set_member(&mut shown, "workerPid", json::integer(descriptor.pid as i64));
                json::object(shown)
            },
            _ => summary.clone(),
        }
    }

    /// The session that a client asks for: where its worker stands, and the id
    /// under which it is active. There has to be exactly one.
    pub fn find(&self, identity: &str, requested: &str) -> (r: Result<(usize, String), String>)
        ensures
            ({
                let found = matches_of(self.workers@, identity@, requested@);
                match r {
                    Ok((worker, active)) => found == seq![(worker as int, active@)] && worker
                        < self.workers@.len() && shown_to(self.workers@[worker as int], identity@),
                    Err(error) => if found.len() == 0 {
                        error@ == "Unknown active session: "@ + requested@
                    } else {
                        found.len() > 1 && error@ == "Ambiguous active session: "@ + requested@
                    },
                }
            }),
    {
        let mut found: Vec<(usize, String)> = Vec::new();
        let mut i: usize = 0;
        assert(self.workers@.take(0) =~= Seq::empty());
        assert(found_views(found@) =~= matches_of(self.workers@.take(0), identity@, requested@));
        while i < self.workers.len()
            invariant
                i <= self.workers.len(),
                found_views(found@) == matches_of(
                    self.workers@.take(i as int),
                    identity@,
                    requested@,
                ),
            decreases self.workers.len() - i,
        {
            let worker = &self.workers[i];
            assert(self.workers@.take(i + 1).drop_last() =~= self.workers@.take(i as int));
            assert(self.workers@.take(i + 1).last() == *worker);
            if visible(worker, identity) {
                let ghost rest = found_views(found@);
                let mut j: usize = 0;
                assert(worker.summaries@.take(0) =~= Seq::empty());
                assert(rest + matches_in(i as int, worker.summaries@.take(0), requested@) =~= rest);
                while j < worker.summaries.len()
                    invariant
                        i < self.workers.len(),
                        *worker == self.workers@[i as int],
                        j <= worker.summaries.len(),
                        found_views(found@) == rest + matches_in(
                            i as int,
                            worker.summaries@.take(j as int),
                            requested@,
                        ),
                    decreases worker.summaries.len() - j,
                {
                    let summary = &worker.summaries[j];
                    let ghost next = worker.summaries@.take(j + 1);
                    assert(next.drop_last() =~= worker.summaries@.take(j as int));
                    assert(next.last() == *summary);
                    let active = match summary_active_id(summary) {
                        Some(id) => id.to_owned(),
                        None => String::new(),
                    };
                    assert(active@ =~= active_of(summary@).unwrap_or(Seq::empty()));
                    if same(&active, requested) || summary.str_is("sessionId", requested)
                        || summary.str_is("sessionFile", requested) {
                        let ghost before = found@;
                        let ghost shown = active@;
                        found.push((i, active));
                        assert(found_views(found@) =~= found_views(before).push((i as int, shown)));
                        assert(found_views(found@) =~= rest + matches_in(
                            i as int,
                            next,
                            requested@,
                        ));
                    }
                    j += 1;
                }
                assert(worker.summaries@.take(j as int) =~= worker.summaries@);
            }
            i += 1;
        }
        assert(self.workers@.take(i as int) =~= self.workers@);
        proof {
            sessions_are_found_only_where_they_are_shown(self.workers@, identity@, requested@);
            assert(found_views(found@).len() == found@.len());
        }
        if found.len() == 0 {
            return Err(cat2("Unknown active session: ", requested));
        }
        if found.len() > 1 {
            return Err(cat2("Ambiguous active session: ", requested));
        }
        let only = found.swap_remove(0);
        proof {
            let all = matches_of(self.workers@, identity@, requested@);
            assert(all =~= seq![(only.0 as int, only.1@)]);
            assert(all[0].0 == only.0 as int);
        }
        Ok(only)
    }

    /// The command with which the supervisor subscribes to a session of a worker.
    pub fn subscription_command(&self, active: &str) -> (r: Vec<(String, Json)>)
        requires
            self.wf(),
        ensures
            json::members(r@) == subscription_members(
                active@,
                dialogs_for(self.clients@, active@),
            ),
    {
        broadcast use json::array_view;

        let mut dialogs: bool = false;
        let mut i: usize = 0;
        while i < self.clients.len()
            invariant
                self.wf(),
                i <= self.clients.len(),
                dialogs == dialogs_for(self.clients@.take(i as int), active@),
            decreases self.clients.len() - i,
        {
            let client = &self.clients[i];
            let ghost seen = self.clients@.take(i as int);
            let ghost next = self.clients@.take(i + 1);
            assert(forall|j: int| 0 <= j < i ==> #[trigger] next[j] == seen[j]);
            assert(forall|j: int| 0 <= j < i ==> #[trigger] seen[j] == next[j]);
            assert(next[i as int] == *client);
            if client.supports_extension_ui && client.subscriptions.contains_key(active) {
                dialogs = true;
                assert(dialogs_for(next, active@));
            } else {
                proof {
                    if dialogs_for(next, active@) {
                        let j = choose|j: int|
                            0 <= j < next.len() && (#[trigger] next[j]).subscribed(active@)
                                && next[j].supports_extension_ui;
                        assert(j < i);
                        assert(seen[j].subscribed(active@));
                    }
                    if dialogs_for(seen, active@) {
                        let j = choose|j: int|
                            0 <= j < seen.len() && (#[trigger] seen[j]).subscribed(active@)
                                && seen[j].supports_extension_ui;
                        assert(next[j].subscribed(active@));
                    }
                }
            }
            i += 1;
        }
        assert(self.clients@.take(i as int) =~= self.clients@);
        let mut capabilities: Vec<Json> = Vec::new();
        capabilities.push(json::text("attach_snapshot"));
        capabilities.push(json::text("event_sequence"));
        if dialogs {
            capabilities.push(json::text("extension_ui"));
        }
        let ghost base = seq![JsonV::Str("attach_snapshot"@), JsonV::Str("event_sequence"@)];
        assert(json::items(capabilities@) =~= if dialogs {
            base.push(JsonV::Str("extension_ui"@))
        } else {
            base
        });
        let mut pairs = command("worker_subscribe");
        json::add_text(&mut pairs, "activeSessionId", active);
        json::add_member(&mut pairs, "capabilities", json::array(capabilities));
        json::add_member(&mut pairs, "supportsExtensionUi", Json::Bool(dialogs));
        assert(json::members(pairs@) =~= subscription_members(active@, dialogs));
        pairs
    }

    /// Only the client at `at` has changed.
    pub open spec fn same_but_client(self, before: Self, at: int) -> bool {
        &&& self.socket_path == before.socket_path
        &&& self.workers == before.workers
        &&& self.pauses == before.pauses
        &&& self.stopped == before.stopped
        &&& self.clients@.len() == before.clients@.len()
        &&& forall|i: int|
            0 <= i < before.clients@.len() && i != at ==> #[trigger] self.clients@[i]
                == before.clients@[i]
    }

    /// Begins to release pauses of a client: those that are to be released at their
    /// workers, each of which is forgotten once its worker has answered.
    pub fn begin_release(&mut self, at: usize, active: Option<&str>) -> (r: Vec<
        (String, InputPause),
    >)
        requires
            old(self).wf(),
            at < old(self).clients@.len(),
        ensures
            final(self).wf(),
            final(self).same_but_client(*old(self), at as int),
            final(self).clients@[at as int] == (PublicClient {
                pause_epoch: old(self).clients@[at as int].pause_epoch.wrapping_add(1),
                ..old(self).clients@[at as int]
            }),
            r@ == released_pauses(
                old(self).pauses.entries@,
                old(self).clients@[at as int].connection_id@,
                json::opt_str_view(active),
            ),
    {
        let epoch: u64 = self.clients[at].pause_epoch.wrapping_add(1);
        self.clients[at].pause_epoch = epoch;
        let connection = self.clients[at].connection_id.clone();
        let ghost wanted = json::opt_str_view(active);
        let ghost keep = |entry: (String, InputPause)| is_released(entry.1, connection@, wanted);
        let ghost all = self.pauses.entries@;
        let mut released: Vec<(String, InputPause)> = Vec::new();
        let mut i: usize = 0;
        proof {
            reveal(Seq::filter);
            assert(all.take(0) =~= Seq::empty());
        }
        while i < self.pauses.entries.len()
            invariant
                i <= self.pauses.entries.len(),
                wanted == json::opt_str_view(active),
                keep == (|entry: (String, InputPause)| is_released(entry.1, connection@, wanted)),
                all == self.pauses.entries@,
                released@ == all.take(i as int).filter(keep),
            decreases self.pauses.entries.len() - i,
        {
            proof {
                reveal(Seq::filter);
                assert(all.take(i + 1).drop_last() =~= all.take(i as int));
                assert(all.take(i + 1).last() == all[i as int]);
            }
            let entry = &self.pauses.entries[i];
            let meant: bool = match active {
                Some(active) => same(active, &entry.1.active) || same(active, &entry.1.requested),
                None => true,
            };
            if same(&entry.1.connection_id, &connection) && meant {
                released.push((entry.0.clone(), entry.1.clone()));
            }
            i += 1;
        }
        assert(all.take(i as int) =~= all);
        released
    }

    /// A pause was released at its worker: it is forgotten.
    pub fn pause_released(&mut self, id: &str)
        requires
            old(self).wf(),
        ensures
            final(self).wf(),
            final(self).socket_path == old(self).socket_path,
            final(self).clients == old(self).clients,
            final(self).workers == old(self).workers,
            final(self).stopped == old(self).stopped,
            final(self).pauses@ == old(self).pauses@.remove(id@),
    {
        self.pauses.remove(id);
    }
}


/// What a frame of a worker holds for the clients.
#[derive(Debug, PartialEq)]
pub enum FramePayload {
    /// Nothing.
    Ignored,
    /// A compact update of an assistant message.
    Delta(CompactAssistantDelta),
    /// A document.
    Plain(Json),
}

/// What a frame of a worker holds for the clients.
pub enum PayloadV {
    Ignored,
    Delta(compact_session_stream::DeltaV),
    Plain(JsonV),
}

impl View for FramePayload {
    type V = PayloadV;

    open spec fn view(&self) -> PayloadV {
        match self {
            FramePayload::Ignored => PayloadV::Ignored,
            FramePayload::Delta(delta) => PayloadV::Delta(delta@),
            FramePayload::Plain(value) => PayloadV::Plain(value@),
        }
    }
}

/// The frame is between the worker and the supervisor alone.
pub open spec fn is_internal(kind: Option<Seq<char>>) -> bool {
    kind == Some("daemon_hello"@) || kind == Some("response"@) || kind == Some("roster_delta"@)
        || kind == Some("roster_heartbeat"@)
}

/// What a document of a worker holds for the clients.
pub open spec fn payload_value(header: JsonV, value: JsonV) -> PayloadV {
    if header.str_at("payloadEncoding"@) == Some("assistant-delta"@) {
        match compact_session_stream::delta_of(value) {
            Some(delta) => PayloadV::Delta(delta),
            None => PayloadV::Ignored,
        }
    } else {
        PayloadV::Plain(value)
    }
}

/// What a frame of a worker holds for the clients.
pub open spec fn payload_of(header: JsonV, payload: Seq<u8>) -> PayloadV {
    if is_internal(header.str_at("outboundType"@)) {
        PayloadV::Ignored
    } else {
        match json::parsed_json(payload) {
            Ok(value) => payload_value(header, value),
            Err(_) => PayloadV::Ignored,
        }
    }
}

/// Reads what a document of a worker holds for the clients.
pub fn read_payload(header: &Json, value: Json) -> (r: FramePayload)
    ensures
        r@ == payload_value(header@, value@),
{
    if header.str_is("payloadEncoding", "assistant-delta") {
        match CompactAssistantDelta::from_value(&value) {
            Some(delta) => FramePayload::Delta(delta),
            None => FramePayload::Ignored,
        }
    } else {
        FramePayload::Plain(value)
    }
}

/// Reads what a frame of a worker holds for the clients.
pub fn frame_payload(frame: &PrivateFrame) -> (r: FramePayload)
    ensures
        r@ == payload_of(frame.header@, frame.payload@),
{
    if frame.header.str_is("outboundType", "daemon_hello") || frame.header.str_is(
        "outboundType",
        "response",
    ) || frame.header.str_is("outboundType", "roster_delta") || frame.header.str_is(
        "outboundType",
        "roster_heartbeat",
    ) {
        return FramePayload::Ignored;
    }
    match parse_json(&frame.payload) {
        Ok(value) => read_payload(&frame.header, value),
        Err(_) => FramePayload::Ignored,
    }
}

/// The document with the state in it as clients see it.
pub open spec fn with_public_state(
    value: JsonV,
    clients: Seq<PublicClient>,
    descriptor: DaemonWorkerDescriptor,
) -> JsonV {
    match value.get("state"@) {
        Some(state) if state.get("sessionId"@) is Some => JsonV::Obj(
            json::put(value->Obj_0, "state"@, public_of(state, clients, descriptor)),
        ),
        _ => value,
    }
}

/// The session that a document is about.
pub open spec fn addressed(header: JsonV, value: JsonV) -> Option<Seq<char>> {
    match header.str_at("activeSessionId"@) {
        Some(id) => Some(id),
        None => value.str_at("activeSessionId"@),
    }
}

/// The client may see the worker and has subscribed to the session.
pub open spec fn receives(client: PublicClient, worker: Worker, active: Option<Seq<char>>) -> bool {
    shown_to(worker, client.name()) && (active matches Some(id) && client.subscribed(id))
}

/// Where the clients stand that receive a document.
pub open spec fn recipients(
    clients: Seq<PublicClient>,
    worker: Worker,
    active: Option<Seq<char>>,
) -> Seq<int>
    decreases clients.len(),
{
    if clients.len() == 0 {
        Seq::empty()
    } else {
        let rest = recipients(clients.drop_last(), worker, active);
        if receives(clients.last(), worker, active) {
            rest.push(clients.len() - 1)
        } else {
            rest
        }
    }
}

/// Positions as numbers.
pub open spec fn positions(at: Seq<usize>) -> Seq<int> {
    Seq::new(at.len(), |i: int| at[i] as int)
}

/// What a worker's stream knows after a document went by.
pub open spec fn observed(
    before: CompactAssistantStreamReconstructor,
    after: CompactAssistantStreamReconstructor,
    value: JsonV,
) -> bool {
    match compact_session_stream::observation(value) {
        compact_session_stream::Observation::Nothing => after == before,
        compact_session_stream::Observation::Clear(id) => after.messages()
            == before.messages().remove(id) && after.fragments() == before.fragments().remove_keys(
            compact_session_stream::session_keys(id),
        ),
        compact_session_stream::Observation::Begin(id, message) => after.messages()
            == before.messages().insert(id, message) && after.tool_call_json
            == before.tool_call_json,
    }
}

/// What a worker's stream knows after a compact update went by.
pub open spec fn rebuilt(
    before: CompactAssistantStreamReconstructor,
    after: CompactAssistantStreamReconstructor,
    delta: compact_session_stream::DeltaV,
    streamed: JsonV,
) -> bool {
    &&& after.messages() == match compact_session_stream::rebuilt_message(
        before.partial_messages@,
        delta,
        streamed,
    ) {
        Some(message) => before.messages().insert(delta.active_session_id, message),
        None => before.messages(),
    }
    &&& after.fragments() == if before.messages().contains_key(delta.active_session_id) {
        compact_session_stream::fragments_after(before.fragments(), delta)
    } else {
        before.fragments()
    }
}

/// The document that a payload stands for; nothing where a compact update has no
/// message to be laid on.
pub open spec fn full_document(
    payload: PayloadV,
    stream: CompactAssistantStreamReconstructor,
    streamed: JsonV,
) -> Option<JsonV> {
    match payload {
        PayloadV::Ignored => None,
        PayloadV::Plain(value) => Some(value),
        PayloadV::Delta(delta) => match compact_session_stream::rebuilt_message(
            stream.partial_messages@,
            delta,
            streamed,
        ) {
            Some(message) => Some(compact_session_stream::rebuilt_value(delta, message)),
            None => None,
        },
    }
}

/// A document that goes to clients.
#[derive(Debug, PartialEq)]
pub struct Forwarded {
    pub value: Json,
    /// Where the clients stand that receive it.
    pub recipients: Vec<usize>,
}

impl Supervisor {
    /// Only the stream of the worker at `at` has changed.
    pub open spec fn same_but_stream(self, before: Self, at: int) -> bool {
        &&& self.socket_path == before.socket_path
        &&& self.clients == before.clients
        &&& self.pauses == before.pauses
        &&& self.stopped == before.stopped
        &&& self.workers@.len() == before.workers@.len()
        &&& forall|i: int|
            0 <= i < before.workers@.len() && i != at ==> #[trigger] self.workers@[i]
                == before.workers@[i]
        &&& self.workers@[at] == (Worker { stream: self.workers@[at].stream, ..before.workers@[at] })
    }

    /// Where the clients stand that receive a document of a worker.
    pub fn receiving_clients(&self, worker: usize, active: Option<&str>) -> (r: Vec<usize>)
        requires
            self.wf(),
            worker < self.workers@.len(),
        ensures
            positions(r@) == recipients(
                self.clients@,
                self.workers@[worker as int],
                json::opt_str_view(active),
            ),
    {
        let mut found: Vec<usize> = Vec::new();
        let ghost owner = self.workers@[worker as int];
        let ghost wanted = json::opt_str_view(active);
        let mut i: usize = 0;
        assert(self.clients@.take(0) =~= Seq::empty());
        assert(positions(found@) =~= Seq::empty());
        while i < self.clients.len()
            invariant
                self.wf(),
                worker < self.workers@.len(),
                owner == self.workers@[worker as int],
                wanted == json::opt_str_view(active),
                i <= self.clients.len(),
                positions(found@) == recipients(self.clients@.take(i as int), owner, wanted),
            decreases self.clients.len() - i,
        {
            assert(self.clients@.take(i + 1).drop_last() =~= self.clients@.take(i as int));
            assert(self.clients@.take(i + 1).last() == self.clients@[i as int]);
            let identity = self.clients[i].identity();
            let subscribed: bool = match active {
                Some(id) => self.clients[i].subscriptions.contains_key(id),
                None => false,
            };
            if visible(&self.workers[worker], &identity) && subscribed {
                let ghost before = found@;
                found.push(i);
                assert(positions(found@) =~= positions(before).push(i as int));
            }
            i += 1;
        }
        assert(self.clients@.take(i as int) =~= self.clients@);
        found
    }

    fn with_state(&self, worker: usize, value: Json) -> (r: Json)
        requires
            self.wf(),
            worker < self.workers@.len(),
        ensures
            r@ == with_public_state(
                value@,
                self.clients@,
                self.workers@[worker as int].descriptor,
            ),
    {
        broadcast use json::object_view;

        let shown = match value.get("state") {
            Some(state) => if state.get("sessionId").is_some() {
                self.public_summary(worker, state)
            } else {
                return value;
            },
            None => return value,
        };
        match value {
            Json::Object(members) => {
                let mut members = members;
                set_member(&mut members, "state", shown);
                json::object(members)
            },
            _ => value,
        }
    }

    /// Hands on what a frame of a worker holds, with the routing header of the
    /// frame. `streamed` is what the fragments of a tool call's arguments come to,
    /// where the stream needs them.
    pub fn forward_payload(
        &mut self,
        worker: usize,
        header: &Json,
        payload: FramePayload,
        streamed: &Json,
    ) -> (r: Option<Forwarded>)
        requires
            old(self).wf(),
            worker < old(self).workers@.len(),
            payload@ matches PayloadV::Delta(delta) ==> compact_session_stream::addressable(
                delta.event,
            ),
        ensures
            final(self).wf(),
            final(self).same_but_stream(*old(self), worker as int),
            ({
                let before = old(self).workers@[worker as int];
                let after = final(self).workers@[worker as int];
                &&& match payload@ {
                    PayloadV::Ignored => after == before,
                    PayloadV::Plain(value) => observed(before.stream, after.stream, value),
                    PayloadV::Delta(delta) => rebuilt(
                        before.stream,
                        after.stream,
                        delta,
                        streamed@,
                    ),
                }
                &&& match (r, full_document(payload@, before.stream, streamed@)) {
                    (Some(forwarded), Some(value)) => {
                        let shown = with_public_state(
                            value,
                            old(self).clients@,
                            before.descriptor,
                        );
                        &&& forwarded.value@ == shown
                        &&& positions(forwarded.recipients@) == recipients(
                            old(self).clients@,
                            before,
                            addressed(header@, shown),
                        )
                    },
                    (None, None) => true,
                    _ => false,
                }
            }),
    {
        let value = match payload {
            FramePayload::Ignored => return None,
            FramePayload::Plain(value) => {
                self.workers[worker].stream.observe(&value);
                value
            },
            FramePayload::Delta(delta) => match self.workers[worker].stream.reconstruct(
                &delta,
                streamed,
            ) {
                Some(value) => value,
                None => return None,
            },
        };
        let shown = self.with_state(worker, value);
        let active = match header.str_at("activeSessionId") {
            Some(id) => Some(id),
            None => shown.str_at("activeSessionId"),
        };
        let recipients = self.receiving_clients(worker, active);
        proof {
            same_owner_same_recipients(
                self.clients@,
                self.workers@[worker as int],
                old(self).workers@[worker as int],
                addressed(header@, shown@),
            );
        }
        Some(Forwarded { value: shown, recipients })
    }
}

proof fn same_owner_same_recipients(
    clients: Seq<PublicClient>,
    a: Worker,
    b: Worker,
    active: Option<Seq<char>>,
)
    requires
        a.descriptor == b.descriptor,
    ensures
        recipients(clients, a, active) == recipients(clients, b, active),
    decreases clients.len(),
{
    if clients.len() > 0 {
        same_owner_same_recipients(clients.drop_last(), a, b, active);
    }
}

/// A document of a worker goes only to clients that may see the worker and have
/// subscribed to the session that it is about.
pub proof fn documents_go_to_subscribers(
    clients: Seq<PublicClient>,
    worker: Worker,
    active: Option<Seq<char>>,
)
    ensures
        forall|i: int|
            #![trigger recipients(clients, worker, active)[i]]
            0 <= i < recipients(clients, worker, active).len() ==> {
                let at = recipients(clients, worker, active)[i];
                0 <= at < clients.len() && receives(clients[at], worker, active)
            },
        forall|at: int|
            0 <= at < clients.len() && receives(#[trigger] clients[at], worker, active)
                ==> recipients(clients, worker, active).contains(at),
    decreases clients.len(),
{
    if clients.len() > 0 {
        let shorter = clients.drop_last();
        let rest = recipients(shorter, worker, active);
        let all = recipients(clients, worker, active);
        documents_go_to_subscribers(shorter, worker, active);
        assert forall|i: int| #![trigger all[i]] 0 <= i < all.len() implies {
            let at = all[i];
            0 <= at < clients.len() && receives(clients[at], worker, active)
        } by {
            if i < rest.len() {
                assert(all[i] == rest[i]);
                assert(shorter[rest[i]] == clients[rest[i]]);
            }
        }
        assert forall|at: int|
            0 <= at < clients.len() && receives(#[trigger] clients[at], worker, active) implies all.contains(
            at,
        ) by {
            if at < shorter.len() {
                assert(shorter[at] == clients[at]);
                assert(rest.contains(at));
                let j = choose|j: int| 0 <= j < rest.len() && rest[j] == at;
                assert(all[j] == at);
            } else {
                assert(all[all.len() - 1] == at);
            }
        }
    }
}

/// Whether a message can have the block that an event puts into it.
fn is_addressable(delta: &CompactAssistantDelta) -> (r: bool)
    ensures
        r == compact_session_stream::addressable(delta@.event),
{
    match delta.placed_block() {
        Some(index) => index < usize::MAX,
        None => true,
    }
}

impl Supervisor {
    /// Hands on a frame of a worker. A compact update that puts a block where no
    /// message can have one is dropped.
    pub fn forward_frame(&mut self, worker: usize, frame: &PrivateFrame, streamed: &Json) -> (r:
        Option<Forwarded>)
        requires
            old(self).wf(),
            worker < old(self).workers@.len(),
        ensures
            final(self).wf(),
            final(self).same_but_stream(*old(self), worker as int),
            ({
                let before = old(self).workers@[worker as int];
                let payload = payload_of(frame.header@, frame.payload@);
                let dropped = payload matches PayloadV::Delta(delta)
                    && !compact_session_stream::addressable(delta.event);
                let after = final(self).workers@[worker as int];
                &&& match payload {
                    PayloadV::Ignored => after == before,
                    PayloadV::Plain(value) => observed(before.stream, after.stream, value),
                    PayloadV::Delta(delta) => if dropped {
                        r is None && *final(self) == *old(self)
                    } else {
                        rebuilt(before.stream, after.stream, delta, streamed@)
                    },
                }
                &&& match (r, full_document(payload, before.stream, streamed@)) {
                    (Some(forwarded), Some(value)) => {
                        let shown = with_public_state(
                            value,
                            old(self).clients@,
                            before.descriptor,
                        );
                        &&& !dropped
                        &&& forwarded.value@ == shown
                        &&& positions(forwarded.recipients@) == recipients(
                            old(self).clients@,
                            before,
                            addressed(frame.header@, shown),
                        )
                    },
                    (None, None) => true,
                    (None, Some(_)) => dropped,
                    _ => false,
                }
            }),
    {
        let payload = frame_payload(frame);
        if let FramePayload::Delta(delta) = &payload {
            if !is_addressable(delta) {
                return None;
            }
        }
        self.forward_payload(worker, &frame.header, payload, streamed)
    }
}

/// The command that a document carries, with the id of the envelope that it came
/// in, and who sent the envelope.
pub open spec fn command_of(value: JsonV, is_envelope: bool) -> Result<
    (Seq<(Seq<char>, JsonV)>, Option<Seq<char>>),
    Seq<char>,
> {
    match value {
        JsonV::Obj(members) => if value.str_at("type"@) != Some("command"@) {
            Ok((members, None))
        } else if !is_envelope {
            Err("Invalid daemon command envelope"@)
        } else {
            match (value.get("command"@), value.get("id"@)) {
                (Some(JsonV::Obj(command)), Some(id)) => Ok(
                    (
                        json::put(command, "id"@, id),
                        Some(value.str_at("clientId"@).unwrap_or(Seq::empty())),
                    ),
                ),
                (Some(JsonV::Obj(_)), None) => Err("Daemon command requires id"@),
                _ => Err("Invalid daemon command envelope"@),
            }
        },
        _ => Err("Invalid daemon command"@),
    }
}

/// A command, and who sent the envelope that it came in.
#[derive(Debug, PartialEq)]
pub struct ParsedCommand {
    pub body: Vec<(String, Json)>,
    pub client: Option<String>,
}

/// Reads the command that a document carries. `is_envelope` says that a document
/// that calls itself a command is a sound envelope.
pub fn read_command(value: Json, is_envelope: bool) -> (r: Result<ParsedCommand, String>)
    ensures
        match (r, command_of(value@, is_envelope)) {
            (Ok(command), Ok(expected)) => json::members(command.body@) == expected.0
                && json::opt_view(command.client) == expected.1,
            (Err(error), Err(expected)) => error@ == expected,
            _ => false,
        },
{
    broadcast use json::object_view;

    if !value.str_is("type", "command") {
        return match value {
            Json::Object(members) => Ok(ParsedCommand { body: members, client: None }),
            _ => Err("Invalid daemon command".to_owned()),
        };
    }
    if !is_envelope {
        return Err("Invalid daemon command envelope".to_owned());
    }
    let members: &Vec<(String, Json)> = match value.get("command") {
        Some(Json::Object(members)) => members,
        _ => return Err("Invalid daemon command envelope".to_owned()),
    };
    let id = match value.get("id") {
        Some(id) => id.clone(),
        None => return Err("Daemon command requires id".to_owned()),
    };
    let mut body = clone_members(members);
    set_member(&mut body, "id", id);
    let client = match value.str_at("clientId") {
        Some(client) => client.to_owned(),
        None => String::new(),
    };
    assert(client@ =~= value@.str_at("clientId"@).unwrap_or(Seq::empty()));
    Ok(ParsedCommand { body, client: Some(client) })
}

/// Reads the command that a line carries. `is_envelope` says that a document that
/// calls itself a command is a sound envelope.
pub fn parse_command(line: &[u8], is_envelope: bool) -> (r: Result<ParsedCommand, String>)
    ensures
        match json::parsed_json(line@) {
            Ok(value) => match (r, command_of(value, is_envelope)) {
                (Ok(command), Ok(expected)) => json::members(command.body@) == expected.0
                    && json::opt_view(command.client) == expected.1,
                (Err(error), Err(expected)) => error@ == expected,
                _ => false,
            },
            Err(expected) => r matches Err(error) && error@ == expected,
        },
{
    match parse_json(line) {
        Ok(value) => read_command(value, is_envelope),
        Err(error) => Err(error),
    }
}

/// A command that is sent in an envelope arrives as it was sent, under the id of
/// the envelope and with the name of its sender.
pub proof fn enveloped_commands_arrive(
    id: Seq<char>,
    client: Seq<char>,
    protocol: JsonV,
    command: Seq<(Seq<char>, JsonV)>,
)
    ensures
        command_of(
            JsonV::Obj(
                seq![
                    ("type"@, JsonV::Str("command"@)),
                    ("id"@, JsonV::Str(id)),
                    ("clientId"@, JsonV::Str(client)),
                    ("protocol"@, protocol),
                    ("command"@, JsonV::Obj(command)),
                ],
            ),
            true,
        ) == Ok::<(Seq<(Seq<char>, JsonV)>, Option<Seq<char>>), Seq<char>>(
            (json::put(command, "id"@, JsonV::Str(id)), Some(client)),
        ),
{
    broadcast use {json::lookup_push, json::lookup_empty};

    let e = Seq::<(Seq<char>, JsonV)>::empty();
    let members = e.push(("type"@, JsonV::Str("command"@))).push(("id"@, JsonV::Str(id))).push(
        ("clientId"@, JsonV::Str(client)),
    ).push(("protocol"@, protocol)).push(("command"@, JsonV::Obj(command)));
    reveal_strlit("type");
    reveal_strlit("id");
    reveal_strlit("clientId");
    reveal_strlit("protocol");
    reveal_strlit("command");
    assert("type"@.len() == 4 && "id"@.len() == 2 && "clientId"@.len() == 8 && "protocol"@.len()
        == 8 && "command"@.len() == 7);
    assert("clientId"@[0] == 'c' && "protocol"@[0] == 'p');
    assert(seq![
        ("type"@, JsonV::Str("command"@)),
        ("id"@, JsonV::Str(id)),
        ("clientId"@, JsonV::Str(client)),
        ("protocol"@, protocol),
        ("command"@, JsonV::Obj(command)),
    ] =~= members);
}

/// What has come of the bytes of a connection: the lines that are complete, the
/// bytes of the line that is not, and whether a line grew too long.
pub struct LinesV {
    pub lines: Seq<Seq<u8>>,
    pub pending: Seq<u8>,
    pub overflowed: bool,
}

/// What comes of one more byte. Empty lines are passed over; after a line grew too
/// long nothing more is taken.
pub open spec fn take_byte(v: LinesV, byte: u8, limit: nat) -> LinesV {
    if v.overflowed {
        v
    } else if byte == 10 {
        if v.pending.len() == 0 {
            v
        } else {
            LinesV { lines: v.lines.push(v.pending), pending: Seq::empty(), overflowed: false }
        }
    } else {
        LinesV {
            lines: v.lines,
            pending: v.pending.push(byte),
            overflowed: v.pending.len() + 1 > limit,
        }
    }
}

/// What comes of more bytes.
pub open spec fn take_bytes(v: LinesV, bytes: Seq<u8>, limit: nat) -> LinesV
    decreases bytes.len(),
{
    if bytes.len() == 0 {
        v
    } else {
        take_byte(take_bytes(v, bytes.drop_last(), limit), bytes.last(), limit)
    }
}

/// Two pieces of a connection's bytes come to the same as both at once: it does
/// not matter how the bytes arrive.
pub proof fn pieces_do_not_matter(v: LinesV, a: Seq<u8>, b: Seq<u8>, limit: nat)
    ensures
        take_bytes(take_bytes(v, a, limit), b, limit) == take_bytes(v, a + b, limit),
    decreases b.len(),
{
    if b.len() == 0 {
        assert(a + b =~= a);
    } else {
        pieces_do_not_matter(v, a, b.drop_last(), limit);
        assert((a + b).drop_last() =~= a + b.drop_last());
    }
}

/// Lines as bytes.
pub open spec fn line_bytes(lines: Seq<Vec<u8>>) -> Seq<Seq<u8>> {
    Seq::new(lines.len(), |i: int| lines[i]@)
}

/// Collects the lines of a connection.
#[derive(Debug, PartialEq)]
pub struct LineAssembler {
    pub pending: Vec<u8>,
    /// A line grew too long: the connection is to be closed.
    pub overflowed: bool,
}

impl LineAssembler {
    pub fn new() -> (r: Self)
        ensures
            r.pending@.len() == 0,
            !r.overflowed,
    {
        LineAssembler { pending: Vec::new(), overflowed: false }
    }

    /// Takes more bytes of the connection and hands out the lines that are complete.
    /// A line may have `limit` bytes.
    pub fn push(&mut self, bytes: &[u8], limit: usize) -> (r: Vec<Vec<u8>>)
        ensures
            ({
                let before = LinesV {
                    lines: Seq::empty(),
                    pending: old(self).pending@,
                    overflowed: old(self).overflowed,
                };
                take_bytes(before, bytes@, limit as nat) == (LinesV {
                    lines: line_bytes(r@),
                    pending: final(self).pending@,
                    overflowed: final(self).overflowed,
                })
            }),
    {
        let ghost before = LinesV {
            lines: Seq::empty(),
            pending: self.pending@,
            overflowed: self.overflowed,
        };
        let mut lines: Vec<Vec<u8>> = Vec::new();
        let mut i: usize = 0;
        assert(line_bytes(lines@) =~= Seq::empty());
        assert(bytes@.take(0) =~= Seq::empty());
        while i < bytes.len()
            invariant
                i <= bytes.len(),
                take_bytes(before, bytes@.take(i as int), limit as nat) == (LinesV {
                    lines: line_bytes(lines@),
                    pending: self.pending@,
                    overflowed: self.overflowed,
                }),
            decreases bytes.len() - i,
        {
            assert(bytes@.take(i + 1).drop_last() =~= bytes@.take(i as int));
            assert(bytes@.take(i + 1).last() == bytes@[i as int]);
            let byte: u8 = bytes[i];
            if !self.overflowed {
                if byte == 10 {
                    if self.pending.len() > 0 {
                        let mut line: Vec<u8> = Vec::new();
                        std::mem::swap(&mut line, &mut self.pending);
                        let ghost shown = line@;
                        let ghost earlier = lines@;
                        lines.push(line);
                        assert(line_bytes(lines@) =~= line_bytes(earlier).push(shown));
                        assert(self.pending@ =~= Seq::empty());
                    }
                } else {
                    self.pending.push(byte);
                    if self.pending.len() > limit {
                        self.overflowed = true;
                    }
                }
            }
            i += 1;
        }
        assert(bytes@.take(i as int) =~= bytes@);
        lines
    }
}

/// A command as it is taken from a line.
#[derive(Debug, PartialEq)]
pub struct LineStart {
    pub body: Vec<(String, Json)>,
    pub id: Option<String>,
    pub kind: String,
    /// The client and the id under which the command is remembered, where it is.
    pub journal: Option<(String, String)>,
}

/// Whom a command is remembered for: a command that came in an envelope, changes
/// something and has an id.
pub open spec fn remembered_for(
    body: JsonV,
    sender: Option<Seq<char>>,
    name: Seq<char>,
    mutating: bool,
) -> Option<(Seq<char>, Seq<char>)> {
    let kind = body.str_at("type"@).unwrap_or("dispatch"@);
    match (sender, body.str_at("id"@)) {
        (Some(sender), Some(id)) if mutating && kind != "ack_result"@ => Some(
            (
                if sender.len() == 0 {
                    name
                } else {
                    sender
                },
                id,
            ),
        ),
        _ => None,
    }
}

/// Every command that changes something is remembered, of whatever type it is: where it
/// came in an envelope with an id, under that id and its sender's name, or under the
/// client's own where the sender has none. Only acknowledgements are not, for they end
/// what is remembered; and so is nothing that came bare, has no id or changes nothing.
pub proof fn mutations_are_remembered(
    body: JsonV,
    sender: Option<Seq<char>>,
    name: Seq<char>,
    mutating: bool,
)
    ensures
        remembered_for(body, sender, name, mutating) is Some <==> sender is Some && mutating
            && body.str_at("id"@) is Some && body.str_at("type"@) != Some("ack_result"@),
        remembered_for(body, sender, name, mutating) matches Some((client, id)) ==> {
            &&& body.str_at("id"@) == Some(id)
            &&& client == sender->0 || (sender->0.len() == 0 && client == name)
            &&& sender->0.len() > 0 ==> client == sender->0
        },
{
    reveal_strlit("dispatch");
    reveal_strlit("ack_result");
    assert("dispatch"@.len() != "ack_result"@.len());
}

/// Two commands of one client are remembered under one name if and only if they have
/// one id, whatever they are.
pub proof fn resent_commands_are_recognized(
    first: JsonV,
    second: JsonV,
    sender: Seq<char>,
    name: Seq<char>,
)
    requires
        remembered_for(first, Some(sender), name, true) is Some,
        remembered_for(second, Some(sender), name, true) is Some,
    ensures
        remembered_for(first, Some(sender), name, true) == remembered_for(
            second,
            Some(sender),
            name,
            true,
        ) <==> first.str_at("id"@) == second.str_at("id"@),
{
}

impl PublicClient {
    /// Takes a command from a line of the client: from an envelope with a sender's
    /// name the client gets that name. `mutating` says that commands of the type
    /// change something.
    pub fn start_line(&mut self, command: ParsedCommand, mutating: bool) -> (r: LineStart)
        ensures
            ({
                let value = JsonV::Obj(json::members(command.body@));
                &&& json::members(r.body@) == json::members(command.body@)
                &&& json::opt_view(r.id) == value.str_at("id"@)
                &&& r.kind@ == value.str_at("type"@).unwrap_or("dispatch"@)
                &&& match (
                    r.journal,
                    remembered_for(
                        value,
                        json::opt_view(command.client),
                        final(self).name(),
                        mutating,
                    ),
                ) {
                    (Some((client, id)), Some(expected)) => (client@, id@) == expected,
                    (None, None) => true,
                    _ => false,
                }
            }),
            command.client is Some && mutating && JsonV::Obj(
                json::members(command.body@),
            ).str_at("id"@) is Some && JsonV::Obj(json::members(command.body@)).str_at("type"@)
                != Some("ack_result"@) ==> {
                &&& r.journal matches Some((client, id)) && {
                    &&& JsonV::Obj(json::members(command.body@)).str_at("id"@) == Some(id@)
                    &&& command.client->0@.len() > 0 ==> client@ == command.client->0@
                    &&& command.client->0@.len() == 0 ==> client@ == old(self).name()
                }
            },
            r.journal is Some ==> {
                &&& command.client is Some
                &&& mutating
                &&& JsonV::Obj(json::members(command.body@)).str_at("type"@) != Some(
                    "ack_result"@,
                )
            },
            *final(self) == (PublicClient { protocol_id: final(self).protocol_id, ..*old(self) }),
            match command.client {
                Some(client) if client@.len() > 0 => json::opt_view(final(self).protocol_id)
                    == Some(client@),
                _ => final(self).protocol_id == old(self).protocol_id,
            },
    {
        broadcast use json::object_view;

        proof {
            reveal_strlit("dispatch");
            reveal_strlit("ack_result");
            assert("dispatch"@.len() != "ack_result"@.len());
        }
        let sender = command.client;
        let body = clone_members(&command.body);
        let value = json::object(command.body);
        let id = owned(value.str_at("id"));
        let kind = match value.str_at("type") {
            Some(kind) => kind.to_owned(),
            None => "dispatch".to_owned(),
        };
        if let Some(client) = &sender {
            if client.as_str().unicode_len() > 0 {
                self.protocol_id = Some(client.clone());
            }
        }
        let journal = match (&sender, &id) {
            (Some(client), Some(id)) => if mutating && !same(&kind, "ack_result") {
                let name = if client.as_str().unicode_len() == 0 {
                    self.identity()
                } else {
                    client.clone()
                };
                Some((name, id.clone()))
            } else {
                None
            },
            _ => None,
        };
        LineStart { body, id, kind, journal }
    }
}

/// The answer to a command whose earlier result is not known.
pub open spec fn uncertain_value(kind: Seq<char>, client: Seq<char>, id: Seq<char>) -> JsonV {
    JsonV::Obj(
        seq![
            ("type"@, JsonV::Str("response"@)),
            ("command"@, JsonV::Str(kind)),
            ("id"@, JsonV::Str(id)),
            ("success"@, JsonV::Bool(false)),
            (
                "error"@,
                JsonV::Str("The previous command result is uncertain and was not replayed"@),
            ),
            (
                "errorInfo"@,
                JsonV::Obj(
                    seq![
                        ("code"@, JsonV::Str("command_result_uncertain"@)),
                        ("clientId"@, JsonV::Str(client)),
                        ("commandId"@, JsonV::Str(id)),
                    ],
                ),
            ),
        ],
    )
}

/// The answer to a command that is not run: its earlier result where it is known,
/// that the result is uncertain where it is not, and why its receipt could not be
/// written. A new command is to be run.
pub fn replayed_answer(
    begun: &Result<CommandJournalBeginResult, String>,
    client: &str,
    id: &str,
    kind: &str,
) -> (r: Option<Json>)
    ensures
        match begun {
            Ok(CommandJournalBeginResult::New) => r is None,
            Ok(CommandJournalBeginResult::Complete(response)) => r matches Some(answer)
                && answer@ == protocol::response_value(response@),
            Ok(CommandJournalBeginResult::Pending) => r matches Some(answer) && answer@
                == uncertain_value(kind@, client@, id@),
            Err(error) => r matches Some(answer) && answer@ == protocol::response_value(
                ResponseV {
                    id: Some(id@),
                    command: kind@,
                    success: false,
                    data: None,
                    error: Some(error@),
                    error_info: None,
                },
            ),
        },
{
    match begun {
        Ok(CommandJournalBeginResult::New) => None,
        Ok(CommandJournalBeginResult::Complete(response)) => Some(response.to_value()),
        Err(error) => Some(DaemonResponse::failure(Some(id), kind, error, None).to_value()),
        Ok(CommandJournalBeginResult::Pending) => {
            let mut info = json::no_members();
            json::add_text(&mut info, "code", "command_result_uncertain");
            json::add_text(&mut info, "clientId", client);
            json::add_text(&mut info, "commandId", id);
            assert(json::members(info@) =~= seq![
                ("code"@, JsonV::Str("command_result_uncertain"@)),
                ("clientId"@, JsonV::Str(client@)),
                ("commandId"@, JsonV::Str(id@)),
            ]);
            let mut pairs = json::no_members();
            json::add_text(&mut pairs, "type", "response");
            json::add_text(&mut pairs, "command", kind);
            json::add_text(&mut pairs, "id", id);
            json::add_member(&mut pairs, "success", Json::Bool(false));
            json::add_text(
                &mut pairs,
                "error",
                "The previous command result is uncertain and was not replayed",
            );
            json::add_member(&mut pairs, "errorInfo", json::object(info));
            let r = json::object(pairs);
            assert(r@->Obj_0 =~= uncertain_value(kind@, client@, id@)->Obj_0);
            Some(r)
        },
    }
}

/// The answer to a command after it was run.
pub fn line_answer(
    dispatched: Result<Option<DaemonResponse>, String>,
    id: Option<&str>,
    kind: &str,
) -> (r: Option<DaemonResponse>)
    ensures
        match dispatched {
            Ok(answer) => r == answer,
            Err(error) => r matches Some(answer) && answer@ == (ResponseV {
                id: json::opt_str_view(id),
                command: kind@,
                success: false,
                data: None,
                error: Some(error@),
                error_info: None,
            }),
        },
{
    match dispatched {
        Ok(answer) => answer,
        Err(error) => Some(DaemonResponse::failure(id, kind, &error, None)),
    }
}

/// What the client is told: the answer, or why it could not be remembered.
pub fn durable_answer(
    answer: DaemonResponse,
    remembered: Result<(), String>,
    id: &str,
    kind: &str,
) -> (r: DaemonResponse)
    ensures
        match remembered {
            Ok(_) => r == answer,
            Err(error) => r@ == (ResponseV {
                id: Some(id@),
                command: kind@,
                success: false,
                data: None,
                error: Some(error@),
                error_info: None,
            }),
        },
{
    match remembered {
        Ok(_) => answer,
        Err(error) => DaemonResponse::failure(Some(id), kind, &error, None),
    }
}


/// What becomes of an attempt to connect to a worker.
#[derive(Debug, Clone, Copy, PartialEq, Eq, Structural)]
pub enum ConnectStep {
    Connected,
    /// It is tried again a little later.
    Retry,
}

/// What becomes of an attempt to connect to a worker; `expired` says that the time
/// for it is over.
pub fn connect_step(attempt: Result<(), String>, expired: bool) -> (r: Result<ConnectStep, String>)
    ensures
        match attempt {
            Ok(_) => r == Ok::<ConnectStep, String>(ConnectStep::Connected),
            Err(error) => if expired {
                r == Err::<ConnectStep, String>(error)
            } else {
                r == Ok::<ConnectStep, String>(ConnectStep::Retry)
            },
        },
{
    match attempt {
        Ok(_) => Ok(ConnectStep::Connected),
        Err(error) => if expired {
            Err(error)
        } else {
            Ok(ConnectStep::Retry)
        },
    }
}

/// What the supervisor claims to be when it authenticates at a worker.
pub open spec fn claim_members(owner: DaemonSupervisorOwnerRecord) -> Seq<(Seq<char>, JsonV)> {
    json::push_opt_text(
        seq![
            ("supervisorGeneration"@, JsonV::Str(owner.generation@)),
            ("supervisorPid"@, json::int_value(owner.pid as int)),
            ("supervisorSocketPath"@, JsonV::Str(owner.socket_path@)),
        ],
        "supervisorProcessStartId"@,
        json::opt_view(owner.process_start_id),
    )
}

/// What the supervisor claims to be when it authenticates at a worker.
pub fn supervisor_claim(owner: &DaemonSupervisorOwnerRecord) -> (r: Vec<(String, Json)>)
    ensures
        json::members(r@) == claim_members(*owner),
{
    let mut pairs = json::no_members();
    json::add_text(&mut pairs, "supervisorGeneration", &owner.generation);
    json::add_member(&mut pairs, "supervisorPid", json::integer(owner.pid));
    json::add_text(&mut pairs, "supervisorSocketPath", &owner.socket_path);
    assert(json::members(pairs@) =~= seq![
        ("supervisorGeneration"@, JsonV::Str(owner.generation@)),
        ("supervisorPid"@, json::int_value(owner.pid as int)),
        ("supervisorSocketPath"@, JsonV::Str(owner.socket_path@)),
    ]);
    json::add_opt_text(&mut pairs, "supervisorProcessStartId", &owner.process_start_id);
    pairs
}

/// What a daemon is, as it tells its clients.
#[derive(Debug, PartialEq)]
pub struct DaemonFacts {
    pub protocol: Json,
    pub schema_id: String,
    pub schema_revision: u64,
    pub app_version: String,
    pub runtime: Json,
}

/// The first members of what a daemon says to a client.
pub open spec fn hello_head(socket_path: Seq<char>, facts: DaemonFacts) -> Seq<(Seq<char>, JsonV)> {
    Seq::<(Seq<char>, JsonV)>::empty().push(("type"@, JsonV::Str("daemon_hello"@))).push(
        ("socketPath"@, JsonV::Str(socket_path)),
    ).push(("protocol"@, facts.protocol@)).push(("schemaId"@, JsonV::Str(facts.schema_id@))).push(
        ("schemaRevision"@, json::int_value(facts.schema_revision as int)),
    ).push(("appVersion"@, JsonV::Str(facts.app_version@))).push(("runtime"@, facts.runtime@))
}

/// The first members of what a daemon says to a client.
pub fn hello_members(socket_path: &str, facts: &DaemonFacts) -> (r: Vec<(String, Json)>)
    ensures
        json::members(r@) == hello_head(socket_path@, *facts),
{
    let mut pairs = json::no_members();
    json::add_text(&mut pairs, "type", "daemon_hello");
    json::add_text(&mut pairs, "socketPath", socket_path);
    json::add_member(&mut pairs, "protocol", facts.protocol.clone());
    json::add_text(&mut pairs, "schemaId", &facts.schema_id);
    json::add_member(&mut pairs, "schemaRevision", json::count(facts.schema_revision));
    json::add_text(&mut pairs, "appVersion", &facts.app_version);
    json::add_member(&mut pairs, "runtime", facts.runtime.clone());
    pairs
}

impl Supervisor {
    /// What the supervisor says to a client that has connected.
    pub fn hello(
        &self,
        client: &PublicClient,
        owner: &DaemonSupervisorOwnerRecord,
        facts: &DaemonFacts,
        capabilities: &Vec<String>,
    ) -> (r: Json)
        ensures
            r@ == JsonV::Obj(
                hello_head(self.socket_path@, *facts).push(
                    ("supervisorGeneration"@, JsonV::Str(owner.generation@)),
                ).push(("supervisorOwnerToken"@, JsonV::Str(owner.token@))).push(
                    ("supervisorPid"@, json::int_value(owner.pid as int)),
                ).push(
                    (
                        "supervisorProcessStartId"@,
                        opt_text_value(json::opt_view(owner.process_start_id)),
                    ),
                ).push(("supervisorSocketPath"@, JsonV::Str(owner.socket_path@))).push(
                    ("clientId"@, JsonV::Str(client.name())),
                ).push(
                    (
                        "serverCapabilities"@,
                        JsonV::Arr(daemon_worker_protocol::text_list(capabilities@)),
                    ),
                ),
            ),
    {
        let mut pairs = hello_members(&self.socket_path, facts);
        json::add_text(&mut pairs, "supervisorGeneration", &owner.generation);
        json::add_text(&mut pairs, "supervisorOwnerToken", &owner.token);
        json::add_member(&mut pairs, "supervisorPid", json::integer(owner.pid));
        json::add_member(
            &mut pairs,
            "supervisorProcessStartId",
            opt_text_json(&owner.process_start_id),
        );
        json::add_text(&mut pairs, "supervisorSocketPath", &owner.socket_path);
        let identity = client.identity();
        json::add_text(&mut pairs, "clientId", &identity);
        json::add_member(&mut pairs, "serverCapabilities", text_array(capabilities));
        json::object(pairs)
    }

    /// Takes in a worker; one that was known under the same id is replaced.
    pub fn install_worker(&mut self, descriptor: DaemonWorkerDescriptor) -> (r: usize)
        requires
            old(self).wf(),
        ensures
            final(self).wf(),
            final(self).socket_path == old(self).socket_path,
            final(self).clients == old(self).clients,
            final(self).pauses == old(self).pauses,
            final(self).stopped == old(self).stopped,
            final(self).workers@.take(final(self).workers@.len() - 1) == without_worker(
                old(self).workers@,
                descriptor.worker_id@,
            ),
            r == final(self).workers@.len() - 1,
            final(self).workers@.last().descriptor == descriptor,
            final(self).workers@.last().summaries@.len() == 0,
            final(self).workers@.last().stream.messages() == Map::<
                Seq<char>,
                assistant_message::MessageV,
            >::empty(),
            final(self).workers@.last().stream.fragments() == Map::<Seq<char>, Seq<char>>::empty(),
    {
        self.forget_worker(&descriptor.worker_id);
        let ghost rest = self.workers@;
        self.workers.push(Worker::new(descriptor));
        assert(self.workers@.take(self.workers@.len() - 1) =~= rest);
        self.workers.len() - 1
    }

    /// Forgets a worker.
    pub fn forget_worker(&mut self, worker_id: &str)
        requires
            old(self).wf(),
        ensures
            final(self).wf(),
            final(self).socket_path == old(self).socket_path,
            final(self).clients == old(self).clients,
            final(self).pauses == old(self).pauses,
            final(self).stopped == old(self).stopped,
            final(self).workers@ == without_worker(old(self).workers@, worker_id@),
    {
        let ghost all = self.workers@;
        let mut i: usize = self.workers.len();
        assert(all.take(i as int) + without_worker(all.skip(i as int), worker_id@) =~= all);
        while i > 0
            invariant
                i <= all.len(),
                i <= self.workers@.len(),
                self.socket_path == old(self).socket_path,
                self.clients == old(self).clients,
                self.pauses == old(self).pauses,
                self.stopped == old(self).stopped,
                forall|j: int| 0 <= j < self.workers@.len() ==> (#[trigger] self.workers@[j]).stream.wf(),
                self.workers@ == all.take(i as int) + without_worker(
                    all.skip(i as int),
                    worker_id@,
                ),
            decreases i,
        {
            i -= 1;
            let ghost before = self.workers@;
            assert(before[i as int] == all[i as int]);
            assert(all.skip(i as int)[0] == all[i as int]);
            assert(all.skip(i as int).drop_first() =~= all.skip(i + 1));
            if same(&self.workers[i].descriptor.worker_id, worker_id) {
                self.workers.remove(i);
                assert forall|j: int| 0 <= j < self.workers@.len() implies (
                #[trigger] self.workers@[j]).stream.wf() by {
                    if j < i {
                        assert(self.workers@[j] == before[j]);
                    } else {
                        assert(self.workers@[j] == before[j + 1]);
                    }
                }
            }
            assert(self.workers@ =~= all.take(i as int) + without_worker(
                all.skip(i as int),
                worker_id@,
            ));
        }
        assert(all.skip(0) =~= all);
        assert(self.workers@ =~= without_worker(all, worker_id@));
    }
}

/// The workers but those with an id.
pub open spec fn without_worker(workers: Seq<Worker>, worker_id: Seq<char>) -> Seq<Worker>
    decreases workers.len(),
{
    if workers.len() == 0 {
        Seq::empty()
    } else {
        let rest = without_worker(workers.drop_first(), worker_id);
        if workers[0].descriptor.worker_id@ == worker_id {
            rest
        } else {
            seq![workers[0]] + rest
        }
    }
}

/// What the configuration of an earlier supervisor at the same socket says of its
/// sessions; nothing where the document is of another version or another socket.
pub open spec fn persisted_sessions(document: JsonV, socket_path: Seq<char>) -> Option<JsonV> {
    if document.u64_at("version"@) == Some(1u64) && document.str_at("socketPath"@) == Some(
        socket_path,
    ) {
        Some(
            match document.get("defaultSessionConfig"@) {
                Some(config) => config,
                None => JsonV::Null,
            },
        )
    } else {
        None
    }
}

/// What the configuration of an earlier supervisor at the same socket says of its
/// sessions.
pub fn persisted_session_config(document: &Json, socket_path: &str) -> (r: Option<Json>)
    ensures
        json::opt_json(r) == persisted_sessions(document@, socket_path@),
{
    let version: bool = match document.u64_at("version") {
        Some(version) => version == 1,
        None => false,
    };
    if !version || !document.str_is("socketPath", socket_path) {
        return None;
    }
    match document.get("defaultSessionConfig") {
        Some(config) => Some(config.clone()),
        None => Some(Json::Null),
    }
}

/// The document of a supervisor's configuration.
pub open spec fn configuration(socket_path: Seq<char>, sessions: JsonV) -> JsonV {
    JsonV::Obj(
        seq![
            ("version"@, json::int_value(1)),
            ("socketPath"@, JsonV::Str(socket_path)),
            ("defaultSessionConfig"@, sessions),
        ],
    )
}

/// The document of a supervisor's configuration.
pub fn supervisor_configuration(socket_path: &str, sessions: Json) -> (r: Json)
    ensures
        r@ == configuration(socket_path@, sessions@),
{
    let ghost shown = sessions@;
    let mut pairs = json::no_members();
    json::add_member(&mut pairs, "version", json::count(1));
    json::add_text(&mut pairs, "socketPath", socket_path);
    json::add_member(&mut pairs, "defaultSessionConfig", sessions);
    let r = json::object(pairs);
    assert(r@->Obj_0 =~= configuration(socket_path@, shown)->Obj_0);
    r
}

/// A supervisor finds the configuration that its predecessor at the same socket
/// left.
pub proof fn configuration_is_read_back(socket_path: Seq<char>, sessions: JsonV)
    ensures
        persisted_sessions(configuration(socket_path, sessions), socket_path) == Some(sessions),
{
    broadcast use {json::lookup_push, json::lookup_empty};

    let e = Seq::<(Seq<char>, JsonV)>::empty();
    assert(configuration(socket_path, sessions)->Obj_0 =~= e.push(
        ("version"@, json::int_value(1)),
    ).push(("socketPath"@, JsonV::Str(socket_path))).push(("defaultSessionConfig"@, sessions)));
    reveal_strlit("version");
    reveal_strlit("socketPath");
    reveal_strlit("defaultSessionConfig");
    assert("version"@.len() == 7 && "socketPath"@.len() == 10 && "defaultSessionConfig"@.len()
        == 20);
}

/// What a supervisor does with a worker that an earlier one left.
#[derive(Debug, PartialEq)]
pub enum Adoption {
    /// Nothing: it is another supervisor's, it is to stop, or it cannot be recovered.
    Skip,
    /// Its process is gone: its session is recovered with this command.
    Recover(Vec<(String, Json)>),
    /// It is connected to.
    Connect,
}

/// What a supervisor does with a worker that an earlier one left.
pub enum AdoptionV {
    Skip,
    Recover(Seq<(Seq<char>, JsonV)>),
    Connect,
}

impl View for Adoption {
    type V = AdoptionV;

    open spec fn view(&self) -> AdoptionV {
        match self {
            Adoption::Skip => AdoptionV::Skip,
            Adoption::Recover(command) => AdoptionV::Recover(json::members(command@)),
            Adoption::Connect => AdoptionV::Connect,
        }
    }
}

/// What a supervisor does with a worker that an earlier one left. `supervisor` is
/// where the worker's supervisor listens, `alive` says that the worker's process is
/// surely alive.
pub fn adoption(
    descriptor: &DaemonWorkerDescriptor,
    supervisor: &str,
    socket_path: &str,
    alive: bool,
) -> (r: Adoption)
    ensures
        r@ == adopted(*descriptor, supervisor@, socket_path@, alive),
{
    if !same(supervisor, socket_path) || descriptor.stop_requested_at.is_some() {
        return Adoption::Skip;
    }
    if alive {
        return Adoption::Connect;
    }
    if descriptor.owner_client_id.is_some() || descriptor.session_file.is_none() {
        return Adoption::Skip;
    }
    match recovery_command(descriptor) {
        Ok(command) => Adoption::Recover(command),
        Err(_) => Adoption::Skip,
    }
}

/// The worker runs the session that is asked for.
pub open spec fn runs_root(descriptor: DaemonWorkerDescriptor, requested: Seq<char>) -> bool {
    descriptor.root_active_session_id@ == requested || json::opt_view(descriptor.root_session_id)
        == Some(requested)
}

/// Whether the worker runs the session that is asked for.
pub fn is_root_of(descriptor: &DaemonWorkerDescriptor, requested: &str) -> (r: bool)
    ensures
        r == runs_root(*descriptor, requested@),
{
    same(&descriptor.root_active_session_id, requested) || match &descriptor.root_session_id {
        Some(id) => same(id, requested),
        None => false,
    }
}

/// Why a worker whose process is gone may not be started again for a client.
pub open spec fn retry_refusal(
    descriptor: DaemonWorkerDescriptor,
    identity: Seq<char>,
    requested: Seq<char>,
) -> Option<Seq<char>> {
    if descriptor.stop_requested_at is Some {
        Some("Session worker is stopping"@)
    } else if descriptor.owner_client_id is Some {
        if descriptor.owner_client_id->0@ != identity {
            Some("Unknown active session: "@ + requested)
        } else {
            Some("Client-owned session recovery requires the owning client environment"@)
        }
    } else if recoverable_file(descriptor) is None {
        Some("Worker has no saved session to recover"@)
    } else {
        None
    }
}

/// The command with which a worker whose process is gone is started again for a
/// client.
pub fn retry_command(descriptor: &DaemonWorkerDescriptor, identity: &str, requested: &str) -> (r:
    Result<Vec<(String, Json)>, String>)
    ensures
        match r {
            Ok(command) => retry_refusal(*descriptor, identity@, requested@) is None
                && json::members(command@) == recovery_members(
                recoverable_file(*descriptor)->0,
                *descriptor,
            ),
            Err(error) => retry_refusal(*descriptor, identity@, requested@) == Some(error@),
        },
{
    if descriptor.stop_requested_at.is_some() {
        return Err("Session worker is stopping".to_owned());
    }
    if let Some(owner) = &descriptor.owner_client_id {
        if !same(owner, identity) {
            return Err(cat2("Unknown active session: ", requested));
        }
        return Err(
            "Client-owned session recovery requires the owning client environment".to_owned(),
        );
    }
    recovery_command(descriptor)
}

/// What a new worker is to be: its ids, where it listens, its secret and its
/// journals.
#[derive(Debug, PartialEq)]
pub struct WorkerLaunch {
    pub worker_id: String,
    pub root: String,
    pub socket_path: String,
    pub token: String,
    pub instance: String,
    pub recovery_journal: String,
    pub orphan_journal: String,
}

/// What a worker is started with: what an earlier one was, else what was made for
/// it.
pub fn plan_launch(
    existing: Option<&DaemonWorkerDescriptor>,
    worker_id: &str,
    root: &str,
    socket_path: &str,
    token: &str,
    instance: &str,
    descriptor_dir: &str,
) -> (r: WorkerLaunch)
    ensures
        r.instance@ == instance@,
        match existing {
            Some(old) => r.worker_id == old.worker_id && r.root == old.root_active_session_id
                && r.socket_path == old.socket_path && r.token == old.authentication_token,
            None => r.worker_id@ == worker_id@ && r.root@ == root@ && r.socket_path@ == socket_path@
                && r.token@ == token@,
        },
        r.recovery_journal@ == path_facts::joined_path(
            descriptor_dir@,
            r.worker_id@ + ".recovery.jsonl"@,
        ),
        r.orphan_journal@ == path_facts::joined_path(
            descriptor_dir@,
            r.worker_id@ + ".orphans.jsonl"@,
        ),
{
    let (worker_id, root, socket_path, token) = match existing {
        Some(old) => (
            old.worker_id.clone(),
            old.root_active_session_id.clone(),
            old.socket_path.clone(),
            old.authentication_token.clone(),
        ),
        None => (worker_id.to_owned(), root.to_owned(), socket_path.to_owned(), token.to_owned()),
    };
    let recovery = cat2(&worker_id, ".recovery.jsonl");
    let orphans = cat2(&worker_id, ".orphans.jsonl");
    WorkerLaunch {
        recovery_journal: join_dir(descriptor_dir, &recovery),
        orphan_journal: join_dir(descriptor_dir, &orphans),
        worker_id,
        root,
        socket_path,
        token,
        instance: instance.to_owned(),
    }
}

/// The variables that a worker gets from its supervisor.
pub open spec fn worker_variables(
    launch: WorkerLaunch,
    supervisor: Seq<char>,
    orphan_journal_key: Seq<char>,
) -> Seq<(Seq<char>, Seq<char>)> {
    seq![
        (DAEMON_WORKER_ROLE_ENV@, "1"@),
        (DAEMON_WORKER_TOKEN_ENV@, launch.token@),
        (DAEMON_WORKER_INSTANCE_ID_ENV@, launch.instance@),
        (DAEMON_WORKER_ACTIVE_SESSION_ID_ENV@, launch.root@),
        (DAEMON_WORKER_SUPERVISOR_SOCKET_ENV@, supervisor),
        (DAEMON_WORKER_RECOVERY_JOURNAL_ENV@, launch.recovery_journal@),
        (SESSION_LEASES_ENABLED_ENV@, "1"@),
        (SESSION_LEASE_OWNER_ID_ENV@, launch.root@),
        (orphan_journal_key, launch.orphan_journal@),
    ]
}

/// The values of an environment.
pub open spec fn values_in(environment: Map<Seq<char>, String>) -> Map<Seq<char>, Seq<char>> {
    environment.map_values(|value: String| value@)
}

/// An environment after variables were set, one after the other.
pub open spec fn set_all(
    environment: Map<Seq<char>, Seq<char>>,
    variables: Seq<(Seq<char>, Seq<char>)>,
) -> Map<Seq<char>, Seq<char>>
    decreases variables.len(),
{
    if variables.len() == 0 {
        environment
    } else {
        set_all(environment, variables.drop_last()).insert(variables.last().0, variables.last().1)
    }
}

/// An environment after the texts among some members were set.
pub open spec fn set_texts(
    environment: Map<Seq<char>, Seq<char>>,
    members: Seq<(Seq<char>, JsonV)>,
) -> Map<Seq<char>, Seq<char>>
    decreases members.len(),
{
    if members.len() == 0 {
        environment
    } else {
        let rest = set_texts(environment, members.drop_last());
        match members.last().1 {
            JsonV::Str(value) => rest.insert(members.last().0, value),
            _ => rest,
        }
    }
}

/// The variables that a create command adds to a worker's environment.
pub open spec fn launch_variables(body: Seq<(Seq<char>, JsonV)>) -> Seq<(Seq<char>, JsonV)> {
    match json::lookup(body, "launchEnv"@) {
        Some(JsonV::Obj(members)) => members,
        _ => Seq::empty(),
    }
}

fn set_variable(environment: &mut Environment, key: &str, value: &str)
    ensures
        values_in(final(environment)@) == values_in(old(environment)@).insert(key@, value@),
{
    let ghost before = environment@;
    let owned_value = value.to_owned();
    environment.insert(key.to_owned(), owned_value);
    assert(values_in(environment@) =~= values_in(before).insert(key@, value@));
}

/// The environment of a worker: that of the supervisor, what the create command
/// adds to it, and over both what the supervisor says itself. A worker is no
/// catalog and starts at no depth.
pub fn worker_environment(
    environment: Environment,
    body: &Vec<(String, Json)>,
    launch: &WorkerLaunch,
    supervisor: &str,
    orphan_journal_key: &str,
) -> (r: Environment)
    ensures
        values_in(r@) == worker_values(
            values_in(environment@),
            launch_variables(json::members(body@)),
            *launch,
            supervisor@,
            orphan_journal_key@,
        ),
{
    broadcast use json::object_view;

    let ghost base = values_in(environment@);
    let mut environment = environment;
    let ghost added = launch_variables(json::members(body@));
    match json::member(body, "launchEnv") {
        Some(Json::Object(members)) => {
            let mut i: usize = 0;
            assert(added =~= json::members(members@));
            assert(added.take(0) =~= Seq::empty());
            while i < members.len()
                invariant
                    i <= members.len(),
                    added == json::members(members@),
                    values_in(environment@) == set_texts(base, added.take(i as int)),
                decreases members.len() - i,
            {
                assert(added.take(i + 1).drop_last() =~= added.take(i as int));
                assert(added.take(i + 1).last() == (members@[i as int].0@, members@[i as int].1@));
                if let Some(value) = members[i].1.as_str() {
                    set_variable(&mut environment, &members[i].0, value);
                }
                i += 1;
            }
            assert(added.take(i as int) =~= added);
        },
        _ => {},
    }
    let ghost middle = values_in(environment@);
    set_variable(&mut environment, DAEMON_WORKER_ROLE_ENV, "1");
    set_variable(&mut environment, DAEMON_WORKER_TOKEN_ENV, &launch.token);
    set_variable(&mut environment, DAEMON_WORKER_INSTANCE_ID_ENV, &launch.instance);
    set_variable(&mut environment, DAEMON_WORKER_ACTIVE_SESSION_ID_ENV, &launch.root);
    set_variable(&mut environment, DAEMON_WORKER_SUPERVISOR_SOCKET_ENV, supervisor);
    set_variable(&mut environment, DAEMON_WORKER_RECOVERY_JOURNAL_ENV, &launch.recovery_journal);
    set_variable(&mut environment, SESSION_LEASES_ENABLED_ENV, "1");
    set_variable(&mut environment, SESSION_LEASE_OWNER_ID_ENV, &launch.root);
    set_variable(&mut environment, orphan_journal_key, &launch.orphan_journal);
    proof {
        let own = worker_variables(*launch, supervisor@, orphan_journal_key@);
        reveal_with_fuel(set_all, 10);
        assert(own.drop_last().drop_last().drop_last().drop_last().drop_last().drop_last().drop_last().drop_last().drop_last()
            =~= Seq::empty());
        assert(values_in(environment@) == set_all(middle, own));
    }
    let ghost full = environment@;
    environment.remove("RLM_DEPTH");
    assert(values_in(environment@) =~= values_in(full).remove("RLM_DEPTH"@));
    let ghost less = environment@;
    environment.remove(DAEMON_CATALOG_ROLE_ENV);
    assert(values_in(environment@) =~= values_in(less).remove(DAEMON_CATALOG_ROLE_ENV@));
    environment
}

proof fn set_is_found(
    environment: Map<Seq<char>, Seq<char>>,
    variables: Seq<(Seq<char>, Seq<char>)>,
    i: int,
)
    requires
        0 <= i < variables.len(),
        forall|j: int| i < j < variables.len() ==> (#[trigger] variables[j]).0 != variables[i].0,
    ensures
        set_all(environment, variables).contains_key(variables[i].0),
        set_all(environment, variables)[variables[i].0] == variables[i].1,
    decreases variables.len(),
{
    if i < variables.len() - 1 {
        let shorter = variables.drop_last();
        assert forall|j: int| i < j < shorter.len() implies (#[trigger] shorter[j]).0
            != shorter[i].0 by {
            assert(shorter[j] == variables[j]);
        }
        set_is_found(environment, shorter, i);
        assert(variables.last() == variables[variables.len() - 1]);
    }
}

proof fn variable_names_differ()
    ensures
        text::stamp(DAEMON_WORKER_ROLE_ENV@) == 79082080034,
        text::stamp(DAEMON_WORKER_TOKEN_ENV@) == 82078080040,
        text::stamp(DAEMON_WORKER_INSTANCE_ID_ENV@) == 95068080046,
        text::stamp(DAEMON_WORKER_ACTIVE_SESSION_ID_ENV@) == 86068080052,
        text::stamp(DAEMON_WORKER_SUPERVISOR_SOCKET_ENV@) == 86084080045,
        text::stamp(DAEMON_WORKER_RECOVERY_JOURNAL_ENV@) == 79076080051,
        text::stamp(SESSION_LEASES_ENABLED_ENV@) == 79083080035,
        text::stamp(SESSION_LEASE_OWNER_ID_ENV@) == 83068080043,
        text::stamp(DAEMON_CATALOG_ROLE_ENV@) == 78071080035,
        text::stamp("RLM_DEPTH"@) == 80072082009,
{
    reveal_strlit("PRIME_AGENT_INTERNAL_DAEMON_WORKER");
    reveal_strlit("PRIME_AGENT_INTERNAL_DAEMON_WORKER_TOKEN");
    reveal_strlit("PRIME_AGENT_INTERNAL_DAEMON_WORKER_INSTANCE_ID");
    reveal_strlit("PRIME_AGENT_INTERNAL_DAEMON_WORKER_ACTIVE_SESSION_ID");
    reveal_strlit("PRIME_AGENT_INTERNAL_DAEMON_SUPERVISOR_SOCKET");
    reveal_strlit("PRIME_AGENT_INTERNAL_DAEMON_WORKER_RECOVERY_JOURNAL");
    reveal_strlit("PRIME_AGENT_INTERNAL_SESSION_LEASES");
    reveal_strlit("PRIME_AGENT_INTERNAL_SESSION_LEASE_OWNER_ID");
    reveal_strlit("PRIME_AGENT_INTERNAL_DAEMON_CATALOG");
    reveal_strlit("RLM_DEPTH");
}

/// The environment of a worker.
pub open spec fn worker_values(
    environment: Map<Seq<char>, Seq<char>>,
    added: Seq<(Seq<char>, JsonV)>,
    launch: WorkerLaunch,
    supervisor: Seq<char>,
    orphan_journal_key: Seq<char>,
) -> Map<Seq<char>, Seq<char>> {
    set_all(
        set_texts(environment, added),
        worker_variables(launch, supervisor, orphan_journal_key),
    ).remove("RLM_DEPTH"@).remove(DAEMON_CATALOG_ROLE_ENV@)
}

/// What the supervisor says to a worker in its environment cannot be overridden by
/// a client's create command, and a worker never takes itself for a catalog.
pub proof fn workers_listen_to_their_supervisor(
    environment: Map<Seq<char>, Seq<char>>,
    added: Seq<(Seq<char>, JsonV)>,
    launch: WorkerLaunch,
    supervisor: Seq<char>,
    orphan_journal_key: Seq<char>,
    i: int,
)
    requires
        0 <= i < 8,
        orphan_journal_key != worker_variables(launch, supervisor, orphan_journal_key)[i].0,
    ensures
        ({
            let own = worker_variables(launch, supervisor, orphan_journal_key)[i];
            let seen = worker_values(environment, added, launch, supervisor, orphan_journal_key);
            &&& seen.contains_key(own.0) && seen[own.0] == own.1
            &&& !seen.contains_key(DAEMON_CATALOG_ROLE_ENV@)
            &&& !seen.contains_key("RLM_DEPTH"@)
        }),
{
    variable_names_differ();
    let own = worker_variables(launch, supervisor, orphan_journal_key);
    assert forall|j: int| i < j < own.len() implies (#[trigger] own[j]).0 != own[i].0 by {
        assert(j < 8 ==> text::stamp(own[j].0) != text::stamp(own[i].0));
    }
    set_is_found(set_texts(environment, added), own, i);
    assert(text::stamp(own[i].0) != text::stamp("RLM_DEPTH"@));
    assert(text::stamp(own[i].0) != text::stamp(DAEMON_CATALOG_ROLE_ENV@));
}

/// Whom a new worker belongs to: the owner of the earlier one, else the client
/// that asked for it, where it asked for one of its own.
pub open spec fn launch_owner(
    existing: Option<&DaemonWorkerDescriptor>,
    body: JsonV,
    owner: Seq<char>,
) -> Option<Seq<char>> {
    match existing {
        Some(old) if old.owner_client_id is Some => json::opt_view(old.owner_client_id),
        _ => if body.str_at("lifecycle"@) == Some("client_owned"@) {
            Some(owner)
        } else {
            None
        },
    }
}

/// The process of a new worker.
#[derive(Debug, PartialEq)]
pub struct WorkerProcess {
    pub pid: i32,
    pub process_start_id: Option<String>,
}

/// The descriptor is that of a worker that has just been started.
pub open spec fn is_starting(
    descriptor: DaemonWorkerDescriptor,
    launch: WorkerLaunch,
    process: WorkerProcess,
    existing: Option<&DaemonWorkerDescriptor>,
    body: JsonV,
    owner: Seq<char>,
    supervisor: Seq<char>,
    session_dir: Option<Seq<char>>,
    telemetry_disabled: Option<bool>,
    now: Seq<char>,
) -> bool {
    &&& descriptor.version == 2
    &&& descriptor.worker_id == launch.worker_id
    &&& descriptor.pid == process.pid
    &&& descriptor.process_start_id == process.process_start_id
    &&& descriptor.socket_path == launch.socket_path
    &&& descriptor.recovery_journal_path == launch.recovery_journal
    &&& json::opt_view(descriptor.orphan_process_journal_path) == Some(launch.orphan_journal@)
    &&& descriptor.supervisor_socket_path@ == supervisor
    &&& descriptor.authentication_token == launch.token
    &&& json::opt_view(descriptor.worker_instance_id) == Some(launch.instance@)
    &&& descriptor.root_active_session_id == launch.root
    &&& json::opt_view(descriptor.owner_client_id) == launch_owner(existing, body, owner)
    &&& descriptor.root_session_id is None
    &&& descriptor.session_file is None
    &&& json::opt_view(descriptor.session_dir) == session_dir
    &&& descriptor.telemetry_disabled == telemetry_disabled
    &&& descriptor.created_at@ == match existing {
        Some(old) => old.created_at@,
        None => now,
    }
    &&& descriptor.updated_at@ == now
    &&& descriptor.lifecycle@ == "starting"@
    &&& descriptor.create_command.type_@ == "create"@
    &&& json::opt_view(descriptor.create_command.session_path) == body.str_at("sessionPath"@)
    &&& descriptor.create_command.no_session == body.bool_at("noSession"@)
    &&& json::members(descriptor.create_command.extra@) == Seq::<(Seq<char>, JsonV)>::empty()
    &&& descriptor.consecutive_failures == 0
    &&& descriptor.stop_requested_at is None
    &&& descriptor.archive_on_stop is None
    &&& descriptor.last_failure_at is None
    &&& descriptor.last_error is None
}

/// The descriptor of a worker that has just been started.
pub fn starting_descriptor(
    launch: &WorkerLaunch,
    process: &WorkerProcess,
    existing: Option<&DaemonWorkerDescriptor>,
    body: &Json,
    owner: &str,
    supervisor: &str,
    session_dir: Option<&str>,
    telemetry_disabled: Option<bool>,
    now: &str,
) -> (r: DaemonWorkerDescriptor)
    ensures
        is_starting(
            r,
            *launch,
            *process,
            existing,
            body@,
            owner@,
            supervisor@,
            json::opt_str_view(session_dir),
            telemetry_disabled,
            now@,
        ),
        existing is None ==> (r.owner_client_id is Some <==> body@.str_at("lifecycle"@) == Some(
            "client_owned"@,
        )),
        existing is None && r.owner_client_id is Some ==> r.owner_client_id->0@ == owner@,
        existing is Some && existing->0.owner_client_id is Some ==> json::opt_view(
            r.owner_client_id,
        ) == json::opt_view(existing->0.owner_client_id),
{
    let kept: Option<String> = match existing {
        Some(old) => old.owner_client_id.clone(),
        None => None,
    };
    let owner_client_id: Option<String> = match kept {
        Some(owner) => Some(owner),
        None => if body.str_is("lifecycle", "client_owned") {
            Some(owner.to_owned())
        } else {
            None
        },
    };
    let created_at = match existing {
        Some(old) => old.created_at.clone(),
        None => now.to_owned(),
    };
    DaemonWorkerDescriptor {
        version: 2,
        worker_id: launch.worker_id.clone(),
        pid: process.pid,
        process_start_id: process.process_start_id.clone(),
        socket_path: launch.socket_path.clone(),
        recovery_journal_path: launch.recovery_journal.clone(),
        orphan_process_journal_path: Some(launch.orphan_journal.clone()),
        supervisor_socket_path: supervisor.to_owned(),
        authentication_token: launch.token.clone(),
        worker_instance_id: Some(launch.instance.clone()),
        root_active_session_id: launch.root.clone(),
        owner_client_id,
        root_session_id: None,
        session_file: None,
        session_dir: owned(session_dir),
        telemetry_disabled,
        created_at,
        updated_at: now.to_owned(),
        lifecycle: "starting".to_owned(),
        create_command: DurableDaemonCreateCommand {
            type_: "create".to_owned(),
            session_path: owned(body.str_at("sessionPath")),
            no_session: body.bool_at("noSession"),
            extra: json::no_members(),
        },
        consecutive_failures: 0,
        stop_requested_at: None,
        archive_on_stop: None,
        last_failure_at: None,
        last_error: None,
    }
}

/// A worker that is launched without an earlier one belongs to a client if and only if
/// the client asked for one of its own: then that client alone is shown it, and the
/// worker is stopped for that client's leaving only; any other new worker is shown to
/// every client and outlives them all.
pub proof fn new_workers_belong_as_asked(
    worker: Worker,
    launch: WorkerLaunch,
    process: WorkerProcess,
    body: JsonV,
    owner: Seq<char>,
    supervisor: Seq<char>,
    session_dir: Option<Seq<char>>,
    telemetry_disabled: Option<bool>,
    now: Seq<char>,
    workers: Seq<Worker>,
    client: Seq<char>,
)
    requires
        is_starting(
            worker.descriptor,
            launch,
            process,
            None,
            body,
            owner,
            supervisor,
            session_dir,
            telemetry_disabled,
            now,
        ),
        workers.len() > 0,
        workers.last() == worker,
    ensures
        body.str_at("lifecycle"@) != Some("client_owned"@) ==> shown_to(worker, client)
            && !workers_of(workers, client).contains(workers.len() - 1),
        body.str_at("lifecycle"@) == Some("client_owned"@) ==> {
            &&& shown_to(worker, client) <==> client == owner
            &&& workers_of(workers, client).contains(workers.len() - 1) <==> client == owner
        },
{
    workers_of_are_owned(workers, client);
    owned_workers_are_found(workers, client);
    if workers_of(workers, client).contains(workers.len() - 1) {
        assert(workers[workers.len() - 1].owner() == Some(client));
    }
}

proof fn owned_workers_are_found(workers: Seq<Worker>, client: Seq<char>)
    ensures
        forall|i: int|
            0 <= i < workers.len() && (#[trigger] workers[i]).owner() == Some(client)
                ==> workers_of(workers, client).contains(i),
    decreases workers.len(),
{
    if workers.len() > 0 {
        let fewer = workers.drop_last();
        let rest = workers_of(fewer, client);
        let all = workers_of(workers, client);
        owned_workers_are_found(fewer, client);
        assert forall|i: int|
            0 <= i < workers.len() && (#[trigger] workers[i]).owner() == Some(
                client,
            ) implies all.contains(i) by {
            if i < fewer.len() {
                assert(fewer[i] == workers[i]);
                let j = choose|j: int| 0 <= j < rest.len() && rest[j] == i;
                assert(all[j] == i);
            } else {
                assert(all[rest.len() as int] == i);
            }
        }
    }
}

/// A worker that takes the place of another one belongs to the same client, whatever
/// the command says, and was created when the first one was.
pub proof fn successors_keep_their_owner(
    descriptor: DaemonWorkerDescriptor,
    launch: WorkerLaunch,
    process: WorkerProcess,
    existing: DaemonWorkerDescriptor,
    body: JsonV,
    owner: Seq<char>,
    supervisor: Seq<char>,
    session_dir: Option<Seq<char>>,
    telemetry_disabled: Option<bool>,
    now: Seq<char>,
)
    requires
        is_starting(
            descriptor,
            launch,
            process,
            Some(&existing),
            body,
            owner,
            supervisor,
            session_dir,
            telemetry_disabled,
            now,
        ),
        existing.owner_client_id is Some,
    ensures
        descriptor.owner_client_id is Some,
        descriptor.owner_client_id->0@ == existing.owner_client_id->0@,
        descriptor.created_at@ == existing.created_at@,
{
}

/// The create command as it goes to the worker: without what concerns the
/// supervisor alone, and with the whole configuration.
pub fn forwarded_create(body: &Vec<(String, Json)>, config: Json) -> (r: Vec<(String, Json)>)
    ensures
        json::members(r@) == json::put(
            json::without(
                json::without(json::without(json::members(body@), "id"@), "launchEnv"@),
                "lifecycle"@,
            ),
            "config"@,
            config@,
        ),
{
    let mut forwarded = clone_members(body);
    remove_member(&mut forwarded, "id");
    remove_member(&mut forwarded, "launchEnv");
    remove_member(&mut forwarded, "lifecycle");
    set_member(&mut forwarded, "config", config);
    forwarded
}

/// Takes what a worker says of the session that it has created: the worker is
/// ready, where the session has the id that it was given.
pub fn launched(descriptor: &mut DaemonWorkerDescriptor, summary: &Json) -> (r: Result<(), String>)
    ensures
        match r {
            Ok(_) => {
                &&& active_of(summary@) == Some(old(descriptor).root_active_session_id@)
                &&& json::opt_view(final(descriptor).root_session_id) == summary@.str_at(
                    "sessionId"@,
                )
                &&& json::opt_view(final(descriptor).session_file) == summary@.str_at(
                    "sessionFile"@,
                )
                &&& final(descriptor).lifecycle@ == "ready"@
                &&& *final(descriptor) == (DaemonWorkerDescriptor {
                    root_session_id: final(descriptor).root_session_id,
                    session_file: final(descriptor).session_file,
                    lifecycle: final(descriptor).lifecycle,
                    ..*old(descriptor)
                })
            },
            Err(error) => {
                &&& active_of(summary@) != Some(old(descriptor).root_active_session_id@)
                &&& error@ == "Session worker did not preserve its assigned active session id"@
                &&& *final(descriptor) == *old(descriptor)
            },
        },
{
    let kept: bool = match summary_active_id(summary) {
        Some(id) => same(id, &descriptor.root_active_session_id),
        None => false,
    };
    if !kept {
        return Err("Session worker did not preserve its assigned active session id".to_owned());
    }
    descriptor.root_session_id = owned(summary.str_at("sessionId"));
    descriptor.session_file = owned(summary.str_at("sessionFile"));
    descriptor.lifecycle = "ready".to_owned();
    Ok(())
}

/// A worker could not be started.
pub fn launch_failed(descriptor: &mut DaemonWorkerDescriptor, error: &str)
    requires
        old(descriptor).consecutive_failures < u32::MAX,
    ensures
        final(descriptor).lifecycle@ == "failed"@,
        json::opt_view(final(descriptor).last_error) == Some(error@),
        final(descriptor).consecutive_failures == old(descriptor).consecutive_failures + 1,
        *final(descriptor) == (DaemonWorkerDescriptor {
            lifecycle: final(descriptor).lifecycle,
            last_error: final(descriptor).last_error,
            consecutive_failures: final(descriptor).consecutive_failures,
            ..*old(descriptor)
        }),
{
    descriptor.lifecycle = "failed".to_owned();
    descriptor.last_error = Some(error.to_owned());
    descriptor.consecutive_failures = descriptor.consecutive_failures + 1;
}

/// Begins to stop a worker: what is kept of it says so before it is told, so that
/// no later supervisor recovers it. The command that it gets.
pub fn begin_stop(descriptor: &mut DaemonWorkerDescriptor, archive: bool, now: &str) -> (r: Vec<
    (String, Json),
>)
    ensures
        final(descriptor).lifecycle@ == "stopping"@,
        json::opt_view(final(descriptor).stop_requested_at) == Some(now@),
        final(descriptor).archive_on_stop == Some(archive),
        *final(descriptor) == (DaemonWorkerDescriptor {
            lifecycle: final(descriptor).lifecycle,
            stop_requested_at: final(descriptor).stop_requested_at,
            archive_on_stop: final(descriptor).archive_on_stop,
            ..*old(descriptor)
        }),
        json::members(r@) == bare_command(
            if archive {
                "worker_archive_and_shutdown"@
            } else {
                "shutdown"@
            },
        ),
{
    descriptor.lifecycle = "stopping".to_owned();
    descriptor.stop_requested_at = Some(now.to_owned());
    descriptor.archive_on_stop = Some(archive);
    if archive {
        command("worker_archive_and_shutdown")
    } else {
        command("shutdown")
    }
}

/// How far a worker is that was told to stop.
#[derive(Debug, Clone, Copy, PartialEq, Eq, Structural)]
pub enum StopStep {
    /// It is gone.
    Gone,
    /// It is looked after again a little later.
    Wait,
}

/// How far a worker is that was told to stop. `alive` says that its process is
/// surely alive, `expired` that the time for it is over.
pub fn stop_step(worker_id: &str, alive: bool, expired: bool) -> (r: Result<StopStep, String>)
    ensures
        match r {
            Ok(StopStep::Gone) => !alive,
            Ok(StopStep::Wait) => alive && !expired,
            Err(error) => alive && expired && error@ == "Session worker "@ + worker_id@
                + " is still stopping"@,
        },
{
    if !alive {
        Ok(StopStep::Gone)
    } else if expired {
        Err(cat3("Session worker ", worker_id, " is still stopping"))
    } else {
        Ok(StopStep::Wait)
    }
}

/// What a supervisor does with a worker that an earlier one left.
pub open spec fn adopted(
    descriptor: DaemonWorkerDescriptor,
    supervisor: Seq<char>,
    socket_path: Seq<char>,
    alive: bool,
) -> AdoptionV {
    if supervisor != socket_path || descriptor.stop_requested_at is Some {
        AdoptionV::Skip
    } else if alive {
        AdoptionV::Connect
    } else if descriptor.owner_client_id is Some || descriptor.session_file is None {
        AdoptionV::Skip
    } else {
        AdoptionV::Recover(recovery_members(descriptor.session_file->0@, descriptor))
    }
}

/// A worker that is being stopped is taken up by no later supervisor, nor started
/// again for a client.
pub proof fn stopped_workers_stay_stopped(
    descriptor: DaemonWorkerDescriptor,
    supervisor: Seq<char>,
    socket_path: Seq<char>,
    alive: bool,
    identity: Seq<char>,
    requested: Seq<char>,
)
    requires
        descriptor.stop_requested_at is Some,
    ensures
        adopted(descriptor, supervisor, socket_path, alive) == AdoptionV::Skip,
        retry_refusal(descriptor, identity, requested) is Some,
{
}

/// The client is gone, and nobody else is known under its name.
pub open spec fn nobody_is(clients: Seq<PublicClient>, owner: Seq<char>) -> bool {
    forall|i: int| 0 <= i < clients.len() ==> (#[trigger] clients[i]).name() != owner
}

/// Where the workers stand that belong to a client.
pub open spec fn workers_of(workers: Seq<Worker>, owner: Seq<char>) -> Seq<int>
    decreases workers.len(),
{
    if workers.len() == 0 {
        Seq::empty()
    } else {
        let rest = workers_of(workers.drop_last(), owner);
        if workers.last().owner() == Some(owner) {
            rest.push(workers.len() - 1)
        } else {
            rest
        }
    }
}

impl Supervisor {
    /// Where the workers stand that are to be stopped because their owner has been
    /// gone for a while and is not back.
    pub fn abandoned_workers(&self, owner: &str) -> (r: Vec<usize>)
        ensures
            positions(r@) == if nobody_is(self.clients@, owner@) {
                workers_of(self.workers@, owner@)
            } else {
                Seq::empty()
            },
    {
        let mut found: Vec<usize> = Vec::new();
        assert(positions(found@) =~= Seq::empty());
        let mut i: usize = 0;
        while i < self.clients.len()
            invariant
                i <= self.clients.len(),
                positions(found@) == Seq::<int>::empty(),
                forall|j: int| 0 <= j < i ==> (#[trigger] self.clients@[j]).name() != owner@,
            decreases self.clients.len() - i,
        {
            let identity = self.clients[i].identity();
            if same(&identity, owner) {
                assert(!nobody_is(self.clients@, owner@));
                return found;
            }
            i += 1;
        }
        let mut k: usize = 0;
        assert(self.workers@.take(0) =~= Seq::empty());
        while k < self.workers.len()
            invariant
                k <= self.workers.len(),
                positions(found@) == workers_of(self.workers@.take(k as int), owner@),
            decreases self.workers.len() - k,
        {
            assert(self.workers@.take(k + 1).drop_last() =~= self.workers@.take(k as int));
            assert(self.workers@.take(k + 1).last() == self.workers@[k as int]);
            let owned_by: bool = match &self.workers[k].descriptor.owner_client_id {
                Some(client) => same(client, owner),
                None => false,
            };
            if owned_by {
                let ghost before = found@;
                found.push(k);
                assert(positions(found@) =~= positions(before).push(k as int));
            }
            k += 1;
        }
        assert(self.workers@.take(k as int) =~= self.workers@);
        found
    }

    /// A client has gone: who it was.
    pub fn disconnected(&mut self, at: usize) -> (r: String)
        requires
            old(self).wf(),
            at < old(self).clients@.len(),
        ensures
            final(self).wf(),
            final(self).socket_path == old(self).socket_path,
            final(self).workers == old(self).workers,
            final(self).pauses == old(self).pauses,
            final(self).stopped == old(self).stopped,
            final(self).clients@ == old(self).clients@.remove(at as int),
            r@ == old(self).clients@[at as int].name(),
    {
        let identity = self.clients[at].identity();
        let ghost before = self.clients@;
        self.clients.remove(at);
        assert forall|i: int| 0 <= i < self.clients@.len() implies (
        #[trigger] self.clients@[i]).subscriptions.wf() by {
            if i < at {
                assert(self.clients@[i] == before[i]);
            } else {
                assert(self.clients@[i] == before[i + 1]);
            }
        }
        identity
    }
}


/// The commands that the supervisor refuses.
pub const UNIMPLEMENTED_COMMANDS: [&'static str; 5] = [
    "get_direct_worker_transport",
    "prepare_update_restart",
    "restart",
    "roster_subscribe",
    "roster_unsubscribe",
];

/// What a command asks of the supervisor.
#[derive(Debug, PartialEq)]
pub enum Dispatch {
    /// The result of this command has arrived.
    Acknowledge(Option<String>),
    Create,
    List,
    /// The worker of this session is to be started again.
    Retry(String),
    /// The saved sessions, those of a directory where one is given.
    ListSavedSessions(Option<String>),
    Shutdown,
    /// The client leaves this session, or all of them.
    Detach(Option<String>),
    /// This pause is over.
    ReleaseInputPause(String),
    /// The command is for the worker of a session.
    Route(String),
}

/// What a command asks of the supervisor.
pub enum DispatchV {
    Acknowledge(Option<Seq<char>>),
    Create,
    List,
    Retry(Seq<char>),
    ListSavedSessions(Option<Seq<char>>),
    Shutdown,
    Detach(Option<Seq<char>>),
    ReleaseInputPause(Seq<char>),
    Route(Seq<char>),
}

impl View for Dispatch {
    type V = DispatchV;

    open spec fn view(&self) -> DispatchV {
        match self {
            Dispatch::Acknowledge(id) => DispatchV::Acknowledge(json::opt_view(*id)),
            Dispatch::Create => DispatchV::Create,
            Dispatch::List => DispatchV::List,
            Dispatch::Retry(id) => DispatchV::Retry(id@),
            Dispatch::ListSavedSessions(cwd) => DispatchV::ListSavedSessions(json::opt_view(*cwd)),
            Dispatch::Shutdown => DispatchV::Shutdown,
            Dispatch::Detach(id) => DispatchV::Detach(json::opt_view(*id)),
            Dispatch::ReleaseInputPause(id) => DispatchV::ReleaseInputPause(id@),
            Dispatch::Route(id) => DispatchV::Route(id@),
        }
    }
}

/// A text that a command needs.
pub open spec fn needed(value: Option<Seq<char>>, otherwise: Seq<char>) -> Result<
    Seq<char>,
    Seq<char>,
> {
    match value {
        Some(text) => Ok(text),
        None => Err(otherwise),
    }
}

/// What a command asks of the supervisor, or why it cannot be done.
pub open spec fn dispatch_of(body: JsonV) -> Result<DispatchV, Seq<char>> {
    match body.str_at("type"@) {
        None => Err("Daemon command requires a type"@),
        Some(kind) => if kind == "ack_result"@ {
            Ok(DispatchV::Acknowledge(body.str_at("commandId"@)))
        } else if kind == "create"@ {
            Ok(DispatchV::Create)
        } else if kind == "list"@ {
            Ok(DispatchV::List)
        } else if kind == "retry_worker"@ {
            match needed(
                body.str_at("activeSessionId"@),
                "retry_worker requires activeSessionId"@,
            ) {
                Ok(id) => Ok(DispatchV::Retry(id)),
                Err(error) => Err(error),
            }
        } else if kind == "list_saved_sessions"@ {
            Ok(DispatchV::ListSavedSessions(body.str_at("cwd"@)))
        } else if kind == "shutdown"@ {
            Ok(DispatchV::Shutdown)
        } else if kind == "detach"@ {
            Ok(DispatchV::Detach(body.str_at("activeSessionId"@)))
        } else if kind == "release_session_input_pause"@ {
            match needed(body.str_at("pauseId"@), "Session input pause requires pauseId"@) {
                Ok(id) => Ok(DispatchV::ReleaseInputPause(id)),
                Err(error) => Err(error),
            }
        } else if text::holds_str(UNIMPLEMENTED_COMMANDS@, kind) {
            Err("Daemon supervisor command is not implemented: "@ + kind)
        } else {
            match needed(
                body.str_at(
                    if kind == "reattach"@ {
                        "targetActiveSessionId"@
                    } else {
                        "activeSessionId"@
                    },
                ),
                "Daemon command requires activeSessionId"@,
            ) {
                Ok(id) => Ok(DispatchV::Route(id)),
                Err(error) => Err(error),
            }
        },
    }
}

/// What a command asks of the supervisor, or why it cannot be done.
pub fn dispatch(body: &Json) -> (r: Result<Dispatch, String>)
    ensures
        match (r, dispatch_of(body@)) {
            (Ok(asked), Ok(expected)) => asked@ == expected,
            (Err(error), Err(expected)) => error@ == expected,
            _ => false,
        },
{
    let kind = match body.str_at("type") {
        Some(kind) => kind,
        None => return Err("Daemon command requires a type".to_owned()),
    };
    if same(kind, "ack_result") {
        return Ok(Dispatch::Acknowledge(owned(body.str_at("commandId"))));
    }
    if same(kind, "create") {
        return Ok(Dispatch::Create);
    }
    if same(kind, "list") {
        return Ok(Dispatch::List);
    }
    if same(kind, "retry_worker") {
        return match body.str_at("activeSessionId") {
            Some(id) => Ok(Dispatch::Retry(id.to_owned())),
            None => Err("retry_worker requires activeSessionId".to_owned()),
        };
    }
    if same(kind, "list_saved_sessions") {
        return Ok(Dispatch::ListSavedSessions(owned(body.str_at("cwd"))));
    }
    if same(kind, "shutdown") {
        return Ok(Dispatch::Shutdown);
    }
    if same(kind, "detach") {
        return Ok(Dispatch::Detach(owned(body.str_at("activeSessionId"))));
    }
    if same(kind, "release_session_input_pause") {
        return match body.str_at("pauseId") {
            Some(id) => Ok(Dispatch::ReleaseInputPause(id.to_owned())),
            None => Err("Session input pause requires pauseId".to_owned()),
        };
    }
    if contains_str(&UNIMPLEMENTED_COMMANDS, kind) {
        return Err(cat2("Daemon supervisor command is not implemented: ", kind));
    }
    let requested = if same(kind, "reattach") {
        body.str_at("targetActiveSessionId")
    } else {
        body.str_at("activeSessionId")
    };
    match requested {
        Some(id) => Ok(Dispatch::Route(id.to_owned())),
        None => Err("Daemon command requires activeSessionId".to_owned()),
    }
}

/// What a client is told that has left a session.
pub open spec fn detached_value(active: Seq<char>) -> JsonV {
    JsonV::Obj(
        seq![
            ("type"@, JsonV::Str("session_detached"@)),
            ("activeSessionId"@, JsonV::Str(active)),
        ],
    )
}

/// What a client is told that has left a session.
pub fn detached_notice(active: &str) -> (r: Json)
    ensures
        r@ == detached_value(active@),
{
    let mut pairs = command("session_detached");
    json::add_text(&mut pairs, "activeSessionId", active);
    let r = json::object(pairs);
    assert(r@->Obj_0 =~= detached_value(active@)->Obj_0);
    r
}

/// The sessions that a client leaves.
pub open spec fn left_sessions(client: PublicClient, active: Option<Seq<char>>) -> Seq<Seq<char>> {
    match active {
        Some(active) => seq![active],
        None => Seq::new(
            client.subscriptions.entries@.len(),
            |i: int| client.subscriptions.entries@[i].0@,
        ),
    }
}

/// The members of an object with one of them replaced.
pub open spec fn with_member(value: JsonV, key: Seq<char>, member: JsonV) -> JsonV {
    match value {
        JsonV::Obj(members) => JsonV::Obj(json::put(members, key, member)),
        _ => value,
    }
}

fn replace_in(value: Json, key: &str, replacement: Json) -> (r: Json)
    ensures
        r@ == with_member(value@, key@, replacement@),
{
    broadcast use json::object_view;

    match value {
        Json::Object(members) => {
            let mut members = members;
            set_member(&mut members, key, replacement);
            json::object(members)
        },
        _ => value,
    }
}

/// What the release of a pause that a client asks for comes to.
pub open spec fn release_of(
    pauses: Map<Seq<char>, InputPause>,
    connection_id: Seq<char>,
    id: Seq<char>,
    body: JsonV,
) -> Result<Option<InputPause>, Seq<char>> {
    if !pauses.contains_key(id) {
        Ok(None)
    } else {
        let pause = pauses[id];
        if pause.connection_id@ != connection_id {
            Err("Session input pause is owned by another client: "@ + id)
        } else {
            match body.str_at("activeSessionId"@) {
                None => Err("Session input pause requires activeSessionId"@),
                Some(requested) => if requested != pause.active@ && requested != pause.requested@ {
                    Err("Session input pause belongs to another session: "@ + id)
                } else {
                    Ok(Some(pause))
                },
            }
        }
    }
}

/// A client releases only pauses of its own.
pub proof fn only_holders_release(
    pauses: Map<Seq<char>, InputPause>,
    connection_id: Seq<char>,
    id: Seq<char>,
    body: JsonV,
)
    ensures
        release_of(pauses, connection_id, id, body) matches Ok(Some(pause)) ==> pauses.contains_key(
            id,
        ) && pauses[id] == pause && pause.connection_id@ == connection_id,
{
}

impl Supervisor {
    /// A client leaves a session, or all of them: what it is told.
    pub fn detach(&mut self, at: usize, active: Option<&str>) -> (r: Vec<Json>)
        requires
            old(self).wf(),
            at < old(self).clients@.len(),
        ensures
            final(self).wf(),
            final(self).same_but_client(*old(self), at as int),
            ({
                let before = old(self).clients@[at as int];
                let after = final(self).clients@[at as int];
                let left = left_sessions(before, json::opt_str_view(active));
                &&& after == (PublicClient { subscriptions: after.subscriptions, ..before })
                &&& after.subscriptions@ == match active {
                    Some(active) => before.subscriptions@.remove(active@),
                    None => Map::empty(),
                }
                &&& json::items(r@) == Seq::new(left.len(), |i: int| detached_value(left[i]))
            }),
    {
        let mut notices: Vec<Json> = Vec::new();
        match active {
            Some(active) => {
                self.clients[at].subscriptions.remove(active);
                notices.push(detached_notice(active));
                assert(json::items(notices@) =~= Seq::new(1, |i: int| detached_value(active@)));
            },
            None => {
                let targets = self.clients[at].subscriptions.keys();
                self.clients[at].subscriptions = TextMap::new();
                let ghost left = left_sessions(old(self).clients@[at as int], None);
                let mut i: usize = 0;
                assert(json::items(notices@) =~= Seq::new(0, |j: int| detached_value(left[j])));
                while i < targets.len()
                    invariant
                        i <= targets.len(),
                        targets@.len() == left.len(),
                        forall|j: int| 0 <= j < targets@.len() ==> (#[trigger] targets@[j])@ == left[j],
                        json::items(notices@) == Seq::new(
                            i as nat,
                            |j: int| detached_value(left[j]),
                        ),
                    decreases targets.len() - i,
                {
                    let notice = detached_notice(&targets[i]);
                    let ghost shown = notice@;
                    let ghost before = notices@;
                    notices.push(notice);
                    assert(json::items(notices@) =~= json::items(before).push(shown));
                    i += 1;
                    assert(json::items(notices@) =~= Seq::new(
                        i as nat,
                        |j: int| detached_value(left[j]),
                    ));
                }
            },
        }
        notices
    }

    /// The release of a pause that a client asks for: at which worker, and with
    /// which command. A pause that is not known is over already.
    pub fn release_input_pause(&self, at: usize, id: &str, body: &Json) -> (r: Result<
        Option<(String, Json)>,
        String,
    >)
        requires
            self.wf(),
            at < self.clients@.len(),
        ensures
            match (
                r,
                release_of(self.pauses@, self.clients@[at as int].connection_id@, id@, body@),
            ) {
                (Ok(Some((worker_id, command))), Ok(Some(pause))) => worker_id == pause.worker_id
                    && command@ == with_member(
                    body@,
                    "activeSessionId"@,
                    JsonV::Str(pause.active@),
                ),
                (Ok(None), Ok(None)) => true,
                (Err(error), Err(expected)) => error@ == expected,
                _ => false,
            },
    {
        let pause = match self.pauses.get(id) {
            Some(pause) => pause,
            None => return Ok(None),
        };
        if !same(&pause.connection_id, &self.clients[at].connection_id) {
            return Err(cat2("Session input pause is owned by another client: ", id));
        }
        let requested = match body.str_at("activeSessionId") {
            Some(requested) => requested,
            None => return Err("Session input pause requires activeSessionId".to_owned()),
        };
        if !same(requested, &pause.active) && !same(requested, &pause.requested) {
            return Err(cat2("Session input pause belongs to another session: ", id));
        }
        let command = replace_in(
            body.clone(),
            "activeSessionId",
            Json::Str(pause.active.clone()),
        );
        Ok(Some((pause.worker_id.clone(), command)))
    }
}

/// The name under which a worker knows a client's hold on a session's input.
pub open spec fn lease_name(connection_id: Seq<char>, identity: Seq<char>, key: Seq<char>) -> Seq<
    char,
> {
    json::printed_json(
        JsonV::Arr(seq![JsonV::Str(connection_id), JsonV::Str(identity), JsonV::Str(key)]),
    )
}

fn lease_text(connection_id: &str, identity: &str, key: &str) -> (r: String)
    ensures
        r@ == lease_name(connection_id@, identity@, key@),
{
    broadcast use json::array_view;

    let mut parts: Vec<Json> = Vec::new();
    parts.push(json::text(connection_id));
    parts.push(json::text(identity));
    parts.push(json::text(key));
    assert(json::items(parts@) =~= seq![
        JsonV::Str(connection_id@),
        JsonV::Str(identity@),
        JsonV::Str(key@),
    ]);
    let value = json::array(parts);
    proof {
        assert(json::sound(value@)) by {
            reveal_with_fuel(json::sound, 3);
        }
    }
    print_json(&value)
}

/// The name under which a worker knows the admission of a client's prompt.
pub open spec fn admission_name(connection_id: Seq<char>, admission: Seq<char>) -> Seq<char> {
    "supervisor-admission:"@ + connection_id + ":"@ + admission
}

/// The command is one that admits a prompt or takes it back.
pub open spec fn admits(kind: Seq<char>) -> bool {
    kind == "prompt"@ || kind == "prompt_and_wait"@ || kind == "cancel_prompt_admission"@
}

/// The command attaches the client to a session.
pub open spec fn attaches(kind: Seq<char>) -> bool {
    kind == "attach"@ || kind == "reattach"@
}

/// A command that attaches says that the client can show dialogs.
pub open spec fn offers_dialogs(body: JsonV) -> bool {
    body.bool_at("supportsExtensionUi"@) == Some(true) || (body.get("capabilities"@) matches Some(
        JsonV::Arr(values),
    ) && exists|i: int| 0 <= i < values.len() && #[trigger] values[i] == JsonV::Str("extension_ui"@))
}

/// A command with the name of a client's hold on a session's input.
pub open spec fn with_lease(body: JsonV, client: PublicClient) -> JsonV {
    with_member(
        body,
        "leaseKey"@,
        JsonV::Str(
            lease_name(client.connection_id@, client.name(), body.str_at("leaseKey"@)->0),
        ),
    )
}

/// A command with the name of the admission of a client's prompt.
pub open spec fn with_admission(body: JsonV, client: PublicClient) -> JsonV {
    match body.str_at("admissionId"@) {
        Some(admission) => with_member(
            body,
            "admissionId"@,
            JsonV::Str(admission_name(client.connection_id@, admission)),
        ),
        None => body,
    }
}

/// The command that attaches the supervisor in the client's stead: full snapshots,
/// and no name of the client.
pub open spec fn with_attachment(body: JsonV) -> JsonV {
    let typed = with_member(body, "type"@, JsonV::Str("attach"@));
    let able = with_member(
        typed,
        "capabilities"@,
        JsonV::Arr(seq![JsonV::Str("attach_snapshot"@), JsonV::Str("event_sequence"@)]),
    );
    match able {
        JsonV::Obj(members) => JsonV::Obj(json::without(members, "clientId"@)),
        _ => able,
    }
}

/// What becomes of a command for a session whose worker was found.
#[derive(Debug, PartialEq)]
pub enum RoutePlan {
    /// The session is nobody's own any more.
    Promote,
    /// The worker is stopped, and its session archived.
    Stop,
    /// The worker gets the command.
    Forward(Json),
}

/// What a command becomes for a session whose worker was found.
pub open spec fn routed(
    kind: Seq<char>,
    body: JsonV,
    active: Seq<char>,
    client: PublicClient,
) -> Result<JsonV, Seq<char>> {
    let addressed = with_member(body, "activeSessionId"@, JsonV::Str(active));
    if kind == "acquire_session_input_pause"@ {
        match addressed.str_at("leaseKey"@) {
            Some(_) => Ok(with_lease(addressed, client)),
            None => Err("Session input pause requires leaseKey"@),
        }
    } else if admits(kind) {
        Ok(with_admission(addressed, client))
    } else if attaches(kind) {
        Ok(with_attachment(addressed))
    } else {
        Ok(addressed)
    }
}

/// Whether a command that attaches says that the client can show dialogs.
pub fn asks_for_dialogs(body: &Json) -> (r: bool)
    ensures
        r == offers_dialogs(body@),
{
    broadcast use json::array_view;

    if let Some(supports) = body.bool_at("supportsExtensionUi") {
        if supports {
            return true;
        }
    }
    match body.get("capabilities") {
        Some(Json::Array(values)) => {
            let ghost all = json::items(values@);
            let mut i: usize = 0;
            while i < values.len()
                invariant
                    i <= values.len(),
                    all == json::items(values@),
                    body@.get("capabilities"@) == Some(JsonV::Arr(all)),
                    body@.bool_at("supportsExtensionUi"@) != Some(true),
                    forall|j: int| 0 <= j < i ==> #[trigger] all[j] != JsonV::Str("extension_ui"@),
                decreases values.len() - i,
            {
                assert(all[i as int] == values@[i as int]@);
                if let Some(name) = values[i].as_str() {
                    if same(name, "extension_ui") {
                        assert(all[i as int] == JsonV::Str("extension_ui"@));
                        return true;
                    }
                }
                i += 1;
            }
            false
        },
        _ => false,
    }
}

fn attach_command(addressed: Json) -> (r: Json)
    ensures
        r@ == with_attachment(addressed@),
{
    broadcast use {json::array_view, json::object_view};

    let typed = replace_in(addressed, "type", json::text("attach"));
    let mut capabilities: Vec<Json> = Vec::new();
    capabilities.push(json::text("attach_snapshot"));
    capabilities.push(json::text("event_sequence"));
    assert(json::items(capabilities@) =~= seq![
        JsonV::Str("attach_snapshot"@),
        JsonV::Str("event_sequence"@),
    ]);
    let able = replace_in(typed, "capabilities", json::array(capabilities));
    match able {
        Json::Object(members) => {
            let mut members = members;
            remove_member(&mut members, "clientId");
            json::object(members)
        },
        _ => able,
    }
}

/// The worker once it belongs to nobody.
pub open spec fn promoted(worker: Worker) -> Worker {
    Worker {
        descriptor: DaemonWorkerDescriptor { owner_client_id: None, ..worker.descriptor },
        ..worker
    }
}

/// A worker that was promoted is shown to every client, and no client's leaving has it
/// stopped.
pub proof fn promoted_workers_outlive_their_clients(
    workers: Seq<Worker>,
    at: int,
    client: Seq<char>,
)
    requires
        0 <= at < workers.len(),
    ensures
        shown_to(promoted(workers[at]), client),
        !workers_of(workers.update(at, promoted(workers[at])), client).contains(at),
{
    let after = workers.update(at, promoted(workers[at]));
    workers_of_are_owned(after, client);
    if workers_of(after, client).contains(at) {
        assert(after[at].owner() == Some(client));
    }
}

proof fn workers_of_are_owned(workers: Seq<Worker>, client: Seq<char>)
    ensures
        forall|i: int| #[trigger]
            workers_of(workers, client).contains(i) ==> 0 <= i < workers.len()
                && workers[i].owner() == Some(client),
    decreases workers.len(),
{
    if workers.len() > 0 {
        let fewer = workers.drop_last();
        let rest = workers_of(fewer, client);
        workers_of_are_owned(fewer, client);
        assert forall|i: int| #[trigger] workers_of(workers, client).contains(i) implies 0 <= i
            < workers.len() && workers[i].owner() == Some(client) by {
            let all = workers_of(workers, client);
            let j = choose|j: int| 0 <= j < all.len() && all[j] == i;
            if j < rest.len() {
                assert(rest[j] == i);
                assert(rest.contains(i));
                assert(fewer[i] == workers[i]);
            }
        }
    }
}

/// What the client is after a command that attaches it has gone to the worker.
pub open spec fn attaching_client(
    before: PublicClient,
    after: PublicClient,
    body: JsonV,
    active: Seq<char>,
) -> bool {
    &&& after == (PublicClient {
        id: after.id,
        supports_extension_ui: after.supports_extension_ui,
        subscriptions: after.subscriptions,
        ..before
    })
    &&& after.supports_extension_ui == offers_dialogs(body)
    &&& after.id@ == match body.str_at("clientId"@) {
        Some(id) => id,
        None => before.id@,
    }
    &&& after.subscriptions@ == before.subscriptions@.insert(active, ())
}

impl Supervisor {
    /// What becomes of a client's command for a session whose worker was found: some
    /// the supervisor sees to itself, the others go to the worker, under names that
    /// no other client's can be taken for. A worker that is promoted belongs to nobody
    /// from now on; its descriptor is to be written.
    pub fn route(&mut self, at: usize, worker: usize, active: &str, body: Json) -> (r: Result<
        RoutePlan,
        String,
    >)
        requires
            old(self).wf(),
            at < old(self).clients@.len(),
            worker < old(self).workers@.len(),
        ensures
            final(self).wf(),
            match r {
                Ok(RoutePlan::Promote) => {
                    &&& final(self).socket_path == old(self).socket_path
                    &&& final(self).clients == old(self).clients
                    &&& final(self).pauses == old(self).pauses
                    &&& final(self).stopped == old(self).stopped
                    &&& final(self).workers@ == old(self).workers@.update(
                        worker as int,
                        promoted(old(self).workers@[worker as int]),
                    )
                },
                _ => final(self).same_but_client(*old(self), at as int),
            },
            ({
                let client = old(self).clients@[at as int];
                let after = final(self).clients@[at as int];
                let target = old(self).workers@[worker as int];
                let addressed = with_member(body@, "activeSessionId"@, JsonV::Str(active@));
                let kind = body@.str_at("type"@).unwrap_or(Seq::empty());
                let own = kind == "complete_owned_session"@ || kind == "promote_owned_session"@;
                if own && target.owner() != Some(client.name()) {
                    r matches Err(error) && error@ == "Session is not owned by this client"@ && after
                        == client
                } else if own || (kind == "kill"@ && target.descriptor.root_active_session_id@
                    == active@) {
                    after == client && r == Ok::<RoutePlan, String>(
                        if kind == "promote_owned_session"@ {
                            RoutePlan::Promote
                        } else {
                            RoutePlan::Stop
                        },
                    )
                } else {
                    match (r, routed(kind, body@, active@, client)) {
                        (Ok(RoutePlan::Forward(command)), Ok(expected)) => command@ == expected
                            && if attaches(kind) {
                            attaching_client(client, after, addressed, active@)
                        } else {
                            after == client
                        },
                        (Err(error), Err(expected)) => error@ == expected && after == client,
                        _ => false,
                    }
                }
            }),
    {
        let kind: String = match body.str_at("type") {
            Some(kind) => kind.to_owned(),
            None => String::new(),
        };
        assert(kind@ =~= body@.str_at("type"@).unwrap_or(Seq::empty()));
        proof {
            routed_kinds_differ();
        }
        let identity = self.clients[at].identity();
        let promote: bool = same(&kind, "promote_owned_session");
        if promote || same(&kind, "complete_owned_session") {
            let owned_by: bool = match &self.workers[worker].descriptor.owner_client_id {
                Some(owner) => same(owner, &identity),
                None => false,
            };
            if !owned_by {
                return Err("Session is not owned by this client".to_owned());
            }
            if promote {
                self.workers[worker].descriptor.owner_client_id = None;
                assert(self.workers@ =~= old(self).workers@.update(
                    worker as int,
                    promoted(old(self).workers@[worker as int]),
                ));
                return Ok(RoutePlan::Promote);
            }
            return Ok(RoutePlan::Stop);
        }
        if same(&kind, "kill") && same(
            &self.workers[worker].descriptor.root_active_session_id,
            active,
        ) {
            return Ok(RoutePlan::Stop);
        }
        let addressed = replace_in(body, "activeSessionId", json::text(active));
        if same(&kind, "acquire_session_input_pause") {
            let lease = match addressed.str_at("leaseKey") {
                Some(key) => lease_text(&self.clients[at].connection_id, &identity, key),
                None => return Err("Session input pause requires leaseKey".to_owned()),
            };
            return Ok(RoutePlan::Forward(replace_in(addressed, "leaseKey", Json::Str(lease))));
        }
        if same(&kind, "prompt") || same(&kind, "prompt_and_wait") || same(
            &kind,
            "cancel_prompt_admission",
        ) {
            let name = match addressed.str_at("admissionId") {
                Some(admission) => cat4(
                    "supervisor-admission:",
                    &self.clients[at].connection_id,
                    ":",
                    admission,
                ),
                None => return Ok(RoutePlan::Forward(addressed)),
            };
            return Ok(RoutePlan::Forward(replace_in(addressed, "admissionId", Json::Str(name))));
        }
        if same(&kind, "attach") || same(&kind, "reattach") {
            let dialogs: bool = asks_for_dialogs(&addressed);
            self.clients[at].supports_extension_ui = dialogs;
            if let Some(id) = addressed.str_at("clientId") {
                self.clients[at].id = id.to_owned();
            }
            self.clients[at].subscriptions.insert(active.to_owned(), ());
            return Ok(RoutePlan::Forward(attach_command(addressed)));
        }
        Ok(RoutePlan::Forward(addressed))
    }
}

proof fn routed_kinds_differ()
    ensures
        text::stamp("complete_owned_session"@) == 101110099022,
        text::stamp("promote_owned_session"@) == 101110112021,
        text::stamp("kill"@) == 108108107004,
        text::stamp("acquire_session_input_pause"@) == 116101097027,
        text::stamp("prompt"@) == 112116112006,
        text::stamp("prompt_and_wait"@) == 119116112015,
        text::stamp("cancel_prompt_admission"@) == 105110099023,
        text::stamp("attach"@) == 99104097006,
        text::stamp("reattach"@) == 99104114008,
{
    reveal_strlit("complete_owned_session");
    reveal_strlit("promote_owned_session");
    reveal_strlit("kill");
    reveal_strlit("acquire_session_input_pause");
    reveal_strlit("prompt");
    reveal_strlit("prompt_and_wait");
    reveal_strlit("cancel_prompt_admission");
    reveal_strlit("attach");
    reveal_strlit("reattach");
}

/// The assistant's message that a snapshot ends with: the one that is being
/// streamed, else the last one that is complete.
pub open spec fn last_assistant(messages: Seq<JsonV>) -> Option<JsonV>
    decreases messages.len(),
{
    if messages.len() == 0 {
        None
    } else if messages.last().str_at("role"@) == Some("assistant"@) {
        Some(messages.last())
    } else {
        last_assistant(messages.drop_last())
    }
}

/// The message that is being streamed, as a snapshot tells it.
pub open spec fn streaming_message(snapshot: JsonV) -> Option<JsonV> {
    match snapshot.get("summary"@) {
        Some(summary) => match summary.get("streamingMessage"@) {
            Some(message) if message.str_at("role"@) == Some("assistant"@) => Some(message),
            _ => None,
        },
        None => None,
    }
}

/// The assistant's message that a snapshot ends with.
pub open spec fn seed_of(snapshot: JsonV) -> Option<JsonV> {
    match streaming_message(snapshot) {
        Some(message) => Some(message),
        None => match snapshot.get("messages"@) {
            Some(JsonV::Arr(messages)) => last_assistant(messages),
            _ => None,
        },
    }
}

/// The assistant's message that a snapshot ends with.
pub fn seed_message(snapshot: &Json) -> (r: Option<Json>)
    ensures
        json::opt_json(r) == seed_of(snapshot@),
{
    broadcast use json::array_view;

    if let Some(summary) = snapshot.get("summary") {
        if let Some(message) = summary.get("streamingMessage") {
            if message.str_is("role", "assistant") {
                return Some(message.clone());
            }
        }
    }
    match snapshot.get("messages") {
        Some(Json::Array(messages)) => {
            let ghost all = json::items(messages@);
            let mut i: usize = messages.len();
            assert(all.take(i as int) =~= all);
            while i > 0
                invariant
                    i <= messages.len(),
                    all == json::items(messages@),
                    streaming_message(snapshot@) is None,
                    snapshot@.get("messages"@) == Some(JsonV::Arr(all)),
                    last_assistant(all) == last_assistant(all.take(i as int)),
                decreases i,
            {
                i -= 1;
                assert(all.take(i + 1).last() == messages@[i as int]@);
                assert(all.take(i + 1).drop_last() =~= all.take(i as int));
                if messages[i].str_is("role", "assistant") {
                    return Some(messages[i].clone());
                }
            }
            assert(all.take(0) =~= Seq::empty());
            None
        },
        _ => None,
    }
}

/// A command that went to a worker.
#[derive(Debug, PartialEq)]
pub struct RoutedCommand {
    pub id: Option<String>,
    pub kind: String,
    pub requested: String,
    pub active: String,
    /// How often the client's pauses had been released when the command went out.
    pub pause_epoch: u64,
}

/// The data of a worker's answer as clients see them.
pub open spec fn public_data(
    data: JsonV,
    clients: Seq<PublicClient>,
    descriptor: DaemonWorkerDescriptor,
) -> JsonV {
    let whole = if data.get("sessionId"@) is Some {
        public_of(data, clients, descriptor)
    } else {
        data
    };
    let stated = match whole.get("state"@) {
        Some(state) => with_member(whole, "state"@, public_of(state, clients, descriptor)),
        None => whole,
    };
    match stated.get("snapshot"@) {
        Some(snapshot) => match snapshot.get("summary"@) {
            Some(summary) => with_member(
                stated,
                "snapshot"@,
                with_member(snapshot, "summary"@, public_of(summary, clients, descriptor)),
            ),
            None => stated,
        },
        None => stated,
    }
}

/// The data of an answer to a command that attaches, with the client's own id.
pub open spec fn with_client_id(data: JsonV, id: Seq<char>) -> JsonV {
    match data.get("client"@) {
        Some(JsonV::Obj(client)) => with_member(
            data,
            "client"@,
            JsonV::Obj(json::put(client, "id"@, JsonV::Str(id))),
        ),
        _ => data,
    }
}

/// What is left to be done once a worker has answered.
#[derive(Debug, Clone, Copy, PartialEq, Eq, Structural)]
pub enum Completion {
    /// The client gets the answer.
    Done,
    /// The supervisor subscribes to the session, and the client gets the answer.
    Subscribe,
    /// The client's pauses of the session are released: it has gone, or has given up
    /// its pauses meanwhile.
    Invalidated,
}

/// The pause was given up before it was there.
pub open spec fn given_up(client: PublicClient, epoch: u64) -> bool {
    client.stopped || client.pause_epoch != epoch
}

/// The answer that the client gets.
pub open spec fn final_answer(
    response: ResponseV,
    request: RoutedCommand,
    clients: Seq<PublicClient>,
    client_id: Seq<char>,
    descriptor: DaemonWorkerDescriptor,
) -> ResponseV {
    let shown = match response.data {
        Some(data) if response.success => {
            let public = public_data(data, clients, descriptor);
            Some(
                if attaches(request.kind@) {
                    with_client_id(public, client_id)
                } else {
                    public
                },
            )
        },
        data => data,
    };
    ResponseV {
        id: json::opt_view(request.id),
        command: request.kind@,
        data: shown,
        ..response
    }
}

/// The message with which a worker's stream begins after a client was attached.
pub open spec fn seed_in(answer: ResponseV) -> Option<JsonV> {
    match answer.data {
        Some(data) => match data.get("snapshot"@) {
            Some(snapshot) => match seed_of(snapshot) {
                Some(message) if assistant_message::is_message(message) => Some(message),
                _ => None,
            },
            None => None,
        },
        None => None,
    }
}

impl Supervisor {
    fn shown_data(&self, worker: usize, data: Json) -> (r: Json)
        requires
            self.wf(),
            worker < self.workers@.len(),
        ensures
            r@ == public_data(data@, self.clients@, self.workers@[worker as int].descriptor),
    {
        let whole = if data.get("sessionId").is_some() {
            self.public_summary(worker, &data)
        } else {
            data
        };
        let state = match whole.get("state") {
            Some(state) => Some(self.public_summary(worker, state)),
            None => None,
        };
        let stated = match state {
            Some(state) => replace_in(whole, "state", state),
            None => whole,
        };
        let snapshot = match stated.get("snapshot") {
            Some(snapshot) => match snapshot.get("summary") {
                Some(summary) => Some(
                    replace_in(
                        snapshot.clone(),
                        "summary",
                        self.public_summary(worker, summary),
                    ),
                ),
                None => None,
            },
            None => None,
        };
        match snapshot {
            Some(snapshot) => replace_in(stated, "snapshot", snapshot),
            None => stated,
        }
    }

    /// Takes a worker's answer to a command: what the client gets, and what is left
    /// to be done. A pause that the client has given up meanwhile is an error, once
    /// it was released.
    pub fn finish(
        &mut self,
        at: usize,
        worker: usize,
        request: &RoutedCommand,
        response: DaemonResponse,
    ) -> (r: Result<(DaemonResponse, Completion), String>)
        requires
            old(self).wf(),
            at < old(self).clients@.len(),
            worker < old(self).workers@.len(),
        ensures
            final(self).wf(),
            final(self).socket_path == old(self).socket_path,
            final(self).stopped == old(self).stopped,
            final(self).clients@.len() == old(self).clients@.len(),
            final(self).workers@.len() == old(self).workers@.len(),
            ({
                let client = old(self).clients@[at as int];
                let target = old(self).workers@[worker as int];
                let answer = final_answer(
                    response@,
                    *request,
                    old(self).clients@,
                    client.id@,
                    target.descriptor,
                );
                let pausing = request.kind@ == "acquire_session_input_pause"@ && response.success;
                let pause_id = match answer.data {
                    Some(data) => data.str_at("pauseId"@),
                    None => None,
                };
                &&& match r {
                    Ok((shown, completion)) => {
                        &&& shown@ == answer
                        &&& pausing ==> pause_id is Some
                        &&& completion == if pausing && given_up(client, request.pause_epoch) {
                            Completion::Invalidated
                        } else if attaches(request.kind@) && response.success {
                            Completion::Subscribe
                        } else {
                            Completion::Done
                        }
                    },
                    Err(error) => pausing && pause_id is None && error@
                        == "Worker returned an invalid session input pause id"@,
                }
                &&& if pausing && pause_id is Some {
                    final(self).pauses@.dom() == old(self).pauses@.dom().insert(pause_id->0)
                        && final(self).pauses@[pause_id->0] == (InputPause {
                        connection_id: client.connection_id,
                        worker_id: target.descriptor.worker_id,
                        active: request.active,
                        requested: request.requested,
                    }) && forall|id: Seq<char>| #[trigger]
                        old(self).pauses@.contains_key(id) && id != pause_id->0
                            ==> final(self).pauses@[id] == old(self).pauses@[id]
                } else {
                    final(self).pauses == old(self).pauses
                }
                &&& forall|i: int|
                    0 <= i < old(self).clients@.len() && i != at ==> #[trigger] final(self).clients@[i]
                        == old(self).clients@[i]
                &&& if attaches(request.kind@) && !response.success {
                    let after = final(self).clients@[at as int];
                    after == (PublicClient { subscriptions: after.subscriptions, ..client })
                        && after.subscriptions@ == client.subscriptions@.remove(request.active@)
                } else {
                    final(self).clients@[at as int] == client
                }
                &&& forall|i: int|
                    0 <= i < old(self).workers@.len() && i != worker
                        ==> #[trigger] final(self).workers@[i] == old(self).workers@[i]
                &&& {
                    let after = final(self).workers@[worker as int];
                    &&& after == (Worker { stream: after.stream, ..target })
                    &&& match seed_in(answer) {
                        Some(message) if attaches(request.kind@) && response.success => {
                            &&& after.stream.messages() == target.stream.messages().insert(
                                request.active@,
                                assistant_message::message_of(message),
                            )
                            &&& after.stream.tool_call_json == target.stream.tool_call_json
                        },
                        _ => after == target,
                    }
                }
            }),
    {
        proof {
            routed_kinds_differ();
        }
        let succeeded: bool = response.success;
        let attaching: bool = same(&request.kind, "attach") || same(&request.kind, "reattach");
        let data = match response.data {
            Some(data) => if succeeded {
                let shown = self.shown_data(worker, data);
                if attaching {
                    Some(own_client_id(shown, &self.clients[at].id))
                } else {
                    Some(shown)
                }
            } else {
                Some(data)
            },
            None => None,
        };
        let answer = DaemonResponse {
            id: request.id.clone(),
            command: request.kind.clone(),
            success: succeeded,
            data,
            error: response.error,
            error_info: response.error_info,
        };
        if same(&request.kind, "acquire_session_input_pause") && succeeded {
            let pause_id: String = match &answer.data {
                Some(data) => match data.str_at("pauseId") {
                    Some(id) => id.to_owned(),
                    None => return Err(
                        "Worker returned an invalid session input pause id".to_owned(),
                    ),
                },
                None => return Err("Worker returned an invalid session input pause id".to_owned()),
            };
            let pause = InputPause {
                connection_id: self.clients[at].connection_id.clone(),
                worker_id: self.workers[worker].descriptor.worker_id.clone(),
                active: request.active.clone(),
                requested: request.requested.clone(),
            };
            self.pauses.insert(pause_id, pause);
            if self.clients[at].stopped || self.clients[at].pause_epoch != request.pause_epoch {
                return Ok((answer, Completion::Invalidated));
            }
            return Ok((answer, Completion::Done));
        }
        if !attaching {
            return Ok((answer, Completion::Done));
        }
        if !succeeded {
            self.clients[at].subscriptions.remove(&request.active);
            return Ok((answer, Completion::Done));
        }
        let message: Option<AssistantMessage> = match &answer.data {
            Some(data) => match data.get("snapshot") {
                Some(snapshot) => match seed_message(snapshot) {
                    Some(message) => AssistantMessage::from_value(&message),
                    None => None,
                },
                None => None,
            },
            None => None,
        };
        if let Some(message) = message {
            self.workers[worker].stream.seed(&request.active, message);
        }
        Ok((answer, Completion::Subscribe))
    }

    /// The supervisor has subscribed to a session that a client was attached to: a
    /// client that came from another session leaves that one, and is told so.
    pub fn attached(&mut self, at: usize, kind: &str, previous: Option<&str>, active: &str) -> (r:
        Option<Json>)
        requires
            old(self).wf(),
            at < old(self).clients@.len(),
        ensures
            final(self).wf(),
            final(self).same_but_client(*old(self), at as int),
            ({
                let before = old(self).clients@[at as int];
                let after = final(self).clients@[at as int];
                match previous {
                    Some(previous) if kind@ == "reattach"@ && previous@ != active@ => {
                        &&& after == (PublicClient { subscriptions: after.subscriptions, ..before })
                        &&& after.subscriptions@ == before.subscriptions@.remove(previous@)
                        &&& r matches Some(notice) && notice@ == detached_value(previous@)
                    },
                    _ => after == before && r is None,
                }
            }),
    {
        if !same(kind, "reattach") {
            return None;
        }
        match previous {
            Some(previous) => if same(previous, active) {
                None
            } else {
                self.clients[at].subscriptions.remove(previous);
                Some(detached_notice(previous))
            },
            None => None,
        }
    }
}

fn own_client_id(data: Json, id: &str) -> (r: Json)
    ensures
        r@ == with_client_id(data@, id@),
{
    broadcast use json::object_view;

    let client = match data.get("client") {
        Some(Json::Object(members)) => {
            let mut members = clone_members(members);
            set_member(&mut members, "id", json::text(id));
            json::object(members)
        },
        _ => return data,
    };
    replace_in(data, "client", client)
}

/// The error with which the acquisition of a pause ends that was given up.
pub fn invalidated_pause() -> (r: String)
    ensures
        r@ == "Session input pause acquisition was invalidated before completion"@,
{
    "Session input pause acquisition was invalidated before completion".to_owned()
}


/// The sessions of a worker as clients see them.
pub open spec fn shown_summaries(
    summaries: Seq<Json>,
    clients: Seq<PublicClient>,
    descriptor: DaemonWorkerDescriptor,
) -> Seq<JsonV> {
    Seq::new(summaries.len(), |i: int| public_of(summaries[i]@, clients, descriptor))
}

/// The sessions of the workers that are shown to a client.
pub open spec fn shown_sessions(
    workers: Seq<Worker>,
    clients: Seq<PublicClient>,
    identity: Seq<char>,
) -> Seq<JsonV>
    decreases workers.len(),
{
    if workers.len() == 0 {
        Seq::empty()
    } else {
        let rest = shown_sessions(workers.drop_last(), clients, identity);
        if shown_to(workers.last(), identity) {
            rest + shown_summaries(
                workers.last().summaries@,
                clients,
                workers.last().descriptor,
            )
        } else {
            rest
        }
    }
}

impl Supervisor {
    /// The list of the sessions that are shown to a client, once every worker that is
    /// shown to it has listed its own.
    pub fn list_sessions(&self, identity: &str) -> (r: Json)
        requires
            self.wf(),
        ensures
            r@ == JsonV::Obj(
                seq![
                    (
                        "sessions"@,
                        JsonV::Arr(shown_sessions(self.workers@, self.clients@, identity@)),
                    ),
                ],
            ),
    {
        let mut sessions: Vec<Json> = Vec::new();
        let mut i: usize = 0;
        assert(self.workers@.take(0) =~= Seq::empty());
        assert(json::items(sessions@) =~= Seq::empty());
        while i < self.workers.len()
            invariant
                self.wf(),
                i <= self.workers.len(),
                json::items(sessions@) == shown_sessions(
                    self.workers@.take(i as int),
                    self.clients@,
                    identity@,
                ),
            decreases self.workers.len() - i,
        {
            let worker = &self.workers[i];
            assert(self.workers@.take(i + 1).drop_last() =~= self.workers@.take(i as int));
            assert(self.workers@.take(i + 1).last() == *worker);
            if visible(worker, identity) {
                let ghost rest = json::items(sessions@);
                let ghost own = shown_summaries(
                    worker.summaries@,
                    self.clients@,
                    worker.descriptor,
                );
                let mut j: usize = 0;
                assert(rest + own.take(0) =~= rest);
                while j < worker.summaries.len()
                    invariant
                        self.wf(),
                        i < self.workers.len(),
                        *worker == self.workers@[i as int],
                        own == shown_summaries(
                            worker.summaries@,
                            self.clients@,
                            worker.descriptor,
                        ),
                        j <= worker.summaries.len(),
                        json::items(sessions@) == rest + own.take(j as int),
                    decreases worker.summaries.len() - j,
                {
                    let shown = self.public_summary(i, &worker.summaries[j]);
                    let ghost before = sessions@;
                    let ghost view = shown@;
                    sessions.push(shown);
                    assert(json::items(sessions@) =~= json::items(before).push(view));
                    j += 1;
                    assert(json::items(sessions@) =~= rest + own.take(j as int));
                }
                assert(own.take(j as int) =~= own);
            }
            i += 1;
        }
        assert(self.workers@.take(i as int) =~= self.workers@);
        let mut pairs = json::no_members();
        json::add_member(&mut pairs, "sessions", json::array(sessions));
        let r = json::object(pairs);
        assert(r@->Obj_0 =~= seq![
            (
                "sessions"@,
                JsonV::Arr(shown_sessions(self.workers@, self.clients@, identity@)),
            ),
        ]);
        r
    }
}

/// What saved sessions look like on the wire.
pub open spec fn saved_values(sessions: Seq<SessionInfo>) -> Seq<JsonV> {
    Seq::new(
        sessions.len(),
        |i: int| saved_session_info::wire_value(saved_session_info::sent(sessions[i]@)),
    )
}

/// The list of saved sessions.
pub fn list_saved_sessions(sessions: &Vec<SessionInfo>) -> (r: Json)
    ensures
        r@ == JsonV::Obj(seq![("sessions"@, JsonV::Arr(saved_values(sessions@)))]),
{
    let mut values: Vec<Json> = Vec::new();
    let ghost all = saved_values(sessions@);
    let mut i: usize = 0;
    assert(json::items(values@) =~= all.take(0));
    while i < sessions.len()
        invariant
            i <= sessions.len(),
            all == saved_values(sessions@),
            json::items(values@) == all.take(i as int),
        decreases sessions.len() - i,
    {
        let wire = serialize_saved_session_info(&sessions[i]);
        let value = wire.to_value();
        let ghost before = values@;
        let ghost view = value@;
        values.push(value);
        assert(json::items(values@) =~= json::items(before).push(view));
        i += 1;
        assert(json::items(values@) =~= all.take(i as int));
    }
    assert(all.take(i as int) =~= all);
    let mut pairs = json::no_members();
    json::add_member(&mut pairs, "sessions", json::array(values));
    let r = json::object(pairs);
    assert(r@->Obj_0 =~= seq![("sessions"@, JsonV::Arr(all))]);
    r
}

} // verus!
