//! What holds of the words that the supervisor, its workers and its clients tell each
//! other, and of the variables and records that they pass on.

use vstd::prelude::*;

use crate::active_session_state::TextSet;
use crate::agent_roster;
use crate::agent_roster::WorkerEntryV;
use crate::assistant_message;
use crate::compact_session_stream;
use crate::compact_session_stream::{CompactAssistantStreamReconstructor, Observation};
use crate::daemon_catalog_process;
use crate::daemon_extension_binding;
use crate::daemon_mode;
use crate::daemon_mode::DaemonOutbound;
use crate::daemon_supervisor_ownership;
use crate::daemon_supervisor_ownership::DaemonSupervisorOwnerRecord;
use crate::daemon_worker_client;
use crate::daemon_worker_client::AnswerReading;
use crate::daemon_worker_protocol;
use crate::daemon_worker_protocol::{
    DAEMON_WORKER_ACTIVE_SESSION_ID_ENV, DAEMON_WORKER_INSTANCE_ID_ENV,
    DAEMON_WORKER_RECOVERY_JOURNAL_ENV, DAEMON_WORKER_ROLE_ENV,
    DAEMON_WORKER_SUPERVISOR_SOCKET_ENV, DAEMON_WORKER_TOKEN_ENV, DaemonWorkerDescriptor,
    DaemonWorkerRosterOutbound, SESSION_LEASES_ENABLED_ENV, SESSION_LEASE_OWNER_ID_ENV,
};
use crate::heartbeat_catalog;
use crate::json;
use crate::json::{Json, JsonV};
use crate::native_supervisor;
use crate::native_supervisor::{DaemonFacts, PublicClient, WorkerLaunch};
use crate::path_facts;
use crate::protocol::ResponseV;
use crate::rlm_ledger;
use crate::rlm_ledger::{LegacyV, RecordV, RlmLedgerSeedRegistryEntry};
use crate::saved_session_catalog;
use crate::text;

verus! {

proof fn told_names()
    ensures
        text::stamp("type"@) == 101101116004,
        text::stamp("activeSessionId"@) == 111100097015,
        text::stamp("pauseId"@) == 73100112007,
        text::stamp("command"@) == 110100099007,
        text::stamp("id"@) == 100100105002,
        text::stamp("success"@) == 115115115007,
        text::stamp("error"@) == 111114101005,
        text::stamp("errorInfo"@) == 110111101009,
        text::stamp("code"@) == 101101099004,
        text::stamp("clientId"@) == 73100099008,
        text::stamp("commandId"@) == 100100099009,
        text::stamp("response"@) == 115101114008,
        text::stamp("session_detached"@) == 99100115016,
        text::stamp("release_session_input_pause"@) == 116101114027,
        text::stamp("command_result_uncertain"@) == 101110099024,
        text::stamp("supervisorGeneration"@) == 97110115020,
        text::stamp("supervisorPid"@) == 114100115013,
        text::stamp("supervisorSocketPath"@) == 116104115020,
        text::stamp("supervisorProcessStartId"@) == 116100115024,
        text::stamp("daemon_hello"@) == 108111100012,
        text::stamp("socketPath"@) == 97104115010,
        text::stamp("protocol"@) == 111108112008,
        text::stamp("schemaId"@) == 73100115008,
        text::stamp("schemaRevision"@) == 115110115014,
        text::stamp("appVersion"@) == 105110097010,
        text::stamp("runtime"@) == 109101114007,
{
    reveal_strlit("type");
    reveal_strlit("activeSessionId");
    reveal_strlit("pauseId");
    reveal_strlit("command");
    reveal_strlit("id");
    reveal_strlit("success");
    reveal_strlit("error");
    reveal_strlit("errorInfo");
    reveal_strlit("code");
    reveal_strlit("clientId");
    reveal_strlit("commandId");
    reveal_strlit("response");
    reveal_strlit("session_detached");
    reveal_strlit("release_session_input_pause");
    reveal_strlit("command_result_uncertain");
    reveal_strlit("supervisorGeneration");
    reveal_strlit("supervisorPid");
    reveal_strlit("supervisorSocketPath");
    reveal_strlit("supervisorProcessStartId");
    reveal_strlit("daemon_hello");
    reveal_strlit("socketPath");
    reveal_strlit("protocol");
    reveal_strlit("schemaId");
    reveal_strlit("schemaRevision");
    reveal_strlit("appVersion");
    reveal_strlit("runtime");
}

/// A pause is released by its own id, in its own session.
pub proof fn releases_name_their_pause(id: Seq<char>, active: Seq<char>)
    ensures
        ({
            let value = JsonV::Obj(native_supervisor::release_members(id, active));
            &&& value.str_at("type"@) == Some("release_session_input_pause"@)
            &&& value.str_at("activeSessionId"@) == Some(active)
            &&& value.str_at("pauseId"@) == Some(id)
        }),
{
    broadcast use {json::lookup_push, json::lookup_empty};

    told_names();
    assert(native_supervisor::release_members(id, active) =~= Seq::empty().push(
        ("type"@, JsonV::Str("release_session_input_pause"@)),
    ).push(("activeSessionId"@, JsonV::Str(active))).push(("pauseId"@, JsonV::Str(id))));
}

/// A client that has left a session is told which; a command without members is its kind.
pub proof fn detached_clients_are_told(active: Seq<char>, kind: Seq<char>)
    ensures
        native_supervisor::detached_value(active).str_at("type"@) == Some("session_detached"@),
        native_supervisor::detached_value(active).str_at("activeSessionId"@) == Some(active),
        JsonV::Obj(native_supervisor::bare_command(kind)).str_at("type"@) == Some(kind),
        native_supervisor::bare_command(kind).len() == 1,
{
    broadcast use {json::lookup_push, json::lookup_empty};

    told_names();
    assert(native_supervisor::detached_value(active)->Obj_0 =~= Seq::empty().push(
        ("type"@, JsonV::Str("session_detached"@)),
    ).push(("activeSessionId"@, JsonV::Str(active))));
    assert(native_supervisor::bare_command(kind) =~= Seq::empty().push(
        ("type"@, JsonV::Str(kind)),
    ));
}

/// A command whose earlier result is not known fails, and the answer names the command
/// and the client that it came from.
pub proof fn uncertain_results_are_failures(kind: Seq<char>, client: Seq<char>, id: Seq<char>)
    ensures
        ({
            let value = native_supervisor::uncertain_value(kind, client, id);
            &&& value.str_at("type"@) == Some("response"@)
            &&& value.str_at("command"@) == Some(kind)
            &&& value.str_at("id"@) == Some(id)
            &&& value.bool_at("success"@) == Some(false)
            &&& value.str_at("error"@) is Some
            &&& value.get("errorInfo"@) is Some
            &&& value.get("errorInfo"@)->0.str_at("code"@) == Some("command_result_uncertain"@)
            &&& value.get("errorInfo"@)->0.str_at("clientId"@) == Some(client)
            &&& value.get("errorInfo"@)->0.str_at("commandId"@) == Some(id)
        }),
{
    broadcast use {json::lookup_push, json::lookup_empty};

    told_names();
    let info = Seq::<(Seq<char>, JsonV)>::empty().push(
        ("code"@, JsonV::Str("command_result_uncertain"@)),
    ).push(("clientId"@, JsonV::Str(client))).push(("commandId"@, JsonV::Str(id)));
    assert(info =~= seq![
        ("code"@, JsonV::Str("command_result_uncertain"@)),
        ("clientId"@, JsonV::Str(client)),
        ("commandId"@, JsonV::Str(id)),
    ]);
    let value = native_supervisor::uncertain_value(kind, client, id);
    let said = value->Obj_0[4].1;
    assert(value->Obj_0 =~= Seq::empty().push(("type"@, JsonV::Str("response"@))).push(
        ("command"@, JsonV::Str(kind)),
    ).push(("id"@, JsonV::Str(id))).push(("success"@, JsonV::Bool(false))).push(
        ("error"@, said),
    ).push(("errorInfo"@, JsonV::Obj(info))));
}

/// The supervisor shows a worker its generation, its process and its socket.
pub proof fn supervisors_show_who_they_are(owner: DaemonSupervisorOwnerRecord)
    ensures
        ({
            let value = JsonV::Obj(native_supervisor::claim_members(owner));
            &&& value.str_at("supervisorGeneration"@) == Some(owner.generation@)
            &&& value.get("supervisorPid"@) == Some(json::int_value(owner.pid as int))
            &&& value.str_at("supervisorSocketPath"@) == Some(owner.socket_path@)
            &&& value.str_at("supervisorProcessStartId"@) == json::opt_view(owner.process_start_id)
        }),
{
    broadcast use {json::lookup_push, json::lookup_empty};

    told_names();
    let head = Seq::<(Seq<char>, JsonV)>::empty().push(
        ("supervisorGeneration"@, JsonV::Str(owner.generation@)),
    ).push(("supervisorPid"@, json::int_value(owner.pid as int))).push(
        ("supervisorSocketPath"@, JsonV::Str(owner.socket_path@)),
    );
    assert(head =~= seq![
        ("supervisorGeneration"@, JsonV::Str(owner.generation@)),
        ("supervisorPid"@, json::int_value(owner.pid as int)),
        ("supervisorSocketPath"@, JsonV::Str(owner.socket_path@)),
    ]);
}

/// A daemon greets with its socket, its protocol, its schema and its version.
pub proof fn greetings_say_who_greets(socket: Seq<char>, facts: DaemonFacts)
    ensures
        ({
            let value = JsonV::Obj(native_supervisor::hello_head(socket, facts));
            &&& value.str_at("type"@) == Some("daemon_hello"@)
            &&& value.str_at("socketPath"@) == Some(socket)
            &&& value.get("protocol"@) == Some(facts.protocol@)
            &&& value.str_at("schemaId"@) == Some(facts.schema_id@)
            &&& value.get("schemaRevision"@) == Some(json::int_value(facts.schema_revision as int))
            &&& value.str_at("appVersion"@) == Some(facts.app_version@)
            &&& value.get("runtime"@) == Some(facts.runtime@)
        }),
{
    broadcast use {json::lookup_push, json::lookup_empty};

    told_names();
}

/// How many bytes a text takes.
pub open spec fn bytes_of(said: Seq<char>) -> nat
    decreases said.len(),
{
    if said.len() == 0 {
        0
    } else {
        native_supervisor::byte_width(said[0]) + bytes_of(said.drop_first())
    }
}

/// A character takes as many bytes as its number needs: one below 128, two below 2048,
/// three below 65536 and four otherwise.
pub proof fn characters_have_their_width(c: char)
    ensures
        native_supervisor::byte_width(c) == 1 <==> (c as u32) < 128,
        native_supervisor::byte_width(c) == 2 <==> 128 <= (c as u32) < 2048,
        native_supervisor::byte_width(c) == 3 <==> 2048 <= (c as u32) < 65536,
        native_supervisor::byte_width(c) == 4 <==> 65536 <= (c as u32),
{
}

/// What is cut from a text is its beginning, as many bytes as were asked for, or all of a
/// text that is shorter; a cut through a character gives nothing.
pub proof fn cuts_are_beginnings(said: Seq<char>, bytes: nat)
    ensures
        native_supervisor::cut_at(said, bytes) matches Some(cut) ==> {
            &&& cut.len() <= said.len()
            &&& cut == said.take(cut.len() as int)
            &&& bytes_of(cut) == bytes || cut == said && bytes_of(said) <= bytes
        },
        forall|n: int|
            0 <= n <= said.len() && bytes_of(#[trigger] said.take(n)) == bytes
                ==> native_supervisor::cut_at(said, bytes) == Some(said.take(n)),
        bytes_of(said) <= bytes ==> native_supervisor::cut_at(said, bytes) == Some(said),
    decreases said.len(),
{
    if said.len() == 0 {
        assert(said =~= Seq::<char>::empty());
        assert forall|n: int| 0 <= n <= said.len() implies #[trigger] said.take(n) == said by {
            assert(said.take(n) =~= said);
        }
    } else if bytes == 0 {
        assert(said.take(0) =~= Seq::<char>::empty());
        assert(bytes_of(Seq::<char>::empty()) == 0);
        assert forall|n: int| 0 <= n <= said.len() && bytes_of(#[trigger] said.take(n)) == 0 implies
            said.take(n) == Seq::<char>::empty() by {
            if n > 0 {
                assert(said.take(n)[0] == said[0]);
            } else {
                assert(said.take(n) =~= Seq::<char>::empty());
            }
        }
    } else {
        let rest = said.drop_first();
        let width = native_supervisor::byte_width(said[0]);
        if width <= bytes {
            let left = (bytes - width) as nat;
            cuts_are_beginnings(rest, left);
            if let Some(cut) = native_supervisor::cut_at(rest, left) {
                let whole = seq![said[0]] + cut;
                assert(whole.drop_first() =~= cut);
                assert(whole =~= said.take(whole.len() as int));
                if cut == rest {
                    assert(whole =~= said);
                }
            }
        }
        assert forall|n: int| 0 <= n <= said.len() && bytes_of(#[trigger] said.take(n)) == bytes
            implies native_supervisor::cut_at(said, bytes) == Some(said.take(n)) by {
            if n == 0 {
                assert(said.take(0) =~= Seq::<char>::empty());
                assert(bytes_of(Seq::<char>::empty()) == 0);
            } else {
                assert(said.take(n)[0] == said[0]);
                assert(said.take(n).drop_first() =~= rest.take(n - 1));
                assert(bytes_of(rest.take(n - 1)) == bytes - width);
                assert(said.take(n) =~= seq![said[0]] + rest.take(n - 1));
            }
        }
        if bytes_of(said) <= bytes {
            assert(seq![said[0]] + rest =~= said);
        }
    }
}

/// A worker's stream forgets a session that ends and begins one that begins; the other
/// sessions are as they were.
pub proof fn streams_follow_their_sessions(
    before: CompactAssistantStreamReconstructor,
    after: CompactAssistantStreamReconstructor,
    value: JsonV,
    other: Seq<char>,
)
    requires
        native_supervisor::observed(before, after, value),
    ensures
        match compact_session_stream::observation(value) {
            Observation::Nothing => after == before,
            Observation::Clear(id) => {
                &&& !after.messages().contains_key(id)
                &&& forall|key: Seq<char>|
                    #[trigger] after.fragments().contains_key(key) <==> before.fragments().contains_key(
                        key,
                    ) && !text::begins(key, id + ":"@)
                &&& other != id ==> (after.messages().contains_key(other)
                    <==> before.messages().contains_key(other))
                &&& other != id && before.messages().contains_key(other) ==> after.messages()[other]
                    == before.messages()[other]
            },
            Observation::Begin(id, message) => {
                &&& after.messages().contains_key(id) && after.messages()[id] == message
                &&& other != id ==> (after.messages().contains_key(other)
                    <==> before.messages().contains_key(other))
                &&& other != id && before.messages().contains_key(other) ==> after.messages()[other]
                    == before.messages()[other]
                &&& after.fragments() == before.fragments()
            },
        },
{
}

/// An update changes the message of its own session and of no other, and none where the
/// session has no message.
pub proof fn updates_change_their_own_session(
    before: CompactAssistantStreamReconstructor,
    after: CompactAssistantStreamReconstructor,
    delta: compact_session_stream::DeltaV,
    streamed: JsonV,
    other: Seq<char>,
)
    requires
        native_supervisor::rebuilt(before, after, delta, streamed),
        other != delta.active_session_id,
    ensures
        after.messages().contains_key(other) <==> before.messages().contains_key(other),
        before.messages().contains_key(other) ==> after.messages()[other]
            == before.messages()[other],
        compact_session_stream::rebuilt_message(before.partial_messages@, delta, streamed) matches
            Some(message) ==> after.messages().contains_key(delta.active_session_id)
            && after.messages()[delta.active_session_id] == message,
        !before.messages().contains_key(delta.active_session_id) ==> after.fragments()
            == before.fragments(),
{
}

/// A document is a compact update where it says so, names its session and holds an event.
pub proof fn compact_updates_are_recognized(value: JsonV)
    ensures
        compact_session_stream::is_compact(value) <==> value.str_at("type"@) == Some(
            "assistant_stream_delta"@,
        ) && value.str_at("activeSessionId"@) is Some && value.get("assistantMessageEvent"@) is Some
            && value.get("assistantMessageEvent"@)->0 is Obj,
{
}

/// A worker runs its root session, by its active or its own id.
pub proof fn workers_run_their_root(descriptor: DaemonWorkerDescriptor, requested: Seq<char>)
    ensures
        native_supervisor::runs_root(descriptor, requested) <==> {
            ||| descriptor.root_active_session_id@ == requested
            ||| descriptor.root_session_id is Some && descriptor.root_session_id->0@ == requested
        },
{
}

/// Nobody goes by a name that no client bears.
pub proof fn names_are_borne_by_clients(clients: Seq<PublicClient>, owner: Seq<char>)
    ensures
        !native_supervisor::nobody_is(clients, owner) <==> exists|i: int|
            0 <= i < clients.len() && (#[trigger] clients[i]).name() == owner,
{
    if exists|i: int| 0 <= i < clients.len() && (#[trigger] clients[i]).name() == owner {
        let i = choose|i: int| 0 <= i < clients.len() && (#[trigger] clients[i]).name() == owner;
        assert(!(clients[i].name() != owner));
    }
}

/// A create command adds the variables that it lists, and none where it lists none.
pub proof fn create_commands_add_variables(
    body: Seq<(Seq<char>, JsonV)>,
    members: Seq<(Seq<char>, JsonV)>,
)
    ensures
        json::lookup(body, "launchEnv"@) == Some(JsonV::Obj(members))
            ==> native_supervisor::launch_variables(body) == members,
        json::lookup(body, "launchEnv"@) is None ==> native_supervisor::launch_variables(body).len()
            == 0,
{
}

/// After a client was attached a stream begins with the message in the snapshot, where
/// there is one that can be read.
pub proof fn attached_streams_begin_with_the_snapshot(answer: ResponseV)
    ensures
        native_supervisor::seed_in(answer) is Some <==> {
            &&& answer.data is Some
            &&& answer.data->0.get("snapshot"@) is Some
            &&& native_supervisor::seed_of(answer.data->0.get("snapshot"@)->0) is Some
            &&& assistant_message::is_message(
                native_supervisor::seed_of(answer.data->0.get("snapshot"@)->0)->0,
            )
        },
        native_supervisor::seed_in(answer) is Some ==> native_supervisor::seed_in(answer)
            == native_supervisor::seed_of(answer.data->0.get("snapshot"@)->0),
{
}

/// A worker is told its role, its token, its instance, its session, its supervisor and
/// its journals, and that leases are on in its session's name.
pub proof fn workers_are_told_what_they_are(
    launch: WorkerLaunch,
    supervisor: Seq<char>,
    orphans: Seq<char>,
)
    ensures
        ({
            let told = native_supervisor::worker_variables(launch, supervisor, orphans);
            &&& told.contains((DAEMON_WORKER_ROLE_ENV@, "1"@))
            &&& told.contains((DAEMON_WORKER_TOKEN_ENV@, launch.token@))
            &&& told.contains((DAEMON_WORKER_INSTANCE_ID_ENV@, launch.instance@))
            &&& told.contains((DAEMON_WORKER_ACTIVE_SESSION_ID_ENV@, launch.root@))
            &&& told.contains((DAEMON_WORKER_SUPERVISOR_SOCKET_ENV@, supervisor))
            &&& told.contains((DAEMON_WORKER_RECOVERY_JOURNAL_ENV@, launch.recovery_journal@))
            &&& told.contains((SESSION_LEASES_ENABLED_ENV@, "1"@))
            &&& told.contains((SESSION_LEASE_OWNER_ID_ENV@, launch.root@))
            &&& told.contains((orphans, launch.orphan_journal@))
            &&& told.len() == 9
        }),
{
    let told = native_supervisor::worker_variables(launch, supervisor, orphans);
    assert(told[0] == (DAEMON_WORKER_ROLE_ENV@, "1"@));
    assert(told[1] == (DAEMON_WORKER_TOKEN_ENV@, launch.token@));
    assert(told[2] == (DAEMON_WORKER_INSTANCE_ID_ENV@, launch.instance@));
    assert(told[3] == (DAEMON_WORKER_ACTIVE_SESSION_ID_ENV@, launch.root@));
    assert(told[4] == (DAEMON_WORKER_SUPERVISOR_SOCKET_ENV@, supervisor));
    assert(told[5] == (DAEMON_WORKER_RECOVERY_JOURNAL_ENV@, launch.recovery_journal@));
    assert(told[6] == (SESSION_LEASES_ENABLED_ENV@, "1"@));
    assert(told[7] == (SESSION_LEASE_OWNER_ID_ENV@, launch.root@));
    assert(told[8] == (orphans, launch.orphan_journal@));
}

/// A request to the clients of a session carries its session, its id, its method and what
/// is asked.
pub proof fn requests_carry_what_is_asked(
    frame: DaemonOutbound,
    session: Seq<char>,
    id: Seq<char>,
    method: Seq<char>,
    payload: JsonV,
)
    ensures
        daemon_extension_binding::is_request(frame, session, id, method, payload) <==> (frame matches
            DaemonOutbound::ExtensionUiRequest {
            active_session_id,
            id: its_id,
            method: its_method,
            payload: its_payload,
        } && active_session_id@ == session && its_id@ == id && its_method@ == method && its_payload@
            == payload),
{
}

/// The members of a request are those that are there, in order.
pub proof fn present_members_are_sent(
    all: Seq<(String, Option<Json>)>,
    name: String,
    value: Option<Json>,
)
    ensures
        value is Some ==> daemon_extension_binding::present_members(all.push((name, value)))
            == daemon_extension_binding::present_members(all).push((name@, value->0@)),
        value is None ==> daemon_extension_binding::present_members(all.push((name, value)))
            == daemon_extension_binding::present_members(all),
        daemon_extension_binding::present_members(Seq::empty()).len() == 0,
{
    assert(all.push((name, value)).drop_last() =~= all);
}

/// An empty text says nothing; dialogs are shown where a session was attached with them.
pub proof fn empty_texts_say_nothing(said: Seq<char>, entries: Seq<(String, TextSet)>)
    ensures
        daemon_mode::filled(None) is None,
        daemon_mode::filled(Some(said)) is None <==> said.len() == 0,
        said.len() > 0 ==> daemon_mode::filled(Some(said)) == Some(said),
        daemon_mode::dialogs_in(entries) <==> exists|i: int|
            0 <= i < entries.len() && (#[trigger] entries[i]).1@.contains_key("extension_ui"@),
        !daemon_mode::some_dialogs(None),
{
}

/// What is read of a claim, of a fence and of an admission is what they say.
pub proof fn records_are_read_as_they_are(value: JsonV)
    ensures
        daemon_supervisor_ownership::is_scope(value) ==> {
            let scope = daemon_supervisor_ownership::scope_of(value);
            &&& scope.version == 1
            &&& Some(scope.role) == value.str_at("role"@)
            &&& Some(scope.token) == value.str_at("token"@)
            &&& Some(scope.generation) == value.str_at("generation"@)
            &&& Some(scope.socket_path) == value.str_at("socketPath"@)
            &&& Some(scope.descriptor_dir) == value.str_at("descriptorDir"@)
        },
        daemon_supervisor_ownership::is_fence(value) ==> {
            let fence = daemon_supervisor_ownership::fence_of(value);
            &&& fence.version == 1
            &&& Some(fence.token) == value.str_at("token"@)
            &&& Some(fence.owner_token) == value.str_at("ownerToken"@)
            &&& Some(fence.pid) == value.i64_at("pid"@)
            &&& Some(fence.process_start_id) == value.str_at("processStartId"@)
            &&& Some(fence.socket_path) == value.str_at("socketPath"@)
            &&& Some(fence.supervisor_generation) == value.str_at("supervisorGeneration"@)
            &&& Some(fence.created_at) == value.str_at("createdAt"@)
        },
        daemon_supervisor_ownership::is_admission(value) ==> {
            let admission = daemon_supervisor_ownership::admission_of(value);
            &&& admission.version == 1
            &&& Some(admission.token) == value.str_at("token"@)
            &&& Some(admission.pid) == value.i64_at("pid"@)
            &&& admission.process_start_id == value.str_at("processStartId"@)
            &&& Some(admission.created_at) == value.str_at("createdAt"@)
            &&& Some(admission.updated_at) == value.str_at("updatedAt"@)
            &&& Some(admission.expires_at) == value.str_at("expiresAt"@)
        },
{
}

/// A claim counts only in the directory of its own generation; where there is no fence
/// there is none to read, and one that cannot be read is an error.
pub proof fn claims_lie_in_their_own_directory(
    registry: Seq<char>,
    directory: Seq<char>,
    path: Seq<char>,
    contents: Seq<char>,
    generation: Seq<char>,
)
    ensures
        daemon_supervisor_ownership::scope_in(directory, contents) matches Some(scope) ==> {
            &&& daemon_supervisor_ownership::is_generation(scope.generation)
            &&& path_facts::joined_path(
                path_facts::parent_of(directory),
                scope.generation + ".owner"@,
            ) == directory
            &&& json::parsed_json(vstd::utf8::encode_utf8(contents)) is Ok
            &&& daemon_supervisor_ownership::is_scope(
                json::parsed_json(vstd::utf8::encode_utf8(contents))->Ok_0,
            )
        },
        daemon_supervisor_ownership::owner_directory(registry, generation)
            == path_facts::joined_path(registry, generation + ".owner"@),
        daemon_supervisor_ownership::fence_in(path, None) is Ok
            && daemon_supervisor_ownership::fence_in(path, None)->Ok_0 is None,
        daemon_supervisor_ownership::fence_in(path, Some(contents)) is Ok <==> json::parsed_json(
            vstd::utf8::encode_utf8(contents),
        ) is Ok && daemon_supervisor_ownership::is_fence(
            json::parsed_json(vstd::utf8::encode_utf8(contents))->Ok_0,
        ),
        daemon_supervisor_ownership::fence_in(path, Some(contents)) is Ok
            ==> daemon_supervisor_ownership::fence_in(path, Some(contents))->Ok_0 is Some,
{
}

/// A request is settled by an answer to it that can be read as one, or cannot be read.
pub proof fn answers_end_their_request(header: JsonV, pending: Seq<String>, payload: Seq<u8>)
    ensures
        daemon_worker_client::answer_ends(header, pending, payload) <==> (
        daemon_worker_client::answered(header, pending) is Some && (
        daemon_worker_client::read_answer(payload) is Response || daemon_worker_client::read_answer(
            payload,
        ) is Unreadable)),
{
}

proof fn roster_words()
    ensures
        text::stamp("type"@) == 101101116004,
        text::stamp("roster_delta"@) == 108097114012,
        text::stamp("roster_heartbeat"@) == 98116114016,
        text::stamp("entries"@) == 101115101007,
        text::stamp("removedAgentIds"@) == 116115114015,
        text::stamp("snapshot"@) == 111116115008,
        text::stamp("agentId"@) == 73100097007,
        text::stamp("queuedChild"@) == 105100113011,
        text::stamp("seededCwd"@) == 67100115009,
        text::stamp("summary"@) == 114121115007,
{
    reveal_strlit("type");
    reveal_strlit("roster_delta");
    reveal_strlit("roster_heartbeat");
    reveal_strlit("entries");
    reveal_strlit("removedAgentIds");
    reveal_strlit("snapshot");
    reveal_strlit("agentId");
    reveal_strlit("queuedChild");
    reveal_strlit("seededCwd");
    reveal_strlit("summary");
}

/// A worker tells what changed in its roster: the entries, who is gone, and whether that
/// is all; a heartbeat tells only that it lives.
pub proof fn rosters_are_told(outbound: DaemonWorkerRosterOutbound)
    ensures
        ({
            let value = daemon_worker_protocol::roster_value(outbound);
            match outbound {
                DaemonWorkerRosterOutbound::RosterDelta { entries, removed_agent_ids, snapshot } => {
                    &&& value.str_at("type"@) == Some("roster_delta"@)
                    &&& (value.get("entries"@) matches Some(JsonV::Arr(rows)) && rows.len()
                        == entries@.len() && forall|i: int|
                        0 <= i < rows.len() ==> #[trigger] rows[i]
                            == agent_roster::worker_entry_value(entries@[i]@))
                    &&& removed_agent_ids is None ==> value.get("removedAgentIds"@) is None
                    &&& (removed_agent_ids matches Some(ids) ==> (value.get("removedAgentIds"@)
                        matches Some(JsonV::Arr(gone)) && gone.len() == ids@.len() && forall|i: int|
                        0 <= i < gone.len() ==> #[trigger] gone[i] == JsonV::Str(ids@[i]@)))
                    &&& value.bool_at("snapshot"@) == snapshot
                },
                DaemonWorkerRosterOutbound::RosterHeartbeat => value.str_at("type"@) == Some(
                    "roster_heartbeat"@,
                ),
            }
        }),
{
    broadcast use {json::lookup_push, json::lookup_empty};

    roster_words();
}

/// An entry of a roster names its agent and tells of it.
pub proof fn roster_entries_name_their_agent(entry: WorkerEntryV)
    ensures
        ({
            let value = agent_roster::worker_entry_value(entry);
            &&& value.str_at("agentId"@) == Some(entry.agent_id)
            &&& value.bool_at("queuedChild"@) == entry.queued_child
            &&& value.bool_at("seededCwd"@) == entry.seeded_cwd
            &&& value.get("summary"@) == Some(agent_roster::summary_value(entry.summary))
        }),
{
    broadcast use {json::lookup_push, json::lookup_empty};

    roster_words();
}

/// A seeded ledger is its beginning and then its records, a line each.
pub proof fn seeded_ledgers_begin_with_their_directory(
    records: Seq<RecordV>,
    record: RecordV,
    dir: Seq<char>,
    at: Seq<char>,
)
    ensures
        rlm_ledger::seed_text(Seq::empty(), dir, at) == json::printed_json(
            rlm_ledger::record_value(RecordV::Meta { at, sessions_dir: dir }),
        ) + "\n"@,
        rlm_ledger::seed_text(records.push(record), dir, at) == rlm_ledger::seed_text(
            records,
            dir,
            at,
        ) + json::printed_json(rlm_ledger::record_value(record)) + "\n"@,
{
    assert(records.push(record).drop_last() =~= records);
}

/// What a ledger is seeded with is what the registry says: the child, its name, its file,
/// its depth and its state.
pub proof fn seeds_are_what_the_registry_says(seed: RlmLedgerSeedRegistryEntry, entry: LegacyV)
    ensures
        rlm_ledger::is_seed_of(seed, entry) <==> seed.child_id@ == entry.child_id
            && seed.session_name@ == entry.session_name && seed.session_file@ == entry.session_file
            && seed.rlm_depth == entry.rlm_depth && seed.status@ == entry.status,
{
}

/// A line of the catalog is a request where it is not empty, can be read and is one.
pub proof fn catalog_lines_are_requests(line: Seq<char>)
    ensures
        daemon_catalog_process::line_request(line) is Some <==> {
            &&& line.len() > 0
            &&& json::parsed_json(vstd::utf8::encode_utf8(line)) is Ok
            &&& daemon_catalog_process::is_request(
                json::parsed_json(vstd::utf8::encode_utf8(line))->Ok_0,
            )
            &&& daemon_catalog_process::request_of(
                json::parsed_json(vstd::utf8::encode_utf8(line))->Ok_0,
            ) is Some
        },
        daemon_catalog_process::line_request(line) matches Some(request)
            ==> daemon_catalog_process::request_of(
            json::parsed_json(vstd::utf8::encode_utf8(line))->Ok_0,
        ) == Some(request),
{
}

/// The sessions of an answer are those in its list; without a list there are none.
pub proof fn answered_sessions_are_listed(response: ResponseV, values: Seq<JsonV>)
    ensures
        response.data is Some && response.data->0.get("sessions"@) == Some(JsonV::Arr(values))
            ==> saved_session_catalog::listed_sessions(response)
            == saved_session_catalog::sessions_in(values),
        response.data is None ==> saved_session_catalog::listed_sessions(response).len() == 0,
        heartbeat_catalog::unknown_command_text("heartbeats_list"@) == "Unknown daemon command: "@
            + "heartbeats_list"@,
{
}

proof fn configuration_names()
    ensures
        text::stamp("version"@) == 111110118007,
        text::stamp("socketPath"@) == 97104115010,
        text::stamp("defaultSessionConfig"@) == 111103100020,
{
    reveal_strlit("version");
    reveal_strlit("socketPath");
    reveal_strlit("defaultSessionConfig");
}

/// A supervisor's configuration names its socket and what its sessions begin with; it
/// counts for a later supervisor at the same socket, and for none at another.
pub proof fn configurations_are_for_their_socket(
    socket: Seq<char>,
    other: Seq<char>,
    sessions: JsonV,
    document: JsonV,
)
    ensures
        ({
            let value = native_supervisor::configuration(socket, sessions);
            &&& value.get("version"@) == Some(json::int_value(1))
            &&& value.str_at("socketPath"@) == Some(socket)
            &&& value.get("defaultSessionConfig"@) == Some(sessions)
            &&& native_supervisor::persisted_sessions(value, socket) == Some(sessions)
            &&& other != socket ==> native_supervisor::persisted_sessions(value, other) is None
        }),
        native_supervisor::persisted_sessions(document, socket) is Some <==> document.u64_at(
            "version"@,
        ) == Some(1u64) && document.str_at("socketPath"@) == Some(socket),
        native_supervisor::persisted_sessions(document, socket) is Some && document.get(
            "defaultSessionConfig"@,
        ) is Some ==> native_supervisor::persisted_sessions(document, socket) == document.get(
            "defaultSessionConfig"@,
        ),
{
    broadcast use {json::lookup_push, json::lookup_empty};

    configuration_names();
    assert(native_supervisor::configuration(socket, sessions)->Obj_0 =~= Seq::empty().push(
        ("version"@, json::int_value(1)),
    ).push(("socketPath"@, JsonV::Str(socket))).push(("defaultSessionConfig"@, sessions)));
}

/// The first place of an id is where it stands with none before it; what does not occur
/// has no place.
pub proof fn first_places_are_first(ids: Seq<Seq<char>>, id: Seq<char>)
    ensures
        daemon_mode::first_index(ids, id) is None <==> !ids.contains(id),
        daemon_mode::first_index(ids, id) matches Some(i) ==> 0 <= i < ids.len() && ids[i] == id
            && forall|j: int| 0 <= j < i ==> #[trigger] ids[j] != id,
    decreases ids.len(),
{
    if ids.len() > 0 {
        let fewer = ids.drop_last();
        let last = ids.len() - 1;
        first_places_are_first(fewer, id);
        assert(ids[last] == ids.last());
        assert forall|j: int| 0 <= j < fewer.len() implies #[trigger] ids[j] == fewer[j] by {}
        if ids.contains(id) {
            let k = choose|k: int| 0 <= k < ids.len() && ids[k] == id;
            if k < last {
                assert(fewer[k] == id);
            }
        }
        if let Some(i) = daemon_mode::first_index(ids, id) {
            assert(ids[i] == id);
            if daemon_mode::first_index(fewer, id) is None {
                assert forall|j: int| 0 <= j < i implies #[trigger] ids[j] != id by {
                    assert(fewer[j] != id);
                }
            }
        }
    }
}

} // verus!
