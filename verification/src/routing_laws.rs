//! What holds of commands and frames on their way through the supervisor.

use vstd::prelude::*;

use crate::assistant_message;
use crate::compact_session_stream;
use crate::compact_session_stream::CompactAssistantStreamReconstructor;
use crate::daemon_catalog_process;
use crate::daemon_worker_protocol::DaemonWorkerDescriptor;
use crate::json;
use crate::json::JsonV;
use crate::native_supervisor;
use crate::native_supervisor::{
    LinesV, PayloadV, PublicClient, RoutedCommand, Worker, WorkerLaunch,
};
use crate::protocol::ResponseV;
use crate::text;

verus! {

proof fn member_names()
    ensures
        text::stamp("type"@) == 101101116004,
        text::stamp("activeSessionId"@) == 111100097015,
        text::stamp("leaseKey"@) == 101121108008,
        text::stamp("admissionId"@) == 110100097011,
        text::stamp("capabilities"@) == 105115099012,
        text::stamp("clientId"@) == 73100099008,
{
    reveal_strlit("type");
    reveal_strlit("activeSessionId");
    reveal_strlit("leaseKey");
    reveal_strlit("admissionId");
    reveal_strlit("capabilities");
    reveal_strlit("clientId");
}

proof fn kind_names()
    ensures
        text::stamp("acquire_session_input_pause"@) == 116101097027,
        text::stamp("prompt"@) == 112116112006,
        text::stamp("prompt_and_wait"@) == 119116112015,
        text::stamp("cancel_prompt_admission"@) == 105110099023,
        text::stamp("attach"@) == 99104097006,
        text::stamp("reattach"@) == 99104114008,
{
    reveal_strlit("acquire_session_input_pause");
    reveal_strlit("prompt");
    reveal_strlit("prompt_and_wait");
    reveal_strlit("cancel_prompt_admission");
    reveal_strlit("attach");
    reveal_strlit("reattach");
}

/// The command is changed on its way besides its address.
pub open spec fn is_rewritten(kind: Seq<char>) -> bool {
    kind == "acquire_session_input_pause"@ || kind == "prompt"@ || kind == "prompt_and_wait"@
        || kind == "cancel_prompt_admission"@ || kind == "attach"@ || kind == "reattach"@
}

/// Whatever command goes to a worker is addressed to the session that was found, and
/// every member of it arrives that is not to be changed; most commands arrive otherwise
/// as they were sent.
pub proof fn forwarded_commands_are_addressed(
    kind: Seq<char>,
    members: Seq<(Seq<char>, JsonV)>,
    active: Seq<char>,
    client: PublicClient,
    key: Seq<char>,
)
    ensures
        ({
            let body = JsonV::Obj(members);
            let sent = native_supervisor::routed(kind, body, active, client);
            &&& sent matches Ok(command) ==> {
                &&& command.str_at("activeSessionId"@) == Some(active)
                &&& key != "activeSessionId"@ && !is_rewritten(kind) ==> command.get(key)
                    == body.get(key)
                &&& key != "activeSessionId"@ && key != "leaseKey"@ && key != "admissionId"@ && key
                    != "type"@ && key != "capabilities"@ && key != "clientId"@ ==> command.get(key)
                    == body.get(key)
            }
            &&& sent is Err <==> kind == "acquire_session_input_pause"@ && body.str_at(
                "leaseKey"@,
            ) is None
        }),
{
    broadcast use json::lookup_put;

    member_names();
    kind_names();
    let body = JsonV::Obj(members);
    if native_supervisor::attaches(kind) {
        let able = json::put(
            json::put(
                json::put(members, "activeSessionId"@, JsonV::Str(active)),
                "type"@,
                JsonV::Str("attach"@),
            ),
            "capabilities"@,
            JsonV::Arr(seq![JsonV::Str("attach_snapshot"@), JsonV::Str("event_sequence"@)]),
        );
        taking_out_keeps_the_rest(able, "clientId"@, key);
        taking_out_keeps_the_rest(able, "clientId"@, "activeSessionId"@);
    }
}

proof fn taking_out_keeps_the_rest(
    pairs: Seq<(Seq<char>, JsonV)>,
    out: Seq<char>,
    key: Seq<char>,
)
    ensures
        key != out ==> json::lookup(json::without(pairs, out), key) == json::lookup(pairs, key),
    decreases pairs.len(),
{
    if pairs.len() > 0 {
        let rest = pairs.drop_first();
        taking_out_keeps_the_rest(rest, out, key);
        if pairs[0].0 != out {
            let after = json::without(pairs, out);
            assert(after[0] == pairs[0]);
            assert(after.drop_first() =~= json::without(rest, out));
        }
    }
}

/// A prompt's admission goes to the worker under a name that holds the connection, and
/// so does what takes it back: what one client admits another cannot cancel. A prompt
/// without an admission gets none.
pub proof fn admissions_are_the_connections(
    kind: Seq<char>,
    members: Seq<(Seq<char>, JsonV)>,
    active: Seq<char>,
    client: PublicClient,
    admission: Seq<char>,
)
    requires
        kind == "prompt"@ || kind == "prompt_and_wait"@ || kind == "cancel_prompt_admission"@,
    ensures
        ({
            let body = JsonV::Obj(members);
            let sent = native_supervisor::routed(kind, body, active, client);
            &&& sent is Ok
            &&& body.str_at("admissionId"@) == Some(admission) ==> sent->Ok_0.str_at(
                "admissionId"@,
            ) == Some("supervisor-admission:"@ + client.connection_id@ + ":"@ + admission)
            &&& body.str_at("admissionId"@) is None ==> sent->Ok_0.get("admissionId"@) == body.get(
                "admissionId"@,
            )
        }),
{
    broadcast use json::lookup_put;

    member_names();
    kind_names();
}

/// A pause is asked for under a name that holds the connection, the client and the key
/// that the client gave.
pub proof fn leases_are_the_clients(
    members: Seq<(Seq<char>, JsonV)>,
    active: Seq<char>,
    client: PublicClient,
    lease: Seq<char>,
)
    requires
        JsonV::Obj(members).str_at("leaseKey"@) == Some(lease),
    ensures
        native_supervisor::routed(
            "acquire_session_input_pause"@,
            JsonV::Obj(members),
            active,
            client,
        ) matches Ok(sent) && sent.str_at("leaseKey"@) == Some(
            json::printed_json(
                JsonV::Arr(
                    seq![
                        JsonV::Str(client.connection_id@),
                        JsonV::Str(client.name()),
                        JsonV::Str(lease),
                    ],
                ),
            ),
        ),
{
    broadcast use json::lookup_put;

    member_names();
    kind_names();
}

/// Who attaches, or attaches anew, is attached for snapshots and numbered events, and
/// its own name for itself does not go to the worker.
pub proof fn attachments_ask_for_snapshots(
    kind: Seq<char>,
    members: Seq<(Seq<char>, JsonV)>,
    active: Seq<char>,
    client: PublicClient,
)
    requires
        kind == "attach"@ || kind == "reattach"@,
    ensures
        native_supervisor::routed(kind, JsonV::Obj(members), active, client) matches Ok(sent) && {
            &&& sent.str_at("type"@) == Some("attach"@)
            &&& sent.get("capabilities"@) == Some(
                JsonV::Arr(seq![JsonV::Str("attach_snapshot"@), JsonV::Str("event_sequence"@)]),
            )
        },
{
    broadcast use json::lookup_put;

    member_names();
    kind_names();
    let able = json::put(
        json::put(
            json::put(members, "activeSessionId"@, JsonV::Str(active)),
            "type"@,
            JsonV::Str("attach"@),
        ),
        "capabilities"@,
        JsonV::Arr(seq![JsonV::Str("attach_snapshot"@), JsonV::Str("event_sequence"@)]),
    );
    taking_out_keeps_the_rest(able, "clientId"@, "type"@);
    taking_out_keeps_the_rest(able, "clientId"@, "capabilities"@);
}

/// A client that attaches is subscribed to the session besides those that it had, can
/// show dialogs if and only if it says so, and is known under the id that it gives.
pub proof fn attached_clients_are_subscribed(
    before: PublicClient,
    after: PublicClient,
    body: JsonV,
    active: Seq<char>,
    other: Seq<char>,
)
    requires
        native_supervisor::attaching_client(before, after, body, active),
    ensures
        after.subscriptions@.contains_key(active),
        other != active ==> (after.subscriptions@.contains_key(other)
            <==> before.subscriptions@.contains_key(other)),
        body.bool_at("supportsExtensionUi"@) == Some(true) ==> after.supports_extension_ui,
        (body.get("capabilities"@) matches Some(JsonV::Arr(values)) && values.contains(
            JsonV::Str("extension_ui"@),
        )) ==> after.supports_extension_ui,
        body.bool_at("supportsExtensionUi"@) != Some(true) && body.get("capabilities"@) is None
            ==> !after.supports_extension_ui,
        body.str_at("clientId"@) matches Some(id) ==> after.id@ == id,
        body.str_at("clientId"@) is None ==> after.id@ == before.id@,
        after.connection_id == before.connection_id,
        after.protocol_id == before.protocol_id,
        after.pause_epoch == before.pause_epoch,
{
    if let Some(JsonV::Arr(values)) = body.get("capabilities"@) {
        if values.contains(JsonV::Str("extension_ui"@)) {
            let i = choose|i: int|
                0 <= i < values.len() && values[i] == JsonV::Str("extension_ui"@);
            assert(values[i] == JsonV::Str("extension_ui"@));
        }
    }
}

proof fn subscription_names()
    ensures
        text::stamp("type"@) == 101101116004,
        text::stamp("activeSessionId"@) == 111100097015,
        text::stamp("capabilities"@) == 105115099012,
        text::stamp("supportsExtensionUi"@) == 105105115019,
{
    reveal_strlit("type");
    reveal_strlit("activeSessionId");
    reveal_strlit("capabilities");
    reveal_strlit("supportsExtensionUi");
}

proof fn subscription_values()
    ensures
        text::stamp("attach_snapshot"@) == 115116097015,
        text::stamp("event_sequence"@) == 101101101014,
        text::stamp("extension_ui"@) == 95105101012,
{
    reveal_strlit("attach_snapshot");
    reveal_strlit("event_sequence");
    reveal_strlit("extension_ui");
}

/// A worker is asked for dialogs if and only if some client that has subscribed to the
/// session can show them; for snapshots and numbered events it is asked always.
pub proof fn dialogs_are_asked_for_those_who_show_them(
    clients: Seq<PublicClient>,
    active: Seq<char>,
)
    ensures
        ({
            let dialogs = exists|i: int|
                0 <= i < clients.len() && (#[trigger] clients[i]).subscriptions@.contains_key(
                    active,
                ) && clients[i].supports_extension_ui;
            let asked = JsonV::Obj(
                native_supervisor::subscription_members(
                    active,
                    native_supervisor::dialogs_for(clients, active),
                ),
            );
            let values = asked.get("capabilities"@)->0->Arr_0;
            &&& asked.str_at("type"@) == Some("worker_subscribe"@)
            &&& asked.str_at("activeSessionId"@) == Some(active)
            &&& asked.bool_at("supportsExtensionUi"@) == Some(dialogs)
            &&& asked.get("capabilities"@) == Some(JsonV::Arr(values))
            &&& values.contains(JsonV::Str("attach_snapshot"@))
            &&& values.contains(JsonV::Str("event_sequence"@))
            &&& values.contains(JsonV::Str("extension_ui"@)) <==> dialogs
        }),
{
    broadcast use {json::lookup_push, json::lookup_empty};

    subscription_names();
    subscription_values();
    let dialogs = native_supervisor::dialogs_for(clients, active);
    assert(dialogs == exists|i: int|
        0 <= i < clients.len() && (#[trigger] clients[i]).subscriptions@.contains_key(active)
            && clients[i].supports_extension_ui) by {
        if dialogs {
            let i = choose|i: int|
                0 <= i < clients.len() && (#[trigger] clients[i]).subscribed(active)
                    && clients[i].supports_extension_ui;
            assert(clients[i].subscriptions@.contains_key(active));
        }
        if exists|i: int|
            0 <= i < clients.len() && (#[trigger] clients[i]).subscriptions@.contains_key(active)
                && clients[i].supports_extension_ui {
            let i = choose|i: int|
                0 <= i < clients.len() && (#[trigger] clients[i]).subscriptions@.contains_key(
                    active,
                ) && clients[i].supports_extension_ui;
            assert(clients[i].subscribed(active));
        }
    }
    let base = seq![JsonV::Str("attach_snapshot"@), JsonV::Str("event_sequence"@)];
    let values = if dialogs {
        base.push(JsonV::Str("extension_ui"@))
    } else {
        base
    };
    let members = Seq::<(Seq<char>, JsonV)>::empty().push(
        ("type"@, JsonV::Str("worker_subscribe"@)),
    ).push(("activeSessionId"@, JsonV::Str(active))).push(("capabilities"@, JsonV::Arr(values))).push(
        ("supportsExtensionUi"@, JsonV::Bool(dialogs)),
    );
    assert(native_supervisor::subscription_members(active, dialogs) =~= members);
    assert(json::lookup(members, "type"@) == Some(JsonV::Str("worker_subscribe"@)));
    assert(values[0] == JsonV::Str("attach_snapshot"@));
    assert(values[1] == JsonV::Str("event_sequence"@));
    if dialogs {
        assert(values[2] == JsonV::Str("extension_ui"@));
    }
}

/// A command that came bare is taken as it is and belongs to no named client; one in an
/// envelope needs a sound envelope with a command and an id, and gets that id.
pub proof fn commands_come_bare_or_enveloped(value: JsonV, is_envelope: bool)
    ensures
        ({
            let command = native_supervisor::command_of(value, is_envelope);
            let enveloped = value.str_at("type"@) == Some("command"@);
            &&& !(value is Obj) ==> command is Err
            &&& value is Obj && !enveloped ==> command == Ok::<
                (Seq<(Seq<char>, JsonV)>, Option<Seq<char>>),
                Seq<char>,
            >((value->Obj_0, None))
            &&& enveloped ==> (command is Ok <==> is_envelope && value.get("id"@) is Some
                && value.get("command"@) is Some && value.get("command"@)->0 is Obj)
            &&& enveloped && command is Ok ==> {
                let body = JsonV::Obj(command->Ok_0.0);
                &&& body.get("id"@) == value.get("id"@)
                &&& command->Ok_0.1 is Some
                &&& value.str_at("clientId"@) matches Some(client) ==> command->Ok_0.1 == Some(
                    client,
                )
                &&& value.str_at("clientId"@) is None ==> command->Ok_0.1->0.len() == 0
                &&& forall|key: Seq<char>|
                    key != "id"@ ==> #[trigger] body.get(key) == value.get("command"@)->0.get(key)
            }
        }),
{
    broadcast use json::lookup_put;

}

/// The bytes of a line, once its end has come, are the next line: nothing is added and
/// nothing is lost, as long as the line is not too long. Empty lines are passed over.
pub proof fn lines_come_as_they_were_sent(before: LinesV, line: Seq<u8>, limit: nat)
    requires
        !before.overflowed,
        forall|i: int| 0 <= i < line.len() ==> line[i] != 10,
    ensures
        ({
            let whole = before.pending + line;
            let after = native_supervisor::take_bytes(before, line + seq![10u8], limit);
            &&& line.len() > 0 && whole.len() > limit ==> after.overflowed && after.lines
                == before.lines
            &&& whole.len() <= limit && whole.len() > 0 ==> after == (LinesV {
                lines: before.lines.push(whole),
                pending: Seq::empty(),
                overflowed: false,
            })
            &&& whole.len() == 0 ==> after == before
        }),
{
    unfinished_lines_wait(before, line, limit);
    assert((line + seq![10u8]).drop_last() =~= line);
    let whole = before.pending + line;
    if whole.len() == 0 {
        assert(before.pending =~= Seq::empty());
        assert(line =~= Seq::empty());
        assert(whole =~= before.pending);
    }
    if line.len() == 0 {
        assert(whole =~= before.pending);
    }
}

proof fn unfinished_lines_wait(before: LinesV, line: Seq<u8>, limit: nat)
    requires
        !before.overflowed,
        forall|i: int| 0 <= i < line.len() ==> line[i] != 10,
    ensures
        ({
            let after = native_supervisor::take_bytes(before, line, limit);
            let whole = before.pending + line;
            &&& after.lines == before.lines
            &&& line.len() == 0 ==> after == before
            &&& line.len() > 0 ==> (after.overflowed <==> whole.len() > limit)
            &&& line.len() > 0 && !after.overflowed ==> after.pending == whole
        }),
    decreases line.len(),
{
    if line.len() > 0 {
        let fewer = line.drop_last();
        assert forall|i: int| 0 <= i < fewer.len() implies fewer[i] != 10 by {
            assert(fewer[i] == line[i]);
        }
        unfinished_lines_wait(before, fewer, limit);
        assert((before.pending + fewer).push(line.last()) =~= before.pending + line);
        assert(line.last() == line[line.len() - 1]);
        if fewer.len() == 0 {
            assert(before.pending + fewer =~= before.pending);
        }
    }
}

/// Once a line was too long nothing more is taken.
pub proof fn too_long_lines_end_it(before: LinesV, bytes: Seq<u8>, limit: nat)
    requires
        before.overflowed,
    ensures
        native_supervisor::take_bytes(before, bytes, limit) == before,
    decreases bytes.len(),
{
    if bytes.len() > 0 {
        too_long_lines_end_it(before, bytes.drop_last(), limit);
    }
}

/// Greetings, answers and what concerns the roster stay with the supervisor; every other
/// frame that can be read goes on, compact updates as what they stand for.
pub proof fn frames_go_on_unless_they_are_internal(header: JsonV, payload: Seq<u8>)
    ensures
        ({
            let kind = header.str_at("outboundType"@);
            let taken = native_supervisor::payload_of(header, payload);
            let compact = header.str_at("payloadEncoding"@) == Some("assistant-delta"@);
            let internal = kind == Some("daemon_hello"@) || kind == Some("response"@) || kind
                == Some("roster_delta"@) || kind == Some("roster_heartbeat"@);
            &&& internal ==> taken == PayloadV::Ignored
            &&& json::parsed_json(payload) is Err ==> taken == PayloadV::Ignored
            &&& !internal && !compact && json::parsed_json(payload) is Ok ==> taken
                == PayloadV::Plain(json::parsed_json(payload)->Ok_0)
            &&& !internal && compact && json::parsed_json(payload) is Ok ==> match
                compact_session_stream::delta_of(json::parsed_json(payload)->Ok_0) {
                Some(delta) => taken == PayloadV::Delta(delta),
                None => taken == PayloadV::Ignored,
            }
        }),
{
}

/// A document goes to the client unless it is none: as it came, or rebuilt from the
/// session's message where it came as a compact update.
pub proof fn documents_are_whole(
    payload: PayloadV,
    stream: CompactAssistantStreamReconstructor,
    streamed: JsonV,
)
    ensures
        payload matches PayloadV::Plain(value) ==> native_supervisor::full_document(
            payload,
            stream,
            streamed,
        ) == Some(value),
        payload is Ignored ==> native_supervisor::full_document(payload, stream, streamed) is None,
        payload matches PayloadV::Delta(delta) ==> match native_supervisor::full_document(
            payload,
            stream,
            streamed,
        ) {
            Some(value) => {
                let message = compact_session_stream::rebuilt_message(
                    stream.partial_messages@,
                    delta,
                    streamed,
                );
                message is Some && value == compact_session_stream::rebuilt_value(
                    delta,
                    message->0,
                )
            },
            None => compact_session_stream::rebuilt_message(
                stream.partial_messages@,
                delta,
                streamed,
            ) is None,
        },
{
}

/// A document is about the session that its header names, else the one that it names
/// itself; and it goes to a client if and only if the client may see the worker and has
/// subscribed to that session.
pub proof fn documents_reach_subscribers(
    client: PublicClient,
    worker: Worker,
    header: JsonV,
    value: JsonV,
)
    ensures
        ({
            let about = native_supervisor::addressed(header, value);
            &&& header.str_at("activeSessionId"@) is Some ==> about == header.str_at(
                "activeSessionId"@,
            )
            &&& header.str_at("activeSessionId"@) is None ==> about == value.str_at(
                "activeSessionId"@,
            )
            &&& native_supervisor::receives(client, worker, about) <==> about is Some
                && client.subscriptions@.contains_key(about->0) && (
            worker.descriptor.owner_client_id is None
                || worker.descriptor.owner_client_id->0@ == client.name())
        }),
{
}

/// A client goes by the name that it gave in an envelope, else by its id.
pub proof fn clients_go_by_their_name(client: PublicClient)
    ensures
        client.protocol_id matches Some(name) ==> client.name() == name@,
        client.protocol_id is None ==> client.name() == client.id@,
{
}

/// The state in a document is shown as clients see it, where it is one; nothing else of
/// the document changes.
pub proof fn only_the_state_is_shown_otherwise(
    members: Seq<(Seq<char>, JsonV)>,
    clients: Seq<PublicClient>,
    descriptor: DaemonWorkerDescriptor,
    key: Seq<char>,
)
    ensures
        ({
            let value = JsonV::Obj(members);
            let shown = native_supervisor::with_public_state(value, clients, descriptor);
            &&& key != "state"@ ==> shown.get(key) == value.get(key)
            &&& value.get("state"@) matches Some(state) ==> shown.get("state"@) == Some(
                if state.get("sessionId"@) is Some {
                    native_supervisor::public_of(state, clients, descriptor)
                } else {
                    state
                },
            )
            &&& value.get("state"@) is None ==> shown == value
        }),
{
    broadcast use json::lookup_put;

}

/// The answer to a command that was sent on is under the id and the type of that
/// command; whether it succeeded, its error and its details are the worker's.
pub proof fn answers_are_the_requests(
    response: ResponseV,
    request: RoutedCommand,
    clients: Seq<PublicClient>,
    client_id: Seq<char>,
    descriptor: DaemonWorkerDescriptor,
)
    ensures
        ({
            let answer = native_supervisor::final_answer(
                response,
                request,
                clients,
                client_id,
                descriptor,
            );
            &&& answer.id == json::opt_view(request.id)
            &&& answer.command == request.kind@
            &&& answer.success == response.success
            &&& answer.error == response.error
            &&& answer.error_info == response.error_info
            &&& !response.success ==> answer.data == response.data
            &&& answer.data is Some <==> response.data is Some
            &&& response.success && response.data is Some && response.data->0.get("sessionId"@)
                is None && response.data->0.get("state"@) is None && response.data->0.get(
                "snapshot"@,
            ) is None && request.kind@ != "attach"@ && request.kind@ != "reattach"@ ==> answer.data
                == response.data
        }),
{
}

/// An attached client is told its own id, where the answer speaks of a client.
pub proof fn attached_clients_learn_their_id(
    data: Seq<(Seq<char>, JsonV)>,
    id: Seq<char>,
    key: Seq<char>,
)
    ensures
        ({
            let value = JsonV::Obj(data);
            let told = native_supervisor::with_client_id(value, id);
            &&& (value.get("client"@) matches Some(JsonV::Obj(_))) ==> told.get("client"@) is Some
                && told.get("client"@)->0.str_at("id"@) == Some(id)
            &&& key != "client"@ ==> told.get(key) == value.get(key)
        }),
{
    broadcast use json::lookup_put;

}

/// A pause that a client asked for is given up if and only if the client is gone or has
/// released its pauses meanwhile.
pub proof fn late_pauses_are_given_up(client: PublicClient, epoch: u64)
    ensures
        native_supervisor::given_up(client, epoch) <==> client.stopped || client.pause_epoch
            != epoch,
{
}

/// The message that a snapshot is continued from is the one that is being streamed, else
/// the last one of the assistant.
pub proof fn snapshots_continue_the_last_message(snapshot: JsonV)
    ensures
        ({
            let streaming = snapshot.get("summary"@) is Some && snapshot.get("summary"@)->0.get(
                "streamingMessage"@,
            ) is Some && snapshot.get("summary"@)->0.get("streamingMessage"@)->0.str_at("role"@)
                == Some("assistant"@);
            let seed = native_supervisor::seed_of(snapshot);
            &&& streaming ==> seed == snapshot.get("summary"@)->0.get("streamingMessage"@)
            &&& seed matches Some(message) ==> message.str_at("role"@) == Some("assistant"@)
            &&& !streaming && seed is Some ==> {
                let messages = snapshot.get("messages"@)->0->Arr_0;
                exists|i: int|
                    0 <= i < messages.len() && #[trigger] messages[i] == seed->0 && forall|j: int|
                        i < j < messages.len() ==> (#[trigger] messages[j]).str_at("role"@) != Some(
                            "assistant"@,
                        )
            }
            &&& !streaming && seed is None ==> (snapshot.get("messages"@) matches Some(
                JsonV::Arr(messages),
            ) ==> forall|j: int|
                0 <= j < messages.len() ==> (#[trigger] messages[j]).str_at("role"@) != Some(
                    "assistant"@,
                ))
        }),
{
    if let Some(JsonV::Arr(messages)) = snapshot.get("messages"@) {
        last_assistants_are_last(messages);
    }
}

proof fn last_assistants_are_last(messages: Seq<JsonV>)
    ensures
        match native_supervisor::last_assistant(messages) {
            Some(message) => message.str_at("role"@) == Some("assistant"@) && exists|i: int|
                0 <= i < messages.len() && #[trigger] messages[i] == message && forall|j: int|
                    i < j < messages.len() ==> (#[trigger] messages[j]).str_at("role"@) != Some(
                        "assistant"@,
                    ),
            None => forall|j: int|
                0 <= j < messages.len() ==> (#[trigger] messages[j]).str_at("role"@) != Some(
                    "assistant"@,
                ),
        },
    decreases messages.len(),
{
    if messages.len() > 0 {
        let fewer = messages.drop_last();
        last_assistants_are_last(fewer);
        let last = messages[messages.len() - 1];
        if last.str_at("role"@) == Some("assistant"@) {
            assert(messages[messages.len() - 1] == messages.last());
        } else if native_supervisor::last_assistant(fewer) is Some {
            let message = native_supervisor::last_assistant(fewer)->0;
            let i = choose|i: int|
                0 <= i < fewer.len() && #[trigger] fewer[i] == message && forall|j: int|
                    i < j < fewer.len() ==> (#[trigger] fewer[j]).str_at("role"@) != Some(
                        "assistant"@,
                    );
            assert(messages[i] == message);
            assert forall|j: int| i < j < messages.len() implies (
            #[trigger] messages[j]).str_at("role"@) != Some("assistant"@) by {
                if j < fewer.len() {
                    assert(fewer[j] == messages[j]);
                }
            }
        } else {
            assert forall|j: int| 0 <= j < messages.len() implies (
            #[trigger] messages[j]).str_at("role"@) != Some("assistant"@) by {
                if j < fewer.len() {
                    assert(fewer[j] == messages[j]);
                }
            }
        }
    }
}

/// What is found by a member is the first document that has it, and nothing is found
/// only where none has.
pub proof fn first_documents_are_found(summaries: Seq<JsonV>, key: Seq<char>, value: Seq<char>)
    ensures
        match native_supervisor::first_with(summaries, key, value) {
            Some(found) => found.str_at(key) == Some(value) && summaries.contains(found),
            None => forall|i: int|
                0 <= i < summaries.len() ==> (#[trigger] summaries[i]).str_at(key) != Some(value),
        },
    decreases summaries.len(),
{
    if summaries.len() > 0 {
        let rest = summaries.drop_first();
        first_documents_are_found(rest, key, value);
        if summaries[0].str_at(key) == Some(value) {
            assert(summaries.contains(summaries[0]));
        } else {
            if native_supervisor::first_with(rest, key, value) is Some {
                let found = native_supervisor::first_with(rest, key, value)->0;
                let i = choose|i: int| 0 <= i < rest.len() && rest[i] == found;
                assert(summaries[i + 1] == found);
            } else {
                assert forall|i: int| 0 <= i < summaries.len() implies (
                #[trigger] summaries[i]).str_at(key) != Some(value) by {
                    if i > 0 {
                        assert(rest[i - 1] == summaries[i]);
                    }
                }
            }
        }
    }
}

/// The session with an active id is found where there is one.
pub proof fn active_sessions_are_found(summaries: Seq<JsonV>, active: Seq<char>)
    ensures
        match native_supervisor::first_active(summaries, active) {
            Some(found) => native_supervisor::active_of(found) == Some(active)
                && summaries.contains(found),
            None => forall|i: int|
                0 <= i < summaries.len() ==> native_supervisor::active_of(#[trigger] summaries[i])
                    != Some(active),
        },
    decreases summaries.len(),
{
    if summaries.len() > 0 {
        let rest = summaries.drop_first();
        active_sessions_are_found(rest, active);
        if native_supervisor::active_of(summaries[0]) == Some(active) {
            assert(summaries.contains(summaries[0]));
        } else {
            if native_supervisor::first_active(rest, active) is Some {
                let found = native_supervisor::first_active(rest, active)->0;
                let i = choose|i: int| 0 <= i < rest.len() && rest[i] == found;
                assert(summaries[i + 1] == found);
            } else {
                assert forall|i: int| 0 <= i < summaries.len() implies
                    native_supervisor::active_of(#[trigger] summaries[i]) != Some(active) by {
                    if i > 0 {
                        assert(rest[i - 1] == summaries[i]);
                    }
                }
            }
        }
    }
}

/// A list of sessions is taken from a worker if and only if each of them has an id and
/// the id of its session; and it is taken as it is.
pub proof fn lists_are_taken_as_they_are(data: JsonV)
    ensures
        native_supervisor::listed_in(data) matches Some(sessions) ==> data.get("sessions"@) == Some(
            JsonV::Arr(sessions),
        ),
        native_supervisor::listed_in(data) is Some <==> (data.get("sessions"@) matches Some(
            JsonV::Arr(sessions),
        ) && forall|i: int|
            0 <= i < sessions.len() ==> (#[trigger] sessions[i]).str_at("id"@) is Some
                && sessions[i].str_at("sessionId"@) is Some),
{
    if let Some(JsonV::Arr(sessions)) = data.get("sessions"@) {
        if forall|i: int|
            0 <= i < sessions.len() ==> (#[trigger] sessions[i]).str_at("id"@) is Some
                && sessions[i].str_at("sessionId"@) is Some {
            assert forall|i: int| 0 <= i < sessions.len() implies native_supervisor::is_listable(
                #[trigger] sessions[i],
            ) by {}
        }
        if native_supervisor::listed_in(data) is Some {
            assert forall|i: int| 0 <= i < sessions.len() implies (
            #[trigger] sessions[i]).str_at("id"@) is Some && sessions[i].str_at("sessionId"@)
                is Some by {
                assert(native_supervisor::is_listable(sessions[i]));
            }
        }
    }
}

/// A variable that a client gives for the launch reaches the worker, and one that it
/// does not give keeps the supervisor's value, unless the supervisor says otherwise.
pub proof fn launch_variables_reach_the_worker(
    environment: Map<Seq<char>, Seq<char>>,
    added: Seq<(Seq<char>, JsonV)>,
    launch: WorkerLaunch,
    supervisor: Seq<char>,
    orphan_journal_key: Seq<char>,
    key: Seq<char>,
)
    requires
        key != "RLM_DEPTH"@,
        key != daemon_catalog_process::DAEMON_CATALOG_ROLE_ENV@,
        forall|i: int|
            0 <= i < 9 ==> (#[trigger] native_supervisor::worker_variables(
                launch,
                supervisor,
                orphan_journal_key,
            )[i]).0 != key,
    ensures
        ({
            let seen = native_supervisor::worker_values(
                environment,
                added,
                launch,
                supervisor,
                orphan_journal_key,
            );
            let given = native_supervisor::set_texts(environment, added);
            &&& seen.contains_key(key) <==> given.contains_key(key)
            &&& given.contains_key(key) ==> seen[key] == given[key]
        }),
{
    others_are_left(
        native_supervisor::set_texts(environment, added),
        native_supervisor::worker_variables(launch, supervisor, orphan_journal_key),
        key,
    );
}

proof fn others_are_left(
    environment: Map<Seq<char>, Seq<char>>,
    variables: Seq<(Seq<char>, Seq<char>)>,
    key: Seq<char>,
)
    requires
        forall|i: int| 0 <= i < variables.len() ==> (#[trigger] variables[i]).0 != key,
    ensures
        native_supervisor::set_all(environment, variables).contains_key(key)
            == environment.contains_key(key),
        environment.contains_key(key) ==> native_supervisor::set_all(environment, variables)[key]
            == environment[key],
    decreases variables.len(),
{
    if variables.len() > 0 {
        let fewer = variables.drop_last();
        assert forall|i: int| 0 <= i < fewer.len() implies (#[trigger] fewer[i]).0 != key by {
            assert(fewer[i] == variables[i]);
        }
        others_are_left(environment, fewer, key);
        assert(variables[variables.len() - 1].0 != key);
    }
}

/// Texts that are given are set, the last one of a name for good; what is no text is
/// not, and names that are not given keep their values.
pub proof fn given_texts_are_set(
    environment: Map<Seq<char>, Seq<char>>,
    members: Seq<(Seq<char>, JsonV)>,
    pair: (Seq<char>, JsonV),
    key: Seq<char>,
)
    ensures
        native_supervisor::set_texts(environment, Seq::empty()) == environment,
        ({
            let before = native_supervisor::set_texts(environment, members);
            let after = native_supervisor::set_texts(environment, members.push(pair));
            &&& pair.1 matches JsonV::Str(value) ==> after.contains_key(pair.0) && after[pair.0]
                == value
            &&& !(pair.1 is Str) ==> after == before
            &&& key != pair.0 ==> after.contains_key(key) == before.contains_key(key)
            &&& key != pair.0 && before.contains_key(key) ==> after[key] == before[key]
        }),
{
    assert(members.push(pair).drop_last() =~= members);
}

/// What a client leaves: the session that it names, or all that it has subscribed to.
pub proof fn clients_leave_what_they_name(client: PublicClient, active: Option<Seq<char>>)
    requires
        client.subscriptions.wf(),
    ensures
        active matches Some(id) ==> native_supervisor::left_sessions(client, active) == seq![id],
        active is None ==> native_supervisor::left_sessions(client, active).len()
            == client.subscriptions.entries@.len(),
        active is None ==> forall|i: int|
            0 <= i < client.subscriptions.entries@.len() ==> (
            #[trigger] native_supervisor::left_sessions(client, active)[i])
                == client.subscriptions.entries@[i].0@,
{
}

} // verus!
