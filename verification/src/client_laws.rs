//! What holds of the sessions that a selector finds, of messages between agents, of a
//! client's environment and of the routes of a client.

use vstd::prelude::*;

use crate::active_session_state;
use crate::active_session_state::ActiveSessionState;
use crate::agent_message_transport;
use crate::agent_message_transport::{SendEvent, SendPhase};
use crate::daemon_catalog_entry;
use crate::daemon_catalog_entry::{DeleteSessionFileMethod, DeleteSessionFileResult};
use crate::daemon_client_env;
use crate::daemon_routed_client;
use crate::daemon_routed_client::{RequestRoute, RoutedV};
use crate::daemon_server;
use crate::daemon_session_id;
use crate::daemon_worker_client::FrameV;
use crate::daemon_worker_protocol;
use crate::heartbeat_catalog;
use crate::json;
use crate::json::JsonV;
use crate::protocol;
use crate::protocol::{ClientErrorV, ResponseV};
use crate::text;

verus! {

/// A session is meant whole by its session id or its name, and by an ending of its
/// active session or its session id.
pub proof fn selectors_mean_sessions(state: ActiveSessionState, selector: Seq<char>)
    ensures
        active_session_state::is_meant(state, selector, true) <==> {
            ||| state.runtime.session.session_id@ == selector
            ||| state.runtime.session.session_name is Some
                && state.runtime.session.session_name->0@ == selector
        },
        active_session_state::is_meant(state, selector, false) <==> {
            ||| daemon_session_id::is_suffix(state.active_session_id@, selector)
            ||| daemon_session_id::is_suffix(state.runtime.session.session_id@, selector)
        },
{
}

/// Every session that is meant is found, each once.
pub proof fn meant_sessions_are_found(
    entries: Seq<(String, ActiveSessionState)>,
    selector: Seq<char>,
    whole: bool,
)
    ensures
        ({
            let found = active_session_state::meant(entries, selector, whole);
            &&& forall|i: int|
                0 <= i < entries.len() && active_session_state::is_meant(
                    (#[trigger] entries[i]).1,
                    selector,
                    whole,
                ) ==> active_session_state::has_id(found, entries[i].1.active_session_id@)
            &&& forall|i: int, j: int|
                0 <= i < j < found.len() ==> (#[trigger] found[i]).active_session_id@ != (
                #[trigger] found[j]).active_session_id@
        }),
    decreases entries.len(),
{
    if entries.len() > 0 {
        let rest = entries.drop_last();
        let last = entries.len() - 1;
        meant_sessions_are_found(rest, selector, whole);
        let before = active_session_state::meant(rest, selector, whole);
        let found = active_session_state::meant(entries, selector, whole);
        assert forall|id: Seq<char>| active_session_state::has_id(before, id) implies
            #[trigger] active_session_state::has_id(found, id) by {
            let k = choose|k: int|
                0 <= k < before.len() && (#[trigger] before[k]).active_session_id@ == id;
            assert(found[k].active_session_id@ == id);
        }
        assert forall|i: int|
            0 <= i < entries.len() && active_session_state::is_meant(
                (#[trigger] entries[i]).1,
                selector,
                whole,
            ) implies active_session_state::has_id(found, entries[i].1.active_session_id@) by {
            if i < last {
                assert(rest[i] == entries[i]);
            } else if found.len() > before.len() {
                assert(found[before.len() as int].active_session_id@
                    == entries[i].1.active_session_id@);
            }
        }
        assert forall|i: int, j: int| 0 <= i < j < found.len() implies (
        #[trigger] found[i]).active_session_id@ != (#[trigger] found[j]).active_session_id@ by {
            if j == before.len() {
                assert(before[i] == found[i]);
            } else {
                assert(before[i] == found[i] && before[j] == found[j]);
            }
        }
    }
}

/// A shown id is the end of the id that it stands for, twelve digits long at most; an id
/// of hex digits is shown without dashes and in small letters.
pub proof fn shown_ids_are_endings(id: Seq<char>)
    ensures
        ({
            let shown = daemon_session_id::display_id(id);
            let whole = if daemon_session_id::is_hex(daemon_session_id::normalized(id)) {
                daemon_session_id::normalized(id)
            } else {
                id
            };
            &&& shown.len() == if whole.len() < 12 {
                whole.len()
            } else {
                12
            }
            &&& shown == whole.skip(whole.len() - shown.len())
        }),
{
    let whole = if daemon_session_id::is_hex(daemon_session_id::normalized(id)) {
        daemon_session_id::normalized(id)
    } else {
        id
    };
    assert(whole.skip(0) =~= whole);
}

/// An id loses its dashes and nothing else, whatever the case of the rest.
pub proof fn only_dashes_are_dropped(id: Seq<char>)
    ensures
        !daemon_session_id::without_dashes(id).contains('-'),
        !id.contains('-') ==> daemon_session_id::without_dashes(id) == id,
        forall|c: char|
            c != '-' ==> (#[trigger] daemon_session_id::without_dashes(id).contains(c)
                <==> id.contains(c)),
    decreases id.len(),
{
    if id.len() > 0 {
        let rest = id.drop_last();
        only_dashes_are_dropped(rest);
        let before = daemon_session_id::without_dashes(rest);
        let after = daemon_session_id::without_dashes(id);
        assert(id =~= rest.push(id.last()));
        assert forall|c: char| #[trigger] rest.contains(c) || c == id.last() <==> id.contains(c) by {
            grown(rest, id, id.last(), c);
        }
        if id.last() != '-' {
            grown(before, after, id.last(), '-');
            assert forall|c: char| c != '-' implies (#[trigger] after.contains(c) <==> id.contains(
                c,
            )) by {
                grown(before, after, id.last(), c);
                assert(rest.contains(c) || c == id.last() <==> id.contains(c));
            }
            if !id.contains('-') {
                assert(!rest.contains('-')) by {
                    grown(rest, id, id.last(), '-');
                }
                assert(after =~= id);
            }
        } else {
            assert forall|c: char| c != '-' implies (#[trigger] after.contains(c) <==> id.contains(
                c,
            )) by {
                assert(before.contains(c) <==> rest.contains(c));
                assert(rest.contains(c) || c == id.last() <==> id.contains(c));
            }
            grown(rest, id, id.last(), '-');
        }
    }
}

proof fn grown<A>(before: Seq<A>, after: Seq<A>, last: A, x: A)
    requires
        after == before.push(last),
    ensures
        after.contains(x) <==> before.contains(x) || x == last,
{
    if before.contains(x) {
        let k = choose|k: int| 0 <= k < before.len() && before[k] == x;
        assert(after[k] == x);
    }
    if after.contains(x) {
        let k = choose|k: int| 0 <= k < after.len() && after[k] == x;
        if k < before.len() {
            assert(before[k] == x);
        }
    }
    assert(after[before.len() as int] == last);
}

/// A saved session is selected by the beginning of its id; one whose id and selector are
/// hex digits also by its end, whatever their dashes and their case.
pub proof fn saved_sessions_are_selected(candidate: Seq<char>, selector: Seq<char>)
    ensures
        ({
            let a = daemon_session_id::normalized(candidate);
            let b = daemon_session_id::normalized(selector);
            let hex = daemon_session_id::is_hex(a) && daemon_session_id::is_hex(b);
            &&& hex ==> (daemon_session_id::selects(candidate, selector) <==> text::begins(a, b)
                || text::ends(a, b))
            &&& !hex ==> (daemon_session_id::selects(candidate, selector) <==> text::begins(
                candidate,
                selector,
            ))
            &&& daemon_session_id::is_suffix(candidate, selector) <==> hex && text::ends(a, b)
        }),
{
}

proof fn message_names()
    ensures
        text::stamp("fromActiveSessionId"@) == 105100102019,
        text::stamp("targetActiveSessionId"@) == 115100116021,
        text::stamp("message"@) == 103101109007,
        text::stamp("agentOrigin"@) == 103110097011,
        text::stamp("workerToken"@) == 107110119011,
        text::stamp("id"@) == 100100105002,
        text::stamp("source"@) == 99101115006,
        text::stamp("target"@) == 101116116006,
        text::stamp("from"@) == 109109102004,
        text::stamp("deliveryStatus"@) == 97115100014,
        text::stamp("activeSessionId"@) == 111100097015,
        text::stamp("sessionId"@) == 110100115009,
        text::stamp("cwd"@) == 100100099003,
        text::stamp("isStreaming"@) == 105103105011,
        text::stamp("unfinishedActionCount"@) == 110116117021,
        text::stamp("delivered"@) == 114100100009,
        text::stamp("queued"@) == 101100113006,
{
    reveal_strlit("fromActiveSessionId");
    reveal_strlit("targetActiveSessionId");
    reveal_strlit("message");
    reveal_strlit("agentOrigin");
    reveal_strlit("workerToken");
    reveal_strlit("id");
    reveal_strlit("source");
    reveal_strlit("target");
    reveal_strlit("from");
    reveal_strlit("deliveryStatus");
    reveal_strlit("activeSessionId");
    reveal_strlit("sessionId");
    reveal_strlit("cwd");
    reveal_strlit("isStreaming");
    reveal_strlit("unfinishedActionCount");
    reveal_strlit("delivered");
    reveal_strlit("queued");
}

/// A message goes out with who sends it, whom it is for and what it says, and as that of
/// an agent.
pub proof fn messages_name_both_ends(from: Seq<char>, target: Seq<char>, message: Seq<char>)
    ensures
        ({
            let fields = agent_message_transport::message_fields(from, target, message);
            &&& json::lookup(fields, "fromActiveSessionId"@) == Some(JsonV::Str(from))
            &&& json::lookup(fields, "targetActiveSessionId"@) == Some(JsonV::Str(target))
            &&& json::lookup(fields, "message"@) == Some(JsonV::Str(message))
            &&& json::lookup(fields, "agentOrigin"@) == Some(JsonV::Bool(true))
        }),
{
    broadcast use {json::lookup_put, json::lookup_empty};

    message_names();
}

/// Who asks for the peers shows the token of its worker.
pub proof fn peers_are_asked_for_with_a_token(token: Seq<char>)
    ensures
        json::lookup(agent_message_transport::peers_fields(token), "workerToken"@) == Some(
            JsonV::Str(token),
        ),
{
    broadcast use {json::lookup_put, json::lookup_empty};

}

/// A message is delivered exactly where the answer says so: it succeeded, and its data is
/// a receipt of a message that was delivered or queued. What is given back is what the
/// receipt says.
pub proof fn deliveries_have_their_receipt(response: ResponseV, wording: Seq<char>)
    ensures
        ({
            let r = agent_message_transport::delivery(Ok(response), wording);
            &&& r is Ok <==> {
                &&& response.success
                &&& response.data is Some
                &&& response.data->0.str_at("id"@) is Some
                &&& response.data->0.str_at("source"@) is Some
                &&& response.data->0.str_at("message"@) is Some
                &&& response.data->0.get("target"@) is Some
                &&& response.data->0.str_at("deliveryStatus"@) == Some("delivered"@)
                    || response.data->0.str_at("deliveryStatus"@) == Some("queued"@)
            }
            &&& (r matches Ok(receipt) ==> {
                &&& Some(receipt.id) == response.data->0.str_at("id"@)
                &&& Some(receipt.source) == response.data->0.str_at("source"@)
                &&& Some(receipt.message) == response.data->0.str_at("message"@)
                &&& Some(receipt.target) == response.data->0.get("target"@)
                &&& Some(receipt.delivery_status) == response.data->0.str_at("deliveryStatus"@)
            })
        }),
        forall|error: Seq<char>|
            #[trigger] agent_message_transport::delivery(Err(error), wording) == Err::<
                agent_message_transport::ReceiptV,
                Seq<char>,
            >(error),
{
}

/// The peers are listed as they were answered, all of them, where each is one; otherwise
/// none is.
pub proof fn peers_are_listed_whole(response: ResponseV, values: Seq<JsonV>)
    requires
        response.data is Some,
        response.data->0.get("peers"@) == Some(JsonV::Arr(values)),
    ensures
        ({
            let listed = agent_message_transport::listed_peers(response);
            let whole = response.success && forall|i: int|
                0 <= i < values.len() ==> {
                    &&& (#[trigger] values[i]).str_at("activeSessionId"@) is Some
                    &&& values[i].str_at("sessionId"@) is Some
                    &&& values[i].str_at("cwd"@) is Some
                    &&& values[i].bool_at("isStreaming"@) is Some
                    &&& values[i].i64_at("unfinishedActionCount"@) is Some
                };
            &&& whole ==> listed == values
            &&& !whole ==> listed.len() == 0
        }),
{
    if forall|i: int| 0 <= i < values.len() ==> agent_message_transport::is_peer(
        #[trigger] values[i],
    ) {
        assert forall|i: int| 0 <= i < values.len() implies {
            &&& (#[trigger] values[i]).str_at("activeSessionId"@) is Some
            &&& values[i].str_at("sessionId"@) is Some
            &&& values[i].str_at("cwd"@) is Some
            &&& values[i].bool_at("isStreaming"@) is Some
            &&& values[i].i64_at("unfinishedActionCount"@) is Some
        } by {
            assert(agent_message_transport::is_peer(values[i]));
        }
    }
}

/// A message is sent once a connection stands, and only then; a sender that is to shut
/// down, or whose time is over, gives up.
pub proof fn messages_wait_for_a_connection(phase: SendPhase, event: SendEvent)
    ensures
        ({
            let after = agent_message_transport::after_event(phase, event);
            &&& (after matches Some((_, sent)) ==> (sent <==> event is Connected))
            &&& event is Connected ==> (after is Some <==> phase is Connecting)
            &&& event is Answered ==> (after is Some <==> phase is Sent)
            &&& phase is Done ==> after is None
            &&& (event matches SendEvent::Attempt(down, expired) ==> phase is Connecting ==> after
                == Some(
                (
                    if down || expired {
                        SendPhase::Done
                    } else {
                        SendPhase::Connecting
                    },
                    false,
                ),
            ))
            &&& phase is Connecting && event is ConnectFailed ==> after == Some(
                (SendPhase::Connecting, false),
            )
        }),
{
}

/// Of a client's environment the variables that are allowed stay, with their values.
pub proof fn allowed_variables_stay(
    env: Map<Seq<char>, String>,
    keys: Seq<String>,
    key: Seq<char>,
)
    ensures
        ({
            let kept = daemon_client_env::allowed_part(env, keys);
            &&& kept.contains_key(key) <==> env.contains_key(key) && exists|i: int|
                0 <= i < keys.len() && (#[trigger] keys[i])@ == key
            &&& kept.contains_key(key) ==> kept[key] == env[key]
        }),
{
}

/// A session runs with what its client pinned; without a client it runs with what the
/// daemon has.
pub proof fn sessions_run_with_their_clients_values(
    client: Option<Map<Seq<char>, String>>,
    base: Map<Seq<char>, String>,
    key: Seq<char>,
)
    ensures
        client is None ==> daemon_client_env::pinned_value(client, base, key)
            == daemon_client_env::value_at(base, key),
        client is Some ==> daemon_client_env::pinned_value(client, base, key)
            == daemon_client_env::value_at(client->0, key),
        daemon_client_env::value_at(base, key) is Some <==> base.contains_key(key),
        base.contains_key(key) ==> daemon_client_env::value_at(base, key) == Some(base[key]),
{
}

/// While a client's environment is in force, each of its variables has the client's
/// value, or none where the client has none; the others are as they were.
pub proof fn client_values_are_in_force(
    env: Map<Seq<char>, String>,
    client: Map<Seq<char>, String>,
    keys: Seq<String>,
    key: Seq<char>,
)
    ensures
        ({
            let during = daemon_client_env::in_force(env, client, keys);
            let named = exists|i: int| 0 <= i < keys.len() && (#[trigger] keys[i])@ == key;
            &&& named ==> (during.contains_key(key) <==> client.contains_key(key))
            &&& named && client.contains_key(key) ==> during[key] == client[key]
            &&& !named ==> (during.contains_key(key) <==> env.contains_key(key))
            &&& !named && env.contains_key(key) ==> during[key] == env[key]
        }),
    decreases keys.len(),
{
    if keys.len() > 0 {
        let fewer = keys.drop_last();
        let last = keys.len() - 1;
        client_values_are_in_force(env, client, fewer, key);
        assert(keys[last] == keys.last());
        if exists|i: int| 0 <= i < fewer.len() && (#[trigger] fewer[i])@ == key {
            let i = choose|i: int| 0 <= i < fewer.len() && (#[trigger] fewer[i])@ == key;
            assert(keys[i]@ == key);
        }
        if exists|i: int| 0 <= i < keys.len() && (#[trigger] keys[i])@ == key {
            let i = choose|i: int| 0 <= i < keys.len() && (#[trigger] keys[i])@ == key;
            if i < last {
                assert(fewer[i] == keys[i]);
            }
        }
    }
}

/// A listener is told until it is taken off, and taking it off takes off no other.
pub proof fn listeners_come_and_go(ids: Seq<u64>, id: u64, another: u64)
    ensures
        daemon_routed_client::with_listener(ids, id).contains(id),
        !daemon_routed_client::without_listener(ids, id).contains(id),
        another != id ==> (daemon_routed_client::with_listener(ids, id).contains(another)
            <==> ids.contains(another)),
        another != id ==> (daemon_routed_client::without_listener(ids, id).contains(another)
            <==> ids.contains(another)),
    decreases ids.len(),
{
    reveal(Seq::filter);
    if !ids.contains(id) {
        grown(ids, ids.push(id), id, another);
        grown(ids, ids.push(id), id, id);
    }
    if ids.len() > 0 {
        let fewer = ids.drop_last();
        listeners_come_and_go(fewer, id, another);
        let before = daemon_routed_client::without_listener(fewer, id);
        let after = daemon_routed_client::without_listener(ids, id);
        assert(ids =~= fewer.push(ids.last()));
        grown(fewer, ids, ids.last(), another);
        if ids.last() != id {
            assert(after =~= before.push(ids.last()));
            grown(before, after, ids.last(), another);
            grown(before, after, ids.last(), id);
        } else {
            assert(after =~= before);
        }
    }
}

/// A request takes the direct way exactly where there is a link, it is up, it serves the
/// command, and the command does not ask for the client to be attached anew.
pub proof fn requests_take_the_direct_way(
    client: RoutedV,
    command: Seq<char>,
    up: bool,
    serves: bool,
    link: u64,
)
    ensures
        ({
            let route = daemon_routed_client::request_route(client, command, up, serves);
            &&& route == RequestRoute::Direct(link) <==> client.direct == Some(link) && up && serves
                && command != "reattach"@
            &&& route is Reattach <==> command == "reattach"@
            &&& route is ControlPlane <==> command != "reattach"@ && (client.direct is None || !up
                || !serves)
        }),
{
}

/// A direct link that ends keeps the reason that was given, and says what ended it.
pub proof fn ended_links_keep_their_reason(cause: ClientErrorV, path: Seq<char>, reason: Option<Seq<char>>, why: Option<Seq<char>>)
    ensures
        daemon_routed_client::close_reason(ClientErrorV::SocketClosed(path, reason, why)) == reason,
        !(cause is SocketClosed) ==> daemon_routed_client::close_reason(cause) is None,
        daemon_routed_client::direct_closed(cause) == ClientErrorV::SocketClosed(
            "direct-worker"@,
            daemon_routed_client::close_reason(cause),
            Some(protocol::client_error_text(cause)),
        ),
{
}

/// A ticket is held by an answer that succeeded and whose data is one.
pub proof fn tickets_come_with_success(response: ResponseV)
    ensures
        daemon_routed_client::holds_ticket(response) <==> response.success && response.data is Some
            && daemon_worker_protocol::is_ticket(response.data->0),
{
}

/// What comes in on a private channel are the payloads of the commands, all of them and
/// in order; other frames are passed over.
pub proof fn commands_come_in_order(frames: Seq<FrameV>, frame: FrameV)
    ensures
        frame.header.str_at("kind"@) == Some("command"@) ==> daemon_server::command_payloads(
            frames.push(frame),
        ) == daemon_server::command_payloads(frames).push(frame.payload),
        frame.header.str_at("kind"@) != Some("command"@) ==> daemon_server::command_payloads(
            frames.push(frame),
        ) == daemon_server::command_payloads(frames),
        daemon_server::command_payloads(Seq::empty()).len() == 0,
{
    assert(frames.push(frame).drop_last() =~= frames);
}

/// Heartbeats are asked for one session where one is named, and for all otherwise.
pub proof fn heartbeats_are_asked_for_a_session(id: Seq<char>)
    ensures
        json::lookup(heartbeat_catalog::heartbeat_fields(Some(id)), "activeSessionId"@) == Some(
            JsonV::Str(id),
        ),
        heartbeat_catalog::heartbeat_fields(None).len() == 0,
{
    broadcast use {json::lookup_put, json::lookup_empty};

}

/// The heartbeats that were answered are listed one by one, each with its own members.
pub proof fn heartbeats_are_listed(response: ResponseV, values: Seq<JsonV>, i: int)
    requires
        response.data is Some,
        response.data->0.get("heartbeats"@) == Some(JsonV::Arr(values)),
        0 <= i < values.len(),
    ensures
        heartbeat_catalog::listed_heartbeats(response).len() == values.len(),
        values[i] matches JsonV::Obj(members) ==> heartbeat_catalog::listed_heartbeats(response)[i]
            == members,
        !(values[i] is Obj) ==> heartbeat_catalog::listed_heartbeats(response)[i].len() == 0,
{
}

proof fn deletion_names()
    ensures
        text::stamp("ok"@) == 107107111002,
        text::stamp("method"@) == 111100109006,
        text::stamp("error"@) == 111114101005,
        text::stamp("trash"@) == 115104116005,
        text::stamp("unlink"@) == 110107117006,
{
    reveal_strlit("ok");
    reveal_strlit("method");
    reveal_strlit("error");
    reveal_strlit("trash");
    reveal_strlit("unlink");
}

/// What came of a deletion is said: how the file went, or why it did not.
pub proof fn deletions_say_what_came_of_them(result: DeleteSessionFileResult)
    ensures
        ({
            let value = daemon_catalog_entry::deletion(result);
            match result {
                DeleteSessionFileResult::Deleted { method } => value.bool_at("ok"@) == Some(true)
                    && value.str_at("method"@) == Some(
                    match method {
                        DeleteSessionFileMethod::Trash => "trash"@,
                        DeleteSessionFileMethod::Unlink => "unlink"@,
                    },
                ) && value.get("error"@) is None,
                DeleteSessionFileResult::Error { error } => value.bool_at("ok"@) == Some(false)
                    && value.str_at("error"@) == Some(error@) && value.get("method"@) is None,
            }
        }),
{
    broadcast use {json::lookup_push, json::lookup_empty};

    deletion_names();
}

} // verus!
