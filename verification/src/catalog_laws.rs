//! What holds of the catalog of saved sessions: what is asked of it, what it does for
//! each request and what its answers do.

use vstd::prelude::*;

use crate::clock;
use crate::daemon_catalog_process;
use crate::daemon_catalog_process::{
    ActionV, AskedV, CatalogEvent, MessageV, OutboundV, PendingCatalogRequest, RequestV,
};
use crate::daemon_worker_protocol;
use crate::json;
use crate::json::JsonV;
use crate::protocol;
use crate::session_info;
use crate::session_info::{
    AgentTaskState, SessionInfo, SessionInfoV, SessionState, SessionStateStatus,
};
use crate::text;

verus! {

proof fn request_names()
    ensures
        text::stamp("type"@) == 101101116004,
        text::stamp("id"@) == 100100105002,
        text::stamp("command"@) == 110100099007,
        text::stamp("request"@) == 115116114007,
        text::stamp("list"@) == 116116108004,
        text::stamp("resolve"@) == 118101114007,
        text::stamp("rename"@) == 109101114006,
        text::stamp("delete"@) == 116101100006,
        text::stamp("archive"@) == 118101097007,
        text::stamp("mark_interrupted"@) == 112100109016,
        text::stamp("shutdown"@) == 119110115008,
        text::stamp("cwd"@) == 100100099003,
        text::stamp("sessionDir"@) == 68114115010,
        text::stamp("selector"@) == 111114115008,
        text::stamp("sessionPath"@) == 97104115011,
        text::stamp("name"@) == 101101110004,
        text::stamp("sessionId"@) == 110100115009,
        text::stamp("activeSessionId"@) == 111100097015,
        text::stamp("operations"@) == 111115111010,
{
    reveal_strlit("type");
    reveal_strlit("id");
    reveal_strlit("command");
    reveal_strlit("request");
    reveal_strlit("list");
    reveal_strlit("resolve");
    reveal_strlit("rename");
    reveal_strlit("delete");
    reveal_strlit("archive");
    reveal_strlit("mark_interrupted");
    reveal_strlit("shutdown");
    reveal_strlit("cwd");
    reveal_strlit("sessionDir");
    reveal_strlit("selector");
    reveal_strlit("sessionPath");
    reveal_strlit("name");
    reveal_strlit("sessionId");
    reveal_strlit("activeSessionId");
    reveal_strlit("operations");
}

/// A request says what is asked: its id, its command and the members of its command.
pub proof fn requests_say_what_is_asked(request: RequestV)
    ensures
        ({
            let value = daemon_catalog_process::request_value(request);
            &&& value.str_at("type"@) == Some(request.type_)
            &&& value.str_at("id"@) == Some(request.id)
            &&& match request.asked {
                AskedV::List { cwd, session_dir } => value.str_at("command"@) == Some("list"@)
                    && value.str_at("cwd"@) == cwd && value.str_at("sessionDir"@) == session_dir,
                AskedV::Resolve { selector, cwd, session_dir } => value.str_at("command"@) == Some(
                    "resolve"@,
                ) && value.str_at("selector"@) == Some(selector) && value.str_at("cwd"@) == Some(
                    cwd,
                ) && value.str_at("sessionDir"@) == session_dir,
                AskedV::Rename { session_path, name } => value.str_at("command"@) == Some(
                    "rename"@,
                ) && value.str_at("sessionPath"@) == Some(session_path) && value.str_at("name"@)
                    == Some(name),
                AskedV::Delete { session_path } => value.str_at("command"@) == Some("delete"@)
                    && value.str_at("sessionPath"@) == Some(session_path),
                AskedV::Archive { session_path, session_id } => value.str_at("command"@) == Some(
                    "archive"@,
                ) && value.str_at("sessionPath"@) == Some(session_path) && value.str_at(
                    "sessionId"@,
                ) == Some(session_id),
                AskedV::MarkInterrupted { session_path, active_session_id, operations } => {
                    &&& value.str_at("command"@) == Some("mark_interrupted"@)
                    &&& value.str_at("sessionPath"@) == Some(session_path)
                    &&& value.str_at("activeSessionId"@) == Some(active_session_id)
                    &&& value.get("operations"@) == Some(
                        daemon_catalog_process::text_list(operations),
                    )
                },
                AskedV::Shutdown => value.str_at("command"@) == Some("shutdown"@),
            }
        }),
{
    broadcast use {json::lookup_push, json::lookup_empty};

    request_names();
    let head = Seq::<(Seq<char>, JsonV)>::empty().push(("type"@, JsonV::Str(request.type_))).push(
        ("id"@, JsonV::Str(request.id)),
    ).push(
        ("command"@, JsonV::Str(daemon_catalog_process::command_name(request.asked))),
    );
    let members = daemon_catalog_process::asked_members(request.asked);
    let value = daemon_catalog_process::request_value(request);
    assert(value == JsonV::Obj(head + members)) by {
        assert(value->Obj_0 =~= head + members);
    }
    assert forall|key: Seq<char>| #[trigger] json::lookup(head + members, key) == if json::lookup(
        head,
        key,
    ) is Some {
        json::lookup(head, key)
    } else {
        json::lookup(members, key)
    } by {
        looked_up_in_both(head, members, key);
    }
}

proof fn looked_up_in_both(
    first: Seq<(Seq<char>, JsonV)>,
    second: Seq<(Seq<char>, JsonV)>,
    key: Seq<char>,
)
    ensures
        json::lookup(first + second, key) == if json::lookup(first, key) is Some {
            json::lookup(first, key)
        } else {
            json::lookup(second, key)
        },
    decreases first.len(),
{
    if first.len() == 0 {
        assert(first + second =~= second);
    } else {
        assert((first + second)[0] == first[0]);
        assert((first + second).drop_first() =~= first.drop_first() + second);
        looked_up_in_both(first.drop_first(), second, key);
    }
}

/// A line is a request where it says so, has an id and names one of the seven commands;
/// what a command needs must be there.
pub proof fn requests_are_recognized(value: JsonV, command: Seq<char>)
    requires
        value.str_at("command"@) == Some(command),
    ensures
        daemon_catalog_process::is_request(value) <==> value.str_at("type"@) == Some("request"@)
            && value.str_at("id"@) is Some && (command == "list"@ || command == "resolve"@
            || command == "rename"@ || command == "delete"@ || command == "archive"@ || command
            == "mark_interrupted"@ || command == "shutdown"@),
        ({
            let asked = daemon_catalog_process::asked_of(value);
            &&& command == "list"@ ==> asked is Some
            &&& command == "resolve"@ ==> (asked is Some <==> value.str_at("selector"@) is Some
                && value.str_at("cwd"@) is Some)
            &&& command == "rename"@ ==> (asked is Some <==> value.str_at("sessionPath"@) is Some
                && value.str_at("name"@) is Some)
            &&& command == "delete"@ ==> (asked is Some <==> value.str_at("sessionPath"@) is Some)
            &&& command == "archive"@ ==> (asked is Some <==> value.str_at("sessionPath"@) is Some
                && value.str_at("sessionId"@) is Some)
            &&& command == "mark_interrupted"@ ==> (asked is Some <==> value.str_at("sessionPath"@)
                is Some && value.str_at("activeSessionId"@) is Some)
            &&& command == "shutdown"@ ==> asked == Some(AskedV::Shutdown)
            &&& (asked matches Some(AskedV::List { cwd, session_dir }) ==> command == "list"@ && cwd
                == value.str_at("cwd"@) && session_dir == value.str_at("sessionDir"@))
            &&& (asked matches Some(AskedV::Resolve { selector, cwd, session_dir }) ==> command
                == "resolve"@ && Some(selector) == value.str_at("selector"@) && Some(cwd)
                == value.str_at("cwd"@) && session_dir == value.str_at("sessionDir"@))
            &&& (asked matches Some(AskedV::Rename { session_path, name }) ==> command == "rename"@
                && Some(session_path) == value.str_at("sessionPath"@) && Some(name)
                == value.str_at("name"@))
            &&& (asked matches Some(AskedV::Delete { session_path }) ==> command == "delete"@
                && Some(session_path) == value.str_at("sessionPath"@))
            &&& (asked matches Some(AskedV::Archive { session_path, session_id }) ==> command
                == "archive"@ && Some(session_path) == value.str_at("sessionPath"@) && Some(
                session_id,
            ) == value.str_at("sessionId"@))
            &&& (asked matches Some(
                AskedV::MarkInterrupted { session_path, active_session_id, operations },
            ) ==> command == "mark_interrupted"@ && Some(session_path) == value.str_at(
                "sessionPath"@,
            ) && Some(active_session_id) == value.str_at("activeSessionId"@))
        }),
{
    request_names();
}

/// A request is carried out: a list is listed, a selector is looked for where the client
/// is, a session is renamed to its name without blanks round it, a file is deleted, what
/// is to be archived is read first, and an interruption is noted in its session.
pub proof fn requests_are_carried_out(request: RequestV)
    ensures
        ({
            let action = daemon_catalog_process::next_action(request, CatalogEvent::Start);
            match request.asked {
                AskedV::List { cwd, session_dir } => action == ActionV::List { cwd, session_dir },
                AskedV::Resolve { selector, cwd, session_dir } => action == ActionV::LookLocally {
                    cwd,
                    session_dir,
                },
                AskedV::Rename { session_path, name } => (action matches ActionV::Rename {
                    session_path: at,
                    name: to,
                } && at == session_path && to == text::trimmed(name)),
                AskedV::Delete { session_path } => action == ActionV::Delete { session_path },
                AskedV::Archive { session_path, session_id } => action == ActionV::ReadInfo {
                    session_path,
                },
                AskedV::MarkInterrupted { session_path, active_session_id, operations } => (
                action matches ActionV::AppendMessage {
                    session_path: at,
                    custom_type,
                    content,
                    metadata,
                } && at == session_path && custom_type == "prime-agent.worker_recovery"@
                    && metadata.str_at("activeSessionId"@) == Some(active_session_id)
                    && metadata.get("operations"@) == Some(
                    daemon_catalog_process::text_list(operations),
                )),
                AskedV::Shutdown => (action matches ActionV::Reply(
                    OutboundV::Response { id, success, data, error },
                ) && id == request.id && success && data is None && error is None),
            }
        }),
{
    broadcast use {json::lookup_push, json::lookup_empty};

    request_names();
}

/// The sessions that a selector means are those whose id begins with it and those that
/// bear it as their name, all of them.
pub proof fn selectors_mean_ids_and_names(
    sessions: Seq<SessionInfoV>,
    selector: Seq<char>,
    session: SessionInfoV,
)
    ensures
        daemon_catalog_process::selected(sessions, selector).contains(session)
            <==> sessions.contains(session) && (text::begins(session.id, selector) || session.name
            == Some(selector)),
    decreases sessions.len(),
{
    if sessions.len() > 0 {
        let fewer = sessions.drop_last();
        let before = daemon_catalog_process::selected(fewer, selector);
        let after = daemon_catalog_process::selected(sessions, selector);
        let last = sessions.last();
        selectors_mean_ids_and_names(fewer, selector, session);
        assert(sessions =~= fewer.push(last));
        one_more(fewer, sessions, last, session);
        if daemon_catalog_process::is_selected(last, selector) {
            one_more(before, after, last, session);
        }
    }
}

proof fn one_more<A>(before: Seq<A>, after: Seq<A>, last: A, x: A)
    requires
        after == before.push(last),
    ensures
        after.contains(x) <==> before.contains(x) || x == last,
{
    if before.contains(x) {
        let k = choose|k: int| 0 <= k < before.len() && before[k] == x;
        assert(after[k] == x);
    }
    if after.contains(x) {
        let k = choose|k: int| 0 <= k < after.len() && after[k] == x;
        if k < before.len() {
            assert(before[k] == x);
        }
    }
    assert(after[before.len() as int] == last);
}

/// A selector is answered with the path of the one session that it means; where it means
/// several, or there was an error, it fails. One that means none where the client is is
/// looked for everywhere, and fails if it means none there either.
pub proof fn selectors_lead_to_one_session(
    request: RequestV,
    sessions: Vec<SessionInfo>,
    error: String,
)
    requires
        request.asked is Resolve,
    ensures
        ({
            let selector = request.asked->Resolve_selector;
            let found = daemon_catalog_process::selected(
                session_info::infos(sessions@),
                selector,
            );
            let near = daemon_catalog_process::next_action(
                request,
                CatalogEvent::LookedLocally(Ok(sessions)),
            );
            let far = daemon_catalog_process::next_action(
                request,
                CatalogEvent::LookedEverywhere(Ok(sessions)),
            );
            &&& found.len() == 1 ==> near == far && (near matches ActionV::Reply(
                OutboundV::Response { id, success, data, error },
            ) && id == request.id && success && data is Some && data->0.str_at("sessionPath"@)
                == Some(found[0].path))
            &&& found.len() > 1 ==> near == far && (near matches ActionV::Reply(
                OutboundV::Response { id, success, data, error },
            ) && id == request.id && !success && error is Some)
            &&& found.len() == 0 ==> near == ActionV::LookEverywhere {
                session_dir: request.asked->Resolve_session_dir,
            } && (far matches ActionV::Reply(OutboundV::Response { id, success, data, error })
                && id == request.id && !success)
            &&& (daemon_catalog_process::next_action(
                request,
                CatalogEvent::LookedLocally(Err(error)),
            ) matches ActionV::Reply(OutboundV::Response { id, success, data, error: said })
                && id == request.id && !success && said == Some(error@))
        }),
{
    broadcast use {json::lookup_push, json::lookup_empty};

}

/// A session is archived where it is the one that was meant: it is marked once, and one
/// that is marked already stays as it is. Another session, and none, is not archived.
pub proof fn only_the_meant_session_is_archived(
    request: RequestV,
    session: SessionInfo,
)
    requires
        request.asked is Archive,
    ensures
        ({
            let action = daemon_catalog_process::next_action(
                request,
                CatalogEvent::InfoRead(Ok(Some(session))),
            );
            let meant = session.id@ == request.asked->Archive_session_id;
            let marked = session.state == Some(
                SessionState { status: SessionStateStatus::Archived },
            );
            &&& meant && !marked ==> action == ActionV::AppendState {
                session_path: request.asked->Archive_session_path,
                status: "archived"@,
            }
            &&& !meant || marked ==> (action matches ActionV::Reply(
                OutboundV::Response { id, success, data, error },
            ) && id == request.id && success && data is Some && data->0.bool_at("archived"@)
                == Some(meant))
        }),
        daemon_catalog_process::next_action(
            request,
            CatalogEvent::InfoRead(Ok(None)),
        ) matches ActionV::Reply(OutboundV::Response { id, success, data, error }) && id
            == request.id && success && data is Some && data->0.bool_at("archived"@) == Some(false),
        daemon_catalog_process::next_action(
            request,
            CatalogEvent::StateAppended(Ok(())),
        ) matches ActionV::Reply(OutboundV::Response { id, success, data, error }) && id
            == request.id && success && data is Some && data->0.bool_at("archived"@) == Some(true),
{
    broadcast use {json::lookup_push, json::lookup_empty};

}

/// What was listed, renamed, deleted or noted is answered; what failed is answered with
/// why.
pub proof fn outcomes_are_answered(request: RequestV, sessions: Vec<SessionInfo>, error: String)
    ensures
        daemon_catalog_process::next_action(
            request,
            CatalogEvent::Listed(Ok(sessions)),
        ) matches ActionV::Reply(OutboundV::Response { id, success, data, error: said }) && id
            == request.id && success && data is Some && (data->0.get("sessions"@) matches Some(
            JsonV::Arr(rows),
        ) && rows.len() == sessions@.len()),
        daemon_catalog_process::next_action(
            request,
            CatalogEvent::Listed(Err(error)),
        ) matches ActionV::Reply(OutboundV::Response { id, success, data, error: said }) && id
            == request.id && !success && said == Some(error@),
        daemon_catalog_process::next_action(
            request,
            CatalogEvent::Renamed(Ok(())),
        ) matches ActionV::Reply(OutboundV::Response { id, success, data, error: said }) && id
            == request.id && success && said is None,
        daemon_catalog_process::next_action(
            request,
            CatalogEvent::Renamed(Err(error)),
        ) matches ActionV::Reply(OutboundV::Response { id, success, data, error: said }) && id
            == request.id && !success && said == Some(error@),
        daemon_catalog_process::next_action(
            request,
            CatalogEvent::Deleted(Err(error)),
        ) matches ActionV::Reply(OutboundV::Response { id, success, data, error: said }) && id
            == request.id && !success && said == Some(error@),
        daemon_catalog_process::next_action(
            request,
            CatalogEvent::MessageAppended(Ok(())),
        ) matches ActionV::Reply(OutboundV::Response { id, success, data, error: said }) && id
            == request.id && success && said is None,
        daemon_catalog_process::next_action(
            request,
            CatalogEvent::MessageAppended(Err(error)),
        ) matches ActionV::Reply(OutboundV::Response { id, success, data, error: said }) && id
            == request.id && !success && said == Some(error@),
{
    broadcast use {json::lookup_push, json::lookup_empty};

}

proof fn answer_names()
    ensures
        text::stamp("type"@) == 101101116004,
        text::stamp("id"@) == 100100105002,
        text::stamp("ready"@) == 100121114005,
        text::stamp("progress"@) == 115115112008,
        text::stamp("session"@) == 111110115007,
        text::stamp("response"@) == 115101114008,
        text::stamp("loaded"@) == 101100108006,
        text::stamp("total"@) == 97108116005,
        text::stamp("success"@) == 115115115007,
        text::stamp("data"@) == 97097100004,
        text::stamp("error"@) == 111114101005,
{
    reveal_strlit("type");
    reveal_strlit("id");
    reveal_strlit("ready");
    reveal_strlit("progress");
    reveal_strlit("session");
    reveal_strlit("response");
    reveal_strlit("loaded");
    reveal_strlit("total");
    reveal_strlit("success");
    reveal_strlit("data");
    reveal_strlit("error");
}

/// Each message of the catalog says what it is and to which request it belongs.
pub proof fn answers_say_what_they_are(message: OutboundV)
    ensures
        ({
            let value = daemon_catalog_process::outbound_value(message);
            &&& daemon_catalog_process::is_outbound(value)
            &&& match message {
                OutboundV::Ready => value.str_at("type"@) == Some("ready"@),
                OutboundV::Progress { id, loaded, total } => value.str_at("type"@) == Some(
                    "progress"@,
                ) && value.str_at("id"@) == Some(id) && value.get("loaded"@) == Some(
                    json::int_value(loaded as int),
                ) && value.get("total"@) == Some(json::int_value(total as int)),
                OutboundV::Session { id, row, message_count } => value.str_at("type"@) == Some(
                    "session"@,
                ) && value.str_at("id"@) == Some(id) && value.get("session"@) == Some(
                    daemon_catalog_process::wire_value(row, message_count),
                ),
                OutboundV::Response { id, success, data, error } => value.str_at("type"@) == Some(
                    "response"@,
                ) && value.str_at("id"@) == Some(id) && value.bool_at("success"@) == Some(success)
                    && value.get("data"@) == data && value.str_at("error"@) == error,
            }
        }),
{
    broadcast use {json::lookup_push, json::lookup_empty};

    answer_names();
}

/// A message counts only for a request that is waited for: progress and sessions where
/// they are wanted, and a response settles the request with its data or its error.
pub proof fn messages_reach_who_waits(
    value: JsonV,
    pending: Map<Seq<char>, PendingCatalogRequest>,
    id: Seq<char>,
)
    requires
        value.str_at("id"@) == Some(id),
    ensures
        ({
            let effect = daemon_catalog_process::message_effect(value, pending);
            let kind = value.str_at("type"@);
            &&& kind == Some("ready"@) ==> effect is Ready
            &&& kind != Some("ready"@) && !pending.contains_key(id) ==> effect is Nothing
            &&& kind == Some("progress"@) && pending.contains_key(id) ==> {
                &&& pending[id].wants_progress ==> effect == MessageV::Progress {
                    id,
                    loaded: value.u64_at("loaded"@).unwrap_or(0),
                    total: value.u64_at("total"@).unwrap_or(0),
                }
                &&& !pending[id].wants_progress ==> effect is Nothing
            }
            &&& kind == Some("session"@) && pending.contains_key(id) ==> {
                &&& effect is Session <==> pending[id].wants_sessions && value.get("session"@)
                    is Some && daemon_catalog_process::is_wire(value.get("session"@)->0)
                &&& effect is Session || effect is Nothing
            }
            &&& kind == Some("response"@) && pending.contains_key(id) ==> (effect matches
                MessageV::Settled { id: settled, result } && settled == id && (result is Ok
                <==> value.bool_at("success"@) == Some(true)) && (result matches Ok(data) ==> data
                == value.get("data"@).unwrap_or(JsonV::Null)) && (result matches Err(error)
                ==> error == value.str_at("error"@).unwrap_or(Seq::empty())))
            &&& effect is Settled ==> kind == Some("response"@) && pending.contains_key(id)
        }),
{
    answer_names();
}

/// The sessions of an answer are those rows that can be read, in order.
pub proof fn readable_rows_are_listed(values: Seq<JsonV>, value: JsonV)
    ensures
        daemon_catalog_process::is_wire(value) ==> daemon_catalog_process::listed_sessions(
            values.push(value),
        ) == daemon_catalog_process::listed_sessions(values).push(
            daemon_catalog_process::received_session(
                daemon_catalog_process::wire_of(value).0,
                daemon_catalog_process::wire_of(value).1,
            ),
        ),
        !daemon_catalog_process::is_wire(value) ==> daemon_catalog_process::listed_sessions(
            values.push(value),
        ) == daemon_catalog_process::listed_sessions(values),
        daemon_catalog_process::listed_sessions(Seq::empty()).len() == 0,
{
    assert(values.push(value).drop_last() =~= values);
}

/// A session is sent as it is, its times as they are written.
pub proof fn sessions_are_sent_as_they_are(session: SessionInfoV)
    ensures
        ({
            let row = daemon_catalog_process::sent_row(session);
            &&& row.path == session.path
            &&& row.id == session.id
            &&& row.cwd == session.cwd
            &&& row.name == session.name
            &&& row.parent_session_path == session.parent_session_path
            &&& row.rlm_depth == Some(session.rlm_depth)
            &&& row.created == clock::written_time(session.created)
            &&& row.modified == clock::written_time(session.modified)
            &&& row.first_message == session.first_message
            &&& row.all_messages_text == session.all_messages_text
            &&& row.usage == session.usage
            &&& row.state is Some <==> session.state is Some
            &&& row.agent_status is Some <==> session.agent_status is Some
        }),
{
}


/// The catalog is looked for in the sources where the daemon runs from its sources, and
/// in what was built otherwise; the other place comes second.
pub proof fn the_catalog_lies_beside_the_daemon(package: Seq<char>, module: Seq<char>)
    ensures
        ({
            let (first, second) = daemon_catalog_process::entrypoints(package, module);
            let base = daemon_worker_protocol::without_trailing_separators(package);
            let from_sources = text::begins(module, base + "/"@ + "src"@ + "/"@);
            let source = daemon_catalog_process::source_entrypoint(package);
            let built = daemon_catalog_process::compiled_entrypoint(package);
            &&& from_sources ==> first == source && second == built
            &&& !from_sources ==> first == built && second == source
            &&& text::begins(source, base + "/"@ + "src"@) 
            &&& text::begins(built, base + "/"@ + "dist"@)
        }),
{
    reveal_strlit("src");
    reveal_strlit("dist");
    reveal_strlit("modes");
    reveal_strlit("daemon");
    let base = daemon_worker_protocol::without_trailing_separators(package);
    below_is_longer(package, "src"@, "modes"@, "daemon"@, "daemon-catalog-entry.ts"@);
    below_is_longer(package, "dist"@, "modes"@, "daemon"@, "daemon-catalog-entry.js"@);
}

proof fn below_is_longer(base: Seq<char>, a: Seq<char>, b: Seq<char>, c: Seq<char>, d: Seq<char>)
    requires
        a.len() > 0 && a.last() != '/' && a.last() != '\\',
        b.len() > 0 && b.last() != '/' && b.last() != '\\',
        c.len() > 0 && c.last() != '/' && c.last() != '\\',
    ensures
        text::begins(
            daemon_catalog_process::joined(
                daemon_catalog_process::joined(
                    daemon_catalog_process::joined(daemon_catalog_process::joined(base, a), b),
                    c,
                ),
                d,
            ),
            daemon_worker_protocol::without_trailing_separators(base) + "/"@ + a,
        ),
{
    let one = daemon_catalog_process::joined(base, a);
    let two = daemon_catalog_process::joined(one, b);
    let three = daemon_catalog_process::joined(two, c);
    let four = daemon_catalog_process::joined(three, d);
    assert(one.last() == a.last());
    assert(two.last() == b.last());
    assert(three.last() == c.last());
    assert(four.take(one.len() as int) =~= one);
}

} // verus!
