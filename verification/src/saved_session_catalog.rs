//! Saved sessions as a client asks the daemon for them.

use vstd::prelude::*;

use crate::daemon_errors;
use crate::daemon_errors::daemon_error_from_response;
use crate::json;
use crate::json::{Json, JsonV};
use crate::protocol;
use crate::protocol::{DaemonClientError, DaemonCommand, DaemonResponse};
use crate::saved_session_info;
use crate::saved_session_info::{
    AgentConnectionSavedSessionInfo, DaemonSavedSessionInfo, deserialize_saved_session_info,
};

verus! {

/// How long a client waits for a list of sessions, in milliseconds.
pub const LIST_SAVED_SESSIONS_TIMEOUT_MS: u64 = 30000;

/// Where sessions are looked for: beside a live session, or in a directory.
#[derive(Debug, PartialEq)]
pub enum DaemonSavedSessionCatalogContext {
    ActiveSessionId { active_session_id: String },
    Cwd { cwd: String, session_dir: Option<String> },
}

/// The fields of the command that lists sessions.
pub open spec fn list_fields(
    context: DaemonSavedSessionCatalogContext,
    scope: Seq<char>,
) -> Seq<(Seq<char>, JsonV)> {
    let none = Seq::<(Seq<char>, JsonV)>::empty();
    let placed = match context {
        DaemonSavedSessionCatalogContext::ActiveSessionId { active_session_id } => json::put(
            none,
            "activeSessionId"@,
            JsonV::Str(active_session_id@),
        ),
        DaemonSavedSessionCatalogContext::Cwd { cwd, session_dir } => {
            let here = json::put(none, "cwd"@, JsonV::Str(cwd@));
            match json::opt_view(session_dir) {
                Some(dir) => json::put(here, "sessionDir"@, JsonV::Str(dir)),
                None => here,
            }
        },
    };
    json::put(placed, "scope"@, JsonV::Str(scope))
}

/// The command that lists sessions.
pub fn list_daemon_saved_sessions(context: &DaemonSavedSessionCatalogContext, scope: &str) -> (r:
    DaemonCommand)
    ensures
        r.id is None,
        r.type_@ == "list_saved_sessions"@,
        json::members(r.body@) == list_fields(*context, scope@),
{
    let mut command = DaemonCommand::new("list_saved_sessions");
    match context {
        DaemonSavedSessionCatalogContext::ActiveSessionId { active_session_id } => {
            command.set_text("activeSessionId", active_session_id);
        },
        DaemonSavedSessionCatalogContext::Cwd { cwd, session_dir } => {
            command.set_text("cwd", cwd);
            if let Some(session_dir) = session_dir {
                command.set_text("sessionDir", session_dir);
            }
        },
    }
    command.set_text("scope", scope);
    command
}

/// What a client is told while a list is on its way.
#[derive(Debug, PartialEq)]
pub enum SessionListUpdate {
    Progress { loaded: u64, total: u64 },
    Session(AgentConnectionSavedSessionInfo),
}

/// What an update says.
pub enum UpdateV {
    Progress(u64, u64),
    Session(saved_session_info::InfoV),
}

/// What an update that may be absent says.
pub open spec fn opt_update(update: Option<SessionListUpdate>) -> Option<UpdateV> {
    match update {
        Some(SessionListUpdate::Progress { loaded, total }) => Some(UpdateV::Progress(loaded, total)),
        Some(SessionListUpdate::Session(session)) => Some(UpdateV::Session(session@)),
        None => None,
    }
}

/// What a message that arrives while a list is on its way means.
pub open spec fn update_of(message: JsonV) -> Option<UpdateV> {
    if !message.is_object() {
        None
    } else if message.str_at("type"@) == Some("session_list_progress"@) {
        Some(
            UpdateV::Progress(
                message.u64_at("loaded"@).unwrap_or(0),
                message.u64_at("total"@).unwrap_or(0),
            ),
        )
    } else {
        match message.get("session"@) {
            Some(session) => if saved_session_info::is_wire(session) {
                Some(
                    UpdateV::Session(
                        saved_session_info::received(saved_session_info::wire_of(session)),
                    ),
                )
            } else {
                None
            },
            None => None,
        }
    }
}

/// What a message that arrives while a list is on its way means: how far the list
/// is, or a session of it.
pub fn session_list_update(message: &Json) -> (r: Option<SessionListUpdate>)
    ensures
        opt_update(r) == update_of(message@),
{
    match message {
        Json::Object(_) => {},
        _ => return None,
    }
    if message.str_is("type", "session_list_progress") {
        let loaded: u64 = match message.u64_at("loaded") {
            Some(n) => n,
            None => 0,
        };
        let total: u64 = match message.u64_at("total") {
            Some(n) => n,
            None => 0,
        };
        return Some(SessionListUpdate::Progress { loaded, total });
    }
    match message.get("session") {
        Some(session) => match DaemonSavedSessionInfo::from_value(session) {
            Some(wire) => Some(SessionListUpdate::Session(deserialize_saved_session_info(&wire))),
            None => None,
        },
        None => None,
    }
}

/// The sessions among these documents; what is no session is passed over.
pub open spec fn sessions_in(values: Seq<JsonV>) -> Seq<saved_session_info::InfoV>
    decreases values.len(),
{
    if values.len() == 0 {
        Seq::empty()
    } else {
        let before = sessions_in(values.drop_last());
        if saved_session_info::is_wire(values.last()) {
            before.push(saved_session_info::received(saved_session_info::wire_of(values.last())))
        } else {
            before
        }
    }
}

/// The sessions that a response lists.
pub open spec fn listed_sessions(response: protocol::ResponseV) -> Seq<saved_session_info::InfoV> {
    match response.data {
        Some(data) => match data.get("sessions"@) {
            Some(JsonV::Arr(values)) => sessions_in(values),
            _ => Seq::empty(),
        },
        None => Seq::empty(),
    }
}

/// What sessions say.
pub open spec fn shown(sessions: Seq<AgentConnectionSavedSessionInfo>) -> Seq<
    saved_session_info::InfoV,
> {
    Seq::new(sessions.len(), |i: int| sessions[i]@)
}

/// The sessions that a response lists, or the error that it tells of. `wording` is
/// how the module of the error words it.
pub fn saved_sessions_from_response(response: &DaemonResponse, wording: &str) -> (r: Result<
    Vec<AgentConnectionSavedSessionInfo>,
    DaemonClientError,
>)
    ensures
        match r {
            Ok(sessions) => response.success && shown(sessions@) == listed_sessions(response@),
            Err(error) => !response.success && error@ == protocol::ClientErrorV::Message(
                daemon_errors::failure_text(response@, wording@),
            ),
        },
{
    broadcast use {json::object_view, json::array_view};

    if !response.success {
        return Err(daemon_error_from_response(response, wording));
    }
    let mut sessions: Vec<AgentConnectionSavedSessionInfo> = Vec::new();
    assert(shown(sessions@) =~= Seq::<saved_session_info::InfoV>::empty());
    let list = match &response.data {
        Some(data) => match data.get("sessions") {
            Some(Json::Array(values)) => values,
            _ => return Ok(sessions),
        },
        None => return Ok(sessions),
    };
    let ghost all = json::items(list@);
    let mut i: usize = 0;
    assert(all.take(0) =~= Seq::empty());
    while i < list.len()
        invariant
            i <= list.len(),
            all == json::items(list@),
            shown(sessions@) == sessions_in(all.take(i as int)),
        decreases list.len() - i,
    {
        assert(all.take(i + 1).drop_last() =~= all.take(i as int));
        assert(all.take(i + 1).last() == list@[i as int]@);
        if let Some(wire) = DaemonSavedSessionInfo::from_value(&list[i]) {
            let session = deserialize_saved_session_info(&wire);
            let ghost before = shown(sessions@);
            let ghost here = session@;
            sessions.push(session);
            assert(shown(sessions@) =~= before.push(here));
        }
        i += 1;
    }
    assert(all.take(i as int) =~= all);
    Ok(sessions)
}

/// The fields of a command on one session.
pub open spec fn session_fields(
    context: DaemonSavedSessionCatalogContext,
    session_path: Seq<char>,
) -> Seq<(Seq<char>, JsonV)> {
    let none = Seq::<(Seq<char>, JsonV)>::empty();
    let placed = match context {
        DaemonSavedSessionCatalogContext::ActiveSessionId { active_session_id } => json::put(
            none,
            "activeSessionId"@,
            JsonV::Str(active_session_id@),
        ),
        DaemonSavedSessionCatalogContext::Cwd { .. } => none,
    };
    json::put(placed, "sessionPath"@, JsonV::Str(session_path))
}

fn session_command(
    type_: &str,
    context: &DaemonSavedSessionCatalogContext,
    session_path: &str,
) -> (r: DaemonCommand)
    ensures
        r.id is None,
        r.type_@ == type_@,
        json::members(r.body@) == session_fields(*context, session_path@),
{
    let mut command = DaemonCommand::new(type_);
    if let DaemonSavedSessionCatalogContext::ActiveSessionId { active_session_id } = context {
        command.set_text("activeSessionId", active_session_id);
    }
    command.set_text("sessionPath", session_path);
    command
}

/// The command that gives a session another name.
pub fn rename_daemon_saved_session(
    context: &DaemonSavedSessionCatalogContext,
    session_path: &str,
    name: &str,
) -> (r: DaemonCommand)
    ensures
        r.id is None,
        r.type_@ == "rename_saved_session"@,
        json::members(r.body@) == json::put(
            session_fields(*context, session_path@),
            "name"@,
            JsonV::Str(name@),
        ),
{
    let mut command = session_command("rename_saved_session", context, session_path);
    command.set_text("name", name);
    command
}

/// Whether a session was renamed, or the error that the response tells of.
pub fn rename_result(response: &DaemonResponse, wording: &str) -> (r: Result<(), DaemonClientError>)
    ensures
        match r {
            Ok(_) => response.success,
            Err(error) => !response.success && error@ == protocol::ClientErrorV::Message(
                daemon_errors::failure_text(response@, wording@),
            ),
        },
{
    if !response.success {
        return Err(daemon_error_from_response(response, wording));
    }
    Ok(())
}

/// The command that deletes a session.
pub fn delete_daemon_saved_session(
    context: &DaemonSavedSessionCatalogContext,
    session_path: &str,
) -> (r: DaemonCommand)
    ensures
        r.id is None,
        r.type_@ == "delete_saved_session"@,
        json::members(r.body@) == session_fields(*context, session_path@),
{
    session_command("delete_saved_session", context, session_path)
}

/// What a deletion gave, or the error that the response tells of.
pub fn delete_result(response: &DaemonResponse, wording: &str) -> (r: Result<
    Json,
    DaemonClientError,
>)
    ensures
        match r {
            Ok(data) => response.success && data@ == match response@.data {
                Some(data) => data,
                None => JsonV::Null,
            },
            Err(error) => !response.success && error@ == protocol::ClientErrorV::Message(
                daemon_errors::failure_text(response@, wording@),
            ),
        },
{
    if !response.success {
        return Err(daemon_error_from_response(response, wording));
    }
    match &response.data {
        Some(data) => Ok(data.clone()),
        None => Ok(Json::Null),
    }
}

} // verus!
