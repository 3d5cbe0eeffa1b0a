//! The heartbeats of the daemon's sessions, as a client asks for them.

use vstd::prelude::*;

use crate::assistant_message::clone_members;
use crate::daemon_errors;
use crate::daemon_errors::daemon_error_from_response;
use crate::json;
use crate::json::{Json, JsonV};
use crate::protocol;
use crate::protocol::{DaemonClientError, DaemonCommand, DaemonResponse};
use crate::text::{cat2, same};

verus! {

/// How long a client waits for the daemon's greeting, in milliseconds.
pub const HEARTBEAT_HELLO_TIMEOUT_MS: u64 = 3000;

/// The capability of a daemon that can list heartbeats.
pub const HEARTBEAT_CATALOG_CAPABILITY: &'static str = "heartbeat_catalog";

/// A heartbeat: its fields as they came.
#[derive(Debug, PartialEq)]
pub struct AgentConnectionHeartbeat {
    pub fields: Vec<(String, Json)>,
}

/// What is to be done to list the heartbeats.
#[derive(Debug, PartialEq)]
pub enum HeartbeatStep {
    /// Wait for the greeting, at most this long.
    WaitForHello(u64),
    /// There is nothing to list: the daemon cannot do it.
    Nothing,
    /// Send this command.
    Request(DaemonCommand),
}

/// The fields of the command that lists heartbeats.
pub open spec fn heartbeat_fields(active_session_id: Option<Seq<char>>) -> Seq<
    (Seq<char>, JsonV),
> {
    match active_session_id {
        Some(id) => json::put(Seq::empty(), "activeSessionId"@, JsonV::Str(id)),
        None => Seq::empty(),
    }
}

/// What is to be done next to list the heartbeats: first the greeting must be
/// there, which tells what the daemon can do.
pub fn list_daemon_heartbeats(
    hello_present: bool,
    supports_catalog: bool,
    active_session_id: Option<&str>,
) -> (r: HeartbeatStep)
    ensures
        r is WaitForHello <==> !hello_present,
        r is Nothing <==> hello_present && !supports_catalog,
        match r {
            HeartbeatStep::WaitForHello(timeout) => timeout == HEARTBEAT_HELLO_TIMEOUT_MS,
            HeartbeatStep::Nothing => true,
            HeartbeatStep::Request(command) => command.id is None && command.type_@
                == "heartbeats_list"@ && json::members(command.body@) == heartbeat_fields(
                json::opt_str_view(active_session_id),
            ),
        },
{
    if !hello_present {
        return HeartbeatStep::WaitForHello(HEARTBEAT_HELLO_TIMEOUT_MS);
    }
    if !supports_catalog {
        return HeartbeatStep::Nothing;
    }
    let mut command = DaemonCommand::new("heartbeats_list");
    if let Some(id) = active_session_id {
        command.set_text("activeSessionId", id);
    }
    HeartbeatStep::Request(command)
}

/// The fields of a document, none where it is no object.
pub open spec fn fields_of(value: JsonV) -> Seq<(Seq<char>, JsonV)> {
    match value {
        JsonV::Obj(pairs) => pairs,
        _ => Seq::empty(),
    }
}

/// The heartbeats that a response lists.
pub open spec fn listed_heartbeats(response: protocol::ResponseV) -> Seq<
    Seq<(Seq<char>, JsonV)>,
> {
    match response.data {
        Some(data) => match data.get("heartbeats"@) {
            Some(JsonV::Arr(values)) => Seq::new(values.len(), |i: int| fields_of(values[i])),
            _ => Seq::empty(),
        },
        None => Seq::empty(),
    }
}

/// What heartbeats say.
pub open spec fn shown(heartbeats: Seq<AgentConnectionHeartbeat>) -> Seq<
    Seq<(Seq<char>, JsonV)>,
> {
    Seq::new(heartbeats.len(), |i: int| json::members(heartbeats[i].fields@))
}

/// The heartbeats that a response lists, or the error that it tells of. `wording`
/// is how the module of the error words it.
pub fn heartbeats_from_response(response: &DaemonResponse, wording: &str) -> (r: Result<
    Vec<AgentConnectionHeartbeat>,
    DaemonClientError,
>)
    ensures
        match r {
            Ok(heartbeats) => response.success && shown(heartbeats@) == listed_heartbeats(
                response@,
            ),
            Err(error) => !response.success && error@ == protocol::ClientErrorV::Message(
                daemon_errors::failure_text(response@, wording@),
            ),
        },
{
    broadcast use {json::object_view, json::array_view};

    if !response.success {
        return Err(daemon_error_from_response(response, wording));
    }
    let mut heartbeats: Vec<AgentConnectionHeartbeat> = Vec::new();
    assert(shown(heartbeats@) =~= Seq::<Seq<(Seq<char>, JsonV)>>::empty());
    let list = match &response.data {
        Some(data) => match data.get("heartbeats") {
            Some(Json::Array(values)) => values,
            _ => return Ok(heartbeats),
        },
        None => return Ok(heartbeats),
    };
    let ghost all = json::items(list@);
    let mut i: usize = 0;
    while i < list.len()
        invariant
            i <= list.len(),
            all == json::items(list@),
            heartbeats@.len() == i,
            forall|j: int|
                0 <= j < i ==> json::members((#[trigger] heartbeats@[j]).fields@) == fields_of(
                    all[j],
                ),
        decreases list.len() - i,
    {
        broadcast use {json::object_view, json::array_view};

        assert(all[i as int] == list@[i as int]@);
        let fields = match &list[i] {
            Json::Object(pairs) => clone_members(pairs),
            _ => json::no_members(),
        };
        heartbeats.push(AgentConnectionHeartbeat { fields });
        i += 1;
    }
    assert(shown(heartbeats@) =~= Seq::new(all.len(), |j: int| fields_of(all[j])));
    Ok(heartbeats)
}

/// The text of a daemon that does not know a command.
pub open spec fn unknown_command_text(command: Seq<char>) -> Seq<char> {
    "Unknown daemon command: "@ + command
}

/// Whether an error is that of a daemon which is too old to know a command.
pub fn is_unknown_daemon_command_error(message: &str, command: &str) -> (r: bool)
    ensures
        r == (message@ == unknown_command_text(command@)),
{
    let expected = cat2("Unknown daemon command: ", command);
    same(message, &expected)
}

/// Whether an error is that of a daemon which is too old to list heartbeats.
pub fn is_unknown_heartbeats_command(error: &DaemonClientError) -> (r: bool)
    ensures
        r == (protocol::client_error_text(error@) == unknown_command_text("heartbeats_list"@)),
{
    let message = error.message();
    is_unknown_daemon_command_error(&message, "heartbeats_list")
}

} // verus!
