//! What holds of the documents that pass between the daemon and its clients: sessions,
//! commands, answers and errors, and of the paths in them.

use vstd::prelude::*;

use crate::clock;
use crate::daemon_errors;
use crate::daemon_errors::{ErrorV, InfoV};
use crate::daemon_runtime_identity;
use crate::json;
use crate::json::JsonV;
use crate::path_facts;
use crate::protocol;
use crate::protocol::{ClientErrorV, DaemonHello, ResponseV};
use crate::rlm_subagent_display;
use crate::rlm_subagent_display::DisplayV;
use crate::saved_session_catalog;
use crate::saved_session_catalog::{DaemonSavedSessionCatalogContext, UpdateV};
use crate::saved_session_info;
use crate::session_info::{AgentTaskState, SessionStateStatus};
use crate::session_wire;
use crate::session_wire::RowV;
use crate::text;

verus! {

proof fn status_names()
    ensures
        text::stamp("active"@) == 118101097006,
        text::stamp("archived"@) == 101100097008,
        text::stamp("crash"@) == 115104099005,
        text::stamp("needs_input"@) == 112116110011,
        text::stamp("completed"@) == 116100099009,
        text::stamp("running"@) == 110103114007,
        text::stamp("deleted"@) == 101100100007,
{
    reveal_strlit("active");
    reveal_strlit("archived");
    reveal_strlit("crash");
    reveal_strlit("needs_input");
    reveal_strlit("completed");
    reveal_strlit("running");
    reveal_strlit("deleted");
}

/// The states of a session and the verdicts on a task go by these names, and no other
/// text is one of them.
pub proof fn states_and_verdicts_have_their_names(
    status: SessionStateStatus,
    verdict: AgentTaskState,
    name: Seq<char>,
)
    ensures
        status.name() == match status {
            SessionStateStatus::Active => "active"@,
            SessionStateStatus::Archived => "archived"@,
            SessionStateStatus::Crash => "crash"@,
        },
        verdict.name() == match verdict {
            AgentTaskState::NeedsInput => "needs_input"@,
            AgentTaskState::Completed => "completed"@,
        },
        SessionStateStatus::named(name) == Some(status) <==> name == status.name(),
        AgentTaskState::named(name) == Some(verdict) <==> name == verdict.name(),
        SessionStateStatus::named(name) is None <==> name != "active"@ && name != "archived"@ && name
            != "crash"@,
        AgentTaskState::named(name) is None <==> name != "needs_input"@ && name != "completed"@,
{
    status_names();
}

proof fn row_names()
    ensures
        text::stamp("path"@) == 104104112004,
        text::stamp("id"@) == 100100105002,
        text::stamp("cwd"@) == 100100099003,
        text::stamp("name"@) == 101101110004,
        text::stamp("state"@) == 116101115005,
        text::stamp("parentSessionPath"@) == 110104112017,
        text::stamp("rlmDepth"@) == 116104114008,
        text::stamp("created"@) == 101100099007,
        text::stamp("modified"@) == 101100109008,
        text::stamp("messageCount"@) == 117116109012,
        text::stamp("firstMessage"@) == 97101102012,
        text::stamp("allMessagesText"@) == 84116097015,
        text::stamp("agentStatus"@) == 116115097011,
        text::stamp("usage"@) == 103101117005,
{
    reveal_strlit("path");
    reveal_strlit("id");
    reveal_strlit("cwd");
    reveal_strlit("name");
    reveal_strlit("state");
    reveal_strlit("parentSessionPath");
    reveal_strlit("rlmDepth");
    reveal_strlit("created");
    reveal_strlit("modified");
    reveal_strlit("messageCount");
    reveal_strlit("firstMessage");
    reveal_strlit("allMessagesText");
    reveal_strlit("agentStatus");
    reveal_strlit("usage");
}

/// The row of a session names each of its members.
pub proof fn rows_name_their_members(row: RowV, count: JsonV)
    ensures
        ({
            let value = JsonV::Obj(session_wire::row_members(row, count));
            &&& value.str_at("path"@) == Some(row.path)
            &&& value.str_at("id"@) == Some(row.id)
            &&& value.str_at("cwd"@) == Some(row.cwd)
            &&& value.str_at("name"@) == row.name
            &&& value.get("state"@) == row.state
            &&& value.str_at("parentSessionPath"@) == row.parent_session_path
            &&& value.get("rlmDepth"@) == match row.rlm_depth {
                Some(depth) => Some(json::int_value(depth as int)),
                None => None,
            }
            &&& value.str_at("created"@) == Some(row.created)
            &&& value.str_at("modified"@) == Some(row.modified)
            &&& value.get("messageCount"@) == Some(count)
            &&& value.str_at("firstMessage"@) == Some(row.first_message)
            &&& value.str_at("allMessagesText"@) == Some(row.all_messages_text)
            &&& value.get("agentStatus"@) == row.agent_status
            &&& value.get("usage"@) == row.usage
        }),
{
    broadcast use {json::lookup_push, json::lookup_empty};

    row_names();
    let head = Seq::<(Seq<char>, JsonV)>::empty().push(("path"@, JsonV::Str(row.path))).push(
        ("id"@, JsonV::Str(row.id)),
    ).push(("cwd"@, JsonV::Str(row.cwd)));
    assert(head =~= seq![
        ("path"@, JsonV::Str(row.path)),
        ("id"@, JsonV::Str(row.id)),
        ("cwd"@, JsonV::Str(row.cwd)),
    ]);
}

/// A saved session is sent as it is, and received as it was sent: its times as they are
/// written, a count that is negative as none.
pub proof fn saved_sessions_are_sent_as_they_are(
    info: saved_session_info::InfoV,
    wire: saved_session_info::WireV,
)
    ensures
        ({
            let sent = saved_session_info::sent(info);
            &&& sent.row.path == info.path && sent.row.id == info.id && sent.row.cwd == info.cwd
            &&& sent.row.name == info.name
            &&& sent.row.parent_session_path == info.parent_session_path
            &&& sent.row.rlm_depth == info.rlm_depth
            &&& sent.row.created == clock::written_time(info.created)
            &&& sent.row.modified == clock::written_time(info.modified)
            &&& sent.row.first_message == info.first_message
            &&& sent.row.all_messages_text == info.all_messages_text
            &&& sent.row.usage == info.usage
            &&& info.message_count <= i64::MAX ==> sent.message_count == info.message_count
        }),
        ({
            let info = saved_session_info::received(wire);
            &&& info.path == wire.row.path && info.id == wire.row.id && info.cwd == wire.row.cwd
            &&& info.name == wire.row.name
            &&& info.parent_session_path == wire.row.parent_session_path
            &&& info.rlm_depth == wire.row.rlm_depth
            &&& info.created == clock::iso_millis(wire.row.created)
            &&& info.modified == clock::iso_millis(wire.row.modified)
            &&& info.first_message == wire.row.first_message
            &&& info.all_messages_text == wire.row.all_messages_text
            &&& info.usage == wire.row.usage
            &&& wire.message_count >= 0 ==> info.message_count == wire.message_count
            &&& wire.message_count < 0 ==> info.message_count == 0
        }),
{
}

proof fn list_names()
    ensures
        text::stamp("activeSessionId"@) == 111100097015,
        text::stamp("cwd"@) == 100100099003,
        text::stamp("sessionDir"@) == 68114115010,
        text::stamp("scope"@) == 112101115005,
        text::stamp("sessionPath"@) == 97104115011,
        text::stamp("type"@) == 101101116004,
        text::stamp("session_list_progress"@) == 111115115021,
        text::stamp("loaded"@) == 101100108006,
        text::stamp("total"@) == 97108116005,
        text::stamp("session"@) == 111110115007,
{
    reveal_strlit("activeSessionId");
    reveal_strlit("cwd");
    reveal_strlit("sessionDir");
    reveal_strlit("scope");
    reveal_strlit("sessionPath");
    reveal_strlit("type");
    reveal_strlit("session_list_progress");
    reveal_strlit("loaded");
    reveal_strlit("total");
    reveal_strlit("session");
}

/// Saved sessions are asked for where the client stands: by its session, or by its
/// directory and the directory of its sessions.
pub proof fn lists_are_asked_for_where_the_client_stands(
    context: DaemonSavedSessionCatalogContext,
    scope: Seq<char>,
    path: Seq<char>,
)
    ensures
        ({
            let fields = saved_session_catalog::list_fields(context, scope);
            &&& json::lookup(fields, "scope"@) == Some(JsonV::Str(scope))
            &&& match context {
                DaemonSavedSessionCatalogContext::ActiveSessionId { active_session_id } => {
                    &&& json::lookup(fields, "activeSessionId"@) == Some(
                        JsonV::Str(active_session_id@),
                    )
                    &&& json::lookup(fields, "cwd"@) is None
                },
                DaemonSavedSessionCatalogContext::Cwd { cwd, session_dir } => {
                    &&& json::lookup(fields, "cwd"@) == Some(JsonV::Str(cwd@))
                    &&& json::lookup(fields, "sessionDir"@) == match session_dir {
                        Some(dir) => Some(JsonV::Str(dir@)),
                        None => None,
                    }
                    &&& json::lookup(fields, "activeSessionId"@) is None
                },
            }
        }),
        ({
            let fields = saved_session_catalog::session_fields(context, path);
            &&& json::lookup(fields, "sessionPath"@) == Some(JsonV::Str(path))
            &&& json::lookup(fields, "activeSessionId"@) == match context {
                DaemonSavedSessionCatalogContext::ActiveSessionId { active_session_id } => Some(
                    JsonV::Str(active_session_id@),
                ),
                DaemonSavedSessionCatalogContext::Cwd { .. } => None,
            }
        }),
{
    broadcast use {json::lookup_put, json::lookup_empty};

    list_names();
}

/// While sessions are listed a message tells how far that is, or brings a session that
/// can be read; anything else says nothing.
pub proof fn list_updates_are_read(message: JsonV)
    ensures
        ({
            let update = saved_session_catalog::update_of(message);
            let progress = message.str_at("type"@) == Some("session_list_progress"@);
            &&& progress ==> update == Some(
                UpdateV::Progress(
                    message.u64_at("loaded"@).unwrap_or(0),
                    message.u64_at("total"@).unwrap_or(0),
                ),
            )
            &&& !progress ==> (update is Some <==> message.get("session"@) is Some
                && saved_session_info::is_wire(message.get("session"@)->0))
            &&& !progress && update is Some ==> update == Some(
                UpdateV::Session(
                    saved_session_info::received(
                        saved_session_info::wire_of(message.get("session"@)->0),
                    ),
                ),
            )
        }),
{
}

/// The sessions of an answer are its rows that can be read, in order.
pub proof fn readable_sessions_are_listed(values: Seq<JsonV>, value: JsonV)
    ensures
        saved_session_info::is_wire(value) ==> saved_session_catalog::sessions_in(
            values.push(value),
        ) == saved_session_catalog::sessions_in(values).push(
            saved_session_info::received(saved_session_info::wire_of(value)),
        ),
        !saved_session_info::is_wire(value) ==> saved_session_catalog::sessions_in(
            values.push(value),
        ) == saved_session_catalog::sessions_in(values),
        saved_session_catalog::sessions_in(Seq::empty()).len() == 0,
{
    assert(values.push(value).drop_last() =~= values);
}

proof fn error_names()
    ensures
        text::stamp("code"@) == 101101099004,
        text::stamp("issue"@) == 117101105005,
        text::stamp("filePath"@) == 116104102008,
        text::stamp("sessionPath"@) == 97104115011,
        text::stamp("activeSessionId"@) == 111100097015,
        text::stamp("clientId"@) == 73100099008,
        text::stamp("commandId"@) == 100100099009,
        text::stamp("missing_session_cwd"@) == 110100109019,
        text::stamp("session_import_file_not_found"@) == 111100115029,
        text::stamp("session_already_active"@) == 97101115022,
        text::stamp("session_recovering"@) == 101103115018,
        text::stamp("command_result_uncertain"@) == 101110099024,
{
    reveal_strlit("code");
    reveal_strlit("issue");
    reveal_strlit("filePath");
    reveal_strlit("sessionPath");
    reveal_strlit("activeSessionId");
    reveal_strlit("clientId");
    reveal_strlit("commandId");
    reveal_strlit("missing_session_cwd");
    reveal_strlit("session_import_file_not_found");
    reveal_strlit("session_already_active");
    reveal_strlit("session_recovering");
    reveal_strlit("command_result_uncertain");
}

/// The details of an error say which it is and what it is about.
pub proof fn error_details_say_what_is_wrong(info: InfoV)
    ensures
        ({
            let value = daemon_errors::info_value(info);
            match info {
                InfoV::MissingSessionCwd(issue) => value.str_at("code"@) == Some(
                    "missing_session_cwd"@,
                ) && value.get("issue"@) == Some(issue),
                InfoV::SessionImportFileNotFound(path) => value.str_at("code"@) == Some(
                    "session_import_file_not_found"@,
                ) && value.str_at("filePath"@) == Some(path),
                InfoV::SessionAlreadyActive(path, id) => value.str_at("code"@) == Some(
                    "session_already_active"@,
                ) && value.str_at("sessionPath"@) == Some(path) && value.str_at("activeSessionId"@)
                    == id,
                InfoV::SessionRecovering(id) => value.str_at("code"@) == Some("session_recovering"@)
                    && value.str_at("activeSessionId"@) == Some(id),
                InfoV::CommandResultUncertain(client, command) => value.str_at("code"@) == Some(
                    "command_result_uncertain"@,
                ) && value.str_at("clientId"@) == Some(client) && value.str_at("commandId"@)
                    == Some(command),
            }
        }),
{
    broadcast use {json::lookup_push, json::lookup_empty};

    error_names();
}

/// An error is told with its details where it has any, and a client that is told them
/// has the same error, in the words that are given for it; without details the message
/// is the error.
pub proof fn errors_are_told_with_their_details(
    error: ErrorV,
    message: Option<Seq<char>>,
    wording: Seq<char>,
)
    ensures
        daemon_errors::details(error) is None <==> error is Message,
        ({
            let told = daemon_errors::told_error(message, daemon_errors::details(error), wording);
            match error {
                ErrorV::MissingSessionCwd(issue, _) => told == ErrorV::MissingSessionCwd(
                    issue,
                    wording,
                ),
                ErrorV::SessionImportFileNotFound(path, _) => told
                    == ErrorV::SessionImportFileNotFound(path, wording),
                ErrorV::SessionAlreadyActive(path, id, _) => told == ErrorV::SessionAlreadyActive(
                    path,
                    id,
                    wording,
                ),
                ErrorV::SessionRecovering(id) => told == ErrorV::SessionRecovering(id),
                ErrorV::Message(_) => told == ErrorV::Message(
                    match message {
                        Some(message) => message,
                        None => Seq::empty(),
                    },
                ),
            }
        }),
        forall|client: Seq<char>, command: Seq<char>|
            #[trigger] daemon_errors::told_error(
                message,
                Some(InfoV::CommandResultUncertain(client, command)),
                wording,
            ) is Message,
{
}

/// What is said of an error are its own words; of one that recovers, that it does.
pub proof fn errors_have_their_words(said: Seq<char>, id: Seq<char>, path: Seq<char>, issue: JsonV)
    ensures
        daemon_errors::error_text(ErrorV::Message(said)) == said,
        daemon_errors::error_text(ErrorV::MissingSessionCwd(issue, said)) == said,
        daemon_errors::error_text(ErrorV::SessionImportFileNotFound(path, said)) == said,
        daemon_errors::error_text(ErrorV::SessionAlreadyActive(path, Some(id), said)) == said,
        daemon_errors::error_text(ErrorV::SessionRecovering(id)) == "Active session "@ + id
            + " is recovering; retry shortly"@,
{
}

proof fn display_names()
    ensures
        text::stamp("type"@) == 101101116004,
        text::stamp("rlm_subagent"@) == 101116114012,
        text::stamp("childId"@) == 73100099007,
        text::stamp("sessionName"@) == 97101115011,
        text::stamp("sessionDir"@) == 68114115010,
        text::stamp("sessionFile"@) == 105101115011,
        text::stamp("rlmMaxDepth"@) == 112104114011,
        text::stamp("rlmParentNodeId"@) == 100100114015,
        text::stamp("prompt"@) == 112116112006,
        text::stamp("spawnCode"@) == 111101115009,
        text::stamp("model"@) == 101108109005,
        text::stamp("provider"@) == 101114112008,
        text::stamp("modelId"@) == 73100109007,
        text::stamp("status"@) == 117115115006,
        text::stamp("createdAt"@) == 100116099009,
        text::stamp("updatedAt"@) == 100116117009,
{
    reveal_strlit("type");
    reveal_strlit("rlm_subagent");
    reveal_strlit("childId");
    reveal_strlit("sessionName");
    reveal_strlit("sessionDir");
    reveal_strlit("sessionFile");
    reveal_strlit("rlmMaxDepth");
    reveal_strlit("rlmParentNodeId");
    reveal_strlit("prompt");
    reveal_strlit("spawnCode");
    reveal_strlit("model");
    reveal_strlit("provider");
    reveal_strlit("modelId");
    reveal_strlit("status");
    reveal_strlit("createdAt");
    reveal_strlit("updatedAt");
}

/// What is shown of an agent names each of its members.
pub proof fn shown_agents_name_their_members(entry: DisplayV)
    ensures
        ({
            let value = rlm_subagent_display::display_value(entry);
            &&& value.str_at("type"@) == Some(entry.type_)
            &&& value.str_at("childId"@) == Some(entry.child_id)
            &&& value.str_at("sessionName"@) == Some(entry.session_name)
            &&& value.str_at("sessionDir"@) == Some(entry.session_dir)
            &&& value.str_at("sessionFile"@) == Some(entry.session_file)
            &&& value.get("rlmMaxDepth"@) == match entry.rlm_max_depth {
                Some(depth) => Some(json::int_value(depth as int)),
                None => None,
            }
            &&& value.str_at("rlmParentNodeId"@) == entry.rlm_parent_node_id
            &&& value.str_at("prompt"@) == entry.prompt
            &&& value.str_at("spawnCode"@) == entry.spawn_code
            &&& value.str_at("status"@) == Some(entry.status)
            &&& value.get("createdAt"@) == Some(JsonV::Num(entry.created_at))
            &&& value.str_at("updatedAt"@) == Some(entry.updated_at)
            &&& (entry.model matches Some(model) ==> value.get("model"@) is Some && value.get(
                "model"@,
            )->0.str_at("provider"@) == Some(model.provider) && value.get("model"@)->0.str_at(
                "modelId"@,
            ) == Some(model.model_id))
            &&& entry.model is None ==> value.get("model"@) is None
        }),
{
    broadcast use {json::lookup_push, json::lookup_empty};

    display_names();
}

/// A document shows an agent exactly where it says so, names the child, its session and
/// its files, gives one of the three states and a time, and no negative depth.
pub proof fn shown_agents_are_recognized(value: JsonV)
    ensures
        rlm_subagent_display::is_display(value) <==> {
            &&& value is Obj
            &&& value.str_at("type"@) == Some("rlm_subagent"@)
            &&& value.str_at("childId"@) is Some && value.str_at("sessionName"@) is Some
                && value.str_at("sessionDir"@) is Some && value.str_at("sessionFile"@) is Some
            &&& value.str_at("status"@) == Some("running"@) || value.str_at("status"@) == Some(
                "completed"@,
            ) || value.str_at("status"@) == Some("deleted"@)
            &&& value.get("rlmMaxDepth"@) is Some ==> value.i64_at("rlmMaxDepth"@) is Some
                && value.i64_at("rlmMaxDepth"@)->0 >= 0
            &&& value.get("createdAt"@) is Some && value.get("createdAt"@)->0 is Num
        },
{
}

/// A file that says an agent was deleted is never written over; every other one is.
pub proof fn tombstones_stay(contents: Seq<char>)
    ensures
        !rlm_subagent_display::is_tombstone(None),
        rlm_subagent_display::is_tombstone(Some(contents)) <==> rlm_subagent_display::display_in(
            contents,
        ) is Some && rlm_subagent_display::display_in(contents)->0.status == "deleted"@,
{
}

proof fn answer_members()
    ensures
        text::stamp("type"@) == 101101116004,
        text::stamp("response"@) == 115101114008,
        text::stamp("command"@) == 110100099007,
        text::stamp("success"@) == 115115115007,
        text::stamp("id"@) == 100100105002,
        text::stamp("data"@) == 97097100004,
        text::stamp("error"@) == 111114101005,
        text::stamp("errorInfo"@) == 110111101009,
        text::stamp("daemon_hello"@) == 108111100012,
        text::stamp("protocol"@) == 111108112008,
        text::stamp("name"@) == 101101110004,
        text::stamp("version"@) == 111110118007,
        text::stamp("schemaRevision"@) == 115110115014,
        text::stamp("serverCapabilities"@) == 105115115018,
{
    reveal_strlit("type");
    reveal_strlit("response");
    reveal_strlit("command");
    reveal_strlit("success");
    reveal_strlit("id");
    reveal_strlit("data");
    reveal_strlit("error");
    reveal_strlit("errorInfo");
    reveal_strlit("daemon_hello");
    reveal_strlit("protocol");
    reveal_strlit("name");
    reveal_strlit("version");
    reveal_strlit("schemaRevision");
    reveal_strlit("serverCapabilities");
}

/// A command says what it is, under its id where it has one, and keeps its members.
pub proof fn commands_say_what_they_are(
    id: Option<Seq<char>>,
    type_: Seq<char>,
    body: Seq<(Seq<char>, JsonV)>,
    key: Seq<char>,
)
    ensures
        ({
            let value = protocol::command_value(id, type_, body);
            &&& value.str_at("type"@) == Some(type_)
            &&& id is Some ==> value.str_at("id"@) == id
            &&& key != "type"@ && (key != "id"@ || id is None) ==> value.get(key) == json::lookup(
                body,
                key,
            )
        }),
{
    broadcast use {json::lookup_push, json::lookup_empty};

    answer_members();
    let head = Seq::<(Seq<char>, JsonV)>::empty().push(("type"@, JsonV::Str(type_)));
    assert(head =~= seq![("type"@, JsonV::Str(type_))]);
    match id {
        Some(id) => {
            let both = head.push(("id"@, JsonV::Str(id)));
            assert(both =~= seq![("type"@, JsonV::Str(type_))] + seq![("id"@, JsonV::Str(id))]);
            found_in_both(both, body, "type"@);
            found_in_both(both, body, "id"@);
            found_in_both(both, body, key);
        },
        None => {
            found_in_both(head, body, "type"@);
            found_in_both(head, body, key);
        },
    }
}

proof fn found_in_both(
    first: Seq<(Seq<char>, JsonV)>,
    second: Seq<(Seq<char>, JsonV)>,
    key: Seq<char>,
)
    ensures
        json::lookup(first + second, key) == if json::lookup(first, key) is Some {
            json::lookup(first, key)
        } else {
            json::lookup(second, key)
        },
    decreases first.len(),
{
    if first.len() == 0 {
        assert(first + second =~= second);
    } else {
        assert((first + second)[0] == first[0]);
        assert((first + second).drop_first() =~= first.drop_first() + second);
        found_in_both(first.drop_first(), second, key);
    }
}

/// An answer says to which command it is, whether that succeeded and what came of it.
pub proof fn answers_say_what_came_of_a_command(response: ResponseV)
    ensures
        ({
            let value = protocol::response_value(response);
            &&& value.str_at("type"@) == Some("response"@)
            &&& value.str_at("command"@) == Some(response.command)
            &&& value.bool_at("success"@) == Some(response.success)
            &&& value.str_at("id"@) == response.id
            &&& value.get("data"@) == response.data
            &&& value.str_at("error"@) == response.error
            &&& value.get("errorInfo"@) == response.error_info
        }),
{
    broadcast use {json::lookup_push, json::lookup_empty};

    answer_members();
}

/// A document is an answer where it says so, names its command and says whether that
/// succeeded; what is read of it is what it says.
pub proof fn answers_are_recognized(value: JsonV)
    ensures
        protocol::is_response(value) ==> value.str_at("type"@) == Some("response"@)
            && value.str_at("command"@) is Some && value.bool_at("success"@) is Some,
        value.str_at("type"@) == Some("response"@) && value.str_at("command"@) is Some
            && value.bool_at("success"@) is Some && (value.get("id"@) is None || value.get("id"@)->0
            is Str) && (value.get("error"@) is None || value.get("error"@)->0 is Str)
            ==> protocol::is_response(value),
        protocol::is_response(value) ==> {
            let response = protocol::response_of(value);
            &&& Some(response.command) == value.str_at("command"@)
            &&& Some(response.success) == value.bool_at("success"@)
            &&& response.id == value.str_at("id"@)
            &&& response.error == value.str_at("error"@)
            &&& response.data is Some ==> response.data == value.get("data"@)
            &&& response.data is None ==> value.get("data"@) is None || value.get("data"@) == Some(
                JsonV::Null,
            )
            &&& response.error_info is Some ==> response.error_info == value.get("errorInfo"@)
        },
{
}

/// A greeting names the protocol and its version; what a server can do is what it lists.
pub proof fn greetings_name_the_protocol(hello: DaemonHello, value: JsonV)
    ensures
        protocol::is_hello(value) <==> value.str_at("type"@) == Some("daemon_hello"@) && value.get(
            "protocol"@,
        ) is Some && value.get("protocol"@)->0.str_at("name"@) is Some && value.get(
            "protocol"@,
        )->0.u64_at("version"@) is Some,
        protocol::hello_of(hello, value) ==> {
            &&& value.get("protocol"@)->0.str_at("name"@) == Some(hello.protocol_name@)
            &&& value.get("protocol"@)->0.u64_at("version"@) == Some(hello.protocol_version)
            &&& hello.schema_revision == value.u64_at("schemaRevision"@)
            &&& (value.get("serverCapabilities"@) matches Some(list) ==> text::texts(
                hello.server_capabilities@,
            ) == protocol::listed_texts(list))
        },
{
}

/// The texts of a list are its texts, in order; what is no text is passed over.
pub proof fn texts_are_listed(values: Seq<JsonV>, value: JsonV, said: Seq<char>)
    ensures
        protocol::texts_in(values.push(JsonV::Str(said))) == protocol::texts_in(values).push(said),
        !(value is Str) ==> protocol::texts_in(values.push(value)) == protocol::texts_in(values),
        protocol::texts_in(Seq::empty()).len() == 0,
        protocol::listed_texts(JsonV::Arr(values)) == protocol::texts_in(values),
        !(value is Arr) ==> protocol::listed_texts(value).len() == 0,
{
    assert(values.push(JsonV::Str(said)).drop_last() =~= values);
    assert(values.push(value).drop_last() =~= values);
}

/// What is said of an error of a client: its message, and of a connection that ended the
/// reason, the socket and the cause.
pub proof fn client_errors_have_their_words(
    said: Seq<char>,
    path: Seq<char>,
    reason: Seq<char>,
    cause: Seq<char>,
)
    ensures
        protocol::client_error_text(ClientErrorV::Message(said)) == said,
        protocol::client_error_text(ClientErrorV::CapabilityUnavailable(said)) == said,
        protocol::client_error_text(ClientErrorV::SocketClosed(path, None, None))
            == "Daemon connection closed"@ + ". Socket: "@ + path,
        protocol::client_error_text(ClientErrorV::SocketClosed(path, Some(reason), None))
            == "Daemon connection closed ("@ + reason + ")"@ + ". Socket: "@ + path,
        protocol::client_error_text(ClientErrorV::SocketClosed(path, None, Some(cause)))
            == "Daemon connection closed"@ + ". Socket: "@ + path + ". Cause: "@ + cause,
        protocol::client_error_text(ClientErrorV::SocketClosed(path, Some(reason), Some(cause)))
            == "Daemon connection closed ("@ + reason + ")"@ + ". Socket: "@ + path + ". Cause: "@
            + cause,
{
}

/// A path that is given is taken from the current directory; an empty one is none.
pub proof fn given_paths_are_taken_from_here(path: Seq<char>, here: Seq<char>)
    ensures
        daemon_runtime_identity::given_path(None, here) is None,
        daemon_runtime_identity::given_path(Some(path), here) is None <==> path.len() == 0,
        path.len() > 0 && path[0] == '/' ==> daemon_runtime_identity::given_path(Some(path), here)
            == Some(path_facts::collapsed(path, true)),
        path.len() > 0 && path[0] != '/' && here.len() > 0 && here.last() != '/'
            ==> daemon_runtime_identity::given_path(Some(path), here) == Some(
            path_facts::collapsed(here + "/"@ + path, true),
        ),
{
    reveal_strlit("/");
    assert("/"@ =~= seq!['/']);
    if path.len() > 0 {
        assert(path.subrange(0, 1)[0] == path[0]);
        if path[0] == '/' {
            assert(path.subrange(0, 1) =~= "/"@);
        } else {
            assert(path.subrange(0, 1) != "/"@);
        }
    }
}

/// A name put below a directory stands behind one separator.
pub proof fn names_stand_below_their_directory(dir: Seq<char>, name: Seq<char>)
    ensures
        dir.len() == 0 ==> path_facts::joined_path(dir, name) == name,
        dir.len() > 0 && dir.last() == '/' ==> path_facts::joined_path(dir, name) == dir + name,
        dir.len() > 0 && dir.last() != '/' ==> path_facts::joined_path(dir, name) == dir + seq!['/']
            + name,
{
    reveal_strlit("/");
    assert("/"@ =~= seq!['/']);
    assert(Seq::<char>::empty() + name =~= name);
    if dir.len() == 0 {
        assert(dir + name =~= name);
    }
}

/// A path taken apart and put together again is the same: the name of what lies in a
/// directory is the name, and its parent the directory.
pub proof fn joined_paths_come_apart(dir: Seq<char>, name: Seq<char>)
    requires
        dir.len() > 0,
        dir.last() != '/',
        !(dir.last() == '.' && dir.len() > 1 && dir[dir.len() - 2] == '/'),
        name.len() > 0,
        !name.contains('/'),
        name != seq!['.'],
        name != seq!['.', '.'],
    ensures
        path_facts::name_of(path_facts::joined_path(dir, name)) == name,
        path_facts::parent_of(path_facts::joined_path(dir, name)) == dir,
{
    names_stand_below_their_directory(dir, name);
    let path = path_facts::joined_path(dir, name);
    assert(path == dir + seq!['/'] + name);
    assert(path.last() == name.last());
    assert(name.last() != '/') by {
        assert(name[name.len() - 1] == name.last());
    }
    if path.last() == '.' {
        if name.len() == 1 {
            assert(name =~= seq!['.']);
        } else {
            assert(path[path.len() - 2] == name[name.len() - 2]);
            assert(name[name.len() - 2] != '/');
        }
    }
    assert(path_facts::without_tail(path) == path);
    the_last_separator_is_there(path, dir.len() as int);
    assert(path_facts::last_separator(path) == dir.len());
    assert(path.skip(dir.len() + 1int) =~= name);
    assert(path.take(dir.len() as int) =~= dir);
    assert(path_facts::without_tail(dir) == dir);
    assert(path != seq!['/']) by {
        assert(path.len() >= 3);
    }
}

proof fn the_last_separator_is_there(path: Seq<char>, at: int)
    requires
        0 <= at < path.len(),
        path[at] == '/',
        forall|i: int| at < i < path.len() ==> path[i] != '/',
    ensures
        path_facts::last_separator(path) == at,
    decreases path.len(),
{
    if at < path.len() - 1 {
        assert(path[path.len() - 1] != '/');
        let fewer = path.drop_last();
        assert(fewer[at] == path[at]);
        assert forall|i: int| at < i < fewer.len() implies fewer[i] != '/' by {
            assert(fewer[i] == path[i]);
        }
        the_last_separator_is_there(fewer, at);
    }
}

/// A suffix is taken off where it is there, and only there.
pub proof fn suffixes_are_taken_off(stem: Seq<char>, suffix: Seq<char>, other: Seq<char>)
    ensures
        path_facts::without_suffix(stem + suffix, suffix) == stem,
        !text::ends(other, suffix) ==> path_facts::without_suffix(other, suffix) == other,
{
    let whole = stem + suffix;
    assert(whole.subrange(whole.len() - suffix.len(), whole.len() as int) =~= suffix);
    assert(whole.take(whole.len() - suffix.len()) =~= stem);
}

/// The parts of a path: an empty part and a dot say nothing; two dots take back the part
/// before, and stay where there is none and they are to be kept.
pub proof fn dots_are_resolved(parts: Seq<Seq<char>>, part: Seq<char>, keep_up: bool)
    ensures
        path_facts::collapse_part(parts, "."@, keep_up) == parts,
        path_facts::collapse_part(parts, Seq::empty(), keep_up) == parts,
        parts.len() > 0 && parts.last() != ".."@ ==> path_facts::collapse_part(
            parts,
            ".."@,
            keep_up,
        ) == parts.drop_last(),
        parts.len() == 0 || parts.last() == ".."@ ==> path_facts::collapse_part(
            parts,
            ".."@,
            keep_up,
        ) == if keep_up {
            parts.push(".."@)
        } else {
            parts
        },
        part.len() > 0 && part != "."@ && part != ".."@ ==> path_facts::collapse_part(
            parts,
            part,
            keep_up,
        ) == parts.push(part),
{
    reveal_strlit(".");
    reveal_strlit("..");
    assert("."@.len() == 1);
    assert(".."@.len() == 2);
}

} // verus!
