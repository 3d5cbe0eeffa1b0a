//! The catalog: a child process that lists and edits saved sessions for the
//! supervisor, one line of JSON per message.

use vstd::prelude::*;

use crate::clock;
use crate::clock::{iso_from_ms, parse_iso_ms};
use crate::daemon_worker_protocol;
use crate::daemon_worker_protocol::join_path;
use crate::json;
use crate::json::{Json, JsonV, copied, owned, parse_json, print_json};
use crate::protocol;
use crate::protocol::texts_of;
use crate::session_info;
use crate::session_info::{
    AgentStatus,
    AgentStatusV,
    AgentTaskState,
    SessionInfo,
    SessionInfoV,
    SessionState,
    SessionStateStatus,
    agent_task_state,
    session_state_status,
};
use crate::session_wire;
use crate::session_wire::{Row, RowV, read_row, write_row};
use crate::text;
use crate::text::{cat2, cat3, clone_texts, contains_text, decimal, same, starts_with, trim};
use crate::text_map::TextMap;

verus! {

pub const DAEMON_CATALOG_ROLE_ENV: &'static str = "PRIME_AGENT_INTERNAL_DAEMON_CATALOG";

/// How long the catalog may take to say that it is ready, in milliseconds.
pub const DAEMON_CATALOG_START_TIMEOUT_MS: u64 = 30000;

/// How long the catalog may take to answer, in milliseconds.
pub const DAEMON_CATALOG_REQUEST_TIMEOUT_MS: u64 = 300000;

/// What a session says whose worker stopped during its work.
pub const WORKER_INTERRUPTED_CONTENT: &'static str = "<prime_agent_worker_interrupted>\nThe isolated session worker stopped during in-flight work. The saved transcript was recovered, but uncertain model, tool, bash, or child-agent work was not replayed. Inspect external side effects before continuing.\n</prime_agent_worker_interrupted>";

/// A name below a directory.
pub open spec fn joined(base: Seq<char>, name: Seq<char>) -> Seq<char> {
    daemon_worker_protocol::without_trailing_separators(base) + "/"@ + name
}

/// The module lies in the sources of the package.
pub open spec fn is_source_path(module: Seq<char>, package_dir: Seq<char>) -> bool {
    text::begins(module, joined(package_dir, "src"@) + "/"@)
}

/// Whether the catalog runs from a source checkout.
pub fn is_daemon_catalog_source_path(module: &str, package_dir: &str) -> (r: bool)
    ensures
        r == is_source_path(module@, package_dir@),
{
    let sources = join_path(package_dir, "src");
    let prefix = cat2(&sources, "/");
    starts_with(module, &prefix)
}

/// The entrypoint in the sources.
pub open spec fn source_entrypoint(package_dir: Seq<char>) -> Seq<char> {
    joined(
        joined(joined(joined(package_dir, "src"@), "modes"@), "daemon"@),
        "daemon-catalog-entry.ts"@,
    )
}

/// The compiled entrypoint.
pub open spec fn compiled_entrypoint(package_dir: Seq<char>) -> Seq<char> {
    joined(
        joined(joined(joined(package_dir, "dist"@), "modes"@), "daemon"@),
        "daemon-catalog-entry.js"@,
    )
}

/// The places where the entrypoint may be, the one that is preferred first.
pub open spec fn entrypoints(package_dir: Seq<char>, module: Seq<char>) -> (
    Seq<char>,
    Seq<char>,
) {
    if is_source_path(module, package_dir) {
        (source_entrypoint(package_dir), compiled_entrypoint(package_dir))
    } else {
        (compiled_entrypoint(package_dir), source_entrypoint(package_dir))
    }
}

/// The places where the entrypoint may be, the one that is preferred first.
pub fn daemon_catalog_entrypoints(package_dir: &str, module: &str) -> (r: (String, String))
    ensures
        (r.0@, r.1@) == entrypoints(package_dir@, module@),
{
    let src = join_path(package_dir, "src");
    let src_modes = join_path(&src, "modes");
    let src_daemon = join_path(&src_modes, "daemon");
    let source = join_path(&src_daemon, "daemon-catalog-entry.ts");
    let dist = join_path(package_dir, "dist");
    let dist_modes = join_path(&dist, "modes");
    let dist_daemon = join_path(&dist_modes, "daemon");
    let compiled = join_path(&dist_daemon, "daemon-catalog-entry.js");
    if is_daemon_catalog_source_path(module, package_dir) {
        (source, compiled)
    } else {
        (compiled, source)
    }
}

/// The entrypoint to start: the first of the places that is among the paths that
/// exist.
pub fn resolve_daemon_catalog_entrypoint(
    package_dir: &str,
    module: &str,
    existing: &Vec<String>,
) -> (r: Result<String, String>)
    ensures
        ({
            let (first, second) = entrypoints(package_dir@, module@);
            match r {
                Ok(entrypoint) => if text::holds_text(existing@, first) {
                    entrypoint@ == first
                } else {
                    entrypoint@ == second && text::holds_text(existing@, second)
                },
                Err(error) => !text::holds_text(existing@, first) && !text::holds_text(
                    existing@,
                    second,
                ) && error@ == "Cannot locate the daemon catalog entrypoint"@,
            }
        }),
{
    let (first, second) = daemon_catalog_entrypoints(package_dir, module);
    if contains_text(existing, &first) {
        return Ok(first);
    }
    if contains_text(existing, &second) {
        return Ok(second);
    }
    Err("Cannot locate the daemon catalog entrypoint".to_owned())
}

/// A saved session as the catalog sends it.
#[derive(Debug, PartialEq)]
pub struct SessionInfoWire {
    pub path: String,
    pub id: String,
    pub cwd: String,
    pub name: Option<String>,
    pub state: Option<Json>,
    pub parent_session_path: Option<String>,
    pub rlm_depth: Option<i64>,
    pub created: String,
    pub modified: String,
    pub message_count: u64,
    pub first_message: String,
    pub all_messages_text: String,
    pub agent_status: Option<Json>,
    pub usage: Option<Json>,
}

impl SessionInfoWire {
    /// What the session says, but for its message count.
    pub open spec fn row(self) -> RowV {
        RowV {
            path: self.path@,
            id: self.id@,
            cwd: self.cwd@,
            name: json::opt_view(self.name),
            state: json::opt_json(self.state),
            parent_session_path: json::opt_view(self.parent_session_path),
            rlm_depth: self.rlm_depth,
            created: self.created@,
            modified: self.modified@,
            first_message: self.first_message@,
            all_messages_text: self.all_messages_text@,
            agent_status: json::opt_json(self.agent_status),
            usage: json::opt_json(self.usage),
        }
    }

    /// Reads a session from its document; nothing where the document is none.
    pub fn from_value(value: &Json) -> (r: Option<Self>)
        ensures
            match r {
                Some(wire) => is_wire(value@) && (wire.row(), wire.message_count) == wire_of(
                    value@,
                ),
                None => !is_wire(value@),
            },
    {
        let names = vec![
            "path",
            "id",
            "cwd",
            "name",
            "state",
            "parentSessionPath",
            "rlmDepth",
            "created",
            "modified",
            "messageCount",
            "firstMessage",
            "allMessagesText",
            "agentStatus",
            "usage",
        ];
        assert(json::names_view(names@) =~= wire_fields());
        let value = json::named(value, names, 12);
        let message_count: u64 = match value.u64_at("messageCount") {
            Some(count) => count,
            None => return None,
        };
        match read_row(&value) {
            Some(row) => Some(
                SessionInfoWire {
                    path: row.path,
                    id: row.id,
                    cwd: row.cwd,
                    name: row.name,
                    state: row.state,
                    parent_session_path: row.parent_session_path,
                    rlm_depth: row.rlm_depth,
                    created: row.created,
                    modified: row.modified,
                    message_count,
                    first_message: row.first_message,
                    all_messages_text: row.all_messages_text,
                    agent_status: row.agent_status,
                    usage: row.usage,
                },
            ),
            None => None,
        }
    }

    /// The document that is sent.
    pub fn to_value(&self) -> (r: Json)
        ensures
            r@ == wire_value(self.row(), self.message_count),
    {
        let row = Row {
            path: self.path.clone(),
            id: self.id.clone(),
            cwd: self.cwd.clone(),
            name: self.name.clone(),
            state: copied(self.state.as_ref()),
            parent_session_path: self.parent_session_path.clone(),
            rlm_depth: self.rlm_depth,
            created: self.created.clone(),
            modified: self.modified.clone(),
            first_message: self.first_message.clone(),
            all_messages_text: self.all_messages_text.clone(),
            agent_status: copied(self.agent_status.as_ref()),
            usage: copied(self.usage.as_ref()),
        };
        write_row(&row, json::count(self.message_count))
    }
}

impl Clone for SessionInfoWire {
    fn clone(&self) -> (r: Self)
        ensures
            r.row() == self.row(),
            r.message_count == self.message_count,
    {
        SessionInfoWire {
            path: self.path.clone(),
            id: self.id.clone(),
            cwd: self.cwd.clone(),
            name: self.name.clone(),
            state: copied(self.state.as_ref()),
            parent_session_path: self.parent_session_path.clone(),
            rlm_depth: self.rlm_depth,
            created: self.created.clone(),
            modified: self.modified.clone(),
            message_count: self.message_count,
            first_message: self.first_message.clone(),
            all_messages_text: self.all_messages_text.clone(),
            agent_status: copied(self.agent_status.as_ref()),
            usage: copied(self.usage.as_ref()),
        }
    }
}

/// The document is a session as the catalog sends it.
pub open spec fn is_wire(value: JsonV) -> bool {
    let row = json::by_name(value, wire_fields(), 12);
    session_wire::is_row(row) && row.u64_at("messageCount"@) is Some
}

/// The fields of a session in their order.
pub open spec fn wire_fields() -> Seq<Seq<char>> {
    seq![
        "path"@,
        "id"@,
        "cwd"@,
        "name"@,
        "state"@,
        "parentSessionPath"@,
        "rlmDepth"@,
        "created"@,
        "modified"@,
        "messageCount"@,
        "firstMessage"@,
        "allMessagesText"@,
        "agentStatus"@,
        "usage"@,
    ]
}

/// The session in a document, and its message count.
pub open spec fn wire_of(value: JsonV) -> (RowV, u64) {
    let row = json::by_name(value, wire_fields(), 12);
    (session_wire::row_of(row), row.u64_at("messageCount"@)->0)
}

/// The document of a session.
pub open spec fn wire_value(row: RowV, message_count: u64) -> JsonV {
    JsonV::Obj(session_wire::row_members(row, json::int_value(message_count as int)))
}

/// What the catalog writes of a session is what the supervisor reads.
pub proof fn wire_is_read_back(row: RowV, message_count: u64)
    requires
        session_wire::says_something(row),
    ensures
        is_wire(wire_value(row, message_count)),
        wire_of(wire_value(row, message_count)) == (row, message_count),
{
    session_wire::row_is_read_back(row, json::int_value(message_count as int));
}

/// The document of a session's state.
pub open spec fn state_value(state: SessionState) -> JsonV {
    JsonV::Obj(seq![("status"@, JsonV::Str(state.status.name()))])
}

/// The document of an agent's status.
pub open spec fn status_value(status: AgentStatusV) -> JsonV {
    JsonV::Obj(
        seq![
            ("summary"@, JsonV::Str(status.summary)),
            (
                "taskState"@,
                match status.task_state {
                    Some(verdict) => JsonV::Str(verdict.name()),
                    None => JsonV::Null,
                },
            ),
            ("basedOnMessageCount"@, json::int_value(status.based_on_message_count as int)),
        ],
    )
}

/// A session as it is sent.
pub open spec fn sent_row(session: SessionInfoV) -> RowV {
    RowV {
        path: session.path,
        id: session.id,
        cwd: session.cwd,
        name: session.name,
        state: match session.state {
            Some(state) => Some(state_value(state)),
            None => None,
        },
        parent_session_path: session.parent_session_path,
        rlm_depth: Some(session.rlm_depth),
        created: clock::written_time(session.created),
        modified: clock::written_time(session.modified),
        first_message: session.first_message,
        all_messages_text: session.all_messages_text,
        agent_status: match session.agent_status {
            Some(status) => Some(status_value(status)),
            None => None,
        },
        usage: session.usage,
    }
}

/// The state in a document; a state that is not known is none.
pub open spec fn state_of(value: JsonV) -> Option<SessionState> {
    match value.str_at("status"@) {
        Some(name) => match SessionStateStatus::named(name) {
            Some(status) => Some(SessionState { status }),
            None => None,
        },
        None => None,
    }
}

/// The agent's status in a document.
pub open spec fn status_of(value: JsonV) -> AgentStatusV {
    AgentStatusV {
        summary: value.str_at("summary"@).unwrap_or(Seq::empty()),
        task_state: match value.str_at("taskState"@) {
            Some(name) => AgentTaskState::named(name),
            None => None,
        },
        based_on_message_count: json::clamped(
            json::whole_at(value, "basedOnMessageCount"@),
            i64::MIN as int,
            i64::MAX as int,
        ) as i64,
    }
}

/// A session as it was sent.
pub open spec fn received_session(row: RowV, message_count: u64) -> SessionInfoV {
    SessionInfoV {
        path: row.path,
        id: row.id,
        cwd: row.cwd,
        name: row.name,
        state: match row.state {
            Some(state) => state_of(state),
            None => None,
        },
        parent_session_path: row.parent_session_path,
        rlm_depth: row.rlm_depth.unwrap_or(0),
        created: clock::iso_millis(row.created),
        modified: clock::iso_millis(row.modified),
        message_count,
        first_message: row.first_message,
        all_messages_text: row.all_messages_text,
        agent_status: match row.agent_status {
            Some(status) => Some(status_of(status)),
            None => None,
        },
        usage: row.usage,
    }
}

/// The times of the session are known and their years have four digits, and the
/// message count of its status is one that a double holds exactly.
pub open spec fn survives_the_wire(session: SessionInfoV) -> bool {
    &&& session.created matches Some(at) && clock::in_four_digit_year(at)
    &&& session.modified matches Some(at) && clock::in_four_digit_year(at)
    &&& session.agent_status matches Some(status) ==> -9007199254740992
        <= status.based_on_message_count <= 9007199254740992
}

/// A session's state is read from its document as it was written.
pub proof fn state_is_read_back(state: SessionState)
    ensures
        state_of(state_value(state)) == Some(state),
{
    broadcast use {json::lookup_push, json::lookup_empty};

    session_info::status_is_read_back(state.status);
    assert(state_value(state)->Obj_0 =~= Seq::<(Seq<char>, JsonV)>::empty().push(
        ("status"@, JsonV::Str(state.status.name())),
    ));
}

/// An agent's status is read from its document as it was written, where its count
/// is one that a double holds exactly.
pub proof fn status_is_read_back(status: AgentStatusV)
    requires
        -9007199254740992 <= status.based_on_message_count <= 9007199254740992,
    ensures
        status_of(status_value(status)) == status,
{
    broadcast use {json::lookup_push, json::lookup_empty};

    reveal_strlit("summary");
    reveal_strlit("taskState");
    reveal_strlit("basedOnMessageCount");
    assert("summary"@.len() == 7 && "taskState"@.len() == 9 && "basedOnMessageCount"@.len() == 19);
    if let Some(verdict) = status.task_state {
        session_info::verdict_is_read_back(verdict);
    }
    let pairs = status_value(status)->Obj_0;
    assert(pairs =~= Seq::<(Seq<char>, JsonV)>::empty().push(pairs[0]).push(pairs[1]).push(
        pairs[2],
    ));
    assert(status_of(status_value(status)) =~= status);
}

fn status_json(status: &AgentStatus) -> (r: Json)
    ensures
        r@ == status_value(status@),
{
    let mut pairs = json::no_members();
    json::add_text(&mut pairs, "summary", &status.summary);
    match status.task_state {
        Some(verdict) => json::add_text(&mut pairs, "taskState", verdict.as_str()),
        None => json::add_member(&mut pairs, "taskState", Json::Null),
    }
    json::add_member(&mut pairs, "basedOnMessageCount", json::integer(status.based_on_message_count));
    assert(json::members(pairs@) =~= status_value(status@)->Obj_0);
    json::object(pairs)
}

fn state_json(state: SessionState) -> (r: Json)
    ensures
        r@ == state_value(state),
{
    let mut pairs = json::no_members();
    json::add_text(&mut pairs, "status", state.status.as_str());
    assert(json::members(pairs@) =~= state_value(state)->Obj_0);
    json::object(pairs)
}

fn read_status(status: &Json) -> (r: AgentStatus)
    ensures
        r@ == status_of(status@),
{
    AgentStatus {
        summary: match status.str_at("summary") {
            Some(summary) => summary.to_owned(),
            None => String::new(),
        },
        task_state: match status.str_at("taskState") {
            Some(name) => agent_task_state(name),
            None => None,
        },
        based_on_message_count: json::signed_at(status, "basedOnMessageCount"),
    }
}

/// A session as it is sent.
pub fn serialize_session_info(session: &SessionInfo) -> (r: SessionInfoWire)
    ensures
        r.row() == sent_row(session@),
        r.message_count == session.message_count,
        session_wire::says_something(r.row()) == (session@.usage != Some(JsonV::Null)),
        survives_the_wire(session@) ==> received_session(r.row(), r.message_count) == session@,
{
    proof {
        if let Some(state) = session.state {
            state_is_read_back(state);
        }
        if let Some(status) = session@.agent_status {
            if survives_the_wire(session@) {
                status_is_read_back(status);
            }
        }
    }
    SessionInfoWire {
        path: session.path.clone(),
        id: session.id.clone(),
        cwd: session.cwd.clone(),
        name: session.name.clone(),
        state: match session.state {
            Some(state) => Some(state_json(state)),
            None => None,
        },
        parent_session_path: session.parent_session_path.clone(),
        rlm_depth: Some(session.rlm_depth),
        created: iso_from_ms(session.created),
        modified: iso_from_ms(session.modified),
        message_count: session.message_count,
        first_message: session.first_message.clone(),
        all_messages_text: session.all_messages_text.clone(),
        agent_status: match &session.agent_status {
            Some(status) => Some(status_json(status)),
            None => None,
        },
        usage: copied(session.usage.as_ref()),
    }
}

/// A session as it was sent.
pub fn deserialize_session_info(session: &SessionInfoWire) -> (r: SessionInfo)
    ensures
        r@ == received_session(session.row(), session.message_count),
{
    SessionInfo {
        path: session.path.clone(),
        id: session.id.clone(),
        cwd: session.cwd.clone(),
        name: session.name.clone(),
        state: match &session.state {
            Some(state) => match state.str_at("status") {
                Some(name) => match session_state_status(name) {
                    Some(status) => Some(SessionState { status }),
                    None => None,
                },
                None => None,
            },
            None => None,
        },
        parent_session_path: session.parent_session_path.clone(),
        rlm_depth: match session.rlm_depth {
            Some(depth) => depth,
            None => 0,
        },
        created: parse_iso_ms(&session.created),
        modified: parse_iso_ms(&session.modified),
        message_count: session.message_count,
        first_message: session.first_message.clone(),
        all_messages_text: session.all_messages_text.clone(),
        agent_status: match &session.agent_status {
            Some(status) => Some(read_status(status)),
            None => None,
        },
        usage: copied(session.usage.as_ref()),
    }
}

/// The session is meant by the selector: its id begins with it, or it is its name.
pub open spec fn is_selected(session: SessionInfoV, selector: Seq<char>) -> bool {
    text::begins(session.id, selector) || session.name == Some(selector)
}

/// The sessions that the selector means.
pub open spec fn selected(sessions: Seq<SessionInfoV>, selector: Seq<char>) -> Seq<SessionInfoV>
    decreases sessions.len(),
{
    if sessions.len() == 0 {
        Seq::empty()
    } else if is_selected(sessions.last(), selector) {
        selected(sessions.drop_last(), selector).push(sessions.last())
    } else {
        selected(sessions.drop_last(), selector)
    }
}

/// What is said where a selector means several sessions.
pub open spec fn ambiguous_text(selector: Seq<char>) -> Seq<char> {
    "Ambiguous session selector \""@ + selector + "\""@
}

/// The session that a selector means: the one whose id begins with it or whose
/// name it is. More than one is an error.
pub fn resolve_catalog_session_match(sessions: &Vec<SessionInfo>, selector: &str) -> (r: Result<
    Option<SessionInfo>,
    String,
>)
    ensures
        ({
            let found = selected(session_info::infos(sessions@), selector@);
            match r {
                Ok(Some(session)) => found.len() == 1 && session@ == found[0],
                Ok(None) => found.len() == 0,
                Err(error) => found.len() > 1 && error@ == ambiguous_text(selector@),
            }
        }),
{
    let ghost all = session_info::infos(sessions@);
    let mut first: Option<usize> = None;
    let mut several: bool = false;
    let mut i: usize = 0;
    assert(all.take(0) =~= Seq::empty());
    while i < sessions.len()
        invariant
            i <= sessions.len(),
            all == session_info::infos(sessions@),
            several == (selected(all.take(i as int), selector@).len() > 1),
            match first {
                Some(at) => at < i && selected(all.take(i as int), selector@).len() > 0
                    && selected(all.take(i as int), selector@)[0] == all[at as int],
                None => selected(all.take(i as int), selector@).len() == 0,
            },
        decreases sessions.len() - i,
    {
        assert(all.take(i + 1).drop_last() =~= all.take(i as int));
        assert(all.take(i + 1).last() == sessions@[i as int]@);
        let session = &sessions[i];
        if starts_with(&session.id, selector) || text::is_some_text(&session.name, selector) {
            if first.is_some() {
                several = true;
            } else {
                first = Some(i);
            }
        }
        i += 1;
    }
    assert(all.take(i as int) =~= all);
    if several {
        return Err(cat3("Ambiguous session selector \"", selector, "\""));
    }
    match first {
        Some(at) => Ok(Some(sessions[at].clone())),
        None => Ok(None),
    }
}

/// What the supervisor asks of the catalog.
#[derive(Debug, PartialEq)]
pub enum CatalogRequest {
    List { type_: String, id: String, cwd: Option<String>, session_dir: Option<String> },
    Resolve {
        type_: String,
        id: String,
        selector: String,
        cwd: String,
        session_dir: Option<String>,
    },
    Rename { type_: String, id: String, session_path: String, name: String },
    Delete { type_: String, id: String, session_path: String },
    Archive { type_: String, id: String, session_path: String, session_id: String },
    MarkInterrupted {
        type_: String,
        id: String,
        session_path: String,
        active_session_id: String,
        operations: Vec<String>,
    },
    Shutdown { type_: String, id: String },
}

/// What a request asks.
pub enum AskedV {
    List { cwd: Option<Seq<char>>, session_dir: Option<Seq<char>> },
    Resolve { selector: Seq<char>, cwd: Seq<char>, session_dir: Option<Seq<char>> },
    Rename { session_path: Seq<char>, name: Seq<char> },
    Delete { session_path: Seq<char> },
    Archive { session_path: Seq<char>, session_id: Seq<char> },
    MarkInterrupted {
        session_path: Seq<char>,
        active_session_id: Seq<char>,
        operations: Seq<Seq<char>>,
    },
    Shutdown,
}

/// What a request says.
#[verifier::ext_equal]
pub struct RequestV {
    pub type_: Seq<char>,
    pub id: Seq<char>,
    pub asked: AskedV,
}

impl View for CatalogRequest {
    type V = RequestV;

    open spec fn view(&self) -> RequestV {
        match self {
            CatalogRequest::List { type_, id, cwd, session_dir } => RequestV {
                type_: type_@,
                id: id@,
                asked: AskedV::List {
                    cwd: json::opt_view(*cwd),
                    session_dir: json::opt_view(*session_dir),
                },
            },
            CatalogRequest::Resolve { type_, id, selector, cwd, session_dir } => RequestV {
                type_: type_@,
                id: id@,
                asked: AskedV::Resolve {
                    selector: selector@,
                    cwd: cwd@,
                    session_dir: json::opt_view(*session_dir),
                },
            },
            CatalogRequest::Rename { type_, id, session_path, name } => RequestV {
                type_: type_@,
                id: id@,
                asked: AskedV::Rename { session_path: session_path@, name: name@ },
            },
            CatalogRequest::Delete { type_, id, session_path } => RequestV {
                type_: type_@,
                id: id@,
                asked: AskedV::Delete { session_path: session_path@ },
            },
            CatalogRequest::Archive { type_, id, session_path, session_id } => RequestV {
                type_: type_@,
                id: id@,
                asked: AskedV::Archive { session_path: session_path@, session_id: session_id@ },
            },
            CatalogRequest::MarkInterrupted {
                type_,
                id,
                session_path,
                active_session_id,
                operations,
            } => RequestV {
                type_: type_@,
                id: id@,
                asked: AskedV::MarkInterrupted {
                    session_path: session_path@,
                    active_session_id: active_session_id@,
                    operations: text::texts(operations@),
                },
            },
            CatalogRequest::Shutdown { type_, id } => RequestV {
                type_: type_@,
                id: id@,
                asked: AskedV::Shutdown,
            },
        }
    }
}

/// The name of what is asked.
pub open spec fn command_name(asked: AskedV) -> Seq<char> {
    match asked {
        AskedV::List { .. } => "list"@,
        AskedV::Resolve { .. } => "resolve"@,
        AskedV::Rename { .. } => "rename"@,
        AskedV::Delete { .. } => "delete"@,
        AskedV::Archive { .. } => "archive"@,
        AskedV::MarkInterrupted { .. } => "mark_interrupted"@,
        AskedV::Shutdown => "shutdown"@,
    }
}

/// The members of a request beyond its type, id and command.
pub open spec fn asked_members(asked: AskedV) -> Seq<(Seq<char>, JsonV)> {
    let none = Seq::<(Seq<char>, JsonV)>::empty();
    match asked {
        AskedV::List { cwd, session_dir } => json::push_opt_text(
            json::push_opt_text(none, "cwd"@, cwd),
            "sessionDir"@,
            session_dir,
        ),
        AskedV::Resolve { selector, cwd, session_dir } => json::push_opt_text(
            none.push(("selector"@, JsonV::Str(selector))).push(("cwd"@, JsonV::Str(cwd))),
            "sessionDir"@,
            session_dir,
        ),
        AskedV::Rename { session_path, name } => none.push(
            ("sessionPath"@, JsonV::Str(session_path)),
        ).push(("name"@, JsonV::Str(name))),
        AskedV::Delete { session_path } => none.push(("sessionPath"@, JsonV::Str(session_path))),
        AskedV::Archive { session_path, session_id } => none.push(
            ("sessionPath"@, JsonV::Str(session_path)),
        ).push(("sessionId"@, JsonV::Str(session_id))),
        AskedV::MarkInterrupted { session_path, active_session_id, operations } => none.push(
            ("sessionPath"@, JsonV::Str(session_path)),
        ).push(("activeSessionId"@, JsonV::Str(active_session_id))).push(
            ("operations"@, text_list(operations)),
        ),
        AskedV::Shutdown => none,
    }
}

/// The document that lists texts.
pub open spec fn text_list(list: Seq<Seq<char>>) -> JsonV {
    JsonV::Arr(Seq::new(list.len(), |i: int| JsonV::Str(list[i])))
}

/// The document of a request.
pub open spec fn request_value(request: RequestV) -> JsonV {
    JsonV::Obj(
        seq![
            ("type"@, JsonV::Str(request.type_)),
            ("id"@, JsonV::Str(request.id)),
            ("command"@, JsonV::Str(command_name(request.asked))),
        ] + asked_members(request.asked),
    )
}

/// The request in a document; nothing where a member that it needs is missing.
pub open spec fn asked_of(value: JsonV) -> Option<AskedV> {
    let path = value.str_at("sessionPath"@);
    match value.str_at("command"@) {
        Some(command) => if command == "list"@ {
            Some(
                AskedV::List {
                    cwd: value.str_at("cwd"@),
                    session_dir: value.str_at("sessionDir"@),
                },
            )
        } else if command == "resolve"@ {
            match (value.str_at("selector"@), value.str_at("cwd"@)) {
                (Some(selector), Some(cwd)) => Some(
                    AskedV::Resolve { selector, cwd, session_dir: value.str_at("sessionDir"@) },
                ),
                _ => None,
            }
        } else if command == "rename"@ {
            match (path, value.str_at("name"@)) {
                (Some(session_path), Some(name)) => Some(AskedV::Rename { session_path, name }),
                _ => None,
            }
        } else if command == "delete"@ {
            match path {
                Some(session_path) => Some(AskedV::Delete { session_path }),
                _ => None,
            }
        } else if command == "archive"@ {
            match (path, value.str_at("sessionId"@)) {
                (Some(session_path), Some(session_id)) => Some(
                    AskedV::Archive { session_path, session_id },
                ),
                _ => None,
            }
        } else if command == "mark_interrupted"@ {
            match (path, value.str_at("activeSessionId"@)) {
                (Some(session_path), Some(active_session_id)) => Some(
                    AskedV::MarkInterrupted {
                        session_path,
                        active_session_id,
                        operations: match value.get("operations"@) {
                            Some(list) => protocol::listed_texts(list),
                            None => Seq::empty(),
                        },
                    },
                ),
                _ => None,
            }
        } else if command == "shutdown"@ {
            Some(AskedV::Shutdown)
        } else {
            None
        },
        None => None,
    }
}

/// The request in a document.
pub open spec fn request_of(value: JsonV) -> Option<RequestV> {
    match (value.str_at("type"@), value.str_at("id"@), asked_of(value)) {
        (Some(type_), Some(id), Some(asked)) => Some(RequestV { type_, id, asked }),
        _ => None,
    }
}

/// The command is one that the catalog knows.
pub open spec fn is_known_command(command: Seq<char>) -> bool {
    ||| command == "list"@
    ||| command == "resolve"@
    ||| command == "rename"@
    ||| command == "delete"@
    ||| command == "archive"@
    ||| command == "mark_interrupted"@
    ||| command == "shutdown"@
}

/// The document is a request to the catalog.
pub open spec fn is_request(value: JsonV) -> bool {
    &&& value.str_at("type"@) == Some("request"@)
    &&& value.str_at("id"@) is Some
    &&& value.str_at("command"@) matches Some(command) && is_known_command(command)
}

/// Whether the document is a request to the catalog.
pub fn is_catalog_request(value: &Json) -> (r: bool)
    ensures
        r == is_request(value@),
{
    if !value.str_is("type", "request") {
        return false;
    }
    if value.str_at("id").is_none() {
        return false;
    }
    match value.str_at("command") {
        Some(command) => same(command, "list") || same(command, "resolve") || same(
            command,
            "rename",
        ) || same(command, "delete") || same(command, "archive") || same(
            command,
            "mark_interrupted",
        ) || same(command, "shutdown"),
        None => false,
    }
}

/// Reads a request.
pub fn parse_catalog_request(value: &Json) -> (r: Option<CatalogRequest>)
    ensures
        match r {
            Some(request) => request_of(value@) == Some(request@),
            None => request_of(value@) is None,
        },
{
    let id = match value.str_at("id") {
        Some(id) => id.to_owned(),
        None => return None,
    };
    let type_ = match value.str_at("type") {
        Some(type_) => type_.to_owned(),
        None => return None,
    };
    let command = match value.str_at("command") {
        Some(command) => command,
        None => return None,
    };
    if same(command, "list") {
        return Some(
            CatalogRequest::List {
                type_,
                id,
                cwd: owned(value.str_at("cwd")),
                session_dir: owned(value.str_at("sessionDir")),
            },
        );
    }
    if same(command, "resolve") {
        return match (value.str_at("selector"), value.str_at("cwd")) {
            (Some(selector), Some(cwd)) => Some(
                CatalogRequest::Resolve {
                    type_,
                    id,
                    selector: selector.to_owned(),
                    cwd: cwd.to_owned(),
                    session_dir: owned(value.str_at("sessionDir")),
                },
            ),
            _ => None,
        };
    }
    if same(command, "shutdown") {
        proof {
            command_names_differ();
        }
        return Some(CatalogRequest::Shutdown { type_, id });
    }
    let path = value.str_at("sessionPath");
    if same(command, "rename") {
        return match (path, value.str_at("name")) {
            (Some(session_path), Some(name)) => Some(
                CatalogRequest::Rename {
                    type_,
                    id,
                    session_path: session_path.to_owned(),
                    name: name.to_owned(),
                },
            ),
            _ => None,
        };
    }
    if same(command, "delete") {
        return match path {
            Some(session_path) => Some(
                CatalogRequest::Delete { type_, id, session_path: session_path.to_owned() },
            ),
            None => None,
        };
    }
    if same(command, "archive") {
        return match (path, value.str_at("sessionId")) {
            (Some(session_path), Some(session_id)) => Some(
                CatalogRequest::Archive {
                    type_,
                    id,
                    session_path: session_path.to_owned(),
                    session_id: session_id.to_owned(),
                },
            ),
            _ => None,
        };
    }
    if same(command, "mark_interrupted") {
        return match (path, value.str_at("activeSessionId")) {
            (Some(session_path), Some(active_session_id)) => {
                let operations = match value.get("operations") {
                    Some(list) => texts_of(list),
                    None => Vec::new(),
                };
                assert(text::texts(operations@) =~= match value@.get("operations"@) {
                    Some(list) => protocol::listed_texts(list),
                    None => Seq::empty(),
                });
                Some(
                    CatalogRequest::MarkInterrupted {
                        type_,
                        id,
                        session_path: session_path.to_owned(),
                        active_session_id: active_session_id.to_owned(),
                        operations,
                    },
                )
            },
            _ => None,
        };
    }
    None
}

proof fn command_names_differ()
    ensures
        "list"@.len() == 4,
        "resolve"@.len() == 7 && "resolve"@[0] == 'r',
        "rename"@.len() == 6 && "rename"@[0] == 'r',
        "delete"@.len() == 6 && "delete"@[0] == 'd',
        "archive"@.len() == 7 && "archive"@[0] == 'a',
        "mark_interrupted"@.len() == 16,
        "shutdown"@.len() == 8,
{
    reveal_strlit("list");
    reveal_strlit("resolve");
    reveal_strlit("rename");
    reveal_strlit("delete");
    reveal_strlit("archive");
    reveal_strlit("mark_interrupted");
    reveal_strlit("shutdown");
}

proof fn request_keys_differ()
    ensures
        "type"@.len() == 4 && "type"@[0] == 't',
        "id"@.len() == 2,
        "command"@.len() == 7,
        "cwd"@.len() == 3,
        "sessionDir"@.len() == 10 && "sessionDir"@[0] == 's',
        "selector"@.len() == 8,
        "sessionPath"@.len() == 11,
        "name"@.len() == 4 && "name"@[0] == 'n',
        "sessionId"@.len() == 9,
        "activeSessionId"@.len() == 15,
        "operations"@.len() == 10 && "operations"@[0] == 'o',
{
    reveal_strlit("type");
    reveal_strlit("id");
    reveal_strlit("command");
    reveal_strlit("cwd");
    reveal_strlit("sessionDir");
    reveal_strlit("selector");
    reveal_strlit("sessionPath");
    reveal_strlit("name");
    reveal_strlit("sessionId");
    reveal_strlit("activeSessionId");
    reveal_strlit("operations");
}

/// The texts that a list of texts lists.
pub proof fn listed_is_read_back(list: Seq<Seq<char>>)
    ensures
        protocol::listed_texts(text_list(list)) == list,
    decreases list.len(),
{
    let values = text_list(list)->Arr_0;
    if list.len() > 0 {
        listed_is_read_back(list.drop_last());
        assert(values.drop_last() =~= text_list(list.drop_last())->Arr_0);
        assert(values.last() == JsonV::Str(list.last()));
        assert(list.drop_last().push(list.last()) =~= list);
    } else {
        assert(protocol::texts_in(values) =~= list);
    }
}

/// A request is read from its document as it was written; one whose type says
/// that it is a request is taken for one.
pub proof fn request_is_read_back(request: RequestV)
    ensures
        request_of(request_value(request)) == Some(request),
        request.type_ == "request"@ ==> is_request(request_value(request)),
{
    broadcast use {json::lookup_push, json::lookup_empty};

    command_names_differ();
    request_keys_differ();
    let none = Seq::<(Seq<char>, JsonV)>::empty();
    let head = none.push(("type"@, JsonV::Str(request.type_))).push(
        ("id"@, JsonV::Str(request.id)),
    ).push(("command"@, JsonV::Str(command_name(request.asked))));
    let value = request_value(request);
    let pairs = value->Obj_0;
    match request.asked {
        AskedV::List { cwd, session_dir } => {
            assert(pairs =~= json::push_opt_text(
                json::push_opt_text(head, "cwd"@, cwd),
                "sessionDir"@,
                session_dir,
            ));
        },
        AskedV::Resolve { selector, cwd, session_dir } => {
            assert(pairs =~= json::push_opt_text(
                head.push(("selector"@, JsonV::Str(selector))).push(("cwd"@, JsonV::Str(cwd))),
                "sessionDir"@,
                session_dir,
            ));
        },
        AskedV::Rename { session_path, name } => {
            assert(pairs =~= head.push(("sessionPath"@, JsonV::Str(session_path))).push(
                ("name"@, JsonV::Str(name)),
            ));
        },
        AskedV::Delete { session_path } => {
            assert(pairs =~= head.push(("sessionPath"@, JsonV::Str(session_path))));
        },
        AskedV::Archive { session_path, session_id } => {
            assert(pairs =~= head.push(("sessionPath"@, JsonV::Str(session_path))).push(
                ("sessionId"@, JsonV::Str(session_id)),
            ));
        },
        AskedV::MarkInterrupted { session_path, active_session_id, operations } => {
            listed_is_read_back(operations);
            assert(pairs =~= head.push(("sessionPath"@, JsonV::Str(session_path))).push(
                ("activeSessionId"@, JsonV::Str(active_session_id)),
            ).push(("operations"@, text_list(operations))));
        },
        AskedV::Shutdown => {
            assert(pairs =~= head);
        },
    }
    assert(value.str_at("type"@) == Some(request.type_));
    assert(value.str_at("id"@) == Some(request.id));
    assert(value.str_at("command"@) == Some(command_name(request.asked)));
    assert(asked_of(value) == Some(request.asked));
}

/// The document that lists texts.
pub fn text_array(list: &Vec<String>) -> (r: Json)
    ensures
        r@ == text_list(text::texts(list@)),
{
    let mut values: Vec<Json> = Vec::new();
    let mut i: usize = 0;
    while i < list.len()
        invariant
            i <= list.len(),
            values@.len() == i,
            forall|j: int| 0 <= j < i ==> (#[trigger] values@[j])@ == JsonV::Str(list@[j]@),
        decreases list.len() - i,
    {
        values.push(json::text(&list[i]));
        i += 1;
    }
    assert(json::items(values@) =~= text_list(text::texts(list@))->Arr_0);
    json::array(values)
}

impl CatalogRequest {
    pub fn id(&self) -> (r: &str)
        ensures
            r@ == self@.id,
    {
        match self {
            CatalogRequest::List { id, .. } => id,
            CatalogRequest::Resolve { id, .. } => id,
            CatalogRequest::Rename { id, .. } => id,
            CatalogRequest::Delete { id, .. } => id,
            CatalogRequest::Archive { id, .. } => id,
            CatalogRequest::MarkInterrupted { id, .. } => id,
            CatalogRequest::Shutdown { id, .. } => id,
        }
    }

    pub fn command(&self) -> (r: &'static str)
        ensures
            r@ == command_name(self@.asked),
    {
        match self {
            CatalogRequest::List { .. } => "list",
            CatalogRequest::Resolve { .. } => "resolve",
            CatalogRequest::Rename { .. } => "rename",
            CatalogRequest::Delete { .. } => "delete",
            CatalogRequest::Archive { .. } => "archive",
            CatalogRequest::MarkInterrupted { .. } => "mark_interrupted",
            CatalogRequest::Shutdown { .. } => "shutdown",
        }
    }

    fn kind(&self) -> (r: &str)
        ensures
            r@ == self@.type_,
    {
        match self {
            CatalogRequest::List { type_, .. } => type_,
            CatalogRequest::Resolve { type_, .. } => type_,
            CatalogRequest::Rename { type_, .. } => type_,
            CatalogRequest::Delete { type_, .. } => type_,
            CatalogRequest::Archive { type_, .. } => type_,
            CatalogRequest::MarkInterrupted { type_, .. } => type_,
            CatalogRequest::Shutdown { type_, .. } => type_,
        }
    }

    /// The document that is sent.
    pub fn to_value(&self) -> (r: Json)
        ensures
            r@ == request_value(self@),
    {
        let mut pairs = json::no_members();
        json::add_text(&mut pairs, "type", self.kind());
        json::add_text(&mut pairs, "id", self.id());
        json::add_text(&mut pairs, "command", self.command());
        let ghost head = json::members(pairs@);
        match self {
            CatalogRequest::List { cwd, session_dir, .. } => {
                json::add_opt_text(&mut pairs, "cwd", cwd);
                json::add_opt_text(&mut pairs, "sessionDir", session_dir);
            },
            CatalogRequest::Resolve { selector, cwd, session_dir, .. } => {
                json::add_text(&mut pairs, "selector", selector);
                json::add_text(&mut pairs, "cwd", cwd);
                json::add_opt_text(&mut pairs, "sessionDir", session_dir);
            },
            CatalogRequest::Rename { session_path, name, .. } => {
                json::add_text(&mut pairs, "sessionPath", session_path);
                json::add_text(&mut pairs, "name", name);
            },
            CatalogRequest::Delete { session_path, .. } => {
                json::add_text(&mut pairs, "sessionPath", session_path);
            },
            CatalogRequest::Archive { session_path, session_id, .. } => {
                json::add_text(&mut pairs, "sessionPath", session_path);
                json::add_text(&mut pairs, "sessionId", session_id);
            },
            CatalogRequest::MarkInterrupted { session_path, active_session_id, operations, .. } => {
                json::add_text(&mut pairs, "sessionPath", session_path);
                json::add_text(&mut pairs, "activeSessionId", active_session_id);
                json::add_member(&mut pairs, "operations", text_array(operations));
            },
            CatalogRequest::Shutdown { .. } => {},
        }
        assert(json::members(pairs@) =~= request_value(self@)->Obj_0);
        json::object(pairs)
    }
}

/// What the catalog sends.
#[derive(Debug, PartialEq)]
pub enum CatalogOutbound {
    Ready,
    Progress { id: String, loaded: u64, total: u64 },
    Session { id: String, session: SessionInfoWire },
    Response { id: String, success: bool, data: Option<Json>, error: Option<String> },
}

/// What a message of the catalog says.
pub enum OutboundV {
    Ready,
    Progress { id: Seq<char>, loaded: u64, total: u64 },
    Session { id: Seq<char>, row: RowV, message_count: u64 },
    Response {
        id: Seq<char>,
        success: bool,
        data: Option<JsonV>,
        error: Option<Seq<char>>,
    },
}

impl View for CatalogOutbound {
    type V = OutboundV;

    open spec fn view(&self) -> OutboundV {
        match self {
            CatalogOutbound::Ready => OutboundV::Ready,
            CatalogOutbound::Progress { id, loaded, total } => OutboundV::Progress {
                id: id@,
                loaded: *loaded,
                total: *total,
            },
            CatalogOutbound::Session { id, session } => OutboundV::Session {
                id: id@,
                row: session.row(),
                message_count: session.message_count,
            },
            CatalogOutbound::Response { id, success, data, error } => OutboundV::Response {
                id: id@,
                success: *success,
                data: json::opt_json(*data),
                error: json::opt_view(*error),
            },
        }
    }
}

/// The document of a message.
pub open spec fn outbound_value(message: OutboundV) -> JsonV {
    let none = Seq::<(Seq<char>, JsonV)>::empty();
    JsonV::Obj(
        match message {
            OutboundV::Ready => none.push(("type"@, JsonV::Str("ready"@))),
            OutboundV::Progress { id, loaded, total } => none.push(
                ("type"@, JsonV::Str("progress"@)),
            ).push(("id"@, JsonV::Str(id))).push(
                ("loaded"@, json::int_value(loaded as int)),
            ).push(("total"@, json::int_value(total as int))),
            OutboundV::Session { id, row, message_count } => none.push(
                ("type"@, JsonV::Str("session"@)),
            ).push(("id"@, JsonV::Str(id))).push(("session"@, wire_value(row, message_count))),
            OutboundV::Response { id, success, data, error } => json::push_opt_text(
                json::push_opt(
                    none.push(("type"@, JsonV::Str("response"@))).push(
                        ("id"@, JsonV::Str(id)),
                    ).push(("success"@, JsonV::Bool(success))),
                    "data"@,
                    data,
                ),
                "error"@,
                error,
            ),
        },
    )
}

impl CatalogOutbound {
    /// The document that is sent.
    pub fn to_value(&self) -> (r: Json)
        ensures
            r@ == outbound_value(self@),
    {
        let mut pairs = json::no_members();
        match self {
            CatalogOutbound::Ready => {
                json::add_text(&mut pairs, "type", "ready");
            },
            CatalogOutbound::Progress { id, loaded, total } => {
                json::add_text(&mut pairs, "type", "progress");
                json::add_text(&mut pairs, "id", id);
                json::add_member(&mut pairs, "loaded", json::count(*loaded));
                json::add_member(&mut pairs, "total", json::count(*total));
            },
            CatalogOutbound::Session { id, session } => {
                json::add_text(&mut pairs, "type", "session");
                json::add_text(&mut pairs, "id", id);
                json::add_member(&mut pairs, "session", session.to_value());
            },
            CatalogOutbound::Response { id, success, data, error } => {
                json::add_text(&mut pairs, "type", "response");
                json::add_text(&mut pairs, "id", id);
                json::add_member(&mut pairs, "success", Json::Bool(*success));
                json::add_opt(&mut pairs, "data", data);
                json::add_opt_text(&mut pairs, "error", error);
            },
        }
        json::object(pairs)
    }
}

/// The line that carries a message.
pub fn catalog_line(message: &Json) -> (r: String)
    ensures
        json::holdable(message@) ==> r@ == json::printed_json(json::held(message@)) + "\n"@,
        json::sound(message@) ==> r@ == json::printed_json(message@) + "\n"@,
        r@.len() > 1,
        r@.last() == '\n',
        !r@.drop_last().contains('\n'),
{
    let line = print_json(message);
    proof {
        reveal_strlit("\n");
    }
    let whole = cat2(&line, "\n");
    assert(whole@.drop_last() =~= line@);
    whole
}

/// The document is a message of the catalog.
pub open spec fn is_outbound(value: JsonV) -> bool {
    match value.str_at("type"@) {
        Some(type_) => type_ == "ready"@ || ((type_ == "progress"@ || type_ == "session"@
            || type_ == "response"@) && value.str_at("id"@) is Some),
        None => false,
    }
}

/// Whether the document is a message of the catalog.
pub fn is_catalog_outbound(value: &Json) -> (r: bool)
    ensures
        r == is_outbound(value@),
{
    match value.str_at("type") {
        Some(type_) => same(type_, "ready") || ((same(type_, "progress") || same(type_, "session")
            || same(type_, "response")) && value.str_at("id").is_some()),
        None => false,
    }
}

/// What a line of the supervisor asks; nothing where it is empty, no JSON, or no
/// request.
pub open spec fn line_request(line: Seq<char>) -> Option<RequestV> {
    if line.len() == 0 {
        None
    } else {
        match json::parsed_json(vstd::utf8::encode_utf8(line)) {
            Ok(value) => if is_request(value) {
                request_of(value)
            } else {
                None
            },
            Err(_) => None,
        }
    }
}

/// Reads a line of the supervisor.
pub fn read_catalog_line(line: &str) -> (r: Option<CatalogRequest>)
    ensures
        match r {
            Some(request) => line_request(line@) == Some(request@),
            None => line_request(line@) is None,
        },
{
    if line.is_empty() {
        return None;
    }
    match parse_json(line.as_bytes()) {
        Ok(value) => if is_catalog_request(&value) {
            parse_catalog_request(&value)
        } else {
            None
        },
        Err(_) => None,
    }
}

/// What the catalog does next for a request.
#[derive(Debug, PartialEq)]
pub enum CatalogAction {
    /// List the sessions and send progress and each session on the way.
    List { cwd: Option<String>, session_dir: Option<String> },
    /// List the sessions of a directory, silently.
    LookLocally { cwd: String, session_dir: Option<String> },
    /// List all sessions, silently.
    LookEverywhere { session_dir: Option<String> },
    Rename { session_path: String, name: String },
    Delete { session_path: String },
    ReadInfo { session_path: String },
    AppendState { session_path: String, status: String },
    AppendMessage {
        session_path: String,
        custom_type: String,
        content: String,
        metadata: Json,
    },
    /// Send the answer; the request is done.
    Reply(CatalogOutbound),
}

/// What an action is.
pub enum ActionV {
    List { cwd: Option<Seq<char>>, session_dir: Option<Seq<char>> },
    LookLocally { cwd: Seq<char>, session_dir: Option<Seq<char>> },
    LookEverywhere { session_dir: Option<Seq<char>> },
    Rename { session_path: Seq<char>, name: Seq<char> },
    Delete { session_path: Seq<char> },
    ReadInfo { session_path: Seq<char> },
    AppendState { session_path: Seq<char>, status: Seq<char> },
    AppendMessage {
        session_path: Seq<char>,
        custom_type: Seq<char>,
        content: Seq<char>,
        metadata: JsonV,
    },
    Reply(OutboundV),
}

impl View for CatalogAction {
    type V = ActionV;

    open spec fn view(&self) -> ActionV {
        match self {
            CatalogAction::List { cwd, session_dir } => ActionV::List {
                cwd: json::opt_view(*cwd),
                session_dir: json::opt_view(*session_dir),
            },
            CatalogAction::LookLocally { cwd, session_dir } => ActionV::LookLocally {
                cwd: cwd@,
                session_dir: json::opt_view(*session_dir),
            },
            CatalogAction::LookEverywhere { session_dir } => ActionV::LookEverywhere {
                session_dir: json::opt_view(*session_dir),
            },
            CatalogAction::Rename { session_path, name } => ActionV::Rename {
                session_path: session_path@,
                name: name@,
            },
            CatalogAction::Delete { session_path } => ActionV::Delete {
                session_path: session_path@,
            },
            CatalogAction::ReadInfo { session_path } => ActionV::ReadInfo {
                session_path: session_path@,
            },
            CatalogAction::AppendState { session_path, status } => ActionV::AppendState {
                session_path: session_path@,
                status: status@,
            },
            CatalogAction::AppendMessage { session_path, custom_type, content, metadata } => {
                ActionV::AppendMessage {
                    session_path: session_path@,
                    custom_type: custom_type@,
                    content: content@,
                    metadata: metadata@,
                }
            },
            CatalogAction::Reply(message) => ActionV::Reply(message@),
        }
    }
}

/// What has happened to a request: it came in, or an action for it was done.
#[derive(Debug, PartialEq)]
pub enum CatalogEvent {
    Start,
    Listed(Result<Vec<SessionInfo>, String>),
    LookedLocally(Result<Vec<SessionInfo>, String>),
    LookedEverywhere(Result<Vec<SessionInfo>, String>),
    Renamed(Result<(), String>),
    Deleted(Result<Json, String>),
    InfoRead(Result<Option<SessionInfo>, String>),
    StateAppended(Result<(), String>),
    MessageAppended(Result<(), String>),
}

/// The event can happen to the request: it came in, or it is the outcome of an
/// action that the request leads to.
pub open spec fn can_happen(asked: AskedV, event: CatalogEvent) -> bool {
    match event {
        CatalogEvent::Start => true,
        CatalogEvent::Listed(_) => asked is List,
        CatalogEvent::LookedLocally(_) => asked is Resolve,
        CatalogEvent::LookedEverywhere(_) => asked is Resolve,
        CatalogEvent::Renamed(_) => asked is Rename,
        CatalogEvent::Deleted(_) => asked is Delete,
        CatalogEvent::InfoRead(_) => asked is Archive,
        CatalogEvent::StateAppended(_) => asked is Archive,
        CatalogEvent::MessageAppended(_) => asked is MarkInterrupted,
    }
}

/// The event is the outcome of the action.
pub open spec fn answers(action: ActionV, event: CatalogEvent) -> bool {
    match action {
        ActionV::List { .. } => event is Listed,
        ActionV::LookLocally { .. } => event is LookedLocally,
        ActionV::LookEverywhere { .. } => event is LookedEverywhere,
        ActionV::Rename { .. } => event is Renamed,
        ActionV::Delete { .. } => event is Deleted,
        ActionV::ReadInfo { .. } => event is InfoRead,
        ActionV::AppendState { .. } => event is StateAppended,
        ActionV::AppendMessage { .. } => event is MessageAppended,
        ActionV::Reply(_) => false,
    }
}

/// The answer that all went well.
pub open spec fn done(id: Seq<char>, data: Option<JsonV>) -> ActionV {
    ActionV::Reply(OutboundV::Response { id, success: true, data, error: None })
}

/// The answer that something went wrong.
pub open spec fn failed(id: Seq<char>, error: Seq<char>) -> ActionV {
    ActionV::Reply(OutboundV::Response { id, success: false, data: None, error: Some(error) })
}

/// An object with one member.
pub open spec fn single(key: Seq<char>, value: JsonV) -> JsonV {
    JsonV::Obj(Seq::<(Seq<char>, JsonV)>::empty().push((key, value)))
}

/// The answer to an edit.
pub open spec fn edited(id: Seq<char>, result: Result<(), String>) -> ActionV {
    match result {
        Ok(_) => done(id, None),
        Err(error) => failed(id, error@),
    }
}

/// The sessions of an answer.
pub open spec fn sent_sessions(sessions: Seq<SessionInfoV>) -> JsonV {
    JsonV::Arr(
        Seq::new(
            sessions.len(),
            |i: int| wire_value(sent_row(sessions[i]), sessions[i].message_count),
        ),
    )
}

/// What follows on looking for a session: its path, an error, or, where there is
/// none, what is said then.
pub open spec fn looked(
    id: Seq<char>,
    selector: Seq<char>,
    result: Result<Vec<SessionInfo>, String>,
    otherwise: ActionV,
) -> ActionV {
    match result {
        Ok(sessions) => {
            let found = selected(session_info::infos(sessions@), selector);
            if found.len() > 1 {
                failed(id, ambiguous_text(selector))
            } else if found.len() == 1 {
                done(id, Some(single("sessionPath"@, JsonV::Str(found[0].path))))
            } else {
                otherwise
            }
        },
        Err(error) => failed(id, error@),
    }
}

/// What the recovery message says beside its text.
pub open spec fn interrupted_metadata(
    active_session_id: Seq<char>,
    operations: Seq<Seq<char>>,
) -> JsonV {
    JsonV::Obj(
        Seq::<(Seq<char>, JsonV)>::empty().push(
            ("activeSessionId"@, JsonV::Str(active_session_id)),
        ).push(("operations"@, text_list(operations))),
    )
}

/// The first action for a request.
pub open spec fn first_action(request: RequestV) -> ActionV {
    match request.asked {
        AskedV::List { cwd, session_dir } => ActionV::List { cwd, session_dir },
        AskedV::Resolve { selector, cwd, session_dir } => ActionV::LookLocally {
            cwd,
            session_dir,
        },
        AskedV::Rename { session_path, name } => ActionV::Rename {
            session_path,
            name: text::trimmed(name),
        },
        AskedV::Delete { session_path } => ActionV::Delete { session_path },
        AskedV::Archive { session_path, session_id } => ActionV::ReadInfo { session_path },
        AskedV::MarkInterrupted { session_path, active_session_id, operations } => {
            ActionV::AppendMessage {
                session_path,
                custom_type: "prime-agent.worker_recovery"@,
                content: WORKER_INTERRUPTED_CONTENT@,
                metadata: interrupted_metadata(active_session_id, operations),
            }
        },
        AskedV::Shutdown => done(request.id, None),
    }
}

/// The action for a request after an event.
pub open spec fn next_action(request: RequestV, event: CatalogEvent) -> ActionV {
    let id = request.id;
    match event {
        CatalogEvent::Start => first_action(request),
        CatalogEvent::Listed(result) => match result {
            Ok(sessions) => done(
                id,
                Some(single("sessions"@, sent_sessions(session_info::infos(sessions@)))),
            ),
            Err(error) => failed(id, error@),
        },
        CatalogEvent::LookedLocally(result) => looked(
            id,
            request.asked->Resolve_selector,
            result,
            ActionV::LookEverywhere { session_dir: request.asked->Resolve_session_dir },
        ),
        CatalogEvent::LookedEverywhere(result) => looked(
            id,
            request.asked->Resolve_selector,
            result,
            failed(
                id,
                "No session found matching '"@ + request.asked->Resolve_selector + "'"@,
            ),
        ),
        CatalogEvent::Renamed(result) => edited(id, result),
        CatalogEvent::Deleted(result) => match result {
            Ok(data) => done(id, Some(data@)),
            Err(error) => failed(id, error@),
        },
        CatalogEvent::InfoRead(result) => match result {
            Ok(Some(session)) => if session.id@ != request.asked->Archive_session_id {
                done(id, Some(single("archived"@, JsonV::Bool(false))))
            } else if session.state == Some(
                SessionState { status: SessionStateStatus::Archived },
            ) {
                done(id, Some(single("archived"@, JsonV::Bool(true))))
            } else {
                ActionV::AppendState {
                    session_path: request.asked->Archive_session_path,
                    status: "archived"@,
                }
            },
            Ok(None) => done(id, Some(single("archived"@, JsonV::Bool(false)))),
            Err(error) => failed(id, error@),
        },
        CatalogEvent::StateAppended(result) => match result {
            Ok(_) => done(id, Some(single("archived"@, JsonV::Bool(true)))),
            Err(error) => failed(id, error@),
        },
        CatalogEvent::MessageAppended(result) => edited(id, result),
    }
}

/// How many more actions a request can take after this one.
pub open spec fn steps_left(action: ActionV) -> nat {
    match action {
        ActionV::Reply(_) => 0,
        ActionV::LookLocally { .. } => 2,
        ActionV::ReadInfo { .. } => 2,
        _ => 1,
    }
}

/// Every action for a request brings it nearer to its answer, and its outcome is
/// one that the request can have: a request is answered after at most two actions.
pub proof fn every_request_is_answered(
    request: RequestV,
    before: CatalogEvent,
    event: CatalogEvent,
)
    requires
        can_happen(request.asked, before),
        answers(next_action(request, before), event),
    ensures
        can_happen(request.asked, event),
        steps_left(next_action(request, event)) < steps_left(next_action(request, before)),
        steps_left(first_action(request)) <= 2,
{
}

/// Every answer carries the id of its request.
pub proof fn answers_name_their_request(request: RequestV, event: CatalogEvent)
    requires
        can_happen(request.asked, event),
    ensures
        next_action(request, event) matches ActionV::Reply(message) ==> message
            matches OutboundV::Response { id, .. } && id == request.id,
{
}

fn done_reply(id: &str, data: Option<Json>) -> (r: CatalogAction)
    ensures
        r@ == done(id@, json::opt_json(data)),
{
    CatalogAction::Reply(
        CatalogOutbound::Response { id: id.to_owned(), success: true, data, error: None },
    )
}

fn failed_reply(id: &str, error: String) -> (r: CatalogAction)
    ensures
        r@ == failed(id@, error@),
{
    CatalogAction::Reply(
        CatalogOutbound::Response {
            id: id.to_owned(),
            success: false,
            data: None,
            error: Some(error),
        },
    )
}

fn single_member(key: &str, value: Json) -> (r: Json)
    ensures
        r@ == single(key@, value@),
{
    let mut pairs = json::no_members();
    json::add_member(&mut pairs, key, value);
    json::object(pairs)
}

fn sessions_json(sessions: &Vec<SessionInfo>) -> (r: Json)
    ensures
        r@ == sent_sessions(session_info::infos(sessions@)),
{
    let mut values: Vec<Json> = Vec::new();
    let mut i: usize = 0;
    while i < sessions.len()
        invariant
            i <= sessions.len(),
            values@.len() == i,
            forall|j: int|
                0 <= j < i ==> (#[trigger] values@[j])@ == wire_value(
                    sent_row(sessions@[j]@),
                    sessions@[j].message_count,
                ),
        decreases sessions.len() - i,
    {
        let wire = serialize_session_info(&sessions[i]);
        values.push(wire.to_value());
        i += 1;
    }
    assert(json::items(values@) =~= sent_sessions(session_info::infos(sessions@))->Arr_0);
    json::array(values)
}

fn looked_reply(id: &str, selector: &str, result: &Result<Vec<SessionInfo>, String>) -> (r: Option<
    CatalogAction,
>)
    ensures
        forall|otherwise: ActionV|
            (#[trigger] looked(id@, selector@, *result, otherwise)) == match r {
                Some(action) => action@,
                None => otherwise,
            },
{
    match result {
        Ok(sessions) => match resolve_catalog_session_match(sessions, selector) {
            Ok(Some(session)) => {
                let data = single_member("sessionPath", json::text(&session.path));
                Some(done_reply(id, Some(data)))
            },
            Ok(None) => None,
            Err(error) => Some(failed_reply(id, error)),
        },
        Err(error) => Some(failed_reply(id, error.clone())),
    }
}

fn edit_reply(id: &str, result: &Result<(), String>) -> (r: CatalogAction)
    ensures
        r@ == edited(id@, *result),
{
    match result {
        Ok(_) => done_reply(id, None),
        Err(error) => failed_reply(id, error.clone()),
    }
}

fn first_step(request: &CatalogRequest) -> (r: CatalogAction)
    ensures
        r@ == first_action(request@),
{
    match request {
        CatalogRequest::List { cwd, session_dir, .. } => CatalogAction::List {
            cwd: cwd.clone(),
            session_dir: session_dir.clone(),
        },
        CatalogRequest::Resolve { cwd, session_dir, .. } => CatalogAction::LookLocally {
            cwd: cwd.clone(),
            session_dir: session_dir.clone(),
        },
        CatalogRequest::Rename { session_path, name, .. } => CatalogAction::Rename {
            session_path: session_path.clone(),
            name: trim(name),
        },
        CatalogRequest::Delete { session_path, .. } => CatalogAction::Delete {
            session_path: session_path.clone(),
        },
        CatalogRequest::Archive { session_path, .. } => CatalogAction::ReadInfo {
            session_path: session_path.clone(),
        },
        CatalogRequest::MarkInterrupted { session_path, active_session_id, operations, .. } => {
            let mut pairs = json::no_members();
            json::add_text(&mut pairs, "activeSessionId", active_session_id);
            json::add_member(&mut pairs, "operations", text_array(operations));
            CatalogAction::AppendMessage {
                session_path: session_path.clone(),
                custom_type: "prime-agent.worker_recovery".to_owned(),
                content: WORKER_INTERRUPTED_CONTENT.to_owned(),
                metadata: json::object(pairs),
            }
        },
        CatalogRequest::Shutdown { id, .. } => done_reply(id, None),
    }
}

/// Decides what the catalog does for a request after an event: the action to do
/// next, whose outcome is the next event, or the answer.
pub fn handle_catalog_request(request: &CatalogRequest, event: &CatalogEvent) -> (r: CatalogAction)
    requires
        can_happen(request@.asked, *event),
    ensures
        r@ == next_action(request@, *event),
{
    let id = request.id();
    match event {
        CatalogEvent::Start => first_step(request),
        CatalogEvent::Listed(result) => match result {
            Ok(sessions) => {
                let data = single_member("sessions", sessions_json(sessions));
                done_reply(id, Some(data))
            },
            Err(error) => failed_reply(id, error.clone()),
        },
        CatalogEvent::LookedLocally(result) => match request {
            CatalogRequest::Resolve { selector, session_dir, .. } => {
                match looked_reply(id, selector, result) {
                    Some(action) => action,
                    None => CatalogAction::LookEverywhere { session_dir: session_dir.clone() },
                }
            },
            _ => first_step(request),
        },
        CatalogEvent::LookedEverywhere(result) => match request {
            CatalogRequest::Resolve { selector, .. } => match looked_reply(id, selector, result) {
                Some(action) => action,
                None => failed_reply(id, cat3("No session found matching '", selector, "'")),
            },
            _ => first_step(request),
        },
        CatalogEvent::Renamed(result) => edit_reply(id, result),
        CatalogEvent::Deleted(result) => match result {
            Ok(data) => done_reply(id, Some(data.clone())),
            Err(error) => failed_reply(id, error.clone()),
        },
        CatalogEvent::InfoRead(result) => match (request, result) {
            (CatalogRequest::Archive { session_path, session_id, .. }, Ok(Some(session))) => {
                if !same(&session.id, session_id) {
                    let data = single_member("archived", Json::Bool(false));
                    return done_reply(id, Some(data));
                }
                let archived: bool = match session.state {
                    Some(state) => state.status == SessionStateStatus::Archived,
                    None => false,
                };
                if archived {
                    let data = single_member("archived", Json::Bool(true));
                    done_reply(id, Some(data))
                } else {
                    CatalogAction::AppendState {
                        session_path: session_path.clone(),
                        status: "archived".to_owned(),
                    }
                }
            },
            (_, Err(error)) => failed_reply(id, error.clone()),
            _ => {
                let data = single_member("archived", Json::Bool(false));
                done_reply(id, Some(data))
            },
        },
        CatalogEvent::StateAppended(result) => match result {
            Ok(_) => {
                let data = single_member("archived", Json::Bool(true));
                done_reply(id, Some(data))
            },
            Err(error) => failed_reply(id, error.clone()),
        },
        CatalogEvent::MessageAppended(result) => edit_reply(id, result),
    }
}

/// The message that tells how far a listing has come.
pub fn progress_message(request: &CatalogRequest, loaded: u64, total: u64) -> (r: CatalogOutbound)
    ensures
        r@ == (OutboundV::Progress { id: request@.id, loaded, total }),
{
    CatalogOutbound::Progress { id: request.id().to_owned(), loaded, total }
}

/// The message that hands over a listed session.
pub fn session_message(request: &CatalogRequest, session: &SessionInfo) -> (r: CatalogOutbound)
    ensures
        r@ == (OutboundV::Session {
            id: request@.id,
            row: sent_row(session@),
            message_count: session.message_count,
        }),
{
    CatalogOutbound::Session {
        id: request.id().to_owned(),
        session: serialize_session_info(session),
    }
}

/// A request that waits for its answer, and which messages on the way its caller
/// wants to hear of.
#[derive(Debug, Clone, Copy, PartialEq, Eq, Structural)]
pub struct PendingCatalogRequest {
    pub wants_progress: bool,
    pub wants_sessions: bool,
}

/// The supervisor's side of the catalog: what it knows of the child and which
/// requests wait.
pub struct DaemonCatalogClient {
    /// The child is there and takes requests.
    pub running: bool,
    /// The child has said that it is ready.
    pub ready: bool,
    pub pending: TextMap<PendingCatalogRequest>,
    pub request_counter: u64,
}

/// The id of the n-th request.
pub open spec fn catalog_id(n: nat) -> Seq<char> {
    "catalog_"@ + text::decimal_digits(n)
}

/// Different requests have different ids.
pub proof fn catalog_ids_differ(a: nat, b: nat)
    requires
        a != b,
    ensures
        catalog_id(a) != catalog_id(b),
{
    text::decimal_digits_differ(a, b);
    let head = "catalog_"@;
    if catalog_id(a) == catalog_id(b) {
        assert(catalog_id(a).skip(head.len() as int) =~= text::decimal_digits(a));
        assert(catalog_id(b).skip(head.len() as int) =~= text::decimal_digits(b));
    }
}

/// What a message of the catalog leads to.
#[derive(Debug, PartialEq)]
pub enum CatalogMessage {
    Nothing,
    /// The child is ready.
    Ready,
    /// The caller of this request is told how far it is.
    Progress { id: String, loaded: u64, total: u64 },
    /// The caller of this request is handed a session.
    Session { id: String, session: SessionInfo },
    /// The request has its result.
    Settled { id: String, result: Result<Json, String> },
}

/// What a message leads to.
pub enum MessageV {
    Nothing,
    Ready,
    Progress { id: Seq<char>, loaded: u64, total: u64 },
    Session { id: Seq<char>, session: SessionInfoV },
    Settled { id: Seq<char>, result: Result<JsonV, Seq<char>> },
}

impl View for CatalogMessage {
    type V = MessageV;

    open spec fn view(&self) -> MessageV {
        match self {
            CatalogMessage::Nothing => MessageV::Nothing,
            CatalogMessage::Ready => MessageV::Ready,
            CatalogMessage::Progress { id, loaded, total } => MessageV::Progress {
                id: id@,
                loaded: *loaded,
                total: *total,
            },
            CatalogMessage::Session { id, session } => MessageV::Session {
                id: id@,
                session: session@,
            },
            CatalogMessage::Settled { id, result } => MessageV::Settled {
                id: id@,
                result: match result {
                    Ok(data) => Ok(data@),
                    Err(error) => Err(error@),
                },
            },
        }
    }
}

/// The result that a response gives: its data, or its error's text.
pub open spec fn response_result(value: JsonV) -> Result<JsonV, Seq<char>> {
    if value.bool_at("success"@) == Some(true) {
        Ok(value.get("data"@).unwrap_or(JsonV::Null))
    } else {
        Err(value.str_at("error"@).unwrap_or(Seq::empty()))
    }
}

/// What a message leads to while these requests wait.
pub open spec fn message_effect(
    value: JsonV,
    pending: Map<Seq<char>, PendingCatalogRequest>,
) -> MessageV {
    let id = value.str_at("id"@)->0;
    let waits = value.str_at("id"@) is Some && pending.contains_key(id);
    if value.str_at("type"@) == Some("ready"@) {
        MessageV::Ready
    } else if !waits {
        MessageV::Nothing
    } else if value.str_at("type"@) == Some("progress"@) {
        if pending[id].wants_progress {
            MessageV::Progress {
                id,
                loaded: value.u64_at("loaded"@).unwrap_or(0),
                total: value.u64_at("total"@).unwrap_or(0),
            }
        } else {
            MessageV::Nothing
        }
    } else if value.str_at("type"@) == Some("session"@) {
        match value.get("session"@) {
            Some(session) if pending[id].wants_sessions && is_wire(session) => MessageV::Session {
                id,
                session: received_session(wire_of(session).0, wire_of(session).1),
            },
            _ => MessageV::Nothing,
        }
    } else if value.str_at("type"@) == Some("response"@) {
        MessageV::Settled { id, result: response_result(value) }
    } else {
        MessageV::Nothing
    }
}

/// A settled request settles once: the same answer again leads to nothing.
pub proof fn answers_settle_once(
    value: JsonV,
    pending: Map<Seq<char>, PendingCatalogRequest>,
    id: Seq<char>,
    result: Result<JsonV, Seq<char>>,
)
    requires
        message_effect(value, pending) == (MessageV::Settled { id, result }),
    ensures
        pending.contains_key(id),
        message_effect(value, pending.remove(id)) == MessageV::Nothing,
{
}

impl DaemonCatalogClient {
    /// No request waits twice.
    pub open spec fn wf(self) -> bool {
        self.pending.wf()
    }

    /// A client without a child.
    pub fn new() -> (r: Self)
        ensures
            r.wf(),
            !r.running,
            !r.ready,
            r.pending@ == Map::<Seq<char>, PendingCatalogRequest>::empty(),
            r.request_counter == 0,
    {
        DaemonCatalogClient {
            running: false,
            ready: false,
            pending: TextMap::new(),
            request_counter: 0,
        }
    }

    /// Notes that the child was started; tells whether there was none before.
    pub fn start(&mut self) -> (r: bool)
        ensures
            r == !old(self).running,
            final(self).running,
            final(self).ready == old(self).ready,
            final(self).pending == old(self).pending,
            final(self).request_counter == old(self).request_counter,
    {
        let fresh: bool = !self.running;
        self.running = true;
        fresh
    }

    fn next_request_id(&mut self) -> (r: String)
        requires
            old(self).request_counter < u64::MAX,
        ensures
            r@ == catalog_id((old(self).request_counter + 1) as nat),
            *final(self) == (DaemonCatalogClient {
                request_counter: (old(self).request_counter + 1) as u64,
                ..*old(self)
            }),
    {
        self.request_counter = self.request_counter + 1;
        let digits = decimal(self.request_counter);
        cat2("catalog_", &digits)
    }

    /// A request for the sessions.
    pub fn list(&mut self, cwd: Option<&str>, session_dir: Option<&str>) -> (r: CatalogRequest)
        requires
            old(self).request_counter < u64::MAX,
        ensures
            r@ == (RequestV {
                type_: "request"@,
                id: catalog_id((old(self).request_counter + 1) as nat),
                asked: AskedV::List {
                    cwd: json::opt_str_view(cwd),
                    session_dir: json::opt_str_view(session_dir),
                },
            }),
            *final(self) == (DaemonCatalogClient {
                request_counter: (old(self).request_counter + 1) as u64,
                ..*old(self)
            }),
    {
        let id = self.next_request_id();
        CatalogRequest::List {
            type_: "request".to_owned(),
            id,
            cwd: owned(cwd),
            session_dir: owned(session_dir),
        }
    }

    /// A request for a new name of a session.
    pub fn rename(&mut self, session_path: &str, name: &str) -> (r: CatalogRequest)
        requires
            old(self).request_counter < u64::MAX,
        ensures
            r@ == (RequestV {
                type_: "request"@,
                id: catalog_id((old(self).request_counter + 1) as nat),
                asked: AskedV::Rename { session_path: session_path@, name: name@ },
            }),
            *final(self) == (DaemonCatalogClient {
                request_counter: (old(self).request_counter + 1) as u64,
                ..*old(self)
            }),
    {
        let id = self.next_request_id();
        CatalogRequest::Rename {
            type_: "request".to_owned(),
            id,
            session_path: session_path.to_owned(),
            name: name.to_owned(),
        }
    }

    /// A request for the path of the session that a selector means.
    pub fn resolve(&mut self, selector: &str, cwd: &str, session_dir: Option<&str>) -> (r:
        CatalogRequest)
        requires
            old(self).request_counter < u64::MAX,
        ensures
            r@ == (RequestV {
                type_: "request"@,
                id: catalog_id((old(self).request_counter + 1) as nat),
                asked: AskedV::Resolve {
                    selector: selector@,
                    cwd: cwd@,
                    session_dir: json::opt_str_view(session_dir),
                },
            }),
            *final(self) == (DaemonCatalogClient {
                request_counter: (old(self).request_counter + 1) as u64,
                ..*old(self)
            }),
    {
        let id = self.next_request_id();
        CatalogRequest::Resolve {
            type_: "request".to_owned(),
            id,
            selector: selector.to_owned(),
            cwd: cwd.to_owned(),
            session_dir: owned(session_dir),
        }
    }

    /// A request to delete a session.
    pub fn delete(&mut self, session_path: &str) -> (r: CatalogRequest)
        requires
            old(self).request_counter < u64::MAX,
        ensures
            r@ == (RequestV {
                type_: "request"@,
                id: catalog_id((old(self).request_counter + 1) as nat),
                asked: AskedV::Delete { session_path: session_path@ },
            }),
            *final(self) == (DaemonCatalogClient {
                request_counter: (old(self).request_counter + 1) as u64,
                ..*old(self)
            }),
    {
        let id = self.next_request_id();
        CatalogRequest::Delete {
            type_: "request".to_owned(),
            id,
            session_path: session_path.to_owned(),
        }
    }

    /// A request to archive a session.
    pub fn archive(&mut self, session_path: &str, session_id: &str) -> (r: CatalogRequest)
        requires
            old(self).request_counter < u64::MAX,
        ensures
            r@ == (RequestV {
                type_: "request"@,
                id: catalog_id((old(self).request_counter + 1) as nat),
                asked: AskedV::Archive { session_path: session_path@, session_id: session_id@ },
            }),
            *final(self) == (DaemonCatalogClient {
                request_counter: (old(self).request_counter + 1) as u64,
                ..*old(self)
            }),
    {
        let id = self.next_request_id();
        CatalogRequest::Archive {
            type_: "request".to_owned(),
            id,
            session_path: session_path.to_owned(),
            session_id: session_id.to_owned(),
        }
    }

    /// A request to note in a session that its worker stopped during its work.
    pub fn mark_interrupted(
        &mut self,
        session_path: &str,
        active_session_id: &str,
        operations: &Vec<String>,
    ) -> (r: CatalogRequest)
        requires
            old(self).request_counter < u64::MAX,
        ensures
            r@ == (RequestV {
                type_: "request"@,
                id: catalog_id((old(self).request_counter + 1) as nat),
                asked: AskedV::MarkInterrupted {
                    session_path: session_path@,
                    active_session_id: active_session_id@,
                    operations: text::texts(operations@),
                },
            }),
            *final(self) == (DaemonCatalogClient {
                request_counter: (old(self).request_counter + 1) as u64,
                ..*old(self)
            }),
    {
        let id = self.next_request_id();
        CatalogRequest::MarkInterrupted {
            type_: "request".to_owned(),
            id,
            session_path: session_path.to_owned(),
            active_session_id: active_session_id.to_owned(),
            operations: clone_texts(operations),
        }
    }

    /// The request that ends the child; nothing where there is none.
    pub fn stop(&mut self) -> (r: Option<CatalogRequest>)
        requires
            old(self).request_counter < u64::MAX,
        ensures
            match r {
                Some(request) => {
                    &&& old(self).running
                    &&& request@ == (RequestV {
                        type_: "request"@,
                        id: catalog_id((old(self).request_counter + 1) as nat),
                        asked: AskedV::Shutdown,
                    })
                    &&& *final(self) == (DaemonCatalogClient {
                        request_counter: (old(self).request_counter + 1) as u64,
                        ..*old(self)
                    })
                },
                None => !old(self).running && *final(self) == *old(self),
            },
    {
        if !self.running {
            return None;
        }
        let id = self.next_request_id();
        Some(CatalogRequest::Shutdown { type_: "request".to_owned(), id })
    }

    /// Notes that the child has ended after it was asked to.
    pub fn stopped(&mut self)
        ensures
            *final(self) == (DaemonCatalogClient { running: false, ..*old(self) }),
    {
        self.running = false;
    }

    /// Puts a request on the waiting list and gives the line to send. Without a
    /// child nothing waits.
    pub fn request(&mut self, request: &CatalogRequest, caller: PendingCatalogRequest) -> (r: Result<
        String,
        String,
    >)
        requires
            old(self).wf(),
        ensures
            final(self).wf(),
            final(self).running == old(self).running,
            final(self).ready == old(self).ready,
            final(self).request_counter == old(self).request_counter,
            match r {
                Ok(line) => {
                    &&& old(self).running
                    &&& final(self).pending@ == old(self).pending@.insert(request@.id, caller)
                    &&& json::holdable(request_value(request@)) ==> line@ == json::printed_json(
                        json::held(request_value(request@)),
                    ) + "\n"@
                },
                Err(error) => {
                    &&& !old(self).running
                    &&& final(self).pending@ == old(self).pending@.remove(request@.id)
                    &&& error@ == "Daemon catalog is not connected"@
                },
            },
    {
        if !self.running {
            self.pending.remove(request.id());
            return Err("Daemon catalog is not connected".to_owned());
        }
        self.pending.insert(request.id().to_owned(), caller);
        let value = request.to_value();
        Ok(catalog_line(&value))
    }

    /// Takes a request off the waiting list: its line could not be sent, or its
    /// answer took too long.
    pub fn withdraw(&mut self, id: &str)
        requires
            old(self).wf(),
        ensures
            final(self).wf(),
            final(self).pending@ == old(self).pending@.remove(id@),
            final(self).running == old(self).running,
            final(self).ready == old(self).ready,
            final(self).request_counter == old(self).request_counter,
    {
        self.pending.remove(id);
    }

    /// Handles a message of the child. An answer takes its request off the
    /// waiting list.
    pub fn handle_message(&mut self, value: &Json) -> (r: CatalogMessage)
        requires
            old(self).wf(),
        ensures
            final(self).wf(),
            r@ == message_effect(value@, old(self).pending@),
            final(self).ready == (old(self).ready || r@ is Ready),
            final(self).pending@ == match r@ {
                MessageV::Settled { id, .. } => old(self).pending@.remove(id),
                _ => old(self).pending@,
            },
            final(self).running == old(self).running,
            final(self).request_counter == old(self).request_counter,
    {
        proof {
            message_types_differ();
        }
        if !is_catalog_outbound(value) {
            return CatalogMessage::Nothing;
        }
        if value.str_is("type", "ready") {
            self.ready = true;
            return CatalogMessage::Ready;
        }
        let id = match value.str_at("id") {
            Some(id) => id,
            None => return CatalogMessage::Nothing,
        };
        let caller: PendingCatalogRequest = match self.pending.get(id) {
            Some(caller) => *caller,
            None => return CatalogMessage::Nothing,
        };
        if value.str_is("type", "progress") {
            if !caller.wants_progress {
                return CatalogMessage::Nothing;
            }
            let loaded: u64 = match value.u64_at("loaded") {
                Some(n) => n,
                None => 0,
            };
            let total: u64 = match value.u64_at("total") {
                Some(n) => n,
                None => 0,
            };
            return CatalogMessage::Progress { id: id.to_owned(), loaded, total };
        }
        if value.str_is("type", "session") {
            if !caller.wants_sessions {
                return CatalogMessage::Nothing;
            }
            return match value.get("session") {
                Some(session) => match SessionInfoWire::from_value(session) {
                    Some(wire) => CatalogMessage::Session {
                        id: id.to_owned(),
                        session: deserialize_session_info(&wire),
                    },
                    None => CatalogMessage::Nothing,
                },
                None => CatalogMessage::Nothing,
            };
        }
        self.pending.remove(id);
        let result: Result<Json, String> = if let Some(true) = value.bool_at("success") {
            match value.get("data") {
                Some(data) => Ok(data.clone()),
                None => Ok(Json::Null),
            }
        } else {
            match value.str_at("error") {
                Some(error) => Err(error.to_owned()),
                None => Err(String::new()),
            }
        };
        CatalogMessage::Settled { id: id.to_owned(), result }
    }

    /// Notes that the child is gone. Returns the requests that are told about it;
    /// nothing where there was no child.
    pub fn handle_close(&mut self) -> (r: Option<Vec<String>>)
        requires
            old(self).wf(),
        ensures
            final(self).wf(),
            match r {
                Some(told) => {
                    &&& old(self).running
                    &&& told@.len() == old(self).pending.entries@.len()
                    &&& forall|i: int|
                        0 <= i < told@.len() ==> (#[trigger] told@[i])@
                            == old(self).pending.entries@[i].0@
                    &&& final(self).pending@ == Map::<Seq<char>, PendingCatalogRequest>::empty()
                },
                None => !old(self).running && final(self).pending == old(self).pending,
            },
            !final(self).running,
            final(self).ready == old(self).ready,
            final(self).request_counter == old(self).request_counter,
    {
        if !self.running {
            return None;
        }
        self.running = false;
        let told = self.pending.keys();
        self.pending = TextMap::new();
        Some(told)
    }
}

proof fn message_types_differ()
    ensures
        "ready"@.len() == 5,
        "progress"@.len() == 8 && "progress"@[0] == 'p',
        "session"@.len() == 7,
        "response"@.len() == 8 && "response"@[0] == 'r',
{
    reveal_strlit("ready");
    reveal_strlit("progress");
    reveal_strlit("session");
    reveal_strlit("response");
}

/// What is said of a request that was not answered in time.
pub fn request_timeout_text(request: &CatalogRequest) -> (r: String)
    ensures
        r@ == "Timed out waiting for daemon catalog "@ + command_name(request@.asked),
{
    cat2("Timed out waiting for daemon catalog ", request.command())
}

/// The sessions among listed documents.
pub open spec fn listed_sessions(values: Seq<JsonV>) -> Seq<SessionInfoV>
    decreases values.len(),
{
    if values.len() == 0 {
        Seq::empty()
    } else if is_wire(values.last()) {
        let (row, count) = wire_of(values.last());
        listed_sessions(values.drop_last()).push(received_session(row, count))
    } else {
        listed_sessions(values.drop_last())
    }
}

/// The sessions in the answer to a listing.
pub open spec fn answered_sessions(data: JsonV) -> Seq<SessionInfoV> {
    match data.get("sessions"@) {
        Some(JsonV::Arr(values)) => listed_sessions(values),
        _ => Seq::empty(),
    }
}

/// Reads the sessions from the answer to a listing. What is no session is passed
/// over.
pub fn list_result(data: &Json) -> (r: Vec<SessionInfo>)
    ensures
        session_info::infos(r@) == answered_sessions(data@),
{
    broadcast use json::array_view;

    let mut sessions: Vec<SessionInfo> = Vec::new();
    assert(session_info::infos(sessions@) =~= Seq::<SessionInfoV>::empty());
    let values = match data.get("sessions") {
        Some(Json::Array(values)) => values,
        _ => return sessions,
    };
    let ghost all = json::items(values@);
    let mut i: usize = 0;
    assert(all.take(0) =~= Seq::empty());
    while i < values.len()
        invariant
            i <= values.len(),
            all == json::items(values@),
            session_info::infos(sessions@) == listed_sessions(all.take(i as int)),
        decreases values.len() - i,
    {
        assert(all.take(i + 1).drop_last() =~= all.take(i as int));
        assert(all.take(i + 1).last() == values@[i as int]@);
        if let Some(wire) = SessionInfoWire::from_value(&values[i]) {
            let ghost before = sessions@;
            let session = deserialize_session_info(&wire);
            let ghost read = session@;
            sessions.push(session);
            assert(session_info::infos(sessions@) =~= session_info::infos(before).push(read));
        }
        i += 1;
    }
    assert(all.take(i as int) =~= all);
    sessions
}

/// Reads the path from the answer to a selector.
pub fn resolve_result(data: &Json) -> (r: Result<String, String>)
    ensures
        match r {
            Ok(path) => data@.str_at("sessionPath"@) == Some(path@),
            Err(error) => data@.str_at("sessionPath"@) is None && error@
                == "Daemon catalog returned no session path"@,
        },
{
    match data.str_at("sessionPath") {
        Some(path) => Ok(path.to_owned()),
        None => Err("Daemon catalog returned no session path".to_owned()),
    }
}

/// Reads from the answer whether the session was archived.
pub fn archive_result(data: &Json) -> (r: bool)
    ensures
        r == data@.bool_at("archived"@).unwrap_or(false),
{
    match data.bool_at("archived") {
        Some(archived) => archived,
        None => false,
    }
}

/// Sessions that are listed over the wire arrive in their order.
pub proof fn listed_sessions_arrive(sessions: Seq<SessionInfoV>)
    requires
        forall|i: int|
            0 <= i < sessions.len() ==> (#[trigger] sessions[i]).usage != Some(JsonV::Null),
    ensures
        answered_sessions(single("sessions"@, sent_sessions(sessions))) == Seq::new(
            sessions.len(),
            |i: int| received_session(sent_row(sessions[i]), sessions[i].message_count),
        ),
    decreases sessions.len(),
{
    broadcast use {json::lookup_push, json::lookup_empty};

    let arrived = Seq::new(
        sessions.len(),
        |i: int| received_session(sent_row(sessions[i]), sessions[i].message_count),
    );
    let values = sent_sessions(sessions)->Arr_0;
    assert(single("sessions"@, sent_sessions(sessions)).get("sessions"@) == Some(
        sent_sessions(sessions),
    ));
    if sessions.len() > 0 {
        let fewer = sessions.drop_last();
        assert forall|i: int| 0 <= i < fewer.len() implies (#[trigger] fewer[i]).usage != Some(
            JsonV::Null,
        ) by {
            assert(fewer[i] == sessions[i]);
        }
        listed_sessions_arrive(fewer);
        assert(single("sessions"@, sent_sessions(fewer)).get("sessions"@) == Some(
            sent_sessions(fewer),
        ));
        assert(values.drop_last() =~= sent_sessions(fewer)->Arr_0);
        let last = sessions.last();
        wire_is_read_back(sent_row(last), last.message_count);
        assert(values.last() == wire_value(sent_row(last), last.message_count));
        assert(listed_sessions(values) =~= arrived);
    } else {
        assert(listed_sessions(values) =~= arrived);
    }
}

} // verus!
