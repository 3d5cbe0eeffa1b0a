//! Saved sessions as the daemon lists them: in memory, on the wire, and as a
//! client gets them.

use vstd::prelude::*;

use crate::clock;
use crate::clock::{iso_from_ms, parse_iso_ms};
use crate::json;
use crate::json::{Json, JsonV, copied, owned};
use crate::session_wire;
use crate::session_wire::{Row, read_row, write_row};
use crate::text;

verus! {

/// The state of a saved session.
#[derive(Debug, PartialEq)]
pub struct SessionState {
    pub status: Option<String>,
}

/// What an agent last said of its work.
#[derive(Debug, PartialEq)]
pub struct AgentStatusRecord {
    pub summary: String,
    pub task_state: Option<String>,
    pub based_on_message_count: u64,
}

/// What a record says.
pub struct RecordV {
    pub summary: Seq<char>,
    pub task_state: Option<Seq<char>>,
    pub based_on_message_count: u64,
}

/// What a record that may be absent says.
pub open spec fn opt_record(record: Option<AgentStatusRecord>) -> Option<RecordV> {
    match record {
        Some(record) => Some(
            RecordV {
                summary: record.summary@,
                task_state: json::opt_view(record.task_state),
                based_on_message_count: record.based_on_message_count,
            },
        ),
        None => None,
    }
}

/// What a state that may be absent says.
pub open spec fn opt_state(state: Option<SessionState>) -> Option<Option<Seq<char>>> {
    match state {
        Some(state) => Some(json::opt_view(state.status)),
        None => None,
    }
}

/// A saved session. Times are in milliseconds since the epoch; an unknown time is
/// absent.
#[derive(Debug, PartialEq)]
pub struct SessionInfo {
    pub path: String,
    pub id: String,
    pub cwd: String,
    pub name: Option<String>,
    pub state: Option<SessionState>,
    pub parent_session_path: Option<String>,
    pub rlm_depth: Option<i64>,
    pub created_ms: Option<i64>,
    pub modified_ms: Option<i64>,
    pub message_count: u64,
    pub first_message: String,
    pub all_messages_text: String,
    pub agent_status: Option<AgentStatusRecord>,
    pub usage: Option<Json>,
}

/// What a saved session says.
#[verifier::ext_equal]
pub struct InfoV {
    pub path: Seq<char>,
    pub id: Seq<char>,
    pub cwd: Seq<char>,
    pub name: Option<Seq<char>>,
    pub state: Option<Option<Seq<char>>>,
    pub parent_session_path: Option<Seq<char>>,
    pub rlm_depth: Option<i64>,
    pub created: Option<i64>,
    pub modified: Option<i64>,
    pub message_count: u64,
    pub first_message: Seq<char>,
    pub all_messages_text: Seq<char>,
    pub agent_status: Option<RecordV>,
    pub usage: Option<JsonV>,
}

impl View for SessionInfo {
    type V = InfoV;

    open spec fn view(&self) -> InfoV {
        InfoV {
            path: self.path@,
            id: self.id@,
            cwd: self.cwd@,
            name: json::opt_view(self.name),
            state: opt_state(self.state),
            parent_session_path: json::opt_view(self.parent_session_path),
            rlm_depth: self.rlm_depth,
            created: self.created_ms,
            modified: self.modified_ms,
            message_count: self.message_count,
            first_message: self.first_message@,
            all_messages_text: self.all_messages_text@,
            agent_status: opt_record(self.agent_status),
            usage: json::opt_json(self.usage),
        }
    }
}

/// A saved session on the wire: its times are texts.
#[derive(Debug, PartialEq)]
pub struct DaemonSavedSessionInfo {
    pub path: String,
    pub id: String,
    pub cwd: String,
    pub name: Option<String>,
    pub state: Option<Json>,
    pub parent_session_path: Option<String>,
    pub rlm_depth: Option<i64>,
    pub created: String,
    pub modified: String,
    pub message_count: i64,
    pub first_message: String,
    pub all_messages_text: String,
    pub agent_status: Option<Json>,
    pub usage: Option<Json>,
}

/// What a saved session on the wire says.
#[verifier::ext_equal]
pub struct WireV {
    pub row: session_wire::RowV,
    pub message_count: i64,
}

impl View for DaemonSavedSessionInfo {
    type V = WireV;

    open spec fn view(&self) -> WireV {
        WireV {
            row: session_wire::RowV {
                path: self.path@,
                id: self.id@,
                cwd: self.cwd@,
                name: json::opt_view(self.name),
                state: json::opt_json(self.state),
                parent_session_path: json::opt_view(self.parent_session_path),
                rlm_depth: self.rlm_depth,
                created: self.created@,
                modified: self.modified@,
                first_message: self.first_message@,
                all_messages_text: self.all_messages_text@,
                agent_status: json::opt_json(self.agent_status),
                usage: json::opt_json(self.usage),
            },
            message_count: self.message_count,
        }
    }
}

/// The document is a saved session.
pub open spec fn is_wire(value: JsonV) -> bool {
    session_wire::is_row(value) && value.i64_at("messageCount"@) is Some
}

/// The saved session in a document.
pub open spec fn wire_of(value: JsonV) -> WireV {
    WireV { row: session_wire::row_of(value), message_count: value.i64_at("messageCount"@)->0 }
}

/// The document of a saved session.
pub open spec fn wire_value(wire: WireV) -> JsonV {
    JsonV::Obj(session_wire::row_members(wire.row, json::int_value(wire.message_count as int)))
}

impl DaemonSavedSessionInfo {
    /// Reads a saved session; nothing where the document is none.
    pub fn from_value(value: &Json) -> (r: Option<Self>)
        ensures
            match r {
                Some(wire) => is_wire(value@) && wire@ == wire_of(value@),
                None => !is_wire(value@),
            },
    {
        let message_count: i64 = match value.i64_at("messageCount") {
            Some(count) => count,
            None => return None,
        };
        let row = match read_row(value) {
            Some(row) => row,
            None => return None,
        };
        let ghost shown = row@;
        let wire = DaemonSavedSessionInfo {
            path: row.path,
            id: row.id,
            cwd: row.cwd,
            name: row.name,
            state: row.state,
            parent_session_path: row.parent_session_path,
            rlm_depth: row.rlm_depth,
            created: row.created,
            modified: row.modified,
            message_count,
            first_message: row.first_message,
            all_messages_text: row.all_messages_text,
            agent_status: row.agent_status,
            usage: row.usage,
        };
        assert(wire@.row =~= shown);
        Some(wire)
    }

    /// The document of the saved session.
    pub fn to_value(&self) -> (r: Json)
        ensures
            r@ == wire_value(self@),
    {
        let row = Row {
            path: self.path.clone(),
            id: self.id.clone(),
            cwd: self.cwd.clone(),
            name: self.name.clone(),
            state: copied(self.state.as_ref()),
            parent_session_path: self.parent_session_path.clone(),
            rlm_depth: self.rlm_depth,
            created: self.created.clone(),
            modified: self.modified.clone(),
            first_message: self.first_message.clone(),
            all_messages_text: self.all_messages_text.clone(),
            agent_status: copied(self.agent_status.as_ref()),
            usage: copied(self.usage.as_ref()),
        };
        assert(row@ =~= self@.row);
        write_row(&row, json::integer(self.message_count))
    }
}

/// A saved session is read back from its document.
pub proof fn wire_is_read_back(wire: WireV)
    requires
        session_wire::says_something(wire.row),
    ensures
        is_wire(wire_value(wire)),
        wire_of(wire_value(wire)) == wire,
{
    session_wire::row_is_read_back(wire.row, json::int_value(wire.message_count as int));
}

/// A text or a null.
pub open spec fn text_or_null(text: Option<Seq<char>>) -> JsonV {
    match text {
        Some(text) => JsonV::Str(text),
        None => JsonV::Null,
    }
}

fn text_or_null_value(text: &Option<String>) -> (r: Json)
    ensures
        r@ == text_or_null(json::opt_view(*text)),
{
    match text {
        Some(text) => json::text(text),
        None => Json::Null,
    }
}

/// The document of a state.
pub open spec fn state_value(status: Option<Seq<char>>) -> JsonV {
    JsonV::Obj(
        Seq::<(Seq<char>, JsonV)>::empty().push(("status"@, text_or_null(status))),
    )
}

/// The document of a record.
pub open spec fn record_value(record: RecordV) -> JsonV {
    JsonV::Obj(
        Seq::<(Seq<char>, JsonV)>::empty().push(("summary"@, JsonV::Str(record.summary))).push(
            ("taskState"@, text_or_null(record.task_state)),
        ).push(
            ("basedOnMessageCount"@, json::int_value(record.based_on_message_count as int)),
        ),
    )
}

/// The saved session on the wire.
pub open spec fn sent(info: InfoV) -> WireV {
    WireV {
        row: session_wire::RowV {
            path: info.path,
            id: info.id,
            cwd: info.cwd,
            name: info.name,
            state: match info.state {
                Some(status) => Some(state_value(status)),
                None => None,
            },
            parent_session_path: info.parent_session_path,
            rlm_depth: info.rlm_depth,
            created: clock::written_time(info.created),
            modified: clock::written_time(info.modified),
            first_message: info.first_message,
            all_messages_text: info.all_messages_text,
            agent_status: match info.agent_status {
                Some(record) => Some(record_value(record)),
                None => None,
            },
            usage: info.usage,
        },
        message_count: info.message_count as i64,
    }
}

/// The times of a session that lie in years of four digits have texts that are
/// read back.
pub open spec fn times_are_sent(info: InfoV, wire: WireV) -> bool {
    &&& info.created is Some && clock::in_four_digit_year(info.created->0)
        ==> clock::iso_millis(wire.row.created) == info.created
    &&& info.modified is Some && clock::in_four_digit_year(info.modified->0)
        ==> clock::iso_millis(wire.row.modified) == info.modified
}

/// The saved session on the wire: its times become texts.
pub fn serialize_saved_session_info(session: &SessionInfo) -> (r: DaemonSavedSessionInfo)
    ensures
        r@ == sent(session@),
        times_are_sent(session@, r@),
{
    let state = match &session.state {
        Some(state) => {
            let mut pairs = json::no_members();
            json::add_member(&mut pairs, "status", text_or_null_value(&state.status));
            Some(json::object(pairs))
        },
        None => None,
    };
    let agent_status = match &session.agent_status {
        Some(record) => {
            let mut pairs = json::no_members();
            json::add_text(&mut pairs, "summary", &record.summary);
            json::add_member(&mut pairs, "taskState", text_or_null_value(&record.task_state));
            json::add_member(
                &mut pairs,
                "basedOnMessageCount",
                json::count(record.based_on_message_count),
            );
            Some(json::object(pairs))
        },
        None => None,
    };
    let wire = DaemonSavedSessionInfo {
        path: session.path.clone(),
        id: session.id.clone(),
        cwd: session.cwd.clone(),
        name: session.name.clone(),
        state,
        parent_session_path: session.parent_session_path.clone(),
        rlm_depth: session.rlm_depth,
        created: iso_from_ms(session.created_ms),
        modified: iso_from_ms(session.modified_ms),
        message_count: session.message_count as i64,
        first_message: session.first_message.clone(),
        all_messages_text: session.all_messages_text.clone(),
        agent_status,
        usage: copied(session.usage.as_ref()),
    };
    assert(wire@ =~= sent(session@));
    wire
}

/// A saved session as a client gets it. A time that cannot be read is absent.
#[derive(Debug, PartialEq)]
pub struct AgentConnectionSavedSessionInfo {
    pub path: String,
    pub id: String,
    pub cwd: String,
    pub name: Option<String>,
    pub state: Option<SessionState>,
    pub parent_session_path: Option<String>,
    pub rlm_depth: Option<i64>,
    pub created: Option<i64>,
    pub modified: Option<i64>,
    pub message_count: u64,
    pub first_message: String,
    pub all_messages_text: String,
    pub agent_status: Option<AgentStatusRecord>,
    pub usage: Option<Json>,
}

impl View for AgentConnectionSavedSessionInfo {
    type V = InfoV;

    open spec fn view(&self) -> InfoV {
        InfoV {
            path: self.path@,
            id: self.id@,
            cwd: self.cwd@,
            name: json::opt_view(self.name),
            state: opt_state(self.state),
            parent_session_path: json::opt_view(self.parent_session_path),
            rlm_depth: self.rlm_depth,
            created: self.created,
            modified: self.modified,
            message_count: self.message_count,
            first_message: self.first_message@,
            all_messages_text: self.all_messages_text@,
            agent_status: opt_record(self.agent_status),
            usage: json::opt_json(self.usage),
        }
    }
}

/// The saved session that came over the wire.
pub open spec fn received(wire: WireV) -> InfoV {
    let row = wire.row;
    InfoV {
        path: row.path,
        id: row.id,
        cwd: row.cwd,
        name: row.name,
        state: match row.state {
            Some(state) => Some(state.str_at("status"@)),
            None => None,
        },
        parent_session_path: row.parent_session_path,
        rlm_depth: row.rlm_depth,
        created: clock::iso_millis(row.created),
        modified: clock::iso_millis(row.modified),
        message_count: if wire.message_count < 0 {
            0
        } else {
            wire.message_count as u64
        },
        first_message: row.first_message,
        all_messages_text: row.all_messages_text,
        agent_status: match row.agent_status {
            Some(record) => Some(
                RecordV {
                    summary: json::text_or_empty(record, "summary"@),
                    task_state: record.str_at("taskState"@),
                    based_on_message_count: json::clamped(
                        json::whole_at(record, "basedOnMessageCount"@),
                        0,
                        u64::MAX as int,
                    ) as u64,
                },
            ),
            None => None,
        },
        usage: row.usage,
    }
}

/// The saved session that came over the wire.
pub fn deserialize_saved_session_info(session: &DaemonSavedSessionInfo) -> (r:
    AgentConnectionSavedSessionInfo)
    ensures
        r@ == received(session@),
{
    let info = AgentConnectionSavedSessionInfo {
        path: session.path.clone(),
        id: session.id.clone(),
        cwd: session.cwd.clone(),
        name: session.name.clone(),
        state: match &session.state {
            Some(state) => Some(SessionState { status: owned(state.str_at("status")) }),
            None => None,
        },
        parent_session_path: session.parent_session_path.clone(),
        rlm_depth: session.rlm_depth,
        created: parse_iso_ms(&session.created),
        modified: parse_iso_ms(&session.modified),
        message_count: if session.message_count < 0 {
            0
        } else {
            session.message_count as u64
        },
        first_message: session.first_message.clone(),
        all_messages_text: session.all_messages_text.clone(),
        agent_status: match &session.agent_status {
            Some(record) => Some(
                AgentStatusRecord {
                    summary: json::text_at(record, "summary"),
                    task_state: owned(record.str_at("taskState")),
                    based_on_message_count: json::unsigned_at(record, "basedOnMessageCount"),
                },
            ),
            None => None,
        },
        usage: copied(session.usage.as_ref()),
    };
    assert(info@ =~= received(session@));
    info
}

proof fn record_stamps()
    ensures
        text::stamp("summary"@) == 114121115007,
        text::stamp("taskState"@) == 97101116009,
        text::stamp("basedOnMessageCount"@) == 67116098019,
{
    reveal_strlit("summary");
    reveal_strlit("taskState");
    reveal_strlit("basedOnMessageCount");
}

/// A saved session comes through the wire as it was: what is absent stays absent.
/// Its times must be known and lie in years of four digits, and its counts must be
/// such that a signed integer and a double can hold them.
pub proof fn sessions_come_through(info: InfoV, wire: WireV)
    requires
        wire == sent(info),
        times_are_sent(info, wire),
        info.created is Some && clock::in_four_digit_year(info.created->0),
        info.modified is Some && clock::in_four_digit_year(info.modified->0),
        info.message_count <= i64::MAX,
        info.agent_status matches Some(record) ==> record.based_on_message_count
            <= 9007199254740992,
    ensures
        received(wire) == info,
{
    broadcast use {json::lookup_push, json::lookup_empty};

    record_stamps();
    if let Some(status) = info.state {
        assert(state_value(status).str_at("status"@) == status);
    }
    if let Some(record) = info.agent_status {
        let value = record_value(record);
        assert(value.str_at("summary"@) == Some(record.summary));
        assert(value.str_at("taskState"@) == record.task_state);
        assert(json::whole_at(value, "basedOnMessageCount"@) == record.based_on_message_count);
    }
    assert(received(wire) =~= info);
}

} // verus!
