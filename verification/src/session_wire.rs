//! A saved session as it goes over the wire: the members that every form of it
//! has but the message count.

use vstd::prelude::*;

use crate::json;
use crate::json::{Json, JsonV, owned};

verus! {

/// A saved session on the wire, without its message count.
pub struct Row {
    pub path: String,
    pub id: String,
    pub cwd: String,
    pub name: Option<String>,
    pub state: Option<Json>,
    pub parent_session_path: Option<String>,
    pub rlm_depth: Option<i64>,
    pub created: String,
    pub modified: String,
    pub first_message: String,
    pub all_messages_text: String,
    pub agent_status: Option<Json>,
    pub usage: Option<Json>,
}

/// What a saved session on the wire says.
#[verifier::ext_equal]
pub struct RowV {
    pub path: Seq<char>,
    pub id: Seq<char>,
    pub cwd: Seq<char>,
    pub name: Option<Seq<char>>,
    pub state: Option<JsonV>,
    pub parent_session_path: Option<Seq<char>>,
    pub rlm_depth: Option<i64>,
    pub created: Seq<char>,
    pub modified: Seq<char>,
    pub first_message: Seq<char>,
    pub all_messages_text: Seq<char>,
    pub agent_status: Option<JsonV>,
    pub usage: Option<JsonV>,
}

impl View for Row {
    type V = RowV;

    open spec fn view(&self) -> RowV {
        RowV {
            path: self.path@,
            id: self.id@,
            cwd: self.cwd@,
            name: json::opt_view(self.name),
            state: json::opt_json(self.state),
            parent_session_path: json::opt_view(self.parent_session_path),
            rlm_depth: self.rlm_depth,
            created: self.created@,
            modified: self.modified@,
            first_message: self.first_message@,
            all_messages_text: self.all_messages_text@,
            agent_status: json::opt_json(self.agent_status),
            usage: json::opt_json(self.usage),
        }
    }
}

/// The document has the members of a saved session.
pub open spec fn is_row(value: JsonV) -> bool {
    &&& value.str_at("path"@) is Some
    &&& value.str_at("id"@) is Some
    &&& value.str_at("cwd"@) is Some
    &&& json::optional_text(value, "name"@)
    &&& json::optional_text(value, "parentSessionPath"@)
    &&& json::optional_integer(value, "rlmDepth"@)
    &&& value.str_at("created"@) is Some
    &&& value.str_at("modified"@) is Some
    &&& value.str_at("firstMessage"@) is Some
    &&& value.str_at("allMessagesText"@) is Some
}

/// The saved session in a document.
pub open spec fn row_of(value: JsonV) -> RowV {
    RowV {
        path: value.str_at("path"@)->0,
        id: value.str_at("id"@)->0,
        cwd: value.str_at("cwd"@)->0,
        name: value.str_at("name"@),
        state: json::present(value, "state"@),
        parent_session_path: value.str_at("parentSessionPath"@),
        rlm_depth: value.i64_at("rlmDepth"@),
        created: value.str_at("created"@)->0,
        modified: value.str_at("modified"@)->0,
        first_message: value.str_at("firstMessage"@)->0,
        all_messages_text: value.str_at("allMessagesText"@)->0,
        agent_status: json::present(value, "agentStatus"@),
        usage: json::present(value, "usage"@),
    }
}

/// The members after an optional integer was added at the end.
pub open spec fn push_opt_int(
    pairs: Seq<(Seq<char>, JsonV)>,
    key: Seq<char>,
    value: Option<i64>,
) -> Seq<(Seq<char>, JsonV)> {
    match value {
        Some(n) => pairs.push((key, json::int_value(n as int))),
        None => pairs,
    }
}

/// The members of a saved session with its message count, in the order of the
/// wire. What is absent has no member.
pub open spec fn row_members(row: RowV, count: JsonV) -> Seq<(Seq<char>, JsonV)> {
    let head = seq![
        ("path"@, JsonV::Str(row.path)),
        ("id"@, JsonV::Str(row.id)),
        ("cwd"@, JsonV::Str(row.cwd)),
    ];
    let named = json::push_opt_text(head, "name"@, row.name);
    let stated = json::push_opt(named, "state"@, row.state);
    let parented = json::push_opt_text(stated, "parentSessionPath"@, row.parent_session_path);
    let deep = push_opt_int(parented, "rlmDepth"@, row.rlm_depth);
    let dated = deep.push(("created"@, JsonV::Str(row.created))).push(
        ("modified"@, JsonV::Str(row.modified)),
    ).push(("messageCount"@, count)).push(("firstMessage"@, JsonV::Str(row.first_message))).push(
        ("allMessagesText"@, JsonV::Str(row.all_messages_text)),
    );
    let judged = json::push_opt(dated, "agentStatus"@, row.agent_status);
    json::push_opt(judged, "usage"@, row.usage)
}

/// Reads a saved session; nothing where the document is none.
pub fn read_row(value: &Json) -> (r: Option<Row>)
    ensures
        match r {
            Some(row) => is_row(value@) && row@ == row_of(value@),
            None => !is_row(value@),
        },
{
    if !(json::is_optional_text(value, "name") && json::is_optional_text(value, "parentSessionPath")
        && json::is_optional_integer(value, "rlmDepth")) {
        return None;
    }
    let path = match value.str_at("path") {
        Some(text) => text.to_owned(),
        None => return None,
    };
    let id = match value.str_at("id") {
        Some(text) => text.to_owned(),
        None => return None,
    };
    let cwd = match value.str_at("cwd") {
        Some(text) => text.to_owned(),
        None => return None,
    };
    let created = match value.str_at("created") {
        Some(text) => text.to_owned(),
        None => return None,
    };
    let modified = match value.str_at("modified") {
        Some(text) => text.to_owned(),
        None => return None,
    };
    let first_message = match value.str_at("firstMessage") {
        Some(text) => text.to_owned(),
        None => return None,
    };
    let all_messages_text = match value.str_at("allMessagesText") {
        Some(text) => text.to_owned(),
        None => return None,
    };
    Some(
        Row {
            path,
            id,
            cwd,
            name: owned(value.str_at("name")),
            state: json::present_copy(value, "state"),
            parent_session_path: owned(value.str_at("parentSessionPath")),
            rlm_depth: value.i64_at("rlmDepth"),
            created,
            modified,
            first_message,
            all_messages_text,
            agent_status: json::present_copy(value, "agentStatus"),
            usage: json::present_copy(value, "usage"),
        },
    )
}

/// Writes a saved session with its message count.
pub fn write_row(row: &Row, count: Json) -> (r: Json)
    ensures
        r@ == JsonV::Obj(row_members(row@, count@)),
{
    let mut pairs = json::no_members();
    json::add_text(&mut pairs, "path", &row.path);
    json::add_text(&mut pairs, "id", &row.id);
    json::add_text(&mut pairs, "cwd", &row.cwd);
    proof {
        let head = seq![
            ("path"@, JsonV::Str(row.path@)),
            ("id"@, JsonV::Str(row.id@)),
            ("cwd"@, JsonV::Str(row.cwd@)),
        ];
        assert(json::members(pairs@) =~= head);
    }
    json::add_opt_text(&mut pairs, "name", &row.name);
    json::add_opt(&mut pairs, "state", &row.state);
    json::add_opt_text(&mut pairs, "parentSessionPath", &row.parent_session_path);
    if let Some(depth) = row.rlm_depth {
        json::add_member(&mut pairs, "rlmDepth", json::integer(depth));
    }
    json::add_text(&mut pairs, "created", &row.created);
    json::add_text(&mut pairs, "modified", &row.modified);
    json::add_member(&mut pairs, "messageCount", count);
    json::add_text(&mut pairs, "firstMessage", &row.first_message);
    json::add_text(&mut pairs, "allMessagesText", &row.all_messages_text);
    json::add_opt(&mut pairs, "agentStatus", &row.agent_status);
    json::add_opt(&mut pairs, "usage", &row.usage);
    json::object(pairs)
}

proof fn row_keys_differ()
    ensures
        "path"@.len() == 4,
        "id"@.len() == 2,
        "cwd"@.len() == 3,
        "name"@.len() == 4 && "name"@[0] == 'n',
        "path"@[0] == 'p',
        "state"@.len() == 5 && "state"@[0] == 's',
        "parentSessionPath"@.len() == 17,
        "rlmDepth"@.len() == 8 && "rlmDepth"@[0] == 'r',
        "created"@.len() == 7,
        "modified"@.len() == 8 && "modified"@[0] == 'm',
        "messageCount"@.len() == 12 && "messageCount"@[0] == 'm',
        "firstMessage"@.len() == 12 && "firstMessage"@[0] == 'f',
        "allMessagesText"@.len() == 15,
        "agentStatus"@.len() == 11,
        "usage"@.len() == 5 && "usage"@[0] == 'u',
{
    reveal_strlit("path");
    reveal_strlit("id");
    reveal_strlit("cwd");
    reveal_strlit("name");
    reveal_strlit("state");
    reveal_strlit("parentSessionPath");
    reveal_strlit("rlmDepth");
    reveal_strlit("created");
    reveal_strlit("modified");
    reveal_strlit("messageCount");
    reveal_strlit("firstMessage");
    reveal_strlit("allMessagesText");
    reveal_strlit("agentStatus");
    reveal_strlit("usage");
}

/// No optional member of a saved session is a null, which would be read as
/// absent.
pub open spec fn says_something(row: RowV) -> bool {
    row.state != Some(JsonV::Null) && row.agent_status != Some(JsonV::Null) && row.usage != Some(
        JsonV::Null,
    )
}

/// A saved session is read from its document as it was written, and its message
/// count stands beside it.
pub proof fn row_is_read_back(row: RowV, count: JsonV)
    requires
        says_something(row),
    ensures
        is_row(JsonV::Obj(row_members(row, count))),
        row_of(JsonV::Obj(row_members(row, count))) == row,
        JsonV::Obj(row_members(row, count)).get("messageCount"@) == Some(count),
{
    broadcast use {json::lookup_push, json::lookup_empty};

    row_keys_differ();
    let value = JsonV::Obj(row_members(row, count));
    let head = Seq::<(Seq<char>, JsonV)>::empty().push(("path"@, JsonV::Str(row.path))).push(
        ("id"@, JsonV::Str(row.id)),
    ).push(("cwd"@, JsonV::Str(row.cwd)));
    assert(seq![
        ("path"@, JsonV::Str(row.path)),
        ("id"@, JsonV::Str(row.id)),
        ("cwd"@, JsonV::Str(row.cwd)),
    ] =~= head);
    assert(value.str_at("path"@) == Some(row.path));
    assert(value.str_at("id"@) == Some(row.id));
    assert(value.str_at("cwd"@) == Some(row.cwd));
    assert(value.str_at("name"@) == row.name);
    assert(value.str_at("created"@) == Some(row.created));
    assert(value.str_at("firstMessage"@) == Some(row.first_message));
    assert(row_of(value) =~= row);
}

} // verus!
