//! The messages that clients, supervisor and workers exchange.

use vstd::prelude::*;

use crate::json;
use crate::json::{
    Json, JsonV, add_member, add_opt, add_opt_text, add_text, copied, member, no_members, object,
    owned, set_member,
};
use crate::text;
use crate::text::{cat3, cat5, contains_text};

verus! {

/// A command on its way to the daemon: its type and the fields beside it.
#[derive(Debug, PartialEq)]
pub struct DaemonCommand {
    pub id: Option<String>,
    pub type_: String,
    pub body: Vec<(String, Json)>,
}

/// The document that carries a command: its type, its id where it has one, and
/// its fields.
pub open spec fn command_value(
    id: Option<Seq<char>>,
    type_: Seq<char>,
    body: Seq<(Seq<char>, JsonV)>,
) -> JsonV {
    let head = seq![("type"@, JsonV::Str(type_))];
    match id {
        Some(id) => JsonV::Obj(head + seq![("id"@, JsonV::Str(id))] + body),
        None => JsonV::Obj(head + body),
    }
}

impl DaemonCommand {
    /// A command without id or fields.
    pub fn new(type_: &str) -> (r: Self)
        ensures
            r.id is None,
            r.type_@ == type_@,
            json::members(r.body@) == Seq::<(Seq<char>, JsonV)>::empty(),
    {
        let r = DaemonCommand { id: None, type_: type_.to_owned(), body: Vec::new() };
        assert(json::members(r.body@) =~= Seq::empty());
        r
    }

    /// The field stored under `key`.
    pub fn field(&self, key: &str) -> (r: Option<&Json>)
        ensures
            match r {
                Some(v) => json::lookup(json::members(self.body@), key@) == Some(v@),
                None => json::lookup(json::members(self.body@), key@) is None,
            },
    {
        member(&self.body, key)
    }

    /// The text stored under `key`.
    pub fn string_field(&self, key: &str) -> (r: Option<&str>)
        ensures
            json::opt_str_view(r) == JsonV::Obj(json::members(self.body@)).str_at(key@),
    {
        match self.field(key) {
            Some(v) => v.as_str(),
            None => None,
        }
    }

    /// Sets a field; a known one keeps its place.
    pub fn set(&mut self, key: &str, value: Json)
        ensures
            final(self).id == old(self).id,
            final(self).type_ == old(self).type_,
            json::members(final(self).body@) == json::put(
                json::members(old(self).body@),
                key@,
                value@,
            ),
    {
        set_member(&mut self.body, key, value);
    }

    /// Sets a text field.
    pub fn set_text(&mut self, key: &str, value: &str)
        ensures
            final(self).id == old(self).id,
            final(self).type_ == old(self).type_,
            json::members(final(self).body@) == json::put(
                json::members(old(self).body@),
                key@,
                JsonV::Str(value@),
            ),
    {
        set_member(&mut self.body, key, Json::Str(value.to_owned()));
    }

    /// The document that carries this command under `id`.
    pub fn to_value(&self, id: Option<&str>) -> (r: Json)
        ensures
            r@ == command_value(json::opt_str_view(id), self.type_@, json::members(self.body@)),
    {
        broadcast use {json::object_view, json::array_view};

        let mut pairs: Vec<(String, Json)> = Vec::new();
        pairs.push(("type".to_owned(), Json::Str(self.type_.clone())));
        if let Some(id) = id {
            pairs.push(("id".to_owned(), Json::Str(id.to_owned())));
        }
        let ghost head = json::members(pairs@);
        let mut i: usize = 0;
        while i < self.body.len()
            invariant
                i <= self.body.len(),
                json::members(pairs@) == head + json::members(self.body@).take(i as int),
            decreases self.body.len() - i,
        {
            let ghost before = pairs@;
            pairs.push((self.body[i].0.clone(), self.body[i].1.clone()));
            i += 1;
            assert(json::members(pairs@) =~= json::members(before).push(
                (self.body@[i - 1].0@, self.body@[i - 1].1@),
            ));
            assert(json::members(pairs@) =~= head + json::members(self.body@).take(i as int));
        }
        assert(json::members(self.body@).take(i as int) =~= json::members(self.body@));
        assert(head =~= match id {
            Some(id) => seq![("type"@, JsonV::Str(self.type_@))] + seq![("id"@, JsonV::Str(id@))],
            None => seq![("type"@, JsonV::Str(self.type_@))],
        });
        Json::Object(pairs)
    }
}

/// The answer to a command.
#[derive(Debug, PartialEq)]
pub struct DaemonResponse {
    pub id: Option<String>,
    pub command: String,
    pub success: bool,
    pub data: Option<Json>,
    pub error: Option<String>,
    pub error_info: Option<Json>,
}

/// What an answer says.
pub struct ResponseV {
    pub id: Option<Seq<char>>,
    pub command: Seq<char>,
    pub success: bool,
    pub data: Option<JsonV>,
    pub error: Option<Seq<char>>,
    pub error_info: Option<JsonV>,
}

impl View for DaemonResponse {
    type V = ResponseV;

    open spec fn view(&self) -> ResponseV {
        ResponseV {
            id: json::opt_view(self.id),
            command: self.command@,
            success: self.success,
            data: json::opt_json(self.data),
            error: json::opt_view(self.error),
            error_info: json::opt_json(self.error_info),
        }
    }
}

/// The document is an answer: it says so, names its command and whether the
/// command succeeded; its id and its error, where they are there, are texts.
pub open spec fn is_response(value: JsonV) -> bool {
    &&& value.str_at("type"@) == Some("response"@)
    &&& value.str_at("command"@) is Some
    &&& value.bool_at("success"@) is Some
    &&& json::optional_text(value, "id"@)
    &&& json::optional_text(value, "error"@)
}

/// The answer that a document holds.
pub open spec fn response_of(value: JsonV) -> ResponseV {
    ResponseV {
        id: value.str_at("id"@),
        command: value.str_at("command"@).unwrap_or(Seq::empty()),
        success: value.bool_at("success"@).unwrap_or(false),
        data: json::present(value, "data"@),
        error: value.str_at("error"@),
        error_info: json::present(value, "errorInfo"@),
    }
}

/// The members of the document that carries an answer.
pub open spec fn response_members(response: ResponseV) -> Seq<(Seq<char>, JsonV)> {
    let a = Seq::empty().push(("type"@, JsonV::Str("response"@))).push(
        ("command"@, JsonV::Str(response.command)),
    ).push(("success"@, JsonV::Bool(response.success)));
    let b = json::push_opt_text(a, "id"@, response.id);
    let c = json::push_opt(b, "data"@, response.data);
    let d = json::push_opt_text(c, "error"@, response.error);
    json::push_opt(d, "errorInfo"@, response.error_info)
}

/// The document that carries an answer.
pub open spec fn response_value(response: ResponseV) -> JsonV {
    JsonV::Obj(response_members(response))
}

/// The data of an answer are absent or say something, and so does its error
/// information: neither is a bare null.
pub open spec fn says_something(response: ResponseV) -> bool {
    response.data != Some(JsonV::Null) && response.error_info != Some(JsonV::Null)
}

proof fn response_keys_differ()
    ensures
        "type"@ != "command"@,
        "type"@ != "success"@,
        "type"@ != "id"@,
        "type"@ != "data"@,
        "type"@ != "error"@,
        "type"@ != "errorInfo"@,
        "command"@ != "success"@,
        "command"@ != "id"@,
        "command"@ != "data"@,
        "command"@ != "error"@,
        "command"@ != "errorInfo"@,
        "success"@ != "id"@,
        "success"@ != "data"@,
        "success"@ != "error"@,
        "success"@ != "errorInfo"@,
        "id"@ != "data"@,
        "id"@ != "error"@,
        "id"@ != "errorInfo"@,
        "data"@ != "error"@,
        "data"@ != "errorInfo"@,
        "error"@ != "errorInfo"@,
{
    reveal_strlit("type");
    reveal_strlit("command");
    reveal_strlit("success");
    reveal_strlit("id");
    reveal_strlit("data");
    reveal_strlit("error");
    reveal_strlit("errorInfo");
    assert("type"@[0] == 't' && "type"@.len() == 4);
    assert("command"@[0] == 'c' && "command"@.len() == 7);
    assert("success"@[0] == 's' && "success"@.len() == 7);
    assert("id"@.len() == 2);
    assert("data"@[0] == 'd' && "data"@.len() == 4);
    assert("error"@.len() == 5);
    assert("errorInfo"@.len() == 9);
}

/// An answer that was written as a document is read back from it.
pub proof fn response_is_read_back(response: ResponseV)
    requires
        says_something(response),
    ensures
        is_response(response_value(response)),
        response_of(response_value(response)) == response,
{
    broadcast use {json::lookup_push, json::lookup_empty};

    response_keys_differ();
}

/// An answer whose data and error information read back as themselves makes a
/// document that does.
pub proof fn response_fits(response: ResponseV, limit: nat)
    requires
        limit > 0,
        response.data matches Some(data) ==> json::fits(data, (limit - 1) as nat),
        response.error_info matches Some(info) ==> json::fits(info, (limit - 1) as nat),
    ensures
        json::fits(response_value(response), limit),
{
    broadcast use {json::lookup_push, json::lookup_empty};

    response_keys_differ();
    let e = Seq::<(Seq<char>, JsonV)>::empty();
    json::fits_empty(limit);
    json::fits_push(e, "type"@, JsonV::Str("response"@), limit);
    let a1 = e.push(("type"@, JsonV::Str("response"@)));
    json::fits_push(a1, "command"@, JsonV::Str(response.command), limit);
    let a2 = a1.push(("command"@, JsonV::Str(response.command)));
    json::fits_push(a2, "success"@, JsonV::Bool(response.success), limit);
    let a = a2.push(("success"@, JsonV::Bool(response.success)));
    let b = json::push_opt_text(a, "id"@, response.id);
    if let Some(id) = response.id {
        json::fits_push(a, "id"@, JsonV::Str(id), limit);
    }
    let c = json::push_opt(b, "data"@, response.data);
    if let Some(data) = response.data {
        json::fits_push(b, "data"@, data, limit);
    }
    let d = json::push_opt_text(c, "error"@, response.error);
    if let Some(error) = response.error {
        json::fits_push(c, "error"@, JsonV::Str(error), limit);
    }
    if let Some(info) = response.error_info {
        json::fits_push(d, "errorInfo"@, info, limit);
    }
}

impl Clone for DaemonResponse {
    fn clone(&self) -> (r: Self)
        ensures
            r@ == self@,
    {
        DaemonResponse {
            id: self.id.clone(),
            command: self.command.clone(),
            success: self.success,
            data: copied(self.data.as_ref()),
            error: self.error.clone(),
            error_info: copied(self.error_info.as_ref()),
        }
    }
}

impl DaemonResponse {
    /// A command succeeded.
    pub fn success(id: Option<&str>, command: &str, data: Option<Json>) -> (r: Self)
        ensures
            r@ == (ResponseV {
                id: json::opt_str_view(id),
                command: command@,
                success: true,
                data: json::opt_json(data),
                error: None,
                error_info: None,
            }),
    {
        DaemonResponse {
            id: owned(id),
            command: command.to_owned(),
            success: true,
            data,
            error: None,
            error_info: None,
        }
    }

    /// A command failed.
    pub fn failure(id: Option<&str>, command: &str, error: &str, info: Option<Json>) -> (r: Self)
        ensures
            r@ == (ResponseV {
                id: json::opt_str_view(id),
                command: command@,
                success: false,
                data: None,
                error: Some(error@),
                error_info: json::opt_json(info),
            }),
    {
        DaemonResponse {
            id: owned(id),
            command: command.to_owned(),
            success: false,
            data: None,
            error: Some(error.to_owned()),
            error_info: info,
        }
    }

    /// Reads an answer.
    pub fn from_value(value: &Json) -> (r: Option<Self>)
        ensures
            r is Some <==> is_response(value@),
            r matches Some(response) ==> response@ == response_of(value@),
    {
        if !value.str_is("type", "response") {
            return None;
        }
        if !is_optional_text(value, "id") || !is_optional_text(value, "error") {
            return None;
        }
        match (value.str_at("command"), value.bool_at("success")) {
            (Some(command), Some(success)) => Some(
                DaemonResponse {
                    id: owned(value.str_at("id")),
                    command: command.to_owned(),
                    success,
                    data: present_copy(value, "data"),
                    error: owned(value.str_at("error")),
                    error_info: present_copy(value, "errorInfo"),
                },
            ),
            _ => None,
        }
    }

    /// The document that carries this answer.
    pub fn to_value(&self) -> (r: Json)
        ensures
            r@ == response_value(self@),
    {
        let mut pairs = no_members();
        add_text(&mut pairs, "type", "response");
        add_text(&mut pairs, "command", &self.command);
        add_member(&mut pairs, "success", Json::Bool(self.success));
        add_opt_text(&mut pairs, "id", &self.id);
        add_opt(&mut pairs, "data", &self.data);
        add_opt_text(&mut pairs, "error", &self.error);
        add_opt(&mut pairs, "errorInfo", &self.error_info);
        object(pairs)
    }
}

fn is_optional_text(value: &Json, key: &str) -> (r: bool)
    ensures
        r == json::optional_text(value@, key@),
{
    match value.get(key) {
        None => true,
        Some(Json::Null) => true,
        Some(member) => member.as_str().is_some(),
    }
}

fn present_copy(value: &Json, key: &str) -> (r: Option<Json>)
    ensures
        json::opt_json(r) == json::present(value@, key@),
{
    match value.get(key) {
        None => None,
        Some(Json::Null) => None,
        Some(member) => Some(member.clone()),
    }
}

/// What a daemon says of itself when a connection opens.
#[derive(Debug, PartialEq)]
pub struct DaemonHello {
    pub protocol_name: String,
    pub protocol_version: u64,
    pub schema_revision: Option<u64>,
    pub server_capabilities: Vec<String>,
}

impl DaemonHello {
    /// Whether the daemon advertises the capability.
    pub fn supports(&self, capability: &str) -> (r: bool)
        ensures
            r == text::holds_text(self.server_capabilities@, capability@),
    {
        contains_text(&self.server_capabilities, capability)
    }

    /// Reads a hello: the protocol's name and version have to be there, entries
    /// of the capability list that are no text are left out.
    pub fn from_value(value: &Json) -> (r: Option<Self>)
        ensures
            r is Some <==> is_hello(value@),
            r matches Some(hello) ==> hello_of(hello, value@),
    {
        if !value.str_is("type", "daemon_hello") {
            return None;
        }
        let protocol = match value.get("protocol") {
            Some(protocol) => protocol,
            None => return None,
        };
        let (name, version) = match (protocol.str_at("name"), protocol.u64_at("version")) {
            (Some(name), Some(version)) => (name, version),
            _ => return None,
        };
        let capabilities: Vec<String> = match value.get("serverCapabilities") {
            Some(list) => texts_of(list),
            None => Vec::new(),
        };
        assert(value@.get("serverCapabilities"@) is None ==> text::texts(capabilities@)
            =~= Seq::<Seq<char>>::empty());
        Some(
            DaemonHello {
                protocol_name: name.to_owned(),
                protocol_version: version,
                schema_revision: value.u64_at("schemaRevision"),
                server_capabilities: capabilities,
            },
        )
    }
}

/// The document is a daemon's hello.
pub open spec fn is_hello(value: JsonV) -> bool {
    &&& value.str_at("type"@) == Some("daemon_hello"@)
    &&& value.get("protocol"@) is Some
    &&& value.get("protocol"@)->0.str_at("name"@) is Some
    &&& value.get("protocol"@)->0.u64_at("version"@) is Some
}

/// The texts among the values of an array, in order.
pub open spec fn texts_in(values: Seq<JsonV>) -> Seq<Seq<char>>
    decreases values.len(),
{
    if values.len() == 0 {
        Seq::empty()
    } else {
        match values.last() {
            JsonV::Str(s) => texts_in(values.drop_last()).push(s),
            _ => texts_in(values.drop_last()),
        }
    }
}

/// The texts that a document lists; nothing where it is no array.
pub open spec fn listed_texts(value: JsonV) -> Seq<Seq<char>> {
    match value {
        JsonV::Arr(values) => texts_in(values),
        _ => Seq::empty(),
    }
}

/// The hello says what the document says.
pub open spec fn hello_of(hello: DaemonHello, value: JsonV) -> bool {
    let protocol = value.get("protocol"@)->0;
    &&& protocol.str_at("name"@) == Some(hello.protocol_name@)
    &&& protocol.u64_at("version"@) == Some(hello.protocol_version)
    &&& hello.schema_revision == value.u64_at("schemaRevision"@)
    &&& text::texts(hello.server_capabilities@) == match value.get("serverCapabilities"@) {
        Some(list) => listed_texts(list),
        None => Seq::empty(),
    }
}

/// The texts that a document lists.
pub fn texts_of(value: &Json) -> (r: Vec<String>)
    ensures
        text::texts(r@) == listed_texts(value@),
{
    let mut out: Vec<String> = Vec::new();
    assert(text::texts(out@) =~= Seq::<Seq<char>>::empty());
    if let Some(values) = value.as_array() {
        let mut i: usize = 0;
        assert(json::items(values@).take(0) =~= Seq::empty());
        while i < values.len()
            invariant
                i <= values.len(),
                text::texts(out@) == texts_in(json::items(values@).take(i as int)),
            decreases values.len() - i,
        {
            let ghost next = json::items(values@).take(i + 1);
            assert(next.drop_last() =~= json::items(values@).take(i as int));
            assert(next.last() == values@[i as int]@);
            let ghost before = out@;
            if let Some(s) = values[i].as_str() {
                out.push(s.to_owned());
                assert(text::texts(out@) =~= text::texts(before).push(s@));
            }
            i += 1;
        }
        assert(json::items(values@).take(i as int) =~= json::items(values@));
    }
    out
}

/// A connection's socket was closed.
#[derive(Debug, Clone, PartialEq)]
pub struct DaemonSocketClosedError {
    pub socket_path: String,
    pub daemon_closing_reason: Option<String>,
    pub cause: Option<String>,
}

/// The text of a closed connection.
pub open spec fn socket_closed_text(
    path: Seq<char>,
    reason: Option<Seq<char>>,
    cause: Option<Seq<char>>,
) -> Seq<char> {
    let head = match reason {
        Some(reason) => "Daemon connection closed ("@ + reason + ")"@,
        None => "Daemon connection closed"@,
    };
    match cause {
        Some(cause) => head + ". Socket: "@ + path + ". Cause: "@ + cause,
        None => head + ". Socket: "@ + path,
    }
}

impl DaemonSocketClosedError {
    pub fn new(socket_path: &str, reason: Option<&str>, cause: Option<&str>) -> (r: Self)
        ensures
            r.socket_path@ == socket_path@,
            json::opt_view(r.daemon_closing_reason) == json::opt_str_view(reason),
            json::opt_view(r.cause) == json::opt_str_view(cause),
    {
        DaemonSocketClosedError {
            socket_path: socket_path.to_owned(),
            daemon_closing_reason: owned(reason),
            cause: owned(cause),
        }
    }

    /// The text shown for this error.
    pub fn message(&self) -> (r: String)
        ensures
            r@ == socket_closed_text(
                self.socket_path@,
                json::opt_view(self.daemon_closing_reason),
                json::opt_view(self.cause),
            ),
    {
        let head = match &self.daemon_closing_reason {
            Some(reason) => cat3("Daemon connection closed (", reason, ")"),
            None => "Daemon connection closed".to_owned(),
        };
        match &self.cause {
            Some(cause) => cat5(&head, ". Socket: ", &self.socket_path, ". Cause: ", cause),
            None => cat3(&head, ". Socket: ", &self.socket_path),
        }
    }
}

/// Why a request of a client failed.
#[derive(Debug, Clone, PartialEq)]
pub enum DaemonClientError {
    Message(String),
    CapabilityUnavailable(String),
    SocketClosed(DaemonSocketClosedError),
}

/// What a client error says.
pub enum ClientErrorV {
    Message(Seq<char>),
    CapabilityUnavailable(Seq<char>),
    SocketClosed(Seq<char>, Option<Seq<char>>, Option<Seq<char>>),
}

impl View for DaemonClientError {
    type V = ClientErrorV;

    open spec fn view(&self) -> ClientErrorV {
        match self {
            DaemonClientError::Message(m) => ClientErrorV::Message(m@),
            DaemonClientError::CapabilityUnavailable(m) => ClientErrorV::CapabilityUnavailable(m@),
            DaemonClientError::SocketClosed(e) => ClientErrorV::SocketClosed(
                e.socket_path@,
                json::opt_view(e.daemon_closing_reason),
                json::opt_view(e.cause),
            ),
        }
    }
}

/// The text of a client error.
pub open spec fn client_error_text(error: ClientErrorV) -> Seq<char> {
    match error {
        ClientErrorV::Message(m) => m,
        ClientErrorV::CapabilityUnavailable(m) => m,
        ClientErrorV::SocketClosed(path, reason, cause) => socket_closed_text(path, reason, cause),
    }
}

impl DaemonClientError {
    /// The text shown for this error.
    pub fn message(&self) -> (r: String)
        ensures
            r@ == client_error_text(self@),
    {
        match self {
            DaemonClientError::Message(m) => m.clone(),
            DaemonClientError::CapabilityUnavailable(m) => m.clone(),
            DaemonClientError::SocketClosed(e) => e.message(),
        }
    }

    /// Whether the daemon lacks a capability that the request needs.
    pub fn is_capability_unavailable(&self) -> (r: bool)
        ensures
            r == (self@ is CapabilityUnavailable),
    {
        matches!(self, DaemonClientError::CapabilityUnavailable(_))
    }
}

/// Why the daemon closed the connection, where the error tells.
pub fn get_daemon_socket_close_reason(error: &DaemonClientError) -> (r: Option<String>)
    ensures
        json::opt_view(r) == match error@ {
            ClientErrorV::SocketClosed(_, reason, _) => reason,
            _ => None,
        },
{
    match error {
        DaemonClientError::SocketClosed(e) => e.daemon_closing_reason.clone(),
        _ => None,
    }
}

} // verus!
