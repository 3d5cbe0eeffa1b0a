//! The journal of mutating commands at the supervisor's boundary.
//!
//! A received record is durable before a mutating command is dispatched, so a
//! command without a result after a crash is uncertain and is never replayed.
//! The journal decides what is written; its caller owns the file.

use vstd::prelude::*;

use crate::clock;
use crate::clock::now_iso;
use crate::json;
use crate::json::{
    Json, JsonV, Num, add_member, add_text, array, no_members, object, parse_json, print_json,
};
use crate::protocol;
use crate::protocol::{DaemonResponse, ResponseV};
use crate::saved_session_info;
use crate::saved_session_info::DaemonSavedSessionInfo;
use crate::text;
use crate::text::{cat2, from_chars, to_chars};
use crate::text_map;
use crate::text_map::TextMap;

verus! {

/// The journal is rewritten once it holds this many records.
pub const COMPACT_AFTER_RECORDS: usize = 4096;

/// A command was received.
#[derive(Debug, PartialEq)]
pub struct ReceivedRecord {
    pub version: u32,
    pub type_: String,
    pub key: String,
    pub client_id: String,
    pub command_id: String,
    pub command_type: String,
    pub recorded_at: String,
}

/// A command was answered.
#[derive(Debug, PartialEq)]
pub struct ResultRecord {
    pub version: u32,
    pub type_: String,
    pub key: String,
    pub response: DaemonResponse,
    pub recorded_at: String,
}

/// A client has seen the answer to its command.
#[derive(Debug, PartialEq)]
pub struct AcknowledgedRecord {
    pub version: u32,
    pub type_: String,
    pub key: String,
    pub recorded_at: String,
}

/// One record of the journal.
#[derive(Debug, PartialEq)]
pub enum JournalRecord {
    Received(ReceivedRecord),
    Result(ResultRecord),
    Acknowledged(AcknowledgedRecord),
}

/// What a received record says.
pub struct ReceivedV {
    pub key: Seq<char>,
    pub client_id: Seq<char>,
    pub command_id: Seq<char>,
    pub command_type: Seq<char>,
    pub recorded_at: Seq<char>,
}

impl View for ReceivedRecord {
    type V = ReceivedV;

    open spec fn view(&self) -> ReceivedV {
        ReceivedV {
            key: self.key@,
            client_id: self.client_id@,
            command_id: self.command_id@,
            command_type: self.command_type@,
            recorded_at: self.recorded_at@,
        }
    }
}

impl Clone for ReceivedRecord {
    fn clone(&self) -> (r: Self)
        ensures
            r == *self,
    {
        ReceivedRecord {
            version: self.version,
            type_: self.type_.clone(),
            key: self.key.clone(),
            client_id: self.client_id.clone(),
            command_id: self.command_id.clone(),
            command_type: self.command_type.clone(),
            recorded_at: self.recorded_at.clone(),
        }
    }
}

/// The members that every record begins with.
pub open spec fn record_head(version: u32, type_: Seq<char>, key: Seq<char>) -> Seq<
    (Seq<char>, JsonV),
> {
    Seq::empty().push(("version"@, JsonV::Num(Num::Unsigned(version as u64)))).push(
        ("type"@, JsonV::Str(type_)),
    ).push(("key"@, JsonV::Str(key)))
}

/// The document of a received record.
pub open spec fn received_value(version: u32, type_: Seq<char>, record: ReceivedV) -> JsonV {
    JsonV::Obj(
        record_head(version, type_, record.key).push(
            ("clientId"@, JsonV::Str(record.client_id)),
        ).push(("commandId"@, JsonV::Str(record.command_id))).push(
            ("commandType"@, JsonV::Str(record.command_type)),
        ).push(("recordedAt"@, JsonV::Str(record.recorded_at))),
    )
}

/// The document of a result record.
pub open spec fn result_value(
    version: u32,
    type_: Seq<char>,
    key: Seq<char>,
    response: ResponseV,
    recorded_at: Seq<char>,
) -> JsonV {
    JsonV::Obj(
        record_head(version, type_, key).push(
            ("response"@, protocol::response_value(response)),
        ).push(("recordedAt"@, JsonV::Str(recorded_at))),
    )
}

/// The document of an acknowledged record.
pub open spec fn acknowledged_value(
    version: u32,
    type_: Seq<char>,
    key: Seq<char>,
    recorded_at: Seq<char>,
) -> JsonV {
    JsonV::Obj(
        record_head(version, type_, key).push(("recordedAt"@, JsonV::Str(recorded_at))),
    )
}

/// The document of a record.
pub open spec fn record_value(record: JournalRecord) -> JsonV {
    match record {
        JournalRecord::Received(r) => received_value(r.version, r.type_@, r@),
        JournalRecord::Result(r) => result_value(
            r.version,
            r.type_@,
            r.key@,
            r.response@,
            r.recorded_at@,
        ),
        JournalRecord::Acknowledged(r) => acknowledged_value(
            r.version,
            r.type_@,
            r.key@,
            r.recorded_at@,
        ),
    }
}

fn head(version: u32, type_: &str, key: &str) -> (r: Vec<(String, Json)>)
    ensures
        json::members(r@) == record_head(version, type_@, key@),
{
    let mut pairs = no_members();
    add_member(&mut pairs, "version", Json::Number(Num::Unsigned(version as u64)));
    add_text(&mut pairs, "type", type_);
    add_text(&mut pairs, "key", key);
    pairs
}

impl JournalRecord {
    pub fn version(&self) -> (r: u32)
        ensures
            r == match *self {
                JournalRecord::Received(record) => record.version,
                JournalRecord::Result(record) => record.version,
                JournalRecord::Acknowledged(record) => record.version,
            },
    {
        match self {
            JournalRecord::Received(record) => record.version,
            JournalRecord::Result(record) => record.version,
            JournalRecord::Acknowledged(record) => record.version,
        }
    }

    pub fn key(&self) -> (r: &str)
        ensures
            r@ == match *self {
                JournalRecord::Received(record) => record.key@,
                JournalRecord::Result(record) => record.key@,
                JournalRecord::Acknowledged(record) => record.key@,
            },
    {
        match self {
            JournalRecord::Received(record) => record.key.as_str(),
            JournalRecord::Result(record) => record.key.as_str(),
            JournalRecord::Acknowledged(record) => record.key.as_str(),
        }
    }

    pub fn type_(&self) -> (r: &str)
        ensures
            r@ == match *self {
                JournalRecord::Received(record) => record.type_@,
                JournalRecord::Result(record) => record.type_@,
                JournalRecord::Acknowledged(record) => record.type_@,
            },
    {
        match self {
            JournalRecord::Received(record) => record.type_.as_str(),
            JournalRecord::Result(record) => record.type_.as_str(),
            JournalRecord::Acknowledged(record) => record.type_.as_str(),
        }
    }

    /// The document of this record.
    pub fn to_value(&self) -> (r: Json)
        ensures
            r@ == record_value(*self),
    {
        match self {
            JournalRecord::Received(record) => {
                let mut pairs = head(record.version, &record.type_, &record.key);
                add_text(&mut pairs, "clientId", &record.client_id);
                add_text(&mut pairs, "commandId", &record.command_id);
                add_text(&mut pairs, "commandType", &record.command_type);
                add_text(&mut pairs, "recordedAt", &record.recorded_at);
                object(pairs)
            },
            JournalRecord::Result(record) => {
                let mut pairs = head(record.version, &record.type_, &record.key);
                add_member(&mut pairs, "response", record.response.to_value());
                add_text(&mut pairs, "recordedAt", &record.recorded_at);
                object(pairs)
            },
            JournalRecord::Acknowledged(record) => {
                let mut pairs = head(record.version, &record.type_, &record.key);
                add_text(&mut pairs, "recordedAt", &record.recorded_at);
                object(pairs)
            },
        }
    }
}

/// A command that was received, and its answer once there is one.
#[derive(Debug, PartialEq)]
pub struct JournalEntry {
    pub received: ReceivedRecord,
    pub response: Option<DaemonResponse>,
}

/// What an entry says.
pub struct EntryV {
    pub received: ReceivedV,
    pub response: Option<ResponseV>,
}

impl View for JournalEntry {
    type V = EntryV;

    open spec fn view(&self) -> EntryV {
        EntryV {
            received: self.received@,
            response: match self.response {
                Some(response) => Some(response@),
                None => None,
            },
        }
    }
}

/// How a command stands when it arrives.
#[derive(Debug, PartialEq)]
pub enum CommandJournalBeginResult {
    New,
    Pending,
    Complete(DaemonResponse),
}

/// How a command stands.
pub enum Standing {
    New,
    Pending,
    Complete(ResponseV),
}

impl View for CommandJournalBeginResult {
    type V = Standing;

    open spec fn view(&self) -> Standing {
        match self {
            CommandJournalBeginResult::New => Standing::New,
            CommandJournalBeginResult::Pending => Standing::Pending,
            CommandJournalBeginResult::Complete(response) => Standing::Complete(response@),
        }
    }
}

/// The receipt of a new command, and the line that says so.
#[derive(Debug)]
pub struct Receipt {
    pub received: ReceivedRecord,
    pub line: String,
}

impl Receipt {
    /// The line is that of the record.
    pub open spec fn wf(self) -> bool {
        &&& self.received.version == 1
        &&& self.received.type_@ == "received"@
        &&& is_line_of(self.line@, received_value(1, "received"@, self.received@))
    }
}

/// The answer to a command, and the line that says so.
#[derive(Debug)]
pub struct Answer {
    pub key: String,
    pub response: DaemonResponse,
    pub line: String,
}

/// The end of a command, and the line that says so.
#[derive(Debug)]
pub struct Acknowledgement {
    pub key: String,
    pub line: String,
}

/// What becomes of a command that arrives.
#[derive(Debug)]
pub enum Reception {
    /// It came before.
    Known(CommandJournalBeginResult),
    /// It is new, and this is to be written before it is run.
    Write(Receipt),
}

/// What the journal knows: the commands that are not acknowledged, and how many
/// records its file holds.
pub struct JournalV {
    pub entries: Map<Seq<char>, EntryV>,
    pub count: nat,
}

/// How the command under `key` stands.
pub open spec fn standing(entries: Map<Seq<char>, EntryV>, key: Seq<char>) -> Standing {
    if !entries.contains_key(key) {
        Standing::New
    } else {
        match entries[key].response {
            Some(response) => Standing::Complete(response),
            None => Standing::Pending,
        }
    }
}

/// The document whose text is the key of a command.
pub open spec fn key_value(client_id: Seq<char>, command_id: Seq<char>) -> JsonV {
    JsonV::Arr(seq![JsonV::Str(client_id), JsonV::Str(command_id)])
}

/// The key of a command: the JSON text of client id and command id.
pub open spec fn command_key(client_id: Seq<char>, command_id: Seq<char>) -> Seq<char> {
    json::printed_json(key_value(client_id, command_id))
}

proof fn key_value_fits(client_id: Seq<char>, command_id: Seq<char>)
    ensures
        json::reads_back(key_value(client_id, command_id)),
{
    let v = key_value(client_id, command_id);
    assert(v->Arr_0.len() == 2);
    assert forall|i: int| 0 <= i < 2 implies json::sound(#[trigger] v->Arr_0[i]) && json::integral(
        v->Arr_0[i],
    ) && json::nested_within(v->Arr_0[i], (json::MAX_NESTING - 1) as nat) by {
        assert(v->Arr_0[i] is Str);
    }
    assert(json::sound(v));
    assert(json::integral(v));
    assert(json::nested_within(v, json::MAX_NESTING as nat));
}

/// The key under which a command is journalled.
pub fn create_command_idempotency_key(client_id: &str, command_id: &str) -> (r: String)
    ensures
        r@ == command_key(client_id@, command_id@),
        json::parses_to(
            vstd::utf8::encode_utf8(r@),
            key_value(client_id@, command_id@),
        ),
{
    let mut parts: Vec<Json> = Vec::new();
    parts.push(json::text(client_id));
    parts.push(json::text(command_id));
    let value = array(parts);
    assert(value@->Arr_0 =~= key_value(client_id@, command_id@)->Arr_0);
    proof {
        key_value_fits(client_id@, command_id@);
    }
    print_json(&value)
}

/// Two commands that differ in their client or in their own id are journalled
/// under different keys.
pub proof fn idempotency_keys_differ(
    key: Seq<char>,
    client_id: Seq<char>,
    command_id: Seq<char>,
    other_key: Seq<char>,
    other_client_id: Seq<char>,
    other_command_id: Seq<char>,
)
    requires
        json::parses_to(vstd::utf8::encode_utf8(key), key_value(client_id, command_id)),
        json::parses_to(
            vstd::utf8::encode_utf8(other_key),
            key_value(other_client_id, other_command_id),
        ),
        client_id != other_client_id || command_id != other_command_id,
    ensures
        key != other_key,
{
    let a = key_value(client_id, command_id);
    let b = key_value(other_client_id, other_command_id);
    assert(a->Arr_0[0] == JsonV::Str(client_id) && a->Arr_0[1] == JsonV::Str(command_id));
    assert(b->Arr_0[0] == JsonV::Str(other_client_id) && b->Arr_0[1] == JsonV::Str(
        other_command_id,
    ));
}

/// The received record in a document, where all of its fields are there and the
/// ids and the command type are not empty.
pub open spec fn received_of(value: JsonV, key: Seq<char>) -> Option<ReceivedV> {
    match (
        value.str_at("clientId"@),
        value.str_at("commandId"@),
        value.str_at("commandType"@),
        value.str_at("recordedAt"@),
    ) {
        (Some(client_id), Some(command_id), Some(command_type), Some(recorded_at)) => if client_id.len()
            > 0 && command_id.len() > 0 && command_type.len() > 0 {
            Some(ReceivedV { key, client_id, command_id, command_type, recorded_at })
        } else {
            None
        },
        _ => None,
    }
}

/// The answer in the document of a result record.
pub open spec fn result_of(value: JsonV) -> Option<ResponseV> {
    match (value.get("response"@), value.str_at("recordedAt"@)) {
        (Some(response), Some(_)) => if protocol::is_response(response) {
            Some(protocol::response_of(response))
        } else {
            None
        },
        _ => None,
    }
}

/// The entries after the record in `value` was replayed.
pub open spec fn replay_record(
    entries: Map<Seq<char>, EntryV>,
    value: JsonV,
    key: Seq<char>,
) -> Map<Seq<char>, EntryV> {
    let kind = value.str_at("type"@);
    if kind == Some("received"@) {
        match received_of(value, key) {
            Some(received) => entries.insert(key, EntryV { received, response: None }),
            None => entries,
        }
    } else if kind == Some("acknowledged"@) {
        entries.remove(key)
    } else if kind == Some("result"@) {
        match result_of(value) {
            Some(response) => if entries.contains_key(key) {
                entries.insert(
                    key,
                    EntryV { received: entries[key].received, response: Some(response) },
                )
            } else {
                entries
            },
            None => entries,
        }
    } else {
        entries
    }
}

/// What the journal knows after one more line of its file. Lines that are no
/// record of this version are passed over.
pub open spec fn replay_line(journal: JournalV, line: Seq<char>) -> JournalV {
    if line.len() == 0 {
        journal
    } else {
        match json::parsed_json(vstd::utf8::encode_utf8(line)) {
            Err(_) => journal,
            Ok(value) => match value.str_at("key"@) {
                Some(key) if value.u64_at("version"@) == Some(1u64) => JournalV {
                    entries: replay_record(journal.entries, value, key),
                    count: journal.count + 1,
                },
                _ => journal,
            },
        }
    }
}

/// What the journal knows after these lines of its file.
pub open spec fn replay_lines(all: Seq<Seq<char>>) -> JournalV
    decreases all.len(),
{
    if all.len() == 0 {
        JournalV { entries: Map::empty(), count: 0 }
    } else {
        replay_line(replay_lines(all.drop_last()), all.last())
    }
}

/// What the journal knows after its file was read.
pub open spec fn replay(contents: Seq<char>) -> JournalV {
    replay_lines(text::lines(contents))
}

/// The file ends with a complete line.
pub open spec fn settled(contents: Seq<char>) -> bool {
    contents.len() == 0 || contents.last() == '\n'
}

/// A line of the file that holds a document.
pub open spec fn is_line_of(line: Seq<char>, value: JsonV) -> bool {
    &&& line.len() > 0
    &&& !line.contains('\n')
    &&& json::parses_to(vstd::utf8::encode_utf8(line), value)
}

/// The line that is written for a document: the text that `serde_json` prints, which
/// is read back as the document wherever `serde_json` reads such a text back.
pub open spec fn is_line_for(line: Seq<char>, value: JsonV) -> bool {
    &&& line.len() > 0
    &&& !line.contains('\n')
    &&& json::holdable(value) ==> line == json::printed_json(json::held(value))
    &&& json::reads_back(value) ==> is_line_of(line, value)
}

/// What is printed for the document is read back as the document.
pub open spec fn is_kept(value: JsonV) -> bool {
    json::reads_back(value) || (json::sound(value) && json::parses_to(
        vstd::utf8::encode_utf8(json::printed_json(value)),
        value,
    ))
}

proof fn kept_lines_are_read(line: Seq<char>, value: JsonV)
    requires
        is_line_for(line, value),
        is_kept(value),
    ensures
        is_line_of(line, value),
{
    if json::sound(value) {
        json::sound_is_held(value);
    }
}

proof fn settled_last_line(contents: Seq<char>)
    requires
        settled(contents),
    ensures
        text::lines(contents).len() > 0,
        text::lines(contents).last() == Seq::<char>::empty(),
{
    text::lines_nonempty(contents);
}

proof fn lines_append(contents: Seq<char>, line: Seq<char>)
    requires
        !line.contains('\n'),
    ensures
        text::lines(contents).len() > 0,
        text::lines(contents + line) == text::lines(contents).drop_last().push(
            text::lines(contents).last() + line,
        ),
    decreases line.len(),
{
    text::lines_nonempty(contents);
    if line.len() == 0 {
        assert(contents + line =~= contents);
        assert(text::lines(contents).last() + line =~= text::lines(contents).last());
        assert(text::lines(contents).drop_last().push(text::lines(contents).last()) =~= text::lines(contents));
    } else {
        let less = line.drop_last();
        assert(!less.contains('\n')) by {
            if less.contains('\n') {
                let i = choose|i: int| 0 <= i < less.len() && less[i] == '\n';
                assert(line[i] == '\n');
            }
        }
        lines_append(contents, less);
        assert((contents + line).drop_last() =~= contents + less);
        assert((contents + line).last() == line.last());
        assert(line[line.len() - 1] != '\n');
        let before = text::lines(contents).drop_last().push(text::lines(contents).last() + less);
        assert(before.drop_last() =~= text::lines(contents).drop_last());
        assert((text::lines(contents).last() + less).push(line.last()) =~= text::lines(contents).last() + line);
    }
}

/// Appending a complete line to a settled file replays that line on top of what
/// the file said before.
pub proof fn appended_line_is_replayed(contents: Seq<char>, line: Seq<char>)
    requires
        settled(contents),
        !line.contains('\n'),
    ensures
        replay(contents + line + "\n"@) == replay_line(replay(contents), line),
        settled(contents + line + "\n"@),
{
    reveal_strlit("\n");
    lines_append(contents, line);
    settled_last_line(contents);
    let whole = contents + line + "\n"@;
    assert(whole.drop_last() =~= contents + line);
    assert(whole.last() == '\n');
    assert(Seq::<char>::empty() + line =~= line);
    let before = text::lines(contents).drop_last();
    assert(text::lines(contents + line) == before.push(line));
    assert(text::lines(whole) == before.push(line).push(Seq::empty()));
    assert(text::lines(whole).drop_last() =~= before.push(line));
    assert(before.push(line).drop_last() =~= before);
    assert(replay_lines(before.push(line)) == replay_line(replay_lines(before), line));
    assert(replay(contents) == replay_lines(before));
}

/// A last line that a crash cut off, so that it is no JSON, changes nothing.
pub proof fn truncated_line_is_ignored(contents: Seq<char>, line: Seq<char>)
    requires
        settled(contents),
        !line.contains('\n'),
        json::parsed_json(vstd::utf8::encode_utf8(line)) is Err,
    ensures
        replay(contents + line) == replay(contents),
{
    lines_append(contents, line);
    settled_last_line(contents);
    assert(Seq::<char>::empty() + line =~= line);
    let before = text::lines(contents).drop_last();
    assert(text::lines(contents + line).drop_last() =~= before);
}

proof fn record_keys_differ()
    ensures
        "version"@ != "type"@,
        "version"@ != "key"@,
        "version"@ != "clientId"@,
        "version"@ != "commandId"@,
        "version"@ != "commandType"@,
        "version"@ != "recordedAt"@,
        "version"@ != "response"@,
        "type"@ != "key"@,
        "type"@ != "clientId"@,
        "type"@ != "commandId"@,
        "type"@ != "commandType"@,
        "type"@ != "recordedAt"@,
        "type"@ != "response"@,
        "key"@ != "clientId"@,
        "key"@ != "commandId"@,
        "key"@ != "commandType"@,
        "key"@ != "recordedAt"@,
        "key"@ != "response"@,
        "clientId"@ != "commandId"@,
        "clientId"@ != "commandType"@,
        "clientId"@ != "recordedAt"@,
        "commandId"@ != "commandType"@,
        "commandId"@ != "recordedAt"@,
        "commandType"@ != "recordedAt"@,
        "response"@ != "recordedAt"@,
        "received"@ != "acknowledged"@,
        "received"@ != "result"@,
        "acknowledged"@ != "result"@,
{
    reveal_strlit("version");
    reveal_strlit("type");
    reveal_strlit("key");
    reveal_strlit("clientId");
    reveal_strlit("commandId");
    reveal_strlit("commandType");
    reveal_strlit("recordedAt");
    reveal_strlit("response");
    reveal_strlit("received");
    reveal_strlit("acknowledged");
    reveal_strlit("result");
    assert("version"@[0] == 'v' && "version"@.len() == 7);
    assert("type"@.len() == 4);
    assert("key"@.len() == 3);
    assert("clientId"@[1] == 'l' && "clientId"@.len() == 8);
    assert("commandId"@.len() == 9);
    assert("commandType"@.len() == 11);
    assert("recordedAt"@.len() == 10);
    assert("response"@[1] == 'e' && "response"@.len() == 8);
    assert("received"@.len() == 8);
    assert("acknowledged"@.len() == 12);
    assert("result"@.len() == 6);
}

/// A received command that was appended to the file is known, and pending, after
/// the file is read again.
pub proof fn receipt_survives_a_reload(contents: Seq<char>, line: Seq<char>, received: ReceivedV)
    requires
        settled(contents),
        is_line_of(line, received_value(1, "received"@, received)),
        received.client_id.len() > 0,
        received.command_id.len() > 0,
        received.command_type.len() > 0,
    ensures
        replay(contents + line + "\n"@) == (JournalV {
            entries: replay(contents).entries.insert(
                received.key,
                EntryV { received, response: None },
            ),
            count: replay(contents).count + 1,
        }),
        standing(replay(contents + line + "\n"@).entries, received.key) == Standing::Pending,
{
    broadcast use {json::lookup_push, json::lookup_empty};

    record_keys_differ();
    appended_line_is_replayed(contents, line);
}

/// An answer that was appended to the file is known after the file is read again.
pub proof fn result_survives_a_reload(
    contents: Seq<char>,
    line: Seq<char>,
    key: Seq<char>,
    response: ResponseV,
    recorded_at: Seq<char>,
)
    requires
        settled(contents),
        is_line_of(line, result_value(1, "result"@, key, response, recorded_at)),
        protocol::says_something(response),
        replay(contents).entries.contains_key(key),
    ensures
        replay(contents + line + "\n"@) == (JournalV {
            entries: replay(contents).entries.insert(
                key,
                EntryV {
                    received: replay(contents).entries[key].received,
                    response: Some(response),
                },
            ),
            count: replay(contents).count + 1,
        }),
        standing(replay(contents + line + "\n"@).entries, key) == Standing::Complete(response),
{
    broadcast use {json::lookup_push, json::lookup_empty};

    record_keys_differ();
    protocol::response_is_read_back(response);
    appended_line_is_replayed(contents, line);
}

/// A command whose acknowledgement was appended to the file is forgotten after
/// the file is read again.
pub proof fn acknowledgement_survives_a_reload(
    contents: Seq<char>,
    line: Seq<char>,
    key: Seq<char>,
    recorded_at: Seq<char>,
)
    requires
        settled(contents),
        is_line_of(line, acknowledged_value(1, "acknowledged"@, key, recorded_at)),
    ensures
        replay(contents + line + "\n"@) == (JournalV {
            entries: replay(contents).entries.remove(key),
            count: replay(contents).count + 1,
        }),
        standing(replay(contents + line + "\n"@).entries, key) == Standing::New,
{
    broadcast use {json::lookup_push, json::lookup_empty};

    record_keys_differ();
    appended_line_is_replayed(contents, line);
}

/// The documents of received and acknowledged records read back as themselves,
/// and so does that of a result whose answer is not nested too deep.
pub proof fn records_read_back(record: JournalRecord)
    requires
        record matches JournalRecord::Result(result) ==> json::fits(
            protocol::response_value(result.response@),
            (json::MAX_NESTING - 1) as nat,
        ),
    ensures
        json::reads_back(record_value(record)),
{
    match record {
        JournalRecord::Received(r) => received_reads_back(r.version, r.type_@, r@),
        JournalRecord::Result(r) => result_reads_back(
            r.version,
            r.type_@,
            r.key@,
            r.response@,
            r.recorded_at@,
        ),
        JournalRecord::Acknowledged(r) => acknowledged_reads_back(
            r.version,
            r.type_@,
            r.key@,
            r.recorded_at@,
        ),
    }
}

proof fn head_fits(version: u32, type_: Seq<char>, key: Seq<char>)
    ensures
        json::fits(JsonV::Obj(record_head(version, type_, key)), json::MAX_NESTING as nat),
{
    broadcast use {json::lookup_push, json::lookup_empty};

    record_keys_differ();
    let limit = json::MAX_NESTING as nat;
    let e = Seq::<(Seq<char>, JsonV)>::empty();
    json::fits_empty(limit);
    json::fits_push(e, "version"@, JsonV::Num(Num::Unsigned(version as u64)), limit);
    let a = e.push(("version"@, JsonV::Num(Num::Unsigned(version as u64))));
    json::fits_push(a, "type"@, JsonV::Str(type_), limit);
    let b = a.push(("type"@, JsonV::Str(type_)));
    json::fits_push(b, "key"@, JsonV::Str(key), limit);
}

proof fn received_reads_back(version: u32, type_: Seq<char>, r: ReceivedV)
    ensures
        json::reads_back(received_value(version, type_, r)),
{
    broadcast use {json::lookup_push, json::lookup_empty};

    record_keys_differ();
    head_fits(version, type_, r.key);
    let limit = json::MAX_NESTING as nat;
    let c = record_head(version, type_, r.key);
    json::fits_push(c, "clientId"@, JsonV::Str(r.client_id), limit);
    let d = c.push(("clientId"@, JsonV::Str(r.client_id)));
    json::fits_push(d, "commandId"@, JsonV::Str(r.command_id), limit);
    let f = d.push(("commandId"@, JsonV::Str(r.command_id)));
    json::fits_push(f, "commandType"@, JsonV::Str(r.command_type), limit);
    let g = f.push(("commandType"@, JsonV::Str(r.command_type)));
    json::fits_push(g, "recordedAt"@, JsonV::Str(r.recorded_at), limit);
}

proof fn result_reads_back(
    version: u32,
    type_: Seq<char>,
    key: Seq<char>,
    response: ResponseV,
    recorded_at: Seq<char>,
)
    requires
        json::fits(protocol::response_value(response), (json::MAX_NESTING - 1) as nat),
    ensures
        json::reads_back(result_value(version, type_, key, response, recorded_at)),
{
    broadcast use {json::lookup_push, json::lookup_empty};

    record_keys_differ();
    head_fits(version, type_, key);
    let limit = json::MAX_NESTING as nat;
    let c = record_head(version, type_, key);
    json::fits_push(c, "response"@, protocol::response_value(response), limit);
    let d = c.push(("response"@, protocol::response_value(response)));
    json::fits_push(d, "recordedAt"@, JsonV::Str(recorded_at), limit);
}

proof fn acknowledged_reads_back(
    version: u32,
    type_: Seq<char>,
    key: Seq<char>,
    recorded_at: Seq<char>,
)
    ensures
        json::reads_back(acknowledged_value(version, type_, key, recorded_at)),
{
    broadcast use {json::lookup_push, json::lookup_empty};

    record_keys_differ();
    head_fits(version, type_, key);
    json::fits_push(
        record_head(version, type_, key),
        "recordedAt"@,
        JsonV::Str(recorded_at),
        json::MAX_NESTING as nat,
    );
}

/// The line of the file that holds a record.
pub fn record_line(record: &JournalRecord) -> (r: String)
    ensures
        is_line_for(r@, record_value(*record)),
{
    let value = record.to_value();
    print_json(&value)
}


fn read_received(value: &Json, key: &str) -> (r: Option<ReceivedRecord>)
    ensures
        match r {
            Some(received) => received_of(value@, key@) == Some(received@) && received.version == 1
                && received.type_@ == "received"@,
            None => received_of(value@, key@) is None,
        },
{
    match (
        value.str_at("clientId"),
        value.str_at("commandId"),
        value.str_at("commandType"),
        value.str_at("recordedAt"),
    ) {
        (Some(client_id), Some(command_id), Some(command_type), Some(recorded_at)) => {
            if client_id.is_empty() || command_id.is_empty() || command_type.is_empty() {
                return None;
            }
            Some(
                ReceivedRecord {
                    version: 1,
                    type_: "received".to_owned(),
                    key: key.to_owned(),
                    client_id: client_id.to_owned(),
                    command_id: command_id.to_owned(),
                    command_type: command_type.to_owned(),
                    recorded_at: recorded_at.to_owned(),
                },
            )
        },
        _ => None,
    }
}

fn read_result(value: &Json) -> (r: Option<DaemonResponse>)
    ensures
        match r {
            Some(response) => result_of(value@) == Some(response@),
            None => result_of(value@) is None,
        },
{
    match (value.get("response"), value.str_at("recordedAt")) {
        (Some(response), Some(_)) => DaemonResponse::from_value(response),
        _ => None,
    }
}

/// The journal of the commands that are not acknowledged.
#[derive(Debug, PartialEq)]
pub struct CommandRecoveryJournal {
    pub entries: TextMap<JournalEntry>,
    pub record_count: usize,
}

impl View for CommandRecoveryJournal {
    type V = JournalV;

    open spec fn view(&self) -> JournalV {
        JournalV {
            entries: self.entries@.map_values(|entry: JournalEntry| entry@),
            count: self.record_count as nat,
        }
    }
}

/// An entry holds the received record of its own key.
pub open spec fn entry_wf(key: Seq<char>, entry: JournalEntry) -> bool {
    &&& entry.received.version == 1
    &&& entry.received.type_@ == "received"@
    &&& entry.received.key@ == key
}

/// The key and the content of each entry, in order.
pub open spec fn entry_views(entries: Seq<(String, JournalEntry)>) -> Seq<(Seq<char>, EntryV)> {
    Seq::new(entries.len(), |i: int| (entries[i].0@, entries[i].1@))
}

/// The records that a rewritten journal holds for these entries.
pub open spec fn compact_values(entries: Seq<(Seq<char>, EntryV)>, recorded_at: Seq<char>) -> Seq<
    JsonV,
>
    decreases entries.len(),
{
    if entries.len() == 0 {
        Seq::empty()
    } else {
        let before = compact_values(entries.drop_last(), recorded_at);
        let (key, entry) = entries.last();
        let with_receipt = before.push(received_value(1, "received"@, entry.received));
        match entry.response {
            Some(response) => with_receipt.push(
                result_value(1, "result"@, key, response, recorded_at),
            ),
            None => with_receipt,
        }
    }
}

/// The file that holds these lines.
pub open spec fn file_of(all: Seq<Seq<char>>) -> Seq<char> {
    text::joined(all, "\n"@) + "\n"@
}

/// What the journal knows after one more record.
pub open spec fn replay_value(journal: JournalV, value: JsonV) -> JournalV {
    match value.str_at("key"@) {
        Some(key) if value.u64_at("version"@) == Some(1u64) => JournalV {
            entries: replay_record(journal.entries, value, key),
            count: journal.count + 1,
        },
        _ => journal,
    }
}

/// What the journal knows after these records.
pub open spec fn replay_values(values: Seq<JsonV>) -> JournalV
    decreases values.len(),
{
    if values.len() == 0 {
        JournalV { entries: Map::empty(), count: 0 }
    } else {
        replay_value(replay_values(values.drop_last()), values.last())
    }
}

/// The entries by their keys.
pub open spec fn entries_map(entries: Seq<(Seq<char>, EntryV)>) -> Map<Seq<char>, EntryV>
    decreases entries.len(),
{
    if entries.len() == 0 {
        Map::empty()
    } else {
        entries_map(entries.drop_last()).insert(entries.last().0, entries.last().1)
    }
}

/// The entry can be read back from a rewritten journal: its ids and its command
/// type are not empty, and its answer says something.
pub open spec fn durable(key: Seq<char>, entry: EntryV) -> bool {
    &&& entry.received.key == key
    &&& entry.received.client_id.len() > 0
    &&& entry.received.command_id.len() > 0
    &&& entry.received.command_type.len() > 0
    &&& entry.response matches Some(response) ==> protocol::says_something(response)
}

proof fn compacted_entries(entries: Seq<(Seq<char>, EntryV)>, recorded_at: Seq<char>)
    requires
        forall|i: int|
            0 <= i < entries.len() ==> durable((#[trigger] entries[i]).0, entries[i].1),
    ensures
        replay_values(compact_values(entries, recorded_at)) == (JournalV {
            entries: entries_map(entries),
            count: compact_values(entries, recorded_at).len(),
        }),
    decreases entries.len(),
{
    broadcast use {json::lookup_push, json::lookup_empty};

    if entries.len() > 0 {
        let less = entries.drop_last();
        assert forall|i: int| 0 <= i < less.len() implies durable(
            (#[trigger] less[i]).0,
            less[i].1,
        ) by {
            assert(less[i] == entries[i]);
        }
        compacted_entries(less, recorded_at);
        record_keys_differ();
        let before = compact_values(less, recorded_at);
        let (key, entry) = entries.last();
        assert(durable(entries[entries.len() - 1].0, entries[entries.len() - 1].1));
        let receipt = received_value(1, "received"@, entry.received);
        let with_receipt = before.push(receipt);
        assert(with_receipt.drop_last() =~= before);
        let after_receipt = replay_values(with_receipt);
        assert(after_receipt.entries == entries_map(less).insert(
            key,
            EntryV { received: entry.received, response: None },
        ));
        match entry.response {
            Some(response) => {
                let result = result_value(1, "result"@, key, response, recorded_at);
                assert(with_receipt.push(result).drop_last() =~= with_receipt);
                protocol::response_is_read_back(response);
                let after = replay_values(with_receipt.push(result));
                assert(after.entries =~= entries_map(entries));
            },
            None => {
                assert(after_receipt.entries =~= entries_map(entries));
            },
        }
    }
}

proof fn file_is_replayed(all: Seq<Seq<char>>, values: Seq<JsonV>)
    requires
        all.len() == values.len(),
        forall|i: int| 0 <= i < all.len() ==> is_line_of(#[trigger] all[i], values[i]),
    ensures
        replay(file_of(all)) == replay_values(values),
        settled(file_of(all)),
    decreases all.len(),
{
    reveal_strlit("\n");
    if all.len() == 0 {
        let f = file_of(all);
        assert(f =~= seq!['\n']);
        assert(f.drop_last() =~= Seq::<char>::empty());
        assert(text::lines(f) =~= seq![Seq::<char>::empty(), Seq::<char>::empty()]);
        assert(text::lines(f).drop_last() =~= seq![Seq::<char>::empty()]);
        assert(text::lines(f).drop_last().drop_last() =~= Seq::<Seq<char>>::empty());
        assert(replay_lines(Seq::<Seq<char>>::empty()) == replay_values(Seq::empty()));
        assert(replay_lines(text::lines(f).drop_last()) == replay_lines(Seq::<Seq<char>>::empty()));
        assert(values =~= Seq::empty());
    } else {
        let less = all.drop_last();
        let fewer = values.drop_last();
        assert forall|i: int| 0 <= i < less.len() implies is_line_of(
            #[trigger] less[i],
            fewer[i],
        ) by {
            assert(less[i] == all[i]);
        }
        let last = all.last();
        assert(is_line_of(all[all.len() - 1], values[values.len() - 1]));
        if all.len() == 1 {
            assert(file_of(all) =~= Seq::<char>::empty() + last + "\n"@);
            appended_line_is_replayed(Seq::empty(), last);
            assert(text::lines(Seq::<char>::empty()) =~= seq![Seq::<char>::empty()]);
            assert(text::lines(Seq::<char>::empty()).drop_last() =~= Seq::<Seq<char>>::empty());
            assert(text::lines(Seq::<char>::empty()).last() == Seq::<char>::empty());
            assert(replay_lines(Seq::<Seq<char>>::empty()) == replay_values(Seq::empty()));
            assert(replay(Seq::empty()) == replay_lines(Seq::<Seq<char>>::empty()));
            assert(fewer =~= Seq::empty());
        } else {
            file_is_replayed(less, fewer);
            assert(file_of(all) =~= file_of(less) + last + "\n"@);
            appended_line_is_replayed(file_of(less), last);
        }
    }
}

/// Reading a rewritten journal gives back the entries it was written for.
pub proof fn compaction_survives_a_reload(
    entries: Seq<(Seq<char>, EntryV)>,
    recorded_at: Seq<char>,
    all: Seq<Seq<char>>,
)
    requires
        all.len() == compact_values(entries, recorded_at).len(),
        forall|i: int|
            0 <= i < all.len() ==> is_line_of(
                #[trigger] all[i],
                compact_values(entries, recorded_at)[i],
            ),
        forall|i: int|
            0 <= i < entries.len() ==> durable((#[trigger] entries[i]).0, entries[i].1),
    ensures
        replay(file_of(all)) == (JournalV { entries: entries_map(entries), count: all.len() }),
        settled(file_of(all)),
{
    file_is_replayed(all, compact_values(entries, recorded_at));
    compacted_entries(entries, recorded_at);
}

proof fn entries_map_domain(entries: Seq<(Seq<char>, EntryV)>, key: Seq<char>)
    ensures
        entries_map(entries).contains_key(key) <==> exists|i: int|
            0 <= i < entries.len() && (#[trigger] entries[i]).0 == key,
    decreases entries.len(),
{
    if entries.len() > 0 {
        let less = entries.drop_last();
        entries_map_domain(less, key);
        if entries_map(entries).contains_key(key) {
            if entries.last().0 == key {
                assert(entries[entries.len() - 1].0 == key);
            } else {
                let i = choose|i: int| 0 <= i < less.len() && (#[trigger] less[i]).0 == key;
                assert(entries[i].0 == key);
            }
        }
        if exists|i: int| 0 <= i < entries.len() && (#[trigger] entries[i]).0 == key {
            let i = choose|i: int| 0 <= i < entries.len() && (#[trigger] entries[i]).0 == key;
            if i < less.len() {
                assert(less[i].0 == key);
            }
        }
    }
}

proof fn entries_map_value(entries: Seq<(Seq<char>, EntryV)>, i: int)
    requires
        0 <= i < entries.len(),
        forall|a: int, b: int|
            0 <= a < b < entries.len() ==> (#[trigger] entries[a]).0 != (#[trigger] entries[b]).0,
    ensures
        entries_map(entries)[entries[i].0] == entries[i].1,
    decreases entries.len(),
{
    let less = entries.drop_last();
    if i < less.len() {
        assert forall|a: int, b: int| 0 <= a < b < less.len() implies (#[trigger] less[a]).0 != (
        #[trigger] less[b]).0 by {
            assert(entries[a].0 != entries[b].0);
        }
        entries_map_value(less, i);
        assert(entries[i].0 != entries[entries.len() - 1].0);
    }
}

impl CommandRecoveryJournal {
    /// Every entry stands under its own key, and no key twice.
    pub open spec fn wf(self) -> bool {
        &&& self.entries.wf()
        &&& forall|i: int|
            0 <= i < self.entries.entries@.len() ==> entry_wf(
                (#[trigger] self.entries.entries@[i]).0@,
                self.entries.entries@[i].1,
            )
    }

    /// The entries by their keys are what the journal knows.
    pub proof fn entries_are_known(self)
        requires
            self.wf(),
        ensures
            entries_map(entry_views(self.entries.entries@)) == self@.entries,
    {
        let views = entry_views(self.entries.entries@);
        assert forall|a: int, b: int| 0 <= a < b < views.len() implies (#[trigger] views[a]).0 != (
        #[trigger] views[b]).0 by {
            assert(self.entries.entries@[a].0@ != self.entries.entries@[b].0@);
        }
        assert forall|key: Seq<char>| entries_map(views).contains_key(key)
            == self@.entries.contains_key(key) by {
            entries_map_domain(views, key);
            if text_map::has_key(self.entries.entries@, key) {
                let i = text_map::key_index(self.entries.entries@, key);
                assert(views[i].0 == key);
            }
            if exists|i: int| 0 <= i < views.len() && (#[trigger] views[i]).0 == key {
                let i = choose|i: int| 0 <= i < views.len() && (#[trigger] views[i]).0 == key;
                assert(self.entries.entries@[i].0@ == key);
            }
        }
        assert forall|key: Seq<char>| self@.entries.contains_key(key) implies entries_map(views)[key]
            == self@.entries[key] by {
            let i = text_map::key_index(self.entries.entries@, key);
            assert(views[i].0 == key);
            entries_map_value(views, i);
            self.entries.entry_at(i);
        }
        assert(entries_map(views) =~= self@.entries);
    }

    /// A journal without a file.
    pub fn empty() -> (r: Self)
        ensures
            r.wf(),
            r@ == (JournalV { entries: Map::empty(), count: 0 }),
    {
        let r = CommandRecoveryJournal { entries: TextMap::new(), record_count: 0 };
        assert(r@.entries =~= Map::empty());
        r
    }

    /// The journal as its file says.
    pub fn from_contents(contents: &str) -> (r: Self)
        ensures
            r.wf(),
            r@ == replay(contents@),
    {
        let chars = to_chars(contents);
        let mut journal = CommandRecoveryJournal::empty();
        let mut line: Vec<char> = Vec::new();
        let mut i: usize = 0;
        proof {
            assert(contents@.take(0) =~= Seq::<char>::empty());
            assert(text::lines(Seq::<char>::empty()) =~= seq![Seq::<char>::empty()]);
            assert(text::lines(Seq::<char>::empty()).drop_last() =~= Seq::<Seq<char>>::empty());
            assert(line@ =~= Seq::<char>::empty());
        }
        while i < chars.len()
            invariant
                i <= chars.len(),
                chars@ == contents@,
                journal.wf(),
                journal.record_count + line@.len() <= i,
                text::lines(contents@.take(i as int)).len() > 0,
                journal@ == replay_lines(text::lines(contents@.take(i as int)).drop_last()),
                line@ == text::lines(contents@.take(i as int)).last(),
            decreases chars.len() - i,
        {
            let ghost before = text::lines(contents@.take(i as int));
            assert(contents@.take(i + 1).drop_last() =~= contents@.take(i as int));
            assert(contents@.take(i + 1).last() == contents@[i as int]);
            if chars[i] == '\n' {
                let text = from_chars(&line);
                journal.replay_line_text(&text);
                line = Vec::new();
                assert(text::lines(contents@.take(i + 1)).drop_last() =~= before);
                assert(line@ =~= Seq::<char>::empty());
            } else {
                line.push(chars[i]);
                assert(text::lines(contents@.take(i + 1)).drop_last() =~= before.drop_last());
            }
            i += 1;
        }
        assert(contents@.take(i as int) =~= contents@);
        let text = from_chars(&line);
        journal.replay_line_text(&text);
        journal
    }

    fn replay_line_text(&mut self, line: &str)
        requires
            old(self).wf(),
            old(self).record_count < usize::MAX || line@.len() == 0,
        ensures
            final(self).wf(),
            final(self)@ == replay_line(old(self)@, line@),
            final(self).record_count <= old(self).record_count + 1,
    {
        if line.is_empty() {
            return;
        }
        let value = match parse_json(line.as_bytes()) {
            Ok(value) => value,
            Err(_) => return,
        };
        match value.u64_at("version") {
            Some(version) => if version != 1 {
                return;
            },
            None => return,
        }
        let key = match value.str_at("key") {
            Some(key) => key.to_owned(),
            None => return,
        };
        let ghost known = self@.entries;
        self.record_count = self.record_count + 1;
        proof {
            record_keys_differ();
        }
        if value.str_is("type", "received") {
            if let Some(received) = read_received(&value, &key) {
                self.put_entry(key, JournalEntry { received, response: None });
            }
        } else if value.str_is("type", "acknowledged") {
            self.drop_entry(&key);
        } else if value.str_is("type", "result") {
            if let Some(response) = read_result(&value) {
                self.put_response(&key, response);
            }
        }
    }

    fn put_entry(&mut self, key: String, entry: JournalEntry)
        requires
            old(self).wf(),
            entry_wf(key@, entry),
        ensures
            final(self).wf(),
            final(self).record_count == old(self).record_count,
            final(self)@.entries == old(self)@.entries.insert(key@, entry@),
    {
        let ghost before = *self;
        self.entries.insert(key, entry);
        proof {
            assert forall|i: int| 0 <= i < self.entries.entries@.len() implies entry_wf(
                (#[trigger] self.entries.entries@[i]).0@,
                self.entries.entries@[i].1,
            ) by {
                self.entries.entry_at(i);
                let k = self.entries.entries@[i].0@;
                if k != key@ {
                    let j = text_map::key_index(before.entries.entries@, k);
                    assert(before.entries@.contains_key(k));
                    before.entries.entry_at(j);
                    assert(entry_wf(before.entries.entries@[j].0@, before.entries.entries@[j].1));
                }
            }
            assert(self@.entries =~= before@.entries.insert(key@, entry@));
        }
    }

    fn drop_entry(&mut self, key: &str)
        requires
            old(self).wf(),
        ensures
            final(self).wf(),
            final(self).record_count == old(self).record_count,
            final(self)@.entries == old(self)@.entries.remove(key@),
    {
        let ghost before = *self;
        let _removed = self.entries.remove(key);
        proof {
            assert forall|i: int| 0 <= i < self.entries.entries@.len() implies entry_wf(
                (#[trigger] self.entries.entries@[i]).0@,
                self.entries.entries@[i].1,
            ) by {
                self.entries.entry_at(i);
                let k = self.entries.entries@[i].0@;
                let j = text_map::key_index(before.entries.entries@, k);
                assert(before.entries@.contains_key(k));
                before.entries.entry_at(j);
                assert(entry_wf(before.entries.entries@[j].0@, before.entries.entries@[j].1));
            }
            assert(self@.entries =~= before@.entries.remove(key@));
        }
    }

    fn put_response(&mut self, key: &str, response: DaemonResponse)
        requires
            old(self).wf(),
        ensures
            final(self).wf(),
            final(self).record_count == old(self).record_count,
            final(self)@.entries == if old(self)@.entries.contains_key(key@) {
                old(self)@.entries.insert(
                    key@,
                    EntryV {
                        received: old(self)@.entries[key@].received,
                        response: Some(response@),
                    },
                )
            } else {
                old(self)@.entries
            },
    {
        let received = match self.entries.position(key) {
            Some(i) => {
                assert(entry_wf(self.entries.entries@[i as int].0@, self.entries.entries@[i as int].1));
                self.entries.entries[i].1.received.clone()
            },
            None => return,
        };
        self.put_entry(key.to_owned(), JournalEntry { received, response: Some(response) });
    }

    /// How a command stands; nothing where it was never received or is
    /// acknowledged.
    pub fn lookup(&self, client_id: &str, command_id: &str) -> (r: Option<
        CommandJournalBeginResult,
    >)
        requires
            self.wf(),
        ensures
            match r {
                Some(result) => !(result@ is New) && result@ == standing(
                    self@.entries,
                    command_key(client_id@, command_id@),
                ),
                None => standing(self@.entries, command_key(client_id@, command_id@)) is New,
            },
    {
        let key = create_command_idempotency_key(client_id, command_id);
        match self.entries.get(&key) {
            Some(entry) => match &entry.response {
                Some(response) => Some(CommandJournalBeginResult::Complete(response.clone())),
                None => Some(CommandJournalBeginResult::Pending),
            },
            None => None,
        }
    }

    /// Receives a command at the given time: one that is known is told how it
    /// stands, and a new one has a receipt that is to be written first.
    pub fn begin_at(
        &self,
        client_id: &str,
        command_id: &str,
        command_type: &str,
        recorded_at: &str,
    ) -> (r: Reception)
        requires
            self.wf(),
        ensures
            begun(self@, client_id@, command_id@, command_type@, recorded_at@, r),
    {
        let key = create_command_idempotency_key(client_id, command_id);
        if let Some(existing) = self.lookup(client_id, command_id) {
            return Reception::Known(existing);
        }
        let received = ReceivedRecord {
            version: 1,
            type_: "received".to_owned(),
            key,
            client_id: client_id.to_owned(),
            command_id: command_id.to_owned(),
            command_type: command_type.to_owned(),
            recorded_at: recorded_at.to_owned(),
        };
        let record = JournalRecord::Received(received.clone());
        proof {
            records_read_back(record);
        }
        let line = record_line(&record);
        Reception::Write(Receipt { received, line })
    }

    /// Receives a command now.
    pub fn begin(&self, client_id: &str, command_id: &str, command_type: &str) -> (r: Reception)
        requires
            self.wf(),
        ensures
            exists|recorded_at: Seq<char>|
                clock::is_time(recorded_at) && #[trigger] begun(self@, client_id@, command_id@, command_type@, recorded_at, r),
    {
        let now = now_iso();
        self.begin_at(client_id, command_id, command_type, &now)
    }

    /// What became of the writing of a receipt. Only where the line is on the file is
    /// the command new, and pending from now on; otherwise nothing is remembered and
    /// the command is not to be run.
    pub fn receipt_written(&mut self, receipt: Receipt, written: Result<(), String>) -> (r: Result<
        CommandJournalBeginResult,
        String,
    >)
        requires
            old(self).wf(),
            receipt.wf(),
            old(self).record_count < usize::MAX,
        ensures
            final(self).wf(),
            received(old(self)@, receipt, written, final(self)@, r),
            written is Err ==> *final(self) == *old(self),
    {
        match written {
            Ok(_) => {
                let key = receipt.received.key.clone();
                self.put_entry(key, JournalEntry { received: receipt.received, response: None });
                self.note_appended();
                Ok(CommandJournalBeginResult::New)
            },
            Err(error) => Err(error),
        }
    }

    /// The answer to a command at the given time, which is to be written first; nothing
    /// where the command was not received.
    pub fn record_result_at(
        &self,
        client_id: &str,
        command_id: &str,
        response: DaemonResponse,
        recorded_at: &str,
    ) -> (r: Option<Answer>)
        requires
            self.wf(),
        ensures
            answered(self@, command_key(client_id@, command_id@), response@, recorded_at@, r),
    {
        let key = create_command_idempotency_key(client_id, command_id);
        if !self.entries.contains_key(&key) {
            return None;
        }
        let record = JournalRecord::Result(
            ResultRecord {
                version: 1,
                type_: "result".to_owned(),
                key: key.clone(),
                response: response.clone(),
                recorded_at: recorded_at.to_owned(),
            },
        );
        let line = record_line(&record);
        proof {
            if json::fits(
                protocol::response_value(response@),
                (json::MAX_NESTING - 1) as nat,
            ) {
                records_read_back(record);
            }
        }
        Some(Answer { key, response, line })
    }

    /// The answer to a command now, which is to be written first.
    pub fn record_result(&self, client_id: &str, command_id: &str, response: DaemonResponse) -> (r:
        Option<Answer>)
        requires
            self.wf(),
        ensures
            exists|recorded_at: Seq<char>|
                clock::is_time(recorded_at) && #[trigger] answered(
                    self@,
                    command_key(client_id@, command_id@),
                    response@,
                    recorded_at,
                    r,
                ),
    {
        let now = now_iso();
        self.record_result_at(client_id, command_id, response, &now)
    }

    /// The answer to a command now, which is to be written first; one to a command
    /// that was not received is an error.
    pub fn try_record_result(
        &self,
        client_id: &str,
        command_id: &str,
        response: DaemonResponse,
    ) -> (r: Result<Answer, String>)
        requires
            self.wf(),
        ensures
            match r {
                Ok(answer) => answered_some_time(
                    self@,
                    command_key(client_id@, command_id@),
                    response@,
                    answer,
                ),
                Err(error) => {
                    &&& !self@.entries.contains_key(command_key(client_id@, command_id@))
                    &&& error@ == "Cannot record a result before command receipt: "@ + command_key(
                        client_id@,
                        command_id@,
                    )
                },
            },
    {
        let ghost key = command_key(client_id@, command_id@);
        let ghost said = response@;
        let recorded = self.record_result(client_id, command_id, response);
        let ghost at = choose|at: Seq<char>|
            clock::is_time(at) && #[trigger] answered(self@, key, said, at, recorded);
        match recorded {
            Some(answer) => {
                assert(answered(self@, key, said, at, Some(answer)));
                assert(answered_some_time(self@, key, said, answer));
                Ok(answer)
            },
            None => {
                let key = create_command_idempotency_key(client_id, command_id);
                Err(cat2("Cannot record a result before command receipt: ", &key))
            },
        }
    }

    /// What became of the writing of an answer. Only where the line is on the file is
    /// the command complete from now on; otherwise nothing changes.
    pub fn answer_written(&mut self, answer: Answer, written: Result<(), String>) -> (r: Result<
        (),
        String,
    >)
        requires
            old(self).wf(),
            old(self).record_count < usize::MAX,
        ensures
            final(self).wf(),
            r == written,
            answer_kept(old(self)@, answer, written, final(self)@),
            written is Err ==> *final(self) == *old(self),
    {
        if written.is_ok() {
            self.put_response(&answer.key, answer.response);
            self.note_appended();
        }
        written
    }

    /// The end of a command whose answer was seen, at the given time, which is to be
    /// written first; nothing where the command is not known.
    pub fn acknowledge_at(&self, client_id: &str, command_id: &str, recorded_at: &str) -> (r:
        Option<Acknowledgement>)
        requires
            self.wf(),
        ensures
            acknowledged(self@, command_key(client_id@, command_id@), recorded_at@, r),
    {
        let key = create_command_idempotency_key(client_id, command_id);
        if !self.entries.contains_key(&key) {
            return None;
        }
        let record = JournalRecord::Acknowledged(
            AcknowledgedRecord {
                version: 1,
                type_: "acknowledged".to_owned(),
                key: key.clone(),
                recorded_at: recorded_at.to_owned(),
            },
        );
        proof {
            records_read_back(record);
        }
        let line = record_line(&record);
        Some(Acknowledgement { key, line })
    }

    /// The end of a command whose answer was seen, which is to be written first.
    pub fn acknowledge(&self, client_id: &str, command_id: &str) -> (r: Option<Acknowledgement>)
        requires
            self.wf(),
        ensures
            exists|recorded_at: Seq<char>|
                clock::is_time(recorded_at) && #[trigger] acknowledged(
                    self@,
                    command_key(client_id@, command_id@),
                    recorded_at,
                    r,
                ),
    {
        let now = now_iso();
        self.acknowledge_at(client_id, command_id, &now)
    }

    /// What became of the writing of an acknowledgement. Only where the line is on the
    /// file is the command forgotten; otherwise nothing changes.
    pub fn acknowledgement_written(
        &mut self,
        acknowledgement: Acknowledgement,
        written: Result<(), String>,
    ) -> (r: Result<(), String>)
        requires
            old(self).wf(),
            old(self).record_count < usize::MAX,
        ensures
            final(self).wf(),
            r == written,
            forgotten(old(self)@, acknowledgement, written, final(self)@),
            written is Err ==> *final(self) == *old(self),
    {
        if written.is_ok() {
            self.drop_entry(&acknowledgement.key);
            self.note_appended();
        }
        written
    }

    /// One more line is on the file.
    fn note_appended(&mut self)
        requires
            old(self).wf(),
            old(self).record_count < usize::MAX,
        ensures
            final(self).wf(),
            final(self)@ == (JournalV {
                entries: old(self)@.entries,
                count: old(self)@.count + 1,
            }),
    {
        self.record_count = self.record_count + 1;
    }

    /// Whether the file is to be rewritten after a result was recorded.
    pub fn should_compact_after_result(&self) -> (r: bool)
        ensures
            r == (self@.count >= COMPACT_AFTER_RECORDS),
    {
        self.record_count >= COMPACT_AFTER_RECORDS
    }

    /// Whether the file is to be rewritten after an acknowledgement.
    pub fn should_compact_after_acknowledgement(&self) -> (r: bool)
        ensures
            r == (self@.entries =~= Map::<Seq<char>, EntryV>::empty() || self@.count
                >= COMPACT_AFTER_RECORDS),
    {
        proof {
            if self@.entries =~= Map::<Seq<char>, EntryV>::empty() {
                assert forall|key: Seq<char>| !self.entries@.contains_key(key) by {
                    assert(self@.entries.contains_key(key) == self.entries@.contains_key(key));
                }
                assert(self.entries@ =~= Map::<Seq<char>, JournalEntry>::empty());
            } else {
                if self.entries@ =~= Map::<Seq<char>, JournalEntry>::empty() {
                    assert(self@.entries =~= Map::<Seq<char>, EntryV>::empty());
                }
            }
        }
        self.entries.is_empty() || self.record_count >= COMPACT_AFTER_RECORDS
    }

    /// Rewrites the file at the given time: the receipt of every known command
    /// and the answers there are. Returns the new lines and the new contents.
    pub fn compact_at(&mut self, recorded_at: &str) -> (r: (Vec<String>, String))
        requires
            old(self).wf(),
        ensures
            final(self).wf(),
            final(self)@ == (JournalV {
                entries: old(self)@.entries,
                count: compact_values(
                    entry_views(old(self).entries.entries@),
                    recorded_at@,
                ).len(),
            }),
            r.1@ == file_of(text::texts(r.0@)),
            r.0@.len() == compact_values(
                entry_views(old(self).entries.entries@),
                recorded_at@,
            ).len(),
            forall|i: int|
                0 <= i < r.0@.len() ==> is_line_for(
                    (#[trigger] r.0@[i])@,
                    compact_values(entry_views(old(self).entries.entries@), recorded_at@)[i],
                ),
    {
        let mut out: Vec<String> = Vec::new();
        let ghost views = entry_views(self.entries.entries@);
        let mut i: usize = 0;
        assert(views.take(0) =~= Seq::empty());
        while i < self.entries.entries.len()
            invariant
                *self == *old(self),
                self.wf(),
                i <= self.entries.entries.len(),
                views == entry_views(self.entries.entries@),
                out@.len() == compact_values(views.take(i as int), recorded_at@).len(),
                forall|j: int|
                    0 <= j < out@.len() ==> is_line_for(
                        (#[trigger] out@[j])@,
                        compact_values(views.take(i as int), recorded_at@)[j],
                    ),
            decreases self.entries.entries.len() - i,
        {
            let ghost next = views.take(i + 1);
            assert(next.drop_last() =~= views.take(i as int));
            assert(next.last() == views[i as int]);
            let ghost before = compact_values(views.take(i as int), recorded_at@);
            let ghost written = out@;
            let entry = &self.entries.entries[i].1;
            assert(entry_wf(self.entries.entries@[i as int].0@, self.entries.entries@[i as int].1));
            let record = JournalRecord::Received(entry.received.clone());
            let line = record_line(&record);
            out.push(line);
            let ghost receipt = record_value(record);
            assert(compact_values(next, recorded_at@)[before.len() as int] == receipt);
            if let Some(response) = &entry.response {
                let record = JournalRecord::Result(
                    ResultRecord {
                        version: 1,
                        type_: "result".to_owned(),
                        key: self.entries.entries[i].0.clone(),
                        response: response.clone(),
                        recorded_at: recorded_at.to_owned(),
                    },
                );
                let line = record_line(&record);
                out.push(line);
            }
            assert forall|j: int| 0 <= j < out@.len() implies is_line_for(
                (#[trigger] out@[j])@,
                compact_values(next, recorded_at@)[j],
            ) by {
                if j < before.len() {
                    assert(out@[j] == written[j]);
                    assert(compact_values(next, recorded_at@)[j] == before[j]);
                }
            }
            i += 1;
        }
        assert(views.take(i as int) =~= views);
        let mut contents = text::join(&out, "\n");
        contents.append("\n");
        self.record_count = out.len();
        (out, contents)
    }

    /// Rewrites the file now.
    pub fn compact(&mut self) -> (r: String)
        requires
            old(self).wf(),
        ensures
            final(self).wf(),
            final(self)@.entries == old(self)@.entries,
            exists|recorded_at: Seq<char>, all: Seq<Seq<char>>|
                clock::is_time(recorded_at) && #[trigger] compacted(
                    entry_views(old(self).entries.entries@),
                    final(self)@.count,
                    recorded_at,
                    all,
                    r@,
                ),
    {
        let now = now_iso();
        let (out, contents) = self.compact_at(&now);
        let ghost all = text::texts(out@);
        proof {
            let views = entry_views(old(self).entries.entries@);
            let values = compact_values(views, now@);
            assert forall|i: int| 0 <= i < all.len() implies is_line_for(
                #[trigger] all[i],
                values[i],
            ) by {
                assert(all[i] == out@[i]@);
            }
            assert(compacted(views, self@.count, now@, all, contents@));
        }
        contents
    }
}

/// The file was rewritten for these entries, line by line.
pub open spec fn compacted(
    entries: Seq<(Seq<char>, EntryV)>,
    count: nat,
    recorded_at: Seq<char>,
    all: Seq<Seq<char>>,
    contents: Seq<char>,
) -> bool {
    let values = compact_values(entries, recorded_at);
    &&& contents == file_of(all)
    &&& count == values.len()
    &&& all.len() == values.len()
    &&& forall|i: int| 0 <= i < all.len() ==> is_line_for(#[trigger] all[i], values[i])
}

/// A command arrived: a known one is told how it stands, and a new one has its
/// receipt to be written.
pub open spec fn begun(
    journal: JournalV,
    client_id: Seq<char>,
    command_id: Seq<char>,
    command_type: Seq<char>,
    recorded_at: Seq<char>,
    r: Reception,
) -> bool {
    let key = command_key(client_id, command_id);
    match r {
        Reception::Known(result) => !(result@ is New) && result@ == standing(journal.entries, key),
        Reception::Write(receipt) => {
            &&& standing(journal.entries, key) is New
            &&& receipt.wf()
            &&& receipt.received@ == (ReceivedV {
                key,
                client_id,
                command_id,
                command_type,
                recorded_at,
            })
        },
    }
}

/// A receipt was written or was not: the command is new and pending where it was,
/// and otherwise nothing changed.
pub open spec fn received(
    before: JournalV,
    receipt: Receipt,
    written: Result<(), String>,
    after: JournalV,
    r: Result<CommandJournalBeginResult, String>,
) -> bool {
    match written {
        Ok(_) => {
            &&& r matches Ok(result) && result@ is New
            &&& after.count == before.count + 1
            &&& after.entries == before.entries.insert(
                receipt.received@.key,
                EntryV { received: receipt.received@, response: None },
            )
        },
        Err(error) => r == Err::<CommandJournalBeginResult, String>(error) && after == before,
    }
}

/// A command was answered: its answer is to be written.
pub open spec fn answered(
    journal: JournalV,
    key: Seq<char>,
    response: ResponseV,
    recorded_at: Seq<char>,
    r: Option<Answer>,
) -> bool {
    match r {
        None => !journal.entries.contains_key(key),
        Some(answer) => {
            &&& journal.entries.contains_key(key)
            &&& answer.key@ == key
            &&& answer.response@ == response
            &&& is_line_for(answer.line@, result_value(1, "result"@, key, response, recorded_at))
            &&& json::fits(
                protocol::response_value(response),
                (json::MAX_NESTING - 1) as nat,
            ) ==> is_line_of(answer.line@, result_value(1, "result"@, key, response, recorded_at))
        },
    }
}

/// A command was answered, at whatever time.
pub open spec fn answered_some_time(
    journal: JournalV,
    key: Seq<char>,
    response: ResponseV,
    answer: Answer,
) -> bool {
    exists|recorded_at: Seq<char>|
        clock::is_time(recorded_at) && #[trigger] answered(
            journal,
            key,
            response,
            recorded_at,
            Some(answer),
        )
}

/// An answer was written or was not: a command that is known is complete where it was,
/// and otherwise nothing changed.
pub open spec fn answer_kept(
    before: JournalV,
    answer: Answer,
    written: Result<(), String>,
    after: JournalV,
) -> bool {
    match written {
        Ok(_) => {
            &&& after.count == before.count + 1
            &&& after.entries == if before.entries.contains_key(answer.key@) {
                before.entries.insert(
                    answer.key@,
                    EntryV {
                        received: before.entries[answer.key@].received,
                        response: Some(answer.response@),
                    },
                )
            } else {
                before.entries
            }
        },
        Err(_) => after == before,
    }
}

/// A command was acknowledged: that is to be written.
pub open spec fn acknowledged(
    journal: JournalV,
    key: Seq<char>,
    recorded_at: Seq<char>,
    r: Option<Acknowledgement>,
) -> bool {
    match r {
        None => !journal.entries.contains_key(key),
        Some(acknowledgement) => {
            &&& journal.entries.contains_key(key)
            &&& acknowledgement.key@ == key
            &&& is_line_of(
                acknowledgement.line@,
                acknowledged_value(1, "acknowledged"@, key, recorded_at),
            )
        },
    }
}

/// An acknowledgement was written or was not: the command is not known any more where
/// it was, and otherwise nothing changed.
pub open spec fn forgotten(
    before: JournalV,
    acknowledgement: Acknowledgement,
    written: Result<(), String>,
    after: JournalV,
) -> bool {
    match written {
        Ok(_) => {
            &&& after.count == before.count + 1
            &&& after.entries == before.entries.remove(acknowledgement.key@)
        },
        Err(_) => after == before,
    }
}

/// What the journal knows, and what its file holds.
pub struct JournalFileV {
    pub journal: JournalV,
    pub contents: Seq<char>,
}

/// The line was added to the file, or the writing failed and the file is as it was.
pub open spec fn wrote(
    before: Seq<char>,
    line: Seq<char>,
    written: Result<(), String>,
    after: Seq<char>,
) -> bool {
    match written {
        Ok(_) => after == before + line + "\n"@,
        Err(_) => after == before,
    }
}

/// A command with ids and a type arrived and this was said of it; the receipt of a
/// new one was written, or could not be.
pub open spec fn receives_as(
    before: JournalFileV,
    after: JournalFileV,
    command: (Seq<char>, Seq<char>, Seq<char>),
    recorded_at: Seq<char>,
    reception: Reception,
    written: Result<(), String>,
    said: Result<CommandJournalBeginResult, String>,
) -> bool {
    &&& command.0.len() > 0
    &&& command.1.len() > 0
    &&& command.2.len() > 0
    &&& begun(before.journal, command.0, command.1, command.2, recorded_at, reception)
    &&& match reception {
        Reception::Known(result) => after == before && said == Ok::<
            CommandJournalBeginResult,
            String,
        >(result),
        Reception::Write(receipt) => {
            &&& wrote(before.contents, receipt.line@, written, after.contents)
            &&& received(before.journal, receipt, written, after.journal, said)
        },
    }
}

/// A command with ids and a type arrived.
pub open spec fn receives(before: JournalFileV, after: JournalFileV) -> bool {
    exists|
        command: (Seq<char>, Seq<char>, Seq<char>),
        recorded_at: Seq<char>,
        reception: Reception,
        written: Result<(), String>,
        said: Result<CommandJournalBeginResult, String>,
    |
        #[trigger] receives_as(before, after, command, recorded_at, reception, written, said)
}

/// A command is new only where its receipt is on the file: one complete line behind
/// what the file held, and whoever reads the file next finds the command pending.
/// Where nothing could be written, the journal and the file are as they were.
pub proof fn new_commands_are_on_file(
    before: JournalFileV,
    after: JournalFileV,
    command: (Seq<char>, Seq<char>, Seq<char>),
    recorded_at: Seq<char>,
    reception: Reception,
    written: Result<(), String>,
    said: Result<CommandJournalBeginResult, String>,
)
    requires
        receives_as(before, after, command, recorded_at, reception, written, said),
    ensures
        (said matches Ok(result) && result@ is New) ==> {
            &&& reception matches Reception::Write(receipt) && {
                &&& after.contents == before.contents + receipt.line@ + "\n"@
                &&& is_line_of(
                    receipt.line@,
                    received_value(
                        1,
                        "received"@,
                        ReceivedV {
                            key: command_key(command.0, command.1),
                            client_id: command.0,
                            command_id: command.1,
                            command_type: command.2,
                            recorded_at,
                        },
                    ),
                )
            }
            &&& settled(before.contents) ==> standing(
                replay(after.contents).entries,
                command_key(command.0, command.1),
            ) is Pending
        },
        said is Err ==> after == before,
{
    if let Reception::Write(receipt) = reception {
        if written is Ok && settled(before.contents) {
            receipt_survives_a_reload(before.contents, receipt.line@, receipt.received@);
        }
    }
}

/// A command was answered with something that is read back from what is printed for
/// it, and the answer was written, or could not be.
pub open spec fn answers_as(
    before: JournalFileV,
    after: JournalFileV,
    key: Seq<char>,
    response: ResponseV,
    recorded_at: Seq<char>,
    answer: Option<Answer>,
    written: Result<(), String>,
) -> bool {
    &&& protocol::says_something(response)
    &&& is_kept(result_value(1, "result"@, key, response, recorded_at))
    &&& answered(before.journal, key, response, recorded_at, answer)
    &&& match answer {
        None => after == before,
        Some(answer) => {
            &&& wrote(before.contents, answer.line@, written, after.contents)
            &&& answer_kept(before.journal, answer, written, after.journal)
        },
    }
}

/// A command was answered.
pub open spec fn answers(before: JournalFileV, after: JournalFileV) -> bool {
    exists|
        key: Seq<char>,
        response: ResponseV,
        recorded_at: Seq<char>,
        answer: Option<Answer>,
        written: Result<(), String>,
    |
        #[trigger] answers_as(before, after, key, response, recorded_at, answer, written)
}

/// A command was acknowledged, and that was written, or could not be.
pub open spec fn acknowledges_as(
    before: JournalFileV,
    after: JournalFileV,
    key: Seq<char>,
    recorded_at: Seq<char>,
    acknowledgement: Option<Acknowledgement>,
    written: Result<(), String>,
) -> bool {
    &&& acknowledged(before.journal, key, recorded_at, acknowledgement)
    &&& match acknowledgement {
        None => after == before,
        Some(acknowledgement) => {
            &&& wrote(before.contents, acknowledgement.line@, written, after.contents)
            &&& forgotten(before.journal, acknowledgement, written, after.journal)
        },
    }
}

/// A command was acknowledged.
pub open spec fn acknowledges(before: JournalFileV, after: JournalFileV) -> bool {
    exists|
        key: Seq<char>,
        recorded_at: Seq<char>,
        acknowledgement: Option<Acknowledgement>,
        written: Result<(), String>,
    |
        #[trigger] acknowledges_as(before, after, key, recorded_at, acknowledgement, written)
}

/// The file was rewritten, and what was printed is read back.
pub open spec fn compacts(before: JournalFileV, after: JournalFileV) -> bool {
    exists|entries: Seq<(Seq<char>, EntryV)>, recorded_at: Seq<char>, all: Seq<Seq<char>>|
        {
            &&& entries_map(entries) == before.journal.entries
            &&& distinct_entries(entries)
            &&& after.journal.entries == before.journal.entries
            &&& #[trigger] compacted(
                entries,
                after.journal.count,
                recorded_at,
                all,
                after.contents,
            )
            &&& forall|i: int|
                0 <= i < entries.len() && (#[trigger] entries[i]).1.response is Some ==> is_kept(
                    result_value(
                        1,
                        "result"@,
                        entries[i].0,
                        entries[i].1.response->0,
                        recorded_at,
                    ),
                )
        }
}

/// No key has two entries.
pub open spec fn distinct_entries(entries: Seq<(Seq<char>, EntryV)>) -> bool {
    forall|a: int, b: int|
        0 <= a < b < entries.len() ==> (#[trigger] entries[a]).0 != (#[trigger] entries[b]).0
}

/// One thing after the other happened to a journal, from its reading of a file that
/// ended with a complete line.
pub open spec fn is_run(states: Seq<JournalFileV>) -> bool {
    &&& states.len() > 0
    &&& settled(states[0].contents)
    &&& states[0].journal == replay(states[0].contents)
    &&& forall|i: int|
        #![trigger states[i]]
        0 < i < states.len() ==> {
            ||| receives(states[i - 1], states[i])
            ||| answers(states[i - 1], states[i])
            ||| acknowledges(states[i - 1], states[i])
            ||| compacts(states[i - 1], states[i])
        }
}

/// Every entry can be read back from a rewritten file.
pub open spec fn all_durable(entries: Map<Seq<char>, EntryV>) -> bool {
    forall|key: Seq<char>| #[trigger] entries.contains_key(key) ==> durable(key, entries[key])
}

/// After a whole run the file says what the journal knows, whichever lines could not
/// be written: whoever reads it next finds every command as it stands, also where a
/// last line that is no JSON was cut off behind it.
pub proof fn whole_runs_survive_a_reload(states: Seq<JournalFileV>, rest: Seq<char>)
    requires
        is_run(states),
        !rest.contains('\n'),
        rest.len() == 0 || json::parsed_json(vstd::utf8::encode_utf8(rest)) is Err,
    ensures
        replay(states.last().contents + rest) == states.last().journal,
        forall|client_id: Seq<char>, command_id: Seq<char>|
            standing(
                replay(states.last().contents + rest).entries,
                #[trigger] command_key(client_id, command_id),
            ) == standing(states.last().journal.entries, command_key(client_id, command_id)),
{
    runs_are_on_file(states);
    let contents = states.last().contents;
    if rest.len() == 0 {
        assert(contents + rest =~= contents);
    } else {
        truncated_line_is_ignored(contents, rest);
    }
}

proof fn runs_are_on_file(states: Seq<JournalFileV>)
    requires
        is_run(states),
    ensures
        settled(states.last().contents),
        replay(states.last().contents) == states.last().journal,
        all_durable(states.last().journal.entries),
    decreases states.len(),
{
    if states.len() == 1 {
        replayed_entries_are_durable(text::lines(states[0].contents));
    } else {
        let earlier = states.drop_last();
        assert forall|i: int| #![trigger earlier[i]] 0 < i < earlier.len() implies {
            ||| receives(earlier[i - 1], earlier[i])
            ||| answers(earlier[i - 1], earlier[i])
            ||| acknowledges(earlier[i - 1], earlier[i])
            ||| compacts(earlier[i - 1], earlier[i])
        } by {
            assert(earlier[i] == states[i] && earlier[i - 1] == states[i - 1]);
        }
        assert(earlier[0] == states[0]);
        runs_are_on_file(earlier);
        let before = states[states.len() - 2];
        let after = states[states.len() - 1];
        assert(earlier.last() == before);
        if receives(before, after) {
            receiving_is_on_file(before, after);
        } else if answers(before, after) {
            answering_is_on_file(before, after);
        } else if acknowledges(before, after) {
            acknowledging_is_on_file(before, after);
        } else {
            compacting_is_on_file(before, after);
        }
    }
}

proof fn receiving_is_on_file(before: JournalFileV, after: JournalFileV)
    requires
        settled(before.contents),
        replay(before.contents) == before.journal,
        all_durable(before.journal.entries),
        receives(before, after),
    ensures
        settled(after.contents),
        replay(after.contents) == after.journal,
        all_durable(after.journal.entries),
{
    let (command, recorded_at, reception, written, said) = choose|
        command: (Seq<char>, Seq<char>, Seq<char>),
        recorded_at: Seq<char>,
        reception: Reception,
        written: Result<(), String>,
        said: Result<CommandJournalBeginResult, String>,
    |
        #[trigger] receives_as(before, after, command, recorded_at, reception, written, said);
    if let Reception::Write(receipt) = reception {
        if written is Ok {
            let received = receipt.received@;
            receipt_survives_a_reload(before.contents, receipt.line@, received);
            appended_line_is_replayed(before.contents, receipt.line@);
            assert forall|other: Seq<char>| #[trigger]
                after.journal.entries.contains_key(other) implies durable(
                other,
                after.journal.entries[other],
            ) by {
                if other != received.key {
                    assert(before.journal.entries.contains_key(other));
                }
            }
        }
    }
}

proof fn answering_is_on_file(before: JournalFileV, after: JournalFileV)
    requires
        settled(before.contents),
        replay(before.contents) == before.journal,
        all_durable(before.journal.entries),
        answers(before, after),
    ensures
        settled(after.contents),
        replay(after.contents) == after.journal,
        all_durable(after.journal.entries),
{
    let (key, response, recorded_at, answer, written) = choose|
        key: Seq<char>,
        response: ResponseV,
        recorded_at: Seq<char>,
        answer: Option<Answer>,
        written: Result<(), String>,
    |
        #[trigger] answers_as(before, after, key, response, recorded_at, answer, written);
    if let Some(answer) = answer {
        if written is Ok {
            let line = answer.line@;
            kept_lines_are_read(line, result_value(1, "result"@, key, response, recorded_at));
            result_survives_a_reload(before.contents, line, key, response, recorded_at);
            appended_line_is_replayed(before.contents, line);
            assert(before.journal.entries.contains_key(key));
            assert forall|other: Seq<char>| #[trigger]
                after.journal.entries.contains_key(other) implies durable(
                other,
                after.journal.entries[other],
            ) by {
                assert(before.journal.entries.contains_key(other));
            }
        }
    }
}

proof fn acknowledging_is_on_file(before: JournalFileV, after: JournalFileV)
    requires
        settled(before.contents),
        replay(before.contents) == before.journal,
        all_durable(before.journal.entries),
        acknowledges(before, after),
    ensures
        settled(after.contents),
        replay(after.contents) == after.journal,
        all_durable(after.journal.entries),
{
    let (key, recorded_at, acknowledgement, written) = choose|
        key: Seq<char>,
        recorded_at: Seq<char>,
        acknowledgement: Option<Acknowledgement>,
        written: Result<(), String>,
    |
        #[trigger] acknowledges_as(before, after, key, recorded_at, acknowledgement, written);
    if let Some(acknowledgement) = acknowledgement {
        if written is Ok {
            let line = acknowledgement.line@;
            acknowledgement_survives_a_reload(before.contents, line, key, recorded_at);
            appended_line_is_replayed(before.contents, line);
            assert forall|other: Seq<char>| #[trigger]
                after.journal.entries.contains_key(other) implies durable(
                other,
                after.journal.entries[other],
            ) by {
                assert(before.journal.entries.contains_key(other));
            }
        }
    }
}

proof fn compacting_is_on_file(before: JournalFileV, after: JournalFileV)
    requires
        all_durable(before.journal.entries),
        compacts(before, after),
    ensures
        settled(after.contents),
        replay(after.contents) == after.journal,
        all_durable(after.journal.entries),
{
    let (entries, recorded_at, all) = choose|
        entries: Seq<(Seq<char>, EntryV)>,
        recorded_at: Seq<char>,
        all: Seq<Seq<char>>,
    |
        {
            &&& entries_map(entries) == before.journal.entries
            &&& distinct_entries(entries)
            &&& after.journal.entries == before.journal.entries
            &&& #[trigger] compacted(
                entries,
                after.journal.count,
                recorded_at,
                all,
                after.contents,
            )
            &&& forall|i: int|
                0 <= i < entries.len() && (#[trigger] entries[i]).1.response is Some ==> is_kept(
                    result_value(
                        1,
                        "result"@,
                        entries[i].0,
                        entries[i].1.response->0,
                        recorded_at,
                    ),
                )
        };
    let values = compact_values(entries, recorded_at);
    assert forall|i: int| 0 <= i < entries.len() implies durable(
        (#[trigger] entries[i]).0,
        entries[i].1,
    ) by {
        entries_map_domain(entries, entries[i].0);
        entries_map_value(entries, i);
        assert(before.journal.entries.contains_key(entries[i].0));
    }
    compact_values_are_kept(entries, recorded_at);
    assert forall|i: int| 0 <= i < all.len() implies is_line_of(#[trigger] all[i], values[i]) by {
        kept_lines_are_read(all[i], values[i]);
    }
    compaction_survives_a_reload(entries, recorded_at, all);
}

proof fn compact_values_are_kept(entries: Seq<(Seq<char>, EntryV)>, recorded_at: Seq<char>)
    requires
        forall|i: int|
            0 <= i < entries.len() && (#[trigger] entries[i]).1.response is Some ==> is_kept(
                result_value(1, "result"@, entries[i].0, entries[i].1.response->0, recorded_at),
            ),
    ensures
        forall|i: int|
            0 <= i < compact_values(entries, recorded_at).len() ==> is_kept(
                #[trigger] compact_values(entries, recorded_at)[i],
            ),
    decreases entries.len(),
{
    if entries.len() > 0 {
        let fewer = entries.drop_last();
        assert forall|i: int|
            0 <= i < fewer.len() && (#[trigger] fewer[i]).1.response is Some implies is_kept(
            result_value(1, "result"@, fewer[i].0, fewer[i].1.response->0, recorded_at),
        ) by {
            assert(fewer[i] == entries[i]);
        }
        compact_values_are_kept(fewer, recorded_at);
        let last = entries[entries.len() - 1];
        received_reads_back(1, "received"@, last.1.received);
        let before = compact_values(fewer, recorded_at);
        let values = compact_values(entries, recorded_at);
        assert forall|i: int| 0 <= i < values.len() implies is_kept(#[trigger] values[i]) by {
            if i < before.len() {
                assert(values[i] == before[i]);
            }
        }
    }
}

proof fn replayed_entries_are_durable(all: Seq<Seq<char>>)
    ensures
        all_durable(replay_lines(all).entries),
    decreases all.len(),
{
    if all.len() > 0 {
        replayed_entries_are_durable(all.drop_last());
        let before = replay_lines(all.drop_last()).entries;
        let after = replay_lines(all).entries;
        assert forall|key: Seq<char>| #[trigger] after.contains_key(key) implies durable(
            key,
            after[key],
        ) by {
            if before.contains_key(key) {
                assert(durable(key, before[key]));
            }
        }
    }
}

/// The saved session in a result of the journal; nothing where the result is none.
pub fn journal_result_saved_session(value: &Json) -> (r: Option<DaemonSavedSessionInfo>)
    ensures
        match r {
            Some(wire) => saved_session_info::is_wire(value@) && wire@
                == saved_session_info::wire_of(value@),
            None => !saved_session_info::is_wire(value@),
        },
{
    DaemonSavedSessionInfo::from_value(value)
}

} // verus!
