//! The ledger of spawned agents: one append-only file per sessions directory,
//! written when a child is admitted, renamed or deleted, and replayed for the
//! topology of the sessions.

use vstd::prelude::*;

use crate::assoc;
use crate::assoc::OrderedIndex;
use crate::clock;
use crate::clock::now_iso;
use crate::digest;
use crate::digest::hash_prefix;
use crate::json;
use crate::json::{
    Json, JsonV, Num, add_member, add_text, integer, no_members, object, owned, parse_json,
    print_json,
};
use crate::path_facts;
use crate::path_facts::{PathFacts, basename_of, dirname_of, join_dir, resolve, strip_suffix};
use crate::session_info;
use crate::session_info::{SessionInfo, SessionInfoV};
use crate::text;
use crate::text::{
    cat2, cat4, cat5, contains_text, decimal, ends_with, same, signed_decimal, sort_texts,
    split_lines, trim,
};
use crate::text_map::TextMap;

verus! {

pub const RLM_LEDGER_DIR: &'static str = "rlm-ledger";

/// A ledger of more bytes is not read.
pub const RLM_LEDGER_MAX_BYTES: u64 = 33_554_432;

/// A ledger of more records is not read.
pub const RLM_LEDGER_MAX_RECORDS: usize = 100_000;

/// Why a child was deleted.
#[derive(Debug, Clone, Copy, PartialEq, Eq, Structural)]
pub enum RlmLedgerDeleteReason {
    User,
    ParentTeardown,
    Revoked,
    Gc,
}

/// The text of a reason.
pub open spec fn reason_text(reason: RlmLedgerDeleteReason) -> Seq<char> {
    match reason {
        RlmLedgerDeleteReason::User => "user"@,
        RlmLedgerDeleteReason::ParentTeardown => "parent-teardown"@,
        RlmLedgerDeleteReason::Revoked => "revoked"@,
        RlmLedgerDeleteReason::Gc => "gc"@,
    }
}

/// The reason that a text names.
pub open spec fn reason_of(text: Seq<char>) -> Option<RlmLedgerDeleteReason> {
    if text == "user"@ {
        Some(RlmLedgerDeleteReason::User)
    } else if text == "parent-teardown"@ {
        Some(RlmLedgerDeleteReason::ParentTeardown)
    } else if text == "revoked"@ {
        Some(RlmLedgerDeleteReason::Revoked)
    } else if text == "gc"@ {
        Some(RlmLedgerDeleteReason::Gc)
    } else {
        None
    }
}

/// Every reason is named by its own text.
pub proof fn reason_is_read_back(reason: RlmLedgerDeleteReason)
    ensures
        reason_of(reason_text(reason)) == Some(reason),
{
    reveal_strlit("user");
    reveal_strlit("parent-teardown");
    reveal_strlit("revoked");
    reveal_strlit("gc");
    assert("user"@.len() == 4 && "parent-teardown"@.len() == 15 && "revoked"@.len() == 7
        && "gc"@.len() == 2);
}

impl RlmLedgerDeleteReason {
    /// The text of the reason.
    pub fn as_str(&self) -> (r: &'static str)
        ensures
            r@ == reason_text(*self),
    {
        match self {
            RlmLedgerDeleteReason::User => "user",
            RlmLedgerDeleteReason::ParentTeardown => "parent-teardown",
            RlmLedgerDeleteReason::Revoked => "revoked",
            RlmLedgerDeleteReason::Gc => "gc",
        }
    }

    /// The reason that a text names.
    pub fn from_str(value: &str) -> (r: Option<Self>)
        ensures
            r == reason_of(value@),
    {
        if same(value, "user") {
            Some(RlmLedgerDeleteReason::User)
        } else if same(value, "parent-teardown") {
            Some(RlmLedgerDeleteReason::ParentTeardown)
        } else if same(value, "revoked") {
            Some(RlmLedgerDeleteReason::Revoked)
        } else if same(value, "gc") {
            Some(RlmLedgerDeleteReason::Gc)
        } else {
            None
        }
    }
}

/// The ledger's first record.
#[derive(Debug, Clone, PartialEq)]
pub struct RlmLedgerMetaRecord {
    pub v: u32,
    pub op: String,
    pub at: String,
    pub sessions_dir: String,
}

/// A child was admitted.
#[derive(Debug, Clone, PartialEq)]
pub struct RlmLedgerSpawnRecord {
    pub v: u32,
    pub op: String,
    pub at: String,
    pub child_id: String,
    pub parent: String,
    pub child: String,
    pub depth: i64,
    pub name: String,
}

/// A child was renamed.
#[derive(Debug, Clone, PartialEq)]
pub struct RlmLedgerRenameRecord {
    pub v: u32,
    pub op: String,
    pub at: String,
    pub child_id: String,
    pub child: String,
    pub name: String,
}

/// A child was deleted.
#[derive(Debug, Clone, PartialEq)]
pub struct RlmLedgerDeleteRecord {
    pub v: u32,
    pub op: String,
    pub at: String,
    pub child_id: String,
    pub child: String,
    pub reason: RlmLedgerDeleteReason,
}

/// One record of the ledger.
#[derive(Debug, Clone, PartialEq)]
pub enum RlmLedgerRecord {
    Meta(RlmLedgerMetaRecord),
    Spawn(RlmLedgerSpawnRecord),
    Rename(RlmLedgerRenameRecord),
    Delete(RlmLedgerDeleteRecord),
}

/// What a record says.
#[allow(inconsistent_fields)]
pub enum RecordV {
    Meta { at: Seq<char>, sessions_dir: Seq<char> },
    Spawn {
        at: Seq<char>,
        child_id: Seq<char>,
        parent: Seq<char>,
        child: Seq<char>,
        depth: i64,
        name: Seq<char>,
    },
    Rename { at: Seq<char>, child_id: Seq<char>, child: Seq<char>, name: Seq<char> },
    Delete {
        at: Seq<char>,
        child_id: Seq<char>,
        child: Seq<char>,
        reason: RlmLedgerDeleteReason,
    },
}

impl View for RlmLedgerRecord {
    type V = RecordV;

    open spec fn view(&self) -> RecordV {
        match self {
            RlmLedgerRecord::Meta(r) => RecordV::Meta {
                at: r.at@,
                sessions_dir: r.sessions_dir@,
            },
            RlmLedgerRecord::Spawn(r) => RecordV::Spawn {
                at: r.at@,
                child_id: r.child_id@,
                parent: r.parent@,
                child: r.child@,
                depth: r.depth,
                name: r.name@,
            },
            RlmLedgerRecord::Rename(r) => RecordV::Rename {
                at: r.at@,
                child_id: r.child_id@,
                child: r.child@,
                name: r.name@,
            },
            RlmLedgerRecord::Delete(r) => RecordV::Delete {
                at: r.at@,
                child_id: r.child_id@,
                child: r.child@,
                reason: r.reason,
            },
        }
    }
}

/// The name of a record's operation.
pub open spec fn op_of(record: RecordV) -> Seq<char> {
    match record {
        RecordV::Meta { .. } => "meta"@,
        RecordV::Spawn { .. } => "spawn"@,
        RecordV::Rename { .. } => "rename"@,
        RecordV::Delete { .. } => "delete"@,
    }
}

/// The record is of the version that is written, under its own operation's name.
pub open spec fn standard(record: RlmLedgerRecord) -> bool {
    match record {
        RlmLedgerRecord::Meta(r) => r.v == 1 && r.op@ == op_of(record@),
        RlmLedgerRecord::Spawn(r) => r.v == 1 && r.op@ == op_of(record@),
        RlmLedgerRecord::Rename(r) => r.v == 1 && r.op@ == op_of(record@),
        RlmLedgerRecord::Delete(r) => r.v == 1 && r.op@ == op_of(record@),
    }
}

/// The members that every record begins with.
pub open spec fn record_head(v: u32, op: Seq<char>, at: Seq<char>) -> Seq<(Seq<char>, JsonV)> {
    Seq::empty().push(("v"@, json::int_value(v as int))).push(("op"@, JsonV::Str(op))).push(
        ("at"@, JsonV::Str(at)),
    )
}

/// The document of a record.
pub open spec fn record_members(v: u32, op: Seq<char>, record: RecordV) -> Seq<
    (Seq<char>, JsonV),
> {
    match record {
        RecordV::Meta { at, sessions_dir } => record_head(v, op, at).push(
            ("sessionsDir"@, JsonV::Str(sessions_dir)),
        ),
        RecordV::Spawn { at, child_id, parent, child, depth, name } => record_head(
            v,
            op,
            at,
        ).push(("childId"@, JsonV::Str(child_id))).push(("parent"@, JsonV::Str(parent))).push(
            ("child"@, JsonV::Str(child)),
        ).push(("depth"@, json::int_value(depth as int))).push(("name"@, JsonV::Str(name))),
        RecordV::Rename { at, child_id, child, name } => record_head(v, op, at).push(
            ("childId"@, JsonV::Str(child_id)),
        ).push(("child"@, JsonV::Str(child))).push(("name"@, JsonV::Str(name))),
        RecordV::Delete { at, child_id, child, reason } => record_head(v, op, at).push(
            ("childId"@, JsonV::Str(child_id)),
        ).push(("child"@, JsonV::Str(child))).push(
            ("reason"@, JsonV::Str(reason_text(reason))),
        ),
    }
}

/// The document of a record of the version that is written.
pub open spec fn record_value(record: RecordV) -> JsonV {
    JsonV::Obj(record_members(1, op_of(record), record))
}

/// The version and the operation of a record.
pub open spec fn stamp(record: RlmLedgerRecord) -> (u32, Seq<char>) {
    match record {
        RlmLedgerRecord::Meta(r) => (r.v, r.op@),
        RlmLedgerRecord::Spawn(r) => (r.v, r.op@),
        RlmLedgerRecord::Rename(r) => (r.v, r.op@),
        RlmLedgerRecord::Delete(r) => (r.v, r.op@),
    }
}

fn head(v: u32, op: &str, at: &str) -> (r: Vec<(String, Json)>)
    ensures
        json::members(r@) == record_head(v, op@, at@),
{
    let mut pairs = no_members();
    add_member(&mut pairs, "v", integer(v as i64));
    add_text(&mut pairs, "op", op);
    add_text(&mut pairs, "at", at);
    pairs
}

impl RlmLedgerRecord {
    /// The name of the record's operation.
    pub fn op(&self) -> (r: &str)
        ensures
            r@ == stamp(*self).1,
    {
        match self {
            RlmLedgerRecord::Meta(record) => record.op.as_str(),
            RlmLedgerRecord::Spawn(record) => record.op.as_str(),
            RlmLedgerRecord::Rename(record) => record.op.as_str(),
            RlmLedgerRecord::Delete(record) => record.op.as_str(),
        }
    }

    /// The document of the record.
    pub fn to_value(&self) -> (r: Json)
        ensures
            r@ == JsonV::Obj(record_members(stamp(*self).0, stamp(*self).1, self@)),
            standard(*self) ==> r@ == record_value(self@),
    {
        match self {
            RlmLedgerRecord::Meta(record) => {
                let mut pairs = head(record.v, &record.op, &record.at);
                add_text(&mut pairs, "sessionsDir", &record.sessions_dir);
                object(pairs)
            },
            RlmLedgerRecord::Spawn(record) => {
                let mut pairs = head(record.v, &record.op, &record.at);
                add_text(&mut pairs, "childId", &record.child_id);
                add_text(&mut pairs, "parent", &record.parent);
                add_text(&mut pairs, "child", &record.child);
                add_member(&mut pairs, "depth", integer(record.depth));
                add_text(&mut pairs, "name", &record.name);
                object(pairs)
            },
            RlmLedgerRecord::Rename(record) => {
                let mut pairs = head(record.v, &record.op, &record.at);
                add_text(&mut pairs, "childId", &record.child_id);
                add_text(&mut pairs, "child", &record.child);
                add_text(&mut pairs, "name", &record.name);
                object(pairs)
            },
            RlmLedgerRecord::Delete(record) => {
                let mut pairs = head(record.v, &record.op, &record.at);
                add_text(&mut pairs, "childId", &record.child_id);
                add_text(&mut pairs, "child", &record.child);
                add_text(&mut pairs, "reason", record.reason.as_str());
                object(pairs)
            },
        }
    }
}

/// How a document of the ledger is read: a record, something to pass over, or an
/// error.
pub enum Reading {
    Record(RecordV),
    Unknown,
    Malformed(Seq<char>),
}

/// Reads a document of the ledger. A record of this version with an operation
/// that is not known is passed over; anything else that is no record is an error.
pub open spec fn read_record(value: JsonV) -> Reading {
    let op = value.str_at("op"@);
    match value.str_at("at"@) {
        Some(at) if value.i64_at("v"@) == Some(1i64) => if op == Some("meta"@) {
            match value.str_at("sessionsDir"@) {
                Some(sessions_dir) => Reading::Record(RecordV::Meta { at, sessions_dir }),
                None => Reading::Malformed("meta without sessionsDir"@),
            }
        } else if op == Some("spawn"@) {
            match (
                value.str_at("childId"@),
                value.str_at("parent"@),
                value.str_at("child"@),
                value.str_at("name"@),
                value.i64_at("depth"@),
            ) {
                (Some(child_id), Some(parent), Some(child), Some(name), Some(depth)) => if depth
                    >= 1 {
                    Reading::Record(
                        RecordV::Spawn { at, child_id, parent, child, depth, name },
                    )
                } else {
                    Reading::Malformed("invalid spawn record"@)
                },
                _ => Reading::Malformed("invalid spawn record"@),
            }
        } else if op == Some("rename"@) {
            match (value.str_at("childId"@), value.str_at("child"@), value.str_at("name"@)) {
                (Some(child_id), Some(child), Some(name)) => Reading::Record(
                    RecordV::Rename { at, child_id, child, name },
                ),
                _ => Reading::Malformed("invalid rename record"@),
            }
        } else if op == Some("delete"@) {
            match (
                value.str_at("childId"@),
                value.str_at("child"@),
                match value.str_at("reason"@) {
                    Some(reason) => reason_of(reason),
                    None => None,
                },
            ) {
                (Some(child_id), Some(child), Some(reason)) => Reading::Record(
                    RecordV::Delete { at, child_id, child, reason },
                ),
                _ => Reading::Malformed("invalid delete record"@),
            }
        } else {
            Reading::Unknown
        },
        _ => Reading::Malformed("missing v/at"@),
    }
}

/// Reads a line of the ledger.
pub open spec fn read_line(line: Seq<char>) -> Reading {
    match json::parsed_json(vstd::utf8::encode_utf8(line)) {
        Err(error) => Reading::Malformed(error),
        Ok(value) => read_record(value),
    }
}

/// The text for a malformed line, counted from one.
pub open spec fn malformed_text(index: nat, why: Seq<char>) -> Seq<char> {
    "Malformed RLM ledger line "@ + text::decimal_digits(index + 1) + ": "@ + why
}

fn malformed(index: usize, why: &str) -> (r: String)
    requires
        index < usize::MAX,
    ensures
        r@ == malformed_text(index as nat, why@),
{
    let digits = decimal(index as u64 + 1);
    cat4("Malformed RLM ledger line ", &digits, ": ", why)
}

fn read_document(value: &Json) -> (r: Result<Option<RlmLedgerRecord>, &'static str>)
    ensures
        match r {
            Ok(Some(record)) => standard(record) && read_record(value@) == Reading::Record(record@),
            Ok(None) => read_record(value@) is Unknown,
            Err(why) => read_record(value@) == Reading::Malformed(why@),
        },
{
    let at = match value.str_at("at") {
        Some(at) => at.to_owned(),
        None => return Err("missing v/at"),
    };
    match value.i64_at("v") {
        Some(v) => if v != 1 {
            return Err("missing v/at");
        },
        None => return Err("missing v/at"),
    }
    proof {
        op_names_differ();
    }
    if value.str_is("op", "meta") {
        match value.str_at("sessionsDir") {
            Some(sessions_dir) => Ok(
                Some(
                    RlmLedgerRecord::Meta(
                        RlmLedgerMetaRecord {
                            v: 1,
                            op: "meta".to_owned(),
                            at,
                            sessions_dir: sessions_dir.to_owned(),
                        },
                    ),
                ),
            ),
            None => Err("meta without sessionsDir"),
        }
    } else if value.str_is("op", "spawn") {
        match (
            value.str_at("childId"),
            value.str_at("parent"),
            value.str_at("child"),
            value.str_at("name"),
            value.i64_at("depth"),
        ) {
            (Some(child_id), Some(parent), Some(child), Some(name), Some(depth)) => if depth >= 1 {
                Ok(
                    Some(
                        RlmLedgerRecord::Spawn(
                            RlmLedgerSpawnRecord {
                                v: 1,
                                op: "spawn".to_owned(),
                                at,
                                child_id: child_id.to_owned(),
                                parent: parent.to_owned(),
                                child: child.to_owned(),
                                depth,
                                name: name.to_owned(),
                            },
                        ),
                    ),
                )
            } else {
                Err("invalid spawn record")
            },
            _ => Err("invalid spawn record"),
        }
    } else if value.str_is("op", "rename") {
        match (value.str_at("childId"), value.str_at("child"), value.str_at("name")) {
            (Some(child_id), Some(child), Some(name)) => Ok(
                Some(
                    RlmLedgerRecord::Rename(
                        RlmLedgerRenameRecord {
                            v: 1,
                            op: "rename".to_owned(),
                            at,
                            child_id: child_id.to_owned(),
                            child: child.to_owned(),
                            name: name.to_owned(),
                        },
                    ),
                ),
            ),
            _ => Err("invalid rename record"),
        }
    } else if value.str_is("op", "delete") {
        let reason: Option<RlmLedgerDeleteReason> = match value.str_at("reason") {
            Some(reason) => RlmLedgerDeleteReason::from_str(reason),
            None => None,
        };
        match (value.str_at("childId"), value.str_at("child"), reason) {
            (Some(child_id), Some(child), Some(reason)) => Ok(
                Some(
                    RlmLedgerRecord::Delete(
                        RlmLedgerDeleteRecord {
                            v: 1,
                            op: "delete".to_owned(),
                            at,
                            child_id: child_id.to_owned(),
                            child: child.to_owned(),
                            reason,
                        },
                    ),
                ),
            ),
            _ => Err("invalid delete record"),
        }
    } else {
        Ok(None)
    }
}

/// Reads one line of the ledger; `index` counts the lines from zero. Nothing for
/// a record of this version whose operation is not known.
pub fn parse_ledger_line(line: &str, index: usize) -> (r: Result<Option<RlmLedgerRecord>, String>)
    requires
        index < usize::MAX,
    ensures
        match r {
            Ok(Some(record)) => standard(record) && read_line(line@) == Reading::Record(record@),
            Ok(None) => read_line(line@) is Unknown,
            Err(error) => read_line(line@) matches Reading::Malformed(why) && error@
                == malformed_text(index as nat, why),
        },
{
    let value = match parse_json(line.as_bytes()) {
        Ok(value) => value,
        Err(error) => return Err(malformed(index, &error)),
    };
    match read_document(&value) {
        Ok(record) => Ok(record),
        Err(why) => Err(malformed(index, why)),
    }
}

proof fn op_names_differ()
    ensures
        "meta"@ != "spawn"@,
        "meta"@ != "rename"@,
        "meta"@ != "delete"@,
        "spawn"@ != "rename"@,
        "spawn"@ != "delete"@,
        "rename"@ != "delete"@,
{
    reveal_strlit("meta");
    reveal_strlit("spawn");
    reveal_strlit("rename");
    reveal_strlit("delete");
    assert("meta"@.len() == 4 && "spawn"@.len() == 5 && "rename"@.len() == 6 && "delete"@.len()
        == 6);
    assert("rename"@[0] == 'r' && "delete"@[0] == 'd');
}

proof fn record_keys_differ()
    ensures
        "v"@ != "op"@,
        "v"@ != "at"@,
        "v"@ != "sessionsDir"@,
        "v"@ != "childId"@,
        "v"@ != "parent"@,
        "v"@ != "child"@,
        "v"@ != "depth"@,
        "v"@ != "name"@,
        "v"@ != "reason"@,
        "op"@ != "at"@,
        "op"@ != "sessionsDir"@,
        "op"@ != "childId"@,
        "op"@ != "parent"@,
        "op"@ != "child"@,
        "op"@ != "depth"@,
        "op"@ != "name"@,
        "op"@ != "reason"@,
        "at"@ != "sessionsDir"@,
        "at"@ != "childId"@,
        "at"@ != "parent"@,
        "at"@ != "child"@,
        "at"@ != "depth"@,
        "at"@ != "name"@,
        "at"@ != "reason"@,
        "childId"@ != "parent"@,
        "childId"@ != "child"@,
        "childId"@ != "depth"@,
        "childId"@ != "name"@,
        "childId"@ != "reason"@,
        "parent"@ != "child"@,
        "parent"@ != "depth"@,
        "parent"@ != "name"@,
        "child"@ != "depth"@,
        "child"@ != "name"@,
        "child"@ != "reason"@,
        "depth"@ != "name"@,
{
    reveal_strlit("v");
    reveal_strlit("op");
    reveal_strlit("at");
    reveal_strlit("sessionsDir");
    reveal_strlit("childId");
    reveal_strlit("parent");
    reveal_strlit("child");
    reveal_strlit("depth");
    reveal_strlit("name");
    reveal_strlit("reason");
    assert("v"@.len() == 1);
    assert("op"@[0] == 'o' && "op"@.len() == 2);
    assert("at"@[0] == 'a' && "at"@.len() == 2);
    assert("sessionsDir"@.len() == 11);
    assert("childId"@.len() == 7);
    assert("parent"@.len() == 6 && "parent"@[0] == 'p');
    assert("child"@.len() == 5 && "child"@[0] == 'c');
    assert("depth"@.len() == 5 && "depth"@[0] == 'd');
    assert("name"@.len() == 4);
    assert("reason"@.len() == 6);
}

/// A record that was written as a document is read back from it; a spawn's depth
/// is at least one.
pub proof fn record_is_read_back(record: RecordV)
    requires
        record matches RecordV::Spawn { depth, .. } ==> depth >= 1,
    ensures
        read_record(record_value(record)) == Reading::Record(record),
{
    broadcast use {json::lookup_push, json::lookup_empty};

    record_keys_differ();
    op_names_differ();
    if let RecordV::Delete { reason, .. } = record {
        reason_is_read_back(reason);
    }
}

/// The documents of records read back as themselves.
pub proof fn record_fits(record: RecordV)
    ensures
        json::reads_back(record_value(record)),
{
    broadcast use {json::lookup_push, json::lookup_empty};

    record_keys_differ();
    let limit = json::MAX_NESTING as nat;
    let e = Seq::<(Seq<char>, JsonV)>::empty();
    let op = op_of(record);
    let at = match record {
        RecordV::Meta { at, .. } => at,
        RecordV::Spawn { at, .. } => at,
        RecordV::Rename { at, .. } => at,
        RecordV::Delete { at, .. } => at,
    };
    json::fits_empty(limit);
    json::fits_push(e, "v"@, json::int_value(1), limit);
    let a = e.push(("v"@, json::int_value(1)));
    json::fits_push(a, "op"@, JsonV::Str(op), limit);
    let b = a.push(("op"@, JsonV::Str(op)));
    json::fits_push(b, "at"@, JsonV::Str(at), limit);
    let h = b.push(("at"@, JsonV::Str(at)));
    assert(h == record_head(1, op, at));
    match record {
        RecordV::Meta { sessions_dir, .. } => {
            json::fits_push(h, "sessionsDir"@, JsonV::Str(sessions_dir), limit);
        },
        RecordV::Spawn { child_id, parent, child, depth, name, .. } => {
            json::fits_push(h, "childId"@, JsonV::Str(child_id), limit);
            let c = h.push(("childId"@, JsonV::Str(child_id)));
            json::fits_push(c, "parent"@, JsonV::Str(parent), limit);
            let d = c.push(("parent"@, JsonV::Str(parent)));
            json::fits_push(d, "child"@, JsonV::Str(child), limit);
            let f = d.push(("child"@, JsonV::Str(child)));
            json::fits_push(f, "depth"@, json::int_value(depth as int), limit);
            let g = f.push(("depth"@, json::int_value(depth as int)));
            json::fits_push(g, "name"@, JsonV::Str(name), limit);
        },
        RecordV::Rename { child_id, child, name, .. } => {
            json::fits_push(h, "childId"@, JsonV::Str(child_id), limit);
            let c = h.push(("childId"@, JsonV::Str(child_id)));
            json::fits_push(c, "child"@, JsonV::Str(child), limit);
            let d = c.push(("child"@, JsonV::Str(child)));
            json::fits_push(d, "name"@, JsonV::Str(name), limit);
        },
        RecordV::Delete { child_id, child, reason, .. } => {
            json::fits_push(h, "childId"@, JsonV::Str(child_id), limit);
            let c = h.push(("childId"@, JsonV::Str(child_id)));
            json::fits_push(c, "child"@, JsonV::Str(child), limit);
            let d = c.push(("child"@, JsonV::Str(child)));
            json::fits_push(d, "reason"@, JsonV::Str(reason_text(reason)), limit);
        },
    }
}

/// The line of the ledger that holds a record. It is read back as the record it
/// was written for.
pub fn record_line(record: &RlmLedgerRecord) -> (r: String)
    requires
        standard(*record),
        record@ matches RecordV::Spawn { depth, .. } ==> depth >= 1,
    ensures
        !r@.contains('\n'),
        r@ == json::printed_json(record_value(record@)),
        read_line(r@) == Reading::Record(record@),
{
    proof {
        record_fits(record@);
        record_is_read_back(record@);
    }
    let value = record.to_value();
    print_json(&value)
}

/// An edge of the topology: a child below its parent.
#[derive(Debug, PartialEq)]
pub struct RlmLedgerEdge {
    pub child_id: String,
    pub parent: String,
    pub child: String,
    pub depth: i64,
    pub name: String,
    pub deleted: Option<RlmLedgerDeleteReason>,
}

/// What an edge says.
#[verifier::ext_equal]
pub struct EdgeV {
    pub child_id: Seq<char>,
    pub parent: Seq<char>,
    pub child: Seq<char>,
    pub depth: i64,
    pub name: Seq<char>,
    pub deleted: Option<RlmLedgerDeleteReason>,
}

impl View for RlmLedgerEdge {
    type V = EdgeV;

    open spec fn view(&self) -> EdgeV {
        EdgeV {
            child_id: self.child_id@,
            parent: self.parent@,
            child: self.child@,
            depth: self.depth,
            name: self.name@,
            deleted: self.deleted,
        }
    }
}

impl Clone for RlmLedgerEdge {
    fn clone(&self) -> (r: Self)
        ensures
            r == *self,
    {
        RlmLedgerEdge {
            child_id: self.child_id.clone(),
            parent: self.parent.clone(),
            child: self.child.clone(),
            depth: self.depth,
            name: self.name.clone(),
            deleted: self.deleted,
        }
    }
}

/// What a list of edges says.
pub open spec fn edge_views(edges: Seq<RlmLedgerEdge>) -> Seq<EdgeV> {
    Seq::new(edges.len(), |i: int| edges[i]@)
}

/// The key of an edge: the child's id and its canonical path.
pub open spec fn edge_key_text(child_id: Seq<char>, canonical_child: Seq<char>) -> Seq<char> {
    child_id + seq!['\0'] + canonical_child
}

/// The key of an edge.
pub fn edge_key(child_id: &str, child: &str, paths: &PathFacts) -> (r: String)
    requires
        paths.wf(),
    ensures
        r@ == edge_key_text(child_id@, paths.canonical_of(child@)),
{
    let mut key = child_id.to_owned();
    key.push('\0');
    let canonical = paths.canonical(child);
    key.append(&canonical);
    assert(key@ =~= edge_key_text(child_id@, paths.canonical_of(child@)));
    key
}

/// The edges after one more record: a spawn sets its edge, whatever it was; a
/// rename and a deletion change an edge that is there.
pub open spec fn apply_record(
    edges: Seq<(Seq<char>, EdgeV)>,
    record: RecordV,
    paths: PathFacts,
) -> Seq<(Seq<char>, EdgeV)> {
    match record {
        RecordV::Meta { .. } => edges,
        RecordV::Spawn { child_id, parent, child, depth, name, .. } => assoc::set(
            edges,
            edge_key_text(child_id, paths.canonical_of(child)),
            EdgeV { child_id, parent, child, depth, name, deleted: None },
        ),
        RecordV::Rename { child_id, child, name, .. } => {
            let key = edge_key_text(child_id, paths.canonical_of(child));
            match assoc::find(edges, key) {
                Some(edge) => assoc::set(edges, key, EdgeV { name, ..edge }),
                None => edges,
            }
        },
        RecordV::Delete { child_id, child, reason, .. } => {
            let key = edge_key_text(child_id, paths.canonical_of(child));
            match assoc::find(edges, key) {
                Some(edge) => assoc::set(edges, key, EdgeV { deleted: Some(reason), ..edge }),
                None => edges,
            }
        },
    }
}

/// The edges after all records: the last writer wins.
pub open spec fn replay(records: Seq<RecordV>, paths: PathFacts) -> Seq<(Seq<char>, EdgeV)>
    decreases records.len(),
{
    if records.len() == 0 {
        Seq::empty()
    } else {
        apply_record(replay(records.drop_last(), paths), records.last(), paths)
    }
}

/// What a list of records says.
pub open spec fn record_views(records: Seq<RlmLedgerRecord>) -> Seq<RecordV> {
    Seq::new(records.len(), |i: int| records[i]@)
}

/// The edges without their keys.
pub open spec fn values_of(edges: Seq<(Seq<char>, EdgeV)>) -> Seq<EdgeV> {
    Seq::new(edges.len(), |i: int| edges[i].1)
}

/// The edges that are not deleted, or all of them.
pub open spec fn kept_edges(edges: Seq<EdgeV>, include_deleted: bool) -> Seq<EdgeV> {
    edges.filter(|edge: EdgeV| include_deleted || edge.deleted is None)
}

fn edges_of_index(index: &OrderedIndex<RlmLedgerEdge>) -> (r: Vec<RlmLedgerEdge>)
    requires
        index.wf(),
    ensures
        edge_views(r@) == values_of(
            assoc::mapped(index.pairs(), |edge: RlmLedgerEdge| edge@),
        ),
{
    let order = index.order();
    let mut out: Vec<RlmLedgerEdge> = Vec::new();
    let mut i: usize = 0;
    while i < order.len()
        invariant
            i <= order.len(),
            out@.len() == i,
            order@.len() == index.pairs().len(),
            forall|j: int|
                0 <= j < order@.len() ==> #[trigger] order@[j] < index.slots@.len()
                    && index.slots@[order@[j] as int] == index.pairs()[j].1,
            forall|j: int| 0 <= j < i ==> (#[trigger] out@[j])@ == index.pairs()[j].1@,
        decreases order.len() - i,
    {
        assert(order@[i as int] < index.slots.len());
        let at: usize = order[i] as usize;
        out.push(index.slots[at].clone());
        i += 1;
    }
    assert(edge_views(out@) =~= values_of(
        assoc::mapped(index.pairs(), |edge: RlmLedgerEdge| edge@),
    ));
    out
}

/// The edges that the records leave, in the order in which their keys first
/// appeared.
pub fn replay_edges(records: &Vec<RlmLedgerRecord>, paths: &PathFacts) -> (r: Vec<RlmLedgerEdge>)
    requires
        paths.wf(),
    ensures
        edge_views(r@) == values_of(replay(record_views(records@), *paths)),
{
    let mut index: OrderedIndex<RlmLedgerEdge> = OrderedIndex::new();
    let ghost f = |edge: RlmLedgerEdge| edge@;
    let mut i: usize = 0;
    proof {
        assert(record_views(records@).take(0) =~= Seq::empty());
        assert(assoc::mapped(index.pairs(), f) =~= Seq::empty());
    }
    while i < records.len()
        invariant
            i <= records.len(),
            paths.wf(),
            index.wf(),
            index.slots@.len() <= i,
            f == (|edge: RlmLedgerEdge| edge@),
            assoc::mapped(index.pairs(), f) == replay(
                record_views(records@).take(i as int),
                *paths,
            ),
        decreases records.len() - i,
    {
        let ghost next = record_views(records@).take(i + 1);
        let ghost before = index.pairs();
        assert(next.drop_last() =~= record_views(records@).take(i as int));
        assert(next.last() == records@[i as int]@);
        match &records[i] {
            RlmLedgerRecord::Meta(_) => {},
            RlmLedgerRecord::Spawn(record) => {
                let key = edge_key(&record.child_id, &record.child, paths);
                let edge = RlmLedgerEdge {
                    child_id: record.child_id.clone(),
                    parent: record.parent.clone(),
                    child: record.child.clone(),
                    depth: record.depth,
                    name: record.name.clone(),
                    deleted: None,
                };
                proof {
                    assoc::mapped_set(before, key@, edge, f);
                }
                index.put(key, edge);
            },
            RlmLedgerRecord::Rename(record) => {
                let key = edge_key(&record.child_id, &record.child, paths);
                proof {
                    assoc::mapped_find(before, key@, f);
                }
                let found: Option<RlmLedgerEdge> = match index.get(&key) {
                    Some(edge) => Some(edge.clone()),
                    None => None,
                };
                if let Some(edge) = found {
                    let renamed = RlmLedgerEdge {
                        child_id: edge.child_id,
                        parent: edge.parent,
                        child: edge.child,
                        depth: edge.depth,
                        name: record.name.clone(),
                        deleted: edge.deleted,
                    };
                    proof {
                        assoc::mapped_set(before, key@, renamed, f);
                    }
                    index.put(key, renamed);
                }
            },
            RlmLedgerRecord::Delete(record) => {
                let key = edge_key(&record.child_id, &record.child, paths);
                proof {
                    assoc::mapped_find(before, key@, f);
                }
                let found: Option<RlmLedgerEdge> = match index.get(&key) {
                    Some(edge) => Some(edge.clone()),
                    None => None,
                };
                if let Some(edge) = found {
                    let deleted = RlmLedgerEdge {
                        child_id: edge.child_id,
                        parent: edge.parent,
                        child: edge.child,
                        depth: edge.depth,
                        name: edge.name,
                        deleted: Some(record.reason),
                    };
                    proof {
                        assoc::mapped_set(before, key@, deleted, f);
                    }
                    index.put(key, deleted);
                }
            },
        }
        i += 1;
    }
    assert(record_views(records@).take(i as int) =~= record_views(records@));
    edges_of_index(&index)
}

/// No two edges of a replay share a key.
pub proof fn replayed_keys_differ(records: Seq<RecordV>, paths: PathFacts)
    ensures
        assoc::keys_differ(replay(records, paths)),
    decreases records.len(),
{
    if records.len() > 0 {
        let before = replay(records.drop_last(), paths);
        replayed_keys_differ(records.drop_last(), paths);
        match records.last() {
            RecordV::Meta { .. } => {},
            RecordV::Spawn { child_id, parent, child, depth, name, .. } => {
                assoc::set_keeps_keys_apart(
                    before,
                    edge_key_text(child_id, paths.canonical_of(child)),
                    EdgeV { child_id, parent, child, depth, name, deleted: None },
                );
            },
            RecordV::Rename { child_id, child, name, .. } => {
                let key = edge_key_text(child_id, paths.canonical_of(child));
                if let Some(edge) = assoc::find(before, key) {
                    assoc::set_keeps_keys_apart(before, key, EdgeV { name, ..edge });
                }
            },
            RecordV::Delete { child_id, child, reason, .. } => {
                let key = edge_key_text(child_id, paths.canonical_of(child));
                if let Some(edge) = assoc::find(before, key) {
                    assoc::set_keeps_keys_apart(
                        before,
                        key,
                        EdgeV { deleted: Some(reason), ..edge },
                    );
                }
            },
        }
    }
}

/// A deletion that is appended leaves its edge as a tombstone; the other edges
/// stay as they were.
pub proof fn deletion_leaves_a_tombstone(
    records: Seq<RecordV>,
    at: Seq<char>,
    child_id: Seq<char>,
    child: Seq<char>,
    reason: RlmLedgerDeleteReason,
    paths: PathFacts,
    other: Seq<char>,
)
    ensures
        ({
            let key = edge_key_text(child_id, paths.canonical_of(child));
            let before = replay(records, paths);
            let after = replay(
                records.push(RecordV::Delete { at, child_id, child, reason }),
                paths,
            );
            &&& assoc::find(before, key) matches Some(edge) ==> assoc::find(after, key) == Some(
                EdgeV { deleted: Some(reason), ..edge },
            )
            &&& assoc::find(before, key) is None ==> after == before
            &&& other != key ==> assoc::find(after, other) == assoc::find(before, other)
        }),
{
    broadcast use assoc::find_set;

    let more = records.push(RecordV::Delete { at, child_id, child, reason });
    assert(more.drop_last() =~= records);
}

/// A spawn that is appended makes its edge live under its own name and depth,
/// also where the edge was deleted before.
pub proof fn spawn_makes_a_live_edge(
    records: Seq<RecordV>,
    at: Seq<char>,
    child_id: Seq<char>,
    parent: Seq<char>,
    child: Seq<char>,
    depth: i64,
    name: Seq<char>,
    paths: PathFacts,
)
    ensures
        assoc::find(
            replay(
                records.push(RecordV::Spawn { at, child_id, parent, child, depth, name }),
                paths,
            ),
            edge_key_text(child_id, paths.canonical_of(child)),
        ) == Some(EdgeV { child_id, parent, child, depth, name, deleted: None }),
{
    broadcast use assoc::find_set;

    let more = records.push(RecordV::Spawn { at, child_id, parent, child, depth, name });
    assert(more.drop_last() =~= records);
}

/// A rename that is appended changes the name of its edge and nothing else.
pub proof fn rename_changes_only_the_name(
    records: Seq<RecordV>,
    at: Seq<char>,
    child_id: Seq<char>,
    child: Seq<char>,
    name: Seq<char>,
    paths: PathFacts,
)
    ensures
        ({
            let key = edge_key_text(child_id, paths.canonical_of(child));
            let before = replay(records, paths);
            let after = replay(
                records.push(RecordV::Rename { at, child_id, child, name }),
                paths,
            );
            match assoc::find(before, key) {
                Some(edge) => assoc::find(after, key) == Some(EdgeV { name, ..edge }),
                None => after == before,
            }
        }),
{
    broadcast use assoc::find_set;

    let more = records.push(RecordV::Rename { at, child_id, child, name });
    assert(more.drop_last() =~= records);
}


/// A list of edges filtered like the list of what they say.
proof fn filter_views(edges: Seq<RlmLedgerEdge>, n: int, keep: spec_fn(EdgeV) -> bool)
    requires
        0 <= n < edges.len(),
    ensures
        edge_views(edges).take(n + 1).filter(keep) == if keep(edges[n]@) {
            edge_views(edges).take(n).filter(keep).push(edges[n]@)
        } else {
            edge_views(edges).take(n).filter(keep)
        },
{
    reveal(Seq::filter);
    assert(edge_views(edges).take(n + 1).drop_last() =~= edge_views(edges).take(n));
    assert(edge_views(edges).take(n + 1).last() == edges[n]@);
}

/// The edges; those that are deleted only where they are asked for.
pub fn edges(all: &Vec<RlmLedgerEdge>, include_deleted: bool) -> (r: Vec<RlmLedgerEdge>)
    ensures
        edge_views(r@) == kept_edges(edge_views(all@), include_deleted),
{
    let ghost keep = |edge: EdgeV| include_deleted || edge.deleted is None;
    let mut out: Vec<RlmLedgerEdge> = Vec::new();
    let mut i: usize = 0;
    proof {
        reveal(Seq::filter);
        assert(edge_views(all@).take(0) =~= Seq::empty());
        assert(edge_views(out@) =~= edge_views(all@).take(0).filter(keep));
    }
    while i < all.len()
        invariant
            i <= all.len(),
            keep == (|edge: EdgeV| include_deleted || edge.deleted is None),
            edge_views(out@) == edge_views(all@).take(i as int).filter(keep),
        decreases all.len() - i,
    {
        proof {
            filter_views(all@, i as int, keep);
        }
        let ghost before = edge_views(out@);
        if include_deleted || all[i].deleted.is_none() {
            out.push(all[i].clone());
            assert(edge_views(out@) =~= before.push(all@[i as int]@));
        }
        i += 1;
    }
    assert(edge_views(all@).take(i as int) =~= edge_views(all@));
    out
}

/// Both ends of the edge are files.
pub open spec fn is_live(edge: EdgeV, paths: PathFacts) -> bool {
    paths.is_file_path(edge.child) && paths.is_file_path(edge.parent)
}

/// The edges both ends of which are files.
pub fn live_edges(all: &Vec<RlmLedgerEdge>, paths: &PathFacts) -> (r: Vec<RlmLedgerEdge>)
    requires
        paths.wf(),
    ensures
        edge_views(r@) == edge_views(all@).filter(|edge: EdgeV| is_live(edge, *paths)),
{
    let ghost keep = |edge: EdgeV| is_live(edge, *paths);
    let mut out: Vec<RlmLedgerEdge> = Vec::new();
    let mut i: usize = 0;
    proof {
        reveal(Seq::filter);
        assert(edge_views(all@).take(0) =~= Seq::empty());
        assert(edge_views(out@) =~= edge_views(all@).take(0).filter(keep));
    }
    while i < all.len()
        invariant
            i <= all.len(),
            paths.wf(),
            keep == (|edge: EdgeV| is_live(edge, *paths)),
            edge_views(out@) == edge_views(all@).take(i as int).filter(keep),
        decreases all.len() - i,
    {
        proof {
            filter_views(all@, i as int, keep);
        }
        let ghost before = edge_views(out@);
        let child: bool = paths.is_file(&all[i].child);
        let parent: bool = paths.is_file(&all[i].parent);
        if child && parent {
            out.push(all[i].clone());
            assert(edge_views(out@) =~= before.push(all@[i as int]@));
        }
        i += 1;
    }
    assert(edge_views(all@).take(i as int) =~= edge_views(all@));
    out
}

/// The child at this canonical path is known under another id.
pub open spec fn conflicts(
    edge: EdgeV,
    child_id: Seq<char>,
    child_path: Seq<char>,
    paths: PathFacts,
) -> bool {
    edge.deleted is None && paths.canonical_of(edge.child) == child_path && edge.child_id
        != child_id
}

/// The first edge that conflicts with a spawn.
pub open spec fn first_conflict(
    edges: Seq<EdgeV>,
    child_id: Seq<char>,
    child_path: Seq<char>,
    paths: PathFacts,
) -> Option<EdgeV>
    decreases edges.len(),
{
    if edges.len() == 0 {
        None
    } else if conflicts(edges[0], child_id, child_path, paths) {
        Some(edges[0])
    } else {
        first_conflict(edges.drop_first(), child_id, child_path, paths)
    }
}

/// A child that asks to be admitted.
#[derive(Debug, Clone)]
pub struct RlmSpawnInput {
    pub child_id: String,
    pub parent: String,
    pub child: String,
    pub depth: i64,
    pub name: String,
}

/// A child can be admitted only with an id, a parent, a path and a depth of at
/// least one.
pub open spec fn spawn_valid(input: RlmSpawnInput) -> bool {
    input.child_id@.len() > 0 && input.parent@.len() > 0 && input.child@.len() > 0 && input.depth
        >= 1
}

/// Admits a child at the given time: the record to be appended, or why there is
/// none.
pub fn append_spawn_at(
    input: &RlmSpawnInput,
    all: &Vec<RlmLedgerEdge>,
    paths: &PathFacts,
    at: &str,
) -> (r: Result<RlmLedgerRecord, String>)
    requires
        paths.wf(),
    ensures
        spawn_result(*input, edge_views(all@), *paths, at@, r),
{
    if input.child_id.as_str().is_empty() || input.parent.as_str().is_empty()
        || input.child.as_str().is_empty() || input.depth < 1 {
        let shown: &str = if input.child_id.as_str().is_empty() {
            "<missing childId>"
        } else {
            input.child_id.as_str()
        };
        let depth = signed_decimal(input.depth);
        return Err(
            cat5("RLM ledger: invalid spawn for ", shown, " (depth ", &depth, ")"),
        );
    }
    let child_path = paths.canonical(&input.child);
    let ghost views = edge_views(all@);
    let mut i: usize = 0;
    assert(views.skip(0) =~= views);
    while i < all.len()
        invariant
            i <= all.len(),
            paths.wf(),
            views == edge_views(all@),
            spawn_valid(*input),
            child_path@ == paths.canonical_of(input.child@),
            first_conflict(views, input.child_id@, child_path@, *paths) == first_conflict(
                views.skip(i as int),
                input.child_id@,
                child_path@,
                *paths,
            ),
        decreases all.len() - i,
    {
        proof {
            assert(views.skip(i as int)[0] == all@[i as int]@);
            assert(views.skip(i as int).drop_first() =~= views.skip(i + 1));
        }
        let edge = &all[i];
        let canonical = paths.canonical(&edge.child);
        if edge.deleted.is_none() && same(&canonical, &child_path) && !same(
            &edge.child_id,
            &input.child_id,
        ) {
            return Err(
                cat5(
                    "RLM ledger: duplicate child session path ",
                    &child_path,
                    " (already ",
                    &edge.child_id,
                    ")",
                ),
            );
        }
        i += 1;
    }
    Ok(
        RlmLedgerRecord::Spawn(
            RlmLedgerSpawnRecord {
                v: 1,
                op: "spawn".to_owned(),
                at: at.to_owned(),
                child_id: input.child_id.clone(),
                parent: paths.canonical(&input.parent),
                child: child_path,
                depth: input.depth,
                name: input.name.clone(),
            },
        ),
    )
}

/// What comes of a child that asks to be admitted.
pub open spec fn spawn_result(
    input: RlmSpawnInput,
    edges: Seq<EdgeV>,
    paths: PathFacts,
    at: Seq<char>,
    r: Result<RlmLedgerRecord, String>,
) -> bool {
    let child_path = paths.canonical_of(input.child@);
    let conflict = first_conflict(edges, input.child_id@, child_path, paths);
    match r {
        Ok(record) => {
            &&& spawn_valid(input)
            &&& conflict is None
            &&& standard(record)
            &&& record@ == RecordV::Spawn {
                at,
                child_id: input.child_id@,
                parent: paths.canonical_of(input.parent@),
                child: child_path,
                depth: input.depth,
                name: input.name@,
            }
        },
        Err(error) => if !spawn_valid(input) {
            error@ == "RLM ledger: invalid spawn for "@ + (if input.child_id@.len() == 0 {
                "<missing childId>"@
            } else {
                input.child_id@
            }) + " (depth "@ + text::signed_digits(input.depth as int) + ")"@
        } else {
            conflict matches Some(edge) && error@ == "RLM ledger: duplicate child session path "@
                + child_path + " (already "@ + edge.child_id + ")"@
        },
    }
}

/// The record that renames a child.
pub fn rename_record(child_id: &str, child: &str, name: &str, paths: &PathFacts, at: &str) -> (r:
    RlmLedgerRecord)
    requires
        paths.wf(),
    ensures
        standard(r),
        r@ == (RecordV::Rename {
            at: at@,
            child_id: child_id@,
            child: paths.canonical_of(child@),
            name: name@,
        }),
{
    RlmLedgerRecord::Rename(
        RlmLedgerRenameRecord {
            v: 1,
            op: "rename".to_owned(),
            at: at.to_owned(),
            child_id: child_id.to_owned(),
            child: paths.canonical(child),
            name: name.to_owned(),
        },
    )
}

/// The record that deletes a child.
pub fn delete_record(
    child_id: &str,
    child: &str,
    reason: RlmLedgerDeleteReason,
    paths: &PathFacts,
    at: &str,
) -> (r: RlmLedgerRecord)
    requires
        paths.wf(),
    ensures
        standard(r),
        r@ == (RecordV::Delete {
            at: at@,
            child_id: child_id@,
            child: paths.canonical_of(child@),
            reason,
        }),
{
    RlmLedgerRecord::Delete(
        RlmLedgerDeleteRecord {
            v: 1,
            op: "delete".to_owned(),
            at: at.to_owned(),
            child_id: child_id.to_owned(),
            child: paths.canonical(child),
            reason,
        },
    )
}

/// The edge is live in the ledger and its child is at this canonical path.
pub open spec fn is_child_at(edge: EdgeV, target: Seq<char>, paths: PathFacts) -> bool {
    edge.deleted is None && paths.canonical_of(edge.child) == target
}

/// The edges that are not deleted and whose child is at this canonical path.
pub fn edges_at(all: &Vec<RlmLedgerEdge>, target: &str, paths: &PathFacts) -> (r: Vec<
    RlmLedgerEdge,
>)
    requires
        paths.wf(),
    ensures
        edge_views(r@) == edge_views(all@).filter(
            |edge: EdgeV| is_child_at(edge, target@, *paths),
        ),
{
    let ghost keep = |edge: EdgeV| is_child_at(edge, target@, *paths);
    let mut out: Vec<RlmLedgerEdge> = Vec::new();
    let mut i: usize = 0;
    proof {
        reveal(Seq::filter);
        assert(edge_views(all@).take(0) =~= Seq::empty());
        assert(edge_views(out@) =~= edge_views(all@).take(0).filter(keep));
    }
    while i < all.len()
        invariant
            i <= all.len(),
            paths.wf(),
            keep == (|edge: EdgeV| is_child_at(edge, target@, *paths)),
            edge_views(out@) == edge_views(all@).take(i as int).filter(keep),
        decreases all.len() - i,
    {
        proof {
            filter_views(all@, i as int, keep);
        }
        let ghost before = edge_views(out@);
        let canonical = paths.canonical(&all[i].child);
        if all[i].deleted.is_none() && same(&canonical, target) {
            out.push(all[i].clone());
            assert(edge_views(out@) =~= before.push(all@[i as int]@));
        }
        i += 1;
    }
    assert(edge_views(all@).take(i as int) =~= edge_views(all@));
    out
}

/// The records that rename every edge whose child is at a path: a rename that
/// knows the path alone.
pub fn rename_by_child_path_at(
    all: &Vec<RlmLedgerEdge>,
    child: &str,
    name: &str,
    paths: &PathFacts,
    at: &str,
) -> (r: Vec<RlmLedgerRecord>)
    requires
        paths.wf(),
    ensures
        ({
            let target = paths.canonical_of(child@);
            let hit = edge_views(all@).filter(|edge: EdgeV| is_child_at(edge, target, *paths));
            &&& r@.len() == hit.len()
            &&& forall|i: int|
                0 <= i < r@.len() ==> standard(#[trigger] r@[i]) && r@[i]@ == (RecordV::Rename {
                    at: at@,
                    child_id: hit[i].child_id,
                    child: target,
                    name: name@,
                })
        }),
{
    let target = paths.canonical(child);
    let hit = edges_at(all, &target, paths);
    let mut out: Vec<RlmLedgerRecord> = Vec::new();
    let mut i: usize = 0;
    while i < hit.len()
        invariant
            i <= hit.len(),
            out@.len() == i,
            forall|j: int|
                0 <= j < i ==> standard(#[trigger] out@[j]) && out@[j]@ == (RecordV::Rename {
                    at: at@,
                    child_id: hit@[j].child_id@,
                    child: target@,
                    name: name@,
                }),
        decreases hit.len() - i,
    {
        out.push(
            RlmLedgerRecord::Rename(
                RlmLedgerRenameRecord {
                    v: 1,
                    op: "rename".to_owned(),
                    at: at.to_owned(),
                    child_id: hit[i].child_id.clone(),
                    child: target.clone(),
                    name: name.to_owned(),
                },
            ),
        );
        i += 1;
    }
    assert(forall|j: int|
        0 <= j < hit@.len() ==> edge_views(hit@)[j].child_id == (#[trigger] hit@[j]).child_id@);
    out
}

/// The row of a session: what its file says, with the topology of the ledger.
pub open spec fn row_of(
    path: Seq<char>,
    info: Option<SessionInfoV>,
    depth: i64,
    parent: Option<Seq<char>>,
    name: Option<Seq<char>>,
) -> SessionInfoV {
    match info {
        Some(info) => SessionInfoV {
            parent_session_path: parent,
            rlm_depth: depth,
            name: match name {
                Some(name) => Some(name),
                None => info.name,
            },
            ..info
        },
        None => SessionInfoV {
            path,
            id: path_facts::without_suffix(path_facts::name_of(path), ".jsonl"@),
            cwd: Seq::empty(),
            name,
            state: None,
            parent_session_path: parent,
            rlm_depth: depth,
            created: Some(0),
            modified: Some(0),
            message_count: 0,
            first_message: Seq::empty(),
            all_messages_text: Seq::empty(),
            agent_status: None,
            usage: None,
        },
    }
}

/// The row of a session.
pub fn session_row(
    path: &str,
    info: Option<&SessionInfo>,
    depth: i64,
    parent_path: Option<&str>,
    name: Option<&str>,
) -> (r: SessionInfo)
    ensures
        r@ == row_of(
            path@,
            match info {
                Some(info) => Some(info@),
                None => None,
            },
            depth,
            json::opt_str_view(parent_path),
            json::opt_str_view(name),
        ),
{
    match info {
        Some(info) => {
            let mut row = info.clone();
            row.parent_session_path = owned(parent_path);
            row.rlm_depth = depth;
            if let Some(name) = name {
                row.name = Some(name.to_owned());
            }
            row
        },
        None => {
            let file_name = basename_of(path);
            SessionInfo {
                id: strip_suffix(&file_name, ".jsonl"),
                path: path.to_owned(),
                cwd: String::new(),
                name: owned(name),
                state: None,
                parent_session_path: owned(parent_path),
                rlm_depth: depth,
                created: Some(0),
                modified: Some(0),
                message_count: 0,
                first_message: String::new(),
                all_messages_text: String::new(),
                agent_status: None,
                usage: None,
            }
        },
    }
}

/// The depth that the ledger knows for a path: that of the last edge whose child
/// is there.
pub open spec fn depth_at(edges: Seq<EdgeV>, path: Seq<char>, paths: PathFacts) -> Option<i64>
    decreases edges.len(),
{
    if edges.len() == 0 {
        None
    } else if paths.canonical_of(edges.last().child) == path {
        Some(edges.last().depth)
    } else {
        depth_at(edges.drop_last(), path, paths)
    }
}

fn known_depth(all: &Vec<RlmLedgerEdge>, path: &str, paths: &PathFacts) -> (r: Option<i64>)
    requires
        paths.wf(),
    ensures
        r == depth_at(edge_views(all@), path@, *paths),
{
    let ghost views = edge_views(all@);
    let mut i: usize = all.len();
    assert(views.take(i as int) =~= views);
    while i > 0
        invariant
            i <= all.len(),
            paths.wf(),
            views == edge_views(all@),
            depth_at(views, path@, *paths) == depth_at(views.take(i as int), path@, *paths),
        decreases i,
    {
        proof {
            assert(views.take(i as int).last() == all@[i - 1]@);
            assert(views.take(i as int).drop_last() =~= views.take(i - 1));
        }
        let canonical = paths.canonical(&all[i - 1].child);
        if same(&canonical, path) {
            return Some(all[i - 1].depth);
        }
        i -= 1;
    }
    None
}

/// The depth of an edge is one more than the depth that the ledger knows for its
/// parent, where it knows one.
pub open spec fn depth_agrees(edge: EdgeV, edges: Seq<EdgeV>, paths: PathFacts) -> bool {
    match depth_at(edges, paths.canonical_of(edge.parent), paths) {
        Some(parent_depth) => edge.depth == parent_depth + 1,
        None => true,
    }
}

/// The edges whose depth agrees with that of their parent.
pub fn consistent_edges(all: &Vec<RlmLedgerEdge>, paths: &PathFacts) -> (r: Vec<RlmLedgerEdge>)
    requires
        paths.wf(),
    ensures
        edge_views(r@) == edge_views(all@).filter(
            |edge: EdgeV| depth_agrees(edge, edge_views(all@), *paths),
        ),
        edge_views(r@) == agreeing(edge_views(all@), *paths),
        depths_are_a_tree(edge_views(all@), *paths) ==> edge_views(r@) == edge_views(all@),
{
    proof {
        if depths_are_a_tree(edge_views(all@), *paths) {
            trees_are_kept_whole(edge_views(all@), *paths);
        }
    }
    let ghost keep = |edge: EdgeV| depth_agrees(edge, edge_views(all@), *paths);
    let mut out: Vec<RlmLedgerEdge> = Vec::new();
    let mut i: usize = 0;
    proof {
        reveal(Seq::filter);
        assert(edge_views(all@).take(0) =~= Seq::empty());
        assert(edge_views(out@) =~= edge_views(all@).take(0).filter(keep));
    }
    while i < all.len()
        invariant
            i <= all.len(),
            paths.wf(),
            keep == (|edge: EdgeV| depth_agrees(edge, edge_views(all@), *paths)),
            edge_views(out@) == edge_views(all@).take(i as int).filter(keep),
        decreases all.len() - i,
    {
        proof {
            filter_views(all@, i as int, keep);
        }
        let ghost before = edge_views(out@);
        let parent = paths.canonical(&all[i].parent);
        let agrees: bool = match known_depth(all, &parent, paths) {
            Some(parent_depth) => parent_depth < i64::MAX && all[i].depth == parent_depth + 1,
            None => true,
        };
        if agrees {
            out.push(all[i].clone());
            assert(edge_views(out@) =~= before.push(all@[i as int]@));
        }
        i += 1;
    }
    assert(edge_views(all@).take(i as int) =~= edge_views(all@));
    out
}

/// In the ledger the depths agree: every edge whose parent is itself a child is one
/// deeper than each edge that leads to that parent.
pub open spec fn depths_are_a_tree(edges: Seq<EdgeV>, paths: PathFacts) -> bool {
    forall|i: int, j: int|
        0 <= i < edges.len() && 0 <= j < edges.len() && paths.canonical_of(
            (#[trigger] edges[i]).parent,
        ) == paths.canonical_of((#[trigger] edges[j]).child) ==> edges[i].depth == edges[j].depth
            + 1
}

proof fn depth_at_is_of_an_edge(edges: Seq<EdgeV>, path: Seq<char>, paths: PathFacts)
    ensures
        match depth_at(edges, path, paths) {
            Some(depth) => exists|j: int|
                0 <= j < edges.len() && paths.canonical_of((#[trigger] edges[j]).child) == path
                    && edges[j].depth == depth,
            None => forall|j: int|
                0 <= j < edges.len() ==> paths.canonical_of((#[trigger] edges[j]).child) != path,
        },
    decreases edges.len(),
{
    if edges.len() > 0 {
        let fewer = edges.drop_last();
        depth_at_is_of_an_edge(fewer, path, paths);
        let last = edges[edges.len() - 1];
        if paths.canonical_of(last.child) != path {
            if depth_at(fewer, path, paths) is Some {
                let j = choose|j: int|
                    0 <= j < fewer.len() && paths.canonical_of((#[trigger] fewer[j]).child) == path
                        && fewer[j].depth == depth_at(fewer, path, paths)->0;
                assert(edges[j] == fewer[j]);
            } else {
                assert forall|j: int| 0 <= j < edges.len() implies paths.canonical_of(
                    (#[trigger] edges[j]).child,
                ) != path by {
                    if j < fewer.len() {
                        assert(edges[j] == fewer[j]);
                    }
                }
            }
        }
    }
}

/// The edges that are kept for their depths.
pub open spec fn agreeing(edges: Seq<EdgeV>, paths: PathFacts) -> Seq<EdgeV> {
    edges.filter(|edge: EdgeV| depth_agrees(edge, edges, paths))
}

/// Of a tree nothing is dropped, however deep it is: every edge is kept, in order.
pub proof fn trees_are_kept_whole(edges: Seq<EdgeV>, paths: PathFacts)
    requires
        depths_are_a_tree(edges, paths),
    ensures
        agreeing(edges, paths) == edges,
        edges.filter(|edge: EdgeV| depth_agrees(edge, edges, paths)) == edges,
{
    let keep = |edge: EdgeV| depth_agrees(edge, edges, paths);
    assert forall|i: int| 0 <= i < edges.len() implies keep(#[trigger] edges[i]) by {
        depth_at_is_of_an_edge(edges, paths.canonical_of(edges[i].parent), paths);
    }
    keeping_all_changes_nothing(edges, keep);
}

proof fn keeping_all_changes_nothing(edges: Seq<EdgeV>, keep: spec_fn(EdgeV) -> bool)
    requires
        forall|i: int| 0 <= i < edges.len() ==> keep(#[trigger] edges[i]),
    ensures
        edges.filter(keep) == edges,
    decreases edges.len(),
{
    reveal(Seq::filter);
    if edges.len() > 0 {
        let fewer = edges.drop_last();
        assert forall|i: int| 0 <= i < fewer.len() implies keep(#[trigger] fewer[i]) by {
            assert(fewer[i] == edges[i]);
        }
        keeping_all_changes_nothing(fewer, keep);
        assert(keep(edges[edges.len() - 1]));
        assert(fewer.push(edges.last()) =~= edges);
    }
}

/// An edge that is kept is in the ledger, and is one deeper than its parent, where all
/// edges that lead to its parent agree on how deep that is. An edge whose parent is
/// nobody's child is kept, whatever its depth.
pub proof fn kept_edges_are_one_deeper(edges: Seq<EdgeV>, paths: PathFacts, i: int, depth: i64)
    requires
        0 <= i < edges.len(),
    ensures
        forall|edge: EdgeV| #[trigger] agreeing(edges, paths).contains(edge) ==> edges.contains(edge),
        (exists|j: int|
            0 <= j < edges.len() && paths.canonical_of((#[trigger] edges[j]).child)
                == paths.canonical_of(edges[i].parent)) && (forall|j: int|
            0 <= j < edges.len() && paths.canonical_of((#[trigger] edges[j]).child)
                == paths.canonical_of(edges[i].parent) ==> edges[j].depth == depth) ==> (agreeing(
            edges,
            paths,
        ).contains(edges[i]) <==> edges[i].depth == depth + 1),
        (forall|j: int|
            0 <= j < edges.len() ==> paths.canonical_of((#[trigger] edges[j]).child)
                != paths.canonical_of(edges[i].parent)) ==> agreeing(edges, paths).contains(
            edges[i],
        ),
{
    broadcast use vstd::seq_lib::group_filter_ensures;

    let keep = |edge: EdgeV| depth_agrees(edge, edges, paths);
    depth_at_is_of_an_edge(edges, paths.canonical_of(edges[i].parent), paths);
    assert(edges.contains(edges[i]));
    if keep(edges[i]) {
        assert(edges.filter(keep).contains(edges[i]));
    }
    assert forall|edge: EdgeV| #[trigger] agreeing(edges, paths).contains(edge) implies
        edges.contains(edge) && keep(edge) by {
        let kept = edges.filter(keep);
        let k = choose|k: int| 0 <= k < kept.len() && kept[k] == edge;
        assert(keep(kept[k]));
        edges.lemma_filter_contains_rev(keep, kept[k]);
    }
}

/// The session files among the entries of a directory, in order.
pub fn session_file_names(entries: &Vec<String>) -> (r: Vec<String>)
    ensures
        text::in_order(text::texts(r@)),
        r@.to_multiset() == entries@.filter(|name: String| text::ends(name@, ".jsonl"@)).to_multiset(),
{
    let ghost keep = |name: String| text::ends(name@, ".jsonl"@);
    let mut out: Vec<String> = Vec::new();
    let mut i: usize = 0;
    proof {
        reveal(Seq::filter);
        assert(entries@.take(0) =~= Seq::empty());
        assert(out@ =~= entries@.take(0).filter(keep));
    }
    while i < entries.len()
        invariant
            i <= entries.len(),
            keep == (|name: String| text::ends(name@, ".jsonl"@)),
            out@ == entries@.take(i as int).filter(keep),
        decreases entries.len() - i,
    {
        proof {
            reveal(Seq::filter);
            assert(entries@.take(i + 1).drop_last() =~= entries@.take(i as int));
        }
        if ends_with(&entries[i], ".jsonl") {
            out.push(entries[i].clone());
        }
        i += 1;
    }
    assert(entries@.take(i as int) =~= entries@);
    sort_texts(out)
}

/// A child of an edge is at this canonical path.
pub open spec fn child_is_at(edges: Seq<EdgeV>, path: Seq<char>, paths: PathFacts) -> bool {
    exists|i: int| 0 <= i < edges.len() && paths.canonical_of((#[trigger] edges[i]).child) == path
}

fn has_child_at(all: &Vec<RlmLedgerEdge>, path: &str, paths: &PathFacts) -> (r: bool)
    requires
        paths.wf(),
    ensures
        r == child_is_at(edge_views(all@), path@, *paths),
{
    let mut i: usize = 0;
    while i < all.len()
        invariant
            i <= all.len(),
            paths.wf(),
            forall|j: int|
                0 <= j < i ==> paths.canonical_of((#[trigger] all@[j]).child@) != path@,
        decreases all.len() - i,
    {
        let canonical = paths.canonical(&all[i].child);
        if same(&canonical, path) {
            assert(paths.canonical_of(edge_views(all@)[i as int].child) == path@);
            return true;
        }
        i += 1;
    }
    assert forall|j: int| 0 <= j < edge_views(all@).len() implies paths.canonical_of(
        (#[trigger] edge_views(all@)[j]).child,
    ) != path@ by {
        assert(paths.canonical_of(all@[j].child@) != path@);
    }
    false
}

/// What was read of the session at a path.
pub open spec fn info_at(read: Map<Seq<char>, SessionInfo>, path: Seq<char>) -> Option<
    SessionInfoV,
> {
    if read.contains_key(path) {
        Some(read[path]@)
    } else {
        None
    }
}

/// The canonical paths of the sessions in a directory that are no children.
pub open spec fn root_paths(
    names: Seq<Seq<char>>,
    dir: Seq<char>,
    live: Seq<EdgeV>,
    paths: PathFacts,
) -> Seq<Seq<char>>
    decreases names.len(),
{
    if names.len() == 0 {
        Seq::empty()
    } else {
        let before = root_paths(names.drop_last(), dir, live, paths);
        let path = paths.canonical_of(path_facts::joined_path(dir, names.last()));
        if child_is_at(live, path, paths) {
            before
        } else {
            before.push(path)
        }
    }
}

/// The rows of the sessions at these paths, which have no parent.
pub open spec fn root_rows(roots: Seq<Seq<char>>, read: Map<Seq<char>, SessionInfo>) -> Seq<
    SessionInfoV,
> {
    Seq::new(roots.len(), |i: int| row_of(roots[i], info_at(read, roots[i]), 0, None, None))
}

/// The row of an edge's child.
pub open spec fn edge_row(
    edge: EdgeV,
    paths: PathFacts,
    read: Map<Seq<char>, SessionInfo>,
) -> SessionInfoV {
    let child = paths.canonical_of(edge.child);
    row_of(
        child,
        info_at(read, child),
        edge.depth,
        Some(paths.canonical_of(edge.parent)),
        Some(edge.name),
    )
}

/// The family of the sessions of a directory: its roots, then the children of the
/// live edges whose depth agrees with that of their parent.
pub open spec fn family_rows(
    live: Seq<EdgeV>,
    names: Seq<Seq<char>>,
    dir: Seq<char>,
    paths: PathFacts,
    read: Map<Seq<char>, SessionInfo>,
) -> Seq<SessionInfoV> {
    let kept = live.filter(|edge: EdgeV| depth_agrees(edge, live, paths));
    root_rows(root_paths(names, dir, live, paths), read) + Seq::new(
        kept.len(),
        |i: int| edge_row(kept[i], paths, read),
    )
}

/// The family of the sessions of a directory. `names` are its session files,
/// `read` what was read of the sessions at canonical paths.
pub fn family(
    live: &Vec<RlmLedgerEdge>,
    names: &Vec<String>,
    dir: &str,
    paths: &PathFacts,
    read: &TextMap<SessionInfo>,
) -> (r: Vec<SessionInfo>)
    requires
        paths.wf(),
        read.wf(),
    ensures
        session_info::infos(r@) == family_rows(
            edge_views(live@),
            text::texts(names@),
            dir@,
            *paths,
            read@,
        ),
{
    let ghost views = edge_views(live@);
    let ghost all = text::texts(names@);
    let mut rows: Vec<SessionInfo> = Vec::new();
    let mut i: usize = 0;
    proof {
        assert(all.take(0) =~= Seq::empty());
        assert(session_info::infos(rows@) =~= root_rows(Seq::empty(), read@));
    }
    while i < names.len()
        invariant
            i <= names.len(),
            paths.wf(),
            read.wf(),
            all == text::texts(names@),
            views == edge_views(live@),
            session_info::infos(rows@) == root_rows(
                root_paths(all.take(i as int), dir@, views, *paths),
                read@,
            ),
        decreases names.len() - i,
    {
        let ghost before = root_paths(all.take(i as int), dir@, views, *paths);
        proof {
            assert(all.take(i + 1).drop_last() =~= all.take(i as int));
            assert(all.take(i + 1).last() == names@[i as int]@);
        }
        let joined = join_dir(dir, &names[i]);
        let path = paths.canonical(&joined);
        if !has_child_at(live, &path, paths) {
            let ghost written = rows@;
            let row = session_row(&path, read.get(&path), 0, None, None);
            rows.push(row);
            assert(session_info::infos(rows@) =~= session_info::infos(written).push(row@));
            assert(root_rows(before.push(path@), read@) =~= root_rows(before, read@).push(row@));
        }
        i += 1;
    }
    assert(all.take(i as int) =~= all);
    let kept = consistent_edges(live, paths);
    let ghost roots = session_info::infos(rows@);
    let ghost kept_views = edge_views(kept@);
    let ghost more = Seq::new(kept_views.len(), |k: int| edge_row(kept_views[k], *paths, read@));
    let mut j: usize = 0;
    assert(roots + more.take(0) =~= roots);
    while j < kept.len()
        invariant
            j <= kept.len(),
            paths.wf(),
            read.wf(),
            kept_views == edge_views(kept@),
            more == Seq::new(
                kept_views.len(),
                |k: int| edge_row(kept_views[k], *paths, read@),
            ),
            session_info::infos(rows@) == roots + more.take(j as int),
        decreases kept.len() - j,
    {
        let edge = &kept[j];
        assert(kept_views[j as int] == edge@);
        let child = paths.canonical(&edge.child);
        let parent = paths.canonical(&edge.parent);
        let ghost written = rows@;
        let row = session_row(
            &child,
            read.get(&child),
            edge.depth,
            Some(&parent),
            Some(&edge.name),
        );
        rows.push(row);
        j += 1;
        assert(row@ == more[j - 1]);
        assert(session_info::infos(rows@) =~= session_info::infos(written).push(row@));
        assert(roots + more.take(j as int) =~= (roots + more.take(j - 1)).push(more[j - 1]));
    }
    assert(more.take(j as int) =~= more);
    rows
}

/// In a tree every live child has its row, and one row only: behind the rows of the
/// roots stands one row for each edge, in order, with its depth, its parent and its
/// name; no root is a child, and every session of the directory that is no child is a
/// root at depth zero.
pub proof fn every_child_has_one_row(
    live: Seq<EdgeV>,
    names: Seq<Seq<char>>,
    dir: Seq<char>,
    paths: PathFacts,
    read: Map<Seq<char>, SessionInfo>,
)
    requires
        depths_are_a_tree(live, paths),
        forall|path: Seq<char>| #[trigger] read.contains_key(path) ==> read[path]@.path == path,
        forall|i: int, j: int|
            0 <= i < j < live.len() ==> paths.canonical_of((#[trigger] live[i]).child)
                != paths.canonical_of((#[trigger] live[j]).child),
    ensures
        ({
            let rows = family_rows(live, names, dir, paths, read);
            let roots = rows.len() - live.len();
            &&& roots >= 0
            &&& forall|i: int|
                0 <= i < live.len() ==> {
                    let row = #[trigger] rows[roots + i];
                    &&& row.path == paths.canonical_of(live[i].child)
                    &&& row.rlm_depth == live[i].depth
                    &&& row.parent_session_path == Some(paths.canonical_of(live[i].parent))
                    &&& row.name == Some(live[i].name)
                }
            &&& forall|k: int|
                0 <= k < roots ==> {
                    let row = #[trigger] rows[k];
                    &&& row.rlm_depth == 0
                    &&& row.parent_session_path is None
                    &&& forall|j: int|
                        0 <= j < live.len() ==> paths.canonical_of((#[trigger] live[j]).child)
                            != row.path
                }
            &&& forall|i: int, k: int|
                0 <= i < live.len() && 0 <= k < rows.len() && (#[trigger] rows[k]).path
                    == paths.canonical_of((#[trigger] live[i]).child) ==> k == roots + i
            &&& forall|n: int|
                0 <= n < names.len() && !child_is_at(
                    live,
                    paths.canonical_of(path_facts::joined_path(dir, #[trigger] names[n])),
                    paths,
                ) ==> exists|k: int|
                    0 <= k < roots && (#[trigger] rows[k]).path == paths.canonical_of(
                        path_facts::joined_path(dir, names[n]),
                    )
        }),
{
    trees_are_kept_whole(live, paths);
    let root = root_paths(names, dir, live, paths);
    let rows = family_rows(live, names, dir, paths, read);
    let first = root_rows(root, read);
    roots_are_no_children(names, dir, live, paths);
    assert(rows.len() == root.len() + live.len());
    assert forall|i: int| 0 <= i < live.len() implies {
        let row = #[trigger] rows[root.len() + i];
        &&& row.path == paths.canonical_of(live[i].child)
        &&& row.rlm_depth == live[i].depth
        &&& row.parent_session_path == Some(paths.canonical_of(live[i].parent))
        &&& row.name == Some(live[i].name)
    } by {
        assert(rows[root.len() + i] == edge_row(live[i], paths, read));
    }
    assert forall|k: int| 0 <= k < root.len() implies {
        let row = #[trigger] rows[k];
        &&& row.path == root[k]
        &&& row.rlm_depth == 0
        &&& row.parent_session_path is None
        &&& forall|j: int|
            0 <= j < live.len() ==> paths.canonical_of((#[trigger] live[j]).child) != row.path
    } by {
        assert(rows[k] == first[k]);
        assert(!child_is_at(live, root[k], paths));
    }
    assert forall|i: int, k: int|
        0 <= i < live.len() && 0 <= k < rows.len() && (#[trigger] rows[k]).path
            == paths.canonical_of((#[trigger] live[i]).child) implies k == root.len() + i by {
        if k >= root.len() {
            let other = k - root.len();
            assert(rows[root.len() + other].path == paths.canonical_of(live[other].child));
        }
    }
    assert forall|n: int|
        0 <= n < names.len() && !child_is_at(
            live,
            paths.canonical_of(path_facts::joined_path(dir, #[trigger] names[n])),
            paths,
        ) implies exists|k: int|
        0 <= k < root.len() && (#[trigger] rows[k]).path == paths.canonical_of(
            path_facts::joined_path(dir, names[n]),
        ) by {
        let path = paths.canonical_of(path_facts::joined_path(dir, names[n]));
        assert(root.contains(path));
        let k = choose|k: int| 0 <= k < root.len() && root[k] == path;
        assert(rows[k].path == root[k]);
    }
}

proof fn roots_are_no_children(
    names: Seq<Seq<char>>,
    dir: Seq<char>,
    live: Seq<EdgeV>,
    paths: PathFacts,
)
    ensures
        forall|k: int|
            0 <= k < root_paths(names, dir, live, paths).len() ==> !child_is_at(
                live,
                #[trigger] root_paths(names, dir, live, paths)[k],
                paths,
            ),
        forall|n: int|
            0 <= n < names.len() && !child_is_at(
                live,
                paths.canonical_of(path_facts::joined_path(dir, #[trigger] names[n])),
                paths,
            ) ==> root_paths(names, dir, live, paths).contains(
                paths.canonical_of(path_facts::joined_path(dir, names[n])),
            ),
    decreases names.len(),
{
    if names.len() > 0 {
        let fewer = names.drop_last();
        roots_are_no_children(fewer, dir, live, paths);
        let before = root_paths(fewer, dir, live, paths);
        let after = root_paths(names, dir, live, paths);
        let last = paths.canonical_of(path_facts::joined_path(dir, names.last()));
        assert forall|k: int| 0 <= k < after.len() implies !child_is_at(
            live,
            #[trigger] after[k],
            paths,
        ) by {
            if k < before.len() {
                assert(after[k] == before[k]);
            }
        }
        assert forall|n: int|
            0 <= n < names.len() && !child_is_at(
                live,
                paths.canonical_of(path_facts::joined_path(dir, #[trigger] names[n])),
                paths,
            ) implies after.contains(
            paths.canonical_of(path_facts::joined_path(dir, names[n])),
        ) by {
            let path = paths.canonical_of(path_facts::joined_path(dir, names[n]));
            if n < fewer.len() {
                assert(fewer[n] == names[n]);
                assert(before.contains(path));
                let k = choose|k: int| 0 <= k < before.len() && before[k] == path;
                assert(after[k] == path);
            } else {
                assert(after[before.len() as int] == path);
            }
        }
    }
}

/// The canonical parent that the ledger knows for a path: that of the last edge
/// whose child is there.
pub open spec fn parent_at(edges: Seq<EdgeV>, path: Seq<char>, paths: PathFacts) -> Option<
    Seq<char>,
>
    decreases edges.len(),
{
    if edges.len() == 0 {
        None
    } else if paths.canonical_of(edges.last().child) == path {
        Some(paths.canonical_of(edges.last().parent))
    } else {
        parent_at(edges.drop_last(), path, paths)
    }
}

fn known_parent(all: &Vec<RlmLedgerEdge>, path: &str, paths: &PathFacts) -> (r: Option<String>)
    requires
        paths.wf(),
    ensures
        json::opt_view(r) == parent_at(edge_views(all@), path@, *paths),
{
    let ghost views = edge_views(all@);
    let mut i: usize = all.len();
    assert(views.take(i as int) =~= views);
    while i > 0
        invariant
            i <= all.len(),
            paths.wf(),
            views == edge_views(all@),
            parent_at(views, path@, *paths) == parent_at(views.take(i as int), path@, *paths),
        decreases i,
    {
        proof {
            assert(views.take(i as int).last() == all@[i - 1]@);
            assert(views.take(i as int).drop_last() =~= views.take(i - 1));
        }
        let canonical = paths.canonical(&all[i - 1].child);
        if same(&canonical, path) {
            return Some(paths.canonical(&all[i - 1].parent));
        }
        i -= 1;
    }
    None
}

/// A row is at this canonical path.
pub open spec fn row_is_at(rows: Seq<SessionInfoV>, path: Seq<char>, paths: PathFacts) -> bool {
    exists|i: int| 0 <= i < rows.len() && paths.canonical_of((#[trigger] rows[i]).path) == path
}

fn has_row_at(rows: &Vec<SessionInfo>, path: &str, paths: &PathFacts) -> (r: bool)
    requires
        paths.wf(),
    ensures
        r == row_is_at(session_info::infos(rows@), path@, *paths),
{
    let mut i: usize = 0;
    while i < rows.len()
        invariant
            i <= rows.len(),
            paths.wf(),
            forall|j: int| 0 <= j < i ==> paths.canonical_of((#[trigger] rows@[j]).path@) != path@,
        decreases rows.len() - i,
    {
        let canonical = paths.canonical(&rows[i].path);
        if same(&canonical, path) {
            assert(paths.canonical_of(session_info::infos(rows@)[i as int].path) == path@);
            return true;
        }
        i += 1;
    }
    assert forall|j: int| 0 <= j < session_info::infos(rows@).len() implies paths.canonical_of(
        (#[trigger] session_info::infos(rows@)[j]).path,
    ) != path@ by {
        assert(paths.canonical_of(rows@[j].path@) != path@);
    }
    false
}

/// The row is a sibling: for a child, one with the same parent; for a root, one
/// without depth.
pub open spec fn is_sibling(
    row: SessionInfoV,
    parent: Option<Seq<char>>,
    edges: Seq<EdgeV>,
    paths: PathFacts,
) -> bool {
    match parent {
        Some(_) => parent_at(edges, paths.canonical_of(row.path), paths) == parent,
        None => row.rlm_depth == 0,
    }
}

/// The rows beside a session, itself included. A child's siblings have its
/// parent, a root's siblings are the roots. A session that has no row of its own
/// is alone, where it is a file.
pub open spec fn sibling_rows(
    family: Seq<SessionInfoV>,
    edges: Seq<EdgeV>,
    target: Seq<char>,
    target_is_file: bool,
    own: Option<SessionInfoV>,
    paths: PathFacts,
) -> Seq<SessionInfoV> {
    let parent = parent_at(edges, target, paths);
    let rows = family.filter(|row: SessionInfoV| is_sibling(row, parent, edges, paths));
    if row_is_at(rows, target, paths) {
        rows
    } else if target_is_file {
        seq![row_of(target, own, 0, None, None)]
    } else if parent is Some {
        rows
    } else {
        Seq::empty()
    }
}

/// The rows beside a session, itself included. `all` are the edges that are not
/// deleted, `own` what was read of the session.
pub fn siblings(
    family: &Vec<SessionInfo>,
    all: &Vec<RlmLedgerEdge>,
    session_path: &str,
    own: Option<&SessionInfo>,
    paths: &PathFacts,
) -> (r: Vec<SessionInfo>)
    requires
        paths.wf(),
    ensures
        session_info::infos(r@) == sibling_rows(
            session_info::infos(family@),
            edge_views(all@),
            paths.canonical_of(session_path@),
            paths.is_file_path(session_path@),
            match own {
                Some(info) => Some(info@),
                None => None,
            },
            *paths,
        ),
{
    let target = paths.canonical(session_path);
    let parent = known_parent(all, &target, paths);
    let ghost wanted = json::opt_view(parent);
    let ghost keep = |row: SessionInfoV| is_sibling(row, wanted, edge_views(all@), *paths);
    let ghost views = session_info::infos(family@);
    let mut rows: Vec<SessionInfo> = Vec::new();
    let mut i: usize = 0;
    proof {
        reveal(Seq::filter);
        assert(views.take(0) =~= Seq::empty());
        assert(session_info::infos(rows@) =~= views.take(0).filter(keep));
    }
    while i < family.len()
        invariant
            i <= family.len(),
            paths.wf(),
            wanted == json::opt_view(parent),
            keep == (|row: SessionInfoV| is_sibling(row, wanted, edge_views(all@), *paths)),
            views == session_info::infos(family@),
            session_info::infos(rows@) == views.take(i as int).filter(keep),
        decreases family.len() - i,
    {
        proof {
            reveal(Seq::filter);
            assert(views.take(i + 1).drop_last() =~= views.take(i as int));
            assert(views.take(i + 1).last() == family@[i as int]@);
        }
        let ghost before = session_info::infos(rows@);
        let beside: bool = match &parent {
            Some(parent) => {
                let canonical = paths.canonical(&family[i].path);
                match known_parent(all, &canonical, paths) {
                    Some(other) => same(&other, parent),
                    None => false,
                }
            },
            None => family[i].rlm_depth == 0,
        };
        if beside {
            rows.push(family[i].clone());
            assert(session_info::infos(rows@) =~= before.push(family@[i as int]@));
        }
        i += 1;
    }
    assert(views.take(i as int) =~= views);
    if has_row_at(&rows, &target, paths) {
        return rows;
    }
    if paths.is_file(session_path) {
        let mut alone: Vec<SessionInfo> = Vec::new();
        let row = session_row(&target, own, 0, None, None);
        alone.push(row);
        assert(session_info::infos(alone@) =~= seq![row@]);
        return alone;
    }
    if parent.is_some() {
        return rows;
    }
    let none: Vec<SessionInfo> = Vec::new();
    assert(session_info::infos(none@) =~= Seq::empty());
    none
}

/// Where the ledger of a sessions directory is kept: its name is the digest of
/// the directory's canonical path.
pub fn rlm_ledger_path(agent_dir: &str, canonical_sessions_dir: &str) -> (r: String)
    ensures
        r@ == path_facts::joined_path(
            path_facts::joined_path(agent_dir@, RLM_LEDGER_DIR@),
            digest::digest_prefix(canonical_sessions_dir@, 16) + ".jsonl"@,
        ),
{
    let hash = hash_prefix(canonical_sessions_dir, 16);
    let name = cat2(&hash, ".jsonl");
    let dir = join_dir(agent_dir, RLM_LEDGER_DIR);
    join_dir(&dir, &name)
}

/// What the lines of a ledger say: all records with a known operation, or the
/// first line that is malformed.
pub open spec fn read_lines(all: Seq<Seq<char>>) -> Result<Seq<RecordV>, Seq<char>>
    decreases all.len(),
{
    if all.len() == 0 {
        Ok(Seq::empty())
    } else {
        match read_lines(all.drop_last()) {
            Err(error) => Err(error),
            Ok(records) => match read_line(all.last()) {
                Reading::Record(record) => Ok(records.push(record)),
                Reading::Unknown => Ok(records),
                Reading::Malformed(why) => Err(malformed_text((all.len() - 1) as nat, why)),
            },
        }
    }
}

proof fn read_lines_error_stays(all: Seq<Seq<char>>, n: int)
    requires
        0 <= n <= all.len(),
        read_lines(all.take(n)) is Err,
    ensures
        read_lines(all) == read_lines(all.take(n)),
    decreases all.len(),
{
    if n == all.len() {
        assert(all.take(n) =~= all);
    } else {
        assert(all.drop_last().take(n) =~= all.take(n));
        read_lines_error_stays(all.drop_last(), n);
    }
}

/// Reads the lines of a ledger. Records with an unknown operation are passed
/// over; a malformed line refuses the whole ledger.
pub fn parse_ledger(all: &Vec<String>) -> (r: Result<Vec<RlmLedgerRecord>, String>)
    ensures
        match (r, read_lines(text::texts(all@))) {
            (Ok(records), Ok(expected)) => record_views(records@) == expected && forall|i: int|
                0 <= i < records@.len() ==> standard(#[trigger] records@[i]),
            (Err(error), Err(expected)) => error@ == expected,
            _ => false,
        },
{
    let ghost views = text::texts(all@);
    let mut records: Vec<RlmLedgerRecord> = Vec::new();
    let mut i: usize = 0;
    proof {
        assert(views.take(0) =~= Seq::empty());
        assert(record_views(records@) =~= Seq::empty());
    }
    while i < all.len()
        invariant
            i <= all.len(),
            views == text::texts(all@),
            read_lines(views.take(i as int)) is Ok,
            read_lines(views.take(i as int))->Ok_0 == record_views(records@),
            forall|j: int| 0 <= j < records@.len() ==> standard(#[trigger] records@[j]),
        decreases all.len() - i,
    {
        proof {
            assert(views.take(i + 1).drop_last() =~= views.take(i as int));
            assert(views.take(i + 1).last() == all@[i as int]@);
        }
        match parse_ledger_line(&all[i], i) {
            Ok(Some(record)) => {
                let ghost before = records@;
                records.push(record);
                assert(record_views(records@) =~= record_views(before).push(record@));
            },
            Ok(None) => {},
            Err(error) => {
                proof {
                    read_lines_error_stays(views, i + 1);
                }
                return Err(error);
            },
        }
        i += 1;
    }
    assert(views.take(i as int) =~= views);
    Ok(records)
}

/// The edges that the lines of a ledger leave; a ledger that cannot be read has
/// none.
pub fn ledger_edges(all: &Vec<String>, paths: &PathFacts) -> (r: Vec<RlmLedgerEdge>)
    requires
        paths.wf(),
    ensures
        edge_views(r@) == match read_lines(text::texts(all@)) {
            Ok(records) => values_of(replay(records, *paths)),
            Err(_) => Seq::empty(),
        },
{
    match parse_ledger(all) {
        Ok(records) => replay_edges(&records, paths),
        Err(_) => {
            let none: Vec<RlmLedgerEdge> = Vec::new();
            assert(edge_views(none@) =~= Seq::empty());
            none
        },
    }
}


/// A session is positively top-level where it is known under another kind than that
/// of a spawned agent and was not read as a child. Of a session that is not known,
/// the ledger says whose child it is, whatever its file says.
pub open spec fn positively_top_level(
    known_kind: Option<Seq<char>>,
    info: Option<SessionInfoV>,
) -> bool {
    &&& known_kind is Some
    &&& known_kind != Some("subagent"@)
    &&& info matches Some(info) ==> info.parent_session_path is None && info.rlm_depth <= 0
}

/// What is to be done with the ledger before a session file is deleted.
#[derive(Debug, PartialEq)]
pub struct TombstonePlan {
    /// The first edge of the session.
    pub ledger_edge: Option<RlmLedgerEdge>,
    /// The deletions to be appended.
    pub records: Vec<RlmLedgerRecord>,
}

/// Plans the tombstones for a session that a user deletes: none for a session
/// that is positively top-level, else one for every edge that leads to it.
pub fn tombstone_saved_session_delete_at(
    all: &Vec<RlmLedgerEdge>,
    session_path: &str,
    known_kind: Option<&str>,
    info: Option<&SessionInfo>,
    paths: &PathFacts,
    at: &str,
) -> (r: TombstonePlan)
    requires
        paths.wf(),
    ensures
        forall|i: int| 0 <= i < r.records@.len() ==> standard(#[trigger] r.records@[i]),
        tombstones_planned(
            r,
            edge_views(all@),
            session_path@,
            json::opt_str_view(known_kind),
            match info {
                Some(info) => Some(info@),
                None => None,
            },
            *paths,
            at@,
        ),
{
    let known_otherwise: bool = match known_kind {
        Some(kind) => !same(kind, "subagent"),
        None => false,
    };
    let read_as_child: bool = match info {
        Some(info) => info.parent_session_path.is_some() || info.rlm_depth > 0,
        None => false,
    };
    if known_otherwise && !read_as_child {
        let records: Vec<RlmLedgerRecord> = Vec::new();
        assert(record_views(records@) =~= Seq::empty());
        return TombstonePlan { ledger_edge: None, records };
    }
    let target = paths.canonical(session_path);
    let hit = edges_at(all, &target, paths);
    let ghost views = edge_views(hit@);
    let mut records: Vec<RlmLedgerRecord> = Vec::new();
    let mut i: usize = 0;
    while i < hit.len()
        invariant
            i <= hit.len(),
            paths.wf(),
            views == edge_views(hit@),
            records@.len() == i,
            target@ == paths.canonical_of(session_path@),
            forall|j: int|
                0 <= j < i ==> standard(#[trigger] records@[j]) && records@[j]@ == (
                RecordV::Delete {
                    at: at@,
                    child_id: views[j].child_id,
                    child: target@,
                    reason: RlmLedgerDeleteReason::User,
                }),
        decreases hit.len() - i,
    {
        assert(views[i as int].child_id == hit@[i as int].child_id@);
        let record = delete_record(
            &hit[i].child_id,
            session_path,
            RlmLedgerDeleteReason::User,
            paths,
            at,
        );
        records.push(record);
        i += 1;
    }
    let ledger_edge = if hit.len() > 0 {
        assert(views[0] == hit@[0]@);
        Some(hit[0].clone())
    } else {
        None
    };
    assert(record_views(records@) =~= delete_records(views, target@, at@));
    TombstonePlan { ledger_edge, records }
}

/// The deletions, by the user, of these edges' children at a path.
pub open spec fn delete_records(edges: Seq<EdgeV>, child: Seq<char>, at: Seq<char>) -> Seq<
    RecordV,
> {
    Seq::new(
        edges.len(),
        |i: int|
            RecordV::Delete {
                at,
                child_id: edges[i].child_id,
                child,
                reason: RlmLedgerDeleteReason::User,
            },
    )
}

/// The plan is what the policy says.
pub open spec fn tombstones_planned(
    plan: TombstonePlan,
    edges: Seq<EdgeV>,
    session_path: Seq<char>,
    known_kind: Option<Seq<char>>,
    info: Option<SessionInfoV>,
    paths: PathFacts,
    at: Seq<char>,
) -> bool {
    let target = paths.canonical_of(session_path);
    let hit = edges.filter(|edge: EdgeV| is_child_at(edge, target, paths));
    if positively_top_level(known_kind, info) {
        plan.ledger_edge is None && record_views(plan.records@) == Seq::<RecordV>::empty()
    } else {
        &&& record_views(plan.records@) == delete_records(hit, target, at)
        &&& match plan.ledger_edge {
            Some(edge) => hit.len() > 0 && edge@ == hit[0],
            None => hit.len() == 0,
        }
    }
}

/// Every edge of a replay stands under the key of its own child.
pub proof fn replayed_keys_fit(records: Seq<RecordV>, paths: PathFacts)
    ensures
        forall|i: int|
            0 <= i < replay(records, paths).len() ==> (#[trigger] replay(records, paths)[i]).0
                == edge_key_text(
                replay(records, paths)[i].1.child_id,
                paths.canonical_of(replay(records, paths)[i].1.child),
            ),
    decreases records.len(),
{
    if records.len() > 0 {
        let before = replay(records.drop_last(), paths);
        replayed_keys_fit(records.drop_last(), paths);
        let after = replay(records, paths);
        match records.last() {
            RecordV::Meta { .. } => {},
            RecordV::Spawn { child_id, parent, child, depth, name, .. } => {
                let key = edge_key_text(child_id, paths.canonical_of(child));
                let edge = EdgeV { child_id, parent, child, depth, name, deleted: None };
                set_keeps_keys_fit(before, key, edge, paths);
            },
            RecordV::Rename { child_id, child, name, .. } => {
                let key = edge_key_text(child_id, paths.canonical_of(child));
                if let Some(edge) = assoc::find(before, key) {
                    assoc::find_index(before, key);
                    let k = choose|k: int|
                        0 <= k < before.len() && #[trigger] before[k] == (key, edge);
                    assert(before[k].0 == edge_key_text(
                        before[k].1.child_id,
                        paths.canonical_of(before[k].1.child),
                    ));
                    set_keeps_keys_fit(before, key, EdgeV { name, ..edge }, paths);
                }
            },
            RecordV::Delete { child_id, child, reason, .. } => {
                let key = edge_key_text(child_id, paths.canonical_of(child));
                if let Some(edge) = assoc::find(before, key) {
                    assoc::find_index(before, key);
                    let k = choose|k: int|
                        0 <= k < before.len() && #[trigger] before[k] == (key, edge);
                    assert(before[k].0 == edge_key_text(
                        before[k].1.child_id,
                        paths.canonical_of(before[k].1.child),
                    ));
                    set_keeps_keys_fit(
                        before,
                        key,
                        EdgeV { deleted: Some(reason), ..edge },
                        paths,
                    );
                }
            },
        }
    }
}

proof fn set_keeps_keys_fit(
    edges: Seq<(Seq<char>, EdgeV)>,
    key: Seq<char>,
    edge: EdgeV,
    paths: PathFacts,
)
    requires
        key == edge_key_text(edge.child_id, paths.canonical_of(edge.child)),
        forall|i: int|
            0 <= i < edges.len() ==> (#[trigger] edges[i]).0 == edge_key_text(
                edges[i].1.child_id,
                paths.canonical_of(edges[i].1.child),
            ),
    ensures
        forall|i: int|
            0 <= i < assoc::set(edges, key, edge).len() ==> (#[trigger] assoc::set(
                edges,
                key,
                edge,
            )[i]).0 == edge_key_text(
                assoc::set(edges, key, edge)[i].1.child_id,
                paths.canonical_of(assoc::set(edges, key, edge)[i].1.child),
            ),
{
    let after = assoc::set(edges, key, edge);
    assert forall|i: int| 0 <= i < after.len() implies (#[trigger] after[i]).0 == edge_key_text(
        after[i].1.child_id,
        paths.canonical_of(after[i].1.child),
    ) by {
        assoc::set_member(edges, key, edge, i);
        if after[i] != (key, edge) {
            let j = choose|j: int| 0 <= j < edges.len() && #[trigger] edges[j] == after[i];
            assert(edges[j].0 == edge_key_text(
                edges[j].1.child_id,
                paths.canonical_of(edges[j].1.child),
            ));
        }
    }
}

/// A live edge of these leads to the child at the path, and its id is among the
/// deletions from the `n`th on.
spec fn awaits_deletion(
    edges: Seq<(Seq<char>, EdgeV)>,
    target: Seq<char>,
    deletions: Seq<RecordV>,
    n: int,
    paths: PathFacts,
) -> bool {
    forall|i: int|
        0 <= i < edges.len() && is_child_at((#[trigger] edges[i]).1, target, paths) ==> exists|
            j: int,
        |
            n <= j < deletions.len() && (#[trigger] deletions[j])->Delete_child_id
                == edges[i].1.child_id
}

proof fn tombstones_reach_all(
    records: Seq<RecordV>,
    deletions: Seq<RecordV>,
    n: int,
    target: Seq<char>,
    paths: PathFacts,
)
    requires
        0 <= n <= deletions.len(),
        paths.canonical_of(target) == target,
        forall|j: int|
            0 <= j < deletions.len() ==> (#[trigger] deletions[j]) is Delete
                && deletions[j]->Delete_child == target,
        awaits_deletion(replay(records, paths), target, deletions, 0, paths),
    ensures
        awaits_deletion(
            replay(records + deletions.take(n), paths),
            target,
            deletions,
            n,
            paths,
        ),
    decreases n,
{
    if n == 0 {
        assert(records + deletions.take(0) =~= records);
    } else {
        tombstones_reach_all(records, deletions, n - 1, target, paths);
        let earlier = records + deletions.take(n - 1);
        let later = records + deletions.take(n);
        assert(later.drop_last() =~= earlier);
        assert(later.last() == deletions[n - 1]);
        let before = replay(earlier, paths);
        let after = replay(later, paths);
        let child_id = deletions[n - 1]->Delete_child_id;
        let key = edge_key_text(child_id, target);
        replayed_keys_fit(earlier, paths);
        replayed_keys_fit(later, paths);
        replayed_keys_differ(earlier, paths);
        replayed_keys_differ(later, paths);
        assoc::find_index(before, key);
        assert forall|i: int|
            0 <= i < after.len() && is_child_at((#[trigger] after[i]).1, target, paths) implies exists|
            j: int,
        |
            n <= j < deletions.len() && (#[trigger] deletions[j])->Delete_child_id
                == after[i].1.child_id by {
            match assoc::find(before, key) {
                Some(edge) => {
                    let gone = EdgeV {
                        deleted: Some(deletions[n - 1]->Delete_reason),
                        ..edge
                    };
                    assert(after == assoc::set(before, key, gone));
                    assoc::set_member(before, key, gone, i);
                    let k = choose|k: int|
                        0 <= k < before.len() && #[trigger] before[k] == after[i];
                    assert(before[k] == after[i]);
                    let j = choose|j: int|
                        n - 1 <= j < deletions.len() && (#[trigger] deletions[j])->Delete_child_id
                            == before[k].1.child_id;
                    if j == n - 1 {
                        assert(after[i].0 == key);
                        assoc::find_at(after, i);
                        assoc::find_set(before, key, gone, key);
                        assert(after[i].1 == gone);
                        assert(false);
                    }
                },
                None => {
                    assert(after == before);
                    let j = choose|j: int|
                        n - 1 <= j < deletions.len() && (#[trigger] deletions[j])->Delete_child_id
                            == before[i].1.child_id;
                    if j == n - 1 {
                        assert(before[i].0 == key);
                        assert(false);
                    }
                },
            }
        }
    }
}

/// Once the planned tombstones of a session are in the ledger, no live edge leads
/// to the session's path any more: a session that is made there later is not
/// taken for the deleted child.
pub proof fn no_live_edge_after_the_tombstones(
    records: Seq<RecordV>,
    target: Seq<char>,
    at: Seq<char>,
    paths: PathFacts,
)
    requires
        paths.canonical_of(target) == target,
    ensures
        ({
            let hit = values_of(replay(records, paths)).filter(
                |edge: EdgeV| is_child_at(edge, target, paths),
            );
            let after = values_of(replay(records + delete_records(hit, target, at), paths));
            forall|i: int|
                0 <= i < after.len() ==> !is_child_at(#[trigger] after[i], target, paths)
        }),
{
    let edges = replay(records, paths);
    let keep = |edge: EdgeV| is_child_at(edge, target, paths);
    let hit = values_of(edges).filter(keep);
    let deletions = delete_records(hit, target, at);
    broadcast use vstd::seq_lib::group_filter_ensures;

    assert(awaits_deletion(edges, target, deletions, 0, paths)) by {
        assert forall|i: int|
            0 <= i < edges.len() && is_child_at((#[trigger] edges[i]).1, target, paths) implies exists|
            j: int,
        |
            0 <= j < deletions.len() && (#[trigger] deletions[j])->Delete_child_id
                == edges[i].1.child_id by {
            assert(values_of(edges)[i] == edges[i].1);
            assert(keep(values_of(edges)[i]));
            assert(hit.contains(values_of(edges)[i]));
            let j = choose|j: int| 0 <= j < hit.len() && hit[j] == values_of(edges)[i];
            assert(deletions[j]->Delete_child_id == edges[i].1.child_id);
        }
    }
    tombstones_reach_all(records, deletions, deletions.len() as int, target, paths);
    assert(deletions.take(deletions.len() as int) =~= deletions);
    let after = replay(records + deletions, paths);
    assert forall|i: int| 0 <= i < values_of(after).len() implies !is_child_at(
        #[trigger] values_of(after)[i],
        target,
        paths,
    ) by {
        assert(values_of(after)[i] == after[i].1);
    }
}

/// An entry of the registry that a parent kept before there was a ledger.
#[derive(Debug, Clone, PartialEq)]
pub struct RlmLedgerSeedRegistryEntry {
    pub child_id: String,
    pub session_name: String,
    pub session_file: String,
    pub rlm_depth: Option<i64>,
    pub status: String,
}

/// A file of the session directory with what its registry says.
#[derive(Debug)]
pub struct SeedRoot {
    pub file: String,
    pub entries: Vec<RlmLedgerSeedRegistryEntry>,
}

/// The walk over the old registries that fills a new ledger: session files to be
/// looked at with their physical paths and depths, files of the directory that
/// another one lists, children that were met, and the spawns that were found.
pub struct SeedScan {
    pub queue: Vec<(String, String, i64)>,
    pub next: usize,
    pub waiting: Vec<(String, String)>,
    pub visited: Vec<String>,
    pub records: Vec<RlmLedgerRecord>,
}

/// What the walk knows.
#[verifier::ext_equal]
pub struct SeedV {
    pub queue: Seq<(Seq<char>, Seq<char>, i64)>,
    pub waiting: Seq<(Seq<char>, Seq<char>)>,
    pub visited: Seq<Seq<char>>,
    pub records: Seq<RecordV>,
}

impl View for SeedScan {
    type V = SeedV;

    open spec fn view(&self) -> SeedV {
        SeedV {
            queue: Seq::new(
                self.queue@.len(),
                |i: int| (self.queue@[i].0@, self.queue@[i].1@, self.queue@[i].2),
            ),
            waiting: Seq::new(
                self.waiting@.len(),
                |i: int| (self.waiting@[i].0@, self.waiting@[i].1@),
            ),
            visited: text::texts(self.visited@),
            records: record_views(self.records@),
        }
    }
}

/// The physical path stands in the queue.
pub open spec fn is_queued(queue: Seq<(Seq<char>, Seq<char>, i64)>, path: Seq<char>) -> bool {
    exists|i: int| 0 <= i < queue.len() && (#[trigger] queue[i]).1 == path
}

/// The entry names a child that is at this physical path.
pub open spec fn names_child(
    entry: RlmLedgerSeedRegistryEntry,
    path: Seq<char>,
    paths: PathFacts,
) -> bool {
    &&& entry.status@ != "deleted"@
    &&& entry.child_id@.len() > 0
    &&& paths.canonical_of(entry.session_file@) == path
}

/// Some file of the directory other than the one at this path lists it as a child.
pub open spec fn is_claimed(roots: Seq<SeedRoot>, path: Seq<char>, paths: PathFacts) -> bool {
    exists|i: int, j: int|
        0 <= i < roots.len() && 0 <= j < roots[i].entries@.len() && paths.canonical_of(
            roots[i].file@,
        ) != path && names_child(#[trigger] roots[i].entries@[j], path, paths)
}

/// The beginning of the walk, with the first `n` files of the directory: those that
/// no other file lists are walked, the others wait.
pub open spec fn seed_roots(roots: Seq<SeedRoot>, n: int, paths: PathFacts) -> SeedV
    decreases n,
{
    if n <= 0 {
        SeedV {
            queue: Seq::empty(),
            waiting: Seq::empty(),
            visited: Seq::empty(),
            records: Seq::empty(),
        }
    } else {
        let scan = seed_roots(roots, n - 1, paths);
        let file = roots[n - 1].file@;
        let path = paths.canonical_of(file);
        if is_claimed(roots, path, paths) {
            SeedV { waiting: scan.waiting.push((file, path)), ..scan }
        } else if is_queued(scan.queue, path) {
            scan
        } else {
            SeedV {
                queue: scan.queue.push((file, path, 0)),
                visited: scan.visited.push(path),
                ..scan
            }
        }
    }
}

/// Where nothing is left to be walked, the first waiting file that was not reached
/// is walked: the files that list it list each other in a circle.
pub open spec fn seed_refilled(scan: SeedV, next: int) -> SeedV
    decreases scan.waiting.len(),
{
    if next < scan.queue.len() || scan.waiting.len() == 0 {
        scan
    } else {
        let (file, path) = scan.waiting[0];
        let fewer = SeedV { waiting: scan.waiting.drop_first(), ..scan };
        if is_queued(scan.queue, path) {
            seed_refilled(fewer, next)
        } else {
            SeedV {
                queue: scan.queue.push((file, path, 0)),
                visited: scan.visited.push(path),
                ..fewer
            }
        }
    }
}

/// The depth of a child: what its registry says, where that can be a child's
/// depth, else one below its parent.
pub open spec fn seed_depth(registered: Option<i64>, parent_depth: int) -> int {
    match registered {
        Some(depth) if depth >= 1 => depth as int,
        _ => parent_depth + 1,
    }
}

/// The walk after one more entry of the registry of the file with the physical path
/// `parent` at `depth`.
pub open spec fn seed_entry(
    scan: SeedV,
    entry: RlmLedgerSeedRegistryEntry,
    parent: Seq<char>,
    depth: i64,
    paths: PathFacts,
    at: Seq<char>,
) -> SeedV {
    let child = paths.canonical_of(entry.session_file@);
    if entry.status@ == "deleted"@ || scan.visited.contains(child) {
        scan
    } else if entry.child_id@.len() == 0 {
        SeedV { visited: scan.visited.push(child), ..scan }
    } else {
        let child_depth = seed_depth(entry.rlm_depth, depth as int) as i64;
        SeedV {
            queue: scan.queue.push((entry.session_file@, child, child_depth)),
            visited: scan.visited.push(child),
            records: scan.records.push(
                RecordV::Spawn {
                    at,
                    child_id: entry.child_id@,
                    parent,
                    child,
                    depth: child_depth,
                    name: entry.session_name@,
                },
            ),
            ..scan
        }
    }
}

/// The walk after these entries of the registry of one file.
pub open spec fn seed_entries(
    scan: SeedV,
    entries: Seq<RlmLedgerSeedRegistryEntry>,
    parent: Seq<char>,
    depth: i64,
    paths: PathFacts,
    at: Seq<char>,
) -> SeedV
    decreases entries.len(),
{
    if entries.len() == 0 {
        scan
    } else {
        seed_entry(
            seed_entries(scan, entries.drop_last(), parent, depth, paths, at),
            entries.last(),
            parent,
            depth,
            paths,
            at,
        )
    }
}

/// The spawn leads from one file of the walk to a later one.
pub open spec fn leads_on(queue: Seq<(Seq<char>, Seq<char>, i64)>, record: RecordV) -> bool {
    exists|a: int, b: int|
        0 <= a < b < queue.len() && (#[trigger] queue[a]).1 == record->Spawn_parent && (
        #[trigger] queue[b]).1 == record->Spawn_child && queue[b].2 == record->Spawn_depth
}

/// What every walk keeps: no file is walked twice, the spawns it found can be written
/// and lead from a file to a later one, and no child was found twice.
pub open spec fn seed_sound(scan: SeedV) -> bool {
    &&& forall|i: int|
        0 <= i < scan.queue.len() ==> scan.visited.contains((#[trigger] scan.queue[i]).1)
    &&& forall|i: int, j: int|
        0 <= i < j < scan.queue.len() ==> (#[trigger] scan.queue[i]).1 != (
        #[trigger] scan.queue[j]).1
    &&& forall|i: int|
        0 <= i < scan.records.len() ==> {
            &&& (#[trigger] scan.records[i]) is Spawn
            &&& scan.records[i]->Spawn_depth >= 1
            &&& scan.records[i]->Spawn_child_id.len() > 0
            &&& scan.visited.contains(scan.records[i]->Spawn_child)
            &&& leads_on(scan.queue, scan.records[i])
        }
    &&& forall|i: int, j: int|
        0 <= i < j < scan.records.len() ==> (#[trigger] scan.records[i])->Spawn_child != (
        #[trigger] scan.records[j])->Spawn_child
}

proof fn queued_file_is_sound(scan: SeedV, file: Seq<char>, path: Seq<char>, depth: i64)
    requires
        seed_sound(scan),
        !is_queued(scan.queue, path),
    ensures
        seed_sound(
            (SeedV {
                queue: scan.queue.push((file, path, depth)),
                visited: scan.visited.push(path),
                ..scan
            }),
        ),
{
    let after = SeedV {
        queue: scan.queue.push((file, path, depth)),
        visited: scan.visited.push(path),
        ..scan
    };
    visited_stay(scan.visited, path);
    assert forall|i: int| 0 <= i < after.queue.len() implies after.visited.contains(
        (#[trigger] after.queue[i]).1,
    ) by {
        if i < scan.queue.len() {
            assert(after.queue[i] == scan.queue[i]);
        }
    }
    assert forall|i: int, j: int| 0 <= i < j < after.queue.len() implies (
    #[trigger] after.queue[i]).1 != (#[trigger] after.queue[j]).1 by {
        assert(after.queue[i] == scan.queue[i]);
        if j < scan.queue.len() {
            assert(after.queue[j] == scan.queue[j]);
        }
    }
    assert forall|i: int| 0 <= i < after.records.len() implies leads_on(
        after.queue,
        #[trigger] after.records[i],
    ) by {
        longer_queues_lead_on(scan.queue, after.queue, scan.records[i]);
    }
}

proof fn visited_stay(visited: Seq<Seq<char>>, path: Seq<char>)
    ensures
        visited.push(path).contains(path),
        forall|other: Seq<char>| #[trigger]
            visited.contains(other) ==> visited.push(path).contains(other),
{
    let after = visited.push(path);
    assert(after[visited.len() as int] == path);
    assert forall|other: Seq<char>| #[trigger] visited.contains(other) implies after.contains(
        other,
    ) by {
        let i = choose|i: int| 0 <= i < visited.len() && visited[i] == other;
        assert(after[i] == other);
    }
}

proof fn longer_queues_lead_on(
    queue: Seq<(Seq<char>, Seq<char>, i64)>,
    after: Seq<(Seq<char>, Seq<char>, i64)>,
    record: RecordV,
)
    requires
        leads_on(queue, record),
        queue.len() <= after.len(),
        forall|i: int| 0 <= i < queue.len() ==> #[trigger] after[i] == queue[i],
    ensures
        leads_on(after, record),
{
    let (a, b) = choose|a: int, b: int|
        0 <= a < b < queue.len() && (#[trigger] queue[a]).1 == record->Spawn_parent && (
        #[trigger] queue[b]).1 == record->Spawn_child && queue[b].2 == record->Spawn_depth;
    assert(after[a] == queue[a] && after[b] == queue[b]);
}

/// One more entry of the registry of a file in the queue keeps the walk sound.
pub proof fn seeding_finds_no_child_twice(
    scan: SeedV,
    entry: RlmLedgerSeedRegistryEntry,
    parent: Seq<char>,
    depth: i64,
    paths: PathFacts,
    at: Seq<char>,
)
    requires
        seed_sound(scan),
        is_queued(scan.queue, parent),
        0 <= depth < i64::MAX,
    ensures
        seed_sound(seed_entry(scan, entry, parent, depth, paths, at)),
        is_queued(seed_entry(scan, entry, parent, depth, paths, at).queue, parent),
{
    let after = seed_entry(scan, entry, parent, depth, paths, at);
    let child = paths.canonical_of(entry.session_file@);
    let n = scan.records.len() as int;
    if entry.status@ != "deleted"@ && !scan.visited.contains(child) {
        visited_stay(scan.visited, child);
        let a = choose|i: int| 0 <= i < scan.queue.len() && (#[trigger] scan.queue[i]).1 == parent;
        if entry.child_id@.len() > 0 {
            let child_depth = seed_depth(entry.rlm_depth, depth as int) as i64;
            assert(!is_queued(scan.queue, child));
            queued_file_is_sound(scan, entry.session_file@, child, child_depth);
            assert(after.queue[a] == scan.queue[a]);
            assert(after.queue[scan.queue.len() as int].1 == child);
            assert(leads_on(after.queue, after.records[n]));
            assert forall|i: int| 0 <= i < after.records.len() implies {
                &&& (#[trigger] after.records[i]) is Spawn
                &&& after.records[i]->Spawn_depth >= 1
                &&& after.records[i]->Spawn_child_id.len() > 0
                &&& after.visited.contains(after.records[i]->Spawn_child)
                &&& leads_on(after.queue, after.records[i])
            } by {
                if i < n {
                    assert(after.records[i] == scan.records[i]);
                    longer_queues_lead_on(scan.queue, after.queue, scan.records[i]);
                }
            }
            assert forall|i: int, j: int| 0 <= i < j < after.records.len() implies (
            #[trigger] after.records[i])->Spawn_child != (
            #[trigger] after.records[j])->Spawn_child by {
                assert(after.records[i] == scan.records[i]);
                if j < n {
                    assert(after.records[j] == scan.records[j]);
                }
            }
        } else {
            assert(after.queue == scan.queue);
        }
    }
}

/// The spawns follow each other: the child of each is the parent of the next.
pub open spec fn is_descent(records: Seq<RecordV>, steps: Seq<int>) -> bool {
    &&& steps.len() > 0
    &&& forall|k: int| 0 <= k < steps.len() ==> 0 <= #[trigger] steps[k] < records.len()
    &&& forall|k: int|
        #![trigger steps[k]]
        0 < k < steps.len() ==> records[steps[k]]->Spawn_parent == records[steps[k
            - 1]]->Spawn_child
}

/// No spawn that a walk finds leads to its own parent or to an ancestor: wherever one
/// goes down from a file, one never comes back to it.
pub proof fn seeded_spawns_never_lead_back(scan: SeedV, steps: Seq<int>)
    requires
        seed_sound(scan),
        is_descent(scan.records, steps),
    ensures
        scan.records[steps.last()]->Spawn_child != scan.records[steps[0]]->Spawn_parent,
{
    let (a, b) = descent_goes_on(scan, steps);
}

proof fn descent_goes_on(scan: SeedV, steps: Seq<int>) -> (r: (int, int))
    requires
        seed_sound(scan),
        is_descent(scan.records, steps),
    ensures
        0 <= r.0 < r.1 < scan.queue.len(),
        scan.queue[r.0].1 == scan.records[steps[0]]->Spawn_parent,
        scan.queue[r.1].1 == scan.records[steps.last()]->Spawn_child,
    decreases steps.len(),
{
    let record = scan.records[steps.last()];
    assert(leads_on(scan.queue, record));
    let (a, b) = choose|a: int, b: int|
        0 <= a < b < scan.queue.len() && (#[trigger] scan.queue[a]).1 == record->Spawn_parent && (
        #[trigger] scan.queue[b]).1 == record->Spawn_child && scan.queue[b].2
            == record->Spawn_depth;
    if steps.len() == 1 {
        (a, b)
    } else {
        let earlier = steps.drop_last();
        assert forall|k: int| #![trigger earlier[k]] 0 < k < earlier.len() implies scan.records[
        earlier[k]]->Spawn_parent == scan.records[earlier[k - 1]]->Spawn_child by {
            assert(earlier[k] == steps[k] && earlier[k - 1] == steps[k - 1]);
        }
        let (first, mid) = descent_goes_on(scan, earlier);
        assert(steps.last() == steps[steps.len() - 1]);
        assert(scan.queue[mid].1 == scan.queue[a].1);
        assert(mid == a);
        (first, b)
    }
}

/// The file at this physical path is walked, or waits to be.
pub open spec fn is_foreseen(scan: SeedV, path: Seq<char>) -> bool {
    is_queued(scan.queue, path) || exists|i: int|
        0 <= i < scan.waiting.len() && (#[trigger] scan.waiting[i]).1 == path
}

/// Every file of the directory is walked, or waits to be.
pub proof fn every_file_is_foreseen(roots: Seq<SeedRoot>, paths: PathFacts, i: int)
    requires
        0 <= i < roots.len(),
    ensures
        is_foreseen(
            seed_refilled(seed_roots(roots, roots.len() as int, paths), 0),
            paths.canonical_of(roots[i].file@),
        ),
{
    let path = paths.canonical_of(roots[i].file@);
    roots_are_foreseen(roots, roots.len() as int, paths, i);
    refilling_keeps(seed_roots(roots, roots.len() as int, paths), 0, path);
}

/// Whatever a registry says, no file that is foreseen is lost. At the end of the walk
/// none waits any more, so every file of the directory was walked.
pub proof fn no_foreseen_file_is_lost(
    scan: SeedV,
    entries: Seq<RlmLedgerSeedRegistryEntry>,
    parent: Seq<char>,
    depth: i64,
    paths: PathFacts,
    at: Seq<char>,
    next: int,
    path: Seq<char>,
)
    requires
        is_foreseen(scan, path),
    ensures
        is_foreseen(
            seed_refilled(seed_entries(scan, entries, parent, depth, paths, at), next),
            path,
        ),
{
    entries_keep(scan, entries, parent, depth, paths, at, path);
    refilling_keeps(seed_entries(scan, entries, parent, depth, paths, at), next, path);
}

proof fn queue_grows(scan: SeedV, file: (Seq<char>, Seq<char>, i64), path: Seq<char>)
    ensures
        is_queued(scan.queue, path) ==> is_queued(scan.queue.push(file), path),
        is_queued(scan.queue.push(file), file.1),
{
    let after = scan.queue.push(file);
    assert(after[scan.queue.len() as int] == file);
    if is_queued(scan.queue, path) {
        let k = choose|k: int| 0 <= k < scan.queue.len() && (#[trigger] scan.queue[k]).1 == path;
        assert(after[k] == scan.queue[k]);
    }
}

proof fn roots_are_foreseen(roots: Seq<SeedRoot>, n: int, paths: PathFacts, i: int)
    requires
        0 <= i < n <= roots.len(),
    ensures
        is_foreseen(seed_roots(roots, n, paths), paths.canonical_of(roots[i].file@)),
    decreases n,
{
    let before = seed_roots(roots, n - 1, paths);
    let after = seed_roots(roots, n, paths);
    let path = paths.canonical_of(roots[i].file@);
    let file = roots[n - 1].file@;
    let last = paths.canonical_of(file);
    if i < n - 1 {
        roots_are_foreseen(roots, n - 1, paths, i);
    }
    queue_grows(before, (file, last, 0), path);
    if is_claimed(roots, last, paths) {
        assert(after.waiting[before.waiting.len() as int].1 == last);
    }
    if exists|k: int| 0 <= k < before.waiting.len() && (#[trigger] before.waiting[k]).1 == path {
        let k = choose|k: int|
            0 <= k < before.waiting.len() && (#[trigger] before.waiting[k]).1 == path;
        assert(after.waiting[k].1 == path);
    }
}

proof fn refilling_keeps(scan: SeedV, next: int, path: Seq<char>)
    requires
        is_foreseen(scan, path),
    ensures
        is_foreseen(seed_refilled(scan, next), path),
    decreases scan.waiting.len(),
{
    if !(next < scan.queue.len() || scan.waiting.len() == 0) {
        let (file, first) = scan.waiting[0];
        let fewer = SeedV { waiting: scan.waiting.drop_first(), ..scan };
        queue_grows(scan, (file, first, 0), path);
        if !is_queued(scan.queue, path) && first != path {
            let k = choose|k: int|
                0 <= k < scan.waiting.len() && (#[trigger] scan.waiting[k]).1 == path;
            assert(fewer.waiting[k - 1].1 == path);
        }
        if is_queued(scan.queue, first) {
            refilling_keeps(fewer, next, path);
        } else {
            let after = seed_refilled(scan, next);
            assert(after.queue == scan.queue.push((file, first, 0)));
            assert(after.waiting == fewer.waiting);
        }
    }
}

proof fn entries_keep(
    scan: SeedV,
    entries: Seq<RlmLedgerSeedRegistryEntry>,
    parent: Seq<char>,
    depth: i64,
    paths: PathFacts,
    at: Seq<char>,
    path: Seq<char>,
)
    requires
        is_foreseen(scan, path),
    ensures
        is_foreseen(seed_entries(scan, entries, parent, depth, paths, at), path),
    decreases entries.len(),
{
    if entries.len() > 0 {
        entries_keep(scan, entries.drop_last(), parent, depth, paths, at, path);
        let before = seed_entries(scan, entries.drop_last(), parent, depth, paths, at);
        let entry = entries.last();
        let child = paths.canonical_of(entry.session_file@);
        let child_depth = seed_depth(entry.rlm_depth, depth as int) as i64;
        queue_grows(before, (entry.session_file@, child, child_depth), path);
        let after = seed_entries(scan, entries, parent, depth, paths, at);
        assert(after.waiting == before.waiting);
    }
}

fn is_visited(visited: &Vec<String>, path: &str) -> (r: bool)
    ensures
        r == text::texts(visited@).contains(path@),
{
    let r: bool = contains_text(visited, path);
    proof {
        let views = text::texts(visited@);
        if r {
            let i = choose|i: int| 0 <= i < visited@.len() && (#[trigger] visited@[i])@ == path@;
            assert(views[i] == path@);
        }
        if views.contains(path@) {
            let i = choose|i: int| 0 <= i < views.len() && views[i] == path@;
            assert(visited@[i]@ == path@);
        }
    }
    r
}

/// Whether the entry names a child at this physical path.
fn entry_names_child(
    entry: &RlmLedgerSeedRegistryEntry,
    path: &str,
    paths: &PathFacts,
) -> (r: bool)
    requires
        paths.wf(),
    ensures
        r == names_child(*entry, path@, *paths),
{
    if same(&entry.status, "deleted") || entry.child_id.as_str().is_empty() {
        return false;
    }
    let child = paths.canonical(&entry.session_file);
    same(&child, path)
}

/// Whether another file of the directory lists this one.
fn claimed_by_another(roots: &Vec<SeedRoot>, path: &str, paths: &PathFacts) -> (r: bool)
    requires
        paths.wf(),
    ensures
        r == is_claimed(roots@, path@, *paths),
{
    let mut i: usize = 0;
    while i < roots.len()
        invariant
            i <= roots.len(),
            paths.wf(),
            forall|k: int, j: int|
                0 <= k < i && 0 <= j < roots@[k].entries@.len() && paths.canonical_of(
                    roots@[k].file@,
                ) != path@ ==> !names_child(#[trigger] roots@[k].entries@[j], path@, *paths),
        decreases roots.len() - i,
    {
        let own = paths.canonical(&roots[i].file);
        if !same(&own, path) {
            let entries = &roots[i].entries;
            let mut j: usize = 0;
            while j < entries.len()
                invariant
                    i < roots.len(),
                    j <= entries.len(),
                    entries@ == roots@[i as int].entries@,
                    paths.wf(),
                    paths.canonical_of(roots@[i as int].file@) != path@,
                    forall|l: int|
                        0 <= l < j ==> !names_child(
                            #[trigger] roots@[i as int].entries@[l],
                            path@,
                            *paths,
                        ),
                decreases entries.len() - j,
            {
                if entry_names_child(&entries[j], path, paths) {
                    assert(names_child(roots@[i as int].entries@[j as int], path@, *paths));
                    return true;
                }
                j += 1;
            }
        }
        i += 1;
    }
    false
}

/// The files of a directory with these names.
pub fn seed_files(names: &Vec<String>, dir: &str) -> (r: Vec<String>)
    ensures
        text::texts(r@) == Seq::new(
            names@.len(),
            |i: int| path_facts::joined_path(dir@, names@[i]@),
        ),
{
    let mut r: Vec<String> = Vec::new();
    let mut i: usize = 0;
    while i < names.len()
        invariant
            i <= names.len(),
            r@.len() == i,
            forall|j: int|
                0 <= j < i ==> (#[trigger] r@[j])@ == path_facts::joined_path(dir@, names@[j]@),
        decreases names.len() - i,
    {
        r.push(join_dir(dir, &names[i]));
        i += 1;
    }
    assert(text::texts(r@) =~= Seq::new(
        names@.len(),
        |k: int| path_facts::joined_path(dir@, names@[k]@),
    ));
    r
}

impl SeedScan {
    /// The walk can go on: its next file is at a depth that can have children, and no
    /// file waits while there is nothing to be walked.
    pub open spec fn wf(self) -> bool {
        &&& self.walks()
        &&& self.next == self.queue@.len() ==> self.waiting@.len() == 0
    }

    /// What holds between two steps.
    pub open spec fn walks(self) -> bool {
        &&& self.next <= self.queue@.len()
        &&& forall|i: int| 0 <= i < self.queue@.len() ==> (#[trigger] self.queue@[i]).2 >= 0
        &&& seed_sound(self@)
        &&& forall|i: int| 0 <= i < self.records@.len() ==> standard(#[trigger] self.records@[i])
    }

    /// Whether the physical path stands in the queue.
    fn queued(&self, path: &str) -> (r: bool)
        ensures
            r == is_queued(self@.queue, path@),
    {
        let mut i: usize = 0;
        while i < self.queue.len()
            invariant
                i <= self.queue.len(),
                forall|j: int| 0 <= j < i ==> (#[trigger] self@.queue[j]).1 != path@,
            decreases self.queue.len() - i,
        {
            if same(&self.queue[i].1, path) {
                assert(self@.queue[i as int].1 == path@);
                return true;
            }
            i += 1;
        }
        false
    }

    /// Has one more file walked.
    fn walk(&mut self, file: String, path: String)
        requires
            old(self).walks(),
            !is_queued(old(self)@.queue, path@),
        ensures
            final(self).walks(),
            final(self).next == old(self).next,
            final(self)@ == (SeedV {
                queue: old(self)@.queue.push((file@, path@, 0)),
                visited: old(self)@.visited.push(path@),
                ..old(self)@
            }),
    {
        let ghost before = self@;
        proof {
            queued_file_is_sound(before, file@, path@, 0);
        }
        let ghost shown = (file@, path@, 0i64);
        self.visited.push(path.clone());
        self.queue.push((file, path, 0));
        assert(self@ =~= (SeedV {
            queue: before.queue.push(shown),
            visited: before.visited.push(shown.1),
            ..before
        }));
    }

    /// Begins the walk at the files of a directory, given with their registries. A
    /// file that another one lists is taken for its child.
    pub fn start(roots: &Vec<SeedRoot>, paths: &PathFacts) -> (r: Self)
        requires
            paths.wf(),
        ensures
            r.wf(),
            r.next == 0,
            r@ == seed_refilled(seed_roots(roots@, roots@.len() as int, *paths), 0),
    {
        let mut r = SeedScan {
            queue: Vec::new(),
            next: 0,
            waiting: Vec::new(),
            visited: Vec::new(),
            records: Vec::new(),
        };
        assert(r@ =~= seed_roots(roots@, 0, *paths));
        let mut i: usize = 0;
        while i < roots.len()
            invariant
                i <= roots.len(),
                paths.wf(),
                r.walks(),
                r.next == 0,
                r@ == seed_roots(roots@, i as int, *paths),
            decreases roots.len() - i,
        {
            let ghost before = r@;
            let file = roots[i].file.clone();
            let path = paths.canonical(&file);
            if claimed_by_another(roots, &path, paths) {
                let ghost shown = (file@, path@);
                r.waiting.push((file, path));
                assert(r@ =~= (SeedV { waiting: before.waiting.push(shown), ..before }));
            } else if !r.queued(&path) {
                r.walk(file, path);
            }
            i += 1;
        }
        r.refill();
        r
    }

    /// Has a waiting file walked where nothing else is left.
    fn refill(&mut self)
        requires
            old(self).walks(),
        ensures
            final(self).wf(),
            final(self).next == old(self).next,
            final(self)@ == seed_refilled(old(self)@, old(self).next as int),
    {
        while self.next >= self.queue.len() && self.waiting.len() > 0
            invariant
                self.walks(),
                self.next == old(self).next,
                seed_refilled(self@, self.next as int) == seed_refilled(
                    old(self)@,
                    old(self).next as int,
                ),
            decreases self.waiting@.len(),
        {
            let ghost before = self@;
            let (file, path) = self.waiting.remove(0);
            assert(self@ =~= (SeedV { waiting: before.waiting.drop_first(), ..before }));
            assert(before.waiting[0] == (file@, path@));
            if !self.queued(&path) {
                self.walk(file, path);
            }
        }
    }

    /// The session file whose registry is to be read next.
    pub fn current(&self) -> (r: Option<&str>)
        requires
            self.wf(),
        ensures
            json::opt_str_view(r) == if self.next < self.queue@.len() {
                Some(self.queue@[self.next as int].0@)
            } else {
                None
            },
    {
        if self.next < self.queue.len() {
            Some(self.queue[self.next].0.as_str())
        } else {
            None
        }
    }

    /// Takes the registry of the current file and goes on to the next one.
    pub fn feed_at(
        &mut self,
        entries: &Vec<RlmLedgerSeedRegistryEntry>,
        paths: &PathFacts,
        at: &str,
    )
        requires
            paths.wf(),
            old(self).wf(),
            old(self).next < old(self).queue@.len(),
            old(self).queue@[old(self).next as int].2 < i64::MAX,
        ensures
            final(self).wf(),
            final(self).next == old(self).next + 1,
            final(self)@ == seed_refilled(
                seed_entries(
                    old(self)@,
                    entries@,
                    old(self).queue@[old(self).next as int].1@,
                    old(self).queue@[old(self).next as int].2,
                    *paths,
                    at@,
                ),
                old(self).next + 1,
            ),
    {
        let parent = self.queue[self.next].1.clone();
        let depth: i64 = self.queue[self.next].2;
        let mut i: usize = 0;
        assert(entries@.take(0) =~= Seq::empty());
        assert(self@.queue[self.next as int].1 == parent@);
        while i < entries.len()
            invariant
                i <= entries.len(),
                paths.wf(),
                self.walks(),
                self.next == old(self).next,
                self.next < self.queue@.len(),
                0 <= depth < i64::MAX,
                is_queued(self@.queue, parent@),
                self@ == seed_entries(
                    old(self)@,
                    entries@.take(i as int),
                    parent@,
                    depth,
                    *paths,
                    at@,
                ),
            decreases entries.len() - i,
        {
            let entry = &entries[i];
            let ghost before = self@;
            proof {
                assert(entries@.take(i + 1).drop_last() =~= entries@.take(i as int));
                assert(entries@.take(i + 1).last() == *entry);
                seeding_finds_no_child_twice(before, *entry, parent@, depth, *paths, at@);
            }
            let child = paths.canonical(&entry.session_file);
            if !same(&entry.status, "deleted") && !is_visited(&self.visited, &child) {
                self.visited.push(child.clone());
                assert(self@.visited =~= before.visited.push(child@));
                if !entry.child_id.as_str().is_empty() {
                    let child_depth: i64 = match entry.rlm_depth {
                        Some(registered) => if registered >= 1 {
                            registered
                        } else {
                            depth + 1
                        },
                        None => depth + 1,
                    };
                    let record = RlmLedgerRecord::Spawn(
                        RlmLedgerSpawnRecord {
                            v: 1,
                            op: "spawn".to_owned(),
                            at: at.to_owned(),
                            child_id: entry.child_id.clone(),
                            parent: parent.clone(),
                            child: child.clone(),
                            depth: child_depth,
                            name: entry.session_name.clone(),
                        },
                    );
                    let ghost shown = record@;
                    let ghost path = child@;
                    self.records.push(record);
                    self.queue.push((entry.session_file.clone(), child, child_depth));
                    assert(self@.records =~= before.records.push(shown));
                    assert(self@.queue =~= before.queue.push(
                        (entry.session_file@, path, child_depth),
                    ));
                } else {
                    assert(self@.records =~= before.records);
                    assert(self@.queue =~= before.queue);
                }
                assert(self@.waiting =~= before.waiting);
            }
            assert(self@ == seed_entry(before, *entry, parent@, depth, *paths, at@));
            i += 1;
        }
        assert(entries@.take(i as int) =~= entries@);
        assert(self.next < self.queue.len());
        let ghost before = self@;
        self.next = self.next + 1;
        assert(self@ =~= before);
        self.refill();
    }

    /// The contents of the new ledger: a first record that names the directory,
    /// then the spawns that were found. Nothing where none was found, and nothing
    /// where the ledger would be too large to be read again.
    pub fn payload_at(&self, sessions_dir: &str, at: &str) -> (r: Option<String>)
        requires
            self.wf(),
            self.records@.len() < usize::MAX,
        ensures
            match r {
                Some(payload) => {
                    &&& self@.records.len() > 0
                    &&& payload@ == seed_text(self@.records, sessions_dir@, at@)
                    &&& self@.records.len() + 1 <= RLM_LEDGER_MAX_RECORDS
                    &&& vstd::utf8::encode_utf8(payload@).len() <= RLM_LEDGER_MAX_BYTES
                },
                None => self@.records.len() == 0 || self@.records.len() + 1
                    > RLM_LEDGER_MAX_RECORDS || vstd::utf8::encode_utf8(
                    seed_text(self@.records, sessions_dir@, at@),
                ).len() > RLM_LEDGER_MAX_BYTES,
            },
    {
        if self.records.len() == 0 {
            return None;
        }
        let meta = RlmLedgerRecord::Meta(
            RlmLedgerMetaRecord {
                v: 1,
                op: "meta".to_owned(),
                at: at.to_owned(),
                sessions_dir: sessions_dir.to_owned(),
            },
        );
        let mut payload = record_line(&meta);
        payload.append("\n");
        let ghost views = record_views(self.records@);
        let mut i: usize = 0;
        assert(views.take(0) =~= Seq::empty());
        while i < self.records.len()
            invariant
                i <= self.records.len(),
                self.wf(),
                views == record_views(self.records@),
                payload@ == seed_text(views.take(i as int), sessions_dir@, at@),
            decreases self.records.len() - i,
        {
            proof {
                assert(views.take(i + 1).drop_last() =~= views.take(i as int));
                assert(views.take(i + 1).last() == self.records@[i as int]@);
                assert(self@.records[i as int] == self.records@[i as int]@);
            }
            let line = record_line(&self.records[i]);
            payload.append(&line);
            payload.append("\n");
            i += 1;
        }
        assert(views.take(i as int) =~= views);
        let bytes = payload.as_str().as_bytes();
        if self.records.len() + 1 > RLM_LEDGER_MAX_RECORDS || bytes.len() as u64
            > RLM_LEDGER_MAX_BYTES {
            return None;
        }
        Some(payload)
    }
}

/// The text of a new ledger with these records.
pub open spec fn seed_text(records: Seq<RecordV>, sessions_dir: Seq<char>, at: Seq<char>) -> Seq<
    char,
>
    decreases records.len(),
{
    if records.len() == 0 {
        json::printed_json(record_value(RecordV::Meta { at, sessions_dir })) + "\n"@
    } else {
        seed_text(records.drop_last(), sessions_dir, at) + json::printed_json(
            record_value(records.last()),
        ) + "\n"@
    }
}


/// An entry of the registry that a parent kept before there was a ledger, in full.
#[derive(Debug, PartialEq)]
pub struct LegacyRlmSubagentRegistryEntry {
    pub type_: String,
    pub child_id: String,
    pub session_name: String,
    pub session_dir: String,
    pub session_file: String,
    pub parent_session_id: String,
    pub parent_session_file: Option<String>,
    pub rlm_depth: Option<i64>,
    pub rlm_max_depth: Option<i64>,
    pub rlm_parent_node_id: Option<String>,
    pub prompt: Option<String>,
    pub spawn_code: Option<String>,
    pub model: Option<Json>,
    pub created_at: Num,
    pub updated_at: String,
    pub status: String,
}

/// What an entry of an old registry says.
#[verifier::ext_equal]
pub struct LegacyV {
    pub type_: Seq<char>,
    pub child_id: Seq<char>,
    pub session_name: Seq<char>,
    pub session_dir: Seq<char>,
    pub session_file: Seq<char>,
    pub parent_session_id: Seq<char>,
    pub parent_session_file: Option<Seq<char>>,
    pub rlm_depth: Option<i64>,
    pub rlm_max_depth: Option<i64>,
    pub rlm_parent_node_id: Option<Seq<char>>,
    pub prompt: Option<Seq<char>>,
    pub spawn_code: Option<Seq<char>>,
    pub model: Option<JsonV>,
    pub created_at: Num,
    pub updated_at: Seq<char>,
    pub status: Seq<char>,
}

impl View for LegacyRlmSubagentRegistryEntry {
    type V = LegacyV;

    open spec fn view(&self) -> LegacyV {
        LegacyV {
            type_: self.type_@,
            child_id: self.child_id@,
            session_name: self.session_name@,
            session_dir: self.session_dir@,
            session_file: self.session_file@,
            parent_session_id: self.parent_session_id@,
            parent_session_file: json::opt_view(self.parent_session_file),
            rlm_depth: self.rlm_depth,
            rlm_max_depth: self.rlm_max_depth,
            rlm_parent_node_id: json::opt_view(self.rlm_parent_node_id),
            prompt: json::opt_view(self.prompt),
            spawn_code: json::opt_view(self.spawn_code),
            model: json::opt_json(self.model),
            created_at: self.created_at,
            updated_at: self.updated_at@,
            status: self.status@,
        }
    }
}

impl Clone for LegacyRlmSubagentRegistryEntry {
    fn clone(&self) -> (r: Self)
        ensures
            r@ == self@,
    {
        LegacyRlmSubagentRegistryEntry {
            type_: self.type_.clone(),
            child_id: self.child_id.clone(),
            session_name: self.session_name.clone(),
            session_dir: self.session_dir.clone(),
            session_file: self.session_file.clone(),
            parent_session_id: self.parent_session_id.clone(),
            parent_session_file: self.parent_session_file.clone(),
            rlm_depth: self.rlm_depth,
            rlm_max_depth: self.rlm_max_depth,
            rlm_parent_node_id: self.rlm_parent_node_id.clone(),
            prompt: self.prompt.clone(),
            spawn_code: self.spawn_code.clone(),
            model: json::copied(self.model.as_ref()),
            created_at: self.created_at.clone(),
            updated_at: self.updated_at.clone(),
            status: self.status.clone(),
        }
    }
}

/// The document is an entry of an old registry: it names a child, its session
/// and a status that is known, and its depth, where it has one, is no negative
/// number.
pub open spec fn is_legacy_entry(value: JsonV) -> bool {
    &&& value.str_at("type"@) == Some("rlm_subagent"@)
    &&& value.str_at("childId"@) is Some
    &&& value.str_at("sessionName"@) is Some
    &&& value.str_at("sessionFile"@) is Some
    &&& {
        ||| value.str_at("status"@) == Some("running"@)
        ||| value.str_at("status"@) == Some("completed"@)
        ||| value.str_at("status"@) == Some("deleted"@)
    }
    &&& match value.get("rlmDepth"@) {
        Some(depth) => depth.i64() matches Some(n) && n >= 0,
        None => true,
    }
}

/// Whether the document is an entry of an old registry.
pub fn is_legacy_registry_entry(entry: &Json) -> (r: bool)
    ensures
        r == is_legacy_entry(entry@),
{
    if !entry.str_is("type", "rlm_subagent") {
        return false;
    }
    if entry.str_at("childId").is_none() || entry.str_at("sessionName").is_none() || entry.str_at(
        "sessionFile",
    ).is_none() {
        return false;
    }
    if !(entry.str_is("status", "running") || entry.str_is("status", "completed") || entry.str_is(
        "status",
        "deleted",
    )) {
        return false;
    }
    match entry.get("rlmDepth") {
        Some(depth) => match depth.as_i64() {
            Some(n) => n >= 0,
            None => false,
        },
        None => true,
    }
}

/// A member that may be absent or null but otherwise is a text.
pub open spec fn text_or_none(value: JsonV, key: Seq<char>) -> bool {
    match value.get(key) {
        Some(member) => member is Null || member is Str,
        None => true,
    }
}

/// A member that may be absent or null but otherwise is an integer.
pub open spec fn integer_or_none(value: JsonV, key: Seq<char>) -> bool {
    match value.get(key) {
        Some(member) => member is Null || member.i64() is Some,
        None => true,
    }
}

/// Every field of an entry is there with its type; optional ones may be missing.
pub open spec fn is_complete(value: JsonV) -> bool {
    &&& value.str_at("sessionDir"@) is Some
    &&& value.str_at("parentSessionId"@) is Some
    &&& value.str_at("updatedAt"@) is Some
    &&& value.get("createdAt"@) matches Some(JsonV::Num(_))
    &&& text_or_none(value, "parentSessionFile"@)
    &&& text_or_none(value, "rlmParentNodeId"@)
    &&& text_or_none(value, "prompt"@)
    &&& text_or_none(value, "spawnCode"@)
    &&& integer_or_none(value, "rlmDepth"@)
    &&& integer_or_none(value, "rlmMaxDepth"@)
}

/// The directory an entry is kept with: its own, or that of its session file.
pub open spec fn kept_dir(dir: Seq<char>, file: Seq<char>) -> Seq<char> {
    if dir.len() == 0 {
        path_facts::parent_of(file)
    } else {
        dir
    }
}

/// The entry in a document. Of a document that is not complete only the names,
/// the session file and the status are kept; a damaged maximal depth is dropped.
pub open spec fn legacy_of(value: JsonV) -> LegacyV {
    let file = json::text_or_empty(value, "sessionFile"@);
    if is_complete(value) {
        LegacyV {
            type_: "rlm_subagent"@,
            child_id: json::text_or_empty(value, "childId"@),
            session_name: json::text_or_empty(value, "sessionName"@),
            session_dir: kept_dir(json::text_or_empty(value, "sessionDir"@), file),
            session_file: file,
            parent_session_id: json::text_or_empty(value, "parentSessionId"@),
            parent_session_file: value.str_at("parentSessionFile"@),
            rlm_depth: value.i64_at("rlmDepth"@),
            rlm_max_depth: match value.i64_at("rlmMaxDepth"@) {
                Some(depth) if depth >= 0 => Some(depth),
                _ => None,
            },
            rlm_parent_node_id: value.str_at("rlmParentNodeId"@),
            prompt: value.str_at("prompt"@),
            spawn_code: value.str_at("spawnCode"@),
            model: match value.get("model"@) {
                Some(JsonV::Null) => None,
                other => other,
            },
            created_at: value.get("createdAt"@)->0->Num_0,
            updated_at: json::text_or_empty(value, "updatedAt"@),
            status: json::text_or_empty(value, "status"@),
        }
    } else {
        LegacyV {
            type_: "rlm_subagent"@,
            child_id: json::text_or_empty(value, "childId"@),
            session_name: json::text_or_empty(value, "sessionName"@),
            session_dir: path_facts::parent_of(file),
            session_file: file,
            parent_session_id: json::text_or_empty(value, "parentSessionId"@),
            parent_session_file: None,
            rlm_depth: None,
            rlm_max_depth: None,
            rlm_parent_node_id: None,
            prompt: None,
            spawn_code: None,
            model: None,
            created_at: Num::Whole(0),
            updated_at: Seq::empty(),
            status: json::text_or_empty(value, "status"@),
        }
    }
}

fn is_text_or_none(value: &Json, key: &str) -> (r: bool)
    ensures
        r == text_or_none(value@, key@),
{
    match value.get(key) {
        None => true,
        Some(Json::Null) => true,
        Some(Json::Str(_)) => true,
        _ => false,
    }
}

fn is_integer_or_none(value: &Json, key: &str) -> (r: bool)
    ensures
        r == integer_or_none(value@, key@),
{
    match value.get(key) {
        None => true,
        Some(Json::Null) => true,
        Some(member) => member.as_i64().is_some(),
    }
}

/// Reads an entry of an old registry.
pub fn legacy_entry(value: &Json) -> (r: LegacyRlmSubagentRegistryEntry)
    ensures
        r@ == legacy_of(value@),
{
    let file = json::text_at(value, "sessionFile");
    let created: Option<Num> = match value.get("createdAt") {
        Some(Json::Number(n)) => Some(n.clone()),
        _ => None,
    };
    let complete: bool = value.str_at("sessionDir").is_some() && value.str_at(
        "parentSessionId",
    ).is_some() && value.str_at("updatedAt").is_some() && is_text_or_none(
        value,
        "parentSessionFile",
    ) && is_text_or_none(value, "rlmParentNodeId") && is_text_or_none(value, "prompt")
        && is_text_or_none(value, "spawnCode") && is_integer_or_none(value, "rlmDepth")
        && is_integer_or_none(value, "rlmMaxDepth");
    match created {
        Some(created_at) if complete => {
            let dir = json::text_at(value, "sessionDir");
            let session_dir = if dir.as_str().is_empty() {
                dirname_of(&file)
            } else {
                dir
            };
            LegacyRlmSubagentRegistryEntry {
                type_: "rlm_subagent".to_owned(),
                child_id: json::text_at(value, "childId"),
                session_name: json::text_at(value, "sessionName"),
                session_dir,
                session_file: file,
                parent_session_id: json::text_at(value, "parentSessionId"),
                parent_session_file: owned(value.str_at("parentSessionFile")),
                rlm_depth: value.i64_at("rlmDepth"),
                rlm_max_depth: match value.i64_at("rlmMaxDepth") {
                    Some(depth) => if depth >= 0 {
                        Some(depth)
                    } else {
                        None
                    },
                    None => None,
                },
                rlm_parent_node_id: owned(value.str_at("rlmParentNodeId")),
                prompt: owned(value.str_at("prompt")),
                spawn_code: owned(value.str_at("spawnCode")),
                model: match value.get("model") {
                    None => None,
                    Some(Json::Null) => None,
                    Some(model) => Some(model.clone()),
                },
                created_at,
                updated_at: json::text_at(value, "updatedAt"),
                status: json::text_at(value, "status"),
            }
        },
        _ => {
            let session_dir = dirname_of(&file);
            LegacyRlmSubagentRegistryEntry {
                type_: "rlm_subagent".to_owned(),
                child_id: json::text_at(value, "childId"),
                session_name: json::text_at(value, "sessionName"),
                session_dir,
                session_file: file,
                parent_session_id: json::text_at(value, "parentSessionId"),
                parent_session_file: None,
                rlm_depth: None,
                rlm_max_depth: None,
                rlm_parent_node_id: None,
                prompt: None,
                spawn_code: None,
                model: None,
                created_at: Num::Whole(0),
                updated_at: String::new(),
                status: json::text_at(value, "status"),
            }
        },
    }
}

/// The latest entries after one more line of an old registry.
pub open spec fn legacy_line(latest: Seq<(Seq<char>, LegacyV)>, line: Seq<char>) -> Seq<
    (Seq<char>, LegacyV),
> {
    let trimmed = text::trimmed(line);
    if trimmed.len() == 0 {
        latest
    } else {
        match json::parsed_json(vstd::utf8::encode_utf8(trimmed)) {
            Ok(value) => if is_legacy_entry(value) {
                assoc::set(latest, legacy_of(value).child_id, legacy_of(value))
            } else {
                latest
            },
            Err(_) => latest,
        }
    }
}

/// The latest entry of each child after these lines of an old registry, in the
/// order in which the children first appeared.
pub open spec fn legacy_entries(all: Seq<Seq<char>>) -> Seq<(Seq<char>, LegacyV)>
    decreases all.len(),
{
    if all.len() == 0 {
        Seq::empty()
    } else {
        legacy_line(legacy_entries(all.drop_last()), all.last())
    }
}

/// Reads an old registry: the latest entry of each child. Lines that are no
/// entry are passed over.
pub fn read_legacy_rlm_subagent_registry(contents: &str) -> (r: Vec<
    LegacyRlmSubagentRegistryEntry,
>)
    ensures
        Seq::new(r@.len(), |i: int| r@[i]@) == Seq::new(
            legacy_entries(text::lines(contents@)).len(),
            |i: int| legacy_entries(text::lines(contents@))[i].1,
        ),
{
    let all = split_lines(contents);
    let ghost views = text::texts(all@);
    let ghost f = |entry: LegacyRlmSubagentRegistryEntry| entry@;
    let mut index: OrderedIndex<LegacyRlmSubagentRegistryEntry> = OrderedIndex::new();
    let mut i: usize = 0;
    proof {
        assert(views.take(0) =~= Seq::empty());
        assert(assoc::mapped(index.pairs(), f) =~= Seq::empty());
    }
    while i < all.len()
        invariant
            i <= all.len(),
            views == text::texts(all@),
            index.wf(),
            index.slots@.len() <= i,
            f == (|entry: LegacyRlmSubagentRegistryEntry| entry@),
            assoc::mapped(index.pairs(), f) == legacy_entries(views.take(i as int)),
        decreases all.len() - i,
    {
        proof {
            assert(views.take(i + 1).drop_last() =~= views.take(i as int));
            assert(views.take(i + 1).last() == all@[i as int]@);
        }
        let trimmed = trim(&all[i]);
        if !trimmed.as_str().is_empty() {
            if let Ok(value) = parse_json(trimmed.as_str().as_bytes()) {
                if is_legacy_registry_entry(&value) {
                    let entry = legacy_entry(&value);
                    let key = entry.child_id.clone();
                    proof {
                        assoc::mapped_set(index.pairs(), key@, entry, f);
                    }
                    index.put(key, entry);
                }
            }
        }
        i += 1;
    }
    assert(views.take(i as int) =~= views);
    let order = index.order();
    let mut out: Vec<LegacyRlmSubagentRegistryEntry> = Vec::new();
    let mut j: usize = 0;
    while j < order.len()
        invariant
            j <= order.len(),
            out@.len() == j,
            order@.len() == index.pairs().len(),
            forall|k: int|
                0 <= k < order@.len() ==> #[trigger] order@[k] < index.slots@.len()
                    && index.slots@[order@[k] as int] == index.pairs()[k].1,
            forall|k: int| 0 <= k < j ==> (#[trigger] out@[k])@ == index.pairs()[k].1@,
        decreases order.len() - j,
    {
        assert(order@[j as int] < index.slots.len());
        let at: usize = order[j] as usize;
        out.push(index.slots[at].clone());
        j += 1;
    }
    proof {
        let expected = legacy_entries(views);
        assert forall|k: int| 0 <= k < out@.len() implies (#[trigger] out@[k])@ == expected[k].1 by {
            assert(assoc::mapped(index.pairs(), f)[k].1 == f(index.pairs()[k].1));
        }
        assert(Seq::new(out@.len(), |k: int| out@[k]@) =~= Seq::new(
            expected.len(),
            |k: int| expected[k].1,
        ));
    }
    out
}

/// The saved sessions with the descendants that only the ledger knows, and the
/// canonical paths that were met.
#[verifier::ext_equal]
pub struct MergeV {
    pub sessions: Seq<SessionInfoV>,
    pub seen: Seq<Seq<char>>,
}

/// The session belongs to the directory, where one is asked for.
pub open spec fn cwd_matches(
    info: SessionInfoV,
    cwd: Option<Seq<char>>,
    current_dir: Option<Seq<char>>,
) -> bool {
    match cwd {
        Some(cwd) => info.cwd.len() > 0 && path_facts::resolved(info.cwd, current_dir) == path_facts::resolved(
            cwd,
            current_dir,
        ),
        None => true,
    }
}

/// The merge after one more live edge.
pub open spec fn merge_edge(
    merge: MergeV,
    edge: EdgeV,
    paths: PathFacts,
    read: Map<Seq<char>, SessionInfo>,
    cwd: Option<Seq<char>>,
    current_dir: Option<Seq<char>>,
) -> MergeV {
    let child = paths.canonical_of(edge.child);
    if merge.seen.contains(child) {
        merge
    } else {
        let seen = merge.seen.push(child);
        match info_at(read, child) {
            Some(info) if cwd_matches(info, cwd, current_dir) => MergeV {
                sessions: merge.sessions.push(
                    SessionInfoV {
                        parent_session_path: Some(edge.parent),
                        rlm_depth: edge.depth,
                        ..info
                    },
                ),
                seen,
            },
            _ => MergeV { sessions: merge.sessions, seen },
        }
    }
}

/// The merge after these live edges.
pub open spec fn merge_edges(
    merge: MergeV,
    edges: Seq<EdgeV>,
    paths: PathFacts,
    read: Map<Seq<char>, SessionInfo>,
    cwd: Option<Seq<char>>,
    current_dir: Option<Seq<char>>,
) -> MergeV
    decreases edges.len(),
{
    if edges.len() == 0 {
        merge
    } else {
        merge_edge(
            merge_edges(merge, edges.drop_last(), paths, read, cwd, current_dir),
            edges.last(),
            paths,
            read,
            cwd,
            current_dir,
        )
    }
}

/// What the seeding of a ledger takes from an entry of an old registry.
pub open spec fn is_seed_of(seed: RlmLedgerSeedRegistryEntry, entry: LegacyV) -> bool {
    &&& seed.child_id@ == entry.child_id
    &&& seed.session_name@ == entry.session_name
    &&& seed.session_file@ == entry.session_file
    &&& seed.rlm_depth == entry.rlm_depth
    &&& seed.status@ == entry.status
}

/// The id under which the old registry of a session is kept, from the first line of
/// the session's file.
pub fn registry_session_id(first_line: &str) -> (r: Option<String>)
    ensures
        json::opt_view(r) == match json::parsed_json(vstd::utf8::encode_utf8(first_line@)) {
            Ok(header) => header.str_at("id"@),
            Err(_) => None,
        },
{
    match parse_json(first_line.as_bytes()) {
        Ok(header) => owned(header.str_at("id")),
        Err(_) => None,
    }
}

/// What the seeding of a ledger takes from an old registry.
pub fn read_registry_for_session_file(contents: &str) -> (r: Vec<RlmLedgerSeedRegistryEntry>)
    ensures
        ({
            let entries = legacy_entries(text::lines(contents@));
            &&& r@.len() == entries.len()
            &&& forall|i: int| 0 <= i < r@.len() ==> is_seed_of(#[trigger] r@[i], entries[i].1)
        }),
{
    let entries = read_legacy_rlm_subagent_registry(contents);
    let ghost all = legacy_entries(text::lines(contents@));
    let ghost views = Seq::new(entries@.len(), |i: int| entries@[i]@);
    proof {
        assert(views.len() == all.len());
        assert forall|i: int| 0 <= i < all.len() implies entries@[i]@ == (#[trigger] all[i]).1 by {
            assert(views[i] == all[i].1);
        }
    }
    let mut seeds: Vec<RlmLedgerSeedRegistryEntry> = Vec::new();
    let mut i: usize = 0;
    while i < entries.len()
        invariant
            i <= entries.len(),
            entries@.len() == all.len(),
            seeds@.len() == i,
            forall|j: int| 0 <= j < all.len() ==> entries@[j]@ == (#[trigger] all[j]).1,
            forall|j: int| 0 <= j < i ==> is_seed_of(#[trigger] seeds@[j], all[j].1),
        decreases entries.len() - i,
    {
        let entry = &entries[i];
        assert(entry@ == all[i as int].1);
        seeds.push(
            RlmLedgerSeedRegistryEntry {
                child_id: entry.child_id.clone(),
                session_name: entry.session_name.clone(),
                session_file: entry.session_file.clone(),
                rlm_depth: entry.rlm_depth,
                status: entry.status.clone(),
            },
        );
        i += 1;
    }
    seeds
}

/// The saved sessions, and after them the descendants that the ledger knows and
/// the saved sessions do not hold, each with the topology of the ledger.
pub fn with_passive_rlm_descendant_infos(
    saved: &Vec<SessionInfo>,
    live: &Vec<RlmLedgerEdge>,
    paths: &PathFacts,
    read: &TextMap<SessionInfo>,
    cwd: Option<&str>,
    current_dir: Option<&str>,
) -> (r: Vec<SessionInfo>)
    requires
        paths.wf(),
        read.wf(),
    ensures
        session_info::infos(r@) == merge_edges(
            MergeV {
                sessions: session_info::infos(saved@),
                seen: Seq::new(saved@.len(), |i: int| paths.canonical_of(saved@[i].path@)),
            },
            edge_views(live@),
            *paths,
            read@,
            json::opt_str_view(cwd),
            json::opt_str_view(current_dir),
        ).sessions,
{
    let mut sessions: Vec<SessionInfo> = Vec::new();
    let mut seen: Vec<String> = Vec::new();
    let mut i: usize = 0;
    while i < saved.len()
        invariant
            i <= saved.len(),
            paths.wf(),
            sessions@.len() == i,
            seen@.len() == i,
            forall|j: int| 0 <= j < i ==> (#[trigger] sessions@[j])@ == saved@[j]@,
            forall|j: int|
                0 <= j < i ==> (#[trigger] seen@[j])@ == paths.canonical_of(saved@[j].path@),
        decreases saved.len() - i,
    {
        sessions.push(saved[i].clone());
        seen.push(paths.canonical(&saved[i].path));
        i += 1;
    }
    let ghost start = MergeV {
        sessions: session_info::infos(saved@),
        seen: Seq::new(saved@.len(), |k: int| paths.canonical_of(saved@[k].path@)),
    };
    let ghost views = edge_views(live@);
    let mut j: usize = 0;
    proof {
        assert(session_info::infos(sessions@) =~= start.sessions);
        assert(text::texts(seen@) =~= start.seen);
        assert(views.take(0) =~= Seq::empty());
    }
    while j < live.len()
        invariant
            j <= live.len(),
            paths.wf(),
            read.wf(),
            views == edge_views(live@),
            (MergeV { sessions: session_info::infos(sessions@), seen: text::texts(seen@) })
                == merge_edges(
                start,
                views.take(j as int),
                *paths,
                read@,
                json::opt_str_view(cwd),
                json::opt_str_view(current_dir),
            ),
        decreases live.len() - j,
    {
        proof {
            assert(views.take(j + 1).drop_last() =~= views.take(j as int));
            assert(views.take(j + 1).last() == live@[j as int]@);
        }
        let edge = &live[j];
        let child = paths.canonical(&edge.child);
        if !is_visited(&seen, &child) {
            let ghost met = seen@;
            let ghost written = sessions@;
            seen.push(child.clone());
            assert(text::texts(seen@) =~= text::texts(met).push(child@));
            if let Some(info) = read.get(&child) {
                let belongs: bool = match cwd {
                    Some(cwd) => {
                        let own = resolve(&info.cwd, current_dir);
                        let asked = resolve(cwd, current_dir);
                        !info.cwd.as_str().is_empty() && same(&own, &asked)
                    },
                    None => true,
                };
                if belongs {
                    let mut row = info.clone();
                    row.parent_session_path = Some(edge.parent.clone());
                    row.rlm_depth = edge.depth;
                    let ghost shown = row@;
                    sessions.push(row);
                    assert(session_info::infos(sessions@) =~= session_info::infos(written).push(
                        shown,
                    ));
                }
            }
        }
        j += 1;
    }
    assert(views.take(j as int) =~= views);
    sessions
}

/// The spawn ledger of one sessions directory: where it is kept, and its lines.
#[derive(Debug, PartialEq)]
pub struct RlmSpawnLedger {
    pub path: String,
    pub canonical_sessions_dir: String,
    pub lines: Vec<String>,
}

/// The edges that the lines of a ledger leave; a ledger that cannot be read has
/// none.
pub open spec fn edges_in(lines: Seq<Seq<char>>, paths: PathFacts) -> Seq<EdgeV> {
    match read_lines(lines) {
        Ok(records) => values_of(replay(records, paths)),
        Err(_) => Seq::empty(),
    }
}

/// The line holds the record.
pub open spec fn is_line_of(line: Seq<char>, record: RecordV) -> bool {
    &&& line == json::printed_json(record_value(record))
    &&& read_line(line) == Reading::Record(record)
    &&& !line.contains('\n')
}

/// The lines hold the records, one each.
pub open spec fn are_lines_of(lines: Seq<String>, records: Seq<RecordV>) -> bool {
    &&& lines.len() == records.len()
    &&& forall|i: int| 0 <= i < lines.len() ==> is_line_of((#[trigger] lines[i])@, records[i])
}

/// A record whose line is appended to a readable ledger is replayed after those
/// that were there.
pub proof fn appended_record_is_replayed(
    lines: Seq<Seq<char>>,
    line: Seq<char>,
    record: RecordV,
    paths: PathFacts,
)
    requires
        is_line_of(line, record),
        read_lines(lines) is Ok,
    ensures
        read_lines(lines.push(line)) == Ok::<Seq<RecordV>, Seq<char>>(
            read_lines(lines)->Ok_0.push(record),
        ),
        edges_in(lines.push(line), paths) == values_of(
            replay(read_lines(lines)->Ok_0.push(record), paths),
        ),
{
    assert(lines.push(line).drop_last() =~= lines);
}

impl RlmSpawnLedger {
    /// The ledger of a sessions directory, with what its file holds.
    pub fn new(agent_dir: &str, canonical_sessions_dir: &str, lines: Vec<String>) -> (r: Self)
        ensures
            r.path@ == path_facts::joined_path(
                path_facts::joined_path(agent_dir@, RLM_LEDGER_DIR@),
                digest::digest_prefix(canonical_sessions_dir@, 16) + ".jsonl"@,
            ),
            r.canonical_sessions_dir@ == canonical_sessions_dir@,
            r.lines == lines,
    {
        RlmSpawnLedger {
            path: rlm_ledger_path(agent_dir, canonical_sessions_dir),
            canonical_sessions_dir: canonical_sessions_dir.to_owned(),
            lines,
        }
    }

    pub fn ledger_path(&self) -> (r: &str)
        ensures
            r@ == self.path@,
    {
        &self.path
    }

    /// Only lines were added at the end.
    pub open spec fn extends(self, before: Self, added: Seq<String>) -> bool {
        &&& self.path == before.path
        &&& self.canonical_sessions_dir == before.canonical_sessions_dir
        &&& self.lines@ == before.lines@ + added
    }

    fn append_record(&mut self, record: &RlmLedgerRecord) -> (r: String)
        requires
            standard(*record),
            record@ matches RecordV::Spawn { depth, .. } ==> depth >= 1,
        ensures
            is_line_of(r@, record@),
            final(self).path == old(self).path,
            final(self).canonical_sessions_dir == old(self).canonical_sessions_dir,
            final(self).lines@ == old(self).lines@.push(r),
    {
        let line = record_line(record);
        self.lines.push(line.clone());
        line
    }

    /// The line that a new file begins with: it names the directory of the ledger.
    /// A file that holds lines has begun.
    pub fn begin_file(&mut self) -> (r: Option<String>)
        ensures
            match r {
                Some(line) => {
                    &&& old(self).lines@.len() == 0
                    &&& final(self).extends(*old(self), seq![line])
                    &&& exists|at: Seq<char>|
                        clock::is_time(at) && #[trigger] is_line_of(
                            line@,
                            (RecordV::Meta { at, sessions_dir: old(self).canonical_sessions_dir@ }),
                        )
                },
                None => old(self).lines@.len() > 0 && *final(self) == *old(self),
            },
    {
        if self.lines.len() > 0 {
            return None;
        }
        let now = now_iso();
        let record = RlmLedgerRecord::Meta(
            RlmLedgerMetaRecord {
                v: 1,
                op: "meta".to_owned(),
                at: now.clone(),
                sessions_dir: self.canonical_sessions_dir.clone(),
            },
        );
        let line = self.append_record(&record);
        assert(old(self).lines@.push(line) =~= old(self).lines@ + seq![line]);
        assert(is_line_of(
            line@,
            (RecordV::Meta { at: now@, sessions_dir: old(self).canonical_sessions_dir@ }),
        ));
        Some(line)
    }

    /// Admits a child: the line to be appended to the file, or why there is none.
    pub fn append_spawn(&mut self, input: &RlmSpawnInput, paths: &PathFacts) -> (r: Result<
        String,
        String,
    >)
        requires
            paths.wf(),
        ensures
            exists|at: Seq<char>, record: Result<RlmLedgerRecord, String>|
                clock::is_time(at) && #[trigger] spawn_result(
                    *input,
                    edges_in(text::texts(old(self).lines@), *paths),
                    *paths,
                    at,
                    record,
                ) && match (r, record) {
                    (Ok(line), Ok(record)) => is_line_of(line@, record@) && final(self).extends(
                        *old(self),
                        seq![line],
                    ),
                    (Err(error), Err(expected)) => error == expected && *final(self) == *old(self),
                    _ => false,
                },
    {
        let all = ledger_edges(&self.lines, paths);
        let now = now_iso();
        let admitted = append_spawn_at(input, &all, paths, &now);
        assert(spawn_result(
            *input,
            edges_in(text::texts(old(self).lines@), *paths),
            *paths,
            now@,
            admitted,
        ));
        match admitted {
            Ok(record) => {
                let line = self.append_record(&record);
                assert(old(self).lines@.push(line) =~= old(self).lines@ + seq![line]);
                Ok(line)
            },
            Err(error) => Err(error),
        }
    }

    /// Renames a child: the line to be appended to the file.
    pub fn append_rename(&mut self, child_id: &str, child: &str, name: &str, paths: &PathFacts) -> (r:
        String)
        requires
            paths.wf(),
        ensures
            final(self).extends(*old(self), seq![r]),
            exists|at: Seq<char>|
                clock::is_time(at) && #[trigger] is_line_of(
                    r@,
                    (RecordV::Rename {
                        at,
                        child_id: child_id@,
                        child: paths.canonical_of(child@),
                        name: name@,
                    }),
                ),
    {
        let now = now_iso();
        let record = rename_record(child_id, child, name, paths, &now);
        let line = self.append_record(&record);
        assert(old(self).lines@.push(line) =~= old(self).lines@ + seq![line]);
        line
    }

    /// Renames every child at a path, where no more than the path is known: the
    /// lines to be appended to the file.
    pub fn append_rename_by_child_path(&mut self, child: &str, name: &str, paths: &PathFacts) -> (r:
        Vec<String>)
        requires
            paths.wf(),
        ensures
            final(self).extends(*old(self), r@),
            exists|at: Seq<char>|
                clock::is_time(at) && #[trigger] are_lines_of(
                    r@,
                    rename_records(
                        children_at(
                            edges_in(text::texts(old(self).lines@), *paths),
                            paths.canonical_of(child@),
                            *paths,
                        ),
                        paths.canonical_of(child@),
                        name@,
                        at,
                    ),
                ),
    {
        let all = ledger_edges(&self.lines, paths);
        let now = now_iso();
        let records = rename_by_child_path_at(&all, child, name, paths, &now);
        let ghost hit = children_at(edge_views(all@), paths.canonical_of(child@), *paths);
        let ghost views = record_views(records@);
        assert(views =~= rename_records(hit, paths.canonical_of(child@), name@, now@));
        assert(edge_views(all@) == edges_in(text::texts(old(self).lines@), *paths));
        let lines = self.append_records(&records);
        assert(are_lines_of(
            lines@,
            rename_records(hit, paths.canonical_of(child@), name@, now@),
        ));
        lines
    }

    fn append_records(&mut self, records: &Vec<RlmLedgerRecord>) -> (r: Vec<String>)
        requires
            forall|i: int|
                0 <= i < records@.len() ==> standard(#[trigger] records@[i]) && !(
                records@[i]@ is Spawn),
        ensures
            final(self).extends(*old(self), r@),
            are_lines_of(r@, record_views(records@)),
    {
        let mut lines: Vec<String> = Vec::new();
        let mut i: usize = 0;
        assert(self.lines@ =~= old(self).lines@ + lines@);
        while i < records.len()
            invariant
                i <= records.len(),
                lines@.len() == i,
                forall|j: int|
                    0 <= j < records@.len() ==> standard(#[trigger] records@[j]) && !(
                    records@[j]@ is Spawn),
                self.extends(*old(self), lines@),
                forall|j: int|
                    0 <= j < i ==> is_line_of((#[trigger] lines@[j])@, records@[j]@),
            decreases records.len() - i,
        {
            assert(standard(records@[i as int]));
            let ghost before = lines@;
            let line = self.append_record(&records[i]);
            lines.push(line.clone());
            assert(self.lines@ =~= old(self).lines@ + lines@);
            i += 1;
        }
        lines
    }

    /// Deletes a child: the line to be appended to the file.
    pub fn append_delete(
        &mut self,
        child_id: &str,
        child: &str,
        reason: RlmLedgerDeleteReason,
        paths: &PathFacts,
    ) -> (r: String)
        requires
            paths.wf(),
        ensures
            final(self).extends(*old(self), seq![r]),
            exists|at: Seq<char>|
                clock::is_time(at) && #[trigger] is_line_of(
                    r@,
                    (RecordV::Delete {
                        at,
                        child_id: child_id@,
                        child: paths.canonical_of(child@),
                        reason,
                    }),
                ),
    {
        let now = now_iso();
        let record = delete_record(child_id, child, reason, paths, &now);
        let line = self.append_record(&record);
        assert(old(self).lines@.push(line) =~= old(self).lines@ + seq![line]);
        line
    }

    /// The edges, whether or not their sessions are still there; those that are
    /// deleted only where they are asked for.
    pub fn edges(&self, include_deleted: bool, paths: &PathFacts) -> (r: Vec<RlmLedgerEdge>)
        requires
            paths.wf(),
        ensures
            edge_views(r@) == kept_edges(
                edges_in(text::texts(self.lines@), *paths),
                include_deleted,
            ),
    {
        let all = ledger_edges(&self.lines, paths);
        edges(&all, include_deleted)
    }

    /// The edges that are not deleted and both ends of which are files.
    pub fn live_edges(&self, paths: &PathFacts) -> (r: Vec<RlmLedgerEdge>)
        requires
            paths.wf(),
        ensures
            edge_views(r@) == kept_edges(edges_in(text::texts(self.lines@), *paths), false).filter(
                |edge: EdgeV| is_live(edge, *paths),
            ),
    {
        let kept = self.edges(false, paths);
        live_edges(&kept, paths)
    }

    /// The family of the sessions of the ledger's directory. `names` are its
    /// session files, `read` what was read of the sessions at canonical paths.
    pub fn family(&self, names: &Vec<String>, paths: &PathFacts, read: &TextMap<SessionInfo>) -> (r:
        Vec<SessionInfo>)
        requires
            paths.wf(),
            read.wf(),
        ensures
            session_info::infos(r@) == family_rows(
                kept_edges(edges_in(text::texts(self.lines@), *paths), false).filter(
                    |edge: EdgeV| is_live(edge, *paths),
                ),
                text::texts(names@),
                self.canonical_sessions_dir@,
                *paths,
                read@,
            ),
    {
        let live = self.live_edges(paths);
        family(&live, names, &self.canonical_sessions_dir, paths, read)
    }

    /// The rows beside a session, itself included. `own` is what was read of the
    /// session.
    pub fn siblings(
        &self,
        session_path: &str,
        own: Option<&SessionInfo>,
        names: &Vec<String>,
        paths: &PathFacts,
        read: &TextMap<SessionInfo>,
    ) -> (r: Vec<SessionInfo>)
        requires
            paths.wf(),
            read.wf(),
        ensures
            ({
                let kept = kept_edges(edges_in(text::texts(self.lines@), *paths), false);
                session_info::infos(r@) == sibling_rows(
                    family_rows(
                        kept.filter(|edge: EdgeV| is_live(edge, *paths)),
                        text::texts(names@),
                        self.canonical_sessions_dir@,
                        *paths,
                        read@,
                    ),
                    kept,
                    paths.canonical_of(session_path@),
                    paths.is_file_path(session_path@),
                    match own {
                        Some(info) => Some(info@),
                        None => None,
                    },
                    *paths,
                )
            }),
    {
        let rows = self.family(names, paths, read);
        let kept = self.edges(false, paths);
        siblings(&rows, &kept, session_path, own, paths)
    }
}

/// The edges that are live in the ledger and whose child is at a canonical path.
pub open spec fn children_at(edges: Seq<EdgeV>, target: Seq<char>, paths: PathFacts) -> Seq<EdgeV> {
    edges.filter(|edge: EdgeV| is_child_at(edge, target, paths))
}

/// The renames of these edges' children at a path.
pub open spec fn rename_records(
    edges: Seq<EdgeV>,
    child: Seq<char>,
    name: Seq<char>,
    at: Seq<char>,
) -> Seq<RecordV> {
    Seq::new(
        edges.len(),
        |i: int| RecordV::Rename { at, child_id: edges[i].child_id, child, name },
    )
}

/// What became of the ledger when a user deleted a session.
#[derive(Debug, PartialEq)]
pub struct TombstoneSavedSessionDeleteResult {
    /// The first edge that led to the session.
    pub ledger_edge: Option<RlmLedgerEdge>,
    /// The lines to be appended to the file.
    pub lines: Vec<String>,
}

/// What an optional row says.
pub open spec fn info_view(info: Option<&SessionInfo>) -> Option<SessionInfoV> {
    match info {
        Some(info) => Some(info@),
        None => None,
    }
}

/// Puts tombstones into the ledger for a session that a user deletes: none for a
/// session that is positively top-level, else one for every edge that leads to
/// it, for one that stayed live would make a child of a later session at that
/// path. `info` is what was read of the session.
pub fn tombstone_saved_session_delete(
    ledger: &mut RlmSpawnLedger,
    session_path: &str,
    known_kind: Option<&str>,
    info: Option<&SessionInfo>,
    paths: &PathFacts,
) -> (r: TombstoneSavedSessionDeleteResult)
    requires
        paths.wf(),
    ensures
        final(ledger).extends(*old(ledger), r.lines@),
        exists|at: Seq<char>, plan: TombstonePlan|
            clock::is_time(at) && #[trigger] tombstones_planned(
                plan,
                kept_edges(edges_in(text::texts(old(ledger).lines@), *paths), false),
                session_path@,
                json::opt_str_view(known_kind),
                info_view(info),
                *paths,
                at,
            ) && plan.ledger_edge == r.ledger_edge && are_lines_of(
                r.lines@,
                record_views(plan.records@),
            ),
{
    let now = now_iso();
    let all = ledger.edges(false, paths);
    let plan = tombstone_saved_session_delete_at(
        &all,
        session_path,
        known_kind,
        info,
        paths,
        &now,
    );
    let ghost planned = plan;
    assert(tombstones_planned(
        planned,
        kept_edges(edges_in(text::texts(old(ledger).lines@), *paths), false),
        session_path@,
        json::opt_str_view(known_kind),
        info_view(info),
        *paths,
        now@,
    ));
    assert forall|i: int| 0 <= i < plan.records@.len() implies !(
    (#[trigger] plan.records@[i])@ is Spawn) by {
        assert(record_views(plan.records@).len() == plan.records@.len());
        assert(record_views(plan.records@)[i] == plan.records@[i]@);
    }
    let lines = ledger.append_records(&plan.records);
    TombstoneSavedSessionDeleteResult { ledger_edge: plan.ledger_edge, lines }
}

} // verus!
