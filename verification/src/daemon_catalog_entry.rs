//! The entry point of the catalog process.

use vstd::prelude::*;

use crate::json;
use crate::json::{Json, JsonV};
use crate::text::cat2;

verus! {

pub const DAEMON_CATALOG_FAILURE_PREFIX: &'static str = "Prime Agent daemon catalog failed: ";

/// What is written where the catalog process fails.
pub fn catalog_failure_text(message: &str) -> (r: String)
    ensures
        r@ == "Prime Agent daemon catalog failed: "@ + message@,
{
    cat2(DAEMON_CATALOG_FAILURE_PREFIX, message)
}

/// How a session file was deleted.
#[derive(Debug, Clone, Copy, PartialEq, Eq, Structural)]
pub enum DeleteSessionFileMethod {
    Trash,
    Unlink,
}

/// What came of deleting a session file.
#[derive(Debug, PartialEq)]
pub enum DeleteSessionFileResult {
    Deleted { method: DeleteSessionFileMethod },
    Error { error: String },
}

/// The document that reports what came of deleting a session file.
pub open spec fn deletion(result: DeleteSessionFileResult) -> JsonV {
    let none = Seq::<(Seq<char>, JsonV)>::empty();
    JsonV::Obj(
        match result {
            DeleteSessionFileResult::Deleted { method } => none.push(
                ("ok"@, JsonV::Bool(true)),
            ).push(
                (
                    "method"@,
                    JsonV::Str(
                        match method {
                            DeleteSessionFileMethod::Trash => "trash"@,
                            DeleteSessionFileMethod::Unlink => "unlink"@,
                        },
                    ),
                ),
            ),
            DeleteSessionFileResult::Error { error } => none.push(
                ("ok"@, JsonV::Bool(false)),
            ).push(("error"@, JsonV::Str(error@))),
        },
    )
}

/// Reports what came of deleting a session file.
pub fn deletion_value(result: &DeleteSessionFileResult) -> (r: Json)
    ensures
        r@ == deletion(*result),
{
    let mut pairs = json::no_members();
    match result {
        DeleteSessionFileResult::Deleted { method } => {
            json::add_member(&mut pairs, "ok", Json::Bool(true));
            match method {
                DeleteSessionFileMethod::Trash => json::add_text(&mut pairs, "method", "trash"),
                DeleteSessionFileMethod::Unlink => json::add_text(&mut pairs, "method", "unlink"),
            }
        },
        DeleteSessionFileResult::Error { error } => {
            json::add_member(&mut pairs, "ok", Json::Bool(false));
            json::add_text(&mut pairs, "error", error);
        },
    }
    json::object(pairs)
}

/// A count that may come in negative, as it is reported.
pub fn reported_count(count: i64) -> (r: u64)
    ensures
        r == if count < 0 {
            0
        } else {
            count as int
        },
{
    if count < 0 {
        0
    } else {
        count as u64
    }
}

} // verus!
