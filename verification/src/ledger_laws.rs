//! What holds of the ledger of spawned agents, of the rows that are shown from it and
//! of the registries that it is seeded from.

use vstd::prelude::*;

use crate::assoc;
use crate::json;
use crate::json::JsonV;
use crate::path_facts;
use crate::path_facts::PathFacts;
use crate::rlm_ledger;
use crate::rlm_ledger::{
    EdgeV, LegacyV, MergeV, Reading, RecordV, RlmLedgerDeleteReason, RlmLedgerEdge,
    RlmLedgerRecord, RlmLedgerSeedRegistryEntry, RlmSpawnInput, SeedV, TombstonePlan,
};
use crate::session_info::{SessionInfo, SessionInfoV};
use crate::text;

verus! {

proof fn ledger_names()
    ensures
        text::stamp("v"@) == 118118118001,
        text::stamp("op"@) == 112112111002,
        text::stamp("at"@) == 116116097002,
        text::stamp("sessionsDir"@) == 68114115011,
        text::stamp("childId"@) == 73100099007,
        text::stamp("parent"@) == 110116112006,
        text::stamp("child"@) == 108100099005,
        text::stamp("depth"@) == 116104100005,
        text::stamp("name"@) == 101101110004,
        text::stamp("reason"@) == 111110114006,
        text::stamp("meta"@) == 97097109004,
        text::stamp("spawn"@) == 119110115005,
        text::stamp("rename"@) == 109101114006,
        text::stamp("delete"@) == 116101100006,
        text::stamp("user"@) == 114114117004,
        text::stamp("parent-teardown"@) == 100110112015,
        text::stamp("revoked"@) == 101100114007,
        text::stamp("gc"@) == 99099103002,
{
    reveal_strlit("v");
    reveal_strlit("op");
    reveal_strlit("at");
    reveal_strlit("sessionsDir");
    reveal_strlit("childId");
    reveal_strlit("parent");
    reveal_strlit("child");
    reveal_strlit("depth");
    reveal_strlit("name");
    reveal_strlit("reason");
    reveal_strlit("meta");
    reveal_strlit("spawn");
    reveal_strlit("rename");
    reveal_strlit("delete");
    reveal_strlit("user");
    reveal_strlit("parent-teardown");
    reveal_strlit("revoked");
    reveal_strlit("gc");
}

/// A line of the ledger is read by its version, its time and its operation: the first
/// version only, with the members of its operation; an operation that is not known is
/// passed over, and a spawn stands at depth one at least.
pub proof fn lines_are_read_by_their_operation(value: JsonV, op: Seq<char>)
    requires
        value.i64_at("v"@) == Some(1i64),
        value.str_at("at"@) is Some,
        value.str_at("op"@) == Some(op),
    ensures
        op == "meta"@ ==> (rlm_ledger::read_record(value) is Record <==> value.str_at(
            "sessionsDir"@,
        ) is Some),
        op == "spawn"@ ==> (rlm_ledger::read_record(value) is Record <==> value.str_at(
            "childId"@,
        ) is Some && value.str_at("parent"@) is Some && value.str_at("child"@) is Some
            && value.str_at("name"@) is Some && value.i64_at("depth"@) is Some && value.i64_at(
            "depth"@,
        )->0 >= 1),
        op == "rename"@ ==> (rlm_ledger::read_record(value) is Record <==> value.str_at(
            "childId"@,
        ) is Some && value.str_at("child"@) is Some && value.str_at("name"@) is Some),
        op == "delete"@ ==> (rlm_ledger::read_record(value) is Record <==> value.str_at(
            "childId"@,
        ) is Some && value.str_at("child"@) is Some && value.str_at("reason"@) is Some && (
        value.str_at("reason"@)->0 == "user"@ || value.str_at("reason"@)->0 == "parent-teardown"@
            || value.str_at("reason"@)->0 == "revoked"@ || value.str_at("reason"@)->0 == "gc"@)),
        op == "meta"@ || op == "spawn"@ || op == "rename"@ || op == "delete"@ <==>
            rlm_ledger::read_record(value) !is Unknown,
        rlm_ledger::read_record(value) matches Reading::Record(
            RecordV::Spawn { at, child_id, parent, child, depth, name },
        ) ==> op == "spawn"@ && Some(at) == value.str_at("at"@) && Some(child_id) == value.str_at(
            "childId"@,
        ) && Some(parent) == value.str_at("parent"@) && Some(child) == value.str_at("child"@)
            && Some(depth) == value.i64_at("depth"@) && Some(name) == value.str_at("name"@),
        rlm_ledger::read_record(value) matches Reading::Record(
            RecordV::Rename { at, child_id, child, name },
        ) ==> op == "rename"@ && Some(at) == value.str_at("at"@) && Some(child_id)
            == value.str_at("childId"@) && Some(child) == value.str_at("child"@) && Some(name)
            == value.str_at("name"@),
        rlm_ledger::read_record(value) matches Reading::Record(
            RecordV::Delete { at, child_id, child, reason },
        ) ==> op == "delete"@ && Some(at) == value.str_at("at"@) && Some(child_id)
            == value.str_at("childId"@) && Some(child) == value.str_at("child"@) && (reason
            == RlmLedgerDeleteReason::User <==> value.str_at("reason"@) == Some("user"@)) && (
        reason == RlmLedgerDeleteReason::ParentTeardown <==> value.str_at("reason"@) == Some(
            "parent-teardown"@,
        )) && (reason == RlmLedgerDeleteReason::Revoked <==> value.str_at("reason"@) == Some(
            "revoked"@,
        )) && (reason == RlmLedgerDeleteReason::Gc <==> value.str_at("reason"@) == Some("gc"@)),
        rlm_ledger::read_record(value) matches Reading::Record(
            RecordV::Meta { at, sessions_dir },
        ) ==> op == "meta"@ && Some(at) == value.str_at("at"@) && Some(sessions_dir)
            == value.str_at("sessionsDir"@),
{
    ledger_names();
}

/// Without a version, of another version or without a time no line is read.
pub proof fn lines_without_a_time_are_malformed(value: JsonV)
    requires
        value.i64_at("v"@) != Some(1i64) || value.str_at("at"@) is None,
    ensures
        rlm_ledger::read_record(value) is Malformed,
{
}

/// A record says what it is: its version, its operation, its time and the members of
/// its operation.
pub proof fn records_say_what_they_are(record: RecordV)
    ensures
        ({
            let value = rlm_ledger::record_value(record);
            &&& value.get("v"@) == Some(json::int_value(1))
            &&& match record {
                RecordV::Meta { at, sessions_dir } => value.str_at("op"@) == Some("meta"@)
                    && value.str_at("at"@) == Some(at) && value.str_at("sessionsDir"@) == Some(
                    sessions_dir,
                ),
                RecordV::Spawn { at, child_id, parent, child, depth, name } => value.str_at(
                    "op"@,
                ) == Some("spawn"@) && value.str_at("at"@) == Some(at) && value.str_at(
                    "childId"@,
                ) == Some(child_id) && value.str_at("parent"@) == Some(parent) && value.str_at(
                    "child"@,
                ) == Some(child) && value.str_at("name"@) == Some(name) && value.get("depth"@)
                    == Some(json::int_value(depth as int)),
                RecordV::Rename { at, child_id, child, name } => value.str_at("op"@) == Some(
                    "rename"@,
                ) && value.str_at("at"@) == Some(at) && value.str_at("childId"@) == Some(child_id)
                    && value.str_at("child"@) == Some(child) && value.str_at("name"@) == Some(name),
                RecordV::Delete { at, child_id, child, reason } => value.str_at("op"@) == Some(
                    "delete"@,
                ) && value.str_at("at"@) == Some(at) && value.str_at("childId"@) == Some(child_id)
                    && value.str_at("child"@) == Some(child) && value.str_at("reason"@) == Some(
                    match reason {
                        RlmLedgerDeleteReason::User => "user"@,
                        RlmLedgerDeleteReason::ParentTeardown => "parent-teardown"@,
                        RlmLedgerDeleteReason::Revoked => "revoked"@,
                        RlmLedgerDeleteReason::Gc => "gc"@,
                    },
                ),
            }
        }),
{
    broadcast use {json::lookup_push, json::lookup_empty};

    ledger_names();
}

/// A ledger is read whole or not at all: it is read exactly where no line of it is
/// malformed, and what is said otherwise names the first malformed line, counted from
/// one. What is read are the lines whose operation is known, in order.
pub proof fn ledgers_are_read_whole(all: Seq<Seq<char>>)
    ensures
        rlm_ledger::read_lines(all) is Ok <==> forall|i: int|
            0 <= i < all.len() ==> rlm_ledger::read_line(#[trigger] all[i]) !is Malformed,
        rlm_ledger::read_lines(all) matches Err(said) ==> exists|i: int|
            {
                &&& 0 <= i < all.len()
                &&& (rlm_ledger::read_line(#[trigger] all[i]) matches Reading::Malformed(why)
                    && said == "Malformed RLM ledger line "@ + text::decimal_digits((i + 1) as nat)
                    + ": "@ + why)
                &&& forall|j: int|
                    0 <= j < i ==> rlm_ledger::read_line(#[trigger] all[j]) !is Malformed
            },
        rlm_ledger::read_lines(all) matches Ok(records) ==> forall|record: RecordV|
            #[trigger] records.contains(record) <==> exists|i: int|
                0 <= i < all.len() && rlm_ledger::read_line(#[trigger] all[i]) == Reading::Record(
                    record,
                ),
    decreases all.len(),
{
    if all.len() > 0 {
        let rest = all.drop_last();
        ledgers_are_read_whole(rest);
        match rlm_ledger::read_lines(rest) {
            Err(said) => {
                let i = choose|i: int|
                    {
                        &&& 0 <= i < rest.len()
                        &&& (rlm_ledger::read_line(#[trigger] rest[i]) matches Reading::Malformed(
                            why,
                        ) && said == "Malformed RLM ledger line "@ + text::decimal_digits(
                            (i + 1) as nat,
                        ) + ": "@ + why)
                        &&& forall|j: int|
                            0 <= j < i ==> rlm_ledger::read_line(#[trigger] rest[j]) !is Malformed
                    };
                assert(all[i] == rest[i]);
                assert forall|j: int| 0 <= j < i implies rlm_ledger::read_line(
                    #[trigger] all[j],
                ) !is Malformed by {
                    assert(rest[j] == all[j]);
                }
            },
            Ok(records) => {
                assert forall|j: int| 0 <= j < rest.len() implies rlm_ledger::read_line(
                    #[trigger] all[j],
                ) !is Malformed by {
                    assert(rest[j] == all[j]);
                }
                let last = all.len() - 1;
                assert(all[last] == all.last());
                if let Ok(more) = rlm_ledger::read_lines(all) {
                    assert forall|record: RecordV| #[trigger] more.contains(record) <==> exists|
                        i: int,
                    |
                        0 <= i < all.len() && rlm_ledger::read_line(#[trigger] all[i])
                            == Reading::Record(record) by {
                        if more.contains(record) {
                            let k = choose|k: int| 0 <= k < more.len() && more[k] == record;
                            if k < records.len() {
                                assert(records[k] == record);
                                assert(records.contains(record));
                                let i = choose|i: int|
                                    0 <= i < rest.len() && rlm_ledger::read_line(
                                        #[trigger] rest[i],
                                    ) == Reading::Record(record);
                                assert(all[i] == rest[i]);
                            } else {
                                assert(rlm_ledger::read_line(all[last]) == Reading::Record(record));
                            }
                        }
                        if exists|i: int|
                            0 <= i < all.len() && rlm_ledger::read_line(#[trigger] all[i])
                                == Reading::Record(record) {
                            let i = choose|i: int|
                                0 <= i < all.len() && rlm_ledger::read_line(#[trigger] all[i])
                                    == Reading::Record(record);
                            if i < last {
                                assert(rest[i] == all[i]);
                                assert(records.contains(record));
                                let k = choose|k: int|
                                    0 <= k < records.len() && records[k] == record;
                                assert(more[k] == record);
                            } else {
                                assert(more[more.len() - 1] == record);
                            }
                        }
                    }
                }
            },
        }
    }
}

/// A record of the time that the ledger was begun changes no edge.
pub proof fn beginnings_change_no_edge(
    edges: Seq<(Seq<char>, EdgeV)>,
    at: Seq<char>,
    sessions_dir: Seq<char>,
    paths: PathFacts,
)
    ensures
        rlm_ledger::apply_record(edges, RecordV::Meta { at, sessions_dir }, paths) == edges,
{
}

/// An edge is looked up by both its child and the file of its child: two records speak
/// of one edge exactly where both are the same.
pub proof fn edges_are_told_apart(
    a: Seq<char>,
    a_path: Seq<char>,
    b: Seq<char>,
    b_path: Seq<char>,
)
    requires
        !a.contains('\0'),
        !b.contains('\0'),
        rlm_ledger::edge_key_text(a, a_path) == rlm_ledger::edge_key_text(b, b_path),
    ensures
        a == b,
        a_path == b_path,
{
    let whole = rlm_ledger::edge_key_text(a, a_path);
    assert(whole[a.len() as int] == '\0');
    assert(whole[b.len() as int] == '\0') by {
        assert(rlm_ledger::edge_key_text(b, b_path)[b.len() as int] == '\0');
    }
    if a.len() < b.len() {
        assert(rlm_ledger::edge_key_text(b, b_path)[a.len() as int] == b[a.len() as int]);
        assert(b.contains('\0'));
    }
    if b.len() < a.len() {
        assert(whole[b.len() as int] == a[b.len() as int]);
        assert(a.contains('\0'));
    }
    assert forall|i: int| 0 <= i < a.len() implies a[i] == b[i] by {
        assert(whole[i] == a[i]);
        assert(rlm_ledger::edge_key_text(b, b_path)[i] == b[i]);
    }
    assert(a =~= b);
    assert(whole.len() == a.len() + 1 + a_path.len());
    assert(rlm_ledger::edge_key_text(b, b_path).len() == b.len() + 1 + b_path.len());
    assert forall|i: int| 0 <= i < a_path.len() implies a_path[i] == b_path[i] by {
        assert(whole[a.len() + 1 + i] == a_path[i]);
        assert(rlm_ledger::edge_key_text(b, b_path)[b.len() + 1 + i] == b_path[i]);
    }
    assert(a_path =~= b_path);
}

/// Deleted edges are shown where they are asked for and nowhere else; the edges that
/// are not deleted are always shown.
pub proof fn deleted_edges_are_shown_on_request(edges: Seq<EdgeV>, include_deleted: bool, edge: EdgeV)
    ensures
        rlm_ledger::kept_edges(edges, include_deleted).contains(edge) <==> edges.contains(edge) && (
        edge.deleted is Some ==> include_deleted),
        rlm_ledger::kept_edges(edges, true) == edges,
{
    let keep = |edge: EdgeV| include_deleted || edge.deleted is None;
    filtered_exactly(edges, keep, edge);
    asked_for_all_are_kept(edges, true);
}

proof fn asked_for_all_are_kept(edges: Seq<EdgeV>, include_deleted: bool)
    requires
        include_deleted,
    ensures
        rlm_ledger::kept_edges(edges, include_deleted) == edges,
{
    all_are_kept(edges, |edge: EdgeV| include_deleted || edge.deleted is None);
}

/// What a filter leaves is what was there and is meant to stay.
proof fn filtered_exactly<A>(all: Seq<A>, keep: spec_fn(A) -> bool, x: A)
    ensures
        all.filter(keep).contains(x) <==> all.contains(x) && keep(x),
{
    broadcast use vstd::seq_lib::group_filter_ensures;

    if all.filter(keep).contains(x) {
        let kept = all.filter(keep);
        let k = choose|k: int| 0 <= k < kept.len() && kept[k] == x;
        assert(keep(kept[k]));
        all.lemma_filter_contains_rev(keep, kept[k]);
    }
    if all.contains(x) && keep(x) {
        let i = choose|i: int| 0 <= i < all.len() && all[i] == x;
        assert(all.filter(keep).contains(all[i]));
    }
}

proof fn all_are_kept<A>(all: Seq<A>, keep: spec_fn(A) -> bool)
    requires
        forall|i: int| 0 <= i < all.len() ==> keep(#[trigger] all[i]),
    ensures
        all.filter(keep) == all,
    decreases all.len(),
{
    reveal(Seq::filter);
    if all.len() > 0 {
        assert forall|i: int| 0 <= i < all.drop_last().len() implies keep(
            #[trigger] all.drop_last()[i],
        ) by {
            assert(all[i] == all.drop_last()[i]);
        }
        all_are_kept(all.drop_last(), keep);
        assert(keep(all[all.len() - 1]));
        assert(all.drop_last().push(all.last()) =~= all);
    } else {
        assert(all.filter(keep) =~= all);
    }
}

/// A live edge is one whose child and whose parent are both on disk.
pub proof fn live_edges_stand_on_files(
    all: Vec<RlmLedgerEdge>,
    paths: PathFacts,
    r: Vec<RlmLedgerEdge>,
    edge: EdgeV,
)
    requires
        call_ensures(rlm_ledger::live_edges, (&all, &paths), r),
    ensures
        rlm_ledger::edge_views(r@).contains(edge) <==> rlm_ledger::edge_views(all@).contains(edge)
            && text::holds_text(paths.files@, paths.canonical_of(edge.child)) && text::holds_text(
            paths.files@,
            paths.canonical_of(edge.parent),
        ),
{
    filtered_exactly(
        rlm_ledger::edge_views(all@),
        |edge: EdgeV| rlm_ledger::is_live(edge, paths),
        edge,
    );
}

proof fn conflicts_are_found(
    edges: Seq<EdgeV>,
    child_id: Seq<char>,
    path: Seq<char>,
    paths: PathFacts,
)
    ensures
        rlm_ledger::first_conflict(edges, child_id, path, paths) is Some <==> exists|i: int|
            0 <= i < edges.len() && rlm_ledger::conflicts(
                #[trigger] edges[i],
                child_id,
                path,
                paths,
            ),
        rlm_ledger::first_conflict(edges, child_id, path, paths) matches Some(edge)
            ==> edges.contains(edge) && rlm_ledger::conflicts(edge, child_id, path, paths),
    decreases edges.len(),
{
    if edges.len() > 0 {
        let rest = edges.drop_first();
        conflicts_are_found(rest, child_id, path, paths);
        if !rlm_ledger::conflicts(edges[0], child_id, path, paths) {
            if exists|i: int|
                0 <= i < edges.len() && rlm_ledger::conflicts(
                    #[trigger] edges[i],
                    child_id,
                    path,
                    paths,
                ) {
                let i = choose|i: int|
                    0 <= i < edges.len() && rlm_ledger::conflicts(
                        #[trigger] edges[i],
                        child_id,
                        path,
                        paths,
                    );
                assert(rest[i - 1] == edges[i]);
            }
            if exists|i: int|
                0 <= i < rest.len() && rlm_ledger::conflicts(
                    #[trigger] rest[i],
                    child_id,
                    path,
                    paths,
                ) {
                let i = choose|i: int|
                    0 <= i < rest.len() && rlm_ledger::conflicts(
                        #[trigger] rest[i],
                        child_id,
                        path,
                        paths,
                    );
                assert(rest[i] == edges[i + 1]);
            }
            if let Some(edge) = rlm_ledger::first_conflict(rest, child_id, path, paths) {
                let k = choose|k: int| 0 <= k < rest.len() && rest[k] == edge;
                assert(edges[k + 1] == edge);
            }
        } else {
            assert(edges.contains(edges[0]));
        }
    }
}

/// A spawn is written down exactly where it names a child, its parent and its file, at
/// depth one or deeper, and no live edge gives the same file to another child. An edge
/// that was deleted, and one of the same child, stands in nobody's way.
pub proof fn files_have_one_child(
    input: RlmSpawnInput,
    edges: Seq<EdgeV>,
    paths: PathFacts,
    at: Seq<char>,
    r: Result<RlmLedgerRecord, String>,
)
    requires
        rlm_ledger::spawn_result(input, edges, paths, at, r),
    ensures
        r is Ok <==> {
            &&& input.child_id@ != Seq::<char>::empty()
            &&& input.parent@ != Seq::<char>::empty()
            &&& input.child@ != Seq::<char>::empty()
            &&& input.depth >= 1
            &&& forall|i: int|
                0 <= i < edges.len() && (#[trigger] edges[i]).deleted is None
                    && paths.canonical_of(edges[i].child) == paths.canonical_of(input.child@)
                    ==> edges[i].child_id == input.child_id@
        },
        r matches Ok(record) ==> record@ == (RecordV::Spawn {
            at,
            child_id: input.child_id@,
            parent: paths.canonical_of(input.parent@),
            child: paths.canonical_of(input.child@),
            depth: input.depth,
            name: input.name@,
        }),
{
    let path = paths.canonical_of(input.child@);
    conflicts_are_found(edges, input.child_id@, path, paths);
    if input.child_id@.len() == 0 {
        assert(input.child_id@ =~= Seq::<char>::empty());
    }
    if input.parent@.len() == 0 {
        assert(input.parent@ =~= Seq::<char>::empty());
    }
    if input.child@.len() == 0 {
        assert(input.child@ =~= Seq::<char>::empty());
    }
    if let Some(edge) = rlm_ledger::first_conflict(edges, input.child_id@, path, paths) {
        let k = choose|k: int| 0 <= k < edges.len() && edges[k] == edge;
        assert(edges[k].child_id != input.child_id@);
    } else {
        assert forall|i: int|
            0 <= i < edges.len() && (#[trigger] edges[i]).deleted is None && paths.canonical_of(
                edges[i].child,
            ) == path implies edges[i].child_id == input.child_id@ by {
            assert(!rlm_ledger::conflicts(edges[i], input.child_id@, path, paths));
        }
    }
}

/// The children at a path are the live edges whose file is there.
pub proof fn children_are_found_by_their_file(
    edges: Seq<EdgeV>,
    target: Seq<char>,
    paths: PathFacts,
    edge: EdgeV,
)
    ensures
        rlm_ledger::children_at(edges, target, paths).contains(edge) <==> edges.contains(edge)
            && edge.deleted is None && paths.canonical_of(edge.child) == target,
{
    filtered_exactly(edges, |edge: EdgeV| rlm_ledger::is_child_at(edge, target, paths), edge);
}

/// A row shows what was read of its session, at the depth and under the parent that the
/// ledger gives; the ledger's name goes first. A session that was not read is shown by
/// the name of its file.
pub proof fn rows_show_the_ledger(
    path: Seq<char>,
    info: Option<SessionInfoV>,
    depth: i64,
    parent: Option<Seq<char>>,
    name: Option<Seq<char>>,
)
    ensures
        ({
            let row = rlm_ledger::row_of(path, info, depth, parent, name);
            &&& row.rlm_depth == depth
            &&& row.parent_session_path == parent
            &&& name is Some ==> row.name == name
            &&& (info matches Some(read) ==> {
                &&& name is None ==> row.name == read.name
                &&& row.path == read.path
                &&& row.id == read.id
                &&& row.cwd == read.cwd
                &&& row.state == read.state
                &&& row.created == read.created
                &&& row.modified == read.modified
                &&& row.message_count == read.message_count
                &&& row.first_message == read.first_message
                &&& row.all_messages_text == read.all_messages_text
                &&& row.agent_status == read.agent_status
                &&& row.usage == read.usage
            })
            &&& info is None ==> {
                &&& row.path == path
                &&& row.name == name
                &&& row.message_count == 0
                &&& row.state is None
                &&& row.usage is None
                &&& row.agent_status is None
                &&& row.created == Some(0i64)
                &&& row.modified == Some(0i64)
                &&& row.cwd.len() == 0 && row.first_message.len() == 0
                    && row.all_messages_text.len() == 0
                &&& row.id == path_facts::name_of(path) || row.id + ".jsonl"@
                    == path_facts::name_of(path)
            }
        }),
{
    let whole = path_facts::name_of(path);
    if text::ends(whole, ".jsonl"@) {
        assert(whole =~= path_facts::without_suffix(whole, ".jsonl"@) + ".jsonl"@);
    }
}

/// The parent of a session, and its depth, are those of the last edge that leads to it.
pub proof fn the_last_edge_names_the_parent(
    edges: Seq<EdgeV>,
    path: Seq<char>,
    paths: PathFacts,
    i: int,
)
    requires
        0 <= i < edges.len(),
        paths.canonical_of(edges[i].child) == path,
        forall|j: int|
            i < j < edges.len() ==> paths.canonical_of((#[trigger] edges[j]).child) != path,
    ensures
        rlm_ledger::parent_at(edges, path, paths) == Some(paths.canonical_of(edges[i].parent)),
        rlm_ledger::depth_at(edges, path, paths) == Some(edges[i].depth),
    decreases edges.len(),
{
    if i < edges.len() - 1 {
        let rest = edges.drop_last();
        assert(paths.canonical_of(edges[edges.len() - 1].child) != path);
        assert forall|j: int| i < j < rest.len() implies paths.canonical_of(
            (#[trigger] rest[j]).child,
        ) != path by {
            assert(rest[j] == edges[j]);
        }
        the_last_edge_names_the_parent(rest, path, paths, i);
    }
}

/// A session that no edge leads to has no parent and no depth.
pub proof fn roots_have_no_parent(edges: Seq<EdgeV>, path: Seq<char>, paths: PathFacts)
    requires
        forall|j: int|
            0 <= j < edges.len() ==> paths.canonical_of((#[trigger] edges[j]).child) != path,
    ensures
        rlm_ledger::parent_at(edges, path, paths) is None,
        rlm_ledger::depth_at(edges, path, paths) is None,
    decreases edges.len(),
{
    if edges.len() > 0 {
        let rest = edges.drop_last();
        assert(paths.canonical_of(edges[edges.len() - 1].child) != path);
        assert forall|j: int| 0 <= j < rest.len() implies paths.canonical_of(
            (#[trigger] rest[j]).child,
        ) != path by {
            assert(rest[j] == edges[j]);
        }
        roots_have_no_parent(rest, path, paths);
    }
}

/// The roots of a directory are its files that no live edge leads to.
pub proof fn roots_are_nobodys_children(
    names: Seq<Seq<char>>,
    dir: Seq<char>,
    live: Seq<EdgeV>,
    paths: PathFacts,
    path: Seq<char>,
)
    ensures
        rlm_ledger::root_paths(names, dir, live, paths).contains(path) <==> (exists|i: int|
            0 <= i < names.len() && path == paths.canonical_of(
                path_facts::joined_path(dir, #[trigger] names[i]),
            )) && forall|j: int|
            0 <= j < live.len() ==> paths.canonical_of((#[trigger] live[j]).child) != path,
    decreases names.len(),
{
    if names.len() > 0 {
        let rest = names.drop_last();
        let before = rlm_ledger::root_paths(rest, dir, live, paths);
        let after = rlm_ledger::root_paths(names, dir, live, paths);
        let last = names.len() - 1;
        roots_are_nobodys_children(rest, dir, live, paths, path);
        assert(names[last] == names.last());
        if before.contains(path) {
            let k = choose|k: int| 0 <= k < before.len() && before[k] == path;
            assert(after[k] == path);
            let i = choose|i: int|
                0 <= i < rest.len() && path == paths.canonical_of(
                    path_facts::joined_path(dir, #[trigger] rest[i]),
                );
            assert(names[i] == rest[i]);
        }
        if after.contains(path) && !before.contains(path) {
            let k = choose|k: int| 0 <= k < after.len() && after[k] == path;
            if k < before.len() {
                assert(before[k] == path);
            }
            assert(path == paths.canonical_of(path_facts::joined_path(dir, names[last])));
            assert(!rlm_ledger::child_is_at(live, path, paths));
        }
        if (exists|i: int|
            0 <= i < names.len() && path == paths.canonical_of(
                path_facts::joined_path(dir, #[trigger] names[i]),
            )) && forall|j: int|
            0 <= j < live.len() ==> paths.canonical_of((#[trigger] live[j]).child) != path {
            let i = choose|i: int|
                0 <= i < names.len() && path == paths.canonical_of(
                    path_facts::joined_path(dir, #[trigger] names[i]),
                );
            assert(!rlm_ledger::child_is_at(live, path, paths));
            if i < last {
                assert(rest[i] == names[i]);
            } else {
                assert(after[after.len() - 1] == path);
            }
        }
    }
}

/// The siblings of a listed session are the rows under the same parent, or the roots
/// where it has none. A session that stands on disk alone is shown alone, and what is
/// nowhere has no siblings unless the ledger names its parent.
pub proof fn siblings_share_their_parent(
    family: Seq<SessionInfoV>,
    edges: Seq<EdgeV>,
    target: Seq<char>,
    target_is_file: bool,
    own: Option<SessionInfoV>,
    paths: PathFacts,
    i: int,
)
    requires
        0 <= i < family.len(),
        paths.canonical_of(family[i].path) == target,
    ensures
        ({
            let parent = rlm_ledger::parent_at(edges, target, paths);
            let rows = rlm_ledger::sibling_rows(family, edges, target, target_is_file, own, paths);
            &&& parent is Some ==> forall|row: SessionInfoV|
                #[trigger] rows.contains(row) <==> family.contains(row) && rlm_ledger::parent_at(
                    edges,
                    paths.canonical_of(row.path),
                    paths,
                ) == parent
            &&& parent is None && family[i].rlm_depth == 0 ==> forall|row: SessionInfoV|
                #[trigger] rows.contains(row) <==> family.contains(row) && row.rlm_depth == 0
        }),
{
    let parent = rlm_ledger::parent_at(edges, target, paths);
    let rows = rlm_ledger::sibling_rows(family, edges, target, target_is_file, own, paths);
    let keep = |row: SessionInfoV| rlm_ledger::is_sibling(row, parent, edges, paths);
    assert(family.contains(family[i]));
    if keep(family[i]) {
        filtered_exactly(family, keep, family[i]);
        let kept = family.filter(keep);
        let k = choose|k: int| 0 <= k < kept.len() && kept[k] == family[i];
        assert(paths.canonical_of(kept[k].path) == target);
        assert(rows == kept);
        assert forall|row: SessionInfoV| #[trigger] rows.contains(row) <==> family.contains(row)
            && keep(row) by {
            filtered_exactly(family, keep, row);
        }
    }
}

/// A session of the disk that the family does not list is shown alone, as a root; what
/// is neither listed nor on disk and has no parent has no siblings.
pub proof fn unlisted_sessions_stand_alone(
    family: Seq<SessionInfoV>,
    edges: Seq<EdgeV>,
    target: Seq<char>,
    target_is_file: bool,
    own: Option<SessionInfoV>,
    paths: PathFacts,
)
    requires
        forall|i: int|
            0 <= i < family.len() ==> paths.canonical_of((#[trigger] family[i]).path) != target,
    ensures
        ({
            let rows = rlm_ledger::sibling_rows(family, edges, target, target_is_file, own, paths);
            &&& target_is_file ==> rows.len() == 1 && rows[0].rlm_depth == 0
                && rows[0].parent_session_path is None && rows[0].path == match own {
                Some(own) => own.path,
                None => target,
            }
            &&& !target_is_file && rlm_ledger::parent_at(edges, target, paths) is None
                ==> rows.len() == 0
        }),
{
    let parent = rlm_ledger::parent_at(edges, target, paths);
    let keep = |row: SessionInfoV| rlm_ledger::is_sibling(row, parent, edges, paths);
    let kept = family.filter(keep);
    if rlm_ledger::row_is_at(kept, target, paths) {
        let k = choose|k: int|
            0 <= k < kept.len() && paths.canonical_of((#[trigger] kept[k]).path) == target;
        assert(kept.contains(kept[k]));
        filtered_exactly(family, keep, kept[k]);
        let i = choose|i: int| 0 <= i < family.len() && family[i] == kept[k];
        assert(paths.canonical_of(family[i].path) != target);
    }
}

/// A saved session that is known not to be an agent, and whose file says so too, is
/// deleted without a word in the ledger. For every other one a tombstone is written for
/// each live edge that leads to its file, in order, with the user as the reason.
pub proof fn deletions_leave_tombstones_for_agents(
    plan: TombstonePlan,
    edges: Seq<EdgeV>,
    session_path: Seq<char>,
    known_kind: Option<Seq<char>>,
    info: Option<SessionInfoV>,
    paths: PathFacts,
    at: Seq<char>,
)
    requires
        rlm_ledger::tombstones_planned(plan, edges, session_path, known_kind, info, paths, at),
    ensures
        ({
            let target = paths.canonical_of(session_path);
            let top = known_kind is Some && known_kind->0 != "subagent"@ && (info is Some
                ==> info->0.parent_session_path is None && info->0.rlm_depth <= 0);
            let hit = rlm_ledger::children_at(edges, target, paths);
            &&& top ==> plan.records@.len() == 0 && plan.ledger_edge is None
            &&& !top ==> {
                &&& plan.records@.len() == hit.len()
                &&& forall|i: int|
                    0 <= i < hit.len() ==> (#[trigger] plan.records@[i])@ == (RecordV::Delete {
                        at,
                        child_id: hit[i].child_id,
                        child: target,
                        reason: RlmLedgerDeleteReason::User,
                    })
                &&& plan.ledger_edge is Some <==> hit.len() > 0
            }
        }),
{
    let target = paths.canonical_of(session_path);
    let hit = rlm_ledger::children_at(edges, target, paths);
    assert(hit == edges.filter(|edge: EdgeV| rlm_ledger::is_child_at(edge, target, paths)));
    let views = rlm_ledger::record_views(plan.records@);
    assert(views.len() == plan.records@.len());
    if !rlm_ledger::positively_top_level(known_kind, info) {
        assert forall|i: int| 0 <= i < hit.len() implies (#[trigger] plan.records@[i])@ == (
        RecordV::Delete {
            at,
            child_id: hit[i].child_id,
            child: target,
            reason: RlmLedgerDeleteReason::User,
        }) by {
            assert(views[i] == plan.records@[i]@);
        }
    }
}

/// A record that seeding makes is for an entry that is not deleted and names its child;
/// it lies at the depth that the entry gives, or else one below its parent. Every such
/// entry whose file was not met before gets one.
pub proof fn seeded_children_lie_below_their_parent(
    scan: SeedV,
    entry: RlmLedgerSeedRegistryEntry,
    parent: Seq<char>,
    depth: i64,
    paths: PathFacts,
    at: Seq<char>,
)
    requires
        depth < i64::MAX,
    ensures
        ({
            let after = rlm_ledger::seed_entry(scan, entry, parent, depth, paths, at);
            let child = paths.canonical_of(entry.session_file@);
            let fresh = entry.status@ != "deleted"@ && entry.child_id@.len() > 0
                && !scan.visited.contains(child);
            &&& !fresh ==> after.records == scan.records && after.queue == scan.queue
            &&& fresh ==> {
                &&& after.records.len() == scan.records.len() + 1
                &&& after.records.take(scan.records.len() as int) == scan.records
                &&& after.queue.len() == scan.queue.len() + 1
                &&& after.queue.last().0 == entry.session_file@
                &&& after.queue.last().1 == child
                &&& (after.records.last() matches RecordV::Spawn {
                    child_id,
                    parent: under,
                    child: file,
                    depth: lies,
                    name,
                    ..
                } && child_id == entry.child_id@ && under == parent && file == child && name
                    == entry.session_name@ && lies == after.queue.last().2 && (entry.rlm_depth is Some
                    && entry.rlm_depth->0 >= 1 ==> Some(lies) == entry.rlm_depth) && (
                entry.rlm_depth is None || entry.rlm_depth->0 < 1 ==> lies == depth + 1))
            }
            &&& entry.status@ != "deleted"@ ==> after.visited.contains(child)
            &&& entry.status@ == "deleted"@ ==> after == scan
            &&& after.waiting == scan.waiting
        }),
{
    let after = rlm_ledger::seed_entry(scan, entry, parent, depth, paths, at);
    let child = paths.canonical_of(entry.session_file@);
    if entry.status@ != "deleted"@ && !scan.visited.contains(child) {
        assert(after.visited[after.visited.len() - 1] == child);
        if entry.child_id@.len() > 0 {
            assert(after.records.take(scan.records.len() as int) =~= scan.records);
        }
    }
}

/// The entries of one registry are taken in order, one after the other.
pub proof fn registries_are_read_in_order(
    scan: SeedV,
    entries: Seq<RlmLedgerSeedRegistryEntry>,
    more: Seq<RlmLedgerSeedRegistryEntry>,
    parent: Seq<char>,
    depth: i64,
    paths: PathFacts,
    at: Seq<char>,
)
    ensures
        rlm_ledger::seed_entries(scan, entries + more, parent, depth, paths, at)
            == rlm_ledger::seed_entries(
            rlm_ledger::seed_entries(scan, entries, parent, depth, paths, at),
            more,
            parent,
            depth,
            paths,
            at,
        ),
        rlm_ledger::seed_entries(scan, Seq::empty(), parent, depth, paths, at) == scan,
        forall|entry: RlmLedgerSeedRegistryEntry|
            #[trigger] rlm_ledger::seed_entries(scan, seq![entry], parent, depth, paths, at)
                == rlm_ledger::seed_entry(scan, entry, parent, depth, paths, at),
    decreases more.len(),
{
    if more.len() == 0 {
        assert(entries + more =~= entries);
    } else {
        registries_are_read_in_order(scan, entries, more.drop_last(), parent, depth, paths, at);
        assert((entries + more).drop_last() =~= entries + more.drop_last());
        assert((entries + more).last() == more.last());
    }
    assert forall|entry: RlmLedgerSeedRegistryEntry|
        #[trigger] rlm_ledger::seed_entries(scan, seq![entry], parent, depth, paths, at)
            == rlm_ledger::seed_entry(scan, entry, parent, depth, paths, at) by {
        let one = seq![entry];
        assert(one.drop_last() =~= Seq::<RlmLedgerSeedRegistryEntry>::empty());
        assert(one.last() == entry);
        assert(rlm_ledger::seed_entries(scan, one.drop_last(), parent, depth, paths, at) == scan);
    }
}

proof fn registry_names()
    ensures
        text::stamp("type"@) == 101101116004,
        text::stamp("rlm_subagent"@) == 101116114012,
        text::stamp("childId"@) == 73100099007,
        text::stamp("sessionName"@) == 97101115011,
        text::stamp("sessionFile"@) == 105101115011,
        text::stamp("status"@) == 117115115006,
        text::stamp("running"@) == 110103114007,
        text::stamp("completed"@) == 116100099009,
        text::stamp("deleted"@) == 101100100007,
        text::stamp("rlmDepth"@) == 116104114008,
        text::stamp("sessionDir"@) == 68114115010,
        text::stamp("parentSessionId"@) == 111100112015,
        text::stamp("updatedAt"@) == 100116117009,
        text::stamp("createdAt"@) == 100116099009,
        text::stamp("parentSessionFile"@) == 110101112017,
        text::stamp("rlmParentNodeId"@) == 100100114015,
        text::stamp("prompt"@) == 112116112006,
        text::stamp("spawnCode"@) == 111101115009,
        text::stamp("rlmMaxDepth"@) == 112104114011,
        text::stamp("model"@) == 101108109005,
{
    reveal_strlit("type");
    reveal_strlit("rlm_subagent");
    reveal_strlit("childId");
    reveal_strlit("sessionName");
    reveal_strlit("sessionFile");
    reveal_strlit("status");
    reveal_strlit("running");
    reveal_strlit("completed");
    reveal_strlit("deleted");
    reveal_strlit("rlmDepth");
    reveal_strlit("sessionDir");
    reveal_strlit("parentSessionId");
    reveal_strlit("updatedAt");
    reveal_strlit("createdAt");
    reveal_strlit("parentSessionFile");
    reveal_strlit("rlmParentNodeId");
    reveal_strlit("prompt");
    reveal_strlit("spawnCode");
    reveal_strlit("rlmMaxDepth");
    reveal_strlit("model");
}

/// A line of a registry is an entry where it says so, names its child, the session and
/// the file, and gives one of the three states; a depth, where there is one, is a whole
/// number that is not negative.
pub proof fn registry_entries_are_recognized(value: JsonV)
    ensures
        rlm_ledger::is_legacy_entry(value) <==> {
            &&& value.get("type"@) == Some(JsonV::Str("rlm_subagent"@))
            &&& value.str_at("childId"@) is Some && value.str_at("sessionName"@) is Some
                && value.str_at("sessionFile"@) is Some
            &&& value.get("status"@) == Some(JsonV::Str("running"@)) || value.get("status"@)
                == Some(JsonV::Str("completed"@)) || value.get("status"@) == Some(
                JsonV::Str("deleted"@),
            )
            &&& value.get("rlmDepth"@) is Some ==> value.i64_at("rlmDepth"@) is Some
                && value.i64_at("rlmDepth"@)->0 >= 0
        },
{
    assert(value.str_at("type"@) == Some("rlm_subagent"@) <==> value.get("type"@) == Some(
        JsonV::Str("rlm_subagent"@),
    ));
}

/// An entry keeps what its line says: its child, its name, its file and its state.
pub proof fn registry_entries_keep_their_words(value: JsonV)
    requires
        rlm_ledger::is_legacy_entry(value),
    ensures
        ({
            let entry = rlm_ledger::legacy_of(value);
            &&& Some(entry.child_id) == value.str_at("childId"@)
            &&& Some(entry.session_name) == value.str_at("sessionName"@)
            &&& Some(entry.session_file) == value.str_at("sessionFile"@)
            &&& Some(entry.status) == value.str_at("status"@)
            &&& entry.type_ == "rlm_subagent"@
            &&& value.str_at("sessionDir"@) is Some && value.str_at("sessionDir"@)->0.len() > 0
                && rlm_ledger::is_complete(value) ==> Some(entry.session_dir) == value.str_at(
                "sessionDir"@,
            )
            &&& value.str_at("sessionDir"@) == Some(Seq::<char>::empty()) || value.str_at(
                "sessionDir"@,
            ) is None ==> entry.session_dir == path_facts::parent_of(entry.session_file)
            &&& rlm_ledger::is_complete(value) ==> {
                &&& entry.rlm_depth == value.i64_at("rlmDepth"@)
                &&& entry.parent_session_file == value.str_at("parentSessionFile"@)
                &&& entry.rlm_parent_node_id == value.str_at("rlmParentNodeId"@)
                &&& entry.prompt == value.str_at("prompt"@)
                &&& entry.spawn_code == value.str_at("spawnCode"@)
                &&& Some(entry.parent_session_id) == value.str_at("parentSessionId"@)
                &&& Some(entry.updated_at) == value.str_at("updatedAt"@)
                &&& value.get("createdAt"@) == Some(JsonV::Num(entry.created_at))
                &&& value.i64_at("rlmMaxDepth"@) is Some && value.i64_at("rlmMaxDepth"@)->0 >= 0
                    ==> entry.rlm_max_depth == value.i64_at("rlmMaxDepth"@)
                &&& entry.rlm_max_depth is Some ==> entry.rlm_max_depth->0 >= 0
                &&& entry.model is Some ==> entry.model == value.get("model"@)
                &&& entry.model is None ==> value.get("model"@) is None || value.get("model"@)
                    == Some(JsonV::Null)
            }
        }),
{
    registry_names();
}

/// An entry is complete where it has its directory, its parent, when it was made and
/// when it was changed, and where nothing that it may have is of another kind.
pub proof fn complete_entries_have_their_members(value: JsonV)
    ensures
        rlm_ledger::is_complete(value) <==> {
            &&& value.str_at("sessionDir"@) is Some
            &&& value.str_at("parentSessionId"@) is Some
            &&& value.str_at("updatedAt"@) is Some
            &&& value.get("createdAt"@) is Some && value.get("createdAt"@)->0 is Num
            &&& value.get("parentSessionFile"@) is Some ==> value.get("parentSessionFile"@)->0
                is Null || value.get("parentSessionFile"@)->0 is Str
            &&& value.get("rlmParentNodeId"@) is Some ==> value.get("rlmParentNodeId"@)->0 is Null
                || value.get("rlmParentNodeId"@)->0 is Str
            &&& value.get("prompt"@) is Some ==> value.get("prompt"@)->0 is Null || value.get(
                "prompt"@,
            )->0 is Str
            &&& value.get("spawnCode"@) is Some ==> value.get("spawnCode"@)->0 is Null || value.get(
                "spawnCode"@,
            )->0 is Str
            &&& value.get("rlmDepth"@) is Some ==> value.get("rlmDepth"@)->0 is Null || value.get(
                "rlmDepth"@,
            )->0.i64() is Some
            &&& value.get("rlmMaxDepth"@) is Some ==> value.get("rlmMaxDepth"@)->0 is Null
                || value.get("rlmMaxDepth"@)->0.i64() is Some
        },
{
}

/// Of a child the last line of its registry counts; a line that is empty or is no entry
/// changes nothing.
pub proof fn the_last_entry_counts(all: Seq<Seq<char>>, line: Seq<char>, child: Seq<char>)
    ensures
        ({
            let before = rlm_ledger::legacy_entries(all);
            let after = rlm_ledger::legacy_entries(all.push(line));
            let trimmed = text::trimmed(line);
            match json::parsed_json(vstd::utf8::encode_utf8(trimmed)) {
                Ok(value) => {
                    &&& trimmed.len() > 0 && rlm_ledger::is_legacy_entry(value)
                        && json::text_or_empty(value, "childId"@) == child ==> assoc::find(
                        after,
                        child,
                    ) == Some(rlm_ledger::legacy_of(value))
                    &&& trimmed.len() == 0 || !rlm_ledger::is_legacy_entry(value) ==> after
                        == before
                    &&& json::text_or_empty(value, "childId"@) != child ==> assoc::find(
                        after,
                        child,
                    ) == assoc::find(before, child)
                },
                Err(_) => after == before,
            }
        }),
{
    broadcast use assoc::find_set;

    assert(all.push(line).drop_last() =~= all);
}

/// The sessions that were found come first and as they are. Behind them stands each
/// child that the ledger leads to, that was read and whose directory is the one asked
/// for, once, under the parent and at the depth of its first edge.
pub proof fn descendants_join_the_saved_sessions(
    merge: MergeV,
    edge: EdgeV,
    paths: PathFacts,
    read: Map<Seq<char>, SessionInfo>,
    cwd: Option<Seq<char>>,
    current_dir: Option<Seq<char>>,
)
    ensures
        ({
            let after = rlm_ledger::merge_edge(merge, edge, paths, read, cwd, current_dir);
            let child = paths.canonical_of(edge.child);
            let joins = !merge.seen.contains(child) && read.contains_key(child) && (cwd is None || (
            read[child]@.cwd.len() > 0 && path_facts::resolved(read[child]@.cwd, current_dir)
                == path_facts::resolved(cwd->0, current_dir)));
            &&& after.seen.contains(child)
            &&& !joins ==> after.sessions == merge.sessions
            &&& joins ==> {
                &&& after.sessions.len() == merge.sessions.len() + 1
                &&& after.sessions.take(merge.sessions.len() as int) == merge.sessions
                &&& after.sessions.last().parent_session_path == Some(edge.parent)
                &&& after.sessions.last().rlm_depth == edge.depth
                &&& after.sessions.last().path == read[child]@.path
                &&& after.sessions.last().id == read[child]@.id
                &&& after.sessions.last().name == read[child]@.name
                &&& after.sessions.last().cwd == read[child]@.cwd
            }
            &&& forall|path: Seq<char>|
                path != child ==> (#[trigger] after.seen.contains(path) <==> merge.seen.contains(
                    path,
                ))
        }),
{
    let after = rlm_ledger::merge_edge(merge, edge, paths, read, cwd, current_dir);
    let child = paths.canonical_of(edge.child);
    if !merge.seen.contains(child) {
        assert(after.seen[after.seen.len() - 1] == child);
        assert forall|path: Seq<char>| path != child implies (#[trigger] after.seen.contains(path)
            <==> merge.seen.contains(path)) by {
            if merge.seen.contains(path) {
                let k = choose|k: int| 0 <= k < merge.seen.len() && merge.seen[k] == path;
                assert(after.seen[k] == path);
            }
            if after.seen.contains(path) {
                let k = choose|k: int| 0 <= k < after.seen.len() && after.seen[k] == path;
                assert(merge.seen[k] == path);
            }
        }
        if after.sessions.len() > merge.sessions.len() {
            assert(after.sessions.take(merge.sessions.len() as int) =~= merge.sessions);
        }
    }
}

/// Merging goes over the edges in order.
pub proof fn edges_are_merged_in_order(
    merge: MergeV,
    edges: Seq<EdgeV>,
    edge: EdgeV,
    paths: PathFacts,
    read: Map<Seq<char>, SessionInfo>,
    cwd: Option<Seq<char>>,
    current_dir: Option<Seq<char>>,
)
    ensures
        rlm_ledger::merge_edges(merge, edges.push(edge), paths, read, cwd, current_dir)
            == rlm_ledger::merge_edge(
            rlm_ledger::merge_edges(merge, edges, paths, read, cwd, current_dir),
            edge,
            paths,
            read,
            cwd,
            current_dir,
        ),
        rlm_ledger::merge_edges(merge, Seq::empty(), paths, read, cwd, current_dir) == merge,
{
    assert(edges.push(edge).drop_last() =~= edges);
}

} // verus!
