//! What holds of the roster of agents: who is shown as running, under which name an
//! agent stands, and what writing and deleting leave of the other agents.

use vstd::prelude::*;

use crate::agent_roster;
use crate::agent_roster::{
    AgentRosterEntry, AgentRosterStatus, AgentStatusInput, EntryV, MutationV,
    RegisteredHeartbeatFlags, RosterEntryMarks, RosterV, SessionPaths, SummaryV, WorkerEntryV,
};
use crate::json;
use crate::json::JsonV;
use crate::text;

verus! {

proof fn roster_names()
    ensures
        text::stamp("running"@) == 110103114007,
        text::stamp("idle"@) == 101101105004,
        text::stamp("inactive"@) == 118101105008,
        text::stamp("working"@) == 110103119007,
        text::stamp("queued"@) == 101100113006,
        text::stamp("subagent"@) == 110116115008,
        text::stamp("queuedCount"@) == 117116113011,
        text::stamp("steering"@) == 110103115008,
        text::stamp("followUps"@) == 85115102009,
{
    reveal_strlit("running");
    reveal_strlit("idle");
    reveal_strlit("inactive");
    reveal_strlit("working");
    reveal_strlit("queued");
    reveal_strlit("subagent");
    reveal_strlit("queuedCount");
    reveal_strlit("steering");
    reveal_strlit("followUps");
}

/// The three states of an agent go by these names, and no other text is one of them.
pub proof fn states_have_their_names(status: AgentRosterStatus, name: Seq<char>)
    ensures
        status.name() == match status {
            AgentRosterStatus::Running => "running"@,
            AgentRosterStatus::Idle => "idle"@,
            AgentRosterStatus::Inactive => "inactive"@,
        },
        AgentRosterStatus::named(name) == Some(status) <==> name == status.name(),
        AgentRosterStatus::named(name) is None <==> name != "running"@ && name != "idle"@ && name
            != "inactive"@,
{
    roster_names();
}

/// An agent is running where it waits to be spawned, or stands in a worker and is busy.
/// One that stands in a worker and is not busy is idle; the others are inactive.
pub proof fn agents_are_classified(input: AgentStatusInput)
    ensures
        agent_roster::agent_status(input) == AgentRosterStatus::Inactive <==> !input.resident
            && !input.queued_child,
        agent_roster::agent_status(input) == AgentRosterStatus::Idle <==> input.resident
            && !input.queued_child && !input.busy,
        agent_roster::agent_status(input) == AgentRosterStatus::Running <==> input.queued_child || (
        input.resident && input.busy),
{
}

/// Whether a session works is what its activity says; one that does not say it works
/// where it is active.
pub proof fn activity_decides(activity: Option<Seq<char>>, active: Option<bool>, resident: bool)
    ensures
        agent_roster::works(Some("working"@), active),
        !agent_roster::works(Some("idle"@), active),
        activity != Some("working"@) && activity != Some("idle"@) ==> agent_roster::works(
            activity,
            active,
        ) == (active == Some(true)),
        agent_roster::session_status(resident, activity, active, true)
            == AgentRosterStatus::Running,
        agent_roster::session_status(false, activity, active, false)
            == AgentRosterStatus::Inactive,
        agent_roster::session_status(true, Some("working"@), active, false)
            == AgentRosterStatus::Running,
        agent_roster::session_status(true, Some("idle"@), active, false)
            == AgentRosterStatus::Idle,
        agent_roster::session_status(true, None, active, false) == if active == Some(true) {
            AgentRosterStatus::Running
        } else {
            AgentRosterStatus::Idle
        },
{
    roster_names();
}

/// A session stands under its own id. A spawned agent stands under its parent and its
/// child's name: the parent's file where it is known, else the parent's active session.
pub proof fn agents_stand_under_their_parent(
    kind: Option<Seq<char>>,
    child: Option<Seq<char>>,
    session_id: Seq<char>,
    parent_path: Option<Seq<char>>,
    parent_active: Option<Seq<char>>,
    paths: SessionPaths,
)
    ensures
        ({
            let id = agent_roster::agent_id(
                kind,
                child,
                session_id,
                parent_path,
                parent_active,
                paths,
            );
            &&& kind != Some("subagent"@) || child is None ==> id == session_id
            &&& kind == Some("subagent"@) && child is Some ==> {
                &&& parent_path is Some ==> id == paths.canonical(parent_path->0) + "#"@ + child->0
                &&& parent_path is None && parent_active is Some ==> id == parent_active->0 + "#"@
                    + child->0
                &&& parent_path is None && parent_active is None ==> id == child->0
            }
        }),
{
}

/// An entry that a worker sends is kept as it was sent, with its worker, and nobody has
/// heard from it yet. It is labelled as queued exactly where it waits to be spawned;
/// otherwise it keeps the label that was given.
pub proof fn entries_are_kept_as_sent(
    entry: WorkerEntryV,
    worker_id: Option<Seq<char>>,
    label: Option<Seq<char>>,
)
    ensures
        ({
            let kept = agent_roster::stored_entry(entry, worker_id, label);
            let resident = entry.summary.active_session_id is Some;
            &&& kept.agent_id == entry.agent_id
            &&& kept.queued_child == entry.queued_child
            &&& kept.seeded_cwd == entry.seeded_cwd
            &&& kept.summary == entry.summary
            &&& kept.worker_id == worker_id
            &&& kept.last_heard_from_at is None
            &&& entry.queued_child == Some(true) ==> kept.status_label == Some("queued"@)
            &&& entry.queued_child != Some(true) ==> kept.status_label == label
            &&& kept.status == AgentRosterStatus::Running <==> entry.queued_child == Some(true) || (
            resident && (entry.summary.activity == "working"@ || (entry.summary.activity != "idle"@
                && entry.summary.is_session_active)))
            &&& kept.status == AgentRosterStatus::Inactive <==> entry.queued_child != Some(true)
                && !resident
        }),
{
    roster_names();
}

/// A session that leaves its worker keeps who it is and where it lies; nothing of it
/// runs any more, nobody is attached to it, and it stands under its own session id. Of
/// its heartbeats those that are registered stay.
pub proof fn passive_sessions_keep_who_they_are(
    summary: SummaryV,
    registrations: Option<RegisteredHeartbeatFlags>,
)
    ensures
        ({
            let passive = agent_roster::passive_summary(summary, registrations);
            &&& passive.id == summary.session_id
            &&& passive.session_id == summary.session_id
            &&& passive.session_file == summary.session_file
            &&& passive.session_name == summary.session_name
            &&& passive.cwd == summary.cwd
            &&& passive.rlm_child_id == summary.rlm_child_id
            &&& passive.runtime_kind == summary.runtime_kind
            &&& passive.rlm_depth == summary.rlm_depth
            &&& passive.parent_session_path == summary.parent_session_path
            &&& passive.parent_active_session_id == summary.parent_active_session_id
            &&& passive.lifecycle == summary.lifecycle
            &&& passive.message_count == summary.message_count
            &&& passive.model == summary.model
            &&& passive.usage == summary.usage
            &&& passive.extra == summary.extra
            &&& passive.active_session_id is None
            &&& passive.activity == "idle"@
            &&& !passive.is_session_active && !passive.is_streaming && !passive.is_compacting
            &&& passive.attached_clients == 0 && passive.direct_attached_clients is None
            &&& passive.has_active_heartbeat is None && passive.is_bash_running is None
                && passive.is_running_tools is None && passive.has_running_rlm_children is None
            &&& passive.worker_state is None && passive.worker_pid is None
            &&& passive.has_registered_heartbeat == Some(true) <==> registrations is Some
                && registrations->0.has_registered_heartbeat
            &&& passive.has_registered_heartbeat != Some(false)
            &&& passive.has_registered_cron_job == Some(true) <==> registrations is Some
                && registrations->0.has_registered_cron_job
            &&& passive.has_registered_cron_job != Some(false)
        }),
{
}

/// What is written is found: by its id, by its active session and by its file. An agent
/// that held the file before is gone; every other agent is as it was. The writing is the
/// last thing that is reported.
pub proof fn written_entries_are_found(
    roster: RosterV,
    entry: EntryV,
    paths: SessionPaths,
    other: Seq<char>,
)
    requires
        agent_roster::consistent(roster, paths),
        other != entry.agent_id,
    ensures
        ({
            let after = agent_roster::written(roster, entry, paths);
            let id = entry.agent_id;
            let taken = entry.summary.session_file is Some && roster.entries.contains_key(other)
                && roster.entries[other].summary.session_file is Some && paths.canonical(
                roster.entries[other].summary.session_file->0,
            ) == paths.canonical(entry.summary.session_file->0);
            &&& after.entries.contains_key(id) && after.entries[id] == entry
            &&& entry.summary.active_session_id is Some ==> after.by_active.contains_key(
                entry.summary.active_session_id->0,
            ) && after.by_active[entry.summary.active_session_id->0] == id
            &&& entry.summary.session_file is Some ==> after.by_file.contains_key(
                paths.canonical(entry.summary.session_file->0),
            ) && after.by_file[paths.canonical(entry.summary.session_file->0)] == id
            &&& taken ==> !after.entries.contains_key(other)
            &&& !taken ==> (after.entries.contains_key(other) <==> roster.entries.contains_key(
                other,
            ))
            &&& !taken && roster.entries.contains_key(other) ==> after.entries[other]
                == roster.entries[other]
            &&& after.mutations.last() == MutationV::Write(id)
            &&& after.mutations.take(roster.mutations.len() as int) == roster.mutations
            &&& taken ==> after.mutations == roster.mutations.push(MutationV::Delete(other)).push(
                MutationV::Write(id),
            )
        }),
{
    let after = agent_roster::written(roster, entry, paths);
    let id = entry.agent_id;
    let fresh = if roster.entries.contains_key(id) {
        agent_roster::without_indexes(roster, roster.entries[id], paths)
    } else {
        roster
    };
    assert(fresh.entries == roster.entries);
    if let Some(path) = entry.summary.session_file {
        let file = paths.canonical(path);
        let alone = agent_roster::evicted(fresh, file, id, paths);
        if roster.entries.contains_key(other) {
            if let Some(held) = roster.entries[other].summary.session_file {
                if paths.canonical(held) == file {
                    assert(roster.by_file.contains_key(file) && roster.by_file[file] == other);
                    assert(fresh.by_file.contains_key(file) && fresh.by_file[file] == other);
                    assert(!alone.entries.contains_key(other));
                }
            }
        }
        if fresh.by_file.contains_key(file) && fresh.by_file[file] != id {
            let holder = fresh.by_file[file];
            assert(roster.by_file.contains_key(file) && roster.by_file[file] == holder);
            assert(roster.entries.contains_key(holder));
            assert(alone.mutations == roster.mutations.push(MutationV::Delete(holder)));
        }
    }
    assert(after.mutations.take(roster.mutations.len() as int) =~= roster.mutations);
}

/// What is deleted is found no more, neither by its id nor by its file nor by its active
/// session; every other agent is as it was, and the deletion is reported. An agent that
/// is not there is not reported.
pub proof fn deleted_entries_are_gone(
    roster: RosterV,
    id: Seq<char>,
    paths: SessionPaths,
    other: Seq<char>,
)
    requires
        agent_roster::consistent(roster, paths),
        other != id,
    ensures
        ({
            let after = agent_roster::deleted(roster, id, paths);
            &&& !after.entries.contains_key(id)
            &&& forall|file: Seq<char>|
                #[trigger] after.by_file.contains_key(file) ==> after.by_file[file] != id
            &&& forall|active: Seq<char>|
                #[trigger] after.by_active.contains_key(active) ==> after.by_active[active] != id
            &&& after.entries.contains_key(other) <==> roster.entries.contains_key(other)
            &&& roster.entries.contains_key(other) ==> after.entries[other]
                == roster.entries[other]
            &&& forall|file: Seq<char>|
                #[trigger] roster.by_file.contains_key(file) && roster.by_file[file] != id
                    ==> after.by_file.contains_key(file) && after.by_file[file]
                    == roster.by_file[file]
            &&& forall|active: Seq<char>|
                #[trigger] roster.by_active.contains_key(active) && roster.by_active[active] != id
                    ==> after.by_active.contains_key(active) && after.by_active[active]
                    == roster.by_active[active]
            &&& roster.entries.contains_key(id) ==> after.mutations == roster.mutations.push(
                MutationV::Delete(id),
            )
            &&& !roster.entries.contains_key(id) ==> after == roster
        }),
{
}

/// A mark changes the label and the time of the agent that it names, each where it is
/// given, and nothing else of it; the other agents are as they were.
pub proof fn marks_change_what_they_name(
    roster: RosterV,
    id: Seq<char>,
    marks: RosterEntryMarks,
    other: Seq<char>,
)
    requires
        other != id,
    ensures
        ({
            let after = agent_roster::amended(roster, id, marks);
            &&& !roster.entries.contains_key(id) ==> after == roster
            &&& roster.entries.contains_key(id) ==> {
                let old_one = roster.entries[id];
                let new_one = after.entries[id];
                &&& after.entries.contains_key(id)
                &&& new_one.summary == old_one.summary
                &&& new_one.status == old_one.status
                &&& new_one.agent_id == old_one.agent_id
                &&& new_one.worker_id == old_one.worker_id
                &&& new_one.queued_child == old_one.queued_child
                &&& marks.status_label is None ==> new_one.status_label == old_one.status_label
                &&& marks.status_label is Some ==> new_one.status_label == json::opt_view(
                    marks.status_label->0,
                )
                &&& marks.last_heard_from_at is None ==> new_one.last_heard_from_at
                    == old_one.last_heard_from_at
                &&& marks.last_heard_from_at is Some ==> new_one.last_heard_from_at
                    == json::opt_view(marks.last_heard_from_at->0)
                &&& after.mutations == roster.mutations.push(MutationV::Write(id))
            }
            &&& after.entries.contains_key(other) <==> roster.entries.contains_key(other)
            &&& roster.entries.contains_key(other) ==> after.entries[other]
                == roster.entries[other]
            &&& after.by_file == roster.by_file
            &&& after.by_active == roster.by_active
        }),
{
}

/// The agents of a worker are the entries that name it, all of them, in order.
pub proof fn workers_have_their_agents(
    entries: Seq<(String, AgentRosterEntry)>,
    worker_id: Seq<char>,
    entry: EntryV,
)
    ensures
        agent_roster::of_worker(entries, worker_id).contains(entry) <==> exists|i: int|
            0 <= i < entries.len() && (#[trigger] entries[i]).1@ == entry && json::opt_view(
                entries[i].1.worker_id,
            ) == Some(worker_id),
    decreases entries.len(),
{
    if entries.len() > 0 {
        let rest = entries.drop_last();
        let last = entries.len() - 1;
        let before = agent_roster::of_worker(rest, worker_id);
        let after = agent_roster::of_worker(entries, worker_id);
        workers_have_their_agents(rest, worker_id, entry);
        assert(entries[last] == entries.last());
        if after.contains(entry) {
            let k = choose|k: int| 0 <= k < after.len() && after[k] == entry;
            if k < before.len() {
                assert(before[k] == entry);
                let i = choose|i: int|
                    0 <= i < rest.len() && (#[trigger] rest[i]).1@ == entry && json::opt_view(
                        rest[i].1.worker_id,
                    ) == Some(worker_id);
                assert(entries[i] == rest[i]);
            } else {
                assert(entries[last].1@ == entry);
            }
        }
        if exists|i: int|
            0 <= i < entries.len() && (#[trigger] entries[i]).1@ == entry && json::opt_view(
                entries[i].1.worker_id,
            ) == Some(worker_id) {
            let i = choose|i: int|
                0 <= i < entries.len() && (#[trigger] entries[i]).1@ == entry && json::opt_view(
                    entries[i].1.worker_id,
                ) == Some(worker_id);
            if i < last {
                assert(rest[i] == entries[i]);
                let k = choose|k: int| 0 <= k < before.len() && before[k] == entry;
                assert(after[k] == entry);
            } else {
                assert(after[after.len() - 1] == entry);
            }
        }
    }
}

/// An agent of the roster is shown with nothing queued.
pub proof fn shown_agents_have_nothing_queued()
    ensures
        agent_roster::no_actions().get("queuedCount"@) == Some(json::int_value(0)),
        agent_roster::no_actions().get("steering"@) == Some(JsonV::Arr(Seq::empty())),
        agent_roster::no_actions().get("followUps"@) == Some(JsonV::Arr(Seq::empty())),
{
    broadcast use {json::lookup_push, json::lookup_empty};

    roster_names();
}

} // verus!
