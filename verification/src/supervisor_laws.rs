//! What holds of the supervisor as a whole: who sees which session, which command goes
//! where, and what becomes of workers and pauses.

use vstd::prelude::*;

use crate::assistant_message;
use crate::daemon_worker_protocol::DaemonWorkerDescriptor;
use crate::json;
use crate::json::{Json, JsonV};
use crate::native_supervisor;
use crate::native_supervisor::{
    AdoptionV, DispatchV, InputPause, LinesV, PayloadV, PublicClient, RoutedCommand, Worker,
    WorkerLaunch,
};
use crate::protocol::ResponseV;
use crate::text;

verus! {

/// A worker without an owner is everybody's, and one with an owner is the owner's alone.
pub proof fn workers_are_shown_to_their_owner(worker: Worker, client: Seq<char>)
    ensures
        worker.descriptor.owner_client_id is None ==> native_supervisor::shown_to(worker, client),
        worker.descriptor.owner_client_id matches Some(owner) ==> (native_supervisor::shown_to(
            worker,
            client,
        ) <==> client == owner@),
{
}

proof fn session_names()
    ensures
        text::stamp("activeSessionId"@) == 111100097015,
        text::stamp("id"@) == 100100105002,
        text::stamp("sessionId"@) == 110100115009,
        text::stamp("sessionFile"@) == 105101115011,
{
    reveal_strlit("activeSessionId");
    reveal_strlit("id");
    reveal_strlit("sessionId");
    reveal_strlit("sessionFile");
}

/// A session goes by its active id, by the id of its session and by its file, and by
/// nothing else. Its active id is the one that it names, else its id.
pub proof fn sessions_go_by_three_names(summary: JsonV, requested: Seq<char>)
    requires
        requested.len() > 0,
    ensures
        summary.str_at("activeSessionId"@) == Some(requested) ==> native_supervisor::session_meets(
            summary,
            requested,
        ) && native_supervisor::active_of(summary) == Some(requested),
        summary.get("activeSessionId"@) is None && summary.str_at("id"@) == Some(requested)
            ==> native_supervisor::session_meets(summary, requested)
            && native_supervisor::active_of(summary) == Some(requested),
        summary.str_at("sessionId"@) == Some(requested) ==> native_supervisor::session_meets(
            summary,
            requested,
        ),
        summary.str_at("sessionFile"@) == Some(requested) ==> native_supervisor::session_meets(
            summary,
            requested,
        ),
        native_supervisor::session_meets(summary, requested) ==> summary.str_at("activeSessionId"@)
            == Some(requested) || summary.str_at("id"@) == Some(requested) || summary.str_at(
            "sessionId"@,
        ) == Some(requested) || summary.str_at("sessionFile"@) == Some(requested),
{
}

/// Every session that is shown to the client and goes by the name that was asked for is
/// among those that are found, with its active id and at its worker; so where it is the
/// only one it is the one that is found. And whatever is found goes by that name.
pub proof fn shown_sessions_are_found(
    workers: Seq<Worker>,
    identity: Seq<char>,
    requested: Seq<char>,
    at: int,
    k: int,
)
    requires
        0 <= at < workers.len(),
        0 <= k < workers[at].summaries@.len(),
        native_supervisor::shown_to(workers[at], identity),
        native_supervisor::session_meets(workers[at].summaries@[k]@, requested),
    ensures
        native_supervisor::matches_of(workers, identity, requested).contains(
            (at, native_supervisor::active_of(workers[at].summaries@[k]@).unwrap_or(Seq::empty())),
        ),
    decreases workers.len(),
{
    let rest = native_supervisor::matches_of(workers.drop_last(), identity, requested);
    let all = native_supervisor::matches_of(workers, identity, requested);
    let item = (
        at,
        native_supervisor::active_of(workers[at].summaries@[k]@).unwrap_or(Seq::empty()),
    );
    if at < workers.len() - 1 {
        assert(workers.drop_last()[at] == workers[at]);
        shown_sessions_are_found(workers.drop_last(), identity, requested, at, k);
        let i = choose|i: int| 0 <= i < rest.len() && rest[i] == item;
        assert(all[i] == item);
    } else {
        meeting_sessions_match(at, workers[at].summaries@, requested, k);
        let own = native_supervisor::matches_in(at, workers[at].summaries@, requested);
        let i = choose|i: int| 0 <= i < own.len() && own[i] == item;
        assert(all[rest.len() + i] == item);
    }
}

proof fn meeting_sessions_match(at: int, summaries: Seq<Json>, requested: Seq<char>, k: int)
    requires
        0 <= k < summaries.len(),
        native_supervisor::session_meets(summaries[k]@, requested),
    ensures
        native_supervisor::matches_in(at, summaries, requested).contains(
            (at, native_supervisor::active_of(summaries[k]@).unwrap_or(Seq::empty())),
        ),
    decreases summaries.len(),
{
    let rest = native_supervisor::matches_in(at, summaries.drop_last(), requested);
    let all = native_supervisor::matches_in(at, summaries, requested);
    let item = (at, native_supervisor::active_of(summaries[k]@).unwrap_or(Seq::empty()));
    if k < summaries.len() - 1 {
        assert(summaries.drop_last()[k] == summaries[k]);
        meeting_sessions_match(at, summaries.drop_last(), requested, k);
        let i = choose|i: int| 0 <= i < rest.len() && rest[i] == item;
        assert(all[i] == item);
    } else {
        assert(all[rest.len() as int] == item);
    }
}

/// What is found at a worker is a session of it that goes by the name.
pub proof fn matches_are_sessions(at: int, summaries: Seq<Json>, requested: Seq<char>, i: int)
    requires
        0 <= i < native_supervisor::matches_in(at, summaries, requested).len(),
    ensures
        ({
            let found = native_supervisor::matches_in(at, summaries, requested)[i];
            &&& found.0 == at
            &&& exists|k: int|
                0 <= k < summaries.len() && native_supervisor::session_meets(
                    (#[trigger] summaries[k])@,
                    requested,
                ) && found.1 == native_supervisor::active_of(summaries[k]@).unwrap_or(Seq::empty())
        }),
    decreases summaries.len(),
{
    let fewer = summaries.drop_last();
    let rest = native_supervisor::matches_in(at, fewer, requested);
    if i < rest.len() {
        matches_are_sessions(at, fewer, requested, i);
        let k = choose|k: int|
            0 <= k < fewer.len() && native_supervisor::session_meets(
                (#[trigger] fewer[k])@,
                requested,
            ) && rest[i].1 == native_supervisor::active_of(fewer[k]@).unwrap_or(Seq::empty());
        assert(summaries[k] == fewer[k]);
    } else {
        assert(summaries[summaries.len() - 1] == summaries.last());
    }
}

/// A client that comes adds one to the number of a session's clients if and only if it
/// has subscribed to it; where there is no client there is none.
pub proof fn subscribers_are_counted(
    clients: Seq<PublicClient>,
    client: PublicClient,
    active: Seq<char>,
)
    ensures
        native_supervisor::subscribers(Seq::empty(), active) == 0,
        client.subscriptions@.contains_key(active) ==> native_supervisor::subscribers(
            clients.push(client),
            active,
        ) == native_supervisor::subscribers(clients, active) + 1,
        !client.subscriptions@.contains_key(active) ==> native_supervisor::subscribers(
            clients.push(client),
            active,
        ) == native_supervisor::subscribers(clients, active),
{
    assert(clients.push(client).drop_last() =~= clients);
}

proof fn summary_names()
    ensures
        text::stamp("attachedClients"@) == 101115097015,
        text::stamp("workerState"@) == 97101119011,
        text::stamp("workerPid"@) == 80100119009,
        text::stamp("activeSessionId"@) == 111100097015,
        text::stamp("id"@) == 100100105002,
{
    reveal_strlit("attachedClients");
    reveal_strlit("workerState");
    reveal_strlit("workerPid");
    reveal_strlit("activeSessionId");
    reveal_strlit("id");
}

/// What a client is told of a session is what the worker said, and besides how many
/// clients the session has, in which state its worker is and which process it is.
pub proof fn summaries_tell_of_clients_and_worker(
    members: Seq<(Seq<char>, JsonV)>,
    clients: Seq<PublicClient>,
    descriptor: DaemonWorkerDescriptor,
    key: Seq<char>,
)
    ensures
        ({
            let summary = JsonV::Obj(members);
            let shown = native_supervisor::public_of(summary, clients, descriptor);
            let active = native_supervisor::active_of(summary).unwrap_or(Seq::empty());
            &&& shown.get("attachedClients"@) == Some(
                json::int_value(native_supervisor::subscribers(clients, active) as int),
            )
            &&& shown.str_at("workerState"@) == Some(descriptor.lifecycle@)
            &&& shown.get("workerPid"@) == Some(json::int_value(descriptor.pid as int))
            &&& key != "attachedClients"@ && key != "workerState"@ && key != "workerPid"@
                ==> shown.get(key) == summary.get(key)
            &&& native_supervisor::active_of(shown) == native_supervisor::active_of(summary)
        }),
{
    broadcast use json::lookup_put;

    summary_names();
}

/// Each session of a worker that is shown to the client is listed, as clients see it,
/// and no session of a worker that is not.
pub proof fn listed_sessions_are_those_shown(
    workers: Seq<Worker>,
    clients: Seq<PublicClient>,
    identity: Seq<char>,
)
    ensures
        forall|at: int, k: int|
            0 <= at < workers.len() && 0 <= k < workers[at].summaries@.len()
                && native_supervisor::shown_to(workers[at], identity)
                ==> native_supervisor::shown_sessions(workers, clients, identity).contains(
                native_supervisor::public_of(
                    (#[trigger] workers[at].summaries@[k])@,
                    clients,
                    workers[at].descriptor,
                ),
            ),
        forall|i: int|
            0 <= i < native_supervisor::shown_sessions(workers, clients, identity).len()
                ==> exists|at: int, k: int|
                0 <= at < workers.len() && 0 <= k < workers[at].summaries@.len()
                    && native_supervisor::shown_to(workers[at], identity)
                    && #[trigger] native_supervisor::shown_sessions(workers, clients, identity)[i]
                    == native_supervisor::public_of(
                    (#[trigger] workers[at].summaries@[k])@,
                    clients,
                    workers[at].descriptor,
                ),
        native_supervisor::shown_sessions(workers, clients, identity).len() == shown_count(
            workers,
            identity,
        ),
    decreases workers.len(),
{
    if workers.len() > 0 {
        let fewer = workers.drop_last();
        let last = workers[workers.len() - 1];
        listed_sessions_are_those_shown(fewer, clients, identity);
        let rest = native_supervisor::shown_sessions(fewer, clients, identity);
        let all = native_supervisor::shown_sessions(workers, clients, identity);
        let own = native_supervisor::shown_summaries(last.summaries@, clients, last.descriptor);
        assert forall|at: int, k: int|
            0 <= at < workers.len() && 0 <= k < workers[at].summaries@.len()
                && native_supervisor::shown_to(workers[at], identity) implies all.contains(
            native_supervisor::public_of(
                (#[trigger] workers[at].summaries@[k])@,
                clients,
                workers[at].descriptor,
            ),
        ) by {
            let value = native_supervisor::public_of(
                workers[at].summaries@[k]@,
                clients,
                workers[at].descriptor,
            );
            if at < fewer.len() {
                assert(fewer[at] == workers[at]);
                assert(fewer[at].summaries@[k] == workers[at].summaries@[k]);
                assert(rest.contains(value));
                let i = choose|i: int| 0 <= i < rest.len() && rest[i] == value;
                assert(all[i] == value);
            } else {
                assert(own[k] == value);
                assert(all[rest.len() + k] == value);
            }
        }
        assert forall|i: int| 0 <= i < all.len() implies exists|at: int, k: int|
            0 <= at < workers.len() && 0 <= k < workers[at].summaries@.len()
                && native_supervisor::shown_to(workers[at], identity) && #[trigger] all[i]
                == native_supervisor::public_of(
                (#[trigger] workers[at].summaries@[k])@,
                clients,
                workers[at].descriptor,
            ) by {
            if i < rest.len() {
                assert(all[i] == rest[i]);
                let (at, k) = choose|at: int, k: int|
                    0 <= at < fewer.len() && 0 <= k < fewer[at].summaries@.len()
                        && native_supervisor::shown_to(fewer[at], identity) && rest[i]
                        == native_supervisor::public_of(
                        (#[trigger] fewer[at].summaries@[k])@,
                        clients,
                        fewer[at].descriptor,
                    );
                assert(fewer[at] == workers[at]);
                assert(all[i] == native_supervisor::public_of(
                    workers[at].summaries@[k]@,
                    clients,
                    workers[at].descriptor,
                ));
            } else {
                let k = i - rest.len();
                assert(all[i] == own[k]);
                assert(all[i] == native_supervisor::public_of(
                    workers[workers.len() - 1].summaries@[k]@,
                    clients,
                    last.descriptor,
                ));
            }
        }
    }
}

/// How many sessions the workers have that are shown to the client.
pub open spec fn shown_count(workers: Seq<Worker>, identity: Seq<char>) -> nat
    decreases workers.len(),
{
    if workers.len() == 0 {
        0
    } else {
        shown_count(workers.drop_last(), identity) + if native_supervisor::shown_to(
            workers.last(),
            identity,
        ) {
            workers.last().summaries@.len()
        } else {
            0
        }
    }
}

/// The workers of a client are exactly those that belong to it.
pub proof fn workers_of_a_client_are_its_own(workers: Seq<Worker>, client: Seq<char>)
    ensures
        forall|i: int|
            native_supervisor::workers_of(workers, client).contains(i) <==> 0 <= i < workers.len()
                && (#[trigger] workers[i]).descriptor.owner_client_id is Some
                && workers[i].descriptor.owner_client_id->0@ == client,
    decreases workers.len(),
{
    if workers.len() > 0 {
        let fewer = workers.drop_last();
        let rest = native_supervisor::workers_of(fewer, client);
        let all = native_supervisor::workers_of(workers, client);
        workers_of_a_client_are_its_own(fewer, client);
        assert forall|i: int|
            all.contains(i) <==> 0 <= i < workers.len() && (
            #[trigger] workers[i]).descriptor.owner_client_id is Some
                && workers[i].descriptor.owner_client_id->0@ == client by {
            assert(0 <= i < fewer.len() ==> fewer[i] == workers[i]);
            if all.contains(i) {
                let j = choose|j: int| 0 <= j < all.len() && all[j] == i;
                if j < rest.len() {
                    assert(rest[j] == i);
                    assert(rest.contains(i));
                    assert(fewer[i] == workers[i]);
                }
            }
            if 0 <= i < fewer.len() && rest.contains(i) {
                let j = choose|j: int| 0 <= j < rest.len() && rest[j] == i;
                assert(all[j] == i);
            }
            if i == workers.len() - 1 && workers[i].owner() == Some(client) {
                assert(all[rest.len() as int] == i);
            }
        }
    }
}

/// A worker that is forgotten is gone, under whichever id it was there, and all others
/// stay in their order.
pub proof fn forgetting_leaves_the_others(workers: Seq<Worker>, worker_id: Seq<char>)
    ensures
        forall|i: int|
            0 <= i < native_supervisor::without_worker(workers, worker_id).len() ==> (
            #[trigger] native_supervisor::without_worker(
                workers,
                worker_id,
            )[i]).descriptor.worker_id@ != worker_id,
        native_supervisor::without_worker(workers, worker_id) == workers.filter(
            |worker: Worker| worker.descriptor.worker_id@ != worker_id,
        ),
    decreases workers.len(),
{
    let keep = |worker: Worker| worker.descriptor.worker_id@ != worker_id;
    if workers.len() > 0 {
        forgetting_leaves_the_others(workers.drop_first(), worker_id);
        let rest = native_supervisor::without_worker(workers.drop_first(), worker_id);
        let all = native_supervisor::without_worker(workers, worker_id);
        filter_from_the_front(workers, keep);
        assert forall|i: int| 0 <= i < all.len() implies (
        #[trigger] all[i]).descriptor.worker_id@ != worker_id by {
            if workers[0].descriptor.worker_id@ == worker_id {
                assert(all[i] == rest[i]);
            } else if i > 0 {
                assert(all[i] == rest[i - 1]);
            }
        }
    } else {
        reveal(Seq::filter);
    }
}

proof fn filter_from_the_front(workers: Seq<Worker>, keep: spec_fn(Worker) -> bool)
    requires
        workers.len() > 0,
    ensures
        workers.filter(keep) == if keep(workers[0]) {
            seq![workers[0]] + workers.drop_first().filter(keep)
        } else {
            workers.drop_first().filter(keep)
        },
    decreases workers.len(),
{
    reveal(Seq::filter);
    if workers.len() == 1 {
        assert(workers.drop_last() =~= Seq::empty());
        assert(workers.drop_first() =~= Seq::empty());
        assert(workers.filter(keep) =~= if keep(workers[0]) {
            seq![workers[0]] + workers.drop_first().filter(keep)
        } else {
            workers.drop_first().filter(keep)
        });
    } else {
        let fewer = workers.drop_last();
        filter_from_the_front(fewer, keep);
        assert(fewer.drop_first() =~= workers.drop_first().drop_last());
        assert(fewer[0] == workers[0]);
        assert(workers.filter(keep) =~= if keep(workers[0]) {
            seq![workers[0]] + workers.drop_first().filter(keep)
        } else {
            workers.drop_first().filter(keep)
        });
    }
}

/// When a client leaves a session, or all of them, its pauses there are released and no
/// others: a pause goes by the id of the session and by the name that was asked for.
pub proof fn leaving_releases_own_pauses(
    entries: Seq<(String, InputPause)>,
    connection_id: Seq<char>,
    active: Option<Seq<char>>,
    i: int,
)
    requires
        0 <= i < entries.len(),
    ensures
        ({
            let released = native_supervisor::released_pauses(entries, connection_id, active);
            let pause = entries[i].1;
            &&& pause.connection_id@ == connection_id && (active is None || active == Some(
                pause.active@,
            ) || active == Some(pause.requested@)) ==> released.contains(entries[i])
            &&& forall|k: int|
                0 <= k < released.len() ==> (#[trigger] released[k]).1.connection_id@
                    == connection_id && (active is None || active == Some(released[k].1.active@)
                    || active == Some(released[k].1.requested@)) && entries.contains(released[k])
        }),
{
    broadcast use vstd::seq_lib::group_filter_ensures;

    let keep = |entry: (String, InputPause)|
        native_supervisor::is_released(entry.1, connection_id, active);
    let released = entries.filter(keep);
    if keep(entries[i]) {
        assert(released.contains(entries[i]));
    }
    assert forall|k: int| 0 <= k < released.len() implies keep(#[trigger] released[k])
        && entries.contains(released[k]) by {
        assert(released.contains(released[k]));
        entries.lemma_filter_contains_rev(keep, released[k]);
    }
}

/// A pause is released by the client that holds it, for the session that it pauses; one
/// that is not there needs no release. Nobody else releases it, for whatever session,
/// nor does the holder for another one.
pub proof fn pauses_are_released_for_their_session(
    pauses: Map<Seq<char>, InputPause>,
    connection_id: Seq<char>,
    id: Seq<char>,
    body: JsonV,
)
    ensures
        ({
            let release = native_supervisor::release_of(pauses, connection_id, id, body);
            let pause = pauses[id];
            let asked = body.str_at("activeSessionId"@);
            &&& !pauses.contains_key(id) ==> release == Ok::<Option<InputPause>, Seq<char>>(None)
            &&& pauses.contains_key(id) && pause.connection_id@ == connection_id && (asked == Some(
                pause.active@,
            ) || asked == Some(pause.requested@)) ==> release == Ok::<
                Option<InputPause>,
                Seq<char>,
            >(Some(pause))
            &&& pauses.contains_key(id) && pause.connection_id@ != connection_id ==> release
                is Err
            &&& pauses.contains_key(id) && asked != Some(pause.active@) && asked != Some(
                pause.requested@,
            ) ==> release is Err
        }),
{
}

/// The answer of a worker is its data where it succeeded, and its error where it did not.
pub proof fn answers_are_data_or_errors(response: ResponseV)
    ensures
        native_supervisor::answer_data(response) is Ok <==> response.success,
        response.success && response.data is Some ==> native_supervisor::answer_data(response)
            == Ok::<JsonV, Seq<char>>(response.data->0),
        response.success && response.data is None ==> native_supervisor::answer_data(response)
            == Ok::<JsonV, Seq<char>>(JsonV::Null),
        !response.success && response.error is Some ==> native_supervisor::answer_data(response)
            == Err::<JsonV, Seq<char>>(response.error->0),
        !response.success && response.error is None ==> native_supervisor::answer_data(response)
            == Err::<JsonV, Seq<char>>("Session worker request failed"@),
{
}

/// A worker whose supervisor is another one, or that is being stopped, is left alone; a
/// living one is connected to; one that died is recovered from its file where it has
/// one and belongs to nobody, for an owner's environment is not known any more.
pub proof fn workers_are_taken_up_as_they_are(
    descriptor: DaemonWorkerDescriptor,
    supervisor: Seq<char>,
    socket_path: Seq<char>,
    alive: bool,
)
    ensures
        ({
            let taken = native_supervisor::adopted(descriptor, supervisor, socket_path, alive);
            let ours = supervisor == socket_path && descriptor.stop_requested_at is None;
            &&& !ours ==> taken == AdoptionV::Skip
            &&& ours && alive ==> taken == AdoptionV::Connect
            &&& taken is Recover <==> ours && !alive && descriptor.owner_client_id is None
                && descriptor.session_file is Some
            &&& taken matches AdoptionV::Recover(command) ==> {
                let value = JsonV::Obj(command);
                &&& value.str_at("type"@) == Some("create"@)
                &&& value.str_at("sessionPath"@) == Some(descriptor.session_file->0@)
            }
        }),
{
    broadcast use {json::lookup_push, json::lookup_empty};

    if descriptor.session_file is Some {
        recoveries_open_the_file(descriptor.session_file->0@, descriptor);
    }
}

proof fn recovery_names()
    ensures
        text::stamp("type"@) == 101101116004,
        text::stamp("sessionPath"@) == 97104115011,
        text::stamp("config"@) == 105103099006,
        text::stamp("sessionDir"@) == 68114115010,
        text::stamp("telemetryDisabled"@) == 97100116017,
{
    reveal_strlit("type");
    reveal_strlit("sessionPath");
    reveal_strlit("config");
    reveal_strlit("sessionDir");
    reveal_strlit("telemetryDisabled");
}

/// A recovery opens the session's file again, with the directory and the telemetry that
/// the worker had.
pub proof fn recoveries_open_the_file(file: Seq<char>, descriptor: DaemonWorkerDescriptor)
    ensures
        ({
            let value = JsonV::Obj(native_supervisor::recovery_members(file, descriptor));
            let config = value.get("config"@)->0;
            &&& value.str_at("type"@) == Some("create"@)
            &&& value.str_at("sessionPath"@) == Some(file)
            &&& value.get("config"@) is Some
            &&& config.str_at("sessionDir"@) == json::opt_view(descriptor.session_dir)
            &&& config.bool_at("telemetryDisabled"@) == descriptor.telemetry_disabled
        }),
{
    broadcast use {json::lookup_push, json::lookup_empty};

    recovery_names();
    let e = Seq::<(Seq<char>, JsonV)>::empty();
    let dir = native_supervisor::opt_text_value(json::opt_view(descriptor.session_dir));
    let telemetry = native_supervisor::opt_flag_value(descriptor.telemetry_disabled);
    let config = e.push(("sessionDir"@, dir)).push(("telemetryDisabled"@, telemetry));
    assert(seq![("sessionDir"@, dir), ("telemetryDisabled"@, telemetry)] =~= config);
    let members = e.push(("type"@, JsonV::Str("create"@))).push(
        ("sessionPath"@, JsonV::Str(file)),
    ).push(("config"@, JsonV::Obj(config)));
    assert(native_supervisor::recovery_members(file, descriptor) =~= members);
    assert(json::lookup(members, "config"@) == Some(JsonV::Obj(config)));
    assert(json::lookup(config, "sessionDir"@) == Some(dir));
    assert(json::lookup(config, "telemetryDisabled"@) == Some(telemetry));
}

/// A worker is started again for whoever asks, where it belongs to nobody, is not being
/// stopped and has a saved session: the file that it had, else the one that it was
/// created with. Another client is told nothing of a worker that is not its own.
pub proof fn lost_workers_are_started_again(
    descriptor: DaemonWorkerDescriptor,
    identity: Seq<char>,
    requested: Seq<char>,
)
    ensures
        ({
            let refusal = native_supervisor::retry_refusal(descriptor, identity, requested);
            &&& refusal is None <==> descriptor.stop_requested_at is None
                && descriptor.owner_client_id is None && (descriptor.session_file is Some
                || descriptor.create_command.session_path is Some)
            &&& descriptor.stop_requested_at is None && descriptor.owner_client_id is Some
                && descriptor.owner_client_id->0@ != identity ==> refusal == Some(
                "Unknown active session: "@ + requested,
            )
        }),
        descriptor.session_file matches Some(file) ==> native_supervisor::recoverable_file(
            descriptor,
        ) == Some(file@),
        descriptor.session_file is None ==> native_supervisor::recoverable_file(descriptor)
            == json::opt_view(descriptor.create_command.session_path),
{
}

proof fn capability_names()
    ensures
        text::stamp("slim_attach"@) == 97104115011,
        text::stamp("chunked_snapshot"@) == 115116099016,
        text::stamp("history_ranges"@) == 110115104014,
        text::stamp("heartbeat_catalog"@) == 116103104017,
        text::stamp("authoritative_child_roster"@) == 95114097026,
        text::stamp("owned_session_recovery_context"@) == 95116111030,
{
    reveal_strlit("slim_attach");
    reveal_strlit("chunked_snapshot");
    reveal_strlit("history_ranges");
    reveal_strlit("heartbeat_catalog");
    reveal_strlit("authoritative_child_roster");
    reveal_strlit("owned_session_recovery_context");
}

/// The supervisor serves every capability but these six.
pub proof fn six_capabilities_are_not_served(capability: Seq<char>)
    ensures
        !native_supervisor::served(capability) <==> capability == "slim_attach"@ || capability
            == "chunked_snapshot"@ || capability == "history_ranges"@ || capability
            == "heartbeat_catalog"@ || capability == "authoritative_child_roster"@ || capability
            == "owned_session_recovery_context"@,
{
    let names = native_supervisor::UNSERVED_CAPABILITIES@;
    assert(names[0]@ == "slim_attach"@);
    assert(names[1]@ == "chunked_snapshot"@);
    assert(names[2]@ == "history_ranges"@);
    assert(names[3]@ == "heartbeat_catalog"@);
    assert(names[4]@ == "authoritative_child_roster"@);
    assert(names[5]@ == "owned_session_recovery_context"@);
    if text::holds_str(names, capability) {
        let i = choose|i: int| 0 <= i < names.len() && (#[trigger] names[i])@ == capability;
        assert(i == 0 || i == 1 || i == 2 || i == 3 || i == 4 || i == 5);
    }
}

proof fn command_names()
    ensures
        text::stamp("ack_result"@) == 117116097010,
        text::stamp("create"@) == 116101099006,
        text::stamp("list"@) == 116116108004,
        text::stamp("retry_worker"@) == 107114114012,
        text::stamp("list_saved_sessions"@) == 115115108019,
        text::stamp("shutdown"@) == 119110115008,
        text::stamp("detach"@) == 99104100006,
        text::stamp("release_session_input_pause"@) == 116101114027,
        text::stamp("reattach"@) == 99104114008,
        text::stamp("get_direct_worker_transport"@) == 97116103027,
        text::stamp("prepare_update_restart"@) == 101116112022,
        text::stamp("restart"@) == 114116114007,
        text::stamp("roster_subscribe"@) == 114101114016,
        text::stamp("roster_unsubscribe"@) == 99101114018,
{
    reveal_strlit("ack_result");
    reveal_strlit("create");
    reveal_strlit("list");
    reveal_strlit("retry_worker");
    reveal_strlit("list_saved_sessions");
    reveal_strlit("shutdown");
    reveal_strlit("detach");
    reveal_strlit("release_session_input_pause");
    reveal_strlit("reattach");
    reveal_strlit("get_direct_worker_transport");
    reveal_strlit("prepare_update_restart");
    reveal_strlit("restart");
    reveal_strlit("roster_subscribe");
    reveal_strlit("roster_unsubscribe");
}

/// Which command is the supervisor's own, and what it asks.
pub proof fn own_commands_are_recognized(body: JsonV)
    ensures
        ({
            let kind = body.str_at("type"@);
            let asked = native_supervisor::dispatch_of(body);
            &&& kind is None ==> asked is Err
            &&& kind == Some("ack_result"@) ==> asked == Ok::<DispatchV, Seq<char>>(
                DispatchV::Acknowledge(body.str_at("commandId"@)),
            )
            &&& kind == Some("create"@) ==> asked == Ok::<DispatchV, Seq<char>>(DispatchV::Create)
            &&& kind == Some("list"@) ==> asked == Ok::<DispatchV, Seq<char>>(DispatchV::List)
            &&& kind == Some("list_saved_sessions"@) ==> asked == Ok::<DispatchV, Seq<char>>(
                DispatchV::ListSavedSessions(body.str_at("cwd"@)),
            )
            &&& kind == Some("shutdown"@) ==> asked == Ok::<DispatchV, Seq<char>>(
                DispatchV::Shutdown,
            )
            &&& kind == Some("detach"@) ==> asked == Ok::<DispatchV, Seq<char>>(
                DispatchV::Detach(body.str_at("activeSessionId"@)),
            )
            &&& kind == Some("retry_worker"@) ==> match body.str_at("activeSessionId"@) {
                Some(id) => asked == Ok::<DispatchV, Seq<char>>(DispatchV::Retry(id)),
                None => asked == Err::<DispatchV, Seq<char>>(
                    "retry_worker requires activeSessionId"@,
                ),
            }
            &&& kind == Some("release_session_input_pause"@) ==> match body.str_at("pauseId"@) {
                Some(id) => asked == Ok::<DispatchV, Seq<char>>(DispatchV::ReleaseInputPause(id)),
                None => asked == Err::<DispatchV, Seq<char>>(
                    "Session input pause requires pauseId"@,
                ),
            }
        }),
{
    command_names();
}

/// The command is one that the supervisor does itself or does not do at all.
pub open spec fn is_own(kind: Seq<char>) -> bool {
    kind == "ack_result"@ || kind == "create"@ || kind == "list"@ || kind == "retry_worker"@
        || kind == "list_saved_sessions"@ || kind == "shutdown"@ || kind == "detach"@ || kind
        == "release_session_input_pause"@ || kind == "get_direct_worker_transport"@ || kind
        == "prepare_update_restart"@ || kind == "restart"@ || kind == "roster_subscribe"@ || kind
        == "roster_unsubscribe"@
}

/// Every other command goes to the worker of the session that it names, of whatever
/// type it is; one that attaches anew names it as its target. Five commands are not
/// done at all.
pub proof fn other_commands_go_to_their_session(body: JsonV, kind: Seq<char>)
    requires
        body.str_at("type"@) == Some(kind),
    ensures
        ({
            let asked = native_supervisor::dispatch_of(body);
            let named = body.str_at(
                if kind == "reattach"@ {
                    "targetActiveSessionId"@
                } else {
                    "activeSessionId"@
                },
            );
            &&& !is_own(kind) && named is Some ==> asked == Ok::<DispatchV, Seq<char>>(
                DispatchV::Route(named->0),
            )
            &&& !is_own(kind) && named is None ==> asked == Err::<DispatchV, Seq<char>>(
                "Daemon command requires activeSessionId"@,
            )
            &&& kind == "get_direct_worker_transport"@ || kind == "prepare_update_restart"@ || kind
                == "restart"@ || kind == "roster_subscribe"@ || kind == "roster_unsubscribe"@
                ==> asked == Err::<DispatchV, Seq<char>>(
                "Daemon supervisor command is not implemented: "@ + kind,
            )
        }),
{
    command_names();
    let names = native_supervisor::UNIMPLEMENTED_COMMANDS@;
    assert(names[0]@ == "get_direct_worker_transport"@);
    assert(names[1]@ == "prepare_update_restart"@);
    assert(names[2]@ == "restart"@);
    assert(names[3]@ == "roster_subscribe"@);
    assert(names[4]@ == "roster_unsubscribe"@);
    if text::holds_str(names, kind) {
        let i = choose|i: int| 0 <= i < names.len() && (#[trigger] names[i])@ == kind;
        assert(i == 0 || i == 1 || i == 2 || i == 3 || i == 4);
    }
}

} // verus!
