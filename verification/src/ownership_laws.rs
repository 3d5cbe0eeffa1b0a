//! What holds of the ownership of the daemon's socket: who may take it, whose record is
//! current, and how long a shutdown is admitted.

use vstd::prelude::*;

use crate::clock;
use crate::daemon_supervisor_ownership;
use crate::daemon_supervisor_ownership::{
    AdmissionCheck, AdmissionV, FenceV, HelloV, IdentityV, OwnerDirectory, OwnerSearch, OwnerV,
    RenewAction, RenewEvent, RenewableRegistryRecord, ScopeV, StepV,
};
use crate::digest;
use crate::json;
use crate::json::JsonV;
use crate::path_facts;
use crate::text;

verus! {

proof fn owner_member_names()
    ensures
        text::stamp("version"@) == 111110118007,
        text::stamp("role"@) == 101101114004,
        text::stamp("token"@) == 101110116005,
        text::stamp("generation"@) == 105110103010,
        text::stamp("pid"@) == 100100112003,
        text::stamp("processStartId"@) == 114100112014,
        text::stamp("socketPath"@) == 97104115010,
        text::stamp("descriptorDir"@) == 114114100013,
        text::stamp("agentDir"@) == 105114097008,
        text::stamp("appVersion"@) == 105110097010,
        text::stamp("phase"@) == 115101112005,
        text::stamp("createdAt"@) == 100116099009,
        text::stamp("updatedAt"@) == 100116117009,
        text::stamp("expiresAt"@) == 115116101009,
        text::stamp("ownerToken"@) == 107110111010,
        text::stamp("supervisorGeneration"@) == 97110115020,
        text::stamp("supervisor"@) == 115114115010,
        text::stamp("starting"@) == 110103115008,
        text::stamp("owner"@) == 101114111005,
        text::stamp("stopping"@) == 110103115008,
        "starting"@[2] == 'a',
        "stopping"@[2] == 'o',
{
    reveal_strlit("version");
    reveal_strlit("role");
    reveal_strlit("token");
    reveal_strlit("generation");
    reveal_strlit("pid");
    reveal_strlit("processStartId");
    reveal_strlit("socketPath");
    reveal_strlit("descriptorDir");
    reveal_strlit("agentDir");
    reveal_strlit("appVersion");
    reveal_strlit("phase");
    reveal_strlit("createdAt");
    reveal_strlit("updatedAt");
    reveal_strlit("expiresAt");
    reveal_strlit("ownerToken");
    reveal_strlit("supervisorGeneration");
    reveal_strlit("supervisor");
    reveal_strlit("starting");
    reveal_strlit("owner");
    reveal_strlit("stopping");
}

/// An owner's record says whose it is: each of its members stands under its own name.
pub proof fn owner_records_say_whose_they_are(owner: OwnerV)
    ensures
        ({
            let value = daemon_supervisor_ownership::owner_value(owner);
            &&& value.get("version"@) == Some(json::int_value(owner.version as int))
            &&& value.str_at("role"@) == Some(owner.role)
            &&& value.str_at("token"@) == Some(owner.token)
            &&& value.str_at("generation"@) == Some(owner.generation)
            &&& value.get("pid"@) == Some(json::int_value(owner.pid as int))
            &&& value.str_at("processStartId"@) == owner.process_start_id
            &&& value.str_at("socketPath"@) == Some(owner.socket_path)
            &&& value.str_at("descriptorDir"@) == Some(owner.descriptor_dir)
            &&& value.str_at("agentDir"@) == Some(owner.agent_dir)
            &&& value.str_at("appVersion"@) == Some(owner.app_version)
            &&& value.str_at("phase"@) == Some(owner.phase)
            &&& value.str_at("createdAt"@) == Some(owner.created_at)
            &&& value.str_at("updatedAt"@) == Some(owner.updated_at)
        }),
{
    broadcast use {json::lookup_push, json::lookup_empty};

    owner_member_names();
}

/// A claim says what is claimed, and it is the claim of its owner.
pub proof fn claims_say_what_is_claimed(owner: OwnerV)
    ensures
        ({
            let claim = daemon_supervisor_ownership::scope_of_owner(owner);
            let value = daemon_supervisor_ownership::scope_value(claim);
            &&& value.get("version"@) == Some(json::int_value(owner.version as int))
            &&& value.str_at("role"@) == Some(owner.role)
            &&& value.str_at("token"@) == Some(owner.token)
            &&& value.str_at("generation"@) == Some(owner.generation)
            &&& value.str_at("socketPath"@) == Some(owner.socket_path)
            &&& value.str_at("descriptorDir"@) == Some(owner.descriptor_dir)
            &&& claim.socket_path == owner.socket_path
            &&& claim.descriptor_dir == owner.descriptor_dir
        }),
{
    broadcast use {json::lookup_push, json::lookup_empty};

    owner_member_names();
}

/// An admission and a fence say whose they are.
pub proof fn admissions_and_fences_say_whose_they_are(admission: AdmissionV, fence: FenceV)
    ensures
        ({
            let value = daemon_supervisor_ownership::admission_value(admission);
            &&& value.get("version"@) == Some(json::int_value(admission.version as int))
            &&& value.str_at("token"@) == Some(admission.token)
            &&& value.get("pid"@) == Some(json::int_value(admission.pid as int))
            &&& value.str_at("processStartId"@) == admission.process_start_id
            &&& value.str_at("createdAt"@) == Some(admission.created_at)
            &&& value.str_at("updatedAt"@) == Some(admission.updated_at)
            &&& value.str_at("expiresAt"@) == Some(admission.expires_at)
        }),
        ({
            let value = daemon_supervisor_ownership::fence_value(fence);
            &&& value.get("version"@) == Some(json::int_value(fence.version as int))
            &&& value.str_at("token"@) == Some(fence.token)
            &&& value.str_at("ownerToken"@) == Some(fence.owner_token)
            &&& value.get("pid"@) == Some(json::int_value(fence.pid as int))
            &&& value.str_at("processStartId"@) == Some(fence.process_start_id)
            &&& value.str_at("socketPath"@) == Some(fence.socket_path)
            &&& value.str_at("supervisorGeneration"@) == Some(fence.supervisor_generation)
            &&& value.str_at("createdAt"@) == Some(fence.created_at)
        }),
{
    broadcast use {json::lookup_push, json::lookup_empty};

    owner_member_names();
}

/// A record is that of an owner exactly where every member is there and sound: the
/// first version, the role of a supervisor, a process and one of the three phases.
pub proof fn owner_records_are_recognized(value: JsonV)
    ensures
        daemon_supervisor_ownership::is_owner(value) <==> {
            &&& value.u64_at("version"@) == Some(1u64)
            &&& value.str_at("role"@) == Some("supervisor"@)
            &&& value.str_at("token"@) is Some && value.str_at("generation"@) is Some
            &&& value.i64_at("pid"@) is Some && value.i64_at("pid"@)->0 > 0
            &&& value.get("processStartId"@) is None || value.str_at("processStartId"@) is Some
            &&& value.str_at("socketPath"@) is Some && value.str_at("descriptorDir"@) is Some
                && value.str_at("agentDir"@) is Some && value.str_at("appVersion"@) is Some
            &&& value.str_at("phase"@) == Some("starting"@) || value.str_at("phase"@) == Some(
                "owner"@,
            ) || value.str_at("phase"@) == Some("stopping"@)
            &&& value.str_at("createdAt"@) is Some && value.str_at("updatedAt"@) is Some
        },
        daemon_supervisor_ownership::is_owner(value) ==> {
            let owner = daemon_supervisor_ownership::owner_of(value);
            &&& owner.version == 1
            &&& Some(owner.role) == value.str_at("role"@)
            &&& Some(owner.token) == value.str_at("token"@)
            &&& Some(owner.generation) == value.str_at("generation"@)
            &&& Some(owner.pid) == value.i64_at("pid"@)
            &&& owner.process_start_id == value.str_at("processStartId"@)
            &&& Some(owner.socket_path) == value.str_at("socketPath"@)
            &&& Some(owner.descriptor_dir) == value.str_at("descriptorDir"@)
            &&& Some(owner.agent_dir) == value.str_at("agentDir"@)
            &&& Some(owner.app_version) == value.str_at("appVersion"@)
            &&& Some(owner.phase) == value.str_at("phase"@)
            &&& Some(owner.created_at) == value.str_at("createdAt"@)
            &&& Some(owner.updated_at) == value.str_at("updatedAt"@)
        },
{
}

/// A claim, an admission and a fence are recognized by their members.
pub proof fn other_records_are_recognized(value: JsonV)
    ensures
        daemon_supervisor_ownership::is_scope(value) <==> {
            &&& value.u64_at("version"@) == Some(1u64)
            &&& value.str_at("role"@) == Some("supervisor"@)
            &&& value.str_at("token"@) is Some && value.str_at("generation"@) is Some
            &&& value.str_at("socketPath"@) is Some && value.str_at("descriptorDir"@) is Some
        },
        daemon_supervisor_ownership::is_fence(value) <==> {
            &&& value.u64_at("version"@) == Some(1u64)
            &&& value.str_at("token"@) is Some && value.str_at("ownerToken"@) is Some
            &&& value.i64_at("pid"@) is Some && value.i64_at("pid"@)->0 > 0
            &&& value.str_at("processStartId"@) is Some && value.str_at("socketPath"@) is Some
                && value.str_at("supervisorGeneration"@) is Some && value.str_at("createdAt"@)
                is Some
        },
        daemon_supervisor_ownership::is_admission(value) <==> {
            &&& value.u64_at("version"@) == Some(1u64)
            &&& value.str_at("token"@) is Some
            &&& value.i64_at("pid"@) is Some && value.i64_at("pid"@)->0 > 0
            &&& value.get("processStartId"@) is None || value.get("processStartId"@)->0 is Null
                || value.get("processStartId"@)->0 is Str
            &&& value.str_at("createdAt"@) is Some && value.str_at("updatedAt"@) is Some
            &&& value.str_at("expiresAt"@) is Some && clock::iso_millis(
                value.str_at("expiresAt"@)->0,
            ) is Some
        },
{
}

/// A generation holds no separator, so that the directory of its owner lies in the
/// registry itself; letters, digits, dots, dashes and underscores are taken.
pub proof fn generations_are_plain_names(generation: Seq<char>)
    ensures
        daemon_supervisor_ownership::is_generation(generation) ==> !generation.contains('/')
            && !generation.contains('\\') && !generation.contains(' ') && !generation.contains(
            '\0',
        ),
        (forall|i: int|
            0 <= i < generation.len() ==> 'a' <= #[trigger] generation[i] <= 'z' || 'A'
                <= generation[i] <= 'Z' || '0' <= generation[i] <= '9' || generation[i] == '-'
                || generation[i] == '_' || generation[i] == '.')
            <==> daemon_supervisor_ownership::is_generation(generation),
{
    if daemon_supervisor_ownership::is_generation(generation) {
        assert forall|i: int| 0 <= i < generation.len() implies generation[i] != '/'
            && generation[i] != '\\' && generation[i] != ' ' && generation[i] != '\0' by {
            assert(daemon_supervisor_ownership::is_generation_char(generation[i]));
        }
        assert forall|i: int| 0 <= i < generation.len() implies 'a' <= #[trigger] generation[i]
            <= 'z' || 'A' <= generation[i] <= 'Z' || '0' <= generation[i] <= '9' || generation[i]
            == '-' || generation[i] == '_' || generation[i] == '.' by {
            assert(daemon_supervisor_ownership::is_generation_char(generation[i]));
        }
    }
}

/// A process that does not run is dead. One that runs is taken for the one that is meant
/// unless both times of its start are known and differ; it is surely the one where its
/// start is known to be the same, or was never written down.
pub proof fn processes_are_told_by_their_start(identity: IdentityV, observed: Option<Seq<char>>)
    ensures
        !daemon_supervisor_ownership::seems_alive(identity, false, observed),
        !daemon_supervisor_ownership::surely_alive(identity, false, observed),
        !daemon_supervisor_ownership::seems_alive(identity, true, observed)
            <==> identity.process_start_id is Some && observed is Some
            && identity.process_start_id->0 != observed->0,
        identity.process_start_id is None ==> daemon_supervisor_ownership::surely_alive(
            identity,
            true,
            observed,
        ),
        identity.process_start_id is Some ==> (daemon_supervisor_ownership::surely_alive(
            identity,
            true,
            observed,
        ) <==> observed is Some && observed->0 == identity.process_start_id->0),
{
}

/// An admission is active while its time has not come and its process lives; without an
/// admission there is nothing to expire.
pub proof fn admissions_end(admission: AdmissionV, now: i64, alive: bool)
    ensures
        daemon_supervisor_ownership::admission_check(None, now, alive) == AdmissionCheck::Absent,
        daemon_supervisor_ownership::admission_check(Some(admission), now, alive)
            == AdmissionCheck::Active <==> alive && clock::iso_millis(admission.expires_at) is Some
            && now < clock::iso_millis(admission.expires_at)->0,
        daemon_supervisor_ownership::admission_check(Some(admission), now, alive)
            != AdmissionCheck::Absent,
{
}

/// A new admission holds for five seconds from when it is given, and no longer.
pub proof fn admissions_hold_for_five_seconds(
    admission: AdmissionV,
    given: i64,
    now: i64,
)
    requires
        0 <= given <= now,
        clock::iso_millis(admission.expires_at) == Some(
            (given + daemon_supervisor_ownership::SHUTDOWN_ADMISSION_LEASE_MS) as i64,
        ),
        given < i64::MAX - 5000,
    ensures
        daemon_supervisor_ownership::admission_check(Some(admission), now, true)
            == AdmissionCheck::Active <==> now - given < 5000,
{
}

/// An admission is renewed only by the process that holds it, while it lasts.
pub proof fn admissions_are_renewed_by_their_holder(
    current: Option<AdmissionV>,
    held: AdmissionV,
    now: i64,
    sure: bool,
)
    ensures
        daemon_supervisor_ownership::still_admitted(current, held, now, sure) <==> sure
            && current is Some && current->0.token == held.token && current->0.pid == held.pid
            && current->0.process_start_id == held.process_start_id && clock::iso_millis(
            current->0.expires_at,
        ) is Some && now < clock::iso_millis(current->0.expires_at)->0,
{
}

/// Two claims are in each other's way where they share the socket or the directory of
/// the descriptors.
pub proof fn claims_meet_in_what_they_share(left: ScopeV, right: ScopeV)
    ensures
        daemon_supervisor_ownership::claims_conflict(left, right) <==> (left.socket_path
            == right.socket_path || left.descriptor_dir == right.descriptor_dir),
        daemon_supervisor_ownership::claims_conflict(left, right)
            == daemon_supervisor_ownership::claims_conflict(right, left),
        daemon_supervisor_ownership::claims_conflict(left, left),
{
}

/// What stands in the way of a claim: a living owner that shares something with it, or a
/// directory that was written to and cannot be read, unless its claim shares nothing.
pub open spec fn stands_in_the_way(directory: OwnerDirectory, claim: ScopeV) -> bool {
    match directory.owner {
        Some(owner) => directory.alive && (owner@.socket_path == claim.socket_path
            || owner@.descriptor_dir == claim.descriptor_dir),
        None => match directory.scope {
            Some(scope) => scope@.socket_path == claim.socket_path || scope@.descriptor_dir
                == claim.descriptor_dir,
            None => directory.has_files,
        },
    }
}

/// A claim is refused exactly where a shutdown goes on or something stands in its way.
pub proof fn claims_are_refused_for_a_reason(
    directories: Seq<OwnerDirectory>,
    claim: ScopeV,
    shutting_down: bool,
)
    ensures
        daemon_supervisor_ownership::acquisition(directories, claim, shutting_down).refusal is Some
            <==> shutting_down || exists|i: int|
            0 <= i < directories.len() && stands_in_the_way(#[trigger] directories[i], claim),
    decreases directories.len(),
{
    if directories.len() > 0 && !shutting_down {
        let fewer = directories.drop_last();
        let last = directories.len() - 1;
        claims_are_refused_for_a_reason(fewer, claim, false);
        let before = daemon_supervisor_ownership::plan_directories(fewer, claim);
        assert(directories[last] == directories.last());
        if exists|i: int| 0 <= i < fewer.len() && stands_in_the_way(#[trigger] fewer[i], claim) {
            let i = choose|i: int|
                0 <= i < fewer.len() && stands_in_the_way(#[trigger] fewer[i], claim);
            assert(directories[i] == fewer[i]);
        }
        if exists|i: int|
            0 <= i < directories.len() && stands_in_the_way(#[trigger] directories[i], claim) {
            let i = choose|i: int|
                0 <= i < directories.len() && stands_in_the_way(#[trigger] directories[i], claim);
            if i < last {
                assert(fewer[i] == directories[i]);
            }
        }
    }
}

/// A claim that is not refused moves aside every dead owner that it meets, and clears
/// every directory that nothing was ever written to; nothing else is touched.
pub proof fn claims_clear_their_way(
    directories: Seq<OwnerDirectory>,
    claim: ScopeV,
    path: Seq<char>,
)
    requires
        daemon_supervisor_ownership::plan_directories(directories, claim).refusal is None,
    ensures
        daemon_supervisor_ownership::plan_directories(directories, claim).steps.contains(
            StepV::Abandon(path),
        ) <==> exists|i: int|
            0 <= i < directories.len() && (#[trigger] directories[i]).path@ == path
                && directories[i].owner is None && directories[i].scope is None
                && !directories[i].has_files,
        daemon_supervisor_ownership::plan_directories(directories, claim).steps.contains(
            StepV::Retire(path),
        ) <==> exists|i: int|
            0 <= i < directories.len() && (#[trigger] directories[i]).path@ == path
                && directories[i].owner is Some && !directories[i].alive && (
            directories[i].owner->0@.socket_path == claim.socket_path
                || directories[i].owner->0@.descriptor_dir == claim.descriptor_dir),
    decreases directories.len(),
{
    if directories.len() > 0 {
        let fewer = directories.drop_last();
        let last = directories.len() - 1;
        let before = daemon_supervisor_ownership::plan_directories(fewer, claim);
        let plan = daemon_supervisor_ownership::plan_directories(directories, claim);
        assert(plan == daemon_supervisor_ownership::plan_directory(
            before,
            directories.last(),
            claim,
        ));
        assert(before.refusal is None);
        claims_clear_their_way(fewer, claim, path);
        steps_are_added(before.steps, plan.steps, directories[last], claim, StepV::Abandon(path));
        steps_are_added(before.steps, plan.steps, directories[last], claim, StepV::Retire(path));
        assert forall|i: int| 0 <= i < fewer.len() implies fewer[i] == directories[i] by {}
        if exists|i: int|
            0 <= i < fewer.len() && (#[trigger] fewer[i]).path@ == path && fewer[i].owner is None
                && fewer[i].scope is None && !fewer[i].has_files {
            let i = choose|i: int|
                0 <= i < fewer.len() && (#[trigger] fewer[i]).path@ == path && fewer[i].owner
                    is None && fewer[i].scope is None && !fewer[i].has_files;
            assert(directories[i] == fewer[i]);
        }
        if exists|i: int|
            0 <= i < fewer.len() && (#[trigger] fewer[i]).path@ == path && fewer[i].owner is Some
                && !fewer[i].alive && (fewer[i].owner->0@.socket_path == claim.socket_path
                || fewer[i].owner->0@.descriptor_dir == claim.descriptor_dir) {
            let i = choose|i: int|
                0 <= i < fewer.len() && (#[trigger] fewer[i]).path@ == path && fewer[i].owner
                    is Some && !fewer[i].alive && (fewer[i].owner->0@.socket_path
                    == claim.socket_path || fewer[i].owner->0@.descriptor_dir
                    == claim.descriptor_dir);
            assert(directories[i] == fewer[i]);
        }
    }
}

proof fn steps_are_added(
    before: Seq<StepV>,
    after: Seq<StepV>,
    directory: OwnerDirectory,
    claim: ScopeV,
    step: StepV,
)
    requires
        after == daemon_supervisor_ownership::plan_directory(
            daemon_supervisor_ownership::PlanV { steps: before, refusal: None },
            directory,
            claim,
        ).steps,
        !stands_in_the_way(directory, claim),
    ensures
        after.contains(step) <==> before.contains(step) || (step == StepV::Abandon(directory.path@)
            && directory.owner is None && directory.scope is None && !directory.has_files) || (step
            == StepV::Retire(directory.path@) && directory.owner is Some && !directory.alive && (
        directory.owner->0@.socket_path == claim.socket_path || directory.owner->0@.descriptor_dir
            == claim.descriptor_dir)),
{
    if before.contains(step) {
        let k = choose|k: int| 0 <= k < before.len() && before[k] == step;
        assert(after[k] == step);
    }
    if after.contains(step) && !before.contains(step) {
        let k = choose|k: int| 0 <= k < after.len() && after[k] == step;
        if k < before.len() {
            assert(before[k] == step);
        }
    }
    if after.len() > before.len() {
        assert(after.contains(after[after.len() - 1]));
    }
}

/// Two records are of one owner where its token, its generation, its process and its
/// socket are the same; the phase and the times may differ.
pub proof fn owners_are_told_apart(left: OwnerV, right: OwnerV, phase: Seq<char>, at: Seq<char>)
    ensures
        daemon_supervisor_ownership::same_owner(left, right) <==> left.token == right.token
            && left.generation == right.generation && left.pid == right.pid
            && left.process_start_id == right.process_start_id && left.socket_path
            == right.socket_path,
        daemon_supervisor_ownership::same_owner(
            left,
            OwnerV { phase, updated_at: at, ..left },
        ),
{
}

/// A record on disk is the owner's own where its process and its socket are the owner's,
/// the process lives, and it was either looked at before or its process is surely meant.
pub proof fn current_owners_are_on_disk(
    current: Option<OwnerV>,
    owner: OwnerV,
    socket: Seq<char>,
    validated: Option<Seq<char>>,
    process: bool,
    identity: bool,
)
    ensures
        daemon_supervisor_ownership::owner_is_current(
            current,
            owner,
            socket,
            validated,
            process,
            identity,
        ) ==> process && current is Some && current->0.pid == owner.pid
            && current->0.process_start_id == owner.process_start_id && current->0.socket_path
            == socket,
        process && identity && current is Some && current->0.pid == owner.pid
            && current->0.process_start_id == owner.process_start_id && current->0.socket_path
            == socket ==> daemon_supervisor_ownership::owner_is_current(
            current,
            owner,
            socket,
            validated,
            process,
            identity,
        ),
        !identity && validated is None ==> !daemon_supervisor_ownership::owner_is_current(
            current,
            owner,
            socket,
            validated,
            process,
            identity,
        ),
        process && current is Some && current->0.pid == owner.pid && current->0.process_start_id
            == owner.process_start_id && current->0.socket_path == socket && validated == Some(
            digest::digest_prefix(
                json::printed_json(daemon_supervisor_ownership::owner_value(current->0)),
                64,
            ),
        ) ==> daemon_supervisor_ownership::owner_is_current(
            current,
            owner,
            socket,
            validated,
            process,
            identity,
        ),
{
}

/// The directories of owners are those whose names end in `.owner`, all of them.
pub proof fn owner_directories_are_named(names: Seq<Seq<char>>, name: Seq<char>)
    ensures
        daemon_supervisor_ownership::owner_names(names).contains(name) <==> names.contains(name)
            && text::ends(name, ".owner"@),
    decreases names.len(),
{
    if names.len() > 0 {
        let fewer = names.drop_last();
        let before = daemon_supervisor_ownership::owner_names(fewer);
        let after = daemon_supervisor_ownership::owner_names(names);
        owner_directories_are_named(fewer, name);
        pushed_or_not(before, after, names.last(), text::ends(names.last(), ".owner"@), name);
        pushed_or_not(fewer, names, names.last(), true, name);
        assert(fewer.push(names.last()) =~= names);
    }
}

proof fn pushed_or_not<A>(before: Seq<A>, after: Seq<A>, last: A, pushed: bool, x: A)
    ensures
        pushed && after == before.push(last) ==> (after.contains(x) <==> before.contains(x) || x
            == last),
        !pushed && after == before ==> (after.contains(x) <==> before.contains(x)),
{
    if pushed && after == before.push(last) {
        if before.contains(x) {
            let k = choose|k: int| 0 <= k < before.len() && before[k] == x;
            assert(after[k] == x);
        }
        if after.contains(x) {
            let k = choose|k: int| 0 <= k < after.len() && after[k] == x;
            if k < before.len() {
                assert(before[k] == x);
            }
        }
        assert(after[before.len() as int] == last);
    }
}

/// The owners at a socket are those whose record names it, all of them.
pub proof fn owners_are_found_by_their_socket(
    owners: Seq<OwnerV>,
    socket: Seq<char>,
    owner: OwnerV,
)
    ensures
        daemon_supervisor_ownership::owners_at(owners, socket).contains(owner) <==> owners.contains(
            owner,
        ) && owner.socket_path == socket,
    decreases owners.len(),
{
    if owners.len() > 0 {
        let fewer = owners.drop_last();
        let before = daemon_supervisor_ownership::owners_at(fewer, socket);
        let after = daemon_supervisor_ownership::owners_at(owners, socket);
        owners_are_found_by_their_socket(fewer, socket, owner);
        pushed_or_not(before, after, owners.last(), owners.last().socket_path == socket, owner);
        pushed_or_not(fewer, owners, owners.last(), true, owner);
        assert(fewer.push(owners.last()) =~= owners);
    }
}

/// A supervisor that answers is the owner on file exactly where every part of what it
/// says is in the record, and the record knows when its process was started.
pub proof fn hellos_are_checked_against_the_record(
    hello: HelloV,
    hello_socket: Option<Seq<char>>,
    owner: OwnerV,
)
    ensures
        daemon_supervisor_ownership::answers_for(hello, hello_socket, owner) <==> hello.pid == Some(
            owner.pid,
        ) && hello.generation == Some(owner.generation) && hello.owner_token == Some(owner.token)
            && hello_socket == Some(owner.socket_path) && owner.process_start_id is Some
            && hello.process_start_id == owner.process_start_id,
{
}

/// A fence is put up for one owner only: the one that was found and that answered for
/// itself.
pub proof fn fences_are_for_one_owner(
    search: OwnerSearch,
    old_ones: Seq<OwnerV>,
    hello: HelloV,
    hello_socket: Option<Seq<char>>,
    normalized: Seq<char>,
    socket: Seq<char>,
)
    ensures
        ({
            let r = daemon_supervisor_ownership::fenced_owner(
                search,
                old_ones,
                hello,
                hello_socket,
                normalized,
                socket,
            );
            &&& (r matches Ok(owner) ==> search.refusal is None
                && daemon_supervisor_ownership::answers_for(hello, hello_socket, owner) && (
            search.owners.len() > 0 ==> search.owners == seq![owner]) && (search.owners.len() == 0
                ==> daemon_supervisor_ownership::old_matches(old_ones, hello, normalized) == seq![
                owner,
            ]))
            &&& search.refusal is None && search.owners.len() == 1
                && daemon_supervisor_ownership::answers_for(hello, hello_socket, search.owners[0])
                ==> r is Ok && r->Ok_0 == search.owners[0]
        }),
{
    let r = daemon_supervisor_ownership::fenced_owner(
        search,
        old_ones,
        hello,
        hello_socket,
        normalized,
        socket,
    );
    if let Ok(owner) = r {
        if search.owners.len() > 0 {
            assert(search.owners =~= seq![owner]);
        } else {
            assert(daemon_supervisor_ownership::old_matches(old_ones, hello, normalized) =~= seq![
                owner,
            ]);
        }
    }
}

/// The older records that match are those at the socket with the token and the process
/// of the one that answered.
pub proof fn older_records_match_by_token(
    owners: Seq<OwnerV>,
    hello: HelloV,
    socket: Seq<char>,
    owner: OwnerV,
)
    ensures
        daemon_supervisor_ownership::old_matches(owners, hello, socket).contains(owner)
            <==> owners.contains(owner) && owner.socket_path == socket && hello.owner_token == Some(
            owner.token,
        ) && hello.pid == Some(owner.pid),
    decreases owners.len(),
{
    if owners.len() > 0 {
        let fewer = owners.drop_last();
        let before = daemon_supervisor_ownership::old_matches(fewer, hello, socket);
        let after = daemon_supervisor_ownership::old_matches(owners, hello, socket);
        older_records_match_by_token(fewer, hello, socket, owner);
        pushed_or_not(
            before,
            after,
            owners.last(),
            daemon_supervisor_ownership::is_old_match(owners.last(), hello, socket),
            owner,
        );
        pushed_or_not(fewer, owners, owners.last(), true, owner);
        assert(fewer.push(owners.last()) =~= owners);
    }
}

/// Looking for the owner of a socket fails where a directory that was written to cannot
/// be read, unless its claim is on another socket; otherwise every owner of the socket is
/// found, and none else.
pub proof fn owners_of_a_socket_are_found(
    directories: Seq<OwnerDirectory>,
    socket: Seq<char>,
    owner: OwnerV,
)
    ensures
        ({
            let search = daemon_supervisor_ownership::search_directories(directories, socket);
            &&& search.refusal is Some <==> exists|i: int|
                0 <= i < directories.len() && (#[trigger] directories[i]).owner is None && (
                directories[i].scope is Some && directories[i].scope->0@.socket_path == socket || (
                directories[i].scope is None && directories[i].has_files))
            &&& search.refusal is None ==> (search.owners.contains(owner) <==> exists|i: int|
                0 <= i < directories.len() && (#[trigger] directories[i]).owner is Some
                    && directories[i].owner->0@ == owner && owner.socket_path == socket)
        }),
    decreases directories.len(),
{
    if directories.len() > 0 {
        let fewer = directories.drop_last();
        let last = directories.len() - 1;
        owners_of_a_socket_are_found(fewer, socket, owner);
        let before = daemon_supervisor_ownership::search_directories(fewer, socket);
        let after = daemon_supervisor_ownership::search_directories(directories, socket);
        let it = directories[last];
        assert(it == directories.last());
        if it.owner is Some {
            pushed_or_not(
                before.owners,
                after.owners,
                it.owner->0@,
                it.owner->0@.socket_path == socket,
                owner,
            );
        }
        if exists|i: int|
            0 <= i < fewer.len() && (#[trigger] fewer[i]).owner is None && (fewer[i].scope is Some
                && fewer[i].scope->0@.socket_path == socket || (fewer[i].scope is None
                && fewer[i].has_files)) {
            let i = choose|i: int|
                0 <= i < fewer.len() && (#[trigger] fewer[i]).owner is None && (fewer[i].scope
                    is Some && fewer[i].scope->0@.socket_path == socket || (fewer[i].scope is None
                    && fewer[i].has_files));
            assert(directories[i] == fewer[i]);
        }
        if exists|i: int|
            0 <= i < directories.len() && (#[trigger] directories[i]).owner is None && (
            directories[i].scope is Some && directories[i].scope->0@.socket_path == socket || (
            directories[i].scope is None && directories[i].has_files)) {
            let i = choose|i: int|
                0 <= i < directories.len() && (#[trigger] directories[i]).owner is None && (
                directories[i].scope is Some && directories[i].scope->0@.socket_path == socket || (
                directories[i].scope is None && directories[i].has_files));
            if i < last {
                assert(fewer[i] == directories[i]);
            }
        }
        if exists|i: int|
            0 <= i < fewer.len() && (#[trigger] fewer[i]).owner is Some && fewer[i].owner->0@
                == owner && owner.socket_path == socket {
            let i = choose|i: int|
                0 <= i < fewer.len() && (#[trigger] fewer[i]).owner is Some && fewer[i].owner->0@
                    == owner && owner.socket_path == socket;
            assert(directories[i] == fewer[i]);
        }
        if exists|i: int|
            0 <= i < directories.len() && (#[trigger] directories[i]).owner is Some
                && directories[i].owner->0@ == owner && owner.socket_path == socket {
            let i = choose|i: int|
                0 <= i < directories.len() && (#[trigger] directories[i]).owner is Some
                    && directories[i].owner->0@ == owner && owner.socket_path == socket;
            if i < last {
                assert(fewer[i] == directories[i]);
            }
        }
    }
}

/// A renewal writes the record again once the guard is had, unless it was given up; a
/// renewal that fails, for want of the guard or in the writing, loses the record, and a
/// lost record stays lost.
pub proof fn failed_renewals_lose_the_record(record: RenewableRegistryRecord, event: RenewEvent)
    ensures
        ({
            let action = daemon_supervisor_ownership::renew_action(record, event);
            let after = daemon_supervisor_ownership::renew_state(record, event);
            let failed = event is GuardFailed || (event is Renewed && event->Renewed_0 is Err);
            &&& action is Renew <==> event is GuardHeld && !record.stopped
            &&& after.lost <==> record.lost || failed
            &&& after.stopped == record.stopped
            &&& (action matches RenewAction::Done(result) ==> (result is Err <==> failed))
            &&& (event matches RenewEvent::GuardFailed(error) ==> action == RenewAction::Done(
                Err(error),
            ))
            &&& (event matches RenewEvent::Renewed(result) ==> action == RenewAction::Done(result))
        }),
{
}

/// It is believed for less than five seconds that a process is no zombie.
pub proof fn beliefs_last_five_seconds(at: i64, now: i64)
    ensures
        daemon_supervisor_ownership::still_believed(at, now) <==> now < at + 5000,
{
}

/// Of a process the last confirmation counts.
pub proof fn the_last_confirmation_counts(confirmations: Seq<(i64, i64)>, pid: i64, at: i64, other: i64)
    ensures
        daemon_supervisor_ownership::confirmed_at(confirmations.push((pid, at)), pid) == Some(at),
        other != pid ==> daemon_supervisor_ownership::confirmed_at(
            confirmations.push((pid, at)),
            other,
        ) == daemon_supervisor_ownership::confirmed_at(confirmations, other),
        daemon_supervisor_ownership::confirmed_at(Seq::empty(), pid) is None,
{
    assert(confirmations.push((pid, at)).drop_last() =~= confirmations);
}

/// Paths are compared as they are, on windows without regard to case.
pub proof fn paths_are_compared_as_the_system_does(path: Seq<char>)
    ensures
        daemon_supervisor_ownership::compared_form(path, false) == path,
        daemon_supervisor_ownership::compared_form(path, true) == text::lowered(path),
{
}

/// The parts of a path that are missing are put back in order below the part that is
/// there.
pub proof fn missing_parts_are_put_back(dir: Seq<char>, names: Seq<Seq<char>>, name: Seq<char>)
    ensures
        daemon_supervisor_ownership::below(dir, Seq::empty()) == dir,
        daemon_supervisor_ownership::below(dir, names.push(name)) == path_facts::joined_path(
            daemon_supervisor_ownership::below(dir, names),
            name,
        ),
{
    assert(names.push(name).drop_last() =~= names);
}

} // verus!
