//! What holds of the journal of commands, of the daemon's socket and of the frames
//! between the supervisor and its workers.

use vstd::prelude::*;

use crate::command_recovery_journal;
use crate::command_recovery_journal::{
    Acknowledgement, Answer, CommandJournalBeginResult, EntryV, JournalV, ReceivedV, Receipt,
    Reception, Standing,
};
use crate::daemon_socket;
use crate::daemon_socket::{
    DaemonSocketError, PrepareEvent, PreparePhase, SocketFound, StepV,
};
use crate::daemon_worker_client;
use crate::daemon_worker_client::AnswerReading;
use crate::daemon_worker_protocol;
use crate::daemon_worker_protocol::{DaemonPeerTransportTicket, DaemonSocketIdentity};
use crate::json;
use crate::json::{JsonV, Num};
use crate::path_facts;
use crate::protocol;
use crate::protocol::{ClientErrorV, ResponseV};
use crate::text;

verus! {

proof fn journal_names()
    ensures
        text::stamp("version"@) == 111110118007,
        text::stamp("type"@) == 101101116004,
        text::stamp("key"@) == 121121107003,
        text::stamp("clientId"@) == 73100099008,
        text::stamp("commandId"@) == 100100099009,
        text::stamp("commandType"@) == 121101099011,
        text::stamp("recordedAt"@) == 100116114010,
        text::stamp("response"@) == 115101114008,
        text::stamp("received"@) == 101100114008,
        text::stamp("result"@) == 108116114006,
        text::stamp("acknowledged"@) == 103100097012,
{
    reveal_strlit("version");
    reveal_strlit("type");
    reveal_strlit("key");
    reveal_strlit("clientId");
    reveal_strlit("commandId");
    reveal_strlit("commandType");
    reveal_strlit("recordedAt");
    reveal_strlit("response");
    reveal_strlit("received");
    reveal_strlit("result");
    reveal_strlit("acknowledged");
}

/// A command stands in the journal from its receipt to its acknowledgement: it is new
/// before, pending until it is answered, and then complete with the answer that was
/// given. The other commands are as they were.
pub proof fn commands_are_answered_once(
    begun: JournalV,
    receipt: Receipt,
    pending: JournalV,
    said: Result<CommandJournalBeginResult, String>,
    answer: Answer,
    complete: JournalV,
    acknowledgement: Acknowledgement,
    done: JournalV,
    other: Seq<char>,
)
    requires
        command_recovery_journal::received(begun, receipt, Ok(()), pending, said),
        command_recovery_journal::answer_kept(pending, answer, Ok(()), complete),
        command_recovery_journal::forgotten(complete, acknowledgement, Ok(()), done),
        answer.key@ == receipt.received@.key,
        acknowledgement.key@ == receipt.received@.key,
        other != receipt.received@.key,
    ensures
        ({
            let key = receipt.received@.key;
            &&& said is Ok
            &&& command_recovery_journal::standing(pending.entries, key) is Pending
            &&& command_recovery_journal::standing(complete.entries, key) == Standing::Complete(
                answer.response@,
            )
            &&& complete.entries[key].received == receipt.received@
            &&& command_recovery_journal::standing(done.entries, key) is New
            &&& command_recovery_journal::standing(pending.entries, other)
                == command_recovery_journal::standing(begun.entries, other)
            &&& command_recovery_journal::standing(complete.entries, other)
                == command_recovery_journal::standing(begun.entries, other)
            &&& command_recovery_journal::standing(done.entries, other)
                == command_recovery_journal::standing(begun.entries, other)
            &&& done.count == begun.count + 3
        }),
{
}

/// A command is taken up exactly where the journal does not know it; one that it knows
/// is answered with where it stands.
pub proof fn only_new_commands_are_taken_up(
    journal: JournalV,
    client_id: Seq<char>,
    command_id: Seq<char>,
    command_type: Seq<char>,
    at: Seq<char>,
    r: Reception,
)
    requires
        command_recovery_journal::begun(journal, client_id, command_id, command_type, at, r),
    ensures
        ({
            let key = command_recovery_journal::command_key(client_id, command_id);
            &&& r is Write <==> !journal.entries.contains_key(key)
            &&& (r matches Reception::Write(receipt) ==> {
                &&& receipt.received@.key == key
                &&& receipt.received@.client_id == client_id
                &&& receipt.received@.command_id == command_id
                &&& receipt.received@.command_type == command_type
                &&& receipt.received@.recorded_at == at
            })
            &&& (r matches Reception::Known(result) ==> {
                &&& journal.entries[key].response is None <==> result@ is Pending
                &&& journal.entries[key].response is Some ==> result@ == Standing::Complete(
                    journal.entries[key].response->0,
                )
            })
        }),
{
}

/// What could not be written changes nothing.
pub proof fn failed_writes_change_nothing(
    before: JournalV,
    receipt: Receipt,
    answer: Answer,
    acknowledgement: Acknowledgement,
    error: String,
    after: JournalV,
    said: Result<CommandJournalBeginResult, String>,
)
    ensures
        command_recovery_journal::received(before, receipt, Err(error), after, said) ==> after
            == before && said is Err,
        command_recovery_journal::answer_kept(before, answer, Err(error), after) ==> after
            == before,
        command_recovery_journal::forgotten(before, acknowledgement, Err(error), after) ==> after
            == before,
{
}

/// An answer is kept for a command that was received, and only there; so is an
/// acknowledgement.
pub proof fn answers_belong_to_received_commands(
    journal: JournalV,
    key: Seq<char>,
    response: ResponseV,
    at: Seq<char>,
    answer: Option<Answer>,
    acknowledgement: Option<Acknowledgement>,
)
    ensures
        command_recovery_journal::answered(journal, key, response, at, answer) ==> (answer is Some
            <==> journal.entries.contains_key(key)) && (answer matches Some(answer) ==> answer.key@
            == key && answer.response@ == response),
        command_recovery_journal::acknowledged(journal, key, at, acknowledgement) ==> (
        acknowledgement is Some <==> journal.entries.contains_key(key)) && (acknowledgement matches
            Some(acknowledgement) ==> acknowledgement.key@ == key),
{
}

/// A receipt says which command of which client came in, and when.
pub proof fn receipts_say_what_came_in(record: ReceivedV)
    ensures
        ({
            let value = command_recovery_journal::received_value(1, "received"@, record);
            &&& value.u64_at("version"@) == Some(1u64)
            &&& value.str_at("type"@) == Some("received"@)
            &&& value.str_at("key"@) == Some(record.key)
            &&& value.str_at("clientId"@) == Some(record.client_id)
            &&& value.str_at("commandId"@) == Some(record.command_id)
            &&& value.str_at("commandType"@) == Some(record.command_type)
            &&& value.str_at("recordedAt"@) == Some(record.recorded_at)
        }),
{
    broadcast use {json::lookup_push, json::lookup_empty};

    journal_names();
}

/// A result says what was answered to which command; an acknowledgement names it.
pub proof fn results_say_what_was_answered(key: Seq<char>, response: ResponseV, at: Seq<char>)
    ensures
        ({
            let value = command_recovery_journal::result_value(1, "result"@, key, response, at);
            &&& value.u64_at("version"@) == Some(1u64)
            &&& value.str_at("type"@) == Some("result"@)
            &&& value.str_at("key"@) == Some(key)
            &&& value.get("response"@) == Some(protocol::response_value(response))
            &&& value.str_at("recordedAt"@) == Some(at)
        }),
        ({
            let value = command_recovery_journal::acknowledged_value(1, "acknowledged"@, key, at);
            &&& value.u64_at("version"@) == Some(1u64)
            &&& value.str_at("type"@) == Some("acknowledged"@)
            &&& value.str_at("key"@) == Some(key)
            &&& value.str_at("recordedAt"@) == Some(at)
        }),
{
    broadcast use {json::lookup_push, json::lookup_empty};

    journal_names();
}

/// A receipt is read where it names its client, its command and its type, none of them
/// empty, and its time; what is read is what it says.
pub proof fn receipts_are_read_whole(value: JsonV, key: Seq<char>)
    ensures
        command_recovery_journal::received_of(value, key) is Some <==> {
            &&& value.str_at("clientId"@) is Some && value.str_at("clientId"@)->0.len() > 0
            &&& value.str_at("commandId"@) is Some && value.str_at("commandId"@)->0.len() > 0
            &&& value.str_at("commandType"@) is Some && value.str_at("commandType"@)->0.len() > 0
            &&& value.str_at("recordedAt"@) is Some
        },
        command_recovery_journal::received_of(value, key) matches Some(received) ==> {
            &&& received.key == key
            &&& value.str_at("clientId"@) == Some(received.client_id)
            &&& value.str_at("commandId"@) == Some(received.command_id)
            &&& value.str_at("commandType"@) == Some(received.command_type)
            &&& value.str_at("recordedAt"@) == Some(received.recorded_at)
        },
{
}

/// Replaying a record moves its command as writing it did, and leaves the others alone:
/// a receipt makes it pending, a result completes it where it was received, and an
/// acknowledgement forgets it. A record of another kind changes nothing.
pub proof fn replayed_records_move_their_command(
    entries: Map<Seq<char>, EntryV>,
    value: JsonV,
    key: Seq<char>,
    other: Seq<char>,
)
    requires
        other != key,
    ensures
        ({
            let after = command_recovery_journal::replay_record(entries, value, key);
            let kind = value.str_at("type"@);
            &&& kind == Some("received"@) && command_recovery_journal::received_of(value, key)
                is Some ==> command_recovery_journal::standing(after, key) is Pending
            &&& kind == Some("acknowledged"@) ==> command_recovery_journal::standing(after, key)
                is New
            &&& kind == Some("result"@) && value.str_at("recordedAt"@) is Some && value.get(
                "response"@,
            ) is Some && protocol::is_response(value.get("response"@)->0) ==> {
                &&& entries.contains_key(key) ==> command_recovery_journal::standing(after, key)
                    == Standing::Complete(protocol::response_of(value.get("response"@)->0))
                    && after[key].received == entries[key].received
                &&& !entries.contains_key(key) ==> after == entries
            }
            &&& kind == Some("result"@) && (value.str_at("recordedAt"@) is None || value.get(
                "response"@,
            ) is None || !protocol::is_response(value.get("response"@)->0)) ==> after == entries
            &&& kind != Some("received"@) && kind != Some("acknowledged"@) && kind != Some(
                "result"@,
            ) ==> after == entries
            &&& command_recovery_journal::standing(after, other)
                == command_recovery_journal::standing(entries, other)
        }),
{
    journal_names();
}

/// The lines of a journal are read one after the other; a line that is empty, cannot be
/// read or is of another version is passed over and not counted.
pub proof fn unreadable_lines_are_passed_over(
    all: Seq<Seq<char>>,
    line: Seq<char>,
)
    ensures
        ({
            let before = command_recovery_journal::replay_lines(all);
            let after = command_recovery_journal::replay_lines(all.push(line));
            &&& line.len() == 0 ==> after == before
            &&& match json::parsed_json(vstd::utf8::encode_utf8(line)) {
                Ok(value) => {
                    &&& value.u64_at("version"@) != Some(1u64) || value.str_at("key"@) is None
                        ==> after == before
                    &&& line.len() > 0 && value.u64_at("version"@) == Some(1u64) && value.str_at(
                        "key"@,
                    ) is Some ==> after.count == before.count + 1 && after.entries
                        == command_recovery_journal::replay_record(
                        before.entries,
                        value,
                        value.str_at("key"@)->0,
                    )
                },
                Err(_) => after == before,
            }
        }),
{
    assert(all.push(line).drop_last() =~= all);
}

/// A journal is written anew after some thousand records.
pub proof fn journals_are_compacted_after_many_records(count: nat)
    ensures
        count >= command_recovery_journal::COMPACT_AFTER_RECORDS <==> count >= 4096,
{
}

/// Who takes a listener away leaves the others, in order.
pub proof fn other_listeners_stay(listeners: Seq<u64>, listener: u64, other: u64)
    ensures
        !daemon_socket::without_listener(listeners, listener).contains(listener),
        other != listener ==> (daemon_socket::without_listener(listeners, listener).contains(other)
            <==> listeners.contains(other)),
        !listeners.contains(listener) ==> daemon_socket::without_listener(listeners, listener)
            == listeners,
    decreases listeners.len(),
{
    if listeners.len() > 0 {
        let fewer = listeners.drop_last();
        let last = listeners[listeners.len() - 1];
        other_listeners_stay(fewer, listener, other);
        let before = daemon_socket::without_listener(fewer, listener);
        let after = daemon_socket::without_listener(listeners, listener);
        assert(listeners =~= fewer.push(last));
        added_or_not(fewer, listeners, last, true, other);
        added_or_not(fewer, listeners, last, true, listener);
        added_or_not(before, after, last, last != listener, other);
        added_or_not(before, after, last, last != listener, listener);
    }
}

proof fn added_or_not<A>(before: Seq<A>, after: Seq<A>, last: A, added: bool, x: A)
    ensures
        added && after == before.push(last) ==> (after.contains(x) <==> before.contains(x) || x
            == last),
        !added && after == before ==> (after.contains(x) <==> before.contains(x)),
{
    if added && after == before.push(last) {
        if before.contains(x) {
            let k = choose|k: int| 0 <= k < before.len() && before[k] == x;
            assert(after[k] == x);
        }
        if after.contains(x) {
            let k = choose|k: int| 0 <= k < after.len() && after[k] == x;
            if k < before.len() {
                assert(before[k] == x);
            }
        }
        assert(after[before.len() as int] == last);
    }
}

/// The directory of the socket is refused where it is no directory, or belongs to
/// somebody else as far as both owners are known.
pub proof fn socket_directories_belong_to_their_user(
    dir: Seq<char>,
    is_dir: bool,
    owner: Option<u32>,
    uid: Option<u32>,
)
    ensures
        daemon_socket::dir_error(dir, is_dir, owner, uid) is None <==> is_dir && (owner is None
            || uid is None || owner->0 == uid->0),
{
}

/// The socket of a user stands in a directory of that user's own.
pub proof fn users_have_their_own_directory(temp: Seq<char>, uid: u32)
    requires
        temp.len() > 0,
        temp.last() != '/',
    ensures
        daemon_socket::socket_dir(temp, Some(uid)) == temp + "/"@ + ("prime-agent-"@
            + text::decimal_digits(uid as nat)),
        daemon_socket::socket_dir(temp, None) == temp + "/"@ + ("prime-agent-"@ + "user"@),
{
}

/// Where nothing lies at the path, or a socket that is nobody's any more, the path is
/// ready; what is no socket is left alone.
pub proof fn free_paths_are_ready(path: Seq<char>, id: DaemonSocketIdentity, reason: String)
    ensures
        daemon_socket::prepared(
            path,
            PreparePhase::Inspecting,
            PrepareEvent::Inspected(SocketFound::Nothing),
        ).1 is Ready,
        daemon_socket::prepared(
            path,
            PreparePhase::Inspecting,
            PrepareEvent::Inspected(SocketFound::Socket(None)),
        ).1 is Ready,
        daemon_socket::prepared(
            path,
            PreparePhase::Inspecting,
            PrepareEvent::Inspected(SocketFound::Other),
        ).1 is Fail,
        daemon_socket::prepared(
            path,
            PreparePhase::Inspecting,
            PrepareEvent::Inspected(SocketFound::Unreadable(reason)),
        ).1 == StepV::Fail(reason@),
        daemon_socket::prepared(
            path,
            PreparePhase::Inspecting,
            PrepareEvent::Inspected(SocketFound::Socket(Some(id))),
        ) == (PreparePhase::Probing(id), StepV::Probe),
{
}

/// A socket that answers is in use. One that does not is waited for; when the time is
/// over it is removed, unless the lease was lost.
pub proof fn silent_sockets_are_waited_for(
    path: Seq<char>,
    id: DaemonSocketIdentity,
    lost: Option<DaemonSocketError>,
)
    ensures
        daemon_socket::prepared(path, PreparePhase::Probing(id), PrepareEvent::Probed(true)).1
            is Fail,
        daemon_socket::prepared(path, PreparePhase::Probing(id), PrepareEvent::Probed(false)) == (
            PreparePhase::Timing(id),
            StepV::CheckClock,
        ),
        daemon_socket::prepared(path, PreparePhase::Timing(id), PrepareEvent::Clock(false, lost))
            == (PreparePhase::Watching(id), StepV::Wait(25)),
        daemon_socket::prepared(
            path,
            PreparePhase::Timing(id),
            PrepareEvent::Clock(true, lost),
        ).1 is Remove <==> lost is None,
        daemon_socket::prepared(
            path,
            PreparePhase::Timing(id),
            PrepareEvent::Clock(true, lost),
        ).1 is Fail <==> lost is Some,
{
}

/// While a socket is waited for it may go, which makes the path ready; where another one
/// stands there, the path is not touched.
pub proof fn changed_sockets_are_left_alone(
    path: Seq<char>,
    id: DaemonSocketIdentity,
    other: DaemonSocketIdentity,
)
    ensures
        daemon_socket::prepared(path, PreparePhase::Watching(id), PrepareEvent::Watched(None)).1
            is Ready,
        daemon_socket::prepared(
            path,
            PreparePhase::Watching(id),
            PrepareEvent::Watched(Some(id)),
        ) == (PreparePhase::Probing(id), StepV::Probe),
        other != id ==> daemon_socket::prepared(
            path,
            PreparePhase::Watching(id),
            PrepareEvent::Watched(Some(other)),
        ).1 is Fail,
{
}

/// A frame begins with the lengths of its header and its payload, each in four bytes,
/// the highest first.
pub proof fn frames_begin_with_their_lengths(header: Seq<u8>, payload: Seq<u8>)
    requires
        header.len() < 0x1_0000_0000,
        payload.len() < 0x1_0000_0000,
    ensures
        ({
            let bytes = daemon_worker_client::frame_bytes(header, payload);
            &&& bytes.len() == 8 + header.len() + payload.len()
            &&& bytes[0] as nat * 0x100_0000 + bytes[1] as nat * 0x1_0000 + bytes[2] as nat * 0x100
                + bytes[3] as nat == header.len()
            &&& bytes[4] as nat * 0x100_0000 + bytes[5] as nat * 0x1_0000 + bytes[6] as nat * 0x100
                + bytes[7] as nat == payload.len()
            &&& bytes.subrange(8, 8 + header.len() as int) == header
            &&& bytes.skip(8 + header.len() as int) == payload
        }),
{
    let bytes = daemon_worker_client::frame_bytes(header, payload);
    four_bytes_give_the_number(header.len());
    four_bytes_give_the_number(payload.len());
    assert(bytes.subrange(8, 8 + header.len() as int) =~= header);
    assert(bytes.skip(8 + header.len() as int) =~= payload);
}

proof fn four_bytes_give_the_number(n: nat)
    requires
        n < 0x1_0000_0000,
    ensures
        daemon_worker_client::be_bytes(n).len() == 4,
        daemon_worker_client::be_bytes(n)[0] as nat * 0x100_0000 + daemon_worker_client::be_bytes(
            n,
        )[1] as nat * 0x1_0000 + daemon_worker_client::be_bytes(n)[2] as nat * 0x100
            + daemon_worker_client::be_bytes(n)[3] as nat == n,
{
}

/// A frame is sent where its header is not empty and takes a mebibyte at most, and its
/// payload a gibibyte.
pub proof fn frames_keep_to_their_limits(header: nat, payload: nat)
    ensures
        daemon_worker_client::length_error(header, payload) is None <==> 0 < header <= 0x10_0000
            && payload <= 0x4000_0000,
{
}

/// A request that was answered is waited for no more; the others are.
pub proof fn answered_requests_are_not_waited_for(ids: Seq<Seq<char>>, id: Seq<char>, other: Seq<char>)
    requires
        forall|i: int, j: int|
            0 <= i < j < ids.len() ==> #[trigger] ids[i] != #[trigger] ids[j],
    ensures
        !daemon_worker_client::without_id(ids, id).contains(id),
        other != id ==> (daemon_worker_client::without_id(ids, id).contains(other) <==> ids.contains(
            other,
        )),
    decreases ids.len(),
{
    if ids.len() > 0 {
        let rest = ids.drop_first();
        let after = daemon_worker_client::without_id(ids, id);
        assert forall|i: int, j: int| 0 <= i < j < rest.len() implies #[trigger] rest[i]
            != #[trigger] rest[j] by {
            assert(ids[i + 1] != ids[j + 1]);
        }
        answered_requests_are_not_waited_for(rest, id, other);
        let left = daemon_worker_client::without_id(rest, id);
        if ids[0] == id {
            if after.contains(id) {
                let k = choose|k: int| 0 <= k < after.len() && after[k] == id;
                assert(ids[0] != ids[k + 1]);
            }
        } else if after.contains(id) {
            let k = choose|k: int| 0 <= k < after.len() && after[k] == id;
            assert(left[k - 1] == id);
        }
        if other != id {
            if ids.contains(other) {
                let k = choose|k: int| 0 <= k < ids.len() && ids[k] == other;
                if k > 0 {
                    assert(rest[k - 1] == other);
                    let m = choose|m: int| 0 <= m < left.len() && left[m] == other;
                    if ids[0] == id {
                        assert(after[k - 1] == other);
                    } else {
                        assert(after[m + 1] == other);
                    }
                } else {
                    assert(after[0] == other);
                }
            }
            if after.contains(other) {
                let k = choose|k: int| 0 <= k < after.len() && after[k] == other;
                if ids[0] == id {
                    assert(ids[k + 1] == other);
                } else if k > 0 {
                    assert(left[k - 1] == other);
                    let m = choose|m: int| 0 <= m < rest.len() && rest[m] == other;
                    assert(ids[m + 1] == other);
                } else {
                    assert(ids[0] == other);
                }
            }
        }
    }
}

proof fn frame_names()
    ensures
        text::stamp("kind"@) == 100100107004,
        text::stamp("command"@) == 110100099007,
        text::stamp("requestId"@) == 116100114009,
        text::stamp("commandType"@) == 121101099011,
        text::stamp("outbound"@) == 110100111008,
        text::stamp("outboundType"@) == 121101111012,
        text::stamp("activeSessionId"@) == 111100097015,
        text::stamp("snapshotId"@) == 116100115010,
        text::stamp("sessionEventType"@) == 84101115016,
        text::stamp("snapshotPurpose"@) == 112101115015,
        text::stamp("attach"@) == 99104097006,
        text::stamp("replacement"@) == 101116114011,
        text::stamp("catchup"@) == 117112099007,
        text::stamp("payloadEncoding"@) == 100103112015,
        text::stamp("jsonl"@) == 110108106005,
        text::stamp("assistant-delta"@) == 101097097015,
        text::stamp("response"@) == 115101114008,
        text::stamp("type"@) == 101101116004,
{
    reveal_strlit("kind");
    reveal_strlit("command");
    reveal_strlit("requestId");
    reveal_strlit("commandType");
    reveal_strlit("outbound");
    reveal_strlit("outboundType");
    reveal_strlit("activeSessionId");
    reveal_strlit("snapshotId");
    reveal_strlit("sessionEventType");
    reveal_strlit("snapshotPurpose");
    reveal_strlit("attach");
    reveal_strlit("replacement");
    reveal_strlit("catchup");
    reveal_strlit("payloadEncoding");
    reveal_strlit("jsonl");
    reveal_strlit("assistant-delta");
    reveal_strlit("response");
    reveal_strlit("type");
}

/// A request goes out as a command with its own id, and its header says which command
/// it is.
pub proof fn requests_name_their_command(id: Seq<char>, command_type: Seq<char>)
    ensures
        ({
            let header = daemon_worker_client::request_header(id, command_type);
            &&& header.str_at("kind"@) == Some("command"@)
            &&& header.str_at("requestId"@) == Some(id)
            &&& header.str_at("commandType"@) == Some(command_type)
            &&& daemon_worker_protocol::is_frame_header(header)
        }),
{
    broadcast use {json::lookup_push, json::lookup_empty};

    frame_names();
    let header = daemon_worker_client::request_header(id, command_type);
    assert(header->Obj_0 =~= Seq::empty().push(("kind"@, JsonV::Str("command"@))).push(
        ("requestId"@, JsonV::Str(id)),
    ).push(("commandType"@, JsonV::Str(command_type))));
}

/// A frame is taken where it is a command with its id and its type, or an answer with
/// its type whose other members, where they are there, are of the kinds that are known.
pub proof fn frame_headers_are_recognized(value: JsonV)
    ensures
        value.str_at("kind"@) == Some("command"@) ==> (daemon_worker_protocol::is_frame_header(
            value,
        ) <==> value.str_at("requestId"@) is Some && value.str_at("commandType"@) is Some),
        value.str_at("kind"@) == Some("outbound"@) ==> (daemon_worker_protocol::is_frame_header(
            value,
        ) <==> {
            let purpose = value.str_at("snapshotPurpose"@);
            let encoding = value.str_at("payloadEncoding"@);
            &&& value.str_at("outboundType"@) is Some
            &&& value.get("requestId"@) is None || value.get("requestId"@)->0 is Str
            &&& value.get("activeSessionId"@) is None || value.get("activeSessionId"@)->0 is Str
            &&& value.get("snapshotId"@) is None || value.get("snapshotId"@)->0 is Str
            &&& value.get("sessionEventType"@) is None || value.get("sessionEventType"@)->0 is Str
            &&& value.get("snapshotPurpose"@) is None || purpose == Some("attach"@) || purpose
                == Some("replacement"@) || purpose == Some("catchup"@)
            &&& value.get("payloadEncoding"@) is None || encoding == Some("jsonl"@) || encoding
                == Some("assistant-delta"@)
        }),
        daemon_worker_protocol::is_frame_header(value) ==> value.str_at("kind"@) == Some(
            "command"@,
        ) || value.str_at("kind"@) == Some("outbound"@),
{
    frame_names();
}

/// Only what a worker sends out is looked at; it settles the request that it names where
/// it is an answer and the request is waited for.
pub proof fn answers_settle_their_request(header: JsonV, pending: Seq<String>, id: Seq<char>)
    ensures
        daemon_worker_client::ignored(header) <==> header.str_at("kind"@) != Some("outbound"@),
        daemon_worker_client::answered(header, pending) == Some(id) <==> {
            &&& header.str_at("outboundType"@) == Some("response"@)
            &&& header.str_at("requestId"@) == Some(id)
            &&& exists|i: int| 0 <= i < pending.len() && (#[trigger] pending[i])@ == id
        },
{
    frame_names();
    assert("response"@ != Seq::<char>::empty()) by {
        reveal_strlit("response");
        assert("response"@.len() == 8);
    }
}

/// What is read of an answer: a response where it is one, and otherwise why not.
pub proof fn answers_are_read(payload: Seq<u8>)
    ensures
        match json::parsed_json(payload) {
            Ok(value) => {
                &&& protocol::is_response(value) ==> daemon_worker_client::read_answer(payload)
                    == AnswerReading::Response(protocol::response_of(value))
                &&& !protocol::is_response(value) ==> daemon_worker_client::read_answer(payload)
                    is NoResponse
            },
            Err(error) => daemon_worker_client::read_answer(payload) == AnswerReading::Unreadable(
                error,
            ),
        },
{
}

/// A direct message is read where it is a document with a type, in the one encoding that
/// is understood; without an encoding it is taken to be in that one.
pub proof fn direct_messages_are_documents(header: JsonV, payload: Seq<u8>)
    ensures
        daemon_worker_client::direct_message(header, payload) is Ok <==> (header.str_at(
            "payloadEncoding"@,
        ) is None || header.str_at("payloadEncoding"@) == Some("jsonl"@)) && json::parsed_json(
            payload,
        ) is Ok && json::parsed_json(payload)->Ok_0.str_at("type"@) is Some,
        daemon_worker_client::direct_message(header, payload) matches Ok(message)
            ==> json::parsed_json(payload) == Ok::<JsonV, Seq<char>>(message),
{
}

/// A direct connection that ends says at which socket, and why; another one gives the
/// error as it is.
pub proof fn direct_connections_say_where_they_ended(
    path: Seq<char>,
    reason: Option<Seq<char>>,
    cause: ClientErrorV,
)
    ensures
        daemon_worker_client::close_error(false, path, reason, cause) == cause,
        daemon_worker_client::close_error(true, path, reason, cause) matches
            ClientErrorV::SocketClosed(at, why, text) && at == path && why == reason && text == Some(
            protocol::client_error_text(cause),
        ),
{
}

/// A ticket is one for a client of a session, and says at which socket, of which worker
/// and for which session it holds.
pub proof fn tickets_say_what_they_are_for(ticket: DaemonPeerTransportTicket, value: JsonV)
    ensures
        daemon_worker_protocol::is_ticket(value) ==> value.str_at("purpose"@) == Some(
            "session_client"@,
        ) && value.str_at("socketPath"@) is Some && value.str_at("workerInstanceId"@) is Some
            && value.str_at("activeSessionId"@) is Some && value.str_at("grantId"@) is Some
            && value.str_at("token"@) is Some && value.str_at("expiresAt"@) is Some,
        value.str_at("purpose"@) == Some("session_client"@) && value.get("socketIdentity"@) is Some
            && value.get("socketIdentity"@)->0.u64_at("dev"@) is Some && value.get(
            "socketIdentity"@,
        )->0.u64_at("ino"@) is Some && value.str_at("socketPath"@) is Some && value.str_at(
            "workerInstanceId"@,
        ) is Some && value.str_at("activeSessionId"@) is Some && value.str_at("grantId"@) is Some
            && value.str_at("token"@) is Some && value.str_at("expiresAt"@) is Some
            ==> daemon_worker_protocol::is_ticket(value),
        daemon_worker_protocol::ticket_of(ticket, value) ==> {
            &&& Some(ticket.socket_path@) == value.str_at("socketPath"@)
            &&& Some(ticket.worker_instance_id@) == value.str_at("workerInstanceId"@)
            &&& Some(ticket.active_session_id@) == value.str_at("activeSessionId"@)
            &&& Some(ticket.grant_id@) == value.str_at("grantId"@)
            &&& Some(ticket.token@) == value.str_at("token"@)
            &&& Some(ticket.expires_at@) == value.str_at("expiresAt"@)
            &&& Some(ticket.socket_identity.dev) == value.get("socketIdentity"@)->0.u64_at("dev"@)
            &&& Some(ticket.socket_identity.ino) == value.get("socketIdentity"@)->0.u64_at("ino"@)
        },
{
}

/// The members of a command are put one after the other; the last one under a name
/// counts.
pub proof fn the_last_member_counts(
    base: Seq<(Seq<char>, JsonV)>,
    fields: Seq<(Seq<char>, JsonV)>,
    name: Seq<char>,
    value: JsonV,
    other: Seq<char>,
)
    ensures
        json::lookup(daemon_worker_protocol::put_all(base, fields.push((name, value))), name)
            == Some(value),
        other != name ==> json::lookup(
            daemon_worker_protocol::put_all(base, fields.push((name, value))),
            other,
        ) == json::lookup(daemon_worker_protocol::put_all(base, fields), other),
        daemon_worker_protocol::put_all(base, Seq::empty()) == base,
{
    broadcast use json::lookup_put;

    assert(fields.push((name, value)).drop_last() =~= fields);
}

/// A path loses its separators at the end and nothing else.
pub proof fn only_separators_are_trimmed(path: Seq<char>)
    ensures
        ({
            let kept = daemon_worker_protocol::without_trailing_separators(path);
            &&& kept.len() <= path.len()
            &&& kept == path.take(kept.len() as int)
            &&& kept.len() > 0 ==> kept.last() != '/' && kept.last() != '\\'
            &&& forall|i: int|
                kept.len() <= i < path.len() ==> (#[trigger] path[i] == '/' || path[i] == '\\')
        }),
    decreases path.len(),
{
    let kept = daemon_worker_protocol::without_trailing_separators(path);
    if path.len() > 0 && (path.last() == '/' || path.last() == '\\') {
        let fewer = path.drop_last();
        only_separators_are_trimmed(fewer);
        assert(fewer.take(kept.len() as int) =~= path.take(kept.len() as int));
        assert forall|i: int| kept.len() <= i < path.len() implies (#[trigger] path[i] == '/'
            || path[i] == '\\') by {
            if i < fewer.len() {
                assert(fewer[i] == path[i]);
            }
        }
    } else {
        assert(path.take(path.len() as int) =~= path);
    }
}

/// A number is read from its digits as it is written, with or without a sign.
pub proof fn numbers_are_read_from_their_digits(digits: Seq<char>, digit: char)
    requires
        '0' <= digit <= '9',
        daemon_worker_protocol::all_digits(digits),
    ensures
        daemon_worker_protocol::all_digits(digits.push(digit)),
        daemon_worker_protocol::digits_value(digits.push(digit)) == 10
            * daemon_worker_protocol::digits_value(digits) + (digit as nat - 48),
        daemon_worker_protocol::digits_value(Seq::empty()) == 0,
        daemon_worker_protocol::digits_value(digits) <= i32::MAX ==> {
            &&& daemon_worker_protocol::parsed_i32(digits) == Some(
                daemon_worker_protocol::digits_value(digits) as int,
            )
            &&& daemon_worker_protocol::parsed_i32(seq!['+'] + digits) == Some(
                daemon_worker_protocol::digits_value(digits) as int,
            )
            &&& daemon_worker_protocol::parsed_i32(seq!['-'] + digits) == Some(
                -(daemon_worker_protocol::digits_value(digits) as int),
            )
        },
        daemon_worker_protocol::digits_value(digits) > i32::MAX
            ==> daemon_worker_protocol::parsed_i32(digits) is None,
{
    assert(digits.push(digit).drop_last() =~= digits);
    assert(digits[0] != '-' && digits[0] != '+');
    assert((seq!['+'] + digits).drop_first() =~= digits);
    assert((seq!['-'] + digits).drop_first() =~= digits);
}

} // verus!
