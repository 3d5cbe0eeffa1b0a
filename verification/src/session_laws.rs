//! What holds of the sessions of one worker: their frames, their clients and their
//! dialogs.

use vstd::prelude::*;

use crate::active_session_state::{
    ActiveSessionState, DaemonExtensionUIResponse, DaemonSocketClient,
};
use crate::compact_session_stream;
use crate::compact_session_stream::Observation;
use crate::daemon_extension_binding;
use crate::daemon_extension_binding::DialogResponseKind;
use crate::daemon_mode;
use crate::daemon_mode::{
    ConfigV, DaemonOutbound, ModelIdentity, RangeV, StreamingV,
};
use crate::json;
use crate::json::JsonV;
use crate::text;

verus! {

/// A path is made of its directory and its name: the name holds no separator, and put
/// behind the directory it gives the path again. A path without a separator is a name
/// in the current directory.
pub proof fn paths_are_directory_and_name(path: Seq<char>)
    ensures
        ({
            let name = daemon_mode::base_name(path, None);
            let dir = daemon_mode::dir_name(path);
            &&& !name.contains('/')
            &&& !name.contains('\\')
            &&& !path.contains('/') && !path.contains('\\') ==> name == path && dir == "."@
            &&& path.contains('/') || path.contains('\\') ==> {
                let at = path.len() - name.len() - 1;
                &&& at >= 0
                &&& path[at] == '/' || path[at] == '\\'
                &&& path == path.take(at) + seq![path[at]] + name
                &&& at > 0 ==> dir == path.take(at)
                &&& at == 0 ==> dir == "/"@
            }
        }),
{
    last_slashes_are_last(path);
    let at = daemon_mode::last_slash(path);
    let name = daemon_mode::base_name(path, None);
    assert(name =~= path.skip(at + 1));
    assert forall|i: int| 0 <= i < name.len() implies name[i] != '/' && name[i] != '\\' by {
        assert(name[i] == path[at + 1 + i]);
    }
    if at >= 0 {
        assert(path =~= path.take(at) + seq![path[at]] + name);
        assert(path.contains(path[at]));
    } else {
        assert(name =~= path);
        assert forall|i: int| 0 <= i < path.len() implies path[i] != '/' && path[i] != '\\' by {}
    }
}

proof fn last_slashes_are_last(path: Seq<char>)
    ensures
        ({
            let at = daemon_mode::last_slash(path);
            &&& -1 <= at < path.len()
            &&& at >= 0 ==> path[at] == '/' || path[at] == '\\'
            &&& forall|i: int| at < i < path.len() ==> path[i] != '/' && path[i] != '\\'
        }),
    decreases path.len(),
{
    if path.len() > 0 {
        let fewer = path.drop_last();
        last_slashes_are_last(fewer);
        let at = daemon_mode::last_slash(path);
        assert forall|i: int| at < i < path.len() implies path[i] != '/' && path[i] != '\\' by {
            if i < fewer.len() {
                assert(fewer[i] == path[i]);
            }
        }
        if at >= 0 && at < fewer.len() {
            assert(fewer[at] == path[at]);
        }
    }
}

/// Dots become dashes, and nothing else changes.
pub proof fn dots_become_dashes(name: Seq<char>)
    ensures
        daemon_mode::dots_dashed(name).len() == name.len(),
        forall|i: int|
            0 <= i < name.len() ==> (#[trigger] daemon_mode::dots_dashed(name)[i]) == (if name[i]
                == '.' {
                '-'
            } else {
                name[i]
            }),
{
}

/// What is said for one session overrides what is said for all, setting by setting; what
/// is not said for the one stays as it is for all.
pub proof fn settings_are_overridden(base: ConfigV, over: ConfigV)
    ensures
        ({
            let both = daemon_mode::merged(base, over);
            &&& both.cwd == (if over.cwd is Some { over.cwd } else { base.cwd })
            &&& both.agent_dir == (if over.agent_dir is Some { over.agent_dir } else { base.agent_dir })
            &&& both.session_dir == (if over.session_dir is Some {
                over.session_dir
            } else {
                base.session_dir
            })
            &&& both.provider == (if over.provider is Some { over.provider } else { base.provider })
            &&& both.model == (if over.model is Some { over.model } else { base.model })
            &&& both.thinking_level == (if over.thinking_level is Some {
                over.thinking_level
            } else {
                base.thinking_level
            })
            &&& both.telemetry_disabled == (if over.telemetry_disabled is Some {
                over.telemetry_disabled
            } else {
                base.telemetry_disabled
            })
            &&& both.api_key == (if over.api_key is Some { over.api_key } else { base.api_key })
        }),
{
}

/// Of the other settings too the last one said counts, and one that is not said for the
/// session stays.
pub proof fn other_settings_are_overridden(
    base: Seq<(Seq<char>, JsonV)>,
    over: Seq<(Seq<char>, JsonV)>,
    pair: (Seq<char>, JsonV),
    key: Seq<char>,
)
    ensures
        daemon_mode::put_all(base, Seq::empty()) == base,
        json::lookup(daemon_mode::put_all(base, over.push(pair)), pair.0) == Some(pair.1),
        key != pair.0 ==> json::lookup(daemon_mode::put_all(base, over.push(pair)), key)
            == json::lookup(daemon_mode::put_all(base, over), key),
{
    broadcast use json::lookup_put;

    assert(over.push(pair).drop_last() =~= over);
}

proof fn range_names()
    ensures
        text::stamp("version"@) == 111110118007,
        text::stamp("generation"@) == 105110103010,
        text::stamp("representation"@) == 116110114014,
        text::stamp("tipEntryId"@) == 121100116010,
        text::stamp("totalMessageCount"@) == 67116116017,
        text::stamp("startIndex"@) == 100120115010,
        text::stamp("messages"@) == 101115109008,
        text::stamp("entryIds"@) == 100115101008,
        text::stamp("hasOlder"@) == 101114104008,
        text::stamp("order"@) == 101114111005,
{
    reveal_strlit("version");
    reveal_strlit("generation");
    reveal_strlit("representation");
    reveal_strlit("tipEntryId");
    reveal_strlit("totalMessageCount");
    reveal_strlit("startIndex");
    reveal_strlit("messages");
    reveal_strlit("entryIds");
    reveal_strlit("hasOlder");
    reveal_strlit("order");
}

/// A part of a history is sent with all that it is.
pub proof fn parts_are_sent_whole(range: RangeV)
    ensures
        ({
            let value = daemon_mode::range_value(range);
            &&& value.get("version"@) == Some(json::int_value(range.version as int))
            &&& value.str_at("generation"@) == Some(range.generation)
            &&& value.str_at("representation"@) == Some(range.representation)
            &&& value.str_at("tipEntryId"@) == range.tip_entry_id
            &&& value.get("totalMessageCount"@) == Some(
                json::int_value(range.total_message_count as int),
            )
            &&& value.get("startIndex"@) == Some(json::int_value(range.start_index as int))
            &&& value.get("messages"@) == Some(JsonV::Arr(range.messages))
            &&& value.get("entryIds"@) == Some(
                JsonV::Arr(Seq::new(range.entry_ids.len(), |i: int| JsonV::Str(range.entry_ids[i]))),
            )
            &&& value.bool_at("hasOlder"@) == Some(range.has_older)
            &&& value.str_at("order"@) == Some(range.order)
        }),
{
    broadcast use {json::lookup_push, json::lookup_empty};

    range_names();
    assert(daemon_mode::text_values(range.entry_ids) =~= Seq::new(
        range.entry_ids.len(),
        |i: int| JsonV::Str(range.entry_ids[i]),
    ));
}

/// Slashes at the end of a text do not count, and all else does.
pub proof fn trailing_slashes_do_not_count(address: Seq<char>)
    ensures
        ({
            let bare = daemon_mode::without_slashes(address);
            &&& bare.len() <= address.len()
            &&& bare == address.take(bare.len() as int)
            &&& bare.len() == 0 || bare.last() != '/'
            &&& forall|i: int| bare.len() <= i < address.len() ==> address[i] == '/'
        }),
    decreases address.len(),
{
    if address.len() > 0 && address.last() == '/' {
        let fewer = address.drop_last();
        trailing_slashes_do_not_count(fewer);
        let bare = daemon_mode::without_slashes(fewer);
        assert(fewer.take(bare.len() as int) =~= address.take(bare.len() as int));
        assert forall|i: int| bare.len() <= i < address.len() implies address[i] == '/' by {
            if i < fewer.len() {
                assert(fewer[i] == address[i]);
            }
        }
    } else {
        assert(address.take(address.len() as int) =~= address);
    }
}

/// How a history is shown depends on the model's provider, its id, its interface and its
/// address, and on nothing else; a session without a model has a representation of its
/// own.
pub proof fn models_have_an_identity(model: ModelIdentity)
    ensures
        ({
            let parts = daemon_mode::identity_value(Some(model))->Arr_0;
            let none = daemon_mode::identity_value(None)->Arr_0;
            &&& daemon_mode::identity_value(Some(model)) is Arr
            &&& parts.len() == 4
            &&& parts[0] == JsonV::Str(model.provider@)
            &&& parts[1] == JsonV::Str(model.id@)
            &&& parts[2] == JsonV::Str(model.api@)
            &&& parts[3] == JsonV::Str(daemon_mode::without_slashes(model.base_url@))
            &&& daemon_mode::identity_value(None) is Arr
            &&& none.len() == 4
            &&& forall|i: int| 0 <= i < 4 ==> none[i] == JsonV::Null
        }),
{
}

proof fn frame_names()
    ensures
        text::stamp("session_event"@) == 118116115013,
        text::stamp("session_status"@) == 97115115014,
        text::stamp("session_replaced"@) == 97100115016,
        text::stamp("session_resynced"@) == 110100115016,
        text::stamp("session_closed"@) == 111100115014,
        text::stamp("extension_ui_request"@) == 113116101020,
        text::stamp("extension_error"@) == 114114101015,
        text::stamp("session_start"@) == 116116115013,
        text::stamp("session_attached"@) == 99100115016,
        text::stamp("session_detached"@) == 99100115016,
        text::stamp("session_snapshot_begin"@) == 95110115022,
        text::stamp("session_snapshot_chunk"@) == 95107115022,
        text::stamp("session_snapshot_end"@) == 116100115020,
        text::stamp("session_snapshot_failed"@) == 102100115023,
        text::stamp("heartbeats_changed"@) == 97100104018,
        text::stamp("roster_delta"@) == 108097114012,
        text::stamp("roster_heartbeat"@) == 98116114016,
        text::stamp("daemon_closing"@) == 115103100014,
        "session_attached"@[8] == 'a',
        "session_detached"@[8] == 'd',
{
    reveal_strlit("session_event");
    reveal_strlit("session_status");
    reveal_strlit("session_replaced");
    reveal_strlit("session_resynced");
    reveal_strlit("session_closed");
    reveal_strlit("extension_ui_request");
    reveal_strlit("extension_error");
    reveal_strlit("session_start");
    reveal_strlit("session_attached");
    reveal_strlit("session_detached");
    reveal_strlit("session_snapshot_begin");
    reveal_strlit("session_snapshot_chunk");
    reveal_strlit("session_snapshot_end");
    reveal_strlit("session_snapshot_failed");
    reveal_strlit("heartbeats_changed");
    reveal_strlit("roster_delta");
    reveal_strlit("roster_heartbeat");
    reveal_strlit("daemon_closing");
}

proof fn frame_members()
    ensures
        text::stamp("type"@) == 101101116004,
        text::stamp("activeSessionId"@) == 111100097015,
        text::stamp("event"@) == 110116101005,
        text::stamp("state"@) == 116101115005,
        text::stamp("messages"@) == 101115109008,
        text::stamp("reason"@) == 111110114006,
{
    reveal_strlit("type");
    reveal_strlit("activeSessionId");
    reveal_strlit("event");
    reveal_strlit("state");
    reveal_strlit("messages");
    reveal_strlit("reason");
}

/// What a client missed can be told for what happened in a session, and for nothing
/// else: just those frames are numbered.
pub proof fn session_frames_are_numbered(message: DaemonOutbound)
    requires
        message !is Raw,
    ensures
        daemon_mode::is_sequenced(daemon_mode::frame_type(message)) <==> message is SessionEvent
            || message is SessionStatus || message is SessionReplaced || message is SessionResynced
            || message is SessionClosed || message is ExtensionUiRequest || message
            is ExtensionError,
{
    frame_names();
}

/// The frames of a session are told apart by their types, which no other frame has.
pub proof fn frames_are_told_apart(message: DaemonOutbound)
    requires
        message !is Raw,
    ensures
        daemon_mode::frame_type(message) == "session_event"@ <==> message is SessionEvent,
        daemon_mode::frame_type(message) == "session_status"@ <==> message is SessionStatus,
        daemon_mode::frame_type(message) == "session_replaced"@ <==> message is SessionReplaced,
        daemon_mode::frame_type(message) == "session_resynced"@ <==> message is SessionResynced,
        daemon_mode::frame_type(message) == "session_closed"@ <==> message is SessionClosed,
        daemon_mode::frame_type(message) == "extension_ui_request"@ <==> message
            is ExtensionUiRequest,
        daemon_mode::frame_type(message) == "extension_error"@ <==> message is ExtensionError,
        daemon_mode::frame_type(message) == "session_start"@ <==> message is SessionStart,
        daemon_mode::frame_type(message) == "session_attached"@ <==> message is SessionAttached,
        daemon_mode::frame_type(message) == "session_detached"@ <==> message is SessionDetached,
        daemon_mode::frame_type(message) == "session_snapshot_begin"@ <==> message
            is SessionSnapshotBegin,
        daemon_mode::frame_type(message) == "session_snapshot_chunk"@ <==> message
            is SessionSnapshotChunk,
        daemon_mode::frame_type(message) == "session_snapshot_end"@ <==> message
            is SessionSnapshotEnd,
        daemon_mode::frame_type(message) == "session_snapshot_failed"@ <==> message
            is SessionSnapshotFailed,
        daemon_mode::frame_type(message) == "heartbeats_changed"@ <==> message
            is HeartbeatsChanged,
        daemon_mode::frame_type(message) == "roster_delta"@ <==> message is RosterDelta,
        daemon_mode::frame_type(message) == "roster_heartbeat"@ <==> message is RosterHeartbeat,
        daemon_mode::frame_type(message) == "daemon_closing"@ <==> message is DaemonClosing,
{
    frame_names();
}

/// A supervisor that sees a session replaced, resynced or closed forgets its message.
pub proof fn closing_frames_end_the_message(message: DaemonOutbound)
    ensures
        (message matches DaemonOutbound::SessionReplaced { active_session_id, .. }
            ==> compact_session_stream::observation(daemon_mode::frame_value(message))
            == Observation::Clear(active_session_id@)),
        (message matches DaemonOutbound::SessionResynced { active_session_id, .. }
            ==> compact_session_stream::observation(daemon_mode::frame_value(message))
            == Observation::Clear(active_session_id@)),
        (message matches DaemonOutbound::SessionClosed { active_session_id, .. }
            ==> compact_session_stream::observation(daemon_mode::frame_value(message))
            == Observation::Clear(active_session_id@)),
{
    broadcast use {json::lookup_push, json::lookup_empty};

    frame_names();
    frame_members();
    compact_session_stream::messages_begin_and_end(daemon_mode::frame_value(message));
    daemon_mode::frames_say_what_they_are(message);
}

/// The event of a session, the state and the messages of one that is replaced, and the
/// reason why one was closed arrive in their frames.
pub proof fn frames_carry_what_they_are_for(message: DaemonOutbound)
    ensures
        ({
            let value = daemon_mode::frame_value(message);
            &&& (message matches DaemonOutbound::SessionEvent { event, .. } ==> value.get("event"@)
                == Some(event@))
            &&& (message matches DaemonOutbound::SessionReplaced { state, messages, .. }
                ==> value.get("state"@) == Some(state@) && value.get("messages"@) == Some(
                JsonV::Arr(json::items(messages@)),
            ))
            &&& (message matches DaemonOutbound::SessionResynced { state, messages, .. }
                ==> value.get("state"@) == Some(state@) && value.get("messages"@) == Some(
                JsonV::Arr(json::items(messages@)),
            ))
            &&& (message matches DaemonOutbound::SessionClosed { reason, .. } ==> value.str_at(
                "reason"@,
            ) == Some(reason@))
            &&& (message matches DaemonOutbound::DaemonClosing { reason } ==> value.str_at(
                "reason"@,
            ) == Some(reason@))
            &&& (message matches DaemonOutbound::RosterDelta { payload } ==> value == payload@)
            &&& (message matches DaemonOutbound::Raw(raw) ==> value == raw@)
        }),
{
    broadcast use {json::lookup_push, json::lookup_empty};

    frame_members();
}

proof fn request_members()
    ensures
        text::stamp("type"@) == 101101116004,
        text::stamp("activeSessionId"@) == 111100097015,
        text::stamp("id"@) == 100100105002,
        text::stamp("method"@) == 111100109006,
        text::stamp("payload"@) == 97100112007,
        text::stamp("clientId"@) == 73100099008,
{
    reveal_strlit("type");
    reveal_strlit("activeSessionId");
    reveal_strlit("id");
    reveal_strlit("method");
    reveal_strlit("payload");
    reveal_strlit("clientId");
}

/// A request of an extension arrives with its id, its method and its payload, and who
/// was attached or detached is named.
pub proof fn requests_arrive_in_their_frames(message: DaemonOutbound)
    ensures
        ({
            let value = daemon_mode::frame_value(message);
            &&& (message matches DaemonOutbound::ExtensionUiRequest { id, method, payload, .. }
                ==> value.str_at("id"@) == Some(id@) && value.str_at("method"@) == Some(method@)
                && value.get("payload"@) == Some(payload@))
            &&& (message matches DaemonOutbound::SessionAttached { client_id, .. }
                ==> value.str_at("clientId"@) == Some(client_id@))
            &&& (message matches DaemonOutbound::SessionDetached { client_id, .. }
                ==> value.str_at("clientId"@) == Some(client_id@))
        }),
{
    broadcast use {json::lookup_push, json::lookup_empty};

    request_members();
}

proof fn snapshot_members()
    ensures
        text::stamp("type"@) == 101101116004,
        text::stamp("activeSessionId"@) == 111100097015,
        text::stamp("snapshotId"@) == 116100115010,
        text::stamp("messageCount"@) == 117116109012,
        text::stamp("targetChunkBytes"@) == 121115116016,
        text::stamp("transferId"@) == 114100116010,
        text::stamp("index"@) == 101120105005,
        text::stamp("messages"@) == 101115109008,
        text::stamp("chunkCount"@) == 117116099010,
        text::stamp("bytes"@) == 101115098005,
        text::stamp("lastEventSequence"@) == 117101108017,
        text::stamp("lastEventCursor"@) == 114114108015,
        text::stamp("error"@) == 111114101005,
{
    reveal_strlit("type");
    reveal_strlit("activeSessionId");
    reveal_strlit("snapshotId");
    reveal_strlit("messageCount");
    reveal_strlit("targetChunkBytes");
    reveal_strlit("transferId");
    reveal_strlit("index");
    reveal_strlit("messages");
    reveal_strlit("chunkCount");
    reveal_strlit("bytes");
    reveal_strlit("lastEventSequence");
    reveal_strlit("lastEventCursor");
    reveal_strlit("error");
}

/// The frames of a snapshot name the snapshot, and say how many messages and chunks
/// there are, which chunk this is and what is in it, and why a snapshot failed.
pub proof fn snapshots_arrive_in_their_frames(message: DaemonOutbound)
    ensures
        ({
            let value = daemon_mode::frame_value(message);
            &&& (message matches DaemonOutbound::SessionSnapshotBegin {
                snapshot_id,
                message_count,
                transfer_id,
                ..
            } ==> value.str_at("snapshotId"@) == Some(snapshot_id@) && value.get("messageCount"@)
                == Some(daemon_mode::sent_count(message_count as u64)) && value.str_at(
                "transferId"@,
            ) == json::opt_view(transfer_id))
            &&& (message matches DaemonOutbound::SessionSnapshotChunk {
                snapshot_id,
                index,
                messages,
                ..
            } ==> value.str_at("snapshotId"@) == Some(snapshot_id@) && value.get("index"@) == Some(
                daemon_mode::sent_count(index as u64),
            ) && value.get("messages"@) == Some(JsonV::Arr(json::items(messages@))))
            &&& (message matches DaemonOutbound::SessionSnapshotEnd {
                snapshot_id,
                chunk_count,
                bytes,
                last_event_cursor,
                transfer_id,
                ..
            } ==> value.str_at("snapshotId"@) == Some(snapshot_id@) && value.get("chunkCount"@)
                == Some(daemon_mode::sent_count(chunk_count as u64)) && value.get("bytes"@) == Some(
                daemon_mode::sent_count(bytes as u64),
            ) && value.get("lastEventCursor"@) == json::opt_json(last_event_cursor)
                && value.str_at("transferId"@) == json::opt_view(transfer_id))
            &&& (message matches DaemonOutbound::SessionSnapshotFailed { snapshot_id, error, .. }
                ==> value.str_at("snapshotId"@) == Some(snapshot_id@) && value.str_at("error"@)
                == Some(error@))
        }),
{
    broadcast use {json::lookup_push, json::lookup_empty};

    snapshot_members();
}

/// A transfer is named after its session, its generation and its place among the events,
/// and after what is sent: everything, or a part of the history by its representation,
/// its tip and its start.
pub proof fn transfers_are_named_after_what_they_send(
    snapshot: JsonV,
    sequence: Seq<char>,
    start: Seq<char>,
)
    ensures
        ({
            let session = json::text_or_empty(snapshot, "activeSessionId"@);
            let generation = match snapshot.get("lastEventCursor"@) {
                Some(cursor) => json::text_or_empty(cursor, "generation"@),
                None => Seq::empty(),
            };
            let head = session + "-"@ + generation + "-"@;
            let name = daemon_mode::transfer_id(snapshot, sequence, start);
            &&& json::present(snapshot, "history"@) is None ==> name == head + (sequence + "-"@
                + "full"@)
            &&& json::present(snapshot, "history"@) matches Some(history) ==> name == head + (
            sequence + "-"@ + ("history-"@ + json::text_or_empty(history, "representation"@) + "-"@
                + (match history.str_at("tipEntryId"@) {
                Some(tip) => tip,
                None => "empty"@,
            }) + ("-"@ + start)))
        }),
{
}

/// A snapshot that is being sent is counted with its session, and is not aborted.
pub proof fn marked_snapshots_are_counted(v: StreamingV, id: Seq<char>, other: Seq<char>)
    requires
        v.counts.contains_key(id) ==> v.counts[id] < u32::MAX,
    ensures
        ({
            let after = daemon_mode::marked(v, id);
            &&& after.streaming == Some(true)
            &&& after.sessions.contains_key(id)
            &&& after.counts.contains_key(id)
            &&& after.counts[id] == (if v.counts.contains_key(id) { v.counts[id] as int } else { 0 }) + 1
            &&& after.aborted.contains_key(id) && !after.aborted[id]
            &&& other != id ==> (after.sessions.contains_key(other) <==> v.sessions.contains_key(
                other,
            )) && (v.counts.contains_key(other) ==> after.counts[other] == v.counts[other]) && (
            v.aborted.contains_key(other) ==> after.aborted[other] == v.aborted[other])
            &&& after.backpressured == v.backpressured
            &&& after.tails == v.tails
        }),
{
}

/// When the last snapshot of a session is finished nothing of it is left, and when the
/// last one of all is finished nothing is streamed and nobody is held back any more.
pub proof fn last_snapshots_leave_nothing(v: StreamingV, id: Seq<char>, other: Seq<char>)
    ensures
        ({
            let after = daemon_mode::finished(v, id);
            let last = !v.counts.contains_key(id) || v.counts[id] <= 1;
            &&& last ==> !after.sessions.contains_key(id) && !after.counts.contains_key(id)
                && !after.aborted.contains_key(id) && !after.tails.contains_key(id)
            &&& !last ==> after.counts[id] == v.counts[id] - 1 && after.sessions == v.sessions
                && after.aborted == v.aborted && after.tails == v.tails
            &&& other != id && v.sessions.contains_key(other) ==> after.sessions.contains_key(other)
            &&& other != id && v.aborted.contains_key(other) ==> after.aborted.contains_key(other)
                && after.aborted[other] == v.aborted[other]
            &&& after.streaming == Some(after.sessions != Map::<Seq<char>, ()>::empty())
            &&& after.streaming == Some(false) ==> after.backpressured == Some(false)
            &&& after.streaming == Some(true) ==> after.backpressured == v.backpressured
        }),
{
}

/// What is aborted is the transfer that is named, or every one; no transfer comes into
/// being by it, and none is forgotten.
pub proof fn transfers_are_aborted(
    transfers: Map<Seq<char>, bool>,
    id: Option<Seq<char>>,
    other: Seq<char>,
)
    ensures
        ({
            let after = daemon_mode::aborted(transfers, id);
            &&& after.contains_key(other) <==> transfers.contains_key(other)
            &&& transfers.contains_key(other) && (id is None || id == Some(other)) ==> after[other]
            &&& transfers.contains_key(other) && id is Some && id != Some(other) ==> after[other]
                == transfers[other]
        }),
{
}

/// What a client can do with a session is what it said for that session, else what it
/// said for all.
pub proof fn sessions_have_their_own_capabilities(client: DaemonSocketClient, id: Seq<char>)
    ensures
        client.capabilities_by_active_session_id is None ==> daemon_mode::session_capabilities(
            client,
            id,
        ) == client.capabilities && daemon_mode::shows_dialogs(client, id)
            == client.supports_extension_ui,
        (client.capabilities_by_active_session_id matches Some(own) ==> (if own@.contains_key(id) {
            daemon_mode::session_capabilities(client, id) == own@[id] && (
            daemon_mode::shows_dialogs(client, id) <==> own@[id]@.contains_key("extension_ui"@))
        } else {
            daemon_mode::session_capabilities(client, id) == client.capabilities
                && daemon_mode::shows_dialogs(client, id) == client.supports_extension_ui
        })),
{
}

/// Who leaves is gone, and nobody else: the others stay in their order.
pub proof fn only_one_client_leaves(ids: Seq<Seq<char>>, id: Seq<char>)
    ensures
        !daemon_mode::others(ids, id).contains(id),
        forall|other: Seq<char>|
            other != id ==> (daemon_mode::others(ids, id).contains(other) <==> #[trigger]
                ids.contains(other)),
        daemon_mode::others(ids, id) == ids.filter(|other: Seq<char>| other != id),
    decreases ids.len(),
{
    reveal(Seq::filter);
    let keep = |other: Seq<char>| other != id;
    if ids.len() > 0 {
        let fewer = ids.drop_last();
        let rest = daemon_mode::others(fewer, id);
        let all = daemon_mode::others(ids, id);
        only_one_client_leaves(fewer, id);
        assert forall|other: Seq<char>| other != id implies (all.contains(other) <==> #[trigger]
            ids.contains(other)) by {
            if ids.contains(other) {
                let i = choose|i: int| 0 <= i < ids.len() && ids[i] == other;
                if i < fewer.len() {
                    assert(fewer[i] == other);
                    assert(fewer.contains(other));
                    let j = choose|j: int| 0 <= j < rest.len() && rest[j] == other;
                    assert(all[j] == other);
                } else {
                    assert(all[rest.len() as int] == other);
                }
            }
            if all.contains(other) {
                let j = choose|j: int| 0 <= j < all.len() && all[j] == other;
                if j < rest.len() {
                    assert(rest[j] == other);
                    assert(rest.contains(other));
                    assert(fewer.contains(other));
                    let i = choose|i: int| 0 <= i < fewer.len() && fewer[i] == other;
                    assert(ids[i] == other);
                } else {
                    assert(ids[ids.len() - 1] == other);
                }
            }
        }
        if all.contains(id) {
            let j = choose|j: int| 0 <= j < all.len() && all[j] == id;
            if j < rest.len() {
                assert(rest[j] == id);
                assert(rest.contains(id));
            }
        }
    }
}

/// The children of a session are the sessions that name it as their parent, and only
/// those; no session is its own child.
pub proof fn children_name_their_parent(
    sessions: Seq<(String, ActiveSessionState)>,
    parent: Seq<char>,
)
    ensures
        ({
            let children = daemon_mode::children_of(sessions, parent);
            &&& forall|k: int|
                0 <= k < children.len() ==> {
                    let child = #[trigger] children[k];
                    &&& child.active_session_id@ != parent
                    &&& child.runtime.metadata is Some
                    &&& child.runtime.metadata->0.parent_active_session_id is Some
                    &&& child.runtime.metadata->0.parent_active_session_id->0@ == parent
                }
            &&& forall|i: int|
                0 <= i < sessions.len() && (#[trigger] sessions[i]).1.active_session_id@ != parent
                    && sessions[i].1.runtime.metadata is Some
                    && sessions[i].1.runtime.metadata->0.parent_active_session_id is Some
                    && sessions[i].1.runtime.metadata->0.parent_active_session_id->0@ == parent
                    ==> children.contains(sessions[i].1)
        }),
    decreases sessions.len(),
{
    if sessions.len() > 0 {
        let fewer = sessions.drop_last();
        children_name_their_parent(fewer, parent);
        let rest = daemon_mode::children_of(fewer, parent);
        let all = daemon_mode::children_of(sessions, parent);
        assert forall|k: int| 0 <= k < all.len() implies daemon_mode::is_child_of(
            #[trigger] all[k],
            parent,
        ) by {
            if k < rest.len() {
                assert(all[k] == rest[k]);
            }
        }
        assert forall|i: int|
            0 <= i < sessions.len() && (#[trigger] sessions[i]).1.active_session_id@ != parent
                && sessions[i].1.runtime.metadata is Some
                && sessions[i].1.runtime.metadata->0.parent_active_session_id is Some
                && sessions[i].1.runtime.metadata->0.parent_active_session_id->0@
                == parent implies all.contains(sessions[i].1) by {
            if i < fewer.len() {
                assert(fewer[i] == sessions[i]);
                let j = choose|j: int| 0 <= j < rest.len() && rest[j] == sessions[i].1;
                assert(all[j] == sessions[i].1);
            } else {
                assert(daemon_mode::is_child_of(sessions[i].1, parent));
                assert(all[rest.len() as int] == sessions[i].1);
            }
        }
    }
}

proof fn dialog_names()
    ensures
        text::stamp("select"@) == 99116115006,
        text::stamp("confirm"@) == 114109099007,
        text::stamp("input"@) == 117116105005,
        text::stamp("editor"@) == 111114101006,
        text::stamp("notify"@) == 102121110006,
{
    reveal_strlit("select");
    reveal_strlit("confirm");
    reveal_strlit("input");
    reveal_strlit("editor");
    reveal_strlit("notify");
}

/// Four requests wait for an answer: to select, to confirm, to put in and to edit. They
/// need a client that shows dialogs; any other request needs a client.
pub proof fn dialogs_need_somebody_to_answer(clients: Seq<bool>, method: Seq<char>)
    ensures
        ({
            let dialog = method == "select"@ || method == "confirm"@ || method == "input"@ || method
                == "editor"@;
            &&& daemon_extension_binding::is_dialog(method) <==> dialog
            &&& dialog ==> (daemon_extension_binding::can_take(clients, method)
                <==> clients.contains(true))
            &&& !dialog ==> (daemon_extension_binding::can_take(clients, method)
                <==> clients.len() > 0)
        }),
{
}

/// An answer counts where it is of the kind that was asked for; a wrong one, or one that
/// says that the dialog was given up, is no value and no confirmation. Without an answer
/// what was to be taken otherwise is taken.
pub proof fn answers_count_by_their_kind(
    response: Option<DaemonExtensionUIResponse>,
    fallback: Option<String>,
    confirmed_fallback: bool,
    kind: DialogResponseKind,
)
    ensures
        ({
            let outcome = daemon_extension_binding::dialog_outcome(
                response,
                fallback,
                confirmed_fallback,
                kind,
            );
            &&& kind == DialogResponseKind::Value ==> !outcome.1 && match response {
                Some(DaemonExtensionUIResponse::Value(value)) => outcome.0 == Some(value),
                Some(_) => outcome.0 is None,
                None => outcome.0 == fallback,
            }
            &&& kind == DialogResponseKind::Confirmed ==> outcome.0 is None && match response {
                Some(DaemonExtensionUIResponse::Confirmed(confirmed)) => outcome.1 == confirmed,
                Some(_) => !outcome.1,
                None => outcome.1 == confirmed_fallback,
            }
        }),
{
}

/// An event is slimmed by what the receiver has already: the message so far inside an
/// update. Nothing else of it changes, and no other event does.
pub proof fn events_lose_only_the_message_so_far(event: JsonV, key: Seq<char>)
    ensures
        ({
            let slim = daemon_extension_binding::slim_event(event);
            let update = event.str_at("type"@) == Some("message_update"@) && (event.get(
                "assistantMessageEvent"@,
            ) matches Some(JsonV::Obj(_)));
            &&& !update ==> slim == event
            &&& update && key != "assistantMessageEvent"@ ==> slim.get(key) == event.get(key)
            &&& update ==> slim.get("assistantMessageEvent"@) == Some(
                JsonV::Obj(
                    json::without(event.get("assistantMessageEvent"@)->0->Obj_0, "partial"@),
                ),
            )
        }),
{
    broadcast use json::lookup_put;

}

} // verus!
