//! Messages between agents of different workers, which the supervisor passes on.

use vstd::prelude::*;

use crate::daemon_errors;
use crate::daemon_errors::daemon_error_from_response;
use crate::json;
use crate::json::{Json, JsonV};
use crate::protocol;
use crate::protocol::{DaemonCommand, DaemonResponse};
use crate::text::{cat2, same};

verus! {

/// How long to wait for a connection and for the greeting, in milliseconds.
pub const MESSAGE_CONNECT_TIMEOUT_MS: u64 = 1000;

/// How long to wait for a list of peers, in milliseconds.
pub const LIST_PEERS_TIMEOUT_MS: u64 = 5000;

/// How long to try to reach the supervisor, in milliseconds.
pub const SEND_MESSAGE_DEADLINE_MS: u64 = 30000;

/// How long to wait for the answer to a message, in milliseconds.
pub const SEND_MESSAGE_TIMEOUT_MS: u64 = 30000;

/// How long to wait between two tries to connect, in milliseconds.
pub const SEND_MESSAGE_RETRY_MS: u64 = 250;

/// The message was handed over.
pub const DELIVERY_STATUS_DELIVERED: &'static str = "delivered";

/// The message waits until the other agent can take it.
pub const DELIVERY_STATUS_QUEUED: &'static str = "queued";

/// An agent that messages can be sent to.
#[derive(Debug, PartialEq)]
pub struct AgentSessionMessageAgentSummary {
    pub active_session_id: String,
    pub session_id: String,
    pub cwd: String,
    pub is_streaming: bool,
    pub unfinished_action_count: i64,
    /// Everything that was said of the agent.
    pub document: Json,
}

/// The document tells of an agent.
pub open spec fn is_peer(value: JsonV) -> bool {
    &&& value.str_at("activeSessionId"@) is Some
    &&& value.str_at("sessionId"@) is Some
    &&& value.str_at("cwd"@) is Some
    &&& value.bool_at("isStreaming"@) is Some
    &&& value.i64_at("unfinishedActionCount"@) is Some
}

/// The agent is what a document tells of.
pub open spec fn peer_is(peer: AgentSessionMessageAgentSummary, value: JsonV) -> bool {
    &&& value.str_at("activeSessionId"@) == Some(peer.active_session_id@)
    &&& value.str_at("sessionId"@) == Some(peer.session_id@)
    &&& value.str_at("cwd"@) == Some(peer.cwd@)
    &&& value.bool_at("isStreaming"@) == Some(peer.is_streaming)
    &&& value.i64_at("unfinishedActionCount"@) == Some(peer.unfinished_action_count)
    &&& peer.document@ == value
}

fn read_peer(value: &Json) -> (r: Option<AgentSessionMessageAgentSummary>)
    ensures
        match r {
            Some(peer) => is_peer(value@) && peer_is(peer, value@),
            None => !is_peer(value@),
        },
{
    let is_streaming: bool = match value.bool_at("isStreaming") {
        Some(streaming) => streaming,
        None => return None,
    };
    let unfinished_action_count: i64 = match value.i64_at("unfinishedActionCount") {
        Some(count) => count,
        None => return None,
    };
    match (value.str_at("activeSessionId"), value.str_at("sessionId"), value.str_at("cwd")) {
        (Some(active_session_id), Some(session_id), Some(cwd)) => Some(
            AgentSessionMessageAgentSummary {
                active_session_id: active_session_id.to_owned(),
                session_id: session_id.to_owned(),
                cwd: cwd.to_owned(),
                is_streaming,
                unfinished_action_count,
                document: value.clone(),
            },
        ),
        _ => None,
    }
}

/// The fields of the command that asks for the agents.
pub open spec fn peers_fields(worker_token: Seq<char>) -> Seq<(Seq<char>, JsonV)> {
    json::put(Seq::empty(), "workerToken"@, JsonV::Str(worker_token))
}

/// The command that asks which agents messages can be sent to.
pub fn list_peers(worker_token: &str) -> (r: DaemonCommand)
    ensures
        r.id is None,
        r.type_@ == "list_agent_peers"@,
        json::members(r.body@) == peers_fields(worker_token@),
{
    let mut command = DaemonCommand::new("list_agent_peers");
    command.set_text("workerToken", worker_token);
    command
}

/// The agents that a response lists: all of them, or none where the response
/// failed or one of them cannot be read.
pub open spec fn listed_peers(response: protocol::ResponseV) -> Seq<JsonV> {
    if response.success {
        match response.data {
            Some(data) => match data.get("peers"@) {
                Some(JsonV::Arr(values)) => if forall|i: int|
                    0 <= i < values.len() ==> is_peer(#[trigger] values[i]) {
                    values
                } else {
                    Seq::empty()
                },
                _ => Seq::empty(),
            },
            None => Seq::empty(),
        }
    } else {
        Seq::empty()
    }
}

/// The agents that a response lists. To find agents is optional: a supervisor that
/// is too old, or not there, is as good as one that lists none.
pub fn peers_from_response(answer: Option<&DaemonResponse>) -> (r: Vec<
    AgentSessionMessageAgentSummary,
>)
    ensures
        match answer {
            Some(response) => r@.len() == listed_peers(response@).len() && forall|i: int|
                0 <= i < r@.len() ==> peer_is(#[trigger] r@[i], listed_peers(response@)[i]),
            None => r@.len() == 0,
        },
{
    broadcast use {json::object_view, json::array_view};

    let response = match answer {
        Some(response) => response,
        None => return Vec::new(),
    };
    if !response.success {
        return Vec::new();
    }
    let list = match &response.data {
        Some(data) => match data.get("peers") {
            Some(Json::Array(values)) => values,
            _ => return Vec::new(),
        },
        None => return Vec::new(),
    };
    let ghost all = json::items(list@);
    let mut peers: Vec<AgentSessionMessageAgentSummary> = Vec::new();
    let mut i: usize = 0;
    while i < list.len()
        invariant
            i <= list.len(),
            all == json::items(list@),
            answer == Some(response),
            response.success,
            response@.data is Some,
            response@.data->0.get("peers"@) == Some(JsonV::Arr(all)),
            peers@.len() == i,
            forall|j: int|
                0 <= j < i ==> peer_is(#[trigger] peers@[j], all[j]) && is_peer(all[j]),
        decreases list.len() - i,
    {
        assert(all[i as int] == list@[i as int]@);
        match read_peer(&list[i]) {
            Some(peer) => {
                let ghost here = peer;
                peers.push(peer);
                assert(peers@[i as int] == here);
            },
            None => {
                assert(!is_peer(all[i as int]));
                assert(listed_peers(response@) =~= Seq::<JsonV>::empty());
                return Vec::new();
            },
        }
        i += 1;
    }
    assert forall|j: int| 0 <= j < all.len() implies is_peer(#[trigger] all[j]) by {
        assert(peer_is(peers@[j], all[j]));
    }
    peers
}

/// What the supervisor said of a message that it took.
#[derive(Debug, PartialEq)]
pub struct AgentSessionMessageReceipt {
    pub id: String,
    pub source: String,
    pub message: String,
    pub target: Json,
    pub from: Option<Json>,
    pub delivery_status: String,
}

/// What a receipt says.
pub struct ReceiptV {
    pub id: Seq<char>,
    pub source: Seq<char>,
    pub message: Seq<char>,
    pub target: JsonV,
    pub from: Option<JsonV>,
    pub delivery_status: Seq<char>,
}

impl View for AgentSessionMessageReceipt {
    type V = ReceiptV;

    open spec fn view(&self) -> ReceiptV {
        ReceiptV {
            id: self.id@,
            source: self.source@,
            message: self.message@,
            target: self.target@,
            from: json::opt_json(self.from),
            delivery_status: self.delivery_status@,
        }
    }
}

/// A message with this status was taken.
pub open spec fn is_taken(status: Seq<char>) -> bool {
    status == DELIVERY_STATUS_DELIVERED@ || status == DELIVERY_STATUS_QUEUED@
}

/// The document is a receipt.
pub open spec fn is_receipt(value: JsonV) -> bool {
    &&& value.str_at("id"@) is Some
    &&& value.str_at("source"@) is Some
    &&& value.str_at("message"@) is Some
    &&& value.get("target"@) is Some
    &&& value.str_at("deliveryStatus"@) is Some
}

/// The receipt in a document.
pub open spec fn receipt_of(value: JsonV) -> ReceiptV {
    ReceiptV {
        id: value.str_at("id"@)->0,
        source: value.str_at("source"@)->0,
        message: value.str_at("message"@)->0,
        target: value.get("target"@)->0,
        from: json::present(value, "from"@),
        delivery_status: value.str_at("deliveryStatus"@)->0,
    }
}

fn read_receipt(value: &Json) -> (r: Option<AgentSessionMessageReceipt>)
    ensures
        match r {
            Some(receipt) => is_receipt(value@) && receipt@ == receipt_of(value@),
            None => !is_receipt(value@),
        },
{
    let target = match value.get("target") {
        Some(target) => target.clone(),
        None => return None,
    };
    let delivery_status = match value.str_at("deliveryStatus") {
        Some(status) => status.to_owned(),
        None => return None,
    };
    match (value.str_at("id"), value.str_at("source"), value.str_at("message")) {
        (Some(id), Some(source), Some(message)) => Some(
            AgentSessionMessageReceipt {
                id: id.to_owned(),
                source: source.to_owned(),
                message: message.to_owned(),
                target,
                from: json::present_copy(value, "from"),
                delivery_status,
            },
        ),
        _ => None,
    }
}

/// What became of a message: a receipt for a message that was taken, or why there
/// is none.
pub open spec fn delivery(
    response: Result<protocol::ResponseV, Seq<char>>,
    wording: Seq<char>,
) -> Result<ReceiptV, Seq<char>> {
    match response {
        Err(error) => Err(error),
        Ok(response) => if !response.success {
            Err(daemon_errors::failure_text(response, wording))
        } else {
            let data = match response.data {
                Some(data) => data,
                None => JsonV::Null,
            };
            if is_receipt(data) && is_taken(receipt_of(data).delivery_status) {
                Ok(receipt_of(data))
            } else {
                Err("Supervisor returned an invalid agent-message receipt"@)
            }
        },
    }
}

/// The fields of the command that sends a message.
pub open spec fn message_fields(
    from: Seq<char>,
    target: Seq<char>,
    message: Seq<char>,
) -> Seq<(Seq<char>, JsonV)> {
    json::put(
        json::put(
            json::put(
                json::put(Seq::empty(), "fromActiveSessionId"@, JsonV::Str(from)),
                "targetActiveSessionId"@,
                JsonV::Str(target),
            ),
            "message"@,
            JsonV::Str(message),
        ),
        "agentOrigin"@,
        JsonV::Bool(true),
    )
}

/// How far a message is.
#[derive(Debug, Clone, Copy, PartialEq, Eq, Structural)]
pub enum SendPhase {
    /// No connection yet.
    Connecting,
    /// The message is out. It is never sent again: it may have been taken though
    /// its answer was lost.
    Sent,
    /// Nothing more is to be done.
    Done,
}

/// A message on its way to another agent.
pub struct MessageSender {
    pub from_active_session_id: String,
    pub target_selector: String,
    pub message: String,
    pub last_error: String,
    pub phase: SendPhase,
}

/// What is to be done next for a message.
#[derive(Debug, PartialEq)]
pub enum SendStep {
    /// Connect to the supervisor.
    Connect,
    /// Give up, for this reason.
    Fail(String),
}

impl MessageSender {
    /// A message that is to be sent.
    pub fn new(from_active_session_id: &str, target_selector: &str, message: &str) -> (r: Self)
        ensures
            r.from_active_session_id@ == from_active_session_id@,
            r.target_selector@ == target_selector@,
            r.message@ == message@,
            r.last_error@ == "Unknown active session: "@ + target_selector@,
            r.phase == SendPhase::Connecting,
    {
        MessageSender {
            from_active_session_id: from_active_session_id.to_owned(),
            target_selector: target_selector.to_owned(),
            message: message.to_owned(),
            last_error: cat2("Unknown active session: ", target_selector),
            phase: SendPhase::Connecting,
        }
    }

    /// What is to be done while there is no connection: nothing is begun once the
    /// daemon shuts down or the time is over.
    pub fn next_attempt(&mut self, shutting_down: bool, expired: bool) -> (r: SendStep)
        requires
            old(self).phase == SendPhase::Connecting,
        ensures
            after_event(old(self).phase, SendEvent::Attempt(shutting_down, expired)) == Some(
                (final(self).phase, false),
            ),
            r is Connect <==> !shutting_down && !expired,
            match r {
                SendStep::Connect => *final(self) == *old(self),
                SendStep::Fail(reason) => *final(self) == (MessageSender {
                    phase: SendPhase::Done,
                    ..*old(self)
                }) && reason@ == if shutting_down {
                    "Daemon is shutting down"@
                } else {
                    old(self).last_error@
                },
            },
    {
        if shutting_down {
            self.phase = SendPhase::Done;
            return SendStep::Fail("Daemon is shutting down".to_owned());
        }
        if expired {
            self.phase = SendPhase::Done;
            return SendStep::Fail(self.last_error.clone());
        }
        SendStep::Connect
    }

    /// Notes that a try to connect failed; another one may follow.
    pub fn connect_failed(&mut self, error: &str)
        requires
            old(self).phase == SendPhase::Connecting,
        ensures
            after_event(old(self).phase, SendEvent::ConnectFailed) == Some(
                (final(self).phase, false),
            ),
            final(self).last_error@ == error@,
            *final(self) == (MessageSender { last_error: final(self).last_error, ..*old(self) }),
    {
        self.last_error = error.to_owned();
    }

    /// The command that sends the message over the connection. It is handed out
    /// once.
    pub fn send_message(&mut self) -> (r: DaemonCommand)
        requires
            old(self).phase == SendPhase::Connecting,
        ensures
            after_event(old(self).phase, SendEvent::Connected) == Some((final(self).phase, true)),
            *final(self) == (MessageSender { phase: SendPhase::Sent, ..*old(self) }),
            r.id is None,
            r.type_@ == "send_message"@,
            json::members(r.body@) == message_fields(
                old(self).from_active_session_id@,
                old(self).target_selector@,
                old(self).message@,
            ),
    {
        self.phase = SendPhase::Sent;
        let mut command = DaemonCommand::new("send_message");
        command.set_text("fromActiveSessionId", &self.from_active_session_id);
        command.set_text("targetActiveSessionId", &self.target_selector);
        command.set_text("message", &self.message);
        command.set("agentOrigin", Json::Bool(true));
        command
    }

    /// What became of the message, from the answer or the error that came in its
    /// place. `wording` is how the module of an error words it.
    pub fn answered(
        &mut self,
        response: Result<&DaemonResponse, &str>,
        wording: &str,
    ) -> (r: Result<AgentSessionMessageReceipt, String>)
        requires
            old(self).phase == SendPhase::Sent,
        ensures
            after_event(old(self).phase, SendEvent::Answered) == Some((final(self).phase, false)),
            *final(self) == (MessageSender { phase: SendPhase::Done, ..*old(self) }),
            match r {
                Ok(receipt) => delivery(answer_view(response), wording@) is Ok && receipt@
                    == delivery(answer_view(response), wording@)->Ok_0,
                Err(error) => delivery(answer_view(response), wording@) is Err && error@
                    == delivery(answer_view(response), wording@)->Err_0,
            },
    {
        self.phase = SendPhase::Done;
        let response = match response {
            Ok(response) => response,
            Err(error) => return Err(error.to_owned()),
        };
        if !response.success {
            return Err(daemon_error_from_response(response, wording).message());
        }
        let receipt = match &response.data {
            Some(data) => read_receipt(data),
            None => read_receipt(&Json::Null),
        };
        match receipt {
            Some(receipt) => if same(&receipt.delivery_status, DELIVERY_STATUS_DELIVERED) || same(
                &receipt.delivery_status,
                DELIVERY_STATUS_QUEUED,
            ) {
                Ok(receipt)
            } else {
                Err("Supervisor returned an invalid agent-message receipt".to_owned())
            },
            None => Err("Supervisor returned an invalid agent-message receipt".to_owned()),
        }
    }
}

/// What came in answer to a message.
pub open spec fn answer_view(response: Result<&DaemonResponse, &str>) -> Result<
    protocol::ResponseV,
    Seq<char>,
> {
    match response {
        Ok(response) => Ok(response@),
        Err(error) => Err(error@),
    }
}

/// One thing that happens to a message.
pub enum SendEvent {
    /// Another try: whether the daemon shuts down, and whether the time is over.
    Attempt(bool, bool),
    ConnectFailed,
    Connected,
    Answered,
}

/// The phase of a message after something happened; nothing where it cannot
/// happen. The flag says whether the message went out.
pub open spec fn after_event(phase: SendPhase, event: SendEvent) -> Option<(SendPhase, bool)> {
    match (phase, event) {
        (SendPhase::Connecting, SendEvent::Attempt(shutting_down, expired)) => Some(
            (
                if shutting_down || expired {
                    SendPhase::Done
                } else {
                    SendPhase::Connecting
                },
                false,
            ),
        ),
        (SendPhase::Connecting, SendEvent::ConnectFailed) => Some((SendPhase::Connecting, false)),
        (SendPhase::Connecting, SendEvent::Connected) => Some((SendPhase::Sent, true)),
        (SendPhase::Sent, SendEvent::Answered) => Some((SendPhase::Done, false)),
        _ => None,
    }
}

/// How often a message went out after these events.
pub open spec fn times_sent(events: Seq<SendEvent>) -> nat
    decreases events.len(),
{
    if events.len() == 0 {
        0
    } else {
        let before = times_sent(events.drop_last());
        match phase_after(events.drop_last()) {
            Some(phase) => match after_event(phase, events.last()) {
                Some((_, true)) => before + 1,
                _ => before,
            },
            None => before,
        }
    }
}

/// The phase of a message after these events; nothing where they cannot happen.
pub open spec fn phase_after(events: Seq<SendEvent>) -> Option<SendPhase>
    decreases events.len(),
{
    if events.len() == 0 {
        Some(SendPhase::Connecting)
    } else {
        match phase_after(events.drop_last()) {
            Some(phase) => match after_event(phase, events.last()) {
                Some((phase, _)) => Some(phase),
                None => None,
            },
            None => None,
        }
    }
}

/// A message goes out at most once, however often the supervisor is tried and
/// whatever becomes of the answer; while no connection was made it did not go out.
pub proof fn messages_are_never_replayed(events: Seq<SendEvent>)
    requires
        phase_after(events) is Some,
    ensures
        times_sent(events) <= 1,
        phase_after(events) == Some(SendPhase::Connecting) ==> times_sent(events) == 0,
        phase_after(events) == Some(SendPhase::Sent) ==> times_sent(events) == 1,
    decreases events.len(),
{
    if events.len() > 0 {
        messages_are_never_replayed(events.drop_last());
    }
}

} // verus!
