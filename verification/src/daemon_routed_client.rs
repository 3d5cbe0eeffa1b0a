//! One connection to the daemon over two sockets: what concerns a session goes
//! straight to its worker, the rest to the supervisor. A direct link that is lost is
//! replaced by the supervisor.

use vstd::prelude::*;

use std::hash::RandomState;

use crate::clock;
use crate::clock::parse_iso_ms;
use crate::daemon_worker_protocol;
use crate::daemon_worker_protocol::{DaemonPeerTransportTicket, DaemonSocketIdentity};
use crate::json;
use crate::json::{Json, JsonV};
use crate::protocol;
use crate::protocol::{
    DaemonClientError, DaemonCommand, DaemonHello, DaemonResponse, DaemonSocketClosedError,
    get_daemon_socket_close_reason,
};
use crate::text::{cat2, same};

verus! {

/// The direct link to a worker was lost.
#[derive(Debug, PartialEq)]
pub struct DaemonDirectTransportClosedError {
    pub socket_path: String,
    pub daemon_closing_reason: Option<String>,
    pub cause: Option<String>,
}

/// Why the daemon closed a connection, where an error tells.
pub open spec fn close_reason(error: protocol::ClientErrorV) -> Option<Seq<char>> {
    match error {
        protocol::ClientErrorV::SocketClosed(_, reason, _) => reason,
        _ => None,
    }
}

/// The error for a direct link that was lost.
pub open spec fn direct_closed(cause: protocol::ClientErrorV) -> protocol::ClientErrorV {
    protocol::ClientErrorV::SocketClosed(
        "direct-worker"@,
        close_reason(cause),
        Some(protocol::client_error_text(cause)),
    )
}

impl DaemonDirectTransportClosedError {
    /// The direct link was lost for this reason.
    pub fn new(cause: &DaemonClientError) -> (r: Self)
        ensures
            r.socket_path@ == "direct-worker"@,
            json::opt_view(r.daemon_closing_reason) == close_reason(cause@),
            json::opt_view(r.cause) == Some(protocol::client_error_text(cause@)),
    {
        DaemonDirectTransportClosedError {
            socket_path: "direct-worker".to_owned(),
            daemon_closing_reason: get_daemon_socket_close_reason(cause),
            cause: Some(cause.message()),
        }
    }

    fn closed(&self) -> (r: DaemonSocketClosedError)
        ensures
            r.socket_path@ == self.socket_path@,
            json::opt_view(r.daemon_closing_reason) == json::opt_view(self.daemon_closing_reason),
            json::opt_view(r.cause) == json::opt_view(self.cause),
    {
        DaemonSocketClosedError {
            socket_path: self.socket_path.clone(),
            daemon_closing_reason: self.daemon_closing_reason.clone(),
            cause: self.cause.clone(),
        }
    }

    /// The text shown for this error.
    pub fn message(&self) -> (r: String)
        ensures
            r@ == protocol::socket_closed_text(
                self.socket_path@,
                json::opt_view(self.daemon_closing_reason),
                json::opt_view(self.cause),
            ),
    {
        self.closed().message()
    }

    /// The error as a client sees it.
    pub fn to_client_error(&self) -> (r: DaemonClientError)
        ensures
            r@ == protocol::ClientErrorV::SocketClosed(
                self.socket_path@,
                json::opt_view(self.daemon_closing_reason),
                json::opt_view(self.cause),
            ),
    {
        DaemonClientError::SocketClosed(self.closed())
    }
}

/// A request to the supervisor failed on its way.
#[derive(Debug, PartialEq)]
pub struct DaemonControlPlaneTransportError {
    pub message: String,
}

impl DaemonControlPlaneTransportError {
    pub fn new(cause: &str) -> (r: Self)
        ensures
            r.message@ == "Daemon control-plane transport failed: "@ + cause@,
    {
        DaemonControlPlaneTransportError {
            message: cat2("Daemon control-plane transport failed: ", cause),
        }
    }
}

/// What the client of a request to the supervisor is told: that a capability is
/// missing, or that the request failed on its way.
pub fn control_plane_error(error: DaemonClientError) -> (r: DaemonClientError)
    ensures
        r@ == if error@ is CapabilityUnavailable {
            error@
        } else {
            protocol::ClientErrorV::Message(
                "Daemon control-plane transport failed: "@ + protocol::client_error_text(error@),
            )
        },
{
    if error.is_capability_unavailable() {
        return error;
    }
    DaemonClientError::Message(DaemonControlPlaneTransportError::new(&error.message()).message)
}

/// The listeners in a map, in the order in which they were added.
pub uninterp spec fn listeners_in(
    map: indexmap::IndexMap<u64, (), RandomState>,
) -> Seq<u64>;

/// The listeners after one was added; one that is there keeps its place.
pub open spec fn with_listener(ids: Seq<u64>, id: u64) -> Seq<u64> {
    if ids.contains(id) {
        ids
    } else {
        ids.push(id)
    }
}

/// The listeners but one; the others keep their order.
pub open spec fn without_listener(ids: Seq<u64>, id: u64) -> Seq<u64> {
    ids.filter(|other: u64| other != id)
}

/// `IndexMap::new` makes an empty map.
#[verifier::external_body]
fn no_listeners() -> (r: indexmap::IndexMap<u64, (), RandomState>)
    ensures
        listeners_in(r) == Seq::<u64>::empty(),
{
    indexmap::IndexMap::new()
}

/// `IndexMap::insert` adds a key at the end; a key that is there keeps its place.
#[verifier::external_body]
fn insert_listener(map: &mut indexmap::IndexMap<u64, (), RandomState>, id: u64)
    ensures
        listeners_in(*final(map)) == with_listener(listeners_in(*old(map)), id),
{
    map.insert(id, ());
}

/// `IndexMap::shift_remove` removes a key; the others keep their order.
#[verifier::external_body]
fn remove_listener(map: &mut indexmap::IndexMap<u64, (), RandomState>, id: u64)
    ensures
        listeners_in(*final(map)) == without_listener(listeners_in(*old(map)), id),
{
    map.shift_remove(&id);
}

/// `IndexMap::keys` gives the keys in the order in which they were added.
#[verifier::external_body]
fn list_listeners(map: &indexmap::IndexMap<u64, (), RandomState>) -> (r: Vec<u64>)
    ensures
        r@ == listeners_in(*map),
{
    map.keys().copied().collect()
}

/// `IndexMap::clear` removes every key.
#[verifier::external_body]
fn clear_listeners(map: &mut indexmap::IndexMap<u64, (), RandomState>)
    ensures
        listeners_in(*final(map)) == Seq::<u64>::empty(),
{
    map.clear();
}

/// A connection over two sockets. Direct links and listeners are known by numbers.
pub struct DaemonRoutedClient {
    /// The direct link that is in use.
    pub direct: Option<u64>,
    pub message_listeners: indexmap::IndexMap<u64, (), RandomState>,
    pub close_listeners: indexmap::IndexMap<u64, (), RandomState>,
    pub next_listener_id: u64,
    pub closed: bool,
}

/// What a connection over two sockets is.
#[verifier::ext_equal]
pub struct RoutedV {
    pub direct: Option<u64>,
    pub message_listeners: Seq<u64>,
    pub close_listeners: Seq<u64>,
    pub next_listener_id: u64,
    pub closed: bool,
}

impl View for DaemonRoutedClient {
    type V = RoutedV;

    open spec fn view(&self) -> RoutedV {
        RoutedV {
            direct: self.direct,
            message_listeners: listeners_in(self.message_listeners),
            close_listeners: listeners_in(self.close_listeners),
            next_listener_id: self.next_listener_id,
            closed: self.closed,
        }
    }
}

/// Which way a request goes.
#[derive(Debug, Clone, Copy, PartialEq, Eq, Structural)]
pub enum RequestRoute {
    /// To the supervisor. On success the session may be at another worker, and the
    /// direct link is given up.
    Reattach,
    /// Over this direct link.
    Direct(u64),
    /// To the supervisor.
    ControlPlane,
}

/// What is to be done when a connection is closed.
#[derive(Debug, PartialEq)]
pub struct RoutedClose {
    /// The direct link that is to be closed. The supervisor's connection is closed
    /// in any case.
    pub direct: Option<u64>,
}

/// Who is to be told that a connection was lost, and what.
#[derive(Debug, PartialEq)]
pub struct CloseNotice {
    pub listeners: Vec<u64>,
    pub error: DaemonClientError,
}

impl DaemonRoutedClient {
    /// A connection with a direct link.
    pub fn new(direct: u64) -> (r: Self)
        ensures
            r@ == (RoutedV {
                direct: Some(direct),
                message_listeners: Seq::empty(),
                close_listeners: Seq::empty(),
                next_listener_id: 0,
                closed: false,
            }),
    {
        DaemonRoutedClient {
            direct: Some(direct),
            message_listeners: no_listeners(),
            close_listeners: no_listeners(),
            next_listener_id: 0,
            closed: false,
        }
    }

    /// The greeting: that of the supervisor, else that of the worker.
    pub fn hello<'a>(
        &self,
        supervisor: Option<&'a DaemonHello>,
        direct: Option<&'a DaemonHello>,
    ) -> (r: Option<&'a DaemonHello>)
        ensures
            r == if supervisor is Some {
                supervisor
            } else if self@.direct is Some {
                direct
            } else {
                None
            },
    {
        match supervisor {
            Some(hello) => Some(hello),
            None => if self.direct.is_some() {
                direct
            } else {
                None
            },
        }
    }

    /// Whether requests can be sent at all.
    pub fn is_connected(&self, supervisor: bool, direct: bool) -> (r: bool)
        ensures
            r == (supervisor || (self@.direct is Some && direct)),
    {
        supervisor || (self.direct.is_some() && direct)
    }

    /// Whether the direct link is in use.
    pub fn has_direct_transport(&self, direct: bool) -> (r: bool)
        ensures
            r == (self@.direct is Some && direct),
    {
        self.direct.is_some() && direct
    }

    /// Whether the supervisor can be asked.
    pub fn is_control_plane_ready(&self, supervisor: bool, supervisor_hello: bool) -> (r: bool)
        ensures
            r == (supervisor && supervisor_hello),
    {
        supervisor && supervisor_hello
    }

    /// Whether one of the two can do something.
    pub fn supports_server_capability(&self, supervisor: bool, direct: bool) -> (r: bool)
        ensures
            r == (supervisor || (self@.direct is Some && direct)),
    {
        supervisor || (self.direct.is_some() && direct)
    }

    /// Adds a listener for messages.
    pub fn on_message(&mut self) -> (r: u64)
        requires
            old(self)@.next_listener_id < u64::MAX,
        ensures
            r == old(self)@.next_listener_id,
            final(self)@ == (RoutedV {
                message_listeners: with_listener(old(self)@.message_listeners, r),
                next_listener_id: (r + 1) as u64,
                ..old(self)@
            }),
    {
        let id: u64 = self.next_listener_id;
        self.next_listener_id = id + 1;
        insert_listener(&mut self.message_listeners, id);
        id
    }

    /// Removes a listener for messages.
    pub fn off_message(&mut self, id: u64)
        ensures
            final(self)@ == (RoutedV {
                message_listeners: without_listener(old(self)@.message_listeners, id),
                ..old(self)@
            }),
    {
        remove_listener(&mut self.message_listeners, id);
    }

    /// Adds a listener for the end of the connection.
    pub fn on_close(&mut self) -> (r: u64)
        requires
            old(self)@.next_listener_id < u64::MAX,
        ensures
            r == old(self)@.next_listener_id,
            final(self)@ == (RoutedV {
                close_listeners: with_listener(old(self)@.close_listeners, r),
                next_listener_id: (r + 1) as u64,
                ..old(self)@
            }),
    {
        let id: u64 = self.next_listener_id;
        self.next_listener_id = id + 1;
        insert_listener(&mut self.close_listeners, id);
        id
    }

    /// Removes a listener for the end of the connection.
    pub fn off_close(&mut self, id: u64)
        ensures
            final(self)@ == (RoutedV {
                close_listeners: without_listener(old(self)@.close_listeners, id),
                ..old(self)@
            }),
    {
        remove_listener(&mut self.close_listeners, id);
    }

    /// Which way a request goes. `serves_direct` says whether the worker can take
    /// the command (see `serves_direct`).
    pub fn request(&self, command_type: &str, direct_connected: bool, serves_direct: bool) -> (r:
        RequestRoute)
        ensures
            r == request_route(self@, command_type@, direct_connected, serves_direct),
    {
        if same(command_type, "reattach") {
            return RequestRoute::Reattach;
        }
        match self.direct {
            Some(link) => if direct_connected && serves_direct {
                RequestRoute::Direct(link)
            } else {
                RequestRoute::ControlPlane
            },
            None => RequestRoute::ControlPlane,
        }
    }

    /// Gives up the direct link, which is to be closed. Requests go to the
    /// supervisor from now on.
    pub fn fallback_to_supervisor(&mut self) -> (r: Option<u64>)
        ensures
            r == old(self)@.direct,
            final(self)@ == (RoutedV { direct: None, ..old(self)@ }),
    {
        let direct = self.direct;
        self.direct = None;
        direct
    }

    /// What comes of a session that was attached again: on success the direct link
    /// is given up, and is to be closed.
    pub fn reattached(&mut self, success: bool) -> (r: Option<u64>)
        ensures
            r == if success {
                old(self)@.direct
            } else {
                None
            },
            final(self)@ == (RoutedV {
                direct: if success {
                    None
                } else {
                    old(self)@.direct
                },
                ..old(self)@
            }),
    {
        if success {
            self.fallback_to_supervisor()
        } else {
            None
        }
    }

    /// Closes the connection; nothing is to be done the second time.
    pub fn close(&mut self) -> (r: Option<RoutedClose>)
        ensures
            r is None <==> old(self)@.closed,
            r matches Some(close) ==> close.direct == old(self)@.direct,
            final(self)@ == if old(self)@.closed {
                old(self)@
            } else {
                RoutedV {
                    direct: None,
                    message_listeners: Seq::empty(),
                    close_listeners: Seq::empty(),
                    closed: true,
                    ..old(self)@
                }
            },
    {
        if self.closed {
            return None;
        }
        self.closed = true;
        let direct = self.fallback_to_supervisor();
        clear_listeners(&mut self.message_listeners);
        clear_listeners(&mut self.close_listeners);
        Some(RoutedClose { direct })
    }

    /// What comes of a direct link that was lost: where it was the one in use, it is
    /// given up, and the listeners are told.
    pub fn bind_direct(&mut self, bound: u64, error: &DaemonClientError) -> (r: Option<CloseNotice>)
        ensures
            r is Some <==> !old(self)@.closed && old(self)@.direct == Some(bound),
            final(self)@ == if r is Some {
                RoutedV { direct: None, ..old(self)@ }
            } else {
                old(self)@
            },
            r matches Some(notice) ==> notice.listeners@ == old(self)@.close_listeners
                && notice.error@ == direct_closed(error@),
    {
        if self.closed {
            return None;
        }
        match self.direct {
            Some(current) => if current == bound {
                self.direct = None;
                Some(
                    CloseNotice {
                        listeners: list_listeners(&self.close_listeners),
                        error: DaemonDirectTransportClosedError::new(error).to_client_error(),
                    },
                )
            } else {
                None
            },
            None => None,
        }
    }

    /// Who is to be told that the supervisor's connection was lost.
    pub fn supervisor_closed(&self) -> (r: Vec<u64>)
        ensures
            r@ == if self@.closed {
                Seq::empty()
            } else {
                self@.close_listeners
            },
    {
        if self.closed {
            Vec::new()
        } else {
            list_listeners(&self.close_listeners)
        }
    }

    /// Who is to be handed a message, in the order in which they asked for it.
    pub fn emit_message(&self) -> (r: Vec<u64>)
        ensures
            r@ == self@.message_listeners,
    {
        list_listeners(&self.message_listeners)
    }
}

/// Whether a worker can take a command: it must concern a session, the worker must
/// have greeted, and it must know all that the command needs.
pub fn serves_direct(session_plane: bool, hello_present: bool, compatible: bool) -> (r: bool)
    ensures
        r == (session_plane && hello_present && compatible),
{
    session_plane && hello_present && compatible
}

/// Which way a request goes.
pub open spec fn request_route(
    client: RoutedV,
    command_type: Seq<char>,
    direct_connected: bool,
    serves_direct: bool,
) -> RequestRoute {
    if command_type == "reattach"@ {
        RequestRoute::Reattach
    } else {
        match client.direct {
            Some(link) => if direct_connected && serves_direct {
                RequestRoute::Direct(link)
            } else {
                RequestRoute::ControlPlane
            },
            None => RequestRoute::ControlPlane,
        }
    }
}

/// Only commands that the worker can take go over a direct link, only while it is
/// connected, and never one that attaches a session again; once the link is given up
/// everything goes to the supervisor.
pub proof fn direct_links_are_used_with_care(
    client: RoutedV,
    command_type: Seq<char>,
    direct_connected: bool,
    serves_direct: bool,
)
    ensures
        request_route(client, command_type, direct_connected, serves_direct) matches
            RequestRoute::Direct(link) ==> direct_connected && serves_direct && command_type
            != "reattach"@ && client.direct == Some(link),
        request_route(
            RoutedV { direct: None, ..client },
            command_type,
            direct_connected,
            serves_direct,
        ) !is Direct,
{
}

/// How long to wait for a ticket, in milliseconds.
pub const TICKET_TIMEOUT_MS: u64 = 5000;

/// How long to wait for a direct link, in milliseconds.
pub const DIRECT_CONNECT_TIMEOUT_MS: u64 = 1000;

/// How long to wait for the worker's greeting and for its consent, in milliseconds.
pub const DIRECT_HELLO_TIMEOUT_MS: u64 = 3000;

/// The command that asks for a ticket to a worker; nothing where no direct link is
/// wanted or can be had. Then, as after any failure, the supervisor's connection is
/// used as it is.
pub fn create_daemon_session_transport(
    active_session_id: &str,
    direct_disabled: bool,
    is_routed_client: bool,
    supports_direct: bool,
) -> (r: Option<DaemonCommand>)
    ensures
        r is Some <==> !direct_disabled && !is_routed_client && supports_direct,
        r matches Some(command) ==> {
            &&& command.id is None
            &&& command.type_@ == "get_direct_worker_transport"@
            &&& json::members(command.body@) == json::put(
                Seq::empty(),
                "activeSessionId"@,
                JsonV::Str(active_session_id@),
            )
        },
{
    if direct_disabled || is_routed_client || !supports_direct {
        return None;
    }
    let mut command = DaemonCommand::new("get_direct_worker_transport");
    command.set_text("activeSessionId", active_session_id);
    Some(command)
}

/// Reads a ticket; nothing where a field is missing.
pub fn read_session_transport_ticket(value: &Json) -> (r: Option<DaemonPeerTransportTicket>)
    ensures
        r is Some <==> daemon_worker_protocol::is_ticket(value@),
        r matches Some(ticket) ==> daemon_worker_protocol::ticket_of(ticket, value@),
{
    DaemonPeerTransportTicket::from_value(value)
}

/// A response holds a ticket.
pub open spec fn holds_ticket(response: protocol::ResponseV) -> bool {
    response.success && (response.data matches Some(data) && daemon_worker_protocol::is_ticket(
        data,
    ))
}

/// Whether a ticket is over. One whose end cannot be read is not.
pub fn ticket_expired(expires_at: Option<i64>, now: i64) -> (r: bool)
    ensures
        r == (expires_at matches Some(at) && at <= now),
{
    match expires_at {
        Some(at) => at <= now,
        None => false,
    }
}

/// The ticket in a response, where it is for the session and not over.
pub fn session_transport_ticket(
    response: &DaemonResponse,
    active_session_id: &str,
    now: i64,
) -> (r: Option<DaemonPeerTransportTicket>)
    ensures
        r is Some <==> {
            &&& holds_ticket(response@)
            &&& response@.data->0.str_at("activeSessionId"@) == Some(active_session_id@)
            &&& !(clock::iso_millis(response@.data->0.str_at("expiresAt"@)->0) matches Some(at)
                && at <= now)
        },
        r matches Some(ticket) ==> daemon_worker_protocol::ticket_of(ticket, response@.data->0),
{
    if !response.success {
        return None;
    }
    let ticket = match &response.data {
        Some(data) => match read_session_transport_ticket(data) {
            Some(ticket) => ticket,
            None => return None,
        },
        None => return None,
    };
    if !same(&ticket.active_session_id, active_session_id) {
        return None;
    }
    if ticket_expired(parse_iso_ms(&ticket.expires_at), now) {
        return None;
    }
    Some(ticket)
}

/// Whether the socket that is there is the one of the ticket.
pub fn ticket_socket_matches(
    ticket: &DaemonPeerTransportTicket,
    current: Option<DaemonSocketIdentity>,
) -> (r: bool)
    ensures
        r == (current == Some(ticket.socket_identity)),
{
    match current {
        Some(identity) => identity == ticket.socket_identity,
        None => false,
    }
}

} // verus!
