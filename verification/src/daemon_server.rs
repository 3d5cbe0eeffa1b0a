//! The daemon's side of one connection: what a new client is, what is said to it,
//! and what becomes of its bytes.

use vstd::prelude::*;

use crate::active_session_state::TextSet;
use crate::daemon_mode::{DaemonClientHandle, DaemonClientWriter, normalize_client_capabilities};
use crate::daemon_worker_client;
use crate::daemon_worker_client::PrivateFrame;
use crate::daemon_worker_protocol;
use crate::daemon_worker_protocol::text_array;
use crate::json;
use crate::json::{Json, JsonV};
use crate::native_supervisor;
use crate::native_supervisor::{DaemonFacts, hello_members};
use crate::text;
use crate::text::same;
use crate::text_map::TextMap;

verus! {

/// How long after the supervisor's connection has gone a worker looks whether the
/// supervisor is still there, in milliseconds.
pub const SUPERVISOR_CHECK_DELAY_MS: u64 = 100;

/// A client that has just connected. A worker speaks in private frames and wants
/// its client to authenticate; elsewhere every client may speak, in lines.
pub fn connect_client(
    id: &str,
    is_worker: bool,
    defaults: &TextSet,
    supported: &Vec<String>,
) -> (r: DaemonClientHandle)
    requires
        defaults.wf(),
    ensures
        r.wf(),
        r.state.id@ == id@,
        r.state.authenticated == Some(!is_worker),
        json::opt_view(r.state.transport) == Some(
            if is_worker {
                "private-framed"@
            } else {
                "jsonl"@
            },
        ),
        r.state.backpressured == Some(false),
        r.state.catchup_active_session_ids matches Some(ids) && ids@ == Map::<
            Seq<char>,
            (),
        >::empty(),
        forall|name: Seq<char>| #[trigger]
            r.state.capabilities@.contains_key(name) <==> text::holds_text(supported@, name)
                && defaults@.contains_key(name),
        r.frame_decoder.buffered@.len() == 0,
        !r.writer.closed && !r.writer.abandoned && r.writer.lines@.len() == 0,
{
    let mut client = DaemonClientHandle::new(id);
    client.state.authenticated = Some(!is_worker);
    client.state.transport = Some(
        if is_worker {
            "private-framed".to_owned()
        } else {
            "jsonl".to_owned()
        },
    );
    client.state.backpressured = Some(false);
    client.state.catchup_active_session_ids = Some(TextMap::new());
    client.state.capabilities = normalize_client_capabilities(None, None, defaults, supported);
    client
}

/// What the daemon says to a client that has connected.
pub fn server_hello(
    socket_path: &str,
    facts: &DaemonFacts,
    client_id: &str,
    capabilities: &Vec<String>,
) -> (r: Json)
    ensures
        r@ == JsonV::Obj(
            native_supervisor::hello_head(socket_path@, *facts).push(
                ("clientId"@, JsonV::Str(client_id@)),
            ).push(
                (
                    "serverCapabilities"@,
                    JsonV::Arr(daemon_worker_protocol::text_list(capabilities@)),
                ),
            ),
        ),
{
    let mut pairs = hello_members(socket_path, facts);
    json::add_text(&mut pairs, "clientId", client_id);
    json::add_member(&mut pairs, "serverCapabilities", text_array(capabilities));
    json::object(pairs)
}

/// What happens on a connection.
#[derive(Debug, PartialEq)]
pub enum ConnectionEvent {
    /// The daemon has given the connection up.
    Stopped,
    /// The client has sent its last byte.
    Closed,
    Bytes(Vec<u8>),
    Failed(String),
}

/// What is done then.
#[derive(Debug, PartialEq)]
pub enum ConnectionStep {
    /// These commands are run.
    Dispatch(Vec<Vec<u8>>),
    /// These bytes are split into lines.
    Split(Vec<u8>),
    /// The line that is begun is taken as it is, and the connection is over.
    EndLines,
    /// The connection is over; an error is why.
    End(Option<String>),
}

/// The commands among frames, in order.
pub open spec fn command_payloads(frames: Seq<daemon_worker_client::FrameV>) -> Seq<Seq<u8>>
    decreases frames.len(),
{
    if frames.len() == 0 {
        Seq::empty()
    } else {
        let rest = command_payloads(frames.drop_last());
        if frames.last().header.str_at("kind"@) == Some("command"@) {
            rest.push(frames.last().payload)
        } else {
            rest
        }
    }
}

fn take_commands(frames: &Vec<PrivateFrame>) -> (r: Vec<Vec<u8>>)
    ensures
        native_supervisor::line_bytes(r@) == command_payloads(
            daemon_worker_client::frames_view(frames@),
        ),
{
    let ghost all = daemon_worker_client::frames_view(frames@);
    let mut commands: Vec<Vec<u8>> = Vec::new();
    let mut i: usize = 0;
    assert(all.take(0) =~= Seq::empty());
    assert(native_supervisor::line_bytes(commands@) =~= Seq::empty());
    while i < frames.len()
        invariant
            i <= frames.len(),
            all == daemon_worker_client::frames_view(frames@),
            native_supervisor::line_bytes(commands@) == command_payloads(all.take(i as int)),
        decreases frames.len() - i,
    {
        assert(all.take(i + 1).drop_last() =~= all.take(i as int));
        assert(all.take(i + 1).last() == frames@[i as int]@);
        if frames[i].header.str_is("kind", "command") {
            let ghost before = commands@;
            let payload = frames[i].payload.clone();
            assert(payload@ =~= frames@[i as int].payload@);
            commands.push(payload);
            assert(native_supervisor::line_bytes(commands@) =~= native_supervisor::line_bytes(
                before,
            ).push(frames@[i as int].payload@));
        }
        i += 1;
    }
    assert(all.take(i as int) =~= all);
    commands
}

/// What is done when something happens on a connection. A worker takes the
/// commands from the private frames of its client; elsewhere the bytes are lines.
pub fn handle_connection(client: &mut DaemonClientHandle, is_worker: bool, event: ConnectionEvent) -> (r:
    ConnectionStep)
    ensures
        *final(client) == (DaemonClientHandle {
            frame_decoder: final(client).frame_decoder,
            ..*old(client)
        }),
        ({
            let buffered = old(client).frame_decoder.buffered@;
            match event {
                ConnectionEvent::Stopped => r == ConnectionStep::End(None) && *final(client)
                    == *old(client),
                ConnectionEvent::Failed(error) => r == ConnectionStep::End(Some(error))
                    && *final(client) == *old(client),
                ConnectionEvent::Closed => *final(client) == *old(client) && if !is_worker {
                    r == ConnectionStep::EndLines
                } else if buffered.len() == 0 {
                    r == ConnectionStep::End(None)
                } else {
                    r matches ConnectionStep::End(Some(error)) && error@
                        == "Private frame channel ended with "@ + text::decimal_digits(
                        buffered.len(),
                    ) + " incomplete bytes"@
                },
                ConnectionEvent::Bytes(bytes) => if !is_worker {
                    r == ConnectionStep::Split(bytes) && *final(client) == *old(client)
                } else {
                    let decoded = daemon_worker_client::decode_all(buffered + bytes@);
                    match decoded.error {
                        None => {
                            &&& r matches ConnectionStep::Dispatch(commands)
                                && native_supervisor::line_bytes(commands@) == command_payloads(
                                decoded.frames,
                            )
                            &&& final(client).frame_decoder.buffered@ == decoded.rest
                        },
                        Some(error) => {
                            &&& r matches ConnectionStep::End(Some(shown)) && shown@ == error
                            &&& final(client).frame_decoder.buffered@ == buffered + bytes@
                        },
                    }
                },
            }
        }),
{
    match event {
        ConnectionEvent::Stopped => ConnectionStep::End(None),
        ConnectionEvent::Failed(error) => ConnectionStep::End(Some(error)),
        ConnectionEvent::Closed => {
            if !is_worker {
                return ConnectionStep::EndLines;
            }
            match client.frame_decoder.finish() {
                Ok(_) => ConnectionStep::End(None),
                Err(error) => ConnectionStep::End(Some(error)),
            }
        },
        ConnectionEvent::Bytes(bytes) => {
            if !is_worker {
                return ConnectionStep::Split(bytes);
            }
            match client.frame_decoder.push(&bytes) {
                Ok(frames) => ConnectionStep::Dispatch(take_commands(&frames)),
                Err(error) => ConnectionStep::End(Some(error)),
            }
        },
    }
}

impl DaemonClientWriter {
    /// Takes the lines that wait to be sent; those that were written before the end
    /// are still sent after it.
    pub fn take_lines(&mut self) -> (r: Vec<String>)
        ensures
            r == old(self).lines,
            final(self).lines@.len() == 0,
            final(self).closed == old(self).closed,
            final(self).abandoned == old(self).abandoned,
    {
        let mut lines: Vec<String> = Vec::new();
        std::mem::swap(&mut lines, &mut self.lines);
        lines
    }
}

/// Where a worker looks for its supervisor after a connection has gone: at the
/// socket that it knows, where the connection was the supervisor's.
pub fn supervisor_to_check(
    is_worker: bool,
    client: &DaemonClientHandle,
    supervisor_socket: Option<&str>,
) -> (r: Option<String>)
    ensures
        json::opt_view(r) == if is_worker && json::opt_view(client.state.authentication_role)
            == Some("supervisor"@) {
            json::opt_str_view(supervisor_socket)
        } else {
            None
        },
{
    let was_supervisor: bool = match &client.state.authentication_role {
        Some(role) => same(role, "supervisor"),
        None => false,
    };
    if !is_worker || !was_supervisor {
        return None;
    }
    json::owned(supervisor_socket)
}

/// A signal that ends the daemon.
#[derive(Debug, Clone, Copy, PartialEq, Eq, Structural)]
pub enum StopSignal {
    Interrupt,
    Terminate,
    Hangup,
}

/// The code with which the daemon exits after a signal.
pub fn signal_exit_code(signal: StopSignal) -> (r: i32)
    ensures
        r == match signal {
            StopSignal::Interrupt => 130i32,
            StopSignal::Terminate => 143,
            StopSignal::Hangup => 129,
        },
{
    match signal {
        StopSignal::Interrupt => 130,
        StopSignal::Terminate => 143,
        StopSignal::Hangup => 129,
    }
}

} // verus!
