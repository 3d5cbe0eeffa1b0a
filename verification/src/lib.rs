//! Verified core of a background agent daemon.

use vstd::prelude::*;

pub mod active_session_state;
pub mod agent_message_transport;
pub mod agent_roster;
pub mod assistant_message;
pub mod assoc;
pub mod catalog_laws;
pub mod client_laws;
pub mod clock;
pub mod command_recovery_journal;
pub mod compact_session_stream;
pub mod daemon_catalog_entry;
pub mod daemon_catalog_process;
pub mod daemon_client_env;
pub mod daemon_errors;
pub mod daemon_mode;
pub mod daemon_routed_client;
pub mod daemon_extension_binding;
pub mod daemon_runtime_identity;
pub mod daemon_server;
pub mod daemon_session_id;
pub mod daemon_socket;
pub mod daemon_supervisor_ownership;
pub mod daemon_worker_client;
pub mod daemon_worker_protocol;
pub mod digest;
pub mod document_laws;
pub mod exchange_laws;
pub mod heartbeat_catalog;
pub mod json;
pub mod ledger_laws;
pub mod mutation_drain_latch;
pub mod native_supervisor;
pub mod ownership_laws;
pub mod path_facts;
pub mod protocol;
pub mod rlm_ledger;
pub mod rlm_subagent_display;
pub mod roster_laws;
pub mod routing_laws;
pub mod saved_session_catalog;
pub mod saved_session_info;
pub mod session_info;
pub mod session_laws;
pub mod session_wire;
pub mod supervisor_laws;
pub mod text;
pub mod text_laws;
pub mod text_map;
pub mod wire_laws;

verus! {

} // verus!
