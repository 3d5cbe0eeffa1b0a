use pi_daemon::command_recovery_journal::CommandJournalBeginResult;
use pi_daemon::daemon_mode::{
    AgentSessionRuntimeConfig, DaemonClientWriter, merge_agent_session_runtime_config,
};
use pi_daemon::daemon_server::{
    ConnectionEvent, ConnectionStep, StopSignal, connect_client, handle_connection, server_hello,
    signal_exit_code, supervisor_to_check,
};
use pi_daemon::daemon_worker_client::{PrivateFrameDecoder, encode_private_frame};
use pi_daemon::daemon_worker_protocol::{
    DaemonWorkerDescriptor, DurableDaemonCreateCommand, Environment,
};
use pi_daemon::digest::{fresh_token, hash_prefix};
use pi_daemon::json::{Json, parse_json, print_json};
use pi_daemon::native_supervisor::{
    Adoption, Completion, ConnectStep, DaemonFacts, Dispatch, FramePayload, InputPause,
    LineAssembler, PublicClient, RoutePlan, RoutedCommand, StopStep, Supervisor, WorkerProcess,
    active_session, adoption, asks_for_dialogs, begin_stop, connect_step, descriptor_directory, descriptor_key,
    detached_notice, dispatch, durable_answer, exited_error, forwarded_create, frame_payload,
    invalidated_pause, is_root_of, launch_failed, launched, line_answer, listed_sessions,
    parse_command, persisted_session_config, plan_launch, recovery_command, release_command,
    replayed_answer, response_data, retry_command, seed_message, server_capabilities,
    session_with,
    starting_descriptor, stop_step, supervisor_configuration, worker_environment, worker_socket,
};
use pi_daemon::protocol::DaemonResponse;
use pi_daemon::text_map::TextMap;
use sha2::{Digest, Sha256};

fn json(text: &str) -> Json {
    parse_json(text.as_bytes()).expect("document")
}

fn member<'a>(body: &'a [(String, Json)], key: &str) -> Option<&'a Json> {
    body.iter().find(|(name, _)| name == key).map(|(_, value)| value)
}

fn descriptor(worker_id: &str, root: &str) -> DaemonWorkerDescriptor {
    DaemonWorkerDescriptor {
        version: 1,
        worker_id: worker_id.to_string(),
        pid: 7,
        process_start_id: None,
        socket_path: "/tmp/w.sock".to_string(),
        recovery_journal_path: "/d/w.recovery.jsonl".to_string(),
        orphan_process_journal_path: None,
        supervisor_socket_path: "/tmp/daemon.sock".to_string(),
        authentication_token: "token".to_string(),
        worker_instance_id: None,
        root_active_session_id: root.to_string(),
        owner_client_id: None,
        root_session_id: None,
        session_file: Some("/s.jsonl".to_string()),
        session_dir: None,
        telemetry_disabled: None,
        created_at: "now".to_string(),
        updated_at: "now".to_string(),
        lifecycle: "ready".to_string(),
        create_command: DurableDaemonCreateCommand {
            type_: "create".to_string(),
            session_path: None,
            no_session: None,
            extra: Vec::new(),
        },
        consecutive_failures: 0,
        stop_requested_at: None,
        archive_on_stop: None,
        last_failure_at: None,
        last_error: None,
    }
}

fn supervisor() -> Supervisor {
    let mut supervisor = Supervisor::new("/tmp/daemon.sock");
    supervisor.clients.push(PublicClient::new("connection-1"));
    let at = supervisor.install_worker(descriptor("w1", "active-1"));
    supervisor.workers[at]
        .summaries
        .push(json("{\"activeSessionId\":\"active-1\",\"sessionId\":\"session-1\"}"));
    supervisor
}

fn facts() -> DaemonFacts {
    DaemonFacts {
        protocol: json("{\"name\":\"p\",\"version\":1}"),
        schema_id: "schema".to_string(),
        schema_revision: 23,
        app_version: "1.2.3".to_string(),
        runtime: json("{}"),
    }
}

#[test]
fn descriptor_and_socket_paths_match_the_typescript_hash_contract() {
    assert_eq!(
        descriptor_key("/tmp/daemon.sock"),
        format!("{:x}", Sha256::digest(b"/tmp/daemon.sock"))[..12]
    );
    assert!(
        worker_socket(false, "/tmp", "/tmp/daemon.sock", "abcdef1234567890").contains("abcdef123456")
    );
    assert_eq!(hash_prefix("abc", 12), "ba7816bf8f01");
}

#[test]
fn command_envelopes_preserve_public_request_and_client_identity() {
    let wire = json(
        "{\"type\":\"command\",\"id\":\"request-1\",\"clientId\":\"client-1\",\"protocol\":{\"name\":\"p\",\"version\":1},\"command\":{\"type\":\"list\"}}",
    );
    let command = parse_command(print_json(&wire).as_bytes(), true).expect("command");
    assert_eq!(member(&command.body, "id"), Some(&Json::Str("request-1".to_string())));
    assert_eq!(command.client.as_deref(), Some("client-1"));
}

#[test]
fn envelopes_have_to_be_sound() {
    let wire = b"{\"type\":\"command\",\"id\":\"1\",\"command\":{\"type\":\"list\"}}";
    assert_eq!(parse_command(wire, false), Err("Invalid daemon command envelope".to_string()));
    assert_eq!(parse_command(b"[]", false), Err("Invalid daemon command".to_string()));
    assert_eq!(
        parse_command(b"{\"type\":\"command\",\"command\":{}}", true),
        Err("Daemon command requires id".to_string())
    );
    assert!(parse_command(b"{", false).is_err());
    let bare = parse_command(b"{\"type\":\"list\"}", false).expect("command");
    assert_eq!(bare.client, None);
}

#[test]
fn lines_are_put_together() {
    let mut lines = LineAssembler::new();
    assert!(lines.push(b"{\"a\"", 64).is_empty());
    assert_eq!(lines.push(b":1}\n{\"b\"", 64), vec![b"{\"a\":1}".to_vec()]);
    let mut whole = LineAssembler::new();
    assert_eq!(whole.push(b"{\"a\":1}\n{\"b\"", 64), vec![b"{\"a\":1}".to_vec()]);
    assert_eq!(whole, lines);
}

#[test]
fn commands_are_told_apart() {
    assert_eq!(dispatch(&json("{\"type\":\"list\"}")), Ok(Dispatch::List));
    assert_eq!(dispatch(&json("{\"type\":\"create\"}")), Ok(Dispatch::Create));
    assert_eq!(dispatch(&json("{\"type\":\"shutdown\"}")), Ok(Dispatch::Shutdown));
    assert_eq!(
        dispatch(&json("{\"type\":\"ack_result\",\"commandId\":\"1\"}")),
        Ok(Dispatch::Acknowledge(Some("1".to_string())))
    );
    assert_eq!(
        dispatch(&json("{\"type\":\"reattach\",\"targetActiveSessionId\":\"a\"}")),
        Ok(Dispatch::Route("a".to_string()))
    );
    assert_eq!(
        dispatch(&json("{\"type\":\"prompt\"}")),
        Err("Daemon command requires activeSessionId".to_string())
    );
    assert_eq!(
        dispatch(&json("{\"type\":\"retry_worker\"}")),
        Err("retry_worker requires activeSessionId".to_string())
    );
    assert_eq!(
        dispatch(&json("{\"type\":\"release_session_input_pause\"}")),
        Err("Session input pause requires pauseId".to_string())
    );
    assert_eq!(
        dispatch(&json("{\"type\":\"restart\"}")),
        Err("Daemon supervisor command is not implemented: restart".to_string())
    );
    assert_eq!(dispatch(&json("{}")), Err("Daemon command requires a type".to_string()));
}

#[test]
fn sessions_are_found_where_they_are_shown() {
    let mut supervisor = supervisor();
    assert_eq!(supervisor.find("client", "active-1"), Ok((0, "active-1".to_string())));
    assert_eq!(supervisor.find("client", "session-1"), Ok((0, "active-1".to_string())));
    assert_eq!(
        supervisor.find("client", "other"),
        Err("Unknown active session: other".to_string())
    );
    supervisor.workers[0].descriptor.owner_client_id = Some("owner".to_string());
    assert_eq!(
        supervisor.find("client", "active-1"),
        Err("Unknown active session: active-1".to_string())
    );
    assert!(supervisor.find("owner", "active-1").is_ok());
    assert_eq!(supervisor.abandoned_workers("owner"), vec![0]);
    supervisor.clients[0].protocol_id = Some("owner".to_string());
    assert!(supervisor.abandoned_workers("owner").is_empty());
    assert_eq!(supervisor.disconnected(0), "owner");
    assert!(supervisor.clients.is_empty());
}

#[test]
fn documents_go_to_their_subscribers() {
    let mut supervisor = supervisor();
    supervisor.clients.push(PublicClient::new("connection-2"));
    supervisor.clients[1].subscriptions.insert("active-1".to_string(), ());
    assert_eq!(supervisor.receiving_clients(0, Some("active-1")), vec![1]);
    assert!(supervisor.receiving_clients(0, None).is_empty());
    assert_eq!(supervisor.attached_clients("active-1"), 1);
    let header = json(
        "{\"kind\":\"outbound\",\"outboundType\":\"session_event\",\"activeSessionId\":\"active-1\"}",
    );
    let payload = "{\"type\":\"session_event\",\"activeSessionId\":\"active-1\",\"event\":{\"type\":\"agent_end\"}}";
    let bytes = encode_private_frame(&header, payload.as_bytes()).expect("frame encodes");
    let frames = PrivateFrameDecoder::new().push(&bytes).expect("frame decodes");
    assert!(matches!(frame_payload(&frames[0]), FramePayload::Plain(_)));
    let forwarded = supervisor.forward_frame(0, &frames[0], &json("{}")).expect("forwarded");
    assert_eq!(forwarded.recipients, vec![1]);
    assert_eq!(forwarded.value.str_at("type"), Some("session_event"));
}

#[test]
fn commands_go_to_the_worker_that_was_found() {
    let mut supervisor = supervisor();
    let plan = supervisor.route(0, 0, "active-1", json("{\"type\":\"prompt\",\"activeSessionId\":\"session-1\"}"));
    match plan {
        Ok(RoutePlan::Forward(command)) => {
            assert_eq!(command.str_at("activeSessionId"), Some("active-1"))
        }
        other => panic!("unexpected plan: {other:?}"),
    }
    assert_eq!(supervisor.route(0, 0, "active-1", json("{\"type\":\"kill\"}")), Ok(RoutePlan::Stop));
    assert_eq!(
        supervisor.route(0, 0, "active-1", json("{\"type\":\"promote_owned_session\"}")),
        Err("Session is not owned by this client".to_string())
    );
    assert_eq!(
        supervisor.route(0, 0, "active-1", json("{\"type\":\"acquire_session_input_pause\"}")),
        Err("Session input pause requires leaseKey".to_string())
    );
    assert!(supervisor.route(0, 0, "active-1", json("{\"type\":\"attach\"}")).is_ok());
    assert_eq!(supervisor.attached_clients("active-1"), 1);
    assert!(asks_for_dialogs(&json("{\"capabilities\":[\"extension_ui\"]}")));
    assert!(asks_for_dialogs(&json("{\"supportsExtensionUi\":true}")));
    assert!(!asks_for_dialogs(&json("{}")));
}

#[test]
fn promoted_sessions_are_everybodys() {
    let mut supervisor = supervisor();
    let owner = supervisor.clients[0].identity();
    supervisor.workers[0].descriptor.owner_client_id = Some(owner.clone());
    assert_eq!(supervisor.find(&owner, "session-1"), Ok((0, "active-1".to_string())));
    assert!(supervisor.find("somebody-else", "session-1").is_err());
    assert_eq!(
        supervisor.route(0, 0, "active-1", json("{\"type\":\"promote_owned_session\"}")),
        Ok(RoutePlan::Promote)
    );
    assert_eq!(supervisor.workers[0].descriptor.owner_client_id, None);
    assert_eq!(supervisor.find("somebody-else", "session-1"), Ok((0, "active-1".to_string())));
    assert_eq!(supervisor.find(&owner, "session-1"), Ok((0, "active-1".to_string())));
    assert_eq!(
        supervisor.route(0, 0, "active-1", json("{\"type\":\"promote_owned_session\"}")),
        Err("Session is not owned by this client".to_string())
    );
}

#[test]
fn answers_are_finished() {
    let mut supervisor = supervisor();
    let request = RoutedCommand {
        id: Some("public-1".to_string()),
        kind: "prompt".to_string(),
        requested: "session-1".to_string(),
        active: "active-1".to_string(),
        pause_epoch: 0,
    };
    let answer = DaemonResponse::success(Some("worker_1"), "prompt", None);
    let (response, completion) = supervisor.finish(0, 0, &request, answer).expect("finished");
    assert_eq!(response.id.as_deref(), Some("public-1"));
    assert_eq!(completion, Completion::Done);
}

#[test]
fn pauses_are_released_by_their_holder() {
    let mut supervisor = supervisor();
    supervisor.pauses.insert(
        "pause-1".to_string(),
        InputPause {
            connection_id: "connection-1".to_string(),
            worker_id: "w1".to_string(),
            active: "active-1".to_string(),
            requested: "session-1".to_string(),
        },
    );
    supervisor.clients.push(PublicClient::new("connection-2"));
    let bare = json("{\"type\":\"release_session_input_pause\",\"pauseId\":\"pause-1\"}");
    assert_eq!(
        supervisor.release_input_pause(0, "pause-1", &bare),
        Err("Session input pause requires activeSessionId".to_string())
    );
    let other = json("{\"activeSessionId\":\"active-2\"}");
    assert_eq!(
        supervisor.release_input_pause(0, "pause-1", &other),
        Err("Session input pause belongs to another session: pause-1".to_string())
    );
    let body = json("{\"activeSessionId\":\"session-1\"}");
    assert_eq!(
        supervisor.release_input_pause(1, "pause-1", &body),
        Err("Session input pause is owned by another client: pause-1".to_string())
    );
    assert_eq!(supervisor.release_input_pause(0, "pause-2", &body), Ok(None));
    assert_eq!(
        supervisor.release_input_pause(0, "pause-1", &body),
        Ok(Some(("w1".to_string(), json("{\"activeSessionId\":\"active-1\"}"))))
    );
    let command = release_command("pause-1", supervisor.pauses.get("pause-1").expect("pause"));
    assert_eq!(member(&command, "pauseId"), Some(&Json::Str("pause-1".to_string())));
    let released = supervisor.begin_release(0, None);
    assert_eq!(released.len(), 1);
    assert_eq!(released[0].0, "pause-1");
    supervisor.pause_released("pause-1");
    assert!(supervisor.pauses.get("pause-1").is_none());
    assert!(!invalidated_pause().is_empty());
}

#[test]
fn detaching_ends_the_subscriptions() {
    let mut supervisor = supervisor();
    supervisor.clients[0].subscriptions.insert("active-1".to_string(), ());
    let notices = supervisor.detach(0, None);
    assert_eq!(notices, vec![detached_notice("active-1")]);
    assert_eq!(supervisor.attached_clients("active-1"), 0);
}

#[test]
fn lists_name_the_shown_sessions() {
    let supervisor = supervisor();
    let listed = supervisor.list_sessions("client");
    let sessions = listed.get("sessions").and_then(Json::as_array).expect("sessions");
    assert_eq!(sessions.len(), 1);
    assert_eq!(sessions[0].str_at("sessionId"), Some("session-1"));
    let command = supervisor.subscription_command("active-1");
    assert_eq!(member(&command, "activeSessionId"), Some(&Json::Str("active-1".to_string())));
}

#[test]
fn commands_are_answered_once() {
    let mut client = PublicClient::new("connection-1");
    let command = parse_command(
        b"{\"type\":\"command\",\"id\":\"1\",\"clientId\":\"client-1\",\"command\":{\"type\":\"prompt\"}}",
        true,
    )
    .expect("command");
    let start = client.start_line(command, true);
    assert_eq!(client.identity(), "client-1");
    assert_eq!(start.journal, Some(("client-1".to_string(), "1".to_string())));
    assert_eq!(start.kind, "prompt");
    assert!(replayed_answer(&Ok(CommandJournalBeginResult::New), "client-1", "1", "prompt").is_none());
    let pending = replayed_answer(&Ok(CommandJournalBeginResult::Pending), "client-1", "1", "prompt")
        .expect("answer");
    assert_eq!(pending.bool_at("success"), Some(false));
    assert_eq!(
        pending.get("errorInfo").and_then(|info| info.str_at("code")),
        Some("command_result_uncertain")
    );
    let done = DaemonResponse::success(Some("1"), "prompt", None);
    let complete = Ok(CommandJournalBeginResult::Complete(done.clone()));
    assert_eq!(replayed_answer(&complete, "client-1", "1", "prompt"), Some(done.to_value()));
    let unwritten = replayed_answer(&Err("disk full".to_string()), "client-1", "1", "prompt");
    assert_eq!(
        unwritten,
        Some(DaemonResponse::failure(Some("1"), "prompt", "disk full", None).to_value())
    );
    let failed = line_answer(Err("boom".to_string()), Some("1"), "prompt").expect("answer");
    assert_eq!(failed.error.as_deref(), Some("boom"));
    let lost = durable_answer(done, Err("disk".to_string()), "1", "prompt");
    assert!(!lost.success);
}

#[test]
fn stopped_workers_are_not_recovered() {
    let mut worker = descriptor("w1", "active-1");
    assert!(matches!(
        adoption(&worker, "/tmp/daemon.sock", "/tmp/daemon.sock", false),
        Adoption::Recover(_)
    ));
    assert_eq!(adoption(&worker, "/tmp/daemon.sock", "/tmp/daemon.sock", true), Adoption::Connect);
    assert_eq!(adoption(&worker, "/other", "/tmp/daemon.sock", true), Adoption::Skip);
    assert!(recovery_command(&worker).is_ok());
    assert!(retry_command(&worker, "client", "active-1").is_ok());
    let command = begin_stop(&mut worker, true, "now");
    assert_eq!(
        member(&command, "type"),
        Some(&Json::Str("worker_archive_and_shutdown".to_string()))
    );
    assert_eq!(adoption(&worker, "/tmp/daemon.sock", "/tmp/daemon.sock", false), Adoption::Skip);
    assert_eq!(
        retry_command(&worker, "client", "active-1"),
        Err("Session worker is stopping".to_string())
    );
    assert_eq!(stop_step("w1", false, true), Ok(StopStep::Gone));
    assert_eq!(stop_step("w1", true, false), Ok(StopStep::Wait));
    assert_eq!(
        stop_step("w1", true, true),
        Err("Session worker w1 is still stopping".to_string())
    );
}

#[test]
fn launched_workers_keep_their_session() {
    let launch =
        plan_launch(None, "w1", "active-1", "/tmp/w.sock", "token", "instance", "/descriptors");
    assert_eq!(launch.recovery_journal, "/descriptors/w1.recovery.jsonl");
    let mut worker = starting_descriptor(
        &launch,
        &WorkerProcess { pid: 7, process_start_id: None },
        None,
        &json("{\"type\":\"create\"}"),
        "client",
        "/tmp/daemon.sock",
        None,
        None,
        "now",
    );
    assert_eq!(worker.worker_id, "w1");
    assert_eq!(worker.lifecycle, "starting");
    assert!(is_root_of(&worker, "active-1"));
    assert!(launched(&mut worker, &json("{\"activeSessionId\":\"other\"}")).is_err());
    assert!(
        launched(
            &mut worker,
            &json("{\"activeSessionId\":\"active-1\",\"sessionId\":\"s\",\"sessionFile\":\"/s\"}")
        )
        .is_ok()
    );
    assert_eq!(worker.lifecycle, "ready");
    launch_failed(&mut worker, "boom");
    assert_eq!(worker.consecutive_failures, 1);
    assert_eq!(worker.last_error.as_deref(), Some("boom"));
    assert!(!exited_error(&worker).is_empty());
    let environment = worker_environment(
        Environment::new(),
        &Vec::new(),
        &launch,
        "/tmp/daemon.sock",
        "ORPHANS",
    );
    assert_eq!(
        environment.get("PRIME_AGENT_INTERNAL_DAEMON_WORKER_TOKEN").map(String::as_str),
        Some("token")
    );
    assert_eq!(
        environment.get("PRIME_AGENT_INTERNAL_DAEMON_SUPERVISOR_SOCKET").map(String::as_str),
        Some("/tmp/daemon.sock")
    );
    let created = forwarded_create(&vec![("type".to_string(), json("\"create\""))], json("{\"cwd\":\"/w\"}"));
    assert_eq!(member(&created, "config"), Some(&json("{\"cwd\":\"/w\"}")));
}

#[test]
fn configurations_are_read_back() {
    let document = supervisor_configuration("/tmp/daemon.sock", json("{\"cwd\":\"/w\"}"));
    assert_eq!(
        persisted_session_config(&document, "/tmp/daemon.sock"),
        Some(json("{\"cwd\":\"/w\"}"))
    );
    assert_eq!(persisted_session_config(&document, "/tmp/other.sock"), None);
}

#[test]
fn small_decisions() {
    assert_eq!(connect_step(Ok(()), true), Ok(ConnectStep::Connected));
    assert_eq!(connect_step(Err("no".to_string()), false), Ok(ConnectStep::Retry));
    assert_eq!(connect_step(Err("no".to_string()), true), Err("no".to_string()));
    let listing = "{\"sessions\":[{\"activeSessionId\":\"a\",\"id\":\"a\",\"sessionId\":\"s\"}]}";
    let data = DaemonResponse::success(None, "list", Some(json(listing)));
    assert_eq!(listed_sessions(data.clone()).expect("sessions").len(), 1);
    assert_eq!(response_data(data), Ok(json(listing)));
    let wrong = DaemonResponse::success(None, "list", Some(json("{\"sessions\":[1]}")));
    assert_eq!(
        listed_sessions(wrong),
        Err("Session worker returned an invalid list response".to_string())
    );
    let failed = DaemonResponse::failure(None, "list", "boom", None);
    assert_eq!(response_data(failed), Err("boom".to_string()));
    let offered =
        server_capabilities(&vec!["slim_attach".to_string(), "extension_ui".to_string()]);
    assert!(!offered.contains(&"slim_attach".to_string()));
    assert!(offered.contains(&"extension_ui".to_string()));
    assert!(descriptor_directory("/agent", "/tmp/daemon.sock").contains(&descriptor_key("/tmp/daemon.sock")));
    assert!(seed_message(&json("{}")).is_none());
    let token = fresh_token();
    assert_eq!(token.len(), 43);
    assert!(token.chars().all(|c| c.is_ascii_alphanumeric() || c == '-' || c == '_'));
    assert_ne!(token, fresh_token());
}

#[test]
fn public_connections_are_split_into_lines() {
    let defaults: TextMap<()> = TextMap::new();
    let mut client = connect_client("client-1", false, &defaults, &Vec::new());
    assert_eq!(client.id(), "client-1");
    let step =
        handle_connection(&mut client, false, ConnectionEvent::Bytes(b"{\"type\":\"x\"}\n".to_vec()));
    assert_eq!(step, ConnectionStep::Split(b"{\"type\":\"x\"}\n".to_vec()));
    assert!(matches!(
        handle_connection(&mut client, false, ConnectionEvent::Closed),
        ConnectionStep::EndLines
    ));
    let hello = server_hello("/tmp/daemon.sock", &facts(), "client-1", &vec!["a".to_string()]);
    assert_eq!(hello.str_at("type"), Some("daemon_hello"));
    assert_eq!(hello.str_at("clientId"), Some("client-1"));
}

#[test]
fn worker_connections_are_decoded() {
    let defaults: TextMap<()> = TextMap::new();
    let mut client = connect_client("client-1", true, &defaults, &Vec::new());
    let header =
        json("{\"kind\":\"command\",\"requestId\":\"auth-1\",\"commandType\":\"worker_auth\"}");
    let bytes = encode_private_frame(&header, b"{\"type\":\"worker_auth\"}").expect("frame encodes");
    assert_eq!(
        handle_connection(&mut client, true, ConnectionEvent::Bytes(bytes)),
        ConnectionStep::Dispatch(vec![b"{\"type\":\"worker_auth\"}".to_vec()])
    );
    assert_eq!(
        handle_connection(&mut client, true, ConnectionEvent::Stopped),
        ConnectionStep::End(None)
    );
    assert_eq!(supervisor_to_check(false, &client, Some("/tmp/daemon.sock")), None);
    assert_eq!(signal_exit_code(StopSignal::Interrupt), 130);
    assert_eq!(signal_exit_code(StopSignal::Terminate), 143);
    assert_eq!(signal_exit_code(StopSignal::Hangup), 129);
    let mut writer = DaemonClientWriter::new();
    assert!(writer.write("line".to_string()));
    assert_eq!(writer.take_lines(), vec!["line".to_string()]);
    writer.end();
    assert!(!writer.write("late".to_string()));
    let base = AgentSessionRuntimeConfig {
        cwd: Some("/a".to_string()),
        agent_dir: None,
        session_dir: None,
        provider: None,
        model: None,
        thinking_level: None,
        telemetry_disabled: None,
        api_key: None,
        extra: Vec::new(),
    };
    let merged = merge_agent_session_runtime_config(
        &base,
        Some(&AgentSessionRuntimeConfig { cwd: Some("/b".to_string()), ..base.clone() }),
    );
    assert_eq!(merged.cwd.as_deref(), Some("/b"));
}

#[test]
fn sessions_are_picked_from_a_list() {
    let sessions = vec![
        json("{\"id\":\"a\",\"sessionFile\":\"/a.jsonl\"}"),
        json("{\"id\":\"b\",\"activeSessionId\":\"c\",\"sessionFile\":\"/b.jsonl\"}"),
    ];
    assert_eq!(session_with(&sessions, "sessionFile", "/b.jsonl"), Some(sessions[1].clone()));
    assert_eq!(session_with(&sessions, "sessionFile", "/c.jsonl"), None);
    assert_eq!(active_session(&sessions, "a"), Some(sessions[0].clone()));
    assert_eq!(active_session(&sessions, "c"), Some(sessions[1].clone()));
    assert_eq!(active_session(&sessions, "b"), None);
}
