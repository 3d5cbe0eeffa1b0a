use pi_daemon::daemon_worker_client::{
    DaemonWorkerClient, PrivateFrameDecoder, authentication_result, encode_private_frame,
    peer_auth_command, worker_auth_command,
};
use pi_daemon::daemon_worker_protocol::{
    DAEMON_WORKER_INSTANCE_ID_ENV, DAEMON_WORKER_ROLE_ENV, DAEMON_WORKER_STARTUP_GATE_COMMIT,
    DAEMON_WORKER_STARTUP_GATE_FD_ENV, DAEMON_WORKER_TOKEN_ENV, DaemonPeerTransportTicket,
    DaemonWorkerRosterOutbound, Environment, StartupGate, check_startup_marker,
    daemon_worker_instance_id, durable_create_command_from_value, durable_daemon_create_command,
    file_name, hello_from_value, is_daemon_worker_frame_header, is_daemon_worker_process, join_path,
    parse_i32, require_daemon_worker_authentication_token, trim_trailing_separators,
    wait_for_daemon_worker_startup_gate, worker_command, worker_command_body,
};
use pi_daemon::json::{Json, parse_json, print_json, set_member};
use pi_daemon::protocol::{DaemonClientError, DaemonCommand, DaemonResponse};

fn json(text: &str) -> Json {
    parse_json(text.as_bytes()).expect("document")
}

fn with(value: Json, key: &str, member: Json) -> Json {
    match value {
        Json::Object(mut members) => {
            set_member(&mut members, key, member);
            Json::Object(members)
        }
        other => other,
    }
}

#[test]
fn frame_round_trip() {
    let header = json(
        "{\"kind\":\"outbound\",\"outboundType\":\"session_event\",\"activeSessionId\":\"abc\"}",
    );
    let frame = encode_private_frame(&header, b"{\"a\":1}\n").expect("frame encodes");
    let mut decoder = PrivateFrameDecoder::new();
    let frames = decoder.push(&frame).expect("frame decodes");
    assert_eq!(frames.len(), 1);
    assert_eq!(frames[0].payload, b"{\"a\":1}\n");
    assert_eq!(frames[0].header.str_at("outboundType"), Some("session_event"));
    assert!(decoder.finish().is_ok());
}

#[test]
fn decoder_waits_for_a_complete_frame() {
    let header =
        json("{\"kind\":\"command\",\"requestId\":\"r\",\"commandType\":\"worker_auth\"}");
    let frame = encode_private_frame(&header, b"payload").expect("frame encodes");
    let mut decoder = PrivateFrameDecoder::new();
    assert!(decoder.push(&frame[..4]).expect("partial push").is_empty());
    assert_eq!(decoder.buffered_bytes(), 4);
    let frames = decoder.push(&frame[4..]).expect("rest decodes");
    assert_eq!(frames.len(), 1);
    assert_eq!(frames[0].payload, b"payload");
}

#[test]
fn decoder_rejects_an_invalid_routing_header() {
    let header = json("{\"kind\":\"nope\"}");
    let frame = encode_private_frame(&header, b"").expect("frame encodes");
    let mut decoder = PrivateFrameDecoder::new();
    assert_eq!(decoder.push(&frame), Err("Invalid private frame routing header".to_string()));
}

#[test]
fn decoder_reports_incomplete_bytes_on_finish() {
    let header = json("{\"kind\":\"command\",\"requestId\":\"r\",\"commandType\":\"x\"}");
    let frame = encode_private_frame(&header, b"abc").expect("frame encodes");
    let mut decoder = PrivateFrameDecoder::new();
    decoder.push(&frame[..10]).expect("partial push");
    assert_eq!(
        decoder.finish(),
        Err("Private frame channel ended with 10 incomplete bytes".to_string())
    );
}

#[test]
fn empty_header_is_rejected() {
    assert_eq!(encode_private_frame(&json("{}"), &[]).map(|_| ()), Ok(()));
}

#[test]
fn frames_begin_with_both_lengths() {
    let header = json("{\"kind\":\"command\",\"requestId\":\"r\",\"commandType\":\"x\"}");
    let printed = print_json(&header);
    let frame = encode_private_frame(&header, b"abc").expect("frame encodes");
    assert_eq!(frame[..4], (printed.len() as u32).to_be_bytes());
    assert_eq!(frame[4..8], 3u32.to_be_bytes());
    assert_eq!(&frame[8..8 + printed.len()], printed.as_bytes());
    assert_eq!(&frame[8 + printed.len()..], b"abc");
}

#[test]
fn any_chunking_gives_the_same_frames() {
    let header = json("{\"kind\":\"command\",\"requestId\":\"r\",\"commandType\":\"x\"}");
    let mut bytes = encode_private_frame(&header, b"one").expect("frame encodes");
    bytes.extend(encode_private_frame(&header, b"two").expect("frame encodes"));
    let mut decoder = PrivateFrameDecoder::new();
    let mut payloads = Vec::new();
    for byte in &bytes {
        for frame in decoder.push(&[*byte]).expect("frame decodes") {
            payloads.push(frame.payload);
        }
    }
    assert_eq!(payloads, vec![b"one".to_vec(), b"two".to_vec()]);
    assert!(decoder.finish().is_ok());
}

#[test]
fn lengths_over_the_limits_are_refused() {
    let mut decoder = PrivateFrameDecoder::new();
    assert!(decoder.push(&[0, 0, 0, 0, 0, 0, 0, 0]).is_err());
    let mut decoder = PrivateFrameDecoder::new();
    assert!(decoder.push(&[0xff, 0xff, 0xff, 0xff, 0, 0, 0, 0]).is_err());
    let mut decoder = PrivateFrameDecoder::new();
    assert!(decoder.push(&[0, 0, 0, 2, 0xff, 0xff, 0xff, 0xff]).is_err());
    let mut decoder = PrivateFrameDecoder::new();
    assert!(decoder.push(&[0, 0, 0, 1, 0, 0, 0, 0, b'{']).is_err());
}

#[test]
fn frame_header_validation_matches_the_typescript() {
    assert!(is_daemon_worker_frame_header(&json(
        "{\"kind\":\"command\",\"requestId\":\"worker_1\",\"commandType\":\"worker_auth\"}"
    )));
    assert!(!is_daemon_worker_frame_header(&json(
        "{\"kind\":\"command\",\"requestId\":1,\"commandType\":\"worker_auth\"}"
    )));
    assert!(is_daemon_worker_frame_header(&json(
        "{\"kind\":\"outbound\",\"outboundType\":\"daemon_hello\",\"payloadEncoding\":\"jsonl\"}"
    )));
    assert!(!is_daemon_worker_frame_header(&json(
        "{\"kind\":\"outbound\",\"outboundType\":\"daemon_hello\",\"payloadEncoding\":\"protobuf\"}"
    )));
    assert!(!is_daemon_worker_frame_header(&json("{\"kind\":\"other\"}")));
}

#[test]
fn durable_create_command_keeps_only_the_persisted_fields() {
    let mut command = DaemonCommand::new("create");
    command.set_text("sessionPath", "/tmp/s.jsonl");
    command.set("config", json("{\"cwd\":\"/tmp\"}"));
    let durable = durable_daemon_create_command(&command);
    assert_eq!(durable.type_, "create");
    assert_eq!(durable.session_path.as_deref(), Some("/tmp/s.jsonl"));
    assert!(durable.no_session.is_none());
    assert!(durable_create_command_from_value(&json("{\"type\":\"create\"}")).is_some());
    assert!(durable_create_command_from_value(&json("{}")).is_none());
}

#[test]
fn worker_environment_helpers() {
    let mut environment = Environment::new();
    assert!(!is_daemon_worker_process(&environment));
    environment.insert(DAEMON_WORKER_ROLE_ENV.to_string(), "1".to_string());
    assert!(is_daemon_worker_process(&environment));
    environment.insert(DAEMON_WORKER_INSTANCE_ID_ENV.to_string(), "".to_string());
    assert!(daemon_worker_instance_id(&environment).is_none());
    environment.insert(DAEMON_WORKER_INSTANCE_ID_ENV.to_string(), "abc".to_string());
    assert_eq!(daemon_worker_instance_id(&environment).as_deref(), Some("abc"));
    assert_eq!(
        require_daemon_worker_authentication_token(&environment),
        Err("Daemon session worker is missing its authentication token".to_string())
    );
    environment.insert(DAEMON_WORKER_TOKEN_ENV.to_string(), "token".to_string());
    assert_eq!(require_daemon_worker_authentication_token(&environment).unwrap(), "token");
}

#[test]
fn startup_gate_rejects_an_invalid_fd() {
    let mut environment = Environment::new();
    environment.insert(DAEMON_WORKER_STARTUP_GATE_FD_ENV.to_string(), "nope".to_string());
    assert_eq!(
        wait_for_daemon_worker_startup_gate(&mut environment),
        Err("Daemon session worker has an invalid startup gate".to_string())
    );
    assert!(!environment.contains_key(DAEMON_WORKER_STARTUP_GATE_FD_ENV));
}

#[test]
fn startup_gates_are_taken_once() {
    let mut environment = Environment::new();
    environment.insert(DAEMON_WORKER_STARTUP_GATE_FD_ENV.to_string(), "7".to_string());
    assert_eq!(wait_for_daemon_worker_startup_gate(&mut environment), Ok(StartupGate::Descriptor(7)));
    assert_eq!(wait_for_daemon_worker_startup_gate(&mut environment), Ok(StartupGate::Open));
    environment.insert(DAEMON_WORKER_STARTUP_GATE_FD_ENV.to_string(), "2".to_string());
    assert!(wait_for_daemon_worker_startup_gate(&mut environment).is_err());
    assert!(check_startup_marker(DAEMON_WORKER_STARTUP_GATE_COMMIT).is_ok());
    assert!(check_startup_marker("").is_err());
    assert_eq!(parse_i32("-12"), Some(-12));
    assert_eq!(parse_i32("+12"), Some(12));
    assert_eq!(parse_i32("2147483648"), None);
    assert_eq!(parse_i32(""), None);
}

#[test]
fn peer_ticket_parsing_requires_identity_and_purpose() {
    let value = json(
        "{\"purpose\":\"session_client\",\"socketPath\":\"/tmp/w.sock\",\"socketIdentity\":{\"dev\":1,\"ino\":2},\"workerInstanceId\":\"w1\",\"activeSessionId\":\"a1\",\"grantId\":\"g1\",\"token\":\"t\",\"expiresAt\":\"2030-01-01T00:00:00.000Z\"}",
    );
    assert!(DaemonPeerTransportTicket::from_value(&value).is_some());
    let broken = with(value.clone(), "socketIdentity", json("{\"dev\":1}"));
    assert!(DaemonPeerTransportTicket::from_value(&broken).is_none());
    let wrong_purpose = with(value, "purpose", Json::Str("supervisor".to_string()));
    assert!(DaemonPeerTransportTicket::from_value(&wrong_purpose).is_none());
}

#[test]
fn requests_are_settled_by_their_answers() {
    let mut client = DaemonWorkerClient::new("/tmp/w.sock");
    assert!(!client.is_connected());
    let refused = client.begin_request(&DaemonCommand::new("list"));
    assert!(refused.is_err());
    client.connected = true;
    let first = client.begin_request(&DaemonCommand::new("list")).expect("request");
    let second = client.begin_request(&DaemonCommand::new("list")).expect("request");
    assert_ne!(first.id, second.id);
    let mut decoder = PrivateFrameDecoder::new();
    let sent = decoder.push(&first.frame).expect("frame decodes").remove(0);
    assert_eq!(sent.header.str_at("requestId"), Some(first.id.as_str()));
    assert_eq!(sent.header.str_at("commandType"), Some("list"));

    let answer = DaemonResponse::success(Some(&first.id), "list", None);
    let header = json(&format!(
        "{{\"kind\":\"outbound\",\"outboundType\":\"response\",\"requestId\":\"{}\"}}",
        first.id
    ));
    let bytes = encode_private_frame(&header, print_json(&answer.to_value()).as_bytes())
        .expect("frame encodes");
    let frame = PrivateFrameDecoder::new().push(&bytes).expect("frame decodes").remove(0);
    let outcome = client.handle_frame(&frame);
    let (id, result) = outcome.settled.expect("settled");
    assert_eq!(id, first.id);
    assert_eq!(result, Ok(answer));
    assert_eq!(client.pending, vec![second.id.clone()]);
    assert!(client.take_pending(&second.id));
    assert!(!client.take_pending(&second.id));
    assert_eq!(client.close(), Vec::<String>::new());
    assert!(!client.is_connected());
}

#[test]
fn hellos_are_remembered() {
    let mut client = DaemonWorkerClient::new("/tmp/w.sock");
    let header = json("{\"kind\":\"outbound\",\"outboundType\":\"daemon_hello\"}");
    let hello = "{\"type\":\"daemon_hello\",\"protocol\":{\"name\":\"p\",\"version\":1},\"serverCapabilities\":[\"peer_transport\"]}";
    let bytes = encode_private_frame(&header, hello.as_bytes()).expect("frame encodes");
    let frame = PrivateFrameDecoder::new().push(&bytes).expect("frame decodes").remove(0);
    let known = hello_from_value(&json(hello)).is_some();
    let outcome = client.handle_frame(&frame);
    assert_eq!(outcome.hello, known);
    assert_eq!(client.hello().is_some(), known);
    assert_eq!(client.supports_server_capability("peer_transport"), known);
    assert!(!client.supports_server_capability("other"));
}

#[test]
fn authentication_says_what_failed() {
    let good = DaemonResponse::success(None, "worker_auth", None);
    assert!(authentication_result(good).is_ok());
    let bad = DaemonResponse::failure(None, "worker_auth", "no", None);
    assert_eq!(authentication_result(bad), Err("no".to_string()));
    let owner = vec![("supervisorPid".to_string(), json("7"))];
    let command = worker_auth_command("secret", &owner);
    assert_eq!(command.type_, "worker_auth");
    assert_eq!(command.string_field("token"), Some("secret"));
    assert_eq!(command.field("supervisorPid"), Some(&json("7")));

    let ticket = DaemonPeerTransportTicket::from_value(&json(
        "{\"purpose\":\"session_client\",\"socketPath\":\"/tmp/w.sock\",\"socketIdentity\":{\"dev\":1,\"ino\":2},\"workerInstanceId\":\"w1\",\"activeSessionId\":\"a1\",\"grantId\":\"g1\",\"token\":\"t\",\"expiresAt\":\"2030-01-01T00:00:00.000Z\"}",
    ))
    .expect("ticket");
    assert_eq!(peer_auth_command(&ticket).string_field("grantId"), Some("g1"));
    let mut client = DaemonWorkerClient::new("/tmp/w.sock");
    assert!(client.peer_authenticated(DaemonResponse::failure(None, "peer_auth", "no", None)).is_err());
    assert!(!client.direct_peer);
    assert!(client.peer_authenticated(DaemonResponse::success(None, "peer_auth", None)).is_ok());
    assert!(client.direct_peer);
    match client.direct_close_error(DaemonClientError::Message("gone".to_string())) {
        DaemonClientError::SocketClosed(_) => {}
        other => panic!("unexpected error: {other:?}"),
    }
}

#[test]
fn worker_commands_keep_their_fields() {
    let fields = vec![("a".to_string(), json("1"))];
    let command = worker_command("worker_status", &fields);
    assert_eq!(command.type_, "worker_status");
    assert_eq!(command.field("a"), Some(&json("1")));
    let body = worker_command_body(&command);
    assert!(body.iter().any(|(key, value)| key == "a" && *value == json("1")));
    assert_eq!(
        DaemonWorkerRosterOutbound::RosterHeartbeat.to_value().str_at("type"),
        Some("roster_heartbeat")
    );
}

#[test]
fn paths_are_taken_apart() {
    assert_eq!(file_name("/tmp/w.sock"), "w.sock");
    assert_eq!(trim_trailing_separators("/tmp//"), "/tmp");
    assert_eq!(join_path("/tmp", "w"), "/tmp/w");
}

#[test]
fn requests_that_cannot_be_framed_use_up_their_id() {
    let mut client = DaemonWorkerClient::new("/tmp/w.sock");
    assert_eq!(
        client.begin_request(&DaemonCommand::new("list")).err(),
        Some("Daemon worker client is not connected".to_string())
    );
    client.connected = true;
    let long = "x".repeat(1_048_576);
    let error = client.begin_request(&DaemonCommand::new(&long)).err().expect("refused");
    assert!(error.starts_with("Invalid private frame header length: 1048"));
    assert!(client.pending.is_empty());
    let request = client.begin_request(&DaemonCommand::new("list")).expect("request");
    assert_eq!(request.id, "worker_2");
}
