use pi_daemon::assistant_message::{
    AssistantMessage, AssistantMessageEvent, ContentBlock, TEXT_CONTENT_TYPE, TOOL_CALL_TYPE,
    TextContent, ToolCall,
};
use pi_daemon::compact_session_stream::{
    CompactAssistantDelta, CompactAssistantStreamReconstructor, create_compact_assistant_delta,
    is_compact_assistant_delta,
};
use pi_daemon::json::{Json, parse_json};

fn json(text: &str) -> Json {
    parse_json(text.as_bytes()).expect("document")
}

fn usage() -> &'static str {
    "{\"input\":0,\"output\":0,\"cacheRead\":0,\"cacheWrite\":0,\"totalTokens\":0,\"cost\":{\"input\":0,\"output\":0,\"cacheRead\":0,\"cacheWrite\":0,\"total\":0}}"
}

fn assistant_message(text: &str) -> String {
    format!(
        "{{\"role\":\"assistant\",\"content\":[{{\"type\":\"text\",\"text\":\"{text}\"}}],\"api\":\"openai-completions\",\"provider\":\"openai\",\"model\":\"gpt\",\"usage\":{},\"stopReason\":\"stop\",\"timestamp\":0}}",
        usage()
    )
}

fn partial_with_text(text: &str) -> AssistantMessage {
    AssistantMessage {
        role: "assistant".to_string(),
        content: vec![ContentBlock::Text(TextContent {
            type_: TEXT_CONTENT_TYPE.to_string(),
            text: text.to_string(),
            text_signature: None,
        })],
        api: "openai-completions".to_string(),
        provider: "openai".to_string(),
        model: "gpt".to_string(),
        response_model: None,
        response_id: None,
        diagnostics: None,
        usage: json(usage()),
        stop_reason: "stop".to_string(),
        stop_reason_raw: None,
        error_message: None,
        timestamp: 0,
    }
}

fn delta(active_session_id: &str, event: AssistantMessageEvent) -> CompactAssistantDelta {
    CompactAssistantDelta {
        type_: "assistant_stream_delta".to_string(),
        active_session_id: active_session_id.to_string(),
        assistant_message_event: event,
        content_start: None,
        tool_call_arguments: None,
        meta: None,
    }
}

fn text_delta(active_session_id: &str, text: &str) -> CompactAssistantDelta {
    delta(
        active_session_id,
        AssistantMessageEvent::TextDelta { content_index: 0, delta: text.to_string() },
    )
}

fn at<'a>(value: &'a Json, keys: &[&str]) -> &'a Json {
    let mut here = value;
    for key in keys {
        here = match here {
            Json::Array(values) => &values[key.parse::<usize>().expect("index")],
            other => other.get(key).expect("member"),
        };
    }
    here
}

#[test]
fn creates_a_compact_delta_from_a_message_update() {
    let outbound = json(&format!(
        "{{\"type\":\"session_event\",\"activeSessionId\":\"a\",\"event\":{{\"type\":\"message_update\",\"message\":{0},\"assistantMessageEvent\":{{\"type\":\"text_delta\",\"contentIndex\":0,\"delta\":\"hi\",\"partial\":{0}}}}}}}",
        assistant_message("hi")
    ));
    let delta = create_compact_assistant_delta(&outbound).expect("parses").expect("delta");
    assert_eq!(delta.type_, "assistant_stream_delta");
    assert_eq!(delta.active_session_id, "a");
    assert!(matches!(delta.assistant_message_event, AssistantMessageEvent::TextDelta { .. }));
    assert!(is_compact_assistant_delta(&delta.to_value()));
}

#[test]
fn content_start_carries_an_empty_block() {
    let outbound = json(&format!(
        "{{\"type\":\"session_event\",\"activeSessionId\":\"a\",\"event\":{{\"type\":\"message_update\",\"message\":{},\"assistantMessageEvent\":{{\"type\":\"text_start\",\"contentIndex\":0}}}}}}",
        assistant_message("hi")
    ));
    let delta = create_compact_assistant_delta(&outbound).expect("parses").expect("delta");
    match delta.content_start {
        Some(ContentBlock::Text(text)) => assert!(text.text.is_empty()),
        other => panic!("unexpected content start: {other:?}"),
    }
}

#[test]
fn non_message_update_events_are_ignored() {
    assert!(
        create_compact_assistant_delta(&json(
            "{\"type\":\"session_event\",\"event\":{\"type\":\"message_start\"}}"
        ))
        .expect("parses")
        .is_none()
    );
    assert!(
        create_compact_assistant_delta(&json("{\"type\":\"session_replaced\"}"))
            .expect("parses")
            .is_none()
    );
}

#[test]
fn broken_updates_are_errors() {
    let outbound = json(
        "{\"type\":\"session_event\",\"activeSessionId\":\"a\",\"event\":{\"type\":\"message_update\",\"message\":{\"role\":\"assistant\"},\"assistantMessageEvent\":{\"type\":\"text_start\",\"contentIndex\":0}}}",
    );
    assert!(create_compact_assistant_delta(&outbound).is_err());
}

#[test]
fn reconstruction_rebuilds_text_updates() {
    let mut reconstructor = CompactAssistantStreamReconstructor::new();
    reconstructor.seed("a", partial_with_text(""));
    let rebuilt = reconstructor.reconstruct(&text_delta("a", "hello"), &Json::Null).expect("rebuilt");
    assert_eq!(at(&rebuilt, &["event", "type"]).as_str(), Some("message_update"));
    assert_eq!(
        at(&rebuilt, &["event", "message", "content", "0", "text"]).as_str(),
        Some("hello")
    );
    let rebuilt = reconstructor.reconstruct(&text_delta("a", "!"), &Json::Null).expect("rebuilt");
    assert_eq!(
        at(&rebuilt, &["event", "message", "content", "0", "text"]).as_str(),
        Some("hello!")
    );
}

#[test]
fn reconstruction_returns_none_without_a_partial() {
    let mut reconstructor = CompactAssistantStreamReconstructor::new();
    assert!(reconstructor.reconstruct(&text_delta("missing", "x"), &Json::Null).is_none());
}

#[test]
fn observe_clears_on_message_end_and_session_replacement() {
    let mut reconstructor = CompactAssistantStreamReconstructor::new();
    reconstructor.seed("a", partial_with_text("x"));
    reconstructor.observe(&json(&format!(
        "{{\"type\":\"session_event\",\"activeSessionId\":\"a\",\"event\":{{\"type\":\"message_end\",\"message\":{}}}}}",
        assistant_message("x")
    )));
    let delta = text_delta("a", "x");
    assert!(reconstructor.reconstruct(&delta, &Json::Null).is_none());

    reconstructor.seed("a", partial_with_text("x"));
    reconstructor.observe(&json("{\"type\":\"session_replaced\",\"activeSessionId\":\"a\"}"));
    assert!(reconstructor.reconstruct(&delta, &Json::Null).is_none());
}

#[test]
fn observe_takes_up_a_new_message() {
    let mut reconstructor = CompactAssistantStreamReconstructor::new();
    reconstructor.observe(&json(&format!(
        "{{\"type\":\"session_event\",\"activeSessionId\":\"a\",\"event\":{{\"type\":\"message_start\",\"message\":{}}}}}",
        assistant_message("so far")
    )));
    let rebuilt = reconstructor.reconstruct(&text_delta("a", " more"), &Json::Null).expect("rebuilt");
    assert_eq!(
        at(&rebuilt, &["event", "message", "content", "0", "text"]).as_str(),
        Some("so far more")
    );
}

#[test]
fn tool_call_deltas_accumulate_partial_json() {
    let mut reconstructor = CompactAssistantStreamReconstructor::new();
    let mut message = partial_with_text("");
    message.content = vec![ContentBlock::ToolCall(ToolCall {
        type_: TOOL_CALL_TYPE.to_string(),
        id: "t1".to_string(),
        name: "bash".to_string(),
        arguments: Vec::new(),
        thought_signature: None,
    })];
    reconstructor.seed("a", message);
    let delta = delta(
        "a",
        AssistantMessageEvent::ToolCallDelta {
            content_index: 0,
            delta: "{\"cmd\":\"ls\"}".to_string(),
        },
    );
    let spelled = reconstructor.streamed_text(&delta).expect("fragments");
    assert_eq!(spelled, "{\"cmd\":\"ls\"}");
    let rebuilt = reconstructor.reconstruct(&delta, &json(&spelled)).expect("rebuilt");
    assert_eq!(
        at(&rebuilt, &["event", "message", "content", "0", "arguments", "cmd"]).as_str(),
        Some("ls")
    );
}

#[test]
fn deltas_are_read_back() {
    let mut sent = text_delta("a", "hello");
    sent.meta = Some(json("{\"sequence\":7}"));
    let value = sent.to_value();
    let read = CompactAssistantDelta::from_value(&value).expect("delta");
    assert_eq!(read.to_value(), value);
    assert!(CompactAssistantDelta::from_value(&json("{\"type\":\"other\"}")).is_none());
}

#[test]
fn messages_are_read_back() {
    let value = json(&assistant_message("hi"));
    let message = AssistantMessage::from_value(&value).expect("message");
    assert_eq!(message.to_value(), value);
    assert!(AssistantMessage::from_value(&Json::Null).is_none());
}

#[test]
fn deltas_are_read_from_lists() {
    let sent = text_delta("a", "hello");
    let value = sent.to_value();
    let event = value.get("assistantMessageEvent").expect("event").clone();
    let mut fields = vec![Json::Str("other".to_string()), Json::Str("a".to_string()), event];
    let read = CompactAssistantDelta::from_value(&Json::Array(fields.clone())).expect("delta");
    assert_eq!(read.type_, "other");
    assert_eq!(read.active_session_id, "a");
    assert_eq!(read.assistant_message_event, sent.assistant_message_event);
    fields.push(Json::Null);
    fields.push(Json::Null);
    fields.push(json("{\"sequence\":7}"));
    let read = CompactAssistantDelta::from_value(&Json::Array(fields.clone())).expect("delta");
    assert_eq!(read.meta, Some(json("{\"sequence\":7}")));
    fields.push(Json::Null);
    assert!(CompactAssistantDelta::from_value(&Json::Array(fields.clone())).is_none());
    fields.truncate(2);
    assert!(CompactAssistantDelta::from_value(&Json::Array(fields)).is_none());
}
