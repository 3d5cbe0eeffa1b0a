//! The compact stream of an assistant's message: updates go over the wire without
//! the message they update, and the client builds that message again.

use vstd::prelude::*;

use crate::assistant_message;
use crate::assistant_message::{
    AssistantMessage,
    AssistantMessageEvent,
    BlockV,
    ContentBlock,
    EventV,
    MessageV,
    TextContent,
    ThinkingContent,
    ToolCall,
    ToolCallV,
    clone_members,
    read_block,
    read_event,
};
use crate::json;
use crate::json::{Json, JsonV};
use crate::text;
use crate::text::{cat2, cat3, decimal};
use crate::text_map::TextMap;

verus! {

/// An update without the message it updates.
#[derive(Debug, PartialEq)]
pub struct CompactAssistantDelta {
    pub type_: String,
    pub active_session_id: String,
    pub assistant_message_event: AssistantMessageEvent,
    /// The block that begins with this event, still empty.
    pub content_start: Option<ContentBlock>,
    /// The arguments of the tool call after this event.
    pub tool_call_arguments: Option<Vec<(String, Json)>>,
    pub meta: Option<Json>,
}

/// What a compact update says.
#[verifier::ext_equal]
pub struct DeltaV {
    pub type_: Seq<char>,
    pub active_session_id: Seq<char>,
    pub event: EventV,
    pub content_start: Option<BlockV>,
    pub arguments: Option<Seq<(Seq<char>, JsonV)>>,
    pub meta: Option<JsonV>,
}

/// What an optional block says.
pub open spec fn opt_block(block: Option<ContentBlock>) -> Option<BlockV> {
    match block {
        Some(block) => Some(block@),
        None => None,
    }
}

/// What optional members say.
pub open spec fn opt_members(pairs: Option<Vec<(String, Json)>>) -> Option<
    Seq<(Seq<char>, JsonV)>,
> {
    match pairs {
        Some(pairs) => Some(json::members(pairs@)),
        None => None,
    }
}

impl View for CompactAssistantDelta {
    type V = DeltaV;

    open spec fn view(&self) -> DeltaV {
        DeltaV {
            type_: self.type_@,
            active_session_id: self.active_session_id@,
            event: self.assistant_message_event@,
            content_start: opt_block(self.content_start),
            arguments: opt_members(self.tool_call_arguments),
            meta: json::opt_json(self.meta),
        }
    }
}

/// The block of a message at an index.
pub open spec fn block_at(message: MessageV, index: usize) -> Option<BlockV> {
    if index < message.content.len() {
        Some(message.content[index as int])
    } else {
        None
    }
}

/// The arguments that go with an event: those of the tool call that it extends.
pub open spec fn sent_arguments(message: MessageV, event: EventV) -> Option<
    Seq<(Seq<char>, JsonV)>,
> {
    match event {
        EventV::ToolCallDelta { index, .. } => match block_at(message, index) {
            Some(BlockV::ToolCall(call)) => Some(call.arguments),
            _ => None,
        },
        _ => None,
    }
}

/// The block that goes with an event: the one that it begins, emptied.
pub open spec fn sent_start(message: MessageV, event: EventV) -> Option<BlockV> {
    match event {
        EventV::TextStart { index } => match block_at(message, index) {
            Some(BlockV::Text { type_, text, signature }) => Some(
                BlockV::Text { type_, text: Seq::empty(), signature },
            ),
            _ => None,
        },
        EventV::ThinkingStart { index } => match block_at(message, index) {
            Some(BlockV::Thinking { type_, thinking, signature, redacted }) => Some(
                BlockV::Thinking { type_, thinking: Seq::empty(), signature, redacted },
            ),
            _ => None,
        },
        EventV::ToolCallStart { index } => match block_at(message, index) {
            Some(BlockV::ToolCall(call)) => Some(
                BlockV::ToolCall(ToolCallV { arguments: Seq::empty(), ..call }),
            ),
            _ => None,
        },
        _ => None,
    }
}

/// The message of an update in a document; nothing where it is no update of an
/// assistant's message.
pub open spec fn updated_message(value: JsonV) -> Option<JsonV> {
    match value.get("event"@) {
        Some(event) => if value.str_at("type"@) == Some("session_event"@) && event.str_at(
            "type"@,
        ) == Some("message_update"@) {
            match event.get("message"@) {
                Some(message) if message.str_at("role"@) == Some("assistant"@) => Some(message),
                _ => None,
            }
        } else {
            None
        },
        None => None,
    }
}

/// What is said of a message that cannot be read.
pub open spec fn bad_message() -> Seq<char> {
    "invalid assistant message"@
}

/// What is said of an event that cannot be read.
pub open spec fn bad_event() -> Seq<char> {
    "invalid assistantMessageEvent"@
}

/// The compact form of a document: nothing where it is no update of an
/// assistant's message.
pub open spec fn compact_of(value: JsonV) -> Result<Option<DeltaV>, Seq<char>> {
    match updated_message(value) {
        None => Ok(None),
        Some(message) => if !assistant_message::is_message(message) {
            Err(bad_message())
        } else {
            match value.get("event"@)->0.get("assistantMessageEvent"@) {
                None => Err("message_update without assistantMessageEvent"@),
                Some(JsonV::Obj(pairs)) => match assistant_message::event_of(
                    JsonV::Obj(json::without(pairs, "partial"@)),
                ) {
                    None => Err(bad_event()),
                    Some(event) => Ok(
                        Some(
                            DeltaV {
                                type_: "assistant_stream_delta"@,
                                active_session_id: value.str_at("activeSessionId"@).unwrap_or(
                                    Seq::empty(),
                                ),
                                event,
                                content_start: sent_start(
                                    assistant_message::message_of(message),
                                    event,
                                ),
                                arguments: sent_arguments(
                                    assistant_message::message_of(message),
                                    event,
                                ),
                                meta: json::present(value, "meta"@),
                            },
                        ),
                    ),
                },
                Some(_) => Err("assistantMessageEvent must be an object"@),
            }
        },
    }
}

fn compact_tool_call_arguments(message: &AssistantMessage, event: &AssistantMessageEvent) -> (r:
    Option<Vec<(String, Json)>>)
    ensures
        opt_members(r) == sent_arguments(message@, event@),
{
    match event {
        AssistantMessageEvent::ToolCallDelta { content_index, .. } => {
            if *content_index >= message.content.len() {
                return None;
            }
            assert(message@.content[*content_index as int] == message.content@[*content_index as int]@);
            match &message.content[*content_index] {
                ContentBlock::ToolCall(call) => Some(clone_members(&call.arguments)),
                _ => None,
            }
        },
        _ => None,
    }
}

fn compact_content_start(message: &AssistantMessage, event: &AssistantMessageEvent) -> (r: Option<
    ContentBlock,
>)
    ensures
        opt_block(r) == sent_start(message@, event@),
{
    let index: usize = match event {
        AssistantMessageEvent::TextStart { content_index } => *content_index,
        AssistantMessageEvent::ThinkingStart { content_index } => *content_index,
        AssistantMessageEvent::ToolCallStart { content_index } => *content_index,
        _ => return None,
    };
    if index >= message.content.len() {
        return None;
    }
    assert(message@.content[index as int] == message.content@[index as int]@);
    match (event, &message.content[index]) {
        (AssistantMessageEvent::TextStart { .. }, ContentBlock::Text(text)) => {
            let text = TextContent {
                type_: text.type_.clone(),
                text: String::new(),
                text_signature: text.text_signature.clone(),
            };
            assert(text.text@ =~= Seq::<char>::empty());
            Some(ContentBlock::Text(text))
        },
        (AssistantMessageEvent::ThinkingStart { .. }, ContentBlock::Thinking(thinking)) => {
            let thinking = ThinkingContent {
                type_: thinking.type_.clone(),
                thinking: String::new(),
                thinking_signature: thinking.thinking_signature.clone(),
                redacted: thinking.redacted,
            };
            assert(thinking.thinking@ =~= Seq::<char>::empty());
            Some(ContentBlock::Thinking(thinking))
        },
        (AssistantMessageEvent::ToolCallStart { .. }, ContentBlock::ToolCall(call)) => {
            let call = ToolCall {
                type_: call.type_.clone(),
                id: call.id.clone(),
                name: call.name.clone(),
                arguments: json::no_members(),
                thought_signature: call.thought_signature.clone(),
            };
            Some(ContentBlock::ToolCall(call))
        },
        _ => None,
    }
}

/// The compact form of a document that goes to a client: the update without the
/// message, with the slice of the message that the client needs to begin a block.
pub fn create_compact_assistant_delta(outbound: &Json) -> (r: Result<
    Option<CompactAssistantDelta>,
    String,
>)
    ensures
        match (r, compact_of(outbound@)) {
            (Ok(Some(delta)), Ok(Some(expected))) => delta@ == expected,
            (Ok(None), Ok(None)) => true,
            (Err(error), Err(expected)) => error@ == expected,
            _ => false,
        },
{
    broadcast use json::object_view;

    if !outbound.str_is("type", "session_event") {
        return Ok(None);
    }
    let event = match outbound.get("event") {
        Some(event) => event,
        None => return Ok(None),
    };
    if !event.str_is("type", "message_update") {
        return Ok(None);
    }
    let message = match event.get("message") {
        Some(message) => message,
        None => return Ok(None),
    };
    if !message.str_is("role", "assistant") {
        return Ok(None);
    }
    let assistant = match AssistantMessage::from_value(message) {
        Some(assistant) => assistant,
        None => return Err("invalid assistant message".to_owned()),
    };
    let update = match event.get("assistantMessageEvent") {
        Some(update) => update,
        None => return Err("message_update without assistantMessageEvent".to_owned()),
    };
    let mut pairs = match update {
        Json::Object(pairs) => clone_members(pairs),
        _ => return Err("assistantMessageEvent must be an object".to_owned()),
    };
    json::remove_member(&mut pairs, "partial");
    let slim = json::object(pairs);
    let compact = match read_event(&slim) {
        Some(compact) => compact,
        None => return Err("invalid assistantMessageEvent".to_owned()),
    };
    let content_start = compact_content_start(&assistant, &compact);
    let tool_call_arguments = compact_tool_call_arguments(&assistant, &compact);
    Ok(
        Some(
            CompactAssistantDelta {
                type_: "assistant_stream_delta".to_owned(),
                active_session_id: match outbound.str_at("activeSessionId") {
                    Some(id) => id.to_owned(),
                    None => String::new(),
                },
                assistant_message_event: compact,
                content_start,
                tool_call_arguments,
                meta: match outbound.get("meta") {
                    None => None,
                    Some(Json::Null) => None,
                    Some(meta) => Some(meta.clone()),
                },
            },
        ),
    )
}

/// A block of text with nothing in it.
pub open spec fn empty_text() -> BlockV {
    BlockV::Text { type_: "text"@, text: Seq::empty(), signature: None }
}

/// A block of reasoning with nothing in it.
pub open spec fn empty_thinking() -> BlockV {
    BlockV::Thinking {
        type_: "thinking"@,
        thinking: Seq::empty(),
        signature: None,
        redacted: None,
    }
}

/// The content with a block at an index; missing blocks before it are empty text.
pub open spec fn with_block(content: Seq<BlockV>, index: usize, block: BlockV) -> Seq<BlockV> {
    Seq::new(
        if index < content.len() {
            content.len()
        } else {
            (index + 1) as nat
        },
        |i: int|
            if i == index {
                block
            } else if i < content.len() {
                content[i]
            } else {
                empty_text()
            },
    )
}

/// The message after an event, given the block that the event begins and the
/// arguments of the tool call that it extends; nothing where the event does not
/// fit the message.
pub open spec fn applied(
    message: MessageV,
    event: EventV,
    start: Option<BlockV>,
    arguments: Seq<(Seq<char>, JsonV)>,
) -> Option<MessageV> {
    let content = message.content;
    match event {
        EventV::TextStart { index } => Some(
            MessageV {
                content: with_block(content, index, start.unwrap_or(empty_text())),
                ..message
            },
        ),
        EventV::TextDelta { index, delta } => match block_at(message, index) {
            Some(BlockV::Text { type_, text, signature }) => Some(
                MessageV {
                    content: content.update(
                        index as int,
                        BlockV::Text { type_, text: text + delta, signature },
                    ),
                    ..message
                },
            ),
            _ => None,
        },
        EventV::TextEnd { index, content: whole } => match block_at(message, index) {
            Some(BlockV::Text { type_, text, signature }) => Some(
                MessageV {
                    content: content.update(
                        index as int,
                        BlockV::Text { type_, text: whole, signature },
                    ),
                    ..message
                },
            ),
            _ => None,
        },
        EventV::ThinkingStart { index } => Some(
            MessageV {
                content: with_block(content, index, start.unwrap_or(empty_thinking())),
                ..message
            },
        ),
        EventV::ThinkingDelta { index, delta } => match block_at(message, index) {
            Some(BlockV::Thinking { type_, thinking, signature, redacted }) => Some(
                MessageV {
                    content: content.update(
                        index as int,
                        BlockV::Thinking {
                            type_,
                            thinking: thinking + delta,
                            signature,
                            redacted,
                        },
                    ),
                    ..message
                },
            ),
            _ => None,
        },
        EventV::ThinkingEnd { index, content: whole } => match block_at(message, index) {
            Some(BlockV::Thinking { type_, thinking, signature, redacted }) => Some(
                MessageV {
                    content: content.update(
                        index as int,
                        BlockV::Thinking { type_, thinking: whole, signature, redacted },
                    ),
                    ..message
                },
            ),
            _ => None,
        },
        EventV::ToolCallStart { index } => match start {
            Some(BlockV::ToolCall(call)) => Some(
                MessageV { content: with_block(content, index, BlockV::ToolCall(call)), ..message },
            ),
            _ => None,
        },
        EventV::ToolCallDelta { index, delta } => match block_at(message, index) {
            Some(BlockV::ToolCall(call)) => Some(
                MessageV {
                    content: content.update(
                        index as int,
                        BlockV::ToolCall(ToolCallV { arguments, ..call }),
                    ),
                    ..message
                },
            ),
            _ => None,
        },
        EventV::ToolCallEnd { index, call } => Some(
            MessageV { content: with_block(content, index, BlockV::ToolCall(call)), ..message },
        ),
        _ => None,
    }
}

/// The message `after` is what the worker has once the event has happened to the
/// message `before`: only the block that the event names has changed, and it has
/// changed as the event says.
pub open spec fn follows(before: MessageV, event: EventV, after: MessageV) -> bool {
    let content = before.content;
    &&& after == MessageV { content: after.content, ..before }
    &&& match event {
        EventV::TextStart { index } => index < after.content.len() && after.content
            =~= with_block(content, index, after.content[index as int])
            && (after.content[index as int] matches BlockV::Text { text, .. } && text.len() == 0),
        EventV::ThinkingStart { index } => index < after.content.len() && after.content
            =~= with_block(content, index, after.content[index as int])
            && (after.content[index as int] matches BlockV::Thinking { thinking, .. }
            && thinking.len() == 0),
        EventV::ToolCallStart { index } => index < after.content.len() && after.content
            =~= with_block(content, index, after.content[index as int])
            && (after.content[index as int] matches BlockV::ToolCall(call)
            && call.arguments.len() == 0),
        EventV::TextDelta { index, delta } => block_at(before, index) matches Some(
            BlockV::Text { type_, text, signature },
        ) && after.content =~= content.update(
            index as int,
            BlockV::Text { type_, text: text + delta, signature },
        ),
        EventV::TextEnd { index, content: whole } => block_at(before, index) matches Some(
            BlockV::Text { type_, text, signature },
        ) && after.content =~= content.update(
            index as int,
            BlockV::Text { type_, text: whole, signature },
        ),
        EventV::ThinkingDelta { index, delta } => block_at(before, index) matches Some(
            BlockV::Thinking { type_, thinking, signature, redacted },
        ) && after.content =~= content.update(
            index as int,
            BlockV::Thinking { type_, thinking: thinking + delta, signature, redacted },
        ),
        EventV::ThinkingEnd { index, content: whole } => block_at(before, index) matches Some(
            BlockV::Thinking { type_, thinking, signature, redacted },
        ) && after.content =~= content.update(
            index as int,
            BlockV::Thinking { type_, thinking: whole, signature, redacted },
        ),
        EventV::ToolCallDelta { index, delta } => block_at(before, index) matches Some(
            BlockV::ToolCall(call),
        ) && block_at(after, index) matches Some(BlockV::ToolCall(longer)) && longer
            == (ToolCallV { arguments: longer.arguments, ..call }) && after.content
            =~= content.update(index as int, BlockV::ToolCall(longer)),
        EventV::ToolCallEnd { index, call } => after.content =~= with_block(
            content,
            index,
            BlockV::ToolCall(call),
        ),
        _ => false,
    }
}

/// The client builds the message that the worker has: what the compact update
/// carries of the worker's message is enough to take the client's copy there, and
/// no tool call has to be read from its fragments.
pub proof fn clients_see_what_the_worker_has(
    before: MessageV,
    event: EventV,
    after: MessageV,
    otherwise: Seq<(Seq<char>, JsonV)>,
)
    requires
        follows(before, event, after),
    ensures
        event is ToolCallDelta ==> sent_arguments(after, event) is Some,
        applied(
            before,
            event,
            sent_start(after, event),
            sent_arguments(after, event).unwrap_or(otherwise),
        ) == Some(after),
{
    let result = applied(
        before,
        event,
        sent_start(after, event),
        sent_arguments(after, event).unwrap_or(otherwise),
    );
    match event {
        EventV::TextStart { index } => {
            let block = after.content[index as int];
            assert(sent_start(after, event)->0 =~= block);
        },
        EventV::ThinkingStart { index } => {
            let block = after.content[index as int];
            assert(sent_start(after, event)->0 =~= block);
        },
        EventV::ToolCallStart { index } => {
            let block = after.content[index as int];
            assert(sent_start(after, event)->0 =~= block);
        },
        _ => {},
    }
    assert(result->0 =~= after);
}

fn empty_text_block() -> (r: ContentBlock)
    ensures
        r@ == empty_text(),
{
    let text = TextContent { type_: "text".to_owned(), text: String::new(), text_signature: None };
    assert(text.text@ =~= Seq::<char>::empty());
    ContentBlock::Text(text)
}

fn empty_thinking_block() -> (r: ContentBlock)
    ensures
        r@ == empty_thinking(),
{
    let thinking = ThinkingContent {
        type_: "thinking".to_owned(),
        thinking: String::new(),
        thinking_signature: None,
        redacted: None,
    };
    assert(thinking.thinking@ =~= Seq::<char>::empty());
    ContentBlock::Thinking(thinking)
}

/// Puts a block at an index; missing blocks before it are empty text.
fn set_content(message: &mut AssistantMessage, index: usize, block: ContentBlock)
    requires
        index < usize::MAX,
    ensures
        final(message)@ == (MessageV {
            content: with_block(old(message)@.content, index, block@),
            ..old(message)@
        }),
{
    let ghost before = assistant_message::blocks(message.content@);
    let ghost first = *message;
    while message.content.len() <= index
        invariant
            index < usize::MAX,
            before == assistant_message::blocks(first.content@),
            *message == (AssistantMessage { content: message.content, ..first }),
            before.len() <= message.content@.len(),
            message.content@.len() <= before.len() || message.content@.len() <= index + 1,
            forall|i: int|
                0 <= i < message.content@.len() ==> (#[trigger] message.content@[i])@ == if i
                    < before.len() {
                    before[i]
                } else {
                    empty_text()
                },
        decreases index + 1 - message.content@.len(),
    {
        message.content.push(empty_text_block());
    }
    let ghost shown = block@;
    message.content.set(index, block);
    assert(assistant_message::blocks(message.content@) =~= with_block(before, index, shown));
}

fn replace_block(message: &mut AssistantMessage, index: usize, block: ContentBlock)
    requires
        index < old(message).content@.len(),
    ensures
        final(message)@ == (MessageV {
            content: old(message)@.content.update(index as int, block@),
            ..old(message)@
        }),
{
    let ghost before = assistant_message::blocks(message.content@);
    let ghost shown = block@;
    message.content.set(index, block);
    assert(assistant_message::blocks(message.content@) =~= before.update(index as int, shown));
}

/// The index at which an event puts a block, where it puts one.
pub open spec fn placed_index(event: EventV) -> Option<usize> {
    match event {
        EventV::TextStart { index } => Some(index),
        EventV::ThinkingStart { index } => Some(index),
        EventV::ToolCallStart { index } => Some(index),
        EventV::ToolCallEnd { index, .. } => Some(index),
        _ => None,
    }
}

/// Where the event puts a block, a message can have it.
pub open spec fn addressable(event: EventV) -> bool {
    placed_index(event) matches Some(index) ==> index < usize::MAX
}

fn extend_text(message: &mut AssistantMessage, index: usize, more: &str, whole: bool) -> (r: bool)
    ensures
        match block_at(old(message)@, index) {
            Some(BlockV::Text { type_, text, signature }) => r && final(message)@ == (MessageV {
                content: old(message)@.content.update(
                    index as int,
                    BlockV::Text {
                        type_,
                        text: if whole {
                            more@
                        } else {
                            text + more@
                        },
                        signature,
                    },
                ),
                ..old(message)@
            }),
            _ => !r && *final(message) == *old(message),
        },
{
    if index >= message.content.len() {
        return false;
    }
    assert(message@.content[index as int] == message.content@[index as int]@);
    let block = match &message.content[index] {
        ContentBlock::Text(block) => ContentBlock::Text(
            TextContent {
                type_: block.type_.clone(),
                text: if whole {
                    more.to_owned()
                } else {
                    cat2(&block.text, more)
                },
                text_signature: block.text_signature.clone(),
            },
        ),
        _ => return false,
    };
    replace_block(message, index, block);
    true
}

fn extend_thinking(message: &mut AssistantMessage, index: usize, more: &str, whole: bool) -> (r:
    bool)
    ensures
        match block_at(old(message)@, index) {
            Some(BlockV::Thinking { type_, thinking, signature, redacted }) => r
                && final(message)@ == (MessageV {
                content: old(message)@.content.update(
                    index as int,
                    BlockV::Thinking {
                        type_,
                        thinking: if whole {
                            more@
                        } else {
                            thinking + more@
                        },
                        signature,
                        redacted,
                    },
                ),
                ..old(message)@
            }),
            _ => !r && *final(message) == *old(message),
        },
{
    if index >= message.content.len() {
        return false;
    }
    assert(message@.content[index as int] == message.content@[index as int]@);
    let block = match &message.content[index] {
        ContentBlock::Thinking(block) => ContentBlock::Thinking(
            ThinkingContent {
                type_: block.type_.clone(),
                thinking: if whole {
                    more.to_owned()
                } else {
                    cat2(&block.thinking, more)
                },
                thinking_signature: block.thinking_signature.clone(),
                redacted: block.redacted,
            },
        ),
        _ => return false,
    };
    replace_block(message, index, block);
    true
}

fn replace_arguments(
    message: &mut AssistantMessage,
    index: usize,
    arguments: Vec<(String, Json)>,
) -> (r: bool)
    ensures
        match block_at(old(message)@, index) {
            Some(BlockV::ToolCall(call)) => r && final(message)@ == (MessageV {
                content: old(message)@.content.update(
                    index as int,
                    BlockV::ToolCall(
                        ToolCallV { arguments: json::members(arguments@), ..call },
                    ),
                ),
                ..old(message)@
            }),
            _ => !r && *final(message) == *old(message),
        },
{
    if index >= message.content.len() {
        return false;
    }
    assert(message@.content[index as int] == message.content@[index as int]@);
    let block = match &message.content[index] {
        ContentBlock::ToolCall(call) => ContentBlock::ToolCall(
            ToolCall {
                type_: call.type_.clone(),
                id: call.id.clone(),
                name: call.name.clone(),
                arguments,
                thought_signature: call.thought_signature.clone(),
            },
        ),
        _ => return false,
    };
    replace_block(message, index, block);
    true
}

fn start_block(start: &Option<ContentBlock>, otherwise: ContentBlock) -> (r: ContentBlock)
    ensures
        r@ == opt_block(*start).unwrap_or(otherwise@),
{
    match start {
        Some(block) => block.clone(),
        None => otherwise,
    }
}

fn apply(
    message: &mut AssistantMessage,
    event: &AssistantMessageEvent,
    start: &Option<ContentBlock>,
    arguments: Vec<(String, Json)>,
) -> (r: bool)
    requires
        addressable(event@),
    ensures
        match applied(
            old(message)@,
            event@,
            opt_block(*start),
            json::members(arguments@),
        ) {
            Some(after) => r && final(message)@ == after,
            None => !r && *final(message) == *old(message),
        },
{
    match event {
        AssistantMessageEvent::TextStart { content_index } => {
            let block = start_block(start, empty_text_block());
            set_content(message, *content_index, block);
            true
        },
        AssistantMessageEvent::TextDelta { content_index, delta } => extend_text(
            message,
            *content_index,
            delta,
            false,
        ),
        AssistantMessageEvent::TextEnd { content_index, content } => extend_text(
            message,
            *content_index,
            content,
            true,
        ),
        AssistantMessageEvent::ThinkingStart { content_index } => {
            let block = start_block(start, empty_thinking_block());
            set_content(message, *content_index, block);
            true
        },
        AssistantMessageEvent::ThinkingDelta { content_index, delta } => extend_thinking(
            message,
            *content_index,
            delta,
            false,
        ),
        AssistantMessageEvent::ThinkingEnd { content_index, content } => extend_thinking(
            message,
            *content_index,
            content,
            true,
        ),
        AssistantMessageEvent::ToolCallStart { content_index } => match start {
            Some(ContentBlock::ToolCall(call)) => {
                set_content(message, *content_index, ContentBlock::ToolCall(call.clone()));
                true
            },
            _ => false,
        },
        AssistantMessageEvent::ToolCallDelta { content_index, .. } => replace_arguments(
            message,
            *content_index,
            arguments,
        ),
        AssistantMessageEvent::ToolCallEnd { content_index, tool_call } => {
            set_content(message, *content_index, ContentBlock::ToolCall(tool_call.clone()));
            true
        },
        _ => false,
    }
}

/// Builds again the updates that a compact stream leaves out.
#[derive(Debug, PartialEq)]
pub struct CompactAssistantStreamReconstructor {
    pub partial_messages: TextMap<AssistantMessage>,
    /// The fragments of tool calls whose arguments did not come along.
    pub tool_call_json: TextMap<String>,
}

/// Where the fragments of a tool call are kept.
pub open spec fn tool_call_key(active_session_id: Seq<char>, index: usize) -> Seq<char> {
    active_session_id + ":"@ + text::decimal_digits(index as nat)
}

/// What the fragments spell after an update.
pub open spec fn spelled(fragments: Map<Seq<char>, String>, delta: DeltaV) -> Seq<char> {
    let key = tool_call_key(delta.active_session_id, delta.event->ToolCallDelta_index);
    (if fragments.contains_key(key) {
        fragments[key]@
    } else {
        Seq::empty()
    }) + delta.event->ToolCallDelta_delta
}

/// The update extends a tool call whose arguments have to be read from its
/// fragments.
pub open spec fn needs_reading(delta: DeltaV) -> bool {
    delta.event is ToolCallDelta && delta.arguments is None
}

/// The arguments after an update: those that came along, else what was read from
/// the fragments.
pub open spec fn known_arguments(delta: DeltaV, streamed: JsonV) -> Seq<(Seq<char>, JsonV)> {
    match delta.arguments {
        Some(arguments) => arguments,
        None => match streamed {
            JsonV::Obj(arguments) => arguments,
            _ => Seq::empty(),
        },
    }
}

/// The message of a session after an update.
pub open spec fn rebuilt_message(
    partial: Map<Seq<char>, AssistantMessage>,
    delta: DeltaV,
    streamed: JsonV,
) -> Option<MessageV> {
    if partial.contains_key(delta.active_session_id) {
        applied(
            partial[delta.active_session_id]@,
            delta.event,
            delta.content_start,
            known_arguments(delta, streamed),
        )
    } else {
        None
    }
}

/// The client's message is the worker's, end to end: whatever the session's message
/// was, once the worker's event has happened to it and the compact update that was
/// made of the worker's message has arrived, the client has that very message. No
/// matter what was read from fragments.
pub proof fn compact_updates_rebuild_the_message(
    partial: Map<Seq<char>, AssistantMessage>,
    event: EventV,
    after: MessageV,
    delta: DeltaV,
    streamed: JsonV,
)
    requires
        partial.contains_key(delta.active_session_id),
        follows(partial[delta.active_session_id]@, event, after),
        delta.event == event,
        delta.content_start == sent_start(after, event),
        delta.arguments == sent_arguments(after, event),
    ensures
        rebuilt_message(partial, delta, streamed) == Some(after),
{
    let before = partial[delta.active_session_id]@;
    let otherwise = known_arguments(DeltaV { arguments: None, ..delta }, streamed);
    clients_see_what_the_worker_has(before, event, after, otherwise);
    if !(event is ToolCallDelta) {
        assert(applied(before, event, delta.content_start, known_arguments(delta, streamed))
            == applied(before, event, delta.content_start, otherwise));
    }
}

/// A tool call's update gives it the arguments that came along, whatever they are.
/// Where none came along they are those that the fragments spell, and none where the
/// fragments spell no object. Its name and its id stay, and so does every other block.
pub proof fn tool_calls_get_their_arguments(
    partial: Map<Seq<char>, AssistantMessage>,
    delta: DeltaV,
    streamed: JsonV,
    index: usize,
)
    requires
        partial.contains_key(delta.active_session_id),
        delta.event matches EventV::ToolCallDelta { index: at, .. } && at == index,
        index < partial[delta.active_session_id]@.content.len(),
        partial[delta.active_session_id]@.content[index as int] is ToolCall,
    ensures
        ({
            let before = partial[delta.active_session_id]@;
            let call = before.content[index as int]->ToolCall_0;
            &&& rebuilt_message(partial, delta, streamed) matches Some(after) && {
                &&& after.content.len() == before.content.len()
                &&& after.content[index as int] matches BlockV::ToolCall(longer) && {
                    &&& longer.id == call.id
                    &&& longer.name == call.name
                    &&& longer.type_ == call.type_
                    &&& delta.arguments matches Some(sent) ==> longer.arguments == sent
                    &&& delta.arguments is None && streamed is Obj ==> longer.arguments
                        == streamed->Obj_0
                    &&& delta.arguments is None && !(streamed is Obj) ==> longer.arguments.len()
                        == 0
                }
                &&& forall|i: int|
                    0 <= i < before.content.len() && i != index ==> after.content[i]
                        == before.content[i]
            }
        }),
{
}

/// The index that an event speaks of, where it speaks of a block.
pub open spec fn named_index(event: EventV) -> Option<usize> {
    match event {
        EventV::TextStart { index } => Some(index),
        EventV::TextDelta { index, .. } => Some(index),
        EventV::TextEnd { index, .. } => Some(index),
        EventV::ThinkingStart { index } => Some(index),
        EventV::ThinkingDelta { index, .. } => Some(index),
        EventV::ThinkingEnd { index, .. } => Some(index),
        EventV::ToolCallStart { index } => Some(index),
        EventV::ToolCallDelta { index, .. } => Some(index),
        EventV::ToolCallEnd { index, .. } => Some(index),
        _ => None,
    }
}

/// An update changes nothing but the block that its event names: the rest of the
/// message stays, every other block stays in its place, and blocks that are missing
/// before a new one are empty texts.
pub proof fn updates_touch_one_block(
    partial: Map<Seq<char>, AssistantMessage>,
    delta: DeltaV,
    streamed: JsonV,
)
    ensures
        rebuilt_message(partial, delta, streamed) matches Some(after) ==> {
            &&& partial.contains_key(delta.active_session_id)
            &&& named_index(delta.event) matches Some(index) && {
                let before = partial[delta.active_session_id]@;
                &&& after == MessageV { content: after.content, ..before }
                &&& index < after.content.len()
                &&& before.content.len() <= after.content.len()
                &&& after.content.len() == before.content.len() || after.content.len() == index + 1
                &&& forall|i: int|
                    0 <= i < before.content.len() && i != index ==> after.content[i]
                        == before.content[i]
                &&& forall|i: int|
                    before.content.len() <= i < after.content.len() && i != index ==> (
                    #[trigger] after.content[i] matches BlockV::Text { type_, text, signature }
                        && type_ == "text"@ && text.len() == 0 && signature is None)
            }
        },
{
}

/// Texts and reasoning grow by what an update adds and become what a last one says;
/// what begins is what came along, and a tool call that ends is the one that is named.
pub proof fn updates_say_what_becomes_of_their_block(
    partial: Map<Seq<char>, AssistantMessage>,
    delta: DeltaV,
    streamed: JsonV,
)
    requires
        partial.contains_key(delta.active_session_id),
    ensures
        ({
            let content = partial[delta.active_session_id]@.content;
            let rebuilt = rebuilt_message(partial, delta, streamed);
            let after = rebuilt->0.content;
            match delta.event {
                EventV::TextStart { index } => rebuilt is Some && after[index as int] == (
                match delta.content_start {
                    Some(block) => block,
                    None => BlockV::Text { type_: "text"@, text: Seq::empty(), signature: None },
                }),
                EventV::ThinkingStart { index } => rebuilt is Some && after[index as int] == (
                match delta.content_start {
                    Some(block) => block,
                    None => BlockV::Thinking {
                        type_: "thinking"@,
                        thinking: Seq::empty(),
                        signature: None,
                        redacted: None,
                    },
                }),
                EventV::ToolCallStart { index } => match delta.content_start {
                    Some(BlockV::ToolCall(call)) => rebuilt is Some && after[index as int]
                        == BlockV::ToolCall(call),
                    _ => rebuilt is None,
                },
                EventV::ToolCallEnd { index, call } => rebuilt is Some && after[index as int]
                    == BlockV::ToolCall(call),
                EventV::TextDelta { index, delta: more } => if index < content.len()
                    && content[index as int] is Text {
                    let old = content[index as int];
                    rebuilt is Some && after[index as int] == (BlockV::Text {
                        type_: old->Text_type_,
                        text: old->Text_text + more,
                        signature: old->Text_signature,
                    })
                } else {
                    rebuilt is None
                },
                EventV::TextEnd { index, content: whole } => if index < content.len()
                    && content[index as int] is Text {
                    let old = content[index as int];
                    rebuilt is Some && after[index as int] == (BlockV::Text {
                        type_: old->Text_type_,
                        text: whole,
                        signature: old->Text_signature,
                    })
                } else {
                    rebuilt is None
                },
                EventV::ThinkingDelta { index, delta: more } => if index < content.len()
                    && content[index as int] is Thinking {
                    let old = content[index as int];
                    rebuilt is Some && after[index as int] == (BlockV::Thinking {
                        type_: old->Thinking_type_,
                        thinking: old->Thinking_thinking + more,
                        signature: old->Thinking_signature,
                        redacted: old->redacted,
                    })
                } else {
                    rebuilt is None
                },
                EventV::ThinkingEnd { index, content: whole } => if index < content.len()
                    && content[index as int] is Thinking {
                    let old = content[index as int];
                    rebuilt is Some && after[index as int] == (BlockV::Thinking {
                        type_: old->Thinking_type_,
                        thinking: whole,
                        signature: old->Thinking_signature,
                        redacted: old->redacted,
                    })
                } else {
                    rebuilt is None
                },
                EventV::ToolCallDelta { index, .. } => rebuilt is Some <==> index < content.len()
                    && content[index as int] is ToolCall,
                _ => rebuilt is None,
            }
        }),
{
}

/// The update that a client would have got without the compact stream.
pub open spec fn rebuilt_value(delta: DeltaV, message: MessageV) -> JsonV {
    let none = Seq::<(Seq<char>, JsonV)>::empty();
    let whole = assistant_message::message_value(message);
    JsonV::Obj(
        none.push(("type"@, JsonV::Str("session_event"@))).push(
            ("activeSessionId"@, JsonV::Str(delta.active_session_id)),
        ).push(
            (
                "event"@,
                JsonV::Obj(
                    none.push(("type"@, JsonV::Str("message_update"@))).push(
                        ("message"@, whole),
                    ).push(
                        (
                            "assistantMessageEvent"@,
                            JsonV::Obj(
                                json::put(
                                    assistant_message::event_value(delta.event)->Obj_0,
                                    "partial"@,
                                    whole,
                                ),
                            ),
                        ),
                    ),
                ),
            ),
        ).push(("meta"@, delta.meta.unwrap_or(JsonV::Null))),
    )
}

/// The fragments after an update of a session that has a message.
pub open spec fn fragments_after(fragments: Map<Seq<char>, Seq<char>>, delta: DeltaV) -> Map<
    Seq<char>,
    Seq<char>,
> {
    match delta.event {
        EventV::ToolCallStart { index } => if delta.content_start matches Some(
            BlockV::ToolCall(_),
        ) {
            fragments.insert(tool_call_key(delta.active_session_id, index), Seq::empty())
        } else {
            fragments
        },
        EventV::ToolCallDelta { index, delta: more } => if delta.arguments is None {
            let key = tool_call_key(delta.active_session_id, index);
            fragments.insert(
                key,
                (if fragments.contains_key(key) {
                    fragments[key]
                } else {
                    Seq::empty()
                }) + more,
            )
        } else {
            fragments
        },
        EventV::ToolCallEnd { index, .. } => fragments.remove(
            tool_call_key(delta.active_session_id, index),
        ),
        _ => fragments,
    }
}

/// What the fragments say.
pub open spec fn fragment_texts(fragments: Map<Seq<char>, String>) -> Map<Seq<char>, Seq<char>> {
    fragments.map_values(|fragment: String| fragment@)
}

/// What the messages say.
pub open spec fn message_views(partial: Map<Seq<char>, AssistantMessage>) -> Map<
    Seq<char>,
    MessageV,
> {
    partial.map_values(|message: AssistantMessage| message@)
}

/// What a document that goes to a client does to the messages that are known.
pub enum Observation {
    Nothing,
    /// The session's message is over.
    Clear(Seq<char>),
    /// The session has a new message.
    Begin(Seq<char>, MessageV),
}

/// What a document that goes to a client does to the messages that are known.
pub open spec fn observation(value: JsonV) -> Observation {
    let id = value.str_at("activeSessionId"@).unwrap_or(Seq::empty());
    let kind = value.str_at("type"@).unwrap_or(Seq::empty());
    if kind == "session_replaced"@ || kind == "session_resynced"@ || kind == "session_closed"@ {
        Observation::Clear(id)
    } else if kind != "session_event"@ || value.get("event"@) is None {
        Observation::Nothing
    } else {
        let event = value.get("event"@)->0;
        if event.str_at("type"@) == Some("message_end"@) {
            Observation::Clear(id)
        } else if event.str_at("type"@) == Some("message_start"@) {
            match event.get("message"@) {
                Some(message) if message.str_at("role"@) == Some("assistant"@)
                    && assistant_message::is_message(message) => Observation::Begin(
                    id,
                    assistant_message::message_of(message),
                ),
                _ => Observation::Nothing,
            }
        } else {
            Observation::Nothing
        }
    }
}

/// The keys of the fragments of a session.
pub open spec fn session_keys(active_session_id: Seq<char>) -> Set<Seq<char>> {
    Set::new(|key: Seq<char>| text::begins(key, active_session_id + ":"@))
}

impl CompactAssistantStreamReconstructor {
    /// No session has two messages, no tool call two lists of fragments.
    pub open spec fn wf(self) -> bool {
        self.partial_messages.wf() && self.tool_call_json.wf()
    }

    /// The messages so far, by session.
    pub open spec fn messages(self) -> Map<Seq<char>, MessageV> {
        message_views(self.partial_messages@)
    }

    /// The fragments so far, by tool call.
    pub open spec fn fragments(self) -> Map<Seq<char>, Seq<char>> {
        fragment_texts(self.tool_call_json@)
    }

    /// Nothing is known yet.
    pub fn new() -> (r: Self)
        ensures
            r.wf(),
            r.messages() == Map::<Seq<char>, MessageV>::empty(),
            r.fragments() == Map::<Seq<char>, Seq<char>>::empty(),
    {
        let r = CompactAssistantStreamReconstructor {
            partial_messages: TextMap::new(),
            tool_call_json: TextMap::new(),
        };
        assert(r.messages() =~= Map::<Seq<char>, MessageV>::empty());
        assert(r.fragments() =~= Map::<Seq<char>, Seq<char>>::empty());
        r
    }

    /// The session has this message now.
    pub fn seed(&mut self, active_session_id: &str, message: AssistantMessage)
        requires
            old(self).wf(),
        ensures
            final(self).wf(),
            final(self).messages() == old(self).messages().insert(active_session_id@, message@),
            final(self).tool_call_json == old(self).tool_call_json,
    {
        let ghost before = self.partial_messages@;
        let ghost shown = message@;
        self.partial_messages.insert(active_session_id.to_owned(), message);
        assert(self.messages() =~= message_views(before).insert(active_session_id@, shown));
    }

    /// The session's message is over.
    pub fn clear(&mut self, active_session_id: &str)
        requires
            old(self).wf(),
        ensures
            final(self).wf(),
            final(self).messages() == old(self).messages().remove(active_session_id@),
            final(self).fragments() == old(self).fragments().remove_keys(
                session_keys(active_session_id@),
            ),
    {
        let ghost before = *self;
        self.partial_messages.remove(active_session_id);
        let prefix = cat2(active_session_id, ":");
        self.tool_call_json.remove_prefix(&prefix);
        proof {
            assert(self.messages() =~= before.messages().remove(active_session_id@));
            assert(session_keys(active_session_id@) =~= Set::new(
                |key: Seq<char>| text::begins(key, prefix@),
            ));
            assert(self.fragments() =~= before.fragments().remove_keys(
                session_keys(active_session_id@),
            ));
        }
    }

    /// Takes note of what goes to a client: a message that begins is the session's
    /// message, and a message that ends or a session that is replaced or closed
    /// has none.
    pub fn observe(&mut self, outbound: &Json)
        requires
            old(self).wf(),
        ensures
            final(self).wf(),
            match observation(outbound@) {
                Observation::Nothing => *final(self) == *old(self),
                Observation::Clear(id) => final(self).messages() == old(self).messages().remove(id)
                    && final(self).fragments() == old(self).fragments().remove_keys(
                    session_keys(id),
                ),
                Observation::Begin(id, message) => final(self).messages()
                    == old(self).messages().insert(id, message) && final(self).tool_call_json
                    == old(self).tool_call_json,
            },
    {
        proof {
            observed_names_differ();
        }
        let id = match outbound.str_at("activeSessionId") {
            Some(id) => id.to_owned(),
            None => String::new(),
        };
        assert(id@ =~= outbound@.str_at("activeSessionId"@).unwrap_or(Seq::empty()));
        if outbound.str_is("type", "session_replaced") || outbound.str_is(
            "type",
            "session_resynced",
        ) || outbound.str_is("type", "session_closed") {
            self.clear(&id);
            return;
        }
        if !outbound.str_is("type", "session_event") {
            return;
        }
        let event = match outbound.get("event") {
            Some(event) => event,
            None => return,
        };
        if event.str_is("type", "message_end") {
            self.clear(&id);
            return;
        }
        if !event.str_is("type", "message_start") {
            return;
        }
        if let Some(message) = event.get("message") {
            if message.str_is("role", "assistant") {
                if let Some(message) = AssistantMessage::from_value(message) {
                    self.seed(&id, message);
                }
            }
        }
    }

    /// The fragments of the tool call that an update extends, where its arguments
    /// have to be read from them.
    pub fn streamed_text(&self, delta: &CompactAssistantDelta) -> (r: Option<String>)
        requires
            self.wf(),
        ensures
            match r {
                Some(fragments) => needs_reading(delta@) && fragments@ == spelled(
                    self.tool_call_json@,
                    delta@,
                ),
                None => !needs_reading(delta@),
            },
    {
        if delta.tool_call_arguments.is_some() {
            return None;
        }
        match &delta.assistant_message_event {
            AssistantMessageEvent::ToolCallDelta { content_index, delta: more } => {
                let digits = decimal(*content_index as u64);
                let key = cat3(&delta.active_session_id, ":", &digits);
                match self.tool_call_json.get(&key) {
                    Some(fragments) => Some(cat2(fragments, more)),
                    None => {
                        assert(Seq::<char>::empty() + more@ =~= more@);
                        Some(more.clone())
                    },
                }
            },
            _ => None,
        }
    }

    fn note_fragments(&mut self, delta: &CompactAssistantDelta)
        requires
            old(self).wf(),
        ensures
            final(self).wf(),
            final(self).partial_messages == old(self).partial_messages,
            final(self).fragments() == fragments_after(old(self).fragments(), delta@),
    {
        let ghost before = *self;
        match &delta.assistant_message_event {
            AssistantMessageEvent::ToolCallStart { content_index } => {
                if let Some(ContentBlock::ToolCall(_)) = &delta.content_start {
                    let digits = decimal(*content_index as u64);
                    let key = cat3(&delta.active_session_id, ":", &digits);
                    let empty = String::new();
                    assert(empty@ =~= Seq::<char>::empty());
                    self.tool_call_json.insert(key, empty);
                    assert(self.fragments() =~= fragments_after(before.fragments(), delta@));
                }
            },
            AssistantMessageEvent::ToolCallDelta { content_index, .. } => {
                if let Some(fragments) = self.streamed_text(delta) {
                    let digits = decimal(*content_index as u64);
                    let key = cat3(&delta.active_session_id, ":", &digits);
                    self.tool_call_json.insert(key, fragments);
                    assert(self.fragments() =~= fragments_after(before.fragments(), delta@));
                }
            },
            AssistantMessageEvent::ToolCallEnd { content_index, .. } => {
                let digits = decimal(*content_index as u64);
                let key = cat3(&delta.active_session_id, ":", &digits);
                self.tool_call_json.remove(&key);
                assert(self.fragments() =~= fragments_after(before.fragments(), delta@));
            },
            _ => {},
        }
    }

    /// Builds the update that a compact one stands for, and takes the session's
    /// message there. `streamed` is what was read from the fragments of the tool
    /// call that the update extends, where they have to be read. Nothing comes of
    /// an update that does not fit the session's message.
    pub fn reconstruct(&mut self, delta: &CompactAssistantDelta, streamed: &Json) -> (r: Option<
        Json,
    >)
        requires
            old(self).wf(),
            addressable(delta@.event),
        ensures
            final(self).wf(),
            match rebuilt_message(old(self).partial_messages@, delta@, streamed@) {
                Some(message) => {
                    &&& r is Some
                    &&& r->0@ == rebuilt_value(delta@, message)
                    &&& final(self).messages() == old(self).messages().insert(
                        delta@.active_session_id,
                        message,
                    )
                },
                None => r is None && final(self).messages() == old(self).messages(),
            },
            final(self).fragments() == if old(self).messages().contains_key(
                delta@.active_session_id,
            ) {
                fragments_after(old(self).fragments(), delta@)
            } else {
                old(self).fragments()
            },
    {
        broadcast use json::object_view;

        let mut message = match self.partial_messages.get(&delta.active_session_id) {
            Some(message) => message.clone(),
            None => return None,
        };
        self.note_fragments(delta);
        let arguments = match &delta.tool_call_arguments {
            Some(arguments) => clone_members(arguments),
            None => match streamed {
                Json::Object(arguments) => clone_members(arguments),
                _ => json::no_members(),
            },
        };
        assert(json::members(arguments@) == known_arguments(delta@, streamed@));
        if !apply(
            &mut message,
            &delta.assistant_message_event,
            &delta.content_start,
            arguments,
        ) {
            return None;
        }
        let whole = message.to_value();
        let mut update = match delta.assistant_message_event.to_value() {
            Json::Object(pairs) => pairs,
            _ => json::no_members(),
        };
        json::set_member(&mut update, "partial", whole.clone());
        let mut event = json::no_members();
        json::add_text(&mut event, "type", "message_update");
        json::add_member(&mut event, "message", whole);
        json::add_member(&mut event, "assistantMessageEvent", json::object(update));
        let mut pairs = json::no_members();
        json::add_text(&mut pairs, "type", "session_event");
        json::add_text(&mut pairs, "activeSessionId", &delta.active_session_id);
        json::add_member(&mut pairs, "event", json::object(event));
        let meta = match &delta.meta {
            Some(meta) => meta.clone(),
            None => Json::Null,
        };
        json::add_member(&mut pairs, "meta", meta);
        self.seed(&delta.active_session_id, message);
        Some(json::object(pairs))
    }
}

proof fn observed_names_differ()
    ensures
        "session_replaced"@.len() == 16 && "session_replaced"@[10] == 'p',
        "session_resynced"@.len() == 16 && "session_resynced"@[10] == 's',
        "session_closed"@.len() == 14,
        "session_event"@.len() == 13,
        "message_end"@.len() == 11,
        "message_start"@.len() == 13,
{
    reveal_strlit("session_replaced");
    reveal_strlit("session_resynced");
    reveal_strlit("session_closed");
    reveal_strlit("session_event");
    reveal_strlit("message_end");
    reveal_strlit("message_start");
}

/// The update that a client gets is one: it names its session, says that an assistant's
/// message was updated, carries the whole message, and the worker's event with the same
/// message in it.
pub proof fn rebuilt_updates_say_what_they_are(delta: DeltaV, message: MessageV)
    requires
        message.role == "assistant"@,
    ensures
        ({
            let value = rebuilt_value(delta, message);
            let event = value.get("event"@)->0;
            let whole = assistant_message::message_value(message);
            &&& value.str_at("type"@) == Some("session_event"@)
            &&& value.str_at("activeSessionId"@) == Some(delta.active_session_id)
            &&& value.get("event"@) is Some
            &&& event.str_at("type"@) == Some("message_update"@)
            &&& event.get("message"@) == Some(whole)
            &&& event.get("assistantMessageEvent"@) is Some
            &&& event.get("assistantMessageEvent"@)->0.get("partial"@) == Some(whole)
            &&& json::present(value, "meta"@) == if delta.meta == Some(JsonV::Null) {
                None
            } else {
                delta.meta
            }
            &&& updated_message(value) == Some(whole)
        }),
{
    broadcast use {json::lookup_push, json::lookup_empty, json::lookup_put};

    rebuilt_names_differ();
    let value = rebuilt_value(delta, message);
    let whole = assistant_message::message_value(message);
    assistant_message::roles_are_written(message);
    assert(value.get("type"@) == Some(JsonV::Str("session_event"@)));
    assert(value.get("event"@)->0.get("type"@) == Some(JsonV::Str("message_update"@)));
    assert(value.get("event"@)->0.get("message"@) == Some(whole));
}

proof fn rebuilt_names_differ()
    ensures
        "type"@.len() == 4 && "type"@[0] == 't',
        "activeSessionId"@.len() == 15,
        "event"@.len() == 5,
        "meta"@.len() == 4 && "meta"@[0] == 'm',
        "message"@.len() == 7 && "message"@[0] == 'm',
        "partial"@.len() == 7 && "partial"@[0] == 'p',
        "assistantMessageEvent"@.len() == 21,
        "role"@.len() == 4 && "role"@[0] == 'r',
{
    reveal_strlit("type");
    reveal_strlit("activeSessionId");
    reveal_strlit("event");
    reveal_strlit("meta");
    reveal_strlit("message");
    reveal_strlit("partial");
    reveal_strlit("assistantMessageEvent");
    reveal_strlit("role");
}

/// What a client rebuilt can be compacted again, and comes to the same: a second
/// supervisor behind the first sees the same event of the same session, with what the
/// message says of it.
pub proof fn rebuilt_updates_compact_again(delta: DeltaV, message: MessageV)
    requires
        message.role == "assistant"@,
        message.usage is Obj,
        message.diagnostics != Some(JsonV::Null),
        forall|i: int|
            0 <= i < message.content.len() ==> assistant_message::well_typed(
                #[trigger] message.content[i],
            ),
        assistant_message::well_typed_event(delta.event),
        json::without(
            json::put(
                assistant_message::event_value(delta.event)->Obj_0,
                "partial"@,
                assistant_message::message_value(message),
            ),
            "partial"@,
        ) == assistant_message::event_value(delta.event)->Obj_0,
        assistant_message::event_value(delta.event) is Obj,
    ensures
        compact_of(rebuilt_value(delta, message)) matches Ok(Some(again)) && {
            &&& again.active_session_id == delta.active_session_id
            &&& again.event == delta.event
            &&& again.content_start == sent_start(message, delta.event)
            &&& again.arguments == sent_arguments(message, delta.event)
        },
{
    broadcast use {json::lookup_push, json::lookup_empty, json::lookup_put};

    rebuilt_names_differ();
    rebuilt_updates_say_what_they_are(delta, message);
    assistant_message::message_is_read_back(message);
    assistant_message::event_is_read_back(delta.event);
    let value = rebuilt_value(delta, message);
    let whole = assistant_message::message_value(message);
    assert(value.get("event"@)->0.get("assistantMessageEvent"@) == Some(
        JsonV::Obj(
            json::put(assistant_message::event_value(delta.event)->Obj_0, "partial"@, whole),
        ),
    ));
}

/// Every update of an assistant's message has a compact form, where its message and its
/// event can be read: for the session that is named, with the event, the block that it
/// begins, emptied, and the arguments of the tool call that it extends. No other
/// document has one.
pub proof fn assistant_updates_are_compacted(value: JsonV)
    ensures
        ({
            let event = value.get("event"@)->0;
            let message = event.get("message"@)->0;
            let update = value.get("event"@) is Some && value.str_at("type"@) == Some(
                "session_event"@,
            ) && event.str_at("type"@) == Some("message_update"@) && event.get("message"@) is Some
                && message.str_at("role"@) == Some("assistant"@);
            &&& !update ==> compact_of(value) == Ok::<Option<DeltaV>, Seq<char>>(None)
            &&& update ==> !(compact_of(value) matches Ok(None))
            &&& compact_of(value) matches Ok(Some(delta)) ==> {
                let whole = assistant_message::message_of(message);
                let carried = event.get("assistantMessageEvent"@)->0;
                &&& delta.type_ == "assistant_stream_delta"@
                &&& value.str_at("activeSessionId"@) matches Some(id) ==> delta.active_session_id
                    == id
                &&& assistant_message::is_message(message)
                &&& assistant_message::event_of(
                    JsonV::Obj(json::without(carried->Obj_0, "partial"@)),
                ) == Some(delta.event)
                &&& delta.meta == json::present(value, "meta"@)
                &&& delta.event matches EventV::ToolCallDelta { index, .. } ==> (
                delta.arguments matches Some(sent) ==> (index < whole.content.len()
                    && whole.content[index as int] is ToolCall
                    && whole.content[index as int]->ToolCall_0.arguments == sent))
                &&& !(delta.event is ToolCallDelta) ==> delta.arguments is None
            }
            &&& update && assistant_message::is_message(message) && event.get(
                "assistantMessageEvent"@,
            ) is Some && event.get("assistantMessageEvent"@)->0 is Obj
                && assistant_message::event_of(
                JsonV::Obj(
                    json::without(event.get("assistantMessageEvent"@)->0->Obj_0, "partial"@),
                ),
            ) is Some ==> (compact_of(value) matches Ok(Some(_)))
            &&& compact_of(value) matches Err(error) ==> (error == "invalid assistant message"@
                || error == "invalid assistantMessageEvent"@ || error
                == "message_update without assistantMessageEvent"@ || error
                == "assistantMessageEvent must be an object"@)
            &&& update && !assistant_message::is_message(message) ==> compact_of(value) == Err::<
                Option<DeltaV>,
                Seq<char>,
            >("invalid assistant message"@)
        }),
{
}

/// What begins goes along emptied, and all else of the block with it; what does not
/// begin does not go along.
pub proof fn beginnings_go_along_emptied(message: MessageV, event: EventV)
    ensures
        sent_start(message, event) matches Some(block) ==> {
            &&& event is TextStart || event is ThinkingStart || event is ToolCallStart
            &&& named_index(event)->0 < message.content.len()
            &&& match (message.content[named_index(event)->0 as int], block) {
                (
                    BlockV::Text { type_, signature, .. },
                    BlockV::Text { type_: t, text, signature: s },
                ) => event is TextStart && text.len() == 0 && t == type_ && s == signature,
                (
                    BlockV::Thinking { type_, signature, redacted, .. },
                    BlockV::Thinking { type_: t, thinking, signature: s, redacted: r },
                ) => event is ThinkingStart && thinking.len() == 0 && t == type_ && s == signature
                    && r == redacted,
                (BlockV::ToolCall(whole), BlockV::ToolCall(call)) => event is ToolCallStart
                    && call.arguments.len() == 0 && call.id == whole.id && call.name == whole.name
                    && call.type_ == whole.type_ && call.thought_signature
                    == whole.thought_signature,
                _ => false,
            }
        },
        event matches EventV::TextStart { index } && index < message.content.len()
            && message.content[index as int] is Text ==> sent_start(message, event) is Some,
        event matches EventV::ThinkingStart { index } && index < message.content.len()
            && message.content[index as int] is Thinking ==> sent_start(message, event) is Some,
        event matches EventV::ToolCallStart { index } && index < message.content.len()
            && message.content[index as int] is ToolCall ==> sent_start(message, event) is Some,
        event matches EventV::ToolCallDelta { index, .. } ==> (index < message.content.len()
            && message.content[index as int] is ToolCall ==> sent_arguments(message, event) == Some(
            message.content[index as int]->ToolCall_0.arguments,
        )),
        !(event is ToolCallDelta) ==> sent_arguments(message, event) is None,
{
}

/// A session's message is over when its message ends or the session is replaced,
/// resynced or closed, and a new one begins with every assistant's message; nothing
/// else that goes to a client changes what is known.
pub proof fn messages_begin_and_end(value: JsonV)
    ensures
        ({
            let id = value.str_at("activeSessionId"@).unwrap_or(Seq::empty());
            let kind = value.str_at("type"@);
            let event = value.get("event"@)->0;
            let message = event.get("message"@)->0;
            let about = kind == Some("session_event"@) && value.get("event"@) is Some;
            &&& kind == Some("session_replaced"@) ==> observation(value) == Observation::Clear(id)
            &&& kind == Some("session_resynced"@) ==> observation(value) == Observation::Clear(id)
            &&& kind == Some("session_closed"@) ==> observation(value) == Observation::Clear(id)
            &&& about && event.str_at("type"@) == Some("message_end"@) ==> observation(value)
                == Observation::Clear(id)
            &&& about && event.str_at("type"@) == Some("message_start"@) && event.get("message"@)
                is Some && message.str_at("role"@) == Some("assistant"@)
                && assistant_message::is_message(message) ==> observation(value)
                == Observation::Begin(id, assistant_message::message_of(message))
            &&& observation(value) is Begin ==> about && event.str_at("type"@) == Some(
                "message_start"@,
            ) && message.str_at("role"@) == Some("assistant"@)
            &&& observation(value) is Clear ==> kind == Some("session_replaced"@) || kind == Some(
                "session_resynced"@,
            ) || kind == Some("session_closed"@) || (about && event.str_at("type"@) == Some(
                "message_end"@,
            ))
        }),
{
    observed_names_differ();
    observed_kinds_differ();
}

proof fn observed_kinds_differ()
    ensures
        "session_replaced"@ != "session_event"@,
        "session_resynced"@ != "session_event"@,
        "session_closed"@ != "session_event"@,
        "message_end"@ != "message_start"@,
        "session_event"@.len() > 0,
        "session_replaced"@.len() > 0,
        "session_resynced"@.len() > 0,
        "session_closed"@.len() > 0,
{
    observed_names_differ();
}

/// The fragments of a tool call without arguments add up in order from its beginning to
/// its end: a call that begins has none yet, each update adds its own behind them, and
/// one that ends leaves none. Arguments that come along are no fragments, and the
/// fragments of other calls stay.
pub proof fn fragments_add_up(fragments: Map<Seq<char>, Seq<char>>, delta: DeltaV, index: usize)
    requires
        named_index(delta.event) == Some(index),
    ensures
        ({
            let key = delta.active_session_id + ":"@ + text::decimal_digits(index as nat);
            let after = fragments_after(fragments, delta);
            &&& forall|other: Seq<char>| #[trigger]
                fragments.contains_key(other) && other != key ==> after.contains_key(other)
                    && after[other] == fragments[other]
            &&& forall|other: Seq<char>| #[trigger]
                after.contains_key(other) && other != key ==> fragments.contains_key(other)
            &&& delta.event is ToolCallEnd ==> !after.contains_key(key)
            &&& delta.event is ToolCallStart && (delta.content_start matches Some(
                BlockV::ToolCall(_),
            )) ==> after.contains_key(key) && after[key].len() == 0
            &&& delta.event matches EventV::ToolCallDelta { delta: more, .. } ==> (
            delta.arguments is None ==> after.contains_key(key) && after[key] == (
            if fragments.contains_key(key) {
                fragments[key] + more
            } else {
                more
            }))
            &&& delta.arguments is Some && delta.event is ToolCallDelta ==> after == fragments
            &&& !(delta.event is ToolCallStart || delta.event is ToolCallDelta
                || delta.event is ToolCallEnd) ==> after == fragments
        }),
{
    if let EventV::ToolCallDelta { delta: more, .. } = delta.event {
        assert(Seq::<char>::empty() + more =~= more);
    }
}

/// What is to be read is what the fragments come to once the update is taken in, and
/// it is to be read only where the arguments did not come along.
pub proof fn fragments_are_read_as_they_add_up(fragments: Map<Seq<char>, String>, delta: DeltaV)
    ensures
        needs_reading(delta) <==> delta.event is ToolCallDelta && delta.arguments is None,
        needs_reading(delta) ==> fragments_after(fragment_texts(fragments), delta)[tool_call_key(
            delta.active_session_id,
            delta.event->ToolCallDelta_index,
        )] == spelled(fragments, delta),
{
}

/// The document is a compact update.
pub open spec fn is_compact(value: JsonV) -> bool {
    &&& value.str_at("type"@) == Some("assistant_stream_delta"@)
    &&& value.str_at("activeSessionId"@) is Some
    &&& value.get("assistantMessageEvent"@) matches Some(JsonV::Obj(_))
}

/// Whether the document is a compact update.
pub fn is_compact_assistant_delta(value: &Json) -> (r: bool)
    ensures
        r == is_compact(value@),
{
    broadcast use json::object_view;

    value.str_is("type", "assistant_stream_delta") && value.str_at("activeSessionId").is_some()
        && match value.get("assistantMessageEvent") {
        Some(Json::Object(_)) => true,
        _ => false,
    }
}

/// The document of a compact update.
pub open spec fn delta_value(delta: DeltaV) -> JsonV {
    let head = Seq::<(Seq<char>, JsonV)>::empty().push(("type"@, JsonV::Str(delta.type_))).push(
        ("activeSessionId"@, JsonV::Str(delta.active_session_id)),
    ).push(("assistantMessageEvent"@, assistant_message::event_value(delta.event)));
    let started = match delta.content_start {
        Some(block) => head.push(("contentStart"@, assistant_message::block_value(block))),
        None => head,
    };
    let argued = match delta.arguments {
        Some(arguments) => started.push(("toolCallArguments"@, JsonV::Obj(arguments))),
        None => started,
    };
    JsonV::Obj(json::push_opt(argued, "meta"@, delta.meta))
}

/// The fields of a compact update in their order.
pub open spec fn delta_fields() -> Seq<Seq<char>> {
    seq![
        "type"@,
        "activeSessionId"@,
        "assistantMessageEvent"@,
        "contentStart"@,
        "toolCallArguments"@,
        "meta"@,
    ]
}

/// The compact update in a document, whatever type it names; nothing where it is
/// none.
pub open spec fn delta_of(document: JsonV) -> Option<DeltaV> {
    let value = json::by_name(document, delta_fields(), 3);
    if value.str_at("type"@) is None || value.str_at("activeSessionId"@) is None || value.get(
        "assistantMessageEvent"@,
    ) is None {
        None
    } else {
        match assistant_message::event_of(value.get("assistantMessageEvent"@)->0) {
            None => None,
            Some(event) => match (
                json::present(value, "contentStart"@),
                json::present(value, "toolCallArguments"@),
            ) {
                (start, arguments) if (start matches Some(block) ==> assistant_message::is_block(
                    block,
                )) && (arguments matches Some(arguments) ==> arguments is Obj) => Some(
                    DeltaV {
                        type_: value.str_at("type"@)->0,
                        active_session_id: value.str_at("activeSessionId"@)->0,
                        event,
                        content_start: match start {
                            Some(block) => Some(assistant_message::block_of(block)),
                            None => None,
                        },
                        arguments: match arguments {
                            Some(arguments) => Some(arguments->Obj_0),
                            None => None,
                        },
                        meta: json::present(value, "meta"@),
                    },
                ),
                _ => None,
            },
        }
    }
}

impl CompactAssistantDelta {
    /// The index at which the update puts a block, where it puts one.
    pub fn placed_block(&self) -> (r: Option<usize>)
        ensures
            r == placed_index(self@.event),
    {
        match &self.assistant_message_event {
            AssistantMessageEvent::TextStart { content_index } => Some(*content_index),
            AssistantMessageEvent::ThinkingStart { content_index } => Some(*content_index),
            AssistantMessageEvent::ToolCallStart { content_index } => Some(*content_index),
            AssistantMessageEvent::ToolCallEnd { content_index, .. } => Some(*content_index),
            _ => None,
        }
    }

    /// The document of the update.
    pub fn to_value(&self) -> (r: Json)
        ensures
            r@ == delta_value(self@),
    {
        let mut pairs = json::no_members();
        json::add_text(&mut pairs, "type", &self.type_);
        json::add_text(&mut pairs, "activeSessionId", &self.active_session_id);
        json::add_member(
            &mut pairs,
            "assistantMessageEvent",
            self.assistant_message_event.to_value(),
        );
        if let Some(block) = &self.content_start {
            json::add_member(&mut pairs, "contentStart", block.to_value());
        }
        if let Some(arguments) = &self.tool_call_arguments {
            let arguments = clone_members(arguments);
            json::add_member(&mut pairs, "toolCallArguments", json::object(arguments));
        }
        json::add_opt(&mut pairs, "meta", &self.meta);
        json::object(pairs)
    }

    /// Reads a compact update; nothing where the document is none.
    pub fn from_value(value: &Json) -> (r: Option<Self>)
        ensures
            match r {
                Some(delta) => delta_of(value@) == Some(delta@),
                None => delta_of(value@) is None,
            },
    {
        broadcast use json::object_view;

        let names = vec![
            "type",
            "activeSessionId",
            "assistantMessageEvent",
            "contentStart",
            "toolCallArguments",
            "meta",
        ];
        assert(json::names_view(names@) =~= delta_fields());
        let named = json::named(value, names, 3);
        let value = &named;
        let type_ = match value.str_at("type") {
            Some(kind) => kind.to_owned(),
            None => return None,
        };
        let event = match value.get("assistantMessageEvent") {
            Some(event) => match read_event(event) {
                Some(event) => event,
                None => return None,
            },
            None => return None,
        };
        let content_start = match value.get("contentStart") {
            None => None,
            Some(Json::Null) => None,
            Some(block) => match read_block(block) {
                Some(block) => Some(block),
                None => return None,
            },
        };
        let tool_call_arguments = match value.get("toolCallArguments") {
            None => None,
            Some(Json::Null) => None,
            Some(Json::Object(arguments)) => Some(clone_members(arguments)),
            _ => return None,
        };
        let active_session_id = match value.str_at("activeSessionId") {
            Some(id) => id.to_owned(),
            None => return None,
        };
        Some(
            CompactAssistantDelta {
                type_,
                active_session_id,
                assistant_message_event: event,
                content_start,
                tool_call_arguments,
                meta: match value.get("meta") {
                    None => None,
                    Some(Json::Null) => None,
                    Some(meta) => Some(meta.clone()),
                },
            },
        )
    }
}

/// A compact update is read from its document as it was written, where its blocks
/// name what they are, and its meta data, where there are some, are no null.
pub proof fn delta_is_read_back(delta: DeltaV)
    requires
        assistant_message::well_typed_event(delta.event),
        delta.content_start matches Some(block) ==> assistant_message::well_typed(block),
        delta.meta != Some(JsonV::Null),
    ensures
        delta_of(delta_value(delta)) == Some(delta),
{
    broadcast use {json::lookup_push, json::lookup_empty};

    reveal_strlit("type");
    reveal_strlit("activeSessionId");
    reveal_strlit("assistantMessageEvent");
    reveal_strlit("contentStart");
    reveal_strlit("toolCallArguments");
    reveal_strlit("meta");
    assert("type"@.len() == 4 && "activeSessionId"@.len() == 15 && "assistantMessageEvent"@.len()
        == 21 && "contentStart"@.len() == 12 && "toolCallArguments"@.len() == 17 && "meta"@.len()
        == 4);
    assert("type"@[0] == 't' && "meta"@[0] == 'm');
    assistant_message::event_is_read_back(delta.event);
    let value = delta_value(delta);
    if let Some(block) = delta.content_start {
        assistant_message::block_is_read_back(block);
    }
    assert(value.str_at("type"@) == Some(delta.type_));
    assert(value.str_at("activeSessionId"@) == Some(delta.active_session_id));
    assert(value.get("assistantMessageEvent"@) == Some(
        assistant_message::event_value(delta.event),
    ));
    assert(delta_of(value)->0 =~= delta);
}

/// A tool call as a block, for callers that build updates themselves.
pub fn tool_call_content(tool_call: ToolCall) -> (r: ContentBlock)
    ensures
        r@ == BlockV::ToolCall(tool_call@),
{
    ContentBlock::ToolCall(tool_call)
}

} // verus!
