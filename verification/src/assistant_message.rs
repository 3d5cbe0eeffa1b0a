//! The messages of an assistant and the events that build them, and their
//! documents.

use vstd::prelude::*;

use crate::json;
use crate::json::{Json, JsonV, copied, owned};

verus! {

pub const TEXT_CONTENT_TYPE: &'static str = "text";

pub const THINKING_CONTENT_TYPE: &'static str = "thinking";

pub const TOOL_CALL_TYPE: &'static str = "toolCall";

/// A block of text.
#[derive(Debug, PartialEq)]
pub struct TextContent {
    pub type_: String,
    pub text: String,
    pub text_signature: Option<String>,
}

/// A block of reasoning.
#[derive(Debug, PartialEq)]
pub struct ThinkingContent {
    pub type_: String,
    pub thinking: String,
    pub thinking_signature: Option<String>,
    pub redacted: Option<bool>,
}

/// A call of a tool.
#[derive(Debug, PartialEq)]
pub struct ToolCall {
    pub type_: String,
    pub id: String,
    pub name: String,
    pub arguments: Vec<(String, Json)>,
    pub thought_signature: Option<String>,
}

/// A block of a message.
#[derive(Debug, PartialEq)]
pub enum ContentBlock {
    Text(TextContent),
    Thinking(ThinkingContent),
    ToolCall(ToolCall),
}

/// What a call of a tool says.
#[verifier::ext_equal]
pub struct ToolCallV {
    pub type_: Seq<char>,
    pub id: Seq<char>,
    pub name: Seq<char>,
    pub arguments: Seq<(Seq<char>, JsonV)>,
    pub thought_signature: Option<Seq<char>>,
}

/// What a block says.
#[verifier::ext_equal]
pub enum BlockV {
    Text { type_: Seq<char>, text: Seq<char>, signature: Option<Seq<char>> },
    Thinking {
        type_: Seq<char>,
        thinking: Seq<char>,
        signature: Option<Seq<char>>,
        redacted: Option<bool>,
    },
    ToolCall(ToolCallV),
}

impl View for ToolCall {
    type V = ToolCallV;

    open spec fn view(&self) -> ToolCallV {
        ToolCallV {
            type_: self.type_@,
            id: self.id@,
            name: self.name@,
            arguments: json::members(self.arguments@),
            thought_signature: json::opt_view(self.thought_signature),
        }
    }
}

impl View for ContentBlock {
    type V = BlockV;

    open spec fn view(&self) -> BlockV {
        match self {
            ContentBlock::Text(text) => BlockV::Text {
                type_: text.type_@,
                text: text.text@,
                signature: json::opt_view(text.text_signature),
            },
            ContentBlock::Thinking(thinking) => BlockV::Thinking {
                type_: thinking.type_@,
                thinking: thinking.thinking@,
                signature: json::opt_view(thinking.thinking_signature),
                redacted: thinking.redacted,
            },
            ContentBlock::ToolCall(call) => BlockV::ToolCall(call@),
        }
    }
}

/// A copy of the members of an object.
pub fn clone_members(pairs: &Vec<(String, Json)>) -> (r: Vec<(String, Json)>)
    ensures
        json::members(r@) == json::members(pairs@),
{
    let mut out: Vec<(String, Json)> = Vec::new();
    let mut i: usize = 0;
    while i < pairs.len()
        invariant
            i <= pairs.len(),
            out@.len() == i,
            forall|j: int|
                0 <= j < i ==> (#[trigger] out@[j]).0@ == pairs@[j].0@ && out@[j].1@
                    == pairs@[j].1@,
        decreases pairs.len() - i,
    {
        out.push((pairs[i].0.clone(), pairs[i].1.clone()));
        i += 1;
    }
    assert(json::members(out@) =~= json::members(pairs@));
    out
}

impl Clone for ToolCall {
    fn clone(&self) -> (r: Self)
        ensures
            r@ == self@,
    {
        ToolCall {
            type_: self.type_.clone(),
            id: self.id.clone(),
            name: self.name.clone(),
            arguments: clone_members(&self.arguments),
            thought_signature: self.thought_signature.clone(),
        }
    }
}

impl Clone for ContentBlock {
    fn clone(&self) -> (r: Self)
        ensures
            r@ == self@,
    {
        match self {
            ContentBlock::Text(text) => ContentBlock::Text(
                TextContent {
                    type_: text.type_.clone(),
                    text: text.text.clone(),
                    text_signature: text.text_signature.clone(),
                },
            ),
            ContentBlock::Thinking(thinking) => ContentBlock::Thinking(
                ThinkingContent {
                    type_: thinking.type_.clone(),
                    thinking: thinking.thinking.clone(),
                    thinking_signature: thinking.thinking_signature.clone(),
                    redacted: thinking.redacted,
                },
            ),
            ContentBlock::ToolCall(call) => ContentBlock::ToolCall(call.clone()),
        }
    }
}

/// What blocks say.
pub open spec fn blocks(content: Seq<ContentBlock>) -> Seq<BlockV> {
    Seq::new(content.len(), |i: int| content[i]@)
}

/// A message of an assistant. What was used is carried as it was sent.
#[derive(Debug, PartialEq)]
pub struct AssistantMessage {
    pub role: String,
    pub content: Vec<ContentBlock>,
    pub api: String,
    pub provider: String,
    pub model: String,
    pub response_model: Option<String>,
    pub response_id: Option<String>,
    pub diagnostics: Option<Json>,
    pub usage: Json,
    pub stop_reason: String,
    pub stop_reason_raw: Option<String>,
    pub error_message: Option<String>,
    pub timestamp: i64,
}

/// What a message says.
#[verifier::ext_equal]
pub struct MessageV {
    pub role: Seq<char>,
    pub content: Seq<BlockV>,
    pub api: Seq<char>,
    pub provider: Seq<char>,
    pub model: Seq<char>,
    pub response_model: Option<Seq<char>>,
    pub response_id: Option<Seq<char>>,
    pub diagnostics: Option<JsonV>,
    pub usage: JsonV,
    pub stop_reason: Seq<char>,
    pub stop_reason_raw: Option<Seq<char>>,
    pub error_message: Option<Seq<char>>,
    pub timestamp: i64,
}

impl View for AssistantMessage {
    type V = MessageV;

    open spec fn view(&self) -> MessageV {
        MessageV {
            role: self.role@,
            content: blocks(self.content@),
            api: self.api@,
            provider: self.provider@,
            model: self.model@,
            response_model: json::opt_view(self.response_model),
            response_id: json::opt_view(self.response_id),
            diagnostics: json::opt_json(self.diagnostics),
            usage: self.usage@,
            stop_reason: self.stop_reason@,
            stop_reason_raw: json::opt_view(self.stop_reason_raw),
            error_message: json::opt_view(self.error_message),
            timestamp: self.timestamp,
        }
    }
}

/// The document is a call of a tool.
pub open spec fn is_tool_call(value: JsonV) -> bool {
    &&& value.str_at("type"@) == Some("toolCall"@)
    &&& value.str_at("id"@) is Some
    &&& value.str_at("name"@) is Some
    &&& value.get("arguments"@) matches Some(JsonV::Obj(_))
    &&& json::optional_text(value, "thoughtSignature"@)
}

/// The call of a tool in a document.
pub open spec fn tool_call_of(value: JsonV) -> ToolCallV {
    ToolCallV {
        type_: "toolCall"@,
        id: value.str_at("id"@)->0,
        name: value.str_at("name"@)->0,
        arguments: value.get("arguments"@)->0->Obj_0,
        thought_signature: value.str_at("thoughtSignature"@),
    }
}

/// The document is a block of a message.
pub open spec fn is_block(value: JsonV) -> bool {
    ||| is_tool_call(value)
    ||| value.str_at("type"@) == Some("text"@) && value.str_at("text"@) is Some
        && json::optional_text(value, "textSignature"@)
    ||| value.str_at("type"@) == Some("thinking"@) && value.str_at("thinking"@) is Some
        && json::optional_text(value, "thinkingSignature"@) && json::optional_bool(
        value,
        "redacted"@,
    )
}

/// The block in a document.
pub open spec fn block_of(value: JsonV) -> BlockV {
    if value.str_at("type"@) == Some("text"@) {
        BlockV::Text {
            type_: "text"@,
            text: value.str_at("text"@)->0,
            signature: value.str_at("textSignature"@),
        }
    } else if value.str_at("type"@) == Some("thinking"@) {
        BlockV::Thinking {
            type_: "thinking"@,
            thinking: value.str_at("thinking"@)->0,
            signature: value.str_at("thinkingSignature"@),
            redacted: value.bool_at("redacted"@),
        }
    } else {
        BlockV::ToolCall(tool_call_of(value))
    }
}

/// The members of a call of a tool.
pub open spec fn tool_call_value(call: ToolCallV) -> JsonV {
    JsonV::Obj(
        json::push_opt_text(
            Seq::<(Seq<char>, JsonV)>::empty().push(("type"@, JsonV::Str(call.type_))).push(
                ("id"@, JsonV::Str(call.id)),
            ).push(("name"@, JsonV::Str(call.name))).push(
                ("arguments"@, JsonV::Obj(call.arguments)),
            ),
            "thoughtSignature"@,
            call.thought_signature,
        ),
    )
}

/// The document of a block.
pub open spec fn block_value(block: BlockV) -> JsonV {
    let none = Seq::<(Seq<char>, JsonV)>::empty();
    match block {
        BlockV::Text { type_, text, signature } => JsonV::Obj(
            json::push_opt_text(
                none.push(("type"@, JsonV::Str(type_))).push(("text"@, JsonV::Str(text))),
                "textSignature"@,
                signature,
            ),
        ),
        BlockV::Thinking { type_, thinking, signature, redacted } => {
            let signed = json::push_opt_text(
                none.push(("type"@, JsonV::Str(type_))).push(
                    ("thinking"@, JsonV::Str(thinking)),
                ),
                "thinkingSignature"@,
                signature,
            );
            JsonV::Obj(
                match redacted {
                    Some(b) => signed.push(("redacted"@, JsonV::Bool(b))),
                    None => signed,
                },
            )
        },
        BlockV::ToolCall(call) => tool_call_value(call),
    }
}

/// The block's type names what it is.
pub open spec fn well_typed(block: BlockV) -> bool {
    match block {
        BlockV::Text { type_, .. } => type_ == "text"@,
        BlockV::Thinking { type_, .. } => type_ == "thinking"@,
        BlockV::ToolCall(call) => call.type_ == "toolCall"@,
    }
}

proof fn block_keys_differ()
    ensures
        "type"@.len() == 4 && "type"@[1] == 'y',
        "text"@.len() == 4 && "text"@[1] == 'e',
        "textSignature"@.len() == 13,
        "thinking"@.len() == 8 && "thinking"@[0] == 't',
        "thinkingSignature"@.len() == 17,
        "redacted"@.len() == 8 && "redacted"@[0] == 'r',
        "toolCall"@.len() == 8 && "toolCall"@[1] == 'o',
        "thinking"@[1] == 'h',
        "id"@.len() == 2,
        "name"@.len() == 4 && "name"@[1] == 'a',
        "arguments"@.len() == 9,
        "thoughtSignature"@.len() == 16,
{
    reveal_strlit("type");
    reveal_strlit("text");
    reveal_strlit("textSignature");
    reveal_strlit("thinking");
    reveal_strlit("thinkingSignature");
    reveal_strlit("redacted");
    reveal_strlit("toolCall");
    reveal_strlit("id");
    reveal_strlit("name");
    reveal_strlit("arguments");
    reveal_strlit("thoughtSignature");
}

/// A block is read from its document as it was written.
pub proof fn block_is_read_back(block: BlockV)
    requires
        well_typed(block),
    ensures
        is_block(block_value(block)),
        block_of(block_value(block)) == block,
{
    broadcast use {json::lookup_push, json::lookup_empty};

    block_keys_differ();
    let value = block_value(block);
    match block {
        BlockV::Text { type_, text, signature } => {
            assert(value.str_at("type"@) == Some(type_));
            assert(value.str_at("text"@) == Some(text));
        },
        BlockV::Thinking { type_, thinking, signature, redacted } => {
            assert(value.str_at("type"@) == Some(type_));
            assert(value.str_at("thinking"@) == Some(thinking));
            assert(value.str_at("thinkingSignature"@) == signature);
            assert(value.bool_at("redacted"@) == redacted);
        },
        BlockV::ToolCall(call) => {
            assert(value.str_at("type"@) == Some(call.type_));
            assert(value.str_at("id"@) == Some(call.id));
            assert(value.str_at("name"@) == Some(call.name));
            assert(value.str_at("thoughtSignature"@) == call.thought_signature);
            assert(tool_call_of(value) =~= call);
        },
    }
}

/// Reads a call of a tool; nothing where the document is none.
pub fn read_tool_call(value: &Json) -> (r: Option<ToolCall>)
    ensures
        match r {
            Some(call) => is_tool_call(value@) && call@ == tool_call_of(value@),
            None => !is_tool_call(value@),
        },
{
    broadcast use json::object_view;

    if !value.str_is("type", "toolCall") || !json::is_optional_text(value, "thoughtSignature") {
        return None;
    }
    match (value.str_at("id"), value.str_at("name"), value.get("arguments")) {
        (Some(id), Some(name), Some(Json::Object(arguments))) => Some(
            ToolCall {
                type_: "toolCall".to_owned(),
                id: id.to_owned(),
                name: name.to_owned(),
                arguments: clone_members(arguments),
                thought_signature: owned(value.str_at("thoughtSignature")),
            },
        ),
        _ => None,
    }
}

/// Reads a block; nothing where the document is none.
pub fn read_block(value: &Json) -> (r: Option<ContentBlock>)
    ensures
        match r {
            Some(block) => is_block(value@) && block@ == block_of(value@),
            None => !is_block(value@),
        },
{
    proof {
        block_keys_differ();
    }
    if value.str_is("type", "text") {
        return match value.str_at("text") {
            Some(text) if json::is_optional_text(value, "textSignature") => Some(
                ContentBlock::Text(
                    TextContent {
                        type_: "text".to_owned(),
                        text: text.to_owned(),
                        text_signature: owned(value.str_at("textSignature")),
                    },
                ),
            ),
            _ => None,
        };
    }
    if value.str_is("type", "thinking") {
        return match value.str_at("thinking") {
            Some(thinking) if json::is_optional_text(value, "thinkingSignature") && json::is_optional_bool(
                value,
                "redacted",
            ) => Some(
                ContentBlock::Thinking(
                    ThinkingContent {
                        type_: "thinking".to_owned(),
                        thinking: thinking.to_owned(),
                        thinking_signature: owned(value.str_at("thinkingSignature")),
                        redacted: value.bool_at("redacted"),
                    },
                ),
            ),
            _ => None,
        };
    }
    match read_tool_call(value) {
        Some(call) => Some(ContentBlock::ToolCall(call)),
        None => None,
    }
}

impl ToolCall {
    /// The document of the call.
    pub fn to_value(&self) -> (r: Json)
        ensures
            r@ == tool_call_value(self@),
    {
        let mut pairs = json::no_members();
        json::add_text(&mut pairs, "type", &self.type_);
        json::add_text(&mut pairs, "id", &self.id);
        json::add_text(&mut pairs, "name", &self.name);
        let arguments = clone_members(&self.arguments);
        json::add_member(&mut pairs, "arguments", json::object(arguments));
        json::add_opt_text(&mut pairs, "thoughtSignature", &self.thought_signature);
        json::object(pairs)
    }
}

impl ContentBlock {
    /// The document of the block.
    pub fn to_value(&self) -> (r: Json)
        ensures
            r@ == block_value(self@),
    {
        match self {
            ContentBlock::Text(text) => {
                let mut pairs = json::no_members();
                json::add_text(&mut pairs, "type", &text.type_);
                json::add_text(&mut pairs, "text", &text.text);
                json::add_opt_text(&mut pairs, "textSignature", &text.text_signature);
                json::object(pairs)
            },
            ContentBlock::Thinking(thinking) => {
                let mut pairs = json::no_members();
                json::add_text(&mut pairs, "type", &thinking.type_);
                json::add_text(&mut pairs, "thinking", &thinking.thinking);
                json::add_opt_text(&mut pairs, "thinkingSignature", &thinking.thinking_signature);
                if let Some(redacted) = thinking.redacted {
                    json::add_member(&mut pairs, "redacted", Json::Bool(redacted));
                }
                json::object(pairs)
            },
            ContentBlock::ToolCall(call) => call.to_value(),
        }
    }
}

/// The documents of blocks.
pub open spec fn content_value(content: Seq<BlockV>) -> JsonV {
    JsonV::Arr(Seq::new(content.len(), |i: int| block_value(content[i])))
}

/// Every value is a block.
pub open spec fn all_blocks(values: Seq<JsonV>) -> bool {
    forall|i: int| 0 <= i < values.len() ==> is_block(#[trigger] values[i])
}

/// The document is a message of an assistant.
pub open spec fn is_message(value: JsonV) -> bool {
    &&& value.str_at("role"@) is Some
    &&& value.get("content"@) matches Some(JsonV::Arr(values)) && all_blocks(values)
    &&& value.str_at("api"@) is Some
    &&& value.str_at("provider"@) is Some
    &&& value.str_at("model"@) is Some
    &&& json::optional_text(value, "responseModel"@)
    &&& json::optional_text(value, "responseId"@)
    &&& value.get("usage"@) matches Some(JsonV::Obj(_))
    &&& value.str_at("stopReason"@) is Some
    &&& json::optional_text(value, "stopReasonRaw"@)
    &&& json::optional_text(value, "errorMessage"@)
    &&& value.i64_at("timestamp"@) is Some
}

/// The message in a document.
pub open spec fn message_of(value: JsonV) -> MessageV {
    let values = value.get("content"@)->0->Arr_0;
    MessageV {
        role: value.str_at("role"@)->0,
        content: Seq::new(values.len(), |i: int| block_of(values[i])),
        api: value.str_at("api"@)->0,
        provider: value.str_at("provider"@)->0,
        model: value.str_at("model"@)->0,
        response_model: value.str_at("responseModel"@),
        response_id: value.str_at("responseId"@),
        diagnostics: json::present(value, "diagnostics"@),
        usage: value.get("usage"@)->0,
        stop_reason: value.str_at("stopReason"@)->0,
        stop_reason_raw: value.str_at("stopReasonRaw"@),
        error_message: value.str_at("errorMessage"@),
        timestamp: value.i64_at("timestamp"@)->0,
    }
}

/// The document of a message.
pub open spec fn message_value(message: MessageV) -> JsonV {
    let head = Seq::<(Seq<char>, JsonV)>::empty().push(("role"@, JsonV::Str(message.role))).push(
        ("content"@, content_value(message.content)),
    ).push(("api"@, JsonV::Str(message.api))).push(
        ("provider"@, JsonV::Str(message.provider)),
    ).push(("model"@, JsonV::Str(message.model)));
    let responded = json::push_opt_text(
        json::push_opt_text(head, "responseModel"@, message.response_model),
        "responseId"@,
        message.response_id,
    );
    let used = json::push_opt(responded, "diagnostics"@, message.diagnostics).push(
        ("usage"@, message.usage),
    ).push(("stopReason"@, JsonV::Str(message.stop_reason)));
    JsonV::Obj(
        json::push_opt_text(
            json::push_opt_text(used, "stopReasonRaw"@, message.stop_reason_raw),
            "errorMessage"@,
            message.error_message,
        ).push(("timestamp"@, json::int_value(message.timestamp as int))),
    )
}

fn read_blocks(values: &Vec<Json>) -> (r: Option<Vec<ContentBlock>>)
    ensures
        match r {
            Some(content) => all_blocks(json::items(values@)) && blocks(content@) == Seq::new(
                values@.len(),
                |i: int| block_of(values@[i]@),
            ),
            None => !all_blocks(json::items(values@)),
        },
{
    let mut content: Vec<ContentBlock> = Vec::new();
    let mut i: usize = 0;
    while i < values.len()
        invariant
            i <= values.len(),
            content@.len() == i,
            forall|j: int|
                0 <= j < i ==> is_block(#[trigger] json::items(values@)[j]) && content@[j]@
                    == block_of(values@[j]@),
        decreases values.len() - i,
    {
        match read_block(&values[i]) {
            Some(block) => content.push(block),
            None => {
                assert(!is_block(json::items(values@)[i as int]));
                return None;
            },
        }
        i += 1;
    }
    proof {
        let expected = Seq::new(values@.len(), |j: int| block_of(values@[j]@));
        assert forall|j: int| 0 <= j < content@.len() implies blocks(content@)[j] == expected[j] by {
            assert(is_block(json::items(values@)[j]));
        }
        assert(blocks(content@) =~= expected);
    }
    Some(content)
}

impl AssistantMessage {
    /// Reads a message; nothing where the document is none.
    pub fn from_value(value: &Json) -> (r: Option<Self>)
        ensures
            match r {
                Some(message) => is_message(value@) && message@ == message_of(value@),
                None => !is_message(value@),
            },
    {
        broadcast use {json::array_view, json::object_view};

        if !(json::is_optional_text(value, "responseModel") && json::is_optional_text(value, "responseId")
            && json::is_optional_text(value, "stopReasonRaw") && json::is_optional_text(
            value,
            "errorMessage",
        )) {
            return None;
        }
        let content = match value.get("content") {
            Some(Json::Array(values)) => match read_blocks(values) {
                Some(content) => {
                    proof {
                        let all = value@.get("content"@)->0->Arr_0;
                        assert(all =~= json::items(values@));
                        assert(blocks(content@) =~= Seq::new(
                            all.len(),
                            |i: int| block_of(all[i]),
                        ));
                    }
                    content
                },
                None => return None,
            },
            _ => return None,
        };
        let usage = match value.get("usage") {
            Some(usage) => match usage {
                Json::Object(_) => usage.clone(),
                _ => return None,
            },
            None => return None,
        };
        let timestamp: i64 = match value.i64_at("timestamp") {
            Some(timestamp) => timestamp,
            None => return None,
        };
        match (value.str_at("role"), value.str_at("api"), value.str_at("provider")) {
            (Some(role), Some(api), Some(provider)) => match (
                value.str_at("model"),
                value.str_at("stopReason"),
            ) {
                (Some(model), Some(stop_reason)) => Some(
                    AssistantMessage {
                        role: role.to_owned(),
                        content,
                        api: api.to_owned(),
                        provider: provider.to_owned(),
                        model: model.to_owned(),
                        response_model: owned(value.str_at("responseModel")),
                        response_id: owned(value.str_at("responseId")),
                        diagnostics: json::present_copy(value, "diagnostics"),
                        usage,
                        stop_reason: stop_reason.to_owned(),
                        stop_reason_raw: owned(value.str_at("stopReasonRaw")),
                        error_message: owned(value.str_at("errorMessage")),
                        timestamp,
                    },
                ),
                _ => None,
            },
            _ => None,
        }
    }

    /// The document of the message.
    pub fn to_value(&self) -> (r: Json)
        ensures
            r@ == message_value(self@),
    {
        let mut values: Vec<Json> = Vec::new();
        let mut i: usize = 0;
        while i < self.content.len()
            invariant
                i <= self.content.len(),
                values@.len() == i,
                forall|j: int|
                    0 <= j < i ==> (#[trigger] values@[j])@ == block_value(self.content@[j]@),
            decreases self.content.len() - i,
        {
            values.push(self.content[i].to_value());
            i += 1;
        }
        assert(json::items(values@) =~= content_value(blocks(self.content@))->Arr_0);
        let mut pairs = json::no_members();
        json::add_text(&mut pairs, "role", &self.role);
        json::add_member(&mut pairs, "content", json::array(values));
        json::add_text(&mut pairs, "api", &self.api);
        json::add_text(&mut pairs, "provider", &self.provider);
        json::add_text(&mut pairs, "model", &self.model);
        json::add_opt_text(&mut pairs, "responseModel", &self.response_model);
        json::add_opt_text(&mut pairs, "responseId", &self.response_id);
        json::add_opt(&mut pairs, "diagnostics", &self.diagnostics);
        json::add_member(&mut pairs, "usage", self.usage.clone());
        json::add_text(&mut pairs, "stopReason", &self.stop_reason);
        json::add_opt_text(&mut pairs, "stopReasonRaw", &self.stop_reason_raw);
        json::add_opt_text(&mut pairs, "errorMessage", &self.error_message);
        json::add_member(&mut pairs, "timestamp", json::integer(self.timestamp));
        json::object(pairs)
    }
}

impl Clone for AssistantMessage {
    fn clone(&self) -> (r: Self)
        ensures
            r@ == self@,
    {
        let mut content: Vec<ContentBlock> = Vec::new();
        let mut i: usize = 0;
        while i < self.content.len()
            invariant
                i <= self.content.len(),
                content@.len() == i,
                forall|j: int| 0 <= j < i ==> (#[trigger] content@[j])@ == self.content@[j]@,
            decreases self.content.len() - i,
        {
            content.push(self.content[i].clone());
            i += 1;
        }
        assert(blocks(content@) =~= blocks(self.content@));
        AssistantMessage {
            role: self.role.clone(),
            content,
            api: self.api.clone(),
            provider: self.provider.clone(),
            model: self.model.clone(),
            response_model: self.response_model.clone(),
            response_id: self.response_id.clone(),
            diagnostics: copied(self.diagnostics.as_ref()),
            usage: self.usage.clone(),
            stop_reason: self.stop_reason.clone(),
            stop_reason_raw: self.stop_reason_raw.clone(),
            error_message: self.error_message.clone(),
            timestamp: self.timestamp,
        }
    }
}

/// What happens to a message while it is built. The message so far, which goes
/// with every event, is not part of it.
#[derive(Debug, PartialEq)]
pub enum AssistantMessageEvent {
    Start,
    TextStart { content_index: usize },
    TextDelta { content_index: usize, delta: String },
    TextEnd { content_index: usize, content: String },
    ThinkingStart { content_index: usize },
    ThinkingDelta { content_index: usize, delta: String },
    ThinkingEnd { content_index: usize, content: String },
    ToolCallStart { content_index: usize },
    ToolCallDelta { content_index: usize, delta: String },
    ToolCallEnd { content_index: usize, tool_call: ToolCall },
    Done { reason: String, message: Json },
    Error { reason: String, error: Json },
}

/// What an event says.
pub enum EventV {
    Start,
    TextStart { index: usize },
    TextDelta { index: usize, delta: Seq<char> },
    TextEnd { index: usize, content: Seq<char> },
    ThinkingStart { index: usize },
    ThinkingDelta { index: usize, delta: Seq<char> },
    ThinkingEnd { index: usize, content: Seq<char> },
    ToolCallStart { index: usize },
    ToolCallDelta { index: usize, delta: Seq<char> },
    ToolCallEnd { index: usize, call: ToolCallV },
    Done { reason: Seq<char>, message: JsonV },
    Error { reason: Seq<char>, error: JsonV },
}

impl View for AssistantMessageEvent {
    type V = EventV;

    open spec fn view(&self) -> EventV {
        match self {
            AssistantMessageEvent::Start => EventV::Start,
            AssistantMessageEvent::TextStart { content_index } => EventV::TextStart {
                index: *content_index,
            },
            AssistantMessageEvent::TextDelta { content_index, delta } => EventV::TextDelta {
                index: *content_index,
                delta: delta@,
            },
            AssistantMessageEvent::TextEnd { content_index, content } => EventV::TextEnd {
                index: *content_index,
                content: content@,
            },
            AssistantMessageEvent::ThinkingStart { content_index } => EventV::ThinkingStart {
                index: *content_index,
            },
            AssistantMessageEvent::ThinkingDelta { content_index, delta } => {
                EventV::ThinkingDelta { index: *content_index, delta: delta@ }
            },
            AssistantMessageEvent::ThinkingEnd { content_index, content } => EventV::ThinkingEnd {
                index: *content_index,
                content: content@,
            },
            AssistantMessageEvent::ToolCallStart { content_index } => EventV::ToolCallStart {
                index: *content_index,
            },
            AssistantMessageEvent::ToolCallDelta { content_index, delta } => {
                EventV::ToolCallDelta { index: *content_index, delta: delta@ }
            },
            AssistantMessageEvent::ToolCallEnd { content_index, tool_call } => {
                EventV::ToolCallEnd { index: *content_index, call: tool_call@ }
            },
            AssistantMessageEvent::Done { reason, message } => EventV::Done {
                reason: reason@,
                message: message@,
            },
            AssistantMessageEvent::Error { reason, error } => EventV::Error {
                reason: reason@,
                error: error@,
            },
        }
    }
}

/// The name of an event on the wire.
pub open spec fn event_name(event: EventV) -> Seq<char> {
    match event {
        EventV::Start => "start"@,
        EventV::TextStart { .. } => "text_start"@,
        EventV::TextDelta { .. } => "text_delta"@,
        EventV::TextEnd { .. } => "text_end"@,
        EventV::ThinkingStart { .. } => "thinking_start"@,
        EventV::ThinkingDelta { .. } => "thinking_delta"@,
        EventV::ThinkingEnd { .. } => "thinking_end"@,
        EventV::ToolCallStart { .. } => "toolcall_start"@,
        EventV::ToolCallDelta { .. } => "toolcall_delta"@,
        EventV::ToolCallEnd { .. } => "toolcall_end"@,
        EventV::Done { .. } => "done"@,
        EventV::Error { .. } => "error"@,
    }
}

/// The document of an event.
pub open spec fn event_value(event: EventV) -> JsonV {
    let named = Seq::<(Seq<char>, JsonV)>::empty().push(
        ("type"@, JsonV::Str(event_name(event))),
    );
    JsonV::Obj(
        match event {
            EventV::Start => named,
            EventV::TextStart { index } => named.push(
                ("contentIndex"@, json::int_value(index as int)),
            ),
            EventV::TextDelta { index, delta } => named.push(
                ("contentIndex"@, json::int_value(index as int)),
            ).push(("delta"@, JsonV::Str(delta))),
            EventV::TextEnd { index, content } => named.push(
                ("contentIndex"@, json::int_value(index as int)),
            ).push(("content"@, JsonV::Str(content))),
            EventV::ThinkingStart { index } => named.push(
                ("contentIndex"@, json::int_value(index as int)),
            ),
            EventV::ThinkingDelta { index, delta } => named.push(
                ("contentIndex"@, json::int_value(index as int)),
            ).push(("delta"@, JsonV::Str(delta))),
            EventV::ThinkingEnd { index, content } => named.push(
                ("contentIndex"@, json::int_value(index as int)),
            ).push(("content"@, JsonV::Str(content))),
            EventV::ToolCallStart { index } => named.push(
                ("contentIndex"@, json::int_value(index as int)),
            ),
            EventV::ToolCallDelta { index, delta } => named.push(
                ("contentIndex"@, json::int_value(index as int)),
            ).push(("delta"@, JsonV::Str(delta))),
            EventV::ToolCallEnd { index, call } => named.push(
                ("contentIndex"@, json::int_value(index as int)),
            ).push(("toolCall"@, tool_call_value(call))),
            EventV::Done { reason, message } => named.push(
                ("reason"@, JsonV::Str(reason)),
            ).push(("message"@, message)),
            EventV::Error { reason, error } => named.push(("reason"@, JsonV::Str(reason))).push(
                ("error"@, error),
            ),
        },
    )
}

/// The index of the block that a document speaks of.
pub open spec fn index_of(value: JsonV) -> Option<usize> {
    match value.u64_at("contentIndex"@) {
        Some(n) if n <= usize::MAX => Some(n as usize),
        _ => None,
    }
}

/// The event in a document; nothing where it is none.
pub open spec fn event_of(value: JsonV) -> Option<EventV> {
    let delta = value.str_at("delta"@);
    let content = value.str_at("content"@);
    match (value.str_at("type"@), index_of(value)) {
        (Some(name), Some(index)) if name == "text_start"@ => Some(EventV::TextStart { index }),
        (Some(name), Some(index)) if name == "text_delta"@ && delta is Some => Some(
            EventV::TextDelta { index, delta: delta->0 },
        ),
        (Some(name), Some(index)) if name == "text_end"@ && content is Some => Some(
            EventV::TextEnd { index, content: content->0 },
        ),
        (Some(name), Some(index)) if name == "thinking_start"@ => Some(
            EventV::ThinkingStart { index },
        ),
        (Some(name), Some(index)) if name == "thinking_delta"@ && delta is Some => Some(
            EventV::ThinkingDelta { index, delta: delta->0 },
        ),
        (Some(name), Some(index)) if name == "thinking_end"@ && content is Some => Some(
            EventV::ThinkingEnd { index, content: content->0 },
        ),
        (Some(name), Some(index)) if name == "toolcall_start"@ => Some(
            EventV::ToolCallStart { index },
        ),
        (Some(name), Some(index)) if name == "toolcall_delta"@ && delta is Some => Some(
            EventV::ToolCallDelta { index, delta: delta->0 },
        ),
        (Some(name), Some(index)) if name == "toolcall_end"@ => match value.get("toolCall"@) {
            Some(call) if is_tool_call(call) => Some(
                EventV::ToolCallEnd { index, call: tool_call_of(call) },
            ),
            _ => None,
        },
        (Some(name), _) if name == "start"@ => Some(EventV::Start),
        (Some(name), _) if name == "done"@ => match (
            value.str_at("reason"@),
            value.get("message"@),
        ) {
            (Some(reason), Some(message)) => Some(EventV::Done { reason, message }),
            _ => None,
        },
        (Some(name), _) if name == "error"@ => match (
            value.str_at("reason"@),
            value.get("error"@),
        ) {
            (Some(reason), Some(error)) => Some(EventV::Error { reason, error }),
            _ => None,
        },
        _ => None,
    }
}

proof fn event_names_differ()
    ensures
        "start"@.len() == 5 && "start"@[0] == 's',
        "text_start"@.len() == 10 && "text_start"@[5] == 's',
        "text_delta"@.len() == 10 && "text_delta"@[5] == 'd',
        "text_end"@.len() == 8,
        "thinking_start"@.len() == 14 && "thinking_start"@[9] == 's' && "thinking_start"@[1]
            == 'h',
        "thinking_delta"@.len() == 14 && "thinking_delta"@[9] == 'd' && "thinking_delta"@[1]
            == 'h',
        "thinking_end"@.len() == 12 && "thinking_end"@[1] == 'h',
        "toolcall_start"@.len() == 14 && "toolcall_start"@[9] == 's' && "toolcall_start"@[1]
            == 'o',
        "toolcall_delta"@.len() == 14 && "toolcall_delta"@[9] == 'd' && "toolcall_delta"@[1]
            == 'o',
        "toolcall_end"@.len() == 12 && "toolcall_end"@[1] == 'o',
        "done"@.len() == 4,
        "error"@.len() == 5 && "error"@[0] == 'e',
{
    reveal_strlit("start");
    reveal_strlit("text_start");
    reveal_strlit("text_delta");
    reveal_strlit("text_end");
    reveal_strlit("thinking_start");
    reveal_strlit("thinking_delta");
    reveal_strlit("thinking_end");
    reveal_strlit("toolcall_start");
    reveal_strlit("toolcall_delta");
    reveal_strlit("toolcall_end");
    reveal_strlit("done");
    reveal_strlit("error");
}

/// The calls of tools in the event name what they are.
pub open spec fn well_typed_event(event: EventV) -> bool {
    event matches EventV::ToolCallEnd { call, .. } ==> call.type_ == "toolCall"@
}

/// An event is read from its document as it was written.
pub proof fn event_is_read_back(event: EventV)
    requires
        well_typed_event(event),
    ensures
        event_of(event_value(event)) == Some(event),
{
    broadcast use {json::lookup_push, json::lookup_empty};

    event_names_differ();
    reveal_strlit("type");
    reveal_strlit("contentIndex");
    reveal_strlit("delta");
    reveal_strlit("content");
    reveal_strlit("toolCall");
    reveal_strlit("reason");
    reveal_strlit("message");
    assert("type"@.len() == 4 && "contentIndex"@.len() == 12 && "delta"@.len() == 5
        && "content"@.len() == 7 && "toolCall"@.len() == 8 && "reason"@.len() == 6
        && "message"@.len() == 7);
    assert("content"@[0] == 'c' && "message"@[0] == 'm' && "delta"@[0] == 'd');
    let value = event_value(event);
    assert(value.str_at("type"@) == Some(event_name(event)));
    match event {
        EventV::ToolCallEnd { index, call } => {
            block_is_read_back(BlockV::ToolCall(call));
            block_keys_differ();
            assert(value.get("toolCall"@) == Some(tool_call_value(call)));
            assert(is_tool_call(tool_call_value(call)));
        },
        _ => {},
    }
}

fn read_index(value: &Json) -> (r: Option<usize>)
    ensures
        r == index_of(value@),
{
    match value.u64_at("contentIndex") {
        Some(n) => if n <= usize::MAX as u64 {
            Some(n as usize)
        } else {
            None
        },
        None => None,
    }
}

fn read_block_event(value: &Json, content_index: usize) -> (r: Option<AssistantMessageEvent>)
    requires
        index_of(value@) == Some(content_index),
    ensures
        match r {
            Some(event) => event_of(value@) == Some(event@),
            None => event_of(value@) is None || event_of(value@) == Some(EventV::Start)
                || event_of(value@)->0 is Done || event_of(value@)->0 is Error,
        },
{
    proof {
        event_names_differ();
    }
    if value.str_is("type", "text_start") {
        return Some(AssistantMessageEvent::TextStart { content_index });
    }
    if value.str_is("type", "thinking_start") {
        return Some(AssistantMessageEvent::ThinkingStart { content_index });
    }
    if value.str_is("type", "toolcall_start") {
        return Some(AssistantMessageEvent::ToolCallStart { content_index });
    }
    if let Some(delta) = value.str_at("delta") {
        let delta = delta.to_owned();
        if value.str_is("type", "text_delta") {
            return Some(AssistantMessageEvent::TextDelta { content_index, delta });
        }
        if value.str_is("type", "thinking_delta") {
            return Some(AssistantMessageEvent::ThinkingDelta { content_index, delta });
        }
        if value.str_is("type", "toolcall_delta") {
            return Some(AssistantMessageEvent::ToolCallDelta { content_index, delta });
        }
    }
    if let Some(content) = value.str_at("content") {
        let content = content.to_owned();
        if value.str_is("type", "text_end") {
            return Some(AssistantMessageEvent::TextEnd { content_index, content });
        }
        if value.str_is("type", "thinking_end") {
            return Some(AssistantMessageEvent::ThinkingEnd { content_index, content });
        }
    }
    if value.str_is("type", "toolcall_end") {
        if let Some(call) = value.get("toolCall") {
            if let Some(tool_call) = read_tool_call(call) {
                return Some(AssistantMessageEvent::ToolCallEnd { content_index, tool_call });
            }
        }
    }
    None
}

/// Reads an event; nothing where the document is none.
pub fn read_event(value: &Json) -> (r: Option<AssistantMessageEvent>)
    ensures
        match r {
            Some(event) => event_of(value@) == Some(event@),
            None => event_of(value@) is None,
        },
{
    proof {
        event_names_differ();
    }
    if value.str_is("type", "start") {
        return Some(AssistantMessageEvent::Start);
    }
    if value.str_is("type", "done") {
        return match (value.str_at("reason"), value.get("message")) {
            (Some(reason), Some(message)) => Some(
                AssistantMessageEvent::Done {
                    reason: reason.to_owned(),
                    message: message.clone(),
                },
            ),
            _ => None,
        };
    }
    if value.str_is("type", "error") {
        return match (value.str_at("reason"), value.get("error")) {
            (Some(reason), Some(error)) => Some(
                AssistantMessageEvent::Error { reason: reason.to_owned(), error: error.clone() },
            ),
            _ => None,
        };
    }
    match read_index(value) {
        Some(content_index) => read_block_event(value, content_index),
        None => None,
    }
}

impl AssistantMessageEvent {
    /// The document of the event.
    pub fn to_value(&self) -> (r: Json)
        ensures
            r@ == event_value(self@),
    {
        let mut pairs = json::no_members();
        match self {
            AssistantMessageEvent::Start => {
                json::add_text(&mut pairs, "type", "start");
            },
            AssistantMessageEvent::TextStart { content_index } => {
                json::add_text(&mut pairs, "type", "text_start");
                json::add_member(&mut pairs, "contentIndex", json::count(*content_index as u64));
            },
            AssistantMessageEvent::TextDelta { content_index, delta } => {
                json::add_text(&mut pairs, "type", "text_delta");
                json::add_member(&mut pairs, "contentIndex", json::count(*content_index as u64));
                json::add_text(&mut pairs, "delta", delta);
            },
            AssistantMessageEvent::TextEnd { content_index, content } => {
                json::add_text(&mut pairs, "type", "text_end");
                json::add_member(&mut pairs, "contentIndex", json::count(*content_index as u64));
                json::add_text(&mut pairs, "content", content);
            },
            AssistantMessageEvent::ThinkingStart { content_index } => {
                json::add_text(&mut pairs, "type", "thinking_start");
                json::add_member(&mut pairs, "contentIndex", json::count(*content_index as u64));
            },
            AssistantMessageEvent::ThinkingDelta { content_index, delta } => {
                json::add_text(&mut pairs, "type", "thinking_delta");
                json::add_member(&mut pairs, "contentIndex", json::count(*content_index as u64));
                json::add_text(&mut pairs, "delta", delta);
            },
            AssistantMessageEvent::ThinkingEnd { content_index, content } => {
                json::add_text(&mut pairs, "type", "thinking_end");
                json::add_member(&mut pairs, "contentIndex", json::count(*content_index as u64));
                json::add_text(&mut pairs, "content", content);
            },
            AssistantMessageEvent::ToolCallStart { content_index } => {
                json::add_text(&mut pairs, "type", "toolcall_start");
                json::add_member(&mut pairs, "contentIndex", json::count(*content_index as u64));
            },
            AssistantMessageEvent::ToolCallDelta { content_index, delta } => {
                json::add_text(&mut pairs, "type", "toolcall_delta");
                json::add_member(&mut pairs, "contentIndex", json::count(*content_index as u64));
                json::add_text(&mut pairs, "delta", delta);
            },
            AssistantMessageEvent::ToolCallEnd { content_index, tool_call } => {
                json::add_text(&mut pairs, "type", "toolcall_end");
                json::add_member(&mut pairs, "contentIndex", json::count(*content_index as u64));
                json::add_member(&mut pairs, "toolCall", tool_call.to_value());
            },
            AssistantMessageEvent::Done { reason, message } => {
                json::add_text(&mut pairs, "type", "done");
                json::add_text(&mut pairs, "reason", reason);
                json::add_member(&mut pairs, "message", message.clone());
            },
            AssistantMessageEvent::Error { reason, error } => {
                json::add_text(&mut pairs, "type", "error");
                json::add_text(&mut pairs, "reason", reason);
                json::add_member(&mut pairs, "error", error.clone());
            },
        }
        json::object(pairs)
    }
}

proof fn message_keys_differ()
    ensures
        "role"@.len() == 4,
        "content"@.len() == 7,
        "api"@.len() == 3,
        "provider"@.len() == 8,
        "model"@.len() == 5 && "model"@[0] == 'm',
        "responseModel"@.len() == 13 && "responseModel"@[0] == 'r',
        "responseId"@.len() == 10 && "responseId"@[0] == 'r',
        "diagnostics"@.len() == 11,
        "usage"@.len() == 5 && "usage"@[0] == 'u',
        "stopReason"@.len() == 10 && "stopReason"@[0] == 's',
        "stopReasonRaw"@.len() == 13 && "stopReasonRaw"@[0] == 's',
        "errorMessage"@.len() == 12,
        "timestamp"@.len() == 9,
{
    reveal_strlit("role");
    reveal_strlit("content");
    reveal_strlit("api");
    reveal_strlit("provider");
    reveal_strlit("model");
    reveal_strlit("responseModel");
    reveal_strlit("responseId");
    reveal_strlit("diagnostics");
    reveal_strlit("usage");
    reveal_strlit("stopReason");
    reveal_strlit("stopReasonRaw");
    reveal_strlit("errorMessage");
    reveal_strlit("timestamp");
}

/// The document of a message names its role.
pub proof fn roles_are_written(message: MessageV)
    ensures
        message_value(message).str_at("role"@) == Some(message.role),
{
    broadcast use {json::lookup_push, json::lookup_empty};

    message_keys_differ();
    assert(message_value(message).get("role"@) == Some(JsonV::Str(message.role)));
}

/// A message is read from its document as it was written, where its blocks name
/// what they are, what was used is an object and its diagnostics, where there are
/// some, are no null.
pub proof fn message_is_read_back(message: MessageV)
    requires
        forall|i: int| 0 <= i < message.content.len() ==> well_typed(#[trigger] message.content[i]),
        message.usage is Obj,
        message.diagnostics != Some(JsonV::Null),
    ensures
        is_message(message_value(message)),
        message_of(message_value(message)) == message,
{
    broadcast use {json::lookup_push, json::lookup_empty};

    message_keys_differ();
    let value = message_value(message);
    let values = content_value(message.content)->Arr_0;
    assert(value.get("content"@) == Some(content_value(message.content)));
    assert forall|i: int| 0 <= i < values.len() implies is_block(#[trigger] values[i]) && block_of(
        values[i],
    ) == message.content[i] by {
        assert(well_typed(message.content[i]));
        block_is_read_back(message.content[i]);
    }
    assert(value.str_at("role"@) == Some(message.role));
    assert(value.str_at("api"@) == Some(message.api));
    assert(value.str_at("provider"@) == Some(message.provider));
    assert(value.str_at("model"@) == Some(message.model));
    assert(value.str_at("responseModel"@) == message.response_model);
    assert(value.str_at("responseId"@) == message.response_id);
    assert(value.get("usage"@) == Some(message.usage));
    assert(value.str_at("stopReason"@) == Some(message.stop_reason));
    assert(value.str_at("stopReasonRaw"@) == message.stop_reason_raw);
    assert(value.str_at("errorMessage"@) == message.error_message);
    assert(value.i64_at("timestamp"@) == Some(message.timestamp));
    assert(message_of(value).content =~= message.content);
    assert(message_of(value) =~= message);
}

} // verus!
