//! How extensions of a session reach the user: the requests that go out to the
//! clients, and what becomes of their answers.

use vstd::prelude::*;

use crate::active_session_state;
use crate::active_session_state::{
    ActiveSessionState, AgentSessionRuntime, DaemonExtensionUIResponse, TextSet, new_uuid,
};
use crate::assistant_message::clone_members;
use crate::daemon_client_env;
use crate::daemon_client_env::{EnvMap, exec_env_for_session};
use crate::daemon_mode::DaemonOutbound;
use crate::json;
use crate::json::{Json, JsonV};
use crate::text;
use crate::text::same;
use crate::text_map::TextMap;

verus! {

/// What went wrong in an extension.
#[derive(Debug, PartialEq)]
pub struct ExtensionBindingError {
    pub extension_path: Option<String>,
    pub event: Option<String>,
    pub error: String,
}

/// An event of a session as it goes out: an update of a message carries the message
/// twice, and the inner copy is left out.
pub open spec fn slim_event(event: JsonV) -> JsonV {
    if event.is_object() && event.str_at("type"@) == Some("message_update"@) {
        match event.get("assistantMessageEvent"@) {
            Some(JsonV::Obj(pairs)) => JsonV::Obj(
                json::put(
                    event->Obj_0,
                    "assistantMessageEvent"@,
                    JsonV::Obj(json::without(pairs, "partial"@)),
                ),
            ),
            _ => event,
        }
    } else {
        event
    }
}

/// An event of a session as it goes out: an update of a message carries the message
/// twice, and the inner copy is left out.
pub fn slim_session_event_for_wire(event: &Json) -> (r: Json)
    ensures
        r@ == slim_event(event@),
{
    broadcast use json::object_view;

    let pairs = match event {
        Json::Object(pairs) => pairs,
        _ => return event.clone(),
    };
    if !event.str_is("type", "message_update") {
        return event.clone();
    }
    match event.get("assistantMessageEvent") {
        Some(Json::Object(inner)) => {
            let mut update = clone_members(inner);
            json::remove_member(&mut update, "partial");
            let mut slim = clone_members(pairs);
            json::set_member(&mut slim, "assistantMessageEvent", json::object(update));
            json::object(slim)
        },
        _ => event.clone(),
    }
}

/// To slim an event twice is the same as to slim it once.
pub proof fn slimming_is_stable(event: JsonV)
    requires
        event is Obj ==> json::distinct_keys(event->Obj_0),
        event.get("assistantMessageEvent"@) matches Some(JsonV::Obj(pairs))
            ==> json::distinct_keys(pairs),
    ensures
        slim_event(slim_event(event)) == slim_event(event),
{
    broadcast use json::lookup_put;

    reveal_strlit("type");
    reveal_strlit("assistantMessageEvent");
    assert("type"@.len() == 4 && "assistantMessageEvent"@.len() == 21);
    let once = slim_event(event);
    if event.is_object() && event.str_at("type"@) == Some("message_update"@) {
        if let Some(JsonV::Obj(pairs)) = event.get("assistantMessageEvent"@) {
            let inner = json::without(pairs, "partial"@);
            assert(once.get("assistantMessageEvent"@) == Some(JsonV::Obj(inner)));
            without_twice(pairs, "partial"@);
            put_same(once->Obj_0, "assistantMessageEvent"@);
        }
    }
}

proof fn without_twice(pairs: Seq<(Seq<char>, JsonV)>, key: Seq<char>)
    requires
        json::distinct_keys(pairs),
    ensures
        json::without(json::without(pairs, key), key) == json::without(pairs, key),
    decreases pairs.len(),
{
    if pairs.len() > 0 {
        let rest = pairs.drop_first();
        assert forall|i: int, j: int| 0 <= i < j < rest.len() implies rest[i].0 != rest[j].0 by {
            assert(rest[i] == pairs[i + 1] && rest[j] == pairs[j + 1]);
        }
        if pairs[0].0 == key {
            assert forall|i: int| 0 <= i < rest.len() implies (#[trigger] rest[i]).0 != key by {
                assert(rest[i] == pairs[i + 1]);
            }
            nothing_to_remove(rest, key);
        } else {
            without_twice(rest, key);
            let kept = json::without(pairs, key);
            assert(kept.drop_first() =~= json::without(rest, key));
        }
    }
}

proof fn nothing_to_remove(pairs: Seq<(Seq<char>, JsonV)>, key: Seq<char>)
    requires
        forall|i: int| 0 <= i < pairs.len() ==> (#[trigger] pairs[i]).0 != key,
    ensures
        json::without(pairs, key) == pairs,
    decreases pairs.len(),
{
    if pairs.len() > 0 {
        let rest = pairs.drop_first();
        assert forall|i: int| 0 <= i < rest.len() implies (#[trigger] rest[i]).0 != key by {
            assert(rest[i] == pairs[i + 1]);
        }
        nothing_to_remove(rest, key);
        assert(json::without(pairs, key) =~= pairs);
    }
}

proof fn put_same(pairs: Seq<(Seq<char>, JsonV)>, key: Seq<char>)
    requires
        json::lookup(pairs, key) is Some,
    ensures
        json::put(pairs, key, json::lookup(pairs, key)->0) == pairs,
    decreases pairs.len(),
{
    if pairs.len() > 0 {
        if pairs[0].0 != key {
            put_same(pairs.drop_first(), key);
        }
        assert(json::put(pairs, key, json::lookup(pairs, key)->0) =~= pairs);
    }
}

/// A request of this method opens a dialog and waits for its answer.
pub open spec fn is_dialog(method: Seq<char>) -> bool {
    method == "select"@ || method == "confirm"@ || method == "input"@ || method == "editor"@
}

/// Whether a request of a method opens a dialog and waits for its answer.
pub fn is_daemon_dialog_extension_ui_request(method: &str) -> (r: bool)
    ensures
        r == is_dialog(method@),
{
    same(method, "select") || same(method, "confirm") || same(method, "input") || same(
        method,
        "editor",
    )
}

/// What the answer to a dialog is taken for.
#[derive(Debug, Clone, Copy, PartialEq, Eq, Structural)]
pub enum DialogResponseKind {
    Value,
    Confirmed,
}

/// What came of a dialog.
#[derive(Debug, PartialEq)]
pub struct DialogResult {
    pub value: Option<String>,
    pub confirmed: bool,
}

impl DialogResult {
    /// What an answer means.
    pub fn from_response(response: DaemonExtensionUIResponse, kind: DialogResponseKind) -> (r: Self)
        ensures
            r.value == match (kind, response) {
                (DialogResponseKind::Value, DaemonExtensionUIResponse::Value(value)) => Some(value),
                _ => None,
            },
            r.confirmed == match (kind, response) {
                (
                    DialogResponseKind::Confirmed,
                    DaemonExtensionUIResponse::Confirmed(confirmed),
                ) => confirmed,
                _ => false,
            },
    {
        match kind {
            DialogResponseKind::Value => match response {
                DaemonExtensionUIResponse::Value(value) => DialogResult {
                    value: Some(value),
                    confirmed: false,
                },
                _ => DialogResult { value: None, confirmed: false },
            },
            DialogResponseKind::Confirmed => match response {
                DaemonExtensionUIResponse::Confirmed(confirmed) => DialogResult {
                    value: None,
                    confirmed,
                },
                _ => DialogResult { value: None, confirmed: false },
            },
        }
    }

    /// What holds where there was no answer.
    pub fn from_fallback(value: Option<String>, confirmed: bool, kind: DialogResponseKind) -> (r:
        Self)
        ensures
            r.value == if kind == DialogResponseKind::Value {
                value
            } else {
                None
            },
            r.confirmed == (kind == DialogResponseKind::Confirmed && confirmed),
    {
        match kind {
            DialogResponseKind::Value => DialogResult { value, confirmed: false },
            DialogResponseKind::Confirmed => DialogResult { value: None, confirmed },
        }
    }
}

/// What was agreed to is said only by an answer that confirms, or by the fallback
/// where there was no answer.
pub open spec fn dialog_outcome(
    response: Option<DaemonExtensionUIResponse>,
    fallback: Option<String>,
    confirmed_fallback: bool,
    kind: DialogResponseKind,
) -> (Option<String>, bool) {
    match response {
        Some(response) => (
            match (kind, response) {
                (DialogResponseKind::Value, DaemonExtensionUIResponse::Value(value)) => Some(value),
                _ => None,
            },
            match (kind, response) {
                (
                    DialogResponseKind::Confirmed,
                    DaemonExtensionUIResponse::Confirmed(confirmed),
                ) => confirmed,
                _ => false,
            },
        ),
        None => (
            if kind == DialogResponseKind::Value {
                fallback
            } else {
                None
            },
            kind == DialogResponseKind::Confirmed && confirmed_fallback,
        ),
    }
}

/// What an extension can do with the user of a session.
pub struct ExtensionUiContext {
    pub active_session_id: String,
    /// The clients at the time the extension was bound: whether each can show
    /// dialogs.
    pub clients: Vec<bool>,
    /// The dialogs that wait for an answer.
    pub requests: TextSet,
    pub client_env: Option<EnvMap>,
}

/// What is to be done for a dialog.
#[derive(Debug, PartialEq)]
pub enum DialogStart {
    /// Nobody can be asked.
    Settled(DialogResult),
    /// The request goes out, and its answer is waited for.
    Ask { request_id: String, frame: DaemonOutbound },
}

/// The frame is a request to the clients of a session.
pub open spec fn is_request(
    frame: DaemonOutbound,
    session: Seq<char>,
    id: Seq<char>,
    method: Seq<char>,
    payload: JsonV,
) -> bool {
    match frame {
        DaemonOutbound::ExtensionUiRequest {
            active_session_id,
            id: request_id,
            method: named,
            payload: sent,
        } => active_session_id@ == session && request_id@ == id && named@ == method && sent@
            == payload,
        _ => false,
    }
}

/// Somebody can take a request of this method.
pub open spec fn can_take(clients: Seq<bool>, method: Seq<char>) -> bool {
    if is_dialog(method) {
        clients.contains(true)
    } else {
        clients.len() > 0
    }
}

fn text_or_null(value: Option<&str>) -> (r: Json)
    ensures
        r@ == null_or_text(json::opt_str_view(value)),
{
    match value {
        Some(text) => json::text(text),
        None => Json::Null,
    }
}

/// A text, or a null where there is none.
pub open spec fn null_or_text(value: Option<Seq<char>>) -> JsonV {
    match value {
        Some(text) => JsonV::Str(text),
        None => JsonV::Null,
    }
}

/// A count, or a null where there is none.
pub open spec fn null_or_count(value: Option<u64>) -> JsonV {
    match value {
        Some(n) => json::int_value(n as int),
        None => JsonV::Null,
    }
}

fn count_or_null(value: Option<u64>) -> (r: Json)
    ensures
        r@ == null_or_count(value),
{
    match value {
        Some(n) => json::count(n),
        None => Json::Null,
    }
}

/// A document with one member.
pub open spec fn one_member(key: Seq<char>, value: JsonV) -> JsonV {
    JsonV::Obj(Seq::<(Seq<char>, JsonV)>::empty().push((key, value)))
}

/// A document with two members.
pub open spec fn two_members(
    first: Seq<char>,
    value: JsonV,
    second: Seq<char>,
    other: JsonV,
) -> JsonV {
    JsonV::Obj(Seq::<(Seq<char>, JsonV)>::empty().push((first, value)).push((second, other)))
}

/// A document with three members.
pub open spec fn three_members(
    first: Seq<char>,
    value: JsonV,
    second: Seq<char>,
    other: JsonV,
    third: Seq<char>,
    last: JsonV,
) -> JsonV {
    JsonV::Obj(
        Seq::<(Seq<char>, JsonV)>::empty().push((first, value)).push((second, other)).push(
            (third, last),
        ),
    )
}

fn member_one(key: &str, value: Json) -> (r: Json)
    ensures
        r@ == one_member(key@, value@),
{
    let mut pairs = json::no_members();
    json::add_member(&mut pairs, key, value);
    json::object(pairs)
}

fn member_two(first: &str, value: Json, second: &str, other: Json) -> (r: Json)
    ensures
        r@ == two_members(first@, value@, second@, other@),
{
    let mut pairs = json::no_members();
    json::add_member(&mut pairs, first, value);
    json::add_member(&mut pairs, second, other);
    json::object(pairs)
}

fn member_three(first: &str, value: Json, second: &str, other: Json, third: &str, last: Json) -> (r:
    Json)
    ensures
        r@ == three_members(first@, value@, second@, other@, third@, last@),
{
    let mut pairs = json::no_members();
    json::add_member(&mut pairs, first, value);
    json::add_member(&mut pairs, second, other);
    json::add_member(&mut pairs, third, last);
    json::object(pairs)
}

/// The texts of a list as documents.
pub open spec fn text_items(texts: Seq<String>) -> JsonV {
    JsonV::Arr(Seq::new(texts.len(), |i: int| JsonV::Str(texts[i]@)))
}

fn list_value(texts: &Vec<String>) -> (r: Json)
    ensures
        r@ == text_items(texts@),
{
    let mut values: Vec<Json> = Vec::new();
    let mut i: usize = 0;
    while i < texts.len()
        invariant
            i <= texts.len(),
            values@.len() == i,
            forall|j: int| 0 <= j < i ==> (#[trigger] values@[j])@ == JsonV::Str(texts@[j]@),
        decreases texts.len() - i,
    {
        values.push(json::text(&texts[i]));
        i += 1;
    }
    assert(json::items(values@) =~= Seq::new(texts@.len(), |j: int| JsonV::Str(texts@[j]@)));
    json::array(values)
}

/// What a dialog to choose from a list shows.
pub fn select_payload(title: &str, values: &Vec<String>, timeout: Option<u64>) -> (r: Json)
    ensures
        r@ == three_members(
            "title"@,
            JsonV::Str(title@),
            "options"@,
            text_items(values@),
            "timeout"@,
            null_or_count(timeout),
        ),
{
    member_three(
        "title",
        json::text(title),
        "options",
        list_value(values),
        "timeout",
        count_or_null(timeout),
    )
}

/// What a dialog to confirm something shows.
pub fn confirm_payload(title: &str, message: &str, timeout: Option<u64>) -> (r: Json)
    ensures
        r@ == three_members(
            "title"@,
            JsonV::Str(title@),
            "message"@,
            JsonV::Str(message@),
            "timeout"@,
            null_or_count(timeout),
        ),
{
    member_three(
        "title",
        json::text(title),
        "message",
        json::text(message),
        "timeout",
        count_or_null(timeout),
    )
}

/// What a dialog for a line of text shows.
pub fn input_payload(title: &str, placeholder: Option<&str>, timeout: Option<u64>) -> (r: Json)
    ensures
        r@ == three_members(
            "title"@,
            JsonV::Str(title@),
            "placeholder"@,
            null_or_text(json::opt_str_view(placeholder)),
            "timeout"@,
            null_or_count(timeout),
        ),
{
    member_three(
        "title",
        json::text(title),
        "placeholder",
        text_or_null(placeholder),
        "timeout",
        count_or_null(timeout),
    )
}

/// What a dialog for a longer text shows.
pub fn editor_payload(title: &str, prefill: Option<&str>) -> (r: Json)
    ensures
        r@ == two_members(
            "title"@,
            JsonV::Str(title@),
            "prefill"@,
            null_or_text(json::opt_str_view(prefill)),
        ),
{
    member_two("title", json::text(title), "prefill", text_or_null(prefill))
}

/// The members that are there, in order.
pub open spec fn present_members(all: Seq<(String, Option<Json>)>) -> Seq<(Seq<char>, JsonV)>
    decreases all.len(),
{
    if all.len() == 0 {
        Seq::empty()
    } else {
        json::push_opt(
            present_members(all.drop_last()),
            all.last().0@,
            json::opt_json(all.last().1),
        )
    }
}

/// What a request shows where an absent member is left out and not written as null:
/// the form in which extensions ask through the common interface.
pub fn present_payload(all: &Vec<(String, Option<Json>)>) -> (r: Json)
    ensures
        r@ == JsonV::Obj(present_members(all@)),
{
    let mut pairs = json::no_members();
    let mut i: usize = 0;
    assert(all@.take(0) =~= Seq::empty());
    while i < all.len()
        invariant
            i <= all.len(),
            json::members(pairs@) == present_members(all@.take(i as int)),
        decreases all.len() - i,
    {
        assert(all@.take(i + 1).drop_last() =~= all@.take(i as int));
        assert(all@.take(i + 1).last() == all@[i as int]);
        json::add_opt(&mut pairs, &all[i].0, &all[i].1);
        i += 1;
    }
    assert(all@.take(i as int) =~= all@);
    json::object(pairs)
}

impl ExtensionUiContext {
    pub open spec fn wf(self) -> bool {
        self.requests.wf()
    }

    /// The context for a session. `clients` says of each client that is attached
    /// whether it can show dialogs; `client_env` is the environment of the client
    /// that made the session.
    pub fn new(active_session_id: &str, clients: Vec<bool>, client_env: Option<EnvMap>) -> (r: Self)
        ensures
            r.wf(),
            r.active_session_id@ == active_session_id@,
            r.clients == clients,
            r.requests@ == Map::<Seq<char>, ()>::empty(),
            r.client_env == client_env,
    {
        ExtensionUiContext {
            active_session_id: active_session_id.to_owned(),
            clients,
            requests: TextMap::new(),
            client_env,
        }
    }

    pub fn client_env(&self) -> (r: Option<&EnvMap>)
        ensures
            match r {
                Some(env) => self.client_env == Some(*env),
                None => self.client_env is None,
            },
    {
        match &self.client_env {
            Some(env) => Some(env),
            None => None,
        }
    }

    /// Whether somebody can take a request of a method: for a dialog a client that
    /// can show it, else any client. The clients of the live session go first.
    pub fn has_extension_ui_client_for_method(&self, method: &str, live: Option<&Vec<bool>>) -> (r:
        bool)
        ensures
            r == can_take(
                match live {
                    Some(clients) => clients@,
                    None => self.clients@,
                },
                method@,
            ),
    {
        let clients = match live {
            Some(clients) => clients,
            None => &self.clients,
        };
        if !is_daemon_dialog_extension_ui_request(method) {
            return clients.len() > 0;
        }
        let mut i: usize = 0;
        while i < clients.len()
            invariant
                i <= clients.len(),
                is_dialog(method@),
                clients@ == match live {
                    Some(clients) => clients@,
                    None => self.clients@,
                },
                forall|j: int| 0 <= j < i ==> !clients@[j],
            decreases clients.len() - i,
        {
            if clients[i] {
                assert(clients@[i as int]);
                assert(clients@.contains(true));
                return true;
            }
            i += 1;
        }
        assert(!clients@.contains(true));
        false
    }

    /// The request that goes out, under an id of its own.
    fn emit_ui_request(&self, method: &str, payload: Json) -> (r: (String, DaemonOutbound))
        ensures
            active_session_state::is_uuid(r.0@),
            is_request(r.1, self.active_session_id@, r.0@, method@, payload@),
    {
        let id = new_uuid();
        let frame = DaemonOutbound::ExtensionUiRequest {
            active_session_id: self.active_session_id.clone(),
            id: id.clone(),
            method: method.to_owned(),
            payload,
        };
        (id, frame)
    }

    /// Opens a dialog. Where it was aborted, or nobody can show it, the fallback
    /// holds; else the request goes out and is listed as waiting.
    pub fn dialog_request(
        &mut self,
        method: &str,
        payload: Json,
        aborted: bool,
        live: Option<&Vec<bool>>,
        fallback: Option<String>,
        confirmed_fallback: bool,
        response_kind: DialogResponseKind,
    ) -> (r: DialogStart)
        requires
            old(self).wf(),
        ensures
            final(self).wf(),
            r is Ask <==> !aborted && can_take(
                match live {
                    Some(clients) => clients@,
                    None => old(self).clients@,
                },
                method@,
            ),
            match r {
                DialogStart::Settled(result) => (result.value, result.confirmed) == dialog_outcome(
                    None,
                    fallback,
                    confirmed_fallback,
                    response_kind,
                ) && *final(self) == *old(self),
                DialogStart::Ask { request_id, frame } => {
                    &&& active_session_state::is_uuid(request_id@)
                    &&& is_request(
                        frame,
                        old(self).active_session_id@,
                        request_id@,
                        method@,
                        payload@,
                    )
                    &&& final(self).requests@ == old(self).requests@.insert(request_id@, ())
                    &&& *final(self) == (ExtensionUiContext {
                        requests: final(self).requests,
                        ..*old(self)
                    })
                },
            },
    {
        if aborted || !self.has_extension_ui_client_for_method(method, live) {
            return DialogStart::Settled(
                DialogResult::from_fallback(fallback, confirmed_fallback, response_kind),
            );
        }
        let (request_id, frame) = self.emit_ui_request(method, payload);
        self.requests.insert(request_id.clone(), ());
        DialogStart::Ask { request_id, frame }
    }

    /// What came of a dialog: its answer, or the fallback where it was cut short. It
    /// waits no more.
    pub fn finish_dialog(
        &mut self,
        request_id: &str,
        response: Option<DaemonExtensionUIResponse>,
        fallback: Option<String>,
        confirmed_fallback: bool,
        response_kind: DialogResponseKind,
    ) -> (r: DialogResult)
        requires
            old(self).wf(),
        ensures
            final(self).wf(),
            (r.value, r.confirmed) == dialog_outcome(
                response,
                fallback,
                confirmed_fallback,
                response_kind,
            ),
            final(self).requests@ == old(self).requests@.remove(request_id@),
            *final(self) == (ExtensionUiContext { requests: final(self).requests, ..*old(self) }),
    {
        self.requests.remove(request_id);
        match response {
            Some(response) => DialogResult::from_response(response, response_kind),
            None => DialogResult::from_fallback(fallback, confirmed_fallback, response_kind),
        }
    }

    /// Shows a message.
    pub fn notify(&self, message: &str, notify_type: Option<&str>) -> (r: (String, DaemonOutbound))
        ensures
            active_session_state::is_uuid(r.0@),
            is_request(
                r.1,
                self.active_session_id@,
                r.0@,
                "notify"@,
                two_members(
                    "message"@,
                    JsonV::Str(message@),
                    "notifyType"@,
                    null_or_text(json::opt_str_view(notify_type)),
                ),
            ),
    {
        self.emit_ui_request(
            "notify",
            member_two("message", json::text(message), "notifyType", text_or_null(notify_type)),
        )
    }

    /// Shows a status.
    pub fn set_status(&self, key: &str, text: &str) -> (r: (String, DaemonOutbound))
        ensures
            active_session_state::is_uuid(r.0@),
            is_request(
                r.1,
                self.active_session_id@,
                r.0@,
                "setStatus"@,
                two_members(
                    "statusKey"@,
                    JsonV::Str(key@),
                    "statusText"@,
                    JsonV::Str(text@),
                ),
            ),
    {
        self.emit_ui_request(
            "setStatus",
            member_two("statusKey", json::text(key), "statusText", json::text(text)),
        )
    }

    /// Shows what the agent works at.
    pub fn set_working_message(&self, message: &str) -> (r: (String, DaemonOutbound))
        ensures
            active_session_state::is_uuid(r.0@),
            is_request(
                r.1,
                self.active_session_id@,
                r.0@,
                "setWorkingMessage"@,
                one_member("message"@, JsonV::Str(message@)),
            ),
    {
        self.emit_ui_request("setWorkingMessage", member_one("message", json::text(message)))
    }

    /// Shows or hides that the agent works.
    pub fn set_working_visible(&self, visible: bool) -> (r: (String, DaemonOutbound))
        ensures
            active_session_state::is_uuid(r.0@),
            is_request(
                r.1,
                self.active_session_id@,
                r.0@,
                "setWorkingVisible"@,
                one_member("visible"@, JsonV::Bool(visible)),
            ),
    {
        self.emit_ui_request("setWorkingVisible", member_one("visible", Json::Bool(visible)))
    }

    /// Changes how it is shown that the agent works.
    pub fn set_working_indicator(&self, options: Option<Json>) -> (r: (String, DaemonOutbound))
        ensures
            active_session_state::is_uuid(r.0@),
            is_request(
                r.1,
                self.active_session_id@,
                r.0@,
                "setWorkingIndicator"@,
                one_member(
                    "options"@,
                    match json::opt_json(options) {
                        Some(options) => options,
                        None => JsonV::Null,
                    },
                ),
            ),
    {
        let options = match options {
            Some(options) => options,
            None => Json::Null,
        };
        self.emit_ui_request("setWorkingIndicator", member_one("options", options))
    }

    /// Changes what stands for thoughts that are hidden.
    pub fn set_hidden_thinking_label(&self, label: &str) -> (r: (String, DaemonOutbound))
        ensures
            active_session_state::is_uuid(r.0@),
            is_request(
                r.1,
                self.active_session_id@,
                r.0@,
                "setHiddenThinkingLabel"@,
                one_member("label"@, JsonV::Str(label@)),
            ),
    {
        self.emit_ui_request("setHiddenThinkingLabel", member_one("label", json::text(label)))
    }

    /// Shows lines in a widget, or removes it.
    pub fn set_widget(
        &self,
        key: &str,
        content: Option<Vec<String>>,
        placement: Option<&str>,
    ) -> (r: Option<(String, DaemonOutbound)>)
        ensures
            r matches Some(sent) && active_session_state::is_uuid(sent.0@) && is_request(
                sent.1,
                self.active_session_id@,
                sent.0@,
                "setWidget"@,
                three_members(
                    "widgetKey"@,
                    JsonV::Str(key@),
                    "widgetLines"@,
                    match content {
                        Some(lines) => text_items(lines@),
                        None => JsonV::Null,
                    },
                    "widgetPlacement"@,
                    null_or_text(json::opt_str_view(placement)),
                ),
            ),
    {
        let lines = match &content {
            Some(lines) => list_value(lines),
            None => Json::Null,
        };
        Some(
            self.emit_ui_request(
                "setWidget",
                member_three(
                    "widgetKey",
                    json::text(key),
                    "widgetLines",
                    lines,
                    "widgetPlacement",
                    text_or_null(placement),
                ),
            ),
        )
    }

    /// Changes the title.
    pub fn set_title(&self, title: &str) -> (r: (String, DaemonOutbound))
        ensures
            active_session_state::is_uuid(r.0@),
            is_request(
                r.1,
                self.active_session_id@,
                r.0@,
                "setTitle"@,
                one_member("title"@, JsonV::Str(title@)),
            ),
    {
        self.emit_ui_request("setTitle", member_one("title", json::text(title)))
    }

    /// Puts a text into the editor.
    pub fn paste_to_editor(&self, text: &str) -> (r: (String, DaemonOutbound))
        ensures
            active_session_state::is_uuid(r.0@),
            is_request(
                r.1,
                self.active_session_id@,
                r.0@,
                "setEditorText"@,
                one_member("text"@, JsonV::Str(text@)),
            ),
    {
        self.emit_ui_request("setEditorText", member_one("text", json::text(text)))
    }

    /// Puts a text into the editor.
    pub fn set_editor_text(&self, text: &str) -> (r: (String, DaemonOutbound))
        ensures
            active_session_state::is_uuid(r.0@),
            is_request(
                r.1,
                self.active_session_id@,
                r.0@,
                "setEditorText"@,
                one_member("text"@, JsonV::Str(text@)),
            ),
    {
        self.emit_ui_request("setEditorText", member_one("text", json::text(text)))
    }

    /// The text in the editor, which the daemon does not know.
    pub fn get_editor_text(&self) -> (r: String)
        ensures
            r@ == Seq::<char>::empty(),
    {
        String::new()
    }

    /// The themes, of which the daemon has none.
    pub fn get_all_themes(&self) -> (r: Vec<Json>)
        ensures
            r@.len() == 0,
    {
        Vec::new()
    }

    /// The theme, which the daemon does not have.
    pub fn get_theme(&self) -> (r: Option<Json>)
        ensures
            r is None,
    {
        None
    }

    /// The daemon has no themes to switch to.
    pub fn set_theme(&self) -> (r: Result<(), String>)
        ensures
            r matches Err(error) && error@ == "Theme switching is not supported in daemon mode"@,
    {
        Err("Theme switching is not supported in daemon mode".to_owned())
    }

    /// Whether the tools are shown in full, which they are not.
    pub fn get_tools_expanded(&self) -> (r: bool)
        ensures
            !r,
    {
        false
    }
}

/// What is to be done to bind a session, in this order.
#[derive(Debug, Clone, Copy, PartialEq, Eq, Structural)]
pub enum BindStep {
    /// Commands of the session run with the client's environment.
    SetExecEnv,
    /// So does the runtime of the session.
    SetRuntimeEnv,
    /// The earlier subscription is ended.
    Unsubscribe,
    /// The session can start children here.
    SetSubagentHost,
    /// The events of the session are sent to the clients.
    Subscribe,
    /// A session that takes the place of this one is bound in the same way.
    SetRebind,
    /// The extensions are loaded, with the user in reach.
    BindExtensions,
}

/// The steps to bind a session.
pub open spec fn bind_steps(subscribed: bool, hosts_children: bool) -> Seq<BindStep> {
    let first = Seq::<BindStep>::empty().push(BindStep::SetExecEnv).push(BindStep::SetRuntimeEnv);
    let ended = if subscribed {
        first.push(BindStep::Unsubscribe)
    } else {
        first
    };
    let hosted = if hosts_children {
        ended.push(BindStep::SetSubagentHost)
    } else {
        ended
    };
    hosted.push(BindStep::Subscribe).push(BindStep::SetRebind).push(BindStep::BindExtensions)
}

/// The steps to bind a session: its environment is set before its extensions are
/// loaded, which read it then, and no event is sent twice.
pub fn bind_active_session_state(subscribed: bool, hosts_children: bool) -> (r: Vec<BindStep>)
    ensures
        r@ == bind_steps(subscribed, hosts_children),
{
    let mut steps: Vec<BindStep> = Vec::new();
    steps.push(BindStep::SetExecEnv);
    steps.push(BindStep::SetRuntimeEnv);
    if subscribed {
        steps.push(BindStep::Unsubscribe);
    }
    if hosts_children {
        steps.push(BindStep::SetSubagentHost);
    }
    steps.push(BindStep::Subscribe);
    steps.push(BindStep::SetRebind);
    steps.push(BindStep::BindExtensions);
    steps
}

/// The frame for an event of a session.
pub fn session_event_frame(active_session_id: &str, event: &Json) -> (r: DaemonOutbound)
    ensures
        match r {
            DaemonOutbound::SessionEvent { active_session_id: id, event: sent } => id@
                == active_session_id@ && sent@ == slim_event(event@),
            _ => false,
        },
{
    DaemonOutbound::SessionEvent {
        active_session_id: active_session_id.to_owned(),
        event: slim_session_event_for_wire(event),
    }
}

/// The frame for an error of an extension.
pub fn extension_error_frame(active_session_id: &str, error: &ExtensionBindingError) -> (r:
    DaemonOutbound)
    ensures
        match r {
            DaemonOutbound::ExtensionError { active_session_id: id, extension_path, event, error: text } =>
                id@ == active_session_id@ && json::opt_view(extension_path) == json::opt_view(
                error.extension_path,
            ) && json::opt_view(event) == json::opt_view(error.event) && text@ == error.error@,
            _ => false,
        },
{
    DaemonOutbound::ExtensionError {
        active_session_id: active_session_id.to_owned(),
        extension_path: error.extension_path.clone(),
        event: error.event.clone(),
        error: error.error.clone(),
    }
}

/// The frame for a session that took the place of another; its state is a null where
/// it is not known.
pub fn session_replaced_frame(
    active_session_id: &str,
    state: Option<Json>,
    messages: Vec<Json>,
) -> (r: DaemonOutbound)
    ensures
        match r {
            DaemonOutbound::SessionReplaced { active_session_id: id, state: sent, messages: list } =>
                id@ == active_session_id@ && sent@ == (match json::opt_json(state) {
                Some(state) => state,
                None => JsonV::Null,
            }) && list == messages,
            _ => false,
        },
{
    DaemonOutbound::SessionReplaced {
        active_session_id: active_session_id.to_owned(),
        state: match state {
            Some(state) => state,
            None => Json::Null,
        },
        messages,
    }
}

/// Lists a dialog that waits for its answer with the session.
pub fn register_extension_ui_request(state: &mut ActiveSessionState, request_id: &str)
    requires
        old(state).wf(),
    ensures
        final(state).wf(),
        final(state).extension_ui_requests@ == old(state).extension_ui_requests@.insert(
            request_id@,
            (),
        ),
        *final(state) == (ActiveSessionState {
            extension_ui_requests: final(state).extension_ui_requests,
            ..*old(state)
        }),
{
    state.extension_ui_requests.insert(request_id.to_owned(), ());
}

/// The environment of the commands of a session.
pub fn exec_env_provider(
    client_env: Option<&EnvMap>,
    base: &EnvMap,
    keys: &Vec<String>,
) -> (r: TextMap<Option<String>>)
    requires
        client_env is Some ==> client_env->0.wf(),
        base.wf(),
    ensures
        r.wf(),
        forall|key: Seq<char>| #[trigger]
            r@.contains_key(key) == daemon_client_env::is_allowed(keys@, key),
        forall|key: Seq<char>| #[trigger]
            r@.contains_key(key) ==> r@[key] == daemon_client_env::pinned_value(
                match client_env {
                    Some(env) => Some(env@),
                    None => None,
                },
                base@,
                key,
            ),
{
    exec_env_for_session(client_env, base, keys)
}

/// A stand-in for a live session, of which only the id is known: what else there is
/// to know is read from the live session itself.
pub fn broadcast_state(active_session_id: &str) -> (r: ActiveSessionState)
    ensures
        r.wf(),
        r.active_session_id@ == active_session_id@,
        r.event_generation@ == active_session_id@,
        r.runtime.session.is_blank(),
        r.runtime.metadata is None,
        r.runtime.model_fallback_message is None,
        r.clients@.len() == 0,
        r.pending_attaches == 0,
        r.extension_ui_requests@ == Map::<Seq<char>, ()>::empty(),
        r.last_event_sequence == 0,
        r.summary_state is None,
        r.client_env is None,
{
    ActiveSessionState::new(active_session_id, AgentSessionRuntime::default())
}

} // verus!
