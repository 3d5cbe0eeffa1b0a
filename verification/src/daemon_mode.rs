//! What the daemon decides for its clients: which history it hands out, which
//! frames go out and to whom, and the bookkeeping of one client.

use vstd::prelude::*;

use crate::active_session_state::{ActiveSessionState, DaemonSocketClient, TextSet};
use crate::agent_roster::WorkerRosterEntry;
use crate::assistant_message::clone_members;
use crate::daemon_extension_binding;
use crate::daemon_extension_binding::is_daemon_dialog_extension_ui_request;
use crate::daemon_worker_client::PrivateFrameDecoder;
use crate::digest;
use crate::digest::{encode_base64_url, sha256_digest};
use crate::json;
use crate::json::{Json, JsonV, Num, print_json};
use crate::path_facts;
use crate::path_facts::{join_dir, strip_suffix};
use crate::rlm_subagent_display;
use crate::rlm_subagent_display::RlmSubagentModel;
use crate::session_info::SessionInfo;
use crate::text;
use crate::text::{
    cat2, cat3, cat5, contains_text, from_chars, is_some_text, same, slice_text, to_chars,
};
use crate::text_map;
use crate::text_map::TextMap;

verus! {

/// How many messages of a session's history a client gets first.
pub const INITIAL_HISTORY_WINDOW_MESSAGES: usize = 400;

/// How many messages of a session's history one request can get.
pub const MAX_HISTORY_RANGE_MESSAGES: usize = 400;

/// The commands that the daemon knows.
pub const DAEMON_COMMAND_TYPES: [&'static str; 100] = [
    "ack_result", "list", "list_saved_sessions", "create", "attach", "detach", "kill", "rename",
    "prompt", "cancel_prompt_admission", "prompt_and_wait", "steer", "follow_up",
    "restore_next_turn", "restore_actions", "append_custom_message", "resume_queue",
    "send_message", "agent_messages_status", "agent_messages_pause", "agent_messages_resume",
    "agent_messages_clear", "abort", "start_side_question", "abort_side_question", "execute_bash",
    "execute_bash_and_wait", "abort_bash", "cancel_rlm_child", "delete_rlm_subagent",
    "wait_for_idle", "wait_for_headless_completion", "get_session_header", "get_state",
    "get_connection_state", "get_messages", "get_history_range", "get_rlm_children",
    "get_session_stats", "get_context_tree", "get_commands", "get_resource_snapshot",
    "replace_acp_mcp_servers", "get_model_catalog", "get_available_models", "get_queue",
    "mutate_queued_message", "clear_queue", "abort_and_clear_queue", "acquire_session_input_pause",
    "release_session_input_pause", "cron_list", "heartbeats_list", "heartbeat_manage", "cron_add",
    "cron_cancel", "heartbeat_get", "heartbeat_set", "heartbeat_update", "set_model",
    "cycle_model", "set_scoped_models", "set_thinking_level", "set_service_tier",
    "cycle_thinking_level", "set_transport", "set_steering_mode", "set_follow_up_mode",
    "set_auto_compaction", "set_auto_retry", "compact", "refine", "abort_compaction",
    "abort_branch_summary", "abort_retry", "reload", "new_session", "switch_session", "fork",
    "navigate_tree", "import_jsonl", "export_html", "export_jsonl", "set_session_name",
    "get_rlm_max_depth_status", "set_rlm_max_depth", "rename_saved_session",
    "delete_saved_session", "get_session_context", "get_session_tree",
    "get_user_messages_for_forking", "get_last_assistant_text", "get_system_prompt",
    "get_tool_definition", "set_session_entry_label", "extension_ui_response",
    "prepare_update_restart", "retry_worker", "restart", "shutdown",
];

/// Where the position of the last path separator is; -1 where there is none. Both
/// kinds of slashes separate.
pub open spec fn last_slash(path: Seq<char>) -> int
    decreases path.len(),
{
    if path.len() == 0 {
        -1
    } else if path.last() == '/' || path.last() == '\\' {
        path.len() - 1
    } else {
        last_slash(path.drop_last())
    }
}

proof fn last_slash_in_range(path: Seq<char>)
    ensures
        -1 <= last_slash(path) < path.len(),
    decreases path.len(),
{
    if path.len() > 0 {
        last_slash_in_range(path.drop_last());
    }
}

fn find_last_slash(chars: &Vec<char>) -> (r: Option<usize>)
    ensures
        match r {
            Some(i) => i < chars@.len() && i == last_slash(chars@),
            None => last_slash(chars@) == -1,
        },
{
    let mut n: usize = chars.len();
    assert(chars@.take(n as int) =~= chars@);
    while n > 0
        invariant
            n <= chars.len(),
            last_slash(chars@) == last_slash(chars@.take(n as int)),
        decreases n,
    {
        assert(chars@.take(n as int).drop_last() =~= chars@.take(n - 1));
        assert(chars@.take(n as int).last() == chars@[n - 1]);
        if chars[n - 1] == '/' || chars[n - 1] == '\\' {
            return Some(n - 1);
        }
        n -= 1;
    }
    None
}

/// What follows the last separator, without an ending.
pub open spec fn base_name(path: Seq<char>, suffix: Option<Seq<char>>) -> Seq<char> {
    let name = path.skip(last_slash(path) + 1);
    match suffix {
        Some(suffix) => path_facts::without_suffix(name, suffix),
        None => name,
    }
}

/// What follows the last separator, without an ending where it has it.
pub fn basename(path: &str, suffix: Option<&str>) -> (r: String)
    ensures
        r@ == base_name(path@, json::opt_str_view(suffix)),
{
    let chars = to_chars(path);
    let from: usize = match find_last_slash(&chars) {
        Some(i) => i + 1,
        None => 0,
    };
    let name = slice_text(&chars, from, chars.len());
    assert(name@ =~= path@.skip(last_slash(path@) + 1));
    match suffix {
        Some(suffix) => strip_suffix(&name, suffix),
        None => name,
    }
}

/// What precedes the last separator.
pub open spec fn dir_name(path: Seq<char>) -> Seq<char> {
    let at = last_slash(path);
    if at > 0 {
        path.take(at)
    } else if at == 0 {
        "/"@
    } else {
        "."@
    }
}

/// What precedes the last separator; the root or the current directory where that
/// is nothing.
pub fn dirname(path: &str) -> (r: String)
    ensures
        r@ == dir_name(path@),
{
    let chars = to_chars(path);
    match find_last_slash(&chars) {
        Some(i) => if i > 0 {
            let r = slice_text(&chars, 0, i);
            assert(r@ =~= path@.take(i as int));
            r
        } else {
            "/".to_owned()
        },
        None => ".".to_owned(),
    }
}

/// A text with every dot made a dash.
pub open spec fn dots_dashed(text: Seq<char>) -> Seq<char> {
    Seq::new(
        text.len(),
        |i: int|
            if text[i] == '.' {
                '-'
            } else {
                text[i]
            },
    )
}

/// The name of the log of the daemon on a socket.
pub fn get_daemon_log_path(socket_path: &str) -> (r: String)
    ensures
        r@ == dots_dashed(base_name(socket_path@, None)) + ".log"@,
{
    let name = basename(socket_path, None);
    let chars = to_chars(&name);
    let mut dashed: Vec<char> = Vec::new();
    let mut i: usize = 0;
    while i < chars.len()
        invariant
            i <= chars.len(),
            dashed@.len() == i,
            forall|j: int| 0 <= j < i ==> dashed@[j] == dots_dashed(chars@)[j],
        decreases chars.len() - i,
    {
        if chars[i] == '.' {
            dashed.push('-');
        } else {
            dashed.push(chars[i]);
        }
        i += 1;
    }
    assert(dashed@ =~= dots_dashed(name@));
    let base = from_chars(&dashed);
    cat2(&base, ".log")
}

/// Where the daemon on a socket notes what to restart after an update.
pub fn get_daemon_update_restart_manifest_path(socket_path: &str) -> (r: String)
    ensures
        r@ == socket_path@ + ".update-restart.json"@,
{
    cat2(socket_path, ".update-restart.json")
}

/// The file of the scheduled jobs of an agent.
pub fn get_cron_jobs_path(agent_dir: &str) -> (r: String)
    ensures
        r@ == path_facts::joined_path(agent_dir@, "cron-jobs.json"@),
{
    join_dir(agent_dir, "cron-jobs.json")
}

/// The directory of the sessions of an agent.
pub fn get_sessions_dir(agent_dir: &str) -> (r: String)
    ensures
        r@ == path_facts::joined_path(agent_dir@, "sessions"@),
{
    join_dir(agent_dir, "sessions")
}

/// How a session is to be run.
#[derive(Debug, PartialEq)]
pub struct AgentSessionRuntimeConfig {
    pub cwd: Option<String>,
    pub agent_dir: Option<String>,
    pub session_dir: Option<String>,
    pub provider: Option<String>,
    pub model: Option<String>,
    pub thinking_level: Option<String>,
    pub telemetry_disabled: Option<bool>,
    pub api_key: Option<String>,
    pub extra: Vec<(String, Json)>,
}

/// What a configuration says.
#[verifier::ext_equal]
pub struct ConfigV {
    pub cwd: Option<Seq<char>>,
    pub agent_dir: Option<Seq<char>>,
    pub session_dir: Option<Seq<char>>,
    pub provider: Option<Seq<char>>,
    pub model: Option<Seq<char>>,
    pub thinking_level: Option<Seq<char>>,
    pub telemetry_disabled: Option<bool>,
    pub api_key: Option<Seq<char>>,
    pub extra: Seq<(Seq<char>, JsonV)>,
}

impl View for AgentSessionRuntimeConfig {
    type V = ConfigV;

    open spec fn view(&self) -> ConfigV {
        ConfigV {
            cwd: json::opt_view(self.cwd),
            agent_dir: json::opt_view(self.agent_dir),
            session_dir: json::opt_view(self.session_dir),
            provider: json::opt_view(self.provider),
            model: json::opt_view(self.model),
            thinking_level: json::opt_view(self.thinking_level),
            telemetry_disabled: self.telemetry_disabled,
            api_key: json::opt_view(self.api_key),
            extra: json::members(self.extra@),
        }
    }
}

impl Clone for AgentSessionRuntimeConfig {
    fn clone(&self) -> (r: Self)
        ensures
            r@ == self@,
    {
        AgentSessionRuntimeConfig {
            cwd: self.cwd.clone(),
            agent_dir: self.agent_dir.clone(),
            session_dir: self.session_dir.clone(),
            provider: self.provider.clone(),
            model: self.model.clone(),
            thinking_level: self.thinking_level.clone(),
            telemetry_disabled: self.telemetry_disabled,
            api_key: self.api_key.clone(),
            extra: clone_members(&self.extra),
        }
    }
}

/// The second value where it is there, else the first.
pub open spec fn or_else<T>(base: Option<T>, over: Option<T>) -> Option<T> {
    if over is Some {
        over
    } else {
        base
    }
}

/// Members after others were put over them, one after the other.
pub open spec fn put_all(
    base: Seq<(Seq<char>, JsonV)>,
    over: Seq<(Seq<char>, JsonV)>,
) -> Seq<(Seq<char>, JsonV)>
    decreases over.len(),
{
    if over.len() == 0 {
        base
    } else {
        json::put(put_all(base, over.drop_last()), over.last().0, over.last().1)
    }
}

/// A configuration with another one laid over it.
pub open spec fn merged(base: ConfigV, over: ConfigV) -> ConfigV {
    ConfigV {
        cwd: or_else(base.cwd, over.cwd),
        agent_dir: or_else(base.agent_dir, over.agent_dir),
        session_dir: or_else(base.session_dir, over.session_dir),
        provider: or_else(base.provider, over.provider),
        model: or_else(base.model, over.model),
        thinking_level: or_else(base.thinking_level, over.thinking_level),
        telemetry_disabled: or_else(base.telemetry_disabled, over.telemetry_disabled),
        api_key: or_else(base.api_key, over.api_key),
        extra: put_all(base.extra, over.extra),
    }
}

fn text_or_else(base: &Option<String>, over: &Option<String>) -> (r: Option<String>)
    ensures
        json::opt_view(r) == or_else(json::opt_view(*base), json::opt_view(*over)),
{
    match over {
        Some(text) => Some(text.clone()),
        None => base.clone(),
    }
}

/// A configuration with another one laid over it: what the other says goes first.
pub fn merge_agent_session_runtime_config(
    base: &AgentSessionRuntimeConfig,
    override_config: Option<&AgentSessionRuntimeConfig>,
) -> (r: AgentSessionRuntimeConfig)
    ensures
        r@ == match override_config {
            Some(over) => merged(base@, over@),
            None => base@,
        },
{
    let over = match override_config {
        Some(over) => over,
        None => return base.clone(),
    };
    let mut extra = clone_members(&base.extra);
    let ghost all = json::members(over.extra@);
    let ghost first = json::members(base.extra@);
    let mut i: usize = 0;
    assert(all.take(0) =~= Seq::empty());
    while i < over.extra.len()
        invariant
            i <= over.extra.len(),
            all == json::members(over.extra@),
            json::members(extra@) == put_all(first, all.take(i as int)),
        decreases over.extra.len() - i,
    {
        assert(all.take(i + 1).drop_last() =~= all.take(i as int));
        assert(all.take(i + 1).last() == (over.extra@[i as int].0@, over.extra@[i as int].1@));
        json::set_member(&mut extra, &over.extra[i].0, over.extra[i].1.clone());
        i += 1;
    }
    assert(all.take(i as int) =~= all);
    let r = AgentSessionRuntimeConfig {
        cwd: text_or_else(&base.cwd, &over.cwd),
        agent_dir: text_or_else(&base.agent_dir, &over.agent_dir),
        session_dir: text_or_else(&base.session_dir, &over.session_dir),
        provider: text_or_else(&base.provider, &over.provider),
        model: text_or_else(&base.model, &over.model),
        thinking_level: text_or_else(&base.thinking_level, &over.thinking_level),
        telemetry_disabled: match over.telemetry_disabled {
            Some(disabled) => Some(disabled),
            None => base.telemetry_disabled,
        },
        api_key: text_or_else(&base.api_key, &over.api_key),
        extra,
    };
    assert(r@ =~= merged(base@, over@));
    r
}

/// How a worker identifies itself.
#[derive(Debug, PartialEq)]
pub struct DaemonWorkerOptions {
    pub authentication_token: String,
    pub worker_instance_id: Option<String>,
    pub restore_active_session_id: Option<String>,
}

/// The supervisor that a worker says it belongs to.
#[derive(Debug, PartialEq)]
pub struct SupervisorGenerationClaim {
    pub supervisor_generation: String,
    pub supervisor_pid: i64,
    pub supervisor_process_start_id: Option<String>,
    pub supervisor_socket_path: String,
}

/// A claim that was bound to the owner it was made to.
#[derive(Debug, PartialEq)]
pub struct BoundSupervisorGenerationClaim {
    pub claim: SupervisorGenerationClaim,
    pub owner_fingerprint: String,
}

/// A child that is not live: its place comes from the ledger, the rest from its
/// display file or the old registry.
#[derive(Debug, PartialEq)]
pub struct PassiveRlmSubagentEntry {
    pub child_id: String,
    pub session_name: String,
    pub session_dir: String,
    pub session_file: String,
    pub parent_session_id: String,
    pub parent_session_file: Option<String>,
    pub rlm_depth: Option<i64>,
    pub rlm_max_depth: Option<i64>,
    pub rlm_parent_node_id: Option<String>,
    pub prompt: Option<String>,
    pub spawn_code: Option<String>,
    pub model: Option<RlmSubagentModel>,
    pub status: String,
    pub created_at: Num,
}

impl Default for PassiveRlmSubagentEntry {
    fn default() -> (r: Self)
        ensures
            r.child_id@ == Seq::<char>::empty(),
            r.session_name@ == Seq::<char>::empty(),
            r.session_dir@ == Seq::<char>::empty(),
            r.session_file@ == Seq::<char>::empty(),
            r.parent_session_id@ == Seq::<char>::empty(),
            r.parent_session_file is None,
            r.rlm_depth is None,
            r.rlm_max_depth is None,
            r.rlm_parent_node_id is None,
            r.prompt is None,
            r.spawn_code is None,
            r.model is None,
            r.status@ == Seq::<char>::empty(),
            r.created_at == json::double_of(Num::Unsigned(0)),
    {
        PassiveRlmSubagentEntry {
            child_id: String::new(),
            session_name: String::new(),
            session_dir: String::new(),
            session_file: String::new(),
            parent_session_id: String::new(),
            parent_session_file: None,
            rlm_depth: None,
            rlm_max_depth: None,
            rlm_parent_node_id: None,
            prompt: None,
            spawn_code: None,
            model: None,
            status: String::new(),
            created_at: json::as_double(&Num::Unsigned(0)),
        }
    }
}

/// The root of a tree of children: a live session, or a saved one.
pub enum PassiveRlmRoot {
    Resident(String),
    Saved(SessionInfo),
}

/// A child that is not live, with what leads to it.
pub struct PassiveRlmSubagent {
    pub root: PassiveRlmRoot,
    pub entry: PassiveRlmSubagentEntry,
    pub info: SessionInfo,
    pub chain: Vec<PassiveRlmSubagentEntry>,
}

/// A text that says something.
pub open spec fn filled(text: Option<Seq<char>>) -> Option<Seq<char>> {
    match text {
        Some(text) => if text.len() > 0 {
            Some(text)
        } else {
            None
        },
        None => None,
    }
}

fn filled_text(text: &Option<String>) -> (r: Option<String>)
    ensures
        json::opt_view(r) == filled(json::opt_view(*text)),
{
    match text {
        Some(text) => {
            proof {
                reveal_strlit("");
                if text@ == ""@ {
                    assert(text@.len() == 0);
                } else if text@.len() == 0 {
                    assert(text@ =~= ""@);
                }
            }
            if same(text, "") {
                None
            } else {
                Some(text.clone())
            }
        },
        None => None,
    }
}

/// What a child is hydrated with: only what display files and the old registry
/// share, and no text that is empty.
pub fn rlm_subagent_metadata_fields(source: &PassiveRlmSubagentEntry) -> (r:
    PassiveRlmSubagentEntry)
    ensures
        r.rlm_max_depth == source.rlm_max_depth,
        json::opt_view(r.rlm_parent_node_id) == filled(json::opt_view(source.rlm_parent_node_id)),
        json::opt_view(r.prompt) == filled(json::opt_view(source.prompt)),
        json::opt_view(r.spawn_code) == filled(json::opt_view(source.spawn_code)),
        rlm_subagent_display::opt_model(r.model) == rlm_subagent_display::opt_model(source.model),
        r.child_id@ == Seq::<char>::empty(),
        r.session_name@ == Seq::<char>::empty(),
        r.session_dir@ == Seq::<char>::empty(),
        r.session_file@ == Seq::<char>::empty(),
        r.parent_session_id@ == Seq::<char>::empty(),
        r.parent_session_file is None,
        r.rlm_depth is None,
        r.status@ == Seq::<char>::empty(),
        r.created_at == json::double_of(Num::Unsigned(0)),
{
    let mut fields = PassiveRlmSubagentEntry::default();
    fields.rlm_max_depth = source.rlm_max_depth;
    fields.rlm_parent_node_id = filled_text(&source.rlm_parent_node_id);
    fields.prompt = filled_text(&source.prompt);
    fields.spawn_code = filled_text(&source.spawn_code);
    fields.model = match &source.model {
        Some(model) => Some(model.clone()),
        None => None,
    };
    fields
}

/// A part of a session's history.
#[derive(Debug, PartialEq)]
pub struct DaemonHistoryRange {
    pub version: u32,
    pub generation: String,
    pub representation: String,
    pub tip_entry_id: Option<String>,
    pub total_message_count: usize,
    pub start_index: usize,
    pub messages: Vec<Json>,
    pub entry_ids: Vec<String>,
    pub has_older: bool,
    pub order: String,
}

/// What a part of a history says.
#[verifier::ext_equal]
pub struct RangeV {
    pub version: u32,
    pub generation: Seq<char>,
    pub representation: Seq<char>,
    pub tip_entry_id: Option<Seq<char>>,
    pub total_message_count: nat,
    pub start_index: nat,
    pub messages: Seq<JsonV>,
    pub entry_ids: Seq<Seq<char>>,
    pub has_older: bool,
    pub order: Seq<char>,
}

impl View for DaemonHistoryRange {
    type V = RangeV;

    open spec fn view(&self) -> RangeV {
        RangeV {
            version: self.version,
            generation: self.generation@,
            representation: self.representation@,
            tip_entry_id: json::opt_view(self.tip_entry_id),
            total_message_count: self.total_message_count as nat,
            start_index: self.start_index as nat,
            messages: json::items(self.messages@),
            entry_ids: text::texts(self.entry_ids@),
            has_older: self.has_older,
            order: self.order@,
        }
    }
}

/// The texts as documents.
pub open spec fn text_values(texts: Seq<Seq<char>>) -> Seq<JsonV> {
    Seq::new(texts.len(), |i: int| JsonV::Str(texts[i]))
}

fn text_documents(texts: &Vec<String>) -> (r: Vec<Json>)
    ensures
        json::items(r@) == text_values(text::texts(texts@)),
{
    let mut values: Vec<Json> = Vec::new();
    let mut i: usize = 0;
    while i < texts.len()
        invariant
            i <= texts.len(),
            values@.len() == i,
            forall|j: int| 0 <= j < i ==> (#[trigger] values@[j])@ == JsonV::Str(texts@[j]@),
        decreases texts.len() - i,
    {
        values.push(json::text(&texts[i]));
        i += 1;
    }
    assert(json::items(values@) =~= text_values(text::texts(texts@)));
    values
}

fn copy_values(values: &Vec<Json>, from: usize, to: usize) -> (r: Vec<Json>)
    requires
        from <= to <= values@.len(),
    ensures
        json::items(r@) == json::items(values@).subrange(from as int, to as int),
{
    let mut copies: Vec<Json> = Vec::new();
    let mut i: usize = from;
    while i < to
        invariant
            from <= i <= to <= values.len(),
            copies@.len() == i - from,
            forall|j: int| 0 <= j < i - from ==> (#[trigger] copies@[j])@ == values@[from + j]@,
        decreases to - i,
    {
        copies.push(values[i].clone());
        i += 1;
    }
    assert(json::items(copies@) =~= json::items(values@).subrange(from as int, to as int));
    copies
}

fn copy_texts(texts: &Vec<String>, from: usize, to: usize) -> (r: Vec<String>)
    requires
        from <= to <= texts@.len(),
    ensures
        text::texts(r@) == text::texts(texts@).subrange(from as int, to as int),
{
    let mut copies: Vec<String> = Vec::new();
    let mut i: usize = from;
    while i < to
        invariant
            from <= i <= to <= texts.len(),
            copies@.len() == i - from,
            forall|j: int| 0 <= j < i - from ==> (#[trigger] copies@[j])@ == texts@[from + j]@,
        decreases to - i,
    {
        copies.push(texts[i].clone());
        i += 1;
    }
    assert(text::texts(copies@) =~= text::texts(texts@).subrange(from as int, to as int));
    copies
}

/// The document of a part of a history.
pub open spec fn range_value(range: RangeV) -> JsonV {
    JsonV::Obj(
        Seq::<(Seq<char>, JsonV)>::empty().push(
            ("version"@, json::int_value(range.version as int)),
        ).push(("generation"@, JsonV::Str(range.generation))).push(
            ("representation"@, JsonV::Str(range.representation)),
        ).push(
            (
                "tipEntryId"@,
                match range.tip_entry_id {
                    Some(id) => JsonV::Str(id),
                    None => JsonV::Null,
                },
            ),
        ).push(("totalMessageCount"@, json::int_value(range.total_message_count as int))).push(
            ("startIndex"@, json::int_value(range.start_index as int)),
        ).push(("messages"@, JsonV::Arr(range.messages))).push(
            ("entryIds"@, JsonV::Arr(text_values(range.entry_ids))),
        ).push(("hasOlder"@, JsonV::Bool(range.has_older))).push(
            ("order"@, JsonV::Str(range.order)),
        ),
    )
}

impl DaemonHistoryRange {
    /// The document of a part of a history.
    pub fn to_value(&self) -> (r: Json)
        ensures
            r@ == range_value(self@),
    {
        let mut pairs = json::no_members();
        json::add_member(&mut pairs, "version", json::count(self.version as u64));
        json::add_text(&mut pairs, "generation", &self.generation);
        json::add_text(&mut pairs, "representation", &self.representation);
        json::add_member(
            &mut pairs,
            "tipEntryId",
            match &self.tip_entry_id {
                Some(id) => json::text(id),
                None => Json::Null,
            },
        );
        json::add_member(
            &mut pairs,
            "totalMessageCount",
            json::count(self.total_message_count as u64),
        );
        json::add_member(&mut pairs, "startIndex", json::count(self.start_index as u64));
        let messages = copy_values(&self.messages, 0, self.messages.len());
        assert(json::items(messages@) =~= json::items(self.messages@));
        json::add_member(&mut pairs, "messages", json::array(messages));
        json::add_member(&mut pairs, "entryIds", json::array(text_documents(&self.entry_ids)));
        json::add_member(&mut pairs, "hasOlder", Json::Bool(self.has_older));
        json::add_text(&mut pairs, "order", &self.order);
        json::object(pairs)
    }
}

/// What the history of a session depends on beside its messages.
#[derive(Debug, PartialEq)]
pub struct ModelIdentity {
    pub provider: String,
    pub id: String,
    pub api: String,
    pub base_url: String,
}

/// A text without the slashes at its end.
pub open spec fn without_slashes(text: Seq<char>) -> Seq<char>
    decreases text.len(),
{
    if text.len() > 0 && text.last() == '/' {
        without_slashes(text.drop_last())
    } else {
        text
    }
}

fn strip_slashes(text: &str) -> (r: String)
    ensures
        r@ == without_slashes(text@),
{
    let chars = to_chars(text);
    let mut n: usize = chars.len();
    assert(chars@.take(n as int) =~= chars@);
    while n > 0 && chars[n - 1] == '/'
        invariant
            n <= chars.len(),
            chars@ == text@,
            without_slashes(text@) == without_slashes(chars@.take(n as int)),
        decreases n,
    {
        assert(chars@.take(n as int).drop_last() =~= chars@.take(n - 1));
        assert(chars@.take(n as int).last() == chars@[n - 1]);
        n -= 1;
    }
    proof {
        if n > 0 {
            assert(chars@.take(n as int).last() == chars@[n - 1]);
        }
    }
    let r = slice_text(&chars, 0, n);
    assert(r@ =~= chars@.take(n as int));
    r
}

/// The identity of a model as a document.
pub open spec fn identity_value(model: Option<ModelIdentity>) -> JsonV {
    JsonV::Arr(
        match model {
            Some(model) => Seq::<JsonV>::empty().push(JsonV::Str(model.provider@)).push(
                JsonV::Str(model.id@),
            ).push(JsonV::Str(model.api@)).push(JsonV::Str(without_slashes(model.base_url@))),
            None => Seq::<JsonV>::empty().push(JsonV::Null).push(JsonV::Null).push(
                JsonV::Null,
            ).push(JsonV::Null),
        },
    )
}

/// The identity of a model as a document: its provider, name and interface, and
/// where it is reached, with no slash at the end.
pub fn model_identity_value(model: Option<&ModelIdentity>) -> (r: Json)
    ensures
        r@ == identity_value(
            match model {
                Some(model) => Some(*model),
                None => None,
            },
        ),
{
    let mut values: Vec<Json> = Vec::new();
    match model {
        Some(model) => {
            values.push(json::text(&model.provider));
            values.push(json::text(&model.id));
            values.push(json::text(&model.api));
            let url = strip_slashes(&model.base_url);
            values.push(json::text(&url));
            assert(json::items(values@) =~= identity_value(Some(*model))->Arr_0);
        },
        None => {
            values.push(Json::Null);
            values.push(Json::Null);
            values.push(Json::Null);
            values.push(Json::Null);
            assert(json::items(values@) =~= identity_value(None)->Arr_0);
        },
    }
    json::array(values)
}

/// A short name for the way a history is represented for a model.
pub open spec fn history_representation(model: Option<ModelIdentity>) -> Seq<char> {
    digest::base64_url(
        digest::sha256(vstd::utf8::encode_utf8(json::printed_json(identity_value(model)))),
    ).take(22)
}

/// A short name for the way a history is represented for a model: it changes with
/// the identity of the model.
pub fn session_history_representation(model: Option<&ModelIdentity>) -> (r: String)
    ensures
        r@ == history_representation(
            match model {
                Some(model) => Some(*model),
                None => None,
            },
        ),
        r@.len() == 22,
{
    let identity = model_identity_value(model);
    proof {
        assert(json::sound(identity@)) by {
            let values = identity@->Arr_0;
            assert forall|i: int| 0 <= i < values.len() implies json::sound(#[trigger] values[i]) by {
            }
        }
    }
    let printed = print_json(&identity);
    let digest = sha256_digest(printed.as_str().as_bytes());
    let encoded = encode_base64_url(&digest);
    let chars = to_chars(&encoded);
    let r = slice_text(&chars, 0, 22);
    assert(r@ =~= encoded@.take(22));
    r
}

/// The history of a session at one moment.
#[derive(Debug, PartialEq)]
pub struct SessionHistorySnapshot {
    pub messages: Vec<Json>,
    pub entry_ids: Vec<String>,
    pub tip_entry_id: Option<String>,
}

/// Which part of a history is asked for.
#[derive(Debug, PartialEq)]
pub struct SlicePinnedSessionHistoryOptions {
    pub generation: String,
    pub representation: String,
    pub before_entry_id: Option<String>,
    pub limit: Option<usize>,
}

/// Where an id occurs first.
pub open spec fn first_index(ids: Seq<Seq<char>>, id: Seq<char>) -> Option<int>
    decreases ids.len(),
{
    if ids.len() == 0 {
        None
    } else {
        match first_index(ids.drop_last(), id) {
            Some(i) => Some(i),
            None => if ids.last() == id {
                Some(ids.len() - 1)
            } else {
                None
            },
        }
    }
}

proof fn first_index_finds(ids: Seq<Seq<char>>, id: Seq<char>)
    ensures
        match first_index(ids, id) {
            Some(i) => 0 <= i < ids.len() && ids[i] == id && forall|j: int|
                0 <= j < i ==> ids[j] != id,
            None => forall|j: int| 0 <= j < ids.len() ==> ids[j] != id,
        },
    decreases ids.len(),
{
    if ids.len() > 0 {
        first_index_finds(ids.drop_last(), id);
        assert forall|j: int| 0 <= j < ids.len() - 1 implies ids.drop_last()[j] == ids[j] by {
        }
    }
}

/// Where a part of a history ends: before the entry that was named, or at the end.
pub open spec fn range_end(ids: Seq<Seq<char>>, before: Option<Seq<char>>) -> Option<int> {
    match before {
        Some(id) => first_index(ids, id),
        None => Some(ids.len() as int),
    }
}

/// How many messages are asked for.
pub open spec fn requested(limit: Option<usize>) -> int {
    match limit {
        Some(limit) => limit as int,
        None => INITIAL_HISTORY_WINDOW_MESSAGES as int,
    }
}

/// Where a part of a history starts: it is at most so long, and never longer than
/// one request can get.
pub open spec fn range_start(end: int, limit: int) -> int {
    let most = if limit < MAX_HISTORY_RANGE_MESSAGES {
        limit
    } else {
        MAX_HISTORY_RANGE_MESSAGES as int
    };
    if end > most {
        end - most
    } else {
        0
    }
}

/// The part of a history that is asked for, or why there is none.
pub open spec fn history_range(
    history: SessionHistorySnapshot,
    options: SlicePinnedSessionHistoryOptions,
) -> Result<RangeV, Seq<char>> {
    let messages = json::items(history.messages@);
    let ids = text::texts(history.entry_ids@);
    let before = json::opt_view(options.before_entry_id);
    if messages.len() != ids.len() {
        Err("Session history messages and entry ids are not aligned"@)
    } else {
        match range_end(ids, before) {
            None => Err("Session history boundary no longer exists: "@ + before->0),
            Some(end) => if !(0 < requested(options.limit) <= i32::MAX) {
                Err("Session history range limit must be a positive integer"@)
            } else {
                let start = range_start(end, requested(options.limit));
                Ok(
                    RangeV {
                        version: 1,
                        generation: options.generation@,
                        representation: options.representation@,
                        tip_entry_id: json::opt_view(history.tip_entry_id),
                        total_message_count: messages.len(),
                        start_index: start as nat,
                        messages: messages.subrange(start, end),
                        entry_ids: ids.subrange(start, end),
                        has_older: start > 0,
                        order: "chronological"@,
                    },
                )
            },
        }
    }
}

fn position_of(ids: &Vec<String>, id: &str) -> (r: Option<usize>)
    ensures
        match r {
            Some(i) => i < ids@.len() && first_index(text::texts(ids@), id@) == Some(i as int),
            None => first_index(text::texts(ids@), id@) is None,
        },
{
    let ghost all = text::texts(ids@);
    proof {
        first_index_finds(all, id@);
    }
    let mut i: usize = 0;
    while i < ids.len()
        invariant
            i <= ids.len(),
            all == text::texts(ids@),
            forall|j: int| 0 <= j < i ==> all[j] != id@,
            match first_index(all, id@) {
                Some(i) => 0 <= i < all.len() && all[i] == id@ && forall|j: int|
                    0 <= j < i ==> all[j] != id@,
                None => forall|j: int| 0 <= j < all.len() ==> all[j] != id@,
            },
        decreases ids.len() - i,
    {
        assert(all[i as int] == ids@[i as int]@);
        if same(&ids[i], id) {
            return Some(i);
        }
        i += 1;
    }
    None
}

/// The part of a history that is asked for: the messages before an entry, or the
/// last ones, oldest first.
pub fn slice_pinned_session_history(
    history: &SessionHistorySnapshot,
    options: &SlicePinnedSessionHistoryOptions,
) -> (r: Result<DaemonHistoryRange, String>)
    ensures
        match r {
            Ok(range) => history_range(*history, *options) is Ok && range@ == history_range(
                *history,
                *options,
            )->Ok_0,
            Err(error) => history_range(*history, *options) is Err && error@ == history_range(
                *history,
                *options,
            )->Err_0,
        },
{
    if history.messages.len() != history.entry_ids.len() {
        return Err("Session history messages and entry ids are not aligned".to_owned());
    }
    let end_index: usize = match &options.before_entry_id {
        Some(id) => match position_of(&history.entry_ids, id) {
            Some(index) => index,
            None => return Err(cat2("Session history boundary no longer exists: ", id)),
        },
        None => history.messages.len(),
    };
    let limit: usize = match options.limit {
        Some(limit) => limit,
        None => INITIAL_HISTORY_WINDOW_MESSAGES,
    };
    if limit == 0 || limit > 0x7fff_ffff {
        return Err("Session history range limit must be a positive integer".to_owned());
    }
    let most: usize = if limit < MAX_HISTORY_RANGE_MESSAGES {
        limit
    } else {
        MAX_HISTORY_RANGE_MESSAGES
    };
    let start_index: usize = if end_index > most {
        end_index - most
    } else {
        0
    };
    let range = DaemonHistoryRange {
        version: 1,
        generation: options.generation.clone(),
        representation: options.representation.clone(),
        tip_entry_id: history.tip_entry_id.clone(),
        total_message_count: history.messages.len(),
        start_index,
        messages: copy_values(&history.messages, start_index, end_index),
        entry_ids: copy_texts(&history.entry_ids, start_index, end_index),
        has_older: start_index > 0,
        order: "chronological".to_owned(),
    };
    assert(range@ =~= history_range(*history, *options)->Ok_0);
    Ok(range)
}

/// How long a part of a history is: as long as was asked for, or four hundred messages
/// where nothing was asked; never longer than that, and shorter only where the history
/// begins. It ends before the entry that was named, or at the end of the history, and
/// there is something older if and only if it does not start at the beginning.
pub proof fn parts_are_as_long_as_asked(
    history: SessionHistorySnapshot,
    options: SlicePinnedSessionHistoryOptions,
)
    requires
        history_range(history, options) is Ok,
    ensures
        ({
            let part = history_range(history, options)->Ok_0;
            let ids = text::texts(history.entry_ids@);
            let end: int = part.start_index + part.entry_ids.len() as int;
            let asked = match options.limit {
                Some(limit) => limit as int,
                None => 400,
            };
            let most = if asked <= 400 { asked } else { 400 };
            &&& part.entry_ids.len() == if end <= most { end } else { most }
            &&& part.messages.len() == part.entry_ids.len()
            &&& part.entry_ids == ids.subrange(part.start_index as int, end)
            &&& part.messages == json::items(history.messages@).subrange(
                part.start_index as int,
                end,
            )
            &&& part.total_message_count == history.messages@.len()
            &&& part.has_older <==> part.start_index > 0
            &&& options.before_entry_id is None ==> end == ids.len()
            &&& options.before_entry_id matches Some(id) ==> end < ids.len() && ids[end] == id@
                && forall|i: int| 0 <= i < end ==> ids[i] != id@
        }),
{
    let ids = text::texts(history.entry_ids@);
    if let Some(id) = json::opt_view(options.before_entry_id) {
        first_index_finds(ids, id);
    }
}

/// A history of at most four hundred messages comes whole where neither a boundary nor
/// a limit is given.
pub proof fn short_histories_come_whole(
    history: SessionHistorySnapshot,
    options: SlicePinnedSessionHistoryOptions,
)
    requires
        history.messages@.len() == history.entry_ids@.len() <= 400,
        options.before_entry_id is None,
        options.limit is None,
    ensures
        history_range(history, options) matches Ok(part) && {
            &&& part.messages == json::items(history.messages@)
            &&& part.entry_ids == text::texts(history.entry_ids@)
            &&& part.start_index == 0
            &&& !part.has_older
        },
{
    let part = history_range(history, options)->Ok_0;
    assert(part.messages =~= json::items(history.messages@));
    assert(part.entry_ids =~= text::texts(history.entry_ids@));
}

/// A part of a history is owed, unless its messages and ids are not aligned, the entry
/// that was named is not in it, or no positive number of messages was asked for.
pub proof fn parts_are_owed(
    history: SessionHistorySnapshot,
    options: SlicePinnedSessionHistoryOptions,
)
    ensures
        history_range(history, options) is Ok <==> {
            &&& history.messages@.len() == history.entry_ids@.len()
            &&& options.before_entry_id matches Some(id) ==> text::texts(
                history.entry_ids@,
            ).contains(id@)
            &&& options.limit matches Some(limit) ==> 0 < limit <= 0x7fff_ffff
        },
{
    let ids = text::texts(history.entry_ids@);
    if let Some(id) = json::opt_view(options.before_entry_id) {
        first_index_finds(ids, id);
        if ids.contains(id) {
            let i = choose|i: int| 0 <= i < ids.len() && ids[i] == id;
            assert(ids[i] == id);
        }
    }
}

/// Paging through a history leaves nothing out and repeats nothing: what comes
/// before the first entry of a part ends just where that part starts.
pub proof fn older_parts_join(
    history: SessionHistorySnapshot,
    newer: SlicePinnedSessionHistoryOptions,
    older: SlicePinnedSessionHistoryOptions,
)
    requires
        history_range(history, newer) is Ok,
        history_range(history, newer)->Ok_0.entry_ids.len() > 0,
        text::texts(history.entry_ids@).no_duplicates(),
        json::opt_view(older.before_entry_id) == Some(
            history_range(history, newer)->Ok_0.entry_ids[0],
        ),
        0 < requested(older.limit) <= i32::MAX,
    ensures
        history_range(history, older) is Ok,
        ({
            let first = history_range(history, older)->Ok_0;
            let second = history_range(history, newer)->Ok_0;
            let ids = text::texts(history.entry_ids@);
            &&& first.start_index + first.entry_ids.len() == second.start_index
            &&& first.entry_ids + second.entry_ids == ids.subrange(
                first.start_index as int,
                second.start_index as int + second.entry_ids.len(),
            )
            &&& first.messages + second.messages == json::items(history.messages@).subrange(
                first.start_index as int,
                second.start_index as int + second.messages.len(),
            )
        }),
{
    let ids = text::texts(history.entry_ids@);
    let messages = json::items(history.messages@);
    let second = history_range(history, newer)->Ok_0;
    let before = json::opt_view(newer.before_entry_id);
    if let Some(id) = before {
        first_index_finds(ids, id);
    }
    let end = range_end(ids, before)->0;
    let start = range_start(end, requested(newer.limit));
    assert(second.entry_ids[0] == ids[start]);
    first_index_finds(ids, ids[start]);
    assert(first_index(ids, ids[start]) == Some(start));
    let first = history_range(history, older)->Ok_0;
    assert(first.entry_ids + second.entry_ids =~= ids.subrange(first.start_index as int, end));
    assert(first.messages + second.messages =~= messages.subrange(first.start_index as int, end));
}

/// A frame that goes out to a client.
#[derive(Debug, PartialEq)]
pub enum DaemonOutbound {
    SessionEvent { active_session_id: String, event: Json },
    SessionStatus { active_session_id: String, recap: Option<String> },
    SessionReplaced { active_session_id: String, state: Json, messages: Vec<Json> },
    SessionResynced { active_session_id: String, state: Json, messages: Vec<Json>, reason: Option<String> },
    SessionClosed { active_session_id: String, reason: String },
    ExtensionUiRequest { active_session_id: String, id: String, method: String, payload: Json },
    ExtensionError { active_session_id: String, extension_path: Option<String>, event: Option<String>, error: String },
    SessionStart { active_session_id: String },
    SessionAttached { active_session_id: String, client_id: String },
    SessionDetached { active_session_id: String, client_id: String },
    SessionSnapshotBegin { active_session_id: String, snapshot_id: String, message_count: usize, target_chunk_bytes: usize, transfer_id: Option<String> },
    SessionSnapshotChunk { active_session_id: String, snapshot_id: String, index: usize, messages: Vec<Json> },
    SessionSnapshotEnd { active_session_id: String, snapshot_id: String, chunk_count: usize, bytes: usize, last_event_sequence: Option<u64>, last_event_cursor: Option<Json>, transfer_id: Option<String> },
    SessionSnapshotFailed { active_session_id: String, snapshot_id: String, error: String },
    HeartbeatsChanged,
    RosterDelta { payload: Json },
    RosterHeartbeat,
    DaemonClosing { reason: String },
    /// A frame that was built elsewhere.
    Raw(Json),
}

/// The type of a frame.
pub open spec fn frame_type(message: DaemonOutbound) -> Seq<char> {
    match message {
        DaemonOutbound::SessionEvent { .. } => "session_event"@,
        DaemonOutbound::SessionStatus { .. } => "session_status"@,
        DaemonOutbound::SessionReplaced { .. } => "session_replaced"@,
        DaemonOutbound::SessionResynced { .. } => "session_resynced"@,
        DaemonOutbound::SessionClosed { .. } => "session_closed"@,
        DaemonOutbound::ExtensionUiRequest { .. } => "extension_ui_request"@,
        DaemonOutbound::ExtensionError { .. } => "extension_error"@,
        DaemonOutbound::SessionStart { .. } => "session_start"@,
        DaemonOutbound::SessionAttached { .. } => "session_attached"@,
        DaemonOutbound::SessionDetached { .. } => "session_detached"@,
        DaemonOutbound::SessionSnapshotBegin { .. } => "session_snapshot_begin"@,
        DaemonOutbound::SessionSnapshotChunk { .. } => "session_snapshot_chunk"@,
        DaemonOutbound::SessionSnapshotEnd { .. } => "session_snapshot_end"@,
        DaemonOutbound::SessionSnapshotFailed { .. } => "session_snapshot_failed"@,
        DaemonOutbound::HeartbeatsChanged => "heartbeats_changed"@,
        DaemonOutbound::RosterDelta { .. } => "roster_delta"@,
        DaemonOutbound::RosterHeartbeat => "roster_heartbeat"@,
        DaemonOutbound::DaemonClosing { .. } => "daemon_closing"@,
        DaemonOutbound::Raw(value) => match value@.str_at("type"@) {
            Some(name) => name,
            None => "unknown"@,
        },
    }
}

/// The live session that a frame is about.
pub open spec fn frame_session(message: DaemonOutbound) -> Option<Seq<char>> {
    match message {
        DaemonOutbound::SessionEvent { active_session_id, .. } => Some(active_session_id@),
        DaemonOutbound::SessionStatus { active_session_id, .. } => Some(active_session_id@),
        DaemonOutbound::SessionReplaced { active_session_id, .. } => Some(active_session_id@),
        DaemonOutbound::SessionResynced { active_session_id, .. } => Some(active_session_id@),
        DaemonOutbound::SessionClosed { active_session_id, .. } => Some(active_session_id@),
        DaemonOutbound::ExtensionUiRequest { active_session_id, .. } => Some(active_session_id@),
        DaemonOutbound::ExtensionError { active_session_id, .. } => Some(active_session_id@),
        DaemonOutbound::SessionStart { active_session_id, .. } => Some(active_session_id@),
        DaemonOutbound::SessionAttached { active_session_id, .. } => Some(active_session_id@),
        DaemonOutbound::SessionDetached { active_session_id, .. } => Some(active_session_id@),
        DaemonOutbound::SessionSnapshotBegin { active_session_id, .. } => Some(active_session_id@),
        DaemonOutbound::SessionSnapshotChunk { active_session_id, .. } => Some(active_session_id@),
        DaemonOutbound::SessionSnapshotEnd { active_session_id, .. } => Some(active_session_id@),
        DaemonOutbound::SessionSnapshotFailed { active_session_id, .. } => Some(active_session_id@),
        _ => None,
    }
}

/// A count as it is sent: as a double.
pub open spec fn sent_count(n: u64) -> JsonV {
    JsonV::Num(Num::Whole(n))
}

/// The head of a frame: its type and the session that it is about.
pub open spec fn frame_head(name: Seq<char>, session: Seq<char>) -> Seq<(Seq<char>, JsonV)> {
    Seq::<(Seq<char>, JsonV)>::empty().push(("type"@, JsonV::Str(name))).push(
        ("activeSessionId"@, JsonV::Str(session)),
    )
}

/// A frame of which only its type is to be said.
pub open spec fn bare_frame(name: Seq<char>) -> Seq<(Seq<char>, JsonV)> {
    Seq::<(Seq<char>, JsonV)>::empty().push(("type"@, JsonV::Str(name)))
}

/// The document of a frame.
pub open spec fn frame_value(message: DaemonOutbound) -> JsonV {
    match message {
        DaemonOutbound::SessionEvent { active_session_id, event } => {
            let p0 = frame_head("session_event"@, active_session_id@);
            let p1 = p0.push(("event"@, event@));
            JsonV::Obj(p1)
        },
        DaemonOutbound::SessionStatus { active_session_id, recap } => {
            let p0 = frame_head("session_status"@, active_session_id@);
            let p1 = p0.push(("recap"@, match json::opt_view(recap) { Some(text) => JsonV::Str(text), None => JsonV::Null }));
            JsonV::Obj(p1)
        },
        DaemonOutbound::SessionReplaced { active_session_id, state, messages } => {
            let p0 = frame_head("session_replaced"@, active_session_id@);
            let p1 = p0.push(("state"@, state@));
            let p2 = p1.push(("messages"@, JsonV::Arr(json::items(messages@))));
            JsonV::Obj(p2)
        },
        DaemonOutbound::SessionResynced { active_session_id, state, messages, reason } => {
            let p0 = frame_head("session_resynced"@, active_session_id@);
            let p1 = p0.push(("state"@, state@));
            let p2 = p1.push(("messages"@, JsonV::Arr(json::items(messages@))));
            let p3 = json::push_opt_text(p2, "reason"@, json::opt_view(reason));
            JsonV::Obj(p3)
        },
        DaemonOutbound::SessionClosed { active_session_id, reason } => {
            let p0 = frame_head("session_closed"@, active_session_id@);
            let p1 = p0.push(("reason"@, JsonV::Str(reason@)));
            JsonV::Obj(p1)
        },
        DaemonOutbound::ExtensionUiRequest { active_session_id, id, method, payload } => {
            let p0 = frame_head("extension_ui_request"@, active_session_id@);
            let p1 = p0.push(("id"@, JsonV::Str(id@)));
            let p2 = p1.push(("method"@, JsonV::Str(method@)));
            let p3 = p2.push(("payload"@, payload@));
            JsonV::Obj(p3)
        },
        DaemonOutbound::ExtensionError { active_session_id, extension_path, event, error } => {
            let p0 = frame_head("extension_error"@, active_session_id@);
            let p1 = json::push_opt_text(p0, "extensionPath"@, json::opt_view(extension_path));
            let p2 = json::push_opt_text(p1, "event"@, json::opt_view(event));
            let p3 = p2.push(("error"@, JsonV::Str(error@)));
            JsonV::Obj(p3)
        },
        DaemonOutbound::SessionStart { active_session_id } => {
            let p0 = frame_head("session_start"@, active_session_id@);
            JsonV::Obj(p0)
        },
        DaemonOutbound::SessionAttached { active_session_id, client_id } => {
            let p0 = frame_head("session_attached"@, active_session_id@);
            let p1 = p0.push(("clientId"@, JsonV::Str(client_id@)));
            JsonV::Obj(p1)
        },
        DaemonOutbound::SessionDetached { active_session_id, client_id } => {
            let p0 = frame_head("session_detached"@, active_session_id@);
            let p1 = p0.push(("clientId"@, JsonV::Str(client_id@)));
            JsonV::Obj(p1)
        },
        DaemonOutbound::SessionSnapshotBegin { active_session_id, snapshot_id, message_count, target_chunk_bytes, transfer_id } => {
            let p0 = frame_head("session_snapshot_begin"@, active_session_id@);
            let p1 = p0.push(("snapshotId"@, JsonV::Str(snapshot_id@)));
            let p2 = p1.push(("messageCount"@, sent_count(message_count as u64)));
            let p3 = p2.push(("targetChunkBytes"@, sent_count(target_chunk_bytes as u64)));
            let p4 = json::push_opt_text(p3, "transferId"@, json::opt_view(transfer_id));
            JsonV::Obj(p4)
        },
        DaemonOutbound::SessionSnapshotChunk { active_session_id, snapshot_id, index, messages } => {
            let p0 = frame_head("session_snapshot_chunk"@, active_session_id@);
            let p1 = p0.push(("snapshotId"@, JsonV::Str(snapshot_id@)));
            let p2 = p1.push(("index"@, sent_count(index as u64)));
            let p3 = p2.push(("messages"@, JsonV::Arr(json::items(messages@))));
            JsonV::Obj(p3)
        },
        DaemonOutbound::SessionSnapshotEnd { active_session_id, snapshot_id, chunk_count, bytes, last_event_sequence, last_event_cursor, transfer_id } => {
            let p0 = frame_head("session_snapshot_end"@, active_session_id@);
            let p1 = p0.push(("snapshotId"@, JsonV::Str(snapshot_id@)));
            let p2 = p1.push(("chunkCount"@, sent_count(chunk_count as u64)));
            let p3 = p2.push(("bytes"@, sent_count(bytes as u64)));
            let p4 = json::push_opt(p3, "lastEventSequence"@, match last_event_sequence { Some(n) => Some(sent_count(n)), None => None });
            let p5 = json::push_opt(p4, "lastEventCursor"@, json::opt_json(last_event_cursor));
            let p6 = json::push_opt_text(p5, "transferId"@, json::opt_view(transfer_id));
            JsonV::Obj(p6)
        },
        DaemonOutbound::SessionSnapshotFailed { active_session_id, snapshot_id, error } => {
            let p0 = frame_head("session_snapshot_failed"@, active_session_id@);
            let p1 = p0.push(("snapshotId"@, JsonV::Str(snapshot_id@)));
            let p2 = p1.push(("error"@, JsonV::Str(error@)));
            JsonV::Obj(p2)
        },
        DaemonOutbound::HeartbeatsChanged => JsonV::Obj(bare_frame("heartbeats_changed"@)),
        DaemonOutbound::RosterDelta { payload } => payload@,
        DaemonOutbound::RosterHeartbeat => JsonV::Obj(bare_frame("roster_heartbeat"@)),
        DaemonOutbound::DaemonClosing { reason } => JsonV::Obj(
            bare_frame("daemon_closing"@).push(("reason"@, JsonV::Str(reason@))),
        ),
        DaemonOutbound::Raw(value) => value@,
    }
}

fn head_of(name: &str, session: &str) -> (r: Vec<(String, Json)>)
    ensures
        json::members(r@) == frame_head(name@, session@),
{
    let mut pairs = json::no_members();
    json::add_text(&mut pairs, "type", name);
    json::add_text(&mut pairs, "activeSessionId", session);
    pairs
}

fn with_type(name: &str) -> (r: Vec<(String, Json)>)
    ensures
        json::members(r@) == bare_frame(name@),
{
    let mut pairs = json::no_members();
    json::add_text(&mut pairs, "type", name);
    pairs
}

fn add_count(pairs: &mut Vec<(String, Json)>, key: &str, n: u64)
    ensures
        json::members(final(pairs)@) == json::members(old(pairs)@).push((key@, sent_count(n))),
{
    json::add_member(pairs, key, Json::Number(Num::Whole(n)));
}

fn add_messages(pairs: &mut Vec<(String, Json)>, messages: &Vec<Json>)
    ensures
        json::members(final(pairs)@) == json::members(old(pairs)@).push(
            ("messages"@, JsonV::Arr(json::items(messages@))),
        ),
{
    let copies = copy_values(messages, 0, messages.len());
    assert(json::items(copies@) =~= json::items(messages@));
    json::add_member(pairs, "messages", json::array(copies));
}

impl DaemonOutbound {
    /// The type of the frame.
    pub fn wire_type(&self) -> (r: &str)
        ensures
            r@ == frame_type(*self),
    {
        match self {
            DaemonOutbound::SessionEvent { .. } => "session_event",
            DaemonOutbound::SessionStatus { .. } => "session_status",
            DaemonOutbound::SessionReplaced { .. } => "session_replaced",
            DaemonOutbound::SessionResynced { .. } => "session_resynced",
            DaemonOutbound::SessionClosed { .. } => "session_closed",
            DaemonOutbound::ExtensionUiRequest { .. } => "extension_ui_request",
            DaemonOutbound::ExtensionError { .. } => "extension_error",
            DaemonOutbound::SessionStart { .. } => "session_start",
            DaemonOutbound::SessionAttached { .. } => "session_attached",
            DaemonOutbound::SessionDetached { .. } => "session_detached",
            DaemonOutbound::SessionSnapshotBegin { .. } => "session_snapshot_begin",
            DaemonOutbound::SessionSnapshotChunk { .. } => "session_snapshot_chunk",
            DaemonOutbound::SessionSnapshotEnd { .. } => "session_snapshot_end",
            DaemonOutbound::SessionSnapshotFailed { .. } => "session_snapshot_failed",
            DaemonOutbound::HeartbeatsChanged => "heartbeats_changed",
            DaemonOutbound::RosterDelta { .. } => "roster_delta",
            DaemonOutbound::RosterHeartbeat => "roster_heartbeat",
            DaemonOutbound::DaemonClosing { .. } => "daemon_closing",
            DaemonOutbound::Raw(value) => match value.str_at("type") {
                Some(name) => name,
                None => "unknown",
            },
        }
    }

    /// The document of the frame.
    pub fn to_value(&self) -> (r: Json)
        ensures
            r@ == frame_value(*self),
    {
        match self {
            DaemonOutbound::SessionEvent { active_session_id, event } => {
                let mut pairs = head_of("session_event", active_session_id);
                json::add_member(&mut pairs, "event", event.clone());
                json::object(pairs)
            },
            DaemonOutbound::SessionStatus { active_session_id, recap } => {
                let mut pairs = head_of("session_status", active_session_id);
                json::add_member(
                    &mut pairs,
                    "recap",
                    match recap {
                        Some(text) => json::text(text),
                        None => Json::Null,
                    },
                );
                json::object(pairs)
            },
            DaemonOutbound::SessionReplaced { active_session_id, state, messages } => {
                let mut pairs = head_of("session_replaced", active_session_id);
                json::add_member(&mut pairs, "state", state.clone());
                add_messages(&mut pairs, messages);
                json::object(pairs)
            },
            DaemonOutbound::SessionResynced { active_session_id, state, messages, reason } => {
                let mut pairs = head_of("session_resynced", active_session_id);
                json::add_member(&mut pairs, "state", state.clone());
                add_messages(&mut pairs, messages);
                json::add_opt_text(&mut pairs, "reason", reason);
                json::object(pairs)
            },
            DaemonOutbound::SessionClosed { active_session_id, reason } => {
                let mut pairs = head_of("session_closed", active_session_id);
                json::add_text(&mut pairs, "reason", reason);
                json::object(pairs)
            },
            DaemonOutbound::ExtensionUiRequest { active_session_id, id, method, payload } => {
                let mut pairs = head_of("extension_ui_request", active_session_id);
                json::add_text(&mut pairs, "id", id);
                json::add_text(&mut pairs, "method", method);
                json::add_member(&mut pairs, "payload", payload.clone());
                json::object(pairs)
            },
            DaemonOutbound::ExtensionError { active_session_id, extension_path, event, error } => {
                let mut pairs = head_of("extension_error", active_session_id);
                json::add_opt_text(&mut pairs, "extensionPath", extension_path);
                json::add_opt_text(&mut pairs, "event", event);
                json::add_text(&mut pairs, "error", error);
                json::object(pairs)
            },
            DaemonOutbound::SessionStart { active_session_id } => {
                json::object(head_of("session_start", active_session_id))
            },
            DaemonOutbound::SessionAttached { active_session_id, client_id } => {
                let mut pairs = head_of("session_attached", active_session_id);
                json::add_text(&mut pairs, "clientId", client_id);
                json::object(pairs)
            },
            DaemonOutbound::SessionDetached { active_session_id, client_id } => {
                let mut pairs = head_of("session_detached", active_session_id);
                json::add_text(&mut pairs, "clientId", client_id);
                json::object(pairs)
            },
            DaemonOutbound::SessionSnapshotBegin { active_session_id, snapshot_id, message_count, target_chunk_bytes, transfer_id } => {
                let mut pairs = head_of("session_snapshot_begin", active_session_id);
                json::add_text(&mut pairs, "snapshotId", snapshot_id);
                add_count(&mut pairs, "messageCount", *message_count as u64);
                add_count(&mut pairs, "targetChunkBytes", *target_chunk_bytes as u64);
                json::add_opt_text(&mut pairs, "transferId", transfer_id);
                json::object(pairs)
            },
            DaemonOutbound::SessionSnapshotChunk { active_session_id, snapshot_id, index, messages } => {
                let mut pairs = head_of("session_snapshot_chunk", active_session_id);
                json::add_text(&mut pairs, "snapshotId", snapshot_id);
                add_count(&mut pairs, "index", *index as u64);
                add_messages(&mut pairs, messages);
                json::object(pairs)
            },
            DaemonOutbound::SessionSnapshotEnd { active_session_id, snapshot_id, chunk_count, bytes, last_event_sequence, last_event_cursor, transfer_id } => {
                let mut pairs = head_of("session_snapshot_end", active_session_id);
                json::add_text(&mut pairs, "snapshotId", snapshot_id);
                add_count(&mut pairs, "chunkCount", *chunk_count as u64);
                add_count(&mut pairs, "bytes", *bytes as u64);
                if let Some(n) = last_event_sequence {
                    add_count(&mut pairs, "lastEventSequence", *n);
                }
                json::add_opt(&mut pairs, "lastEventCursor", last_event_cursor);
                json::add_opt_text(&mut pairs, "transferId", transfer_id);
                json::object(pairs)
            },
            DaemonOutbound::SessionSnapshotFailed { active_session_id, snapshot_id, error } => {
                let mut pairs = head_of("session_snapshot_failed", active_session_id);
                json::add_text(&mut pairs, "snapshotId", snapshot_id);
                json::add_text(&mut pairs, "error", error);
                json::object(pairs)
            },
            DaemonOutbound::HeartbeatsChanged => json::object(with_type("heartbeats_changed")),
            DaemonOutbound::RosterDelta { payload } => payload.clone(),
            DaemonOutbound::RosterHeartbeat => json::object(with_type("roster_heartbeat")),
            DaemonOutbound::DaemonClosing { reason } => {
                let mut pairs = with_type("daemon_closing");
                json::add_text(&mut pairs, "reason", reason);
                json::object(pairs)
            },
            DaemonOutbound::Raw(value) => value.clone(),
        }
    }

    /// The live session that the frame is about.
    pub fn active_session_id(&self) -> (r: Option<&str>)
        ensures
            json::opt_str_view(r) == frame_session(*self),
    {
        match self {
            DaemonOutbound::SessionEvent { active_session_id, .. } => Some(
                active_session_id.as_str(),
            ),
            DaemonOutbound::SessionStatus { active_session_id, .. } => Some(
                active_session_id.as_str(),
            ),
            DaemonOutbound::SessionReplaced { active_session_id, .. } => Some(
                active_session_id.as_str(),
            ),
            DaemonOutbound::SessionResynced { active_session_id, .. } => Some(
                active_session_id.as_str(),
            ),
            DaemonOutbound::SessionClosed { active_session_id, .. } => Some(
                active_session_id.as_str(),
            ),
            DaemonOutbound::ExtensionUiRequest { active_session_id, .. } => Some(
                active_session_id.as_str(),
            ),
            DaemonOutbound::ExtensionError { active_session_id, .. } => Some(
                active_session_id.as_str(),
            ),
            DaemonOutbound::SessionStart { active_session_id, .. } => Some(
                active_session_id.as_str(),
            ),
            DaemonOutbound::SessionAttached { active_session_id, .. } => Some(
                active_session_id.as_str(),
            ),
            DaemonOutbound::SessionDetached { active_session_id, .. } => Some(
                active_session_id.as_str(),
            ),
            DaemonOutbound::SessionSnapshotBegin { active_session_id, .. } => Some(
                active_session_id.as_str(),
            ),
            DaemonOutbound::SessionSnapshotChunk { active_session_id, .. } => Some(
                active_session_id.as_str(),
            ),
            DaemonOutbound::SessionSnapshotEnd { active_session_id, .. } => Some(
                active_session_id.as_str(),
            ),
            DaemonOutbound::SessionSnapshotFailed { active_session_id, .. } => Some(
                active_session_id.as_str(),
            ),
            _ => None,
        }
    }
}

/// The document of a frame names the type of the frame and the session that it is
/// about, unless the document was built elsewhere.
pub proof fn frames_say_what_they_are(message: DaemonOutbound)
    ensures
        message !is RosterDelta && message !is Raw ==> frame_value(message).str_at("type"@) == Some(
            frame_type(message),
        ),
        message is Raw && frame_value(message).str_at("type"@) is Some ==> frame_value(
            message,
        ).str_at("type"@) == Some(frame_type(message)),
        message !is RosterDelta && message !is Raw ==> frame_value(message).str_at(
            "activeSessionId"@,
        ) == frame_session(message),
{
    broadcast use {json::lookup_push, json::lookup_empty};

    reveal_strlit("type");
    reveal_strlit("activeSessionId");
    reveal_strlit("reason");
    assert("type"@.len() == 4 && "activeSessionId"@.len() == 15 && "reason"@.len() == 6);
}

/// The frames that are numbered, so that a client can tell whether it missed one.
pub open spec fn is_sequenced(name: Seq<char>) -> bool {
    ||| name == "session_event"@
    ||| name == "session_status"@
    ||| name == "session_replaced"@
    ||| name == "session_resynced"@
    ||| name == "session_closed"@
    ||| name == "extension_ui_request"@
    ||| name == "extension_error"@
}

/// Whether frames of a type are numbered.
pub fn is_sequenced_session_outbound(type_: &str) -> (r: bool)
    ensures
        r == is_sequenced(type_@),
{
    same(type_, "session_event") || same(type_, "session_status") || same(
        type_,
        "session_replaced",
    ) || same(type_, "session_resynced") || same(type_, "session_closed") || same(
        type_,
        "extension_ui_request",
    ) || same(type_, "extension_error")
}

proof fn type_stamps()
    ensures
        text::stamp("session_event"@) == 118116115013,
        text::stamp("session_status"@) == 97115115014,
        text::stamp("session_replaced"@) == 97100115016,
        text::stamp("session_resynced"@) == 110100115016,
        text::stamp("session_closed"@) == 111100115014,
        text::stamp("extension_ui_request"@) == 113116101020,
        text::stamp("extension_error"@) == 114114101015,
        text::stamp("heartbeats_changed"@) == 97100104018,
        text::stamp("roster_delta"@) == 108097114012,
        text::stamp("roster_heartbeat"@) == 98116114016,
        text::stamp("daemon_closing"@) == 115103100014,
{
    reveal_strlit("session_event");
    reveal_strlit("session_status");
    reveal_strlit("session_replaced");
    reveal_strlit("session_resynced");
    reveal_strlit("session_closed");
    reveal_strlit("extension_ui_request");
    reveal_strlit("extension_error");
    reveal_strlit("heartbeats_changed");
    reveal_strlit("roster_delta");
    reveal_strlit("roster_heartbeat");
    reveal_strlit("daemon_closing");
}

/// A frame that is numbered is about a session, unless it was built elsewhere.
pub proof fn numbered_frames_have_a_session(message: DaemonOutbound)
    requires
        message !is Raw,
        is_sequenced(frame_type(message)),
    ensures
        frame_session(message) is Some,
{
    type_stamps();
}
/// What the id of a snapshot's transfer is made of.
pub open spec fn transfer_id_text(
    session: Seq<char>,
    generation: Seq<char>,
    sequence: Seq<char>,
    flavor: Seq<char>,
) -> Seq<char> {
    session + "-"@ + generation + "-"@ + (sequence + "-"@ + flavor)
}

/// How the history part of a snapshot's transfer is named.
pub open spec fn history_flavor(
    representation: Seq<char>,
    tip: Option<Seq<char>>,
    start: Seq<char>,
) -> Seq<char> {
    "history-"@ + representation + "-"@ + (match tip {
        Some(tip) => tip,
        None => "empty"@,
    }) + ("-"@ + start)
}

/// The id of a snapshot's transfer, from how its numbers read.
pub fn transfer_id_from(
    snapshot: &Json,
    sequence: &str,
    start: &str,
) -> (r: String)
    ensures
        r@ == transfer_id(snapshot@, sequence@, start@),
{
    let session = json::text_at(snapshot, "activeSessionId");
    let generation = match snapshot.get("lastEventCursor") {
        Some(cursor) => json::text_at(cursor, "generation"),
        None => String::new(),
    };
    let flavor = match snapshot.get("history") {
        None => "full".to_owned(),
        Some(Json::Null) => "full".to_owned(),
        Some(history) => {
            let representation = json::text_at(history, "representation");
            let tip = match history.str_at("tipEntryId") {
                Some(tip) => tip,
                None => "empty",
            };
            let tail = cat2("-", start);
            cat5("history-", &representation, "-", tip, &tail)
        },
    };
    let tail = cat3(sequence, "-", &flavor);
    proof {
        if snapshot@.get("lastEventCursor"@) is None {
            assert(generation@ =~= Seq::<char>::empty());
        }
    }
    cat5(&session, "-", &generation, "-", &tail)
}

/// The id of a snapshot's transfer, from how its numbers read: the session, the
/// place in its events, and the part of its history.
pub open spec fn transfer_id(snapshot: JsonV, sequence: Seq<char>, start: Seq<char>) -> Seq<char> {
    transfer_id_text(
        json::text_or_empty(snapshot, "activeSessionId"@),
        match snapshot.get("lastEventCursor"@) {
            Some(cursor) => json::text_or_empty(cursor, "generation"@),
            None => Seq::empty(),
        },
        sequence,
        match json::present(snapshot, "history"@) {
            Some(history) => history_flavor(
                json::text_or_empty(history, "representation"@),
                history.str_at("tipEntryId"@),
                start,
            ),
            None => "full"@,
        },
    )
}

/// How a number below a key of a member reads as a double.
pub open spec fn inner_double_text(value: JsonV, outer: Seq<char>, key: Seq<char>) -> Seq<char> {
    match value.get(outer) {
        Some(member) => json::double_text_at(member, key),
        None => json::double_text(Num::Unsigned(0)),
    }
}

fn read_inner_double_text(value: &Json, outer: &str, key: &str) -> (r: String)
    ensures
        r@ == inner_double_text(value@, outer@, key@),
{
    match value.get(outer) {
        Some(member) => json::read_double_text(member, key),
        None => json::read_double_text(&Json::Null, key),
    }
}

/// The id of a snapshot's transfer: the session, the place in its events, and the
/// part of its history.
pub fn snapshot_transfer_id(snapshot: &Json) -> (r: String)
    ensures
        r@ == transfer_id(
            snapshot@,
            inner_double_text(snapshot@, "lastEventCursor"@, "sequence"@),
            inner_double_text(snapshot@, "history"@, "startIndex"@),
        ),
{
    let sequence = read_inner_double_text(snapshot, "lastEventCursor", "sequence");
    let start = read_inner_double_text(snapshot, "history", "startIndex");
    transfer_id_from(snapshot, &sequence, &start)
}

/// A session is not opened after all.
#[derive(Debug, PartialEq)]
pub struct RuntimeOpenCancelledError;

impl RuntimeOpenCancelledError {
    pub fn message(&self) -> (r: String)
        ensures
            r@ == "Runtime open cancelled"@,
    {
        "Runtime open cancelled".to_owned()
    }
}

/// The session that a client is bound to cannot be had.
#[derive(Debug, PartialEq)]
pub struct BoundSessionUnavailableError {
    pub message: String,
}

impl BoundSessionUnavailableError {
    pub fn new(message: &str) -> (r: Self)
        ensures
            r.message@ == message@,
    {
        BoundSessionUnavailableError { message: message.to_owned() }
    }
}

/// The lines that wait to be written to a client's socket.
#[derive(Debug, PartialEq)]
pub struct DaemonClientWriter {
    pub lines: Vec<String>,
    /// Nothing more is to be written.
    pub closed: bool,
    /// Nobody takes the lines any more.
    pub abandoned: bool,
}

impl DaemonClientWriter {
    pub fn new() -> (r: Self)
        ensures
            r.lines@.len() == 0,
            !r.closed,
            !r.abandoned,
    {
        DaemonClientWriter { lines: Vec::new(), closed: false, abandoned: false }
    }

    /// Adds a line; it is dropped where nothing can be written any more.
    pub fn write(&mut self, line: String) -> (r: bool)
        ensures
            r == !(old(self).closed || old(self).abandoned),
            final(self).lines@ == if r {
                old(self).lines@.push(line)
            } else {
                old(self).lines@
            },
            final(self).closed == old(self).closed,
            final(self).abandoned == old(self).abandoned,
    {
        if self.closed || self.abandoned {
            return false;
        }
        self.lines.push(line);
        true
    }

    /// Nothing more is written after this.
    pub fn end(&mut self)
        ensures
            *final(self) == (DaemonClientWriter { closed: true, ..*old(self) }),
    {
        self.closed = true;
    }

    /// Whether the socket is gone.
    pub fn destroyed(&self) -> (r: bool)
        ensures
            r == (self.closed || self.abandoned),
    {
        self.closed || self.abandoned
    }
}

/// A client that is attached, with what is under way for it.
pub struct DaemonClientHandle {
    pub state: DaemonSocketClient,
    pub writer: DaemonClientWriter,
    /// A snapshot is being sent to let the client catch up.
    pub catchup_running: bool,
    /// Another try is scheduled.
    pub catchup_retry_timer: bool,
    /// The transfers that are under way by session, and whether each was aborted.
    pub snapshot_transfer_abort_controllers: TextMap<bool>,
    pub snapshot_transfer_tails: TextMap<u64>,
    pub frame_decoder: PrivateFrameDecoder,
}

/// What is under way for a client.
#[verifier::ext_equal]
pub struct StreamingV {
    pub streaming: Option<bool>,
    pub backpressured: Option<bool>,
    /// The sessions that snapshots are sent of.
    pub sessions: Map<Seq<char>, ()>,
    /// How many are sent of each.
    pub counts: Map<Seq<char>, u32>,
    /// Whether the transfer of a session was aborted.
    pub aborted: Map<Seq<char>, bool>,
    pub tails: Map<Seq<char>, u64>,
}

/// The map, empty where there is none.
pub open spec fn map_or_empty<V>(map: Option<TextMap<V>>) -> Map<Seq<char>, V> {
    match map {
        Some(map) => map@,
        None => Map::empty(),
    }
}

/// The snapshots that are sent to a client are counted right: a session has a
/// count just where a snapshot of it is sent, and the client is marked as
/// streaming just where there is such a session.
pub open spec fn counted(v: StreamingV) -> bool {
    &&& forall|id: Seq<char>|
        #![trigger v.sessions.contains_key(id)]
        #![trigger v.counts.contains_key(id)]
        v.sessions.contains_key(id) == v.counts.contains_key(id)
    &&& forall|id: Seq<char>| #[trigger] v.counts.contains_key(id) ==> v.counts[id] >= 1
    &&& (v.streaming == Some(true)) == (v.sessions != Map::<Seq<char>, ()>::empty())
}

/// One more snapshot of a session is sent.
pub open spec fn marked(v: StreamingV, id: Seq<char>) -> StreamingV {
    StreamingV {
        streaming: Some(true),
        sessions: v.sessions.insert(id, ()),
        counts: v.counts.insert(
            id,
            if v.counts.contains_key(id) {
                (v.counts[id] + 1) as u32
            } else {
                1
            },
        ),
        aborted: if v.aborted.contains_key(id) && !v.aborted[id] {
            v.aborted
        } else {
            v.aborted.insert(id, false)
        },
        ..v
    }
}

/// One snapshot of a session less is sent.
pub open spec fn finished(v: StreamingV, id: Seq<char>) -> StreamingV {
    let counted = if v.counts.contains_key(id) && v.counts[id] > 1 {
        StreamingV { counts: v.counts.insert(id, (v.counts[id] - 1) as u32), ..v }
    } else {
        StreamingV {
            counts: v.counts.remove(id),
            sessions: v.sessions.remove(id),
            aborted: v.aborted.remove(id),
            tails: v.tails.remove(id),
            ..v
        }
    };
    let streaming = counted.sessions != Map::<Seq<char>, ()>::empty();
    StreamingV {
        streaming: Some(streaming),
        backpressured: if streaming {
            counted.backpressured
        } else {
            Some(false)
        },
        ..counted
    }
}

/// A snapshot that is marked and finished leaves no trace: the client streams the
/// same sessions as often as before.
pub proof fn finishing_undoes_marking(v: StreamingV, id: Seq<char>)
    requires
        counted(v),
        v.counts.contains_key(id) ==> v.counts[id] < u32::MAX,
    ensures
        counted(marked(v, id)),
        counted(finished(marked(v, id), id)),
        finished(marked(v, id), id).counts == v.counts,
        finished(marked(v, id), id).sessions == v.sessions,
        (finished(marked(v, id), id).streaming == Some(true)) == (v.streaming == Some(true)),
{
    let more = marked(v, id);
    let less = finished(more, id);
    assert(more.sessions.contains_key(id));
    assert(more.counts.contains_key(id));
    assert(less.counts =~= v.counts);
    if !v.counts.contains_key(id) {
        assert(!v.sessions.contains_key(id));
    } else {
        assert(v.sessions.contains_key(id));
        assert(v.sessions[id] == ());
    }
    assert(less.sessions =~= v.sessions);
}

/// Finishing a snapshot keeps the count right.
pub proof fn finishing_keeps_count(v: StreamingV, id: Seq<char>)
    requires
        counted(v),
    ensures
        counted(finished(v, id)),
{
    let less = finished(v, id);
    assert forall|other: Seq<char>| less.sessions.contains_key(other)
        == less.counts.contains_key(other) by {
        assert(v.sessions.contains_key(other) == v.counts.contains_key(other));
    }
    assert forall|other: Seq<char>| #[trigger] less.counts.contains_key(other) implies less.counts[other]
        >= 1 by {
        assert(v.counts.contains_key(other));
    }
}

/// Some session was attached with dialogs.
pub open spec fn some_dialogs(by_session: Option<TextMap<TextSet>>) -> bool {
    match by_session {
        Some(by_session) => dialogs_in(by_session.entries@),
        None => false,
    }
}

/// Some session was attached with dialogs.
pub open spec fn dialogs_in(entries: Seq<(String, TextSet)>) -> bool {
    exists|i: int|
        0 <= i < entries.len() && (#[trigger] entries[i]).1@.contains_key("extension_ui"@)
}

/// What a client can do in a session.
pub open spec fn session_capabilities(client: DaemonSocketClient, id: Seq<char>) -> TextSet {
    match client.capabilities_by_active_session_id {
        Some(by_session) => if by_session@.contains_key(id) {
            by_session@[id]
        } else {
            client.capabilities
        },
        None => client.capabilities,
    }
}

/// Whether a client can show dialogs of a session.
pub open spec fn shows_dialogs(client: DaemonSocketClient, id: Seq<char>) -> bool {
    match client.capabilities_by_active_session_id {
        Some(by_session) => if by_session@.contains_key(id) {
            by_session@[id]@.contains_key("extension_ui"@)
        } else {
            client.supports_extension_ui
        },
        None => client.supports_extension_ui,
    }
}

fn any_dialogs(by_session: &TextMap<TextSet>) -> (r: bool)
    requires
        forall|i: int|
            0 <= i < by_session.entries@.len() ==> (#[trigger] by_session.entries@[i]).1.wf(),
    ensures
        r == some_dialogs(Some(*by_session)),
{
    let mut i: usize = 0;
    while i < by_session.entries.len()
        invariant
            i <= by_session.entries.len(),
            forall|j: int|
                0 <= j < by_session.entries@.len() ==> (#[trigger] by_session.entries@[j]).1.wf(),
            forall|j: int|
                0 <= j < i ==> !(#[trigger] by_session.entries@[j]).1@.contains_key(
                    "extension_ui"@,
                ),
        decreases by_session.entries.len() - i,
    {
        if by_session.entries[i].1.contains_key("extension_ui") {
            assert(by_session.entries@[i as int].1@.contains_key("extension_ui"@));
            assert(dialogs_in(by_session.entries@));
            return true;
        }
        i += 1;
    }
    false
}

impl DaemonClientHandle {
    pub open spec fn wf(self) -> bool {
        &&& self.state.wf()
        &&& self.snapshot_transfer_abort_controllers.wf()
        &&& self.snapshot_transfer_tails.wf()
    }

    /// What is under way for the client.
    pub open spec fn streaming(self) -> StreamingV {
        StreamingV {
            streaming: self.state.snapshot_streaming,
            backpressured: self.state.backpressured,
            sessions: map_or_empty(self.state.snapshot_active_session_ids),
            counts: map_or_empty(self.state.snapshot_active_session_counts),
            aborted: self.snapshot_transfer_abort_controllers@,
            tails: self.snapshot_transfer_tails@,
        }
    }

    /// All but what is under way for the client is as in another handle.
    pub open spec fn same_but_streaming(self, other: Self) -> bool {
        self == (DaemonClientHandle {
            state: DaemonSocketClient {
                snapshot_streaming: self.state.snapshot_streaming,
                backpressured: self.state.backpressured,
                snapshot_active_session_ids: self.state.snapshot_active_session_ids,
                snapshot_active_session_counts: self.state.snapshot_active_session_counts,
                ..other.state
            },
            snapshot_transfer_abort_controllers: self.snapshot_transfer_abort_controllers,
            snapshot_transfer_tails: self.snapshot_transfer_tails,
            ..other
        })
    }

    /// A client that has just connected.
    pub fn new(id: &str) -> (r: Self)
        ensures
            r.wf(),
            r.state.id@ == id@,
            r.state.authenticated is None,
            !r.state.supports_extension_ui,
            r.state.attached_active_session_ids@ == Map::<Seq<char>, ()>::empty(),
            r.state.capabilities_by_active_session_id is None,
            !r.catchup_running,
            !r.catchup_retry_timer,
            counted(r.streaming()),
            r.streaming().counts == Map::<Seq<char>, u32>::empty(),
            r.streaming().aborted == Map::<Seq<char>, bool>::empty(),
            r.frame_decoder.buffered@.len() == 0,
            r.writer.lines@.len() == 0,
            !r.writer.closed,
            !r.writer.abandoned,
    {
        DaemonClientHandle {
            state: DaemonSocketClient::new(id, false),
            writer: DaemonClientWriter::new(),
            catchup_running: false,
            catchup_retry_timer: false,
            snapshot_transfer_abort_controllers: TextMap::new(),
            snapshot_transfer_tails: TextMap::new(),
            frame_decoder: PrivateFrameDecoder::new(),
        }
    }

    pub fn id(&self) -> (r: String)
        ensures
            r@ == self.state.id@,
    {
        self.state.id.clone()
    }

    pub fn set_id(&mut self, id: &str)
        ensures
            final(self).state.id@ == id@,
            *final(self) == (DaemonClientHandle {
                state: DaemonSocketClient { id: final(self).state.id, ..old(self).state },
                ..*old(self)
            }),
    {
        self.state.id = id.to_owned();
    }

    pub fn authenticated(&self) -> (r: bool)
        ensures
            r == (self.state.authenticated == Some(true)),
    {
        match self.state.authenticated {
            Some(authenticated) => authenticated,
            None => false,
        }
    }

    pub fn set_authenticated(&mut self, role: &str)
        ensures
            final(self).state.authenticated == Some(true),
            json::opt_view(final(self).state.authentication_role) == Some(role@),
            *final(self) == (DaemonClientHandle {
                state: DaemonSocketClient {
                    authenticated: Some(true),
                    authentication_role: final(self).state.authentication_role,
                    ..old(self).state
                },
                ..*old(self)
            }),
    {
        self.state.authenticated = Some(true);
        self.state.authentication_role = Some(role.to_owned());
    }

    /// What the client can do in a session.
    pub fn capabilities_for_session(&self, active_session_id: &str) -> (r: &TextSet)
        requires
            self.wf(),
        ensures
            *r == session_capabilities(self.state, active_session_id@),
    {
        match &self.state.capabilities_by_active_session_id {
            Some(by_session) => match by_session.get(active_session_id) {
                Some(capabilities) => capabilities,
                None => &self.state.capabilities,
            },
            None => &self.state.capabilities,
        }
    }

    /// Whether the client can show dialogs of a session.
    pub fn supports_extension_ui_for_session(&self, active_session_id: &str) -> (r: bool)
        requires
            self.wf(),
        ensures
            r == shows_dialogs(self.state, active_session_id@),
    {
        match &self.state.capabilities_by_active_session_id {
            Some(by_session) => match by_session.position(active_session_id) {
                Some(i) => by_session.entries[i].1.contains_key("extension_ui"),
                None => self.state.supports_extension_ui,
            },
            None => self.state.supports_extension_ui,
        }
    }

    pub fn snapshot_streaming(&self) -> (r: bool)
        ensures
            r == (self.state.snapshot_streaming == Some(true)),
    {
        match self.state.snapshot_streaming {
            Some(streaming) => streaming,
            None => false,
        }
    }

    pub fn set_snapshot_streaming(&mut self, value: bool)
        ensures
            *final(self) == (DaemonClientHandle {
                state: DaemonSocketClient { snapshot_streaming: Some(value), ..old(self).state },
                ..*old(self)
            }),
    {
        self.state.snapshot_streaming = Some(value);
    }

    pub fn is_backpressured(&self) -> (r: bool)
        ensures
            r == (self.state.backpressured == Some(true)),
    {
        match self.state.backpressured {
            Some(backpressured) => backpressured,
            None => false,
        }
    }

    pub fn set_backpressured(&mut self, value: bool)
        ensures
            *final(self) == (DaemonClientHandle {
                state: DaemonSocketClient { backpressured: Some(value), ..old(self).state },
                ..*old(self)
            }),
    {
        self.state.backpressured = Some(value);
    }

    /// The sessions that the client is attached to.
    pub fn attached_active_session_ids(&self) -> (r: Vec<String>)
        ensures
            forall|id: Seq<char>|
                text::holds_text(r@, id) == #[trigger] self.state.attached_active_session_ids@.contains_key(
                    id,
                ),
    {
        let ids = self.state.attached_active_session_ids.keys();
        let ghost kept = self.state.attached_active_session_ids;
        assert forall|id: Seq<char>|
            text::holds_text(ids@, id) == #[trigger] kept@.contains_key(id) by {
            if text::holds_text(ids@, id) {
                let i = choose|i: int| 0 <= i < ids@.len() && (#[trigger] ids@[i])@ == id;
                assert(kept.entries@[i].0@ == id);
            }
            if kept@.contains_key(id) {
                let i = text_map::key_index(kept.entries@, id);
                assert(ids@[i]@ == id);
            }
        }
        ids
    }
}

/// A client's capabilities, cut to those that are known.
pub fn normalize_client_capabilities(
    capabilities: Option<&TextSet>,
    supports_extension_ui: Option<bool>,
    defaults: &TextSet,
    supported: &Vec<String>,
) -> (r: TextSet)
    requires
        defaults.wf(),
        capabilities matches Some(capabilities) ==> capabilities.wf(),
    ensures
        r.wf(),
        forall|name: Seq<char>| #[trigger]
            r@.contains_key(name) <==> {
                ||| text::holds_text(supported@, name) && (match capabilities {
                    Some(capabilities) => *capabilities,
                    None => *defaults,
                })@.contains_key(name)
                ||| supports_extension_ui == Some(true) && name == "extension_ui"@
            },
{
    let given = match capabilities {
        Some(capabilities) => capabilities,
        None => defaults,
    };
    let mut normalized: TextSet = TextMap::new();
    let mut i: usize = 0;
    while i < given.entries.len()
        invariant
            i <= given.entries.len(),
            given.wf(),
            normalized.wf(),
            forall|name: Seq<char>| #[trigger]
                normalized@.contains_key(name) <==> text::holds_text(supported@, name) && exists|
                    j: int,
                | 0 <= j < i && (#[trigger] given.entries@[j]).0@ == name,
        decreases given.entries.len() - i,
    {
        let ghost before = normalized@;
        if contains_text(supported, &given.entries[i].0) {
            normalized.insert(given.entries[i].0.clone(), ());
        }
        proof {
            let here = given.entries@[i as int].0@;
            assert forall|name: Seq<char>| #[trigger]
                normalized@.contains_key(name) <==> text::holds_text(supported@, name) && exists|
                    j: int,
                | 0 <= j < i + 1 && (#[trigger] given.entries@[j]).0@ == name by {
                assert(before.contains_key(name) <==> text::holds_text(supported@, name) && exists|
                    j: int,
                | 0 <= j < i && (#[trigger] given.entries@[j]).0@ == name);
                if name == here {
                    assert(given.entries@[i as int].0@ == name);
                }
            }
        }
        i += 1;
    }
    let ghost cut = normalized@;
    proof {
        assert forall|name: Seq<char>| #[trigger] cut.contains_key(name) <==> text::holds_text(
            supported@,
            name,
        ) && given@.contains_key(name) by {
            if given@.contains_key(name) {
                let j = text_map::key_index(given.entries@, name);
                assert(given.entries@[j].0@ == name);
            }
            if exists|j: int| 0 <= j < given.entries@.len() && (#[trigger] given.entries@[j]).0@ == name {
                assert(text_map::has_key(given.entries@, name));
            }
        }
    }
    let dialogs: bool = match supports_extension_ui {
        Some(dialogs) => dialogs,
        None => false,
    };
    if dialogs {
        normalized.insert("extension_ui".to_owned(), ());
    }
    normalized
}

/// Notes what a client can do in a session. The client can show dialogs where it
/// can in some session.
pub fn set_daemon_client_session_capabilities(
    client: &mut DaemonClientHandle,
    active_session_id: &str,
    capabilities: TextSet,
)
    requires
        old(client).wf(),
        capabilities.wf(),
    ensures
        final(client).wf(),
        final(client).state.capabilities_by_active_session_id is Some,
        map_or_empty(final(client).state.capabilities_by_active_session_id) == map_or_empty(
            old(client).state.capabilities_by_active_session_id,
        ).insert(active_session_id@, capabilities),
        final(client).state.supports_extension_ui == some_dialogs(
            final(client).state.capabilities_by_active_session_id,
        ),
        *final(client) == (DaemonClientHandle {
            state: DaemonSocketClient {
                capabilities_by_active_session_id: final(client).state.capabilities_by_active_session_id,
                supports_extension_ui: final(client).state.supports_extension_ui,
                ..old(client).state
            },
            ..*old(client)
        }),
{
    let mut by_session = match client.state.capabilities_by_active_session_id.take() {
        Some(by_session) => by_session,
        None => TextMap::new(),
    };
    let ghost before = by_session;
    by_session.insert(active_session_id.to_owned(), capabilities);
    proof {
        assert forall|i: int| 0 <= i < by_session.entries@.len() implies (
        #[trigger] by_session.entries@[i]).1.wf() by {
            by_session.entry_at(i);
            let key = by_session.entries@[i].0@;
            if key != active_session_id@ {
                let j = text_map::key_index(before.entries@, key);
                before.entry_at(j);
                assert(before.entries@[j].1.wf());
            }
        }
    }
    client.state.supports_extension_ui = any_dialogs(&by_session);
    client.state.capabilities_by_active_session_id = Some(by_session);
}

/// Forgets what a client can do in a session.
pub fn remove_daemon_client_session_capabilities(
    client: &mut DaemonClientHandle,
    active_session_id: &str,
)
    requires
        old(client).wf(),
    ensures
        final(client).wf(),
        final(client).state.capabilities_by_active_session_id is Some == old(client).state.capabilities_by_active_session_id is Some,
        map_or_empty(final(client).state.capabilities_by_active_session_id) == map_or_empty(
            old(client).state.capabilities_by_active_session_id,
        ).remove(active_session_id@),
        final(client).state.supports_extension_ui == some_dialogs(
            final(client).state.capabilities_by_active_session_id,
        ),
        *final(client) == (DaemonClientHandle {
            state: DaemonSocketClient {
                capabilities_by_active_session_id: final(client).state.capabilities_by_active_session_id,
                supports_extension_ui: final(client).state.supports_extension_ui,
                ..old(client).state
            },
            ..*old(client)
        }),
{
    match client.state.capabilities_by_active_session_id.take() {
        Some(mut by_session) => {
            let ghost before = by_session;
            by_session.remove(active_session_id);
            proof {
                assert forall|i: int| 0 <= i < by_session.entries@.len() implies (
                #[trigger] by_session.entries@[i]).1.wf() by {
                    by_session.entry_at(i);
                    let key = by_session.entries@[i].0@;
                    let j = text_map::key_index(before.entries@, key);
                    before.entry_at(j);
                    assert(before.entries@[j].1.wf());
                }
            }
            client.state.supports_extension_ui = any_dialogs(&by_session);
            client.state.capabilities_by_active_session_id = Some(by_session);
        },
        None => {
            client.state.supports_extension_ui = false;
            assert(Map::<Seq<char>, TextSet>::empty().remove(active_session_id@) =~= Map::<
                Seq<char>,
                TextSet,
            >::empty());
        },
    }
}

/// Takes the dialogs of a session that wait for an answer, all of which are to be
/// cancelled.
pub fn cancel_pending_extension_ui_requests(state: &mut ActiveSessionState) -> (r: Vec<String>)
    ensures
        final(state).wf(),
        final(state).extension_ui_requests@ == Map::<Seq<char>, ()>::empty(),
        *final(state) == (ActiveSessionState {
            extension_ui_requests: final(state).extension_ui_requests,
            ..*old(state)
        }),
        r@.len() == old(state).extension_ui_requests.entries@.len(),
        forall|i: int|
            0 <= i < r@.len() ==> (#[trigger] r@[i])@ == old(state).extension_ui_requests.entries@[i].0@,
{
    let pending = state.extension_ui_requests.keys();
    state.extension_ui_requests = TextMap::new();
    pending
}

/// The ids other than this one, in their order.
pub open spec fn others(ids: Seq<Seq<char>>, id: Seq<char>) -> Seq<Seq<char>>
    decreases ids.len(),
{
    if ids.len() == 0 {
        Seq::empty()
    } else if ids.last() == id {
        others(ids.drop_last(), id)
    } else {
        others(ids.drop_last(), id).push(ids.last())
    }
}

fn remove_id(ids: &Vec<String>, id: &str) -> (r: Vec<String>)
    ensures
        text::texts(r@) == others(text::texts(ids@), id@),
{
    let ghost all = text::texts(ids@);
    let mut kept: Vec<String> = Vec::new();
    let mut i: usize = 0;
    assert(all.take(0) =~= Seq::empty());
    assert(text::texts(kept@) =~= Seq::<Seq<char>>::empty());
    while i < ids.len()
        invariant
            i <= ids.len(),
            all == text::texts(ids@),
            text::texts(kept@) == others(all.take(i as int), id@),
        decreases ids.len() - i,
    {
        assert(all.take(i + 1).drop_last() =~= all.take(i as int));
        assert(all.take(i + 1).last() == ids@[i as int]@);
        if !same(&ids[i], id) {
            let ghost before = text::texts(kept@);
            kept.push(ids[i].clone());
            assert(text::texts(kept@) =~= before.push(ids@[i as int]@));
        }
        i += 1;
    }
    assert(all.take(i as int) =~= all);
    kept
}

/// Takes a client off a session. Where it was the last one, the dialogs that wait
/// are to be cancelled: their ids are handed back.
pub fn detach_client_from_active_session(
    client: &mut DaemonClientHandle,
    state: &mut ActiveSessionState,
) -> (r: Vec<String>)
    requires
        old(client).wf(),
        old(state).wf(),
    ensures
        final(client).wf(),
        final(state).wf(),
        text::texts(final(state).clients@) == others(
            text::texts(old(state).clients@),
            old(client).state.id@,
        ),
        *final(state) == (ActiveSessionState {
            clients: final(state).clients,
            extension_ui_requests: final(state).extension_ui_requests,
            ..*old(state)
        }),
        final(state).clients@.len() > 0 ==> r@.len() == 0 && final(state).extension_ui_requests
            == old(state).extension_ui_requests,
        final(state).clients@.len() == 0 ==> {
            &&& final(state).extension_ui_requests@ == Map::<Seq<char>, ()>::empty()
            &&& r@.len() == old(state).extension_ui_requests.entries@.len()
            &&& forall|i: int|
                0 <= i < r@.len() ==> (#[trigger] r@[i])@ == old(state).extension_ui_requests.entries@[i].0@
        },
        final(client).state.attached_active_session_ids@ == old(client).state.attached_active_session_ids@.remove(old(state).active_session_id@),
        map_or_empty(final(client).state.capabilities_by_active_session_id) == map_or_empty(
            old(client).state.capabilities_by_active_session_id,
        ).remove(old(state).active_session_id@),
        final(client).state.supports_extension_ui == some_dialogs(
            final(client).state.capabilities_by_active_session_id,
        ),
        *final(client) == (DaemonClientHandle {
            state: DaemonSocketClient {
                attached_active_session_ids: final(client).state.attached_active_session_ids,
                capabilities_by_active_session_id: final(client).state.capabilities_by_active_session_id,
                supports_extension_ui: final(client).state.supports_extension_ui,
                ..old(client).state
            },
            ..*old(client)
        }),
{
    state.clients = remove_id(&state.clients, &client.state.id);
    client.state.attached_active_session_ids.remove(&state.active_session_id);
    remove_daemon_client_session_capabilities(client, &state.active_session_id);
    if state.clients.len() == 0 {
        cancel_pending_extension_ui_requests(state)
    } else {
        Vec::new()
    }
}

/// Notes that one more snapshot of a session is sent to a client. The result says
/// whether the transfer is a new one, which was not aborted yet.
pub fn mark_client_snapshot_streaming(
    client: &mut DaemonClientHandle,
    active_session_id: &str,
) -> (r: bool)
    requires
        old(client).wf(),
        old(client).streaming().counts.contains_key(active_session_id@) ==> old(client).streaming().counts[active_session_id@] < u32::MAX,
    ensures
        final(client).wf(),
        final(client).streaming() == marked(old(client).streaming(), active_session_id@),
        final(client).same_but_streaming(*old(client)),
        r == !(old(client).streaming().aborted.contains_key(active_session_id@) && !old(client).streaming().aborted[active_session_id@]),
{
    let ghost before = client.streaming();
    client.state.snapshot_streaming = Some(true);
    let mut ids = match client.state.snapshot_active_session_ids.take() {
        Some(ids) => ids,
        None => TextMap::new(),
    };
    ids.insert(active_session_id.to_owned(), ());
    client.state.snapshot_active_session_ids = Some(ids);
    let mut counts = match client.state.snapshot_active_session_counts.take() {
        Some(counts) => counts,
        None => TextMap::new(),
    };
    let count: u32 = match counts.get(active_session_id) {
        Some(count) => *count + 1,
        None => 1,
    };
    counts.insert(active_session_id.to_owned(), count);
    client.state.snapshot_active_session_counts = Some(counts);
    let running: bool = match client.snapshot_transfer_abort_controllers.get(active_session_id) {
        Some(aborted) => !*aborted,
        None => false,
    };
    if !running {
        client.snapshot_transfer_abort_controllers.insert(active_session_id.to_owned(), false);
    }
    assert(client.streaming() =~= marked(before, active_session_id@));
    !running
}

/// All transfers aborted, or that of one session.
pub open spec fn aborted(transfers: Map<Seq<char>, bool>, id: Option<Seq<char>>) -> Map<
    Seq<char>,
    bool,
> {
    match id {
        Some(id) => if transfers.contains_key(id) {
            transfers.insert(id, true)
        } else {
            transfers
        },
        None => transfers.map_values(|aborted: bool| true),
    }
}

/// Aborts the transfers of snapshots to a client: that of one session, or all.
pub fn abort_client_snapshot_streaming(
    client: &mut DaemonClientHandle,
    active_session_id: Option<&str>,
)
    requires
        old(client).wf(),
    ensures
        final(client).wf(),
        final(client).snapshot_transfer_abort_controllers@ == aborted(
            old(client).snapshot_transfer_abort_controllers@,
            json::opt_str_view(active_session_id),
        ),
        *final(client) == (DaemonClientHandle {
            snapshot_transfer_abort_controllers: final(client).snapshot_transfer_abort_controllers,
            ..*old(client)
        }),
{
    match active_session_id {
        Some(id) => {
            if client.snapshot_transfer_abort_controllers.contains_key(id) {
                client.snapshot_transfer_abort_controllers.insert(id.to_owned(), true);
            }
        },
        None => {
            let ghost before = client.snapshot_transfer_abort_controllers;
            let ids = client.snapshot_transfer_abort_controllers.keys();
            let mut i: usize = 0;
            while i < ids.len()
                invariant
                    i <= ids.len(),
                    client.wf(),
                    before.wf(),
                    ids@.len() == before.entries@.len(),
                    forall|j: int|
                        0 <= j < ids@.len() ==> (#[trigger] ids@[j])@ == before.entries@[j].0@,
                    client.snapshot_transfer_abort_controllers@.dom() == before@.dom(),
                    forall|j: int|
                        0 <= j < i ==> client.snapshot_transfer_abort_controllers@[(
                        #[trigger] ids@[j])@],
                    *client == (DaemonClientHandle {
                        snapshot_transfer_abort_controllers: client.snapshot_transfer_abort_controllers,
                        ..*old(client)
                    }),
                decreases ids.len() - i,
            {
                let ghost now = client.snapshot_transfer_abort_controllers@;
                proof {
                    before.entry_at(i as int);
                }
                client.snapshot_transfer_abort_controllers.insert(ids[i].clone(), true);
                assert(client.snapshot_transfer_abort_controllers@.dom() =~= now.dom());
                i += 1;
            }
            proof {
                let after = client.snapshot_transfer_abort_controllers@;
                assert forall|id: Seq<char>| #[trigger] after.contains_key(id) implies after[id] by {
                    let j = text_map::key_index(before.entries@, id);
                    assert(before@.contains_key(id));
                    assert(ids@[j]@ == id);
                }
                assert(after =~= aborted(before@, None));
            }
        },
    }
}

/// Notes that one snapshot of a session less is sent to a client. After the last
/// one, the client is not held back any more.
pub fn finish_client_snapshot_streaming(client: &mut DaemonClientHandle, active_session_id: &str)
    requires
        old(client).wf(),
    ensures
        final(client).wf(),
        final(client).streaming() == finished(old(client).streaming(), active_session_id@),
        final(client).same_but_streaming(*old(client)),
{
    let ghost before = client.streaming();
    let count: u32 = match &client.state.snapshot_active_session_counts {
        Some(counts) => match counts.get(active_session_id) {
            Some(count) => *count,
            None => 1,
        },
        None => 1,
    };
    if count > 1 {
        if let Some(mut counts) = client.state.snapshot_active_session_counts.take() {
            counts.insert(active_session_id.to_owned(), count - 1);
            client.state.snapshot_active_session_counts = Some(counts);
        }
    } else {
        if let Some(mut counts) = client.state.snapshot_active_session_counts.take() {
            counts.remove(active_session_id);
            client.state.snapshot_active_session_counts = Some(counts);
        }
        if let Some(mut ids) = client.state.snapshot_active_session_ids.take() {
            ids.remove(active_session_id);
            client.state.snapshot_active_session_ids = Some(ids);
        }
        client.snapshot_transfer_abort_controllers.remove(active_session_id);
        client.snapshot_transfer_tails.remove(active_session_id);
    }
    let streaming: bool = match &client.state.snapshot_active_session_ids {
        Some(ids) => !ids.is_empty(),
        None => false,
    };
    client.state.snapshot_streaming = Some(streaming);
    if !streaming {
        client.state.backpressured = Some(false);
    }
    proof {
        let none = Map::<Seq<char>, ()>::empty();
        assert(none.remove(active_session_id@) =~= none);
        assert(Map::<Seq<char>, u32>::empty().remove(active_session_id@) =~= Map::<
            Seq<char>,
            u32,
        >::empty());
        let ids = map_or_empty(client.state.snapshot_active_session_ids);
        assert(streaming == (ids != none));
    }
    assert(client.streaming() =~= finished(before, active_session_id@));
}

/// Whether a frame goes to a client: a dialog only goes where it can be shown.
pub fn should_send_daemon_outbound_to_client(
    client: &DaemonClientHandle,
    message: &DaemonOutbound,
) -> (r: bool)
    requires
        client.wf(),
    ensures
        r == match *message {
            DaemonOutbound::ExtensionUiRequest { active_session_id, method, .. } =>
                !daemon_extension_binding::is_dialog(method@) || shows_dialogs(
                client.state,
                active_session_id@,
            ),
            _ => true,
        },
{
    match message {
        DaemonOutbound::ExtensionUiRequest { active_session_id, method, .. } =>
            !is_daemon_dialog_extension_ui_request(method)
            || client.supports_extension_ui_for_session(active_session_id),
        _ => true,
    }
}

/// The session is a child of another live one.
pub open spec fn is_child_of(state: ActiveSessionState, parent: Seq<char>) -> bool {
    &&& state.active_session_id@ != parent
    &&& state.runtime.metadata matches Some(metadata) && json::opt_view(
        metadata.parent_active_session_id,
    ) == Some(parent)
}

/// The sessions that are children of another live one, in their order.
pub open spec fn children_of(
    sessions: Seq<(String, ActiveSessionState)>,
    parent: Seq<char>,
) -> Seq<ActiveSessionState>
    decreases sessions.len(),
{
    if sessions.len() == 0 {
        Seq::empty()
    } else if is_child_of(sessions.last().1, parent) {
        children_of(sessions.drop_last(), parent).push(sessions.last().1)
    } else {
        children_of(sessions.drop_last(), parent)
    }
}

/// The sessions that are children of another live one.
pub fn get_child_active_session_states<'a>(
    sessions: &'a TextMap<ActiveSessionState>,
    parent_active_session_id: &str,
) -> (r: Vec<&'a ActiveSessionState>)
    ensures
        Seq::new(r@.len(), |i: int| *r@[i]) == children_of(
            sessions.entries@,
            parent_active_session_id@,
        ),
{
    let ghost all = sessions.entries@;
    let mut found: Vec<&'a ActiveSessionState> = Vec::new();
    let mut i: usize = 0;
    assert(all.take(0) =~= Seq::empty());
    assert(Seq::new(found@.len(), |j: int| *found@[j]) =~= Seq::<ActiveSessionState>::empty());
    while i < sessions.entries.len()
        invariant
            i <= sessions.entries.len(),
            all == sessions.entries@,
            Seq::new(found@.len(), |j: int| *found@[j]) == children_of(
                all.take(i as int),
                parent_active_session_id@,
            ),
        decreases sessions.entries.len() - i,
    {
        assert(all.take(i + 1).drop_last() =~= all.take(i as int));
        assert(all.take(i + 1).last() == all[i as int]);
        let state = &sessions.entries[i].1;
        let child: bool = match &state.runtime.metadata {
            Some(metadata) => is_some_text(
                &metadata.parent_active_session_id,
                parent_active_session_id,
            ),
            None => false,
        };
        if child && !same(&state.active_session_id, parent_active_session_id) {
            let ghost before = Seq::new(found@.len(), |j: int| *found@[j]);
            found.push(state);
            assert(Seq::new(found@.len(), |j: int| *found@[j]) =~= before.push(*state));
        }
        i += 1;
    }
    assert(all.take(i as int) =~= all);
    found
}

/// What a worker last reported of its agents.
pub struct WorkerRosterReporterState {
    pub last_composed: TextMap<WorkerRosterEntry>,
    pub last_composed_json: TextMap<String>,
    pub queued_children: TextMap<WorkerRosterEntry>,
    /// The agents that are to be removed, each with its session; an agent that
    /// comes back is not removed.
    pub removed_agent_ids: TextMap<Option<String>>,
    pub snapshot_pending: bool,
}

impl Default for WorkerRosterReporterState {
    fn default() -> (r: Self)
        ensures
            r.last_composed@ == Map::<Seq<char>, WorkerRosterEntry>::empty(),
            r.last_composed_json@ == Map::<Seq<char>, String>::empty(),
            r.queued_children@ == Map::<Seq<char>, WorkerRosterEntry>::empty(),
            r.removed_agent_ids@ == Map::<Seq<char>, Option<String>>::empty(),
            !r.snapshot_pending,
    {
        WorkerRosterReporterState {
            last_composed: TextMap::new(),
            last_composed_json: TextMap::new(),
            queued_children: TextMap::new(),
            removed_agent_ids: TextMap::new(),
            snapshot_pending: false,
        }
    }
}

} // verus!
