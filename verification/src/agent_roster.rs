//! The roster of agents: one status formula for every surface, and the store that
//! the supervisor keeps of all agents.

use vstd::prelude::*;

use crate::assistant_message::clone_members;
use crate::json;
use crate::json::{Json, JsonV, copied, owned};
use crate::path_facts;
use crate::path_facts::{PathFacts, lexical_resolve};
use crate::text;
use crate::text::{cat3, is_some_text, same};
use crate::text_map::TextMap;

verus! {

/// How an agent is shown.
#[derive(Debug, Clone, Copy, PartialEq, Eq, Structural)]
pub enum AgentRosterStatus {
    Running,
    Idle,
    Inactive,
}

impl AgentRosterStatus {
    /// The name of the status.
    pub open spec fn name(self) -> Seq<char> {
        match self {
            AgentRosterStatus::Running => "running"@,
            AgentRosterStatus::Idle => "idle"@,
            AgentRosterStatus::Inactive => "inactive"@,
        }
    }

    /// The status that has this name.
    pub open spec fn named(name: Seq<char>) -> Option<Self> {
        if name == "running"@ {
            Some(AgentRosterStatus::Running)
        } else if name == "idle"@ {
            Some(AgentRosterStatus::Idle)
        } else if name == "inactive"@ {
            Some(AgentRosterStatus::Inactive)
        } else {
            None
        }
    }

    pub fn as_str(self) -> (r: &'static str)
        ensures
            r@ == self.name(),
    {
        match self {
            AgentRosterStatus::Running => "running",
            AgentRosterStatus::Idle => "idle",
            AgentRosterStatus::Inactive => "inactive",
        }
    }
}

/// The name of a status stands for that status.
pub proof fn roster_status_is_read_back(status: AgentRosterStatus)
    ensures
        AgentRosterStatus::named(status.name()) == Some(status),
{
    reveal_strlit("running");
    reveal_strlit("idle");
    reveal_strlit("inactive");
    assert("running"@.len() == 7 && "idle"@.len() == 4 && "inactive"@.len() == 8);
}

/// What the status of an agent depends on.
#[derive(Debug, Clone, Copy, PartialEq, Eq, Structural)]
pub struct AgentStatusInput {
    /// The agent is live.
    pub resident: bool,
    /// The agent was admitted, but its session is not there yet.
    pub queued_child: bool,
    /// The agent works: it streams or runs tools.
    pub busy: bool,
}

/// The status of an agent.
pub open spec fn agent_status(input: AgentStatusInput) -> AgentRosterStatus {
    if input.queued_child || (input.resident && input.busy) {
        AgentRosterStatus::Running
    } else if input.resident {
        AgentRosterStatus::Idle
    } else {
        AgentRosterStatus::Inactive
    }
}

/// The status of an agent.
pub fn classify_agent_status(input: AgentStatusInput) -> (r: AgentRosterStatus)
    ensures
        r == agent_status(input),
{
    if input.queued_child {
        return AgentRosterStatus::Running;
    }
    if !input.resident {
        return AgentRosterStatus::Inactive;
    }
    if input.busy {
        AgentRosterStatus::Running
    } else {
        AgentRosterStatus::Idle
    }
}

/// Whether a session must not be taken down: it works, or its children do.
pub fn is_session_summary_busy(is_session_active: bool, has_running_rlm_children: Option<bool>) -> (r:
    bool)
    ensures
        r == (is_session_active || has_running_rlm_children == Some(true)),
{
    is_session_active || match has_running_rlm_children {
        Some(running) => running,
        None => false,
    }
}

/// What the status of a session depends on.
#[derive(Debug, PartialEq)]
pub struct RosterSummaryView {
    pub active_session_id: Option<String>,
    pub activity: Option<String>,
    pub is_session_active: Option<bool>,
}

/// The session works: its activity says so, or, where it says neither that it
/// works nor that it idles, the session is active.
pub open spec fn works(activity: Option<Seq<char>>, is_session_active: Option<bool>) -> bool {
    if activity == Some("working"@) {
        true
    } else if activity == Some("idle"@) {
        false
    } else {
        is_session_active == Some(true)
    }
}

/// The status of a session.
pub open spec fn session_status(
    resident: bool,
    activity: Option<Seq<char>>,
    is_session_active: Option<bool>,
    queued_child: bool,
) -> AgentRosterStatus {
    agent_status(
        AgentStatusInput { resident, queued_child, busy: works(activity, is_session_active) },
    )
}

/// The status of a session.
pub fn classify_session_roster_status(summary: &RosterSummaryView, queued_child: bool) -> (r:
    AgentRosterStatus)
    ensures
        r == session_status(
            summary.active_session_id is Some,
            json::opt_view(summary.activity),
            summary.is_session_active,
            queued_child,
        ),
{
    let active: bool = match summary.is_session_active {
        Some(active) => active,
        None => false,
    };
    proof {
        reveal_strlit("working");
        reveal_strlit("idle");
        assert("working"@.len() == 7 && "idle"@.len() == 4);
    }
    let busy: bool = if is_some_text(&summary.activity, "working") {
        true
    } else if is_some_text(&summary.activity, "idle") {
        false
    } else {
        active
    };
    classify_agent_status(
        AgentStatusInput { resident: summary.active_session_id.is_some(), queued_child, busy },
    )
}

/// A truth value that may be absent, as a document.
pub open spec fn flag_value(flag: Option<bool>) -> Option<JsonV> {
    match flag {
        Some(flag) => Some(JsonV::Bool(flag)),
        None => None,
    }
}

/// An integer that may be absent, as a document.
pub open spec fn number_value(n: Option<i64>) -> Option<JsonV> {
    match n {
        Some(n) => Some(json::int_value(n as int)),
        None => None,
    }
}

/// A status that may be absent, as a document.
pub open spec fn status_name_value(status: Option<AgentRosterStatus>) -> Option<JsonV> {
    match status {
        Some(status) => Some(JsonV::Str(status.name())),
        None => None,
    }
}

fn add_flag(pairs: &mut Vec<(String, Json)>, key: &str, flag: Option<bool>)
    ensures
        json::members(final(pairs)@) == json::push_opt(
            json::members(old(pairs)@),
            key@,
            flag_value(flag),
        ),
{
    if let Some(flag) = flag {
        json::add_member(pairs, key, Json::Bool(flag));
    }
}

fn add_number(pairs: &mut Vec<(String, Json)>, key: &str, n: Option<i64>)
    ensures
        json::members(final(pairs)@) == json::push_opt(
            json::members(old(pairs)@),
            key@,
            number_value(n),
        ),
{
    if let Some(n) = n {
        json::add_member(pairs, key, json::integer(n));
    }
}

fn add_status(pairs: &mut Vec<(String, Json)>, key: &str, status: Option<AgentRosterStatus>)
    ensures
        json::members(final(pairs)@) == json::push_opt(
            json::members(old(pairs)@),
            key@,
            status_name_value(status),
        ),
{
    if let Some(status) = status {
        json::add_text(pairs, key, status.as_str());
    }
}

/// The status at a key.
pub open spec fn status_at(value: JsonV, key: Seq<char>) -> Option<AgentRosterStatus> {
    match value.str_at(key) {
        Some(name) => AgentRosterStatus::named(name),
        None => None,
    }
}

/// The member is the name of a status, or absent, or null.
pub open spec fn optional_status(value: JsonV, key: Seq<char>) -> bool {
    match value.get(key) {
        None => true,
        Some(JsonV::Null) => true,
        Some(_) => status_at(value, key) is Some,
    }
}

fn read_status_at(value: &Json, key: &str) -> (r: Option<AgentRosterStatus>)
    ensures
        r == status_at(value@, key@),
{
    match value.str_at(key) {
        Some(name) => if same(name, "running") {
            Some(AgentRosterStatus::Running)
        } else if same(name, "idle") {
            Some(AgentRosterStatus::Idle)
        } else if same(name, "inactive") {
            Some(AgentRosterStatus::Inactive)
        } else {
            None
        },
        None => None,
    }
}

fn is_optional_status(value: &Json, key: &str) -> (r: bool)
    ensures
        r == optional_status(value@, key@),
{
    match value.get(key) {
        None => true,
        Some(Json::Null) => true,
        Some(_) => read_status_at(value, key).is_some(),
    }
}

/// The slim summary of a session that roster entries carry.
#[derive(Debug, PartialEq)]
pub struct RosterSessionSummary {
    pub id: String,
    pub lifecycle: String,
    pub activity: String,
    pub is_session_active: bool,
    pub has_active_heartbeat: Option<bool>,
    pub has_registered_heartbeat: Option<bool>,
    pub has_registered_cron_job: Option<bool>,
    pub last_activity_at: Option<String>,
    pub runtime_kind: Option<String>,
    pub rlm_depth: Option<i64>,
    pub active_session_id: Option<String>,
    pub session_id: String,
    pub session_file: Option<String>,
    pub session_name: Option<String>,
    pub cwd: String,
    pub model: Option<Json>,
    pub thinking_level: Option<String>,
    pub is_streaming: bool,
    pub is_compacting: bool,
    pub is_bash_running: Option<bool>,
    pub has_running_rlm_children: Option<bool>,
    pub usage: Option<Json>,
    pub is_running_tools: Option<bool>,
    pub attached_clients: i64,
    pub direct_attached_clients: Option<i64>,
    pub message_count: i64,
    pub unfinished_action_count: Option<i64>,
    pub session_actions: Option<Json>,
    pub streaming_message: Option<Json>,
    pub created: Option<String>,
    pub modified: Option<String>,
    pub first_message: Option<String>,
    pub parent_active_session_id: Option<String>,
    pub parent_session_id: Option<String>,
    pub parent_session_path: Option<String>,
    pub rlm_child_id: Option<String>,
    pub replied_since_task: Option<bool>,
    pub rlm_parent_node_id: Option<String>,
    pub spawn_code: Option<String>,
    pub model_fallback_message: Option<String>,
    pub diagnostics: Option<Json>,
    pub summary: Option<String>,
    pub task_state: Option<String>,
    pub roster_status: Option<AgentRosterStatus>,
    pub status_label: Option<String>,
    pub last_heard_from_at: Option<String>,
    pub worker_state: Option<String>,
    pub worker_pid: Option<i64>,
    /// Members that are not known here, kept so that nothing is lost.
    pub extra: Vec<(String, Json)>,
}

/// What a summary says.
#[verifier::ext_equal]
pub struct SummaryV {
    pub id: Seq<char>,
    pub lifecycle: Seq<char>,
    pub activity: Seq<char>,
    pub is_session_active: bool,
    pub has_active_heartbeat: Option<bool>,
    pub has_registered_heartbeat: Option<bool>,
    pub has_registered_cron_job: Option<bool>,
    pub last_activity_at: Option<Seq<char>>,
    pub runtime_kind: Option<Seq<char>>,
    pub rlm_depth: Option<i64>,
    pub active_session_id: Option<Seq<char>>,
    pub session_id: Seq<char>,
    pub session_file: Option<Seq<char>>,
    pub session_name: Option<Seq<char>>,
    pub cwd: Seq<char>,
    pub model: Option<JsonV>,
    pub thinking_level: Option<Seq<char>>,
    pub is_streaming: bool,
    pub is_compacting: bool,
    pub is_bash_running: Option<bool>,
    pub has_running_rlm_children: Option<bool>,
    pub usage: Option<JsonV>,
    pub is_running_tools: Option<bool>,
    pub attached_clients: i64,
    pub direct_attached_clients: Option<i64>,
    pub message_count: i64,
    pub unfinished_action_count: Option<i64>,
    pub session_actions: Option<JsonV>,
    pub streaming_message: Option<JsonV>,
    pub created: Option<Seq<char>>,
    pub modified: Option<Seq<char>>,
    pub first_message: Option<Seq<char>>,
    pub parent_active_session_id: Option<Seq<char>>,
    pub parent_session_id: Option<Seq<char>>,
    pub parent_session_path: Option<Seq<char>>,
    pub rlm_child_id: Option<Seq<char>>,
    pub replied_since_task: Option<bool>,
    pub rlm_parent_node_id: Option<Seq<char>>,
    pub spawn_code: Option<Seq<char>>,
    pub model_fallback_message: Option<Seq<char>>,
    pub diagnostics: Option<JsonV>,
    pub summary: Option<Seq<char>>,
    pub task_state: Option<Seq<char>>,
    pub roster_status: Option<AgentRosterStatus>,
    pub status_label: Option<Seq<char>>,
    pub last_heard_from_at: Option<Seq<char>>,
    pub worker_state: Option<Seq<char>>,
    pub worker_pid: Option<i64>,
    pub extra: Seq<(Seq<char>, JsonV)>,
}

impl View for RosterSessionSummary {
    type V = SummaryV;

    open spec fn view(&self) -> SummaryV {
        SummaryV {
            id: self.id@,
            lifecycle: self.lifecycle@,
            activity: self.activity@,
            is_session_active: self.is_session_active,
            has_active_heartbeat: self.has_active_heartbeat,
            has_registered_heartbeat: self.has_registered_heartbeat,
            has_registered_cron_job: self.has_registered_cron_job,
            last_activity_at: json::opt_view(self.last_activity_at),
            runtime_kind: json::opt_view(self.runtime_kind),
            rlm_depth: self.rlm_depth,
            active_session_id: json::opt_view(self.active_session_id),
            session_id: self.session_id@,
            session_file: json::opt_view(self.session_file),
            session_name: json::opt_view(self.session_name),
            cwd: self.cwd@,
            model: json::opt_json(self.model),
            thinking_level: json::opt_view(self.thinking_level),
            is_streaming: self.is_streaming,
            is_compacting: self.is_compacting,
            is_bash_running: self.is_bash_running,
            has_running_rlm_children: self.has_running_rlm_children,
            usage: json::opt_json(self.usage),
            is_running_tools: self.is_running_tools,
            attached_clients: self.attached_clients,
            direct_attached_clients: self.direct_attached_clients,
            message_count: self.message_count,
            unfinished_action_count: self.unfinished_action_count,
            session_actions: json::opt_json(self.session_actions),
            streaming_message: json::opt_json(self.streaming_message),
            created: json::opt_view(self.created),
            modified: json::opt_view(self.modified),
            first_message: json::opt_view(self.first_message),
            parent_active_session_id: json::opt_view(self.parent_active_session_id),
            parent_session_id: json::opt_view(self.parent_session_id),
            parent_session_path: json::opt_view(self.parent_session_path),
            rlm_child_id: json::opt_view(self.rlm_child_id),
            replied_since_task: self.replied_since_task,
            rlm_parent_node_id: json::opt_view(self.rlm_parent_node_id),
            spawn_code: json::opt_view(self.spawn_code),
            model_fallback_message: json::opt_view(self.model_fallback_message),
            diagnostics: json::opt_json(self.diagnostics),
            summary: json::opt_view(self.summary),
            task_state: json::opt_view(self.task_state),
            roster_status: self.roster_status,
            status_label: json::opt_view(self.status_label),
            last_heard_from_at: json::opt_view(self.last_heard_from_at),
            worker_state: json::opt_view(self.worker_state),
            worker_pid: self.worker_pid,
            extra: json::members(self.extra@),
        }
    }
}

impl Clone for RosterSessionSummary {
    fn clone(&self) -> (r: Self)
        ensures
            r@ == self@,
    {
        RosterSessionSummary {
            id: self.id.clone(),
            lifecycle: self.lifecycle.clone(),
            activity: self.activity.clone(),
            is_session_active: self.is_session_active,
            has_active_heartbeat: self.has_active_heartbeat,
            has_registered_heartbeat: self.has_registered_heartbeat,
            has_registered_cron_job: self.has_registered_cron_job,
            last_activity_at: self.last_activity_at.clone(),
            runtime_kind: self.runtime_kind.clone(),
            rlm_depth: self.rlm_depth,
            active_session_id: self.active_session_id.clone(),
            session_id: self.session_id.clone(),
            session_file: self.session_file.clone(),
            session_name: self.session_name.clone(),
            cwd: self.cwd.clone(),
            model: copied(self.model.as_ref()),
            thinking_level: self.thinking_level.clone(),
            is_streaming: self.is_streaming,
            is_compacting: self.is_compacting,
            is_bash_running: self.is_bash_running,
            has_running_rlm_children: self.has_running_rlm_children,
            usage: copied(self.usage.as_ref()),
            is_running_tools: self.is_running_tools,
            attached_clients: self.attached_clients,
            direct_attached_clients: self.direct_attached_clients,
            message_count: self.message_count,
            unfinished_action_count: self.unfinished_action_count,
            session_actions: copied(self.session_actions.as_ref()),
            streaming_message: copied(self.streaming_message.as_ref()),
            created: self.created.clone(),
            modified: self.modified.clone(),
            first_message: self.first_message.clone(),
            parent_active_session_id: self.parent_active_session_id.clone(),
            parent_session_id: self.parent_session_id.clone(),
            parent_session_path: self.parent_session_path.clone(),
            rlm_child_id: self.rlm_child_id.clone(),
            replied_since_task: self.replied_since_task,
            rlm_parent_node_id: self.rlm_parent_node_id.clone(),
            spawn_code: self.spawn_code.clone(),
            model_fallback_message: self.model_fallback_message.clone(),
            diagnostics: copied(self.diagnostics.as_ref()),
            summary: self.summary.clone(),
            task_state: self.task_state.clone(),
            roster_status: self.roster_status,
            status_label: self.status_label.clone(),
            last_heard_from_at: self.last_heard_from_at.clone(),
            worker_state: self.worker_state.clone(),
            worker_pid: self.worker_pid,
            extra: clone_members(&self.extra),
        }
    }
}

/// A summary in which nothing is filled in.
pub open spec fn blank_summary() -> SummaryV {
    SummaryV {
        id: Seq::empty(),
        lifecycle: Seq::empty(),
        activity: Seq::empty(),
        is_session_active: false,
        has_active_heartbeat: None,
        has_registered_heartbeat: None,
        has_registered_cron_job: None,
        last_activity_at: None,
        runtime_kind: None,
        rlm_depth: None,
        active_session_id: None,
        session_id: Seq::empty(),
        session_file: None,
        session_name: None,
        cwd: Seq::empty(),
        model: None,
        thinking_level: None,
        is_streaming: false,
        is_compacting: false,
        is_bash_running: None,
        has_running_rlm_children: None,
        usage: None,
        is_running_tools: None,
        attached_clients: 0,
        direct_attached_clients: None,
        message_count: 0,
        unfinished_action_count: None,
        session_actions: None,
        streaming_message: None,
        created: None,
        modified: None,
        first_message: None,
        parent_active_session_id: None,
        parent_session_id: None,
        parent_session_path: None,
        rlm_child_id: None,
        replied_since_task: None,
        rlm_parent_node_id: None,
        spawn_code: None,
        model_fallback_message: None,
        diagnostics: None,
        summary: None,
        task_state: None,
        roster_status: None,
        status_label: None,
        last_heard_from_at: None,
        worker_state: None,
        worker_pid: None,
        extra: Seq::empty(),
    }
}

impl Default for RosterSessionSummary {
    fn default() -> (r: Self)
        ensures
            r@ == blank_summary(),
    {
        let r = RosterSessionSummary {
            id: String::new(),
            lifecycle: String::new(),
            activity: String::new(),
            is_session_active: false,
            has_active_heartbeat: None,
            has_registered_heartbeat: None,
            has_registered_cron_job: None,
            last_activity_at: None,
            runtime_kind: None,
            rlm_depth: None,
            active_session_id: None,
            session_id: String::new(),
            session_file: None,
            session_name: None,
            cwd: String::new(),
            model: None,
            thinking_level: None,
            is_streaming: false,
            is_compacting: false,
            is_bash_running: None,
            has_running_rlm_children: None,
            usage: None,
            is_running_tools: None,
            attached_clients: 0,
            direct_attached_clients: None,
            message_count: 0,
            unfinished_action_count: None,
            session_actions: None,
            streaming_message: None,
            created: None,
            modified: None,
            first_message: None,
            parent_active_session_id: None,
            parent_session_id: None,
            parent_session_path: None,
            rlm_child_id: None,
            replied_since_task: None,
            rlm_parent_node_id: None,
            spawn_code: None,
            model_fallback_message: None,
            diagnostics: None,
            summary: None,
            task_state: None,
            roster_status: None,
            status_label: None,
            last_heard_from_at: None,
            worker_state: None,
            worker_pid: None,
            extra: json::no_members(),
        };
        assert(r@ =~= blank_summary());
        r
    }
}

/// The keys of the members that are known.
pub open spec fn is_known_key(key: Seq<char>) -> bool {
    ||| key == "id"@
    ||| key == "lifecycle"@
    ||| key == "activity"@
    ||| key == "isSessionActive"@
    ||| key == "hasActiveHeartbeat"@
    ||| key == "hasRegisteredHeartbeat"@
    ||| key == "hasRegisteredCronJob"@
    ||| key == "lastActivityAt"@
    ||| key == "runtimeKind"@
    ||| key == "rlmDepth"@
    ||| key == "activeSessionId"@
    ||| key == "sessionId"@
    ||| key == "sessionFile"@
    ||| key == "sessionName"@
    ||| key == "cwd"@
    ||| key == "model"@
    ||| key == "thinkingLevel"@
    ||| key == "isStreaming"@
    ||| key == "isCompacting"@
    ||| key == "isBashRunning"@
    ||| key == "hasRunningRlmChildren"@
    ||| key == "usage"@
    ||| key == "isRunningTools"@
    ||| key == "attachedClients"@
    ||| key == "directAttachedClients"@
    ||| key == "messageCount"@
    ||| key == "unfinishedActionCount"@
    ||| key == "sessionActions"@
    ||| key == "streamingMessage"@
    ||| key == "created"@
    ||| key == "modified"@
    ||| key == "firstMessage"@
    ||| key == "parentActiveSessionId"@
    ||| key == "parentSessionId"@
    ||| key == "parentSessionPath"@
    ||| key == "rlmChildId"@
    ||| key == "repliedSinceTask"@
    ||| key == "rlmParentNodeId"@
    ||| key == "spawnCode"@
    ||| key == "modelFallbackMessage"@
    ||| key == "diagnostics"@
    ||| key == "summary"@
    ||| key == "taskState"@
    ||| key == "rosterStatus"@
    ||| key == "statusLabel"@
    ||| key == "lastHeardFromAt"@
    ||| key == "workerState"@
    ||| key == "workerPid"@
}

/// Whether a key is that of a member that is known.
fn is_known(key: &str) -> (r: bool)
    ensures
        r == is_known_key(key@),
{
    same(key, "id")
        || same(key, "lifecycle")
        || same(key, "activity")
        || same(key, "isSessionActive")
        || same(key, "hasActiveHeartbeat")
        || same(key, "hasRegisteredHeartbeat")
        || same(key, "hasRegisteredCronJob")
        || same(key, "lastActivityAt")
        || same(key, "runtimeKind")
        || same(key, "rlmDepth")
        || same(key, "activeSessionId")
        || same(key, "sessionId")
        || same(key, "sessionFile")
        || same(key, "sessionName")
        || same(key, "cwd")
        || same(key, "model")
        || same(key, "thinkingLevel")
        || same(key, "isStreaming")
        || same(key, "isCompacting")
        || same(key, "isBashRunning")
        || same(key, "hasRunningRlmChildren")
        || same(key, "usage")
        || same(key, "isRunningTools")
        || same(key, "attachedClients")
        || same(key, "directAttachedClients")
        || same(key, "messageCount")
        || same(key, "unfinishedActionCount")
        || same(key, "sessionActions")
        || same(key, "streamingMessage")
        || same(key, "created")
        || same(key, "modified")
        || same(key, "firstMessage")
        || same(key, "parentActiveSessionId")
        || same(key, "parentSessionId")
        || same(key, "parentSessionPath")
        || same(key, "rlmChildId")
        || same(key, "repliedSinceTask")
        || same(key, "rlmParentNodeId")
        || same(key, "spawnCode")
        || same(key, "modelFallbackMessage")
        || same(key, "diagnostics")
        || same(key, "summary")
        || same(key, "taskState")
        || same(key, "rosterStatus")
        || same(key, "statusLabel")
        || same(key, "lastHeardFromAt")
        || same(key, "workerState")
        || same(key, "workerPid")
}

/// The members among these that are not known, in their order.
pub open spec fn unknown_members(pairs: Seq<(Seq<char>, JsonV)>) -> Seq<(Seq<char>, JsonV)>
    decreases pairs.len(),
{
    if pairs.len() == 0 {
        Seq::empty()
    } else if is_known_key(pairs.last().0) {
        unknown_members(pairs.drop_last())
    } else {
        unknown_members(pairs.drop_last()).push(pairs.last())
    }
}

fn read_unknown(pairs: &Vec<(String, Json)>) -> (r: Vec<(String, Json)>)
    ensures
        json::members(r@) == unknown_members(json::members(pairs@)),
{
    let mut kept = json::no_members();
    let ghost all = json::members(pairs@);
    let mut i: usize = 0;
    assert(all.take(0) =~= Seq::empty());
    while i < pairs.len()
        invariant
            i <= pairs.len(),
            all == json::members(pairs@),
            json::members(kept@) == unknown_members(all.take(i as int)),
        decreases pairs.len() - i,
    {
        assert(all.take(i + 1).drop_last() =~= all.take(i as int));
        assert(all.take(i + 1).last() == (pairs@[i as int].0@, pairs@[i as int].1@));
        if !is_known(&pairs[i].0) {
            json::add_member(&mut kept, &pairs[i].0, pairs[i].1.clone());
        }
        i += 1;
    }
    assert(all.take(i as int) =~= all);
    kept
}

/// The document is a summary.
pub open spec fn is_summary(value: JsonV) -> bool {
    &&& value.is_object()
    &&& value.str_at("id"@) is Some
    &&& value.str_at("lifecycle"@) is Some
    &&& value.str_at("activity"@) is Some
    &&& value.bool_at("isSessionActive"@) is Some
    &&& json::optional_bool(value, "hasActiveHeartbeat"@)
    &&& json::optional_bool(value, "hasRegisteredHeartbeat"@)
    &&& json::optional_bool(value, "hasRegisteredCronJob"@)
    &&& json::optional_text(value, "lastActivityAt"@)
    &&& json::optional_text(value, "runtimeKind"@)
    &&& json::optional_integer(value, "rlmDepth"@)
    &&& json::optional_text(value, "activeSessionId"@)
    &&& value.str_at("sessionId"@) is Some
    &&& json::optional_text(value, "sessionFile"@)
    &&& json::optional_text(value, "sessionName"@)
    &&& value.str_at("cwd"@) is Some
    &&& json::optional_text(value, "thinkingLevel"@)
    &&& value.bool_at("isStreaming"@) is Some
    &&& value.bool_at("isCompacting"@) is Some
    &&& json::optional_bool(value, "isBashRunning"@)
    &&& json::optional_bool(value, "hasRunningRlmChildren"@)
    &&& json::optional_bool(value, "isRunningTools"@)
    &&& value.i64_at("attachedClients"@) is Some
    &&& json::optional_integer(value, "directAttachedClients"@)
    &&& value.i64_at("messageCount"@) is Some
    &&& json::optional_integer(value, "unfinishedActionCount"@)
    &&& json::optional_text(value, "created"@)
    &&& json::optional_text(value, "modified"@)
    &&& json::optional_text(value, "firstMessage"@)
    &&& json::optional_text(value, "parentActiveSessionId"@)
    &&& json::optional_text(value, "parentSessionId"@)
    &&& json::optional_text(value, "parentSessionPath"@)
    &&& json::optional_text(value, "rlmChildId"@)
    &&& json::optional_bool(value, "repliedSinceTask"@)
    &&& json::optional_text(value, "rlmParentNodeId"@)
    &&& json::optional_text(value, "spawnCode"@)
    &&& json::optional_text(value, "modelFallbackMessage"@)
    &&& json::optional_text(value, "summary"@)
    &&& json::optional_text(value, "taskState"@)
    &&& optional_status(value, "rosterStatus"@)
    &&& json::optional_text(value, "statusLabel"@)
    &&& json::optional_text(value, "lastHeardFromAt"@)
    &&& json::optional_text(value, "workerState"@)
    &&& json::optional_integer(value, "workerPid"@)
}

/// The summary in a document.
pub open spec fn summary_of(value: JsonV) -> SummaryV {
    SummaryV {
        id: json::text_or_empty(value, "id"@),
        lifecycle: json::text_or_empty(value, "lifecycle"@),
        activity: json::text_or_empty(value, "activity"@),
        is_session_active: value.bool_at("isSessionActive"@).unwrap_or(false),
        has_active_heartbeat: value.bool_at("hasActiveHeartbeat"@),
        has_registered_heartbeat: value.bool_at("hasRegisteredHeartbeat"@),
        has_registered_cron_job: value.bool_at("hasRegisteredCronJob"@),
        last_activity_at: value.str_at("lastActivityAt"@),
        runtime_kind: value.str_at("runtimeKind"@),
        rlm_depth: value.i64_at("rlmDepth"@),
        active_session_id: value.str_at("activeSessionId"@),
        session_id: json::text_or_empty(value, "sessionId"@),
        session_file: value.str_at("sessionFile"@),
        session_name: value.str_at("sessionName"@),
        cwd: json::text_or_empty(value, "cwd"@),
        model: json::present(value, "model"@),
        thinking_level: value.str_at("thinkingLevel"@),
        is_streaming: value.bool_at("isStreaming"@).unwrap_or(false),
        is_compacting: value.bool_at("isCompacting"@).unwrap_or(false),
        is_bash_running: value.bool_at("isBashRunning"@),
        has_running_rlm_children: value.bool_at("hasRunningRlmChildren"@),
        usage: json::present(value, "usage"@),
        is_running_tools: value.bool_at("isRunningTools"@),
        attached_clients: value.i64_at("attachedClients"@).unwrap_or(0),
        direct_attached_clients: value.i64_at("directAttachedClients"@),
        message_count: value.i64_at("messageCount"@).unwrap_or(0),
        unfinished_action_count: value.i64_at("unfinishedActionCount"@),
        session_actions: json::present(value, "sessionActions"@),
        streaming_message: json::present(value, "streamingMessage"@),
        created: value.str_at("created"@),
        modified: value.str_at("modified"@),
        first_message: value.str_at("firstMessage"@),
        parent_active_session_id: value.str_at("parentActiveSessionId"@),
        parent_session_id: value.str_at("parentSessionId"@),
        parent_session_path: value.str_at("parentSessionPath"@),
        rlm_child_id: value.str_at("rlmChildId"@),
        replied_since_task: value.bool_at("repliedSinceTask"@),
        rlm_parent_node_id: value.str_at("rlmParentNodeId"@),
        spawn_code: value.str_at("spawnCode"@),
        model_fallback_message: value.str_at("modelFallbackMessage"@),
        diagnostics: json::present(value, "diagnostics"@),
        summary: value.str_at("summary"@),
        task_state: value.str_at("taskState"@),
        roster_status: status_at(value, "rosterStatus"@),
        status_label: value.str_at("statusLabel"@),
        last_heard_from_at: value.str_at("lastHeardFromAt"@),
        worker_state: value.str_at("workerState"@),
        worker_pid: value.i64_at("workerPid"@),
        extra: unknown_members(value->Obj_0),
    }
}

fn flag_at(value: &Json, key: &str) -> (r: bool)
    ensures
        r == value@.bool_at(key@).unwrap_or(false),
{
    match value.bool_at(key) {
        Some(flag) => flag,
        None => false,
    }
}

fn number_at(value: &Json, key: &str) -> (r: i64)
    ensures
        r == value@.i64_at(key@).unwrap_or(0),
{
    match value.i64_at(key) {
        Some(n) => n,
        None => 0,
    }
}

fn is_summary_document(value: &Json) -> (r: bool)
    ensures
        r == is_summary(value@),
{
    match value {
        Json::Object(_) => {},
        _ => return false,
    }
    if !(value.str_at("id").is_some()
        && value.str_at("lifecycle").is_some()
        && value.str_at("activity").is_some()
        && value.bool_at("isSessionActive").is_some()
        && json::is_optional_bool(value, "hasActiveHeartbeat")
        && json::is_optional_bool(value, "hasRegisteredHeartbeat")
        && json::is_optional_bool(value, "hasRegisteredCronJob")
        && json::is_optional_text(value, "lastActivityAt")) {
        return false;
    }
    if !(json::is_optional_text(value, "runtimeKind")
        && json::is_optional_integer(value, "rlmDepth")
        && json::is_optional_text(value, "activeSessionId")
        && value.str_at("sessionId").is_some()
        && json::is_optional_text(value, "sessionFile")
        && json::is_optional_text(value, "sessionName")
        && value.str_at("cwd").is_some()
        && json::is_optional_text(value, "thinkingLevel")) {
        return false;
    }
    if !(value.bool_at("isStreaming").is_some()
        && value.bool_at("isCompacting").is_some()
        && json::is_optional_bool(value, "isBashRunning")
        && json::is_optional_bool(value, "hasRunningRlmChildren")
        && json::is_optional_bool(value, "isRunningTools")
        && value.i64_at("attachedClients").is_some()
        && json::is_optional_integer(value, "directAttachedClients")
        && value.i64_at("messageCount").is_some()) {
        return false;
    }
    if !(json::is_optional_integer(value, "unfinishedActionCount")
        && json::is_optional_text(value, "created")
        && json::is_optional_text(value, "modified")
        && json::is_optional_text(value, "firstMessage")
        && json::is_optional_text(value, "parentActiveSessionId")
        && json::is_optional_text(value, "parentSessionId")
        && json::is_optional_text(value, "parentSessionPath")
        && json::is_optional_text(value, "rlmChildId")) {
        return false;
    }
    if !(json::is_optional_bool(value, "repliedSinceTask")
        && json::is_optional_text(value, "rlmParentNodeId")
        && json::is_optional_text(value, "spawnCode")
        && json::is_optional_text(value, "modelFallbackMessage")
        && json::is_optional_text(value, "summary")
        && json::is_optional_text(value, "taskState")
        && is_optional_status(value, "rosterStatus")
        && json::is_optional_text(value, "statusLabel")) {
        return false;
    }
    if !(json::is_optional_text(value, "lastHeardFromAt")
        && json::is_optional_text(value, "workerState")
        && json::is_optional_integer(value, "workerPid")) {
        return false;
    }
    true
}

/// Reads a summary; nothing where the document is none.
pub fn read_summary(value: &Json) -> (r: Option<RosterSessionSummary>)
    ensures
        match r {
            Some(summary) => is_summary(value@) && summary@ == summary_of(value@),
            None => !is_summary(value@),
        },
{
    broadcast use json::object_view;

    if !is_summary_document(value) {
        return None;
    }
    let extra = match value {
        Json::Object(pairs) => read_unknown(pairs),
        _ => return None,
    };
    let summary = RosterSessionSummary {
        id: json::text_at(value, "id"),
        lifecycle: json::text_at(value, "lifecycle"),
        activity: json::text_at(value, "activity"),
        is_session_active: flag_at(value, "isSessionActive"),
        has_active_heartbeat: value.bool_at("hasActiveHeartbeat"),
        has_registered_heartbeat: value.bool_at("hasRegisteredHeartbeat"),
        has_registered_cron_job: value.bool_at("hasRegisteredCronJob"),
        last_activity_at: owned(value.str_at("lastActivityAt")),
        runtime_kind: owned(value.str_at("runtimeKind")),
        rlm_depth: value.i64_at("rlmDepth"),
        active_session_id: owned(value.str_at("activeSessionId")),
        session_id: json::text_at(value, "sessionId"),
        session_file: owned(value.str_at("sessionFile")),
        session_name: owned(value.str_at("sessionName")),
        cwd: json::text_at(value, "cwd"),
        model: json::present_copy(value, "model"),
        thinking_level: owned(value.str_at("thinkingLevel")),
        is_streaming: flag_at(value, "isStreaming"),
        is_compacting: flag_at(value, "isCompacting"),
        is_bash_running: value.bool_at("isBashRunning"),
        has_running_rlm_children: value.bool_at("hasRunningRlmChildren"),
        usage: json::present_copy(value, "usage"),
        is_running_tools: value.bool_at("isRunningTools"),
        attached_clients: number_at(value, "attachedClients"),
        direct_attached_clients: value.i64_at("directAttachedClients"),
        message_count: number_at(value, "messageCount"),
        unfinished_action_count: value.i64_at("unfinishedActionCount"),
        session_actions: json::present_copy(value, "sessionActions"),
        streaming_message: json::present_copy(value, "streamingMessage"),
        created: owned(value.str_at("created")),
        modified: owned(value.str_at("modified")),
        first_message: owned(value.str_at("firstMessage")),
        parent_active_session_id: owned(value.str_at("parentActiveSessionId")),
        parent_session_id: owned(value.str_at("parentSessionId")),
        parent_session_path: owned(value.str_at("parentSessionPath")),
        rlm_child_id: owned(value.str_at("rlmChildId")),
        replied_since_task: value.bool_at("repliedSinceTask"),
        rlm_parent_node_id: owned(value.str_at("rlmParentNodeId")),
        spawn_code: owned(value.str_at("spawnCode")),
        model_fallback_message: owned(value.str_at("modelFallbackMessage")),
        diagnostics: json::present_copy(value, "diagnostics"),
        summary: owned(value.str_at("summary")),
        task_state: owned(value.str_at("taskState")),
        roster_status: read_status_at(value, "rosterStatus"),
        status_label: owned(value.str_at("statusLabel")),
        last_heard_from_at: owned(value.str_at("lastHeardFromAt")),
        worker_state: owned(value.str_at("workerState")),
        worker_pid: value.i64_at("workerPid"),
        extra,
    };
    assert(summary@ =~= summary_of(value@));
    Some(summary)
}

/// The members after the first part of a summary was added.
#[verifier::opaque]
pub open spec fn first_part(
    pairs: Seq<(Seq<char>, JsonV)>,
    summary: SummaryV,
) -> Seq<(Seq<char>, JsonV)> {
    let p1 = pairs.push(("id"@, JsonV::Str(summary.id)));
    let p2 = p1.push(("lifecycle"@, JsonV::Str(summary.lifecycle)));
    let p3 = p2.push(("activity"@, JsonV::Str(summary.activity)));
    let p4 = p3.push(("isSessionActive"@, JsonV::Bool(summary.is_session_active)));
    let p5 = json::push_opt(p4, "hasActiveHeartbeat"@, flag_value(summary.has_active_heartbeat));
    let p6 = json::push_opt(p5, "hasRegisteredHeartbeat"@, flag_value(summary.has_registered_heartbeat));
    let p7 = json::push_opt(p6, "hasRegisteredCronJob"@, flag_value(summary.has_registered_cron_job));
    let p8 = json::push_opt_text(p7, "lastActivityAt"@, summary.last_activity_at);
    p8
}

/// The members after the second part of a summary was added.
#[verifier::opaque]
pub open spec fn second_part(
    pairs: Seq<(Seq<char>, JsonV)>,
    summary: SummaryV,
) -> Seq<(Seq<char>, JsonV)> {
    let p1 = json::push_opt_text(pairs, "runtimeKind"@, summary.runtime_kind);
    let p2 = json::push_opt(p1, "rlmDepth"@, number_value(summary.rlm_depth));
    let p3 = json::push_opt_text(p2, "activeSessionId"@, summary.active_session_id);
    let p4 = p3.push(("sessionId"@, JsonV::Str(summary.session_id)));
    let p5 = json::push_opt_text(p4, "sessionFile"@, summary.session_file);
    let p6 = json::push_opt_text(p5, "sessionName"@, summary.session_name);
    let p7 = p6.push(("cwd"@, JsonV::Str(summary.cwd)));
    let p8 = json::push_opt(p7, "model"@, summary.model);
    p8
}

/// The members after the third part of a summary was added.
#[verifier::opaque]
pub open spec fn third_part(
    pairs: Seq<(Seq<char>, JsonV)>,
    summary: SummaryV,
) -> Seq<(Seq<char>, JsonV)> {
    let p1 = json::push_opt_text(pairs, "thinkingLevel"@, summary.thinking_level);
    let p2 = p1.push(("isStreaming"@, JsonV::Bool(summary.is_streaming)));
    let p3 = p2.push(("isCompacting"@, JsonV::Bool(summary.is_compacting)));
    let p4 = json::push_opt(p3, "isBashRunning"@, flag_value(summary.is_bash_running));
    let p5 = json::push_opt(p4, "hasRunningRlmChildren"@, flag_value(summary.has_running_rlm_children));
    let p6 = json::push_opt(p5, "usage"@, summary.usage);
    let p7 = json::push_opt(p6, "isRunningTools"@, flag_value(summary.is_running_tools));
    let p8 = p7.push(("attachedClients"@, json::int_value(summary.attached_clients as int)));
    p8
}

/// The members after the fourth part of a summary was added.
#[verifier::opaque]
pub open spec fn fourth_part(
    pairs: Seq<(Seq<char>, JsonV)>,
    summary: SummaryV,
) -> Seq<(Seq<char>, JsonV)> {
    let p1 = json::push_opt(pairs, "directAttachedClients"@, number_value(summary.direct_attached_clients));
    let p2 = p1.push(("messageCount"@, json::int_value(summary.message_count as int)));
    let p3 = json::push_opt(p2, "unfinishedActionCount"@, number_value(summary.unfinished_action_count));
    let p4 = json::push_opt(p3, "sessionActions"@, summary.session_actions);
    let p5 = json::push_opt(p4, "streamingMessage"@, summary.streaming_message);
    let p6 = json::push_opt_text(p5, "created"@, summary.created);
    let p7 = json::push_opt_text(p6, "modified"@, summary.modified);
    let p8 = json::push_opt_text(p7, "firstMessage"@, summary.first_message);
    p8
}

/// The members after the fifth part of a summary was added.
#[verifier::opaque]
pub open spec fn fifth_part(
    pairs: Seq<(Seq<char>, JsonV)>,
    summary: SummaryV,
) -> Seq<(Seq<char>, JsonV)> {
    let p1 = json::push_opt_text(pairs, "parentActiveSessionId"@, summary.parent_active_session_id);
    let p2 = json::push_opt_text(p1, "parentSessionId"@, summary.parent_session_id);
    let p3 = json::push_opt_text(p2, "parentSessionPath"@, summary.parent_session_path);
    let p4 = json::push_opt_text(p3, "rlmChildId"@, summary.rlm_child_id);
    let p5 = json::push_opt(p4, "repliedSinceTask"@, flag_value(summary.replied_since_task));
    let p6 = json::push_opt_text(p5, "rlmParentNodeId"@, summary.rlm_parent_node_id);
    let p7 = json::push_opt_text(p6, "spawnCode"@, summary.spawn_code);
    let p8 = json::push_opt_text(p7, "modelFallbackMessage"@, summary.model_fallback_message);
    p8
}

/// The members after the sixth part of a summary was added.
#[verifier::opaque]
pub open spec fn sixth_part(
    pairs: Seq<(Seq<char>, JsonV)>,
    summary: SummaryV,
) -> Seq<(Seq<char>, JsonV)> {
    let p1 = json::push_opt(pairs, "diagnostics"@, summary.diagnostics);
    let p2 = json::push_opt_text(p1, "summary"@, summary.summary);
    let p3 = json::push_opt_text(p2, "taskState"@, summary.task_state);
    let p4 = json::push_opt(p3, "rosterStatus"@, status_name_value(summary.roster_status));
    let p5 = json::push_opt_text(p4, "statusLabel"@, summary.status_label);
    let p6 = json::push_opt_text(p5, "lastHeardFromAt"@, summary.last_heard_from_at);
    let p7 = json::push_opt_text(p6, "workerState"@, summary.worker_state);
    let p8 = json::push_opt(p7, "workerPid"@, number_value(summary.worker_pid));
    p8
}

/// The document of a summary: its members in their order, what is not known last.
pub open spec fn summary_value(summary: SummaryV) -> JsonV {
    let one = first_part(Seq::empty(), summary);
    let two = second_part(one, summary);
    let three = third_part(two, summary);
    let four = fourth_part(three, summary);
    let five = fifth_part(four, summary);
    JsonV::Obj(sixth_part(five, summary) + summary.extra)
}

impl RosterSessionSummary {
    fn add_first_part(&self, pairs: &mut Vec<(String, Json)>)
        ensures
            json::members(final(pairs)@) == first_part(json::members(old(pairs)@), self@),
    {
        proof {
            reveal(first_part);
        }
        json::add_text(pairs, "id", &self.id);
        json::add_text(pairs, "lifecycle", &self.lifecycle);
        json::add_text(pairs, "activity", &self.activity);
        json::add_member(pairs, "isSessionActive", Json::Bool(self.is_session_active));
        add_flag(pairs, "hasActiveHeartbeat", self.has_active_heartbeat);
        add_flag(pairs, "hasRegisteredHeartbeat", self.has_registered_heartbeat);
        add_flag(pairs, "hasRegisteredCronJob", self.has_registered_cron_job);
        json::add_opt_text(pairs, "lastActivityAt", &self.last_activity_at);
    }

    fn add_second_part(&self, pairs: &mut Vec<(String, Json)>)
        ensures
            json::members(final(pairs)@) == second_part(json::members(old(pairs)@), self@),
    {
        proof {
            reveal(second_part);
        }
        json::add_opt_text(pairs, "runtimeKind", &self.runtime_kind);
        add_number(pairs, "rlmDepth", self.rlm_depth);
        json::add_opt_text(pairs, "activeSessionId", &self.active_session_id);
        json::add_text(pairs, "sessionId", &self.session_id);
        json::add_opt_text(pairs, "sessionFile", &self.session_file);
        json::add_opt_text(pairs, "sessionName", &self.session_name);
        json::add_text(pairs, "cwd", &self.cwd);
        json::add_opt(pairs, "model", &self.model);
    }

    fn add_third_part(&self, pairs: &mut Vec<(String, Json)>)
        ensures
            json::members(final(pairs)@) == third_part(json::members(old(pairs)@), self@),
    {
        proof {
            reveal(third_part);
        }
        json::add_opt_text(pairs, "thinkingLevel", &self.thinking_level);
        json::add_member(pairs, "isStreaming", Json::Bool(self.is_streaming));
        json::add_member(pairs, "isCompacting", Json::Bool(self.is_compacting));
        add_flag(pairs, "isBashRunning", self.is_bash_running);
        add_flag(pairs, "hasRunningRlmChildren", self.has_running_rlm_children);
        json::add_opt(pairs, "usage", &self.usage);
        add_flag(pairs, "isRunningTools", self.is_running_tools);
        json::add_member(pairs, "attachedClients", json::integer(self.attached_clients));
    }

    fn add_fourth_part(&self, pairs: &mut Vec<(String, Json)>)
        ensures
            json::members(final(pairs)@) == fourth_part(json::members(old(pairs)@), self@),
    {
        proof {
            reveal(fourth_part);
        }
        add_number(pairs, "directAttachedClients", self.direct_attached_clients);
        json::add_member(pairs, "messageCount", json::integer(self.message_count));
        add_number(pairs, "unfinishedActionCount", self.unfinished_action_count);
        json::add_opt(pairs, "sessionActions", &self.session_actions);
        json::add_opt(pairs, "streamingMessage", &self.streaming_message);
        json::add_opt_text(pairs, "created", &self.created);
        json::add_opt_text(pairs, "modified", &self.modified);
        json::add_opt_text(pairs, "firstMessage", &self.first_message);
    }

    fn add_fifth_part(&self, pairs: &mut Vec<(String, Json)>)
        ensures
            json::members(final(pairs)@) == fifth_part(json::members(old(pairs)@), self@),
    {
        proof {
            reveal(fifth_part);
        }
        json::add_opt_text(pairs, "parentActiveSessionId", &self.parent_active_session_id);
        json::add_opt_text(pairs, "parentSessionId", &self.parent_session_id);
        json::add_opt_text(pairs, "parentSessionPath", &self.parent_session_path);
        json::add_opt_text(pairs, "rlmChildId", &self.rlm_child_id);
        add_flag(pairs, "repliedSinceTask", self.replied_since_task);
        json::add_opt_text(pairs, "rlmParentNodeId", &self.rlm_parent_node_id);
        json::add_opt_text(pairs, "spawnCode", &self.spawn_code);
        json::add_opt_text(pairs, "modelFallbackMessage", &self.model_fallback_message);
    }

    fn add_sixth_part(&self, pairs: &mut Vec<(String, Json)>)
        ensures
            json::members(final(pairs)@) == sixth_part(json::members(old(pairs)@), self@),
    {
        proof {
            reveal(sixth_part);
        }
        json::add_opt(pairs, "diagnostics", &self.diagnostics);
        json::add_opt_text(pairs, "summary", &self.summary);
        json::add_opt_text(pairs, "taskState", &self.task_state);
        add_status(pairs, "rosterStatus", self.roster_status);
        json::add_opt_text(pairs, "statusLabel", &self.status_label);
        json::add_opt_text(pairs, "lastHeardFromAt", &self.last_heard_from_at);
        json::add_opt_text(pairs, "workerState", &self.worker_state);
        add_number(pairs, "workerPid", self.worker_pid);
    }

    /// The document of the summary.
    pub fn to_value(&self) -> (r: Json)
        ensures
            r@ == summary_value(self@),
    {
        let mut pairs = json::no_members();
        self.add_first_part(&mut pairs);
        self.add_second_part(&mut pairs);
        self.add_third_part(&mut pairs);
        self.add_fourth_part(&mut pairs);
        self.add_fifth_part(&mut pairs);
        self.add_sixth_part(&mut pairs);
        let ghost known = json::members(pairs@);
        let ghost more = json::members(self.extra@);
        let mut i: usize = 0;
        assert(known + more.take(0) =~= known);
        while i < self.extra.len()
            invariant
                i <= self.extra.len(),
                more == json::members(self.extra@),
                json::members(pairs@) == known + more.take(i as int),
            decreases self.extra.len() - i,
        {
            assert(known + more.take(i + 1) =~= (known + more.take(i as int)).push(more[i as int]));
            json::add_member(&mut pairs, &self.extra[i].0, self.extra[i].1.clone());
            i += 1;
        }
        assert(more.take(i as int) =~= more);
        json::object(pairs)
    }
}

/// A text that may be absent, as a document.
pub open spec fn text_value(text: Option<Seq<char>>) -> Option<JsonV> {
    match text {
        Some(text) => Some(JsonV::Str(text)),
        None => None,
    }
}

/// The members after one more was added, where it is there.
#[verifier::opaque]
spec fn step(
    pairs: Seq<(Seq<char>, JsonV)>,
    key: Seq<char>,
    value: Option<JsonV>,
) -> Seq<(Seq<char>, JsonV)> {
    json::push_opt(pairs, key, value)
}

proof fn step_is_found(pairs: Seq<(Seq<char>, JsonV)>, key: Seq<char>, value: Option<JsonV>)
    requires
        is_known_key(key),
    ensures
        unknown_members(step(pairs, key, value)) == unknown_members(pairs),
        forall|other: Seq<char>|
            text::stamp(other) != text::stamp(key) ==> #[trigger] json::lookup(
                step(pairs, key, value),
                other,
            ) == json::lookup(pairs, other),
        json::lookup(pairs, key) is None ==> json::lookup(step(pairs, key, value), key) == value,
{
    broadcast use json::lookup_push;

    reveal(step);
    if let Some(value) = value {
        assert(pairs.push((key, value)).drop_last() =~= pairs);
    }
}

proof fn unknown_concat(pairs: Seq<(Seq<char>, JsonV)>, extra: Seq<(Seq<char>, JsonV)>)
    requires
        forall|i: int| 0 <= i < extra.len() ==> !is_known_key((#[trigger] extra[i]).0),
    ensures
        unknown_members(pairs + extra) == unknown_members(pairs) + extra,
    decreases extra.len(),
{
    if extra.len() == 0 {
        assert(pairs + extra =~= pairs);
        assert(unknown_members(pairs) + extra =~= unknown_members(pairs));
    } else {
        let fewer = extra.drop_last();
        assert forall|i: int| 0 <= i < fewer.len() implies !is_known_key(
            (#[trigger] fewer[i]).0,
        ) by {
            assert(fewer[i] == extra[i]);
        }
        unknown_concat(pairs, fewer);
        assert((pairs + extra).drop_last() =~= pairs + fewer);
        assert((pairs + extra).last() == extra[extra.len() - 1]);
        assert(unknown_members(pairs) + extra =~= (unknown_members(pairs) + fewer).push(
            extra.last(),
        ));
    }
}

proof fn first_stamps()
    ensures
        text::stamp("id"@) == 100100105002,
        text::stamp("lifecycle"@) == 99101108009,
        text::stamp("activity"@) == 116121097008,
        text::stamp("isSessionActive"@) == 116101105015,
        text::stamp("hasActiveHeartbeat"@) == 116116104018,
        text::stamp("hasRegisteredHeartbeat"@) == 114116104022,
        text::stamp("hasRegisteredCronJob"@) == 111098104020,
        text::stamp("lastActivityAt"@) == 116116108014,
{
    reveal_strlit("id");
    reveal_strlit("lifecycle");
    reveal_strlit("activity");
    reveal_strlit("isSessionActive");
    reveal_strlit("hasActiveHeartbeat");
    reveal_strlit("hasRegisteredHeartbeat");
    reveal_strlit("hasRegisteredCronJob");
    reveal_strlit("lastActivityAt");
}

spec fn in_first_part(key: Seq<char>) -> bool {
    ||| text::stamp(key) == 100100105002
    ||| text::stamp(key) == 99101108009
    ||| text::stamp(key) == 116121097008
    ||| text::stamp(key) == 116101105015
    ||| text::stamp(key) == 116116104018
    ||| text::stamp(key) == 114116104022
    ||| text::stamp(key) == 111098104020
    ||| text::stamp(key) == 116116108014
}

proof fn first_part_is_found(pairs: Seq<(Seq<char>, JsonV)>, summary: SummaryV)
    ensures
        unknown_members(first_part(pairs, summary)) == unknown_members(pairs),
        forall|key: Seq<char>|
            !in_first_part(key) ==> #[trigger] json::lookup(first_part(pairs, summary), key)
                == json::lookup(pairs, key),
        json::lookup(pairs, "id"@) is None ==> json::lookup(first_part(pairs, summary), "id"@) == Some(JsonV::Str(summary.id)),
        json::lookup(pairs, "lifecycle"@) is None ==> json::lookup(first_part(pairs, summary), "lifecycle"@) == Some(JsonV::Str(summary.lifecycle)),
        json::lookup(pairs, "activity"@) is None ==> json::lookup(first_part(pairs, summary), "activity"@) == Some(JsonV::Str(summary.activity)),
        json::lookup(pairs, "isSessionActive"@) is None ==> json::lookup(first_part(pairs, summary), "isSessionActive"@) == Some(JsonV::Bool(summary.is_session_active)),
        json::lookup(pairs, "hasActiveHeartbeat"@) is None ==> json::lookup(first_part(pairs, summary), "hasActiveHeartbeat"@) == flag_value(summary.has_active_heartbeat),
        json::lookup(pairs, "hasRegisteredHeartbeat"@) is None ==> json::lookup(first_part(pairs, summary), "hasRegisteredHeartbeat"@) == flag_value(summary.has_registered_heartbeat),
        json::lookup(pairs, "hasRegisteredCronJob"@) is None ==> json::lookup(first_part(pairs, summary), "hasRegisteredCronJob"@) == flag_value(summary.has_registered_cron_job),
        json::lookup(pairs, "lastActivityAt"@) is None ==> json::lookup(first_part(pairs, summary), "lastActivityAt"@) == text_value(summary.last_activity_at),
{
    first_stamps();
    let p1 = step(pairs, "id"@, Some(JsonV::Str(summary.id)));
    step_is_found(pairs, "id"@, Some(JsonV::Str(summary.id)));
    let p2 = step(p1, "lifecycle"@, Some(JsonV::Str(summary.lifecycle)));
    step_is_found(p1, "lifecycle"@, Some(JsonV::Str(summary.lifecycle)));
    let p3 = step(p2, "activity"@, Some(JsonV::Str(summary.activity)));
    step_is_found(p2, "activity"@, Some(JsonV::Str(summary.activity)));
    let p4 = step(p3, "isSessionActive"@, Some(JsonV::Bool(summary.is_session_active)));
    step_is_found(p3, "isSessionActive"@, Some(JsonV::Bool(summary.is_session_active)));
    let p5 = step(p4, "hasActiveHeartbeat"@, flag_value(summary.has_active_heartbeat));
    step_is_found(p4, "hasActiveHeartbeat"@, flag_value(summary.has_active_heartbeat));
    let p6 = step(p5, "hasRegisteredHeartbeat"@, flag_value(summary.has_registered_heartbeat));
    step_is_found(p5, "hasRegisteredHeartbeat"@, flag_value(summary.has_registered_heartbeat));
    let p7 = step(p6, "hasRegisteredCronJob"@, flag_value(summary.has_registered_cron_job));
    step_is_found(p6, "hasRegisteredCronJob"@, flag_value(summary.has_registered_cron_job));
    let p8 = step(p7, "lastActivityAt"@, text_value(summary.last_activity_at));
    step_is_found(p7, "lastActivityAt"@, text_value(summary.last_activity_at));
    assert(p8 == first_part(pairs, summary)) by {
        reveal(step);
        reveal(first_part);
    }
}

proof fn second_stamps()
    ensures
        text::stamp("runtimeKind"@) == 105100114011,
        text::stamp("rlmDepth"@) == 116104114008,
        text::stamp("activeSessionId"@) == 111100097015,
        text::stamp("sessionId"@) == 110100115009,
        text::stamp("sessionFile"@) == 105101115011,
        text::stamp("sessionName"@) == 97101115011,
        text::stamp("cwd"@) == 100100099003,
        text::stamp("model"@) == 101108109005,
{
    reveal_strlit("runtimeKind");
    reveal_strlit("rlmDepth");
    reveal_strlit("activeSessionId");
    reveal_strlit("sessionId");
    reveal_strlit("sessionFile");
    reveal_strlit("sessionName");
    reveal_strlit("cwd");
    reveal_strlit("model");
}

spec fn in_second_part(key: Seq<char>) -> bool {
    ||| text::stamp(key) == 105100114011
    ||| text::stamp(key) == 116104114008
    ||| text::stamp(key) == 111100097015
    ||| text::stamp(key) == 110100115009
    ||| text::stamp(key) == 105101115011
    ||| text::stamp(key) == 97101115011
    ||| text::stamp(key) == 100100099003
    ||| text::stamp(key) == 101108109005
}

proof fn second_part_is_found(pairs: Seq<(Seq<char>, JsonV)>, summary: SummaryV)
    ensures
        unknown_members(second_part(pairs, summary)) == unknown_members(pairs),
        forall|key: Seq<char>|
            !in_second_part(key) ==> #[trigger] json::lookup(second_part(pairs, summary), key)
                == json::lookup(pairs, key),
        json::lookup(pairs, "runtimeKind"@) is None ==> json::lookup(second_part(pairs, summary), "runtimeKind"@) == text_value(summary.runtime_kind),
        json::lookup(pairs, "rlmDepth"@) is None ==> json::lookup(second_part(pairs, summary), "rlmDepth"@) == number_value(summary.rlm_depth),
        json::lookup(pairs, "activeSessionId"@) is None ==> json::lookup(second_part(pairs, summary), "activeSessionId"@) == text_value(summary.active_session_id),
        json::lookup(pairs, "sessionId"@) is None ==> json::lookup(second_part(pairs, summary), "sessionId"@) == Some(JsonV::Str(summary.session_id)),
        json::lookup(pairs, "sessionFile"@) is None ==> json::lookup(second_part(pairs, summary), "sessionFile"@) == text_value(summary.session_file),
        json::lookup(pairs, "sessionName"@) is None ==> json::lookup(second_part(pairs, summary), "sessionName"@) == text_value(summary.session_name),
        json::lookup(pairs, "cwd"@) is None ==> json::lookup(second_part(pairs, summary), "cwd"@) == Some(JsonV::Str(summary.cwd)),
        json::lookup(pairs, "model"@) is None ==> json::lookup(second_part(pairs, summary), "model"@) == summary.model,
{
    second_stamps();
    let p1 = step(pairs, "runtimeKind"@, text_value(summary.runtime_kind));
    step_is_found(pairs, "runtimeKind"@, text_value(summary.runtime_kind));
    let p2 = step(p1, "rlmDepth"@, number_value(summary.rlm_depth));
    step_is_found(p1, "rlmDepth"@, number_value(summary.rlm_depth));
    let p3 = step(p2, "activeSessionId"@, text_value(summary.active_session_id));
    step_is_found(p2, "activeSessionId"@, text_value(summary.active_session_id));
    let p4 = step(p3, "sessionId"@, Some(JsonV::Str(summary.session_id)));
    step_is_found(p3, "sessionId"@, Some(JsonV::Str(summary.session_id)));
    let p5 = step(p4, "sessionFile"@, text_value(summary.session_file));
    step_is_found(p4, "sessionFile"@, text_value(summary.session_file));
    let p6 = step(p5, "sessionName"@, text_value(summary.session_name));
    step_is_found(p5, "sessionName"@, text_value(summary.session_name));
    let p7 = step(p6, "cwd"@, Some(JsonV::Str(summary.cwd)));
    step_is_found(p6, "cwd"@, Some(JsonV::Str(summary.cwd)));
    let p8 = step(p7, "model"@, summary.model);
    step_is_found(p7, "model"@, summary.model);
    assert(p8 == second_part(pairs, summary)) by {
        reveal(step);
        reveal(second_part);
    }
}

proof fn third_stamps()
    ensures
        text::stamp("thinkingLevel"@) == 101108116013,
        text::stamp("isStreaming"@) == 105103105011,
        text::stamp("isCompacting"@) == 105103105012,
        text::stamp("isBashRunning"@) == 110103105013,
        text::stamp("hasRunningRlmChildren"@) == 105110104021,
        text::stamp("usage"@) == 103101117005,
        text::stamp("isRunningTools"@) == 111115105014,
        text::stamp("attachedClients"@) == 101115097015,
{
    reveal_strlit("thinkingLevel");
    reveal_strlit("isStreaming");
    reveal_strlit("isCompacting");
    reveal_strlit("isBashRunning");
    reveal_strlit("hasRunningRlmChildren");
    reveal_strlit("usage");
    reveal_strlit("isRunningTools");
    reveal_strlit("attachedClients");
}

spec fn in_third_part(key: Seq<char>) -> bool {
    ||| text::stamp(key) == 101108116013
    ||| text::stamp(key) == 105103105011
    ||| text::stamp(key) == 105103105012
    ||| text::stamp(key) == 110103105013
    ||| text::stamp(key) == 105110104021
    ||| text::stamp(key) == 103101117005
    ||| text::stamp(key) == 111115105014
    ||| text::stamp(key) == 101115097015
}

proof fn third_part_is_found(pairs: Seq<(Seq<char>, JsonV)>, summary: SummaryV)
    ensures
        unknown_members(third_part(pairs, summary)) == unknown_members(pairs),
        forall|key: Seq<char>|
            !in_third_part(key) ==> #[trigger] json::lookup(third_part(pairs, summary), key)
                == json::lookup(pairs, key),
        json::lookup(pairs, "thinkingLevel"@) is None ==> json::lookup(third_part(pairs, summary), "thinkingLevel"@) == text_value(summary.thinking_level),
        json::lookup(pairs, "isStreaming"@) is None ==> json::lookup(third_part(pairs, summary), "isStreaming"@) == Some(JsonV::Bool(summary.is_streaming)),
        json::lookup(pairs, "isCompacting"@) is None ==> json::lookup(third_part(pairs, summary), "isCompacting"@) == Some(JsonV::Bool(summary.is_compacting)),
        json::lookup(pairs, "isBashRunning"@) is None ==> json::lookup(third_part(pairs, summary), "isBashRunning"@) == flag_value(summary.is_bash_running),
        json::lookup(pairs, "hasRunningRlmChildren"@) is None ==> json::lookup(third_part(pairs, summary), "hasRunningRlmChildren"@) == flag_value(summary.has_running_rlm_children),
        json::lookup(pairs, "usage"@) is None ==> json::lookup(third_part(pairs, summary), "usage"@) == summary.usage,
        json::lookup(pairs, "isRunningTools"@) is None ==> json::lookup(third_part(pairs, summary), "isRunningTools"@) == flag_value(summary.is_running_tools),
        json::lookup(pairs, "attachedClients"@) is None ==> json::lookup(third_part(pairs, summary), "attachedClients"@) == Some(json::int_value(summary.attached_clients as int)),
{
    third_stamps();
    let p1 = step(pairs, "thinkingLevel"@, text_value(summary.thinking_level));
    step_is_found(pairs, "thinkingLevel"@, text_value(summary.thinking_level));
    let p2 = step(p1, "isStreaming"@, Some(JsonV::Bool(summary.is_streaming)));
    step_is_found(p1, "isStreaming"@, Some(JsonV::Bool(summary.is_streaming)));
    let p3 = step(p2, "isCompacting"@, Some(JsonV::Bool(summary.is_compacting)));
    step_is_found(p2, "isCompacting"@, Some(JsonV::Bool(summary.is_compacting)));
    let p4 = step(p3, "isBashRunning"@, flag_value(summary.is_bash_running));
    step_is_found(p3, "isBashRunning"@, flag_value(summary.is_bash_running));
    let p5 = step(p4, "hasRunningRlmChildren"@, flag_value(summary.has_running_rlm_children));
    step_is_found(p4, "hasRunningRlmChildren"@, flag_value(summary.has_running_rlm_children));
    let p6 = step(p5, "usage"@, summary.usage);
    step_is_found(p5, "usage"@, summary.usage);
    let p7 = step(p6, "isRunningTools"@, flag_value(summary.is_running_tools));
    step_is_found(p6, "isRunningTools"@, flag_value(summary.is_running_tools));
    let p8 = step(p7, "attachedClients"@, Some(json::int_value(summary.attached_clients as int)));
    step_is_found(p7, "attachedClients"@, Some(json::int_value(summary.attached_clients as int)));
    assert(p8 == third_part(pairs, summary)) by {
        reveal(step);
        reveal(third_part);
    }
}

proof fn fourth_stamps()
    ensures
        text::stamp("directAttachedClients"@) == 108115100021,
        text::stamp("messageCount"@) == 117116109012,
        text::stamp("unfinishedActionCount"@) == 110116117021,
        text::stamp("sessionActions"@) == 105115115014,
        text::stamp("streamingMessage"@) == 115101115016,
        text::stamp("created"@) == 101100099007,
        text::stamp("modified"@) == 101100109008,
        text::stamp("firstMessage"@) == 97101102012,
{
    reveal_strlit("directAttachedClients");
    reveal_strlit("messageCount");
    reveal_strlit("unfinishedActionCount");
    reveal_strlit("sessionActions");
    reveal_strlit("streamingMessage");
    reveal_strlit("created");
    reveal_strlit("modified");
    reveal_strlit("firstMessage");
}

spec fn in_fourth_part(key: Seq<char>) -> bool {
    ||| text::stamp(key) == 108115100021
    ||| text::stamp(key) == 117116109012
    ||| text::stamp(key) == 110116117021
    ||| text::stamp(key) == 105115115014
    ||| text::stamp(key) == 115101115016
    ||| text::stamp(key) == 101100099007
    ||| text::stamp(key) == 101100109008
    ||| text::stamp(key) == 97101102012
}

proof fn fourth_part_is_found(pairs: Seq<(Seq<char>, JsonV)>, summary: SummaryV)
    ensures
        unknown_members(fourth_part(pairs, summary)) == unknown_members(pairs),
        forall|key: Seq<char>|
            !in_fourth_part(key) ==> #[trigger] json::lookup(fourth_part(pairs, summary), key)
                == json::lookup(pairs, key),
        json::lookup(pairs, "directAttachedClients"@) is None ==> json::lookup(fourth_part(pairs, summary), "directAttachedClients"@) == number_value(summary.direct_attached_clients),
        json::lookup(pairs, "messageCount"@) is None ==> json::lookup(fourth_part(pairs, summary), "messageCount"@) == Some(json::int_value(summary.message_count as int)),
        json::lookup(pairs, "unfinishedActionCount"@) is None ==> json::lookup(fourth_part(pairs, summary), "unfinishedActionCount"@) == number_value(summary.unfinished_action_count),
        json::lookup(pairs, "sessionActions"@) is None ==> json::lookup(fourth_part(pairs, summary), "sessionActions"@) == summary.session_actions,
        json::lookup(pairs, "streamingMessage"@) is None ==> json::lookup(fourth_part(pairs, summary), "streamingMessage"@) == summary.streaming_message,
        json::lookup(pairs, "created"@) is None ==> json::lookup(fourth_part(pairs, summary), "created"@) == text_value(summary.created),
        json::lookup(pairs, "modified"@) is None ==> json::lookup(fourth_part(pairs, summary), "modified"@) == text_value(summary.modified),
        json::lookup(pairs, "firstMessage"@) is None ==> json::lookup(fourth_part(pairs, summary), "firstMessage"@) == text_value(summary.first_message),
{
    fourth_stamps();
    let p1 = step(pairs, "directAttachedClients"@, number_value(summary.direct_attached_clients));
    step_is_found(pairs, "directAttachedClients"@, number_value(summary.direct_attached_clients));
    let p2 = step(p1, "messageCount"@, Some(json::int_value(summary.message_count as int)));
    step_is_found(p1, "messageCount"@, Some(json::int_value(summary.message_count as int)));
    let p3 = step(p2, "unfinishedActionCount"@, number_value(summary.unfinished_action_count));
    step_is_found(p2, "unfinishedActionCount"@, number_value(summary.unfinished_action_count));
    let p4 = step(p3, "sessionActions"@, summary.session_actions);
    step_is_found(p3, "sessionActions"@, summary.session_actions);
    let p5 = step(p4, "streamingMessage"@, summary.streaming_message);
    step_is_found(p4, "streamingMessage"@, summary.streaming_message);
    let p6 = step(p5, "created"@, text_value(summary.created));
    step_is_found(p5, "created"@, text_value(summary.created));
    let p7 = step(p6, "modified"@, text_value(summary.modified));
    step_is_found(p6, "modified"@, text_value(summary.modified));
    let p8 = step(p7, "firstMessage"@, text_value(summary.first_message));
    step_is_found(p7, "firstMessage"@, text_value(summary.first_message));
    assert(p8 == fourth_part(pairs, summary)) by {
        reveal(step);
        reveal(fourth_part);
    }
}

proof fn fifth_stamps()
    ensures
        text::stamp("parentActiveSessionId"@) == 115100112021,
        text::stamp("parentSessionId"@) == 111100112015,
        text::stamp("parentSessionPath"@) == 110104112017,
        text::stamp("rlmChildId"@) == 100100114010,
        text::stamp("repliedSinceTask"@) == 84107114016,
        text::stamp("rlmParentNodeId"@) == 100100114015,
        text::stamp("spawnCode"@) == 111101115009,
        text::stamp("modelFallbackMessage"@) == 115101109020,
{
    reveal_strlit("parentActiveSessionId");
    reveal_strlit("parentSessionId");
    reveal_strlit("parentSessionPath");
    reveal_strlit("rlmChildId");
    reveal_strlit("repliedSinceTask");
    reveal_strlit("rlmParentNodeId");
    reveal_strlit("spawnCode");
    reveal_strlit("modelFallbackMessage");
}

spec fn in_fifth_part(key: Seq<char>) -> bool {
    ||| text::stamp(key) == 115100112021
    ||| text::stamp(key) == 111100112015
    ||| text::stamp(key) == 110104112017
    ||| text::stamp(key) == 100100114010
    ||| text::stamp(key) == 84107114016
    ||| text::stamp(key) == 100100114015
    ||| text::stamp(key) == 111101115009
    ||| text::stamp(key) == 115101109020
}

proof fn fifth_part_is_found(pairs: Seq<(Seq<char>, JsonV)>, summary: SummaryV)
    ensures
        unknown_members(fifth_part(pairs, summary)) == unknown_members(pairs),
        forall|key: Seq<char>|
            !in_fifth_part(key) ==> #[trigger] json::lookup(fifth_part(pairs, summary), key)
                == json::lookup(pairs, key),
        json::lookup(pairs, "parentActiveSessionId"@) is None ==> json::lookup(fifth_part(pairs, summary), "parentActiveSessionId"@) == text_value(summary.parent_active_session_id),
        json::lookup(pairs, "parentSessionId"@) is None ==> json::lookup(fifth_part(pairs, summary), "parentSessionId"@) == text_value(summary.parent_session_id),
        json::lookup(pairs, "parentSessionPath"@) is None ==> json::lookup(fifth_part(pairs, summary), "parentSessionPath"@) == text_value(summary.parent_session_path),
        json::lookup(pairs, "rlmChildId"@) is None ==> json::lookup(fifth_part(pairs, summary), "rlmChildId"@) == text_value(summary.rlm_child_id),
        json::lookup(pairs, "repliedSinceTask"@) is None ==> json::lookup(fifth_part(pairs, summary), "repliedSinceTask"@) == flag_value(summary.replied_since_task),
        json::lookup(pairs, "rlmParentNodeId"@) is None ==> json::lookup(fifth_part(pairs, summary), "rlmParentNodeId"@) == text_value(summary.rlm_parent_node_id),
        json::lookup(pairs, "spawnCode"@) is None ==> json::lookup(fifth_part(pairs, summary), "spawnCode"@) == text_value(summary.spawn_code),
        json::lookup(pairs, "modelFallbackMessage"@) is None ==> json::lookup(fifth_part(pairs, summary), "modelFallbackMessage"@) == text_value(summary.model_fallback_message),
{
    fifth_stamps();
    let p1 = step(pairs, "parentActiveSessionId"@, text_value(summary.parent_active_session_id));
    step_is_found(pairs, "parentActiveSessionId"@, text_value(summary.parent_active_session_id));
    let p2 = step(p1, "parentSessionId"@, text_value(summary.parent_session_id));
    step_is_found(p1, "parentSessionId"@, text_value(summary.parent_session_id));
    let p3 = step(p2, "parentSessionPath"@, text_value(summary.parent_session_path));
    step_is_found(p2, "parentSessionPath"@, text_value(summary.parent_session_path));
    let p4 = step(p3, "rlmChildId"@, text_value(summary.rlm_child_id));
    step_is_found(p3, "rlmChildId"@, text_value(summary.rlm_child_id));
    let p5 = step(p4, "repliedSinceTask"@, flag_value(summary.replied_since_task));
    step_is_found(p4, "repliedSinceTask"@, flag_value(summary.replied_since_task));
    let p6 = step(p5, "rlmParentNodeId"@, text_value(summary.rlm_parent_node_id));
    step_is_found(p5, "rlmParentNodeId"@, text_value(summary.rlm_parent_node_id));
    let p7 = step(p6, "spawnCode"@, text_value(summary.spawn_code));
    step_is_found(p6, "spawnCode"@, text_value(summary.spawn_code));
    let p8 = step(p7, "modelFallbackMessage"@, text_value(summary.model_fallback_message));
    step_is_found(p7, "modelFallbackMessage"@, text_value(summary.model_fallback_message));
    assert(p8 == fifth_part(pairs, summary)) by {
        reveal(step);
        reveal(fifth_part);
    }
}

proof fn sixth_stamps()
    ensures
        text::stamp("diagnostics"@) == 105115100011,
        text::stamp("summary"@) == 114121115007,
        text::stamp("taskState"@) == 97101116009,
        text::stamp("rosterStatus"@) == 116115114012,
        text::stamp("statusLabel"@) == 98108115011,
        text::stamp("lastHeardFromAt"@) == 111116108015,
        text::stamp("workerState"@) == 97101119011,
        text::stamp("workerPid"@) == 80100119009,
{
    reveal_strlit("diagnostics");
    reveal_strlit("summary");
    reveal_strlit("taskState");
    reveal_strlit("rosterStatus");
    reveal_strlit("statusLabel");
    reveal_strlit("lastHeardFromAt");
    reveal_strlit("workerState");
    reveal_strlit("workerPid");
}

spec fn in_sixth_part(key: Seq<char>) -> bool {
    ||| text::stamp(key) == 105115100011
    ||| text::stamp(key) == 114121115007
    ||| text::stamp(key) == 97101116009
    ||| text::stamp(key) == 116115114012
    ||| text::stamp(key) == 98108115011
    ||| text::stamp(key) == 111116108015
    ||| text::stamp(key) == 97101119011
    ||| text::stamp(key) == 80100119009
}

proof fn sixth_part_is_found(pairs: Seq<(Seq<char>, JsonV)>, summary: SummaryV)
    ensures
        unknown_members(sixth_part(pairs, summary)) == unknown_members(pairs),
        forall|key: Seq<char>|
            !in_sixth_part(key) ==> #[trigger] json::lookup(sixth_part(pairs, summary), key)
                == json::lookup(pairs, key),
        json::lookup(pairs, "diagnostics"@) is None ==> json::lookup(sixth_part(pairs, summary), "diagnostics"@) == summary.diagnostics,
        json::lookup(pairs, "summary"@) is None ==> json::lookup(sixth_part(pairs, summary), "summary"@) == text_value(summary.summary),
        json::lookup(pairs, "taskState"@) is None ==> json::lookup(sixth_part(pairs, summary), "taskState"@) == text_value(summary.task_state),
        json::lookup(pairs, "rosterStatus"@) is None ==> json::lookup(sixth_part(pairs, summary), "rosterStatus"@) == status_name_value(summary.roster_status),
        json::lookup(pairs, "statusLabel"@) is None ==> json::lookup(sixth_part(pairs, summary), "statusLabel"@) == text_value(summary.status_label),
        json::lookup(pairs, "lastHeardFromAt"@) is None ==> json::lookup(sixth_part(pairs, summary), "lastHeardFromAt"@) == text_value(summary.last_heard_from_at),
        json::lookup(pairs, "workerState"@) is None ==> json::lookup(sixth_part(pairs, summary), "workerState"@) == text_value(summary.worker_state),
        json::lookup(pairs, "workerPid"@) is None ==> json::lookup(sixth_part(pairs, summary), "workerPid"@) == number_value(summary.worker_pid),
{
    sixth_stamps();
    let p1 = step(pairs, "diagnostics"@, summary.diagnostics);
    step_is_found(pairs, "diagnostics"@, summary.diagnostics);
    let p2 = step(p1, "summary"@, text_value(summary.summary));
    step_is_found(p1, "summary"@, text_value(summary.summary));
    let p3 = step(p2, "taskState"@, text_value(summary.task_state));
    step_is_found(p2, "taskState"@, text_value(summary.task_state));
    let p4 = step(p3, "rosterStatus"@, status_name_value(summary.roster_status));
    step_is_found(p3, "rosterStatus"@, status_name_value(summary.roster_status));
    let p5 = step(p4, "statusLabel"@, text_value(summary.status_label));
    step_is_found(p4, "statusLabel"@, text_value(summary.status_label));
    let p6 = step(p5, "lastHeardFromAt"@, text_value(summary.last_heard_from_at));
    step_is_found(p5, "lastHeardFromAt"@, text_value(summary.last_heard_from_at));
    let p7 = step(p6, "workerState"@, text_value(summary.worker_state));
    step_is_found(p6, "workerState"@, text_value(summary.worker_state));
    let p8 = step(p7, "workerPid"@, number_value(summary.worker_pid));
    step_is_found(p7, "workerPid"@, number_value(summary.worker_pid));
    assert(p8 == sixth_part(pairs, summary)) by {
        reveal(step);
        reveal(sixth_part);
    }
}

/// What a summary says of its members is there, unless it is a null: the
/// members that are known here are apart from those that are not.
pub open spec fn is_kept(summary: SummaryV) -> bool {
    &&& forall|i: int| 0 <= i < summary.extra.len() ==> !is_known_key((#[trigger] summary.extra[i]).0)
    &&& summary.model != Some(JsonV::Null)
    &&& summary.usage != Some(JsonV::Null)
    &&& summary.session_actions != Some(JsonV::Null)
    &&& summary.streaming_message != Some(JsonV::Null)
    &&& summary.diagnostics != Some(JsonV::Null)
}

proof fn known_is_not_extra(
    known: Seq<(Seq<char>, JsonV)>,
    extra: Seq<(Seq<char>, JsonV)>,
    key: Seq<char>,
)
    requires
        forall|i: int| 0 <= i < extra.len() ==> !is_known_key((#[trigger] extra[i]).0),
        is_known_key(key),
    ensures
        json::lookup(known + extra, key) == json::lookup(known, key),
{
    json::lookup_concat(known, extra, key);
    json::lookup_absent(extra, key);
}

proof fn first_members(summary: SummaryV)
    requires
        is_kept(summary),
    ensures
        summary_value(summary).get("id"@) == Some(JsonV::Str(summary.id)),
        summary_value(summary).get("lifecycle"@) == Some(JsonV::Str(summary.lifecycle)),
        summary_value(summary).get("activity"@) == Some(JsonV::Str(summary.activity)),
        summary_value(summary).get("isSessionActive"@) == Some(JsonV::Bool(summary.is_session_active)),
        summary_value(summary).get("hasActiveHeartbeat"@) == flag_value(summary.has_active_heartbeat),
        summary_value(summary).get("hasRegisteredHeartbeat"@) == flag_value(summary.has_registered_heartbeat),
        summary_value(summary).get("hasRegisteredCronJob"@) == flag_value(summary.has_registered_cron_job),
        summary_value(summary).get("lastActivityAt"@) == text_value(summary.last_activity_at),
{
    broadcast use json::lookup_empty;

    let p0 = Seq::<(Seq<char>, JsonV)>::empty();
    let p1 = first_part(p0, summary);
    first_part_is_found(p0, summary);
    let p2 = second_part(p1, summary);
    second_part_is_found(p1, summary);
    let p3 = third_part(p2, summary);
    third_part_is_found(p2, summary);
    let p4 = fourth_part(p3, summary);
    fourth_part_is_found(p3, summary);
    let p5 = fifth_part(p4, summary);
    fifth_part_is_found(p4, summary);
    let p6 = sixth_part(p5, summary);
    sixth_part_is_found(p5, summary);
    first_stamps();
    assert(json::lookup(p6, "id"@) == Some(JsonV::Str(summary.id)));
    known_is_not_extra(p6, summary.extra, "id"@);
    assert(json::lookup(p6, "lifecycle"@) == Some(JsonV::Str(summary.lifecycle)));
    known_is_not_extra(p6, summary.extra, "lifecycle"@);
    assert(json::lookup(p6, "activity"@) == Some(JsonV::Str(summary.activity)));
    known_is_not_extra(p6, summary.extra, "activity"@);
    assert(json::lookup(p6, "isSessionActive"@) == Some(JsonV::Bool(summary.is_session_active)));
    known_is_not_extra(p6, summary.extra, "isSessionActive"@);
    assert(json::lookup(p6, "hasActiveHeartbeat"@) == flag_value(summary.has_active_heartbeat));
    known_is_not_extra(p6, summary.extra, "hasActiveHeartbeat"@);
    assert(json::lookup(p6, "hasRegisteredHeartbeat"@) == flag_value(summary.has_registered_heartbeat));
    known_is_not_extra(p6, summary.extra, "hasRegisteredHeartbeat"@);
    assert(json::lookup(p6, "hasRegisteredCronJob"@) == flag_value(summary.has_registered_cron_job));
    known_is_not_extra(p6, summary.extra, "hasRegisteredCronJob"@);
    assert(json::lookup(p6, "lastActivityAt"@) == text_value(summary.last_activity_at));
    known_is_not_extra(p6, summary.extra, "lastActivityAt"@);
}

proof fn second_members(summary: SummaryV)
    requires
        is_kept(summary),
    ensures
        summary_value(summary).get("runtimeKind"@) == text_value(summary.runtime_kind),
        summary_value(summary).get("rlmDepth"@) == number_value(summary.rlm_depth),
        summary_value(summary).get("activeSessionId"@) == text_value(summary.active_session_id),
        summary_value(summary).get("sessionId"@) == Some(JsonV::Str(summary.session_id)),
        summary_value(summary).get("sessionFile"@) == text_value(summary.session_file),
        summary_value(summary).get("sessionName"@) == text_value(summary.session_name),
        summary_value(summary).get("cwd"@) == Some(JsonV::Str(summary.cwd)),
        summary_value(summary).get("model"@) == summary.model,
{
    broadcast use json::lookup_empty;

    let p0 = Seq::<(Seq<char>, JsonV)>::empty();
    let p1 = first_part(p0, summary);
    first_part_is_found(p0, summary);
    let p2 = second_part(p1, summary);
    second_part_is_found(p1, summary);
    let p3 = third_part(p2, summary);
    third_part_is_found(p2, summary);
    let p4 = fourth_part(p3, summary);
    fourth_part_is_found(p3, summary);
    let p5 = fifth_part(p4, summary);
    fifth_part_is_found(p4, summary);
    let p6 = sixth_part(p5, summary);
    sixth_part_is_found(p5, summary);
    second_stamps();
    assert(json::lookup(p6, "runtimeKind"@) == text_value(summary.runtime_kind));
    known_is_not_extra(p6, summary.extra, "runtimeKind"@);
    assert(json::lookup(p6, "rlmDepth"@) == number_value(summary.rlm_depth));
    known_is_not_extra(p6, summary.extra, "rlmDepth"@);
    assert(json::lookup(p6, "activeSessionId"@) == text_value(summary.active_session_id));
    known_is_not_extra(p6, summary.extra, "activeSessionId"@);
    assert(json::lookup(p6, "sessionId"@) == Some(JsonV::Str(summary.session_id)));
    known_is_not_extra(p6, summary.extra, "sessionId"@);
    assert(json::lookup(p6, "sessionFile"@) == text_value(summary.session_file));
    known_is_not_extra(p6, summary.extra, "sessionFile"@);
    assert(json::lookup(p6, "sessionName"@) == text_value(summary.session_name));
    known_is_not_extra(p6, summary.extra, "sessionName"@);
    assert(json::lookup(p6, "cwd"@) == Some(JsonV::Str(summary.cwd)));
    known_is_not_extra(p6, summary.extra, "cwd"@);
    assert(json::lookup(p6, "model"@) == summary.model);
    known_is_not_extra(p6, summary.extra, "model"@);
}

proof fn third_members(summary: SummaryV)
    requires
        is_kept(summary),
    ensures
        summary_value(summary).get("thinkingLevel"@) == text_value(summary.thinking_level),
        summary_value(summary).get("isStreaming"@) == Some(JsonV::Bool(summary.is_streaming)),
        summary_value(summary).get("isCompacting"@) == Some(JsonV::Bool(summary.is_compacting)),
        summary_value(summary).get("isBashRunning"@) == flag_value(summary.is_bash_running),
        summary_value(summary).get("hasRunningRlmChildren"@) == flag_value(summary.has_running_rlm_children),
        summary_value(summary).get("usage"@) == summary.usage,
        summary_value(summary).get("isRunningTools"@) == flag_value(summary.is_running_tools),
        summary_value(summary).get("attachedClients"@) == Some(json::int_value(summary.attached_clients as int)),
{
    broadcast use json::lookup_empty;

    let p0 = Seq::<(Seq<char>, JsonV)>::empty();
    let p1 = first_part(p0, summary);
    first_part_is_found(p0, summary);
    let p2 = second_part(p1, summary);
    second_part_is_found(p1, summary);
    let p3 = third_part(p2, summary);
    third_part_is_found(p2, summary);
    let p4 = fourth_part(p3, summary);
    fourth_part_is_found(p3, summary);
    let p5 = fifth_part(p4, summary);
    fifth_part_is_found(p4, summary);
    let p6 = sixth_part(p5, summary);
    sixth_part_is_found(p5, summary);
    third_stamps();
    assert(json::lookup(p6, "thinkingLevel"@) == text_value(summary.thinking_level));
    known_is_not_extra(p6, summary.extra, "thinkingLevel"@);
    assert(json::lookup(p6, "isStreaming"@) == Some(JsonV::Bool(summary.is_streaming)));
    known_is_not_extra(p6, summary.extra, "isStreaming"@);
    assert(json::lookup(p6, "isCompacting"@) == Some(JsonV::Bool(summary.is_compacting)));
    known_is_not_extra(p6, summary.extra, "isCompacting"@);
    assert(json::lookup(p6, "isBashRunning"@) == flag_value(summary.is_bash_running));
    known_is_not_extra(p6, summary.extra, "isBashRunning"@);
    assert(json::lookup(p6, "hasRunningRlmChildren"@) == flag_value(summary.has_running_rlm_children));
    known_is_not_extra(p6, summary.extra, "hasRunningRlmChildren"@);
    assert(json::lookup(p6, "usage"@) == summary.usage);
    known_is_not_extra(p6, summary.extra, "usage"@);
    assert(json::lookup(p6, "isRunningTools"@) == flag_value(summary.is_running_tools));
    known_is_not_extra(p6, summary.extra, "isRunningTools"@);
    assert(json::lookup(p6, "attachedClients"@) == Some(json::int_value(summary.attached_clients as int)));
    known_is_not_extra(p6, summary.extra, "attachedClients"@);
}

proof fn fourth_members(summary: SummaryV)
    requires
        is_kept(summary),
    ensures
        summary_value(summary).get("directAttachedClients"@) == number_value(summary.direct_attached_clients),
        summary_value(summary).get("messageCount"@) == Some(json::int_value(summary.message_count as int)),
        summary_value(summary).get("unfinishedActionCount"@) == number_value(summary.unfinished_action_count),
        summary_value(summary).get("sessionActions"@) == summary.session_actions,
        summary_value(summary).get("streamingMessage"@) == summary.streaming_message,
        summary_value(summary).get("created"@) == text_value(summary.created),
        summary_value(summary).get("modified"@) == text_value(summary.modified),
        summary_value(summary).get("firstMessage"@) == text_value(summary.first_message),
{
    broadcast use json::lookup_empty;

    let p0 = Seq::<(Seq<char>, JsonV)>::empty();
    let p1 = first_part(p0, summary);
    first_part_is_found(p0, summary);
    let p2 = second_part(p1, summary);
    second_part_is_found(p1, summary);
    let p3 = third_part(p2, summary);
    third_part_is_found(p2, summary);
    let p4 = fourth_part(p3, summary);
    fourth_part_is_found(p3, summary);
    let p5 = fifth_part(p4, summary);
    fifth_part_is_found(p4, summary);
    let p6 = sixth_part(p5, summary);
    sixth_part_is_found(p5, summary);
    fourth_stamps();
    assert(json::lookup(p6, "directAttachedClients"@) == number_value(summary.direct_attached_clients));
    known_is_not_extra(p6, summary.extra, "directAttachedClients"@);
    assert(json::lookup(p6, "messageCount"@) == Some(json::int_value(summary.message_count as int)));
    known_is_not_extra(p6, summary.extra, "messageCount"@);
    assert(json::lookup(p6, "unfinishedActionCount"@) == number_value(summary.unfinished_action_count));
    known_is_not_extra(p6, summary.extra, "unfinishedActionCount"@);
    assert(json::lookup(p6, "sessionActions"@) == summary.session_actions);
    known_is_not_extra(p6, summary.extra, "sessionActions"@);
    assert(json::lookup(p6, "streamingMessage"@) == summary.streaming_message);
    known_is_not_extra(p6, summary.extra, "streamingMessage"@);
    assert(json::lookup(p6, "created"@) == text_value(summary.created));
    known_is_not_extra(p6, summary.extra, "created"@);
    assert(json::lookup(p6, "modified"@) == text_value(summary.modified));
    known_is_not_extra(p6, summary.extra, "modified"@);
    assert(json::lookup(p6, "firstMessage"@) == text_value(summary.first_message));
    known_is_not_extra(p6, summary.extra, "firstMessage"@);
}

proof fn fifth_members(summary: SummaryV)
    requires
        is_kept(summary),
    ensures
        summary_value(summary).get("parentActiveSessionId"@) == text_value(summary.parent_active_session_id),
        summary_value(summary).get("parentSessionId"@) == text_value(summary.parent_session_id),
        summary_value(summary).get("parentSessionPath"@) == text_value(summary.parent_session_path),
        summary_value(summary).get("rlmChildId"@) == text_value(summary.rlm_child_id),
        summary_value(summary).get("repliedSinceTask"@) == flag_value(summary.replied_since_task),
        summary_value(summary).get("rlmParentNodeId"@) == text_value(summary.rlm_parent_node_id),
        summary_value(summary).get("spawnCode"@) == text_value(summary.spawn_code),
        summary_value(summary).get("modelFallbackMessage"@) == text_value(summary.model_fallback_message),
{
    broadcast use json::lookup_empty;

    let p0 = Seq::<(Seq<char>, JsonV)>::empty();
    let p1 = first_part(p0, summary);
    first_part_is_found(p0, summary);
    let p2 = second_part(p1, summary);
    second_part_is_found(p1, summary);
    let p3 = third_part(p2, summary);
    third_part_is_found(p2, summary);
    let p4 = fourth_part(p3, summary);
    fourth_part_is_found(p3, summary);
    let p5 = fifth_part(p4, summary);
    fifth_part_is_found(p4, summary);
    let p6 = sixth_part(p5, summary);
    sixth_part_is_found(p5, summary);
    fifth_stamps();
    assert(json::lookup(p6, "parentActiveSessionId"@) == text_value(summary.parent_active_session_id));
    known_is_not_extra(p6, summary.extra, "parentActiveSessionId"@);
    assert(json::lookup(p6, "parentSessionId"@) == text_value(summary.parent_session_id));
    known_is_not_extra(p6, summary.extra, "parentSessionId"@);
    assert(json::lookup(p6, "parentSessionPath"@) == text_value(summary.parent_session_path));
    known_is_not_extra(p6, summary.extra, "parentSessionPath"@);
    assert(json::lookup(p6, "rlmChildId"@) == text_value(summary.rlm_child_id));
    known_is_not_extra(p6, summary.extra, "rlmChildId"@);
    assert(json::lookup(p6, "repliedSinceTask"@) == flag_value(summary.replied_since_task));
    known_is_not_extra(p6, summary.extra, "repliedSinceTask"@);
    assert(json::lookup(p6, "rlmParentNodeId"@) == text_value(summary.rlm_parent_node_id));
    known_is_not_extra(p6, summary.extra, "rlmParentNodeId"@);
    assert(json::lookup(p6, "spawnCode"@) == text_value(summary.spawn_code));
    known_is_not_extra(p6, summary.extra, "spawnCode"@);
    assert(json::lookup(p6, "modelFallbackMessage"@) == text_value(summary.model_fallback_message));
    known_is_not_extra(p6, summary.extra, "modelFallbackMessage"@);
}

proof fn sixth_members(summary: SummaryV)
    requires
        is_kept(summary),
    ensures
        summary_value(summary).get("diagnostics"@) == summary.diagnostics,
        summary_value(summary).get("summary"@) == text_value(summary.summary),
        summary_value(summary).get("taskState"@) == text_value(summary.task_state),
        summary_value(summary).get("rosterStatus"@) == status_name_value(summary.roster_status),
        summary_value(summary).get("statusLabel"@) == text_value(summary.status_label),
        summary_value(summary).get("lastHeardFromAt"@) == text_value(summary.last_heard_from_at),
        summary_value(summary).get("workerState"@) == text_value(summary.worker_state),
        summary_value(summary).get("workerPid"@) == number_value(summary.worker_pid),
{
    broadcast use json::lookup_empty;

    let p0 = Seq::<(Seq<char>, JsonV)>::empty();
    let p1 = first_part(p0, summary);
    first_part_is_found(p0, summary);
    let p2 = second_part(p1, summary);
    second_part_is_found(p1, summary);
    let p3 = third_part(p2, summary);
    third_part_is_found(p2, summary);
    let p4 = fourth_part(p3, summary);
    fourth_part_is_found(p3, summary);
    let p5 = fifth_part(p4, summary);
    fifth_part_is_found(p4, summary);
    let p6 = sixth_part(p5, summary);
    sixth_part_is_found(p5, summary);
    sixth_stamps();
    assert(json::lookup(p6, "diagnostics"@) == summary.diagnostics);
    known_is_not_extra(p6, summary.extra, "diagnostics"@);
    assert(json::lookup(p6, "summary"@) == text_value(summary.summary));
    known_is_not_extra(p6, summary.extra, "summary"@);
    assert(json::lookup(p6, "taskState"@) == text_value(summary.task_state));
    known_is_not_extra(p6, summary.extra, "taskState"@);
    assert(json::lookup(p6, "rosterStatus"@) == status_name_value(summary.roster_status));
    known_is_not_extra(p6, summary.extra, "rosterStatus"@);
    assert(json::lookup(p6, "statusLabel"@) == text_value(summary.status_label));
    known_is_not_extra(p6, summary.extra, "statusLabel"@);
    assert(json::lookup(p6, "lastHeardFromAt"@) == text_value(summary.last_heard_from_at));
    known_is_not_extra(p6, summary.extra, "lastHeardFromAt"@);
    assert(json::lookup(p6, "workerState"@) == text_value(summary.worker_state));
    known_is_not_extra(p6, summary.extra, "workerState"@);
    assert(json::lookup(p6, "workerPid"@) == number_value(summary.worker_pid));
    known_is_not_extra(p6, summary.extra, "workerPid"@);
}

/// A summary is read back from its document, with the members that are not known
/// here: nothing is lost.
#[verifier::rlimit(60)]
#[verifier::spinoff_prover]
pub proof fn summary_is_read_back(summary: SummaryV)
    requires
        is_kept(summary),
    ensures
        is_summary(summary_value(summary)),
        summary_of(summary_value(summary)) == summary,
{
    let value = summary_value(summary);
    first_members(summary);
    second_members(summary);
    third_members(summary);
    fourth_members(summary);
    fifth_members(summary);
    sixth_members(summary);
    let p0 = Seq::<(Seq<char>, JsonV)>::empty();
    let p1 = first_part(p0, summary);
    first_part_is_found(p0, summary);
    let p2 = second_part(p1, summary);
    second_part_is_found(p1, summary);
    let p3 = third_part(p2, summary);
    third_part_is_found(p2, summary);
    let p4 = fourth_part(p3, summary);
    fourth_part_is_found(p3, summary);
    let p5 = fifth_part(p4, summary);
    fifth_part_is_found(p4, summary);
    let p6 = sixth_part(p5, summary);
    sixth_part_is_found(p5, summary);
    unknown_concat(p6, summary.extra);
    assert(unknown_members(p0) + summary.extra =~= summary.extra);
    if let Some(status) = summary.roster_status {
        roster_status_is_read_back(status);
    }
    assert(summary_of(value) =~= summary);
}

/// An agent as its worker reports it.
#[derive(Debug, PartialEq)]
pub struct WorkerRosterEntry {
    pub agent_id: String,
    pub queued_child: Option<bool>,
    pub seeded_cwd: Option<bool>,
    pub summary: RosterSessionSummary,
}

/// What a worker's entry says.
#[verifier::ext_equal]
pub struct WorkerEntryV {
    pub agent_id: Seq<char>,
    pub queued_child: Option<bool>,
    pub seeded_cwd: Option<bool>,
    pub summary: SummaryV,
}

impl View for WorkerRosterEntry {
    type V = WorkerEntryV;

    open spec fn view(&self) -> WorkerEntryV {
        WorkerEntryV {
            agent_id: self.agent_id@,
            queued_child: self.queued_child,
            seeded_cwd: self.seeded_cwd,
            summary: self.summary@,
        }
    }
}

impl Clone for WorkerRosterEntry {
    fn clone(&self) -> (r: Self)
        ensures
            r@ == self@,
    {
        WorkerRosterEntry {
            agent_id: self.agent_id.clone(),
            queued_child: self.queued_child,
            seeded_cwd: self.seeded_cwd,
            summary: self.summary.clone(),
        }
    }
}

/// An agent in the roster.
#[derive(Debug, PartialEq)]
pub struct AgentRosterEntry {
    pub agent_id: String,
    pub queued_child: Option<bool>,
    pub seeded_cwd: Option<bool>,
    pub summary: RosterSessionSummary,
    pub status: AgentRosterStatus,
    pub status_label: Option<String>,
    pub last_heard_from_at: Option<String>,
    pub worker_id: Option<String>,
}

/// What an entry of the roster says.
#[verifier::ext_equal]
pub struct EntryV {
    pub agent_id: Seq<char>,
    pub queued_child: Option<bool>,
    pub seeded_cwd: Option<bool>,
    pub summary: SummaryV,
    pub status: AgentRosterStatus,
    pub status_label: Option<Seq<char>>,
    pub last_heard_from_at: Option<Seq<char>>,
    pub worker_id: Option<Seq<char>>,
}

impl View for AgentRosterEntry {
    type V = EntryV;

    open spec fn view(&self) -> EntryV {
        EntryV {
            agent_id: self.agent_id@,
            queued_child: self.queued_child,
            seeded_cwd: self.seeded_cwd,
            summary: self.summary@,
            status: self.status,
            status_label: json::opt_view(self.status_label),
            last_heard_from_at: json::opt_view(self.last_heard_from_at),
            worker_id: json::opt_view(self.worker_id),
        }
    }
}

impl Clone for AgentRosterEntry {
    fn clone(&self) -> (r: Self)
        ensures
            r@ == self@,
    {
        AgentRosterEntry {
            agent_id: self.agent_id.clone(),
            queued_child: self.queued_child,
            seeded_cwd: self.seeded_cwd,
            summary: self.summary.clone(),
            status: self.status,
            status_label: self.status_label.clone(),
            last_heard_from_at: self.last_heard_from_at.clone(),
            worker_id: self.worker_id.clone(),
        }
    }
}

/// What is needed to tell which session a path means: what the file system said,
/// and the current directory.
pub struct SessionPaths {
    pub facts: PathFacts,
    pub current_dir: String,
}

impl SessionPaths {
    pub open spec fn wf(self) -> bool {
        self.facts.wf()
    }

    /// The canonical form of a session's path.
    pub open spec fn canonical(self, path: Seq<char>) -> Seq<char> {
        self.facts.canonical_of(
            path_facts::lexically_resolved(path, self.current_dir@, false),
        )
    }
}

/// The canonical form of a session's path: collapsed, and as the file system knows
/// it.
pub fn canonical_session_path(session_path: &str, paths: &SessionPaths) -> (r: String)
    requires
        paths.wf(),
    ensures
        r@ == paths.canonical(session_path@),
{
    let resolved = lexical_resolve(session_path, &paths.current_dir, false);
    paths.facts.canonical(&resolved)
}

/// The id of an agent: a child's id is unique only below its parent, so it goes
/// with its parent's path or id.
pub open spec fn agent_id(
    runtime_kind: Option<Seq<char>>,
    rlm_child_id: Option<Seq<char>>,
    session_id: Seq<char>,
    parent_session_path: Option<Seq<char>>,
    parent_active_session_id: Option<Seq<char>>,
    paths: SessionPaths,
) -> Seq<char> {
    match rlm_child_id {
        Some(child) if runtime_kind == Some("subagent"@) => match (
            parent_session_path,
            parent_active_session_id,
        ) {
            (Some(path), _) => paths.canonical(path) + "#"@ + child,
            (None, Some(parent)) => parent + "#"@ + child,
            (None, None) => child,
        },
        _ => session_id,
    }
}

/// The id of an agent.
pub fn roster_agent_id_for_summary(
    runtime_kind: Option<&str>,
    rlm_child_id: Option<&str>,
    session_id: &str,
    parent_session_path: Option<&str>,
    parent_active_session_id: Option<&str>,
    paths: &SessionPaths,
) -> (r: String)
    requires
        paths.wf(),
    ensures
        r@ == agent_id(
            json::opt_str_view(runtime_kind),
            json::opt_str_view(rlm_child_id),
            session_id@,
            json::opt_str_view(parent_session_path),
            json::opt_str_view(parent_active_session_id),
            *paths,
        ),
{
    let subagent: bool = match runtime_kind {
        Some(kind) => same(kind, "subagent"),
        None => false,
    };
    if subagent {
        if let Some(child) = rlm_child_id {
            return match (parent_session_path, parent_active_session_id) {
                (Some(path), _) => {
                    let parent = canonical_session_path(path, paths);
                    cat3(&parent, "#", child)
                },
                (None, Some(parent)) => cat3(parent, "#", child),
                (None, None) => child.to_owned(),
            };
        }
    }
    session_id.to_owned()
}

/// The id of the agent that a summary is of.
pub open spec fn entry_agent_id(summary: SummaryV, paths: SessionPaths) -> Seq<char> {
    agent_id(
        summary.runtime_kind,
        summary.rlm_child_id,
        summary.session_id,
        summary.parent_session_path,
        summary.parent_active_session_id,
        paths,
    )
}

fn as_text(value: &Option<String>) -> (r: Option<&str>)
    ensures
        json::opt_str_view(r) == json::opt_view(*value),
{
    match value {
        Some(text) => Some(text.as_str()),
        None => None,
    }
}

/// The id of the agent that a summary is of.
pub fn roster_agent_id_for_entry(summary: &RosterSessionSummary, paths: &SessionPaths) -> (r: String)
    requires
        paths.wf(),
    ensures
        r@ == entry_agent_id(summary@, *paths),
{
    roster_agent_id_for_summary(
        as_text(&summary.runtime_kind),
        as_text(&summary.rlm_child_id),
        &summary.session_id,
        as_text(&summary.parent_session_path),
        as_text(&summary.parent_active_session_id),
        paths,
    )
}

/// The entry that a worker reports for a summary, without what is large.
pub fn worker_roster_entry_from_summary(summary: &RosterSessionSummary, paths: &SessionPaths) -> (r:
    WorkerRosterEntry)
    requires
        paths.wf(),
    ensures
        r@ == (WorkerEntryV {
            agent_id: entry_agent_id(summary@, *paths),
            queued_child: None,
            seeded_cwd: None,
            summary: SummaryV {
                streaming_message: None,
                session_actions: None,
                diagnostics: None,
                ..summary@
            },
        }),
{
    let mut slim = summary.clone();
    slim.streaming_message = None;
    slim.session_actions = None;
    slim.diagnostics = None;
    let r = WorkerRosterEntry {
        agent_id: roster_agent_id_for_entry(summary, paths),
        queued_child: None,
        seeded_cwd: None,
        summary: slim,
    };
    assert(r.summary@ =~= SummaryV {
        streaming_message: None,
        session_actions: None,
        diagnostics: None,
        ..summary@
    });
    r
}

/// The status of the agent that a worker reports.
pub open spec fn worker_status(entry: WorkerEntryV) -> AgentRosterStatus {
    session_status(
        entry.summary.active_session_id is Some,
        Some(entry.summary.activity),
        Some(entry.summary.is_session_active),
        entry.queued_child == Some(true),
    )
}

fn classify_worker_roster_entry(entry: &WorkerRosterEntry) -> (r: AgentRosterStatus)
    ensures
        r == worker_status(entry@),
{
    let view = RosterSummaryView {
        active_session_id: entry.summary.active_session_id.clone(),
        activity: Some(entry.summary.activity.clone()),
        is_session_active: Some(entry.summary.is_session_active),
    };
    let queued: bool = match entry.queued_child {
        Some(queued) => queued,
        None => false,
    };
    classify_session_roster_status(&view, queued)
}

/// What is scheduled for a session that is not live.
#[derive(Debug, Clone, Copy, PartialEq, Eq, Structural)]
pub struct RegisteredHeartbeatFlags {
    pub has_registered_heartbeat: bool,
    pub has_registered_cron_job: bool,
}

/// A summary of a session that is not live any more.
pub open spec fn passive_summary(
    summary: SummaryV,
    registrations: Option<RegisteredHeartbeatFlags>,
) -> SummaryV {
    SummaryV {
        active_session_id: None,
        direct_attached_clients: None,
        has_active_heartbeat: None,
        has_registered_heartbeat: if registrations matches Some(flags)
            && flags.has_registered_heartbeat {
            Some(true)
        } else {
            None
        },
        has_registered_cron_job: if registrations matches Some(flags)
            && flags.has_registered_cron_job {
            Some(true)
        } else {
            None
        },
        has_running_rlm_children: None,
        is_bash_running: None,
        is_running_tools: None,
        worker_state: None,
        worker_pid: None,
        id: summary.session_id,
        activity: "idle"@,
        is_session_active: false,
        is_streaming: false,
        is_compacting: false,
        attached_clients: 0,
        ..summary
    }
}

/// The entry of an agent whose session is not live any more: what it had only
/// while it was live is gone.
pub fn passivated_worker_roster_entry(
    entry: &WorkerRosterEntry,
    registrations: Option<RegisteredHeartbeatFlags>,
) -> (r: WorkerRosterEntry)
    ensures
        r@ == (WorkerEntryV { summary: passive_summary(entry@.summary, registrations), ..entry@ }),
{
    let mut summary = entry.summary.clone();
    summary.active_session_id = None;
    summary.direct_attached_clients = None;
    summary.has_active_heartbeat = None;
    summary.has_registered_heartbeat = None;
    summary.has_registered_cron_job = None;
    summary.has_running_rlm_children = None;
    summary.is_bash_running = None;
    summary.is_running_tools = None;
    summary.worker_state = None;
    summary.worker_pid = None;
    summary.id = summary.session_id.clone();
    summary.activity = "idle".to_owned();
    summary.is_session_active = false;
    summary.is_streaming = false;
    summary.is_compacting = false;
    summary.attached_clients = 0;
    if let Some(flags) = registrations {
        if flags.has_registered_heartbeat {
            summary.has_registered_heartbeat = Some(true);
        }
        if flags.has_registered_cron_job {
            summary.has_registered_cron_job = Some(true);
        }
    }
    assert(summary@ =~= passive_summary(entry@.summary, registrations));
    WorkerRosterEntry {
        agent_id: entry.agent_id.clone(),
        queued_child: entry.queued_child,
        seeded_cwd: entry.seeded_cwd,
        summary,
    }
}

/// An agent whose session is not live any more is inactive, unless it is queued,
/// and to passivate it again changes nothing.
pub proof fn passive_agents_are_inactive(
    entry: WorkerEntryV,
    registrations: Option<RegisteredHeartbeatFlags>,
)
    ensures
        ({
            let passive = WorkerEntryV {
                summary: passive_summary(entry.summary, registrations),
                ..entry
            };
            &&& worker_status(passive) == if entry.queued_child == Some(true) {
                AgentRosterStatus::Running
            } else {
                AgentRosterStatus::Inactive
            }
            &&& passive_summary(passive.summary, registrations) == passive.summary
        }),
{
    let passive = passive_summary(entry.summary, registrations);
    assert(passive_summary(passive, registrations) =~= passive);
}

/// An empty queue of actions.
pub open spec fn no_actions() -> JsonV {
    JsonV::Obj(
        Seq::<(Seq<char>, JsonV)>::empty().push(("queuedCount"@, json::int_value(0))).push(
            ("steering"@, JsonV::Arr(Seq::empty())),
        ).push(("followUps"@, JsonV::Arr(Seq::empty()))),
    )
}

/// The full summary of an agent in the roster.
pub fn session_summary_from_roster_entry(
    summary: &RosterSessionSummary,
    roster_status: Option<AgentRosterStatus>,
    status_label: Option<&str>,
    last_heard_from_at: Option<&str>,
) -> (r: RosterSessionSummary)
    ensures
        r@ == (SummaryV {
            session_actions: Some(no_actions()),
            roster_status: match roster_status {
                Some(status) => Some(status),
                None => summary@.roster_status,
            },
            status_label: match json::opt_str_view(status_label) {
                Some(label) => Some(label),
                None => summary@.status_label,
            },
            last_heard_from_at: match json::opt_str_view(last_heard_from_at) {
                Some(at) => Some(at),
                None => summary@.last_heard_from_at,
            },
            ..summary@
        }),
{
    let mut full = summary.clone();
    let mut pairs = json::no_members();
    json::add_member(&mut pairs, "queuedCount", json::count(0));
    let steering: Vec<Json> = Vec::new();
    let follow_ups: Vec<Json> = Vec::new();
    assert(json::items(steering@) =~= Seq::<JsonV>::empty());
    assert(json::items(follow_ups@) =~= Seq::<JsonV>::empty());
    json::add_member(&mut pairs, "steering", json::array(steering));
    json::add_member(&mut pairs, "followUps", json::array(follow_ups));
    full.session_actions = Some(json::object(pairs));
    if let Some(status) = roster_status {
        full.roster_status = Some(status);
    }
    if let Some(label) = status_label {
        full.status_label = Some(label.to_owned());
    }
    if let Some(at) = last_heard_from_at {
        full.last_heard_from_at = Some(at.to_owned());
    }
    full
}

/// What happened to the roster.
#[derive(Debug, PartialEq)]
pub enum AgentRosterMutation {
    Write { agent_id: String },
    Delete { agent_id: String },
}

/// What happened to the roster.
pub enum MutationV {
    Write(Seq<char>),
    Delete(Seq<char>),
}

impl View for AgentRosterMutation {
    type V = MutationV;

    open spec fn view(&self) -> MutationV {
        match self {
            AgentRosterMutation::Write { agent_id } => MutationV::Write(agent_id@),
            AgentRosterMutation::Delete { agent_id } => MutationV::Delete(agent_id@),
        }
    }
}

/// What an entry is marked with: a mark that is not given stays, one that is given
/// may be empty.
#[derive(Debug, PartialEq)]
pub struct RosterEntryMarks {
    pub status_label: Option<Option<String>>,
    pub last_heard_from_at: Option<Option<String>>,
}

/// The supervisor's roster: the agents by id, which one has a live session, and
/// which one a session file belongs to.
pub struct AgentRoster {
    pub entries: TextMap<AgentRosterEntry>,
    pub agent_id_by_active_session_id: TextMap<String>,
    pub agent_id_by_session_file: TextMap<String>,
    /// What has happened, in order.
    pub mutations: Vec<AgentRosterMutation>,
}

/// What a roster says.
#[verifier::ext_equal]
pub struct RosterV {
    pub entries: Map<Seq<char>, EntryV>,
    pub by_active: Map<Seq<char>, Seq<char>>,
    pub by_file: Map<Seq<char>, Seq<char>>,
    pub mutations: Seq<MutationV>,
}

impl View for AgentRoster {
    type V = RosterV;

    open spec fn view(&self) -> RosterV {
        RosterV {
            entries: self.entries@.map_values(|entry: AgentRosterEntry| entry@),
            by_active: self.agent_id_by_active_session_id@.map_values(|id: String| id@),
            by_file: self.agent_id_by_session_file@.map_values(|id: String| id@),
            mutations: Seq::new(self.mutations@.len(), |i: int| self.mutations@[i]@),
        }
    }
}

/// The map without the key, where it leads to this id.
pub open spec fn unlinked(
    index: Map<Seq<char>, Seq<char>>,
    key: Seq<char>,
    id: Seq<char>,
) -> Map<Seq<char>, Seq<char>> {
    if index.contains_key(key) && index[key] == id {
        index.remove(key)
    } else {
        index
    }
}

/// The roster after its indexes were made to forget an entry.
pub open spec fn without_indexes(roster: RosterV, entry: EntryV, paths: SessionPaths) -> RosterV {
    RosterV {
        by_active: match entry.summary.active_session_id {
            Some(active) => unlinked(roster.by_active, active, entry.agent_id),
            None => roster.by_active,
        },
        by_file: match entry.summary.session_file {
            Some(file) => unlinked(roster.by_file, paths.canonical(file), entry.agent_id),
            None => roster.by_file,
        },
        ..roster
    }
}

/// The roster after an agent was deleted.
pub open spec fn deleted(roster: RosterV, id: Seq<char>, paths: SessionPaths) -> RosterV {
    if roster.entries.contains_key(id) {
        let forgotten = without_indexes(roster, roster.entries[id], paths);
        RosterV {
            entries: forgotten.entries.remove(id),
            mutations: forgotten.mutations.push(MutationV::Delete(id)),
            ..forgotten
        }
    } else {
        roster
    }
}

/// The roster after another agent that had this session file was deleted.
pub open spec fn evicted(
    roster: RosterV,
    file: Seq<char>,
    id: Seq<char>,
    paths: SessionPaths,
) -> RosterV {
    if roster.by_file.contains_key(file) && roster.by_file[file] != id {
        deleted(roster, roster.by_file[file], paths)
    } else {
        roster
    }
}

/// The roster after an entry was written: the entry that its agent had is
/// forgotten, and so is another agent that had its session file.
pub open spec fn written(roster: RosterV, entry: EntryV, paths: SessionPaths) -> RosterV {
    let id = entry.agent_id;
    let fresh = if roster.entries.contains_key(id) {
        without_indexes(roster, roster.entries[id], paths)
    } else {
        roster
    };
    let filed = match entry.summary.session_file {
        Some(path) => {
            let file = paths.canonical(path);
            let alone = evicted(fresh, file, id, paths);
            RosterV { by_file: alone.by_file.insert(file, id), ..alone }
        },
        None => fresh,
    };
    RosterV {
        entries: filed.entries.insert(id, entry),
        by_active: match entry.summary.active_session_id {
            Some(active) => filed.by_active.insert(active, id),
            None => filed.by_active,
        },
        mutations: filed.mutations.push(MutationV::Write(id)),
        ..filed
    }
}

/// The roster after an agent was marked.
pub open spec fn amended(roster: RosterV, id: Seq<char>, marks: RosterEntryMarks) -> RosterV {
    if roster.entries.contains_key(id) {
        let entry = roster.entries[id];
        let marked = EntryV {
            status_label: match marks.status_label {
                Some(label) => json::opt_view(label),
                None => entry.status_label,
            },
            last_heard_from_at: match marks.last_heard_from_at {
                Some(at) => json::opt_view(at),
                None => entry.last_heard_from_at,
            },
            ..entry
        };
        RosterV {
            entries: roster.entries.insert(id, marked),
            mutations: roster.mutations.push(MutationV::Write(id)),
            ..roster
        }
    } else {
        roster
    }
}

/// The entry that is kept for what a worker reports.
pub open spec fn stored_entry(
    entry: WorkerEntryV,
    worker_id: Option<Seq<char>>,
    status_label: Option<Seq<char>>,
) -> EntryV {
    EntryV {
        agent_id: entry.agent_id,
        queued_child: entry.queued_child,
        seeded_cwd: entry.seeded_cwd,
        summary: entry.summary,
        status: worker_status(entry),
        status_label: if entry.queued_child == Some(true) {
            Some("queued"@)
        } else {
            status_label
        },
        last_heard_from_at: None,
        worker_id,
    }
}

/// The indexes of the roster and its agents belong together: an agent is kept
/// under its id, no two agents have the same session file, the file of an agent
/// leads to it, and what the indexes know is true of the agents.
pub open spec fn consistent(roster: RosterV, paths: SessionPaths) -> bool {
    &&& forall|id: Seq<char>| #[trigger]
        roster.entries.contains_key(id) ==> roster.entries[id].agent_id == id
    &&& forall|id: Seq<char>| #[trigger]
        roster.entries.contains_key(id) ==> match roster.entries[id].summary.session_file {
            Some(path) => roster.by_file.contains_key(paths.canonical(path))
                && roster.by_file[paths.canonical(path)] == id,
            None => true,
        }
    &&& forall|file: Seq<char>| #[trigger]
        roster.by_file.contains_key(file) ==> {
            let id = roster.by_file[file];
            roster.entries.contains_key(id) && (
            roster.entries[id].summary.session_file matches Some(path) && paths.canonical(path)
                == file)
        }
    &&& forall|active: Seq<char>| #[trigger]
        roster.by_active.contains_key(active) ==> {
            let id = roster.by_active[active];
            roster.entries.contains_key(id) && roster.entries[id].summary.active_session_id
                == Some(active)
        }
}

/// Deleting an agent keeps the roster consistent.
pub proof fn deleting_keeps_the_roster_consistent(
    roster: RosterV,
    id: Seq<char>,
    paths: SessionPaths,
)
    requires
        consistent(roster, paths),
    ensures
        consistent(deleted(roster, id, paths), paths),
        !deleted(roster, id, paths).entries.contains_key(id),
{
    let after = deleted(roster, id, paths);
    if roster.entries.contains_key(id) {
        assert forall|file: Seq<char>| #[trigger] after.by_file.contains_key(file) implies {
            let other = after.by_file[file];
            after.entries.contains_key(other) && (
            after.entries[other].summary.session_file matches Some(path) && paths.canonical(path)
                == file)
        } by {
            assert(roster.by_file.contains_key(file));
        }
        assert forall|active: Seq<char>| #[trigger] after.by_active.contains_key(active) implies {
            let other = after.by_active[active];
            after.entries.contains_key(other) && after.entries[other].summary.active_session_id
                == Some(active)
        } by {
            assert(roster.by_active.contains_key(active));
        }
        assert forall|other: Seq<char>| #[trigger] after.entries.contains_key(other) implies match
        after.entries[other].summary.session_file {
            Some(path) => after.by_file.contains_key(paths.canonical(path))
                && after.by_file[paths.canonical(path)] == other,
            None => true,
        } by {
            assert(roster.entries.contains_key(other));
        }
    }
}

/// Writing an entry keeps the roster consistent: what a session file or a live
/// session leads to is always an agent that has it, and no two agents share a
/// session file.
pub proof fn writing_keeps_the_roster_consistent(
    roster: RosterV,
    entry: EntryV,
    paths: SessionPaths,
)
    requires
        consistent(roster, paths),
    ensures
        consistent(written(roster, entry, paths), paths),
        written(roster, entry, paths).entries[entry.agent_id] == entry,
{
    let id = entry.agent_id;
    let after = written(roster, entry, paths);
    let fresh = if roster.entries.contains_key(id) {
        without_indexes(roster, roster.entries[id], paths)
    } else {
        roster
    };
    // Without its own entry the roster is consistent.
    let rest = RosterV { entries: fresh.entries.remove(id), ..fresh };
    assert(consistent(rest, paths)) by {
        assert forall|file: Seq<char>| #[trigger] rest.by_file.contains_key(file) implies {
            let other = rest.by_file[file];
            rest.entries.contains_key(other) && (
            rest.entries[other].summary.session_file matches Some(path) && paths.canonical(path)
                == file)
        } by {
            assert(roster.by_file.contains_key(file));
        }
        assert forall|active: Seq<char>| #[trigger] rest.by_active.contains_key(active) implies {
            let other = rest.by_active[active];
            rest.entries.contains_key(other) && rest.entries[other].summary.active_session_id
                == Some(active)
        } by {
            assert(roster.by_active.contains_key(active));
        }
        assert forall|other: Seq<char>| #[trigger] rest.entries.contains_key(other) implies match
        rest.entries[other].summary.session_file {
            Some(path) => rest.by_file.contains_key(paths.canonical(path))
                && rest.by_file[paths.canonical(path)] == other,
            None => true,
        } by {
            assert(roster.entries.contains_key(other));
        }
        assert forall|other: Seq<char>| #[trigger]
            rest.entries.contains_key(other) implies rest.entries[other].agent_id == other by {
            assert(roster.entries.contains_key(other));
        }
    }
    match entry.summary.session_file {
        Some(path) => {
            let file = paths.canonical(path);
            let alone = evicted(fresh, file, id, paths);
            let alone_rest = evicted(rest, file, id, paths);
            if rest.by_file.contains_key(file) && rest.by_file[file] != id {
                deleting_keeps_the_roster_consistent(rest, rest.by_file[file], paths);
                assert(alone_rest.entries =~= alone.entries.remove(id));
                assert(alone_rest.by_file =~= alone.by_file);
                assert(alone_rest.by_active =~= alone.by_active);
            }
            assert(consistent(alone_rest, paths));
            assert(!alone_rest.by_file.contains_key(file)) by {
                if alone_rest.by_file.contains_key(file) {
                    let other = alone_rest.by_file[file];
                    assert(alone_rest.entries.contains_key(other));
                    assert(other != id);
                }
            }
            assert(after.entries =~= alone_rest.entries.insert(id, entry));
            assert(after.by_file =~= alone_rest.by_file.insert(file, id));
            with_entry_is_consistent(alone_rest, entry, paths, after);
        },
        None => {
            assert(after.entries =~= rest.entries.insert(id, entry));
            with_entry_is_consistent(rest, entry, paths, after);
        },
    }
}

/// Marking an agent keeps the roster consistent.
pub proof fn marking_keeps_the_roster_consistent(
    roster: RosterV,
    id: Seq<char>,
    marks: RosterEntryMarks,
    paths: SessionPaths,
)
    requires
        consistent(roster, paths),
    ensures
        consistent(amended(roster, id, marks), paths),
{
    let after = amended(roster, id, marks);
    assert forall|other: Seq<char>| #[trigger] after.entries.contains_key(other) implies (
    after.entries[other].agent_id == other && match after.entries[other].summary.session_file {
        Some(path) => after.by_file.contains_key(paths.canonical(path))
            && after.by_file[paths.canonical(path)] == other,
        None => true,
    }) by {
        assert(roster.entries.contains_key(other));
    }
}

proof fn with_entry_is_consistent(
    rest: RosterV,
    entry: EntryV,
    paths: SessionPaths,
    after: RosterV,
)
    requires
        consistent(rest, paths),
        !rest.entries.contains_key(entry.agent_id),
        after.entries == rest.entries.insert(entry.agent_id, entry),
        match entry.summary.session_file {
            Some(path) => !rest.by_file.contains_key(paths.canonical(path)) && after.by_file
                == rest.by_file.insert(paths.canonical(path), entry.agent_id),
            None => after.by_file == rest.by_file,
        },
        after.by_active == match entry.summary.active_session_id {
            Some(active) => rest.by_active.insert(active, entry.agent_id),
            None => rest.by_active,
        },
    ensures
        consistent(after, paths),
{
    let id = entry.agent_id;
    assert forall|file: Seq<char>| #[trigger] after.by_file.contains_key(file) implies {
        let other = after.by_file[file];
        after.entries.contains_key(other) && (
        after.entries[other].summary.session_file matches Some(path) && paths.canonical(path)
            == file)
    } by {
        if rest.by_file.contains_key(file) {
            assert(rest.entries.contains_key(rest.by_file[file]));
        }
    }
    assert forall|active: Seq<char>| #[trigger] after.by_active.contains_key(active) implies {
        let other = after.by_active[active];
        after.entries.contains_key(other) && after.entries[other].summary.active_session_id
            == Some(active)
    } by {
        if rest.by_active.contains_key(active) {
            assert(rest.entries.contains_key(rest.by_active[active]));
        }
    }
    assert forall|other: Seq<char>| #[trigger] after.entries.contains_key(other) implies match
    after.entries[other].summary.session_file {
        Some(path) => after.by_file.contains_key(paths.canonical(path))
            && after.by_file[paths.canonical(path)] == other,
        None => true,
    } by {
        if other != id {
            assert(rest.entries.contains_key(other));
        }
    }
    assert forall|other: Seq<char>| #[trigger]
        after.entries.contains_key(other) implies after.entries[other].agent_id == other by {
        if other != id {
            assert(rest.entries.contains_key(other));
        }
    }
}

impl AgentRoster {
    /// Nothing is kept twice, and every agent is kept under its id.
    pub open spec fn wf(self) -> bool {
        &&& self.entries.wf()
        &&& self.agent_id_by_active_session_id.wf()
        &&& self.agent_id_by_session_file.wf()
        &&& forall|id: Seq<char>| #[trigger]
            self.entries@.contains_key(id) ==> self.entries@[id].agent_id@ == id
    }

    /// An empty roster.
    pub fn new() -> (r: Self)
        ensures
            r.wf(),
            r@ == (RosterV {
                entries: Map::empty(),
                by_active: Map::empty(),
                by_file: Map::empty(),
                mutations: Seq::empty(),
            }),
    {
        let r = AgentRoster {
            entries: TextMap::new(),
            agent_id_by_active_session_id: TextMap::new(),
            agent_id_by_session_file: TextMap::new(),
            mutations: Vec::new(),
        };
        assert(r@ =~= RosterV {
            entries: Map::empty(),
            by_active: Map::empty(),
            by_file: Map::empty(),
            mutations: Seq::empty(),
        });
        r
    }

    /// All agents.
    pub fn values(&self) -> (r: Vec<AgentRosterEntry>)
        ensures
            r@.len() == self.entries.entries@.len(),
            forall|i: int| 0 <= i < r@.len() ==> (#[trigger] r@[i])@ == self.entries.entries@[i].1@,
    {
        let mut all: Vec<AgentRosterEntry> = Vec::new();
        let mut i: usize = 0;
        while i < self.entries.entries.len()
            invariant
                i <= self.entries.entries.len(),
                all@.len() == i,
                forall|j: int|
                    0 <= j < i ==> (#[trigger] all@[j])@ == self.entries.entries@[j].1@,
            decreases self.entries.entries.len() - i,
        {
            all.push(self.entries.entries[i].1.clone());
            i += 1;
        }
        all
    }

    /// The agent with this id.
    pub fn get(&self, agent_id: &str) -> (r: Option<AgentRosterEntry>)
        requires
            self.wf(),
        ensures
            match r {
                Some(entry) => self@.entries.contains_key(agent_id@) && entry@
                    == self@.entries[agent_id@],
                None => !self@.entries.contains_key(agent_id@),
            },
    {
        match self.entries.get(agent_id) {
            Some(entry) => Some(entry.clone()),
            None => None,
        }
    }

    /// Whether there is an agent with this id.
    pub fn has(&self, agent_id: &str) -> (r: bool)
        requires
            self.wf(),
        ensures
            r == self@.entries.contains_key(agent_id@),
    {
        self.entries.contains_key(agent_id)
    }

    /// The agent that has this live session.
    pub fn by_active_session_id(&self, active_session_id: &str) -> (r: Option<AgentRosterEntry>)
        requires
            self.wf(),
        ensures
            match r {
                Some(entry) => self@.by_active.contains_key(active_session_id@)
                    && self@.entries.contains_key(self@.by_active[active_session_id@]) && entry@
                    == self@.entries[self@.by_active[active_session_id@]],
                None => !self@.by_active.contains_key(active_session_id@)
                    || !self@.entries.contains_key(self@.by_active[active_session_id@]),
            },
    {
        match self.agent_id_by_active_session_id.get(active_session_id) {
            Some(id) => self.get(id),
            None => None,
        }
    }

    /// The agent that this session file belongs to.
    pub fn by_session_file(&self, canonical_path: &str) -> (r: Option<AgentRosterEntry>)
        requires
            self.wf(),
        ensures
            match r {
                Some(entry) => self@.by_file.contains_key(canonical_path@)
                    && self@.entries.contains_key(self@.by_file[canonical_path@]) && entry@
                    == self@.entries[self@.by_file[canonical_path@]],
                None => !self@.by_file.contains_key(canonical_path@)
                    || !self@.entries.contains_key(self@.by_file[canonical_path@]),
            },
    {
        match self.agent_id_by_session_file.get(canonical_path) {
            Some(id) => self.get(id),
            None => None,
        }
    }

    /// Whether a session file belongs to an agent.
    pub fn has_session_file(&self, canonical_path: &str) -> (r: bool)
        requires
            self.wf(),
        ensures
            r == self@.by_file.contains_key(canonical_path@),
    {
        self.agent_id_by_session_file.contains_key(canonical_path)
    }

    /// The agents of a worker.
    pub fn entries_for_worker(&self, worker_id: &str) -> (r: Vec<AgentRosterEntry>)
        ensures
            Seq::new(r@.len(), |i: int| r@[i]@) == of_worker(self.entries.entries@, worker_id@),
    {
        let mut found: Vec<AgentRosterEntry> = Vec::new();
        let ghost all = self.entries.entries@;
        let mut i: usize = 0;
        assert(all.take(0) =~= Seq::empty());
        assert(Seq::new(found@.len(), |j: int| found@[j]@) =~= Seq::<EntryV>::empty());
        while i < self.entries.entries.len()
            invariant
                i <= self.entries.entries.len(),
                all == self.entries.entries@,
                Seq::new(found@.len(), |j: int| found@[j]@) == of_worker(
                    all.take(i as int),
                    worker_id@,
                ),
            decreases self.entries.entries.len() - i,
        {
            assert(all.take(i + 1).drop_last() =~= all.take(i as int));
            assert(all.take(i + 1).last() == all[i as int]);
            if is_some_text(&self.entries.entries[i].1.worker_id, worker_id) {
                let ghost before = Seq::new(found@.len(), |j: int| found@[j]@);
                let entry = self.entries.entries[i].1.clone();
                let ghost shown = entry@;
                found.push(entry);
                assert(Seq::new(found@.len(), |j: int| found@[j]@) =~= before.push(shown));
            }
            i += 1;
        }
        assert(all.take(i as int) =~= all);
        found
    }

    fn note(&mut self, mutation: AgentRosterMutation)
        ensures
            final(self)@ == (RosterV {
                mutations: old(self)@.mutations.push(mutation@),
                ..old(self)@
            }),
            final(self).entries == old(self).entries,
            final(self).agent_id_by_active_session_id == old(self).agent_id_by_active_session_id,
            final(self).agent_id_by_session_file == old(self).agent_id_by_session_file,
    {
        let ghost before = self@;
        let ghost shown = mutation@;
        self.mutations.push(mutation);
        assert(self@ =~= RosterV { mutations: before.mutations.push(shown), ..before });
    }

    fn drop_indexes(&mut self, entry: &AgentRosterEntry, paths: &SessionPaths)
        requires
            old(self).wf(),
            paths.wf(),
        ensures
            final(self).wf(),
            final(self)@ == without_indexes(old(self)@, entry@, *paths),
            final(self).entries == old(self).entries,
    {
        let ghost before = self@;
        if let Some(active) = &entry.summary.active_session_id {
            let linked: bool = match self.agent_id_by_active_session_id.get(active) {
                Some(id) => same(id, &entry.agent_id),
                None => false,
            };
            if linked {
                self.agent_id_by_active_session_id.remove(active);
            }
            assert(self@.by_active =~= unlinked(before.by_active, active@, entry.agent_id@));
        }
        let ghost middle = self@;
        if let Some(path) = &entry.summary.session_file {
            let file = canonical_session_path(path, paths);
            let linked: bool = match self.agent_id_by_session_file.get(&file) {
                Some(id) => same(id, &entry.agent_id),
                None => false,
            };
            if linked {
                self.agent_id_by_session_file.remove(&file);
            }
            assert(self@.by_file =~= unlinked(before.by_file, file@, entry.agent_id@));
        }
        assert(self@ =~= without_indexes(before, entry@, *paths));
    }

    /// Writes what a worker reports of an agent. Another agent that had its session
    /// file is deleted.
    pub fn write(
        &mut self,
        entry: WorkerRosterEntry,
        worker_id: Option<&str>,
        status_label: Option<&str>,
        paths: &SessionPaths,
    ) -> (r: AgentRosterEntry)
        requires
            old(self).wf(),
            paths.wf(),
        ensures
            final(self).wf(),
            r@ == stored_entry(
                entry@,
                json::opt_str_view(worker_id),
                json::opt_str_view(status_label),
            ),
            final(self)@ == written(old(self)@, r@, *paths),
    {
        let ghost before = self@;
        let status = classify_worker_roster_entry(&entry);
        let queued: bool = match entry.queued_child {
            Some(queued) => queued,
            None => false,
        };
        let stored = AgentRosterEntry {
            agent_id: entry.agent_id.clone(),
            queued_child: entry.queued_child,
            seeded_cwd: entry.seeded_cwd,
            summary: entry.summary,
            status,
            status_label: if queued {
                Some("queued".to_owned())
            } else {
                owned(status_label)
            },
            last_heard_from_at: None,
            worker_id: owned(worker_id),
        };
        let id = entry.agent_id;
        if let Some(previous) = self.get(&id) {
            self.drop_indexes(&previous, paths);
        }
        let ghost fresh = self@;
        if let Some(path) = &stored.summary.session_file {
            let file = canonical_session_path(path, paths);
            let other: Option<String> = match self.agent_id_by_session_file.get(&file) {
                Some(other) => if same(other, &id) {
                    None
                } else {
                    Some(other.clone())
                },
                None => None,
            };
            if let Some(other) = other {
                self.delete(&other, paths);
            }
            let ghost alone = self@;
            assert(alone == evicted(fresh, file@, id@, *paths));
            let ghost key = file@;
            self.agent_id_by_session_file.insert(file, id.clone());
            assert(self@ =~= RosterV { by_file: alone.by_file.insert(key, id@), ..alone });
        }
        let ghost filed = self@;
        if let Some(active) = &stored.summary.active_session_id {
            self.agent_id_by_active_session_id.insert(active.clone(), id.clone());
            assert(self@ =~= RosterV {
                by_active: filed.by_active.insert(active@, id@),
                ..filed
            });
        }
        let ghost linked = self@;
        let copy = stored.clone();
        self.entries.insert(id.clone(), stored);
        assert(self@ =~= RosterV { entries: linked.entries.insert(id@, copy@), ..linked });
        self.note(AgentRosterMutation::Write { agent_id: id });
        assert(self@ =~= written(before, copy@, *paths));
        copy
    }

    /// Deletes an agent.
    pub fn delete(&mut self, agent_id: &str, paths: &SessionPaths)
        requires
            old(self).wf(),
            paths.wf(),
        ensures
            final(self).wf(),
            final(self)@ == deleted(old(self)@, agent_id@, *paths),
    {
        let ghost before = self@;
        let entry = match self.get(agent_id) {
            Some(entry) => entry,
            None => return,
        };
        self.drop_indexes(&entry, paths);
        let ghost forgotten = self@;
        self.entries.remove(agent_id);
        assert(self@ =~= RosterV {
            entries: forgotten.entries.remove(agent_id@),
            ..forgotten
        });
        self.note(AgentRosterMutation::Delete { agent_id: agent_id.to_owned() });
        assert(self@ =~= deleted(before, agent_id@, *paths));
    }

    /// Marks an agent.
    pub fn amend(&mut self, agent_id: &str, marks: RosterEntryMarks)
        requires
            old(self).wf(),
        ensures
            final(self).wf(),
            final(self)@ == amended(old(self)@, agent_id@, marks),
    {
        let ghost before = self@;
        let mut entry = match self.get(agent_id) {
            Some(entry) => entry,
            None => return,
        };
        if let Some(label) = marks.status_label {
            entry.status_label = label;
        }
        if let Some(at) = marks.last_heard_from_at {
            entry.last_heard_from_at = at;
        }
        let ghost marked = entry@;
        self.entries.insert(agent_id.to_owned(), entry);
        assert(self@ =~= RosterV { entries: before.entries.insert(agent_id@, marked), ..before });
        self.note(AgentRosterMutation::Write { agent_id: agent_id.to_owned() });
    }
}

/// The agents of a worker, in the order of the roster.
pub open spec fn of_worker(
    entries: Seq<(String, AgentRosterEntry)>,
    worker_id: Seq<char>,
) -> Seq<EntryV>
    decreases entries.len(),
{
    if entries.len() == 0 {
        Seq::empty()
    } else if json::opt_view(entries.last().1.worker_id) == Some(worker_id) {
        of_worker(entries.drop_last(), worker_id).push(entries.last().1@)
    } else {
        of_worker(entries.drop_last(), worker_id)
    }
}

/// The document of a worker's entry.
pub open spec fn worker_entry_value(entry: WorkerEntryV) -> JsonV {
    let head = Seq::<(Seq<char>, JsonV)>::empty().push(("agentId"@, JsonV::Str(entry.agent_id)));
    let queued = json::push_opt(head, "queuedChild"@, flag_value(entry.queued_child));
    let seeded = json::push_opt(queued, "seededCwd"@, flag_value(entry.seeded_cwd));
    JsonV::Obj(seeded.push(("summary"@, summary_value(entry.summary))))
}

impl WorkerRosterEntry {
    /// The document of a worker's entry.
    pub fn to_value(&self) -> (r: Json)
        ensures
            r@ == worker_entry_value(self@),
    {
        let mut pairs = json::no_members();
        json::add_text(&mut pairs, "agentId", &self.agent_id);
        add_flag(&mut pairs, "queuedChild", self.queued_child);
        add_flag(&mut pairs, "seededCwd", self.seeded_cwd);
        json::add_member(&mut pairs, "summary", self.summary.to_value());
        json::object(pairs)
    }
}

/// The document of an entry.
pub open spec fn entry_value(entry: EntryV) -> JsonV {
    let head = Seq::<(Seq<char>, JsonV)>::empty().push(("agentId"@, JsonV::Str(entry.agent_id)));
    let queued = json::push_opt(head, "queuedChild"@, flag_value(entry.queued_child));
    let seeded = json::push_opt(queued, "seededCwd"@, flag_value(entry.seeded_cwd));
    let summed = seeded.push(("summary"@, summary_value(entry.summary))).push(
        ("status"@, JsonV::Str(entry.status.name())),
    );
    let labelled = json::push_opt_text(summed, "statusLabel"@, entry.status_label);
    let heard = json::push_opt_text(labelled, "lastHeardFromAt"@, entry.last_heard_from_at);
    JsonV::Obj(json::push_opt_text(heard, "workerId"@, entry.worker_id))
}

/// The document of an entry.
pub fn agent_roster_entry_to_value(entry: &AgentRosterEntry) -> (r: Json)
    ensures
        r@ == entry_value(entry@),
{
    let mut pairs = json::no_members();
    json::add_text(&mut pairs, "agentId", &entry.agent_id);
    add_flag(&mut pairs, "queuedChild", entry.queued_child);
    add_flag(&mut pairs, "seededCwd", entry.seeded_cwd);
    json::add_member(&mut pairs, "summary", entry.summary.to_value());
    json::add_text(&mut pairs, "status", entry.status.as_str());
    json::add_opt_text(&mut pairs, "statusLabel", &entry.status_label);
    json::add_opt_text(&mut pairs, "lastHeardFromAt", &entry.last_heard_from_at);
    json::add_opt_text(&mut pairs, "workerId", &entry.worker_id);
    json::object(pairs)
}

/// The fields of an entry in their order.
pub open spec fn entry_fields() -> Seq<Seq<char>> {
    seq![
        "agentId"@,
        "queuedChild"@,
        "seededCwd"@,
        "summary"@,
        "status"@,
        "statusLabel"@,
        "lastHeardFromAt"@,
        "workerId"@,
    ]
}

/// The document is an entry of the roster.
pub open spec fn is_entry(document: JsonV) -> bool {
    let value = json::by_name(document, entry_fields(), 5);
    &&& value.str_at("agentId"@) is Some
    &&& json::optional_bool(value, "queuedChild"@)
    &&& json::optional_bool(value, "seededCwd"@)
    &&& value.get("summary"@) matches Some(summary) && is_summary(summary)
    &&& status_at(value, "status"@) is Some
    &&& json::optional_text(value, "statusLabel"@)
    &&& json::optional_text(value, "lastHeardFromAt"@)
    &&& json::optional_text(value, "workerId"@)
}

/// The entry in a document.
pub open spec fn entry_of(document: JsonV) -> EntryV {
    let value = json::by_name(document, entry_fields(), 5);
    EntryV {
        agent_id: json::text_or_empty(value, "agentId"@),
        queued_child: value.bool_at("queuedChild"@),
        seeded_cwd: value.bool_at("seededCwd"@),
        summary: summary_of(value.get("summary"@)->0),
        status: status_at(value, "status"@)->0,
        status_label: value.str_at("statusLabel"@),
        last_heard_from_at: value.str_at("lastHeardFromAt"@),
        worker_id: value.str_at("workerId"@),
    }
}

/// Reads an entry; nothing where the document is none.
pub fn agent_roster_entry_from_value(value: &Json) -> (r: Option<AgentRosterEntry>)
    ensures
        match r {
            Some(entry) => is_entry(value@) && entry@ == entry_of(value@),
            None => !is_entry(value@),
        },
{
    let names = vec![
        "agentId",
        "queuedChild",
        "seededCwd",
        "summary",
        "status",
        "statusLabel",
        "lastHeardFromAt",
        "workerId",
    ];
    assert(json::names_view(names@) =~= entry_fields());
    let named = json::named(value, names, 5);
    let value = &named;
    if !(value.str_at("agentId").is_some() && json::is_optional_bool(value, "queuedChild")
        && json::is_optional_bool(value, "seededCwd") && json::is_optional_text(
        value,
        "statusLabel",
    ) && json::is_optional_text(value, "lastHeardFromAt") && json::is_optional_text(
        value,
        "workerId",
    )) {
        return None;
    }
    let status = match read_status_at(value, "status") {
        Some(status) => status,
        None => return None,
    };
    let summary = match value.get("summary") {
        Some(summary) => match read_summary(summary) {
            Some(summary) => summary,
            None => return None,
        },
        None => return None,
    };
    Some(
        AgentRosterEntry {
            agent_id: json::text_at(value, "agentId"),
            queued_child: value.bool_at("queuedChild"),
            seeded_cwd: value.bool_at("seededCwd"),
            summary,
            status,
            status_label: owned(value.str_at("statusLabel")),
            last_heard_from_at: owned(value.str_at("lastHeardFromAt")),
            worker_id: owned(value.str_at("workerId")),
        },
    )
}

proof fn entry_stamps()
    ensures
        text::stamp("agentId"@) == 73100097007,
        text::stamp("queuedChild"@) == 105100113011,
        text::stamp("seededCwd"@) == 67100115009,
        text::stamp("summary"@) == 114121115007,
        text::stamp("status"@) == 117115115006,
        text::stamp("statusLabel"@) == 98108115011,
        text::stamp("lastHeardFromAt"@) == 111116108015,
        text::stamp("workerId"@) == 73100119008,
{
    reveal_strlit("agentId");
    reveal_strlit("queuedChild");
    reveal_strlit("seededCwd");
    reveal_strlit("summary");
    reveal_strlit("status");
    reveal_strlit("statusLabel");
    reveal_strlit("lastHeardFromAt");
    reveal_strlit("workerId");
}

/// An entry is read back from its document.
pub proof fn entry_is_read_back(entry: EntryV)
    requires
        is_kept(entry.summary),
    ensures
        is_entry(entry_value(entry)),
        entry_of(entry_value(entry)) == entry,
{
    broadcast use {json::lookup_push, json::lookup_empty};

    entry_stamps();
    summary_is_read_back(entry.summary);
    roster_status_is_read_back(entry.status);
    let value = entry_value(entry);
    assert(value.str_at("agentId"@) == Some(entry.agent_id));
    assert(value.get("queuedChild"@) == flag_value(entry.queued_child));
    assert(value.get("seededCwd"@) == flag_value(entry.seeded_cwd));
    assert(value.get("summary"@) == Some(summary_value(entry.summary)));
    assert(value.str_at("status"@) == Some(entry.status.name()));
    assert(value.str_at("statusLabel"@) == entry.status_label);
    assert(value.str_at("lastHeardFromAt"@) == entry.last_heard_from_at);
    assert(value.str_at("workerId"@) == entry.worker_id);
    assert(entry_of(value) =~= entry);
}

} // verus!
