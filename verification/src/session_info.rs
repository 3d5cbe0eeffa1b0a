//! What is known of a saved session.

use vstd::prelude::*;

use crate::json;
use crate::json::{Json, JsonV, copied};
use crate::text::same;

verus! {

/// How a saved session was left.
#[derive(Debug, Clone, Copy, PartialEq, Eq, Structural)]
pub enum SessionStateStatus {
    Active,
    Archived,
    Crash,
}

impl SessionStateStatus {
    /// The name of the status on the wire.
    pub open spec fn name(self) -> Seq<char> {
        match self {
            SessionStateStatus::Active => "active"@,
            SessionStateStatus::Archived => "archived"@,
            SessionStateStatus::Crash => "crash"@,
        }
    }

    /// The status that has this name.
    pub open spec fn named(name: Seq<char>) -> Option<Self> {
        if name == "active"@ {
            Some(SessionStateStatus::Active)
        } else if name == "archived"@ {
            Some(SessionStateStatus::Archived)
        } else if name == "crash"@ {
            Some(SessionStateStatus::Crash)
        } else {
            None
        }
    }

    pub fn as_str(self) -> (r: &'static str)
        ensures
            r@ == self.name(),
    {
        match self {
            SessionStateStatus::Active => "active",
            SessionStateStatus::Archived => "archived",
            SessionStateStatus::Crash => "crash",
        }
    }
}

/// The status that has this name; an unknown name is no status.
pub fn session_state_status(value: &str) -> (r: Option<SessionStateStatus>)
    ensures
        r == SessionStateStatus::named(value@),
{
    if same(value, "active") {
        Some(SessionStateStatus::Active)
    } else if same(value, "archived") {
        Some(SessionStateStatus::Archived)
    } else if same(value, "crash") {
        Some(SessionStateStatus::Crash)
    } else {
        None
    }
}

/// The name of a status stands for that status.
pub proof fn status_is_read_back(status: SessionStateStatus)
    ensures
        SessionStateStatus::named(status.name()) == Some(status),
{
    reveal_strlit("active");
    reveal_strlit("archived");
    reveal_strlit("crash");
    assert("active"@.len() == 6 && "archived"@.len() == 8 && "crash"@.len() == 5);
}

/// The state of a saved session.
#[derive(Debug, Clone, Copy, PartialEq, Eq, Structural)]
pub struct SessionState {
    pub status: SessionStateStatus,
}

/// What an agent's task came to.
#[derive(Debug, Clone, Copy, PartialEq, Eq, Structural)]
pub enum AgentTaskState {
    NeedsInput,
    Completed,
}

impl AgentTaskState {
    /// The name of the verdict on the wire.
    pub open spec fn name(self) -> Seq<char> {
        match self {
            AgentTaskState::NeedsInput => "needs_input"@,
            AgentTaskState::Completed => "completed"@,
        }
    }

    /// The verdict that has this name.
    pub open spec fn named(name: Seq<char>) -> Option<Self> {
        if name == "needs_input"@ {
            Some(AgentTaskState::NeedsInput)
        } else if name == "completed"@ {
            Some(AgentTaskState::Completed)
        } else {
            None
        }
    }

    pub fn as_str(self) -> (r: &'static str)
        ensures
            r@ == self.name(),
    {
        match self {
            AgentTaskState::NeedsInput => "needs_input",
            AgentTaskState::Completed => "completed",
        }
    }
}

/// The verdict that has this name; an unknown name is no verdict.
pub fn agent_task_state(value: &str) -> (r: Option<AgentTaskState>)
    ensures
        r == AgentTaskState::named(value@),
{
    if same(value, "needs_input") {
        Some(AgentTaskState::NeedsInput)
    } else if same(value, "completed") {
        Some(AgentTaskState::Completed)
    } else {
        None
    }
}

/// The name of a verdict stands for that verdict.
pub proof fn verdict_is_read_back(verdict: AgentTaskState)
    ensures
        AgentTaskState::named(verdict.name()) == Some(verdict),
{
    reveal_strlit("needs_input");
    reveal_strlit("completed");
    assert("needs_input"@.len() == 11 && "completed"@.len() == 9);
}

/// What an agent last said of its work.
#[derive(Debug, PartialEq)]
pub struct AgentStatus {
    pub summary: String,
    pub task_state: Option<AgentTaskState>,
    pub based_on_message_count: i64,
}

/// What an agent's status says.
#[verifier::ext_equal]
pub struct AgentStatusV {
    pub summary: Seq<char>,
    pub task_state: Option<AgentTaskState>,
    pub based_on_message_count: i64,
}

impl View for AgentStatus {
    type V = AgentStatusV;

    open spec fn view(&self) -> AgentStatusV {
        AgentStatusV {
            summary: self.summary@,
            task_state: self.task_state,
            based_on_message_count: self.based_on_message_count,
        }
    }
}

impl Clone for AgentStatus {
    fn clone(&self) -> (r: Self)
        ensures
            r@ == self@,
    {
        AgentStatus {
            summary: self.summary.clone(),
            task_state: self.task_state,
            based_on_message_count: self.based_on_message_count,
        }
    }
}

/// What an optional status says.
pub open spec fn opt_status(status: Option<AgentStatus>) -> Option<AgentStatusV> {
    match status {
        Some(status) => Some(status@),
        None => None,
    }
}

/// A saved session. Times are milliseconds since the epoch, where they are known.
#[derive(Debug, PartialEq)]
pub struct SessionInfo {
    pub path: String,
    pub id: String,
    pub cwd: String,
    pub name: Option<String>,
    pub state: Option<SessionState>,
    pub parent_session_path: Option<String>,
    pub rlm_depth: i64,
    pub created: Option<i64>,
    pub modified: Option<i64>,
    pub message_count: u64,
    pub first_message: String,
    pub all_messages_text: String,
    pub agent_status: Option<AgentStatus>,
    pub usage: Option<Json>,
}

/// What a saved session says.
#[verifier::ext_equal]
pub struct SessionInfoV {
    pub path: Seq<char>,
    pub id: Seq<char>,
    pub cwd: Seq<char>,
    pub name: Option<Seq<char>>,
    pub state: Option<SessionState>,
    pub parent_session_path: Option<Seq<char>>,
    pub rlm_depth: i64,
    pub created: Option<i64>,
    pub modified: Option<i64>,
    pub message_count: u64,
    pub first_message: Seq<char>,
    pub all_messages_text: Seq<char>,
    pub agent_status: Option<AgentStatusV>,
    pub usage: Option<JsonV>,
}

impl View for SessionInfo {
    type V = SessionInfoV;

    open spec fn view(&self) -> SessionInfoV {
        SessionInfoV {
            path: self.path@,
            id: self.id@,
            cwd: self.cwd@,
            name: json::opt_view(self.name),
            state: self.state,
            parent_session_path: json::opt_view(self.parent_session_path),
            rlm_depth: self.rlm_depth,
            created: self.created,
            modified: self.modified,
            message_count: self.message_count,
            first_message: self.first_message@,
            all_messages_text: self.all_messages_text@,
            agent_status: opt_status(self.agent_status),
            usage: json::opt_json(self.usage),
        }
    }
}

impl Clone for SessionInfo {
    fn clone(&self) -> (r: Self)
        ensures
            r@ == self@,
    {
        SessionInfo {
            path: self.path.clone(),
            id: self.id.clone(),
            cwd: self.cwd.clone(),
            name: self.name.clone(),
            state: self.state,
            parent_session_path: self.parent_session_path.clone(),
            rlm_depth: self.rlm_depth,
            created: self.created,
            modified: self.modified,
            message_count: self.message_count,
            first_message: self.first_message.clone(),
            all_messages_text: self.all_messages_text.clone(),
            agent_status: match &self.agent_status {
                Some(status) => Some(status.clone()),
                None => None,
            },
            usage: copied(self.usage.as_ref()),
        }
    }
}

/// What a list of saved sessions says.
pub open spec fn infos(list: Seq<SessionInfo>) -> Seq<SessionInfoV> {
    Seq::new(list.len(), |i: int| list[i]@)
}

} // verus!
