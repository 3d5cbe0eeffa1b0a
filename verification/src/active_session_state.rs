//! The sessions that are live in the daemon, and the clients that are attached to
//! them.

use vstd::prelude::*;

use crate::daemon_session_id;
use crate::daemon_session_id::{format_session_display_id, matches_session_id_suffix};
use crate::json;
use crate::json::{Json, JsonV};
use crate::text;
use crate::text::{cat2, cat3, cat4, contains_text, is_some_text, join, same};
use crate::text_map::TextMap;

verus! {

/// What an agent last said of its work.
#[derive(Debug, PartialEq)]
pub struct AgentStatus {
    pub summary: String,
    pub task_state: Option<String>,
    pub based_on_message_count: usize,
}

/// A session as the daemon sees it.
#[derive(Debug, PartialEq)]
pub struct ActiveSessionRuntimeSession {
    pub session_id: String,
    pub session_name: Option<String>,
    pub session_file: Option<String>,
    /// The session's own work; the work of its children is separate.
    pub is_session_active: bool,
    pub is_streaming: bool,
    pub is_compacting: bool,
    pub messages_len: usize,
    pub has_running_rlm_children: bool,
    pub rlm_depth: Option<i64>,
    pub messages: Vec<Json>,
    /// The message that is being streamed.
    pub streaming_message: Option<Json>,
    pub leaf_id: Option<String>,
    pub latest_agent_status: Option<AgentStatus>,
}

impl ActiveSessionRuntimeSession {
    /// Nothing is known of the session.
    pub open spec fn is_blank(self) -> bool {
        &&& self.session_id@.len() == 0
        &&& self.session_name is None
        &&& self.session_file is None
        &&& !self.is_session_active && !self.is_streaming && !self.is_compacting
        &&& self.messages_len == 0
        &&& !self.has_running_rlm_children
        &&& self.rlm_depth is None
        &&& self.messages@.len() == 0
        &&& self.streaming_message is None
        &&& self.leaf_id is None
        &&& self.latest_agent_status is None
    }
}

impl Default for ActiveSessionRuntimeSession {
    fn default() -> (r: Self)
        ensures
            r.is_blank(),
    {
        ActiveSessionRuntimeSession {
            session_id: String::new(),
            session_name: None,
            session_file: None,
            is_session_active: false,
            is_streaming: false,
            is_compacting: false,
            messages_len: 0,
            has_running_rlm_children: false,
            rlm_depth: None,
            messages: Vec::new(),
            streaming_message: None,
            leaf_id: None,
            latest_agent_status: None,
        }
    }
}

/// Where a session comes from.
#[derive(Debug, PartialEq)]
pub struct AgentSessionRuntimeMetadata {
    pub kind: Option<String>,
    pub prompt: Option<String>,
    pub parent_active_session_id: Option<String>,
    pub parent_session_id: Option<String>,
    pub parent_session_file: Option<String>,
    pub rlm_child_id: Option<String>,
    pub rlm_parent_node_id: Option<String>,
    pub spawn_code: Option<String>,
}

/// A running session.
#[derive(Debug, PartialEq)]
pub struct AgentSessionRuntime {
    pub session: ActiveSessionRuntimeSession,
    pub metadata: Option<AgentSessionRuntimeMetadata>,
    pub model_fallback_message: Option<String>,
}

impl Default for AgentSessionRuntime {
    fn default() -> (r: Self)
        ensures
            r.session.is_blank(),
            r.metadata is None,
            r.model_fallback_message is None,
    {
        AgentSessionRuntime {
            session: ActiveSessionRuntimeSession::default(),
            metadata: None,
            model_fallback_message: None,
        }
    }
}

/// What a dialog was answered.
#[derive(Debug, PartialEq)]
pub enum DaemonExtensionUIResponse {
    Value(String),
    Confirmed(bool),
    Cancelled,
}

/// A set of texts.
pub type TextSet = TextMap<()>;

/// A client that is connected.
pub struct DaemonSocketClient {
    pub id: String,
    pub attached_active_session_ids: TextSet,
    /// Events are dropped while the socket is blocked; these sessions get one
    /// snapshot afterwards.
    pub catchup_active_session_ids: Option<TextSet>,
    /// Why they get it: a replaced session goes before one that only fell behind.
    pub catchup_purposes: Option<TextMap<String>>,
    pub backpressured: Option<bool>,
    pub roster_subscribed: Option<bool>,
    pub roster_resync_pending: Option<bool>,
    pub authenticated: Option<bool>,
    pub authentication_role: Option<String>,
    pub transport: Option<String>,
    pub snapshot_streaming: Option<bool>,
    pub snapshot_active_session_ids: Option<TextSet>,
    pub snapshot_active_session_counts: Option<TextMap<u32>>,
    pub supports_extension_ui: bool,
    pub capabilities: TextSet,
    pub capabilities_by_active_session_id: Option<TextMap<TextSet>>,
}

impl DaemonSocketClient {
    /// The sets and maps of the client hold no key twice.
    pub open spec fn wf(self) -> bool {
        &&& self.attached_active_session_ids.wf()
        &&& self.catchup_active_session_ids matches Some(ids) ==> ids.wf()
        &&& self.catchup_purposes matches Some(purposes) ==> purposes.wf()
        &&& self.snapshot_active_session_ids matches Some(ids) ==> ids.wf()
        &&& self.snapshot_active_session_counts matches Some(counts) ==> counts.wf()
        &&& self.capabilities.wf()
        &&& self.capabilities_by_active_session_id matches Some(by_session) ==> by_session.wf()
            && forall|i: int|
            0 <= i < by_session.entries@.len() ==> (#[trigger] by_session.entries@[i]).1.wf()
    }

    /// A client of which nothing but its id is known.
    pub fn new(id: &str, supports_extension_ui: bool) -> (r: Self)
        ensures
            r.wf(),
            r.id@ == id@,
            r.supports_extension_ui == supports_extension_ui,
            r.attached_active_session_ids@ == Map::<Seq<char>, ()>::empty(),
            r.capabilities@ == Map::<Seq<char>, ()>::empty(),
            r.catchup_active_session_ids is None,
            r.catchup_purposes is None,
            r.backpressured is None,
            r.roster_subscribed is None,
            r.roster_resync_pending is None,
            r.authenticated is None,
            r.authentication_role is None,
            r.transport is None,
            r.snapshot_streaming is None,
            r.snapshot_active_session_ids is None,
            r.snapshot_active_session_counts is None,
            r.capabilities_by_active_session_id is None,
    {
        DaemonSocketClient {
            id: id.to_owned(),
            attached_active_session_ids: TextMap::new(),
            catchup_active_session_ids: None,
            catchup_purposes: None,
            backpressured: None,
            roster_subscribed: None,
            roster_resync_pending: None,
            authenticated: None,
            authentication_role: None,
            transport: None,
            snapshot_streaming: None,
            snapshot_active_session_ids: None,
            snapshot_active_session_counts: None,
            supports_extension_ui,
            capabilities: TextMap::new(),
            capabilities_by_active_session_id: None,
        }
    }
}

/// A session that is live.
pub struct ActiveSessionState {
    pub active_session_id: String,
    pub runtime: AgentSessionRuntime,
    /// The ids of the clients that are attached.
    pub clients: Vec<String>,
    /// Clients whose first snapshot is under way.
    pub pending_attaches: u64,
    /// The ids of the dialogs that wait for an answer.
    pub extension_ui_requests: TextSet,
    pub event_generation: String,
    pub last_event_sequence: u64,
    pub summary_state: Option<AgentStatus>,
    pub client_env: Option<TextMap<String>>,
}

impl ActiveSessionState {
    /// No dialog waits twice.
    pub open spec fn wf(self) -> bool {
        self.extension_ui_requests.wf()
    }

    /// A session that has just become live.
    pub fn new(active_session_id: &str, runtime: AgentSessionRuntime) -> (r: Self)
        ensures
            r.wf(),
            r.active_session_id@ == active_session_id@,
            r.event_generation@ == active_session_id@,
            r.runtime == runtime,
            r.clients@.len() == 0,
            r.pending_attaches == 0,
            r.extension_ui_requests@ == Map::<Seq<char>, ()>::empty(),
            r.last_event_sequence == 0,
            r.summary_state is None,
            r.client_env is None,
    {
        ActiveSessionState {
            active_session_id: active_session_id.to_owned(),
            runtime,
            clients: Vec::new(),
            pending_attaches: 0,
            extension_ui_requests: TextMap::new(),
            event_generation: active_session_id.to_owned(),
            last_event_sequence: 0,
            summary_state: None,
            client_env: None,
        }
    }
}

/// The text of a version 4 UUID: groups of hexadecimal digits in lower case, with
/// dashes between them.
pub open spec fn is_uuid(text: Seq<char>) -> bool {
    &&& text.len() == 36
    &&& forall|i: int|
        0 <= i < 36 ==> if i == 8 || i == 13 || i == 18 || i == 23 {
            #[trigger] text[i] == '-'
        } else {
            ('0' <= text[i] && text[i] <= '9') || ('a' <= text[i] && text[i] <= 'f')
        }
}

/// `uuid::Uuid::new_v4` as hyphenated text. Which one comes is random; every one
/// has this form.
#[verifier::external_body]
pub(crate) fn new_uuid() -> (r: String)
    ensures
        is_uuid(r@),
{
    uuid::Uuid::new_v4().to_string()
}

/// The last group of a UUID is how it is shown.
pub proof fn uuids_are_shown_by_their_last_group(uuid: Seq<char>)
    requires
        is_uuid(uuid),
    ensures
        daemon_session_id::display_id(uuid) == uuid.skip(24),
        daemon_session_id::display_id(uuid).len() == 12,
{
    let plain = daemon_session_id::without_dashes(uuid);
    uuid_without_dashes(uuid, 36);
    let expected = digits_before(uuid, 36);
    assert(plain == expected);
    digits_are_hex(uuid, 36);
    assert(text::lowered(plain) =~= plain) by {
        assert forall|i: int| 0 <= i < plain.len() implies (#[trigger] plain[i] as u32) < 128
            && text::ascii_lower(plain[i]) == plain[i] by {
            assert(is_small_hex(plain[i]));
        }
    }
    assert forall|i: int| 0 <= i < plain.len() implies daemon_session_id::is_hex_digit(
        #[trigger] plain[i],
    ) by {
        assert(is_small_hex(plain[i]));
    }
    digits_count(uuid, 36);
    last_digits(uuid, 36);
    assert(plain.skip(20) =~= uuid.skip(24));
}

/// The character is a hexadecimal digit in lower case.
pub open spec fn is_small_hex(c: char) -> bool {
    ('0' <= c && c <= '9') || ('a' <= c && c <= 'f')
}

spec fn digits_before(uuid: Seq<char>, n: int) -> Seq<char>
    decreases n,
{
    if n <= 0 {
        Seq::empty()
    } else if uuid[n - 1] == '-' {
        digits_before(uuid, n - 1)
    } else {
        digits_before(uuid, n - 1).push(uuid[n - 1])
    }
}

proof fn uuid_without_dashes(uuid: Seq<char>, n: int)
    requires
        0 <= n <= uuid.len(),
    ensures
        daemon_session_id::without_dashes(uuid.take(n)) == digits_before(uuid, n),
        n == uuid.len() ==> daemon_session_id::without_dashes(uuid) == digits_before(uuid, n),
    decreases n,
{
    if n > 0 {
        uuid_without_dashes(uuid, n - 1);
        assert(uuid.take(n).drop_last() =~= uuid.take(n - 1));
        assert(uuid.take(n).last() == uuid[n - 1]);
    } else {
        assert(uuid.take(0) =~= Seq::<char>::empty());
    }
    if n == uuid.len() {
        assert(uuid.take(n) =~= uuid);
    }
}

proof fn digits_are_hex(uuid: Seq<char>, n: int)
    requires
        is_uuid(uuid),
        0 <= n <= 36,
    ensures
        forall|i: int|
            0 <= i < digits_before(uuid, n).len() ==> is_small_hex(
                #[trigger] digits_before(uuid, n)[i],
            ),
    decreases n,
{
    if n > 0 {
        digits_are_hex(uuid, n - 1);
        let fewer = digits_before(uuid, n - 1);
        assert(uuid[n - 1] == '-' || is_small_hex(uuid[n - 1]));
        assert forall|i: int| 0 <= i < digits_before(uuid, n).len() implies is_small_hex(
            #[trigger] digits_before(uuid, n)[i],
        ) by {
            if i < fewer.len() {
                assert(digits_before(uuid, n)[i] == fewer[i]);
                assert(is_small_hex(fewer[i]));
            }
        }
    }
}

proof fn digits_count(uuid: Seq<char>, n: int)
    requires
        is_uuid(uuid),
        0 <= n <= 36,
    ensures
        digits_before(uuid, n).len() == n - (if n > 8 {
            1int
        } else {
            0
        }) - (if n > 13 {
            1int
        } else {
            0
        }) - (if n > 18 {
            1int
        } else {
            0
        }) - (if n > 23 {
            1int
        } else {
            0
        }),
    decreases n,
{
    if n > 0 {
        digits_count(uuid, n - 1);
        let dash = n - 1 == 8 || n - 1 == 13 || n - 1 == 18 || n - 1 == 23;
        assert(dash == (uuid[n - 1] == '-'));
    }
}

proof fn last_digits(uuid: Seq<char>, n: int)
    requires
        is_uuid(uuid),
        24 <= n <= 36,
    ensures
        digits_before(uuid, n).len() == n - 4,
        forall|i: int| 24 <= i < n ==> digits_before(uuid, n)[i - 4] == #[trigger] uuid[i],
    decreases n,
{
    digits_count(uuid, n);
    if n > 24 {
        last_digits(uuid, n - 1);
        assert(uuid[n - 1] != '-');
        assert forall|i: int| 24 <= i < n implies digits_before(uuid, n)[i - 4]
            == #[trigger] uuid[i] by {
            if i < n - 1 {
                assert(digits_before(uuid, n)[i - 4] == digits_before(uuid, n - 1)[i - 4]);
            }
        }
    }
}

/// The id that a UUID gives a session, where no session has it.
pub fn active_session_id_from(uuid: &str, existing_ids: Option<&TextSet>) -> (r: Option<String>)
    requires
        existing_ids is Some ==> existing_ids->0.wf(),
    ensures
        match r {
            Some(id) => id@ == daemon_session_id::display_id(uuid@) && (existing_ids is Some
                ==> !existing_ids->0@.contains_key(id@)),
            None => existing_ids is Some && existing_ids->0@.contains_key(
                daemon_session_id::display_id(uuid@),
            ),
        },
{
    let candidate = format_session_display_id(uuid);
    let taken: bool = match existing_ids {
        Some(index) => index.contains_key(&candidate),
        None => false,
    };
    if taken {
        None
    } else {
        Some(candidate)
    }
}

/// A random id for a session that no session has; nothing where every one of the
/// tries gave an id that is taken.
pub fn create_active_session_id(existing_ids: Option<&TextSet>, tries: u64) -> (r: Option<String>)
    requires
        existing_ids is Some ==> existing_ids->0.wf(),
    ensures
        match r {
            Some(id) => id@.len() == 12 && (forall|i: int|
                0 <= i < 12 ==> is_small_hex(#[trigger] id@[i])) && (existing_ids is Some
                ==> !existing_ids->0@.contains_key(id@)),
            None => tries == 0 || (existing_ids is Some && exists|uuid: Seq<char>|
                #[trigger] is_uuid(uuid) && existing_ids->0@.contains_key(
                    daemon_session_id::display_id(uuid),
                )),
        },
{
    let mut left: u64 = tries;
    while left > 0
        invariant
            left <= tries,
            existing_ids is Some ==> existing_ids->0.wf(),
            left < tries ==> existing_ids is Some && exists|uuid: Seq<char>|
                #[trigger] is_uuid(uuid) && existing_ids->0@.contains_key(
                    daemon_session_id::display_id(uuid),
                ),
        decreases left,
    {
        let uuid = new_uuid();
        proof {
            uuids_are_shown_by_their_last_group(uuid@);
        }
        if let Some(id) = active_session_id_from(&uuid, existing_ids) {
            assert forall|i: int| 0 <= i < 12 implies is_small_hex(#[trigger] id@[i]) by {
                assert(id@[i] == uuid@[24 + i]);
            }
            return Some(id);
        }
        left = left - 1;
    }
    None
}

/// A selector means several sessions.
#[derive(Debug, PartialEq)]
pub struct AmbiguousActiveSessionError {
    pub message: String,
}

/// Why a selector leads to no session.
#[derive(Debug, PartialEq)]
pub enum ResolveActiveSessionError {
    Ambiguous(AmbiguousActiveSessionError),
    Unknown(String),
}

impl ResolveActiveSessionError {
    /// The text of the error.
    pub open spec fn text(self) -> Seq<char> {
        match self {
            ResolveActiveSessionError::Ambiguous(error) => error.message@,
            ResolveActiveSessionError::Unknown(message) => message@,
        }
    }

    /// The text of the error.
    pub fn message(&self) -> (r: String)
        ensures
            r@ == self.text(),
    {
        match self {
            ResolveActiveSessionError::Ambiguous(error) => error.message.clone(),
            ResolveActiveSessionError::Unknown(message) => message.clone(),
        }
    }
}

/// The selector is the session's id or name.
pub open spec fn is_exact(state: ActiveSessionState, selector: Seq<char>) -> bool {
    state.runtime.session.session_id@ == selector || json::opt_view(
        state.runtime.session.session_name,
    ) == Some(selector)
}

/// One of the session's ids ends with the selector.
pub open spec fn is_ending(state: ActiveSessionState, selector: Seq<char>) -> bool {
    daemon_session_id::is_suffix(state.active_session_id@, selector)
        || daemon_session_id::is_suffix(state.runtime.session.session_id@, selector)
}

/// The selector means the session, by its whole id or name or by its end.
pub open spec fn is_meant(state: ActiveSessionState, selector: Seq<char>, whole: bool) -> bool {
    if whole {
        is_exact(state, selector)
    } else {
        is_ending(state, selector)
    }
}

/// A session with this id is among the sessions.
pub open spec fn has_id(states: Seq<ActiveSessionState>, id: Seq<char>) -> bool {
    exists|i: int| 0 <= i < states.len() && (#[trigger] states[i]).active_session_id@ == id
}

/// The sessions that the selector means, each once.
pub open spec fn meant(
    entries: Seq<(String, ActiveSessionState)>,
    selector: Seq<char>,
    whole: bool,
) -> Seq<ActiveSessionState>
    decreases entries.len(),
{
    if entries.len() == 0 {
        Seq::empty()
    } else {
        let found = meant(entries.drop_last(), selector, whole);
        let state = entries.last().1;
        if is_meant(state, selector, whole) && !has_id(found, state.active_session_id@) {
            found.push(state)
        } else {
            found
        }
    }
}

/// How a session is named in an error.
pub open spec fn match_text(state: ActiveSessionState) -> Seq<char> {
    let ids = state.active_session_id@ + "/"@ + state.runtime.session.session_id@;
    match state.runtime.session.session_name {
        Some(name) => ids + " ("@ + name@ + ")"@,
        None => ids,
    }
}

/// What is said where a selector means several sessions.
pub open spec fn ambiguous_session_text(
    selector: Seq<char>,
    states: Seq<ActiveSessionState>,
) -> Seq<char> {
    "Ambiguous active session \""@ + selector + "\": matches "@ + text::joined(
        Seq::new(states.len(), |i: int| match_text(states[i])),
        ", "@,
    )
}

fn find_meant(sessions: &TextMap<ActiveSessionState>, selector: &str, whole: bool) -> (r: Vec<
    usize,
>)
    ensures
        r@.len() == meant(sessions.entries@, selector@, whole).len(),
        forall|i: int|
            0 <= i < r@.len() ==> (#[trigger] r@[i]) < sessions.entries@.len()
                && sessions.entries@[r@[i] as int].1 == meant(
                sessions.entries@,
                selector@,
                whole,
            )[i],
{
    let mut found: Vec<usize> = Vec::new();
    let mut ids: Vec<String> = Vec::new();
    let ghost entries = sessions.entries@;
    let mut i: usize = 0;
    assert(entries.take(0) =~= Seq::empty());
    while i < sessions.entries.len()
        invariant
            i <= sessions.entries.len(),
            entries == sessions.entries@,
            found@.len() == meant(entries.take(i as int), selector@, whole).len(),
            ids@.len() == found@.len(),
            forall|j: int|
                0 <= j < found@.len() ==> (#[trigger] found@[j]) < i && entries[found@[j] as int].1
                    == meant(entries.take(i as int), selector@, whole)[j],
            forall|j: int|
                0 <= j < found@.len() ==> (#[trigger] ids@[j])@ == meant(
                    entries.take(i as int),
                    selector@,
                    whole,
                )[j].active_session_id@,
        decreases sessions.entries.len() - i,
    {
        let state = &sessions.entries[i].1;
        let ghost before = meant(entries.take(i as int), selector@, whole);
        assert(entries.take(i + 1).drop_last() =~= entries.take(i as int));
        assert(entries.take(i + 1).last() == entries[i as int]);
        let is_it: bool = if whole {
            same(&state.runtime.session.session_id, selector) || is_some_text(
                &state.runtime.session.session_name,
                selector,
            )
        } else {
            matches_session_id_suffix(&state.active_session_id, selector)
                || matches_session_id_suffix(&state.runtime.session.session_id, selector)
        };
        let known: bool = contains_text(&ids, &state.active_session_id);
        proof {
            if known {
                let j = choose|j: int|
                    0 <= j < ids@.len() && (#[trigger] ids@[j])@ == state.active_session_id@;
                assert(before[j].active_session_id@ == state.active_session_id@);
            }
            if has_id(before, state.active_session_id@) {
                let j = choose|j: int|
                    0 <= j < before.len() && (#[trigger] before[j]).active_session_id@
                        == state.active_session_id@;
                assert(ids@[j]@ == state.active_session_id@);
            }
        }
        if is_it && !known {
            found.push(i);
            ids.push(state.active_session_id.clone());
        }
        i += 1;
    }
    assert(entries.take(i as int) =~= entries);
    found
}

fn format_session_match(state: &ActiveSessionState) -> (r: String)
    ensures
        r@ == match_text(*state),
{
    let ids = cat3(&state.active_session_id, "/", &state.runtime.session.session_id);
    match &state.runtime.session.session_name {
        Some(name) => cat4(&ids, " (", name, ")"),
        None => ids,
    }
}

fn format_ambiguous_session_error(
    sessions: &TextMap<ActiveSessionState>,
    selector: &str,
    found: &Vec<usize>,
) -> (r: String)
    requires
        forall|i: int| 0 <= i < found@.len() ==> (#[trigger] found@[i]) < sessions.entries@.len(),
    ensures
        r@ == ambiguous_session_text(
            selector@,
            Seq::new(found@.len(), |i: int| sessions.entries@[found@[i] as int].1),
        ),
{
    let ghost states = Seq::new(found@.len(), |i: int| sessions.entries@[found@[i] as int].1);
    let mut matches: Vec<String> = Vec::new();
    let mut i: usize = 0;
    while i < found.len()
        invariant
            i <= found.len(),
            states == Seq::new(found@.len(), |i: int| sessions.entries@[found@[i] as int].1),
            forall|j: int|
                0 <= j < found@.len() ==> (#[trigger] found@[j]) < sessions.entries@.len(),
            matches@.len() == i,
            forall|j: int| 0 <= j < i ==> (#[trigger] matches@[j])@ == match_text(states[j]),
        decreases found.len() - i,
    {
        assert(found@[i as int] < sessions.entries@.len());
        matches.push(format_session_match(&sessions.entries[found[i]].1));
        i += 1;
    }
    assert(text::texts(matches@) =~= Seq::new(states.len(), |j: int| match_text(states[j])));
    let list = join(&matches, ", ");
    cat4("Ambiguous active session \"", selector, "\": matches ", &list)
}

/// The session that a selector means: the one under that id, else the only one
/// with that session id or name, else the only one whose id ends so.
pub fn resolve_active_session_state<'a>(
    sessions: &'a TextMap<ActiveSessionState>,
    selector: &str,
) -> (r: Result<&'a ActiveSessionState, ResolveActiveSessionError>)
    requires
        sessions.wf(),
    ensures
        ({
            let exact = meant(sessions.entries@, selector@, true);
            let ending = meant(sessions.entries@, selector@, false);
            if sessions@.contains_key(selector@) {
                r == Ok::<_, ResolveActiveSessionError>(&sessions@[selector@])
            } else if exact.len() == 1 {
                r == Ok::<_, ResolveActiveSessionError>(&exact[0])
            } else if exact.len() > 1 {
                r matches Err(ResolveActiveSessionError::Ambiguous(error)) && error.message@
                    == ambiguous_session_text(selector@, exact)
            } else if ending.len() == 1 {
                r == Ok::<_, ResolveActiveSessionError>(&ending[0])
            } else if ending.len() > 1 {
                r matches Err(ResolveActiveSessionError::Ambiguous(error)) && error.message@
                    == ambiguous_session_text(selector@, ending)
            } else {
                r matches Err(ResolveActiveSessionError::Unknown(message)) && message@
                    == "Unknown active session: "@ + selector@
            }
        }),
{
    if let Some(direct) = sessions.get(selector) {
        return Ok(direct);
    }
    let ghost exact = meant(sessions.entries@, selector@, true);
    let ghost ending = meant(sessions.entries@, selector@, false);
    let found = find_meant(sessions, selector, true);
    if found.len() == 1 {
        assert(found@[0] < sessions.entries@.len());
        return Ok(&sessions.entries[found[0]].1);
    }
    if found.len() > 1 {
        assert(Seq::new(found@.len(), |i: int| sessions.entries@[found@[i] as int].1) =~= exact);
        let message = format_ambiguous_session_error(sessions, selector, &found);
        return Err(ResolveActiveSessionError::Ambiguous(AmbiguousActiveSessionError { message }));
    }
    let found = find_meant(sessions, selector, false);
    if found.len() == 1 {
        assert(found@[0] < sessions.entries@.len());
        return Ok(&sessions.entries[found[0]].1);
    }
    if found.len() > 1 {
        assert(Seq::new(found@.len(), |i: int| sessions.entries@[found@[i] as int].1) =~= ending);
        let message = format_ambiguous_session_error(sessions, selector, &found);
        return Err(ResolveActiveSessionError::Ambiguous(AmbiguousActiveSessionError { message }));
    }
    Err(ResolveActiveSessionError::Unknown(cat2("Unknown active session: ", selector)))
}

/// What a selector leads to is a session that it means.
pub proof fn found_sessions_are_meant(
    entries: Seq<(String, ActiveSessionState)>,
    selector: Seq<char>,
    whole: bool,
    i: int,
)
    requires
        0 <= i < meant(entries, selector, whole).len(),
    ensures
        is_meant(meant(entries, selector, whole)[i], selector, whole),
    decreases entries.len(),
{
    if entries.len() > 0 {
        let found = meant(entries.drop_last(), selector, whole);
        if i < found.len() {
            found_sessions_are_meant(entries.drop_last(), selector, whole, i);
        }
    }
}

/// The names of the fields that go over the wire for a dialog.
pub fn extension_ui_payload_fields(payload: &Json) -> (r: Vec<String>)
    ensures
        text::texts(r@) == match payload@ {
            JsonV::Obj(pairs) => Seq::new(pairs.len(), |i: int| pairs[i].0),
            _ => Seq::empty(),
        },
{
    broadcast use json::object_view;

    let mut names: Vec<String> = Vec::new();
    match payload {
        Json::Object(pairs) => {
            let mut i: usize = 0;
            while i < pairs.len()
                invariant
                    i <= pairs.len(),
                    names@.len() == i,
                    forall|j: int| 0 <= j < i ==> (#[trigger] names@[j])@ == pairs@[j].0@,
                decreases pairs.len() - i,
            {
                names.push(pairs[i].0.clone());
                i += 1;
            }
            proof {
                let shown = json::members(pairs@);
                assert(payload@->Obj_0 =~= shown);
                assert(text::texts(names@) =~= Seq::new(shown.len(), |i: int| shown[i].0));
            }
        },
        _ => {
            assert(text::texts(names@) =~= Seq::<Seq<char>>::empty());
        },
    }
    names
}

} // verus!
