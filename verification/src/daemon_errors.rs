//! The errors that the daemon reports with their details, and what a client makes
//! of them.

use vstd::prelude::*;

use crate::json;
use crate::json::{Json, JsonV, owned};
use crate::protocol::{DaemonClientError, DaemonResponse};
use crate::protocol;
use crate::text;
use crate::text::{cat3, same};

verus! {

/// A session that is known but cannot be reached yet: a later try may succeed.
#[derive(Debug, Clone, PartialEq)]
pub struct DaemonSessionRecoveringError {
    pub active_session_id: String,
}

/// The text for a session that is recovering.
pub open spec fn recovering_text(active_session_id: Seq<char>) -> Seq<char> {
    "Active session "@ + active_session_id + " is recovering; retry shortly"@
}

impl DaemonSessionRecoveringError {
    pub const CODE: &'static str = "session_recovering";

    pub fn new(active_session_id: &str) -> (r: Self)
        ensures
            r.active_session_id@ == active_session_id@,
    {
        DaemonSessionRecoveringError { active_session_id: active_session_id.to_owned() }
    }

    pub fn message(&self) -> (r: String)
        ensures
            r@ == recovering_text(self.active_session_id@),
    {
        cat3("Active session ", &self.active_session_id, " is recovering; retry shortly")
    }
}

/// The directory of a session is gone. `text` is how the session module words it.
#[derive(Debug, PartialEq)]
pub struct MissingSessionCwdError {
    pub issue: Json,
    pub text: String,
}

/// The file that a session was to be imported from is not there. `text` is how the
/// import module words it.
#[derive(Debug, PartialEq)]
pub struct SessionImportFileNotFoundError {
    pub file_path: String,
    pub text: String,
}

/// The session is live already. `text` is how the lease module words it.
#[derive(Debug, PartialEq)]
pub struct SessionAlreadyActiveError {
    pub session_path: String,
    pub active_session_id: Option<String>,
    pub text: String,
}

/// The details of an error, as a response carries them.
#[derive(Debug, PartialEq)]
pub enum DaemonErrorInfo {
    MissingSessionCwd { issue: Json },
    SessionImportFileNotFound { file_path: String },
    SessionAlreadyActive { session_path: String, active_session_id: Option<String> },
    SessionRecovering { active_session_id: String },
    CommandResultUncertain { client_id: String, command_id: String },
}

/// What the details of an error say.
pub enum InfoV {
    MissingSessionCwd(JsonV),
    SessionImportFileNotFound(Seq<char>),
    SessionAlreadyActive(Seq<char>, Option<Seq<char>>),
    SessionRecovering(Seq<char>),
    CommandResultUncertain(Seq<char>, Seq<char>),
}

impl View for DaemonErrorInfo {
    type V = InfoV;

    open spec fn view(&self) -> InfoV {
        match self {
            DaemonErrorInfo::MissingSessionCwd { issue } => InfoV::MissingSessionCwd(issue@),
            DaemonErrorInfo::SessionImportFileNotFound { file_path } =>
                InfoV::SessionImportFileNotFound(file_path@),
            DaemonErrorInfo::SessionAlreadyActive { session_path, active_session_id } =>
                InfoV::SessionAlreadyActive(session_path@, json::opt_view(*active_session_id)),
            DaemonErrorInfo::SessionRecovering { active_session_id } => InfoV::SessionRecovering(
                active_session_id@,
            ),
            DaemonErrorInfo::CommandResultUncertain { client_id, command_id } =>
                InfoV::CommandResultUncertain(client_id@, command_id@),
        }
    }
}

/// The code of an error.
pub open spec fn info_code(info: InfoV) -> Seq<char> {
    match info {
        InfoV::MissingSessionCwd(_) => "missing_session_cwd"@,
        InfoV::SessionImportFileNotFound(_) => "session_import_file_not_found"@,
        InfoV::SessionAlreadyActive(_, _) => "session_already_active"@,
        InfoV::SessionRecovering(_) => "session_recovering"@,
        InfoV::CommandResultUncertain(_, _) => "command_result_uncertain"@,
    }
}

/// The document of an error's details.
pub open spec fn info_value(info: InfoV) -> JsonV {
    let head = Seq::<(Seq<char>, JsonV)>::empty().push(("code"@, JsonV::Str(info_code(info))));
    JsonV::Obj(
        match info {
            InfoV::MissingSessionCwd(issue) => head.push(("issue"@, issue)),
            InfoV::SessionImportFileNotFound(path) => head.push(("filePath"@, JsonV::Str(path))),
            InfoV::SessionAlreadyActive(path, id) => json::push_opt_text(
                head.push(("sessionPath"@, JsonV::Str(path))),
                "activeSessionId"@,
                id,
            ),
            InfoV::SessionRecovering(id) => head.push(("activeSessionId"@, JsonV::Str(id))),
            InfoV::CommandResultUncertain(client, command) => head.push(
                ("clientId"@, JsonV::Str(client)),
            ).push(("commandId"@, JsonV::Str(command))),
        },
    )
}

/// The fields of the details with this code in their order, the code first, and how
/// many of them are needed. No list is long enough for a code that is not known.
pub open spec fn info_fields(code: Seq<char>) -> (Seq<Seq<char>>, nat) {
    if code == "missing_session_cwd"@ {
        (seq!["code"@, "issue"@], 2)
    } else if code == "session_import_file_not_found"@ {
        (seq!["code"@, "filePath"@], 2)
    } else if code == "session_already_active"@ {
        (seq!["code"@, "sessionPath"@, "activeSessionId"@], 2)
    } else if code == "session_recovering"@ {
        (seq!["code"@, "activeSessionId"@], 2)
    } else if code == "command_result_uncertain"@ {
        (seq!["code"@, "clientId"@, "commandId"@], 3)
    } else {
        (Seq::empty(), 1)
    }
}

/// The details of an error with their fields under their names.
pub open spec fn named_info(value: JsonV) -> JsonV {
    match value {
        JsonV::Arr(fields) => if fields.len() > 0 && fields[0] is Str {
            let (names, needed) = info_fields(fields[0]->Str_0);
            json::by_name(value, names, needed)
        } else {
            value
        },
        _ => value,
    }
}

/// Puts the fields of the details of an error under their names.
fn info_by_name(value: &Json) -> (r: Json)
    ensures
        r@ == named_info(value@),
{
    broadcast use json::array_view;

    let code: &str = match value {
        Json::Array(fields) => {
            if fields.len() == 0 {
                return value.clone();
            }
            assert(json::items(fields@)[0] == fields@[0]@);
            match &fields[0] {
                Json::Str(code) => code.as_str(),
                _ => return value.clone(),
            }
        },
        _ => return value.clone(),
    };
    let ghost (fields, count) = info_fields(code@);
    let (names, needed): (Vec<&str>, usize) = if same(code, "missing_session_cwd") {
        (vec!["code", "issue"], 2)
    } else if same(code, "session_import_file_not_found") {
        (vec!["code", "filePath"], 2)
    } else if same(code, "session_already_active") {
        (vec!["code", "sessionPath", "activeSessionId"], 2)
    } else if same(code, "session_recovering") {
        (vec!["code", "activeSessionId"], 2)
    } else if same(code, "command_result_uncertain") {
        (vec!["code", "clientId", "commandId"], 3)
    } else {
        (Vec::new(), 1)
    };
    assert(json::names_view(names@) =~= fields);
    assert(count == needed);
    json::named(value, names, needed)
}

/// The details of an error in a document.
pub open spec fn info_of(document: JsonV) -> Option<InfoV> {
    let value = named_info(document);
    let code = value.str_at("code"@);
    if code == Some("missing_session_cwd"@) {
        match value.get("issue"@) {
            Some(issue) => Some(InfoV::MissingSessionCwd(issue)),
            None => None,
        }
    } else if code == Some("session_import_file_not_found"@) {
        match value.str_at("filePath"@) {
            Some(path) => Some(InfoV::SessionImportFileNotFound(path)),
            None => None,
        }
    } else if code == Some("session_already_active"@) {
        match value.str_at("sessionPath"@) {
            Some(path) => if json::optional_text(value, "activeSessionId"@) {
                Some(InfoV::SessionAlreadyActive(path, value.str_at("activeSessionId"@)))
            } else {
                None
            },
            None => None,
        }
    } else if code == Some("session_recovering"@) {
        match value.str_at("activeSessionId"@) {
            Some(id) => Some(InfoV::SessionRecovering(id)),
            None => None,
        }
    } else if code == Some("command_result_uncertain"@) {
        match (value.str_at("clientId"@), value.str_at("commandId"@)) {
            (Some(client), Some(command)) => Some(InfoV::CommandResultUncertain(client, command)),
            _ => None,
        }
    } else {
        None
    }
}

/// What details that may be absent say.
pub open spec fn opt_info(info: Option<DaemonErrorInfo>) -> Option<InfoV> {
    match info {
        Some(info) => Some(info@),
        None => None,
    }
}

impl DaemonErrorInfo {
    /// The code of the error.
    pub fn code(&self) -> (r: &'static str)
        ensures
            r@ == info_code(self@),
    {
        match self {
            DaemonErrorInfo::MissingSessionCwd { .. } => "missing_session_cwd",
            DaemonErrorInfo::SessionImportFileNotFound { .. } => "session_import_file_not_found",
            DaemonErrorInfo::SessionAlreadyActive { .. } => "session_already_active",
            DaemonErrorInfo::SessionRecovering { .. } => "session_recovering",
            DaemonErrorInfo::CommandResultUncertain { .. } => "command_result_uncertain",
        }
    }

    /// The document of the details.
    pub fn to_value(&self) -> (r: Json)
        ensures
            r@ == info_value(self@),
    {
        let mut pairs = json::no_members();
        json::add_text(&mut pairs, "code", self.code());
        match self {
            DaemonErrorInfo::MissingSessionCwd { issue } => {
                json::add_member(&mut pairs, "issue", issue.clone());
            },
            DaemonErrorInfo::SessionImportFileNotFound { file_path } => {
                json::add_text(&mut pairs, "filePath", file_path);
            },
            DaemonErrorInfo::SessionAlreadyActive { session_path, active_session_id } => {
                json::add_text(&mut pairs, "sessionPath", session_path);
                json::add_opt_text(&mut pairs, "activeSessionId", active_session_id);
            },
            DaemonErrorInfo::SessionRecovering { active_session_id } => {
                json::add_text(&mut pairs, "activeSessionId", active_session_id);
            },
            DaemonErrorInfo::CommandResultUncertain { client_id, command_id } => {
                json::add_text(&mut pairs, "clientId", client_id);
                json::add_text(&mut pairs, "commandId", command_id);
            },
        }
        json::object(pairs)
    }

    /// Reads the details of an error; nothing where the document has none that are
    /// known.
    pub fn from_value(value: &Json) -> (r: Option<Self>)
        ensures
            opt_info(r) == info_of(value@),
    {
        let named = info_by_name(value);
        let value = &named;
        let code = match value.str_at("code") {
            Some(code) => code,
            None => return None,
        };
        if same(code, "missing_session_cwd") {
            match value.get("issue") {
                Some(issue) => Some(DaemonErrorInfo::MissingSessionCwd { issue: issue.clone() }),
                None => None,
            }
        } else if same(code, "session_import_file_not_found") {
            match value.str_at("filePath") {
                Some(path) => Some(
                    DaemonErrorInfo::SessionImportFileNotFound { file_path: path.to_owned() },
                ),
                None => None,
            }
        } else if same(code, "session_already_active") {
            match value.str_at("sessionPath") {
                Some(path) => if json::is_optional_text(value, "activeSessionId") {
                    Some(
                        DaemonErrorInfo::SessionAlreadyActive {
                            session_path: path.to_owned(),
                            active_session_id: owned(value.str_at("activeSessionId")),
                        },
                    )
                } else {
                    None
                },
                None => None,
            }
        } else if same(code, "session_recovering") {
            match value.str_at("activeSessionId") {
                Some(id) => Some(
                    DaemonErrorInfo::SessionRecovering { active_session_id: id.to_owned() },
                ),
                None => None,
            }
        } else if same(code, "command_result_uncertain") {
            match (value.str_at("clientId"), value.str_at("commandId")) {
                (Some(client), Some(command)) => Some(
                    DaemonErrorInfo::CommandResultUncertain {
                        client_id: client.to_owned(),
                        command_id: command.to_owned(),
                    },
                ),
                _ => None,
            }
        } else {
            None
        }
    }
}

/// An error that the daemon knows, or any other one by its text.
#[derive(Debug, PartialEq)]
pub enum DaemonError {
    MissingSessionCwd(MissingSessionCwdError),
    SessionImportFileNotFound(SessionImportFileNotFoundError),
    SessionAlreadyActive(SessionAlreadyActiveError),
    SessionRecovering(DaemonSessionRecoveringError),
    Message(String),
}

/// What an error says: its details, and how it is worded.
pub enum ErrorV {
    MissingSessionCwd(JsonV, Seq<char>),
    SessionImportFileNotFound(Seq<char>, Seq<char>),
    SessionAlreadyActive(Seq<char>, Option<Seq<char>>, Seq<char>),
    SessionRecovering(Seq<char>),
    Message(Seq<char>),
}

impl View for DaemonError {
    type V = ErrorV;

    open spec fn view(&self) -> ErrorV {
        match self {
            DaemonError::MissingSessionCwd(error) => ErrorV::MissingSessionCwd(
                error.issue@,
                error.text@,
            ),
            DaemonError::SessionImportFileNotFound(error) => ErrorV::SessionImportFileNotFound(
                error.file_path@,
                error.text@,
            ),
            DaemonError::SessionAlreadyActive(error) => ErrorV::SessionAlreadyActive(
                error.session_path@,
                json::opt_view(error.active_session_id),
                error.text@,
            ),
            DaemonError::SessionRecovering(error) => ErrorV::SessionRecovering(
                error.active_session_id@,
            ),
            DaemonError::Message(message) => ErrorV::Message(message@),
        }
    }
}

/// The text of an error.
pub open spec fn error_text(error: ErrorV) -> Seq<char> {
    match error {
        ErrorV::MissingSessionCwd(_, text) => text,
        ErrorV::SessionImportFileNotFound(_, text) => text,
        ErrorV::SessionAlreadyActive(_, _, text) => text,
        ErrorV::SessionRecovering(id) => recovering_text(id),
        ErrorV::Message(text) => text,
    }
}

impl DaemonError {
    /// The text of the error.
    pub fn message(&self) -> (r: String)
        ensures
            r@ == error_text(self@),
    {
        match self {
            DaemonError::MissingSessionCwd(error) => error.text.clone(),
            DaemonError::SessionImportFileNotFound(error) => error.text.clone(),
            DaemonError::SessionAlreadyActive(error) => error.text.clone(),
            DaemonError::SessionRecovering(error) => error.message(),
            DaemonError::Message(message) => message.clone(),
        }
    }
}

/// The details that go with an error.
pub open spec fn details(error: ErrorV) -> Option<InfoV> {
    match error {
        ErrorV::MissingSessionCwd(issue, _) => Some(InfoV::MissingSessionCwd(issue)),
        ErrorV::SessionImportFileNotFound(path, _) => Some(InfoV::SessionImportFileNotFound(path)),
        ErrorV::SessionAlreadyActive(path, id, _) => Some(InfoV::SessionAlreadyActive(path, id)),
        ErrorV::SessionRecovering(id) => Some(InfoV::SessionRecovering(id)),
        ErrorV::Message(_) => None,
    }
}

/// The details that go with an error; none where the error is not known.
pub fn serialize_daemon_error(error: &DaemonError) -> (r: Option<DaemonErrorInfo>)
    ensures
        opt_info(r) == details(error@),
{
    match error {
        DaemonError::MissingSessionCwd(inner) => Some(
            DaemonErrorInfo::MissingSessionCwd { issue: inner.issue.clone() },
        ),
        DaemonError::SessionImportFileNotFound(inner) => Some(
            DaemonErrorInfo::SessionImportFileNotFound { file_path: inner.file_path.clone() },
        ),
        DaemonError::SessionAlreadyActive(inner) => Some(
            DaemonErrorInfo::SessionAlreadyActive {
                session_path: inner.session_path.clone(),
                active_session_id: inner.active_session_id.clone(),
            },
        ),
        DaemonError::SessionRecovering(inner) => Some(
            DaemonErrorInfo::SessionRecovering { active_session_id: inner.active_session_id.clone() },
        ),
        DaemonError::Message(_) => None,
    }
}

/// A session could not be created.
#[derive(Debug, Clone, PartialEq)]
pub struct DaemonSessionCreateError {
    pub message: String,
}

impl DaemonSessionCreateError {
    pub fn new(message: &str) -> (r: Self)
        ensures
            r.message@ == message@,
    {
        DaemonSessionCreateError { message: message.to_owned() }
    }
}

/// What a response that failed says of the error.
#[derive(Debug, PartialEq)]
pub struct DaemonErrorResponse {
    pub error: Option<String>,
    pub error_info: Option<DaemonErrorInfo>,
}

/// The text of a response that failed, empty where it has none.
pub open spec fn response_text(error: Option<Seq<char>>) -> Seq<char> {
    match error {
        Some(text) => text,
        None => Seq::empty(),
    }
}

/// The error that a response tells of. `wording` is how the module of the error
/// words it, for the errors that have a module of their own.
pub open spec fn told_error(
    error: Option<Seq<char>>,
    info: Option<InfoV>,
    wording: Seq<char>,
) -> ErrorV {
    match info {
        Some(InfoV::MissingSessionCwd(issue)) => ErrorV::MissingSessionCwd(issue, wording),
        Some(InfoV::SessionImportFileNotFound(path)) => ErrorV::SessionImportFileNotFound(
            path,
            wording,
        ),
        Some(InfoV::SessionAlreadyActive(path, id)) => ErrorV::SessionAlreadyActive(
            path,
            id,
            wording,
        ),
        Some(InfoV::SessionRecovering(id)) => ErrorV::SessionRecovering(id),
        _ => ErrorV::Message(response_text(error)),
    }
}

/// The error that a response tells of. A command whose result is uncertain is an
/// error like any other.
pub fn deserialize_daemon_error(response: &DaemonErrorResponse, wording: &str) -> (r: DaemonError)
    ensures
        r@ == told_error(
            json::opt_view(response.error),
            opt_info(response.error_info),
            wording@,
        ),
{
    match &response.error_info {
        Some(DaemonErrorInfo::MissingSessionCwd { issue }) => DaemonError::MissingSessionCwd(
            MissingSessionCwdError { issue: issue.clone(), text: wording.to_owned() },
        ),
        Some(DaemonErrorInfo::SessionImportFileNotFound { file_path }) =>
            DaemonError::SessionImportFileNotFound(
            SessionImportFileNotFoundError {
                file_path: file_path.clone(),
                text: wording.to_owned(),
            },
        ),
        Some(DaemonErrorInfo::SessionAlreadyActive { session_path, active_session_id }) =>
            DaemonError::SessionAlreadyActive(
            SessionAlreadyActiveError {
                session_path: session_path.clone(),
                active_session_id: active_session_id.clone(),
                text: wording.to_owned(),
            },
        ),
        Some(DaemonErrorInfo::SessionRecovering { active_session_id }) =>
            DaemonError::SessionRecovering(DaemonSessionRecoveringError::new(active_session_id)),
        _ => {
            let text = match &response.error {
                Some(text) => text.clone(),
                None => {
                    let none = String::new();
                    assert(none@ =~= Seq::<char>::empty());
                    none
                },
            };
            DaemonError::Message(text)
        },
    }
}

/// The error that a failed creation tells of: one without details is an error by
/// its text, so that it prints as one line.
pub fn deserialize_daemon_create_error(response: &DaemonErrorResponse, wording: &str) -> (r:
    DaemonError)
    ensures
        r@ == told_error(
            json::opt_view(response.error),
            opt_info(response.error_info),
            wording@,
        ),
        response.error_info is None ==> r@ == ErrorV::Message(
            response_text(json::opt_view(response.error)),
        ),
{
    let error = deserialize_daemon_error(response, wording);
    if response.error_info.is_some() {
        return error;
    }
    DaemonError::Message(DaemonSessionCreateError::new(&error.message()).message)
}

/// What a failed response tells a client: the text of its error.
pub open spec fn failure_text(response: protocol::ResponseV, wording: Seq<char>) -> Seq<char> {
    error_text(
        told_error(
            response.error,
            match response.error_info {
                Some(info) => info_of(info),
                None => None,
            },
            wording,
        ),
    )
}

/// What a failed response tells a client.
pub fn daemon_error_from_response(response: &DaemonResponse, wording: &str) -> (r: DaemonClientError)
    ensures
        r@ == protocol::ClientErrorV::Message(failure_text(response@, wording@)),
{
    let error = deserialize_daemon_error(
        &DaemonErrorResponse {
            error: response.error.clone(),
            error_info: match &response.error_info {
                Some(info) => DaemonErrorInfo::from_value(info),
                None => None,
            },
        },
        wording,
    );
    DaemonClientError::Message(error.message())
}

proof fn code_stamps()
    ensures
        text::stamp("missing_session_cwd"@) == 110100109019,
        text::stamp("session_import_file_not_found"@) == 111100115029,
        text::stamp("session_already_active"@) == 97101115022,
        text::stamp("session_recovering"@) == 101103115018,
        text::stamp("command_result_uncertain"@) == 101110099024,
{
    reveal_strlit("missing_session_cwd");
    reveal_strlit("session_import_file_not_found");
    reveal_strlit("session_already_active");
    reveal_strlit("session_recovering");
    reveal_strlit("command_result_uncertain");
}

proof fn key_stamps()
    ensures
        text::stamp("code"@) == 101101099004,
        text::stamp("issue"@) == 117101105005,
        text::stamp("filePath"@) == 116104102008,
        text::stamp("sessionPath"@) == 97104115011,
        text::stamp("activeSessionId"@) == 111100097015,
        text::stamp("clientId"@) == 73100099008,
        text::stamp("commandId"@) == 100100099009,
{
    reveal_strlit("code");
    reveal_strlit("issue");
    reveal_strlit("filePath");
    reveal_strlit("sessionPath");
    reveal_strlit("activeSessionId");
    reveal_strlit("clientId");
    reveal_strlit("commandId");
}

/// The details of an error are read back from their document.
pub proof fn info_is_read_back(info: InfoV)
    ensures
        info_of(info_value(info)) == Some(info),
{
    broadcast use {json::lookup_push, json::lookup_empty};

    code_stamps();
    key_stamps();
    let value = info_value(info);
    assert(value.str_at("code"@) == Some(info_code(info)));
}

/// An error that the daemon knows arrives as the error it was, whatever text the
/// response carries beside its details; one that it does not know arrives by its
/// text.
pub proof fn errors_arrive(error: ErrorV, text: Seq<char>, wording: Seq<char>)
    requires
        error is Message ==> text == error_text(error),
        error is MissingSessionCwd || error is SessionImportFileNotFound
            || error is SessionAlreadyActive ==> wording == error_text(error),
    ensures
        told_error(
            Some(text),
            match details(error) {
                Some(info) => info_of(info_value(info)),
                None => None,
            },
            wording,
        ) == error,
{
    if let Some(info) = details(error) {
        info_is_read_back(info);
    }
}

} // verus!
