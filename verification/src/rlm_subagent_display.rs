//! The display file of a child session: what a surface needs to show the child
//! before its session is opened.

use vstd::prelude::*;

use crate::json;
use crate::json::{Json, JsonV, Num, owned, parse_json, print_json};
use crate::path_facts;
use crate::path_facts::join_dir;
use crate::text;
use crate::text::same;

verus! {

/// The name of the display file in a child's session directory.
pub const RLM_SUBAGENT_DISPLAY_FILE: &'static str = "rlm-subagent.json";

/// The model of a child.
#[derive(Debug, PartialEq)]
pub struct RlmSubagentModel {
    pub provider: String,
    pub model_id: String,
}

/// What the model of a child is.
pub struct ModelV {
    pub provider: Seq<char>,
    pub model_id: Seq<char>,
}

impl View for RlmSubagentModel {
    type V = ModelV;

    open spec fn view(&self) -> ModelV {
        ModelV { provider: self.provider@, model_id: self.model_id@ }
    }
}

impl Clone for RlmSubagentModel {
    fn clone(&self) -> (r: Self)
        ensures
            r@ == self@,
    {
        RlmSubagentModel { provider: self.provider.clone(), model_id: self.model_id.clone() }
    }
}

/// What a model that may be absent is.
pub open spec fn opt_model(model: Option<RlmSubagentModel>) -> Option<ModelV> {
    match model {
        Some(model) => Some(model@),
        None => None,
    }
}

/// The entry in a display file.
#[derive(Debug, PartialEq)]
pub struct RlmSubagentDisplayEntry {
    pub type_: String,
    pub child_id: String,
    pub session_name: String,
    pub session_dir: String,
    pub session_file: String,
    pub rlm_max_depth: Option<i64>,
    pub rlm_parent_node_id: Option<String>,
    pub prompt: Option<String>,
    pub spawn_code: Option<String>,
    pub model: Option<RlmSubagentModel>,
    pub status: String,
    /// When the child was created: a double.
    pub created_at: Num,
    pub updated_at: String,
}

/// What a display entry says.
#[verifier::ext_equal]
pub struct DisplayV {
    pub type_: Seq<char>,
    pub child_id: Seq<char>,
    pub session_name: Seq<char>,
    pub session_dir: Seq<char>,
    pub session_file: Seq<char>,
    pub rlm_max_depth: Option<i64>,
    pub rlm_parent_node_id: Option<Seq<char>>,
    pub prompt: Option<Seq<char>>,
    pub spawn_code: Option<Seq<char>>,
    pub model: Option<ModelV>,
    pub status: Seq<char>,
    pub created_at: Num,
    pub updated_at: Seq<char>,
}

impl View for RlmSubagentDisplayEntry {
    type V = DisplayV;

    open spec fn view(&self) -> DisplayV {
        DisplayV {
            type_: self.type_@,
            child_id: self.child_id@,
            session_name: self.session_name@,
            session_dir: self.session_dir@,
            session_file: self.session_file@,
            rlm_max_depth: self.rlm_max_depth,
            rlm_parent_node_id: json::opt_view(self.rlm_parent_node_id),
            prompt: json::opt_view(self.prompt),
            spawn_code: json::opt_view(self.spawn_code),
            model: opt_model(self.model),
            status: self.status@,
            created_at: self.created_at,
            updated_at: self.updated_at@,
        }
    }
}

impl RlmSubagentDisplayEntry {
    /// A fresh entry.
    pub fn new(
        child_id: &str,
        session_name: &str,
        session_dir: &str,
        session_file: &str,
        status: &str,
    ) -> (r: Self)
        ensures
            r@ == (DisplayV {
                type_: "rlm_subagent"@,
                child_id: child_id@,
                session_name: session_name@,
                session_dir: session_dir@,
                session_file: session_file@,
                rlm_max_depth: None,
                rlm_parent_node_id: None,
                prompt: None,
                spawn_code: None,
                model: None,
                status: status@,
                created_at: json::double_of(Num::Unsigned(0)),
                updated_at: Seq::empty(),
            }),
    {
        let updated_at = String::new();
        assert(updated_at@ =~= Seq::<char>::empty());
        RlmSubagentDisplayEntry {
            type_: "rlm_subagent".to_owned(),
            child_id: child_id.to_owned(),
            session_name: session_name.to_owned(),
            session_dir: session_dir.to_owned(),
            session_file: session_file.to_owned(),
            rlm_max_depth: None,
            rlm_parent_node_id: None,
            prompt: None,
            spawn_code: None,
            model: None,
            status: status.to_owned(),
            created_at: json::as_double(&Num::Unsigned(0)),
            updated_at,
        }
    }

    /// The document of the entry.
    pub fn to_value(&self) -> (r: Json)
        ensures
            r@ == display_value(self@),
    {
        let mut pairs = json::no_members();
        json::add_text(&mut pairs, "type", &self.type_);
        json::add_text(&mut pairs, "childId", &self.child_id);
        json::add_text(&mut pairs, "sessionName", &self.session_name);
        json::add_text(&mut pairs, "sessionDir", &self.session_dir);
        json::add_text(&mut pairs, "sessionFile", &self.session_file);
        if let Some(depth) = self.rlm_max_depth {
            json::add_member(&mut pairs, "rlmMaxDepth", json::integer(depth));
        }
        json::add_opt_text(&mut pairs, "rlmParentNodeId", &self.rlm_parent_node_id);
        json::add_opt_text(&mut pairs, "prompt", &self.prompt);
        json::add_opt_text(&mut pairs, "spawnCode", &self.spawn_code);
        if let Some(model) = &self.model {
            let mut parts = json::no_members();
            json::add_text(&mut parts, "provider", &model.provider);
            json::add_text(&mut parts, "modelId", &model.model_id);
            json::add_member(&mut pairs, "model", json::object(parts));
        }
        json::add_text(&mut pairs, "status", &self.status);
        json::add_member(&mut pairs, "createdAt", Json::Number(self.created_at.clone()));
        json::add_text(&mut pairs, "updatedAt", &self.updated_at);
        json::object(pairs)
    }
}

/// The path of the display file.
pub fn rlm_subagent_display_path(session_dir: &str) -> (r: String)
    ensures
        r@ == path_facts::joined_path(session_dir@, RLM_SUBAGENT_DISPLAY_FILE@),
{
    join_dir(session_dir, RLM_SUBAGENT_DISPLAY_FILE)
}

/// A known state of a child.
pub open spec fn is_child_status(status: Option<Seq<char>>) -> bool {
    status == Some("running"@) || status == Some("completed"@) || status == Some("deleted"@)
}

/// The document can be a display entry.
pub open spec fn is_display(value: JsonV) -> bool {
    &&& value.is_object()
    &&& value.str_at("type"@) == Some("rlm_subagent"@)
    &&& value.str_at("childId"@) is Some
    &&& value.str_at("sessionName"@) is Some
    &&& value.str_at("sessionDir"@) is Some
    &&& value.str_at("sessionFile"@) is Some
    &&& is_child_status(value.str_at("status"@))
    &&& match value.get("rlmMaxDepth"@) {
        Some(depth) => depth.i64() matches Some(depth) && depth >= 0,
        None => true,
    }
    &&& value.get("createdAt"@) matches Some(JsonV::Num(_))
}

/// Whether a document can be a display entry.
pub fn is_rlm_subagent_display_entry(value: &Json) -> (r: bool)
    ensures
        r == is_display(value@),
{
    match value {
        Json::Object(_) => {},
        _ => return false,
    }
    let status_known: bool = match value.str_at("status") {
        Some(status) => same(status, "running") || same(status, "completed") || same(
            status,
            "deleted",
        ),
        None => false,
    };
    let depth_fits: bool = match value.get("rlmMaxDepth") {
        Some(depth) => match depth.as_i64() {
            Some(depth) => depth >= 0,
            None => false,
        },
        None => true,
    };
    let created: bool = match value.get("createdAt") {
        Some(Json::Number(_)) => true,
        _ => false,
    };
    value.str_is("type", "rlm_subagent") && value.str_at("childId").is_some() && value.str_at(
        "sessionName",
    ).is_some() && value.str_at("sessionDir").is_some() && value.str_at("sessionFile").is_some()
        && status_known && depth_fits && created
}

/// The document of a model.
pub open spec fn model_value(model: ModelV) -> JsonV {
    JsonV::Obj(
        Seq::<(Seq<char>, JsonV)>::empty().push(("provider"@, JsonV::Str(model.provider))).push(
            ("modelId"@, JsonV::Str(model.model_id)),
        ),
    )
}

/// The document of a display entry.
pub open spec fn display_value(entry: DisplayV) -> JsonV {
    let head = Seq::<(Seq<char>, JsonV)>::empty().push(("type"@, JsonV::Str(entry.type_))).push(
        ("childId"@, JsonV::Str(entry.child_id)),
    ).push(("sessionName"@, JsonV::Str(entry.session_name))).push(
        ("sessionDir"@, JsonV::Str(entry.session_dir)),
    ).push(("sessionFile"@, JsonV::Str(entry.session_file)));
    let deep = match entry.rlm_max_depth {
        Some(depth) => head.push(("rlmMaxDepth"@, json::int_value(depth as int))),
        None => head,
    };
    let noted = json::push_opt_text(
        json::push_opt_text(
            json::push_opt_text(deep, "rlmParentNodeId"@, entry.rlm_parent_node_id),
            "prompt"@,
            entry.prompt,
        ),
        "spawnCode"@,
        entry.spawn_code,
    );
    let modelled = match entry.model {
        Some(model) => noted.push(("model"@, model_value(model))),
        None => noted,
    };
    JsonV::Obj(
        modelled.push(("status"@, JsonV::Str(entry.status))).push(
            ("createdAt"@, JsonV::Num(entry.created_at)),
        ).push(("updatedAt"@, JsonV::Str(entry.updated_at))),
    )
}

/// The fields of a model in their order.
pub open spec fn model_fields() -> Seq<Seq<char>> {
    seq!["provider"@, "modelId"@]
}

/// The model at a key with its fields under their names; nothing where it is absent
/// or null.
pub open spec fn model_at(value: JsonV) -> Option<JsonV> {
    match json::present(value, "model"@) {
        Some(model) => Some(json::by_name(model, model_fields(), 2)),
        None => None,
    }
}

/// The model at a key is one, or absent, or null.
pub open spec fn optional_model(value: JsonV) -> bool {
    match model_at(value) {
        Some(model) => model.str_at("provider"@) is Some && model.str_at("modelId"@) is Some,
        None => true,
    }
}

/// The document is a display entry.
pub open spec fn is_display_entry(value: JsonV) -> bool {
    &&& is_display(value)
    &&& json::optional_text(value, "rlmParentNodeId"@)
    &&& json::optional_text(value, "prompt"@)
    &&& json::optional_text(value, "spawnCode"@)
    &&& optional_model(value)
    &&& value.str_at("updatedAt"@) is Some
}

/// The display entry in a document.
pub open spec fn display_of(value: JsonV) -> DisplayV {
    DisplayV {
        type_: json::text_or_empty(value, "type"@),
        child_id: json::text_or_empty(value, "childId"@),
        session_name: json::text_or_empty(value, "sessionName"@),
        session_dir: json::text_or_empty(value, "sessionDir"@),
        session_file: json::text_or_empty(value, "sessionFile"@),
        rlm_max_depth: value.i64_at("rlmMaxDepth"@),
        rlm_parent_node_id: value.str_at("rlmParentNodeId"@),
        prompt: value.str_at("prompt"@),
        spawn_code: value.str_at("spawnCode"@),
        model: match model_at(value) {
            Some(model) => Some(
                ModelV {
                    provider: json::text_or_empty(model, "provider"@),
                    model_id: json::text_or_empty(model, "modelId"@),
                },
            ),
            None => None,
        },
        status: json::text_or_empty(value, "status"@),
        created_at: json::double_of(value.get("createdAt"@)->0->Num_0),
        updated_at: json::text_or_empty(value, "updatedAt"@),
    }
}

/// Reads a display entry; nothing where the document is none.
pub fn display_entry_from_value(value: &Json) -> (r: Option<RlmSubagentDisplayEntry>)
    ensures
        match r {
            Some(entry) => is_display_entry(value@) && entry@ == display_of(value@),
            None => !is_display_entry(value@),
        },
{
    if !is_rlm_subagent_display_entry(value) {
        return None;
    }
    if !(json::is_optional_text(value, "rlmParentNodeId") && json::is_optional_text(value, "prompt")
        && json::is_optional_text(value, "spawnCode") && value.str_at("updatedAt").is_some()) {
        return None;
    }
    let model = match value.get("model") {
        None => None,
        Some(Json::Null) => None,
        Some(model) => {
            let names = vec!["provider", "modelId"];
            assert(json::names_view(names@) =~= model_fields());
            let model = json::named(model, names, 2);
            match (model.str_at("provider"), model.str_at("modelId")) {
                (Some(provider), Some(model_id)) => Some(
                    RlmSubagentModel {
                        provider: provider.to_owned(),
                        model_id: model_id.to_owned(),
                    },
                ),
                _ => return None,
            }
        },
    };
    let created_at = match value.get("createdAt") {
        Some(Json::Number(number)) => json::as_double(number),
        _ => return None,
    };
    Some(
        RlmSubagentDisplayEntry {
            type_: json::text_at(value, "type"),
            child_id: json::text_at(value, "childId"),
            session_name: json::text_at(value, "sessionName"),
            session_dir: json::text_at(value, "sessionDir"),
            session_file: json::text_at(value, "sessionFile"),
            rlm_max_depth: value.i64_at("rlmMaxDepth"),
            rlm_parent_node_id: owned(value.str_at("rlmParentNodeId")),
            prompt: owned(value.str_at("prompt")),
            spawn_code: owned(value.str_at("spawnCode")),
            model,
            status: json::text_at(value, "status"),
            created_at,
            updated_at: json::text_at(value, "updatedAt"),
        },
    )
}

/// What a display file says.
pub open spec fn display_in(contents: Seq<char>) -> Option<DisplayV> {
    match json::parsed_json(vstd::utf8::encode_utf8(contents)) {
        Ok(value) => if is_display_entry(value) {
            Some(display_of(value))
        } else {
            None
        },
        Err(_) => None,
    }
}

/// Reads the contents of a display file; nothing where they are no entry.
pub fn read_rlm_subagent_display_entry(contents: &str) -> (r: Option<RlmSubagentDisplayEntry>)
    ensures
        match r {
            Some(entry) => display_in(contents@) == Some(entry@),
            None => display_in(contents@) is None,
        },
{
    match parse_json(contents.as_bytes()) {
        Ok(value) => display_entry_from_value(&value),
        Err(_) => None,
    }
}

/// The child was deleted, and stays so.
pub open spec fn is_tombstone(existing: Option<Seq<char>>) -> bool {
    match existing {
        Some(contents) => match display_in(contents) {
            Some(entry) => entry.status == "deleted"@,
            None => false,
        },
        None => false,
    }
}

/// What is to be written over a display file; nothing where the file says that the
/// child was deleted.
pub fn write_rlm_subagent_display_entry(
    entry: &RlmSubagentDisplayEntry,
    existing: Option<&str>,
) -> (r: Option<String>)
    ensures
        r is None <==> is_tombstone(json::opt_str_view(existing)),
        match r {
            Some(contents) => json::holdable(display_value(entry@)) ==> contents@
                == json::printed_json(json::held(display_value(entry@))).push('\n'),
            None => true,
        },
{
    if let Some(contents) = existing {
        if let Some(found) = read_rlm_subagent_display_entry(contents) {
            if same(&found.status, "deleted") {
                return None;
            }
        }
    }
    let value = entry.to_value();
    let mut contents = print_json(&value);
    contents.push('\n');
    Some(contents)
}

proof fn display_stamps()
    ensures
        text::stamp("type"@) == 101101116004,
        text::stamp("childId"@) == 73100099007,
        text::stamp("sessionName"@) == 97101115011,
        text::stamp("sessionDir"@) == 68114115010,
        text::stamp("sessionFile"@) == 105101115011,
        text::stamp("rlmMaxDepth"@) == 112104114011,
        text::stamp("rlmParentNodeId"@) == 100100114015,
        text::stamp("prompt"@) == 112116112006,
        text::stamp("spawnCode"@) == 111101115009,
        text::stamp("model"@) == 101108109005,
        text::stamp("status"@) == 117115115006,
        text::stamp("createdAt"@) == 100116099009,
        text::stamp("updatedAt"@) == 100116117009,
{
    reveal_strlit("type");
    reveal_strlit("childId");
    reveal_strlit("sessionName");
    reveal_strlit("sessionDir");
    reveal_strlit("sessionFile");
    reveal_strlit("rlmMaxDepth");
    reveal_strlit("rlmParentNodeId");
    reveal_strlit("prompt");
    reveal_strlit("spawnCode");
    reveal_strlit("model");
    reveal_strlit("status");
    reveal_strlit("createdAt");
    reveal_strlit("updatedAt");
}

proof fn model_stamps()
    ensures
        "provider"@ != "modelId"@,
{
    reveal_strlit("provider");
    reveal_strlit("modelId");
    assert("provider"@.len() == 8 && "modelId"@.len() == 7);
}

/// The entry of a child in a known state, made of a double and a depth that is
/// not negative.
pub open spec fn is_proper(entry: DisplayV) -> bool {
    &&& entry.type_ == "rlm_subagent"@
    &&& is_child_status(Some(entry.status))
    &&& entry.rlm_max_depth matches Some(depth) ==> depth >= 0
    &&& json::double_of(entry.created_at) == entry.created_at
}

/// An entry is read back from its document.
pub proof fn display_is_read_back(entry: DisplayV)
    requires
        is_proper(entry),
    ensures
        is_display_entry(display_value(entry)),
        display_of(display_value(entry)) == entry,
{
    broadcast use {json::lookup_push, json::lookup_empty};

    display_stamps();
    model_stamps();
    let value = display_value(entry);
    assert(value.str_at("type"@) == Some(entry.type_));
    assert(value.str_at("childId"@) == Some(entry.child_id));
    assert(value.str_at("sessionName"@) == Some(entry.session_name));
    assert(value.str_at("sessionDir"@) == Some(entry.session_dir));
    assert(value.str_at("sessionFile"@) == Some(entry.session_file));
    assert(value.i64_at("rlmMaxDepth"@) == entry.rlm_max_depth);
    assert(value.str_at("rlmParentNodeId"@) == entry.rlm_parent_node_id);
    assert(value.str_at("prompt"@) == entry.prompt);
    assert(value.str_at("spawnCode"@) == entry.spawn_code);
    assert(value.get("model"@) == match entry.model {
        Some(model) => Some(model_value(model)),
        None => None,
    });
    assert(value.str_at("status"@) == Some(entry.status));
    assert(value.get("createdAt"@) == Some(JsonV::Num(entry.created_at)));
    assert(value.str_at("updatedAt"@) == Some(entry.updated_at));
    if let Some(model) = entry.model {
        assert(model_value(model).str_at("provider"@) == Some(model.provider));
        assert(model_value(model).str_at("modelId"@) == Some(model.model_id));
    }
    assert(display_of(value) =~= entry);
}

} // verus!
