//! The structured payload handed to the external command provider: a tree
//! of key/value pairs built from whichever session-state fields are present,
//! serialized to one line of JSON.
//!
//! Which keys appear, and with what values, is decided and proved here; the
//! JSON encoding itself is serde_json's. Its key-ordered object map is
//! modeled by the uninterpreted `json_obj_model`, and the serialized text by
//! the uninterpreted `json_text`, a function of the modeled contents alone.

use crate::compose::StateView;
use crate::compose::StatusEngineState;
use vstd::prelude::*;

verus! {

#[verifier::external_type_specification]
#[verifier::external_body]
#[verifier::reject_recursive_types(K)]
#[verifier::reject_recursive_types(V)]
pub struct ExJsonMap<K, V>(serde_json::Map<K, V>);

#[verifier::external_type_specification]
#[verifier::external_body]
pub struct ExJsonValue(serde_json::Value);

/// The payload object map: string keys to JSON values.
pub type JsonMap = serde_json::Map<String, serde_json::Value>;

#[verifier::external_type_specification]
#[verifier::external_body]
pub struct ExJsonError(serde_json::Error);

/// A JSON value of the payload tree, as mathematical content: a string, an
/// unsigned number, or an object mapping keys to nested values.
pub ghost enum JsonData {
    Str(Seq<char>),
    Num(u64),
    Obj(Map<Seq<char>, JsonData>),
}

/// The contents of a serde_json object map: which key maps to which value.
pub uninterp spec fn json_obj_model(m: JsonMap) -> Map<Seq<char>, JsonData>;

/// The contents of an object map with no entries.
pub open spec fn empty_model() -> Map<Seq<char>, JsonData> {
    Map::empty()
}

/// What serde_json makes of an object with the given contents. The map is
/// ordered by key, so the text is a function of the contents alone.
pub uninterp spec fn json_text(obj: Map<Seq<char>, JsonData>) -> Seq<char>;

/// The error returned when the payload could not be serialized.
#[derive(Debug, Clone, Copy, PartialEq, Eq, Structural)]
pub struct SerializeError;

/// Relies on serde_json::Map::new: the new object map has no entries.
#[verifier::external_body]
fn json_map_new() -> (m: JsonMap)
    ensures
        json_obj_model(m) == empty_model(),
{
    serde_json::Map::new()
}

/// Relies on serde_json::Map::insert: the key now maps to the given string
/// value, and every other key is unchanged.
#[verifier::external_body]
fn json_insert_str(m: &mut JsonMap, key: &str, value: &str)
    ensures
        json_obj_model(*final(m)) == json_obj_model(*old(m)).insert(
            key@,
            JsonData::Str(value@),
        ),
{
    m.insert(key.to_string(), serde_json::Value::String(value.to_string()));
}

/// Relies on serde_json::Map::insert and serde_json::Number::from: the key
/// now maps to the given number, and every other key is unchanged.
#[verifier::external_body]
fn json_insert_num(m: &mut JsonMap, key: &str, value: u64)
    ensures
        json_obj_model(*final(m)) == json_obj_model(*old(m)).insert(
            key@,
            JsonData::Num(value),
        ),
{
    m.insert(
        key.to_string(),
        serde_json::Value::Number(serde_json::Number::from(value)),
    );
}

/// Relies on serde_json::Map::insert: the key now maps to the given nested
/// object, and every other key is unchanged.
#[verifier::external_body]
fn json_insert_obj(m: &mut JsonMap, key: &str, value: JsonMap)
    ensures
        json_obj_model(*final(m)) == json_obj_model(*old(m)).insert(
            key@,
            JsonData::Obj(json_obj_model(value)),
        ),
{
    m.insert(key.to_string(), serde_json::Value::Object(value));
}

/// Relies on serde_json::to_string: serializing a string-keyed object tree
/// has no failure path, and the result is the JSON text of its contents,
/// keys in order. Control characters inside strings are escaped, so the
/// text holds no line break: it is one line.
#[verifier::external_body]
fn json_obj_to_string(m: JsonMap) -> (r: Result<String, serde_json::Error>)
    ensures
        r is Ok,
        r matches Ok(text) ==> text@ == json_text(json_obj_model(m)),
        r matches Ok(text) ==> forall|i: int|
            0 <= i < text@.len() ==> text@[i] != '\n' && text@[i] != '\r',
{
    serde_json::to_string(&serde_json::Value::Object(m))
}

/// The nested `workspace` object: the workspace name, and the current
/// directory when one is present.
pub open spec fn workspace_obj(s: StateView) -> Map<Seq<char>, JsonData>
    recommends
        s.workspace_name is Some,
{
    let w = Map::<Seq<char>, JsonData>::empty().insert(
        "name"@,
        JsonData::Str(s.workspace_name->0),
    );
    if s.cwd is Some {
        w.insert("current_dir"@, JsonData::Str(s.cwd->0))
    } else {
        w
    }
}

/// The nested `git` object: branch and diff counts, each when present.
pub open spec fn git_obj(s: StateView) -> Map<Seq<char>, JsonData> {
    let g = Map::<Seq<char>, JsonData>::empty();
    let g = if s.git_branch is Some {
        g.insert("branch"@, JsonData::Str(s.git_branch->0))
    } else {
        g
    };
    if s.git_counts is Some {
        g.insert("counts"@, JsonData::Str(s.git_counts->0))
    } else {
        g
    }
}

/// The payload built from a state snapshot: one top-level key per present
/// field or field group, absent ones left out entirely.
pub open spec fn payload_spec(s: StateView) -> Map<Seq<char>, JsonData> {
    let m = Map::<Seq<char>, JsonData>::empty();
    let m = if s.model is Some {
        m.insert(
            "model"@,
            JsonData::Obj(Map::<Seq<char>, JsonData>::empty().insert(
                "id"@,
                JsonData::Str(s.model->0),
            )),
        )
    } else {
        m
    };
    let m = if s.effort is Some {
        m.insert("effort"@, JsonData::Str(s.effort->0))
    } else {
        m
    };
    let m = if s.workspace_name is Some {
        m.insert("workspace"@, JsonData::Obj(workspace_obj(s)))
    } else {
        m
    };
    let m = if s.cwd is Some {
        m.insert("cwd"@, JsonData::Str(s.cwd->0))
    } else {
        m
    };
    let m = if s.git_branch is Some || s.git_counts is Some {
        m.insert("git"@, JsonData::Obj(git_obj(s)))
    } else {
        m
    };
    let m = if s.sandbox is Some {
        m.insert("sandbox"@, JsonData::Str(s.sandbox->0))
    } else {
        m
    };
    let m = if s.approval is Some {
        m.insert("approval"@, JsonData::Str(s.approval->0))
    } else {
        m
    };
    if s.since_session_ms is Some {
        m.insert(
            "timing"@,
            JsonData::Obj(Map::<Seq<char>, JsonData>::empty().insert(
                "since_session_ms"@,
                JsonData::Num(s.since_session_ms->0),
            )),
        )
    } else {
        m
    }
}

/// Build the payload object from the present state fields.
pub(crate) fn build_payload_map(state: &StatusEngineState) -> (m: JsonMap)
    ensures
        json_obj_model(m) == payload_spec(state@),
{
    let mut payload = json_map_new();
    match &state.model {
        Some(model) => {
            let mut model_obj = json_map_new();
            json_insert_str(&mut model_obj, "id", model.as_str());
            json_insert_obj(&mut payload, "model", model_obj);
        },
        None => {},
    }
    match &state.effort {
        Some(effort) => json_insert_str(&mut payload, "effort", effort.as_str()),
        None => {},
    }
    match &state.workspace_name {
        Some(name) => {
            let mut workspace = json_map_new();
            json_insert_str(&mut workspace, "name", name.as_str());
            match &state.cwd {
                Some(cwd) => json_insert_str(&mut workspace, "current_dir", cwd.as_str()),
                None => {},
            }
            json_insert_obj(&mut payload, "workspace", workspace);
        },
        None => {},
    }
    match &state.cwd {
        Some(cwd) => json_insert_str(&mut payload, "cwd", cwd.as_str()),
        None => {},
    }
    if state.git_branch.is_some() || state.git_counts.is_some() {
        let mut git = json_map_new();
        match &state.git_branch {
            Some(branch) => json_insert_str(&mut git, "branch", branch.as_str()),
            None => {},
        }
        match &state.git_counts {
            Some(counts) => json_insert_str(&mut git, "counts", counts.as_str()),
            None => {},
        }
        json_insert_obj(&mut payload, "git", git);
    }
    match &state.sandbox {
        Some(sandbox) => json_insert_str(&mut payload, "sandbox", sandbox.as_str()),
        None => {},
    }
    match &state.approval {
        Some(approval) => json_insert_str(&mut payload, "approval", approval.as_str()),
        None => {},
    }
    match state.since_session_ms {
        Some(ms) => {
            let mut timing = json_map_new();
            json_insert_num(&mut timing, "since_session_ms", ms);
            json_insert_obj(&mut payload, "timing", timing);
        },
        None => {},
    }
    proof {
        assert(json_obj_model(payload) =~= payload_spec(state@));
    }
    payload
}

/// Serialize the payload object for the current state to one line of JSON.
/// Serialization of this payload shape cannot fail.
pub(crate) fn payload_to_string(state: &StatusEngineState) -> (r: Result<String, SerializeError>)
    ensures
        r is Ok,
        r matches Ok(text) ==> text@ == json_text(payload_spec(state@)),
        r matches Ok(text) ==> forall|i: int|
            0 <= i < text@.len() ==> text@[i] != '\n' && text@[i] != '\r',
{
    let map = build_payload_map(state);
    match json_obj_to_string(map) {
        Ok(text) => Ok(text),
        Err(_) => Err(SerializeError),
    }
}

} // verus!
