//! Decoding a JSON document into the task-configuration model.
//!
//! Every field of a task (and of its nested structs) has a default used
//! when the corresponding key is absent; a present key whose value has the
//! wrong fundamental type is a parse error. The `group` field is
//! polymorphic: it accepts a bare string shorthand or a full object, and
//! both shapes are normalized into the one canonical [`Group`] here, at
//! the decode boundary.

use vstd::prelude::*;
use crate::json::{JsonValue, spec_obj_get, obj_get, str_eq};
use crate::model::{
    Version, GroupKind, TaskType, Group, CommandOptions, PresentationOptions, ProblemMatcher,
    BaseTaskConfiguration, TaskConfiguration, SpecTask, SpecDoc, spec_default_version,
    spec_default_group, spec_group_from_str,
};

verus! {

/// A failed decode, with a descriptive message. All malformed inputs
/// surface as this one category; nothing is partially recovered.
#[derive(Debug, Clone, PartialEq)]
pub struct ParseError {
    pub msg: String,
}

/// What a JSON value yields where the schema expects a string.
pub open spec fn spec_decode_string(v: JsonValue) -> Option<Seq<char>> {
    match v {
        JsonValue::Str(s) => Some(s@),
        _ => None,
    }
}

/// What a JSON value yields where the schema expects a boolean.
pub open spec fn spec_decode_bool(v: JsonValue) -> Option<bool> {
    match v {
        JsonValue::Bool(b) => Some(b),
        _ => None,
    }
}

/// What a JSON value yields where the schema expects a task type:
/// exactly `"shell"` or `"process"`.
pub open spec fn spec_decode_task_type(v: JsonValue) -> Option<TaskType> {
    match v {
        JsonValue::Str(s) => if s@ == "shell"@ {
            Some(TaskType::Shell)
        } else if s@ == "process"@ {
            Some(TaskType::Process)
        } else {
            None
        },
        _ => None,
    }
}

/// What a JSON value yields where the schema expects a group kind:
/// exactly `"build"` or `"test"` (the full-object form, unlike the
/// shorthand, rejects an unknown kind).
pub open spec fn spec_decode_group_kind(v: JsonValue) -> Option<GroupKind> {
    match v {
        JsonValue::Str(s) => if s@ == "build"@ {
            Some(GroupKind::Build)
        } else if s@ == "test"@ {
            Some(GroupKind::Test)
        } else {
            None
        },
        _ => None,
    }
}

/// What a JSON value yields where the schema expects a group: a bare
/// string is the shorthand form, an object is read field by field with
/// missing keys at their defaults, and anything else is rejected.
pub open spec fn spec_decode_group(v: JsonValue) -> Option<Group> {
    match v {
        JsonValue::Str(s) => Some(spec_group_from_str(s@)),
        JsonValue::Obj(entries) => {
            let kind = match spec_obj_get(entries@, "kind"@) {
                None => Some(GroupKind::Build),
                Some(kv) => spec_decode_group_kind(kv),
            };
            let is_default = match spec_obj_get(entries@, "isDefault"@) {
                None => Some(false),
                Some(bv) => spec_decode_bool(bv),
            };
            match (kind, is_default) {
                (Some(k), Some(d)) => Some(Group { kind: k, is_default: d }),
                _ => None,
            }
        },
        _ => None,
    }
}

/// What a JSON value yields where the schema expects command options: an
/// object whose `cwd`, if present, is a string.
pub open spec fn spec_decode_options(v: JsonValue) -> Option<Seq<char>> {
    match v {
        JsonValue::Obj(entries) => match spec_obj_get(entries@, "cwd"@) {
            None => Some(Seq::<char>::empty()),
            Some(cv) => spec_decode_string(cv),
        },
        _ => None,
    }
}

/// What an argument array yields: every element must be a string, and
/// order is preserved.
pub open spec fn spec_decode_args(items: Seq<JsonValue>) -> Option<Seq<Seq<char>>> {
    if forall|i: int| 0 <= i < items.len() ==> items[i] is Str {
        Some(items.map_values(|v: JsonValue| v->Str_0@))
    } else {
        None
    }
}

/// What a JSON value yields where the schema expects one task: an object,
/// each known key decoded by its field's rule, each missing key at its
/// field's default, unknown keys ignored.
pub open spec fn spec_decode_task(v: JsonValue) -> Option<SpecTask> {
    match v {
        JsonValue::Obj(entries) => {
            let e = entries@;
            let task_type = match spec_obj_get(e, "type"@) {
                None => Some(TaskType::Shell),
                Some(x) => spec_decode_task_type(x),
            };
            let group = match spec_obj_get(e, "group"@) {
                None => Some(spec_default_group()),
                Some(x) => spec_decode_group(x),
            };
            let label = match spec_obj_get(e, "label"@) {
                None => Some(Seq::<char>::empty()),
                Some(x) => spec_decode_string(x),
            };
            let command = match spec_obj_get(e, "command"@) {
                None => Some(Seq::<char>::empty()),
                Some(x) => spec_decode_string(x),
            };
            let is_background = match spec_obj_get(e, "isBackground"@) {
                None => Some(false),
                Some(x) => spec_decode_bool(x),
            };
            let cwd = match spec_obj_get(e, "options"@) {
                None => Some(Seq::<char>::empty()),
                Some(x) => spec_decode_options(x),
            };
            let args = match spec_obj_get(e, "args"@) {
                None => Some(Seq::<Seq<char>>::empty()),
                Some(x) => match x {
                    JsonValue::Arr(items) => spec_decode_args(items@),
                    _ => None,
                },
            };
            let presentation_ok = match spec_obj_get(e, "presentation"@) {
                None => true,
                Some(x) => x is Obj,
            };
            let problem_matcher_ok = match spec_obj_get(e, "problemMatcher"@) {
                None => true,
                Some(x) => x is Obj,
            };
            match (task_type, group, label, command, is_background, cwd, args) {
                (Some(tt), Some(g), Some(l), Some(c), Some(b), Some(w), Some(a)) => if presentation_ok
                    && problem_matcher_ok {
                    Some(
                        SpecTask {
                            task_type: tt,
                            group: g,
                            label: l,
                            command: c,
                            is_background: b,
                            cwd: w,
                            args: a,
                        },
                    )
                } else {
                    None
                },
                _ => None,
            }
        },
        _ => None,
    }
}

/// What a task array yields: every element must decode as a task, and
/// input order is preserved.
pub open spec fn spec_decode_tasks(items: Seq<JsonValue>) -> Option<Seq<SpecTask>> {
    if forall|i: int| 0 <= i < items.len() ==> spec_decode_task(#[trigger] items[i]) is Some {
        Some(items.map_values(|v: JsonValue| spec_decode_task(v)->Some_0))
    } else {
        None
    }
}

/// What a whole document yields: an object whose `tasks` key is required
/// and whose `version`, if absent, is the fixed default.
pub open spec fn spec_decode_document(v: JsonValue) -> Option<SpecDoc> {
    match v {
        JsonValue::Obj(entries) => {
            let e = entries@;
            let version = match spec_obj_get(e, "version"@) {
                None => Some(spec_default_version()),
                Some(x) => spec_decode_string(x),
            };
            let tasks = match spec_obj_get(e, "tasks"@) {
                None => None,
                Some(x) => match x {
                    JsonValue::Arr(items) => spec_decode_tasks(items@),
                    _ => None,
                },
            };
            match (version, tasks) {
                (Some(ver), Some(ts)) => Some(SpecDoc { version: ver, tasks: ts }),
                _ => None,
            }
        },
        _ => None,
    }
}

fn fail<T>(what: &str) -> (r: Result<T, ParseError>)
    ensures
        r is Err,
{
    Err(ParseError { msg: String::from_str(what) })
}

/// Decode a value the schema expects to be a string.
pub fn decode_string(v: &JsonValue) -> (r: Result<String, ParseError>)
    ensures
        r matches Ok(s) ==> spec_decode_string(*v) == Some(s@),
        r is Err <==> spec_decode_string(*v) is None,
{
    match v {
        JsonValue::Str(s) => Ok(s.clone()),
        _ => fail("parse failed: expected a string"),
    }
}

/// Decode a value the schema expects to be a boolean.
pub fn decode_bool(v: &JsonValue) -> (r: Result<bool, ParseError>)
    ensures
        r matches Ok(b) ==> spec_decode_bool(*v) == Some(b),
        r is Err <==> spec_decode_bool(*v) is None,
{
    match v {
        JsonValue::Bool(b) => Ok(*b),
        _ => fail("parse failed: expected a boolean"),
    }
}

/// Decode a task-type string: `"shell"` or `"process"`.
pub fn decode_task_type(v: &JsonValue) -> (r: Result<TaskType, ParseError>)
    ensures
        r matches Ok(t) ==> spec_decode_task_type(*v) == Some(t),
        r is Err <==> spec_decode_task_type(*v) is None,
{
    match v {
        JsonValue::Str(s) => {
            if str_eq(s.as_str(), "shell") {
                Ok(TaskType::Shell)
            } else if str_eq(s.as_str(), "process") {
                Ok(TaskType::Process)
            } else {
                fail("parse failed: unknown task type")
            }
        },
        _ => fail("parse failed: expected a task-type string"),
    }
}

/// Decode a group-kind string of the full-object form: `"build"` or `"test"`.
pub fn decode_group_kind(v: &JsonValue) -> (r: Result<GroupKind, ParseError>)
    ensures
        r matches Ok(k) ==> spec_decode_group_kind(*v) == Some(k),
        r is Err <==> spec_decode_group_kind(*v) is None,
{
    match v {
        JsonValue::Str(s) => {
            if str_eq(s.as_str(), "build") {
                Ok(GroupKind::Build)
            } else if str_eq(s.as_str(), "test") {
                Ok(GroupKind::Test)
            } else {
                fail("parse failed: unknown group kind")
            }
        },
        _ => fail("parse failed: expected a group-kind string"),
    }
}

/// Decode a group from either of its two input shapes: the bare-string
/// shorthand, or the full object. This is the one place the polymorphism
/// exists; only the canonical [`Group`] leaves it.
pub fn decode_group(v: &JsonValue) -> (r: Result<Group, ParseError>)
    ensures
        r matches Ok(g) ==> spec_decode_group(*v) == Some(g),
        r is Err <==> spec_decode_group(*v) is None,
{
    match v {
        JsonValue::Str(s) => Ok(Group::from_str(s.as_str())),
        JsonValue::Obj(entries) => {
            let kind = match obj_get(entries, "kind") {
                None => GroupKind::Build,
                Some(kv) => match decode_group_kind(kv) {
                    Ok(k) => k,
                    Err(e) => {
                        return Err(e);
                    },
                },
            };
            let is_default = match obj_get(entries, "isDefault") {
                None => false,
                Some(bv) => match decode_bool(bv) {
                    Ok(b) => b,
                    Err(e) => {
                        return Err(e);
                    },
                },
            };
            Ok(Group { kind, is_default })
        },
        _ => fail("parse failed: group must be a string or an object"),
    }
}

/// Decode command options: an object whose `cwd`, if present, is a string.
pub fn decode_options(v: &JsonValue) -> (r: Result<CommandOptions, ParseError>)
    ensures
        r matches Ok(o) ==> spec_decode_options(*v) == Some(o@),
        r is Err <==> spec_decode_options(*v) is None,
{
    match v {
        JsonValue::Obj(entries) => {
            let cwd = match obj_get(entries, "cwd") {
                None => String::new(),
                Some(cv) => match decode_string(cv) {
                    Ok(s) => s,
                    Err(e) => {
                        return Err(e);
                    },
                },
            };
            Ok(CommandOptions { cwd })
        },
        _ => fail("parse failed: options must be an object"),
    }
}

/// Decode an argument array: every element must be a string.
pub fn decode_args(items: &Vec<JsonValue>) -> (r: Result<Vec<String>, ParseError>)
    ensures
        r matches Ok(a) ==> spec_decode_args(items@) == Some(a@.map_values(|s: String| s@)),
        r is Err <==> spec_decode_args(items@) is None,
{
    let mut out: Vec<String> = Vec::new();
    let mut i: usize = 0;
    while i < items.len()
        invariant
            i <= items@.len(),
            out@.len() == i,
            forall|j: int| 0 <= j < i ==> items@[j] is Str,
            forall|j: int| 0 <= j < i ==> out@[j]@ == items@[j]->Str_0@,
        decreases items@.len() - i,
    {
        match &items[i] {
            JsonValue::Str(s) => {
                out.push(s.clone());
            },
            _ => {
                return fail("parse failed: arguments must be strings");
            },
        }
        i = i + 1;
    }
    assert(out@.map_values(|s: String| s@) =~= items@.map_values(|v: JsonValue| v->Str_0@));
    Ok(out)
}

/// Decode one task object: each known key by its field's rule, each
/// missing key at its field's default, unknown keys ignored.
pub fn decode_task(v: &JsonValue) -> (r: Result<BaseTaskConfiguration, ParseError>)
    ensures
        r matches Ok(t) ==> spec_decode_task(*v) == Some(t@),
        r is Err <==> spec_decode_task(*v) is None,
{
    let entries = match v {
        JsonValue::Obj(entries) => entries,
        _ => {
            return fail("parse failed: a task must be an object");
        },
    };
    let task_type = match obj_get(entries, "type") {
        None => TaskType::Shell,
        Some(x) => match decode_task_type(x) {
            Ok(t) => t,
            Err(e) => {
                return Err(e);
            },
        },
    };
    let group = match obj_get(entries, "group") {
        None => Group { kind: GroupKind::Build, is_default: false },
        Some(x) => match decode_group(x) {
            Ok(g) => g,
            Err(e) => {
                return Err(e);
            },
        },
    };
    let label = match obj_get(entries, "label") {
        None => String::new(),
        Some(x) => match decode_string(x) {
            Ok(s) => s,
            Err(e) => {
                return Err(e);
            },
        },
    };
    let command = match obj_get(entries, "command") {
        None => String::new(),
        Some(x) => match decode_string(x) {
            Ok(s) => s,
            Err(e) => {
                return Err(e);
            },
        },
    };
    let is_background = match obj_get(entries, "isBackground") {
        None => false,
        Some(x) => match decode_bool(x) {
            Ok(b) => b,
            Err(e) => {
                return Err(e);
            },
        },
    };
    let options = match obj_get(entries, "options") {
        None => CommandOptions::default(),
        Some(x) => match decode_options(x) {
            Ok(o) => o,
            Err(e) => {
                return Err(e);
            },
        },
    };
    let args = match obj_get(entries, "args") {
        None => Vec::new(),
        Some(x) => match x {
            JsonValue::Arr(items) => match decode_args(items) {
                Ok(a) => a,
                Err(e) => {
                    return Err(e);
                },
            },
            _ => {
                return fail("parse failed: args must be an array");
            },
        },
    };
    match obj_get(entries, "presentation") {
        None => (),
        Some(x) => match x {
            JsonValue::Obj(_) => (),
            _ => {
                return fail("parse failed: presentation must be an object");
            },
        },
    }
    match obj_get(entries, "problemMatcher") {
        None => (),
        Some(x) => match x {
            JsonValue::Obj(_) => (),
            _ => {
                return fail("parse failed: problemMatcher must be an object");
            },
        },
    }
    let t = BaseTaskConfiguration {
        task_type,
        group,
        label,
        command,
        is_background,
        options,
        args,
        presentation: PresentationOptions {  },
        problem_matcher: ProblemMatcher {  },
    };
    assert(t@.args =~= spec_decode_task(*v)->Some_0.args);
    Ok(t)
}

/// Decode the task array: every element must decode, in order.
pub fn decode_tasks(items: &Vec<JsonValue>) -> (r: Result<Vec<BaseTaskConfiguration>, ParseError>)
    ensures
        r matches Ok(ts) ==> spec_decode_tasks(items@) == Some(
            ts@.map_values(|t: BaseTaskConfiguration| t@),
        ),
        r is Err <==> spec_decode_tasks(items@) is None,
{
    let mut out: Vec<BaseTaskConfiguration> = Vec::new();
    let mut i: usize = 0;
    while i < items.len()
        invariant
            i <= items@.len(),
            out@.len() == i,
            forall|j: int| 0 <= j < i ==> spec_decode_task(#[trigger] items@[j]) is Some,
            forall|j: int| 0 <= j < i ==> out@[j]@ == spec_decode_task(items@[j])->Some_0,
        decreases items@.len() - i,
    {
        match decode_task(&items[i]) {
            Ok(t) => {
                out.push(t);
            },
            Err(e) => {
                return Err(e);
            },
        }
        i = i + 1;
    }
    assert(out@.map_values(|t: BaseTaskConfiguration| t@) =~= items@.map_values(
        |v: JsonValue| spec_decode_task(v)->Some_0,
    ));
    Ok(out)
}

/// Decode a whole document: an object whose `tasks` key is required and
/// whose `version`, if absent, defaults.
pub fn decode_document(v: &JsonValue) -> (r: Result<TaskConfiguration, ParseError>)
    ensures
        r matches Ok(d) ==> spec_decode_document(*v) == Some(d@),
        r is Err <==> spec_decode_document(*v) is None,
{
    let entries = match v {
        JsonValue::Obj(entries) => entries,
        _ => {
            return fail("parse failed: the document must be an object");
        },
    };
    let version = match obj_get(entries, "version") {
        None => Version::default(),
        Some(x) => match decode_string(x) {
            Ok(s) => Version(s),
            Err(e) => {
                return Err(e);
            },
        },
    };
    let tasks = match obj_get(entries, "tasks") {
        None => {
            return fail("parse failed: the document has no tasks key");
        },
        Some(x) => match x {
            JsonValue::Arr(items) => match decode_tasks(items) {
                Ok(ts) => ts,
                Err(e) => {
                    return Err(e);
                },
            },
            _ => {
                return fail("parse failed: tasks must be an array");
            },
        },
    };
    let d = TaskConfiguration { version, tasks };
    assert(d@.tasks =~= spec_decode_document(*v)->Some_0.tasks);
    Ok(d)
}

} // verus!
