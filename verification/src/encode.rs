//! Re-serializing a task-configuration into a JSON document tree.
//!
//! Every encoder's contract is the round-trip law: decoding what it
//! produced yields exactly the value it was given. Since the decoders'
//! contracts pin their results down, this makes re-serializing and
//! re-parsing a document stable, defaults included.

use vstd::prelude::*;
use crate::json::{JsonValue, spec_obj_get};
use crate::model::{
    GroupKind, TaskType, Group, CommandOptions, BaseTaskConfiguration, TaskConfiguration,
};
use crate::decode::{
    spec_decode_group, spec_decode_options, spec_decode_args, spec_decode_task, spec_decode_tasks,
    spec_decode_document,
};

verus! {

/// Object lookup lands on entry `i` when every earlier key misses.
proof fn lemma_obj_get_found(e: Seq<(String, JsonValue)>, key: Seq<char>, i: int)
    requires
        0 <= i < e.len(),
        forall|j: int| 0 <= j < i ==> e[j].0@ != key,
        e[i].0@ == key,
    ensures
        spec_obj_get(e, key) == Some(e[i].1),
    decreases i,
{
    if i > 0 {
        lemma_obj_get_found(e.drop_first(), key, i - 1);
    }
}

/// Encode a group in its full-object form.
pub fn encode_group(g: &Group) -> (r: JsonValue)
    ensures
        spec_decode_group(r) == Some(*g),
{
    let kind_str = match g.kind {
        GroupKind::Build => String::from_str("build"),
        GroupKind::Test => String::from_str("test"),
    };
    let mut entries: Vec<(String, JsonValue)> = Vec::new();
    entries.push((String::from_str("kind"), JsonValue::Str(kind_str)));
    entries.push((String::from_str("isDefault"), JsonValue::Bool(g.is_default)));
    proof {
        reveal_strlit("kind");
        reveal_strlit("isDefault");
        reveal_strlit("build");
        reveal_strlit("test");
        assert("kind"@.len() == 4 && "isDefault"@.len() == 9);
        assert("build"@[0] == 'b' && "test"@[0] == 't');
        let e = entries@;
        lemma_obj_get_found(e, "kind"@, 0);
        lemma_obj_get_found(e, "isDefault"@, 1);
    }
    JsonValue::Obj(entries)
}

/// Encode command options.
pub fn encode_options(o: &CommandOptions) -> (r: JsonValue)
    ensures
        spec_decode_options(r) == Some(o@),
{
    let mut entries: Vec<(String, JsonValue)> = Vec::new();
    entries.push((String::from_str("cwd"), JsonValue::Str(o.cwd.clone())));
    proof {
        lemma_obj_get_found(entries@, "cwd"@, 0);
    }
    JsonValue::Obj(entries)
}

/// Encode an argument list, in order.
pub fn encode_args(args: &Vec<String>) -> (r: Vec<JsonValue>)
    ensures
        spec_decode_args(r@) == Some(args@.map_values(|s: String| s@)),
{
    let mut out: Vec<JsonValue> = Vec::new();
    let mut i: usize = 0;
    while i < args.len()
        invariant
            i <= args@.len(),
            out@.len() == i,
            forall|j: int| 0 <= j < i ==> out@[j] is Str,
            forall|j: int| 0 <= j < i ==> out@[j]->Str_0@ == args@[j]@,
        decreases args@.len() - i,
    {
        out.push(JsonValue::Str(args[i].clone()));
        i = i + 1;
    }
    assert(out@.map_values(|v: JsonValue| v->Str_0@) =~= args@.map_values(|s: String| s@));
    out
}

/// Encode one task, every field written out.
pub fn encode_task(t: &BaseTaskConfiguration) -> (r: JsonValue)
    ensures
        spec_decode_task(r) == Some(t@),
{
    let type_str = match t.task_type {
        TaskType::Shell => String::from_str("shell"),
        TaskType::Process => String::from_str("process"),
    };
    let mut entries: Vec<(String, JsonValue)> = Vec::new();
    entries.push((String::from_str("type"), JsonValue::Str(type_str)));
    entries.push((String::from_str("group"), encode_group(&t.group)));
    entries.push((String::from_str("label"), JsonValue::Str(t.label.clone())));
    entries.push((String::from_str("command"), JsonValue::Str(t.command.clone())));
    entries.push((String::from_str("isBackground"), JsonValue::Bool(t.is_background)));
    entries.push((String::from_str("options"), encode_options(&t.options)));
    entries.push((String::from_str("args"), JsonValue::Arr(encode_args(&t.args))));
    entries.push((String::from_str("presentation"), JsonValue::Obj(Vec::new())));
    entries.push((String::from_str("problemMatcher"), JsonValue::Obj(Vec::new())));
    proof {
        reveal_strlit("type");
        reveal_strlit("group");
        reveal_strlit("label");
        reveal_strlit("command");
        reveal_strlit("isBackground");
        reveal_strlit("options");
        reveal_strlit("args");
        reveal_strlit("presentation");
        reveal_strlit("problemMatcher");
        reveal_strlit("shell");
        reveal_strlit("process");
        assert("type"@.len() == 4 && "group"@.len() == 5 && "label"@.len() == 5 && "command"@.len()
            == 7 && "isBackground"@.len() == 12 && "options"@.len() == 7 && "args"@.len() == 4
            && "presentation"@.len() == 12 && "problemMatcher"@.len() == 14);
        assert("type"@[0] == 't' && "group"@[0] == 'g' && "label"@[0] == 'l' && "command"@[0] == 'c'
            && "isBackground"@[0] == 'i' && "options"@[0] == 'o' && "args"@[0] == 'a'
            && "presentation"@[0] == 'p');
        assert("shell"@[0] == 's' && "process"@[0] == 'p');
        let e = entries@;
        lemma_obj_get_found(e, "type"@, 0);
        lemma_obj_get_found(e, "group"@, 1);
        lemma_obj_get_found(e, "label"@, 2);
        lemma_obj_get_found(e, "command"@, 3);
        lemma_obj_get_found(e, "isBackground"@, 4);
        lemma_obj_get_found(e, "options"@, 5);
        lemma_obj_get_found(e, "args"@, 6);
        lemma_obj_get_found(e, "presentation"@, 7);
        lemma_obj_get_found(e, "problemMatcher"@, 8);
    }
    JsonValue::Obj(entries)
}

/// Encode a whole document: its version and each task, in order.
///
/// The contract is the round-trip law: decoding the re-serialized
/// document yields the document itself, for every document value.
pub fn encode_document(tc: &TaskConfiguration) -> (r: JsonValue)
    ensures
        spec_decode_document(r) == Some(tc@),
{
    let mut task_values: Vec<JsonValue> = Vec::new();
    let mut i: usize = 0;
    while i < tc.tasks.len()
        invariant
            i <= tc.tasks@.len(),
            task_values@.len() == i,
            forall|j: int| 0 <= j < i ==> spec_decode_task(#[trigger] task_values@[j]) == Some(
                tc.tasks@[j]@,
            ),
        decreases tc.tasks@.len() - i,
    {
        task_values.push(encode_task(&tc.tasks[i]));
        i = i + 1;
    }
    assert(task_values@.map_values(|v: JsonValue| spec_decode_task(v)->Some_0) =~= tc.tasks@.map_values(
        |t: BaseTaskConfiguration| t@,
    ));
    let mut entries: Vec<(String, JsonValue)> = Vec::new();
    entries.push((String::from_str("version"), JsonValue::Str(tc.version.0.clone())));
    entries.push((String::from_str("tasks"), JsonValue::Arr(task_values)));
    proof {
        reveal_strlit("version");
        reveal_strlit("tasks");
        assert("version"@.len() == 7 && "tasks"@.len() == 5);
        let e = entries@;
        lemma_obj_get_found(e, "version"@, 0);
        lemma_obj_get_found(e, "tasks"@, 1);
    }
    JsonValue::Obj(entries)
}

} // verus!
