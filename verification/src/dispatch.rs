//! Selecting and listing tasks by their normalized identifiers.
//!
//! Selection walks the document's tasks in input order and takes the
//! first whose normalized label equals the requested identifier; when
//! none matches, no task is selected (the surrounding program then shows
//! its help text instead of running anything).

use vstd::prelude::*;
use crate::label::{spec_task_name, task_name};
use crate::json::str_eq;
use crate::model::{TaskConfiguration, BaseTaskConfiguration, TaskType};

verus! {

/// The first task whose normalized label is `ident`, or nothing.
pub fn select_task<'a>(tc: &'a TaskConfiguration, ident: &str) -> (r: Option<
    &'a BaseTaskConfiguration,
>)
    ensures
        r is None <==> (forall|i: int|
            0 <= i < tc@.tasks.len() ==> spec_task_name(#[trigger] tc@.tasks[i].label) != ident@),
        r matches Some(t) ==> exists|i: int|
            {
                &&& 0 <= i < tc@.tasks.len()
                &&& spec_task_name(#[trigger] tc@.tasks[i].label) == ident@
                &&& t@ == tc@.tasks[i]
                &&& forall|j: int|
                    0 <= j < i ==> spec_task_name(#[trigger] tc@.tasks[j].label) != ident@
            },
{
    let mut i: usize = 0;
    while i < tc.tasks.len()
        invariant
            i <= tc@.tasks.len(),
            forall|j: int|
                0 <= j < i ==> spec_task_name(#[trigger] tc@.tasks[j].label) != ident@,
        decreases tc@.tasks.len() - i,
    {
        let name = task_name(tc.tasks[i].label.clone());
        if str_eq(name.as_str(), ident) {
            let t = &tc.tasks[i];
            proof {
                let k = i as int;
                assert(spec_task_name(tc@.tasks[k].label) == ident@);
                assert(t@ == tc@.tasks[k]);
                assert((exists|m: int|
                    {
                        &&& 0 <= m < tc@.tasks.len()
                        &&& spec_task_name(#[trigger] tc@.tasks[m].label) == ident@
                        &&& t@ == tc@.tasks[m]
                        &&& forall|j: int|
                            0 <= j < m ==> spec_task_name(#[trigger] tc@.tasks[j].label) != ident@
                    }));
            }
            return Some(t);
        }
        i = i + 1;
    }
    None
}

/// Every task's normalized identifier paired with its task type, in
/// input order.
pub fn task_listing(tc: &TaskConfiguration) -> (r: Vec<(String, TaskType)>)
    ensures
        r@.len() == tc@.tasks.len(),
        forall|i: int|
            0 <= i < r@.len() ==> (#[trigger] r@[i]).0@ == spec_task_name(tc@.tasks[i].label)
                && r@[i].1 == tc@.tasks[i].task_type,
{
    let mut out: Vec<(String, TaskType)> = Vec::new();
    let mut i: usize = 0;
    while i < tc.tasks.len()
        invariant
            i <= tc@.tasks.len(),
            out@.len() == i,
            forall|j: int|
                0 <= j < i ==> (#[trigger] out@[j]).0@ == spec_task_name(tc@.tasks[j].label)
                    && out@[j].1 == tc@.tasks[j].task_type,
        decreases tc@.tasks.len() - i,
    {
        out.push((task_name(tc.tasks[i].label.clone()), tc.tasks[i].task_type));
        i = i + 1;
    }
    out
}

} // verus!
