//! The execution contract of one task.
//!
//! Spawning and waiting are the surrounding program's work; this module
//! fixes what is spawned — the task's command with its arguments in
//! input order, under the configured working directory when one is set —
//! and how a finished child's exit status is judged.

use vstd::prelude::*;
use crate::model::BaseTaskConfiguration;

verus! {

/// What one task invocation runs: a program, its arguments in order,
/// and the working directory to run under, when the task names one.
#[derive(Debug, Clone, PartialEq)]
pub struct TaskInvocation {
    pub program: String,
    pub args: Vec<String>,
    pub cwd: Option<String>,
}

/// The mathematical value of an invocation.
pub struct SpecInvocation {
    pub program: Seq<char>,
    pub args: Seq<Seq<char>>,
    pub cwd: Option<Seq<char>>,
}

impl View for TaskInvocation {
    type V = SpecInvocation;

    open spec fn view(&self) -> SpecInvocation {
        SpecInvocation {
            program: self.program@,
            args: self.args@.map_values(|s: String| s@),
            cwd: match self.cwd {
                Some(d) => Some(d@),
                None => None,
            },
        }
    }
}

/// What a finished child reported: its captured output streams and its
/// exit code, when the operating system gave one.
#[derive(Debug, Clone, PartialEq)]
pub struct TaskResult {
    pub stdout: Vec<u8>,
    pub stderr: Vec<u8>,
    pub code: Option<i32>,
}

/// A completion is successful exactly when the child exited with code zero.
pub open spec fn spec_success(code: Option<i32>) -> bool {
    code == Some(0i32)
}

/// The invocation a task describes: its command, its arguments in input
/// order, and its working directory — absent when the configured `cwd`
/// is empty, meaning the caller's own directory is inherited.
pub fn invocation_of(task: &BaseTaskConfiguration) -> (r: TaskInvocation)
    ensures
        r@.program == task@.command,
        r@.args == task@.args,
        task@.cwd.len() == 0 ==> r@.cwd is None,
        task@.cwd.len() > 0 ==> r@.cwd == Some(task@.cwd),
{
    let cwd = if task.options.cwd.as_str().is_empty() {
        None
    } else {
        Some(task.options.cwd.clone())
    };
    let r = TaskInvocation { program: task.command.clone(), args: task.args.clone(), cwd };
    assert(r@.args =~= task@.args);
    r
}

/// Whether a finished task counts as a success; a non-zero exit, or an
/// exit without a code, is an unsuccessful completion to be propagated.
pub fn task_succeeded(res: &TaskResult) -> (r: bool)
    ensures
        r == spec_success(res.code),
{
    match res.code {
        Some(c) => c == 0,
        None => false,
    }
}

} // verus!
