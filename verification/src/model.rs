//! The typed task-configuration model: a document is an optional schema
//! version plus an ordered list of tasks, each task a command with its
//! arguments, grouping, and options. Every field has a default used when
//! the corresponding key is absent from the input document.

use vstd::prelude::*;
use crate::json::str_eq;

verus! {

/// The schema-version string of a document.
#[derive(Debug, Clone, PartialEq)]
pub struct Version(pub String);

/// A task's category: part of the build or part of the test suite.
#[derive(Debug, Clone, Copy, PartialEq, Eq, Structural)]
pub enum GroupKind {
    Build,
    Test,
}

/// How a task's command is run: through a shell, or as a process image.
#[derive(Debug, Clone, Copy, PartialEq, Eq, Structural)]
pub enum TaskType {
    Shell,
    Process,
}

/// A task's group: its kind plus whether it is the default of its kind.
#[derive(Debug, Clone, Copy, PartialEq, Eq, Structural)]
pub struct Group {
    pub kind: GroupKind,
    pub is_default: bool,
}

/// Options handed to the spawned command; an empty `cwd` means
/// "unspecified, inherit the caller's working directory".
#[derive(Debug, Clone, PartialEq)]
pub struct CommandOptions {
    pub cwd: String,
}

/// Reserved presentation settings; the schema accepts any object here.
#[derive(Debug, Clone, Copy, PartialEq, Eq, Structural)]
pub struct PresentationOptions {}

/// Reserved problem-matcher settings; the schema accepts any object here.
#[derive(Debug, Clone, Copy, PartialEq, Eq, Structural)]
pub struct ProblemMatcher {}

/// One named, independently invocable external-command description.
#[derive(Debug, Clone, PartialEq)]
pub struct BaseTaskConfiguration {
    pub task_type: TaskType,
    pub group: Group,
    pub label: String,
    pub command: String,
    pub is_background: bool,
    pub options: CommandOptions,
    pub args: Vec<String>,
    pub presentation: PresentationOptions,
    pub problem_matcher: ProblemMatcher,
}

/// A parsed configuration document: a version and its tasks, in input order.
#[derive(Debug, Clone, PartialEq)]
pub struct TaskConfiguration {
    pub version: Version,
    pub tasks: Vec<BaseTaskConfiguration>,
}

/// The mathematical value of one task.
pub struct SpecTask {
    pub task_type: TaskType,
    pub group: Group,
    pub label: Seq<char>,
    pub command: Seq<char>,
    pub is_background: bool,
    pub cwd: Seq<char>,
    pub args: Seq<Seq<char>>,
}

/// The mathematical value of a document.
pub struct SpecDoc {
    pub version: Seq<char>,
    pub tasks: Seq<SpecTask>,
}

impl View for Version {
    type V = Seq<char>;

    open spec fn view(&self) -> Seq<char> {
        self.0@
    }
}

impl View for CommandOptions {
    type V = Seq<char>;

    open spec fn view(&self) -> Seq<char> {
        self.cwd@
    }
}

impl View for BaseTaskConfiguration {
    type V = SpecTask;

    open spec fn view(&self) -> SpecTask {
        SpecTask {
            task_type: self.task_type,
            group: self.group,
            label: self.label@,
            command: self.command@,
            is_background: self.is_background,
            cwd: self.options.cwd@,
            args: self.args@.map_values(|s: String| s@),
        }
    }
}

impl View for TaskConfiguration {
    type V = SpecDoc;

    open spec fn view(&self) -> SpecDoc {
        SpecDoc {
            version: self.version@,
            tasks: self.tasks@.map_values(|t: BaseTaskConfiguration| t@),
        }
    }
}

/// The version a document carries when its input names none.
pub open spec fn spec_default_version() -> Seq<char> {
    "2.0.0"@
}

/// The group a task carries when its input names none.
pub open spec fn spec_default_group() -> Group {
    Group { kind: GroupKind::Build, is_default: false }
}

/// The task value whose every field is at its default.
pub open spec fn spec_default_task() -> SpecTask {
    SpecTask {
        task_type: TaskType::Shell,
        group: spec_default_group(),
        label: Seq::<char>::empty(),
        command: Seq::<char>::empty(),
        is_background: false,
        cwd: Seq::<char>::empty(),
        args: Seq::<Seq<char>>::empty(),
    }
}

impl Default for Version {
    /// The fixed fallback schema version.
    fn default() -> (r: Self)
        ensures
            r@ == spec_default_version(),
    {
        Version(String::from_str("2.0.0"))
    }
}

impl Default for CommandOptions {
    /// An unspecified working directory.
    fn default() -> (r: Self)
        ensures
            r@ == Seq::<char>::empty(),
    {
        CommandOptions { cwd: String::new() }
    }
}

impl Default for BaseTaskConfiguration {
    /// A task with every field at its default.
    fn default() -> (r: Self)
        ensures
            r@ == spec_default_task(),
    {
        let t = BaseTaskConfiguration {
            task_type: TaskType::Shell,
            group: Group { kind: GroupKind::Build, is_default: false },
            label: String::new(),
            command: String::new(),
            is_background: false,
            options: CommandOptions::default(),
            args: Vec::new(),
            presentation: PresentationOptions {  },
            problem_matcher: ProblemMatcher {  },
        };
        assert(t@.args =~= spec_default_task().args);
        t
    }
}

impl Default for TaskConfiguration {
    /// A document with the default version and no tasks.
    fn default() -> (r: Self)
        ensures
            r@.version == spec_default_version(),
            r@.tasks == Seq::<SpecTask>::empty(),
    {
        let d = TaskConfiguration { version: Version::default(), tasks: Vec::new() };
        assert(d@.tasks =~= Seq::<SpecTask>::empty());
        d
    }
}

/// What a bare-string group shorthand denotes: an exact kind match, with
/// anything unrecognized falling back to `Build`; the shorthand form never
/// marks a default.
pub open spec fn spec_group_from_str(s: Seq<char>) -> Group {
    Group { kind: if s == "test"@ { GroupKind::Test } else { GroupKind::Build }, is_default: false }
}

impl Group {
    /// Resolve the bare-string shorthand form of a group.
    pub fn from_str(s: &str) -> (r: Group)
        ensures
            r == spec_group_from_str(s@),
    {
        let kind = if str_eq(s, "test") {
            GroupKind::Test
        } else {
            GroupKind::Build
        };
        Group { kind, is_default: false }
    }
}

} // verus!
