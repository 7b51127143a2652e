//! A verified task-runner core: it models a declarative task-configuration
//! document, decodes it from JSON with per-field defaults, locates the
//! document on disk, and prepares the selected task for execution.

use vstd::prelude::*;

pub mod decode;
pub mod dispatch;
pub mod encode;
pub mod json;
pub mod label;
pub mod locator;
pub mod model;
pub mod render;
pub mod runner;
pub mod text;

pub use crate::model::{
    BaseTaskConfiguration, CommandOptions, Group, GroupKind, PresentationOptions, ProblemMatcher,
    TaskConfiguration, TaskType, Version,
};
pub use crate::text::parse;

verus! {

} // verus!
