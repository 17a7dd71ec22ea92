//! The records that describe a project and the place of its worktrees.
use vstd::prelude::*;

verus! {

/// What is done to every new worktree of a project.
#[derive(Clone, Debug, PartialEq, Eq)]
pub struct WorktreeConfig {
    /// Paths, relative to the project's root, that are copied into the
    /// worktree.
    pub copy: Vec<String>,
    /// Paths, relative to the project's root, to which the worktree gets a
    /// symbolic link.
    pub symlink: Vec<String>,
    /// Shell commands that run in the worktree once it exists.
    pub post_create: Vec<String>,
}

/// A project: its name, the root of its repository, and its settings for
/// worktrees, if it has any.
#[derive(Clone, Debug, PartialEq, Eq)]
pub struct Project {
    pub name: String,
    pub root: String,
    pub worktree: Option<WorktreeConfig>,
}

/// The settings that all projects share.
#[derive(Clone, Debug, PartialEq, Eq)]
pub struct GlobalConfig {
    /// The directory under which the worktrees of all projects lie.
    pub worktree_base: String,
}

} // verus!
