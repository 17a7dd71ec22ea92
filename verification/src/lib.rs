//! Workspace management for tmux sessions and git worktrees: the control-mode
//! protocol of tmux, the sequencing of post-create commands, and the life
//! cycle of worktrees.
pub mod config;
pub mod copy;
pub mod git;
pub mod path;
pub mod text;
pub mod tmux_control;
pub mod worktree;
