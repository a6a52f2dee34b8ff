//! The logic of a manager for Git worktrees: its commands, its terminal interface and what both
//! ask of Git and of tmux.
pub mod cli;
pub mod commands;
pub mod error;
pub mod git;
pub mod layout;
pub mod listing;
pub mod path;
pub mod plan;
pub mod process;
pub mod prompt;
pub mod shell;
pub mod text;
pub mod tmux;
pub mod tui;
pub mod view;
