//! Runtime context for rendering an interactive shell prompt: locating a
//! version-control metadata directory, resolving the checked-out branch,
//! and managing nested terminal color scopes with shell-correct zero-width
//! escape markers.

pub mod basic;
pub mod color;
pub mod git;
pub mod output;
pub mod path;
pub mod state;
pub mod text;
