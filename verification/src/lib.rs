//! Policy checks for a source-control repository: branch naming, commit
//! message convention, worktree and upstream state, staged secrets, and the
//! hook scripts that enforce them.
//!
//! Every function here works on plain values. Running the version-control
//! tool, reading files and printing are left to the caller.

pub mod check;
pub mod cli;
pub mod config;
pub mod convention;
pub mod error;
pub mod fix;
pub mod git;
pub mod hooks;
pub mod pattern;
pub mod render;
pub mod sensitive;
pub mod text;
