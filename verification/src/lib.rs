//! Verified core of a Git worktree manager: process-command plumbing, the fzf and
//! GitHub CLI adapters, configuration overlays, mutation planning and the
//! mutation pipeline state machine.

pub mod process;
pub mod text;
pub mod fzf;
pub mod gh;
pub mod error;
pub mod paths;
pub mod git;
pub mod mapping;
pub mod config;
pub mod pipeline;
pub mod plans;
pub mod completion;
pub mod misc;
pub mod probes;
pub mod adopt;
pub mod locks;
pub mod create;
pub mod change;
pub mod doctor;
pub mod exec;
pub mod candidates;
pub mod placement;
pub mod install;
pub mod finalize;
pub mod rename;
pub mod extract;
pub mod adoption;
pub mod invoke;
pub mod lock_apply;
pub mod commit;
pub mod output;
pub mod diagnostics;
pub mod mutation_hooks;
pub mod commands;
pub mod staging;
