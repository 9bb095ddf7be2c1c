//! Batch conversion planning for audio files: rule matching, destination
//! paths, task construction and the per-task execution state machine.

pub mod archive;
pub mod bitrates;
pub mod book;
pub mod cli;
pub mod condition;
pub mod exec;
pub mod format;
pub mod meta;
pub mod out;
pub mod path;
pub mod plan;
pub mod report;
pub mod shell;
pub mod source;
pub mod tasks;
pub mod text;
