//! Reconciles symlink-specification files with the filesystem: parses each
//! specification line, decides what to do about the link it names, and keeps
//! the run-wide conflict policy.

pub mod dir;
pub mod engine;
pub mod errors;
pub mod line;
pub mod params;
pub mod prompt;
pub mod text;
pub mod utils;
