//! Batch execution engine: runs an inline script under a chosen interpreter
//! and streams one JSON record per argument to the script's standard input.

pub mod interpreter;
pub mod record;
pub mod runner;
