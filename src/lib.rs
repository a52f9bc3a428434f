//! Process-liveness probes: look a process up by name in a snapshot of the
//! local process table and report whether it is running.

pub mod signal;
pub mod matching;
pub mod process_table;
pub mod monitor;
