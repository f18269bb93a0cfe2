//! The ASC safety-kernel reference stack.
pub mod verdict;
pub mod checks;
pub mod interlock;
pub mod adapter;
pub mod logging;
pub mod supervisor;
pub mod mission;
pub mod conformance;
pub mod replay_args;
pub mod trace_replay;
pub mod runtime;
pub mod mission_args;
pub mod engine;
