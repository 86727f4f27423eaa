//! Session orchestration core for a concurrent browser-grid smoke test
//! runner: run configuration, staggered launch scheduling, the scripted
//! per-session interaction state machine, session lifecycle tracking, and
//! result aggregation.

pub mod config;
pub mod interaction;
pub mod metadata;
pub mod poll;
pub mod remote;
pub mod schedule;
pub mod session;
pub mod tally;
pub mod text;
