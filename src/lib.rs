//! Self-update orchestration: a persisted blacklist of broken versions and
//! the state machine that queries, swaps, health-checks and rolls back.
pub mod blacklist;
pub mod version;
pub mod orchestrator;
