//! Lifecycle control for per-user voice rooms on a chat platform.
//!
//! A user who joins a designated lobby channel gets a room of their own; the
//! room is access-controlled, and torn down once it is empty. The crate holds
//! the decisions of that lifecycle as verified state machines: each operation
//! is a function from its current state and the last answer of a collaborator
//! (the platform or the store) to the next state and the next request. The
//! caller performs the requests; nothing in here does I/O.

pub mod bitrate;
pub mod cache;
pub mod categories;
pub mod checks;
pub mod gateway;
pub mod laws;
pub mod lemmas;
pub mod permissions;
pub mod profiles;
pub mod provision;
pub mod reaper;
pub mod reconcile;
pub mod records;
pub mod runs;
pub mod sweep;
pub mod world;
