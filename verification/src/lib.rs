//! Supervision of a locally spawned backend server, the sidecar: which
//! ports it gets, how it is launched, when it counts as reachable, what
//! of its output is kept, and how it is shut down.
//!
//! Everything here is a decision on plain values. Sockets, processes,
//! clocks and windows belong to the caller, who performs the actions
//! that `supervisor::Supervisor` asks for and reports their outcomes.
pub mod commands;
pub mod endpoints;
pub mod env;
pub mod json;
pub mod launch;
pub mod logs;
pub mod plugin;
pub mod probe;
pub mod recovery;
pub mod supervisor;
pub mod text;
