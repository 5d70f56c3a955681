//! Orchestration core for ephemeral game-session workers: the session model,
//! the pending-port set, the session store and the session service, together
//! with the request handling built on them.
//!
//! The library decides; it starts no process and opens no socket. A caller
//! asks the operating system for a free port, hands it to the service, starts
//! the worker with the command that the service names, and reports back how
//! the start went and, later, that the worker has ended.

pub mod auth;
pub mod models;
pub mod plugins;
pub mod shared;
pub mod text;
