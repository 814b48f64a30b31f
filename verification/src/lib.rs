//! Connection-lifecycle and shutdown-coordination core for a networked
//! multiplayer server.
//!
//! The library verifies the decisions of the server bootstrap: how client
//! identifiers are assigned by the accept loop, how the root cancellation
//! signal propagates to per-connection child scopes, when the drain barrier
//! releases a shutdown waiter, and what the lifecycle controller does on
//! `start` and `stop`. The asynchronous plumbing that carries these decisions
//! (the listening socket, the task scheduler, the raced wake-ups) lives in
//! the accompanying application, which drives the types defined here.

pub mod acceptor;
pub mod drain;
pub mod server;
pub mod signal;

pub use server::SteelServer;
