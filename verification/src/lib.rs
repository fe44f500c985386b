//! A verified core for a network-namespace TCP proxy.
//!
//! The library holds the logic of the proxy: the error taxonomy with its
//! stable exit codes, the namespace-entry primitive, and the state machines
//! that govern the accept loop, the namespace-bound workers, each relay
//! session, and the one-shot fetch path. The surrounding process (argument
//! handling, sockets, the async runtimes) drives these state machines and
//! performs the I/O they decide on.

pub mod errors;
pub mod namespace;
pub mod fetch;
pub mod listener;
pub mod relay;
pub mod worker;
