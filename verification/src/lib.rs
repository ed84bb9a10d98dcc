//! A unified client core for a key-value store reachable either as a single
//! node or as a sharded cluster: endpoint parsing into normalized connection
//! descriptors, connection-template resolution, and the semantic model behind
//! the storage operations, with a structured error for every failure path.

pub mod client;
pub mod endpoint;
pub mod error;
pub mod laws;
pub mod semantics;
pub mod settings;
