//! An in-memory, single-process, best-effort broadcast relay: a registry of
//! connected clients, the fan-out of one payload to their outbound queues, and
//! the life cycle of one connection.

pub mod connection;
pub mod error;
pub mod guarantees;
pub mod message;
pub mod outbound;
pub mod registry;
pub mod wire;
