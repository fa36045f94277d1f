//! A capability-based data-access layer: a store exposes a fixed set of
//! operations (create, read-one, read-all, update, delete) on a resource, and a
//! caller can only invoke the operations that the type of its store handle
//! proves it supports. Authorization is structural: a handle whose type only
//! satisfies the "can read" role has no callable path to "delete".
pub mod capabilities;
pub mod configuration;
pub mod database;
pub mod model;
pub mod semantics;
