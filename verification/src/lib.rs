//! Client half of a pull-based synchronization protocol: it asks an upstream
//! content-management system for everything that changed since a given time,
//! expects a bounded batch of change records in return, and classifies every
//! way such a round trip can fail.
//!
//! The crate holds the decision logic only: building request lines and the
//! `Authorization` header, validating responses, and the error taxonomy.
//! Sending bytes over the wire is left to the caller.
pub mod auth;
pub mod client;
pub mod error;
pub mod numbers;
pub mod response;
