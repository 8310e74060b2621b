//! Verified core of a group-creation workflow.
//!
//! The library models the storage engine's visible state, implements the
//! group-creation workflow against it with proved contracts, and exposes a
//! step-based protocol that an unverified boundary can drive against a real
//! storage engine.

pub mod model;
pub mod protocol;
pub mod storage;
pub mod workflow;
