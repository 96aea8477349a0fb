//! A registry of field devices and the plants they watch, with the
//! telemetry they report, the rewards they earn, and the handoff of a
//! resource between the base and the ephemeral execution context.
//!
//! - `identity`: who calls, and the guard that compares callers with owners
//! - `key`: the keys under which resources are stored
//! - `delegation`: which execution context owns a resource, and its handoff
//! - `fleet`: the registry of many machines and plants
//! - `sensor`: the record of a single machine and its sensor

pub mod identity;
pub mod key;
pub mod delegation;
pub mod fleet;
pub mod sensor;
