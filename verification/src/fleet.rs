//! The fleet registry: many machines, the plants they report on, one
//! telemetry ledger for each machine and plant, and the reward balance of
//! each machine.

pub mod state;
pub mod accounts;
pub mod ledger;
pub mod registry;
pub mod rewards;
pub mod laws;
pub mod layout;
pub mod handoff;
