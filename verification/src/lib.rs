//! An ephemeral notification subsystem: time-bounded alerts with interactive
//! components, a shared store with expiry sweeps and identity removal, a
//! deterministic layout grouping of an alert's components, a readiness-gated
//! producer/consumer handoff, and an error-to-notification bridge.

pub mod bridge;
pub mod color_memory;
pub mod component;
pub mod error;
pub mod gate;
pub mod grouping;
pub mod notification;
pub mod store;
pub mod types;
