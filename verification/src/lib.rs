//! A lightweight heartbeat monitor core: named checks, each with its own
//! probe kind and interval, a registry of their runtime state, the
//! scheduling decision that marks due checks, and the recording of each
//! completed probe's outcome.

pub mod checks;
pub mod decimal;
pub mod execute;
pub mod scheduler;
