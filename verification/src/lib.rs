//! A payment-streaming ledger: a sender locks a deposit that unlocks
//! continuously to a recipient over a time window according to a
//! configurable release curve.  Streams are created, partially claimed
//! from, and cancelled; the accrual engine guarantees that the unlocked
//! amount is deterministic, monotonic in time, and exactly equal to the
//! remaining balance at the end of the window.

pub mod math;
pub mod curve;
pub mod error;
pub mod state;
pub mod msg;
pub mod curve_helpers;
pub mod contract;
pub mod laws;
