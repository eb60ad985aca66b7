//! The error taxonomy.  Every error aborts its operation before any
//! mutation; nothing is retried internally.

use vstd::prelude::*;

verus! {

use crate::curve::CurveError;

#[derive(Debug, Clone, Copy, PartialEq, Eq, Structural)]
pub enum ContractError {
    /// A curve shape was rejected at stream creation.
    Curve(CurveError),
    /// The caller may not perform this operation.
    Unauthorized {},
    /// A claim of zero was requested.
    InvalidAmount {},
    /// The claim exceeds what time has unlocked so far.
    NotEnoughAvailableBalance {},
    /// The attached or remaining funds are too low.
    NotEnoughAvailableFunds {},
    /// No stream with the given index or address pair exists.
    StreamNotFound {},
    /// A rate was requested over an empty duration.
    DivisionByZero {},
    /// The stream window is empty or reversed.
    DeltaIssue { start_time: u64, stop_time: u64 },
    /// A quantity overflowed outside the specified saturation points.
    Overflow {},
}

} // verus!
