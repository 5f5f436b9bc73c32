//! The ways in which building a snapshot or reaching the service can fail.

use vstd::prelude::*;
use crate::dynamic_value::DynamicValue;
use crate::dynamic_value::ValueKind;

verus! {

#[derive(Debug, PartialEq, Eq)]
pub enum BatteryError {
    /// A recognized key held a value of another type than the key asks for.
    TypeMismatch { key: String, observed_value: DynamicValue, expected_type: ValueKind },
    /// The same countdown was reported twice in one pass.
    DuplicateTimeKey,
    /// Both countdowns were reported as zero.
    BothZero,
    /// Both countdowns were reported as running.
    BothNonZero,
    /// A countdown that would have been stored was below zero.
    NegativeSeconds,
    /// The service could not be reached within the retry budget. This does
    /// not change for the rest of the process.
    ConnectionUnavailable,
}

} // verus!
