//! The battery of an inverter.
use vstd::prelude::*;
use crate::number::{Double, Single};

verus! {

/// A battery's readings at one moment.
#[derive(Clone, Copy, Debug, PartialEq, Eq, Structural)]
pub struct Battery {
    pub capacity: Single,
    pub temperature_high: Single,
    pub temperature_low: Single,
    pub voltage: Double,
}

} // verus!
