//! Marker types for the build and clock states of a UART peripheral.
use vstd::prelude::*;

use crate::Sealed;

verus! {

/// Marker traits for the build state of the UART peripheral.
pub trait UartState: Sealed {}

pub struct NotBuilt;

pub struct Built;

impl Sealed for NotBuilt {}

impl Sealed for Built {}

impl UartState for NotBuilt {}

impl UartState for Built {}

/// Marker traits for the clock state of the UART peripheral.
pub trait UartClockState: Sealed {
    /// A clock source has been chosen.
    spec fn spec_clock_set() -> bool;
}

pub struct NotClockSet;

pub struct ClockSet;

impl Sealed for NotClockSet {}

impl Sealed for ClockSet {}

impl UartClockState for NotClockSet {
    open spec fn spec_clock_set() -> bool {
        false
    }
}

impl UartClockState for ClockSet {
    open spec fn spec_clock_set() -> bool {
        true
    }
}

} // verus!
