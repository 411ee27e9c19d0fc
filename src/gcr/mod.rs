//! # Global Control Registers (GCR)
//!
//! The clock-control state that the library programs, and the one-time
//! construction of the oscillator guards and the system clock setup.
use vstd::prelude::*;

pub mod clocks;

use clocks::{
    DivUnknown, InternalSecondaryOscillator, OscillatorGuards, OscillatorSourceEnum,
    SystemClockConfig,
};

verus! {

/// The fields of the clock-control register that this library writes, as it
/// has written them. The layer that owns the hardware copies them into the
/// register and waits for the matching ready bit after each change.
pub struct GcrRegisters {
    /// Enable bit of the internal primary oscillator.
    pub ipo_en: bool,
    /// Enable bit of the internal secondary oscillator.
    pub iso_en: bool,
    /// Oscillator selected as system clock source.
    pub sysclk_sel: OscillatorSourceEnum,
    /// System clock divider field: the divisor is two to this power.
    pub sysclk_div: u8,
}

impl GcrRegisters {
    /// The fields as they are after reset: no oscillator enabled by this
    /// library, the secondary oscillator selected, no division.
    pub open spec fn is_reset(&self) -> bool {
        &&& !self.ipo_en
        &&& !self.iso_en
        &&& self.sysclk_sel == OscillatorSourceEnum::Iso
        &&& self.sysclk_div == 0
    }

    /// The fields as they are after reset.
    pub fn new() -> (r: Self)
        ensures
            r.is_reset(),
    {
        GcrRegisters {
            ipo_en: false,
            iso_en: false,
            sysclk_sel: OscillatorSourceEnum::Iso,
            sysclk_div: 0,
        }
    }
}

/// Global Control Registers (GCR) Peripheral
pub struct Gcr {
    pub reg: GcrRegisters,
    pub osc_guards: OscillatorGuards,
    pub sys_clk: SystemClockConfig<InternalSecondaryOscillator, DivUnknown>,
}

impl Gcr {
    /// Takes the clock-control state as after reset and issues the one guard
    /// of each oscillator.
    pub fn new() -> (r: Self)
        ensures
            r.reg.is_reset(),
    {
        Gcr {
            reg: GcrRegisters::new(),
            osc_guards: OscillatorGuards::new(),
            sys_clk: SystemClockConfig::new(),
        }
    }
}

} // verus!
