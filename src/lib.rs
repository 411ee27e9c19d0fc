//! Hardware abstraction layer for the MAX7800x microcontrollers, with its
//! contracts proved: the clock tree's typestates and frequencies, the flash
//! controller's address model and write/erase protocols, the UART
//! configuration, and the AES engine's block layout.
//!
//! The library decides; whoever owns the registers performs. Register
//! accesses are described as values (shadow register fields, session
//! actions, lock bits, UART settings) for that owner to apply.
use vstd::prelude::*;

mod private;

use private::Sealed;

pub mod aes;
pub mod flc;
pub mod gcr;
pub mod uart;
