//! Definitions shared by the GUI and the devices: pin numbering, pin functions,
//! hardware configurations and hardware descriptions.

pub mod config;
pub mod description;
pub mod pin_function;

use vstd::prelude::*;

verus! {

/// [BCMPinNumber] is used to refer to a GPIO pin by the Broadcom Chip Number
pub type BCMPinNumber = u8;

/// [BoardPinNumber] is used to refer to a GPIO pin by the numbering of the GPIO header on the Pi
pub type BoardPinNumber = u8;

/// [PinLevel] describes whether a Pin's logical level is High(true) or Low(false)
pub type PinLevel = bool;

} // verus!
