//! A stand-in for the GPIO hardware on hosts that have none (Linux, macOS, Windows): it
//! describes a 40 pin header, and makes up the level of each input.

use vstd::prelude::*;

use crate::hw::{details_of, is_gpio_header, details_match};
use crate::hw::pin_descriptions::gpio_pin_descriptions;
use crate::hw_definition::description::{HardwareDescription, PinDescriptionSet};
use crate::hw_definition::pin_function::PinFunction;
use crate::hw_definition::{BCMPinNumber, PinLevel};
use crate::hw::PinError;

verus! {

/// Hardware that is not there
pub struct FakeHW;

/// A handle onto the fake hardware
pub fn get() -> (res: FakeHW) {
    FakeHW {}
}

/// The details of fake hardware: "NotAPi", with an unknown revision and serial number,
/// and the model "Fake Hardware"
pub open spec fn fake_fields() -> crate::hw::CpuFields {
    ("NotAPi"@, "Unknown"@, "Unknown"@, "Fake Hardware"@)
}

impl FakeHW {
    /// The description of the fake hardware: its details and the 40 pins of the GPIO header
    pub fn description(&self) -> (res: HardwareDescription)
        ensures
            details_match(res.details, fake_fields()),
            is_gpio_header(res.pins.pins@),
    {
        HardwareDescription {
            details: details_of(
                String::from_str("NotAPi"),
                String::from_str("Unknown"),
                String::from_str("Unknown"),
                String::from_str("Fake Hardware"),
            ),
            pins: PinDescriptionSet { pins: gpio_pin_descriptions() },
        }
    }

    /// Give pin `_bcm_pin_number` the function `pin_function`. Returns whether levels must be
    /// made up for the pin from now on: they are for an input, and only for an input.
    pub fn apply_pin_config(&mut self, _bcm_pin_number: BCMPinNumber, pin_function: &PinFunction) -> (make_up_levels: bool)
        ensures
            make_up_levels <==> *pin_function is Input,
    {
        pin_function.is_input()
    }

    /// Read the input level of an input using the bcm pin number: always high
    pub fn get_input_level(&self, _bcm_pin_number: BCMPinNumber) -> (res: Result<PinLevel, PinError>)
        ensures
            res == Ok::<PinLevel, PinError>(true),
    {
        Ok(true)
    }

    /// Set the level of an output using the bcm pin number: always succeeds
    pub fn set_output_level(&mut self, _bcm_pin_number: BCMPinNumber, _level: PinLevel) -> (res: Result<(), PinError>)
        ensures
            res is Ok,
    {
        Ok(())
    }
}

} // verus!
