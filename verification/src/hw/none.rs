//! The GPIO hardware of hosts that have none (Linux, macOS, etc.): it describes a 40 pin
//! header, and makes up the level of each input of the configuration applied to it.

use vstd::prelude::*;

use crate::hw::{details_of, is_gpio_header, details_match, PinError};
use crate::hw::fake_hw::fake_fields;
use crate::hw::pin_descriptions::gpio_pin_descriptions;
use crate::hw_definition::config::{spec_input_pins, HardwareConfig, LevelChange};
use crate::hw_definition::description::{HardwareDescription, PinDescriptionSet};
use crate::hw_definition::pin_function::PinFunction;
use crate::hw_definition::{BCMPinNumber, PinLevel};

verus! {

/// The hardware of a host without GPIO
pub struct NoneHW;

/// A handle onto the hardware of a host without GPIO
pub fn get() -> (res: NoneHW) {
    NoneHW {}
}

impl NoneHW {
    /// The description of the hardware: the details of fake hardware and the 40 pins of the
    /// GPIO header
    pub fn description(&self) -> (res: HardwareDescription)
        ensures
            details_match(res.details, fake_fields()),
            is_gpio_header(res.pins.pins@),
    {
        HardwareDescription {
            details: details_of(
                String::from_str("NotAPi"),
                String::from_str("Unknown"),
                String::from_str("Unknown"),
                String::from_str("Fake Hardware"),
            ),
            pins: PinDescriptionSet { pins: gpio_pin_descriptions() },
        }
    }

    /// Apply `config`: returns the pins for which levels must be made up from now on, that is
    /// its inputs, in ascending order of [BCMPinNumber]
    pub fn apply_config(&mut self, config: &HardwareConfig) -> (inputs: Vec<BCMPinNumber>)
        ensures
            inputs@.to_set() == spec_input_pins(config@),
            forall|i: int, j: int| 0 <= i < j < inputs@.len() ==> inputs@[i] < inputs@[j],
    {
        config.input_pins()
    }

    /// Give pin `_bcm_pin_number` the function `pin_function`. Returns whether levels must be
    /// made up for the pin from now on: they are for an input, and only for an input.
    pub fn apply_pin_config(&mut self, _bcm_pin_number: BCMPinNumber, pin_function: &PinFunction) -> (make_up_levels: bool)
        ensures
            make_up_levels <==> *pin_function is Input,
    {
        pin_function.is_input()
    }

    /// Read the input level of an input using the bcm pin number: always high
    pub fn get_input_level(&self, _bcm_pin_number: BCMPinNumber) -> (res: Result<PinLevel, PinError>)
        ensures
            res == Ok::<PinLevel, PinError>(true),
    {
        Ok(true)
    }

    /// Set the level of an output using the bcm pin number: always succeeds
    pub fn set_output_level(&mut self, _bcm_pin_number: BCMPinNumber, _level_change: LevelChange) -> (res: Result<(), PinError>)
        ensures
            res is Ok,
    {
        Ok(())
    }
}

} // verus!
