//! A stub for the GPIO hardware of a Raspberry Pi Pico: it describes a 40 pin header, and
//! accepts every configuration.

use vstd::prelude::*;

use crate::gpio::board::GPIOState;
use crate::hw::{details_of, is_gpio_header, details_match, PinError};
use crate::hw::pin_descriptions::gpio_pin_descriptions;
use crate::hw_definition::config::HardwareConfig;
use crate::hw_definition::description::{HardwareDescription, PinDescription, PinDescriptionSet};
use crate::hw_definition::pin_function::PinFunction;
use crate::hw_definition::{BCMPinNumber, PinLevel};

verus! {

/// The GPIO hardware of a Pi Pico
pub struct PicoHW;

/// A handle onto the hardware of a Pi Pico
pub fn get() -> (res: PicoHW) {
    PicoHW {}
}

/// The details of a Pi Pico: "Raspberry Pi Pico", with an unknown revision and serial number,
/// and the model "Raspberry Pi Pico (stub)"
pub open spec fn pico_fields() -> crate::hw::CpuFields {
    ("Raspberry Pi Pico"@, "Unknown"@, "Unknown"@, "Raspberry Pi Pico (stub)"@)
}

impl PicoHW {
    /// The description of the hardware: the details of a Pi Pico and the 40 pins of the GPIO
    /// header
    pub fn descriptor(&self) -> (res: HardwareDescription)
        ensures
            details_match(res.details, pico_fields()),
            is_gpio_header(res.pins.pins@),
    {
        HardwareDescription {
            details: details_of(
                String::from_str("Raspberry Pi Pico"),
                String::from_str("Unknown"),
                String::from_str("Unknown"),
                String::from_str("Raspberry Pi Pico (stub)"),
            ),
            pins: PinDescriptionSet { pins: gpio_pin_descriptions() },
        }
    }

    /// The descriptions of the 40 pins of the GPIO header
    pub fn pin_descriptions(&self) -> (res: Vec<PinDescription>)
        ensures
            is_gpio_header(res@),
    {
        gpio_pin_descriptions()
    }

    /// Apply `_config`: the stub accepts every configuration
    pub fn apply_config(&mut self, _config: &HardwareConfig) -> (res: Result<(), PinError>)
        ensures
            res is Ok,
    {
        Ok(())
    }

    /// Give pin `_bcm_pin_number` the function `_pin_function`: the stub accepts every function
    pub fn apply_pin_config(&mut self, _bcm_pin_number: BCMPinNumber, _pin_function: &PinFunction) -> (res: Result<(), PinError>)
        ensures
            res is Ok,
    {
        Ok(())
    }

    /// The state of the pins: no level is known
    pub fn get_state(&self) -> (res: GPIOState)
        ensures
            res.pin_state@.len() == 40,
            forall|i: int| 0 <= i < 40 ==> #[trigger] res.pin_state@[i] is None,
    {
        GPIOState { pin_state: [None; 40] }
    }

    /// Read the input level of an input using the bcm pin number: always high
    pub fn get_input_level(&self, _bcm_pin_number: BCMPinNumber) -> (res: Result<PinLevel, PinError>)
        ensures
            res == Ok::<PinLevel, PinError>(true),
    {
        Ok(true)
    }
}

} // verus!
