//! A model of the GPIO header as a list of pin descriptions, and of a configuration as the list
//! of the pins configured, each with the function it is given.

use vstd::prelude::*;

use crate::hw_definition::PinLevel;

verus! {

/// All the possible functions a pin can be given
#[derive(Debug, PartialEq, Eq, Clone, Copy, Structural)]
#[allow(non_camel_case_types)]
pub enum PinFunction {
    Power3V3,
    Power5V,
    Ground,
    Input,
    Output,
    SDA1,
    I2C,
    SCL1,
    SPIO_MOSI,
    SPIO_MISO,
    SPIO_SCLK,
    ID_SD,
    ID,
    EEPROM,
    UART0_TXD,
    UART0_RXD,
    PCM_CLK,
    SPIO_CE0_N,
    SPIO_CE1_N,
    ID_SC,
}

/// A pin of the header:
/// * `board_pin_number` refers to the pin by the number of the pin printed on the board
/// * `bcm_pin_number` refers to the pin by the "Broadcom SOC channel" number, the number after
///   "GPIO"
/// * `name` is a human-readable label for the pin
/// * `options` are the functions the pin can be given, chosen by user config
#[derive(Debug, Clone)]
pub struct PinDescription {
    pub board_pin_number: u8,
    bcm_pin_number: Option<u8>,
    pub name: &'static str,
    options: &'static [PinFunction],
}

/// The pins that are configured, each with the function it is given, as pairs of
/// (board_pin_number, [PinFunction])
#[derive(Debug, Clone)]
pub struct GPIOConfig {
    pub configured_pins: Vec<(u8, PinFunction)>,
}

impl Default for GPIOConfig {
    /// The configuration in which no pin is configured
    fn default() -> (res: Self)
        ensures
            res.configured_pins@.len() == 0,
    {
        GPIOConfig { configured_pins: Vec::new() }
    }
}

impl GPIOConfig {
    /// Load a configuration from the file named `_filename`: for now every file gives the
    /// configuration in which no pin is configured
    pub fn load(_filename: &str) -> (res: std::io::Result<GPIOConfig>)
        ensures
            res matches Ok(config) && config.configured_pins@.len() == 0,
    {
        Ok(GPIOConfig::default())
    }

    /// Save a configuration to the file named `_filename`: for now nothing is written, and the
    /// save succeeds
    pub fn save(_filename: &str) -> (res: std::io::Result<()>)
        ensures
            res is Ok,
    {
        Ok(())
    }
}

/// The level of each of the 40 pins, where it is known
#[derive(Debug)]
pub struct GPIOState {
    pub pin_state: [Option<PinLevel>; 40],
}

/// The errors of reading and writing files
#[verifier::external_type_specification]
#[verifier::external_body]
pub struct ExIoError(std::io::Error);

} // verus!
