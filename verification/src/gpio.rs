//! The first model of the GPIO header: a configuration that may give each of the 40 pins a
//! [PinConfig], and the state (the level) of each pin.

pub mod board;

use vstd::prelude::*;

use crate::hw_definition::PinLevel;

verus! {

/// The level of each of the 40 pins, where it is known
#[derive(Debug)]
pub struct GPIOState {
    pin_state: [Option<PinLevel>; 40],
}

impl GPIOState {
    /// The level of each pin, by index (board pin number minus one)
    pub closed spec fn levels(&self) -> Seq<Option<PinLevel>> {
        self.pin_state@
    }

    /// The state of the pins configured by `config`: no level is known yet
    pub fn get(_config: &GPIOConfig) -> (res: GPIOState)
        ensures
            res.levels().len() == 40,
            forall|i: int| 0 <= i < 40 ==> #[trigger] res.levels()[i] is None,
    {
        GPIOState { pin_state: [None; 40] }
    }
}

/// How a pin can be configured
#[derive(Debug, Clone, Copy, PartialEq, Eq, Structural)]
pub enum PinConfig {
    Input,
    Output,
}

/// The index of the pin SDA1
const SDA1: usize = 2;

/// The configuration of the 40 pin GPIO connections, including Ground, 3.3V and 5V outputs.
/// A pin with no specific configuration has none.
#[derive(Debug)]
pub struct GPIOConfig {
    pub pin_configs: [Option<PinConfig>; 40],
}

impl GPIOConfig {
    /// A configuration in which no pin is configured
    pub fn new() -> (res: Self)
        ensures
            res.pin_configs@.len() == 40,
            forall|i: int| 0 <= i < 40 ==> #[trigger] res.pin_configs@[i] is None,
    {
        let mut pin_configs: [Option<PinConfig>; 40] = [None; 40];
        pin_configs[SDA1] = None;
        GPIOConfig { pin_configs }
    }
}

/// The operations of a GPIO hardware driver: apply a configuration, and read the state of the
/// pins
pub trait GPIO {
    fn apply_config(config: &GPIOConfig);

    fn get_state() -> GPIOState;
}

} // verus!
