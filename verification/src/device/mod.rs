//! The device side of a connection: how a device (a Pi running `piglet`, or a Pi Pico) keeps
//! its [HardwareConfig] up to date with the config change messages it receives from a GUI, and
//! what it must then do on the GPIO hardware.

use vstd::prelude::*;

use crate::hw_definition::config::{
    lists_config_in_order, spec_input_pins, HardwareConfig, HardwareConfigMessage, LevelChange,
};
use crate::hw_definition::pin_function::PinFunction;
use crate::hw_definition::{BCMPinNumber, PinLevel};

verus! {

/// What a device must do on its hardware after it has recorded a config change
#[derive(Debug, PartialEq)]
pub enum DeviceAction {
    /// Apply each of `pins` (the whole new config) to the hardware, then report the current
    /// level of each of `input_pins` to the GUI
    ApplyConfig { pins: Vec<(BCMPinNumber, PinFunction)>, input_pins: Vec<BCMPinNumber> },
    /// Configure pin `bcm` as `pin_function`; if `report_level` then report its current level
    ApplyPinConfig { bcm: BCMPinNumber, pin_function: PinFunction, report_level: bool },
    /// Drive output pin `bcm` to `level`
    SetOutputLevel { bcm: BCMPinNumber, level: PinLevel },
    /// Send the current [HardwareConfig] back to the GUI
    SendConfig,
    /// Nothing to do on the hardware
    NoAction,
}

/// The config a device holds after it receives `message` while holding `config`
pub open spec fn spec_config_after(
    config: Map<BCMPinNumber, PinFunction>,
    message: HardwareConfigMessage,
) -> Map<BCMPinNumber, PinFunction> {
    match message {
        HardwareConfigMessage::NewConfig(new_config) => new_config@,
        HardwareConfigMessage::NewPinConfig(bcm, pin_function) => config.insert(bcm, pin_function),
        HardwareConfigMessage::IOLevelChanged(bcm, level_change) => config.insert(
            bcm,
            PinFunction::Output(Some(level_change.new_level)),
        ),
        HardwareConfigMessage::GetConfig => config,
        HardwareConfigMessage::Disconnect => config,
    }
}

/// What must be done on the hardware for the config change `config_change`:
/// - a new config is applied, then the level of each of its inputs reported
/// - a new pin config is applied to its pin; the level of an input is reported
/// - an output level change drives the output
/// - a request for the config sends it back
/// - a disconnect needs nothing
pub fn config_change_action(config_change: &HardwareConfigMessage) -> (action: DeviceAction)
    ensures
        match *config_change {
            HardwareConfigMessage::NewConfig(new_config) => match action {
                DeviceAction::ApplyConfig { pins, input_pins } => {
                    &&& lists_config_in_order(pins@, new_config@)
                    &&& input_pins@.to_set() == spec_input_pins(new_config@)
                    &&& forall|i: int, j: int|
                        0 <= i < j < input_pins@.len() ==> input_pins@[i] < input_pins@[j]
                },
                _ => false,
            },
            HardwareConfigMessage::NewPinConfig(bcm, pin_function) => action
                == DeviceAction::ApplyPinConfig {
                bcm,
                pin_function,
                report_level: pin_function is Input,
            },
            HardwareConfigMessage::IOLevelChanged(bcm, level_change) => action
                == DeviceAction::SetOutputLevel { bcm, level: level_change.new_level },
            HardwareConfigMessage::GetConfig => action == DeviceAction::SendConfig,
            HardwareConfigMessage::Disconnect => action == DeviceAction::NoAction,
        },
{
    match config_change {
        HardwareConfigMessage::NewConfig(config) => {
            let pins = config.configured_pins();
            let input_pins = config.input_pins();
            DeviceAction::ApplyConfig { pins, input_pins }
        },
        HardwareConfigMessage::NewPinConfig(bcm, pin_function) => {
            let report_level = pin_function.is_input();
            DeviceAction::ApplyPinConfig { bcm: *bcm, pin_function: *pin_function, report_level }
        },
        HardwareConfigMessage::IOLevelChanged(bcm, level_change) => {
            DeviceAction::SetOutputLevel { bcm: *bcm, level: level_change.new_level }
        },
        HardwareConfigMessage::GetConfig => DeviceAction::SendConfig,
        HardwareConfigMessage::Disconnect => DeviceAction::NoAction,
    }
}

/// The config a device holds once it has driven the hardware for `message` while holding
/// `config`, where `hardware_ok` tells whether the hardware accepted it: a new config or a new
/// pin config is recorded only when the hardware accepted it; an output level change is
/// recorded whatever became of driving the output; the other messages change nothing
pub open spec fn spec_config_recorded(
    config: Map<BCMPinNumber, PinFunction>,
    message: HardwareConfigMessage,
    hardware_ok: bool,
) -> Map<BCMPinNumber, PinFunction> {
    match message {
        HardwareConfigMessage::NewConfig(_) | HardwareConfigMessage::NewPinConfig(_, _) => if hardware_ok {
            spec_config_after(config, message)
        } else {
            config
        },
        _ => spec_config_after(config, message),
    }
}

/// Record the config change `config_change` in `hardware_config`, once the hardware has been
/// driven as [config_change_action] says; `hardware_ok` tells whether the hardware accepted it.
/// A new config or pin config the hardware refused leaves the config as it was.
pub fn apply_config_change(
    hardware_config: &mut HardwareConfig,
    config_change: HardwareConfigMessage,
    hardware_ok: bool,
)
    ensures
        final(hardware_config)@ == spec_config_recorded(
            old(hardware_config)@,
            config_change,
            hardware_ok,
        ),
        hardware_ok ==> match config_change {
            HardwareConfigMessage::NewConfig(new_config) => final(hardware_config)@ == new_config@,
            HardwareConfigMessage::NewPinConfig(bcm, pin_function) => final(hardware_config)@
                == old(hardware_config)@.insert(bcm, pin_function),
            _ => true,
        },
        config_change matches HardwareConfigMessage::IOLevelChanged(bcm, level_change)
            ==> final(hardware_config)@ == old(hardware_config)@.insert(
            bcm,
            PinFunction::Output(Some(level_change.new_level)),
        ),
{
    match config_change {
        HardwareConfigMessage::NewConfig(config) => {
            if hardware_ok {
                *hardware_config = config;
            }
        },
        HardwareConfigMessage::NewPinConfig(bcm, pin_function) => {
            if hardware_ok {
                hardware_config.set(bcm, pin_function);
            }
        },
        HardwareConfigMessage::IOLevelChanged(bcm, level_change) => {
            hardware_config.set(bcm, PinFunction::Output(Some(level_change.new_level)));
        },
        HardwareConfigMessage::GetConfig => {},
        HardwareConfigMessage::Disconnect => {},
    }
}

/// A change the hardware accepted is recorded: after a pin config for pin `bcm` the device holds
/// that function for `bcm` and the config of every other pin is unchanged; after a new config it
/// holds exactly the new config. A level change is recorded whether or not driving the output
/// succeeded.
pub proof fn law_accepted_change_recorded(
    config: Map<BCMPinNumber, PinFunction>,
    bcm: BCMPinNumber,
    pin_function: PinFunction,
    new_config: HardwareConfig,
    level_change: LevelChange,
    hardware_ok: bool,
)
    ensures
        ({
            let after = spec_config_recorded(
                config,
                HardwareConfigMessage::NewPinConfig(bcm, pin_function),
                true,
            );
            &&& after.contains_key(bcm)
            &&& after[bcm] == pin_function
            &&& forall|other: BCMPinNumber|
                other != bcm ==> (after.contains_key(other) == config.contains_key(other) && (
                config.contains_key(other) ==> after[other] == config[other]))
        }),
        spec_config_recorded(config, HardwareConfigMessage::NewConfig(new_config), true)
            == new_config@,
        ({
            let after = spec_config_recorded(
                config,
                HardwareConfigMessage::IOLevelChanged(bcm, level_change),
                hardware_ok,
            );
            &&& after.contains_key(bcm)
            &&& after[bcm] == PinFunction::Output(Some(level_change.new_level))
            &&& forall|other: BCMPinNumber|
                other != bcm ==> (after.contains_key(other) == config.contains_key(other) && (
                config.contains_key(other) ==> after[other] == config[other]))
        }),
{
}

/// A new config, or a new pin config, that the hardware refused leaves the device holding the
/// config it held before
pub proof fn law_refused_change_leaves_config(
    config: Map<BCMPinNumber, PinFunction>,
    message: HardwareConfigMessage,
)
    requires
        message is NewConfig || message is NewPinConfig,
    ensures
        spec_config_recorded(config, message, false) == config,
{
}

/// Sending the same pin config twice leaves the device with the same config as sending it once
pub proof fn law_pin_config_idempotent(
    config: Map<BCMPinNumber, PinFunction>,
    bcm: BCMPinNumber,
    pin_function: PinFunction,
)
    ensures
        ({
            let message = HardwareConfigMessage::NewPinConfig(bcm, pin_function);
            spec_config_after(spec_config_after(config, message), message) == spec_config_after(
                config,
                message,
            )
        }),
{
    let message = HardwareConfigMessage::NewPinConfig(bcm, pin_function);
    assert(spec_config_after(spec_config_after(config, message), message) =~= spec_config_after(
        config,
        message,
    ));
}

/// Config changes of two different pins can be applied in either order
pub proof fn law_pin_configs_commute(
    config: Map<BCMPinNumber, PinFunction>,
    bcm1: BCMPinNumber,
    pin_function1: PinFunction,
    bcm2: BCMPinNumber,
    pin_function2: PinFunction,
)
    requires
        bcm1 != bcm2,
    ensures
        ({
            let m1 = HardwareConfigMessage::NewPinConfig(bcm1, pin_function1);
            let m2 = HardwareConfigMessage::NewPinConfig(bcm2, pin_function2);
            spec_config_after(spec_config_after(config, m1), m2) == spec_config_after(
                spec_config_after(config, m2),
                m1,
            )
        }),
{
    let m1 = HardwareConfigMessage::NewPinConfig(bcm1, pin_function1);
    let m2 = HardwareConfigMessage::NewPinConfig(bcm2, pin_function2);
    assert(spec_config_after(spec_config_after(config, m1), m2) =~= spec_config_after(
        spec_config_after(config, m2),
        m1,
    ));
}

/// After a pin config change, the device holds that function for that pin, and the config of
/// every other pin is unchanged
pub proof fn law_pin_config_read_back(
    config: Map<BCMPinNumber, PinFunction>,
    bcm: BCMPinNumber,
    pin_function: PinFunction,
    other: BCMPinNumber,
)
    requires
        other != bcm,
    ensures
        ({
            let after = spec_config_after(
                config,
                HardwareConfigMessage::NewPinConfig(bcm, pin_function),
            );
            &&& after.contains_key(bcm)
            &&& after[bcm] == pin_function
            &&& after.contains_key(other) == config.contains_key(other)
            &&& config.contains_key(other) ==> after[other] == config[other]
        }),
{
}

/// A new config replaces everything the device held before
pub proof fn law_new_config_replaces(
    config1: Map<BCMPinNumber, PinFunction>,
    config2: Map<BCMPinNumber, PinFunction>,
    new_config: HardwareConfig,
)
    ensures
        spec_config_after(config1, HardwareConfigMessage::NewConfig(new_config))
            == spec_config_after(config2, HardwareConfigMessage::NewConfig(new_config)),
        spec_config_after(config1, HardwareConfigMessage::NewConfig(new_config)) == new_config@,
{
}

/// A level written to a pin leaves the device holding that pin as an output at that level
pub proof fn law_output_level_recorded(
    config: Map<BCMPinNumber, PinFunction>,
    bcm: BCMPinNumber,
    level_change: LevelChange,
)
    ensures
        ({
            let after = spec_config_after(
                config,
                HardwareConfigMessage::IOLevelChanged(bcm, level_change),
            );
            &&& after.contains_key(bcm)
            &&& after[bcm] == PinFunction::Output(Some(level_change.new_level))
            &&& after.remove(bcm) == config.remove(bcm)
        }),
{
    let after = spec_config_after(config, HardwareConfigMessage::IOLevelChanged(bcm, level_change));
    assert(after.remove(bcm) =~= config.remove(bcm));
}

/// Asking for the config, or disconnecting, never changes the config the device holds
pub proof fn law_queries_leave_config(config: Map<BCMPinNumber, PinFunction>)
    ensures
        spec_config_after(config, HardwareConfigMessage::GetConfig) == config,
        spec_config_after(config, HardwareConfigMessage::Disconnect) == config,
{
}

} // verus!
