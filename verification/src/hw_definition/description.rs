//! Descriptions of the hardware a GUI is connected to: its details and its pins.

use vstd::prelude::*;

use crate::hw_definition::pin_function::PinFunction;
use crate::hw_definition::{BCMPinNumber, BoardPinNumber};

verus! {

/// The longest name of a Wi-Fi network
pub const SSID_NAME_MAX_LENGTH: usize = 32;

/// The longest password of a Wi-Fi network
pub const SSID_PASS_MAX_LENGTH: usize = 63;

/// The shortest password of a Wi-Fi network
pub const SSID_PASS_MIN_LENGTH: usize = 8;

/// A 16 character String represents a serial number for a device
pub type SerialNumber = String;

/// [HardwareDescription] contains details about the board we are running on and the GPIO pins
pub struct HardwareDescription {
    pub details: HardwareDetails,
    pub pins: PinDescriptionSet,
}

/// [HardwareDetails] captures a number of specific details about the Hardware we are connected to
pub struct HardwareDetails {
    /// A Human friendly Hardware Model description
    pub model: String,
    /// Chipset used
    pub hardware: String,
    /// A Pi specific revision number that identifies the hardware board and chip used
    pub revision: String,
    /// A serial number unique to each device
    pub serial: SerialNumber,
    /// Whether the device supports wifi or not
    pub wifi: bool,
    /// What binary/application name is running on the device
    pub app_name: String,
    /// What version of the app is it running
    pub app_version: String,
}

/// [SsidSpec] contains details on how the device connects to Wi-Fi
pub struct SsidSpec {
    pub ssid_name: String,
    pub ssid_pass: String,
    pub ssid_security: String,
}

/// [WiFiDetails] contains details on Wi-Fi connection and connections details
pub struct WiFiDetails {
    pub ssid_spec: Option<SsidSpec>,
    /// The IPv4 address and port the device listens on for TCP connections
    pub tcp: Option<([u8; 4], u16)>,
}

/// [PinDescriptionSet] describes all the pins of the connected hardware.
/// Indexed from 0, so index = board_pin_number - 1, as pin numbering starts at 1
pub struct PinDescriptionSet {
    pub pins: Vec<PinDescription>,
}

/// [PinDescription] is used to describe each pin and possible uses it can be put to
/// * `bpn` refers to the pin by the number of the pin printed on the board
/// * `bcm` refers to the pin by the "Broadcom SOC channel" number. Programmable pins
///   will have a [BCMPinNumber] and others will not, hence this is optional
/// * `name` is a human-readable label for the pin
/// * `options` is an array of the [PinFunction]s the pin can be configured as
pub struct PinDescription {
    pub bpn: BoardPinNumber,
    pub bcm: Option<BCMPinNumber>,
    pub name: String,
    pub options: Vec<PinFunction>,
}

impl Clone for PinDescription {
    fn clone(&self) -> (res: Self)
        ensures
            res.bpn == self.bpn,
            res.bcm == self.bcm,
            res.name@ == self.name@,
            res.options@ == self.options@,
    {
        let mut options: Vec<PinFunction> = Vec::new();
        let mut i: usize = 0;
        while i < self.options.len()
            invariant
                i <= self.options@.len(),
                options@ == self.options@.subrange(0, i as int),
            decreases self.options@.len() - i,
        {
            options.push(self.options[i]);
            i = i + 1;
        }
        assert(options@ =~= self.options@);
        PinDescription { bpn: self.bpn, bcm: self.bcm, name: self.name.clone(), options }
    }
}

} // verus!
