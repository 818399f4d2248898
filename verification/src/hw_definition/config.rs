//! Configuration of the programmable pins, and the messages that change it.

use std::collections::HashMap;

use vstd::prelude::*;

use crate::hw_definition::pin_function::PinFunction;
use crate::hw_definition::{BCMPinNumber, PinLevel};

verus! {

broadcast use vstd::std_specs::hash::group_hash_axioms;

/// [HardwareConfig] captures the current configuration of programmable GPIO pins:
/// a map from [BCMPinNumber] to the [PinFunction] the pin is configured as.
/// Pins that are not in the map are not configured.
pub struct HardwareConfig {
    pub pin_functions: HashMap<BCMPinNumber, PinFunction>,
}

impl View for HardwareConfig {
    type V = Map<BCMPinNumber, PinFunction>;

    open spec fn view(&self) -> Map<BCMPinNumber, PinFunction> {
        self.pin_functions@
    }
}

impl Default for HardwareConfig {
    /// The empty configuration: no pin is configured
    fn default() -> (res: Self)
        ensures
            res@ == Map::<BCMPinNumber, PinFunction>::empty(),
    {
        HardwareConfig { pin_functions: HashMap::new() }
    }
}

impl Clone for HardwareConfig {
    fn clone(&self) -> (res: Self)
        ensures
            res@ == self@,
    {
        HardwareConfig { pin_functions: self.pin_functions.clone() }
    }
}

/// The pins of a configuration that are configured as inputs
pub open spec fn spec_input_pins(config: Map<BCMPinNumber, PinFunction>) -> Set<BCMPinNumber> {
    Set::new(|bcm: BCMPinNumber| config.contains_key(bcm) && config[bcm] is Input)
}

impl HardwareConfig {
    /// The number of configured pins
    pub fn len(&self) -> (res: usize)
        ensures
            res == self@.len(),
    {
        proof {
            assert(vstd::std_specs::hash::obeys_key_model::<BCMPinNumber>());
        }
        self.pin_functions.len()
    }

    /// Is no pin configured?
    pub fn is_empty(&self) -> (res: bool)
        ensures
            res <==> self@ == Map::<BCMPinNumber, PinFunction>::empty(),
    {
        let res = self.pin_functions.is_empty();
        proof {
            if !res {
                let k = self@.dom().choose();
                assert(self@.dom().contains(k));
                assert(!Map::<BCMPinNumber, PinFunction>::empty().dom().contains(k));
            } else {
                assert(self@ =~= Map::<BCMPinNumber, PinFunction>::empty());
            }
        }
        res
    }

    /// The function the pin `bcm` is configured as, if it is configured
    pub fn get(&self, bcm: BCMPinNumber) -> (res: Option<PinFunction>)
        ensures
            res == (if self@.contains_key(bcm) { Some(self@[bcm]) } else { None }),
    {
        match self.pin_functions.get(&bcm) {
            Some(f) => Some(*f),
            None => None,
        }
    }

    /// Configure pin `bcm` as `pin_function`, replacing any previous configuration of it
    pub fn set(&mut self, bcm: BCMPinNumber, pin_function: PinFunction)
        ensures
            final(self)@ == old(self)@.insert(bcm, pin_function),
    {
        self.pin_functions.insert(bcm, pin_function);
    }

    /// The pins configured as inputs, in ascending order of [BCMPinNumber]
    pub fn input_pins(&self) -> (res: Vec<BCMPinNumber>)
        ensures
            res@.to_set() == spec_input_pins(self@),
            forall|i: int, j: int| 0 <= i < j < res@.len() ==> res@[i] < res@[j],
    {
        let mut res: Vec<BCMPinNumber> = Vec::new();
        let mut n: u16 = 0;
        while n < 256
            invariant
                n <= 256,
                forall|i: int, j: int| 0 <= i < j < res@.len() ==> res@[i] < res@[j],
                forall|i: int| 0 <= i < res@.len() ==> res@[i] < n,
                forall|b: BCMPinNumber|
                    b < n ==> (res@.contains(b) <==> spec_input_pins(self@).contains(b)),
                forall|i: int|
                    0 <= i < res@.len() ==> spec_input_pins(self@).contains(#[trigger] res@[i]),
            decreases 256 - n,
        {
            let bcm: BCMPinNumber = n as u8;
            let ghost before = res@;
            match self.get(bcm) {
                Some(PinFunction::Input(_)) => {
                    res.push(bcm);
                },
                _ => {},
            }
            proof {
                assert forall|b: BCMPinNumber| b < n + 1 implies (res@.contains(b)
                    <==> spec_input_pins(self@).contains(b)) by {
                    if b < n {
                        if res@.contains(b) && !before.contains(b) {
                            let i = choose|i: int| 0 <= i < res@.len() && res@[i] == b;
                            assert(i == before.len());
                        }
                        if before.contains(b) {
                            let i = choose|i: int| 0 <= i < before.len() && before[i] == b;
                            assert(res@[i] == b);
                        }
                    } else {
                        if res@.contains(b) {
                            let i = choose|i: int| 0 <= i < res@.len() && res@[i] == b;
                            assert(i == before.len());
                        }
                        if spec_input_pins(self@).contains(b) {
                            assert(res@[before.len() as int] == b);
                        }
                    }
                }
            }
            n = n + 1;
        }
        proof {
            assert forall|b: BCMPinNumber| res@.to_set().contains(b) <==> spec_input_pins(
                self@,
            ).contains(b) by {
                assert(b < n);
            }
            assert(res@.to_set() =~= spec_input_pins(self@));
        }
        res
    }
}

/// `pins` lists exactly the entries of `config`, in ascending order of [BCMPinNumber]
pub open spec fn lists_config_in_order(
    pins: Seq<(BCMPinNumber, PinFunction)>,
    config: Map<BCMPinNumber, PinFunction>,
) -> bool {
    &&& forall|i: int, j: int| 0 <= i < j < pins.len() ==> pins[i].0 < pins[j].0
    &&& forall|i: int|
        0 <= i < pins.len() ==> config.contains_key(#[trigger] pins[i].0) && config[pins[i].0]
            == pins[i].1
    &&& forall|b: BCMPinNumber|
        config.contains_key(b) ==> exists|i: int| 0 <= i < pins.len() && #[trigger] pins[i].0 == b
}

impl HardwareConfig {
    /// The configured pins and their functions, in ascending order of [BCMPinNumber]
    pub fn configured_pins(&self) -> (res: Vec<(BCMPinNumber, PinFunction)>)
        ensures
            lists_config_in_order(res@, self@),
    {
        let mut res: Vec<(BCMPinNumber, PinFunction)> = Vec::new();
        let mut n: u16 = 0;
        while n < 256
            invariant
                n <= 256,
                forall|i: int, j: int| 0 <= i < j < res@.len() ==> res@[i].0 < res@[j].0,
                forall|i: int| 0 <= i < res@.len() ==> res@[i].0 < n,
                forall|i: int|
                    0 <= i < res@.len() ==> self@.contains_key(#[trigger] res@[i].0)
                        && self@[res@[i].0] == res@[i].1,
                forall|b: BCMPinNumber|
                    b < n && self@.contains_key(b) ==> exists|i: int|
                        0 <= i < res@.len() && #[trigger] res@[i].0 == b,
            decreases 256 - n,
        {
            let bcm: BCMPinNumber = n as u8;
            let ghost before = res@;
            match self.get(bcm) {
                Some(f) => {
                    res.push((bcm, f));
                },
                None => {},
            }
            proof {
                assert forall|b: BCMPinNumber|
                    b < n + 1 && self@.contains_key(b) implies exists|i: int|
                    0 <= i < res@.len() && #[trigger] res@[i].0 == b by {
                    if b < n {
                        let i = choose|i: int| 0 <= i < before.len() && #[trigger] before[i].0 == b;
                        assert(res@[i] == before[i]);
                    } else {
                        assert(res@[before.len() as int].0 == b);
                    }
                }
            }
            n = n + 1;
        }
        res
    }
}

/// A [Duration] of time, in whole seconds plus nanoseconds
#[derive(Debug, Clone, Copy, PartialEq, Eq, Structural)]
pub struct Duration {
    pub secs: u64,
    pub nanos: u32,
}

/// LevelChange describes the change in level of an input or Output and when it occurred
/// - `new_level` : [PinLevel]
/// - `timestamp` : [Duration]
#[derive(Debug, Clone, Copy, PartialEq, Eq, Structural)]
pub struct LevelChange {
    pub new_level: PinLevel,
    pub timestamp: Duration,
}

impl LevelChange {
    /// Create a new LevelChange event
    pub fn new(new_level: PinLevel, timestamp: Duration) -> (res: Self)
        ensures
            res.new_level == new_level,
            res.timestamp == timestamp,
    {
        LevelChange { new_level, timestamp }
    }
}

/// This enum is for hardware config changes initiated in the GUI by the user,
/// and sent to the device for it to apply to the hardware
pub enum HardwareConfigMessage {
    /// A complete new hardware config has been loaded and applied to the hardware, so we should
    /// start listening for level changes on each of the input pins it contains
    NewConfig(HardwareConfig),
    /// A pin has had its config changed
    NewPinConfig(BCMPinNumber, PinFunction),
    /// The level of a pin has changed
    IOLevelChanged(BCMPinNumber, LevelChange),
    /// Request the current config of the device
    GetConfig,
    /// The GUI is disconnecting from the device
    Disconnect,
}

} // verus!
