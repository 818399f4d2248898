//! The GPIO hardware of an ordinary Raspberry Pi, driven by the pins it keeps in use.

use vstd::prelude::*;

use crate::hw::{PinUse, HW};
use crate::hw_definition::BCMPinNumber;

verus! {

/// The hardware of a Raspberry Pi
pub type PiHW = HW;

/// A handle onto the hardware of a Raspberry Pi, with no pin in use
pub fn get() -> (res: PiHW)
    ensures
        res@ == Map::<BCMPinNumber, PinUse>::empty(),
{
    crate::hw::get()
}

} // verus!
