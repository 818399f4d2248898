//! The GPIO hardware of an ordinary Raspberry Pi.

use vstd::prelude::*;

use crate::hw::{PinUse, HW};
use crate::hw_definition::BCMPinNumber;

verus! {

/// A handle onto the hardware of a Raspberry Pi, with no pin in use
pub fn get() -> (res: HW)
    ensures
        res@ == Map::<BCMPinNumber, PinUse>::empty(),
{
    crate::hw::get()
}

} // verus!
