//! The descriptions of the 40 pins of the Raspberry Pi GPIO header, valid for Raspberry Pi
//! Models B+, 2B, Zero, 3B, 3B+, 4B, Zero W, Zero2 W and 5.
//!
//! They are ordered by rows of the physical layout, so the rows go like this:
//!  1   -   2
//!  3   -   4
//! ...
//! 39   -  40
//!
//! Every programmable pin can be an input or an output. GPIO2 to GPIO8 have a pull-up by
//! default ("Pins GPIO2 and GPIO3 have fixed pull-up resistors"), the others a pull-down, as the
//! "BCM2711 ARM Peripherals" document gives it. GPIO0 and GPIO1 (board pins 27 and 28) are the
//! EEPROM ID pins used for HAT identification and offer no function.

use vstd::prelude::*;

use crate::hw_definition::description::PinDescription;
use crate::hw_definition::pin_function::{InputPull, PinFunction};
use crate::hw_definition::{BCMPinNumber, BoardPinNumber};
use crate::text::spec_decimal;

verus! {

/// The number of pins on the GPIO header
pub const PIN_COUNT: usize = 40;

/// The BCM pin number of board pin `bpn`, for the programmable pins
pub open spec fn spec_bcm_of(bpn: int) -> Option<BCMPinNumber> {
    if bpn == 3 { Some(2u8) }
    else if bpn == 5 { Some(3u8) }
    else if bpn == 7 { Some(4u8) }
    else if bpn == 8 { Some(14u8) }
    else if bpn == 10 { Some(15u8) }
    else if bpn == 11 { Some(17u8) }
    else if bpn == 12 { Some(18u8) }
    else if bpn == 13 { Some(27u8) }
    else if bpn == 15 { Some(22u8) }
    else if bpn == 16 { Some(23u8) }
    else if bpn == 18 { Some(24u8) }
    else if bpn == 19 { Some(10u8) }
    else if bpn == 21 { Some(9u8) }
    else if bpn == 22 { Some(25u8) }
    else if bpn == 23 { Some(11u8) }
    else if bpn == 24 { Some(8u8) }
    else if bpn == 26 { Some(7u8) }
    else if bpn == 29 { Some(5u8) }
    else if bpn == 31 { Some(6u8) }
    else if bpn == 32 { Some(12u8) }
    else if bpn == 33 { Some(13u8) }
    else if bpn == 35 { Some(19u8) }
    else if bpn == 36 { Some(16u8) }
    else if bpn == 37 { Some(26u8) }
    else if bpn == 38 { Some(20u8) }
    else if bpn == 40 { Some(21u8) }
    else { None }
}

/// The name printed for a pin without a BCM pin number
pub open spec fn spec_unnumbered_name(bpn: int) -> Seq<char> {
    if bpn == 1 || bpn == 17 { "3V3"@ }
    else if bpn == 2 || bpn == 4 { "5V"@ }
    else if bpn == 27 { "GPIO0"@ }
    else if bpn == 28 { "GPIO1"@ }
    else { "Ground"@ }
}

/// The name printed for board pin `bpn`: "GPIO" and its BCM pin number for programmable pins
pub open spec fn spec_pin_name(bpn: int) -> Seq<char> {
    match spec_bcm_of(bpn) {
        Some(bcm) => "GPIO"@ + spec_decimal(bcm as nat),
        None => spec_unnumbered_name(bpn),
    }
}

/// The pull that a programmable pin has by default
pub open spec fn spec_default_pull(bcm: BCMPinNumber) -> InputPull {
    if bcm <= 8 { InputPull::PullUp } else { InputPull::PullDown }
}

/// The functions board pin `bpn` can be configured as
pub open spec fn spec_pin_options(bpn: int) -> Seq<PinFunction> {
    match spec_bcm_of(bpn) {
        Some(bcm) => seq![PinFunction::Input(Some(spec_default_pull(bcm))), PinFunction::Output(None)],
        None => Seq::empty(),
    }
}

/// `pin` is the description of board pin `bpn` of the GPIO header
pub open spec fn describes_board_pin(pin: PinDescription, bpn: int) -> bool {
    &&& pin.bpn == bpn
    &&& pin.bcm == spec_bcm_of(bpn)
    &&& pin.name@ == spec_pin_name(bpn)
    &&& pin.options@ == spec_pin_options(bpn)
}

/// The board pin of the programmable pin with BCM pin number `bcm` (2 to 27), as the Raspberry
/// Pi pinout documents it, listed by BCM pin number
pub open spec fn documented_board_pin(bcm: int) -> int {
    seq![3int, 5, 7, 29, 31, 26, 24, 21, 19, 23, 32, 33, 8, 10, 36, 11, 12, 35, 38, 40, 15, 16, 18,
        22, 37, 13][bcm - 2]
}

/// The board pins that have no BCM pin number: power, ground and the two EEPROM ID pins
pub open spec fn documented_unnumbered(bpn: int) -> bool {
    seq![1int, 2, 4, 6, 9, 14, 17, 20, 25, 27, 28, 30, 34, 39].contains(bpn)
}

/// The descriptions of the 40 pin header follow the documented Raspberry Pi pinout: GPIO`n`,
/// for each BCM pin number `n` from 2 to 27, is on its documented board pin, named "GPIO" and
/// its number, and can be an input or an output; the other board pins have no BCM pin number
/// and no function
pub proof fn law_gpio_header_pinout(pins: Seq<PinDescription>)
    requires
        pins.len() == PIN_COUNT,
        forall|i: int| 0 <= i < PIN_COUNT ==> describes_board_pin(#[trigger] pins[i], i + 1),
    ensures
        forall|bcm: int|
            2 <= bcm <= 27 ==> {
                let pin = #[trigger] pins[documented_board_pin(bcm) - 1];
                &&& pin.bcm == Some(bcm as u8)
                &&& pin.name@ == "GPIO"@ + spec_decimal(bcm as nat)
                &&& pin.options@.len() == 2
                &&& pin.options@[0] is Input
                &&& pin.options@[1] == PinFunction::Output(None)
            },
        forall|bpn: int|
            1 <= bpn <= 40 && documented_unnumbered(bpn) ==> {
                let pin = #[trigger] pins[bpn - 1];
                &&& pin.bcm is None
                &&& pin.options@.len() == 0
            },
{
    assert forall|bcm: int| 2 <= bcm <= 27 implies {
        let pin = #[trigger] pins[documented_board_pin(bcm) - 1];
        &&& pin.bcm == Some(bcm as u8)
        &&& pin.name@ == "GPIO"@ + spec_decimal(bcm as nat)
        &&& pin.options@.len() == 2
        &&& pin.options@[0] is Input
        &&& pin.options@[1] == PinFunction::Output(None)
    } by {
        let b = documented_board_pin(bcm);
        assert(describes_board_pin(pins[b - 1], b));
    }
    assert forall|bpn: int| 1 <= bpn <= 40 && documented_unnumbered(bpn) implies {
        let pin = #[trigger] pins[bpn - 1];
        &&& pin.bcm is None
        &&& pin.options@.len() == 0
    } by {
        assert(describes_board_pin(pins[bpn - 1], bpn));
        let listed = seq![1int, 2, 4, 6, 9, 14, 17, 20, 25, 27, 28, 30, 34, 39];
        let k = choose|k: int| 0 <= k < listed.len() && listed[k] == bpn;
        assert(0 <= k < listed.len() && listed[k] == bpn);
    }
}

/// The BCM pin number of board pin `bpn`, if it is a programmable pin
fn bcm_of(bpn: BoardPinNumber) -> (res: Option<BCMPinNumber>)
    ensures
        res == spec_bcm_of(bpn as int),
{
    match bpn {
        3 => Some(2),
        5 => Some(3),
        7 => Some(4),
        8 => Some(14),
        10 => Some(15),
        11 => Some(17),
        12 => Some(18),
        13 => Some(27),
        15 => Some(22),
        16 => Some(23),
        18 => Some(24),
        19 => Some(10),
        21 => Some(9),
        22 => Some(25),
        23 => Some(11),
        24 => Some(8),
        26 => Some(7),
        29 => Some(5),
        31 => Some(6),
        32 => Some(12),
        33 => Some(13),
        35 => Some(19),
        36 => Some(16),
        37 => Some(26),
        38 => Some(20),
        40 => Some(21),
        _ => None,
    }
}

/// The name printed for board pin `bpn`
fn pin_name(bpn: BoardPinNumber) -> (res: String)
    ensures
        res@ == spec_pin_name(bpn as int),
{
    proof {
        reveal_with_fuel(spec_decimal, 3);
    }
    let name = match bpn {
        1 | 17 => "3V3",
        2 | 4 => "5V",
        3 => "GPIO2",
        5 => "GPIO3",
        7 => "GPIO4",
        8 => "GPIO14",
        10 => "GPIO15",
        11 => "GPIO17",
        12 => "GPIO18",
        13 => "GPIO27",
        15 => "GPIO22",
        16 => "GPIO23",
        18 => "GPIO24",
        19 => "GPIO10",
        21 => "GPIO9",
        22 => "GPIO25",
        23 => "GPIO11",
        24 => "GPIO8",
        26 => "GPIO7",
        27 => "GPIO0",
        28 => "GPIO1",
        29 => "GPIO5",
        31 => "GPIO6",
        32 => "GPIO12",
        33 => "GPIO13",
        35 => "GPIO19",
        36 => "GPIO16",
        37 => "GPIO26",
        38 => "GPIO20",
        40 => "GPIO21",
        _ => "Ground",
    };
    proof {
        reveal_strlit("3V3");
        reveal_strlit("5V");
        reveal_strlit("Ground");
        reveal_strlit("GPIO");
        reveal_strlit("GPIO0");
        reveal_strlit("GPIO1");
        reveal_strlit("GPIO2");
        reveal_strlit("GPIO3");
        reveal_strlit("GPIO4");
        reveal_strlit("GPIO5");
        reveal_strlit("GPIO6");
        reveal_strlit("GPIO7");
        reveal_strlit("GPIO8");
        reveal_strlit("GPIO9");
        reveal_strlit("GPIO10");
        reveal_strlit("GPIO11");
        reveal_strlit("GPIO12");
        reveal_strlit("GPIO13");
        reveal_strlit("GPIO14");
        reveal_strlit("GPIO15");
        reveal_strlit("GPIO16");
        reveal_strlit("GPIO17");
        reveal_strlit("GPIO18");
        reveal_strlit("GPIO19");
        reveal_strlit("GPIO20");
        reveal_strlit("GPIO21");
        reveal_strlit("GPIO22");
        reveal_strlit("GPIO23");
        reveal_strlit("GPIO24");
        reveal_strlit("GPIO25");
        reveal_strlit("GPIO26");
        reveal_strlit("GPIO27");
        assert(spec_pin_name(bpn as int) =~= name@);
    }
    String::from_str(name)
}

/// The description of board pin `bpn` of the GPIO header
fn board_pin(bpn: BoardPinNumber) -> (res: PinDescription)
    ensures
        describes_board_pin(res, bpn as int),
{
    let bcm = bcm_of(bpn);
    let mut options: Vec<PinFunction> = Vec::new();
    if let Some(n) = bcm {
        let pull = if n <= 8 { InputPull::PullUp } else { InputPull::PullDown };
        options.push(PinFunction::Input(Some(pull)));
        options.push(PinFunction::Output(None));
    }
    let res = PinDescription { bpn, bcm, name: pin_name(bpn), options };
    assert(res.options@ =~= spec_pin_options(bpn as int));
    res
}

/// The descriptions of the 40 pins of the GPIO header, ordered by board pin number
pub fn gpio_pin_descriptions() -> (res: Vec<PinDescription>)
    ensures
        res@.len() == PIN_COUNT,
        forall|i: int| 0 <= i < PIN_COUNT ==> describes_board_pin(#[trigger] res@[i], i + 1),
{
    let mut res: Vec<PinDescription> = Vec::new();
    let mut bpn: u8 = 1;
    while bpn <= 40
        invariant
            1 <= bpn <= 41,
            res@.len() == bpn - 1,
            forall|i: int| 0 <= i < res@.len() ==> describes_board_pin(#[trigger] res@[i], i + 1),
        decreases 41 - bpn,
    {
        res.push(board_pin(bpn));
        bpn = bpn + 1;
    }
    res
}

} // verus!
