//! The decisions behind the views of the pins: how each pin is styled, which functions and which
//! pulls are offered for it, and which level a click on an output sets.

use vstd::prelude::*;

use crate::hw_definition::description::PinDescription;
use crate::hw_definition::pin_function::{InputPull, PinFunction};
use crate::hw_definition::PinLevel;

verus! {

/// The style of the button of a pin, by what the pin is for
#[derive(Debug, Clone, Copy, PartialEq, Eq, Structural)]
pub enum PinStyle {
    /// A 3.3V power pin (yellow)
    Power3V3,
    /// A 5V power pin (red)
    Power5V,
    /// A ground pin (black)
    Ground,
    /// GPIO2 and GPIO3, the I2C pins (light blue)
    I2C,
    /// GPIO7 to GPIO11, the SPI pins (violet)
    SPI,
    /// GPIO14 and GPIO15, the UART pins (green)
    UART,
    /// The HAT EEPROM ID pins (grey)
    EepromId,
    /// Any other pin (orange)
    General,
}

/// The style of the pin named `name`
pub open spec fn spec_pin_style(name: Seq<char>) -> PinStyle {
    if name == "3V3"@ {
        PinStyle::Power3V3
    } else if name == "5V"@ {
        PinStyle::Power5V
    } else if name == "Ground"@ {
        PinStyle::Ground
    } else if name == "GPIO2"@ || name == "GPIO3"@ {
        PinStyle::I2C
    } else if name == "GPIO7"@ || name == "GPIO8"@ || name == "GPIO9"@ || name == "GPIO10"@
        || name == "GPIO11"@ {
        PinStyle::SPI
    } else if name == "GPIO14"@ || name == "GPIO15"@ {
        PinStyle::UART
    } else if name == "ID_SD"@ || name == "ID_SC"@ {
        PinStyle::EepromId
    } else {
        PinStyle::General
    }
}

/// Is `name` one of `names`?
fn name_is_one_of(name: &String, names: &[&str]) -> (res: bool)
    ensures
        res <==> exists|i: int| 0 <= i < names@.len() && #[trigger] names@[i]@ == name@,
{
    let mut i: usize = 0;
    while i < names.len()
        invariant
            i <= names@.len(),
            forall|j: int| 0 <= j < i ==> #[trigger] names@[j]@ != name@,
        decreases names@.len() - i,
    {
        if *name == String::from_str(names[i]) {
            return true;
        }
        i = i + 1;
    }
    false
}

/// The style of the button of the pin `pin_description`, by its name
pub fn get_pin_style(pin_description: &PinDescription) -> (res: PinStyle)
    ensures
        res == spec_pin_style(pin_description.name@),
{
    let name = &pin_description.name;
    if name_is_one_of(name, &["3V3"]) {
        proof { assert(["3V3"]@[0]@ == name@); }
        PinStyle::Power3V3
    } else if name_is_one_of(name, &["5V"]) {
        PinStyle::Power5V
    } else if name_is_one_of(name, &["Ground"]) {
        PinStyle::Ground
    } else if name_is_one_of(name, &["GPIO2", "GPIO3"]) {
        PinStyle::I2C
    } else if name_is_one_of(name, &["GPIO7", "GPIO8", "GPIO9", "GPIO10", "GPIO11"]) {
        PinStyle::SPI
    } else if name_is_one_of(name, &["GPIO14", "GPIO15"]) {
        PinStyle::UART
    } else if name_is_one_of(name, &["ID_SD", "ID_SC"]) {
        PinStyle::EepromId
    } else {
        PinStyle::General
    }
}

/// The pulls offered for an input whose pull is `pull`: pull-up, pull-down and no pull, in that
/// order, without the one selected
pub open spec fn spec_pullup_options(pull: Option<InputPull>) -> Seq<InputPull> {
    match pull {
        None => seq![InputPull::PullUp, InputPull::PullDown, InputPull::NoPull],
        Some(InputPull::PullUp) => seq![InputPull::PullDown, InputPull::NoPull],
        Some(InputPull::PullDown) => seq![InputPull::PullUp, InputPull::NoPull],
        Some(InputPull::NoPull) => seq![InputPull::PullUp, InputPull::PullDown],
    }
}

/// The pulls offered for an input whose pull is `pull`
pub fn pullup_options(pull: Option<InputPull>) -> (res: Vec<InputPull>)
    ensures
        res@ == spec_pullup_options(pull),
{
    let mut res: Vec<InputPull> = Vec::new();
    let all = [InputPull::PullUp, InputPull::PullDown, InputPull::NoPull];
    let mut i: usize = 0;
    while i < 3
        invariant
            i <= 3,
            all@ == seq![InputPull::PullUp, InputPull::PullDown, InputPull::NoPull],
            res@ == all@.take(i as int).filter(|p: InputPull| Some(p) != pull),
        decreases 3 - i,
    {
        let option = all[i];
        proof {
            reveal(Seq::filter);
            assert(all@.take(i + 1).drop_last() =~= all@.take(i as int));
        }
        if !(pull == Some(option)) {
            res.push(option);
        }
        i = i + 1;
    }
    proof {
        reveal_with_fuel(Seq::filter, 4);
        assert(all@.take(3) =~= all@);
        assert(all@.take(0) =~= Seq::<InputPull>::empty());
        assert(all@.take(1) =~= seq![InputPull::PullUp]);
        assert(all@.take(2) =~= seq![InputPull::PullUp, InputPull::PullDown]);
        assert(res@ =~= spec_pullup_options(pull));
    }
    res
}

/// The choice of function offered for a pin with the functions `options`, of which `selected`
/// is selected: the functions offered and the one shown as selected. A pin with one function or
/// none offers no choice. Once a function is selected, "no function" is offered too; when none
/// is selected, nothing is shown as selected.
pub open spec fn spec_function_choices(options: Seq<PinFunction>, selected: PinFunction) -> Option<
    (Seq<PinFunction>, Option<PinFunction>),
> {
    if options.len() <= 1 {
        None
    } else if selected is Unused {
        Some((options, None))
    } else {
        Some((options.push(PinFunction::Unused), Some(selected)))
    }
}

/// The choice of function offered for the pin `pin_description`, whose selected function is
/// `selected`
pub fn function_choices(pin_description: &PinDescription, selected: PinFunction) -> (res: Option<
    (Vec<PinFunction>, Option<PinFunction>),
>)
    ensures
        match spec_function_choices(pin_description.options@, selected) {
            Some((offered, shown)) => res matches Some((o, s)) && o@ == offered && s == shown,
            None => res is None,
        },
{
    if pin_description.options.len() <= 1 {
        return None;
    }
    let mut config_options: Vec<PinFunction> = Vec::new();
    let mut i: usize = 0;
    while i < pin_description.options.len()
        invariant
            i <= pin_description.options@.len(),
            config_options@ == pin_description.options@.take(i as int),
        decreases pin_description.options@.len() - i,
    {
        config_options.push(pin_description.options[i]);
        proof {
            assert(pin_description.options@.take(i + 1) =~= pin_description.options@.take(
                i as int,
            ).push(pin_description.options@[i as int]));
        }
        i = i + 1;
    }
    proof {
        assert(pin_description.options@.take(i as int) =~= pin_description.options@);
    }
    match selected {
        PinFunction::Unused => Some((config_options, None)),
        other => {
            config_options.push(PinFunction::Unused);
            Some((config_options, Some(other)))
        },
    }
}

/// The level an output is shown at: its level, where it is known, else low
pub fn shown_level(level: Option<PinLevel>) -> (res: PinLevel)
    ensures
        res == (match level {
            Some(l) => l,
            None => false,
        }),
{
    match level {
        Some(l) => l,
        None => false,
    }
}

/// The level a click on an output sets: the opposite of the level it is shown at
pub fn clicked_level(level: Option<PinLevel>) -> (res: PinLevel)
    ensures
        res == !(match level {
            Some(l) => l,
            None => false,
        }),
{
    !shown_level(level)
}

/// The colour of the LED that shows the level of a pin
#[derive(Debug, Clone, Copy, PartialEq, Eq, Structural)]
pub enum LedColor {
    /// The level is unknown
    Black,
    /// The level is low
    Red,
    /// The level is high
    Green,
}

/// The colour of the LED of a pin whose level is `level`: black when it is unknown, red when it
/// is low, green when it is high
pub fn led_color(level: Option<PinLevel>) -> (res: LedColor)
    ensures
        res == (match level {
            None => LedColor::Black,
            Some(false) => LedColor::Red,
            Some(true) => LedColor::Green,
        }),
{
    match level {
        None => LedColor::Black,
        Some(false) => LedColor::Red,
        Some(true) => LedColor::Green,
    }
}

} // verus!
