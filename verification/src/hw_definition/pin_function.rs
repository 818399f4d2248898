//! The functions a programmable pin can be given.

use vstd::prelude::*;

use crate::hw_definition::PinLevel;

verus! {

/// An input can be configured to have an optional pull-up or pull-down or neither
#[derive(Debug, Clone, Copy, PartialEq, Eq, Structural)]
pub enum InputPull {
    PullUp,
    PullDown,
    /// Neither a pull-up nor a pull-down
    NoPull,
}

/// The function a programmable pin is configured as:
/// * `Unused`: not configured
/// * `Input`: an input, with an optional pull-up or pull-down
/// * `Output`: an output, with an optional initial level
#[derive(Debug, Clone, Copy, PartialEq, Eq, Structural)]
pub enum PinFunction {
    Unused,
    Input(Option<InputPull>),
    Output(Option<PinLevel>),
}

impl PinFunction {
    /// Is this function an input (with any pull setting)?
    pub fn is_input(&self) -> (res: bool)
        ensures
            res <==> (*self is Input),
    {
        match self {
            PinFunction::Input(_) => true,
            _ => false,
        }
    }
}

impl InputPull {
    /// The name of the pull, as shown to the user
    pub fn to_string(&self) -> (res: String)
        ensures
            res@ == spec_pull_name(*self),
    {
        match self {
            InputPull::PullUp => String::from_str("Pull Up"),
            InputPull::PullDown => String::from_str("Pull Down"),
            InputPull::NoPull => String::from_str("None"),
        }
    }
}

/// The name of a pull, as shown to the user
pub open spec fn spec_pull_name(pull: InputPull) -> Seq<char> {
    match pull {
        InputPull::PullUp => "Pull Up"@,
        InputPull::PullDown => "Pull Down"@,
        InputPull::NoPull => "None"@,
    }
}

} // verus!
