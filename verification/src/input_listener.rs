//! Changes in the level of the inputs, as reported to the GUI.

use vstd::prelude::*;

verus! {

/// InputChange describes the change in level of an input: its BCM pin number and its new level
#[derive(Debug, Clone, Copy, PartialEq, Eq, Structural)]
pub enum InputChange {
    Level(u8, bool),
}

} // verus!
