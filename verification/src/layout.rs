//! The two ways of laying out the pins on screen.

use vstd::prelude::*;

verus! {

/// How the pins are laid out: as on the board (two columns, by board pin number) or in one
/// column by BCM pin number
#[derive(Debug, Clone, Copy, PartialEq, Eq, Structural)]
pub enum Layout {
    BoardLayout,
    BCMLayout,
}

/// The spacing between the pin columns in the board layout
pub const BOARD_LAYOUT_SPACING: u16 = 470;

/// The spacing used in the BCM layout
pub const BCM_LAYOUT_SPACING: u16 = 640;

impl Layout {
    /// All the layouts, in the order they are offered
    pub const ALL: [Layout; 2] = [Layout::BoardLayout, Layout::BCMLayout];

    /// The spacing used by this layout
    pub fn get_spacing(&self) -> (res: u16)
        ensures
            *self == Layout::BoardLayout ==> res == BOARD_LAYOUT_SPACING,
            *self == Layout::BCMLayout ==> res == BCM_LAYOUT_SPACING,
    {
        match self {
            Layout::BoardLayout => BOARD_LAYOUT_SPACING,
            Layout::BCMLayout => BCM_LAYOUT_SPACING,
        }
    }

    /// The name of the layout, as shown to the user
    pub fn name(&self) -> (res: &'static str)
        ensures
            *self == Layout::BoardLayout ==> res@ == "Board Pin Layout"@,
            *self == Layout::BCMLayout ==> res@ == "BCM Pin Layout"@,
    {
        match self {
            Layout::BoardLayout => "Board Pin Layout",
            Layout::BCMLayout => "BCM Pin Layout",
        }
    }
}

} // verus!
