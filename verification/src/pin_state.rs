//! The state of a pin as seen by the GUI: its last known level and the history of its level
//! changes, which the GUI draws as a waveform.

use vstd::prelude::*;

use crate::hw_definition::config::LevelChange;
use crate::hw_definition::PinLevel;

verus! {

/// PinState captures the state of a pin, including a history of previous states set/read
pub struct PinState {
    level: Option<PinLevel>,
    changes: Vec<LevelChange>,
}

impl View for PinState {
    /// The last known level, and all the level changes recorded, oldest first
    type V = (Option<PinLevel>, Seq<LevelChange>);

    closed spec fn view(&self) -> (Option<PinLevel>, Seq<LevelChange>) {
        (self.level, self.changes@)
    }
}

/// The level of a pin with `changes` recorded: that of the last change, unknown before any
pub open spec fn spec_level_after(changes: Seq<LevelChange>) -> Option<PinLevel> {
    if changes.len() == 0 {
        None
    } else {
        Some(changes.last().new_level)
    }
}

impl PinState {
    /// The level kept is always the level of the last change recorded
    #[verifier::type_invariant]
    spec fn level_is_last_change(self) -> bool {
        self.level == spec_level_after(self.changes@)
    }

    /// Create a new PinState with an unknown level and an empty history
    pub fn new() -> (res: Self)
        ensures
            res@.0 is None,
            res@.1 == Seq::<LevelChange>::empty(),
    {
        PinState { level: None, changes: Vec::new() }
    }

    /// The last reported level of the pin, which could be considered "current level"
    /// if everything is working correctly
    pub fn get_level(&self) -> (res: Option<PinLevel>)
        ensures
            res == self@.0,
            res == spec_level_after(self@.1),
    {
        proof {
            use_type_invariant(self);
        }
        self.level
    }

    /// Add a LevelChange to the history of this pin's state; its level becomes the pin's level
    pub fn set_level(&mut self, level_change: LevelChange)
        ensures
            final(self)@.0 == Some(level_change.new_level),
            final(self)@.1 == old(self)@.1.push(level_change),
    {
        let mut previous = PinState::new();
        core::mem::swap(self, &mut previous);
        let PinState { level: _, mut changes } = previous;
        changes.push(level_change);
        *self = PinState { level: Some(level_change.new_level), changes };
    }

    /// The level changes recorded, oldest first
    pub fn changes(&self) -> (res: &[LevelChange])
        ensures
            res@ == self@.1,
    {
        self.changes.as_slice()
    }
}

} // verus!
