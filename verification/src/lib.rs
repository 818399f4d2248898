//! Data model and decision logic for inspecting and driving the GPIO pins of a Raspberry Pi
//! (or a Pi Pico) from a local or a remote user interface.

pub mod connect_dialog_handler;
pub mod device;
pub mod discovery;
pub mod gpio;
pub mod hardware_subscription;
pub mod host;
pub mod hw;
pub mod hw_definition;
pub mod input_listener;
pub mod layout;
pub mod modal_handler;
pub mod piggui;
pub mod piglet;
pub mod pin_layout;
pub mod pin_state;
pub mod text;

use vstd::prelude::*;

verus! {

} // verus!
