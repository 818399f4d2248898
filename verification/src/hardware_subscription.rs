//! The decisions of the subscription that connects a GUI to some hardware, local or remote,
//! forwards the GUI's config changes to it, and forwards the input level changes it reports
//! back to the GUI.
//!
//! The subscription is either disconnected, with an optional target to connect to, or
//! connected to its target. The loop that runs it (which awaits the GUI, the hardware and the
//! network) asks [SubscriptionState::next_step] what to do, performs it, and hands back what
//! came of it.

use vstd::prelude::*;

use crate::host::{is_hardware, same_connection, spec_kind_name, HardwareConnection};
use crate::hw_definition::config::{HardwareConfigMessage, LevelChange};
use crate::hw_definition::BCMPinNumber;

verus! {

/// A message type sent from the UI to the subscriber
pub enum SubscriberMessage {
    /// We wish to switch the connection to a new device
    NewConnection(Option<HardwareConnection>),
    /// A message type to change the configuration of the connected hardware
    Hardware(HardwareConfigMessage),
}

/// What the subscription must do next
pub enum Step {
    /// Wait for a message from the GUI
    WaitForGui,
    /// Try to connect to this hardware
    Connect(HardwareConnection),
    /// Wait for whichever comes first: a message from the GUI or one from the hardware
    Serve,
}

/// What to do with a message from the GUI
pub enum GuiAction {
    /// Nothing
    Ignore,
    /// Disconnect from the hardware currently connected
    Disconnect,
    /// Send this config change to the connected hardware
    SendToHardware(HardwareConfigMessage),
}

/// An event forwarded to the GUI after a message from the hardware
pub enum HardwareReport {
    /// The logic level of an input has changed
    InputChange(BCMPinNumber, LevelChange),
    /// The hardware sent something it should not have, or the connection failed
    ConnectionError(String),
}

/// The state of the subscription
pub struct SubscriptionState {
    /// Whether a connection to the hardware is open
    pub connected: bool,
    /// The hardware to be connected to
    pub target: Option<HardwareConnection>,
}

/// The target designates some hardware to connect to
pub open spec fn has_hardware_target(target: Option<HardwareConnection>) -> bool {
    target is Some && is_hardware(target.unwrap())
}

/// `a` and `b` are the same optional target
pub open spec fn same_target(a: Option<HardwareConnection>, b: Option<HardwareConnection>) -> bool {
    &&& a is Some == b is Some
    &&& a is Some ==> same_connection(a.unwrap(), b.unwrap())
}

/// The text shown when connecting to `target` failed with `error`
pub open spec fn spec_connect_error(target: HardwareConnection, error: Seq<char>) -> Seq<char> {
    if target is Local {
        "LocalHW error: "@ + error
    } else {
        spec_kind_name(target) + " error: "@ + error
    }
}

/// The connection invariant: a connection is only open to some hardware
pub open spec fn well_formed(state: SubscriptionState) -> bool {
    state.connected ==> has_hardware_target(state.target)
}

impl SubscriptionState {
    /// A new subscription: disconnected, with nothing to connect to
    pub fn new() -> (res: Self)
        ensures
            !res.connected,
            res.target is None,
            well_formed(res),
    {
        SubscriptionState { connected: false, target: None }
    }

    /// What to do next: wait for the GUI to give a target, connect to the target, or serve
    /// the connection that is open
    pub fn next_step(&self) -> (step: Step)
        requires
            well_formed(*self),
        ensures
            self.connected ==> step is Serve,
            !self.connected && has_hardware_target(self.target) ==> (step matches Step::Connect(t)
                && same_connection(t, self.target.unwrap())),
            !self.connected && !has_hardware_target(self.target) ==> step is WaitForGui,
    {
        if self.connected {
            Step::Serve
        } else {
            match &self.target {
                None => Step::WaitForGui,
                Some(HardwareConnection::NoConnection) => Step::WaitForGui,
                Some(target) => Step::Connect(target.duplicate()),
            }
        }
    }

    /// Handle a message from the GUI.
    /// A request for a new connection always leaves the subscription disconnected with the new
    /// target, disconnecting first from any hardware it was connected to. A config change is
    /// sent to the hardware when connected, and dropped otherwise.
    pub fn gui_message(&mut self, message: SubscriberMessage) -> (action: GuiAction)
        requires
            well_formed(*old(self)),
        ensures
            well_formed(*final(self)),
            match message {
                SubscriberMessage::NewConnection(new_target) => {
                    &&& !final(self).connected
                    &&& same_target(final(self).target, new_target)
                    &&& (if old(self).connected {
                        action is Disconnect
                    } else {
                        action is Ignore
                    })
                },
                SubscriberMessage::Hardware(config_change) => {
                    &&& final(self).connected == old(self).connected
                    &&& same_target(final(self).target, old(self).target)
                    &&& (if old(self).connected {
                        action == GuiAction::SendToHardware(config_change)
                    } else {
                        action is Ignore
                    })
                },
            },
    {
        match message {
            SubscriberMessage::NewConnection(new_target) => {
                let was_connected = self.connected;
                let copy = match &new_target {
                    Some(t) => Some(t.duplicate()),
                    None => None,
                };
                self.target = copy;
                self.connected = false;
                if was_connected {
                    GuiAction::Disconnect
                } else {
                    GuiAction::Ignore
                }
            },
            SubscriberMessage::Hardware(config_change) => {
                if self.connected {
                    GuiAction::SendToHardware(config_change)
                } else {
                    GuiAction::Ignore
                }
            },
        }
    }

    /// The connection to the target has been made
    pub fn connected(&mut self)
        requires
            !old(self).connected,
            has_hardware_target(old(self).target),
        ensures
            final(self).connected,
            same_target(final(self).target, old(self).target),
            well_formed(*final(self)),
    {
        self.connected = true;
    }

    /// Handle a message received from the connected hardware: an input level change is
    /// forwarded to the GUI, anything else (or a failed receive, `None`) is reported as an error
    pub fn hardware_message(&self, message: Option<HardwareConfigMessage>) -> (report:
        HardwareReport)
        ensures
            match message {
                Some(HardwareConfigMessage::IOLevelChanged(bcm, level_change)) => report
                    == HardwareReport::InputChange(bcm, level_change),
                _ => report matches HardwareReport::ConnectionError(text) && text@
                    == "Hardware event error"@,
            },
    {
        match message {
            Some(HardwareConfigMessage::IOLevelChanged(bcm, level_change)) => {
                HardwareReport::InputChange(bcm, level_change)
            },
            _ => HardwareReport::ConnectionError(String::from_str("Hardware event error")),
        }
    }
}

/// The error reported when connecting to `target` failed with `error`
pub fn connect_error(target: &HardwareConnection, error: &str) -> (res: String)
    ensures
        res@ == spec_connect_error(*target, error@),
{
    match target {
        HardwareConnection::Local => String::from_str("LocalHW error: ").concat(error),
        _ => String::from_str(target.kind_name()).concat(" error: ").concat(error),
    }
}

/// The error reported when sending a config change to the hardware failed with `error`
pub fn send_error(error: &str) -> (res: String)
    ensures
        res@ == "Local error: "@ + error@,
{
    String::from_str("Local error: ").concat(error)
}

} // verus!
