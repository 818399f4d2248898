//! The state of the dialog that shows information or warnings over the GUI.

use vstd::prelude::*;

verus! {

/// A key pressed on the keyboard, as far as the dialogs are concerned
#[derive(Debug, Clone, Copy, PartialEq, Eq, Structural)]
pub enum KeyEvent {
    /// The Escape key
    Escape,
    /// The Tab key, with or without Shift held down
    Tab { shift: bool },
    /// Any other key, or any other event
    Other,
}

/// The dialog: whether it is shown, its title and body, and whether it is a warning
pub struct DisplayModal {
    pub show_modal: bool,
    pub title: String,
    pub body: String,
    pub is_warning: bool,
}

/// The messages the dialog responds to
#[derive(Debug, Clone, Copy, PartialEq, Eq, Structural)]
pub enum ModalMessage {
    HideModal,
    UnsavedChangesExitModal,
    HardwareDetailsModal,
    VersionModal,
    ExitApp,
    EscKeyEvent(KeyEvent),
}

/// What the GUI must do after the dialog has handled a message
#[derive(Debug, Clone, Copy, PartialEq, Eq, Structural)]
pub enum ModalAction {
    /// Nothing
    NoAction,
    /// Close the main window, exiting the application
    CloseWindow,
}

impl DisplayModal {
    /// A hidden dialog with an empty title and body
    pub fn new() -> (res: Self)
        ensures
            !res.show_modal,
            res.title@ == Seq::<char>::empty(),
            res.body@ == Seq::<char>::empty(),
            !res.is_warning,
    {
        DisplayModal {
            title: String::new(),
            body: String::new(),
            show_modal: false,
            is_warning: false,
        }
    }

    /// Handle `message`. `hardware_description` is the description of the connected hardware
    /// and `version` the version information of the application, shown by the dialogs that
    /// display them.
    pub fn update(&mut self, message: ModalMessage, hardware_description: &str, version: &str) -> (action:
        ModalAction)
        ensures
            match message {
                ModalMessage::HideModal | ModalMessage::EscKeyEvent(KeyEvent::Escape) => {
                    &&& !final(self).show_modal
                    &&& final(self).title == old(self).title
                    &&& final(self).body == old(self).body
                    &&& final(self).is_warning == old(self).is_warning
                    &&& action == ModalAction::NoAction
                },
                ModalMessage::UnsavedChangesExitModal => {
                    &&& final(self).show_modal
                    &&& final(self).is_warning
                    &&& final(self).title@ == "Unsaved Changes"@
                    &&& final(self).body@
                        == "You have unsaved changes. Do you want to exit without saving?"@
                    &&& action == ModalAction::NoAction
                },
                ModalMessage::HardwareDetailsModal => {
                    &&& final(self).show_modal
                    &&& !final(self).is_warning
                    &&& final(self).title@ == "About Connected Hardware"@
                    &&& final(self).body@ == hardware_description@
                    &&& action == ModalAction::NoAction
                },
                ModalMessage::VersionModal => {
                    &&& final(self).show_modal
                    &&& !final(self).is_warning
                    &&& final(self).title@ == "About Piggui"@
                    &&& final(self).body@ == version@
                    &&& action == ModalAction::NoAction
                },
                ModalMessage::ExitApp => {
                    &&& *final(self) == *old(self)
                    &&& action == ModalAction::CloseWindow
                },
                ModalMessage::EscKeyEvent(_) => {
                    &&& *final(self) == *old(self)
                    &&& action == ModalAction::NoAction
                },
            },
    {
        match message {
            ModalMessage::HideModal => {
                self.show_modal = false;
                ModalAction::NoAction
            },
            ModalMessage::UnsavedChangesExitModal => {
                self.show_modal = true;
                self.is_warning = true;
                self.title = String::from_str("Unsaved Changes");
                self.body = String::from_str(
                    "You have unsaved changes. Do you want to exit without saving?",
                );
                ModalAction::NoAction
            },
            ModalMessage::HardwareDetailsModal => {
                self.show_modal = true;
                self.is_warning = false;
                self.title = String::from_str("About Connected Hardware");
                self.body = String::from_str(hardware_description);
                ModalAction::NoAction
            },
            ModalMessage::VersionModal => {
                self.show_modal = true;
                self.is_warning = false;
                self.title = String::from_str("About Piggui");
                self.body = String::from_str(version);
                ModalAction::NoAction
            },
            ModalMessage::ExitApp => ModalAction::CloseWindow,
            ModalMessage::EscKeyEvent(KeyEvent::Escape) => {
                self.show_modal = false;
                ModalAction::NoAction
            },
            ModalMessage::EscKeyEvent(_) => ModalAction::NoAction,
        }
    }
}

} // verus!
