//! The state of the dialog in which the user enters the node id (and optionally the relay URL)
//! of a remote device to connect to over iroh-net.

use vstd::prelude::*;

use crate::host::HardwareConnection;
use crate::modal_handler::KeyEvent;
use crate::text::{spec_trim, trim};

verus! {

/// The dialog: the text entered, the last connection error, and whether the dialog and its
/// spinner are shown
pub struct ConnectDialog {
    pub node_id: String,
    pub relay_url: String,
    pub iroh_connection_error: String,
    pub show_modal: bool,
    pub show_spinner: bool,
}

/// The messages the dialog responds to
pub enum ConnectDialogMessage {
    NodeIdEntered(String),
    RelayURL(String),
    ModalKeyEvent(KeyEvent),
    HideConnectDialog,
    ShowConnectDialog,
    ConnectionError(String),
}

/// What the GUI must do after the dialog has handled a message
#[derive(Debug, Clone, Copy, PartialEq, Eq, Structural)]
pub enum DialogAction {
    /// Nothing
    NoAction,
    /// Move the focus to the next widget
    FocusNext,
    /// Move the focus to the previous widget
    FocusPrevious,
}

/// The texts to check when the user presses "Connect": the node id, and the relay URL if one
/// was entered, both trimmed of surrounding whitespace
pub struct ConnectRequest {
    pub node_id: String,
    pub relay_url: Option<String>,
}

/// The dialog is hidden and cleared
pub open spec fn is_hidden_and_cleared(dialog: ConnectDialog) -> bool {
    &&& !dialog.show_modal
    &&& dialog.node_id@ == Seq::<char>::empty()
    &&& dialog.relay_url@ == Seq::<char>::empty()
    &&& dialog.iroh_connection_error@ == Seq::<char>::empty()
    &&& !dialog.show_spinner
}

impl Default for ConnectDialog {
    fn default() -> (res: Self)
        ensures
            is_hidden_and_cleared(res),
    {
        Self::new()
    }
}

impl ConnectDialog {
    /// A hidden dialog with nothing entered
    pub fn new() -> (res: Self)
        ensures
            is_hidden_and_cleared(res),
    {
        Self {
            node_id: String::new(),
            relay_url: String::new(),
            iroh_connection_error: String::new(),
            show_modal: false,
            show_spinner: false,
        }
    }

    /// Hide the dialog, clearing what was entered, the error and the spinner
    pub fn hide_modal(&mut self)
        ensures
            is_hidden_and_cleared(*final(self)),
    {
        self.show_modal = false;
        self.node_id = String::new();
        self.iroh_connection_error = String::new();
        self.relay_url = String::new();
        self.show_spinner = false;
    }

    /// Show the spinner while a connection is attempted
    pub fn disable_widgets_and_load_spinner(&mut self)
        ensures
            final(self).show_spinner,
            final(self).show_modal == old(self).show_modal,
            final(self).node_id == old(self).node_id,
            final(self).relay_url == old(self).relay_url,
            final(self).iroh_connection_error == old(self).iroh_connection_error,
    {
        self.show_spinner = true;
    }

    /// Hide the spinner once the connection attempt is over
    pub fn enable_widgets_and_hide_spinner(&mut self)
        ensures
            !final(self).show_spinner,
            final(self).show_modal == old(self).show_modal,
            final(self).node_id == old(self).node_id,
            final(self).relay_url == old(self).relay_url,
            final(self).iroh_connection_error == old(self).iroh_connection_error,
    {
        self.show_spinner = false;
    }

    /// Show `error` in the dialog
    pub fn set_error(&mut self, error: String)
        ensures
            final(self).iroh_connection_error == error,
            final(self).show_modal == old(self).show_modal,
            final(self).show_spinner == old(self).show_spinner,
            final(self).node_id == old(self).node_id,
            final(self).relay_url == old(self).relay_url,
    {
        self.iroh_connection_error = error;
    }

    /// Handle a message other than the press of "Connect"
    pub fn update(&mut self, message: ConnectDialogMessage) -> (action: DialogAction)
        ensures
            match message {
                ConnectDialogMessage::NodeIdEntered(node_id) => {
                    &&& final(self).node_id == node_id
                    &&& final(self).relay_url == old(self).relay_url
                    &&& final(self).iroh_connection_error == old(self).iroh_connection_error
                    &&& final(self).show_modal == old(self).show_modal
                    &&& final(self).show_spinner == old(self).show_spinner
                    &&& action == DialogAction::NoAction
                },
                ConnectDialogMessage::RelayURL(relay_url) => {
                    &&& final(self).relay_url == relay_url
                    &&& final(self).node_id == old(self).node_id
                    &&& final(self).iroh_connection_error == old(self).iroh_connection_error
                    &&& final(self).show_modal == old(self).show_modal
                    &&& final(self).show_spinner == old(self).show_spinner
                    &&& action == DialogAction::NoAction
                },
                ConnectDialogMessage::ModalKeyEvent(KeyEvent::Escape)
                | ConnectDialogMessage::HideConnectDialog => {
                    &&& is_hidden_and_cleared(*final(self))
                    &&& action == DialogAction::NoAction
                },
                ConnectDialogMessage::ModalKeyEvent(KeyEvent::Tab { shift }) => {
                    &&& *final(self) == *old(self)
                    &&& action == (if shift {
                        DialogAction::FocusPrevious
                    } else {
                        DialogAction::FocusNext
                    })
                },
                ConnectDialogMessage::ModalKeyEvent(KeyEvent::Other) => {
                    &&& *final(self) == *old(self)
                    &&& action == DialogAction::NoAction
                },
                ConnectDialogMessage::ShowConnectDialog => {
                    &&& final(self).show_modal
                    &&& final(self).node_id == old(self).node_id
                    &&& final(self).relay_url == old(self).relay_url
                    &&& final(self).iroh_connection_error == old(self).iroh_connection_error
                    &&& final(self).show_spinner == old(self).show_spinner
                    &&& action == DialogAction::NoAction
                },
                ConnectDialogMessage::ConnectionError(error) => {
                    &&& final(self).iroh_connection_error == error
                    &&& final(self).node_id == old(self).node_id
                    &&& final(self).relay_url == old(self).relay_url
                    &&& final(self).show_modal == old(self).show_modal
                    &&& final(self).show_spinner == old(self).show_spinner
                    &&& action == DialogAction::NoAction
                },
            },
    {
        match message {
            ConnectDialogMessage::NodeIdEntered(node_id) => {
                self.node_id = node_id;
                DialogAction::NoAction
            },
            ConnectDialogMessage::RelayURL(relay_url) => {
                self.relay_url = relay_url;
                DialogAction::NoAction
            },
            ConnectDialogMessage::ModalKeyEvent(KeyEvent::Tab { shift }) => {
                if shift {
                    DialogAction::FocusPrevious
                } else {
                    DialogAction::FocusNext
                }
            },
            ConnectDialogMessage::ModalKeyEvent(KeyEvent::Escape) => {
                self.hide_modal();
                DialogAction::NoAction
            },
            ConnectDialogMessage::ModalKeyEvent(KeyEvent::Other) => DialogAction::NoAction,
            ConnectDialogMessage::HideConnectDialog => {
                self.hide_modal();
                DialogAction::NoAction
            },
            ConnectDialogMessage::ShowConnectDialog => {
                self.show_modal = true;
                DialogAction::NoAction
            },
            ConnectDialogMessage::ConnectionError(error) => {
                self.iroh_connection_error = error;
                DialogAction::NoAction
            },
        }
    }

    /// The user pressed "Connect" with `node_id` and `relay_url` entered. An empty node id
    /// (once trimmed) is refused with the error "Please Enter Node Id"; otherwise the trimmed
    /// node id, and the trimmed relay URL unless it is empty, are returned to be checked.
    pub fn connect_pressed(&mut self, node_id: &str, relay_url: &str) -> (res: Option<
        ConnectRequest,
    >)
        ensures
            spec_trim(node_id@).len() == 0 ==> {
                &&& res is None
                &&& final(self).iroh_connection_error@ == "Please Enter Node Id"@
                &&& final(self).show_spinner == old(self).show_spinner
            },
            spec_trim(node_id@).len() > 0 ==> {
                &&& res matches Some(request)
                &&& request.node_id@ == spec_trim(node_id@)
                &&& (if spec_trim(relay_url@).len() == 0 {
                    request.relay_url is None
                } else {
                    request.relay_url matches Some(url) && url@ == spec_trim(relay_url@)
                })
                &&& *final(self) == *old(self)
            },
            final(self).show_modal == old(self).show_modal,
            final(self).node_id == old(self).node_id,
            final(self).relay_url == old(self).relay_url,
    {
        let node = trim(node_id);
        if node.as_str().unicode_len() == 0 {
            self.iroh_connection_error = String::from_str("Please Enter Node Id");
            return None;
        }
        let url = trim(relay_url);
        let relay = if url.as_str().unicode_len() == 0 {
            None
        } else {
            Some(url)
        };
        Some(ConnectRequest { node_id: node, relay_url: relay })
    }

    /// The outcome of checking a [ConnectRequest]: `node_id_error` is the error found in the
    /// node id, if any, and `relay_url_error` the one found in the relay URL, if any (a relay
    /// URL is only checked once the node id is valid). On success the connection to request is
    /// returned and the error cleared when a relay URL was given; on failure the error is shown
    /// and the spinner hidden.
    pub fn checked(
        &mut self,
        request: ConnectRequest,
        node_id_error: Option<String>,
        relay_url_error: Option<String>,
    ) -> (res: Option<HardwareConnection>)
        ensures
            final(self).show_modal == old(self).show_modal,
            final(self).node_id == old(self).node_id,
            final(self).relay_url == old(self).relay_url,
            match node_id_error {
                Some(error) => {
                    &&& res is None
                    &&& final(self).iroh_connection_error == error
                    &&& !final(self).show_spinner
                },
                None => match (request.relay_url, relay_url_error) {
                    (Some(_), Some(error)) => {
                        &&& res is None
                        &&& final(self).iroh_connection_error == error
                        &&& !final(self).show_spinner
                    },
                    (Some(url), None) => {
                        &&& res == Some(HardwareConnection::Iroh(request.node_id, Some(url)))
                        &&& final(self).iroh_connection_error@ == Seq::<char>::empty()
                        &&& final(self).show_spinner == old(self).show_spinner
                    },
                    (None, _) => {
                        &&& res == Some(HardwareConnection::Iroh(request.node_id, None))
                        &&& *final(self) == *old(self)
                    },
                },
            },
    {
        match node_id_error {
            Some(error) => {
                self.iroh_connection_error = error;
                self.show_spinner = false;
                None
            },
            None => match request.relay_url {
                None => Some(HardwareConnection::Iroh(request.node_id, None)),
                Some(url) => match relay_url_error {
                    Some(error) => {
                        self.show_spinner = false;
                        self.iroh_connection_error = error;
                        None
                    },
                    None => {
                        self.iroh_connection_error = String::new();
                        Some(HardwareConnection::Iroh(request.node_id, Some(url)))
                    },
                },
            },
        }
    }
}

} // verus!
