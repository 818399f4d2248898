use pigg::connect_dialog_handler::{ConnectDialog, ConnectDialogMessage, DialogAction};
use pigg::discovery::{DiscoveredDevice, DiscoveryEvent, DiscoveryMethod};
use pigg::host::{HardwareConnection, IpAddress};
use pigg::hw_definition::config::{Duration, LevelChange};
use pigg::hw_definition::description::{HardwareDetails, PinDescription};
use pigg::hw_definition::pin_function::{InputPull, PinFunction};
use pigg::layout::Layout;
use pigg::modal_handler::{DisplayModal, KeyEvent, ModalAction, ModalMessage};
use pigg::piggui::{get_hardware_connection, parse_ip_string, Effect, InfoMessage, IpParseError, Message, Piggui};
use pigg::pin_layout::{led_color, LedColor, clicked_level, function_choices, get_pin_style, pullup_options, shown_level, PinStyle};
use pigg::pin_state::PinState;

const VERSION: &str = "piggui 0.1.0\nA GUI for Raspberry Pi GPIO";

#[test]
fn test_hide_modal() {
    let mut display_modal = DisplayModal::new();
    display_modal.show_modal = true;

    let _ = display_modal.update(ModalMessage::HideModal, "", VERSION);
    assert!(!display_modal.show_modal);
    assert!(display_modal.title.is_empty());
    assert!(display_modal.body.is_empty());
    assert!(!display_modal.is_warning);
}

#[test]
fn test_unsaved_changes_exit_modal() {
    let mut display_modal = DisplayModal::new();

    let _ = display_modal.update(ModalMessage::UnsavedChangesExitModal, "", VERSION);
    assert!(display_modal.show_modal);
    assert!(display_modal.is_warning);
    assert_eq!(display_modal.title, "Unsaved Changes");
    assert_eq!(
        display_modal.body,
        "You have unsaved changes. Do you want to exit without saving?"
    );
}

#[test]
fn test_version_modal() {
    let mut display_modal = DisplayModal::new();

    let _ = display_modal.update(ModalMessage::VersionModal, "", VERSION);
    assert!(display_modal.show_modal);
    assert!(!display_modal.is_warning);
    assert_eq!(display_modal.title, "About Piggui");
    assert_eq!(display_modal.body, VERSION.to_string());
}

#[test]
fn modal_escape_and_exit() {
    let mut display_modal = DisplayModal::new();
    let _ = display_modal.update(ModalMessage::HardwareDetailsModal, "Hardware: BCM2835", VERSION);
    assert_eq!(display_modal.title, "About Connected Hardware");
    assert_eq!(display_modal.body, "Hardware: BCM2835");
    let action = display_modal.update(ModalMessage::EscKeyEvent(KeyEvent::Escape), "", VERSION);
    assert_eq!(action, ModalAction::NoAction);
    assert!(!display_modal.show_modal);
    assert_eq!(display_modal.update(ModalMessage::ExitApp, "", VERSION), ModalAction::CloseWindow);
}

fn at(secs: u64) -> Duration {
    Duration { secs, nanos: 0 }
}

#[test]
fn level_stores_last() {
    let mut state = PinState::new();
    state.set_level(LevelChange::new(false, at(1)));
    state.set_level(LevelChange::new(true, at(2)));
    state.set_level(LevelChange::new(false, at(3)));
    state.set_level(LevelChange::new(true, at(4)));
    assert_eq!(state.get_level(), Some(true));
    assert_eq!(state.changes().len(), 4);
}

#[test]
fn level_change_time() {
    let now = std::time::SystemTime::now()
        .duration_since(std::time::UNIX_EPOCH)
        .expect("Could not get system time");
    let timestamp = Duration { secs: now.as_secs(), nanos: now.subsec_nanos() };
    let level_change = LevelChange::new(true, timestamp);
    assert_eq!(level_change.timestamp, timestamp)
}

#[test]
fn layout_spacing() {
    assert_eq!(Layout::BoardLayout.get_spacing(), 470);
    assert_eq!(Layout::BoardLayout.name(), "Board Pin Layout");
    assert_eq!(Layout::BCMLayout.get_spacing(), 640);
}

#[test]
fn connect_dialog_starts_hidden() {
    let dialog = ConnectDialog::new();
    assert!(!dialog.show_modal);
    assert!(!dialog.show_spinner);
    assert!(dialog.node_id.is_empty());
}

#[test]
fn connect_dialog_hide_modal_clears_it() {
    let mut dialog = ConnectDialog::new();
    dialog.update(ConnectDialogMessage::ShowConnectDialog);
    dialog.update(ConnectDialogMessage::NodeIdEntered("abc".to_string()));
    assert!(dialog.show_modal);
    dialog.hide_modal();
    assert!(!dialog.show_modal);
    assert!(dialog.node_id.is_empty());
    assert_eq!(
        dialog.update(ConnectDialogMessage::ModalKeyEvent(KeyEvent::Tab { shift: true })),
        DialogAction::FocusPrevious
    );
}

#[test]
fn connect_pressed_trims_and_requires_node_id() {
    let mut dialog = ConnectDialog::new();
    assert!(dialog.connect_pressed("   ", "x").is_none());
    assert_eq!(dialog.iroh_connection_error, "Please Enter Node Id");
    let request = dialog.connect_pressed("  node  ", " ").expect("a request");
    assert_eq!(request.node_id, "node");
    assert!(request.relay_url.is_none());
}

#[test]
fn parse_ip_and_port() {
    match parse_ip_string("10.0.0.1:9001") {
        Ok(HardwareConnection::Tcp(ip, port)) => {
            assert_eq!(ip, IpAddress::V4(10, 0, 0, 1));
            assert_eq!(port, 9001);
        }
        _ => panic!("10.0.0.1:9001 did not parse"),
    }
    assert!(matches!(parse_ip_string("10.0.0.1"), Err(IpParseError::NoPort)));
    assert!(matches!(parse_ip_string("10.0.0.256:80"), Err(IpParseError::BadAddress)));
    assert!(matches!(parse_ip_string("10.0.0.01:80"), Err(IpParseError::BadAddress)));
    assert!(matches!(parse_ip_string("10.0.0:80"), Err(IpParseError::BadAddress)));
    assert!(matches!(parse_ip_string("10.0.0.1:65536"), Err(IpParseError::BadPort)));
    assert!(matches!(parse_ip_string("10.0.0.1:"), Err(IpParseError::BadPort)));
    assert!(matches!(parse_ip_string("10.0.0.1:+80"), Ok(HardwareConnection::Tcp(_, 80))));
    assert!(matches!(parse_ip_string("0.0.0.0:00080"), Ok(HardwareConnection::Tcp(IpAddress::V4(0, 0, 0, 0), 80))));
}

#[test]
fn hardware_connection_from_options() {
    assert!(matches!(get_hardware_connection(None, false, None, None), HardwareConnection::NoConnection));
    assert!(matches!(
        get_hardware_connection(Some("node".to_string()), true, None, None),
        HardwareConnection::Iroh(_, None)
    ));
    assert!(matches!(
        get_hardware_connection(Some("node".to_string()), true, Some("192.168.1.2:80"), None),
        HardwareConnection::Tcp(IpAddress::V4(192, 168, 1, 2), 80)
    ));
    assert!(matches!(
        get_hardware_connection(Some("node".to_string()), true, Some("bad"), None),
        HardwareConnection::Iroh(_, None)
    ));
    assert!(matches!(
        get_hardware_connection(Some("not a node id".to_string()), false, None, None),
        HardwareConnection::NoConnection
    ));
    match get_hardware_connection(None, false, Some("192.168.1.2:80"), Some("SERIAL")) {
        HardwareConnection::Usb(serial) => assert_eq!(serial, "SERIAL"),
        _ => panic!("expected a USB connection"),
    }
}

fn pin_named(name: &str, options: Vec<PinFunction>) -> PinDescription {
    PinDescription { bpn: 1, bcm: Some(2), name: name.to_string(), options }
}

#[test]
fn pin_styles() {
    assert_eq!(get_pin_style(&pin_named("3V3", vec![])), PinStyle::Power3V3);
    assert_eq!(get_pin_style(&pin_named("5V", vec![])), PinStyle::Power5V);
    assert_eq!(get_pin_style(&pin_named("Ground", vec![])), PinStyle::Ground);
    assert_eq!(get_pin_style(&pin_named("GPIO3", vec![])), PinStyle::I2C);
    assert_eq!(get_pin_style(&pin_named("GPIO10", vec![])), PinStyle::SPI);
    assert_eq!(get_pin_style(&pin_named("GPIO15", vec![])), PinStyle::UART);
    assert_eq!(get_pin_style(&pin_named("ID_SC", vec![])), PinStyle::EepromId);
    assert_eq!(get_pin_style(&pin_named("GPIO4", vec![])), PinStyle::General);
}

#[test]
fn pullup_choices_leave_out_the_selected_one() {
    assert_eq!(pullup_options(None), vec![InputPull::PullUp, InputPull::PullDown, InputPull::NoPull]);
    assert_eq!(pullup_options(Some(InputPull::PullDown)), vec![InputPull::PullUp, InputPull::NoPull]);
    assert_eq!(InputPull::NoPull.to_string(), "None");
    assert_eq!(InputPull::PullUp.to_string(), "Pull Up");
}

#[test]
fn function_choices_add_no_function_once_selected() {
    let options = vec![PinFunction::Input(None), PinFunction::Output(None)];
    let pin = pin_named("GPIO4", options.clone());
    let (offered, shown) = function_choices(&pin, PinFunction::Unused).expect("choices");
    assert_eq!(offered, options);
    assert_eq!(shown, None);
    let (offered, shown) = function_choices(&pin, PinFunction::Output(None)).expect("choices");
    assert_eq!(offered, vec![PinFunction::Input(None), PinFunction::Output(None), PinFunction::Unused]);
    assert_eq!(shown, Some(PinFunction::Output(None)));
    assert!(function_choices(&pin_named("3V3", vec![]), PinFunction::Unused).is_none());
    assert_eq!(shown_level(None), false);
    assert_eq!(clicked_level(None), true);
    assert_eq!(clicked_level(Some(true)), false);
}

fn local_details() -> HardwareDetails {
    HardwareDetails {
        model: "Fake Hardware".to_string(),
        hardware: "NotAPi".to_string(),
        revision: "Unknown".to_string(),
        serial: "LOCAL".to_string(),
        wifi: false,
        app_name: String::new(),
        app_version: String::new(),
    }
}

fn mdns_device(serial: &str) -> DiscoveredDevice {
    DiscoveredDevice {
        discovery_method: DiscoveryMethod::Mdns,
        hardware_details: HardwareDetails {
            model: "Pi".to_string(),
            hardware: String::new(),
            revision: String::new(),
            serial: serial.to_string(),
            wifi: true,
            app_name: "piglet".to_string(),
            app_version: "0.1".to_string(),
        },
        ssid_spec: None,
        hardware_connections: vec![
            ("TCP".to_string(), HardwareConnection::Tcp(IpAddress::V4(10, 0, 0, 1), 80)),
            ("TCP".to_string(), HardwareConnection::Tcp(IpAddress::V4(10, 0, 0, 2), 81)),
        ],
    }
}

#[test]
fn piggui_messages() {
    let mut piggui = Piggui::new(None, local_details());
    assert_eq!(piggui.title(), "piggui");
    let outcome = piggui.update(Message::ConfigChangesMade);
    assert!(matches!(outcome.effect, Effect::NoEffect));
    assert!(piggui.unsaved_changes);
    let outcome = piggui.update(Message::WindowCloseRequested);
    assert!(matches!(outcome.effect, Effect::NoEffect));
    assert!(piggui.modal_handler.show_modal);
    assert_eq!(piggui.modal_handler.title, "Unsaved Changes");
    let outcome = piggui.update(Message::Load);
    assert!(matches!(outcome.effect, Effect::WarnUnsavedBeforeLoad));
    let outcome = piggui.update(Message::ConfigSaved);
    assert!(matches!(outcome.info, Some(InfoMessage::Info(ref text)) if text == "File saved successfully"));
    assert!(!piggui.unsaved_changes);
    assert!(matches!(piggui.update(Message::WindowCloseRequested).effect, Effect::CloseWindow));
    let _ = piggui.update(Message::ConfigLoaded("board.pigg".to_string()));
    assert_eq!(piggui.title(), "board.pigg");
}

#[test]
fn piggui_discovery() {
    let mut piggui = Piggui::new(None, local_details());
    assert_eq!(piggui.discovered_devices.devices.len(), 1);
    assert_eq!(piggui.discovered_devices.devices[0].0, "LOCAL");
    assert!(matches!(piggui.discovered_devices.devices[0].1.hardware_connections[0].1, HardwareConnection::Local));
    let outcome = piggui.update(Message::Discovery(DiscoveryEvent::DeviceFound(
        "SERIAL1".to_string(),
        mdns_device("SERIAL1"),
    )));
    assert!(matches!(outcome.info, Some(InfoMessage::Info(ref text)) if text == "Device Found via mDNS"));
    assert_eq!(piggui.discovered_devices.devices.len(), 2);
    // a device lists each name of a connection once, the last one given counting
    let connections = &piggui.discovered_devices.devices[1].1.hardware_connections;
    assert_eq!(connections.len(), 1);
    assert!(matches!(connections[0].1, HardwareConnection::Tcp(IpAddress::V4(10, 0, 0, 2), 81)));
    let outcome = piggui.update(Message::Discovery(DiscoveryEvent::DeviceLost(
        "SERIAL1".to_string(),
        DiscoveryMethod::Mdns,
    )));
    assert!(matches!(outcome.info, Some(InfoMessage::Info(ref text)) if text == "Device Lost"));
    assert_eq!(piggui.discovered_devices.devices.len(), 1);
    let outcome = piggui.update(Message::Discovery(DiscoveryEvent::DeviceLost(
        "SERIAL1".to_string(),
        DiscoveryMethod::Mdns,
    )));
    assert!(outcome.info.is_none());
}

#[test]
fn led_shows_level() {
    assert_eq!(led_color(None), LedColor::Black);
    assert_eq!(led_color(Some(false)), LedColor::Red);
    assert_eq!(led_color(Some(true)), LedColor::Green);
    let change = pigg::input_listener::InputChange::Level(3, true);
    assert_eq!(change, pigg::input_listener::InputChange::Level(3, true));
}
