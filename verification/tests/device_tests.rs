use pigg::device::{apply_config_change, config_change_action, DeviceAction};
use pigg::discovery::{
    discovery_error, iroh_serial_number, lost_serial_numbers, mdns_lost_key, new_serial_numbers,
    DiscoveryEvent, DiscoveryMethod,
};
use pigg::hardware_subscription::{connect_error, send_error, HardwareReport, Step, SubscriptionState};
use pigg::host::{HardwareConnection, IpAddress};
use pigg::hw_definition::config::{Duration, HardwareConfig, HardwareConfigMessage, LevelChange};
use pigg::hw_definition::pin_function::{InputPull, PinFunction};
use pigg::text::{contains, parse_octet, parse_u16, split_once, trim};

fn accepted(config: &mut HardwareConfig, message: HardwareConfigMessage) -> DeviceAction {
    let action = config_change_action(&message);
    apply_config_change(config, message, true);
    action
}

#[test]
fn config_create_a_config() {
    let config = HardwareConfig::default();
    assert!(config.pin_functions.is_empty());
}

#[test]
fn config_lists_pins_in_order() {
    let mut config = HardwareConfig::default();
    config.set(17, PinFunction::Output(None));
    config.set(4, PinFunction::Input(Some(InputPull::PullUp)));
    config.set(17, PinFunction::Input(None));
    assert_eq!(config.len(), 2);
    assert_eq!(
        config.configured_pins(),
        vec![(4, PinFunction::Input(Some(InputPull::PullUp))), (17, PinFunction::Input(None))]
    );
    assert_eq!(config.input_pins(), vec![4, 17]);
    assert_eq!(config.get(5), None);
}

#[test]
fn device_applies_config_changes() {
    let mut config = HardwareConfig::default();
    let action = accepted(&mut config, HardwareConfigMessage::NewPinConfig(4, PinFunction::Input(None)));
    assert_eq!(action, DeviceAction::ApplyPinConfig { bcm: 4, pin_function: PinFunction::Input(None), report_level: true });
    let change = LevelChange::new(true, Duration { secs: 1, nanos: 5 });
    let action = accepted(&mut config, HardwareConfigMessage::IOLevelChanged(5, change));
    assert_eq!(action, DeviceAction::SetOutputLevel { bcm: 5, level: true });
    assert_eq!(config.get(5), Some(PinFunction::Output(Some(true))));
    assert_eq!(accepted(&mut config, HardwareConfigMessage::GetConfig), DeviceAction::SendConfig);
    assert_eq!(accepted(&mut config, HardwareConfigMessage::Disconnect), DeviceAction::NoAction);
    // a new config replaces the whole config
    let mut new_config = HardwareConfig::default();
    new_config.set(9, PinFunction::Input(None));
    new_config.set(3, PinFunction::Output(Some(false)));
    let action = accepted(&mut config, HardwareConfigMessage::NewConfig(new_config));
    assert_eq!(
        action,
        DeviceAction::ApplyConfig {
            pins: vec![(3, PinFunction::Output(Some(false))), (9, PinFunction::Input(None))],
            input_pins: vec![9],
        }
    );
    assert_eq!(config.len(), 2);
    assert_eq!(config.get(4), None);
}

#[test]
fn device_pin_config_twice_is_once() {
    let mut once = HardwareConfig::default();
    let mut twice = HardwareConfig::default();
    let message = || HardwareConfigMessage::NewPinConfig(7, PinFunction::Output(Some(true)));
    accepted(&mut once, message());
    accepted(&mut twice, message());
    accepted(&mut twice, message());
    assert_eq!(once.configured_pins(), twice.configured_pins());
}

#[test]
fn subscription_connects_then_serves() {
    let mut state = SubscriptionState::new();
    assert!(matches!(state.next_step(), Step::WaitForGui));
    let report = state.hardware_message(Some(HardwareConfigMessage::IOLevelChanged(
        4,
        LevelChange::new(true, Duration { secs: 0, nanos: 0 }),
    )));
    assert!(matches!(report, HardwareReport::InputChange(4, _)));
    match state.hardware_message(None) {
        HardwareReport::ConnectionError(text) => assert_eq!(text, "Hardware event error"),
        _ => panic!("expected an error"),
    }
    assert_eq!(connect_error(&HardwareConnection::Local, "no gpio"), "LocalHW error: no gpio");
    assert_eq!(
        connect_error(&HardwareConnection::Tcp(IpAddress::V4(1, 2, 3, 4), 5), "refused"),
        "TCP error: refused"
    );
    assert_eq!(send_error("closed"), "Local error: closed");
}

#[test]
fn discovery_scans() {
    let previous = vec!["A".to_string(), "B".to_string()];
    let current = vec!["B".to_string(), "C".to_string()];
    assert_eq!(new_serial_numbers(&previous, &current), vec!["C".to_string()]);
    assert_eq!(lost_serial_numbers(&previous, &current), vec!["A".to_string()]);
    assert!(matches!(discovery_error("Permission denied (os error 13)".to_string()), DiscoveryEvent::USBPermissionsError(_)));
    assert!(matches!(discovery_error("timeout".to_string()), DiscoveryEvent::Error(_)));
    assert_eq!(mdns_lost_key("SERIAL123._pigg._tcp.local."), Some("SERIAL123/TCP".to_string()));
    assert_eq!(mdns_lost_key("nodot"), None);
    assert_eq!(iroh_serial_number("rxci3kuuxljxqej7hau727aaemcjo43zvf2zefnqla4p436sqwhq"), "rxci3kuuxljxqej7");
    assert_eq!(DiscoveryMethod::IrohLocalSwarm.name(), "Iroh");
}

#[test]
fn text_helpers() {
    assert_eq!(trim("  a b \t\n"), "a b");
    assert!(contains("hello world", "o w"));
    assert!(!contains("hello", "hello!"));
    assert_eq!(split_once("a:b:c", ':'), Some(("a", "b:c")));
    assert_eq!(split_once("abc", ':'), None);
    assert_eq!(parse_u16("65535"), Some(65535));
    assert_eq!(parse_u16("65536"), None);
    assert_eq!(parse_u16("+"), None);
    assert_eq!(parse_u16("-1"), None);
    assert_eq!(parse_octet("0"), Some(0));
    assert_eq!(parse_octet("00"), None);
    assert_eq!(parse_octet("255"), Some(255));
    assert_eq!(parse_octet("1000"), None);
}

#[test]
fn device_keeps_config_the_hardware_refused() {
    let mut config = HardwareConfig::default();
    config.set(4, PinFunction::Input(None));
    let refused = HardwareConfigMessage::NewPinConfig(4, PinFunction::Output(None));
    assert_eq!(
        config_change_action(&refused),
        DeviceAction::ApplyPinConfig { bcm: 4, pin_function: PinFunction::Output(None), report_level: false }
    );
    apply_config_change(&mut config, refused, false);
    assert_eq!(config.get(4), Some(PinFunction::Input(None)));
    let mut new_config = HardwareConfig::default();
    new_config.set(9, PinFunction::Input(None));
    apply_config_change(&mut config, HardwareConfigMessage::NewConfig(new_config), false);
    assert_eq!(config.configured_pins(), vec![(4, PinFunction::Input(None))]);
    // a level change is recorded even where driving the output failed
    let change = LevelChange::new(true, Duration { secs: 0, nanos: 0 });
    apply_config_change(&mut config, HardwareConfigMessage::IOLevelChanged(4, change), false);
    assert_eq!(config.get(4), Some(PinFunction::Output(Some(true))));
}
