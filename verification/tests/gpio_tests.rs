use pigg::gpio;
use pigg::gpio::board;

#[test]
fn gpio_create_a_config() {
    let config = gpio::GPIOConfig::new();
    assert_eq!(config.pin_configs[0], None);
}

#[test]
fn mod_create_a_config() {
    let config = board::GPIOConfig::default();
    assert!(config.configured_pins.is_empty());
}

#[test]
fn gpio_config_has_no_pin_configured() {
    let config = gpio::GPIOConfig::new();
    assert_eq!(config.pin_configs.len(), 40);
    assert!(config.pin_configs.iter().all(|c| c.is_none()));
}

#[test]
fn gpio_state_knows_no_level() {
    let config = gpio::GPIOConfig::new();
    let state = gpio::GPIOState::get(&config);
    let text = format!("{:?}", state);
    assert!(text.contains("None"));
    assert!(!text.contains("Some"));
}

#[test]
fn board_config_load_gives_empty_config() {
    let config = board::GPIOConfig::load("any.pigg").expect("load failed");
    assert!(config.configured_pins.is_empty());
    assert!(board::GPIOConfig::save("any.pigg").is_ok());
}

#[test]
fn board_config_keeps_configured_pins() {
    let mut config = board::GPIOConfig::default();
    config.configured_pins.push((7, board::PinFunction::Input));
    let copy = config.clone();
    assert_eq!(copy.configured_pins, vec![(7, board::PinFunction::Input)]);
}
