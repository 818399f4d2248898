use pigg::hw;
use pigg::hw::fake_hw;
use pigg::hw::none;
use pigg::hw::pi;
use pigg::hw::pi_hw;
use pigg::hw::pico;
use pigg::hw::{PinAction, PinError, PinUse};
use pigg::hw_definition::config::HardwareConfig;
use pigg::hw_definition::description::{PinDescription, PinDescriptionSet};
use pigg::hw_definition::pin_function::{InputPull, PinFunction};

#[test]
fn pi_get_hardware() {
    let hw = pi::get();
    assert_eq!(hw.pin_descriptions().len(), 40);
}

#[test]
fn pin_descriptions() {
    let hw = pi::get();
    let pins = hw.pin_descriptions();
    assert_eq!(pins.len(), 40);
    assert_eq!(pins[0].name, "3V3");
}

#[test]
fn mod_get_hardware() {
    let hw = hw::get();
    let description = hw.description();
    let pins = description.pins.pins();
    assert_eq!(pins.len(), 40);
    assert_eq!(pins[0].name, "3V3")
}

#[test]
fn hw_can_be_got() {
    let hw = hw::get();
    let description = hw.description();
    println!("{}", description.details.to_string());
    assert_eq!(description.details.hardware, "Unknown");
}

#[test]
fn forty_board_pins() {
    let hw = hw::get();
    let pin_set = hw.description().pins;
    assert_eq!(pin_set.pins().len(), 40);
}

#[test]
fn bcm_pins_sort_in_order() {
    // 0-27, not counting the gpio0 and gpio1 pins with no options
    let hw = hw::get();
    let pin_set = hw.description().pins;
    let sorted_bcm_pins = pin_set.bcm_pins_sorted();
    assert_eq!(pin_set.bcm_pins_sorted().len(), 26);
    let mut previous = 1; // we start at GPIO2
    for pin in sorted_bcm_pins {
        assert_eq!(pin.bcm.expect("Could not get BCM pin number"), previous + 1);
        previous = pin.bcm.expect("Could not get BCM pin number");
    }
}

fn fake_pin(bpn: u8, bcm: u8, options: Vec<PinFunction>) -> PinDescription {
    PinDescription {
        bpn,
        bcm: Some(bcm),
        name: "Fake Pin".to_string(),
        options,
    }
}

fn check_sort_bcm() {
    let pin7 = fake_pin(7, 11, vec![PinFunction::Input(None), PinFunction::Output(None)]);
    let pin8 = fake_pin(8, 1, vec![PinFunction::Input(None), PinFunction::Output(None)]);
    let mut pins = vec![pin7.clone(), pin8];
    for _ in 0..38 {
        pins.push(pin7.clone());
    }
    assert_eq!(pins.len(), 40);
    let pin_set = PinDescriptionSet { pins };
    assert_eq!(
        pin_set.pins.first().expect("Could not get pin").bcm.expect("Could not get BCM Pin Number"),
        11
    );
    assert_eq!(
        pin_set.pins.get(1).expect("Could not get pin").bcm.expect("Could not get BCM Pin Number"),
        1
    );
    assert_eq!(
        pin_set
            .bcm_pins_sorted()
            .first()
            .expect("Could not get pin")
            .bcm
            .expect("Could not get BCM Pin Number"),
        1
    );
    assert_eq!(
        pin_set
            .bcm_pins_sorted()
            .get(1)
            .expect("Could not get pin")
            .bcm
            .expect("Could not get BCM Pin Number"),
        11
    );
}

#[test]
fn mod_sort_bcm() {
    check_sort_bcm();
}

#[test]
fn pin_description_sort_bcm() {
    check_sort_bcm();
}

#[test]
fn mod_display_pin_description() {
    let pin = fake_pin(7, 11, vec![]);
    println!("Pin: {}", pin.to_string());
}

#[test]
fn pin_description_display_pin_description() {
    let pin = fake_pin(7, 11, vec![]);
    println!("Pin: {}", pin.to_string());
}

#[test]
fn pin_description_text_is_exact() {
    let pin = fake_pin(7, 11, vec![PinFunction::Input(Some(InputPull::PullUp)), PinFunction::Output(None)]);
    assert_eq!(
        pin.to_string(),
        "Board Pin #: 7\n\tBCM Pin #: Some(11)\n\tName Pin #: Fake Pin\n\tFunctions #: [Input(Some(PullUp)), Output(None)]\n"
    );
    let empty = PinDescription { bpn: 40, bcm: None, name: "Ground".to_string(), options: vec![] };
    assert_eq!(
        empty.to_string(),
        "Board Pin #: 40\n\tBCM Pin #: None\n\tName Pin #: Ground\n\tFunctions #: []\n"
    );
    let one = fake_pin(1, 255, vec![PinFunction::Unused, PinFunction::Input(Some(InputPull::NoPull)), PinFunction::Output(Some(true))]);
    assert_eq!(
        one.to_string(),
        "Board Pin #: 1\n\tBCM Pin #: Some(255)\n\tName Pin #: Fake Pin\n\tFunctions #: [None, Input(Some(None)), Output(Some(true))]\n"
    );
}

#[test]
fn pi_hw_get_hardware() {
    let hw = pi_hw::get();
    let description = hw.description();
    let pins = description.pins.pins();
    assert_eq!(pins.len(), 40);
    assert_eq!(pins[0].name, "3V3")
}

#[test]
fn details_read_from_cpuinfo() {
    let cpuinfo = "processor\t: 0\nBogoMIPS\t: 108.00\nHardware\t: BCM2835\nRevision\t: c03111\nSerial\t\t: 10000000a1b2c3d4\nModel\t\t: Raspberry Pi 4 Model B Rev 1.1\n";
    let details = hw::HW::get_details(cpuinfo);
    assert_eq!(details.hardware, "BCM2835");
    assert_eq!(details.revision, "c03111");
    assert_eq!(details.serial, "10000000a1b2c3d4");
    assert_eq!(details.model, "Raspberry Pi 4 Model B Rev 1.1");
    assert_eq!(
        details.to_string(),
        "Hardware: BCM2835\nRevision: c03111\nSerial: 10000000a1b2c3d4\nModel: Raspberry Pi 4 Model B Rev 1.1"
    );
}

#[test]
fn cpuinfo_missing_fields_are_unknown_and_last_line_counts() {
    let details = hw::HW::get_details("model name : Intel\nSerial: first\r\nSerial: second\nno colon here");
    assert_eq!(details.hardware, "Unknown");
    assert_eq!(details.revision, "Unknown");
    assert_eq!(details.serial, "second");
    assert_eq!(details.model, "Unknown");
    let empty = hw::HW::get_details("");
    assert_eq!(empty.serial, "Unknown");
    let description = hw::get().description_from_cpuinfo("Model: Pi Zero");
    assert_eq!(description.details.model, "Pi Zero");
    assert_eq!(description.pins.pins().len(), 40);
}

#[test]
fn pin_actions() {
    assert_eq!(hw::HW::pin_action(&PinFunction::Unused), PinAction::Release);
    assert_eq!(hw::HW::pin_action(&PinFunction::Input(None)), PinAction::MakeInput(InputPull::NoPull));
    assert_eq!(
        hw::HW::pin_action(&PinFunction::Input(Some(InputPull::PullDown))),
        PinAction::MakeInput(InputPull::PullDown)
    );
    assert_eq!(hw::HW::pin_action(&PinFunction::Output(Some(true))), PinAction::MakeOutput(Some(true)));
}

#[test]
fn configured_pins_can_be_read_or_set() {
    let mut hw = pi::get();
    assert_eq!(hw.get_input_level(4), Err(PinError::NoInputPin));
    assert_eq!(hw.set_output_level(4), Err(PinError::NoOutputPin));
    hw.apply_pin_config(4, &PinFunction::Input(None), true);
    assert_eq!(hw.pin_use(4), Some(PinUse::Input));
    assert_eq!(hw.get_input_level(4), Ok(()));
    assert_eq!(hw.set_output_level(4), Err(PinError::NoOutputPin));
    hw.apply_pin_config(17, &PinFunction::Output(None), true);
    assert_eq!(hw.set_output_level(17), Ok(()));
    assert_eq!(hw.get_input_level(17), Err(PinError::NoInputPin));
    // the hardware refused: the pin is no longer in use
    hw.apply_pin_config(4, &PinFunction::Output(Some(false)), false);
    assert_eq!(hw.pin_use(4), None);
    hw.apply_pin_config(17, &PinFunction::Unused, true);
    assert_eq!(hw.pin_use(17), None);
    assert_eq!(PinError::NoOutputPin.message(), "Could not find a configured output pin");
    assert_eq!(PinError::NoInputPin.message(), "Could not find a configured input pin");
}

#[test]
fn fake_hardware() {
    let mut hw = fake_hw::get();
    let description = hw.description();
    assert_eq!(description.details.hardware, "NotAPi");
    assert_eq!(description.details.model, "Fake Hardware");
    assert_eq!(description.pins.pins().len(), 40);
    assert!(hw.apply_pin_config(4, &PinFunction::Input(None)));
    assert!(!hw.apply_pin_config(4, &PinFunction::Output(None)));
    assert_eq!(hw.get_input_level(4), Ok(true));
    assert!(hw.set_output_level(4, true).is_ok());
}

#[test]
fn none_hardware_makes_up_inputs() {
    let mut hw = none::get();
    assert_eq!(hw.description().details.serial, "Unknown");
    let mut config = HardwareConfig::default();
    config.set(17, PinFunction::Input(None));
    config.set(4, PinFunction::Input(Some(InputPull::PullUp)));
    config.set(5, PinFunction::Output(None));
    assert_eq!(hw.apply_config(&config), vec![4, 17]);
}

#[test]
fn pico_hardware() {
    let mut hw = pico::get();
    let description = hw.descriptor();
    assert_eq!(description.details.hardware, "Raspberry Pi Pico");
    assert_eq!(description.details.model, "Raspberry Pi Pico (stub)");
    assert_eq!(hw.pin_descriptions().len(), 40);
    assert!(hw.get_state().pin_state.iter().all(|l| l.is_none()));
    assert!(hw.apply_pin_config(2, &PinFunction::Unused).is_ok());
    assert!(hw.apply_config(&HardwareConfig::default()).is_ok());
    assert_eq!(hw.get_input_level(2), Ok(true));
}
