use mdns_sd::{IntoTxtProperties, TxtProperty};
use pigg::discovery::{mdns_resolved_device, DiscoveryMethod};
use pigg::host::{HardwareConnection, IpAddress};
use pigg::hw_definition::description::HardwareDetails;
use pigg::piglet::{mdns_properties, other_instance, Instance};

fn details() -> HardwareDetails {
    HardwareDetails {
        model: "Raspberry Pi 4".to_string(),
        hardware: "BCM2835".to_string(),
        revision: "c03111".to_string(),
        serial: "10000000a1b2c3d4".to_string(),
        wifi: true,
        app_name: "piglet".to_string(),
        app_version: "0.6.0".to_string(),
    }
}

#[test]
fn announced_properties_are_discovered() {
    let properties = mdns_properties(&details(), "piglet", "0.6.0", None);
    let keys: Vec<&str> = properties.iter().map(|(k, _)| *k).collect();
    assert_eq!(keys, vec!["Serial", "Model", "AppName", "AppVersion"]);
    let txt = properties.as_slice().into_txt_properties();
    let (serial, device) =
        mdns_resolved_device(&txt, IpAddress::V4(192, 168, 1, 20), 4242, true, true).expect("a device");
    assert_eq!(serial, "10000000a1b2c3d4");
    assert_eq!(device.discovery_method, DiscoveryMethod::Mdns);
    assert_eq!(device.hardware_details.model, "Raspberry Pi 4");
    assert_eq!(device.hardware_details.app_name, "piglet");
    assert_eq!(device.hardware_details.app_version, "0.6.0");
    assert!(device.hardware_details.wifi);
    assert_eq!(device.hardware_connections.len(), 1);
    assert_eq!(device.hardware_connections[0].0, "TCP");
    assert!(matches!(
        device.hardware_connections[0].1,
        HardwareConnection::Tcp(IpAddress::V4(192, 168, 1, 20), 4242)
    ));
}

#[test]
fn iroh_properties_add_an_iroh_connection() {
    let properties = mdns_properties(
        &details(),
        "piglet",
        "0.6.0",
        Some(("nodeid123".to_string(), "https://relay.example/".to_string())),
    );
    assert_eq!(properties.len(), 6);
    let txt = properties.as_slice().into_txt_properties();
    let (_, device) = mdns_resolved_device(&txt, IpAddress::V4(10, 0, 0, 1), 80, true, true).expect("a device");
    assert_eq!(device.hardware_connections.len(), 2);
    match &device.hardware_connections[1] {
        (name, HardwareConnection::Iroh(node, Some(relay))) => {
            assert_eq!(name, "Iroh");
            assert_eq!(node, "nodeid123");
            assert_eq!(relay, "https://relay.example/");
        }
        _ => panic!("expected an iroh connection"),
    }
}

#[test]
fn property_keys_match_regardless_of_case() {
    let txt = vec![
        TxtProperty::from(("serial", "S1")),
        TxtProperty::from(("MODEL", "Pi")),
        TxtProperty::from(("appname", "piglet")),
        TxtProperty::from(("AppVersion", "1")),
    ]
    .into_txt_properties();
    let (serial, device) = mdns_resolved_device(&txt, IpAddress::V4(1, 2, 3, 4), 5, false, false).expect("a device");
    assert_eq!(serial, "S1");
    assert_eq!(device.hardware_details.model, "Pi");
}

#[test]
fn missing_property_gives_no_device() {
    let txt = vec![
        TxtProperty::from(("Serial", "S1")),
        TxtProperty::from(("Model", "Pi")),
        TxtProperty::from(("AppName", "piglet")),
    ]
    .into_txt_properties();
    assert!(mdns_resolved_device(&txt, IpAddress::V4(1, 2, 3, 4), 5, false, false).is_none());
}

#[test]
fn finds_other_instance() {
    let instances = vec![
        Instance { pid: 10, is_thread: false },
        Instance { pid: 11, is_thread: true },
        Instance { pid: 12, is_thread: false },
    ];
    assert_eq!(other_instance(&instances, 10), Some(12));
    assert_eq!(other_instance(&instances, 12), Some(10));
    let first_two = vec![Instance { pid: 10, is_thread: false }, Instance { pid: 11, is_thread: true }];
    assert_eq!(other_instance(&first_two, 10), None);
}

#[test]
fn iroh_connection_only_for_a_node_id_that_parses() {
    let properties = mdns_properties(
        &details(),
        "piglet",
        "0.6.0",
        Some(("not-a-node-id".to_string(), "https://relay.example/".to_string())),
    );
    let txt = properties.as_slice().into_txt_properties();
    let (_, device) = mdns_resolved_device(&txt, IpAddress::V4(10, 0, 0, 1), 80, false, true).expect("a device");
    assert_eq!(device.hardware_connections.len(), 1);
    assert_eq!(device.hardware_connections[0].0, "TCP");
    // a node id that parses with a relay URL that does not gives no device
    assert!(mdns_resolved_device(&txt, IpAddress::V4(10, 0, 0, 1), 80, true, false).is_none());
    // a relay URL that does not parse does not matter where the node id does not parse either
    assert!(mdns_resolved_device(&txt, IpAddress::V4(10, 0, 0, 1), 80, false, false).is_some());
}
