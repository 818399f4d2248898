//! Discovery of devices: how devices found (over USB, mDNS or iroh-net) are described, and how
//! successive scans are turned into devices found and devices lost.

use mdns_sd::TxtProperties;
use vstd::prelude::*;

use crate::host::{HardwareConnection, IpAddress};
use crate::hw_definition::description::{HardwareDetails, SerialNumber, SsidSpec};
use crate::text::{contains, first_index_of, spec_contains, spec_first_index_of, take_chars};

verus! {

/// What method was used to discover a device
#[derive(Debug, Clone, Copy, PartialEq, Eq, Structural)]
pub enum DiscoveryMethod {
    Local,
    USBRaw,
    IrohLocalSwarm,
    Mdns,
}

impl DiscoveryMethod {
    /// The name of the method, as shown to the user
    pub fn name(&self) -> (res: &'static str)
        ensures
            res@ == spec_method_name(*self),
    {
        match self {
            DiscoveryMethod::Local => "Local",
            DiscoveryMethod::USBRaw => "USB",
            DiscoveryMethod::IrohLocalSwarm => "Iroh",
            DiscoveryMethod::Mdns => "mDNS",
        }
    }
}

/// The name of a discovery method
pub open spec fn spec_method_name(method: DiscoveryMethod) -> Seq<char> {
    match method {
        DiscoveryMethod::Local => "Local"@,
        DiscoveryMethod::USBRaw => "USB"@,
        DiscoveryMethod::IrohLocalSwarm => "Iroh"@,
        DiscoveryMethod::Mdns => "mDNS"@,
    }
}

/// [DiscoveredDevice] includes the [DiscoveryMethod], its [HardwareDetails]
/// and [Option<SsidSpec>] as well as the named [HardwareConnection]s that can be used to connect
/// to it. No name occurs twice among the connections.
pub struct DiscoveredDevice {
    pub discovery_method: DiscoveryMethod,
    pub hardware_details: HardwareDetails,
    pub ssid_spec: Option<SsidSpec>,
    pub hardware_connections: Vec<(String, HardwareConnection)>,
}

/// An event for the GUI related to the discovery or loss of a [DiscoveredDevice]
pub enum DiscoveryEvent {
    DeviceFound(SerialNumber, DiscoveredDevice),
    DeviceLost(SerialNumber, DiscoveryMethod),
    DeviceError(SerialNumber),
    USBPermissionsError(String),
    Error(String),
}

/// The views of a sequence of strings
pub open spec fn views(strings: Seq<String>) -> Seq<Seq<char>> {
    strings.map_values(|s: String| s@)
}

/// The strings of `strings` that do not occur in `others`, in their order
pub open spec fn spec_not_in(strings: Seq<Seq<char>>, others: Seq<Seq<char>>) -> Seq<Seq<char>> {
    strings.filter(|s: Seq<char>| !others.contains(s))
}

/// Does `s` occur in `strings`?
fn contains_string(strings: &Vec<String>, s: &String) -> (res: bool)
    ensures
        res == views(strings@).contains(s@),
{
    let mut i: usize = 0;
    while i < strings.len()
        invariant
            i <= strings@.len(),
            forall|j: int| 0 <= j < i ==> strings@[j]@ != s@,
        decreases strings@.len() - i,
    {
        if strings[i] == *s {
            proof {
                assert(views(strings@)[i as int] == s@);
            }
            return true;
        }
        i = i + 1;
    }
    proof {
        if views(strings@).contains(s@) {
            let j = choose|j: int| 0 <= j < views(strings@).len() && views(strings@)[j] == s@;
            assert(strings@[j]@ == s@);
        }
    }
    false
}

/// The strings of `strings` that do not occur in `others`, in their order
fn strings_not_in(strings: &Vec<String>, others: &Vec<String>) -> (res: Vec<String>)
    ensures
        views(res@) == spec_not_in(views(strings@), views(others@)),
{
    let mut res: Vec<String> = Vec::new();
    let mut i: usize = 0;
    let ghost pred = |s: Seq<char>| !views(others@).contains(s);
    proof {
        reveal(Seq::filter);
        assert(views(strings@).subrange(0, 0) =~= Seq::<Seq<char>>::empty());
        assert(views(res@) =~= Seq::<Seq<char>>::empty());
    }
    while i < strings.len()
        invariant
            i <= strings@.len(),
            pred == (|s: Seq<char>| !views(others@).contains(s)),
            views(res@) == views(strings@).subrange(0, i as int).filter(pred),
        decreases strings@.len() - i,
    {
        let ghost before = res@;
        let ghost prefix = views(strings@).subrange(0, i as int);
        if !contains_string(others, &strings[i]) {
            res.push(strings[i].clone());
            proof {
                assert(views(res@) =~= views(before).push(strings@[i as int]@));
            }
        }
        proof {
            reveal(Seq::filter);
            let next = views(strings@).subrange(0, i + 1);
            assert(next.drop_last() =~= prefix);
            assert(next.last() == strings@[i as int]@);
        }
        i = i + 1;
    }
    proof {
        assert(views(strings@).subrange(0, i as int) =~= views(strings@));
    }
    res
}

/// The serial numbers found in the `current` scan that were not found in the `previous` one:
/// the devices that have just been found
pub fn new_serial_numbers(previous: &Vec<SerialNumber>, current: &Vec<SerialNumber>) -> (res: Vec<
    SerialNumber,
>)
    ensures
        views(res@) == spec_not_in(views(current@), views(previous@)),
{
    strings_not_in(current, previous)
}

/// The serial numbers found in the `previous` scan that are not found in the `current` one:
/// the devices that have just been lost
pub fn lost_serial_numbers(previous: &Vec<SerialNumber>, current: &Vec<SerialNumber>) -> (res:
    Vec<SerialNumber>)
    ensures
        views(res@) == spec_not_in(views(previous@), views(current@)),
{
    strings_not_in(previous, current)
}

/// The event to report a discovery error with `message`: one that denied permission is a
/// permissions error, all others are plain errors
pub fn discovery_error(message: String) -> (res: DiscoveryEvent)
    ensures
        spec_contains(message@, "Permission denied"@) ==> res == DiscoveryEvent::USBPermissionsError(
            message,
        ),
        !spec_contains(message@, "Permission denied"@) ==> res == DiscoveryEvent::Error(message),
{
    if contains(message.as_str(), "Permission denied") {
        DiscoveryEvent::USBPermissionsError(message)
    } else {
        DiscoveryEvent::Error(message)
    }
}

/// The key of a device lost from mDNS, from the full name of its service: the part of the name
/// before the first '.' (the serial number), followed by "/TCP". A full name without a '.'
/// gives no key.
pub fn mdns_lost_key(fullname: &str) -> (res: Option<String>)
    ensures
        match spec_first_index_of(fullname@, '.') {
            Some(i) => res matches Some(key) && key@ == fullname@.take(i) + "/TCP"@,
            None => res is None,
        },
{
    match first_index_of(fullname, '.') {
        Some(i) => {
            let serial = crate::text::prefix_chars(fullname, i);
            Some(serial.concat("/TCP"))
        },
        None => None,
    }
}

/// The serial number given to a device found over iroh-net: the first 16 characters of its
/// node id
pub fn iroh_serial_number(node_id: &str) -> (res: SerialNumber)
    ensures
        res@ == (if 16 < node_id@.len() { node_id@.take(16) } else { node_id@ }),
{
    take_chars(node_id, 16)
}

/// The device announced over mDNS with the properties `serial`, `model`, `app_name` and
/// `app_version`, reachable over TCP at `ip`:`port`, and over iroh-net when it announces a node
/// id. The device supports Wi-Fi; its hardware and revision are not announced.
pub fn mdns_device(
    serial: String,
    model: String,
    app_name: String,
    app_version: String,
    ip: IpAddress,
    port: u16,
    iroh: Option<(String, Option<String>)>,
) -> (res: DiscoveredDevice)
    ensures
        res.discovery_method == DiscoveryMethod::Mdns,
        res.hardware_details.serial == serial,
        res.hardware_details.model == model,
        res.hardware_details.app_name == app_name,
        res.hardware_details.app_version == app_version,
        res.hardware_details.hardware@ == Seq::<char>::empty(),
        res.hardware_details.revision@ == Seq::<char>::empty(),
        res.hardware_details.wifi,
        res.ssid_spec is None,
        res.hardware_connections@.len() == (if iroh is Some { 2int } else { 1int }),
        res.hardware_connections@[0].0@ == "TCP"@,
        res.hardware_connections@[0].1 == HardwareConnection::Tcp(ip, port),
        iroh matches Some((node_id, relay)) ==> {
            &&& res.hardware_connections@[1].0@ == "Iroh"@
            &&& res.hardware_connections@[1].1 == HardwareConnection::Iroh(node_id, relay)
        },
{
    let mut hardware_connections: Vec<(String, HardwareConnection)> = Vec::new();
    hardware_connections.push((String::from_str("TCP"), HardwareConnection::Tcp(ip, port)));
    match iroh {
        Some((node_id, relay)) => {
            hardware_connections.push(
                (String::from_str("Iroh"), HardwareConnection::Iroh(node_id, relay)),
            );
        },
        None => {},
    }
    DiscoveredDevice {
        discovery_method: DiscoveryMethod::Mdns,
        hardware_details: HardwareDetails {
            model,
            hardware: String::new(),
            revision: String::new(),
            serial,
            wifi: true,
            app_name,
            app_version,
        },
        ssid_spec: None,
        hardware_connections,
    }
}

/// The TXT properties of a service announced over mDNS
#[verifier::external_type_specification]
#[verifier::external_body]
pub struct ExTxtProperties(TxtProperties);

/// The properties a TXT record holds, in their order: the key of each, with its value if it
/// has one
pub uninterp spec fn txt_contents(properties: TxtProperties) -> Seq<(Seq<char>, Option<Seq<u8>>)>;

/// The lower-case form of `text`, as `str::to_lowercase` gives it
pub uninterp spec fn lowercase(text: Seq<char>) -> Seq<char>;

/// The text the bytes `bytes` hold where they are valid UTF-8, and the empty text where they
/// are not, as `std::str::from_utf8` followed by `unwrap_or_default` gives it
pub uninterp spec fn utf8_text_or_empty(bytes: Seq<u8>) -> Seq<char>;

/// The value, as text, of the first of `properties` whose key is `key` once both are
/// lower-cased: the empty text where that property has no value; none where no property has
/// that key
pub open spec fn spec_property_val_str(
    properties: Seq<(Seq<char>, Option<Seq<u8>>)>,
    key: Seq<char>,
) -> Option<Seq<char>>
    decreases properties.len(),
{
    if properties.len() == 0 {
        None
    } else if lowercase(properties[0].0) == lowercase(key) {
        Some(
            match properties[0].1 {
                Some(bytes) => utf8_text_or_empty(bytes),
                None => Seq::empty(),
            },
        )
    } else {
        spec_property_val_str(properties.drop_first(), key)
    }
}

/// The value of the property `key` of `properties`, if it has one
pub open spec fn spec_property(properties: TxtProperties, key: Seq<char>) -> Option<Seq<char>> {
    spec_property_val_str(txt_contents(properties), key)
}

/// Calls `TxtProperties::get_property_val_str` of mdns-sd, which looks up the first property
/// whose key equals `key` once both are lower-cased and gives its value as text (the empty text
/// where the value is missing or not UTF-8), or nothing where no key matches. The value is
/// copied into a `String`.
#[verifier::external_body]
fn get_property_val_str(properties: &TxtProperties, key: &str) -> (res: Option<String>)
    ensures
        match spec_property(*properties, key@) {
            Some(value) => res matches Some(text) && text@ == value,
            None => res is None,
        },
        res matches Some(text) ==> exists|i: int|
            0 <= i < txt_contents(*properties).len() && lowercase(txt_contents(*properties)[i].0)
                == lowercase(key@) && text@ == match txt_contents(*properties)[i].1 {
                Some(bytes) => utf8_text_or_empty(bytes),
                None => Seq::<char>::empty(),
            },
        res is None ==> forall|i: int|
            0 <= i < txt_contents(*properties).len() ==> lowercase(txt_contents(*properties)[i].0)
                != lowercase(key@),
{
    match properties.get_property_val_str(key) {
        Some(value) => Some(value.to_string()),
        None => None,
    }
}

/// The properties "Serial", "Model", "AppName" and "AppVersion" that a device must announce
pub open spec fn announces_device(properties: TxtProperties) -> bool {
    &&& spec_property(properties, "Serial"@) is Some
    &&& spec_property(properties, "Model"@) is Some
    &&& spec_property(properties, "AppName"@) is Some
    &&& spec_property(properties, "AppVersion"@) is Some
}

/// The service announces the iroh-net node id "IrohNodeID", and `node_id_parses` tells that
/// it parses as a node id
pub open spec fn announces_iroh(properties: TxtProperties, node_id_parses: bool) -> bool {
    spec_property(properties, "IrohNodeID"@) is Some && node_id_parses
}

/// Where the service announces a node id that parses, any relay URL "IrohRelayURL" it
/// announces parses too (`relay_url_parses`)
pub open spec fn relay_url_accepted(
    properties: TxtProperties,
    node_id_parses: bool,
    relay_url_parses: bool,
) -> bool {
    announces_iroh(properties, node_id_parses) && spec_property(properties, "IrohRelayURL"@) is Some
        ==> relay_url_parses
}

/// `found` is the serial number and the device announced over mDNS by a service with the
/// properties `properties`, found at `ip`:`port`: the device supports Wi-Fi, has the serial
/// number, model, application name and version announced, can be reached over TCP at
/// `ip`:`port`, and over iroh-net where it announces a node id "IrohNodeID" that parses
/// (`node_id_parses`), with the relay "IrohRelayURL" if it announces one
pub open spec fn is_announced_device(
    found: (SerialNumber, DiscoveredDevice),
    properties: TxtProperties,
    ip: IpAddress,
    port: u16,
    node_id_parses: bool,
) -> bool {
    let (serial, device) = found;
    let details = device.hardware_details;
    &&& spec_property(properties, "Serial"@) == Some(serial@)
    &&& device.discovery_method == DiscoveryMethod::Mdns
    &&& details.serial@ == serial@
    &&& spec_property(properties, "Model"@) == Some(details.model@)
    &&& spec_property(properties, "AppName"@) == Some(details.app_name@)
    &&& spec_property(properties, "AppVersion"@) == Some(details.app_version@)
    &&& details.hardware@ == Seq::<char>::empty()
    &&& details.revision@ == Seq::<char>::empty()
    &&& details.wifi
    &&& device.ssid_spec is None
    &&& device.hardware_connections@.len() == (if announces_iroh(properties, node_id_parses) {
        2int
    } else {
        1int
    })
    &&& device.hardware_connections@[0].0@ == "TCP"@
    &&& device.hardware_connections@[0].1 == HardwareConnection::Tcp(ip, port)
    &&& announces_iroh(properties, node_id_parses) ==> {
        &&& device.hardware_connections@[1].0@ == "Iroh"@
        &&& device.hardware_connections@[1].1 matches HardwareConnection::Iroh(n, relay)
        &&& spec_property(properties, "IrohNodeID"@) == Some(n@)
        &&& match spec_property(properties, "IrohRelayURL"@) {
            Some(url) => relay matches Some(r) && r@ == url,
            None => relay is None,
        }
    }
}

/// The serial number and the device announced over mDNS by a service with the TXT properties
/// `properties`, resolved at the IPv4 address `ip` and port `port`. `node_id_parses` tells
/// whether the node id "IrohNodeID" it announces, if any, parses as an iroh-net node id, and
/// `relay_url_parses` whether the relay URL "IrohRelayURL" it announces, if any, parses as a URL.
pub fn mdns_device_from_properties(
    properties: &TxtProperties,
    ip: IpAddress,
    port: u16,
    node_id_parses: bool,
    relay_url_parses: bool,
) -> (res: (SerialNumber, DiscoveredDevice))
    requires
        announces_device(*properties),
        relay_url_accepted(*properties, node_id_parses, relay_url_parses),
    ensures
        is_announced_device(res, *properties, ip, port, node_id_parses),
{
    let serial = get_property_val_str(properties, "Serial").unwrap();
    let model = get_property_val_str(properties, "Model").unwrap();
    let app_name = get_property_val_str(properties, "AppName").unwrap();
    let app_version = get_property_val_str(properties, "AppVersion").unwrap();
    let iroh = if node_id_parses {
        match get_property_val_str(properties, "IrohNodeID") {
            Some(node_id) => Some((node_id, get_property_val_str(properties, "IrohRelayURL"))),
            None => None,
        }
    } else {
        None
    };
    let device = mdns_device(serial.clone(), model, app_name, app_version, ip, port, iroh);
    (serial, device)
}

/// The serial number and the device announced over mDNS by a service with the TXT properties
/// `properties`, resolved at `ip`:`port`, where `node_id_parses` and `relay_url_parses` tell
/// whether the announced node id and relay URL parse; nothing where the service does not
/// announce all of "Serial", "Model", "AppName" and "AppVersion", or announces a node id that
/// parses with a relay URL that does not
pub fn mdns_resolved_device(
    properties: &TxtProperties,
    ip: IpAddress,
    port: u16,
    node_id_parses: bool,
    relay_url_parses: bool,
) -> (res: Option<(SerialNumber, DiscoveredDevice)>)
    ensures
        res is Some <==> announces_device(*properties) && relay_url_accepted(
            *properties,
            node_id_parses,
            relay_url_parses,
        ),
        res matches Some(found) ==> is_announced_device(
            found,
            *properties,
            ip,
            port,
            node_id_parses,
        ),
{
    let announced = get_property_val_str(properties, "Serial").is_some() && get_property_val_str(
        properties,
        "Model",
    ).is_some() && get_property_val_str(properties, "AppName").is_some() && get_property_val_str(
        properties,
        "AppVersion",
    ).is_some();
    let relay_refused = node_id_parses && get_property_val_str(properties, "IrohNodeID").is_some()
        && get_property_val_str(properties, "IrohRelayURL").is_some() && !relay_url_parses;
    if announced && !relay_refused {
        Some(mdns_device_from_properties(properties, ip, port, node_id_parses, relay_url_parses))
    } else {
        None
    }
}

} // verus!
