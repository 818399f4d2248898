//! The state of the GUI application, apart from its widgets: the config file being edited,
//! whether it has unsaved changes, its dialogs, and the devices discovered so far; and the
//! decisions it takes on each message it receives.

use vstd::prelude::*;

use crate::connect_dialog_handler::{is_hidden_and_cleared, ConnectDialog};
use crate::discovery::{spec_method_name, DiscoveredDevice, DiscoveryEvent, DiscoveryMethod};
use crate::hw_definition::description::HardwareDetails;
use crate::host::{spec_parse_ipv4, HardwareConnection, IpAddress};
use crate::text::{parse_u16, spec_parse_u16, spec_split_once, split_once};
use crate::hw_definition::description::SerialNumber;
use crate::modal_handler::{DisplayModal, ModalMessage};

verus! {

/// The map from connection names to connections that a list of named connections gives;
/// where a name occurs more than once, the last occurrence counts
pub open spec fn connection_map(connections: Seq<(String, HardwareConnection)>) -> Map<
    Seq<char>,
    HardwareConnection,
>
    decreases connections.len(),
{
    if connections.len() == 0 {
        Map::empty()
    } else {
        connection_map(connections.drop_last()).insert(
            connections.last().0@,
            connections.last().1,
        )
    }
}

/// No connection name occurs twice
pub open spec fn unique_names(connections: Seq<(String, HardwareConnection)>) -> bool {
    forall|i: int, j: int|
        0 <= i < j < connections.len() ==> connections[i].0@ != connections[j].0@
}

proof fn lemma_connection_map_dom(connections: Seq<(String, HardwareConnection)>, name: Seq<char>)
    ensures
        connection_map(connections).contains_key(name) <==> exists|i: int|
            0 <= i < connections.len() && #[trigger] connections[i].0@ == name,
    decreases connections.len(),
{
    if connections.len() > 0 {
        let rest = connections.drop_last();
        lemma_connection_map_dom(rest, name);
        if exists|i: int| 0 <= i < rest.len() && #[trigger] rest[i].0@ == name {
            let i = choose|i: int| 0 <= i < rest.len() && #[trigger] rest[i].0@ == name;
            assert(connections[i].0@ == name);
        }
        if exists|i: int| 0 <= i < connections.len() && #[trigger] connections[i].0@ == name {
            let i = choose|i: int| 0 <= i < connections.len() && #[trigger] connections[i].0@ == name;
            if i < rest.len() {
                assert(rest[i].0@ == name);
            }
        }
    }
}

proof fn lemma_connection_map_update(
    connections: Seq<(String, HardwareConnection)>,
    i: int,
    entry: (String, HardwareConnection),
)
    requires
        unique_names(connections),
        0 <= i < connections.len(),
        connections[i].0@ == entry.0@,
    ensures
        connection_map(connections.update(i, entry)) == connection_map(connections).insert(
            entry.0@,
            entry.1,
        ),
        unique_names(connections.update(i, entry)),
    decreases connections.len(),
{
    let updated = connections.update(i, entry);
    let rest = connections.drop_last();
    if i == connections.len() - 1 {
        assert(updated.drop_last() =~= rest);
        assert(connection_map(updated) =~= connection_map(connections).insert(entry.0@, entry.1));
    } else {
        lemma_connection_map_update(rest, i, entry);
        assert(updated.drop_last() =~= rest.update(i, entry));
        assert(connections.last().0@ != entry.0@);
        assert(connection_map(updated) =~= connection_map(connections).insert(entry.0@, entry.1));
    }
}

/// Add `connection` under `name` to `connections`, replacing any connection of that name
fn upsert_connection(
    connections: &mut Vec<(String, HardwareConnection)>,
    name: String,
    connection: HardwareConnection,
)
    requires
        unique_names(old(connections)@),
    ensures
        unique_names(final(connections)@),
        connection_map(final(connections)@) == connection_map(old(connections)@).insert(
            name@,
            connection,
        ),
{
    let mut i: usize = 0;
    while i < connections.len()
        invariant
            i <= connections@.len(),
            connections@ == old(connections)@,
            unique_names(connections@),
            forall|j: int| 0 <= j < i ==> connections@[j].0@ != name@,
        decreases connections@.len() - i,
    {
        if connections[i].0 == name {
            let ghost before = connections@;
            proof {
                lemma_connection_map_update(before, i as int, (name, connection));
            }
            connections.set(i, (name, connection));
            return;
        }
        i = i + 1;
    }
    let ghost before = connections@;
    connections.push((name, connection));
    proof {
        assert(connections@.drop_last() =~= before);
        assert(connections@.last() == (name, connection));
    }
}

/// Add all of `added` to `connections`, each replacing any connection of the same name
fn extend_connections(
    connections: &mut Vec<(String, HardwareConnection)>,
    added: Vec<(String, HardwareConnection)>,
)
    requires
        unique_names(old(connections)@),
    ensures
        unique_names(final(connections)@),
        connection_map(final(connections)@) == connection_map(old(connections)@).union_prefer_right(
            connection_map(added@),
        ),
{
    let ghost original = connections@;
    let mut rest = added;
    let mut taken: usize = 0;
    let ghost all = rest@;
    let total = rest.len();
    // process `added` from its front: reverse it so that popping takes the front element
    let mut reversed: Vec<(String, HardwareConnection)> = Vec::new();
    while rest.len() > 0
        invariant
            rest@ + reversed@.reverse() == all,
        decreases rest@.len(),
    {
        let ghost before_rest = rest@;
        let ghost before_rev = reversed@;
        let last = rest.pop().unwrap();
        reversed.push(last);
        proof {
            assert(reversed@.reverse() =~= seq![last] + before_rev.reverse());
            assert(before_rest =~= rest@.push(last));
            assert(rest@ + reversed@.reverse() =~= before_rest + before_rev.reverse());
        }
    }
    proof {
        assert(rest@ + reversed@.reverse() =~= reversed@.reverse());
    }
    while reversed.len() > 0
        invariant
            all.len() == total,
            taken <= all.len(),
            reversed@.len() == all.len() - taken,
            reversed@.reverse() == all.subrange(taken as int, all.len() as int),
            unique_names(connections@),
            connection_map(connections@) == connection_map(original).union_prefer_right(
                connection_map(all.subrange(0, taken as int)),
            ),
        decreases reversed@.len(),
    {
        let ghost before_rev = reversed@;
        let (name, connection) = reversed.pop().unwrap();
        proof {
            assert(before_rev =~= reversed@.push((name, connection)));
            assert(before_rev.reverse() =~= seq![(name, connection)] + reversed@.reverse());
            assert(all[taken as int] == (name, connection)) by {
                assert(all.subrange(taken as int, all.len() as int)[0] == before_rev.reverse()[0]);
            }
            assert(reversed@.reverse() =~= all.subrange(taken + 1, all.len() as int)) by {
                assert forall|k: int| 0 <= k < reversed@.len() implies reversed@.reverse()[k]
                    == all.subrange(taken + 1, all.len() as int)[k] by {
                    assert(reversed@.reverse()[k] == before_rev.reverse()[k + 1]);
                    assert(before_rev.reverse()[k + 1] == all.subrange(
                        taken as int,
                        all.len() as int,
                    )[k + 1]);
                }
            }
            let prefix = all.subrange(0, taken + 1);
            assert(prefix.drop_last() =~= all.subrange(0, taken as int));
            assert(prefix.last() == (name, connection));
        }
        upsert_connection(connections, name, connection);
        proof {
            let prefix = all.subrange(0, taken + 1);
            assert(connection_map(connections@) =~= connection_map(original).union_prefer_right(
                connection_map(prefix),
            ));
        }
        taken = taken + 1;
    }
    proof {
        assert(all.subrange(0, taken as int) =~= all);
    }
}

/// The devices discovered so far, each under its serial number; no serial number occurs twice
pub struct DeviceRegistry {
    pub devices: Vec<(SerialNumber, DiscoveredDevice)>,
}

/// The position of the device with serial number `serial` in `devices`, if any
pub open spec fn position_of(devices: Seq<(SerialNumber, DiscoveredDevice)>, serial: Seq<char>) -> Option<int> {
    if exists|i: int| 0 <= i < devices.len() && #[trigger] devices[i].0@ == serial {
        Some(choose|i: int| 0 <= i < devices.len() && #[trigger] devices[i].0@ == serial)
    } else {
        None
    }
}

/// A device at a position of `devices` has a position
proof fn lemma_position_some(devices: Seq<(SerialNumber, DiscoveredDevice)>, i: int, serial: Seq<char>)
    requires
        0 <= i < devices.len(),
        devices[i].0@ == serial,
    ensures
        position_of(devices, serial) is Some,
{
    assert(exists|k: int| 0 <= k < devices.len() && #[trigger] devices[k].0@ == serial);
}

/// The position of a device is where its serial number stands
proof fn lemma_position_at(devices: Seq<(SerialNumber, DiscoveredDevice)>, serial: Seq<char>)
    requires
        position_of(devices, serial) is Some,
    ensures
        0 <= position_of(devices, serial).unwrap() < devices.len(),
        devices[position_of(devices, serial).unwrap()].0@ == serial,
{
}

/// Once the device with serial number `serial` is removed from a list where serial numbers
/// are unique, no device of that serial number is left
proof fn lemma_removed_absent(devices: Seq<(SerialNumber, DiscoveredDevice)>, serial: Seq<char>)
    requires
        position_of(devices, serial) is Some,
        forall|i: int, j: int| 0 <= i < j < devices.len() ==> devices[i].0@ != devices[j].0@,
    ensures
        position_of(devices.remove(position_of(devices, serial).unwrap()), serial) is None,
{
    let p = position_of(devices, serial).unwrap();
    let rest = devices.remove(p);
    if exists|k: int| 0 <= k < rest.len() && #[trigger] rest[k].0@ == serial {
        let k = choose|k: int| 0 <= k < rest.len() && #[trigger] rest[k].0@ == serial;
        if k < p {
            assert(devices[k].0@ == serial);
        } else {
            assert(devices[k + 1].0@ == serial);
        }
    }
}

/// `after` is `before` once the device `device` with serial number `serial` was found: a device
/// not known yet is added at the end, with the connections of `device` (where a name occurs
/// more than once the last one counts); for a device already known, the connections of `device`
/// are added to those it has, each replacing any connection of the same name
pub open spec fn spec_found(
    before: Seq<(SerialNumber, DiscoveredDevice)>,
    after: Seq<(SerialNumber, DiscoveredDevice)>,
    serial: SerialNumber,
    device: DiscoveredDevice,
) -> bool {
    match position_of(before, serial@) {
        None => {
            let added = after.last();
            &&& after.len() == before.len() + 1
            &&& after.drop_last() == before
            &&& added.0 == serial
            &&& added.1.discovery_method == device.discovery_method
            &&& added.1.hardware_details == device.hardware_details
            &&& added.1.ssid_spec == device.ssid_spec
            &&& connection_map(added.1.hardware_connections@) == connection_map(
                device.hardware_connections@,
            )
        },
        Some(i) => {
            let known = before[i];
            let updated = after[i];
            &&& after.len() == before.len()
            &&& forall|j: int| 0 <= j < before.len() && j != i ==> after[j] == before[j]
            &&& updated.0 == known.0
            &&& updated.1.discovery_method == known.1.discovery_method
            &&& updated.1.hardware_details == known.1.hardware_details
            &&& updated.1.ssid_spec == known.1.ssid_spec
            &&& connection_map(updated.1.hardware_connections@) == connection_map(
                known.1.hardware_connections@,
            ).union_prefer_right(connection_map(device.hardware_connections@))
        },
    }
}

/// `after` is `before` once the device with serial number `serial` was lost: it is removed,
/// where it was known
pub open spec fn spec_lost(
    before: Seq<(SerialNumber, DiscoveredDevice)>,
    after: Seq<(SerialNumber, DiscoveredDevice)>,
    serial: Seq<char>,
) -> bool {
    match position_of(before, serial) {
        None => after == before,
        Some(i) => after == before.remove(i),
    }
}

/// When a device is found again, each connection it is found with replaces the connection of
/// the same name it had, and the connections it had under other names stay; a device found for
/// the first time has the connections it is found with. Its serial number, method, details and
/// Wi-Fi settings stay those first recorded.
pub proof fn law_found_merges_connections(
    before: Seq<(SerialNumber, DiscoveredDevice)>,
    after: Seq<(SerialNumber, DiscoveredDevice)>,
    serial: SerialNumber,
    device: DiscoveredDevice,
)
    requires
        spec_found(before, after, serial, device),
    ensures
        position_of(before, serial@) matches Some(i) ==> {
            let found_with = connection_map(device.hardware_connections@);
            let had = connection_map(before[i].1.hardware_connections@);
            let has = connection_map(after[i].1.hardware_connections@);
            &&& after[i].0 == before[i].0
            &&& after[i].1.hardware_details == before[i].1.hardware_details
            &&& forall|name: Seq<char>|
                found_with.contains_key(name) ==> has.contains_key(name) && has[name]
                    == found_with[name]
            &&& forall|name: Seq<char>|
                !found_with.contains_key(name) ==> has.contains_key(name) == had.contains_key(name)
                    && (had.contains_key(name) ==> has[name] == had[name])
        },
        position_of(before, serial@) is None ==> {
            &&& after.last().0 == serial
            &&& after.last().1.hardware_details == device.hardware_details
            &&& connection_map(after.last().1.hardware_connections@) == connection_map(
                device.hardware_connections@,
            )
        },
{
}

/// Losing a device just found, that was not known before, leaves the devices known as they were
pub proof fn law_found_then_lost(
    before: Seq<(SerialNumber, DiscoveredDevice)>,
    after_found: Seq<(SerialNumber, DiscoveredDevice)>,
    after_lost: Seq<(SerialNumber, DiscoveredDevice)>,
    serial: SerialNumber,
    device: DiscoveredDevice,
)
    requires
        position_of(before, serial@) is None,
        spec_found(before, after_found, serial, device),
        spec_lost(after_found, after_lost, serial@),
    ensures
        after_lost == before,
{
    let n = before.len() as int;
    assert(after_found[n] == after_found.last());
    lemma_position_some(after_found, n, serial@);
    lemma_position_at(after_found, serial@);
    let p = position_of(after_found, serial@).unwrap();
    if p < n {
        assert(after_found.drop_last()[p] == after_found[p]);
        lemma_position_some(before, p, serial@);
    }
    assert(after_lost =~= after_found.drop_last());
}

impl DeviceRegistry {
    /// No serial number occurs twice, and no device lists a connection name twice
    pub open spec fn well_formed(&self) -> bool {
        &&& forall|i: int, j: int|
            0 <= i < j < self.devices@.len() ==> self.devices@[i].0@ != self.devices@[j].0@
        &&& forall|i: int|
            0 <= i < self.devices@.len() ==> unique_names(
                #[trigger] self.devices@[i].1.hardware_connections@,
            )
    }

    /// An empty registry
    pub fn new() -> (res: Self)
        ensures
            res.well_formed(),
            res.devices@.len() == 0,
    {
        DeviceRegistry { devices: Vec::new() }
    }

    /// The position of the device with serial number `serial`, if any
    fn find(&self, serial: &String) -> (res: Option<usize>)
        requires
            self.well_formed(),
        ensures
            match res {
                Some(i) => i < self.devices@.len() && self.devices@[i as int].0@ == serial@
                    && position_of(self.devices@, serial@) == Some(i as int),
                None => position_of(self.devices@, serial@) is None,
            },
    {
        let mut i: usize = 0;
        while i < self.devices.len()
            invariant
                self.well_formed(),
                i <= self.devices@.len(),
                forall|j: int| 0 <= j < i ==> self.devices@[j].0@ != serial@,
            decreases self.devices@.len() - i,
        {
            if self.devices[i].0 == *serial {
                proof {
                    let k = choose|k: int|
                        0 <= k < self.devices@.len() && #[trigger] self.devices@[k].0@ == serial@;
                    assert(k == i);
                }
                return Some(i);
            }
            i = i + 1;
        }
        None
    }

    /// Record that the device `device` with serial number `serial` was found. A device not known
    /// yet is added; for a device already known, the connections of `device` are added to
    /// those it has, each replacing any connection of the same name. Returns whether the device
    /// was known.
    pub fn found(&mut self, serial: SerialNumber, device: DiscoveredDevice) -> (known: bool)
        requires
            old(self).well_formed(),
        ensures
            final(self).well_formed(),
            known == position_of(old(self).devices@, serial@) is Some,
            spec_found(old(self).devices@, final(self).devices@, serial, device),
    {
        match self.find(&serial) {
            Some(i) => {
                let ghost before = self.devices@;
                let (known_serial, mut known_device) = self.devices.remove(i);
                let DiscoveredDevice { discovery_method, hardware_details, ssid_spec, hardware_connections: added } = device;
                proof {
                    assert(unique_names(known_device.hardware_connections@));
                }
                extend_connections(&mut known_device.hardware_connections, added);
                self.devices.insert(i, (known_serial, known_device));
                proof {
                    assert forall|j: int|
                        0 <= j < before.len() && j != i implies self.devices@[j] == before[j] by {
                        if j < i {
                        } else {
                        }
                    }
                }
                true
            },
            None => {
                let DiscoveredDevice { discovery_method, hardware_details, ssid_spec, hardware_connections: added } = device;
                let mut hardware_connections: Vec<(String, HardwareConnection)> = Vec::new();
                proof {
                    assert(connection_map(hardware_connections@) =~= Map::empty());
                }
                extend_connections(&mut hardware_connections, added);
                proof {
                    assert(Map::<Seq<char>, HardwareConnection>::empty().union_prefer_right(
                        connection_map(added@),
                    ) =~= connection_map(added@));
                }
                let ghost before = self.devices@;
                self.devices.push(
                    (serial, DiscoveredDevice { discovery_method, hardware_details, ssid_spec, hardware_connections }),
                );
                proof {
                    assert(self.devices@.drop_last() =~= before);
                }
                false
            },
        }
    }

    /// Forget the device with serial number `serial`. Returns whether it was known.
    pub fn lost(&mut self, serial: &SerialNumber) -> (known: bool)
        requires
            old(self).well_formed(),
        ensures
            final(self).well_formed(),
            known == position_of(old(self).devices@, serial@) is Some,
            spec_lost(old(self).devices@, final(self).devices@, serial@),
    {
        match self.find(serial) {
            Some(i) => {
                self.devices.remove(i);
                true
            },
            None => false,
        }
    }
}

/// A message shown to the user in the information row
pub enum InfoMessage {
    /// Some information
    Info(String),
    /// An error: a summary and its details
    Error(String, String),
}

/// The messages the application state responds to
pub enum Message {
    /// A config was loaded from the file named
    ConfigLoaded(String),
    /// The config was saved to file
    ConfigSaved,
    /// The user changed the config
    ConfigChangesMade,
    /// The user asked to save the config
    Save,
    /// The user asked to load a config
    Load,
    /// The user asked to close the window
    WindowCloseRequested,
    /// The user asked to connect to some hardware
    ConnectRequest(HardwareConnection),
    /// The hardware is connected
    Connected,
    /// The hardware was disconnected
    Disconnected,
    /// Connecting to the hardware failed
    ConnectionError(String),
    /// A menu bar button was clicked
    MenuBarButtonClicked,
    /// A device was discovered or lost
    Discovery(DiscoveryEvent),
}

/// What the GUI must do, besides showing any information message, after a message
pub enum Effect {
    /// Nothing more
    NoEffect,
    /// Close the window, exiting the application
    CloseWindow,
    /// Let the user pick a config file and load it
    PickAndLoad,
    /// Warn the user that loading a config loses the unsaved changes
    WarnUnsavedBeforeLoad,
    /// Let the user pick a file and save the config to it
    SaveConfig,
    /// Show the config just loaded in the hardware view
    ShowNewConfig,
    /// Connect the hardware view to this hardware
    NewConnection(HardwareConnection),
    /// Reset the hardware view to show no hardware
    ResetHardwareView,
}

/// The state of the application, apart from its widgets
pub struct Piggui {
    pub config_filename: Option<String>,
    pub unsaved_changes: bool,
    pub modal_handler: DisplayModal,
    pub connect_dialog: ConnectDialog,
    pub discovered_devices: DeviceRegistry,
}

/// The outcome of a message: an effect, and possibly a message for the information row
pub struct Outcome {
    pub effect: Effect,
    pub info: Option<InfoMessage>,
}

/// The information message `info` is the information `text`
pub open spec fn is_info(info: Option<InfoMessage>, text: Seq<char>) -> bool {
    info matches Some(InfoMessage::Info(t)) && t@ == text
}

/// The information message `info` is the error `summary`, with `details`
pub open spec fn is_error(info: Option<InfoMessage>, summary: Seq<char>, details: Seq<char>) -> bool {
    info matches Some(InfoMessage::Error(s, d)) && s@ == summary && d@ == details
}

/// The devices known become `after` from `before`, and the information shown is `info`, on the
/// discovery event `event`: a device found is recorded, shown as found via its method; a device
/// lost is forgotten, shown as lost where it was known; an error is shown; other events change
/// and show nothing
pub open spec fn spec_discovery_event(
    before: Seq<(SerialNumber, DiscoveredDevice)>,
    after: Seq<(SerialNumber, DiscoveredDevice)>,
    event: DiscoveryEvent,
    info: Option<InfoMessage>,
) -> bool {
    match event {
        DiscoveryEvent::DeviceFound(serial, device) => {
            &&& spec_found(before, after, serial, device)
            &&& position_of(after, serial@) is Some
            &&& is_info(info, "Device Found via "@ + spec_method_name(device.discovery_method))
        },
        DiscoveryEvent::DeviceLost(key, _) => {
            &&& spec_lost(before, after, key@)
            &&& position_of(after, key@) is None
            &&& (if position_of(before, key@) is Some {
                is_info(info, "Device Lost"@)
            } else {
                info is None
            })
        },
        DiscoveryEvent::Error(e) => after == before && is_error(info, "Connection Error"@, e@),
        _ => after == before && info is None,
    }
}

/// `a` and `b` edit the same config file, with the same unsaved changes
pub open spec fn same_files(a: Piggui, b: Piggui) -> bool {
    a.config_filename == b.config_filename && a.unsaved_changes == b.unsaved_changes
}

/// `a` and `b` have the same dialogs and know the same devices
pub open spec fn same_dialogs_and_devices(a: Piggui, b: Piggui) -> bool {
    &&& a.modal_handler == b.modal_handler
    &&& a.connect_dialog == b.connect_dialog
    &&& a.discovered_devices == b.discovered_devices
}

/// `a` and `b` hold the same text entered and the same error
pub open spec fn same_entries(a: ConnectDialog, b: ConnectDialog) -> bool {
    &&& a.node_id == b.node_id
    &&& a.relay_url == b.relay_url
    &&& a.iroh_connection_error == b.iroh_connection_error
}

impl Piggui {
    /// The state at start up: editing the config file named on the command line, if any, with
    /// no unsaved changes and the dialogs hidden; the only device known is the local hardware,
    /// with the details `local_hardware`, reachable over the connection "Local"
    pub fn new(config_filename: Option<String>, local_hardware: HardwareDetails) -> (res: Self)
        ensures
            res.config_filename == config_filename,
            !res.unsaved_changes,
            !res.modal_handler.show_modal,
            !res.connect_dialog.show_modal,
            res.discovered_devices.well_formed(),
            res.discovered_devices.devices@.len() == 1,
            ({
                let (serial, device) = res.discovered_devices.devices@[0];
                &&& serial@ == local_hardware.serial@
                &&& device.discovery_method == DiscoveryMethod::Local
                &&& device.hardware_details == local_hardware
                &&& device.ssid_spec is None
                &&& device.hardware_connections@.len() == 1
                &&& device.hardware_connections@[0].0@ == "Local"@
                &&& device.hardware_connections@[0].1 is Local
            }),
    {
        let serial = local_hardware.serial.clone();
        let mut hardware_connections: Vec<(String, HardwareConnection)> = Vec::new();
        hardware_connections.push((String::from_str("Local"), HardwareConnection::Local));
        let local = DiscoveredDevice {
            discovery_method: DiscoveryMethod::Local,
            hardware_details: local_hardware,
            ssid_spec: None,
            hardware_connections,
        };
        let mut devices: Vec<(SerialNumber, DiscoveredDevice)> = Vec::new();
        devices.push((serial, local));
        Piggui {
            config_filename,
            unsaved_changes: false,
            modal_handler: DisplayModal::new(),
            connect_dialog: ConnectDialog::new(),
            discovered_devices: DeviceRegistry { devices },
        }
    }

    /// The title of the window: the name of the config file, or "piggui"
    pub fn title(&self) -> (res: String)
        ensures
            match self.config_filename {
                Some(name) => res@ == name@,
                None => res@ == "piggui"@,
            },
    {
        match &self.config_filename {
            Some(name) => name.clone(),
            None => String::from_str("piggui"),
        }
    }

    /// Handle `message`
    pub fn update(&mut self, message: Message) -> (outcome: Outcome)
        requires
            old(self).discovered_devices.well_formed(),
        ensures
            final(self).discovered_devices.well_formed(),
            match message {
                Message::WindowCloseRequested => if old(self).unsaved_changes {
                    &&& same_files(*final(self), *old(self))
                    &&& final(self).connect_dialog == old(self).connect_dialog
                    &&& final(self).discovered_devices == old(self).discovered_devices
                    &&& final(self).modal_handler.show_modal
                    &&& final(self).modal_handler.is_warning
                    &&& final(self).modal_handler.title@ == "Unsaved Changes"@
                    &&& final(self).modal_handler.body@
                        == "You have unsaved changes. Do you want to exit without saving?"@
                    &&& outcome.effect is NoEffect
                    &&& outcome.info is None
                } else {
                    *final(self) == *old(self) && outcome.effect is CloseWindow && outcome.info is None
                },
                Message::Save => {
                    &&& *final(self) == *old(self)
                    &&& outcome.effect is SaveConfig
                    &&& outcome.info is None
                },
                Message::Load => {
                    &&& *final(self) == *old(self)
                    &&& (if old(self).unsaved_changes {
                        outcome.effect is WarnUnsavedBeforeLoad
                    } else {
                        outcome.effect is PickAndLoad
                    })
                    &&& outcome.info is None
                },
                Message::ConfigSaved => {
                    &&& !final(self).unsaved_changes
                    &&& final(self).config_filename == old(self).config_filename
                    &&& same_dialogs_and_devices(*final(self), *old(self))
                    &&& outcome.effect is NoEffect
                    &&& is_info(outcome.info, "File saved successfully"@)
                },
                Message::ConfigChangesMade => {
                    &&& final(self).unsaved_changes
                    &&& final(self).config_filename == old(self).config_filename
                    &&& same_dialogs_and_devices(*final(self), *old(self))
                    &&& outcome.effect is NoEffect
                    &&& outcome.info is None
                },
                Message::ConfigLoaded(filename) => {
                    &&& final(self).config_filename == Some(filename)
                    &&& !final(self).unsaved_changes
                    &&& same_dialogs_and_devices(*final(self), *old(self))
                    &&& outcome.effect is ShowNewConfig
                    &&& outcome.info is None
                },
                Message::ConnectRequest(connection) => {
                    &&& final(self).connect_dialog.show_spinner
                    &&& same_entries(final(self).connect_dialog, old(self).connect_dialog)
                    &&& final(self).connect_dialog.show_modal == old(self).connect_dialog.show_modal
                    &&& same_files(*final(self), *old(self))
                    &&& final(self).modal_handler == old(self).modal_handler
                    &&& final(self).discovered_devices == old(self).discovered_devices
                    &&& outcome.effect == Effect::NewConnection(connection)
                    &&& outcome.info is None
                },
                Message::Connected => {
                    &&& is_hidden_and_cleared(final(self).connect_dialog)
                    &&& !final(self).modal_handler.show_modal
                    &&& final(self).modal_handler.title == old(self).modal_handler.title
                    &&& final(self).modal_handler.body == old(self).modal_handler.body
                    &&& final(self).modal_handler.is_warning == old(self).modal_handler.is_warning
                    &&& same_files(*final(self), *old(self))
                    &&& final(self).discovered_devices == old(self).discovered_devices
                    &&& outcome.effect is NoEffect
                    &&& is_info(outcome.info, "Connected"@)
                },
                Message::Disconnected => {
                    &&& !final(self).connect_dialog.show_spinner
                    &&& same_entries(final(self).connect_dialog, old(self).connect_dialog)
                    &&& final(self).connect_dialog.show_modal == old(self).connect_dialog.show_modal
                    &&& final(self).config_filename is None
                    &&& !final(self).unsaved_changes
                    &&& final(self).modal_handler == old(self).modal_handler
                    &&& final(self).discovered_devices == old(self).discovered_devices
                    &&& outcome.effect is ResetHardwareView
                    &&& is_info(outcome.info, "Disconnected from hardware"@)
                },
                Message::ConnectionError(details) => {
                    &&& !final(self).connect_dialog.show_spinner
                    &&& final(self).connect_dialog.iroh_connection_error@ == details@
                    &&& final(self).connect_dialog.node_id == old(self).connect_dialog.node_id
                    &&& final(self).connect_dialog.relay_url == old(self).connect_dialog.relay_url
                    &&& final(self).connect_dialog.show_modal == old(self).connect_dialog.show_modal
                    &&& same_files(*final(self), *old(self))
                    &&& final(self).modal_handler == old(self).modal_handler
                    &&& final(self).discovered_devices == old(self).discovered_devices
                    &&& outcome.effect is NoEffect
                    &&& is_error(outcome.info, "Connection Error"@, details@)
                },
                Message::MenuBarButtonClicked => {
                    &&& *final(self) == *old(self)
                    &&& outcome.effect is NoEffect
                    &&& outcome.info is None
                },
                Message::Discovery(event) => {
                    &&& same_files(*final(self), *old(self))
                    &&& final(self).modal_handler == old(self).modal_handler
                    &&& final(self).connect_dialog == old(self).connect_dialog
                    &&& outcome.effect is NoEffect
                    &&& spec_discovery_event(
                        old(self).discovered_devices.devices@,
                        final(self).discovered_devices.devices@,
                        event,
                        outcome.info,
                    )
                },
            },
    {
        match message {
            Message::WindowCloseRequested => {
                if self.unsaved_changes {
                    let _ = self.modal_handler.update(ModalMessage::UnsavedChangesExitModal, "", "");
                    Outcome { effect: Effect::NoEffect, info: None }
                } else {
                    Outcome { effect: Effect::CloseWindow, info: None }
                }
            },
            Message::Save => Outcome { effect: Effect::SaveConfig, info: None },
            Message::ConfigSaved => {
                self.unsaved_changes = false;
                Outcome {
                    effect: Effect::NoEffect,
                    info: Some(InfoMessage::Info(String::from_str("File saved successfully"))),
                }
            },
            Message::Load => {
                if self.unsaved_changes {
                    Outcome { effect: Effect::WarnUnsavedBeforeLoad, info: None }
                } else {
                    Outcome { effect: Effect::PickAndLoad, info: None }
                }
            },
            Message::ConfigChangesMade => {
                self.unsaved_changes = true;
                Outcome { effect: Effect::NoEffect, info: None }
            },
            Message::ConfigLoaded(filename) => {
                self.config_filename = Some(filename);
                self.unsaved_changes = false;
                Outcome { effect: Effect::ShowNewConfig, info: None }
            },
            Message::ConnectRequest(connection) => {
                self.connect_dialog.disable_widgets_and_load_spinner();
                Outcome { effect: Effect::NewConnection(connection), info: None }
            },
            Message::Connected => {
                self.connect_dialog.enable_widgets_and_hide_spinner();
                self.connect_dialog.hide_modal();
                self.modal_handler.show_modal = false;
                Outcome {
                    effect: Effect::NoEffect,
                    info: Some(InfoMessage::Info(String::from_str("Connected"))),
                }
            },
            Message::Disconnected => {
                self.connect_dialog.enable_widgets_and_hide_spinner();
                self.config_filename = None;
                self.unsaved_changes = false;
                Outcome {
                    effect: Effect::ResetHardwareView,
                    info: Some(InfoMessage::Info(String::from_str("Disconnected from hardware"))),
                }
            },
            Message::ConnectionError(details) => {
                self.connect_dialog.enable_widgets_and_hide_spinner();
                let shown = details.clone();
                self.connect_dialog.set_error(details);
                Outcome {
                    effect: Effect::NoEffect,
                    info: Some(InfoMessage::Error(String::from_str("Connection Error"), shown)),
                }
            },
            Message::MenuBarButtonClicked => Outcome { effect: Effect::NoEffect, info: None },
            Message::Discovery(event) => Outcome {
                effect: Effect::NoEffect,
                info: self.discovery_event(event),
            },
        }
    }

    /// Process a [DiscoveryEvent] related to the discovery or loss of a device, returning the
    /// information to show
    fn discovery_event(&mut self, event: DiscoveryEvent) -> (info: Option<InfoMessage>)
        requires
            old(self).discovered_devices.well_formed(),
        ensures
            final(self).discovered_devices.well_formed(),
            final(self).connect_dialog == old(self).connect_dialog,
            final(self).modal_handler == old(self).modal_handler,
            final(self).config_filename == old(self).config_filename,
            final(self).unsaved_changes == old(self).unsaved_changes,
            spec_discovery_event(
                old(self).discovered_devices.devices@,
                final(self).discovered_devices.devices@,
                event,
                info,
            ),
    {
        match event {
            DiscoveryEvent::DeviceFound(serial, device) => {
                let text = String::from_str("Device Found via ").concat(
                    device.discovery_method.name(),
                );
                let ghost old_devices = self.discovered_devices.devices@;
                let ghost key = serial@;
                let known = self.discovered_devices.found(serial, device);
                proof {
                    let devices = self.discovered_devices.devices@;
                    if known {
                        lemma_position_at(old_devices, key);
                        lemma_position_some(devices, position_of(old_devices, key).unwrap(), key);
                    } else {
                        lemma_position_some(devices, devices.len() - 1, key);
                    }
                }
                Some(InfoMessage::Info(text))
            },
            DiscoveryEvent::DeviceLost(key, _) => {
                let ghost old_devices = self.discovered_devices.devices@;
                let known = self.discovered_devices.lost(&key);
                proof {
                    if known {
                        lemma_removed_absent(old_devices, key@);
                    }
                }
                if known {
                    Some(InfoMessage::Info(String::from_str("Device Lost")))
                } else {
                    None
                }
            },
            DiscoveryEvent::Error(e) => Some(
                InfoMessage::Error(String::from_str("Connection Error"), e),
            ),
            _ => None,
        }
    }
}

/// Why a target "ip:port" could not be parsed
#[derive(Debug, Clone, Copy, PartialEq, Eq, Structural)]
pub enum IpParseError {
    /// There is no ':' between the address and the port
    NoPort,
    /// The part before the first ':' is not an IPv4 address
    BadAddress,
    /// The part after the first ':' is not a port number
    BadPort,
}

/// What parsing `text` as "ip:port" gives: the parts before and after its first ':' must be an
/// IPv4 address and a port number
pub open spec fn spec_parse_ip_string(text: Seq<char>) -> Result<(IpAddress, u16), IpParseError> {
    match spec_split_once(text, ':') {
        None => Err(IpParseError::NoPort),
        Some((ip, port)) => match (spec_parse_ipv4(ip), spec_parse_u16(port)) {
            (None, _) => Err(IpParseError::BadAddress),
            (Some(_), None) => Err(IpParseError::BadPort),
            (Some(a), Some(p)) => Ok((a, p)),
        },
    }
}

/// Parse `ip_str`, "ip:port", as a TCP connection to that address and port
pub fn parse_ip_string(ip_str: &str) -> (res: Result<HardwareConnection, IpParseError>)
    ensures
        match spec_parse_ip_string(ip_str@) {
            Ok((ip, port)) => res matches Ok(HardwareConnection::Tcp(a, p)) && a == ip && p == port,
            Err(e) => res matches Err(f) && f == e,
        },
{
    let (ip_part, port_part) = match split_once(ip_str, ':') {
        Some(parts) => parts,
        None => return Err(IpParseError::NoPort),
    };
    let ip = match IpAddress::parse_v4(ip_part) {
        Some(ip) => ip,
        None => return Err(IpParseError::BadAddress),
    };
    let port = match parse_u16(port_part) {
        Some(port) => port,
        None => return Err(IpParseError::BadPort),
    };
    Ok(HardwareConnection::Tcp(ip, port))
}

/// The hardware to connect to at start up, from the options given on the command line: the
/// serial number of a USB device, else an "ip:port" that parses, else an iroh node id that
/// parses (`nodeid_parses` tells whether the node id given parses), else none
pub fn get_hardware_connection(
    nodeid: Option<String>,
    nodeid_parses: bool,
    ip: Option<&str>,
    usb: Option<&str>,
) -> (res: HardwareConnection)
    ensures
        match usb {
            Some(serial) => res matches HardwareConnection::Usb(s) && s@ == serial@,
            None => match ip {
                Some(text) if spec_parse_ip_string(text@) is Ok => {
                    let (a, p) = spec_parse_ip_string(text@)->Ok_0;
                    res matches HardwareConnection::Tcp(x, y) && x == a && y == p
                },
                _ => match nodeid {
                    Some(n) if nodeid_parses => res matches HardwareConnection::Iroh(m, None)
                        && m@ == n@,
                    _ => res is NoConnection,
                },
            },
        },
{
    let mut target = HardwareConnection::NoConnection;
    if let Some(node) = nodeid {
        if nodeid_parses {
            target = HardwareConnection::Iroh(node, None);
        }
    }
    if let Some(ip_str) = ip {
        if let Ok(tcp_target) = parse_ip_string(ip_str) {
            target = tcp_target;
        }
    }
    if let Some(usb_str) = usb {
        target = HardwareConnection::Usb(String::from_str(usb_str));
    }
    target
}

} // verus!
