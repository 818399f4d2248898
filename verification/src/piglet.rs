//! The decisions of `piglet`, the program that makes the GPIO hardware of a Pi available to a
//! remote GUI: whether another instance is already running, and what it announces over mDNS.

use vstd::prelude::*;

use crate::hw_definition::description::HardwareDetails;

verus! {

/// A process that runs the same program: its process id, and whether it is a thread of another
/// process rather than a process of its own
pub struct Instance {
    pub pid: u32,
    pub is_thread: bool,
}

/// `instance` is another instance of the program than the process `my_pid`
pub open spec fn is_other_instance(instance: Instance, my_pid: u32) -> bool {
    !instance.is_thread && instance.pid != my_pid
}

/// The first of `instances` (the processes running the same program) that is another instance
/// than the process `my_pid`: a process of its own, with another process id
pub fn other_instance(instances: &Vec<Instance>, my_pid: u32) -> (res: Option<u32>)
    ensures
        match res {
            Some(pid) => exists|i: int|
                0 <= i < instances@.len() && is_other_instance(#[trigger] instances@[i], my_pid)
                    && instances@[i].pid == pid && forall|j: int|
                    0 <= j < i ==> !is_other_instance(#[trigger] instances@[j], my_pid),
            None => forall|i: int|
                0 <= i < instances@.len() ==> !is_other_instance(#[trigger] instances@[i], my_pid),
        },
{
    let mut i: usize = 0;
    while i < instances.len()
        invariant
            i <= instances@.len(),
            forall|j: int| 0 <= j < i ==> !is_other_instance(#[trigger] instances@[j], my_pid),
        decreases instances@.len() - i,
    {
        if !instances[i].is_thread && instances[i].pid != my_pid {
            return Some(instances[i].pid);
        }
        i = i + 1;
    }
    None
}

/// The TXT properties announced over mDNS for a device with the details `details`, running
/// `app_name` version `app_version`, and reachable over iroh-net at `iroh` (a node id and a relay
/// URL) where it is given: "Serial", "Model", "AppName", "AppVersion", then "IrohNodeID" and
/// "IrohRelayURL"
pub open spec fn spec_mdns_properties(
    details: HardwareDetails,
    app_name: Seq<char>,
    app_version: Seq<char>,
    iroh: Option<(Seq<char>, Seq<char>)>,
) -> Seq<(Seq<char>, Seq<char>)> {
    let properties = seq![
        ("Serial"@, details.serial@),
        ("Model"@, details.model@),
        ("AppName"@, app_name),
        ("AppVersion"@, app_version),
    ];
    match iroh {
        Some((node_id, relay_url)) => properties + seq![
            ("IrohNodeID"@, node_id),
            ("IrohRelayURL"@, relay_url),
        ],
        None => properties,
    }
}

/// A device announces its serial number and model, and the application name and version it is
/// given, whatever its details say of the application, then its iroh-net node id and relay URL
/// where it has them
pub proof fn law_announced_properties(
    details: HardwareDetails,
    app_name: Seq<char>,
    app_version: Seq<char>,
    iroh: Option<(Seq<char>, Seq<char>)>,
)
    ensures
        ({
            let properties = spec_mdns_properties(details, app_name, app_version, iroh);
            &&& properties.len() == (if iroh is Some { 6int } else { 4int })
            &&& properties[0] == ("Serial"@, details.serial@)
            &&& properties[1] == ("Model"@, details.model@)
            &&& properties[2] == ("AppName"@, app_name)
            &&& properties[3] == ("AppVersion"@, app_version)
            &&& iroh matches Some((node_id, relay_url)) ==> {
                &&& properties[4] == ("IrohNodeID"@, node_id)
                &&& properties[5] == ("IrohRelayURL"@, relay_url)
            }
        }),
{
}

/// The views of an optional node id and relay URL
pub open spec fn iroh_views(iroh: Option<(String, String)>) -> Option<(Seq<char>, Seq<char>)> {
    match iroh {
        Some((n, r)) => Some((n@, r@)),
        None => None,
    }
}

/// The views of a list of TXT properties
pub open spec fn property_views(properties: Seq<(&'static str, String)>) -> Seq<
    (Seq<char>, Seq<char>),
> {
    properties.map_values(|p: (&'static str, String)| (p.0@, p.1@))
}

/// The TXT properties to announce over mDNS for a device with the details `details`, running
/// `app_name` version `app_version`, reachable over iroh-net at `iroh` where it is given
pub fn mdns_properties(
    details: &HardwareDetails,
    app_name: &str,
    app_version: &str,
    iroh: Option<(String, String)>,
) -> (res: Vec<(&'static str, String)>)
    ensures
        property_views(res@) == spec_mdns_properties(
            *details,
            app_name@,
            app_version@,
            iroh_views(iroh),
        ),
        res@.len() == (if iroh is Some { 6int } else { 4int }),
        res@[0].0@ == "Serial"@ && res@[0].1@ == details.serial@,
        res@[1].0@ == "Model"@ && res@[1].1@ == details.model@,
        res@[2].0@ == "AppName"@ && res@[2].1@ == app_name@,
        res@[3].0@ == "AppVersion"@ && res@[3].1@ == app_version@,
        iroh matches Some((node_id, relay_url)) ==> {
            &&& res@[4].0@ == "IrohNodeID"@ && res@[4].1@ == node_id@
            &&& res@[5].0@ == "IrohRelayURL"@ && res@[5].1@ == relay_url@
        },
{
    let ghost iroh_text = iroh_views(iroh);
    let mut res: Vec<(&'static str, String)> = Vec::new();
    res.push(("Serial", details.serial.clone()));
    res.push(("Model", details.model.clone()));
    res.push(("AppName", String::from_str(app_name)));
    res.push(("AppVersion", String::from_str(app_version)));
    match iroh {
        Some((node_id, relay_url)) => {
            res.push(("IrohNodeID", node_id));
            res.push(("IrohRelayURL", relay_url));
        },
        None => {},
    }
    proof {
        assert(property_views(res@) =~= spec_mdns_properties(
            *details,
            app_name@,
            app_version@,
            iroh_text,
        ));
    }
    res
}

} // verus!
