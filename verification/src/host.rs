//! The ways a GUI can connect to GPIO hardware.

use vstd::prelude::*;

use crate::hw_definition::description::SerialNumber;
use crate::text::{parse_octet, spec_parse_octet, spec_split_once, split_once};

verus! {

/// An IP address, version 4 or version 6
#[derive(Debug, Clone, Copy, PartialEq, Eq, Structural)]
pub enum IpAddress {
    V4(u8, u8, u8, u8),
    V6(u16, u16, u16, u16, u16, u16, u16, u16),
}

/// A connection to some hardware, local or remote
pub enum HardwareConnection {
    /// Not connected to any hardware
    NoConnection,
    /// The GPIO hardware of the machine the GUI runs on
    Local,
    /// A Pi Pico attached over USB, identified by its serial number
    Usb(SerialNumber),
    /// A device reached over iroh-net: its node id, and optionally the URL of the relay to use
    Iroh(String, Option<String>),
    /// A device reached over TCP at an IP address and port
    Tcp(IpAddress, u16),
}

/// Is `connection` a connection to some hardware?
pub open spec fn is_hardware(connection: HardwareConnection) -> bool {
    !(connection is NoConnection)
}

impl HardwareConnection {
    /// A copy of this connection
    pub fn duplicate(&self) -> (res: Self)
        ensures
            same_connection(res, *self),
    {
        match self {
            HardwareConnection::NoConnection => HardwareConnection::NoConnection,
            HardwareConnection::Local => HardwareConnection::Local,
            HardwareConnection::Usb(serial) => HardwareConnection::Usb(serial.clone()),
            HardwareConnection::Iroh(node_id, relay) => {
                let relay_copy = match relay {
                    Some(r) => Some(r.clone()),
                    None => None,
                };
                HardwareConnection::Iroh(node_id.clone(), relay_copy)
            },
            HardwareConnection::Tcp(ip, port) => HardwareConnection::Tcp(*ip, *port),
        }
    }

    /// The name of the kind of connection, as shown to the user
    pub fn kind_name(&self) -> (res: &'static str)
        ensures
            res@ == spec_kind_name(*self),
    {
        match self {
            HardwareConnection::NoConnection => "No",
            HardwareConnection::Local => "Local",
            HardwareConnection::Usb(_) => "USB",
            HardwareConnection::Iroh(_, _) => "Iroh",
            HardwareConnection::Tcp(_, _) => "TCP",
        }
    }
}

/// The name of the kind of a connection
pub open spec fn spec_kind_name(connection: HardwareConnection) -> Seq<char> {
    match connection {
        HardwareConnection::NoConnection => "No"@,
        HardwareConnection::Local => "Local"@,
        HardwareConnection::Usb(_) => "USB"@,
        HardwareConnection::Iroh(_, _) => "Iroh"@,
        HardwareConnection::Tcp(_, _) => "TCP"@,
    }
}

/// `a` and `b` designate the same hardware in the same way
pub open spec fn same_connection(a: HardwareConnection, b: HardwareConnection) -> bool {
    match (a, b) {
        (HardwareConnection::NoConnection, HardwareConnection::NoConnection) => true,
        (HardwareConnection::Local, HardwareConnection::Local) => true,
        (HardwareConnection::Usb(s1), HardwareConnection::Usb(s2)) => s1@ == s2@,
        (HardwareConnection::Iroh(n1, r1), HardwareConnection::Iroh(n2, r2)) => {
            &&& n1@ == n2@
            &&& r1 is Some == r2 is Some
            &&& r1 is Some ==> r1.unwrap()@ == r2.unwrap()@
        },
        (HardwareConnection::Tcp(ip1, p1), HardwareConnection::Tcp(ip2, p2)) => ip1 == ip2 && p1
            == p2,
        _ => false,
    }
}

/// What parsing `text` as an IPv4 address in dotted notation gives: four octets separated by '.'
pub open spec fn spec_parse_ipv4(text: Seq<char>) -> Option<IpAddress> {
    match spec_split_once(text, '.') {
        Some((g1, r1)) => match spec_split_once(r1, '.') {
            Some((g2, r2)) => match spec_split_once(r2, '.') {
                Some((g3, g4)) => match (
                    spec_parse_octet(g1),
                    spec_parse_octet(g2),
                    spec_parse_octet(g3),
                    spec_parse_octet(g4),
                ) {
                    (Some(a), Some(b), Some(c), Some(d)) => Some(IpAddress::V4(a, b, c, d)),
                    _ => None,
                },
                None => None,
            },
            None => None,
        },
        None => None,
    }
}

impl IpAddress {
    /// Parse `text` as an IPv4 address in dotted notation, such as "10.0.0.1"
    pub fn parse_v4(text: &str) -> (res: Option<IpAddress>)
        ensures
            res == spec_parse_ipv4(text@),
    {
        let (g1, r1) = split_once(text, '.')?;
        let (g2, r2) = split_once(r1, '.')?;
        let (g3, g4) = split_once(r2, '.')?;
        let a = parse_octet(g1)?;
        let b = parse_octet(g2)?;
        let c = parse_octet(g3)?;
        let d = parse_octet(g4)?;
        Some(IpAddress::V4(a, b, c, d))
    }
}

} // verus!
