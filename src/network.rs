//! Network interface kinds, as told by the interface name.

use vstd::prelude::*;
use crate::text::{chars_of, find_from, head, split_first, starts_with, string_of_chars, tail};

verus! {

/// What was read about a network interface in one sampling pass.
#[derive(Debug)]
pub struct NetworkData {
    pub sysfs_path: String,
    pub hw_address: Option<String>,
    pub is_virtual: bool,
    pub received_bytes: Result<usize, anyhow::Error>,
    pub sent_bytes: Result<usize, anyhow::Error>,
    pub display_name: String,
}

#[derive(Debug, Clone, Copy, Default, PartialEq, Eq, Structural)]
pub enum InterfaceType {
    Bluetooth,
    Bridge,
    Docker,
    Ethernet,
    InfiniBand,
    Slip,
    VirtualEthernet,
    VmBridge,
    Vpn,
    Wireguard,
    Wlan,
    Wwan,
    #[default]
    Unknown,
    AccessPoint,
}

/// The kind of an interface by the first prefix of its name that matches,
/// in this order.
pub open spec fn interface_type_of(name: Seq<char>) -> InterfaceType {
    if "bn"@.is_prefix_of(name) {
        InterfaceType::Bluetooth
    } else if "br"@.is_prefix_of(name) {
        InterfaceType::Bridge
    } else if "docker"@.is_prefix_of(name) {
        InterfaceType::Docker
    } else if "eth"@.is_prefix_of(name) || "en"@.is_prefix_of(name) {
        InterfaceType::Ethernet
    } else if "ib"@.is_prefix_of(name) {
        InterfaceType::InfiniBand
    } else if "sl"@.is_prefix_of(name) {
        InterfaceType::Slip
    } else if "veth"@.is_prefix_of(name) {
        InterfaceType::VirtualEthernet
    } else if "virbr"@.is_prefix_of(name) {
        InterfaceType::VmBridge
    } else if "vpn"@.is_prefix_of(name) {
        InterfaceType::Vpn
    } else if "wg"@.is_prefix_of(name) {
        InterfaceType::Wireguard
    } else if "wl"@.is_prefix_of(name) {
        InterfaceType::Wlan
    } else if "ww"@.is_prefix_of(name) {
        InterfaceType::Wwan
    } else if "ap"@.is_prefix_of(name) {
        InterfaceType::AccessPoint
    } else {
        InterfaceType::Unknown
    }
}

/// The short label of each kind.
pub open spec fn short_type_of(t: InterfaceType) -> Seq<char> {
    match t {
        InterfaceType::Bluetooth => "Bluetooth"@,
        InterfaceType::Bridge => "Network Bridge"@,
        InterfaceType::Ethernet => "Ethernet"@,
        InterfaceType::Docker => "Docker Bridge"@,
        InterfaceType::InfiniBand => "InfiniBand Connection"@,
        InterfaceType::Slip => "Serial Line IP Connection"@,
        InterfaceType::VirtualEthernet => "Virtual Ethernet Device"@,
        InterfaceType::VmBridge => "VM Network Bridge"@,
        InterfaceType::Vpn => "VPN"@,
        InterfaceType::Wireguard => "WireGuard"@,
        InterfaceType::Wlan => "Wi-Fi"@,
        InterfaceType::Wwan => "WWAN"@,
        InterfaceType::Unknown => "Network"@,
        InterfaceType::AccessPoint => "AP"@,
    }
}

/// The long description of each kind.
pub open spec fn type_name_of(t: InterfaceType) -> Seq<char> {
    match t {
        InterfaceType::Bluetooth => "Bluetooth Tether"@,
        InterfaceType::Bridge => "Network Bridge"@,
        InterfaceType::Ethernet => "Ethernet Connection"@,
        InterfaceType::Docker => "Docker Bridge"@,
        InterfaceType::InfiniBand => "InfiniBand Connection"@,
        InterfaceType::Slip => "Serial Line IP Connection"@,
        InterfaceType::VirtualEthernet => "Virtual Ethernet Device"@,
        InterfaceType::VmBridge => "VM Network Bridge"@,
        InterfaceType::Vpn => "VPN Tunnel"@,
        InterfaceType::Wireguard => "VPN Tunnel (WireGuard)"@,
        InterfaceType::Wlan => "Wi-Fi Connection"@,
        InterfaceType::Wwan => "WWAN Connection"@,
        InterfaceType::Unknown => "Network Interface"@,
        InterfaceType::AccessPoint => "Access Point"@,
    }
}

/// Kinds that are not a physical link.
pub open spec fn is_virtual_type(t: InterfaceType) -> bool {
    t == InterfaceType::Bridge || t == InterfaceType::Docker || t == InterfaceType::VirtualEthernet
        || t == InterfaceType::Vpn || t == InterfaceType::VmBridge || t == InterfaceType::Wireguard
}

impl InterfaceType {
    pub fn from_interface_name(interface_name: &str) -> (r: Self)
        ensures
            r == interface_type_of(interface_name@),
    {
        let name = chars_of(interface_name);
        if starts_with(&name, "bn") {
            InterfaceType::Bluetooth
        } else if starts_with(&name, "br") {
            InterfaceType::Bridge
        } else if starts_with(&name, "docker") {
            InterfaceType::Docker
        } else if starts_with(&name, "eth") || starts_with(&name, "en") {
            InterfaceType::Ethernet
        } else if starts_with(&name, "ib") {
            InterfaceType::InfiniBand
        } else if starts_with(&name, "sl") {
            InterfaceType::Slip
        } else if starts_with(&name, "veth") {
            InterfaceType::VirtualEthernet
        } else if starts_with(&name, "virbr") {
            InterfaceType::VmBridge
        } else if starts_with(&name, "vpn") {
            InterfaceType::Vpn
        } else if starts_with(&name, "wg") {
            InterfaceType::Wireguard
        } else if starts_with(&name, "wl") {
            InterfaceType::Wlan
        } else if starts_with(&name, "ww") {
            InterfaceType::Wwan
        } else if starts_with(&name, "ap") {
            InterfaceType::AccessPoint
        } else {
            InterfaceType::Unknown
        }
    }

    pub fn short_type(&self) -> (r: &'static str)
        ensures
            r@ == short_type_of(*self),
    {
        match *self {
            InterfaceType::Bluetooth => "Bluetooth",
            InterfaceType::Bridge => "Network Bridge",
            InterfaceType::Ethernet => "Ethernet",
            InterfaceType::Docker => "Docker Bridge",
            InterfaceType::InfiniBand => "InfiniBand Connection",
            InterfaceType::Slip => "Serial Line IP Connection",
            InterfaceType::VirtualEthernet => "Virtual Ethernet Device",
            InterfaceType::VmBridge => "VM Network Bridge",
            InterfaceType::Vpn => "VPN",
            InterfaceType::Wireguard => "WireGuard",
            InterfaceType::Wlan => "Wi-Fi",
            InterfaceType::Wwan => "WWAN",
            InterfaceType::Unknown => "Network",
            InterfaceType::AccessPoint => "AP",
        }
    }

    /// The long description of the kind.
    pub fn name(&self) -> (r: &'static str)
        ensures
            r@ == type_name_of(*self),
    {
        match *self {
            InterfaceType::Bluetooth => "Bluetooth Tether",
            InterfaceType::Bridge => "Network Bridge",
            InterfaceType::Ethernet => "Ethernet Connection",
            InterfaceType::Docker => "Docker Bridge",
            InterfaceType::InfiniBand => "InfiniBand Connection",
            InterfaceType::Slip => "Serial Line IP Connection",
            InterfaceType::VirtualEthernet => "Virtual Ethernet Device",
            InterfaceType::VmBridge => "VM Network Bridge",
            InterfaceType::Vpn => "VPN Tunnel",
            InterfaceType::Wireguard => "VPN Tunnel (WireGuard)",
            InterfaceType::Wlan => "Wi-Fi Connection",
            InterfaceType::Wwan => "WWAN Connection",
            InterfaceType::Unknown => "Network Interface",
            InterfaceType::AccessPoint => "Access Point",
        }
    }

    /// Whether an interface of this kind is virtual (a bridge, a tunnel, a
    /// container or VM link).
    pub fn is_virtual(&self) -> (r: bool)
        ensures
            r == is_virtual_type(*self),
    {
        match *self {
            InterfaceType::Bridge | InterfaceType::Docker | InterfaceType::VirtualEthernet
            | InterfaceType::Vpn | InterfaceType::VmBridge | InterfaceType::Wireguard => true,
            _ => false,
        }
    }
}

/// The name shown for an interface: its device label, else its PCI product
/// name, else the interface name.
pub fn display_name(device_name: &Option<String>, pid_name: &Option<String>, interface_name: &str) -> (r: String)
    ensures
        r@ == match device_name {
            Some(d) => d@,
            None => match pid_name {
                Some(p) => p@,
                None => interface_name@,
            },
        },
{
    match device_name {
        Some(d) => d.clone(),
        None => match pid_name {
            Some(p) => p.clone(),
            None => interface_name.to_owned(),
        },
    }
}

/// The `KEY=VALUE` entry a uevent line holds: only a line with exactly one
/// `=` is one.
pub open spec fn uevent_entry(line: Seq<char>) -> Option<(Seq<char>, Seq<char>)> {
    match tail(line, "="@) {
        Some(v) => if find_from(v, "="@, 0) is None {
            Some((head(line, "="@), v))
        } else {
            None
        },
        None => None,
    }
}

/// The entries of a uevent file's lines, in order; other lines are skipped.
pub fn read_uevent(lines: &Vec<String>) -> (r: Vec<(String, String)>)
    ensures
        r@.map_values(|e: (String, String)| (e.0@, e.1@)) == lines@.map_values(|l: String| l@).filter(
            |l: Seq<char>| uevent_entry(l) is Some,
        ).map_values(|l: Seq<char>| uevent_entry(l)->0),
{
    let ghost ls = lines@.map_values(|l: String| l@);
    let mut out: Vec<(String, String)> = Vec::new();
    let mut i: usize = 0;
    while i < lines.len()
        invariant
            i <= lines.len(),
            ls == lines@.map_values(|l: String| l@),
            out@.map_values(|e: (String, String)| (e.0@, e.1@)) == ls.take(i as int).filter(
                |l: Seq<char>| uevent_entry(l) is Some,
            ).map_values(|l: Seq<char>| uevent_entry(l)->0),
        decreases lines.len() - i,
    {
        proof {
            reveal_strlit("=");
            reveal(Seq::filter);
            assert(ls.take(i + 1).drop_last() =~= ls.take(i as int));
        }
        let c = chars_of(lines[i].as_str());
        assert(c@ == ls[i as int]);
        let (k, v) = split_first(&c, "=");
        let ghost before = out@.map_values(|e: (String, String)| (e.0@, e.1@));
        match v {
            Some(v) => {
                let (_w, more) = split_first(&v, "=");
                if more.is_none() {
                    out.push((string_of_chars(&k), string_of_chars(&v)));
                    assert(out@.map_values(|e: (String, String)| (e.0@, e.1@)) =~= before.push((k@, v@)));
                }
            },
            None => {},
        }
        i = i + 1;
    }
    assert(ls.take(i as int) =~= ls);
    out
}

} // verus!
