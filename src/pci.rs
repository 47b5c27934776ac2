//! PCI vendors, devices and subdevices, as listed in the system's PCI ID
//! database, and a cache of the devices looked up so far.

use vstd::prelude::*;
use std::collections::BTreeMap;
use std::collections::btree_map::Values;
use vstd::std_specs::iter::IteratorSpec;
use crate::text::{chars_of, head, hex_u16, parse_hex_u16, split_first, starts_with, string_of_chars, tail, trim_start, trim_start_chars};

verus! {

#[derive(Clone, Debug, PartialEq, Eq)]
pub struct Subdevice {
    id: u16,
    vendor_id: u16,
    name: String,
}

#[derive(Clone, Debug, PartialEq, Eq)]
pub struct Device {
    id: u16,
    name: String,
    vendor_id: u16,
    pub vendor_name: String,
    sub_devices: Vec<Subdevice>,
}

#[derive(Clone, Debug, PartialEq, Eq)]
pub struct Vendor {
    id: u16,
    name: String,
    devices: BTreeMap<u16, Device>,
}

impl Subdevice {
    pub closed spec fn spec_id(&self) -> u16 {
        self.id
    }

    pub closed spec fn spec_vendor_id(&self) -> u16 {
        self.vendor_id
    }

    pub closed spec fn spec_name(&self) -> Seq<char> {
        self.name@
    }
}

impl Device {
    pub closed spec fn spec_pid(&self) -> u16 {
        self.id
    }

    pub closed spec fn spec_vid(&self) -> u16 {
        self.vendor_id
    }

    pub closed spec fn spec_name(&self) -> Seq<char> {
        self.name@
    }

    pub closed spec fn spec_subdevices(&self) -> Seq<Subdevice> {
        self.sub_devices@
    }

    /// The subdevices, in the order the database lists them.
    pub fn subdevices(&self) -> (r: &[Subdevice])
        ensures
            r@ == self.spec_subdevices(),
    {
        self.sub_devices.as_slice()
    }

    pub fn name(&self) -> (r: &str)
        ensures
            r@ == self.spec_name(),
    {
        self.name.as_str()
    }

    pub fn pid(&self) -> (r: u16)
        ensures
            r == self.spec_pid(),
    {
        self.id
    }

    /// The vendor's id.
    pub fn vid(&self) -> (r: u16)
        ensures
            r == self.spec_vid(),
    {
        self.vendor_id
    }
}

/// A device as the database describes it: product id, name, vendor name,
/// and subdevices as (subvendor id, subdevice id, name).
pub type DeviceModel = (u16, Seq<char>, Seq<char>, Seq<(u16, u16, Seq<char>)>);

/// Where a scan of the database stands: the sought vendor's name once its
/// line was seen, the sought device once found, and whether its subdevices
/// were reached.
pub type PciScan = (Option<Seq<char>>, Option<DeviceModel>, bool);

impl Device {
    pub closed spec fn model(&self) -> DeviceModel {
        (
            self.id,
            self.name@,
            self.vendor_name@,
            self.sub_devices@.map_values(|d: Subdevice| (d.vendor_id, d.id, d.name@)),
        )
    }
}

/// Why the database gave no device.
#[derive(Debug, Clone, Copy, PartialEq, Eq, Structural)]
pub enum PciIdsError {
    /// A line of the sought vendor, device or subdevices lacks a field or
    /// has a bad id.
    Malformed,
    /// The database does not list the device.
    NotFound,
}

/// One line of the database: `None` when it is malformed, else whether the
/// scan stops there and the new state. Vendors start a line, devices one
/// tab in, subdevices two; `#` starts a comment; the classes that start
/// with `C` end the list.
pub open spec fn scan_line(line: Seq<char>, vid: u16, pid: u16, st: PciScan) -> Option<(bool, PciScan)> {
    if line.len() > 0 && line[0] == 'C' {
        Some((true, st))
    } else if line.len() == 0 || line[0] == '#' {
        Some((false, st))
    } else if "\t\t"@.is_prefix_of(line) {
        match st.1 {
            Some(dev) => {
                let t = trim_start(line);
                match (hex_u16(head(t, " "@)), tail(t, " "@)) {
                    (Some(sub_vid), Some(r1)) => match (hex_u16(head(r1, " "@)), tail(r1, " "@)) {
                        (Some(sub_pid), Some(r2)) => {
                            let name = match tail(r2, " "@) {
                                Some(r3) => r3,
                                None => r2,
                            };
                            Some((false, (st.0, Some((dev.0, dev.1, dev.2, dev.3.push((sub_vid, sub_pid, name)))), true)))
                        },
                        _ => None,
                    },
                    _ => None,
                }
            },
            None => Some((false, st)),
        }
    } else if line[0] == '\t' {
        match st.0 {
            Some(vendor_name) => if st.2 {
                Some((true, st))
            } else {
                let t = trim_start(line);
                match hex_u16(head(t, "  "@)) {
                    Some(p) => if p == pid {
                        match tail(t, "  "@) {
                            Some(r) => Some((false, (st.0, Some((p, head(r, "  "@), vendor_name, Seq::empty())), st.2))),
                            None => None,
                        }
                    } else {
                        Some((false, st))
                    },
                    None => None,
                }
            },
            None => Some((false, st)),
        }
    } else if st.2 {
        Some((true, st))
    } else {
        match hex_u16(head(line, "  "@)) {
            Some(v) => if v == vid {
                match tail(line, "  "@) {
                    Some(r) => Some((false, (Some(head(r, "  "@)), st.1, st.2))),
                    None => None,
                }
            } else {
                Some((false, st))
            },
            None => None,
        }
    }
}

/// Scanning lines `i` onwards from state `st`: `None` for a malformed
/// line, else the device found, if any.
pub open spec fn scan(lines: Seq<Seq<char>>, vid: u16, pid: u16, i: nat, st: PciScan) -> Option<Option<DeviceModel>>
    decreases lines.len() - i,
{
    if i >= lines.len() {
        Some(st.1)
    } else {
        match scan_line(lines[i as int], vid, pid, st) {
            None => None,
            Some((true, s)) => Some(s.1),
            Some((false, s)) => scan(lines, vid, pid, i + 1, s),
        }
    }
}

struct ScanState {
    vendor_name: Option<String>,
    device: Option<Device>,
    breakp: bool,
}

impl ScanState {
    closed spec fn model(&self) -> PciScan {
        (
            match self.vendor_name {
                Some(n) => Some(n@),
                None => None,
            },
            match self.device {
                Some(d) => Some(d.model()),
                None => None,
            },
            self.breakp,
        )
    }
}

fn scan_one(line: &String, vid: u16, pid: u16, st: &mut ScanState) -> (r: Option<bool>)
    requires
        old(st).device matches Some(d) ==> d.vendor_id == vid,
    ensures
        final(st).device matches Some(d) ==> d.vendor_id == vid,
        match scan_line(line@, vid, pid, old(st).model()) {
            None => r is None,
            Some((stop, s)) => r == Some(stop) && final(st).model() == s,
        },
{
    proof {
        reveal_strlit(" ");
        reveal_strlit("  ");
    }
    let l = chars_of(line.as_str());
    if l.len() > 0 && l[0] == 'C' {
        return Some(true);
    }
    if l.len() == 0 || l[0] == '#' {
        return Some(false);
    }
    if starts_with(&l, "\t\t") {
        if st.device.is_none() {
            return Some(false);
        }
        let t = trim_start_chars(&l);
        let (a, r1) = split_first(&t, " ");
        let sub_vid = match parse_hex_u16(&a) {
            Some(v) => v,
            None => return None,
        };
        let r1 = match r1 {
            Some(r1) => r1,
            None => return None,
        };
        let (b, r2) = split_first(&r1, " ");
        let sub_pid = match parse_hex_u16(&b) {
            Some(v) => v,
            None => return None,
        };
        let r2 = match r2 {
            Some(r2) => r2,
            None => return None,
        };
        let (_c, r3) = split_first(&r2, " ");
        let name = match r3 {
            Some(r3) => r3,
            None => r2,
        };
        let sub = Subdevice { id: sub_pid, vendor_id: sub_vid, name: string_of_chars(&name) };
        match &mut st.device {
            Some(dev) => {
                dev.sub_devices.push(sub);
                proof {
                    assert(dev.sub_devices@.map_values(|d: Subdevice| (d.vendor_id, d.id, d.name@)) =~= old(
                        st,
                    ).device->0.sub_devices@.map_values(|d: Subdevice| (d.vendor_id, d.id, d.name@)).push(
                        (sub_vid, sub_pid, name@),
                    ));
                }
            },
            None => {},
        }
        st.breakp = true;
        return Some(false);
    }
    if l[0] == '\t' {
        if st.vendor_name.is_none() {
            return Some(false);
        }
        if st.breakp {
            return Some(true);
        }
        let t = trim_start_chars(&l);
        let (a, rest) = split_first(&t, "  ");
        let p = match parse_hex_u16(&a) {
            Some(v) => v,
            None => return None,
        };
        if p != pid {
            return Some(false);
        }
        let rest = match rest {
            Some(rest) => rest,
            None => return None,
        };
        let (name, _r) = split_first(&rest, "  ");
        let vendor_name = match &st.vendor_name {
            Some(n) => n.clone(),
            None => String::new(),
        };
        let dev = Device {
            id: p,
            name: string_of_chars(&name),
            vendor_id: vid,
            vendor_name,
            sub_devices: Vec::new(),
        };
        proof {
            assert(dev.sub_devices@.map_values(|d: Subdevice| (d.vendor_id, d.id, d.name@)) =~= Seq::<
                (u16, u16, Seq<char>),
            >::empty());
        }
        st.device = Some(dev);
        return Some(false);
    }
    if st.breakp {
        return Some(true);
    }
    let (a, rest) = split_first(&l, "  ");
    let v = match parse_hex_u16(&a) {
        Some(v) => v,
        None => return None,
    };
    if v != vid {
        return Some(false);
    }
    let rest = match rest {
        Some(rest) => rest,
        None => return None,
    };
    let (name, _r) = split_first(&rest, "  ");
    st.vendor_name = Some(string_of_chars(&name));
    Some(false)
}

/// Looks device `pid` of vendor `vid` up in the lines of a PCI ID database,
/// with its subdevices.
pub fn parse_pci_ids(lines: &Vec<String>, vid: u16, pid: u16) -> (r: Result<Device, PciIdsError>)
    ensures
        match (r, scan(lines@.map_values(|l: String| l@), vid, pid, 0, (None, None, false))) {
            (Ok(d), Some(Some(m))) => d.model() == m && d.spec_vid() == vid,
            (Err(PciIdsError::NotFound), Some(None)) => true,
            (Err(PciIdsError::Malformed), None) => true,
            _ => false,
        },
{
    let ghost all = lines@.map_values(|l: String| l@);
    let mut st = ScanState { vendor_name: None, device: None, breakp: false };
    let mut i: usize = 0;
    while i < lines.len()
        invariant_except_break
            scan(all, vid, pid, 0, (None, None, false)) == scan(all, vid, pid, i as nat, st.model()),
        invariant
            i <= lines.len(),
            all == lines@.map_values(|l: String| l@),
            st.device matches Some(d) ==> d.vendor_id == vid,
        ensures
            scan(all, vid, pid, 0, (None, None, false)) == Some(st.model().1),
        decreases lines.len() - i,
    {
        match scan_one(&lines[i], vid, pid, &mut st) {
            None => {
                return Err(PciIdsError::Malformed);
            },
            Some(true) => {
                break;
            },
            Some(false) => {},
        }
        i = i + 1;
    }
    match st.device {
        Some(d) => Ok(d),
        None => Err(PciIdsError::NotFound),
    }
}

/// The devices looked up so far, in the order they were added.
#[derive(Debug, Default)]
pub struct DeviceCache {
    devices: Vec<Device>,
}

impl DeviceCache {
    pub closed spec fn entries(&self) -> Seq<Device> {
        self.devices@
    }

    pub fn new() -> (r: Self)
        ensures
            r.entries() == Seq::<Device>::empty(),
    {
        DeviceCache { devices: Vec::new() }
    }

    /// The first cached device with this vendor and product id.
    pub fn find(&self, vid: u16, pid: u16) -> (r: Option<&Device>)
        ensures
            match r {
                Some(d) => exists|i: int|
                    0 <= i < self.entries().len() && self.entries()[i] == *d && d.spec_vid() == vid
                        && d.spec_pid() == pid && forall|j: int|
                        0 <= j < i ==> !((#[trigger] self.entries()[j]).spec_vid() == vid
                            && self.entries()[j].spec_pid() == pid),
                None => forall|j: int|
                    0 <= j < self.entries().len() ==> !((#[trigger] self.entries()[j]).spec_vid() == vid
                        && self.entries()[j].spec_pid() == pid),
            },
    {
        let mut i: usize = 0;
        while i < self.devices.len()
            invariant
                i <= self.devices.len(),
                forall|j: int|
                    0 <= j < i ==> !((#[trigger] self.devices@[j]).vendor_id == vid && self.devices@[j].id == pid),
            decreases self.devices.len() - i,
        {
            let d = &self.devices[i];
            if d.vendor_id == vid && d.id == pid {
                assert(self.entries()[i as int] == *d);
                return Some(d);
            }
            i = i + 1;
        }
        None
    }

    /// Adds a device at the end.
    pub fn insert(&mut self, device: Device)
        ensures
            final(self).entries() == old(self).entries().push(device),
    {
        self.devices.push(device);
    }
}

impl Vendor {
    pub closed spec fn spec_vid(&self) -> u16 {
        self.id
    }

    pub closed spec fn spec_name(&self) -> Seq<char> {
        self.name@
    }

    /// The vendor's devices by product id.
    pub closed spec fn spec_devices(&self) -> Map<u16, Device> {
        self.devices@
    }

    /// The devices, by increasing product id.
    pub fn devices(&self) -> (r: Values<'_, u16, Device>)
        ensures
            r.remaining().unref().to_set() == self.spec_devices().values(),
            r.remaining().len() == self.spec_devices().dom().len(),
    {
        proof {
            vstd::std_specs::btree::axiom_spec_values_iter(&self.devices);
        }
        self.devices.values()
    }

    pub fn get_device(&self, pid: u16) -> (r: Option<&Device>)
        ensures
            match r {
                Some(d) => self.spec_devices().contains_key(pid) && *d == self.spec_devices()[pid],
                None => !self.spec_devices().contains_key(pid),
            },
    {
        proof {
            broadcast use vstd::std_specs::btree::group_btree_axioms, vstd::laws_cmp::group_laws_cmp;
        }
        self.devices.get(&pid)
    }

    pub fn name(&self) -> (r: &str)
        ensures
            r@ == self.spec_name(),
    {
        self.name.as_str()
    }

    pub fn vid(&self) -> (r: u16)
        ensures
            r == self.spec_vid(),
    {
        self.id
    }
}

} // verus!
