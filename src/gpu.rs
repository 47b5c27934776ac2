//! Recognising a GPU from its device's uevent file: its PCI ids, driver and
//! slot, and which vendor backend reads it.

use vstd::prelude::*;
use crate::text::{chars_of, equals, head, hex_u16, parse_hex_u16, split_first, string_of_chars, tail};

verus! {

pub const VID_AMD: u16 = 4098;

pub const VID_INTEL: u16 = 32902;

pub const VID_NVIDIA: u16 = 4318;

/// The backend that reads a GPU.
#[derive(Debug, Clone, Copy, PartialEq, Eq, Structural)]
pub enum GpuVendor {
    Amd,
    Intel,
    Nvidia,
    Other,
}

/// Why a DRM card is not taken as a GPU.
#[derive(Debug, Clone, Copy, PartialEq, Eq, Structural)]
pub enum GpuError {
    /// A line of the uevent file is not `KEY=VALUE`.
    MalformedUevent,
    /// The `PCI_ID` entry is not two hexadecimal ids.
    BadPciId,
    /// The card is driven by the simple framebuffer: not a GPU.
    SimpleFramebuffer,
}

/// What identifies a GPU.
#[derive(Debug, Clone)]
pub struct GpuInfo {
    pub vid: u16,
    pub pid: u16,
    pub driver: String,
    pub pci_slot: String,
    pub vendor: GpuVendor,
}

/// The backend for a GPU of vendor `vid` driven by `driver`.
pub open spec fn vendor_of(vid: u16, driver: Seq<char>) -> GpuVendor {
    if vid == VID_AMD || driver == "amdgpu"@ {
        GpuVendor::Amd
    } else if vid == VID_INTEL || driver == "i915"@ {
        GpuVendor::Intel
    } else if vid == VID_NVIDIA || driver == "nvidia"@ {
        GpuVendor::Nvidia
    } else {
        GpuVendor::Other
    }
}

/// The value of the last `key=...` line, if any.
pub open spec fn uevent_value(lines: Seq<Seq<char>>, key: Seq<char>) -> Option<Seq<char>>
    decreases lines.len(),
{
    if lines.len() == 0 {
        None
    } else if head(lines.last(), "="@) == key && tail(lines.last(), "="@) is Some {
        tail(lines.last(), "="@)
    } else {
        uevent_value(lines.drop_last(), key)
    }
}

/// Whether every line is `KEY=VALUE`.
pub open spec fn well_formed_uevent(lines: Seq<Seq<char>>) -> bool {
    forall|i: int| 0 <= i < lines.len() ==> (tail(#[trigger] lines[i], "="@) is Some)
}

/// Vendor and product id from a `PCI_ID` value such as `1002:73BF`.
pub open spec fn pci_id_of(v: Seq<char>) -> Option<(u16, u16)> {
    match (hex_u16(head(v, ":"@)), tail(v, ":"@)) {
        (Some(vid), Some(rest)) => match hex_u16(head(rest, ":"@)) {
            Some(pid) => Some((vid, pid)),
            None => None,
        },
        _ => None,
    }
}

fn value_of(pairs: &Vec<(Vec<char>, Vec<char>)>, key: &str, lines: Ghost<Seq<Seq<char>>>) -> (r: Option<String>)
    requires
        pairs@.len() == lines@.len(),
        forall|i: int|
            0 <= i < pairs@.len() ==> (#[trigger] pairs@[i]).0@ == head(lines@[i], "="@) && tail(
                lines@[i],
                "="@,
            ) == Some(pairs@[i].1@),
    ensures
        match (r, uevent_value(lines@, key@)) {
            (Some(a), Some(b)) => a@ == b,
            (None, None) => true,
            _ => false,
        },
{
    let mut i: usize = pairs.len();
    assert(lines@.take(i as int) =~= lines@);
    while i > 0
        invariant
            i <= pairs@.len(),
            pairs@.len() == lines@.len(),
            forall|k: int|
                0 <= k < pairs@.len() ==> (#[trigger] pairs@[k]).0@ == head(lines@[k], "="@) && tail(
                    lines@[k],
                    "="@,
                ) == Some(pairs@[k].1@),
            uevent_value(lines@, key@) == uevent_value(lines@.take(i as int), key@),
        decreases i,
    {
        let ghost pre = lines@.take(i as int);
        assert(pre.drop_last() =~= lines@.take(i - 1));
        assert(pre.last() == lines@[i - 1]);
        if equals(&pairs[i - 1].0, key) {
            return Some(string_of_chars(&pairs[i - 1].1));
        }
        i = i - 1;
    }
    None
}

/// Recognises a GPU from the lines of its device's uevent file: every line
/// must be `KEY=VALUE`; `PCI_ID` (when present) gives the ids, else both are
/// 0; `DRIVER` and `PCI_SLOT_NAME` default to `N/A`; a card on the simple
/// framebuffer is refused.
pub fn classify_gpu(lines: &Vec<String>) -> (r: Result<GpuInfo, GpuError>)
    ensures
        ({
            let ls = lines@.map_values(|l: String| l@);
            let driver = match uevent_value(ls, "DRIVER"@) {
                Some(d) => d,
                None => "N/A"@,
            };
            let ids = match uevent_value(ls, "PCI_ID"@) {
                Some(v) => pci_id_of(v),
                None => Some((0u16, 0u16)),
            };
            if !well_formed_uevent(ls) {
                r == Err::<GpuInfo, GpuError>(GpuError::MalformedUevent)
            } else if ids is None {
                r == Err::<GpuInfo, GpuError>(GpuError::BadPciId)
            } else if driver == "simple-framebuffer"@ {
                r == Err::<GpuInfo, GpuError>(GpuError::SimpleFramebuffer)
            } else {
                match (r, ids) {
                    (Ok(g), Some((vid, pid))) => {
                        &&& g.vid == vid
                        &&& g.pid == pid
                        &&& g.driver@ == driver
                        &&& g.pci_slot@ == match uevent_value(ls, "PCI_SLOT_NAME"@) {
                            Some(s) => s,
                            None => "N/A"@,
                        }
                        &&& g.vendor == vendor_of(vid, driver)
                    },
                    _ => false,
                }
            }
        }),
{
    proof {
        reveal_strlit("=");
        reveal_strlit(":");
    }
    let ghost ls = lines@.map_values(|l: String| l@);
    let mut pairs: Vec<(Vec<char>, Vec<char>)> = Vec::new();
    let mut i: usize = 0;
    while i < lines.len()
        invariant
            i <= lines.len(),
            ls == lines@.map_values(|l: String| l@),
            pairs@.len() == i,
            forall|k: int|
                0 <= k < i ==> (#[trigger] pairs@[k]).0@ == head(ls[k], "="@) && tail(ls[k], "="@) == Some(
                    pairs@[k].1@,
                ),
        decreases lines.len() - i,
    {
        proof {
            reveal_strlit("=");
        }
        let l = chars_of(lines[i].as_str());
        assert(ls[i as int] == l@);
        let (k, v) = split_first(&l, "=");
        match v {
            Some(v) => {
                pairs.push((k, v));
            },
            None => {
                assert(!well_formed_uevent(ls)) by {
                    assert(tail(ls[i as int], "="@) is None);
                }
                return Err(GpuError::MalformedUevent);
            },
        }
        i = i + 1;
    }
    assert(well_formed_uevent(ls)) by {
        assert forall|k: int| 0 <= k < ls.len() implies (tail(#[trigger] ls[k], "="@) is Some) by {
            assert(tail(ls[k], "="@) == Some(pairs@[k].1@));
        }
    }
    let ids = match value_of(&pairs, "PCI_ID", Ghost(ls)) {
        Some(v) => {
            let c = chars_of(v.as_str());
            let (a, rest) = split_first(&c, ":");
            match (parse_hex_u16(&a), rest) {
                (Some(vid), Some(rest)) => {
                    let (b, _r) = split_first(&rest, ":");
                    match parse_hex_u16(&b) {
                        Some(pid) => (vid, pid),
                        None => return Err(GpuError::BadPciId),
                    }
                },
                _ => return Err(GpuError::BadPciId),
            }
        },
        None => (0u16, 0u16),
    };
    let driver = match value_of(&pairs, "DRIVER", Ghost(ls)) {
        Some(d) => d,
        None => "N/A".to_owned(),
    };
    let dc = chars_of(driver.as_str());
    if equals(&dc, "simple-framebuffer") {
        return Err(GpuError::SimpleFramebuffer);
    }
    let pci_slot = match value_of(&pairs, "PCI_SLOT_NAME", Ghost(ls)) {
        Some(s) => s,
        None => "N/A".to_owned(),
    };
    let (vid, pid) = ids;
    let vendor = if vid == VID_AMD || equals(&dc, "amdgpu") {
        GpuVendor::Amd
    } else if vid == VID_INTEL || equals(&dc, "i915") {
        GpuVendor::Intel
    } else if vid == VID_NVIDIA || equals(&dc, "nvidia") {
        GpuVendor::Nvidia
    } else {
        GpuVendor::Other
    };
    Ok(GpuInfo { vid, pid, driver, pci_slot, vendor })
}

} // verus!
