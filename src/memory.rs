//! Memory totals from the kernel's meminfo, and memory modules as the DMI
//! tables describe them.

use vstd::prelude::*;
use crate::units::{decimal, push_decimal};
use crate::text::{equals, chars_of, dec_u64, lemma_find_from_bound, parse_dec_u64, split_all, split_first, string_of_chars};

verus! {

/// Group 1 of the leftmost match of `pattern` in `text`, as regex finds it.
pub uninterp spec fn regex_group1(pattern: Seq<char>, text: Seq<char>) -> Option<Seq<char>>;

/// Relies on regex's `Regex::new` and `Regex::captures`: compiles `pattern`
/// and returns the text of capture group 1 of the leftmost match in `text`
/// (`None` if the pattern does not compile, nothing matches, or the group
/// did not take part in the match).
#[verifier::external_body]
pub(crate) fn capture_group1(pattern: &str, text: &str) -> (r: Option<String>)
    ensures
        match (r, regex_group1(pattern@, text@)) {
            (Some(a), Some(b)) => a@ == b,
            (None, None) => true,
            _ => false,
        },
{
    let re = regex::Regex::new(pattern).ok()?;
    re.captures(text)?.get(1).map(|m| m.as_str().to_string())
}

pub const RE_CONFIGURED_SPEED: &'static str = "Configured Memory Speed: (\\d+) MT/s";

pub const RE_SPEED: &'static str = "Speed: (\\d+) MT/s";

pub const RE_FORMFACTOR: &'static str = "Form Factor: (.+)";

pub const RE_TYPE: &'static str = "Type: (.+)";

pub const RE_TYPE_DETAIL: &'static str = "Type Detail: (.+)";

pub const RE_SIZE: &'static str = "Size: (\\d+) GB";

pub const RE_MEM_TOTAL: &'static str = "MemTotal:\\s*(\\d*) kB";

pub const RE_MEM_AVAILABLE: &'static str = "MemAvailable:\\s*(\\d*) kB";

pub const RE_SWAP_TOTAL: &'static str = "SwapTotal:\\s*(\\d*) kB";

pub const RE_SWAP_FREE: &'static str = "SwapFree:\\s*(\\d*) kB";

pub const BYTES_IN_GIB: u64 = 1_073_741_824;

/// Memory and swap, in bytes.
#[derive(Debug, Clone, Copy)]
pub struct MemoryData {
    pub total_mem: usize,
    pub available_mem: usize,
    pub total_swap: usize,
    pub free_swap: usize,
}

/// One memory module slot.
#[derive(Debug, Clone, Default)]
pub struct MemoryDevice {
    pub speed_mts: Option<u32>,
    pub form_factor: Option<String>,
    pub mem_type: Option<String>,
    pub type_detail: Option<String>,
    pub size: Option<u64>,
    pub installed: bool,
}

/// Why meminfo gave no totals.
#[derive(Debug, Clone, Copy, PartialEq, Eq, Structural)]
pub enum MemInfoError {
    /// A field is missing, not a number, or too large.
    Field,
}

/// A meminfo field in bytes: the kB count that `pattern` captures, times 1024.
pub open spec fn kb_field(pattern: Seq<char>, text: Seq<char>) -> Option<usize> {
    match regex_group1(pattern, text) {
        Some(g) => match dec_u64(g) {
            Some(v) => if v * 1024 <= usize::MAX {
                Some((v * 1024) as usize)
            } else {
                None
            },
            None => None,
        },
        None => None,
    }
}

fn kb_field_of(pattern: &str, text: &str) -> (r: Option<usize>)
    ensures
        r == kb_field(pattern@, text@),
{
    let g = capture_group1(pattern, text)?;
    let v = parse_dec_u64(&chars_of(g.as_str()))?;
    if v > (usize::MAX as u64) / 1024 {
        return None;
    }
    Some((v * 1024) as usize)
}

impl MemoryData {
    /// Reads the totals from the text of meminfo.
    pub fn from_meminfo(text: &str) -> (r: Result<MemoryData, MemInfoError>)
        ensures
            match (
                kb_field(RE_MEM_TOTAL@, text@),
                kb_field(RE_MEM_AVAILABLE@, text@),
                kb_field(RE_SWAP_TOTAL@, text@),
                kb_field(RE_SWAP_FREE@, text@),
            ) {
                (Some(t), Some(a), Some(st), Some(sf)) => r matches Ok(m) && m.total_mem == t
                    && m.available_mem == a && m.total_swap == st && m.free_swap == sf,
                _ => r == Err::<MemoryData, MemInfoError>(MemInfoError::Field),
            },
    {
        let total_mem = match kb_field_of(RE_MEM_TOTAL, text) {
            Some(v) => v,
            None => return Err(MemInfoError::Field),
        };
        let available_mem = match kb_field_of(RE_MEM_AVAILABLE, text) {
            Some(v) => v,
            None => return Err(MemInfoError::Field),
        };
        let total_swap = match kb_field_of(RE_SWAP_TOTAL, text) {
            Some(v) => v,
            None => return Err(MemInfoError::Field),
        };
        let free_swap = match kb_field_of(RE_SWAP_FREE, text) {
            Some(v) => v,
            None => return Err(MemInfoError::Field),
        };
        Ok(MemoryData { total_mem, available_mem, total_swap, free_swap })
    }
}

pub open spec fn opt_text(o: Option<String>) -> Option<Seq<char>> {
    match o {
        Some(s) => Some(s@),
        None => None,
    }
}

/// What a DMI block says of its module: the configured speed, else the
/// speed; form factor, type, type detail; the size in GiB as bytes; and it
/// is installed when it has a speed.
pub open spec fn describes(d: MemoryDevice, block: Seq<char>) -> bool {
    let speed_text = match regex_group1(RE_CONFIGURED_SPEED@, block) {
        Some(g) => Some(g),
        None => regex_group1(RE_SPEED@, block),
    };
    &&& d.speed_mts == match speed_text {
        Some(g) => match dec_u64(g) {
            Some(v) => if v <= u32::MAX { Some(v as u32) } else { None },
            None => None,
        },
        None => None,
    }
    &&& opt_text(d.form_factor) == regex_group1(RE_FORMFACTOR@, block)
    &&& opt_text(d.mem_type) == regex_group1(RE_TYPE@, block)
    &&& opt_text(d.type_detail) == regex_group1(RE_TYPE_DETAIL@, block)
    &&& d.size == match regex_group1(RE_SIZE@, block) {
        Some(g) => match dec_u64(g) {
            Some(v) => if v * BYTES_IN_GIB <= u64::MAX { Some((v * BYTES_IN_GIB) as u64) } else { None },
            None => None,
        },
        None => None,
    }
    &&& d.installed == regex_group1(RE_SPEED@, block) is Some
}

/// The non-empty blocks of `dmi`, separated by blank lines.
pub open spec fn dmi_blocks(dmi: Seq<char>) -> Seq<Seq<char>> {
    split_all(dmi, "\n\n"@).filter(|b: Seq<char>| b.len() > 0)
}

fn device_of(block: &str) -> (r: MemoryDevice)
    ensures
        describes(r, block@),
{
    let speed_text = match capture_group1(RE_CONFIGURED_SPEED, block) {
        Some(g) => Some(g),
        None => capture_group1(RE_SPEED, block),
    };
    let speed_mts = match speed_text {
        Some(g) => match parse_dec_u64(&chars_of(g.as_str())) {
            Some(v) => if v <= u32::MAX as u64 { Some(v as u32) } else { None },
            None => None,
        },
        None => None,
    };
    let size = match capture_group1(RE_SIZE, block) {
        Some(g) => match parse_dec_u64(&chars_of(g.as_str())) {
            Some(v) => v.checked_mul(BYTES_IN_GIB),
            None => None,
        },
        None => None,
    };
    let installed = capture_group1(RE_SPEED, block).is_some();
    MemoryDevice {
        speed_mts,
        form_factor: capture_group1(RE_FORMFACTOR, block),
        mem_type: capture_group1(RE_TYPE, block),
        type_detail: capture_group1(RE_TYPE_DETAIL, block),
        size,
        installed,
    }
}

/// The memory modules in the output of `dmidecode -t 17`: one per
/// non-empty block.
pub fn parse_dmidecode(dmi: &str) -> (r: Vec<MemoryDevice>)
    ensures
        r@.len() == dmi_blocks(dmi@).len(),
        forall|i: int| 0 <= i < r@.len() ==> describes(#[trigger] r@[i], dmi_blocks(dmi@)[i]),
{
    proof {
        reveal_strlit("\n\n");
    }
    let mut devices: Vec<MemoryDevice> = Vec::new();
    let mut rest: Vec<char> = chars_of(dmi);
    let ghost mut done: Seq<Seq<char>> = Seq::empty();
    assert(split_all(dmi@, "\n\n"@) == done + split_all(rest@, "\n\n"@));
    let mut finished = false;
    while !finished
        invariant
            "\n\n"@.len() == 2,
            !finished ==> split_all(dmi@, "\n\n"@) == done + split_all(rest@, "\n\n"@),
            finished ==> split_all(dmi@, "\n\n"@) == done,
            devices@.len() == done.filter(|b: Seq<char>| b.len() > 0).len(),
            forall|i: int|
                0 <= i < devices@.len() ==> describes(
                    #[trigger] devices@[i],
                    done.filter(|b: Seq<char>| b.len() > 0)[i],
                ),
        decreases rest.len() + if finished { 0int } else { 1int },
    {
        proof {
            lemma_find_from_bound(rest@, "\n\n"@, 0);
        }
        let (piece, after) = split_first(&rest, "\n\n");
        let ghost old_rest = rest@;
        let ghost old_done = done;
        proof {
            done = done.push(piece@);
            reveal(Seq::filter);
            assert(done.drop_last() =~= old_done);
        }
        if piece.len() > 0 {
            let s = string_of_chars(&piece);
            devices.push(device_of(s.as_str()));
        }
        proof {
            assert(done.filter(|b: Seq<char>| b.len() > 0) == if piece@.len() > 0 {
                old_done.filter(|b: Seq<char>| b.len() > 0).push(piece@)
            } else {
                old_done.filter(|b: Seq<char>| b.len() > 0)
            });
        }
        match after {
            Some(a) => {
                proof {
                    assert(split_all(old_rest, "\n\n"@) == seq![piece@] + split_all(a@, "\n\n"@));
                    assert(done + split_all(a@, "\n\n"@) =~= old_done + split_all(old_rest, "\n\n"@));
                }
                rest = a;
            },
            None => {
                proof {
                    assert(split_all(old_rest, "\n\n"@) == seq![piece@]);
                    assert(done =~= old_done + split_all(old_rest, "\n\n"@));
                }
                finished = true;
            },
        }
    }
    devices
}

pub const RE_NUM_MEMORY_DEVICES: &'static str = "MEMORY_ARRAY_NUM_DEVICES=(\\d*)";

pub const TEMPLATE_RE_PRESENT: &'static str = "MEMORY_DEVICE_%_PRESENT=(\\d)";

pub const TEMPLATE_RE_CONFIGURED_SPEED_MTS: &'static str = "MEMORY_DEVICE_%_CONFIGURED_SPEED_MTS=(\\d*)";

pub const TEMPLATE_RE_SPEED_MTS: &'static str = "MEMORY_DEVICE_%_SPEED_MTS=(\\d*)";

pub const TEMPLATE_RE_FORM_FACTOR: &'static str = "MEMORY_DEVICE_%_FORM_FACTOR=(.*)";

pub const TEMPLATE_RE_TYPE: &'static str = "MEMORY_DEVICE_%_TYPE=(.*)";

pub const TEMPLATE_RE_TYPE_DETAIL: &'static str = "MEMORY_DEVICE_%_TYPE_DETAIL=(.*)";

pub const TEMPLATE_RE_SIZE: &'static str = "MEMORY_DEVICE_%_SIZE=(\\d*)";

/// `t` with every `%` replaced by `i` in decimal.
pub open spec fn for_index(t: Seq<char>, i: nat) -> Seq<char>
    decreases t.len(),
{
    if t.len() == 0 {
        Seq::empty()
    } else {
        for_index(t.drop_last(), i) + if t.last() == '%' {
            decimal(i)
        } else {
            seq![t.last()]
        }
    }
}

fn pattern_for(t: &str, i: u64) -> (r: String)
    ensures
        r@ == for_index(t@, i as nat),
{
    let tc = chars_of(t);
    let mut out: Vec<char> = Vec::new();
    let mut k: usize = 0;
    while k < tc.len()
        invariant
            k <= tc.len(),
            tc@ == t@,
            out@ == for_index(tc@.take(k as int), i as nat),
        decreases tc.len() - k,
    {
        let ghost pre = tc@.take(k as int);
        assert(tc@.take(k + 1).drop_last() =~= pre);
        if tc[k] == '%' {
            push_decimal(&mut out, i);
        } else {
            out.push(tc[k]);
        }
        k = k + 1;
        assert(out@ =~= for_index(tc@.take(k as int), i as nat));
    }
    assert(tc@.take(k as int) =~= tc@);
    string_of_chars(&out)
}

/// The number of modules the udev DMI properties announce (0 when absent).
pub open spec fn announced_modules(dmi: Seq<char>) -> nat {
    match regex_group1(RE_NUM_MEMORY_DEVICES@, dmi) {
        Some(g) => match dec_u64(g) {
            Some(v) => v as nat,
            None => 0,
        },
        None => 0,
    }
}

/// What the udev DMI properties say of module `i`.
pub open spec fn describes_module(d: MemoryDevice, dmi: Seq<char>, i: nat) -> bool {
    let g = |t: &str| regex_group1(for_index(t@, i), dmi);
    let speed_text = match g(TEMPLATE_RE_CONFIGURED_SPEED_MTS) {
        Some(x) => Some(x),
        None => g(TEMPLATE_RE_SPEED_MTS),
    };
    &&& d.speed_mts == match speed_text {
        Some(x) => match dec_u64(x) {
            Some(v) => if v <= u32::MAX { Some(v as u32) } else { None },
            None => None,
        },
        None => None,
    }
    &&& opt_text(d.form_factor) == g(TEMPLATE_RE_FORM_FACTOR)
    &&& opt_text(d.mem_type) == match g(TEMPLATE_RE_TYPE) {
        Some(x) => if x == "<OUT OF SPEC>"@ { None } else { Some(x) },
        None => None,
    }
    &&& opt_text(d.type_detail) == g(TEMPLATE_RE_TYPE_DETAIL)
    &&& d.size == match g(TEMPLATE_RE_SIZE) {
        Some(x) => dec_u64(x),
        None => None,
    }
    &&& d.installed == match g(TEMPLATE_RE_PRESENT) {
        Some(x) => match dec_u64(x) {
            Some(v) => v != 0,
            None => true,
        },
        None => true,
    }
}

fn module_of(dmi: &str, i: u64) -> (r: MemoryDevice)
    ensures
        describes_module(r, dmi@, i as nat),
{
    let speed_text = match capture_group1(pattern_for(TEMPLATE_RE_CONFIGURED_SPEED_MTS, i).as_str(), dmi) {
        Some(x) => Some(x),
        None => capture_group1(pattern_for(TEMPLATE_RE_SPEED_MTS, i).as_str(), dmi),
    };
    let speed_mts = match speed_text {
        Some(x) => match parse_dec_u64(&chars_of(x.as_str())) {
            Some(v) => if v <= u32::MAX as u64 { Some(v as u32) } else { None },
            None => None,
        },
        None => None,
    };
    let mem_type = match capture_group1(pattern_for(TEMPLATE_RE_TYPE, i).as_str(), dmi) {
        Some(x) => if equals(&chars_of(x.as_str()), "<OUT OF SPEC>") { None } else { Some(x) },
        None => None,
    };
    let size = match capture_group1(pattern_for(TEMPLATE_RE_SIZE, i).as_str(), dmi) {
        Some(x) => parse_dec_u64(&chars_of(x.as_str())),
        None => None,
    };
    let installed = match capture_group1(pattern_for(TEMPLATE_RE_PRESENT, i).as_str(), dmi) {
        Some(x) => match parse_dec_u64(&chars_of(x.as_str())) {
            Some(v) => v != 0,
            None => true,
        },
        None => true,
    };
    MemoryDevice {
        speed_mts,
        form_factor: capture_group1(pattern_for(TEMPLATE_RE_FORM_FACTOR, i).as_str(), dmi),
        mem_type,
        type_detail: capture_group1(pattern_for(TEMPLATE_RE_TYPE_DETAIL, i).as_str(), dmi),
        size,
        installed,
    }
}

/// The memory modules in the DMI properties that udev reports: as many as
/// it announces, each from its numbered properties.
pub fn parse_virtual_dmi(dmi: &str) -> (r: Vec<MemoryDevice>)
    ensures
        r@.len() == announced_modules(dmi@),
        forall|i: int| 0 <= i < r@.len() ==> describes_module(#[trigger] r@[i], dmi@, i as nat),
{
    let n: u64 = match capture_group1(RE_NUM_MEMORY_DEVICES, dmi) {
        Some(g) => match parse_dec_u64(&chars_of(g.as_str())) {
            Some(v) => v,
            None => 0,
        },
        None => 0,
    };
    let mut devices: Vec<MemoryDevice> = Vec::new();
    let mut i: u64 = 0;
    while i < n
        invariant
            i <= n,
            n == announced_modules(dmi@),
            devices@.len() == i,
            forall|k: int| 0 <= k < i ==> describes_module(#[trigger] devices@[k], dmi@, k as nat),
        decreases n - i,
    {
        devices.push(module_of(dmi, i));
        i = i + 1;
    }
    devices
}

} // verus!
