//! Battery charging states and cell chemistries, as sysfs names them.

use vstd::prelude::*;
use crate::text::{ascii_lowercase, equals, lowercase_chars};

verus! {

#[derive(Debug, Eq, PartialEq, Copy, Clone, Default, Structural)]
pub enum State {
    Charging,
    Discharging,
    Empty,
    Full,
    #[default]
    Unknown,
}

#[derive(Debug, Eq, PartialEq, Copy, Clone, Default, Structural)]
pub enum Technology {
    NickelMetalHydride,
    NickelCadmium,
    NickelZinc,
    LeadAcid,
    LithiumIon,
    LithiumIronPhosphate,
    LithiumPolymer,
    RechargeableAlkalineManganese,
    #[default]
    Unknown,
}

/// The state a status text names, ignoring ASCII case.
pub open spec fn state_of(s: Seq<char>) -> State {
    let l = ascii_lowercase(s);
    if l == "charging"@ {
        State::Charging
    } else if l == "discharging"@ {
        State::Discharging
    } else if l == "empty"@ {
        State::Empty
    } else if l == "full"@ {
        State::Full
    } else {
        State::Unknown
    }
}

/// The chemistry a technology text names, ignoring ASCII case.
pub open spec fn technology_of(s: Seq<char>) -> Technology {
    let l = ascii_lowercase(s);
    if l == "nimh"@ {
        Technology::NickelMetalHydride
    } else if l == "nicd"@ {
        Technology::NickelCadmium
    } else if l == "nizn"@ {
        Technology::NickelZinc
    } else if l == "pb"@ || l == "pbac"@ {
        Technology::LeadAcid
    } else if l == "li-i"@ || l == "li-ion"@ || l == "lion"@ {
        Technology::LithiumIon
    } else if l == "life"@ {
        Technology::LithiumIronPhosphate
    } else if l == "lip"@ || l == "lipo"@ || l == "li-poly"@ {
        Technology::LithiumPolymer
    } else if l == "ram"@ {
        Technology::RechargeableAlkalineManganese
    } else {
        Technology::Unknown
    }
}

pub open spec fn state_name(s: State) -> Seq<char> {
    match s {
        State::Charging => "Charging"@,
        State::Discharging => "Discharging"@,
        State::Empty => "Empty"@,
        State::Full => "Full"@,
        State::Unknown => "Unknown"@,
    }
}

pub open spec fn technology_name(t: Technology) -> Seq<char> {
    match t {
        Technology::NickelMetalHydride => "Nickel-Metal Hydride"@,
        Technology::NickelCadmium => "Nickel-Cadmium"@,
        Technology::NickelZinc => "Nickel-Zinc"@,
        Technology::LeadAcid => "Lead-Acid"@,
        Technology::LithiumIon => "Lithium-Ion"@,
        Technology::LithiumIronPhosphate => "Lithium Iron Phosphate"@,
        Technology::LithiumPolymer => "Lithium Polymer"@,
        Technology::RechargeableAlkalineManganese => "Rechargeable Alkaline Managanese"@,
        Technology::Unknown => "N/A"@,
    }
}

impl State {
    /// Reads a status text; anything unrecognised is `Unknown`.
    pub fn parse(s: &str) -> (r: State)
        ensures
            r == state_of(s@),
    {
        let l = lowercase_chars(s);
        if equals(&l, "charging") {
            State::Charging
        } else if equals(&l, "discharging") {
            State::Discharging
        } else if equals(&l, "empty") {
            State::Empty
        } else if equals(&l, "full") {
            State::Full
        } else {
            State::Unknown
        }
    }

    /// The text shown for the state.
    pub fn name(&self) -> (r: &'static str)
        ensures
            r@ == state_name(*self),
    {
        match self {
            State::Charging => "Charging",
            State::Discharging => "Discharging",
            State::Empty => "Empty",
            State::Full => "Full",
            State::Unknown => "Unknown",
        }
    }
}

impl Technology {
    /// Reads a technology text; anything unrecognised is `Unknown`.
    pub fn parse(s: &str) -> (r: Technology)
        ensures
            r == technology_of(s@),
    {
        let l = lowercase_chars(s);
        if equals(&l, "nimh") {
            Technology::NickelMetalHydride
        } else if equals(&l, "nicd") {
            Technology::NickelCadmium
        } else if equals(&l, "nizn") {
            Technology::NickelZinc
        } else if equals(&l, "pb") || equals(&l, "pbac") {
            Technology::LeadAcid
        } else if equals(&l, "li-i") || equals(&l, "li-ion") || equals(&l, "lion") {
            Technology::LithiumIon
        } else if equals(&l, "life") {
            Technology::LithiumIronPhosphate
        } else if equals(&l, "lip") || equals(&l, "lipo") || equals(&l, "li-poly") {
            Technology::LithiumPolymer
        } else if equals(&l, "ram") {
            Technology::RechargeableAlkalineManganese
        } else {
            Technology::Unknown
        }
    }

    /// The text shown for the chemistry.
    pub fn name(&self) -> (r: &'static str)
        ensures
            r@ == technology_name(*self),
    {
        match self {
            Technology::NickelMetalHydride => "Nickel-Metal Hydride",
            Technology::NickelCadmium => "Nickel-Cadmium",
            Technology::NickelZinc => "Nickel-Zinc",
            Technology::LeadAcid => "Lead-Acid",
            Technology::LithiumIon => "Lithium-Ion",
            Technology::LithiumIronPhosphate => "Lithium Iron Phosphate",
            Technology::LithiumPolymer => "Lithium Polymer",
            Technology::RechargeableAlkalineManganese => "Rechargeable Alkaline Managanese",
            Technology::Unknown => "N/A",
        }
    }
}

} // verus!
