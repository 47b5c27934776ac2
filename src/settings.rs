//! Display settings. They are fixed at their defaults; setting one is
//! accepted and has no effect.

use vstd::prelude::*;

verus! {

#[verifier::external_type_specification]
#[verifier::external_body]
pub struct ExAnyhowError(anyhow::Error);

#[derive(Debug, Clone, Copy, Default, Hash, PartialEq, Eq, Structural)]
pub enum Base {
    #[default]
    Decimal,
    Binary,
}

#[derive(Debug, Clone, Copy, Default, Hash, PartialEq, Eq, Structural)]
pub enum TemperatureUnit {
    #[default]
    Celsius,
    Kelvin,
    Fahrenheit,
}

#[derive(Debug, Clone, Copy, Default, Hash, PartialEq, Eq, Structural)]
pub enum RefreshSpeed {
    VerySlow,
    Slow,
    #[default]
    Normal,
    Fast,
    VeryFast,
}

#[derive(Debug, Clone, Copy, Default, Hash, PartialEq, Eq, Structural)]
pub enum SidebarMeterType {
    #[default]
    ProgressBar,
    Graph,
}

#[derive(Debug, Clone, Hash)]
pub struct Settings {}

impl Settings {
    pub fn temperature_unit(&self) -> (r: TemperatureUnit)
        ensures
            r == TemperatureUnit::Celsius,
    {
        TemperatureUnit::Celsius
    }

    pub fn set_temperature_unit(&self, value: TemperatureUnit) -> (r: Result<(), anyhow::Error>)
        ensures
            r is Ok,
    {
        Ok(())
    }

    pub fn base(&self) -> (r: Base)
        ensures
            r == Base::Decimal,
    {
        Base::Decimal
    }

    pub fn set_base(&self, value: Base) -> (r: Result<(), anyhow::Error>)
        ensures
            r is Ok,
    {
        Ok(())
    }

    pub fn set_last_viewed_page(&self, value: &str) -> (r: Result<(), anyhow::Error>)
        ensures
            r is Ok,
    {
        Ok(())
    }

    pub fn refresh_speed(&self) -> (r: RefreshSpeed)
        ensures
            r == RefreshSpeed::Normal,
    {
        RefreshSpeed::Normal
    }

    pub fn set_refresh_speed(&self, value: RefreshSpeed) -> (r: Result<(), anyhow::Error>)
        ensures
            r is Ok,
    {
        Ok(())
    }

    pub fn sidebar_meter_type(&self) -> (r: SidebarMeterType)
        ensures
            r == SidebarMeterType::ProgressBar,
    {
        SidebarMeterType::ProgressBar
    }

    pub fn set_sidebar_meter_type(&self, value: SidebarMeterType) -> (r: Result<(), anyhow::Error>)
        ensures
            r is Ok,
    {
        Ok(())
    }

    /// Whether network speeds are shown in bits rather than bytes.
    pub fn network_bits(&self) -> (r: bool)
        ensures
            !r,
    {
        false
    }
}

} // verus!
