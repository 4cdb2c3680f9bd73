//! The eleven upgrades of a preset and the flags that switch them on.

use vstd::prelude::*;

verus! {

/// An upgrade that a preset can grant from the start.
#[derive(Clone, Copy, Debug, PartialEq, Eq, Structural)]
pub enum Upgrade {
    DreamBreaker,
    Slide,
    SolarWind,
    AscendantLight,
    SunGreaves,
    SoulCutter,
    Sunsetter,
    Indignation,
    HeliacalPower,
    Strikebreak,
    ClingGem,
}

/// One flag for each upgrade.
#[derive(Clone, Copy, Debug, PartialEq, Eq, Structural)]
pub struct UpgradeFlags {
    pub dream_breaker: bool,
    pub slide: bool,
    pub solar_wind: bool,
    pub ascendant_light: bool,
    pub sun_greaves: bool,
    pub soul_cutter: bool,
    pub sunsetter: bool,
    pub indignation: bool,
    pub heliacal_power: bool,
    pub strikebreak: bool,
    pub cling_gem: bool,
}

impl UpgradeFlags {
    /// Whether the flag of `upgrade` is set.
    pub open spec fn enabled(self, upgrade: Upgrade) -> bool {
        match upgrade {
            Upgrade::DreamBreaker => self.dream_breaker,
            Upgrade::Slide => self.slide,
            Upgrade::SolarWind => self.solar_wind,
            Upgrade::AscendantLight => self.ascendant_light,
            Upgrade::SunGreaves => self.sun_greaves,
            Upgrade::SoulCutter => self.soul_cutter,
            Upgrade::Sunsetter => self.sunsetter,
            Upgrade::Indignation => self.indignation,
            Upgrade::HeliacalPower => self.heliacal_power,
            Upgrade::Strikebreak => self.strikebreak,
            Upgrade::ClingGem => self.cling_gem,
        }
    }

    /// The flags with every upgrade switched off.
    pub fn none() -> (r: UpgradeFlags)
        ensures
            forall|u: Upgrade| !r.enabled(u),
    {
        UpgradeFlags {
            dream_breaker: false,
            slide: false,
            solar_wind: false,
            ascendant_light: false,
            sun_greaves: false,
            soul_cutter: false,
            sunsetter: false,
            indignation: false,
            heliacal_power: false,
            strikebreak: false,
            cling_gem: false,
        }
    }

    /// Reads the flag of `upgrade`.
    pub fn get(&self, upgrade: Upgrade) -> (r: bool)
        ensures
            r == self.enabled(upgrade),
    {
        match upgrade {
            Upgrade::DreamBreaker => self.dream_breaker,
            Upgrade::Slide => self.slide,
            Upgrade::SolarWind => self.solar_wind,
            Upgrade::AscendantLight => self.ascendant_light,
            Upgrade::SunGreaves => self.sun_greaves,
            Upgrade::SoulCutter => self.soul_cutter,
            Upgrade::Sunsetter => self.sunsetter,
            Upgrade::Indignation => self.indignation,
            Upgrade::HeliacalPower => self.heliacal_power,
            Upgrade::Strikebreak => self.strikebreak,
            Upgrade::ClingGem => self.cling_gem,
        }
    }
}

/// The integer a table stores for a flag: 1 when set, 0 when clear.
pub open spec fn flag_value(b: bool) -> i32 {
    if b {
        1
    } else {
        0
    }
}

/// Encodes a flag as the integer the table stores for it.
pub fn bool2int(b: bool) -> (r: i32)
    ensures
        r == flag_value(b),
{
    if b {
        1
    } else {
        0
    }
}

} // verus!
