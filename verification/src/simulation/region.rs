use vstd::prelude::*;

verus! {

#[derive(Debug, Clone, Copy, PartialEq, Eq, Hash, Structural)]
pub struct RegionId(pub u32);

#[derive(Debug, Clone, Copy, PartialEq, Eq, Hash, Structural)]
pub struct CountryId(pub u32);

#[derive(Debug, Clone, Copy, PartialEq, Eq, Hash, Structural)]
pub struct ContinentId(pub u32);

/// How alarmed a region is.
#[derive(Debug, Clone, Copy, PartialEq, Eq, Structural)]
pub enum RegionEscalation {
    Stable,
    Alert,
    Emergency,
}

impl RegionEscalation {
    pub fn rank(self) -> (r: u8)
        ensures
            r == match self {
                RegionEscalation::Stable => 0u8,
                RegionEscalation::Alert => 1u8,
                RegionEscalation::Emergency => 2u8,
            },
    {
        match self {
            RegionEscalation::Stable => 0,
            RegionEscalation::Alert => 1,
            RegionEscalation::Emergency => 2,
        }
    }
}

/// How alarmed the world is.
#[derive(Debug, Clone, Copy, PartialEq, Eq, Structural)]
pub enum GlobalEscalation {
    Stable,
    Tense,
    Crisis,
    Cosmic,
}

impl GlobalEscalation {
    pub fn rank(self) -> (r: u8)
        ensures
            r == match self {
                GlobalEscalation::Stable => 0u8,
                GlobalEscalation::Tense => 1u8,
                GlobalEscalation::Crisis => 2u8,
                GlobalEscalation::Cosmic => 3u8,
            },
    {
        match self {
            GlobalEscalation::Stable => 0,
            GlobalEscalation::Tense => 1,
            GlobalEscalation::Crisis => 2,
            GlobalEscalation::Cosmic => 3,
        }
    }
}

} // verus!
