use vstd::prelude::*;

use crate::components::world::Position;
use crate::ledger::Ledger;

verus! {

#[derive(Debug, Clone, Copy, PartialEq, Eq, Hash, Structural)]
pub struct LocationId(pub u32);

#[derive(Debug, Clone, Copy, PartialEq, Eq, Hash, Structural)]
pub enum LocationTag {
    Public,
    Residential,
    Industrial,
    HighSecurity,
}

/// How the authorities answer a location's heat.
#[derive(Debug, Clone, Copy, PartialEq, Eq, Structural)]
pub enum HeatResponse {
    NoResponse,
    PolicePatrol,
    Investigation,
    FactionAttention,
}

pub struct LocationState {
    pub id: LocationId,
    pub tags: Vec<LocationTag>,
    pub heat: i32,
    pub crime_pressure: i32,
    pub police_presence: i32,
    pub surveillance_level: i32,
    pub lockdown_level: i32,
    pub police_units: u8,
    pub investigators: u8,
    pub gang_units: u8,
    pub faction_influence: Ledger<u16>,
    pub response: HeatResponse,
}

/// The city's locations, each under its own id, and the one the player is at.
pub struct CityState {
    pub locations: Vec<LocationState>,
    pub active_location: LocationId,
}

/// The quadrant a position lies in: 1 north-east, 2 north-west, 3 south-east, 4
/// south-west, with the axes counting as north and east.
pub open spec fn quadrant_of(pos: Position) -> LocationId {
    if pos.x >= 0 && pos.y >= 0 {
        LocationId(1)
    } else if pos.y >= 0 {
        LocationId(2)
    } else if pos.x >= 0 {
        LocationId(3)
    } else {
        LocationId(4)
    }
}

/// The starting figures of a location: its id, tag, crime pressure, police presence,
/// surveillance, lockdown, police units and gang units.
pub type LocationSeed = (u32, LocationTag, i32, i32, i32, i32, u8, u8);

pub open spec fn default_locations() -> Seq<LocationSeed> {
    seq![
        (1u32, LocationTag::Public, 8i32, 20i32, 15i32, 0i32, 1u8, 0u8),
        (2u32, LocationTag::Residential, 4i32, 15i32, 10i32, 0i32, 1u8, 0u8),
        (3u32, LocationTag::Industrial, 10i32, 10i32, 5i32, 0i32, 0u8, 1u8),
        (4u32, LocationTag::HighSecurity, 12i32, 35i32, 40i32, 10i32, 2u8, 0u8),
    ]
}

/// A calm location from its starting figures: no heat, no investigators, no faction
/// influence, no response.
pub open spec fn seeded(l: LocationState, s: LocationSeed) -> bool {
    &&& l.id == LocationId(s.0)
    &&& l.tags@ == seq![s.1]
    &&& l.heat == 0
    &&& l.crime_pressure == s.2
    &&& l.police_presence == s.3
    &&& l.surveillance_level == s.4
    &&& l.lockdown_level == s.5
    &&& l.police_units == s.6
    &&& l.investigators == 0
    &&& l.gang_units == s.7
    &&& l.faction_influence.map().len() == 0
    &&& l.response == HeatResponse::NoResponse
}

fn seed_location(s: LocationSeed) -> (l: LocationState)
    ensures
        seeded(l, s),
{
    let mut tags: Vec<LocationTag> = Vec::new();
    tags.push(s.1);
    assert(tags@ =~= seq![s.1]);
    LocationState {
        id: LocationId(s.0),
        tags,
        heat: 0,
        crime_pressure: s.2,
        police_presence: s.3,
        surveillance_level: s.4,
        lockdown_level: s.5,
        police_units: s.6,
        investigators: 0,
        gang_units: s.7,
        faction_influence: Ledger::new(),
        response: HeatResponse::NoResponse,
    }
}

impl CityState {
    /// The location a position belongs to.
    pub fn location_for_position(&self, pos: &Position) -> (id: LocationId)
        ensures
            id == quadrant_of(*pos),
    {
        if pos.x >= 0 && pos.y >= 0 {
            LocationId(1)
        } else if pos.y >= 0 {
            LocationId(2)
        } else if pos.x >= 0 {
            LocationId(3)
        } else {
            LocationId(4)
        }
    }
}

impl Default for CityState {
    /// The four starting districts, with the player in the first.
    fn default() -> (c: CityState)
        ensures
            c.locations@.len() == 4,
            forall|i: int| 0 <= i < 4 ==> seeded(#[trigger] c.locations@[i], default_locations()[i]),
            c.active_location == LocationId(1),
    {
        let mut locations: Vec<LocationState> = Vec::new();
        locations.push(seed_location((1u32, LocationTag::Public, 8i32, 20i32, 15i32, 0i32, 1u8, 0u8)));
        locations.push(seed_location((2u32, LocationTag::Residential, 4i32, 15i32, 10i32, 0i32, 1u8, 0u8)));
        locations.push(seed_location((3u32, LocationTag::Industrial, 10i32, 10i32, 5i32, 0i32, 0u8, 1u8)));
        locations.push(seed_location((4u32, LocationTag::HighSecurity, 12i32, 35i32, 40i32, 10i32, 2u8, 0u8)));
        CityState { locations, active_location: LocationId(1) }
    }
}

} // verus!
