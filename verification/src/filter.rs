//! The filter of a request to the disruption list of strecken-info.de.
use vstd::prelude::*;

use crate::time::DateTime;

verus! {

#[derive(Debug, Clone)]
pub struct DisruptionsFilter {
    pub construction_sites: bool,
    pub construction_sites_only_full_closures: bool,
    pub stations: Vec<String>,
    pub region_areas: Vec<RegionArea>,
    pub disruptions: bool,
    pub railway_line_numbers: Vec<u32>,
    pub railway_line_rest: bool,
    pub duration_of_effect: u32,
    pub time: DisruptionsFilterTime,
}

#[derive(Debug, Clone, Copy, PartialEq, Eq, Structural)]
pub enum RegionArea {
    Middle,
    North,
    East,
    South,
    SouthEast,
    SouthWest,
    West,
}

#[derive(Debug, Clone, Copy, PartialEq, Eq, Structural)]
pub enum DisruptionsFilterTimeWeekday {
    Monday,
    Tuesday,
    Wednesday,
    Thursday,
    Friday,
    Saturday,
    Sunday,
}

#[derive(Debug, Clone)]
pub enum DisruptionsFilterTime {
    /// The coming hours from now on.
    Hours { hours: u32 },
    /// A fixed span of time, on the given weekdays.
    Fix { start: DateTime, end: DateTime, weekdays: Vec<DisruptionsFilterTimeWeekday> },
}

/// All region areas, in the order in which the filter lists them.
pub open spec fn all_region_areas() -> Seq<RegionArea> {
    seq![
        RegionArea::Middle,
        RegionArea::North,
        RegionArea::East,
        RegionArea::South,
        RegionArea::SouthEast,
        RegionArea::SouthWest,
        RegionArea::West,
    ]
}

/// The filter that asks for the disruptions, construction sites and line
/// closures of the coming two hours in all region areas.
pub open spec fn is_default_filter(f: DisruptionsFilter) -> bool {
    &&& f.construction_sites
    &&& !f.construction_sites_only_full_closures
    &&& f.stations@.len() == 0
    &&& f.region_areas@ == all_region_areas()
    &&& f.disruptions
    &&& f.railway_line_numbers@.len() == 0
    &&& f.railway_line_rest
    &&& f.duration_of_effect == 0
    &&& f.time matches DisruptionsFilterTime::Hours { hours } && hours == 2
}

impl Default for DisruptionsFilter {
    fn default() -> (res: Self)
        ensures
            is_default_filter(res),
    {
        let mut region_areas: Vec<RegionArea> = Vec::new();
        region_areas.push(RegionArea::Middle);
        region_areas.push(RegionArea::North);
        region_areas.push(RegionArea::East);
        region_areas.push(RegionArea::South);
        region_areas.push(RegionArea::SouthEast);
        region_areas.push(RegionArea::SouthWest);
        region_areas.push(RegionArea::West);
        assert(region_areas@ =~= all_region_areas());
        Self {
            construction_sites: true,
            construction_sites_only_full_closures: false,
            stations: Vec::new(),
            region_areas,
            disruptions: true,
            railway_line_numbers: Vec::new(),
            railway_line_rest: true,
            duration_of_effect: 0,
            time: DisruptionsFilterTime::Hours { hours: 2 },
        }
    }
}

} // verus!
