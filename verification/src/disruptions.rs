//! The disruption list of strecken-info.de, requested with a
//! [`DisruptionsFilter`] for a revision.
use vstd::prelude::*;

use crate::filter::DisruptionsFilter;
use crate::time::DateTime;

verus! {

/// The body of a request for the disruption list.
pub struct DisruptionRequestPayload {
    pub filter: DisruptionsFilter,
    pub revision: u32,
}

impl DisruptionRequestPayload {
    pub fn new(filter: DisruptionsFilter, revision: u32) -> (res: Self)
        ensures
            res.filter == filter,
            res.revision == revision,
    {
        DisruptionRequestPayload { filter, revision }
    }
}

#[derive(Debug, Clone, PartialEq)]
pub struct Disruption {
    pub key: String,
    pub subcause: Option<String>,
    pub cause: String,
    pub expired: bool,
    pub track_restriction: TrackRestriction,
    pub text: String,
    pub region_areas: Vec<String>,
    pub regions: Vec<String>,
    pub coordinates: Vec<DisruptionCoordinates>,
    pub stations: Vec<DisruptionStation>,
    pub sections: Vec<DisruptionSection>,
    pub effects: Vec<DisruptionEffect>,
    pub period: DisruptionPeriod,
    pub collective_report: bool,
}

#[derive(Debug, Clone, Copy, PartialEq, Eq, Structural)]
pub enum TrackRestriction {
    Severe,
    Slight,
}

#[derive(Debug, Clone, Copy, PartialEq, Eq, Structural)]
pub struct DisruptionPeriod {
    pub start: DateTime,
    pub end: DateTime,
}

#[derive(Debug, PartialEq)]
pub struct DisruptionStation {
    pub name: String,
    pub ril100: String,
}

impl Clone for DisruptionStation {
    fn clone(&self) -> (res: Self)
        ensures
            res == *self,
    {
        DisruptionStation { name: self.name.clone(), ril100: self.ril100.clone() }
    }
}

#[derive(Debug, Clone, PartialEq)]
pub struct DisruptionSection {
    pub from: DisruptionStation,
    pub to: DisruptionStation,
    pub track_number: u32,
}

#[derive(Debug, Clone, Copy, PartialEq, Eq, Structural)]
pub enum Product {
    LongDistance,
    Local,
    Freight,
}

#[derive(Debug, Clone, PartialEq)]
pub struct DisruptionEffect {
    pub effect: String,
    pub product: Vec<Product>,
}

/// A coordinate pair of a disruption. The service sends floating-point
/// numbers (or `NaN`); the library carries their IEEE 754 bit patterns.
#[derive(Debug, Clone, Copy, PartialEq, Eq, Structural)]
pub struct DisruptionCoordinates {
    pub x_bits: u64,
    pub y_bits: u64,
}

/// The station at position `i` is kept: it is the first one, or its name
/// differs from the name of the station before it.
pub open spec fn keeps_station(stations: Seq<DisruptionStation>, i: int) -> bool {
    i == 0 || stations[i].name@ != stations[i - 1].name@
}

/// The stations without the consecutive repetitions of a name: of each run of
/// stations with the same name only the first one stays.
pub open spec fn dedup_by_name(stations: Seq<DisruptionStation>) -> Seq<DisruptionStation>
    decreases stations.len(),
{
    if stations.len() == 0 {
        stations
    } else {
        let rest = dedup_by_name(stations.drop_last());
        if keeps_station(stations, stations.len() - 1) {
            rest.push(stations.last())
        } else {
            rest
        }
    }
}

/// The last station that stays is the last station of the list, or one with its name.
pub proof fn lemma_dedup_last(stations: Seq<DisruptionStation>)
    requires
        stations.len() > 0,
    ensures
        dedup_by_name(stations).len() > 0,
        dedup_by_name(stations).last().name@ == stations.last().name@,
    decreases stations.len(),
{
    if !keeps_station(stations, stations.len() - 1) {
        lemma_dedup_last(stations.drop_last());
    }
}

/// After the removal no two neighbouring stations have the same name.
pub proof fn lemma_dedup_no_repeats(stations: Seq<DisruptionStation>)
    ensures
        forall|i: int|
            1 <= i < dedup_by_name(stations).len() ==> (#[trigger] dedup_by_name(stations)[i]).name@
                != dedup_by_name(stations)[i - 1].name@,
    decreases stations.len(),
{
    if stations.len() > 0 {
        let rest = stations.drop_last();
        lemma_dedup_no_repeats(rest);
        if keeps_station(stations, stations.len() - 1) {
            let d = dedup_by_name(stations);
            let r = dedup_by_name(rest);
            if rest.len() > 0 {
                lemma_dedup_last(rest);
            }
            assert(d == r.push(stations.last()));
            assert forall|i: int| 1 <= i < d.len() implies (#[trigger] d[i]).name@ != d[i
                - 1].name@ by {
                if i < r.len() {
                    assert(d[i] == r[i] && d[i - 1] == r[i - 1]);
                } else {
                    assert(stations[stations.len() - 2] == rest.last());
                }
            }
        } else {
            assert(dedup_by_name(stations) == dedup_by_name(rest));
        }
    }
}

/// A list without neighbouring repetitions of a name stays as it is.
pub proof fn lemma_dedup_keeps_distinct(stations: Seq<DisruptionStation>)
    requires
        forall|i: int|
            1 <= i < stations.len() ==> (#[trigger] stations[i]).name@ != stations[i - 1].name@,
    ensures
        dedup_by_name(stations) == stations,
    decreases stations.len(),
{
    if stations.len() > 0 {
        let rest = stations.drop_last();
        assert forall|i: int| 1 <= i < rest.len() implies (#[trigger] rest[i]).name@ != rest[i
            - 1].name@ by {
            assert(rest[i] == stations[i]);
        }
        lemma_dedup_keeps_distinct(rest);
        assert(rest.push(stations.last()) =~= stations);
    }
}

/// Removes the consecutive repetitions of a station name from a list of
/// stations, keeping the first station of each run.
pub fn dedup_stations(stations: &Vec<DisruptionStation>) -> (res: Vec<DisruptionStation>)
    ensures
        res@ == dedup_by_name(stations@),
{
    let n = stations.len();
    let mut res: Vec<DisruptionStation> = Vec::new();
    let mut i: usize = 0;
    assert(stations@.take(0) =~= Seq::<DisruptionStation>::empty());
    while i < n
        invariant
            n == stations@.len(),
            i <= n,
            res@ == dedup_by_name(stations@.take(i as int)),
        decreases n - i,
    {
        proof {
            assert(stations@.take(i + 1).drop_last() =~= stations@.take(i as int));
        }
        let keep = if i == 0 {
            true
        } else {
            !stations[i].name.eq(&stations[i - 1].name)
        };
        proof {
            assert(keep == keeps_station(stations@.take(i + 1), i as int));
        }
        if keep {
            res.push(stations[i].clone());
        }
        i = i + 1;
    }
    assert(stations@.take(n as int) =~= stations@);
    res
}

/// Two disruptions agree on every field but their stations.
pub open spec fn same_but_stations(a: Disruption, b: Disruption) -> bool {
    &&& a.key == b.key
    &&& a.subcause == b.subcause
    &&& a.cause == b.cause
    &&& a.expired == b.expired
    &&& a.track_restriction == b.track_restriction
    &&& a.text == b.text
    &&& a.region_areas == b.region_areas
    &&& a.regions == b.regions
    &&& a.coordinates == b.coordinates
    &&& a.sections == b.sections
    &&& a.effects == b.effects
    &&& a.period == b.period
    &&& a.collective_report == b.collective_report
}

/// Removes from the stations of every disruption the consecutive repetitions
/// of a name.
pub fn dedup_disruption_stations(disruptions: &mut Vec<Disruption>)
    ensures
        final(disruptions)@.len() == old(disruptions)@.len(),
        forall|k: int|
            0 <= k < old(disruptions)@.len() ==> {
                &&& same_but_stations(old(disruptions)@[k], #[trigger] final(disruptions)@[k])
                &&& final(disruptions)@[k].stations@ == dedup_by_name(
                    old(disruptions)@[k].stations@,
                )
            },
{
    let ghost start = disruptions@;
    let n = disruptions.len();
    let mut k: usize = 0;
    while k < n
        invariant
            n == disruptions@.len(),
            n == start.len(),
            k <= n,
            forall|j: int|
                0 <= j < k ==> {
                    &&& same_but_stations(start[j], #[trigger] disruptions@[j])
                    &&& disruptions@[j].stations@ == dedup_by_name(start[j].stations@)
                },
            forall|j: int| k <= j < n ==> #[trigger] disruptions@[j] == start[j],
        decreases n - k,
    {
        let stations = dedup_stations(&disruptions[k].stations);
        disruptions[k].stations = stations;
        k = k + 1;
    }
}

} // verus!
