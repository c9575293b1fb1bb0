//! `HimGeoPos` requests: all disruptions inside a rectangle and a span of time.
use vstd::prelude::*;

use crate::disruption::{Disruption, Event, Location, LocationRange, Region};
use crate::error::StreckenInfoError;
use crate::request::{
    has_answer_of, is_first_answer_of, is_ok_text, ok_text, position_of_answer, Response,
    ResponseType, ServiceKind,
};
use crate::time::{
    compact_date_text, compact_time_text, format_compact_date, format_compact_time, Date, DateTime,
    Time,
};

verus! {

/// A corner of the searched rectangle.
#[derive(Debug, Clone, Copy, PartialEq, Eq, Structural)]
pub struct Pos {
    pub x: u32,
    pub y: u32,
}

impl Pos {
    pub fn new(x: u32, y: u32) -> (res: Self)
        ensures
            res == (Pos { x, y }),
    {
        Self { x, y }
    }
}

pub struct GeoPosRequest {
    pub date_b: String,
    pub date_e: String,
    pub get_poly_line: bool,
    pub him_fltr_l: Vec<HimFiltrL>,
    pub max_num: u16,
    pub only_him_id: bool,
    pub prio: u16,
    pub rect: GeoPosRect,
    pub time_b: String,
    pub time_e: String,
}

/// A filter on the disruptions of a geo-position request.
pub struct HimFiltrL {
    pub mode: String,
    pub type_: String,
    pub value: String,
}

/// The searched rectangle: its lower left and its upper right corner.
#[derive(Debug, Clone, Copy, PartialEq, Eq, Structural)]
pub struct GeoPosRect {
    pub ll_crd: Pos,
    pub ur_crd: Pos,
}

/// The rectangle that is searched when the caller gives none: it spans Germany.
pub open spec fn default_pos_range() -> (Pos, Pos) {
    (Pos { x: 5383300, y: 48026672 }, Pos { x: 14238281, y: 54156001 })
}

/// The filter `HIMCAT` includes the category `value`.
pub open spec fn is_category_filter(f: HimFiltrL, value: Seq<char>) -> bool {
    f.mode@ == "INC"@ && f.type_@ == "HIMCAT"@ && f.value@ == value
}

impl GeoPosRequest {
    /// The parameters of a request for the disruptions between `start` and
    /// `end`, at most `max_num` of them, of priority `prio` or more important
    /// (100 asks for all), inside `pos_range` or, without one, inside
    /// Germany. Both categories, unplanned (`0`) and planned (`1`), are asked for.
    pub fn new(
        start: DateTime,
        end: DateTime,
        max_num: u16,
        prio: u16,
        pos_range: Option<(Pos, Pos)>,
    ) -> (res: GeoPosRequest)
        requires
            start.wf(),
            end.wf(),
        ensures
            res.date_b@ == compact_date_text(start.date),
            res.time_b@ == compact_time_text(start.time),
            res.date_e@ == compact_date_text(end.date),
            res.time_e@ == compact_time_text(end.time),
            !res.get_poly_line,
            res.him_fltr_l@.len() == 2,
            is_category_filter(res.him_fltr_l@[0], "0"@),
            is_category_filter(res.him_fltr_l@[1], "1"@),
            res.max_num == max_num,
            !res.only_him_id,
            res.prio == prio,
            (res.rect.ll_crd, res.rect.ur_crd) == (match pos_range {
                Some(range) => range,
                None => default_pos_range(),
            }),
    {
        let pos_range = match pos_range {
            Some(s) => s,
            None => (Pos::new(5383300, 48026672), Pos::new(14238281, 54156001)),
        };
        let mut him_fltr_l: Vec<HimFiltrL> = Vec::new();
        him_fltr_l.push(
            HimFiltrL { mode: "INC".to_owned(), type_: "HIMCAT".to_owned(), value: "0".to_owned() },
        );
        him_fltr_l.push(
            HimFiltrL { mode: "INC".to_owned(), type_: "HIMCAT".to_owned(), value: "1".to_owned() },
        );
        GeoPosRequest {
            date_b: format_compact_date(&start.date),
            time_b: format_compact_time(&start.time),
            date_e: format_compact_date(&end.date),
            time_e: format_compact_time(&end.time),
            get_poly_line: false,
            him_fltr_l,
            max_num,
            only_him_id: false,
            prio,
            rect: GeoPosRect { ll_crd: pos_range.0, ur_crd: pos_range.1 },
        }
    }
}

/// An edge of the response: the location it starts at and, optionally, the
/// location it ends at, both as indices into the locations of the response.
#[derive(Debug, Clone, Copy, PartialEq, Eq, Structural)]
pub struct Edge {
    pub f_loc_x: u16,
    pub f_loc_y: Option<u16>,
}

/// An event of the response: a start and an end, each a date and a time.
#[derive(Debug, Clone, Copy, PartialEq, Eq, Structural)]
pub struct MsgEvent {
    pub f_date: Date,
    pub f_time: Time,
    pub t_date: Date,
    pub t_time: Time,
}

#[derive(Debug, Clone)]
pub struct GeoPosResponse {
    pub common: GeoPosCommon,
}

/// The common part of a response: the disruptions, and the tables that their
/// references point into.
#[derive(Debug, Clone)]
pub struct GeoPosCommon {
    pub disruptions: Vec<Disruption>,
    pub locations: Vec<Location>,
    pub regions: Vec<Region>,
    pub edges: Vec<Edge>,
    pub msg_events: Vec<MsgEvent>,
}

/// Two records agree on every field but the three lists that linking fills.
pub open spec fn same_record(a: Disruption, b: Disruption) -> bool {
    &&& a.act == b.act
    &&& a.planned == b.planned
    &&& a.display_head == b.display_head
    &&& a.start_date == b.start_date
    &&& a.start_time == b.start_time
    &&& a.end_date == b.end_date
    &&& a.end_time == b.end_time
    &&& a.id == b.id
    &&& a.last_modified_date == b.last_modified_date
    &&& a.last_modified_time == b.last_modified_time
    &&& a.prio == b.prio
    &&& a.affected_regions == b.affected_regions
    &&& a.head == b.head
    &&& a.text == b.text
    &&& a.impact == b.impact
    &&& a.affected_journeys == b.affected_journeys
    &&& a.edge_ref_l == b.edge_ref_l
    &&& a.region_ref_l == b.region_ref_l
    &&& a.event_ref_l == b.event_ref_l
}

impl GeoPosCommon {
    /// The location range that an edge reference stands for, if every index
    /// on the way points to an entry.
    pub open spec fn edge_target(self, edge_ref: u16) -> Option<LocationRange> {
        if (edge_ref as int) < self.edges@.len() {
            let edge = self.edges@[edge_ref as int];
            if (edge.f_loc_x as int) < self.locations@.len() {
                let from = self.locations@[edge.f_loc_x as int];
                match edge.f_loc_y {
                    None => Some(LocationRange { from, to: None }),
                    Some(y) => if (y as int) < self.locations@.len() {
                        Some(LocationRange { from, to: Some(self.locations@[y as int]) })
                    } else {
                        None
                    },
                }
            } else {
                None
            }
        } else {
            None
        }
    }

    /// The region that a region reference stands for.
    pub open spec fn region_target(self, region_ref: u16) -> Option<Region> {
        if (region_ref as int) < self.regions@.len() {
            Some(self.regions@[region_ref as int])
        } else {
            None
        }
    }

    /// The event that an event reference stands for: from the start date at
    /// the start time to the end date at the end time.
    pub open spec fn event_target(self, event_ref: u16) -> Option<Event> {
        if (event_ref as int) < self.msg_events@.len() {
            let e = self.msg_events@[event_ref as int];
            Some(
                Event {
                    start_time: crate::time::DateTime { date: e.f_date, time: e.f_time },
                    end_time: crate::time::DateTime { date: e.t_date, time: e.t_time },
                },
            )
        } else {
            None
        }
    }

    /// Every reference of the disruption points to an entry.
    pub open spec fn references_resolve(self, d: Disruption) -> bool {
        &&& forall|i: int|
            0 <= i < d.edge_ref_l@.len() ==> (#[trigger] self.edge_target(d.edge_ref_l@[i])) is Some
        &&& forall|i: int|
            0 <= i < d.region_ref_l@.len() ==> (#[trigger] self.region_target(
                d.region_ref_l@[i],
            )) is Some
        &&& forall|i: int|
            0 <= i < d.event_ref_l@.len() ==> (#[trigger] self.event_target(
                d.event_ref_l@[i],
            )) is Some
    }

    /// Every reference of every disruption points to an entry.
    pub open spec fn all_references_resolve(self) -> bool {
        forall|k: int|
            0 <= k < self.disruptions@.len() ==> self.references_resolve(
                #[trigger] self.disruptions@[k],
            )
    }

    /// `linked` is `d` with the targets of its references appended, in order,
    /// to its locations, regions and events.
    pub open spec fn is_linked(self, d: Disruption, linked: Disruption) -> bool {
        &&& same_record(d, linked)
        &&& linked.locations@ == d.locations@ + d.edge_ref_l@.map_values(
            |e: u16| self.edge_target(e)->0,
        )
        &&& linked.regions@ == d.regions@ + d.region_ref_l@.map_values(
            |r: u16| self.region_target(r)->0,
        )
        &&& linked.events@ == d.events@ + d.event_ref_l@.map_values(
            |e: u16| self.event_target(e)->0,
        )
    }

    /// The tables of `other` are those of `self`.
    pub open spec fn same_tables(self, other: GeoPosCommon) -> bool {
        &&& self.locations == other.locations
        &&& self.regions == other.regions
        &&& self.edges == other.edges
        &&& self.msg_events == other.msg_events
    }

    /// `partial` is `d` after linking stopped at the first reference of `d`
    /// that points to no entry, taking the lists in the order edges, regions,
    /// events: it holds the targets of the references before that one, and the
    /// lists after it are untouched.
    pub open spec fn is_partially_linked(self, d: Disruption, partial: Disruption) -> bool {
        &&& same_record(d, partial)
        &&& {
            ||| exists|a: int|
                #![trigger self.edge_target(d.edge_ref_l@[a])]
                0 <= a < d.edge_ref_l@.len() && self.edge_target(d.edge_ref_l@[a]) is None && (
                forall|m: int|
                    0 <= m < a ==> (#[trigger] self.edge_target(d.edge_ref_l@[m])) is Some)
                    && partial.locations@ == d.locations@ + d.edge_ref_l@.take(a).map_values(
                    |e: u16| self.edge_target(e)->0,
                ) && partial.regions == d.regions && partial.events == d.events
            ||| exists|b: int|
                #![trigger self.region_target(d.region_ref_l@[b])]
                0 <= b < d.region_ref_l@.len() && self.region_target(d.region_ref_l@[b]) is None
                    && (forall|m: int|
                    0 <= m < d.edge_ref_l@.len() ==> (#[trigger] self.edge_target(
                        d.edge_ref_l@[m],
                    )) is Some) && (forall|m: int|
                    0 <= m < b ==> (#[trigger] self.region_target(d.region_ref_l@[m])) is Some)
                    && partial.locations@ == d.locations@ + d.edge_ref_l@.map_values(
                    |e: u16| self.edge_target(e)->0,
                ) && partial.regions@ == d.regions@ + d.region_ref_l@.take(b).map_values(
                    |r: u16| self.region_target(r)->0,
                ) && partial.events == d.events
            ||| exists|c: int|
                #![trigger self.event_target(d.event_ref_l@[c])]
                0 <= c < d.event_ref_l@.len() && self.event_target(d.event_ref_l@[c]) is None
                    && (forall|m: int|
                    0 <= m < d.edge_ref_l@.len() ==> (#[trigger] self.edge_target(
                        d.edge_ref_l@[m],
                    )) is Some) && (forall|m: int|
                    0 <= m < d.region_ref_l@.len() ==> (#[trigger] self.region_target(
                        d.region_ref_l@[m],
                    )) is Some) && (forall|m: int|
                    0 <= m < c ==> (#[trigger] self.event_target(d.event_ref_l@[m])) is Some)
                    && partial.locations@ == d.locations@ + d.edge_ref_l@.map_values(
                    |e: u16| self.edge_target(e)->0,
                ) && partial.regions@ == d.regions@ + d.region_ref_l@.map_values(
                    |r: u16| self.region_target(r)->0,
                ) && partial.events@ == d.events@ + d.event_ref_l@.take(c).map_values(
                    |e: u16| self.event_target(e)->0,
                )
        }
    }

    /// Linking `self` stopped at disruption `k`, the first one with a reference
    /// to no entry: the disruptions before it are linked, it is partially
    /// linked, and the ones after it are untouched.
    pub open spec fn stopped_at(self, after: GeoPosCommon, k: int) -> bool {
        &&& 0 <= k < self.disruptions@.len()
        &&& after.disruptions@.len() == self.disruptions@.len()
        &&& forall|j: int|
            0 <= j < k ==> self.references_resolve(#[trigger] self.disruptions@[j])
                && self.is_linked(self.disruptions@[j], after.disruptions@[j])
        &&& self.is_partially_linked(self.disruptions@[k], after.disruptions@[k])
        &&& forall|j: int|
            k < j < self.disruptions@.len() ==> #[trigger] after.disruptions@[j]
                == self.disruptions@[j]
    }

    /// Every entry that linking appends to `linked` is the table entry that
    /// the reference names, counted from the front of the table.
    pub open spec fn links_to_table_entries(self, d: Disruption, linked: Disruption) -> bool {
        &&& linked.locations@.len() == d.locations@.len() + d.edge_ref_l@.len()
        &&& linked.regions@.len() == d.regions@.len() + d.region_ref_l@.len()
        &&& linked.events@.len() == d.events@.len() + d.event_ref_l@.len()
        &&& forall|i: int|
            0 <= i < d.edge_ref_l@.len() ==> {
                let e = #[trigger] d.edge_ref_l@[i];
                let edge = self.edges@[e as int];
                let added = linked.locations@[d.locations@.len() + i];
                &&& (e as int) < self.edges@.len()
                &&& (edge.f_loc_x as int) < self.locations@.len()
                &&& added.from == self.locations@[edge.f_loc_x as int]
                &&& match edge.f_loc_y {
                    None => added.to is None,
                    Some(y) => (y as int) < self.locations@.len() && added.to == Some(
                        self.locations@[y as int],
                    ),
                }
            }
        &&& forall|i: int|
            0 <= i < d.region_ref_l@.len() ==> {
                let r = #[trigger] d.region_ref_l@[i];
                &&& (r as int) < self.regions@.len()
                &&& linked.regions@[d.regions@.len() + i] == self.regions@[r as int]
            }
        &&& forall|i: int|
            0 <= i < d.event_ref_l@.len() ==> {
                let r = #[trigger] d.event_ref_l@[i];
                let m = self.msg_events@[r as int];
                &&& (r as int) < self.msg_events@.len()
                &&& linked.events@[d.events@.len() + i] == Event {
                    start_time: DateTime { date: m.f_date, time: m.f_time },
                    end_time: DateTime { date: m.t_date, time: m.t_time },
                }
            }
    }

    /// A linked disruption whose references all resolve holds, after its old
    /// entries, exactly the table entries that its references name: the `r`-th
    /// location, region or event of the response for a reference `r`.
    pub proof fn lemma_linked_entries(self, d: Disruption, linked: Disruption)
        requires
            self.references_resolve(d),
            self.is_linked(d, linked),
        ensures
            self.links_to_table_entries(d, linked),
    {
        assert forall|i: int| 0 <= i < d.edge_ref_l@.len() implies {
            let e = #[trigger] d.edge_ref_l@[i];
            let edge = self.edges@[e as int];
            let added = linked.locations@[d.locations@.len() + i];
            &&& (e as int) < self.edges@.len()
            &&& (edge.f_loc_x as int) < self.locations@.len()
            &&& added.from == self.locations@[edge.f_loc_x as int]
            &&& match edge.f_loc_y {
                None => added.to is None,
                Some(y) => (y as int) < self.locations@.len() && added.to == Some(
                    self.locations@[y as int],
                ),
            }
        } by {
            assert(self.edge_target(d.edge_ref_l@[i]) is Some);
        }
        assert forall|i: int| 0 <= i < d.region_ref_l@.len() implies {
            let r = #[trigger] d.region_ref_l@[i];
            &&& (r as int) < self.regions@.len()
            &&& linked.regions@[d.regions@.len() + i] == self.regions@[r as int]
        } by {
            assert(self.region_target(d.region_ref_l@[i]) is Some);
        }
        assert forall|i: int| 0 <= i < d.event_ref_l@.len() implies {
            let r = #[trigger] d.event_ref_l@[i];
            let m = self.msg_events@[r as int];
            &&& (r as int) < self.msg_events@.len()
            &&& linked.events@[d.events@.len() + i] == Event {
                start_time: DateTime { date: m.f_date, time: m.f_time },
                end_time: DateTime { date: m.t_date, time: m.t_time },
            }
        } by {
            assert(self.event_target(d.event_ref_l@[i]) is Some);
        }
    }

    /// Resolves the references of every disruption: each edge reference
    /// becomes a location range, each region reference a region and each event
    /// reference an event. Fails with `ReferenceError` when some reference
    /// points to no entry.
    pub fn link(&mut self) -> (res: Result<(), StreckenInfoError>)
        ensures
            old(self).same_tables(*final(self)),
            final(self).disruptions@.len() == old(self).disruptions@.len(),
            forall|k: int|
                0 <= k < old(self).disruptions@.len() ==> same_record(
                    old(self).disruptions@[k],
                    #[trigger] final(self).disruptions@[k],
                ),
            res is Ok <==> old(self).all_references_resolve(),
            res is Err ==> res == Err::<(), StreckenInfoError>(StreckenInfoError::ReferenceError),
            res is Err ==> exists|k: int| #[trigger] old(self).stopped_at(*final(self), k),
            res is Ok ==> forall|k: int|
                0 <= k < old(self).disruptions@.len() ==> old(self).is_linked(
                    old(self).disruptions@[k],
                    #[trigger] final(self).disruptions@[k],
                ),
            res is Ok ==> forall|k: int, i: int|
                0 <= k < old(self).disruptions@.len() && 0 <= i
                    < old(self).disruptions@[k].edge_ref_l@.len() ==> {
                    let e = #[trigger] old(self).disruptions@[k].edge_ref_l@[i];
                    let edge = old(self).edges@[e as int];
                    let added = final(self).disruptions@[k].locations@[old(
                        self,
                    ).disruptions@[k].locations@.len() + i];
                    &&& (e as int) < old(self).edges@.len()
                    &&& (edge.f_loc_x as int) < old(self).locations@.len()
                    &&& added.from == old(self).locations@[edge.f_loc_x as int]
                    &&& match edge.f_loc_y {
                        None => added.to is None,
                        Some(y) => (y as int) < old(self).locations@.len() && added.to == Some(
                            old(self).locations@[y as int],
                        ),
                    }
                },
            res is Ok ==> forall|k: int, i: int|
                0 <= k < old(self).disruptions@.len() && 0 <= i
                    < old(self).disruptions@[k].region_ref_l@.len() ==> {
                    let r = #[trigger] old(self).disruptions@[k].region_ref_l@[i];
                    &&& (r as int) < old(self).regions@.len()
                    &&& final(self).disruptions@[k].regions@[old(self).disruptions@[k].regions@.len()
                        + i] == old(self).regions@[r as int]
                },
            res is Ok ==> forall|k: int, i: int|
                0 <= k < old(self).disruptions@.len() && 0 <= i
                    < old(self).disruptions@[k].event_ref_l@.len() ==> {
                    let r = #[trigger] old(self).disruptions@[k].event_ref_l@[i];
                    let m = old(self).msg_events@[r as int];
                    &&& (r as int) < old(self).msg_events@.len()
                    &&& final(self).disruptions@[k].events@[old(self).disruptions@[k].events@.len()
                        + i] == Event {
                        start_time: DateTime { date: m.f_date, time: m.f_time },
                        end_time: DateTime { date: m.t_date, time: m.t_time },
                    }
                },
            res is Ok ==> forall|k: int|
                0 <= k < old(self).disruptions@.len() ==> {
                    &&& (#[trigger] final(self).disruptions@[k]).locations@.len() == old(
                        self,
                    ).disruptions@[k].locations@.len() + old(self).disruptions@[k].edge_ref_l@.len()
                    &&& final(self).disruptions@[k].regions@.len() == old(
                        self,
                    ).disruptions@[k].regions@.len() + old(self).disruptions@[k].region_ref_l@.len()
                    &&& final(self).disruptions@[k].events@.len() == old(
                        self,
                    ).disruptions@[k].events@.len() + old(self).disruptions@[k].event_ref_l@.len()
                },
    {
        let ghost start = *self;
        let n = self.disruptions.len();
        let mut k: usize = 0;
        while k < n
            invariant
                n == start.disruptions@.len(),
                n == self.disruptions@.len(),
                start == *old(self),
                k <= n,
                start.same_tables(*self),
                forall|j: int|
                    0 <= j < k ==> start.is_linked(
                        start.disruptions@[j],
                        #[trigger] self.disruptions@[j],
                    ),
                forall|j: int|
                    k <= j < n ==> #[trigger] self.disruptions@[j] == start.disruptions@[j],
                forall|j: int|
                    0 <= j < k ==> start.references_resolve(#[trigger] start.disruptions@[j]),
            decreases n - k,
        {
            let ghost d0 = self.disruptions@[k as int];
            let ghost outer = self.disruptions@;
            // edges
            let n_edges = self.disruptions[k].edge_ref_l.len();
            let mut i: usize = 0;
            while i < n_edges
                invariant
                    n == self.disruptions@.len(),
                    n == start.disruptions@.len(),
                    start == *old(self),
                    k < n,
                    start.same_tables(*self),
                    d0 == start.disruptions@[k as int],
                    outer.len() == n,
                    n_edges == d0.edge_ref_l@.len(),
                    i <= n_edges,
                    same_record(d0, self.disruptions@[k as int]),
                    self.disruptions@[k as int].regions == d0.regions,
                    self.disruptions@[k as int].events == d0.events,
                    self.disruptions@[k as int].locations@ == d0.locations@ + d0.edge_ref_l@.take(
                        i as int,
                    ).map_values(|e: u16| start.edge_target(e)->0),
                    forall|m: int|
                        0 <= m < i ==> (#[trigger] start.edge_target(d0.edge_ref_l@[m])) is Some,
                    forall|j: int|
                        0 <= j < n && j != k ==> #[trigger] self.disruptions@[j] == outer[j],
                    forall|j: int|
                        0 <= j < n ==> same_record(start.disruptions@[j], #[trigger] outer[j]),
                    forall|j: int|
                        0 <= j < k ==> start.references_resolve(#[trigger] start.disruptions@[j])
                            && start.is_linked(start.disruptions@[j], outer[j]),
                    forall|j: int| k < j < n ==> #[trigger] outer[j] == start.disruptions@[j],
                decreases n_edges - i,
            {
                let edge_ref = self.disruptions[k].edge_ref_l[i];
                if edge_ref as usize >= self.edges.len() {
                    proof {
                        assert(start.edge_target(d0.edge_ref_l@[i as int]) is None);
                        assert(!start.references_resolve(start.disruptions@[k as int]));
                        assert(start.is_partially_linked(d0, self.disruptions@[k as int]));
                        assert(start.stopped_at(*self, k as int));
                    }
                    return Err(StreckenInfoError::ReferenceError);
                }
                let edge = self.edges[edge_ref as usize];
                if edge.f_loc_x as usize >= self.locations.len() {
                    proof {
                        assert(start.edge_target(d0.edge_ref_l@[i as int]) is None);
                        assert(!start.references_resolve(start.disruptions@[k as int]));
                        assert(start.is_partially_linked(d0, self.disruptions@[k as int]));
                        assert(start.stopped_at(*self, k as int));
                    }
                    return Err(StreckenInfoError::ReferenceError);
                }
                let from = self.locations[edge.f_loc_x as usize].clone();
                let to = match edge.f_loc_y {
                    Some(y) => {
                        if y as usize >= self.locations.len() {
                            proof {
                        assert(start.edge_target(d0.edge_ref_l@[i as int]) is None);
                        assert(!start.references_resolve(start.disruptions@[k as int]));
                        assert(start.is_partially_linked(d0, self.disruptions@[k as int]));
                        assert(start.stopped_at(*self, k as int));
                    }
                    return Err(StreckenInfoError::ReferenceError);
                        }
                        Some(self.locations[y as usize].clone())
                    },
                    None => None,
                };
                let range = LocationRange { from, to };
                proof {
                    assert(d0.edge_ref_l@.take(i + 1) =~= d0.edge_ref_l@.take(i as int).push(
                        edge_ref,
                    ));
                }
                self.disruptions[k].locations.push(range);
                i = i + 1;
            }
            proof {
                assert(d0.edge_ref_l@.take(n_edges as int) =~= d0.edge_ref_l@);
            }
            // regions
            let n_regions = self.disruptions[k].region_ref_l.len();
            let mut i: usize = 0;
            while i < n_regions
                invariant
                    n == self.disruptions@.len(),
                    n == start.disruptions@.len(),
                    start == *old(self),
                    k < n,
                    start.same_tables(*self),
                    d0 == start.disruptions@[k as int],
                    outer.len() == n,
                    n_regions == d0.region_ref_l@.len(),
                    i <= n_regions,
                    same_record(d0, self.disruptions@[k as int]),
                    self.disruptions@[k as int].events == d0.events,
                    self.disruptions@[k as int].locations@ == d0.locations@
                        + d0.edge_ref_l@.map_values(|e: u16| start.edge_target(e)->0),
                    self.disruptions@[k as int].regions@ == d0.regions@ + d0.region_ref_l@.take(
                        i as int,
                    ).map_values(|r: u16| start.region_target(r)->0),
                    forall|m: int|
                        0 <= m < d0.edge_ref_l@.len() ==> (#[trigger] start.edge_target(
                            d0.edge_ref_l@[m],
                        )) is Some,
                    forall|m: int|
                        0 <= m < i ==> (#[trigger] start.region_target(d0.region_ref_l@[m])) is Some,
                    forall|j: int|
                        0 <= j < n && j != k ==> #[trigger] self.disruptions@[j] == outer[j],
                    forall|j: int|
                        0 <= j < n ==> same_record(start.disruptions@[j], #[trigger] outer[j]),
                    forall|j: int|
                        0 <= j < k ==> start.references_resolve(#[trigger] start.disruptions@[j])
                            && start.is_linked(start.disruptions@[j], outer[j]),
                    forall|j: int| k < j < n ==> #[trigger] outer[j] == start.disruptions@[j],
                decreases n_regions - i,
            {
                let region_ref = self.disruptions[k].region_ref_l[i];
                if region_ref as usize >= self.regions.len() {
                    proof {
                        assert(start.region_target(d0.region_ref_l@[i as int]) is None);
                        assert(!start.references_resolve(start.disruptions@[k as int]));
                        assert(start.is_partially_linked(d0, self.disruptions@[k as int]));
                        assert(start.stopped_at(*self, k as int));
                    }
                    return Err(StreckenInfoError::ReferenceError);
                }
                let region = self.regions[region_ref as usize].clone();
                proof {
                    assert(d0.region_ref_l@.take(i + 1) =~= d0.region_ref_l@.take(i as int).push(
                        region_ref,
                    ));
                }
                self.disruptions[k].regions.push(region);
                i = i + 1;
            }
            proof {
                assert(d0.region_ref_l@.take(n_regions as int) =~= d0.region_ref_l@);
            }
            // events
            let n_events = self.disruptions[k].event_ref_l.len();
            let mut i: usize = 0;
            while i < n_events
                invariant
                    n == self.disruptions@.len(),
                    n == start.disruptions@.len(),
                    start == *old(self),
                    k < n,
                    start.same_tables(*self),
                    d0 == start.disruptions@[k as int],
                    outer.len() == n,
                    n_events == d0.event_ref_l@.len(),
                    i <= n_events,
                    same_record(d0, self.disruptions@[k as int]),
                    self.disruptions@[k as int].locations@ == d0.locations@
                        + d0.edge_ref_l@.map_values(|e: u16| start.edge_target(e)->0),
                    self.disruptions@[k as int].regions@ == d0.regions@
                        + d0.region_ref_l@.map_values(|r: u16| start.region_target(r)->0),
                    self.disruptions@[k as int].events@ == d0.events@ + d0.event_ref_l@.take(
                        i as int,
                    ).map_values(|e: u16| start.event_target(e)->0),
                    forall|m: int|
                        0 <= m < d0.edge_ref_l@.len() ==> (#[trigger] start.edge_target(
                            d0.edge_ref_l@[m],
                        )) is Some,
                    forall|m: int|
                        0 <= m < d0.region_ref_l@.len() ==> (#[trigger] start.region_target(
                            d0.region_ref_l@[m],
                        )) is Some,
                    forall|m: int|
                        0 <= m < i ==> (#[trigger] start.event_target(d0.event_ref_l@[m])) is Some,
                    forall|j: int|
                        0 <= j < n && j != k ==> #[trigger] self.disruptions@[j] == outer[j],
                    forall|j: int|
                        0 <= j < n ==> same_record(start.disruptions@[j], #[trigger] outer[j]),
                    forall|j: int|
                        0 <= j < k ==> start.references_resolve(#[trigger] start.disruptions@[j])
                            && start.is_linked(start.disruptions@[j], outer[j]),
                    forall|j: int| k < j < n ==> #[trigger] outer[j] == start.disruptions@[j],
                decreases n_events - i,
            {
                let event_ref = self.disruptions[k].event_ref_l[i];
                if event_ref as usize >= self.msg_events.len() {
                    proof {
                        assert(start.event_target(d0.event_ref_l@[i as int]) is None);
                        assert(!start.references_resolve(start.disruptions@[k as int]));
                        assert(start.is_partially_linked(d0, self.disruptions@[k as int]));
                        assert(start.stopped_at(*self, k as int));
                    }
                    return Err(StreckenInfoError::ReferenceError);
                }
                let msg_event = self.msg_events[event_ref as usize];
                let event = Event {
                    start_time: msg_event.f_date.and_time(msg_event.f_time),
                    end_time: msg_event.t_date.and_time(msg_event.t_time),
                };
                proof {
                    assert(d0.event_ref_l@.take(i + 1) =~= d0.event_ref_l@.take(i as int).push(
                        event_ref,
                    ));
                }
                self.disruptions[k].events.push(event);
                i = i + 1;
            }
            proof {
                assert(d0.event_ref_l@.take(n_events as int) =~= d0.event_ref_l@);
                assert(start.is_linked(d0, self.disruptions@[k as int]));
                assert(start.references_resolve(d0));
            }
            k = k + 1;
        }
        proof {
            assert forall|k: int| 0 <= k < n implies start.references_resolve(
                #[trigger] start.disruptions@[k],
            ) && start.is_linked(start.disruptions@[k], self.disruptions@[k]) by {}
            assert forall|k: int| 0 <= k < n implies start.links_to_table_entries(
                #[trigger] start.disruptions@[k],
                self.disruptions@[k],
            ) by {
                start.lemma_linked_entries(start.disruptions@[k], self.disruptions@[k]);
            }
        }
        Ok(())
    }
}

/// What the answer to a geo-position request yields: without an answer of
/// that service, `InvalidResponse`; when the first such answer reports an
/// error, that error; when one of its references points to no entry,
/// `ReferenceError`; otherwise its disruptions, each linked.
pub open spec fn geo_pos_outcome(
    answers: Seq<ResponseType>,
    res: Result<Vec<Disruption>, StreckenInfoError>,
) -> bool {
    &&& !has_answer_of(answers, ServiceKind::GeoPos) ==> res == Err::<Vec<Disruption>, StreckenInfoError>(
        StreckenInfoError::InvalidResponse,
    )
    &&& forall|i: int| #[trigger]
        is_first_answer_of(answers, ServiceKind::GeoPos, i) ==> match answers[i] {
            ResponseType::HimGeoPos { res: answer, err } => linked_outcome(answer.common, err, res),
            _ => false,
        }
}

/// The result of a service answer with the common part `common` and the error
/// field `err`, when the result is the list of linked disruptions.
pub open spec fn linked_outcome(
    common: GeoPosCommon,
    err: String,
    res: Result<Vec<Disruption>, StreckenInfoError>,
) -> bool {
    if err@ != ok_text() {
        res == Err::<Vec<Disruption>, StreckenInfoError>(StreckenInfoError::ResponseError(err))
    } else if !common.all_references_resolve() {
        res == Err::<Vec<Disruption>, StreckenInfoError>(StreckenInfoError::ReferenceError)
    } else {
        &&& res is Ok
        &&& res->Ok_0@.len() == common.disruptions@.len()
        &&& forall|k: int|
            0 <= k < common.disruptions@.len() ==> common.is_linked(
                common.disruptions@[k],
                #[trigger] res->Ok_0@[k],
            )
    }
}

/// Reads the disruptions out of the answer to a geo-position request: takes
/// the first answer of that service, checks its error field and resolves the
/// references of its disruptions.
pub fn disruptions_from_response(response: Response) -> (res: Result<
    Vec<Disruption>,
    StreckenInfoError,
>)
    ensures
        geo_pos_outcome(response.response@, res),
{
    let ghost answers = response.response@;
    let mut answers_vec = response.response;
    let position = position_of_answer(&answers_vec, ServiceKind::GeoPos);
    match position {
        None => Err(StreckenInfoError::InvalidResponse),
        Some(i) => {
            let answer = answers_vec.remove(i);
            proof {
                assert forall|j: int| #[trigger]
                    is_first_answer_of(answers, ServiceKind::GeoPos, j) implies j == i by {
                    if j < i {
                        assert(answers[j].spec_kind() != ServiceKind::GeoPos);
                    } else if j > i {
                        assert(answers[i as int].spec_kind() != ServiceKind::GeoPos);
                    }
                }
            }
            match answer {
                ResponseType::HimGeoPos { res, err } => {
                    if !is_ok_text(&err) {
                        return Err(StreckenInfoError::ResponseError(err));
                    }
                    let mut common = res.common;
                    match common.link() {
                        Ok(()) => Ok(common.disruptions),
                        Err(e) => Err(e),
                    }
                },
                ResponseType::HimDetails { .. } => Err(StreckenInfoError::InvalidResponse),
            }
        },
    }
}

} // verus!
