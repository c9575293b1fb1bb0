//! The disruption records of the HAFAS interface, with the references that a
//! response resolves into locations, regions and events.
use vstd::prelude::*;

use crate::text::{join_chars, lemma_split_join, split_at_char, split_chars};
use crate::time::{Date, DateTime, Time};

verus! {

/// The value that a missing `displayHead` field takes.
pub fn true_fn() -> (res: bool)
    ensures
        res,
{
    true
}

/// Reads the category field `cat` of a disruption: `0` is an unplanned
/// disruption, `1` a planned one; any other value is refused.
pub fn planned_from_cat(cat: u8) -> (res: Option<bool>)
    ensures
        res == (if cat == 0 {
            Some(false)
        } else if cat == 1 {
            Some(true)
        } else {
            None::<bool>
        }),
{
    if cat == 0 {
        Some(false)
    } else if cat == 1 {
        Some(true)
    } else {
        None
    }
}

#[derive(Debug, Clone)]
pub struct Disruption {
    pub act: bool,
    pub planned: bool,
    pub display_head: bool,
    pub start_date: Date,
    pub start_time: Time,
    pub end_date: Date,
    pub end_time: Time,
    pub id: String,
    pub last_modified_date: Date,
    pub last_modified_time: Time,
    pub prio: u8,
    pub affected_regions: Option<Vec<u16>>,
    pub head: String,
    pub text: Option<String>,
    pub impact: Option<Vec<DisruptionImpact>>,
    /// This parameter is only available if you sent a `HimDetails` request with the paramter get_trains=true
    pub affected_journeys: Option<Vec<Journey>>,
    /// Indices into the edges of the response.
    pub edge_ref_l: Vec<u16>,
    /// Indices into the regions of the response.
    pub region_ref_l: Vec<u16>,
    /// Indices into the events of the response.
    pub event_ref_l: Vec<u16>,
    pub locations: Vec<LocationRange>,
    pub regions: Vec<Region>,
    pub events: Vec<Event>,
}

/// An object that contains from `Location` and optional to `Location`
#[derive(Debug, Clone)]
pub struct LocationRange {
    pub from: Location,
    pub to: Option<Location>,
}

/// An object like a Betriebsstelle or something like that
#[derive(Debug)]
pub struct Location {
    pub lid: String,
    pub type_: String,
    pub name: String,
    pub ext_id: String,
}

impl Clone for Location {
    fn clone(&self) -> (res: Self)
        ensures
            res == *self,
    {
        Location {
            lid: self.lid.clone(),
            type_: self.type_.clone(),
            name: self.name.clone(),
            ext_id: self.ext_id.clone(),
        }
    }
}

/// Regions affected by large disruptions
#[derive(Debug)]
pub struct Region {
    pub name: String,
}

impl Clone for Region {
    fn clone(&self) -> (res: Self)
        ensures
            res == *self,
    {
        Region { name: self.name.clone() }
    }
}

/// The span of time in which a disruption takes effect.
#[derive(Debug, Clone, Copy, PartialEq, Eq, Structural)]
pub struct Event {
    pub start_time: DateTime,
    pub end_time: DateTime,
}

#[derive(Debug, Clone, Copy, PartialEq, Eq, Structural)]
pub enum Product {
    LongDistance,
    Local,
    Freight,
}

#[derive(Debug, Clone)]
pub struct DisruptionImpact {
    pub product: Product,
    pub prio: u8,
    pub impact: String,
}

#[derive(Debug, Clone)]
pub struct Journey {
    /// [JourneyInformation] parsed by the jid
    pub journey_information: JourneyInformation,
}

#[derive(Debug, Clone)]
pub struct JourneyInformation {
    pub jid: String,
    /// The train number includes the train type: e.g. "Tfz81681" or "S  37340"
    pub train_number: String,
}

/// The fields of a journey id: its `|`-separated fields, and of the second one
/// its `#`-separated fields.
pub open spec fn jid_train_fields(jid: Seq<char>) -> Seq<Seq<char>> {
    split_chars(split_chars(jid, '|')[1], '#')
}

/// A journey id holds at least two `|`-separated fields, and its second field
/// at least two `#`-separated fields.
pub open spec fn jid_well_formed(jid: Seq<char>) -> bool {
    split_chars(jid, '|').len() > 1 && jid_train_fields(jid).len() >= 2
}

/// The train number of a journey id: the last but one `#`-separated field of
/// its second `|`-separated field.
pub open spec fn jid_train_number(jid: Seq<char>) -> Seq<char> {
    jid_train_fields(jid)[jid_train_fields(jid).len() - 2]
}

/// In the text `field`, the part `part` starts at `start`, right after a `#`
/// or at the very beginning, runs up to a `#`, and after that `#` no other
/// `#` follows: `part` is the text between the last but one and the last `#`.
pub open spec fn between_last_hashes(field: Seq<char>, part: Seq<char>, start: int) -> bool {
    &&& 0 <= start
    &&& start + part.len() < field.len()
    &&& field.subrange(start, start + part.len()) == part
    &&& field[start + part.len()] == '#'
    &&& (start == 0 || field[start - 1] == '#')
    &&& !part.contains('#')
    &&& !field.subrange(start + part.len() + 1, field.len() as int).contains('#')
}

/// The train number of a well-formed journey id is, with nothing cut off or
/// added, the text between the last but one and the last `#` of the second
/// `|`-separated field.
pub proof fn lemma_train_number_between_last_hashes(jid: Seq<char>)
    requires
        jid_well_formed(jid),
    ensures
        exists|start: int| #[trigger]
            between_last_hashes(split_chars(jid, '|')[1], jid_train_number(jid), start),
{
    let f = split_chars(jid, '|')[1];
    let fields = split_chars(f, '#');
    let n = fields.len();
    lemma_split_join(f, '#');
    let t = fields[n - 2];
    let p = fields[n - 1];
    let g = fields.drop_last();
    assert(join_chars(fields, '#') == join_chars(g, '#') + seq!['#'] + p);
    let pre: Seq<char> = if g.len() == 1 {
        Seq::<char>::empty()
    } else {
        join_chars(g.drop_last(), '#') + seq!['#']
    };
    assert(join_chars(g, '#') =~= pre + t);
    assert(f =~= pre + t + seq!['#'] + p);
    let start = pre.len() as int;
    assert(!t.contains('#'));
    assert(!p.contains('#'));
    assert(f.subrange(start, start + t.len()) =~= t);
    assert(f.subrange(start + t.len() + 1, f.len() as int) =~= p);
    assert(f[start + t.len()] == '#');
    if start > 0 {
        assert(f[start - 1] == pre[start - 1]);
    }
    assert(between_last_hashes(f, t, start));
    assert(jid_train_fields(jid) == fields);
    assert(jid_train_number(jid) == t);
    assert(between_last_hashes(split_chars(jid, '|')[1], jid_train_number(jid), start));
}

impl JourneyInformation {
    /// Tells whether a journey id has the shape that `from_jid` reads.
    pub fn is_valid_jid(jid: &str) -> (res: bool)
        ensures
            res == jid_well_formed(jid@),
    {
        let fields = split_at_char(jid, '|');
        if fields.len() <= 1 {
            return false;
        }
        let train_fields = split_at_char(fields[1].as_str(), '#');
        train_fields.len() >= 2
    }

    /// Reads the train number out of a journey id, keeping the id.
    pub fn from_jid(jid: String) -> (res: JourneyInformation)
        requires
            jid_well_formed(jid@),
        ensures
            res.jid == jid,
            res.train_number@ == jid_train_number(jid@),
            res.train_number@ == split_chars(split_chars(jid@, '|')[1], '#')[split_chars(
                split_chars(jid@, '|')[1],
                '#',
            ).len() - 2],
            exists|start: int| #[trigger]
                between_last_hashes(split_chars(jid@, '|')[1], res.train_number@, start),
    {
        let fields = split_at_char(jid.as_str(), '|');
        let train_fields = split_at_char(fields[1].as_str(), '#');
        let train_number = train_fields[train_fields.len() - 2].clone();
        proof {
            lemma_train_number_between_last_hashes(jid@);
        }
        JourneyInformation { jid, train_number }
    }
}

} // verus!
