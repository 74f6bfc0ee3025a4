//! The entity model: tagged point and linear source records, the bulk
//! delta-encoded point batch, and the extracted domain records (cities
//! and roads).
//!
//! Coordinates are carried as nanodegrees (10^-9 of a degree, WGS84) in
//! 64-bit integers; consumers that need degrees divide by 10^9 at the
//! edge.

use vstd::prelude::*;

verus! {

/// A key/value string pair attached to a source entity.
#[derive(Clone, Debug)]
pub struct Tag {
    pub key: String,
    pub value: String,
}

/// A single-coordinate source record together with its tags.
#[derive(Clone, Debug)]
pub struct PointEntity {
    pub id: i64,
    pub nano_lat: i64,
    pub nano_lon: i64,
    pub tags: Vec<Tag>,
}

/// A source record referencing an ordered list of point-entity ids.
#[derive(Clone, Debug)]
pub struct LinearEntity {
    pub id: i64,
    pub tags: Vec<Tag>,
    pub refs: Vec<i64>,
}

/// A bulk delta-encoded batch of point entities: ids and coordinates
/// are per-entry deltas against the previous entry, and tags are runs
/// of key/value indices into a shared string table, one run per entry,
/// each run closed by a zero index.
#[derive(Clone, Debug)]
pub struct DenseBatch {
    pub id_deltas: Vec<i64>,
    pub lat_deltas: Vec<i64>,
    pub lon_deltas: Vec<i64>,
    pub key_val_indices: Vec<usize>,
    pub strings: Vec<String>,
}

/// An extracted city record.
#[derive(Clone, Debug)]
pub struct City {
    pub id: i64,
    pub name: Option<String>,
    pub nano_lat: i64,
    pub nano_lon: i64,
    pub population: Option<i64>,
}

/// An extracted road record.
#[derive(Clone, Debug)]
pub struct Road {
    pub id: i64,
    pub name: Option<String>,
    pub nodes: Vec<i64>,
}

/// A decoded chunk's collection of entities: plainly tagged points,
/// a bulk delta-encoded point batch, and linear entities.
#[derive(Clone, Debug)]
pub struct EntityBatch {
    pub points: Vec<PointEntity>,
    pub dense: DenseBatch,
    pub lines: Vec<LinearEntity>,
}

impl DenseBatch {
    /// A batch with no entries.
    pub fn empty() -> (r: DenseBatch)
        ensures
            r.id_deltas@.len() == 0,
            r.lat_deltas@.len() == 0,
            r.lon_deltas@.len() == 0,
            r.key_val_indices@.len() == 0,
            r.strings@.len() == 0,
    {
        DenseBatch {
            id_deltas: Vec::new(),
            lat_deltas: Vec::new(),
            lon_deltas: Vec::new(),
            key_val_indices: Vec::new(),
            strings: Vec::new(),
        }
    }
}

/// The value of the last tag of `tags` whose key is `key`, if any.
pub open spec fn last_value(tags: Seq<Tag>, key: Seq<char>) -> Option<Seq<char>>
    decreases tags.len(),
{
    if tags.len() == 0 {
        None
    } else if tags.last().key@ == key {
        Some(tags.last().value@)
    } else {
        last_value(tags.drop_last(), key)
    }
}

/// The value of the first tag of `tags` whose key is `key`, if any.
pub open spec fn first_value(tags: Seq<Tag>, key: Seq<char>) -> Option<Seq<char>>
    decreases tags.len(),
{
    if tags.len() == 0 {
        None
    } else if tags.first().key@ == key {
        Some(tags.first().value@)
    } else {
        first_value(tags.drop_first(), key)
    }
}

/// Whether some tag of `tags` has key `key`.
pub open spec fn has_key(tags: Seq<Tag>, key: Seq<char>) -> bool {
    exists|i: int| 0 <= i < tags.len() && tags[i].key@ == key
}

} // verus!
