//! Normalization of a bulk delta-encoded point batch into the same
//! logical entity view that plainly tagged points use, so that one
//! extraction rule serves both encodings.
//!
//! Entry `j` of a batch has id and coordinates equal to the sums of the
//! first `j + 1` deltas, and its tags are the run of key/value index
//! pairs at position `j` of the flat index list, each run closed by a
//! zero index into the shared string table.

use vstd::prelude::*;

use crate::entities::{DenseBatch, PointEntity, Tag};

verus! {

/// Sum of the deltas up to and including entry `j`.
pub open spec fn prefix_sum(ds: Seq<i64>, j: int) -> int
    decreases j + 1,
{
    if j < 0 {
        0
    } else {
        prefix_sum(ds, j - 1) + ds[j]
    }
}

/// Whether every running sum of `ds` stays representable.
pub open spec fn sums_in_range(ds: Seq<i64>) -> bool {
    forall|j: int| 0 <= j < ds.len() ==> i64::MIN <= #[trigger] prefix_sum(ds, j) <= i64::MAX
}

/// The key/value index pairs of the run starting at `pos`, up to (and
/// not including) its closing zero.
pub open spec fn run_pairs(kv: Seq<usize>, pos: int) -> Seq<(usize, usize)>
    decreases kv.len() - pos,
{
    if pos < 0 || pos >= kv.len() {
        Seq::empty()
    } else if kv[pos] == 0 {
        Seq::empty()
    } else if pos + 1 < kv.len() {
        seq![(kv[pos], kv[pos + 1])] + run_pairs(kv, pos + 2)
    } else {
        Seq::empty()
    }
}

/// The position just past the run starting at `pos` and its closing
/// zero.
pub open spec fn next_pos(kv: Seq<usize>, pos: int) -> int
    decreases kv.len() - pos,
{
    if pos < 0 || pos >= kv.len() {
        pos
    } else if kv[pos] == 0 {
        pos + 1
    } else if pos + 1 < kv.len() {
        next_pos(kv, pos + 2)
    } else {
        pos + 1
    }
}

/// The position where the run of entry `j` starts.
pub open spec fn seg_start(kv: Seq<usize>, j: int) -> int
    decreases j,
{
    if j <= 0 {
        0
    } else {
        next_pos(kv, seg_start(kv, j - 1))
    }
}

/// Whether the flat index list, read from `pos`, consists of exactly
/// `m` runs of well-formed pairs — nonzero indices into a string table
/// of `nstr` entries — each closed by a zero, with nothing left over.
pub open spec fn kv_ok(kv: Seq<usize>, pos: int, m: int, nstr: int) -> bool
    decreases kv.len() - pos,
{
    if pos < 0 {
        false
    } else if pos >= kv.len() {
        pos == kv.len() && m == 0
    } else if m <= 0 {
        false
    } else if kv[pos] == 0 {
        kv_ok(kv, pos + 1, m - 1, nstr)
    } else if pos + 1 < kv.len() && 0 < kv[pos] < nstr && 0 < kv[pos + 1] < nstr {
        kv_ok(kv, pos + 2, m, nstr)
    } else {
        false
    }
}

/// Whether a bulk batch is structurally well formed: one delta of each
/// kind per entry, all running sums representable, and a well-formed
/// run of tag indices per entry.
pub open spec fn dense_well_formed(d: DenseBatch) -> bool {
    &&& d.lat_deltas@.len() == d.id_deltas@.len()
    &&& d.lon_deltas@.len() == d.id_deltas@.len()
    &&& sums_in_range(d.id_deltas@)
    &&& sums_in_range(d.lat_deltas@)
    &&& sums_in_range(d.lon_deltas@)
    &&& kv_ok(d.key_val_indices@, 0, d.id_deltas@.len() as int, d.strings@.len() as int)
}

/// Whether `tags` spells out the index pairs `pairs` under the string
/// table `strings`.
pub open spec fn tags_match_pairs(
    tags: Seq<Tag>,
    pairs: Seq<(usize, usize)>,
    strings: Seq<String>,
) -> bool {
    &&& tags.len() == pairs.len()
    &&& forall|i: int|
        0 <= i < tags.len() ==> {
            &&& 0 <= (#[trigger] pairs[i]).0 < strings.len()
            &&& 0 <= pairs[i].1 < strings.len()
            &&& tags[i].key@ == strings[pairs[i].0 as int]@
            &&& tags[i].value@ == strings[pairs[i].1 as int]@
        }
}

/// Whether `ps` is the normalized view of the bulk batch `d`.
pub open spec fn dense_points_of(d: DenseBatch, ps: Seq<PointEntity>) -> bool {
    &&& ps.len() == d.id_deltas@.len()
    &&& forall|j: int|
        0 <= j < ps.len() ==> {
            &&& (#[trigger] ps[j]).id == prefix_sum(d.id_deltas@, j)
            &&& ps[j].nano_lat == prefix_sum(d.lat_deltas@, j)
            &&& ps[j].nano_lon == prefix_sum(d.lon_deltas@, j)
            &&& tags_match_pairs(
                ps[j].tags@,
                run_pairs(d.key_val_indices@, seg_start(d.key_val_indices@, j)),
                d.strings@,
            )
        }
}

/// Normalizes a bulk delta-encoded batch into individual point
/// entities: delta sums become absolute ids and coordinates, and each
/// entry's run of key/value indices becomes its tag list. Yields
/// nothing exactly when the batch is structurally malformed — a delta
/// sum that leaves the representable range, an index outside the string
/// table, a run not closed by a zero, or leftover indices.
pub fn normalize_dense(d: &DenseBatch) -> (r: Option<Vec<PointEntity>>)
    ensures
        r is Some <==> dense_well_formed(*d),
        r matches Some(ps) ==> dense_points_of(*d, ps@),
{
    let n = d.id_deltas.len();
    if d.lat_deltas.len() != n || d.lon_deltas.len() != n {
        return None;
    }
    let kvn = d.key_val_indices.len();
    let nstr = d.strings.len();
    let ghost kv = d.key_val_indices@;
    let mut ps: Vec<PointEntity> = Vec::new();
    let mut id_acc: i64 = 0;
    let mut lat_acc: i64 = 0;
    let mut lon_acc: i64 = 0;
    let mut pos: usize = 0;
    let mut j: usize = 0;
    while j < n
        invariant
            0 <= j <= n,
            n == d.id_deltas@.len(),
            n == d.lat_deltas@.len(),
            n == d.lon_deltas@.len(),
            kvn == kv.len(),
            kv == d.key_val_indices@,
            nstr == d.strings@.len(),
            ps@.len() == j,
            id_acc == prefix_sum(d.id_deltas@, j - 1),
            lat_acc == prefix_sum(d.lat_deltas@, j - 1),
            lon_acc == prefix_sum(d.lon_deltas@, j - 1),
            forall|t: int|
                0 <= t < j ==> i64::MIN <= #[trigger] prefix_sum(d.id_deltas@, t) <= i64::MAX,
            forall|t: int|
                0 <= t < j ==> i64::MIN <= #[trigger] prefix_sum(d.lat_deltas@, t) <= i64::MAX,
            forall|t: int|
                0 <= t < j ==> i64::MIN <= #[trigger] prefix_sum(d.lon_deltas@, t) <= i64::MAX,
            0 <= pos <= kvn,
            pos == seg_start(kv, j as int),
            kv_ok(kv, 0, n as int, nstr as int) <==> kv_ok(kv, pos as int, n - j, nstr as int),
            forall|t: int|
                0 <= t < j ==> {
                    &&& (#[trigger] ps@[t]).id == prefix_sum(d.id_deltas@, t)
                    &&& ps@[t].nano_lat == prefix_sum(d.lat_deltas@, t)
                    &&& ps@[t].nano_lon == prefix_sum(d.lon_deltas@, t)
                    &&& tags_match_pairs(ps@[t].tags@, run_pairs(kv, seg_start(kv, t)), d.strings@)
                },
        decreases n - j,
    {
        proof {
            assert(prefix_sum(d.id_deltas@, j as int) == prefix_sum(d.id_deltas@, j - 1)
                + d.id_deltas@[j as int]);
            assert(prefix_sum(d.lat_deltas@, j as int) == prefix_sum(d.lat_deltas@, j - 1)
                + d.lat_deltas@[j as int]);
            assert(prefix_sum(d.lon_deltas@, j as int) == prefix_sum(d.lon_deltas@, j - 1)
                + d.lon_deltas@[j as int]);
        }
        let id_next = match id_acc.checked_add(d.id_deltas[j]) {
            Some(v) => v,
            None => {
                return None;
            },
        };
        let lat_next = match lat_acc.checked_add(d.lat_deltas[j]) {
            Some(v) => v,
            None => {
                return None;
            },
        };
        let lon_next = match lon_acc.checked_add(d.lon_deltas[j]) {
            Some(v) => v,
            None => {
                return None;
            },
        };
        id_acc = id_next;
        lat_acc = lat_next;
        lon_acc = lon_next;
        // Read this entry's run of key/value index pairs.
        let ghost pos0 = pos as int;
        let ghost m = n - j;
        let ghost mut consumed = Seq::<(usize, usize)>::empty();
        let mut tags: Vec<Tag> = Vec::new();
        loop
            invariant_except_break
                0 <= pos <= kvn,
                kvn == kv.len(),
                kv == d.key_val_indices@,
                nstr == d.strings@.len(),
                n == d.id_deltas@.len(),
                m == n - j,
                0 < m,
                run_pairs(kv, pos0) == consumed + run_pairs(kv, pos as int),
                tags_match_pairs(tags@, consumed, d.strings@),
                next_pos(kv, pos0) == next_pos(kv, pos as int),
                kv_ok(kv, pos0, m, nstr as int) <==> kv_ok(kv, pos as int, m, nstr as int),
                kv_ok(kv, 0, n as int, nstr as int) <==> kv_ok(kv, pos0, m, nstr as int),
            ensures
                tags_match_pairs(tags@, run_pairs(kv, pos0), d.strings@),
                pos == next_pos(kv, pos0),
                kv_ok(kv, pos0, m, nstr as int) <==> kv_ok(kv, pos as int, m - 1, nstr as int),
                kv_ok(kv, 0, n as int, nstr as int) <==> kv_ok(kv, pos0, m, nstr as int),
                0 <= pos <= kvn,
                kvn == kv.len(),
                kv == d.key_val_indices@,
                nstr == d.strings@.len(),
                m == n - j,
            decreases kvn - pos,
        {
            if pos >= kvn {
                // The run is not closed by a zero: the batch is malformed.
                proof {
                    assert(!kv_ok(kv, pos as int, m, nstr as int));
                    assert(!kv_ok(kv, 0, n as int, nstr as int));
                    assert(!dense_well_formed(*d));
                }
                return None;
            }
            let k = d.key_val_indices[pos];
            if k == 0 {
                proof {
                    assert(run_pairs(kv, pos as int) =~= Seq::<(usize, usize)>::empty());
                    assert(run_pairs(kv, pos0) =~= consumed);
                    assert(next_pos(kv, pos as int) == pos + 1);
                    assert(kv_ok(kv, pos as int, m, nstr as int) <==> kv_ok(
                        kv,
                        pos + 1,
                        m - 1,
                        nstr as int,
                    ));
                }
                pos = pos + 1;
                break;
            }
            if pos + 1 >= kvn {
                // A dangling key index with no value: malformed.
                proof {
                    assert(!kv_ok(kv, pos as int, m, nstr as int));
                    assert(!kv_ok(kv, 0, n as int, nstr as int));
                    assert(!dense_well_formed(*d));
                }
                return None;
            }
            let v = d.key_val_indices[pos + 1];
            if k >= nstr || v == 0 || v >= nstr {
                proof {
                    assert(!kv_ok(kv, pos as int, m, nstr as int));
                    assert(!kv_ok(kv, 0, n as int, nstr as int));
                    assert(!dense_well_formed(*d));
                }
                return None;
            }
            let ghost tags_before = tags@;
            tags.push(Tag { key: d.strings[k].clone(), value: d.strings[v].clone() });
            proof {
                assert(run_pairs(kv, pos as int) =~= seq![(k, v)] + run_pairs(kv, pos + 2));
                consumed = consumed.push((k, v));
                assert(run_pairs(kv, pos0) =~= consumed + run_pairs(kv, pos + 2));
                assert(tags@.drop_last() =~= tags_before);
                assert(next_pos(kv, pos as int) == next_pos(kv, pos + 2));
                assert(kv_ok(kv, pos as int, m, nstr as int) <==> kv_ok(
                    kv,
                    pos + 2,
                    m,
                    nstr as int,
                ));
            }
            pos = pos + 2;
        }
        let p = PointEntity { id: id_acc, nano_lat: lat_acc, nano_lon: lon_acc, tags };
        ps.push(p);
        proof {
            assert(seg_start(kv, j + 1) == next_pos(kv, seg_start(kv, j as int)));
        }
        j = j + 1;
    }
    if pos != kvn {
        // Leftover indices after the last entry: malformed.
        proof {
            assert(!kv_ok(kv, pos as int, 0, nstr as int));
        }
        return None;
    }
    proof {
        assert(kv_ok(kv, pos as int, 0, nstr as int));
    }
    Some(ps)
}

} // verus!
