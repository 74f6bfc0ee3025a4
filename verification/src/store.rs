//! The store's write semantics: every write is an upsert keyed by
//! entity id — last write wins — so a whole run can be replayed against
//! an already-populated store without duplication or corruption. A
//! road's node-reference list is serialized as a JSON array of base-10
//! integers for its structured array column.

use vstd::prelude::*;

use crate::entities::{City, Road};
use crate::errors::ErrorKind;

verus! {

/// The store after the upserts `ws` ran, in order, against `m`.
pub open spec fn apply_upserts<K, V>(m: Map<K, V>, ws: Seq<(K, V)>) -> Map<K, V>
    decreases ws.len(),
{
    if ws.len() == 0 {
        m
    } else {
        apply_upserts(m, ws.drop_last()).insert(ws.last().0, ws.last().1)
    }
}

/// The value of the last write of `ws` keyed `k`, if any.
pub open spec fn last_write<K, V>(ws: Seq<(K, V)>, k: K) -> Option<V>
    decreases ws.len(),
{
    if ws.len() == 0 {
        None
    } else if ws.last().0 == k {
        Some(ws.last().1)
    } else {
        last_write(ws.drop_last(), k)
    }
}

/// What one key holds after a run of upserts: the last write with that
/// key when there is one, and what the store already held otherwise.
pub proof fn lemma_apply_upserts_lookup<K, V>(m: Map<K, V>, ws: Seq<(K, V)>, k: K)
    ensures
        match last_write(ws, k) {
            Some(v) => apply_upserts(m, ws).contains_key(k) && apply_upserts(m, ws)[k] == v,
            None => apply_upserts(m, ws).contains_key(k) == m.contains_key(k) && (m.contains_key(k)
                ==> apply_upserts(m, ws)[k] == m[k]),
        },
    decreases ws.len(),
{
    if ws.len() > 0 {
        lemma_apply_upserts_lookup(m, ws.drop_last(), k);
    }
}

/// Replaying the same run of upserts a second time leaves the store
/// exactly as the first run left it: with per-entity last-write-wins
/// semantics the whole job can be re-run safely, against an empty or an
/// already-partially-populated store.
pub proof fn lemma_rerun_idempotent<K, V>(m: Map<K, V>, ws: Seq<(K, V)>)
    ensures
        apply_upserts(apply_upserts(m, ws), ws) == apply_upserts(m, ws),
{
    let m1 = apply_upserts(m, ws);
    let m2 = apply_upserts(m1, ws);
    assert forall|k: K| #[trigger] m2.contains_key(k) == m1.contains_key(k) && (m1.contains_key(k)
        ==> m2[k] == m1[k]) by {
        lemma_apply_upserts_lookup(m, ws, k);
        lemma_apply_upserts_lookup(m1, ws, k);
    }
    assert(m2 =~= m1);
}

/// The upserts a run of extracted cities performs, keyed by entity id.
pub open spec fn city_writes(cs: Seq<City>) -> Seq<(i64, City)> {
    cs.map_values(|c: City| (c.id, c))
}

/// The upserts a run of extracted roads performs, keyed by entity id.
pub open spec fn road_writes(rs: Seq<Road>) -> Seq<(i64, Road)> {
    rs.map_values(|r: Road| (r.id, r))
}

/// Upserts each city into an id-keyed table, in order: the reference
/// semantics that the relational store's conflict-update statement must
/// follow.
pub fn apply_city_writes(store: &mut std::collections::HashMap<i64, City>, cs: Vec<City>)
    ensures
        final(store)@ == apply_upserts(old(store)@, city_writes(cs@)),
{
    broadcast use vstd::std_specs::hash::group_hash_axioms;

    let ghost m0 = store@;
    let ghost orig = cs@;
    let total = cs.len();
    let mut cs = cs;
    let mut i: usize = 0;
    while cs.len() > 0
        invariant
            0 <= i,
            orig.len() == total,
            i + cs@.len() == orig.len(),
            cs@ =~= orig.skip(i as int),
            store@ == apply_upserts(m0, city_writes(orig).take(i as int)),
        decreases cs@.len(),
    {
        let c = cs.remove(0);
        proof {
            assert(c == orig[i as int]);
            assert(city_writes(orig).take(i + 1).drop_last() =~= city_writes(orig).take(i as int));
            assert(city_writes(orig).take(i + 1).last() == (c.id, c));
        }
        store.insert(c.id, c);
        i = i + 1;
        proof {
            assert(cs@ =~= orig.skip(i as int));
        }
    }
    proof {
        assert(city_writes(orig).take(orig.len() as int) =~= city_writes(orig));
    }
}

/// Upserts each road into an id-keyed table, in order.
pub fn apply_road_writes(store: &mut std::collections::HashMap<i64, Road>, rs: Vec<Road>)
    ensures
        final(store)@ == apply_upserts(old(store)@, road_writes(rs@)),
{
    broadcast use vstd::std_specs::hash::group_hash_axioms;

    let ghost m0 = store@;
    let ghost orig = rs@;
    let total = rs.len();
    let mut rs = rs;
    let mut i: usize = 0;
    while rs.len() > 0
        invariant
            0 <= i,
            orig.len() == total,
            i + rs@.len() == orig.len(),
            rs@ =~= orig.skip(i as int),
            store@ == apply_upserts(m0, road_writes(orig).take(i as int)),
        decreases rs@.len(),
    {
        let r = rs.remove(0);
        proof {
            assert(r == orig[i as int]);
            assert(road_writes(orig).take(i + 1).drop_last() =~= road_writes(orig).take(i as int));
            assert(road_writes(orig).take(i + 1).last() == (r.id, r));
        }
        store.insert(r.id, r);
        i = i + 1;
        proof {
            assert(rs@ =~= orig.skip(i as int));
        }
    }
    proof {
        assert(road_writes(orig).take(orig.len() as int) =~= road_writes(orig));
    }
}

/// The character a decimal digit prints as.
pub open spec fn digit_char(d: int) -> char {
    if d == 0 {
        '0'
    } else if d == 1 {
        '1'
    } else if d == 2 {
        '2'
    } else if d == 3 {
        '3'
    } else if d == 4 {
        '4'
    } else if d == 5 {
        '5'
    } else if d == 6 {
        '6'
    } else if d == 7 {
        '7'
    } else if d == 8 {
        '8'
    } else {
        '9'
    }
}

/// The base-10 digits of a non-negative number, most significant first.
pub open spec fn dec_digits(n: int) -> Seq<char>
    decreases n,
{
    if n < 10 {
        seq![digit_char(n)]
    } else {
        dec_digits(n / 10) + seq![digit_char(n % 10)]
    }
}

/// How a signed 64-bit integer prints in base 10.
pub open spec fn dec_str(n: int) -> Seq<char> {
    if n < 0 {
        seq!['-'] + dec_digits(-n)
    } else {
        dec_digits(n)
    }
}

/// The bodies of a JSON array of integers, comma-separated.
pub open spec fn json_items(ns: Seq<i64>) -> Seq<char>
    decreases ns.len(),
{
    if ns.len() == 0 {
        Seq::empty()
    } else if ns.len() == 1 {
        dec_str(ns[0] as int)
    } else {
        json_items(ns.drop_last()) + seq![','] + dec_str(ns.last() as int)
    }
}

/// How a list of 64-bit integers prints as a JSON array: the base-10
/// integers between brackets, comma-separated, with no whitespace.
pub open spec fn json_int_array(ns: Seq<i64>) -> Seq<char> {
    seq!['['] + json_items(ns) + seq![']']
}

/// Relies on serde_json::to_string: a vector of signed 64-bit integers
/// always serializes — the serializer writes into an in-memory buffer
/// whose writer is infallible, and integers have no failing case — as a
/// JSON array literal: the base-10 integers between brackets,
/// comma-separated, with no whitespace.
#[verifier::external_body]
fn nodes_json(nodes: &Vec<i64>) -> (r: Result<String, String>)
    ensures
        r is Ok,
        r matches Ok(s) ==> s@ == json_int_array(nodes@),
{
    match serde_json::to_string(nodes) {
        Ok(s) => Ok(s),
        Err(e) => Err(e.to_string()),
    }
}

/// Serializes a road's node-reference list for its structured array
/// column: always, and exactly, the JSON array of the node ids in
/// order. The error case exists for the write path's closed taxonomy —
/// a failed entity would be a per-entity serialization error, skipping
/// only that write — but for a list of 64-bit integers it never occurs.
pub fn road_nodes_json(r: &Road) -> (out: Result<String, ErrorKind>)
    ensures
        out is Ok,
        out matches Ok(s) ==> s@ == json_int_array(r.nodes@),
{
    match nodes_json(&r.nodes) {
        Ok(s) => Ok(s),
        Err(_) => Err(ErrorKind::Serialization),
    }
}

} // verus!
