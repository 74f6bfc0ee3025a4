//! The extraction rules: a point entity becomes a city when it carries
//! a place-category tag of "city" or "town" together with a name tag; a
//! linear entity becomes a road when it carries the road-category tag,
//! whatever its value. Both rules are pure functions of one entity and
//! its tags.

use vstd::prelude::*;

use crate::entities::{City, LinearEntity, PointEntity, Road, Tag};
use crate::entities::{first_value, has_key, last_value};
use crate::text::{parse_i64_str, spec_parse_i64, str_eq};

verus! {

/// Whether the point-entity rule emits a city: the place-category tag
/// resolves to "city" or "town" and a name tag is present. For each
/// recognized key the value of its last occurrence is the one read.
pub open spec fn city_rule_applies(p: PointEntity) -> bool {
    match last_value(p.tags@, "place"@) {
        Some(v) => (v == "city"@ || v == "town"@) && last_value(p.tags@, "name"@) is Some,
        None => false,
    }
}

/// The population the emitted city carries: the population tag value
/// parsed in base 10, and nothing when the tag is absent or does not
/// parse.
pub open spec fn city_population(p: PointEntity) -> Option<i64> {
    match last_value(p.tags@, "population"@) {
        Some(s) => spec_parse_i64(s),
        None => None,
    }
}

/// Whether `c` is exactly the city that the rule extracts from `p`.
pub open spec fn is_city_of(p: PointEntity, c: City) -> bool {
    &&& c.id == p.id
    &&& c.nano_lat == p.nano_lat
    &&& c.nano_lon == p.nano_lon
    &&& (match c.name {
        Some(n) => last_value(p.tags@, "name"@) == Some(n@),
        None => false,
    })
    &&& c.population == city_population(p)
}

/// Whether the linear-entity rule emits a road: some tag carries the
/// road-category key, whatever its value.
pub open spec fn road_rule_applies(l: LinearEntity) -> bool {
    has_key(l.tags@, "highway"@)
}

/// Whether `r` is exactly the road that the rule extracts from `l`:
/// same id, the value of the first name tag in source order (or no
/// name), and the reference list verbatim.
pub open spec fn is_road_of(l: LinearEntity, r: Road) -> bool {
    &&& r.id == l.id
    &&& (match r.name {
        Some(n) => first_value(l.tags@, "name"@) == Some(n@),
        None => first_value(l.tags@, "name"@) is None,
    })
    &&& r.nodes@ == l.refs@
}

/// Whether two tag runs spell out the same keys and values, in order.
pub open spec fn same_tag_views(t1: Seq<Tag>, t2: Seq<Tag>) -> bool {
    &&& t1.len() == t2.len()
    &&& forall|i: int|
        0 <= i < t1.len() ==> (#[trigger] t1[i]).key@ == (#[trigger] t2[i]).key@ && t1[i].value@
            == t2[i].value@
}

/// Tag runs with the same views resolve every key to the same last
/// value.
proof fn lemma_last_value_respects_views(t1: Seq<Tag>, t2: Seq<Tag>, key: Seq<char>)
    requires
        same_tag_views(t1, t2),
    ensures
        last_value(t1, key) == last_value(t2, key),
    decreases t1.len(),
{
    if t1.len() > 0 {
        assert(t1[t1.len() - 1].key@ == t2[t2.len() - 1].key@);
        assert(same_tag_views(t1.drop_last(), t2.drop_last())) by {
            assert(forall|i: int|
                0 <= i < t1.drop_last().len() ==> (#[trigger] t1.drop_last()[i]) == t1[i]
                    && (#[trigger] t2.drop_last()[i]) == t2[i]);
        }
        lemma_last_value_respects_views(t1.drop_last(), t2.drop_last(), key);
    }
}

/// The point-entity rule reads only the logical entity view: two point
/// entities that agree on id, coordinates, and tag keys and values — in
/// whichever encoding they arrived — satisfy the rule together, carry
/// the same population, and have exactly the same cities.
pub proof fn lemma_one_rule_for_both_encodings(p1: PointEntity, p2: PointEntity)
    requires
        p1.id == p2.id,
        p1.nano_lat == p2.nano_lat,
        p1.nano_lon == p2.nano_lon,
        same_tag_views(p1.tags@, p2.tags@),
    ensures
        city_rule_applies(p1) == city_rule_applies(p2),
        city_population(p1) == city_population(p2),
        forall|c: City| is_city_of(p1, c) == is_city_of(p2, c),
{
    lemma_last_value_respects_views(p1.tags@, p2.tags@, "place"@);
    lemma_last_value_respects_views(p1.tags@, p2.tags@, "name"@);
    lemma_last_value_respects_views(p1.tags@, p2.tags@, "population"@);
}

/// A population value that fails base-10 parsing degrades to an absent
/// population: whether the rule emits the city does not depend on the
/// population tag at all, and an unparsable value is never a failure.
pub proof fn lemma_invalid_population_degrades(p: PointEntity)
    requires
        last_value(p.tags@, "population"@) matches Some(s) && spec_parse_i64(s) is None,
    ensures
        city_population(p) is None,
{
}

/// Reading one more tag moves the last occurrence to it when the keys
/// match and keeps it otherwise.
proof fn lemma_last_value_step(tags: Seq<Tag>, i: int, key: Seq<char>)
    requires
        0 <= i < tags.len(),
    ensures
        last_value(tags.take(i + 1), key) == if tags[i].key@ == key {
            Some(tags[i].value@)
        } else {
            last_value(tags.take(i), key)
        },
{
    assert(tags.take(i + 1).drop_last() =~= tags.take(i));
    assert(tags.take(i + 1).last() == tags[i]);
}

/// Reading one more tag leaves the first occurrence alone once it is
/// found, and takes the new tag only when nothing matched before.
proof fn lemma_first_value_step(tags: Seq<Tag>, i: int, key: Seq<char>)
    requires
        0 <= i < tags.len(),
    ensures
        first_value(tags.take(i + 1), key) == if first_value(tags.take(i), key) is Some {
            first_value(tags.take(i), key)
        } else if tags[i].key@ == key {
            Some(tags[i].value@)
        } else {
            None::<Seq<char>>
        },
    decreases i,
{
    if i == 0 {
        assert(tags.take(1).first() == tags[0]);
        assert(tags.take(0).len() == 0);
        if tags[0].key@ != key {
            assert(tags.take(1).drop_first() =~= tags.take(0));
        }
    } else {
        let sub = tags.drop_first();
        lemma_first_value_step(sub, i - 1, key);
        assert(tags.take(i + 1).first() == tags[0]);
        assert(tags.take(i).first() == tags[0]);
        assert(tags.take(i + 1).drop_first() =~= sub.take(i));
        assert(tags.take(i).drop_first() =~= sub.take(i - 1));
        assert(sub.take(i - 1 + 1) == sub.take(i));
        assert(sub[i - 1] == tags[i]);
    }
}

/// Applies the point-entity rule to one entity: the extracted city, or
/// nothing when the rule does not apply. An unparsable population value
/// degrades to an absent population and is never an error.
pub fn extract_city(p: &PointEntity) -> (r: Option<City>)
    ensures
        r is Some <==> city_rule_applies(*p),
        r matches Some(c) ==> is_city_of(*p, c),
{
    let ghost tags = p.tags@;
    let mut place: Option<String> = None;
    let mut name: Option<String> = None;
    let mut population: Option<String> = None;
    let n = p.tags.len();
    let mut i: usize = 0;
    while i < n
        invariant
            0 <= i <= n,
            n == tags.len(),
            tags == p.tags@,
            (match last_value(tags.take(i as int), "place"@) {
                Some(v) => place matches Some(s) && s@ == v,
                None => place is None,
            }),
            (match last_value(tags.take(i as int), "name"@) {
                Some(v) => name matches Some(s) && s@ == v,
                None => name is None,
            }),
            (match last_value(tags.take(i as int), "population"@) {
                Some(v) => population matches Some(s) && s@ == v,
                None => population is None,
            }),
        decreases n - i,
    {
        let t = &p.tags[i];
        proof {
            lemma_last_value_step(tags, i as int, "place"@);
            lemma_last_value_step(tags, i as int, "name"@);
            lemma_last_value_step(tags, i as int, "population"@);
        }
        if str_eq(t.key.as_str(), "place") {
            place = Some(t.value.clone());
        }
        if str_eq(t.key.as_str(), "name") {
            name = Some(t.value.clone());
        }
        if str_eq(t.key.as_str(), "population") {
            population = Some(t.value.clone());
        }
        i = i + 1;
    }
    proof {
        assert(tags.take(n as int) =~= tags);
    }
    match (place, name) {
        (Some(place_v), Some(name_v)) => {
            if str_eq(place_v.as_str(), "city") || str_eq(place_v.as_str(), "town") {
                let population = match population {
                    Some(s) => parse_i64_str(s.as_str()),
                    None => None,
                };
                Some(
                    City {
                        id: p.id,
                        name: Some(name_v),
                        nano_lat: p.nano_lat,
                        nano_lon: p.nano_lon,
                        population,
                    },
                )
            } else {
                None
            }
        },
        _ => None,
    }
}

/// Copies a reference list.
fn copy_refs(v: &Vec<i64>) -> (r: Vec<i64>)
    ensures
        r@ == v@,
{
    let mut r: Vec<i64> = Vec::new();
    let n = v.len();
    let mut i: usize = 0;
    while i < n
        invariant
            0 <= i <= n,
            n == v@.len(),
            r@ == v@.take(i as int),
        decreases n - i,
    {
        r.push(v[i]);
        proof {
            assert(v@.take(i + 1) =~= v@.take(i as int).push(v@[i as int]));
        }
        i = i + 1;
    }
    proof {
        assert(v@.take(n as int) =~= v@);
    }
    r
}

/// Applies the linear-entity rule to one entity: the extracted road,
/// or nothing when no tag carries the road-category key. The road's
/// name is the value of the first name tag in source order; its node
/// list is the entity's reference list verbatim, with no deduplication
/// and no referential check.
pub fn extract_road(l: &LinearEntity) -> (r: Option<Road>)
    ensures
        r is Some <==> road_rule_applies(*l),
        r matches Some(rd) ==> is_road_of(*l, rd),
{
    let ghost tags = l.tags@;
    let mut found: bool = false;
    let mut name: Option<String> = None;
    let n = l.tags.len();
    let mut i: usize = 0;
    while i < n
        invariant
            0 <= i <= n,
            n == tags.len(),
            tags == l.tags@,
            found == has_key(tags.take(i as int), "highway"@),
            (match first_value(tags.take(i as int), "name"@) {
                Some(v) => name matches Some(s) && s@ == v,
                None => name is None,
            }),
        decreases n - i,
    {
        let t = &l.tags[i];
        proof {
            lemma_first_value_step(tags, i as int, "name"@);
        }
        if str_eq(t.key.as_str(), "highway") {
            found = true;
            proof {
                assert(tags.take(i + 1)[i as int].key@ == "highway"@);
            }
        } else {
            proof {
                if has_key(tags.take(i + 1), "highway"@) {
                    let j = choose|j: int|
                        0 <= j < tags.take(i + 1).len() && (#[trigger] tags.take(i + 1)[j]).key@
                            == "highway"@;
                    assert(j < i ==> tags.take(i as int)[j].key@ == "highway"@);
                }
            }
        }
        if name.is_none() && str_eq(t.key.as_str(), "name") {
            name = Some(t.value.clone());
        }
        i = i + 1;
        proof {
            if has_key(tags.take(i - 1), "highway"@) {
                let j = choose|j: int|
                    0 <= j < tags.take(i - 1).len() && (#[trigger] tags.take(i - 1)[j]).key@
                        == "highway"@;
                assert(tags.take(i as int)[j].key@ == "highway"@);
            }
        }
    }
    proof {
        assert(tags.take(n as int) =~= tags);
    }
    if found {
        Some(Road { id: l.id, name, nodes: copy_refs(&l.refs) })
    } else {
        None
    }
}

/// Whether `cs` is exactly the sequence of cities the rule extracts
/// from `ps`, in source order: one city for each point entity the rule
/// applies to, and nothing for any other.
pub open spec fn cities_extracted(ps: Seq<PointEntity>, cs: Seq<City>) -> bool
    decreases ps.len(),
{
    if ps.len() == 0 {
        cs.len() == 0
    } else if city_rule_applies(ps.last()) {
        cs.len() > 0 && is_city_of(ps.last(), cs.last()) && cities_extracted(
            ps.drop_last(),
            cs.drop_last(),
        )
    } else {
        cities_extracted(ps.drop_last(), cs)
    }
}

/// Whether `rs` is exactly the sequence of roads the rule extracts
/// from `ls`, in source order.
pub open spec fn roads_extracted(ls: Seq<LinearEntity>, rs: Seq<Road>) -> bool
    decreases ls.len(),
{
    if ls.len() == 0 {
        rs.len() == 0
    } else if road_rule_applies(ls.last()) {
        rs.len() > 0 && is_road_of(ls.last(), rs.last()) && roads_extracted(
            ls.drop_last(),
            rs.drop_last(),
        )
    } else {
        roads_extracted(ls.drop_last(), rs)
    }
}

/// How many point entities of `ps` the city rule applies to.
pub open spec fn city_count(ps: Seq<PointEntity>) -> int
    decreases ps.len(),
{
    if ps.len() == 0 {
        0
    } else {
        city_count(ps.drop_last()) + if city_rule_applies(ps.last()) {
            1int
        } else {
            0int
        }
    }
}

/// How many linear entities of `ls` the road rule applies to.
pub open spec fn road_count(ls: Seq<LinearEntity>) -> int
    decreases ls.len(),
{
    if ls.len() == 0 {
        0
    } else {
        road_count(ls.drop_last()) + if road_rule_applies(ls.last()) {
            1int
        } else {
            0int
        }
    }
}

/// Extraction yields exactly one city per point entity that carries the
/// place-category tag with value "city" or "town" together with a name
/// tag, and none for any other point entity.
pub proof fn lemma_one_city_per_match(ps: Seq<PointEntity>, cs: Seq<City>)
    requires
        cities_extracted(ps, cs),
    ensures
        cs.len() == city_count(ps),
    decreases ps.len(),
{
    if ps.len() > 0 {
        if city_rule_applies(ps.last()) {
            lemma_one_city_per_match(ps.drop_last(), cs.drop_last());
        } else {
            lemma_one_city_per_match(ps.drop_last(), cs);
        }
    }
}

/// Extraction yields exactly one road per linear entity that carries
/// the road-category tag, and none for any other linear entity.
pub proof fn lemma_one_road_per_match(ls: Seq<LinearEntity>, rs: Seq<Road>)
    requires
        roads_extracted(ls, rs),
    ensures
        rs.len() == road_count(ls),
    decreases ls.len(),
{
    if ls.len() > 0 {
        if road_rule_applies(ls.last()) {
            lemma_one_road_per_match(ls.drop_last(), rs.drop_last());
        } else {
            lemma_one_road_per_match(ls.drop_last(), rs);
        }
    }
}

/// Extracting from the concatenation of two point runs yields the
/// concatenation of what each run yields.
pub proof fn lemma_cities_extracted_concat(
    ps1: Seq<PointEntity>,
    cs1: Seq<City>,
    ps2: Seq<PointEntity>,
    cs2: Seq<City>,
)
    requires
        cities_extracted(ps1, cs1),
        cities_extracted(ps2, cs2),
    ensures
        cities_extracted(ps1 + ps2, cs1 + cs2),
    decreases ps2.len(),
{
    if ps2.len() == 0 {
        assert(ps1 + ps2 =~= ps1);
        assert(cs1 + cs2 =~= cs1);
    } else {
        let all_p = ps1 + ps2;
        assert(all_p.last() == ps2.last());
        assert(all_p.drop_last() =~= ps1 + ps2.drop_last());
        if city_rule_applies(ps2.last()) {
            lemma_cities_extracted_concat(ps1, cs1, ps2.drop_last(), cs2.drop_last());
            let all_c = cs1 + cs2;
            assert(all_c.last() == cs2.last());
            assert(all_c.drop_last() =~= cs1 + cs2.drop_last());
        } else {
            lemma_cities_extracted_concat(ps1, cs1, ps2.drop_last(), cs2);
        }
    }
}

/// Applies the point-entity rule to each entity of `ps` in order.
pub fn extract_points(ps: &Vec<PointEntity>) -> (cs: Vec<City>)
    ensures
        cities_extracted(ps@, cs@),
{
    let mut cs: Vec<City> = Vec::new();
    let n = ps.len();
    let mut i: usize = 0;
    while i < n
        invariant
            0 <= i <= n,
            n == ps@.len(),
            cities_extracted(ps@.take(i as int), cs@),
        decreases n - i,
    {
        proof {
            assert(ps@.take(i + 1).drop_last() =~= ps@.take(i as int));
            assert(ps@.take(i + 1).last() == ps@[i as int]);
        }
        let ghost cs0 = cs@;
        match extract_city(&ps[i]) {
            Some(c) => {
                cs.push(c);
                proof {
                    assert(cs@.drop_last() =~= cs0);
                }
            },
            None => {},
        }
        i = i + 1;
    }
    proof {
        assert(ps@.take(n as int) =~= ps@);
    }
    cs
}

/// Applies the linear-entity rule to each entity of `ls` in order.
pub fn extract_lines(ls: &Vec<LinearEntity>) -> (rs: Vec<Road>)
    ensures
        roads_extracted(ls@, rs@),
{
    let mut rs: Vec<Road> = Vec::new();
    let n = ls.len();
    let mut i: usize = 0;
    while i < n
        invariant
            0 <= i <= n,
            n == ls@.len(),
            roads_extracted(ls@.take(i as int), rs@),
        decreases n - i,
    {
        proof {
            assert(ls@.take(i + 1).drop_last() =~= ls@.take(i as int));
            assert(ls@.take(i + 1).last() == ls@[i as int]);
        }
        let ghost rs0 = rs@;
        match extract_road(&ls[i]) {
            Some(r) => {
                rs.push(r);
                proof {
                    assert(rs@.drop_last() =~= rs0);
                }
            },
            None => {},
        }
        i = i + 1;
    }
    proof {
        assert(ls@.take(n as int) =~= ls@);
    }
    rs
}

} // verus!
