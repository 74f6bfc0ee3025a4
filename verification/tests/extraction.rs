use osm_extractor::entities::{LinearEntity, PointEntity, Tag};
use osm_extractor::extract::{extract_city, extract_road};
use osm_extractor::text::parse_i64_str;

fn tag(key: &str, value: &str) -> Tag {
    Tag { key: key.to_string(), value: value.to_string() }
}

fn point(id: i64, nano_lat: i64, nano_lon: i64, tags: Vec<Tag>) -> PointEntity {
    PointEntity { id, nano_lat, nano_lon, tags }
}

fn line(id: i64, tags: Vec<Tag>, refs: Vec<i64>) -> LinearEntity {
    LinearEntity { id, tags, refs }
}

#[test]
fn city_scenario_paris() {
    // 48.8566 degrees and 2.3522 degrees in nanodegrees.
    let p = point(
        42,
        48_856_600_000,
        2_352_200_000,
        vec![tag("place", "city"), tag("name", "Paris"), tag("population", "2148000")],
    );
    let c = extract_city(&p).expect("a city");
    assert_eq!(c.id, 42);
    assert_eq!(c.name.as_deref(), Some("Paris"));
    assert_eq!(c.nano_lat, 48_856_600_000);
    assert_eq!(c.nano_lon, 2_352_200_000);
    assert_eq!(c.population, Some(2_148_000));
}

#[test]
fn town_is_a_city_record() {
    let p = point(5, 1, 2, vec![tag("name", "Looe"), tag("place", "town")]);
    let c = extract_city(&p).expect("a city");
    assert_eq!(c.name.as_deref(), Some("Looe"));
    assert_eq!(c.population, None);
}

#[test]
fn no_name_no_city() {
    let p = point(7, 0, 0, vec![tag("place", "city")]);
    assert!(extract_city(&p).is_none());
}

#[test]
fn no_place_no_city() {
    let p = point(8, 0, 0, vec![tag("name", "Nowhere"), tag("population", "3")]);
    assert!(extract_city(&p).is_none());
}

#[test]
fn village_is_not_a_city() {
    let p = point(9, 0, 0, vec![tag("place", "village"), tag("name", "Hamlet")]);
    assert!(extract_city(&p).is_none());
}

#[test]
fn unrecognized_tags_are_ignored() {
    let p = point(
        10,
        3,
        4,
        vec![tag("tourism", "museum"), tag("place", "city"), tag("wikidata", "Q1"), tag(
            "name",
            "Metropolis",
        )],
    );
    let c = extract_city(&p).expect("a city");
    assert_eq!(c.name.as_deref(), Some("Metropolis"));
}

#[test]
fn last_occurrence_wins_for_point_tags() {
    let p = point(11, 0, 0, vec![
        tag("place", "village"),
        tag("name", "Old"),
        tag("place", "city"),
        tag("name", "New"),
    ]);
    let c = extract_city(&p).expect("a city");
    assert_eq!(c.name.as_deref(), Some("New"));
}

#[test]
fn invalid_population_degrades_to_absent() {
    let p = point(12, 0, 0, vec![tag("place", "city"), tag("name", "X"), tag(
        "population",
        "about 2 million",
    )]);
    let c = extract_city(&p).expect("a city");
    assert_eq!(c.population, None);
}

#[test]
fn population_with_sign_parses() {
    let p = point(13, 0, 0, vec![tag("place", "city"), tag("name", "X"), tag(
        "population",
        "+1234",
    )]);
    let c = extract_city(&p).expect("a city");
    assert_eq!(c.population, Some(1234));
}

#[test]
fn road_scenario_rue_de_rivoli() {
    let l = line(99, vec![tag("highway", "primary"), tag("name", "Rue de Rivoli")], vec![1, 2, 3]);
    let r = extract_road(&l).expect("a road");
    assert_eq!(r.id, 99);
    assert_eq!(r.name.as_deref(), Some("Rue de Rivoli"));
    assert_eq!(r.nodes, vec![1, 2, 3]);
}

#[test]
fn any_highway_value_makes_a_road() {
    let l = line(100, vec![tag("highway", "service")], vec![7, 7, 8]);
    let r = extract_road(&l).expect("a road");
    assert_eq!(r.name, None);
    // Duplicates and dangling references are kept verbatim.
    assert_eq!(r.nodes, vec![7, 7, 8]);
}

#[test]
fn first_name_wins_for_roads() {
    let l = line(
        101,
        vec![tag("name", "First"), tag("highway", "primary"), tag("name", "Second")],
        vec![],
    );
    let r = extract_road(&l).expect("a road");
    assert_eq!(r.name.as_deref(), Some("First"));
}

#[test]
fn no_highway_tag_no_road() {
    let l = line(102, vec![tag("name", "Towpath"), tag("waterway", "canal")], vec![1]);
    assert!(extract_road(&l).is_none());
}

#[test]
fn parse_accepts_plain_and_signed_decimals() {
    assert_eq!(parse_i64_str("2148000"), Some(2_148_000));
    assert_eq!(parse_i64_str("0"), Some(0));
    assert_eq!(parse_i64_str("+5"), Some(5));
    assert_eq!(parse_i64_str("-17"), Some(-17));
    assert_eq!(parse_i64_str("9223372036854775807"), Some(i64::MAX));
    assert_eq!(parse_i64_str("-9223372036854775808"), Some(i64::MIN));
    assert_eq!(parse_i64_str("0005"), Some(5));
}

#[test]
fn parse_rejects_malformed_and_overflowing_input() {
    assert_eq!(parse_i64_str(""), None);
    assert_eq!(parse_i64_str("+"), None);
    assert_eq!(parse_i64_str("-"), None);
    assert_eq!(parse_i64_str(" 12"), None);
    assert_eq!(parse_i64_str("12 "), None);
    assert_eq!(parse_i64_str("1_000"), None);
    assert_eq!(parse_i64_str("12a"), None);
    assert_eq!(parse_i64_str("1.5"), None);
    assert_eq!(parse_i64_str("9223372036854775808"), None);
    assert_eq!(parse_i64_str("-9223372036854775809"), None);
    assert_eq!(parse_i64_str("99999999999999999999999999"), None);
    assert_eq!(parse_i64_str("٣٤"), None);
}

#[test]
fn parse_matches_std_on_samples() {
    let samples = ["7", "-0", "+000", "184467", "x", "--3", "+-3", "18446744073709551615"];
    for s in samples.iter() {
        assert_eq!(parse_i64_str(s), s.parse::<i64>().ok());
    }
}
