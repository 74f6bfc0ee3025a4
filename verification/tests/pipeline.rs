//! Feeds hand-assembled chunks of the container format through the real
//! reader and decoder, then through the verified extraction pipeline.

use std::io::Cursor;

use osm_extractor::decode::{process_chunk, ChunkWork};
use osm_extractor::run::{ChunkOutcome, RunAggregator, WriteStats};

// --- Minimal protobuf wire encoding -------------------------------------

fn varint(mut n: u64) -> Vec<u8> {
    let mut out = Vec::new();
    loop {
        let b = (n & 0x7f) as u8;
        n >>= 7;
        if n == 0 {
            out.push(b);
            return out;
        }
        out.push(b | 0x80);
    }
}

fn zigzag(n: i64) -> u64 {
    ((n << 1) ^ (n >> 63)) as u64
}

fn key(field: u64, wire: u64) -> Vec<u8> {
    varint((field << 3) | wire)
}

fn field_varint(field: u64, value: u64) -> Vec<u8> {
    let mut out = key(field, 0);
    out.extend_from_slice(&varint(value));
    out
}

fn field_bytes(field: u64, payload: &[u8]) -> Vec<u8> {
    let mut out = key(field, 2);
    out.extend_from_slice(&varint(payload.len() as u64));
    out.extend_from_slice(payload);
    out
}

fn packed_varints(field: u64, values: &[u64]) -> Vec<u8> {
    let mut payload = Vec::new();
    for v in values.iter() {
        payload.extend_from_slice(&varint(*v));
    }
    field_bytes(field, &payload)
}

// --- The dump format's messages ------------------------------------------

fn string_table(entries: &[&str]) -> Vec<u8> {
    let mut out = Vec::new();
    for e in entries.iter() {
        out.extend_from_slice(&field_bytes(1, e.as_bytes()));
    }
    out
}

/// A node message: id, parallel key/value string ids, and coordinates in
/// units of the block's granularity (100 nanodegrees by default).
fn node(id: i64, keys: &[u64], vals: &[u64], lat: i64, lon: i64) -> Vec<u8> {
    let mut out = field_varint(1, zigzag(id));
    out.extend_from_slice(&packed_varints(2, keys));
    out.extend_from_slice(&packed_varints(3, vals));
    out.extend_from_slice(&field_varint(8, zigzag(lat)));
    out.extend_from_slice(&field_varint(9, zigzag(lon)));
    out
}

/// A way message: id, parallel key/value string ids, and delta-coded
/// node references.
fn way(id: u64, keys: &[u64], vals: &[u64], ref_deltas: &[i64]) -> Vec<u8> {
    let mut out = field_varint(1, id);
    out.extend_from_slice(&packed_varints(2, keys));
    out.extend_from_slice(&packed_varints(3, vals));
    let mut zz = Vec::new();
    for d in ref_deltas.iter() {
        zz.push(zigzag(*d));
    }
    out.extend_from_slice(&packed_varints(8, &zz));
    out
}

fn primitive_block(strings: &[&str], group: &[u8]) -> Vec<u8> {
    let mut out = field_bytes(1, &string_table(strings));
    out.extend_from_slice(&field_bytes(2, group));
    out
}

/// One length-prefixed chunk: a header naming the payload's kind, then
/// the payload itself, uncompressed.
fn chunk(kind: &str, payload: &[u8]) -> Vec<u8> {
    let blob = field_bytes(1, payload);
    let mut header = field_bytes(1, kind.as_bytes());
    header.extend_from_slice(&field_varint(3, blob.len() as u64));
    let mut out = Vec::new();
    out.extend_from_slice(&(header.len() as u32).to_be_bytes());
    out.extend_from_slice(&header);
    out.extend_from_slice(&blob);
    out
}

/// A chunk whose payload claims zlib compression but holds garbage.
fn corrupt_chunk() -> Vec<u8> {
    let mut blob = field_varint(2, 64);
    blob.extend_from_slice(&field_bytes(3, &[0xde, 0xad, 0xbe, 0xef]));
    let mut header = field_bytes(1, "OSMData".as_bytes());
    header.extend_from_slice(&field_varint(3, blob.len() as u64));
    let mut out = Vec::new();
    out.extend_from_slice(&(header.len() as u32).to_be_bytes());
    out.extend_from_slice(&header);
    out.extend_from_slice(&blob);
    out
}

fn paris_block() -> Vec<u8> {
    // String ids: 0 is reserved, then keys and values.
    let strings = ["", "place", "city", "name", "Paris", "population", "2148000", "highway",
        "primary", "Rue de Rivoli"];
    // 48.8566 and 2.3522 degrees, in units of 100 nanodegrees.
    let n = node(42, &[1, 3, 5], &[2, 4, 6], 488_566_000, 23_522_000);
    let w = way(99, &[7, 3], &[8, 9], &[1, 1, 1]);
    let mut group = field_bytes(1, &n);
    group.extend_from_slice(&field_bytes(3, &w));
    primitive_block(&strings, &group)
}

/// A dense-node message: delta-coded ids and coordinates, and one flat
/// key/value string-id list with a zero closing each entity's run.
fn dense_nodes(id_deltas: &[i64], lat_deltas: &[i64], lon_deltas: &[i64], keys_vals: &[u64])
    -> Vec<u8> {
    let mut zz_ids = Vec::new();
    for d in id_deltas.iter() {
        zz_ids.push(zigzag(*d));
    }
    let mut zz_lats = Vec::new();
    for d in lat_deltas.iter() {
        zz_lats.push(zigzag(*d));
    }
    let mut zz_lons = Vec::new();
    for d in lon_deltas.iter() {
        zz_lons.push(zigzag(*d));
    }
    let mut out = packed_varints(1, &zz_ids);
    out.extend_from_slice(&packed_varints(8, &zz_lats));
    out.extend_from_slice(&packed_varints(9, &zz_lons));
    out.extend_from_slice(&packed_varints(10, keys_vals));
    out
}

fn read_chunks(bytes: Vec<u8>) -> Vec<osmpbf::Blob> {
    let reader = osmpbf::BlobReader::new(Cursor::new(bytes));
    let mut out = Vec::new();
    for blob in reader {
        out.push(blob.expect("a framed chunk"));
    }
    out
}

#[test]
fn a_data_chunk_yields_its_city_and_road() {
    let bytes = chunk("OSMData", &paris_block());
    let blobs = read_chunks(bytes);
    assert_eq!(blobs.len(), 1);
    match process_chunk(&blobs[0]) {
        ChunkWork::Extracted(e) => {
            assert_eq!(e.cities.len(), 1);
            let c = &e.cities[0];
            assert_eq!(c.id, 42);
            assert_eq!(c.name.as_deref(), Some("Paris"));
            assert_eq!(c.nano_lat, 48_856_600_000);
            assert_eq!(c.nano_lon, 2_352_200_000);
            assert_eq!(c.population, Some(2_148_000));
            assert_eq!(e.roads.len(), 1);
            let r = &e.roads[0];
            assert_eq!(r.id, 99);
            assert_eq!(r.name.as_deref(), Some("Rue de Rivoli"));
            assert_eq!(r.nodes, vec![1, 2, 3]);
        },
        _ => panic!("expected an extraction"),
    }
}

#[test]
fn dense_entities_reach_the_same_extraction_rule() {
    // Two delta-encoded point entities; the first is a city.
    let strings = ["", "place", "city", "name", "Delta"];
    let d = dense_nodes(
        &[42, 1],
        &[488_566_000, 1_000],
        &[23_522_000, -2_000],
        &[1, 2, 3, 4, 0, 0],
    );
    let group = field_bytes(2, &d);
    let block = primitive_block(&strings, &group);
    let blobs = read_chunks(chunk("OSMData", &block));
    match process_chunk(&blobs[0]) {
        ChunkWork::Extracted(e) => {
            assert_eq!(e.cities.len(), 1);
            let c = &e.cities[0];
            assert_eq!(c.id, 42);
            assert_eq!(c.name.as_deref(), Some("Delta"));
            assert_eq!(c.nano_lat, 48_856_600_000);
            assert_eq!(c.nano_lon, 2_352_200_000);
            assert_eq!(c.population, None);
        },
        _ => panic!("expected an extraction"),
    }
}

#[test]
fn an_empty_data_chunk_is_extracted_not_skipped() {
    let strings = [""];
    let block = primitive_block(&strings, &[]);
    let blobs = read_chunks(chunk("OSMData", &block));
    match process_chunk(&blobs[0]) {
        ChunkWork::Extracted(e) => {
            assert_eq!(e.cities.len(), 0);
            assert_eq!(e.roads.len(), 0);
        },
        _ => panic!("expected an empty extraction"),
    }
}

#[test]
fn header_and_unknown_chunks_are_skipped() {
    let mut bytes = chunk("OSMHeader", &[]);
    bytes.extend_from_slice(&chunk("UnknownKind", &[1, 2, 3]));
    let blobs = read_chunks(bytes);
    assert_eq!(blobs.len(), 2);
    assert!(matches!(process_chunk(&blobs[0]), ChunkWork::Skipped));
    assert!(matches!(process_chunk(&blobs[1]), ChunkWork::Skipped));
}

#[test]
fn a_corrupted_chunk_fails_alone() {
    // A good chunk, a corrupted one, another good chunk: the corrupted
    // payload is a recoverable per-chunk failure and its siblings still
    // extract.
    let mut bytes = chunk("OSMData", &paris_block());
    bytes.extend_from_slice(&corrupt_chunk());
    bytes.extend_from_slice(&chunk("OSMData", &paris_block()));
    let blobs = read_chunks(bytes);
    assert_eq!(blobs.len(), 3);
    let mut agg = RunAggregator::new(4);
    for blob in blobs.iter() {
        agg.dispatch();
        let outcome = match process_chunk(blob) {
            ChunkWork::Skipped => ChunkOutcome::Skipped,
            ChunkWork::Failed(_) => ChunkOutcome::DecodeFailed,
            ChunkWork::Extracted(e) => {
                let mut w = WriteStats::start(e.entity_count());
                for _ in 0..e.cities.len() {
                    w.note_written();
                }
                for _ in 0..e.roads.len() {
                    w.note_written();
                }
                ChunkOutcome::Written(w)
            },
        };
        agg.complete(outcome);
    }
    assert!(agg.is_complete());
    let rep = agg.report();
    assert_eq!(rep.chunks, 3);
    assert_eq!(rep.decode_errors, 1);
    assert_eq!(rep.extracted, 4);
    assert_eq!(rep.written, 4);
}

#[test]
fn a_truncated_stream_is_a_framing_error() {
    let mut bytes = chunk("OSMData", &paris_block());
    bytes.truncate(bytes.len() - 3);
    let reader = osmpbf::BlobReader::new(Cursor::new(bytes));
    let results: Vec<_> = reader.collect();
    assert!(results.iter().any(|r| r.is_err()));
}
