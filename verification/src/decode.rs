//! The chunk decoder boundary. A raw chunk decodes — through the
//! container format's own reader — to a header, a batch of entities, or
//! an unrecognized kind; a payload that fails decompression or
//! structural decoding is a per-chunk, recoverable failure. The decoded
//! batch is plain data, and everything after the decode call is
//! verified: normalization of bulk batches and the extraction rules.

use vstd::prelude::*;

use crate::dense::{dense_well_formed, dense_points_of, normalize_dense};
use crate::entities::{City, DenseBatch, EntityBatch, LinearEntity, PointEntity, Road, Tag};
use crate::extract::{
    cities_extracted, extract_lines, extract_points, lemma_cities_extracted_concat,
    roads_extracted,
};

verus! {

#[verifier::external_type_specification]
#[verifier::external_body]
pub struct ExBlob(osmpbf::Blob);

#[verifier::external_type_specification]
#[verifier::external_body]
pub struct ExPrimitiveBlock(osmpbf::PrimitiveBlock);

/// What one chunk decodes to.
pub enum DecodedChunk {
    /// Dump metadata: extraction ignores it.
    Header,
    /// A primitive block: a batch of entities, still in the container
    /// format's own representation.
    Data(osmpbf::PrimitiveBlock),
    /// A chunk kind this consumer does not know: skipped silently.
    Unrecognized,
}

/// The kind of payload one chunk holds, as decoding resolves it.
#[derive(Clone, Copy, Debug, PartialEq, Eq, Structural)]
pub enum ChunkKind {
    /// Dump metadata.
    Header,
    /// A batch of entities.
    Data,
    /// A chunk kind this consumer does not know.
    Unrecognized,
    /// A payload whose decompression or structural decoding fails.
    Undecodable,
}

/// The kind of payload the chunk `b` decodes to: decoding is a function
/// of the chunk's bytes alone.
pub uninterp spec fn chunk_kind_of(b: osmpbf::Blob) -> ChunkKind;

/// The individually tagged point entities a data chunk holds, in order.
pub uninterp spec fn chunk_plain_points(b: osmpbf::Blob) -> Seq<PointEntity>;

/// The delta-encoded point entities a data chunk holds, resolved to
/// absolute values, in order.
pub uninterp spec fn chunk_bulk_points(b: osmpbf::Blob) -> Seq<PointEntity>;

/// The linear entities a data chunk holds, in order.
pub uninterp spec fn chunk_lines(b: osmpbf::Blob) -> Seq<LinearEntity>;

/// The individually tagged point entities of a decoded block, in order.
pub uninterp spec fn plain_points_of(b: osmpbf::PrimitiveBlock) -> Seq<PointEntity>;

/// The delta-encoded point entities of a decoded block, resolved to
/// absolute values, in order.
pub uninterp spec fn bulk_points_of(b: osmpbf::PrimitiveBlock) -> Seq<PointEntity>;

/// The linear entities of a decoded block, in order.
pub uninterp spec fn lines_of(b: osmpbf::PrimitiveBlock) -> Seq<LinearEntity>;

/// Relies on osmpbf::PrimitiveBlock::groups and the plain node
/// iterator: the block's individually tagged point entities, in order,
/// with absolute ids, nanodegree coordinates, and resolved tag strings.
#[verifier::external_body]
fn block_plain_points(block: &osmpbf::PrimitiveBlock) -> (r: Vec<PointEntity>)
    ensures
        r@ == plain_points_of(*block),
{
    block.groups().flat_map(|g| g.nodes()).map(
        |n| PointEntity {
            id: n.id(),
            nano_lat: n.nano_lat(),
            nano_lon: n.nano_lon(),
            tags: n.tags().map(|(k, v)| Tag { key: k.to_string(), value: v.to_string() }).collect(),
        },
    ).collect()
}

/// Relies on osmpbf::PrimitiveBlock::groups and the dense node
/// iterator, which already resolves the bulk delta encoding: the
/// block's delta-encoded point entities, in order, with absolute ids,
/// nanodegree coordinates, and resolved tag strings.
#[verifier::external_body]
fn block_dense_points(block: &osmpbf::PrimitiveBlock) -> (r: Vec<PointEntity>)
    ensures
        r@ == bulk_points_of(*block),
{
    block.groups().flat_map(|g| g.dense_nodes()).map(
        |n| PointEntity {
            id: n.id(),
            nano_lat: n.nano_lat(),
            nano_lon: n.nano_lon(),
            tags: n.tags().map(|(k, v)| Tag { key: k.to_string(), value: v.to_string() }).collect(),
        },
    ).collect()
}

/// Relies on osmpbf::PrimitiveBlock::groups and the way iterator: the
/// block's linear entities, in order, with resolved tag strings and the
/// delta decoding of each reference list already applied.
#[verifier::external_body]
fn block_lines(block: &osmpbf::PrimitiveBlock) -> (r: Vec<LinearEntity>)
    ensures
        r@ == lines_of(*block),
{
    block.groups().flat_map(|g| g.ways()).map(
        |w| LinearEntity {
            id: w.id(),
            tags: w.tags().map(|(k, v)| Tag { key: k.to_string(), value: v.to_string() }).collect(),
            refs: w.refs().collect(),
        },
    ).collect()
}

/// Relies on osmpbf::Blob::decode: one chunk decodes independently of
/// every other to a header block, a primitive block, or an unrecognized
/// kind, handling per-chunk compression transparently; a decompression
/// or structural decoding failure is returned as an error value. The
/// variant returned names the chunk's decoded kind, and a returned
/// block holds exactly the chunk's entities.
#[verifier::external_body]
fn decode_blob(blob: &osmpbf::Blob) -> (r: Result<DecodedChunk, String>)
    ensures
        r is Err <==> chunk_kind_of(*blob) == ChunkKind::Undecodable,
        r matches Ok(DecodedChunk::Header) <==> chunk_kind_of(*blob) == ChunkKind::Header,
        r matches Ok(DecodedChunk::Unrecognized) <==> chunk_kind_of(*blob)
            == ChunkKind::Unrecognized,
        r matches Ok(DecodedChunk::Data(block)) ==> {
            &&& chunk_kind_of(*blob) == ChunkKind::Data
            &&& plain_points_of(block) == chunk_plain_points(*blob)
            &&& bulk_points_of(block) == chunk_bulk_points(*blob)
            &&& lines_of(block) == chunk_lines(*blob)
        },
{
    match blob.decode() {
        Ok(osmpbf::BlobDecode::OsmHeader(_)) => Ok(DecodedChunk::Header),
        Ok(osmpbf::BlobDecode::OsmData(block)) => Ok(DecodedChunk::Data(block)),
        Ok(osmpbf::BlobDecode::Unknown(_)) => Ok(DecodedChunk::Unrecognized),
        Err(e) => Err(e.to_string()),
    }
}

/// One decoded block as plain entities. The container's own iterators
/// resolve the bulk delta encoding while reading, so both point-entity
/// kinds arrive in the point list and the batch's bulk part stays
/// empty; a producer that hands the library raw bulk batches fills the
/// bulk part instead.
fn batch_of_block(block: &osmpbf::PrimitiveBlock) -> (b: EntityBatch)
    ensures
        b.points@ == plain_points_of(*block) + bulk_points_of(*block),
        b.lines@ == lines_of(*block),
        b.dense.id_deltas@.len() == 0,
        b.dense.lat_deltas@.len() == 0,
        b.dense.lon_deltas@.len() == 0,
        b.dense.key_val_indices@.len() == 0,
{
    let mut points = block_plain_points(block);
    let mut from_bulk = block_dense_points(block);
    points.append(&mut from_bulk);
    EntityBatch { points, dense: DenseBatch::empty(), lines: block_lines(block) }
}

/// The two record kinds one chunk yields, ready to be written.
pub struct Extraction {
    pub cities: Vec<City>,
    pub roads: Vec<Road>,
}

impl Extraction {
    /// How many entities this chunk extracted, clamped to what a 64-bit
    /// counter can hold.
    pub fn entity_count(&self) -> (r: u64)
        ensures
            r == crate::run::sat64(self.cities@.len() + self.roads@.len() as int),
    {
        let total = self.cities.len() as u128 + self.roads.len() as u128;
        if total > u64::MAX as u128 {
            u64::MAX
        } else {
            total as u64
        }
    }
}

/// Whether `e` is exactly what the extraction rules yield from the
/// batch `b`: its bulk entries normalized and read by the same
/// point-entity rule as the plainly tagged ones, in order.
pub open spec fn extraction_of_batch(b: EntityBatch, e: Extraction) -> bool {
    exists|dps: Seq<PointEntity>|
        {
            &&& #[trigger] dense_points_of(b.dense, dps)
            &&& cities_extracted(b.points@ + dps, e.cities@)
            &&& roads_extracted(b.lines@, e.roads@)
        }
}

/// Applies the extraction rules to one decoded batch: the bulk entries
/// are normalized first, then every point entity — plainly tagged or
/// bulk — goes through the city rule and every linear entity through
/// the road rule. Yields nothing exactly when the bulk batch is
/// structurally malformed.
pub fn extract_batch(b: &EntityBatch) -> (r: Option<Extraction>)
    ensures
        r is Some <==> dense_well_formed(b.dense),
        r matches Some(e) ==> extraction_of_batch(*b, e),
        b.dense.id_deltas@.len() == 0 && b.dense.lat_deltas@.len() == 0
            && b.dense.lon_deltas@.len() == 0 && b.dense.key_val_indices@.len() == 0 ==> {
            &&& r is Some
            &&& (r matches Some(e) ==> cities_extracted(b.points@, e.cities@) && roads_extracted(
                b.lines@,
                e.roads@,
            ))
        },
{
    let dps = match normalize_dense(&b.dense) {
        Some(v) => v,
        None => {
            return None;
        },
    };
    let mut cities = extract_points(&b.points);
    let mut more = extract_points(&dps);
    proof {
        lemma_cities_extracted_concat(b.points@, cities@, dps@, more@);
    }
    cities.append(&mut more);
    let roads = extract_lines(&b.lines);
    let e = Extraction { cities, roads };
    proof {
        let w = dps@;
        assert(dense_points_of(b.dense, w) && cities_extracted(b.points@ + w, e.cities@)
            && roads_extracted(b.lines@, e.roads@));
        if b.dense.id_deltas@.len() == 0 {
            assert(w =~= Seq::<PointEntity>::empty());
            assert(b.points@ + w =~= b.points@);
        }
    }
    Some(e)
}

/// What one chunk's decode and extraction came to.
pub enum ChunkWork {
    /// A header or unrecognized chunk: nothing to extract.
    Skipped,
    /// The chunk was dropped; the message says why.
    Failed(String),
    /// The chunk's extracted entities, ready to be written.
    Extracted(Extraction),
}

/// Whether `e` is exactly what the extraction rules yield from the
/// entities of the data chunk `b`, both point-entity encodings through
/// the one city rule and every linear entity through the road rule, in
/// order.
pub open spec fn extraction_of_chunk(b: osmpbf::Blob, e: Extraction) -> bool {
    &&& cities_extracted(chunk_plain_points(b) + chunk_bulk_points(b), e.cities@)
    &&& roads_extracted(chunk_lines(b), e.roads@)
}

/// Decodes one chunk and applies the extraction rules to whatever came
/// back: a header or unrecognized chunk is skipped with no error,
/// exactly a chunk whose payload fails to decode is reported failed —
/// never fatal — and a data chunk yields exactly the extraction of its
/// own entities.
pub fn process_chunk(blob: &osmpbf::Blob) -> (r: ChunkWork)
    ensures
        r is Skipped <==> (chunk_kind_of(*blob) == ChunkKind::Header || chunk_kind_of(*blob)
            == ChunkKind::Unrecognized),
        r is Failed <==> chunk_kind_of(*blob) == ChunkKind::Undecodable,
        r is Extracted <==> chunk_kind_of(*blob) == ChunkKind::Data,
        r matches ChunkWork::Extracted(e) ==> extraction_of_chunk(*blob, e),
{
    match decode_blob(blob) {
        Err(msg) => ChunkWork::Failed(msg),
        Ok(DecodedChunk::Header) => ChunkWork::Skipped,
        Ok(DecodedChunk::Unrecognized) => ChunkWork::Skipped,
        Ok(DecodedChunk::Data(block)) => {
            let batch = batch_of_block(&block);
            match extract_batch(&batch) {
                Some(e) => ChunkWork::Extracted(e),
                None => {
                    // A batch with an empty bulk part is always well
                    // formed, so extraction cannot refuse it.
                    proof {
                        assert(false);
                    }
                    ChunkWork::Skipped
                },
            }
        },
    }
}

} // verus!
