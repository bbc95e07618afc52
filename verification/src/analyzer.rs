//! Interpreting the index-metadata document.
//!
//! Out of a parsed metadata document the analyzer reads the declared schema
//! fields and segments and computes the total document count across all
//! segments — freshly on every analysis, saturating rather than wrapping.
//! A total of zero is a valid, reportable state, not an error.

use vstd::prelude::*;
use crate::classify::contains_bytes;
use crate::classify::spec_contains;
use crate::classify::spec_meta_marker;
use crate::directory::BlobDescriptor;
use crate::directory::Directory;
use crate::directory::SchemaEntry;
use crate::directory::SegmentEntry;
use crate::directory::extract_schema;
use crate::directory::extract_segments;
use crate::directory::spec_schema_opt_matches;
use crate::directory::spec_segments_opt_matches;
use crate::extract::extract_blob;
use crate::json::JsonValue;
use crate::parse::parse_json;
use crate::parse::spec_parse_json;

verus! {

/// Unsigned addition that sticks at the largest value instead of wrapping.
pub open spec fn spec_sat_add(a: u64, b: u64) -> u64 {
    if a + b > u64::MAX {
        u64::MAX
    } else {
        (a + b) as u64
    }
}

/// The total document count across segments, summed left to right with
/// saturation; never negative, and zero for no segments.
pub open spec fn spec_total_documents(entries: Seq<SegmentEntry>) -> u64
    decreases entries.len(),
{
    if entries.len() == 0 {
        0
    } else {
        spec_sat_add(spec_total_documents(entries.drop_last()), entries.last().document_count)
    }
}

/// What the analyzer reports of one metadata document.
pub struct IndexAnalysis {
    /// The declared schema fields, when a `schema` array is present.
    pub schema: Option<Vec<SchemaEntry>>,
    /// The declared segments, when a `segments` array is present.
    pub segments: Option<Vec<SegmentEntry>>,
    /// Documents across all segments; zero when no `segments` array is
    /// present.
    pub total_documents: u64,
}

/// Everything the analyzer promises of an analysis built from `doc`.
pub open spec fn spec_analysis_matches(a: IndexAnalysis, doc: JsonValue) -> bool {
    &&& spec_schema_opt_matches(a.schema, doc)
    &&& spec_segments_opt_matches(a.segments, doc)
    &&& match a.segments {
        Some(v) => a.total_documents == spec_total_documents(v@),
        None => a.total_documents == 0,
    }
}

/// Sums the document counts of `entries`, saturating at the largest count.
#[verifier::loop_isolation(false)]
pub fn total_documents(entries: &Vec<SegmentEntry>) -> (r: u64)
    ensures
        r == spec_total_documents(entries@),
{
    let mut total: u64 = 0;
    let mut i: usize = 0;
    proof {
        assert(entries@.subrange(0, 0) =~= Seq::<SegmentEntry>::empty());
    }
    while i < entries.len()
        invariant
            i <= entries@.len(),
            total == spec_total_documents(entries@.subrange(0, i as int)),
        decreases entries@.len() - i,
    {
        let d = entries[i].document_count;
        proof {
            assert(entries@.subrange(0, i + 1).drop_last() =~= entries@.subrange(0, i as int));
            assert(entries@.subrange(0, i + 1).last() == entries@[i as int]);
        }
        if d > u64::MAX - total {
            total = u64::MAX;
        } else {
            total = total + d;
        }
        i += 1;
    }
    proof {
        assert(entries@.subrange(0, entries@.len() as int) =~= entries@);
    }
    total
}

/// Reads schema and segments out of a parsed metadata document and computes
/// the fresh total document count.
pub fn analyze_index(doc: &JsonValue) -> (r: IndexAnalysis)
    ensures
        spec_analysis_matches(r, *doc),
{
    let schema = extract_schema(doc);
    let segments = extract_segments(doc);
    let total: u64 = match &segments {
        Some(v) => total_documents(v),
        None => 0,
    };
    IndexAnalysis { schema, segments, total_documents: total }
}

/// Index of the first descriptor at or after `i` whose tag carries the
/// metadata marker.
pub open spec fn spec_first_meta_from(bs: Seq<BlobDescriptor>, i: int) -> Option<int>
    decreases bs.len() - i,
{
    if i >= bs.len() {
        None
    } else if spec_contains(bs[i].tag@, spec_meta_marker()) {
        Some(i)
    } else {
        spec_first_meta_from(bs, i + 1)
    }
}

/// Index of the first metadata-tagged descriptor, if any.
pub open spec fn spec_first_meta(bs: Seq<BlobDescriptor>) -> Option<int> {
    spec_first_meta_from(bs, 0)
}

/// Finds the first metadata-tagged blob of the directory, extracts its
/// bytes, parses them, and analyzes the document. Only that first blob is
/// considered; `None` when there is none, its range is out of bounds, or
/// its bytes are not one JSON document.
#[verifier::loop_isolation(false)]
pub fn analyze_archive(data: &[u8], dir: &Directory) -> (r: Option<IndexAnalysis>)
    ensures
        match spec_first_meta(dir.blobs@) {
            None => r is None,
            Some(i) => {
                let b = dir.blobs@[i];
                if b.offset + b.length <= data@.len() {
                    match spec_parse_json(
                        data@.subrange(b.offset as int, b.offset + b.length),
                    ) {
                        Some(doc) => r matches Some(a) && spec_analysis_matches(a, doc),
                        None => r is None,
                    }
                } else {
                    r is None
                }
            },
        },
{
    let meta_marker: [u8; 9] = [109, 101, 116, 97, 46, 106, 115, 111, 110];
    proof {
        assert(meta_marker@ =~= spec_meta_marker());
    }
    let mut i: usize = 0;
    while i < dir.blobs.len()
        invariant
            i <= dir.blobs@.len(),
            spec_first_meta(dir.blobs@) == spec_first_meta_from(dir.blobs@, i as int),
        decreases dir.blobs@.len() - i,
    {
        if contains_bytes(dir.blobs[i].tag.as_slice(), meta_marker.as_slice()) {
            match extract_blob(data, &dir.blobs[i]) {
                Ok(bytes) => match parse_json(bytes) {
                    Some(doc) => {
                        return Some(analyze_index(&doc));
                    },
                    None => {
                        return None;
                    },
                },
                Err(_) => {
                    return None;
                },
            }
        }
        i += 1;
    }
    None
}

} // verus!
