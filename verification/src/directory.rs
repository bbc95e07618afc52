//! Decoding the trailing directory document.
//!
//! The located byte range parses into a [`JsonValue`]; out of that document
//! the decoder builds the in-memory directory: the ordered blob descriptors,
//! and, when present, the embedded schema and segment lists. A member that
//! is absent or of the wrong type falls back to its documented default — an
//! `unknown` label, a zero count — never to an error.

use vstd::prelude::*;
use crate::json::JsonValue;
use crate::json::bytes_of;
use crate::json::obj_take;
use crate::json::spec_get;
use crate::json::spec_get2;
use crate::json::spec_str_or;
use crate::json::spec_u64_or_zero;
use crate::locator::spec_directory_range;
use crate::locator::locate_directory;
use crate::parse::spec_parse_json;
use crate::parse::parse_json;

verus! {

/// The member name `blobs`.
pub open spec fn spec_key_blobs() -> Seq<u8> {
    seq![98u8, 108u8, 111u8, 98u8, 115u8]
}

/// The member name `offset`.
pub open spec fn spec_key_offset() -> Seq<u8> {
    seq![111u8, 102u8, 102u8, 115u8, 101u8, 116u8]
}

/// The member name `length`.
pub open spec fn spec_key_length() -> Seq<u8> {
    seq![108u8, 101u8, 110u8, 103u8, 116u8, 104u8]
}

/// The member name `type`.
pub open spec fn spec_key_type() -> Seq<u8> {
    seq![116u8, 121u8, 112u8, 101u8]
}

/// The member name `properties`.
pub open spec fn spec_key_properties() -> Seq<u8> {
    seq![112u8, 114u8, 111u8, 112u8, 101u8, 114u8, 116u8, 105u8, 101u8, 115u8]
}

/// The member name `blob_tag`.
pub open spec fn spec_key_blob_tag() -> Seq<u8> {
    seq![98u8, 108u8, 111u8, 98u8, 95u8, 116u8, 97u8, 103u8]
}

/// The member name `schema`.
pub open spec fn spec_key_schema() -> Seq<u8> {
    seq![115u8, 99u8, 104u8, 101u8, 109u8, 97u8]
}

/// The member name `segments`.
pub open spec fn spec_key_segments() -> Seq<u8> {
    seq![115u8, 101u8, 103u8, 109u8, 101u8, 110u8, 116u8, 115u8]
}

/// The member name `name`.
pub open spec fn spec_key_name() -> Seq<u8> {
    seq![110u8, 97u8, 109u8, 101u8]
}

/// The member name `options`.
pub open spec fn spec_key_options() -> Seq<u8> {
    seq![111u8, 112u8, 116u8, 105u8, 111u8, 110u8, 115u8]
}

/// The member name `indexing`.
pub open spec fn spec_key_indexing() -> Seq<u8> {
    seq![105u8, 110u8, 100u8, 101u8, 120u8, 105u8, 110u8, 103u8]
}

/// The member name `stored`.
pub open spec fn spec_key_stored() -> Seq<u8> {
    seq![115u8, 116u8, 111u8, 114u8, 101u8, 100u8]
}

/// The member name `segment_id`.
pub open spec fn spec_key_segment_id() -> Seq<u8> {
    seq![115u8, 101u8, 103u8, 109u8, 101u8, 110u8, 116u8, 95u8, 105u8, 100u8]
}

/// The member name `max_doc`.
pub open spec fn spec_key_max_doc() -> Seq<u8> {
    seq![109u8, 97u8, 120u8, 95u8, 100u8, 111u8, 99u8]
}

/// The fallback label `unknown`.
pub open spec fn spec_unknown() -> Seq<u8> {
    seq![117u8, 110u8, 107u8, 110u8, 111u8, 119u8, 110u8]
}

fn key_blobs() -> (r: [u8; 5])
    ensures
        r@ == spec_key_blobs(),
{
    let r: [u8; 5] = [98, 108, 111, 98, 115];
    proof {
        assert(r@ =~= spec_key_blobs());
    }
    r
}

fn key_offset() -> (r: [u8; 6])
    ensures
        r@ == spec_key_offset(),
{
    let r: [u8; 6] = [111, 102, 102, 115, 101, 116];
    proof {
        assert(r@ =~= spec_key_offset());
    }
    r
}

fn key_length() -> (r: [u8; 6])
    ensures
        r@ == spec_key_length(),
{
    let r: [u8; 6] = [108, 101, 110, 103, 116, 104];
    proof {
        assert(r@ =~= spec_key_length());
    }
    r
}

fn key_type() -> (r: [u8; 4])
    ensures
        r@ == spec_key_type(),
{
    let r: [u8; 4] = [116, 121, 112, 101];
    proof {
        assert(r@ =~= spec_key_type());
    }
    r
}

fn key_properties() -> (r: [u8; 10])
    ensures
        r@ == spec_key_properties(),
{
    let r: [u8; 10] = [112, 114, 111, 112, 101, 114, 116, 105, 101, 115];
    proof {
        assert(r@ =~= spec_key_properties());
    }
    r
}

fn key_blob_tag() -> (r: [u8; 8])
    ensures
        r@ == spec_key_blob_tag(),
{
    let r: [u8; 8] = [98, 108, 111, 98, 95, 116, 97, 103];
    proof {
        assert(r@ =~= spec_key_blob_tag());
    }
    r
}

fn key_schema() -> (r: [u8; 6])
    ensures
        r@ == spec_key_schema(),
{
    let r: [u8; 6] = [115, 99, 104, 101, 109, 97];
    proof {
        assert(r@ =~= spec_key_schema());
    }
    r
}

fn key_segments() -> (r: [u8; 8])
    ensures
        r@ == spec_key_segments(),
{
    let r: [u8; 8] = [115, 101, 103, 109, 101, 110, 116, 115];
    proof {
        assert(r@ =~= spec_key_segments());
    }
    r
}

fn key_name() -> (r: [u8; 4])
    ensures
        r@ == spec_key_name(),
{
    let r: [u8; 4] = [110, 97, 109, 101];
    proof {
        assert(r@ =~= spec_key_name());
    }
    r
}

fn key_options() -> (r: [u8; 7])
    ensures
        r@ == spec_key_options(),
{
    let r: [u8; 7] = [111, 112, 116, 105, 111, 110, 115];
    proof {
        assert(r@ =~= spec_key_options());
    }
    r
}

fn key_indexing() -> (r: [u8; 8])
    ensures
        r@ == spec_key_indexing(),
{
    let r: [u8; 8] = [105, 110, 100, 101, 120, 105, 110, 103];
    proof {
        assert(r@ =~= spec_key_indexing());
    }
    r
}

fn key_stored() -> (r: [u8; 6])
    ensures
        r@ == spec_key_stored(),
{
    let r: [u8; 6] = [115, 116, 111, 114, 101, 100];
    proof {
        assert(r@ =~= spec_key_stored());
    }
    r
}

fn key_segment_id() -> (r: [u8; 10])
    ensures
        r@ == spec_key_segment_id(),
{
    let r: [u8; 10] = [115, 101, 103, 109, 101, 110, 116, 95, 105, 100];
    proof {
        assert(r@ =~= spec_key_segment_id());
    }
    r
}

fn key_max_doc() -> (r: [u8; 7])
    ensures
        r@ == spec_key_max_doc(),
{
    let r: [u8; 7] = [109, 97, 120, 95, 100, 111, 99];
    proof {
        assert(r@ =~= spec_key_max_doc());
    }
    r
}

fn unknown_label() -> (r: [u8; 7])
    ensures
        r@ == spec_unknown(),
{
    let r: [u8; 7] = [117, 110, 107, 110, 111, 119, 110];
    proof {
        assert(r@ =~= spec_unknown());
    }
    r
}

/// One blob the directory references.
pub struct BlobDescriptor {
    /// The label under `properties.blob_tag`, or `unknown`.
    pub tag: Vec<u8>,
    /// The declared `type`, or `unknown`.
    pub kind: Vec<u8>,
    /// Byte offset of the blob's content in the archive.
    pub offset: u64,
    /// Byte length of the blob's content.
    pub length: u64,
    /// The entry's `properties` member as parsed; `Null` when absent.
    pub properties: JsonValue,
}

/// One declared field of the embedded index metadata.
pub struct SchemaEntry {
    /// The field's `name`, or `unknown`.
    pub name: Vec<u8>,
    /// The field's `type`, or `unknown`.
    pub kind: Vec<u8>,
    /// True exactly when `options.indexing` is present and structured
    /// (an object or an array); absent, null or scalar means not indexed.
    pub indexed: bool,
    /// The boolean at `options.stored`; false when absent or of another type.
    pub stored: bool,
}

/// One segment of the embedded index metadata.
pub struct SegmentEntry {
    /// The segment's `segment_id`, or `unknown`.
    pub segment_id: Vec<u8>,
    /// The segment's `max_doc` count; zero when absent or of another type.
    pub document_count: u64,
}

/// The decoded trailer document.
pub struct Directory {
    /// Blob descriptors, in the order the directory array lists them.
    pub blobs: Vec<BlobDescriptor>,
    /// The declared schema fields, when a `schema` array is present.
    pub schema: Option<Vec<SchemaEntry>>,
    /// The declared segments, when a `segments` array is present.
    pub segments: Option<Vec<SegmentEntry>>,
}

/// The label a blob entry carries under `properties.blob_tag`, with its
/// fallback.
pub open spec fn spec_blob_tag(e: JsonValue) -> Seq<u8> {
    match spec_get2(e, spec_key_properties(), spec_key_blob_tag()) {
        Some(JsonValue::Str(s)) => s@,
        _ => spec_unknown(),
    }
}

/// How one decoded descriptor relates to the directory entry it came from.
pub open spec fn spec_blob_matches(b: BlobDescriptor, e: JsonValue) -> bool {
    &&& b.tag@ == spec_blob_tag(e)
    &&& b.kind@ == spec_str_or(e, spec_key_type(), spec_unknown())
    &&& b.offset == spec_u64_or_zero(e, spec_key_offset())
    &&& b.length == spec_u64_or_zero(e, spec_key_length())
    &&& match spec_get(e, spec_key_properties()) {
        Some(p) => b.properties == p,
        None => b.properties == JsonValue::Null,
    }
}

/// How one decoded schema field relates to the schema entry it came from.
pub open spec fn spec_schema_entry_matches(s: SchemaEntry, e: JsonValue) -> bool {
    &&& s.name@ == spec_str_or(e, spec_key_name(), spec_unknown())
    &&& s.kind@ == spec_str_or(e, spec_key_type(), spec_unknown())
    &&& s.indexed == (match spec_get2(e, spec_key_options(), spec_key_indexing()) {
        Some(v) => crate::json::spec_is_structured(v),
        None => false,
    })
    &&& s.stored == (match spec_get2(e, spec_key_options(), spec_key_stored()) {
        Some(JsonValue::Bool(x)) => x,
        _ => false,
    })
}

/// How one decoded segment relates to the segment entry it came from.
pub open spec fn spec_segment_entry_matches(g: SegmentEntry, e: JsonValue) -> bool {
    &&& g.segment_id@ == spec_str_or(e, spec_key_segment_id(), spec_unknown())
    &&& g.document_count == spec_u64_or_zero(e, spec_key_max_doc())
}

/// The decoded blob list mirrors the directory's `blobs` array, entry for
/// entry and in order; any other shape of `blobs` decodes to no blobs.
pub open spec fn spec_blobs_match(bs: Seq<BlobDescriptor>, doc: JsonValue) -> bool {
    match spec_get(doc, spec_key_blobs()) {
        Some(JsonValue::Arr(a)) => bs.len() == a@.len() && (forall|i: int|
            0 <= i < a@.len() ==> spec_blob_matches(#[trigger] bs[i], a@[i])),
        _ => bs.len() == 0,
    }
}

/// The decoded schema list mirrors a present `schema` array; it is absent
/// otherwise.
pub open spec fn spec_schema_opt_matches(o: Option<Vec<SchemaEntry>>, doc: JsonValue) -> bool {
    match spec_get(doc, spec_key_schema()) {
        Some(JsonValue::Arr(a)) => o matches Some(v) && v@.len() == a@.len() && (forall|i: int|
            0 <= i < a@.len() ==> spec_schema_entry_matches(#[trigger] v@[i], a@[i])),
        _ => o is None,
    }
}

/// The decoded segment list mirrors a present `segments` array; it is
/// absent otherwise.
pub open spec fn spec_segments_opt_matches(o: Option<Vec<SegmentEntry>>, doc: JsonValue) -> bool {
    match spec_get(doc, spec_key_segments()) {
        Some(JsonValue::Arr(a)) => o matches Some(v) && v@.len() == a@.len() && (forall|i: int|
            0 <= i < a@.len() ==> spec_segment_entry_matches(#[trigger] v@[i], a@[i])),
        _ => o is None,
    }
}

/// Everything the decoder promises of a directory built from `doc`.
pub open spec fn spec_directory_matches(d: Directory, doc: JsonValue) -> bool {
    &&& spec_blobs_match(d.blobs@, doc)
    &&& spec_schema_opt_matches(d.schema, doc)
    &&& spec_segments_opt_matches(d.segments, doc)
}

/// Decodes one entry of the `blobs` array into a descriptor, moving the
/// entry's `properties` member into the result.
fn blob_of_entry(e: JsonValue) -> (b: BlobDescriptor)
    ensures
        spec_blob_matches(b, e),
{
    let k_properties = key_properties();
    let k_unknown = unknown_label();
    let tag: Vec<u8> = match e.get(k_properties.as_slice()) {
        Some(p) => p.str_or(key_blob_tag().as_slice(), k_unknown.as_slice()),
        None => bytes_of(k_unknown.as_slice()),
    };
    let kind: Vec<u8> = e.str_or(key_type().as_slice(), k_unknown.as_slice());
    let offset: u64 = e.u64_or_zero(key_offset().as_slice());
    let length: u64 = e.u64_or_zero(key_length().as_slice());
    let properties: JsonValue = match e {
        JsonValue::Obj(mut fields) => match obj_take(&mut fields, k_properties.as_slice()) {
            Some(v) => v,
            None => JsonValue::Null,
        },
        _ => JsonValue::Null,
    };
    BlobDescriptor { tag, kind, offset, length, properties }
}

/// Decodes every entry of the `blobs` array, in order.
#[verifier::loop_isolation(false)]
fn blobs_of_entries(entries: Vec<JsonValue>) -> (r: Vec<BlobDescriptor>)
    ensures
        r@.len() == entries@.len(),
        forall|i: int| 0 <= i < entries@.len() ==> spec_blob_matches(#[trigger] r@[i], entries@[i]),
{
    let ghost orig = entries@;
    let mut rest = entries;
    let mut out: Vec<BlobDescriptor> = Vec::new();
    proof {
        assert(rest@ =~= orig.subrange(0, orig.len() as int));
    }
    while rest.len() > 0
        invariant
            out@.len() + rest@.len() == orig.len(),
            rest@ == orig.subrange(out@.len() as int, orig.len() as int),
            forall|i: int| 0 <= i < out@.len() ==> spec_blob_matches(#[trigger] out@[i], orig[i]),
        decreases rest@.len(),
    {
        let ghost done = out@.len() as int;
        let e = rest.remove(0);
        proof {
            assert(e == orig[done]);
            assert(rest@ =~= orig.subrange(done + 1, orig.len() as int));
        }
        let b = blob_of_entry(e);
        out.push(b);
    }
    out
}

/// Decodes one entry of the `schema` array.
fn schema_entry_of(e: &JsonValue) -> (r: SchemaEntry)
    ensures
        spec_schema_entry_matches(r, *e),
{
    let k_options = key_options();
    let k_unknown = unknown_label();
    let name = e.str_or(key_name().as_slice(), k_unknown.as_slice());
    let kind = e.str_or(key_type().as_slice(), k_unknown.as_slice());
    let indexed = match e.get2(k_options.as_slice(), key_indexing().as_slice()) {
        Some(v) => match v {
            JsonValue::Obj(_) => true,
            JsonValue::Arr(_) => true,
            _ => false,
        },
        None => false,
    };
    let stored = match e.get2(k_options.as_slice(), key_stored().as_slice()) {
        Some(v) => match v {
            JsonValue::Bool(x) => *x,
            _ => false,
        },
        None => false,
    };
    SchemaEntry { name, kind, indexed, stored }
}

/// Decodes one entry of the `segments` array.
fn segment_entry_of(e: &JsonValue) -> (r: SegmentEntry)
    ensures
        spec_segment_entry_matches(r, *e),
{
    let segment_id = e.str_or(key_segment_id().as_slice(), unknown_label().as_slice());
    let document_count = e.u64_or_zero(key_max_doc().as_slice());
    SegmentEntry { segment_id, document_count }
}

/// Reads the optional `schema` array out of a parsed document.
#[verifier::loop_isolation(false)]
pub fn extract_schema(doc: &JsonValue) -> (r: Option<Vec<SchemaEntry>>)
    ensures
        spec_schema_opt_matches(r, *doc),
{
    match doc.get(key_schema().as_slice()) {
        Some(v) => match v {
            JsonValue::Arr(a) => {
                let mut out: Vec<SchemaEntry> = Vec::new();
                let mut i: usize = 0;
                while i < a.len()
                    invariant
                        i <= a@.len(),
                        out@.len() == i,
                        forall|k: int|
                            0 <= k < i ==> spec_schema_entry_matches(#[trigger] out@[k], a@[k]),
                    decreases a@.len() - i,
                {
                    let entry = schema_entry_of(&a[i]);
                    out.push(entry);
                    i += 1;
                }
                Some(out)
            },
            _ => None,
        },
        None => None,
    }
}

/// Reads the optional `segments` array out of a parsed document.
#[verifier::loop_isolation(false)]
pub fn extract_segments(doc: &JsonValue) -> (r: Option<Vec<SegmentEntry>>)
    ensures
        spec_segments_opt_matches(r, *doc),
{
    match doc.get(key_segments().as_slice()) {
        Some(v) => match v {
            JsonValue::Arr(a) => {
                let mut out: Vec<SegmentEntry> = Vec::new();
                let mut i: usize = 0;
                while i < a.len()
                    invariant
                        i <= a@.len(),
                        out@.len() == i,
                        forall|k: int|
                            0 <= k < i ==> spec_segment_entry_matches(#[trigger] out@[k], a@[k]),
                    decreases a@.len() - i,
                {
                    let entry = segment_entry_of(&a[i]);
                    out.push(entry);
                    i += 1;
                }
                Some(out)
            },
            _ => None,
        },
        None => None,
    }
}

/// Builds the directory out of a parsed trailer document.
pub fn decode_directory(doc: JsonValue) -> (r: Directory)
    ensures
        spec_directory_matches(r, doc),
{
    let schema = extract_schema(&doc);
    let segments = extract_segments(&doc);
    let blobs: Vec<BlobDescriptor> = match doc {
        JsonValue::Obj(mut fields) => match obj_take(&mut fields, key_blobs().as_slice()) {
            Some(v) => match v {
                JsonValue::Arr(entries) => blobs_of_entries(entries),
                _ => Vec::new(),
            },
            None => Vec::new(),
        },
        _ => Vec::new(),
    };
    Directory { blobs, schema, segments }
}

/// What parsing the located directory range yields.
pub open spec fn spec_parse_metadata(s: Seq<u8>) -> Option<JsonValue> {
    match spec_directory_range(s) {
        Some((start, end)) => spec_parse_json(s.subrange(start, end)),
        None => None,
    }
}

/// Locates the trailing directory and parses it as one JSON document.
pub fn parse_metadata(data: &[u8]) -> (r: Option<JsonValue>)
    ensures
        r == spec_parse_metadata(data@),
{
    match locate_directory(data) {
        Some((start, end)) => parse_json(vstd::slice::slice_subrange(data, start, end)),
        None => None,
    }
}

/// Locates, parses and decodes the trailing directory; `None` means no
/// directory was found or its text was not one JSON document.
pub fn read_directory(data: &[u8]) -> (r: Option<Directory>)
    ensures
        match spec_parse_metadata(data@) {
            Some(doc) => r matches Some(d) && spec_directory_matches(d, doc),
            None => r is None,
        },
{
    match parse_metadata(data) {
        Some(doc) => Some(decode_directory(doc)),
        None => None,
    }
}

} // verus!
