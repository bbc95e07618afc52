//! Deciding how to interpret a blob from its tag.
//!
//! The decision is substring matching on the tag, not an extension parse:
//! a tag like `segment_03.term.gz` still counts as a term dictionary, and
//! the metadata marker takes priority when both occur.

use vstd::prelude::*;

verus! {

/// True when `needle` occurs contiguously somewhere in `hay`.
pub open spec fn spec_contains(hay: Seq<u8>, needle: Seq<u8>) -> bool {
    exists|i: int|
        0 <= i && i + needle.len() <= hay.len() && #[trigger] hay.subrange(i, i + needle.len())
            == needle
}

/// The tag marker of the index-metadata blob: `meta.json`.
pub open spec fn spec_meta_marker() -> Seq<u8> {
    seq![109u8, 101u8, 116u8, 97u8, 46u8, 106u8, 115u8, 111u8, 110u8]
}

/// The tag marker of a term-dictionary blob: `.term`.
pub open spec fn spec_term_marker() -> Seq<u8> {
    seq![46u8, 116u8, 101u8, 114u8, 109u8]
}

/// How a blob's content is to be interpreted.
pub enum BlobClass {
    /// A structured document holding index metadata.
    StructuredMetadata,
    /// A term-dictionary-like binary blob.
    TermDictionary,
    /// Anything else: opaque binary.
    OpaqueBinary,
}

/// Whether `needle` occurs contiguously in `hay`.
#[verifier::loop_isolation(false)]
pub fn contains_bytes(hay: &[u8], needle: &[u8]) -> (r: bool)
    ensures
        r == spec_contains(hay@, needle@),
{
    if needle.len() > hay.len() {
        return false;
    }
    if needle.len() == 0 {
        proof {
            assert(hay@.subrange(0, 0 + needle@.len() as int) =~= needle@);
        }
        return true;
    }
    let mut i: usize = 0;
    while i <= hay.len() - needle.len()
        invariant
            i <= hay@.len() - needle@.len() + 1,
            forall|j: int|
                0 <= j < i ==> #[trigger] hay@.subrange(j, j + needle@.len() as int) != needle@,
        decreases hay@.len() - needle@.len() - i + 1,
    {
        let window = vstd::slice::slice_subrange(hay, i, i + needle.len());
        if crate::json::bytes_eq(window, needle) {
            proof {
                assert(hay@.subrange(i as int, i as int + needle@.len() as int) == needle@);
            }
            return true;
        }
        i += 1;
    }
    false
}

/// Classifies a blob by its tag: the metadata marker first, then the term
/// marker, else opaque.
pub fn classify_tag(tag: &[u8]) -> (r: BlobClass)
    ensures
        spec_contains(tag@, spec_meta_marker()) ==> r is StructuredMetadata,
        (!spec_contains(tag@, spec_meta_marker()) && spec_contains(tag@, spec_term_marker()))
            ==> r is TermDictionary,
        (!spec_contains(tag@, spec_meta_marker()) && !spec_contains(tag@, spec_term_marker()))
            ==> r is OpaqueBinary,
{
    let meta_marker: [u8; 9] = [109, 101, 116, 97, 46, 106, 115, 111, 110];
    let term_marker: [u8; 5] = [46, 116, 101, 114, 109];
    proof {
        assert(meta_marker@ =~= spec_meta_marker());
        assert(term_marker@ =~= spec_term_marker());
    }
    if contains_bytes(tag, meta_marker.as_slice()) {
        BlobClass::StructuredMetadata
    } else if contains_bytes(tag, term_marker.as_slice()) {
        BlobClass::TermDictionary
    } else {
        BlobClass::OpaqueBinary
    }
}

} // verus!
