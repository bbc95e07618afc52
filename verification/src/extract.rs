//! Bounds-checked access to the bytes a descriptor addresses.
//!
//! A descriptor whose range falls outside the buffer — or whose end cannot
//! even be computed without overflow — is reported, never trusted; one bad
//! descriptor must not stop the enumeration of its siblings.

use vstd::prelude::*;
use crate::directory::BlobDescriptor;

verus! {

/// Why a descriptor's bytes could not be handed out.
#[derive(Clone, Copy, PartialEq, Eq, Structural, Debug)]
pub enum ExtractError {
    /// The descriptor's offset plus length exceeds the buffer's length
    /// (or overflows the unsigned arithmetic computing it).
    OutOfRange,
}

/// Returns the sub-slice `[offset, offset + length)` that `blob` addresses,
/// or reports that the range does not lie within the buffer.
pub fn extract_blob<'a>(data: &'a [u8], blob: &BlobDescriptor) -> (r: Result<
    &'a [u8],
    ExtractError,
>)
    ensures
        blob.offset + blob.length <= data@.len() ==> (r matches Ok(b) && b@ == data@.subrange(
            blob.offset as int,
            blob.offset + blob.length,
        )),
        blob.offset + blob.length > data@.len() ==> (r matches Err(e) && e is OutOfRange),
{
    let n: usize = data.len();
    match blob.offset.checked_add(blob.length) {
        Some(end) => {
            if end <= n as u64 {
                proof {
                    assert(end == blob.offset + blob.length);
                    assert(blob.offset <= end);
                    assert(end as int <= data@.len());
                }
                let start_usize: usize = blob.offset as usize;
                let end_usize: usize = end as usize;
                proof {
                    assert(start_usize as int == blob.offset as int);
                    assert(end_usize as int == end as int);
                }
                Ok(vstd::slice::slice_subrange(data, start_usize, end_usize))
            } else {
                Err(ExtractError::OutOfRange)
            }
        },
        None => Err(ExtractError::OutOfRange),
    }
}

} // verus!
