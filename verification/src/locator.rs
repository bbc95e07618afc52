//! Finding the trailing directory without a length field.
//!
//! The directory is JSON text appended near the end of the archive. The
//! locator searches the final stretch of the buffer for the fixed byte
//! pattern that opens the directory object, then balances brace bytes
//! forward to find the matching close. The balance scan is deliberately
//! byte-level: it does not skip braces inside quoted strings, which is an
//! accepted limitation of the format's expected content shape.

use vstd::prelude::*;

verus! {

/// The eight bytes that open the serialized directory object: `{"blobs"`.
pub open spec fn spec_marker() -> Seq<u8> {
    seq![123u8, 34u8, 98u8, 108u8, 111u8, 98u8, 115u8, 34u8]
}

/// Size of the tail window the marker search is confined to.
pub const TAIL_WINDOW: usize = 10000;

/// Where the tail window begins: the last `TAIL_WINDOW` bytes, or the whole
/// buffer when it is shorter.
pub open spec fn spec_window_start(len: int) -> int {
    if len > 10000 {
        len - 10000
    } else {
        0
    }
}

/// True when the directory-open marker stands at offset `i`.
pub open spec fn spec_marker_at(s: Seq<u8>, i: int) -> bool {
    0 <= i && i + 8 <= s.len() && s.subrange(i, i + 8) == spec_marker()
}

/// Offset of the first marker at or after `i`, if any.
pub open spec fn spec_first_marker_from(s: Seq<u8>, i: int) -> Option<int>
    decreases s.len() - i,
{
    if i + 8 > s.len() {
        None
    } else if spec_marker_at(s, i) {
        Some(i)
    } else {
        spec_first_marker_from(s, i + 1)
    }
}

/// Offset of the first marker inside the tail window, if any.
pub open spec fn spec_find_json(s: Seq<u8>) -> Option<int> {
    spec_first_marker_from(s, spec_window_start(s.len() as int))
}

/// +1 for an opening brace byte, -1 for a closing one, 0 otherwise.
pub open spec fn spec_brace_delta(b: u8) -> int {
    if b == 123 {
        1
    } else if b == 125 {
        -1
    } else {
        0
    }
}

/// Opening braces minus closing braces over all of `s`.
pub open spec fn spec_balance(s: Seq<u8>) -> int
    decreases s.len(),
{
    if s.len() == 0 {
        0
    } else {
        spec_balance(s.drop_last()) + spec_brace_delta(s.last())
    }
}

/// True when the byte at `i` is a closing brace that brings the balance of
/// the scan begun at `start` back to zero.
pub open spec fn spec_end_at(s: Seq<u8>, start: int, i: int) -> bool {
    s[i] == 125 && spec_balance(s.subrange(start, i + 1)) == 0
}

/// One past the first balancing close at or after `i`, if any.
pub open spec fn spec_first_end_from(s: Seq<u8>, start: int, i: int) -> Option<int>
    decreases s.len() - i,
{
    if i >= s.len() {
        None
    } else if spec_end_at(s, start, i) {
        Some(i + 1)
    } else {
        spec_first_end_from(s, start, i + 1)
    }
}

/// End of the brace-balance scan begun at `start`: one past the closing
/// brace that balances the scan, if any.
pub open spec fn spec_find_json_end(s: Seq<u8>, start: int) -> Option<int> {
    spec_first_end_from(s, start, start)
}

/// The located directory range: marker offset and balanced end, if both
/// scans succeed.
pub open spec fn spec_directory_range(s: Seq<u8>) -> Option<(int, int)> {
    match spec_find_json(s) {
        Some(start) => match spec_find_json_end(s, start) {
            Some(end) => Some((start, end)),
            None => None,
        },
        None => None,
    }
}

/// True when all eight marker bytes stand at offset `i`.
#[verifier::loop_isolation(false)]
fn marker_at(data: &[u8], i: usize) -> (r: bool)
    requires
        i + 8 <= data@.len(),
    ensures
        r == spec_marker_at(data@, i as int),
{
    let r = data[i] == 123 && data[i + 1] == 34 && data[i + 2] == 98 && data[i + 3] == 108
        && data[i + 4] == 111 && data[i + 5] == 98 && data[i + 6] == 115 && data[i + 7] == 34;
    proof {
        if r {
            assert(data@.subrange(i as int, i + 8) =~= spec_marker());
        } else {
            if data@.subrange(i as int, i + 8) == spec_marker() {
                assert(forall|j: int|
                    0 <= j < 8 ==> data@.subrange(i as int, i + 8)[j] == spec_marker()[j]);
            }
        }
    }
    r
}

/// Searches the tail window for the byte pattern that opens the directory
/// object, returning the absolute offset of its first occurrence there.
#[verifier::loop_isolation(false)]
pub fn find_json(data: &[u8]) -> (r: Option<usize>)
    ensures
        match r {
            Some(p) => spec_find_json(data@) == Some(p as int),
            None => spec_find_json(data@) is None,
        },
        r matches Some(p) ==> p + 8 <= data@.len() && spec_marker_at(data@, p as int),
        (r is None) <==> (forall|j: int| !spec_marker_at(data@, j)
            || !(spec_window_start(data@.len() as int) <= j)),
{
    let len = data.len();
    let w: usize = if len > TAIL_WINDOW {
        len - TAIL_WINDOW
    } else {
        0
    };
    if len < 8 {
        return None;
    }
    let mut i: usize = w;
    while i <= len - 8
        invariant
            w <= i,
            i <= len - 8 + 1,
            spec_find_json(data@) == spec_first_marker_from(data@, i as int),
            forall|j: int| w <= j < i ==> !spec_marker_at(data@, j),
        decreases len - i,
    {
        if marker_at(data, i) {
            return Some(i);
        }
        i += 1;
    }
    None
}

/// From `start`, scans forward balancing brace bytes; returns one past the
/// closing brace at which the balance first returns to zero.
#[verifier::loop_isolation(false)]
pub fn find_json_end(data: &[u8], start: usize) -> (r: Option<usize>)
    requires
        start <= data@.len(),
    ensures
        match r {
            Some(e) => spec_find_json_end(data@, start as int) == Some(e as int),
            None => spec_find_json_end(data@, start as int) is None,
        },
        r matches Some(e) ==> start < e <= data@.len(),
{
    let mut depth: i128 = 0;
    let mut i: usize = start;
    proof {
        assert(data@.subrange(start as int, start as int) =~= Seq::<u8>::empty());
    }
    while i < data.len()
        invariant
            start <= i <= data@.len(),
            depth == spec_balance(data@.subrange(start as int, i as int)),
            -(i as int) <= depth <= i as int,
            spec_find_json_end(data@, start as int) == spec_first_end_from(
                data@,
                start as int,
                i as int,
            ),
        decreases data@.len() - i,
    {
        let b = data[i];
        proof {
            assert(data@.subrange(start as int, i + 1).drop_last() =~= data@.subrange(
                start as int,
                i as int,
            ));
        }
        if b == 123 {
            depth = depth + 1;
        } else if b == 125 {
            depth = depth - 1;
            if depth == 0 {
                return Some(i + 1);
            }
        }
        i += 1;
    }
    None
}

/// Locates the byte range of the trailing directory document: the offset of
/// the opening marker and one past the brace that balances it.
pub fn locate_directory(data: &[u8]) -> (r: Option<(usize, usize)>)
    ensures
        match r {
            Some((s, e)) => spec_directory_range(data@) == Some((s as int, e as int))
                && s < e <= data@.len(),
            None => spec_directory_range(data@) is None,
        },
{
    match find_json(data) {
        Some(start) => match find_json_end(data, start) {
            Some(end) => Some((start, end)),
            None => None,
        },
        None => None,
    }
}

} // verus!
