//! The fixed magic marker at the head of an archive.
//!
//! The check is informational only: an archive whose header does not match
//! is still probed for a trailing directory.

use vstd::prelude::*;

verus! {

/// The four magic bytes that open a conformant archive: `PFA1`.
pub open spec fn spec_magic() -> Seq<u8> {
    seq![80u8, 70u8, 65u8, 49u8]
}

/// How many leading bytes the check can observe: four, or the whole buffer
/// when it is shorter.
pub open spec fn spec_observed_len(len: int) -> int {
    if len < 4 {
        len
    } else {
        4
    }
}

/// Outcome of the header check.
pub enum HeaderCheck {
    /// The buffer opens with the magic marker.
    Valid,
    /// It does not; carries the bytes actually observed, fewer than four
    /// when the buffer itself is shorter.
    Mismatch(Vec<u8>),
}

impl HeaderCheck {
    /// True for the conformant outcome.
    pub fn is_valid(&self) -> (r: bool)
        ensures
            r == (*self is Valid),
    {
        match self {
            HeaderCheck::Valid => true,
            HeaderCheck::Mismatch(_) => false,
        }
    }
}

/// Checks the magic marker at offset zero. A buffer shorter than four bytes
/// is a mismatch, never an error.
pub fn check_header(data: &[u8]) -> (r: HeaderCheck)
    ensures
        (r is Valid) <==> (data@.len() >= 4 && data@.subrange(0, 4) == spec_magic()),
        r matches HeaderCheck::Mismatch(obs) ==> obs@ == data@.subrange(
            0,
            spec_observed_len(data@.len() as int),
        ),
{
    if data.len() >= 4 && data[0] == 80 && data[1] == 70 && data[2] == 65 && data[3] == 49 {
        proof {
            assert(data@.subrange(0, 4) =~= spec_magic());
        }
        HeaderCheck::Valid
    } else {
        let n: usize = if data.len() < 4 {
            data.len()
        } else {
            4
        };
        let observed = crate::json::bytes_of(vstd::slice::slice_subrange(data, 0, n));
        proof {
            if data@.len() >= 4 && data@.subrange(0, 4) == spec_magic() {
                assert(data@[0] == spec_magic()[0]);
                assert(data@[1] == spec_magic()[1]);
                assert(data@[2] == spec_magic()[2]);
                assert(data@[3] == spec_magic()[3]);
            }
        }
        HeaderCheck::Mismatch(observed)
    }
}

} // verus!
