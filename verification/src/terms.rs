//! Best-effort recovery of readable tokens from an opaque blob.
//!
//! A single left-to-right pass collects maximal runs of printable ASCII;
//! a run of three or more bytes is emitted when a non-printable boundary
//! byte ends it. A run still open at end of input is dropped, never
//! emitted: only a boundary byte triggers emission. That quirk is part of
//! the observed behaviour of the format's tooling and is kept literally.

use vstd::prelude::*;

verus! {

/// True for the bytes the heuristic treats as printable ASCII.
pub open spec fn spec_printable(b: u8) -> bool {
    32 <= b && b <= 126
}

/// The shortest run that is worth emitting.
pub const MIN_TERM_LEN: usize = 3;

/// The tokens emitted from position `i` on, given the run collected so far
/// and the tokens already emitted.
pub open spec fn spec_term_scan(s: Seq<u8>, i: int, run: Seq<u8>, acc: Seq<Seq<u8>>) -> Seq<
    Seq<u8>,
>
    decreases s.len() - i,
{
    if i < 0 || i >= s.len() {
        acc
    } else if spec_printable(s[i]) {
        spec_term_scan(s, i + 1, run.push(s[i]), acc)
    } else if run.len() >= 3 {
        spec_term_scan(s, i + 1, Seq::empty(), acc.push(run))
    } else {
        spec_term_scan(s, i + 1, Seq::empty(), acc)
    }
}

/// All tokens the heuristic finds in `s`.
pub open spec fn spec_terms(s: Seq<u8>) -> Seq<Seq<u8>> {
    spec_term_scan(s, 0, Seq::empty(), Seq::empty())
}

/// Scans a blob for printable-ASCII runs of three bytes or more and returns
/// them in order of appearance. An empty result is not an error.
#[verifier::loop_isolation(false)]
pub fn extract_terms(data: &[u8]) -> (r: Vec<Vec<u8>>)
    ensures
        r.deep_view() == spec_terms(data@),
{
    let mut terms: Vec<Vec<u8>> = Vec::new();
    let mut current: Vec<u8> = Vec::new();
    let mut i: usize = 0;
    proof {
        assert(terms.deep_view() =~~= Seq::<Seq<u8>>::empty());
    }
    while i < data.len()
        invariant
            i <= data@.len(),
            spec_terms(data@) == spec_term_scan(data@, i as int, current@, terms.deep_view()),
        decreases data@.len() - i,
    {
        let b = data[i];
        if 32 <= b && b <= 126 {
            current.push(b);
        } else if current.len() >= MIN_TERM_LEN {
            let ghost prev_terms = terms.deep_view();
            let ghost run = current@;
            terms.push(current);
            current = Vec::new();
            proof {
                assert(terms.deep_view() =~~= prev_terms.push(run));
            }
        } else {
            current = Vec::new();
        }
        i += 1;
    }
    terms
}

} // verus!
