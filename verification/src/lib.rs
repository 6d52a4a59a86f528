//! A verified engine for harvesting a paginated, collection-oriented remote
//! object store: the catalog of collections and its name filter, the
//! cursor-following page walker that merges each collection into one ordered
//! result, the idempotent result sink, the best-effort access probe with its
//! two-level decode, and the bounded-concurrency scheduler that isolates
//! per-collection failures. All documents cross the boundary as bytes; the
//! JSON reader and writer are part of the library and carry exact contracts.
//!
//! The surrounding runtime — transport, clocks, files — stays outside: it
//! hands response bytes in and carries request addresses and output bytes
//! away, as the contracts direct.
pub mod json;
pub mod model;
pub mod walker;
pub mod sink;
pub mod catalog;
pub mod probe;
pub mod harvester;
pub mod parse;
pub mod text;

use vstd::prelude::*;

verus! {

/// Byte-string equality: the view of the result is exact equality of the
/// two byte sequences.
pub fn bytes_eq(a: &Vec<u8>, b: &Vec<u8>) -> (r: bool)
    ensures
        r == (a@ == b@),
{
    if a.len() != b.len() {
        assert(a@ != b@);
        return false;
    }
    let mut i: usize = 0;
    while i < a.len()
        invariant
            0 <= i <= a.len(),
            a.len() == b.len(),
            forall|j: int| 0 <= j < i ==> a@[j] == b@[j],
        decreases a.len() - i,
    {
        if a[i] != b[i] {
            return false;
        }
        i += 1;
    }
    assert(a@ =~= b@);
    true
}

} // verus!
