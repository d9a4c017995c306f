//! The integrity verifier: exact comparison of what two files hold.

use vstd::prelude::*;

verus! {

/// Compares the full content of the source with that of the destination.
///
/// Returns `true` exactly when both hold the same bytes in the same order; a
/// difference in length alone makes them differ.
pub fn verify(source: &[u8], destination: &[u8]) -> (identical: bool)
    ensures
        identical == (source@ == destination@),
{
    if source.len() != destination.len() {
        return false;
    }
    let mut at: usize = 0;
    while at < source.len()
        invariant
            source@.len() == destination@.len(),
            at <= source@.len(),
            forall|k: int| 0 <= k < at ==> source@[k] == destination@[k],
        decreases source@.len() - at,
    {
        if source[at] != destination[at] {
            return false;
        }
        at += 1;
    }
    assert(source@ =~= destination@);
    true
}

} // verus!
