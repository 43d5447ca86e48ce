//! Helpers for byte strings (`Vec<u8>`), the representation of identities,
//! role tags, action fingerprints and free-form text throughout the engine.

use vstd::prelude::*;

verus! {

/// Compare two byte strings for equality of contents.
pub fn bytes_eq(a: &Vec<u8>, b: &Vec<u8>) -> (r: bool)
    ensures
        r == (a@ == b@),
{
    if a.len() != b.len() {
        assert(a@ != b@) by {
            assert(a@.len() != b@.len());
        }
        return false;
    }
    let n = a.len();
    let mut i: usize = 0;
    while i < n
        invariant
            n == a@.len() == b@.len(),
            i <= n,
            forall|k: int| 0 <= k < i ==> a@[k] == b@[k],
        decreases n - i,
    {
        if a[i] != b[i] {
            return false;
        }
        i += 1;
    }
    assert(a@ =~= b@);
    true
}

/// Copy a byte string.
pub fn bytes_clone(a: &Vec<u8>) -> (r: Vec<u8>)
    ensures
        r@ == a@,
{
    let n = a.len();
    let mut r: Vec<u8> = Vec::new();
    let mut i: usize = 0;
    while i < n
        invariant
            n == a@.len(),
            i <= n,
            r@ =~= a@.take(i as int),
        decreases n - i,
    {
        r.push(a[i]);
        i += 1;
    }
    assert(r@ =~= a@);
    r
}

} // verus!
