//! Helpers around caller identities.

use vstd::prelude::*;

verus! {

use crate::address::Address;

/// The ledger subaccount derived from a caller identity: 32 bytes holding the
/// identity's length, then its bytes, then zero padding.
pub fn subaccount_generator(address: &Address) -> (r: Vec<u8>)
    requires
        address@.len() <= 31,
    ensures
        r@.len() == 32,
        r@[0] == address@.len(),
        forall|k: int| 1 <= k <= address@.len() ==> r@[k] == address@[k - 1],
        forall|k: int| address@.len() < k < 32 ==> r@[k] == 0,
{
    let bytes = address.as_bytes();
    let n = bytes.len();
    let mut r: Vec<u8> = Vec::new();
    r.push(n as u8);
    let mut i: usize = 0;
    while i < n
        invariant
            n == bytes@.len() <= 31,
            bytes@ == address@,
            0 <= i <= n,
            r@.len() == i + 1,
            r@[0] == n as u8,
            forall|k: int| 1 <= k <= i ==> r@[k] == address@[k - 1],
        decreases n - i,
    {
        r.push(bytes[i]);
        i += 1;
    }
    let mut j: usize = n + 1;
    while j < 32
        invariant
            n == address@.len() <= 31,
            n + 1 <= j <= 32,
            r@.len() == j,
            r@[0] == n as u8,
            forall|k: int| 1 <= k <= n ==> r@[k] == address@[k - 1],
            forall|k: int| n < k < j ==> r@[k] == 0,
        decreases 32 - j,
    {
        r.push(0);
        j += 1;
    }
    r
}

} // verus!
