//! Caller identities.
//!
//! An address is the opaque identity of a caller, carried as its raw bytes.
//! The store reads an address only to compare it with another, so the byte
//! sequence is the whole model.

use vstd::prelude::*;

verus! {

/// The identity of a caller, as its raw bytes. The empty address is the
/// sentinel that the authority gate holds before initialization.
pub struct Address {
    bytes: Vec<u8>,
}

impl View for Address {
    type V = Seq<u8>;

    closed spec fn view(&self) -> Seq<u8> {
        self.bytes@
    }
}

impl Address {
    /// An address made of the given bytes.
    pub fn from_bytes(bytes: Vec<u8>) -> (r: Address)
        ensures
            r@ == bytes@,
    {
        Address { bytes }
    }

    /// The sentinel identity: no bytes at all.
    pub fn sentinel() -> (r: Address)
        ensures
            r@ == Seq::<u8>::empty(),
    {
        Address { bytes: Vec::new() }
    }

    /// The raw bytes of this identity.
    pub fn as_bytes(&self) -> (r: &Vec<u8>)
        ensures
            r@ == self@,
    {
        &self.bytes
    }

    /// Exact comparison of two identities.
    pub fn equals(&self, other: &Address) -> (r: bool)
        ensures
            r == (self@ == other@),
    {
        if self.bytes.len() != other.bytes.len() {
            proof {
                assert(self@ != other@);
            }
            return false;
        }
        let n = self.bytes.len();
        let mut i: usize = 0;
        while i < n
            invariant
                n == self.bytes.len() == other.bytes.len(),
                0 <= i <= n,
                forall|k: int| 0 <= k < i ==> self@[k] == other@[k],
            decreases n - i,
        {
            if self.bytes[i] != other.bytes[i] {
                proof {
                    assert(self@ != other@);
                }
                return false;
            }
            i += 1;
        }
        proof {
            assert(self@ =~= other@);
        }
        true
    }

    /// A fresh copy of this identity.
    pub fn duplicate(&self) -> (r: Address)
        ensures
            r@ == self@,
    {
        let n = self.bytes.len();
        let mut bytes: Vec<u8> = Vec::new();
        let mut i: usize = 0;
        while i < n
            invariant
                n == self.bytes.len(),
                0 <= i <= n,
                bytes@ == self@.take(i as int),
            decreases n - i,
        {
            bytes.push(self.bytes[i]);
            proof {
                assert(bytes@ =~= self@.take(i + 1 as int));
            }
            i += 1;
        }
        proof {
            assert(bytes@ =~= self@);
        }
        Address { bytes }
    }
}

} // verus!
