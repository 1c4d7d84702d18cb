//! The fixed-capacity persistent heap and the allocator-safe value wrapper.
//!
//! Variable-length values (strings) cannot live inline in the persistent
//! region, so each one is held by a [`StableBox`], whose construction draws
//! units from the [`StableHeap`] and fails with an out-of-space outcome when
//! the region is exhausted. One unit is one code unit of the stored string.

use vstd::prelude::*;

verus! {

use vstd::string::StrSliceExecFns;

/// Abstract state of the persistent heap: how many units it can hold in all,
/// and how many are currently allocated.
pub ghost struct HeapModel {
    pub capacity: nat,
    pub used: nat,
}

/// A fixed-capacity persistent memory region. Allocation succeeds exactly
/// when the requested units still fit; freeing a value returns its units.
pub struct StableHeap {
    capacity: u64,
    used: u64,
}

impl View for StableHeap {
    type V = HeapModel;

    closed spec fn view(&self) -> HeapModel {
        HeapModel { capacity: self.capacity as nat, used: self.used as nat }
    }
}

impl StableHeap {
    /// A fresh region of the given capacity, with nothing allocated.
    pub fn new(capacity: u64) -> (r: StableHeap)
        ensures
            r@.capacity == capacity,
            r@.used == 0,
    {
        StableHeap { capacity, used: 0 }
    }

    /// Units currently allocated.
    pub fn used(&self) -> (r: u64)
        ensures
            r == self@.used,
    {
        self.used
    }

    /// Total units the region can hold.
    pub fn capacity(&self) -> (r: u64)
        ensures
            r == self@.capacity,
    {
        self.capacity
    }

    /// Return `n` units to the region, as the allocator does when an owned
    /// value is dropped or a speculative allocation is abandoned.
    pub fn release(&mut self, n: u64)
        requires
            n <= old(self)@.used,
        ensures
            final(self)@.used == old(self)@.used - n,
            final(self)@.capacity == old(self)@.capacity,
    {
        self.used = self.used - n;
    }
}

/// An owning handle to one string persisted in the heap.
pub struct StableBox {
    value: String,
}

impl View for StableBox {
    type V = Seq<char>;

    closed spec fn view(&self) -> Seq<char> {
        self.value@
    }
}

impl StableBox {
    /// Move a string into the persistent heap. Succeeds exactly when the
    /// string's units still fit; on failure the heap is left untouched.
    pub fn wrap(heap: &mut StableHeap, value: String) -> (r: Option<StableBox>)
        ensures
            r is Some <==> old(heap)@.used + value@.len() <= old(heap)@.capacity,
            (r matches Some(b) ==> {
                &&& b@ == value@
                &&& final(heap)@.used == old(heap)@.used + value@.len()
            }),
            r is None ==> *final(heap) == *old(heap),
            final(heap)@.capacity == old(heap)@.capacity,
    {
        let n = value.as_str().unicode_len() as u64;
        match heap.used.checked_add(n) {
            Some(total) => {
                if total <= heap.capacity {
                    heap.used = total;
                    Some(StableBox { value })
                } else {
                    None
                }
            },
            None => None,
        }
    }

    /// Read the stored string.
    pub fn get(&self) -> (r: &String)
        ensures
            r@ == self@,
    {
        &self.value
    }

    /// Units this value occupies in the heap.
    pub fn size(&self) -> (r: u64)
        ensures
            r == self@.len(),
    {
        self.value.as_str().unicode_len() as u64
    }
}

} // verus!
