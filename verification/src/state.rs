//! The process-wide persistent state: the four singleton stores and the heap
//! they allocate from, gathered into one owned context object.
//!
//! The host process keeps a single long-lived instance of [`State`] and is
//! responsible for its durability; every boundary operation takes it
//! explicitly.

use vstd::prelude::*;

verus! {

use crate::init::InitData;
use crate::post::PostState;
use crate::registration::{ProfileView, UserProfiles};
use crate::stable_heap::StableHeap;
use crate::verification_status::{UserCount, VerificationCharge};

/// Whether an operation left the whole state as it found it: every store is
/// the same and the heap model is the same, so a failed operation had no
/// effect at all.
pub open spec fn same_state(pre: State, post: State) -> bool {
    &&& post.init_data == pre.init_data
    &&& post.users == pre.users
    &&& post.post_state == pre.post_state
    &&& post.verification_charge == pre.verification_charge
    &&& post.user_count == pre.user_count
    &&& post.heap@ == pre.heap@
}

/// The whole persistent state of the service.
pub struct State {
    pub init_data: InitData,
    pub users: UserProfiles,
    pub post_state: PostState,
    pub verification_charge: VerificationCharge,
    pub user_count: UserCount,
    pub heap: StableHeap,
}

impl State {
    /// The content store holds a post sequence for a username exactly when
    /// that username is registered.
    pub open spec fn stores_consistent(&self) -> bool {
        forall|n: Seq<char>|
            #![trigger self.post_state.contains_user(n)]
            #![trigger self.users.username_taken(n)]
            self.post_state.contains_user(n) <==> self.users.username_taken(n)
    }

    /// The cross-store invariant that every boundary operation preserves.
    pub open spec fn wf(&self) -> bool {
        &&& self.users.wf()
        &&& self.post_state.wf()
        &&& self.stores_consistent()
        &&& self.user_count.total() <= u128::MAX
        &&& self.heap@.used <= self.heap@.capacity
    }

    /// A fresh process state: everything empty, the authority unset, and a
    /// persistent region of the given capacity.
    pub fn new(capacity: u64) -> (r: State)
        ensures
            r.wf(),
            r.init_data.authority@ == Seq::<u8>::empty(),
            r.users.profiles() == Seq::<ProfileView>::empty(),
            forall|n: Seq<char>| !r.post_state.contains_user(n),
            r.verification_charge.regular_verification is None,
            r.verification_charge.plus_verification is None,
            r.verification_charge.business_verification is None,
            r.user_count.regular_verified_user == 0,
            r.user_count.plus_verified_user == 0,
            r.user_count.business_verified_user == 0,
            r.heap@.capacity == capacity,
            r.heap@.used == 0,
    {
        State {
            init_data: Default::default(),
            users: UserProfiles::new(),
            post_state: PostState::new(),
            verification_charge: Default::default(),
            user_count: Default::default(),
            heap: StableHeap::new(capacity),
        }
    }
}

} // verus!
