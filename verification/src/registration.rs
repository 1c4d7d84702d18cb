//! The identity registry: profile lifecycle and uniqueness enforcement.
//!
//! A username and an address are each globally unique across all profiles.
//! Registration rejects a duplicate address, an over-long name field and a
//! taken username, in that order, before any storage is touched; the profile
//! and its content-store slot are then created as one transaction that fails
//! whole on allocation exhaustion.

use vstd::prelude::*;

verus! {

use vstd::string::StrSliceExecFns;
use crate::address::Address;
use crate::response::RegistrationResponse;
use crate::stable_heap::{StableBox, StableHeap};
use crate::state::{same_state, State};
use crate::verification_status::VerificationBadge;

/// Longest first name, in code units.
pub const MAXIMUM_FIRST_NAME_LENGTH: usize = 15;

/// Longest middle name, in code units.
pub const MAXIMUM_MIDDLE_NAME_LENGTH: usize = 10;

/// Longest last name, in code units.
pub const MAXIMUM_LAST_NAME_LENGTH: usize = 15;

/// A profile owner's stated gender.
#[derive(Clone, Copy, Debug, PartialEq, Eq)]
pub enum Gender {
    Male,
    Female,
    Unspecified,
}

/// Abstract value of one profile.
pub ghost struct ProfileView {
    pub first_name: Seq<char>,
    pub middle_name: Seq<char>,
    pub last_name: Seq<char>,
    pub username: Seq<char>,
    pub address: Seq<u8>,
    pub date_of_birth: u64,
    pub gender: Gender,
    pub verification_badge: VerificationBadge,
    pub number_of_posts: u128,
}

/// One registered user: name fields held in the persistent heap, the caller
/// identity that owns the profile, and mutable badge and counters.
pub struct Profile {
    first_name: StableBox,
    middle_name: StableBox,
    last_name: StableBox,
    username: StableBox,
    address: Address,
    pub date_of_birth: u64,
    pub gender: Gender,
    pub verification_badge: VerificationBadge,
    pub number_of_posts: u128,
}

impl View for Profile {
    type V = ProfileView;

    closed spec fn view(&self) -> ProfileView {
        ProfileView {
            first_name: self.first_name@,
            middle_name: self.middle_name@,
            last_name: self.last_name@,
            username: self.username@,
            address: self.address@,
            date_of_birth: self.date_of_birth,
            gender: self.gender,
            verification_badge: self.verification_badge,
            number_of_posts: self.number_of_posts,
        }
    }
}

/// Input of a registration request.
pub struct RegistrationData {
    pub first_name: String,
    pub middle_name: String,
    pub last_name: String,
    pub username: String,
    pub date_of_birth: u64,
    pub gender: Gender,
}

/// Heap units a profile's four string fields occupy.
pub open spec fn profile_units(data: RegistrationData) -> int {
    data.first_name@.len() + data.middle_name@.len() + data.last_name@.len()
        + data.username@.len() as int
}

/// Heap units a whole registration occupies: the profile's strings plus the
/// content-store copy of the username.
pub open spec fn registration_units(data: RegistrationData) -> int {
    profile_units(data) + data.username@.len()
}

/// What a freshly registered profile looks like.
pub open spec fn profile_view(
    data: RegistrationData,
    badge: VerificationBadge,
    address: Seq<u8>,
) -> ProfileView {
    ProfileView {
        first_name: data.first_name@,
        middle_name: data.middle_name@,
        last_name: data.last_name@,
        username: data.username@,
        address: address,
        date_of_birth: data.date_of_birth,
        gender: data.gender,
        verification_badge: badge,
        number_of_posts: 0,
    }
}

impl Profile {
    /// Build a profile, moving its four string fields into the persistent
    /// heap. Fails exactly when the four together no longer fit; on failure
    /// the heap is left untouched.
    pub fn new_profile(
        heap: &mut StableHeap,
        data: RegistrationData,
        badge: VerificationBadge,
        address: Address,
    ) -> (r: Option<Profile>)
        ensures
            r is Some <==> old(heap)@.used + profile_units(data) <= old(heap)@.capacity,
            (r matches Some(p) ==> {
                &&& p@ == profile_view(data, badge, address@)
                &&& final(heap)@.used == old(heap)@.used + profile_units(data)
            }),
            r is None ==> final(heap)@ == old(heap)@,
            final(heap)@.capacity == old(heap)@.capacity,
    {
        let RegistrationData { first_name, middle_name, last_name, username, date_of_birth, gender }
            = data;
        let checkpoint = heap.used();
        let first_name = match StableBox::wrap(heap, first_name) {
            None => {
                return None;
            },
            Some(b) => b,
        };
        let middle_name = match StableBox::wrap(heap, middle_name) {
            None => {
                let cur = heap.used();
                heap.release(cur - checkpoint);
                return None;
            },
            Some(b) => b,
        };
        let last_name = match StableBox::wrap(heap, last_name) {
            None => {
                let cur = heap.used();
                heap.release(cur - checkpoint);
                return None;
            },
            Some(b) => b,
        };
        let username = match StableBox::wrap(heap, username) {
            None => {
                let cur = heap.used();
                heap.release(cur - checkpoint);
                return None;
            },
            Some(b) => b,
        };
        Some(
            Profile {
                first_name,
                middle_name,
                last_name,
                username,
                address,
                date_of_birth,
                gender,
                verification_badge: badge,
                number_of_posts: 0,
            },
        )
    }

    /// A plain-value copy of this profile for the query boundary; the caller
    /// identity stays private.
    pub fn to_profile_query(&self) -> (r: ProfileQuery)
        ensures
            r.first_name@ == self@.first_name,
            r.middle_name@ == self@.middle_name,
            r.last_name@ == self@.last_name,
            r.username@ == self@.username,
            r.date_of_birth == self@.date_of_birth,
            r.gender == self@.gender,
            r.verification_badge == self@.verification_badge,
            r.number_of_posts == self@.number_of_posts,
    {
        ProfileQuery {
            first_name: self.first_name.get().clone(),
            middle_name: self.middle_name.get().clone(),
            last_name: self.last_name.get().clone(),
            username: self.username.get().clone(),
            date_of_birth: self.date_of_birth,
            gender: self.gender,
            verification_badge: self.verification_badge,
            number_of_posts: self.number_of_posts,
        }
    }

    /// Replace the first name in place; no registry key is touched.
    pub fn update_first_name(&mut self, new_first_name: StableBox)
        ensures
            final(self)@ == (ProfileView { first_name: new_first_name@, ..old(self)@ }),
    {
        self.first_name = new_first_name;
    }

    /// Replace the middle name in place; no registry key is touched.
    pub fn update_middle_name(&mut self, new_middle_name: StableBox)
        ensures
            final(self)@ == (ProfileView { middle_name: new_middle_name@, ..old(self)@ }),
    {
        self.middle_name = new_middle_name;
    }

    /// Replace the last name in place; no registry key is touched.
    pub fn update_last_name(&mut self, new_last_name: StableBox)
        ensures
            final(self)@ == (ProfileView { last_name: new_last_name@, ..old(self)@ }),
    {
        self.last_name = new_last_name;
    }

    /// Count one more lifetime post for this user.
    pub fn increment_post_count(&mut self)
        requires
            old(self)@.number_of_posts < u128::MAX,
        ensures
            final(self)@ == (ProfileView {
                number_of_posts: (old(self)@.number_of_posts + 1) as u128,
                ..old(self)@
            }),
    {
        self.number_of_posts = self.number_of_posts + 1;
    }

    /// Count one lifetime post fewer for this user.
    pub fn decrement_post_count(&mut self)
        requires
            old(self)@.number_of_posts > 0,
        ensures
            final(self)@ == (ProfileView {
                number_of_posts: (old(self)@.number_of_posts - 1) as u128,
                ..old(self)@
            }),
    {
        self.number_of_posts = self.number_of_posts - 1;
    }

    /// Change the verification badge in place.
    pub fn change_verification_badge(&mut self, new_verification_badge: VerificationBadge)
        ensures
            final(self)@ == (ProfileView { verification_badge: new_verification_badge, ..old(
                self,
            )@ }),
    {
        self.verification_badge = new_verification_badge;
    }
}

/// A profile as handed across the query boundary, in plain values.
#[derive(Debug)]
pub struct ProfileQuery {
    pub first_name: String,
    pub middle_name: String,
    pub last_name: String,
    pub username: String,
    pub date_of_birth: u64,
    pub gender: Gender,
    pub verification_badge: VerificationBadge,
    pub number_of_posts: u128,
}

/// The identity registry: all profiles, with usernames and addresses each
/// globally unique.
pub struct UserProfiles {
    users: Vec<Profile>,
}

impl UserProfiles {
    /// All profiles, in registration order.
    pub closed spec fn profiles(&self) -> Seq<ProfileView> {
        self.users@.map_values(|p: Profile| p@)
    }

    /// Usernames and addresses are each pairwise distinct.
    pub open spec fn wf(&self) -> bool {
        forall|i: int, j: int|
            0 <= i < j < self.profiles().len() ==> self.profiles()[i].username
                != self.profiles()[j].username && self.profiles()[i].address
                != self.profiles()[j].address
    }

    /// Whether some profile carries this username.
    pub open spec fn username_taken(&self, name: Seq<char>) -> bool {
        exists|i: int| 0 <= i < self.profiles().len() && self.profiles()[i].username == name
    }

    /// Whether some profile is owned by this address.
    pub open spec fn address_registered(&self, addr: Seq<u8>) -> bool {
        exists|i: int| 0 <= i < self.profiles().len() && self.profiles()[i].address == addr
    }

    /// The position of the profile this address owns.
    pub open spec fn address_index(&self, addr: Seq<u8>) -> int {
        choose|i: int| 0 <= i < self.profiles().len() && self.profiles()[i].address == addr
    }

    /// The username of the profile this address owns.
    pub open spec fn resolved_username(&self, addr: Seq<u8>) -> Seq<char> {
        self.profiles()[self.address_index(addr)].username
    }

    /// An empty registry.
    pub fn new() -> (r: UserProfiles)
        ensures
            r.profiles() == Seq::<ProfileView>::empty(),
            r.wf(),
    {
        let r = UserProfiles { users: Vec::new() };
        proof {
            assert(r.profiles() =~= Seq::<ProfileView>::empty());
        }
        r
    }

    /// If an address owns slot `i` of a registry with unique addresses, then
    /// that slot is the one the address resolves to.
    proof fn lemma_address_slot(&self, addr: Seq<u8>, i: int)
        requires
            self.wf(),
            0 <= i < self.profiles().len(),
            self.profiles()[i].address == addr,
        ensures
            self.address_registered(addr),
            self.address_index(addr) == i,
            self.resolved_username(addr) == self.profiles()[i].username,
    {
        assert(self.address_registered(addr));
        let j = self.address_index(addr);
        assert(0 <= j < self.profiles().len() && self.profiles()[j].address == addr);
        if i < j {
            assert(self.profiles()[i].address != self.profiles()[j].address);
        }
        if j < i {
            assert(self.profiles()[j].address != self.profiles()[i].address);
        }
    }

    /// Exact-match lookup of a username.
    pub fn is_username_taken(&self, name: &String) -> (r: bool)
        ensures
            r == self.username_taken(name@),
    {
        let n = self.users.len();
        let mut i: usize = 0;
        while i < n
            invariant
                n == self.users.len(),
                0 <= i <= n,
                forall|k: int| 0 <= k < i ==> self.profiles()[k].username != name@,
            decreases n - i,
        {
            if *self.users[i].username.get() == *name {
                proof {
                    assert(self.profiles()[i as int].username == name@);
                }
                return true;
            }
            i += 1;
        }
        false
    }

    /// Exact-match lookup of an address.
    pub fn is_address_registered(&self, address: &Address) -> (r: bool)
        ensures
            r == self.address_registered(address@),
    {
        let n = self.users.len();
        let mut i: usize = 0;
        while i < n
            invariant
                n == self.users.len(),
                0 <= i <= n,
                forall|k: int| 0 <= k < i ==> self.profiles()[k].address != address@,
            decreases n - i,
        {
            if self.users[i].address.equals(address) {
                proof {
                    assert(self.profiles()[i as int].address == address@);
                }
                return true;
            }
            i += 1;
        }
        false
    }

    /// The username of the profile this address owns, if any.
    pub fn resolve_username(&self, address: &Address) -> (r: Option<String>)
        requires
            self.wf(),
        ensures
            r is Some <==> self.address_registered(address@),
            (r matches Some(u) ==> {
                &&& u@ == self.resolved_username(address@)
                &&& self.username_taken(u@)
            }),
    {
        let n = self.users.len();
        let mut i: usize = 0;
        while i < n
            invariant
                self.wf(),
                n == self.users.len(),
                0 <= i <= n,
                forall|k: int| 0 <= k < i ==> self.profiles()[k].address != address@,
            decreases n - i,
        {
            if self.users[i].address.equals(address) {
                proof {
                    self.lemma_address_slot(address@, i as int);
                    assert(self.username_taken(self.profiles()[i as int].username));
                }
                return Some(self.users[i].username.get().clone());
            }
            i += 1;
        }
        None
    }

    /// Insert a profile whose username and address are both new.
    pub fn push_profile(&mut self, profile: Profile)
        requires
            old(self).wf(),
            !old(self).username_taken(profile@.username),
            !old(self).address_registered(profile@.address),
        ensures
            final(self).wf(),
            final(self).profiles() == old(self).profiles().push(profile@),
            forall|nm: Seq<char>|
                #[trigger] final(self).username_taken(nm) <==> (old(self).username_taken(nm) || nm
                    == profile@.username),
            forall|a: Seq<u8>|
                #[trigger] final(self).address_registered(a) <==> (old(self).address_registered(a)
                    || a == profile@.address),
            final(self).resolved_username(profile@.address) == profile@.username,
            forall|a: Seq<u8>|
                a != profile@.address && old(self).address_registered(a)
                    ==> #[trigger] final(self).resolved_username(a) == old(self).resolved_username(
                    a,
                ),
    {
        let ghost pre = *self;
        let ghost pv = profile@;
        self.users.push(profile);
        proof {
            let n = pre.profiles().len();
            assert(self.profiles() =~= pre.profiles().push(pv));
            assert forall|nm: Seq<char>| self.username_taken(nm) <==> (pre.username_taken(nm) || nm
                == pv.username) by {
                if self.username_taken(nm) {
                    let i = choose|i: int|
                        0 <= i < self.profiles().len() && self.profiles()[i].username == nm;
                    if i < n {
                        assert(pre.profiles()[i].username == nm);
                    }
                }
                if pre.username_taken(nm) {
                    let i = choose|i: int|
                        0 <= i < pre.profiles().len() && pre.profiles()[i].username == nm;
                    assert(self.profiles()[i].username == nm);
                }
                if nm == pv.username {
                    assert(self.profiles()[n as int].username == nm);
                }
            }
            assert forall|a: Seq<u8>| self.address_registered(a) <==> (pre.address_registered(a)
                || a == pv.address) by {
                if self.address_registered(a) {
                    let i = choose|i: int|
                        0 <= i < self.profiles().len() && self.profiles()[i].address == a;
                    if i < n {
                        assert(pre.profiles()[i].address == a);
                    }
                }
                if pre.address_registered(a) {
                    let i = choose|i: int|
                        0 <= i < pre.profiles().len() && pre.profiles()[i].address == a;
                    assert(self.profiles()[i].address == a);
                }
                if a == pv.address {
                    assert(self.profiles()[n as int].address == a);
                }
            }
            self.lemma_address_slot(pv.address, n as int);
            assert forall|a: Seq<u8>| a != pv.address && pre.address_registered(a) implies self.resolved_username(
                a,
            ) == pre.resolved_username(a) by {
                let i = choose|i: int|
                    0 <= i < pre.profiles().len() && pre.profiles()[i].address == a;
                pre.lemma_address_slot(a, i);
                self.lemma_address_slot(a, i);
            }
        }
    }
}

/// Validate a registration's bounded fields: first, middle, then last name;
/// the first violation wins.
pub fn registration_check(data: &RegistrationData) -> (r: Result<(), RegistrationResponse>)
    ensures
        data.first_name@.len() > MAXIMUM_FIRST_NAME_LENGTH ==> r == Err::<
            (),
            RegistrationResponse,
        >(RegistrationResponse::FirstNameTooLong),
        data.first_name@.len() <= MAXIMUM_FIRST_NAME_LENGTH && data.middle_name@.len()
            > MAXIMUM_MIDDLE_NAME_LENGTH ==> r == Err::<(), RegistrationResponse>(
            RegistrationResponse::MiddleNameTooLong,
        ),
        data.first_name@.len() <= MAXIMUM_FIRST_NAME_LENGTH && data.middle_name@.len()
            <= MAXIMUM_MIDDLE_NAME_LENGTH && data.last_name@.len() > MAXIMUM_LAST_NAME_LENGTH ==> r
            == Err::<(), RegistrationResponse>(RegistrationResponse::LastNameTooLong),
        data.first_name@.len() <= MAXIMUM_FIRST_NAME_LENGTH && data.middle_name@.len()
            <= MAXIMUM_MIDDLE_NAME_LENGTH && data.last_name@.len() <= MAXIMUM_LAST_NAME_LENGTH
            ==> r == Ok::<(), RegistrationResponse>(()),
{
    if data.first_name.as_str().unicode_len() > MAXIMUM_FIRST_NAME_LENGTH {
        Err(RegistrationResponse::FirstNameTooLong)
    } else if data.middle_name.as_str().unicode_len() > MAXIMUM_MIDDLE_NAME_LENGTH {
        Err(RegistrationResponse::MiddleNameTooLong)
    } else if data.last_name.as_str().unicode_len() > MAXIMUM_LAST_NAME_LENGTH {
        Err(RegistrationResponse::LastNameTooLong)
    } else {
        Ok(())
    }
}

/// Everything a registration promises, case by case over the prior state.
pub open spec fn registration_outcome(
    pre: State,
    post: State,
    caller: Seq<u8>,
    data: RegistrationData,
    badge: VerificationBadge,
    r: RegistrationResponse,
) -> bool {
    if pre.users.address_registered(caller) {
        r == RegistrationResponse::AlreadyRegistered && same_state(pre, post)
    } else if data.first_name@.len() > MAXIMUM_FIRST_NAME_LENGTH {
        r == RegistrationResponse::FirstNameTooLong && same_state(pre, post)
    } else if data.middle_name@.len() > MAXIMUM_MIDDLE_NAME_LENGTH {
        r == RegistrationResponse::MiddleNameTooLong && same_state(pre, post)
    } else if data.last_name@.len() > MAXIMUM_LAST_NAME_LENGTH {
        r == RegistrationResponse::LastNameTooLong && same_state(pre, post)
    } else if pre.users.username_taken(data.username@) {
        r == RegistrationResponse::UserNameTaken && same_state(pre, post)
    } else if pre.heap@.used + registration_units(data) > pre.heap@.capacity {
        r == RegistrationResponse::FailedToAllocateMemory && same_state(pre, post)
    } else {
        &&& (match r {
            RegistrationResponse::Success { username } => username@ == data.username@,
            _ => false,
        })
        &&& post.users.profiles() == pre.users.profiles().push(
            profile_view(data, badge, caller),
        )
        &&& post.users.username_taken(data.username@)
        &&& post.users.address_registered(caller)
        &&& post.users.resolved_username(caller) == data.username@
        &&& post.post_state.contains_user(data.username@)
        &&& post.post_state.user_posts(data.username@) == Seq::<crate::post::PostView>::empty()
        &&& forall|n: Seq<char>|
            n != data.username@ ==> #[trigger] post.post_state.contains_user(n)
                == pre.post_state.contains_user(n)
        &&& forall|n: Seq<char>|
            n != data.username@ && pre.post_state.contains_user(n)
                ==> #[trigger] post.post_state.user_posts(n) == pre.post_state.user_posts(n)
        &&& post.heap@.used == pre.heap@.used + registration_units(data)
        &&& post.heap@.capacity == pre.heap@.capacity
        &&& post.init_data == pre.init_data
        &&& post.verification_charge == pre.verification_charge
        &&& post.user_count == pre.user_count
    }
}

/// The one registration algorithm, parameterized by the badge to assign.
/// Checks run in order — duplicate address, over-long fields, taken username
/// — before any storage is touched; the profile and its content-store slot
/// are then created together, or not at all.
pub fn register(
    state: &mut State,
    caller: &Address,
    data: RegistrationData,
    badge: VerificationBadge,
) -> (r: RegistrationResponse)
    requires
        old(state).wf(),
    ensures
        final(state).wf(),
        registration_outcome(*old(state), *final(state), caller@, data, badge, r),
{
    if state.users.is_address_registered(caller) {
        return RegistrationResponse::AlreadyRegistered;
    }
    match registration_check(&data) {
        Err(e) => {
            return e;
        },
        Ok(()) => {},
    }
    if state.users.is_username_taken(&data.username) {
        return RegistrationResponse::UserNameTaken;
    }
    let username = data.username.clone();
    let checkpoint = state.heap.used();
    let profile = match Profile::new_profile(&mut state.heap, data, badge, caller.duplicate()) {
        None => {
            return RegistrationResponse::FailedToAllocateMemory;
        },
        Some(p) => p,
    };
    let key = match StableBox::wrap(&mut state.heap, username.clone()) {
        None => {
            let cur = state.heap.used();
            state.heap.release(cur - checkpoint);
            return RegistrationResponse::FailedToAllocateMemory;
        },
        Some(k) => k,
    };
    state.users.push_profile(profile);
    state.post_state.allocate(key);
    RegistrationResponse::Success { username }
}

/// Registering the same address twice always yields `AlreadyRegistered`:
/// after one successful registration from an address, a second attempt from
/// the same address — whatever its other fields or its badge — is rejected
/// and leaves the state exactly as the first registration left it.
pub proof fn lemma_second_registration_same_address_rejected(
    pre: State,
    mid: State,
    post: State,
    caller: Seq<u8>,
    d1: RegistrationData,
    b1: VerificationBadge,
    r1: RegistrationResponse,
    d2: RegistrationData,
    b2: VerificationBadge,
    r2: RegistrationResponse,
)
    requires
        registration_outcome(pre, mid, caller, d1, b1, r1),
        r1 matches RegistrationResponse::Success { .. },
        registration_outcome(mid, post, caller, d2, b2, r2),
    ensures
        r2 == RegistrationResponse::AlreadyRegistered,
        same_state(mid, post),
{
    assert(mid.users.address_registered(caller));
}

/// Registering two different addresses under the same username: after a
/// successful registration of a username, an attempt by another, still
/// unregistered caller to take that same username — with its name fields
/// within bounds — yields `UserNameTaken` and leaves the state exactly as
/// the first registration left it.
pub proof fn lemma_second_registration_same_username_rejected(
    pre: State,
    mid: State,
    post: State,
    caller1: Seq<u8>,
    d1: RegistrationData,
    b1: VerificationBadge,
    r1: RegistrationResponse,
    caller2: Seq<u8>,
    d2: RegistrationData,
    b2: VerificationBadge,
    r2: RegistrationResponse,
)
    requires
        registration_outcome(pre, mid, caller1, d1, b1, r1),
        r1 matches RegistrationResponse::Success { .. },
        registration_outcome(mid, post, caller2, d2, b2, r2),
        caller2 != caller1,
        !pre.users.address_registered(caller2),
        d2.username@ == d1.username@,
        d2.first_name@.len() <= MAXIMUM_FIRST_NAME_LENGTH,
        d2.middle_name@.len() <= MAXIMUM_MIDDLE_NAME_LENGTH,
        d2.last_name@.len() <= MAXIMUM_LAST_NAME_LENGTH,
    ensures
        r2 == RegistrationResponse::UserNameTaken,
        same_state(mid, post),
{
    if mid.users.address_registered(caller2) {
        let i = choose|i: int|
            0 <= i < mid.users.profiles().len() && mid.users.profiles()[i].address == caller2;
        if i < pre.users.profiles().len() {
            assert(pre.users.profiles()[i].address == caller2);
            assert(pre.users.address_registered(caller2));
        } else {
            assert(mid.users.profiles()[i] == profile_view(d1, b1, caller1));
        }
    }
    assert(mid.users.username_taken(d2.username@));
}

/// Register the caller as a regular-tier user.
pub fn register_as_regular_user(state: &mut State, caller: &Address, data: RegistrationData) -> (r:
    RegistrationResponse)
    requires
        old(state).wf(),
    ensures
        final(state).wf(),
        registration_outcome(
            *old(state),
            *final(state),
            caller@,
            data,
            VerificationBadge::Regular,
            r,
        ),
{
    register(state, caller, data, VerificationBadge::Regular)
}

/// Register the caller as a plus-tier user.
pub fn register_as_plus_user(state: &mut State, caller: &Address, data: RegistrationData) -> (r:
    RegistrationResponse)
    requires
        old(state).wf(),
    ensures
        final(state).wf(),
        registration_outcome(
            *old(state),
            *final(state),
            caller@,
            data,
            VerificationBadge::Plus,
            r,
        ),
{
    register(state, caller, data, VerificationBadge::Plus)
}

/// Register the caller as a business-tier account.
pub fn register_as_business_account(
    state: &mut State,
    caller: &Address,
    data: RegistrationData,
) -> (r: RegistrationResponse)
    requires
        old(state).wf(),
    ensures
        final(state).wf(),
        registration_outcome(
            *old(state),
            *final(state),
            caller@,
            data,
            VerificationBadge::Business,
            r,
        ),
{
    register(state, caller, data, VerificationBadge::Business)
}

} // verus!
