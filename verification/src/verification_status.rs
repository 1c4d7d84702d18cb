//! The economics ledger: per-tier user counters and per-tier fees, and the
//! verification badge that classifies a profile.

use vstd::prelude::*;

verus! {

use crate::address::Address;
use crate::init::is_this_caller_authority;
use crate::response::UpdateStateResponse;
use crate::state::State;

/// A profile's verification tier.
#[derive(Clone, Copy, Debug, PartialEq, Eq)]
pub enum VerificationBadge {
    Regular,
    Plus,
    Business,
}

/// The per-tier fee table. Each fee is unset until the authority writes it.
#[derive(Debug, PartialEq, Eq)]
pub struct VerificationCharge {
    pub regular_verification: Option<u128>,
    pub plus_verification: Option<u128>,
    pub business_verification: Option<u128>,
}

impl Default for VerificationCharge {
    /// All three fees start unset.
    fn default() -> (r: Self)
        ensures
            r.regular_verification is None,
            r.plus_verification is None,
            r.business_verification is None,
    {
        VerificationCharge {
            regular_verification: None,
            plus_verification: None,
            business_verification: None,
        }
    }
}

/// The per-tier user counters. The total user count is always the sum of the
/// three, computed on demand and never cached.
#[derive(Clone, Copy, Debug, PartialEq, Eq)]
pub struct UserCount {
    pub regular_verified_user: u128,
    pub plus_verified_user: u128,
    pub business_verified_user: u128,
}

impl Default for UserCount {
    /// All three counters start at zero.
    fn default() -> (r: Self)
        ensures
            r.regular_verified_user == 0,
            r.plus_verified_user == 0,
            r.business_verified_user == 0,
    {
        UserCount { regular_verified_user: 0, plus_verified_user: 0, business_verified_user: 0 }
    }
}

impl UserCount {
    /// The sum of the three tier counters, as a mathematical integer.
    pub open spec fn total(&self) -> int {
        self.regular_verified_user + self.plus_verified_user + self.business_verified_user
    }

    /// The total user count: always the sum of the three tier counters.
    pub fn total_users(&self) -> (r: u128)
        requires
            self.total() <= u128::MAX,
        ensures
            r == self.total(),
    {
        self.regular_verified_user + self.plus_verified_user + self.business_verified_user
    }

    /// Count one more regular-tier user.
    pub fn add_regular_user(&mut self)
        requires
            old(self).total() < u128::MAX,
        ensures
            final(self).regular_verified_user == old(self).regular_verified_user + 1,
            final(self).plus_verified_user == old(self).plus_verified_user,
            final(self).business_verified_user == old(self).business_verified_user,
    {
        self.regular_verified_user = self.regular_verified_user + 1;
    }

    /// Count one regular-tier user fewer.
    pub fn remove_regular_user(&mut self)
        requires
            old(self).regular_verified_user > 0,
        ensures
            final(self).regular_verified_user == old(self).regular_verified_user - 1,
            final(self).plus_verified_user == old(self).plus_verified_user,
            final(self).business_verified_user == old(self).business_verified_user,
    {
        self.regular_verified_user = self.regular_verified_user - 1;
    }

    /// Count one more plus-tier user.
    pub fn add_plus_verified_user(&mut self)
        requires
            old(self).total() < u128::MAX,
        ensures
            final(self).plus_verified_user == old(self).plus_verified_user + 1,
            final(self).regular_verified_user == old(self).regular_verified_user,
            final(self).business_verified_user == old(self).business_verified_user,
    {
        self.plus_verified_user = self.plus_verified_user + 1;
    }

    /// Count one plus-tier user fewer.
    pub fn remove_plus_verified_user(&mut self)
        requires
            old(self).plus_verified_user > 0,
        ensures
            final(self).plus_verified_user == old(self).plus_verified_user - 1,
            final(self).regular_verified_user == old(self).regular_verified_user,
            final(self).business_verified_user == old(self).business_verified_user,
    {
        self.plus_verified_user = self.plus_verified_user - 1;
    }

    /// Count one more business-tier user.
    pub fn add_business_verified_user(&mut self)
        requires
            old(self).total() < u128::MAX,
        ensures
            final(self).business_verified_user == old(self).business_verified_user + 1,
            final(self).regular_verified_user == old(self).regular_verified_user,
            final(self).plus_verified_user == old(self).plus_verified_user,
    {
        self.business_verified_user = self.business_verified_user + 1;
    }

    /// Count one business-tier user fewer.
    pub fn remove_business_verified_user(&mut self)
        requires
            old(self).business_verified_user > 0,
        ensures
            final(self).business_verified_user == old(self).business_verified_user - 1,
            final(self).regular_verified_user == old(self).regular_verified_user,
            final(self).plus_verified_user == old(self).plus_verified_user,
    {
        self.business_verified_user = self.business_verified_user - 1;
    }
}

/// The total user count: the sum of the three tier counters, recomputed on
/// every call.
pub fn total_number_of_users(state: &State) -> (r: u128)
    requires
        state.wf(),
    ensures
        r == state.user_count.total(),
{
    state.user_count.total_users()
}

/// Set the plus-tier fee. Permitted only to the current authority; a refusal
/// has no side effect at all.
pub fn update_plus_verification_charge(state: &mut State, caller: &Address, new_fee: u128) -> (r:
    UpdateStateResponse)
    requires
        old(state).wf(),
    ensures
        final(state).wf(),
        caller@ != old(state).init_data.authority@ ==> r == UpdateStateResponse::Unauthorized
            && *final(state) == *old(state),
        caller@ == old(state).init_data.authority@ ==> {
            &&& r == UpdateStateResponse::Success
            &&& final(state).verification_charge.plus_verification == Some(new_fee)
            &&& final(state).verification_charge.regular_verification == old(
                state,
            ).verification_charge.regular_verification
            &&& final(state).verification_charge.business_verification == old(
                state,
            ).verification_charge.business_verification
            &&& final(state).init_data == old(state).init_data
            &&& final(state).users == old(state).users
            &&& final(state).post_state == old(state).post_state
            &&& final(state).user_count == old(state).user_count
            &&& final(state).heap == old(state).heap
        },
{
    if !is_this_caller_authority(state, caller) {
        UpdateStateResponse::Unauthorized
    } else {
        state.verification_charge.plus_verification = Some(new_fee);
        UpdateStateResponse::Success
    }
}

/// Set the business-tier fee. Permitted only to the current authority; a
/// refusal has no side effect at all.
pub fn update_business_verification_charge(state: &mut State, caller: &Address, new_fee: u128) -> (
    r: UpdateStateResponse)
    requires
        old(state).wf(),
    ensures
        final(state).wf(),
        caller@ != old(state).init_data.authority@ ==> r == UpdateStateResponse::Unauthorized
            && *final(state) == *old(state),
        caller@ == old(state).init_data.authority@ ==> {
            &&& r == UpdateStateResponse::Success
            &&& final(state).verification_charge.business_verification == Some(new_fee)
            &&& final(state).verification_charge.regular_verification == old(
                state,
            ).verification_charge.regular_verification
            &&& final(state).verification_charge.plus_verification == old(
                state,
            ).verification_charge.plus_verification
            &&& final(state).init_data == old(state).init_data
            &&& final(state).users == old(state).users
            &&& final(state).post_state == old(state).post_state
            &&& final(state).user_count == old(state).user_count
            &&& final(state).heap == old(state).heap
        },
{
    if !is_this_caller_authority(state, caller) {
        UpdateStateResponse::Unauthorized
    } else {
        state.verification_charge.business_verification = Some(new_fee);
        UpdateStateResponse::Success
    }
}

} // verus!
