//! The authority gate: a single privileged identity, set by process
//! initialization and replaceable only by itself.

use vstd::prelude::*;

verus! {

use crate::address::Address;
use crate::response::UpdateStateResponse;
use crate::state::State;

/// Holder of the single privileged identity.
pub struct InitData {
    pub authority: Address,
}

impl Default for InitData {
    /// Before initialization the authority is the sentinel empty identity.
    fn default() -> (r: Self)
        ensures
            r.authority@ == Seq::<u8>::empty(),
    {
        InitData { authority: Address::sentinel() }
    }
}

/// Whether the caller is the current authority.
pub fn is_this_caller_authority(state: &State, caller: &Address) -> (r: bool)
    ensures
        r == (caller@ == state.init_data.authority@),
{
    caller.equals(&state.init_data.authority)
}

/// Process initialization: the triggering caller becomes the authority.
pub fn init(state: &mut State, caller: &Address)
    requires
        old(state).wf(),
    ensures
        final(state).wf(),
        final(state).init_data.authority@ == caller@,
        final(state).users == old(state).users,
        final(state).post_state == old(state).post_state,
        final(state).verification_charge == old(state).verification_charge,
        final(state).user_count == old(state).user_count,
        final(state).heap == old(state).heap,
{
    state.init_data.authority = caller.duplicate();
}

/// Replace the authority. Permitted only to the current authority; a refusal
/// leaves the whole state, the authority included, unchanged.
pub fn change_authority(state: &mut State, caller: &Address, new_authority: Address) -> (r:
    UpdateStateResponse)
    requires
        old(state).wf(),
    ensures
        final(state).wf(),
        caller@ != old(state).init_data.authority@ ==> r == UpdateStateResponse::Unauthorized
            && *final(state) == *old(state),
        caller@ == old(state).init_data.authority@ ==> {
            &&& r == UpdateStateResponse::Success
            &&& final(state).init_data.authority@ == new_authority@
            &&& final(state).users == old(state).users
            &&& final(state).post_state == old(state).post_state
            &&& final(state).verification_charge == old(state).verification_charge
            &&& final(state).user_count == old(state).user_count
            &&& final(state).heap == old(state).heap
        },
{
    if !is_this_caller_authority(state, caller) {
        UpdateStateResponse::Unauthorized
    } else {
        state.init_data.authority = new_authority;
        UpdateStateResponse::Success
    }
}

/// The current authority identity.
pub fn query_authority(state: &State) -> (r: Address)
    ensures
        r@ == state.init_data.authority@,
{
    state.init_data.authority.duplicate()
}

} // verus!
