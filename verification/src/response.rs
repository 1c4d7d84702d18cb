//! Outcome values returned by every boundary operation.
//!
//! Responses are closed discriminated outcomes, never free-text errors.

use vstd::prelude::*;

verus! {

/// Outcome of an administrative mutation guarded by the authority gate.
#[derive(Debug, PartialEq, Eq)]
pub enum UpdateStateResponse {
    Success,
    Unauthorized,
}

/// Outcome of a registration attempt.
#[derive(Debug, PartialEq, Eq)]
pub enum RegistrationResponse {
    Success { username: String },
    UserNameTaken,
    AlreadyRegistered,
    VerificationAmountNotPaid,
    FirstNameTooLong,
    MiddleNameTooLong,
    LastNameTooLong,
    FailedToAllocateMemory,
}

/// Outcome of a post creation attempt.
#[derive(Debug, PartialEq, Eq)]
pub enum CreatePostResponse {
    Success,
    UserNotRegistered,
    TopicTooLong,
    MessageTooLong,
    FailedToAllocateMemory,
}

} // verus!
