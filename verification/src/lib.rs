//! Persistent data layer of a small social-posting service.
//!
//! The store keeps user profiles, per-user post sequences, tier counters and
//! fees inside a fixed-capacity persistent heap whose allocations can fail.
//! Every mutating operation either completes in full or leaves the prior
//! state intact and reports a typed outcome.

pub mod address;
pub mod init;
pub mod post;
pub mod registration;
pub mod response;
pub mod stable_heap;
pub mod state;
pub mod utils;
pub mod verification_status;
