//! The error taxonomy shared by both registries.
//!
//! Every error aborts the enclosing operation: a transition that returns an
//! error leaves the state exactly as it was.

use vstd::prelude::*;

verus! {

/// Why a transition was rejected. The enclosing operation is all-or-nothing:
/// on any of these, no state change is observable.
#[derive(Clone, Copy, Debug, PartialEq, Eq)]
pub enum Error {
    /// The caller could not prove control of the identity it claimed.
    Unauthorized,
    /// This voter has already voted on this application.
    AlreadyVoted,
    /// No application exists under the given id.
    ApplicationNotFound,
    /// The application is already approved; tallies are frozen.
    AlreadyApproved,
    /// Distribution requires an approved application.
    NotApproved,
    /// Funds for this application were already distributed.
    AlreadyDistributed,
    /// No build record exists under the given id.
    BuildNotFound,
}

} // verus!
