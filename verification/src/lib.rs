//! A scholarship-application DAO and a build-proof registry.
//!
//! Two independent on-chain-style registries share one design pattern: a
//! counter-keyed record store plus an aggregate-statistics record, mutated
//! through guarded transitions.
//!
//! * [`dao::ScholarshipDao`] owns the scholarship applications, the vote
//!   ledger and the aggregate statistics, and exposes the guarded
//!   transitions: submission, voting with threshold-based approval, and
//!   one-time fund distribution.
//! * [`registry::ProofOfBuildRegistry`] is an independent keyed store of
//!   build records with a single unverified-to-verified flag transition.
//!
//! The host platform that provides identity authentication, ledger time,
//! durable storage and event logging is a collaborator, not part of this
//! library: operations take the host's answers (an authentication result, a
//! timestamp) as plain arguments and return what the host should persist or
//! emit.

pub mod application;
pub mod approval;
pub mod dao;
pub mod error;
pub mod ledger;
pub mod registry;
pub mod stats;
