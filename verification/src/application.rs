//! The scholarship application record and its not-found sentinel.

use vstd::prelude::*;

verus! {

/// One scholarship request, keyed by its sequential id (ids start at 1; id 0
/// is reserved for the sentinel). `app_id`, `applicant`, `title`, `descrip`,
/// `amount_requested` and `timestamp` are immutable after submission; the
/// tallies only grow; `is_approved` and `is_distributed` only move from
/// `false` to `true`.
#[derive(Debug)]
pub struct Scholarship {
    /// Sequential identifier assigned at submission; 0 only in the sentinel.
    pub app_id: u64,
    /// Identity of the submitter, as the host names identities.
    pub applicant: String,
    /// Free-text title.
    pub title: String,
    /// Free-text description.
    pub descrip: String,
    /// Requested amount, a non-negative integer number of funds.
    pub amount_requested: u64,
    /// Number of votes in favour.
    pub votes_for: u64,
    /// Number of votes against.
    pub votes_against: u64,
    /// Whether the approval rule has fired; never reverts.
    pub is_approved: bool,
    /// Whether funds were distributed; requires `is_approved`, never reverts.
    pub is_distributed: bool,
    /// Submission time as the host's clock gave it.
    pub timestamp: u64,
}

impl Scholarship {
    /// What the not-found sentinel looks like: id 0 (reserved, never a valid
    /// submission id), empty text, zeroed tallies, cleared flags.
    pub open spec fn is_sentinel(self) -> bool {
        &&& self.app_id == 0
        &&& self.applicant@ == Seq::<char>::empty()
        &&& self.title@ == Seq::<char>::empty()
        &&& self.descrip@ == Seq::<char>::empty()
        &&& self.amount_requested == 0
        &&& self.votes_for == 0
        &&& self.votes_against == 0
        &&& !self.is_approved
        &&& !self.is_distributed
        &&& self.timestamp == 0
    }

    /// The record handed back when a lookup finds nothing. Callers must treat
    /// `app_id == 0` as "not found".
    pub fn sentinel() -> (r: Scholarship)
        ensures
            r.is_sentinel(),
    {
        Scholarship {
            app_id: 0,
            applicant: String::new(),
            title: String::new(),
            descrip: String::new(),
            amount_requested: 0,
            votes_for: 0,
            votes_against: 0,
            is_approved: false,
            is_distributed: false,
            timestamp: 0,
        }
    }

    /// An owned copy equal to this record; lookups hand out copies so that
    /// the store keeps sole ownership of what it persists.
    pub fn duplicate(&self) -> (r: Scholarship)
        ensures
            r == *self,
    {
        Scholarship {
            app_id: self.app_id,
            applicant: self.applicant.clone(),
            title: self.title.clone(),
            descrip: self.descrip.clone(),
            amount_requested: self.amount_requested,
            votes_for: self.votes_for,
            votes_against: self.votes_against,
            is_approved: self.is_approved,
            is_distributed: self.is_distributed,
            timestamp: self.timestamp,
        }
    }
}

} // verus!
