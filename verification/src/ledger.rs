//! The vote ledger: one write-once mark per (application id, voter) pair.

use vstd::prelude::*;

verus! {

/// Records who has voted on which application. A pair is present exactly when
/// that voter has voted on that application; entries are never cleared and
/// never written twice (the voting transition checks [`VoteLedger::has_voted`]
/// first).
pub struct VoteLedger {
    /// Every vote ever recorded, in order; voters are compared by name.
    pub entries: Vec<(u64, String)>,
}

impl VoteLedger {
    /// Whether `voter` has voted on application `app_id`.
    pub open spec fn spec_has_voted(self, app_id: u64, voter: Seq<char>) -> bool {
        exists|i: int|
            0 <= i < self.entries@.len() && (#[trigger] self.entries@[i]).0 == app_id
                && self.entries@[i].1@ == voter
    }

    /// An empty ledger: nobody has voted on anything.
    pub fn new() -> (r: VoteLedger)
        ensures
            r.entries@ == Seq::<(u64, String)>::empty(),
    {
        VoteLedger { entries: Vec::new() }
    }

    /// Look a pair up; defaults to `false` for any pair never written.
    pub fn has_voted(&self, app_id: u64, voter: &String) -> (r: bool)
        ensures
            r == self.spec_has_voted(app_id, voter@),
    {
        let n: usize = self.entries.len();
        let mut i: usize = 0;
        while i < n
            invariant
                n == self.entries@.len(),
                0 <= i <= n,
                forall|j: int|
                    0 <= j < i ==> !((#[trigger] self.entries@[j]).0 == app_id
                        && self.entries@[j].1@ == voter@),
            decreases n - i,
        {
            if self.entries[i].0 == app_id && self.entries[i].1 == *voter {
                return true;
            }
            i = i + 1;
        }
        false
    }

    /// Record that `voter` voted on `app_id`. Write-once: the pair must not
    /// be present yet.
    pub fn record_vote(&mut self, app_id: u64, voter: String)
        requires
            !old(self).spec_has_voted(app_id, voter@),
        ensures
            final(self).entries@ == old(self).entries@.push((app_id, voter)),
    {
        self.entries.push((app_id, voter));
    }
}

} // verus!
