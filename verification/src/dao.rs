//! The scholarship DAO: application store, vote ledger and statistics,
//! mutated through guarded transitions.
//!
//! Each public operation is one all-or-nothing transition: it either returns
//! `Ok` having made exactly the change its contract states, or returns an
//! error and leaves the whole state untouched. The host that authenticates
//! callers and stamps time is a collaborator: operations take its answers as
//! plain arguments.

use vstd::prelude::*;

use crate::application::Scholarship;
use crate::approval::apply_vote;
use crate::approval::apply_vote_spec;
use crate::error::Error;
use crate::ledger::VoteLedger;
use crate::stats::DaoStats;
use crate::stats::count_approved;
use crate::stats::count_distributed;
use crate::stats::lemma_counts_bounded;
use crate::stats::lemma_counts_push;
use crate::stats::lemma_counts_update;
use crate::stats::sum_distributed;

verus! {

/// The DAO's whole persistent state: the application records in submission
/// order, the application counter, the vote ledger and the aggregate
/// statistics.
pub struct ScholarshipDao {
    /// Application records; the record with id `i + 1` sits at index `i`.
    pub apps: Vec<Scholarship>,
    /// Ids handed out so far; the next submission gets `counter + 1`.
    pub counter: u64,
    /// Who has voted on what.
    pub ledger: VoteLedger,
    /// Running totals over the store.
    pub stats: DaoStats,
}

impl ScholarshipDao {
    /// Well-formedness: ids are assigned sequentially from 1, distribution
    /// implies approval, tallies are covered by ledger entries, and every
    /// statistics field equals the corresponding total over the records.
    pub open spec fn wf(self) -> bool {
        &&& self.counter == self.apps@.len()
        &&& forall|i: int|
            0 <= i < self.apps@.len() ==> (#[trigger] self.apps@[i]).app_id == i + 1
        &&& forall|i: int|
            0 <= i < self.apps@.len() ==> ((#[trigger] self.apps@[i]).is_distributed
                ==> self.apps@[i].is_approved)
        &&& forall|i: int|
            0 <= i < self.apps@.len() ==> (#[trigger] self.apps@[i]).votes_for
                + self.apps@[i].votes_against <= self.ledger.entries@.len()
        &&& self.stats.total_applications == self.apps@.len()
        &&& self.stats.approved_applications == count_approved(self.apps@)
        &&& self.stats.distributed_scholarships == count_distributed(self.apps@)
        &&& self.stats.total_funds_distributed == sum_distributed(self.apps@)
    }

    /// Whether an application exists under this id.
    pub open spec fn valid_id(self, app_id: u64) -> bool {
        1 <= app_id <= self.apps@.len()
    }

    /// The stored record for a valid id.
    pub open spec fn app_at(self, app_id: u64) -> Scholarship
        recommends
            self.valid_id(app_id),
    {
        self.apps@[app_id - 1]
    }

    /// Whether `voter` has voted on `app_id`.
    pub open spec fn spec_has_voted(self, app_id: u64, voter: Seq<char>) -> bool {
        self.ledger.spec_has_voted(app_id, voter)
    }

    /// A fresh DAO: no applications, no votes, zeroed statistics.
    pub fn new() -> (r: ScholarshipDao)
        ensures
            r.wf(),
            r.apps@ == Seq::<Scholarship>::empty(),
            r.counter == 0,
            r.ledger.entries@ == Seq::<(u64, String)>::empty(),
            r.stats.is_zeroed(),
    {
        ScholarshipDao {
            apps: Vec::new(),
            counter: 0,
            ledger: VoteLedger::new(),
            stats: DaoStats::zeroed(),
        }
    }

    /// Submit a new application.
    ///
    /// `auth` is the host's answer to authenticating the caller as
    /// `applicant`; without it the submission is rejected. Otherwise the next
    /// id is allocated, a record with zeroed tallies and cleared flags is
    /// appended, and the submission total grows by one.
    pub fn submit_application(
        &mut self,
        applicant: String,
        auth: bool,
        title: String,
        descrip: String,
        amount_requested: u64,
        timestamp: u64,
    ) -> (r: Result<u64, Error>)
        requires
            old(self).wf(),
            old(self).counter < u64::MAX,
        ensures
            final(self).wf(),
            !auth ==> r == Err::<u64, Error>(Error::Unauthorized) && *final(self) == *old(self),
            auth ==> {
                &&& final(self).counter == old(self).counter + 1
                &&& r == Ok::<u64, Error>(final(self).counter)
                &&& final(self).apps@ == old(self).apps@.push(
                    (Scholarship {
                        app_id: final(self).counter,
                        applicant: applicant,
                        title: title,
                        descrip: descrip,
                        amount_requested: amount_requested,
                        votes_for: 0,
                        votes_against: 0,
                        is_approved: false,
                        is_distributed: false,
                        timestamp: timestamp,
                    }),
                )
                &&& final(self).ledger == old(self).ledger
                &&& final(self).stats.total_applications == old(self).stats.total_applications + 1
                &&& final(self).stats.approved_applications == old(
                    self,
                ).stats.approved_applications
                &&& final(self).stats.distributed_scholarships == old(
                    self,
                ).stats.distributed_scholarships
                &&& final(self).stats.total_funds_distributed == old(
                    self,
                ).stats.total_funds_distributed
            },
    {
        if !auth {
            return Err(Error::Unauthorized);
        }
        let id: u64 = self.counter + 1;
        let record = Scholarship {
            app_id: id,
            applicant: applicant,
            title: title,
            descrip: descrip,
            amount_requested: amount_requested,
            votes_for: 0,
            votes_against: 0,
            is_approved: false,
            is_distributed: false,
            timestamp: timestamp,
        };
        proof {
            lemma_counts_push(self.apps@, record);
        }
        self.apps.push(record);
        self.counter = id;
        self.stats.total_applications = id;
        Ok(id)
    }

    /// Look an application up; an unused id yields the sentinel record,
    /// whose `app_id` is 0 — callers must treat that as "not found".
    pub fn get_application(&self, app_id: u64) -> (r: Scholarship)
        ensures
            self.valid_id(app_id) ==> r == self.app_at(app_id),
            !self.valid_id(app_id) ==> r.is_sentinel(),
    {
        if app_id >= 1 && app_id <= self.apps.len() as u64 {
            let idx: usize = (app_id - 1) as usize;
            self.apps[idx].duplicate()
        } else {
            Scholarship::sentinel()
        }
    }

    /// The current statistics singleton.
    pub fn get_dao_stats(&self) -> (r: DaoStats)
        ensures
            r == self.stats,
    {
        self.stats
    }

    /// Cast one vote on an application.
    ///
    /// `auth` is the host's answer to authenticating the caller as `voter`.
    /// The transition rejects, in this order: an unauthenticated caller, a
    /// repeat voter, an unknown id, an already-approved application — each
    /// rejection leaving the state untouched. Otherwise the vote is recorded
    /// in the ledger, the record's tallies grow by the one vote, the approval
    /// rule is evaluated, and on the false-to-true approval transition the
    /// approved total grows by one. Returns whether the application is now
    /// approved.
    pub fn vote_on_application(
        &mut self,
        app_id: u64,
        voter: String,
        auth: bool,
        vote_for: bool,
    ) -> (r: Result<bool, Error>)
        requires
            old(self).wf(),
        ensures
            final(self).wf(),
            !auth ==> r == Err::<bool, Error>(Error::Unauthorized) && *final(self) == *old(self),
            auth && old(self).spec_has_voted(app_id, voter@) ==> r == Err::<bool, Error>(
                Error::AlreadyVoted,
            ) && *final(self) == *old(self),
            auth && !old(self).spec_has_voted(app_id, voter@) && !old(self).valid_id(app_id)
                ==> r == Err::<bool, Error>(Error::ApplicationNotFound) && *final(self) == *old(
                self,
            ),
            auth && !old(self).spec_has_voted(app_id, voter@) && old(self).valid_id(app_id) && old(
                self,
            ).app_at(app_id).is_approved ==> r == Err::<bool, Error>(Error::AlreadyApproved)
                && *final(self) == *old(self),
            auth && !old(self).spec_has_voted(app_id, voter@) && old(self).valid_id(app_id)
                && !old(self).app_at(app_id).is_approved ==> {
                let updated = apply_vote_spec(old(self).app_at(app_id), vote_for);
                &&& r == Ok::<bool, Error>(updated.is_approved)
                &&& final(self).apps@ == old(self).apps@.update(app_id - 1, updated)
                &&& final(self).ledger.entries@ == old(self).ledger.entries@.push(
                    (app_id, voter),
                )
                &&& final(self).counter == old(self).counter
                &&& final(self).stats.total_applications == old(self).stats.total_applications
                &&& final(self).stats.approved_applications == old(self).stats.approved_applications
                    + (if updated.is_approved {
                    1int
                } else {
                    0int
                })
                &&& final(self).stats.distributed_scholarships == old(
                    self,
                ).stats.distributed_scholarships
                &&& final(self).stats.total_funds_distributed == old(
                    self,
                ).stats.total_funds_distributed
            },
    {
        if !auth {
            return Err(Error::Unauthorized);
        }
        if self.ledger.has_voted(app_id, &voter) {
            return Err(Error::AlreadyVoted);
        }
        if app_id < 1 || app_id > self.apps.len() as u64 {
            return Err(Error::ApplicationNotFound);
        }
        let idx: usize = (app_id - 1) as usize;
        if self.apps[idx].is_approved {
            return Err(Error::AlreadyApproved);
        }
        let current = self.apps[idx].duplicate();
        self.ledger.record_vote(app_id, voter);
        let entries_now: usize = self.ledger.entries.len();
        proof {
            assert(current.votes_for + current.votes_against < entries_now <= u64::MAX);
        }
        match apply_vote(&current, vote_for) {
            Ok(updated) => {
                let newly_approved: bool = updated.is_approved;
                proof {
                    lemma_counts_update(self.apps@, idx as int, updated);
                    assert(forall|i: int|
                        0 <= i < self.apps@.update(idx as int, updated).len() ==> ((
                        #[trigger] self.apps@.update(idx as int, updated)[i]).is_distributed
                            ==> self.apps@.update(idx as int, updated)[i].is_approved));
                    lemma_counts_bounded(self.apps@.update(idx as int, updated));
                }
                self.apps[idx] = updated;
                if newly_approved {
                    self.stats.approved_applications = self.stats.approved_applications + 1;
                }
                Ok(newly_approved)
            },
            Err(_) => vstd::pervasive::unreached(),
        }
    }

    /// Distribute the funds of an approved application, once.
    ///
    /// Rejects an unknown id, an unapproved application, and a repeat
    /// distribution — each leaving the state untouched. Otherwise flips
    /// `is_distributed`, counts the distribution, and adds the requested
    /// amount to the distributed-funds total. No caller identity is checked:
    /// anyone may trigger distribution of an approved application.
    pub fn distribute_scholarship(&mut self, app_id: u64) -> (r: Result<(), Error>)
        requires
            old(self).wf(),
        ensures
            final(self).wf(),
            !old(self).valid_id(app_id) ==> r == Err::<(), Error>(Error::ApplicationNotFound)
                && *final(self) == *old(self),
            old(self).valid_id(app_id) && !old(self).app_at(app_id).is_approved ==> r == Err::<
                (),
                Error,
            >(Error::NotApproved) && *final(self) == *old(self),
            old(self).valid_id(app_id) && old(self).app_at(app_id).is_approved && old(self).app_at(
                app_id,
            ).is_distributed ==> r == Err::<(), Error>(Error::AlreadyDistributed) && *final(self)
                == *old(self),
            old(self).valid_id(app_id) && old(self).app_at(app_id).is_approved && !old(
                self,
            ).app_at(app_id).is_distributed ==> {
                let updated = (Scholarship {
                    is_distributed: true,
                    ..old(self).app_at(app_id)
                });
                &&& r == Ok::<(), Error>(())
                &&& final(self).apps@ == old(self).apps@.update(app_id - 1, updated)
                &&& final(self).ledger == old(self).ledger
                &&& final(self).counter == old(self).counter
                &&& final(self).stats.total_applications == old(self).stats.total_applications
                &&& final(self).stats.approved_applications == old(
                    self,
                ).stats.approved_applications
                &&& final(self).stats.distributed_scholarships == old(
                    self,
                ).stats.distributed_scholarships + 1
                &&& final(self).stats.total_funds_distributed == old(
                    self,
                ).stats.total_funds_distributed + old(self).app_at(app_id).amount_requested
            },
    {
        if app_id < 1 || app_id > self.apps.len() as u64 {
            return Err(Error::ApplicationNotFound);
        }
        let idx: usize = (app_id - 1) as usize;
        if !self.apps[idx].is_approved {
            return Err(Error::NotApproved);
        }
        if self.apps[idx].is_distributed {
            return Err(Error::AlreadyDistributed);
        }
        let current = self.apps[idx].duplicate();
        let amount: u64 = current.amount_requested;
        let updated = Scholarship {
            app_id: current.app_id,
            applicant: current.applicant,
            title: current.title,
            descrip: current.descrip,
            amount_requested: current.amount_requested,
            votes_for: current.votes_for,
            votes_against: current.votes_against,
            is_approved: current.is_approved,
            is_distributed: true,
            timestamp: current.timestamp,
        };
        proof {
            lemma_counts_update(self.apps@, idx as int, updated);
            assert(forall|i: int|
                0 <= i < self.apps@.update(idx as int, updated).len() ==> ((
                #[trigger] self.apps@.update(idx as int, updated)[i]).is_distributed
                    ==> self.apps@.update(idx as int, updated)[i].is_approved));
            lemma_counts_bounded(self.apps@.update(idx as int, updated));
            assert((self.apps@.len() as int) * (u64::MAX as int) <= (u64::MAX as int) * (
            u64::MAX as int)) by {
                assert(self.apps@.len() <= usize::MAX);
            }
        }
        self.apps[idx] = updated;
        self.stats.distributed_scholarships = self.stats.distributed_scholarships + 1;
        self.stats.total_funds_distributed = self.stats.total_funds_distributed + (
        amount as u128);
        Ok(())
    }
}

/// Monotonic id assignment: in a well-formed DAO the records' ids are exactly
/// `1..=counter`, in submission order — the record at index `i` carries id
/// `i + 1`.
pub proof fn lemma_ids_sequential(d: ScholarshipDao)
    requires
        d.wf(),
    ensures
        d.counter == d.apps@.len(),
        forall|i: int| 0 <= i < d.apps@.len() ==> (#[trigger] d.apps@[i]).app_id == i + 1,
{
}

/// Statistics consistency: in a well-formed DAO, the approved total never
/// exceeds the submission total, and the distributed total never exceeds the
/// approved total.
pub proof fn lemma_stats_consistent(d: ScholarshipDao)
    requires
        d.wf(),
    ensures
        d.stats.approved_applications <= d.stats.total_applications,
        d.stats.distributed_scholarships <= d.stats.approved_applications,
{
    lemma_counts_bounded(d.apps@);
}

} // verus!
