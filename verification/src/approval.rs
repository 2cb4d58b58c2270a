//! The approval engine: a pure decision on a single application record.
//!
//! The rule is simple majority with a minimum quorum: an application becomes
//! approved as soon as it holds at least [`APPROVAL_QUORUM`] votes in total
//! and strictly more votes in favour than against. Ties never approve. Both
//! the quorum and the strict comparator are fixed design constants.

use vstd::prelude::*;

use crate::application::Scholarship;
use crate::error::Error;

verus! {

/// Minimum total number of votes before the approval rule can fire.
pub const APPROVAL_QUORUM: u64 = 3;

/// The approval rule on a pair of tallies: quorum reached and a strict
/// majority in favour. Equal tallies never approve, whatever the quorum.
pub open spec fn approval_rule(votes_for: u64, votes_against: u64) -> bool {
    votes_for + votes_against >= APPROVAL_QUORUM && votes_for > votes_against
}

/// The record after one vote: the chosen tally grows by one, every other
/// field is kept, and `is_approved` is set exactly when the new tallies
/// satisfy [`approval_rule`].
pub open spec fn apply_vote_spec(rec: Scholarship, vote_for: bool) -> Scholarship {
    let votes_for = if vote_for { (rec.votes_for + 1) as u64 } else { rec.votes_for };
    let votes_against = if vote_for { rec.votes_against } else { (rec.votes_against + 1) as u64 };
    Scholarship {
        app_id: rec.app_id,
        applicant: rec.applicant,
        title: rec.title,
        descrip: rec.descrip,
        amount_requested: rec.amount_requested,
        votes_for: votes_for,
        votes_against: votes_against,
        is_approved: approval_rule(votes_for, votes_against),
        is_distributed: rec.is_distributed,
        timestamp: rec.timestamp,
    }
}

/// Apply one vote to a record: rejects the sentinel and an already-approved
/// record, otherwise counts the vote and evaluates the approval rule.
///
/// This is the whole decision step of voting; it neither authenticates the
/// voter nor consults the vote ledger — the enclosing transition does both.
pub fn apply_vote(record: &Scholarship, vote_for: bool) -> (r: Result<Scholarship, Error>)
    requires
        record.votes_for + record.votes_against < u64::MAX,
    ensures
        record.app_id == 0 ==> r == Err::<Scholarship, Error>(Error::ApplicationNotFound),
        record.app_id != 0 && record.is_approved ==> r == Err::<Scholarship, Error>(
            Error::AlreadyApproved,
        ),
        record.app_id != 0 && !record.is_approved ==> r == Ok::<Scholarship, Error>(
            apply_vote_spec(*record, vote_for),
        ),
{
    if record.app_id == 0 {
        return Err(Error::ApplicationNotFound);
    }
    if record.is_approved {
        return Err(Error::AlreadyApproved);
    }
    let votes_for: u64 = if vote_for {
        record.votes_for + 1
    } else {
        record.votes_for
    };
    let votes_against: u64 = if vote_for {
        record.votes_against
    } else {
        record.votes_against + 1
    };
    let approved: bool = votes_for + votes_against >= APPROVAL_QUORUM
        && votes_for > votes_against;
    Ok(
        Scholarship {
            app_id: record.app_id,
            applicant: record.applicant.clone(),
            title: record.title.clone(),
            descrip: record.descrip.clone(),
            amount_requested: record.amount_requested,
            votes_for: votes_for,
            votes_against: votes_against,
            is_approved: approved,
            is_distributed: record.is_distributed,
            timestamp: record.timestamp,
        },
    )
}

} // verus!
