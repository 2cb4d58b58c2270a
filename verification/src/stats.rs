//! The aggregate-statistics record and its mathematical model.
//!
//! [`DaoStats`] is a singleton mutated only as a side effect of the three
//! application transitions. Its intended meaning over the application store
//! is given by the counting functions below: the DAO's well-formedness ties
//! each field to the corresponding count over the stored records, and the
//! consistency law (`approved <= total`, `distributed <= approved`) follows.

use vstd::prelude::*;

use crate::application::Scholarship;

verus! {

/// Running totals over the application store.
#[derive(Clone, Copy, Debug, PartialEq, Eq)]
pub struct DaoStats {
    /// Number of submissions ever made.
    pub total_applications: u64,
    /// Number of applications that have transitioned to approved.
    pub approved_applications: u64,
    /// Number of applications whose funds were distributed.
    pub distributed_scholarships: u64,
    /// Sum of `amount_requested` over the distributed applications.
    pub total_funds_distributed: u128,
}

impl DaoStats {
    /// All-zero totals: the state before any submission.
    pub open spec fn is_zeroed(self) -> bool {
        &&& self.total_applications == 0
        &&& self.approved_applications == 0
        &&& self.distributed_scholarships == 0
        &&& self.total_funds_distributed == 0
    }

    /// The defaults handed out when the singleton was never initialized.
    pub fn zeroed() -> (r: DaoStats)
        ensures
            r.is_zeroed(),
    {
        DaoStats {
            total_applications: 0,
            approved_applications: 0,
            distributed_scholarships: 0,
            total_funds_distributed: 0,
        }
    }
}

/// How many records in `s` are approved.
pub open spec fn count_approved(s: Seq<Scholarship>) -> int
    decreases s.len(),
{
    if s.len() == 0 {
        0
    } else {
        count_approved(s.drop_last()) + if s.last().is_approved {
            1int
        } else {
            0int
        }
    }
}

/// How many records in `s` are distributed.
pub open spec fn count_distributed(s: Seq<Scholarship>) -> int
    decreases s.len(),
{
    if s.len() == 0 {
        0
    } else {
        count_distributed(s.drop_last()) + if s.last().is_distributed {
            1int
        } else {
            0int
        }
    }
}

/// Sum of `amount_requested` over the distributed records in `s`.
pub open spec fn sum_distributed(s: Seq<Scholarship>) -> int
    decreases s.len(),
{
    if s.len() == 0 {
        0
    } else {
        sum_distributed(s.drop_last()) + if s.last().is_distributed {
            s.last().amount_requested as int
        } else {
            0int
        }
    }
}

/// The counts are bounded by the length, the distributed count by the
/// approved count (given the per-record implication), and the distributed sum
/// by one maximal amount per distributed record.
pub proof fn lemma_counts_bounded(s: Seq<Scholarship>)
    requires
        forall|i: int| 0 <= i < s.len() ==> (#[trigger] s[i]).is_distributed ==> s[i].is_approved,
    ensures
        0 <= count_approved(s) <= s.len(),
        0 <= count_distributed(s) <= count_approved(s),
        0 <= sum_distributed(s) <= count_distributed(s) * (u64::MAX as int),
    decreases s.len(),
{
    if s.len() > 0 {
        assert(forall|i: int|
            0 <= i < s.drop_last().len() ==> (#[trigger] s.drop_last()[i]).is_distributed
                ==> s.drop_last()[i].is_approved) by {
            assert(forall|i: int|
                0 <= i < s.drop_last().len() ==> #[trigger] s.drop_last()[i] == s[i]);
        }
        lemma_counts_bounded(s.drop_last());
        assert(s.last() == s[s.len() - 1]);
    }
}

/// Appending a record shifts each total by that record's contribution.
pub proof fn lemma_counts_push(s: Seq<Scholarship>, r: Scholarship)
    ensures
        count_approved(s.push(r)) == count_approved(s) + if r.is_approved {
            1int
        } else {
            0int
        },
        count_distributed(s.push(r)) == count_distributed(s) + if r.is_distributed {
            1int
        } else {
            0int
        },
        sum_distributed(s.push(r)) == sum_distributed(s) + if r.is_distributed {
            r.amount_requested as int
        } else {
            0int
        },
{
    assert(s.push(r).drop_last() =~= s);
    assert(s.push(r).last() == r);
}

/// Replacing one record shifts each total by the difference of the old and
/// new contributions; all other records keep theirs.
pub proof fn lemma_counts_update(s: Seq<Scholarship>, i: int, r: Scholarship)
    requires
        0 <= i < s.len(),
    ensures
        count_approved(s.update(i, r)) == count_approved(s) - (if s[i].is_approved {
            1int
        } else {
            0int
        }) + (if r.is_approved {
            1int
        } else {
            0int
        }),
        count_distributed(s.update(i, r)) == count_distributed(s) - (if s[i].is_distributed {
            1int
        } else {
            0int
        }) + (if r.is_distributed {
            1int
        } else {
            0int
        }),
        sum_distributed(s.update(i, r)) == sum_distributed(s) - (if s[i].is_distributed {
            s[i].amount_requested as int
        } else {
            0int
        }) + (if r.is_distributed {
            r.amount_requested as int
        } else {
            0int
        }),
    decreases s.len(),
{
    if i == s.len() - 1 {
        assert(s.update(i, r).drop_last() =~= s.drop_last());
        assert(s.update(i, r).last() == r);
    } else {
        assert(s.update(i, r).drop_last() =~= s.drop_last().update(i, r));
        assert(s.update(i, r).last() == s.last());
        lemma_counts_update(s.drop_last(), i, r);
        assert(s.drop_last()[i] == s[i]);
    }
}

} // verus!
