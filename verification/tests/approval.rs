use scholarship_dao::application::Scholarship;
use scholarship_dao::approval::apply_vote;
use scholarship_dao::approval::APPROVAL_QUORUM;
use scholarship_dao::error::Error;

fn record(votes_for: u64, votes_against: u64, approved: bool) -> Scholarship {
    Scholarship {
        app_id: 1,
        applicant: "ann".to_string(),
        title: "t".to_string(),
        descrip: "d".to_string(),
        amount_requested: 100,
        votes_for,
        votes_against,
        is_approved: approved,
        is_distributed: false,
        timestamp: 0,
    }
}

#[test]
fn quorum_is_three() {
    assert_eq!(APPROVAL_QUORUM, 3);
}

#[test]
fn sentinel_record_is_rejected() {
    let r = apply_vote(&Scholarship::sentinel(), true);
    assert_eq!(r.unwrap_err(), Error::ApplicationNotFound);
}

#[test]
fn approved_record_is_rejected() {
    let r = apply_vote(&record(2, 1, true), true);
    assert_eq!(r.unwrap_err(), Error::AlreadyApproved);
}

#[test]
fn the_chosen_tally_grows_by_one() {
    let up = apply_vote(&record(0, 0, false), true).unwrap();
    assert_eq!((up.votes_for, up.votes_against), (1, 0));
    let down = apply_vote(&record(0, 0, false), false).unwrap();
    assert_eq!((down.votes_for, down.votes_against), (0, 1));
}

#[test]
fn approval_fires_at_quorum_with_strict_majority() {
    // below the quorum nothing approves
    assert!(!apply_vote(&record(1, 0, false), true).unwrap().is_approved);
    // 2-1 at the quorum approves
    assert!(apply_vote(&record(2, 0, false), false).unwrap().is_approved);
    assert!(apply_vote(&record(1, 1, false), true).unwrap().is_approved);
    // 3-0 approves
    assert!(apply_vote(&record(2, 0, false), true).unwrap().is_approved);
    // ties never approve, whatever the total
    assert!(!apply_vote(&record(1, 2, false), true).unwrap().is_approved);
    assert!(!apply_vote(&record(2, 1, false), false).unwrap().is_approved);
    // a strict minority never approves
    assert!(!apply_vote(&record(1, 2, false), false).unwrap().is_approved);
}

#[test]
fn untouched_fields_are_kept() {
    let up = apply_vote(&record(1, 0, false), true).unwrap();
    assert_eq!(up.app_id, 1);
    assert_eq!(up.applicant, "ann");
    assert_eq!(up.title, "t");
    assert_eq!(up.descrip, "d");
    assert_eq!(up.amount_requested, 100);
    assert!(!up.is_distributed);
    assert_eq!(up.timestamp, 0);
}
