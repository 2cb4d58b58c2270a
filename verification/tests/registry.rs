use scholarship_dao::error::Error;
use scholarship_dao::registry::ProofOfBuildRegistry;

fn register(reg: &mut ProofOfBuildRegistry, id: u64, builder: &str, at: u64) {
    reg.register_build(
        id,
        builder.to_string(),
        "https://example.invalid/repo".to_string(),
        "a build".to_string(),
        at,
    );
}

#[test]
fn registering_stores_an_unverified_record() {
    let mut reg = ProofOfBuildRegistry::new();
    register(&mut reg, 9, "ann", 400);
    let rec = reg.get_build(9).expect("record is present");
    assert_eq!(rec.build_id, 9);
    assert_eq!(rec.builder, "ann");
    assert_eq!(rec.repo_url, "https://example.invalid/repo");
    assert_eq!(rec.description, "a build");
    assert_eq!(rec.submitted_at, 400);
    assert!(!rec.verified);
    assert!(!reg.is_build_verified(9));
}

#[test]
fn verify_flips_the_flag_once_registered() {
    let mut reg = ProofOfBuildRegistry::new();
    register(&mut reg, 9, "ann", 400);
    assert_eq!(reg.verify_build(9), Ok(()));
    assert!(reg.is_build_verified(9));
    assert!(reg.get_build(9).unwrap().verified);
}

#[test]
fn verifying_an_unknown_build_fails() {
    let mut reg = ProofOfBuildRegistry::new();
    assert_eq!(reg.verify_build(5), Err(Error::BuildNotFound));
    register(&mut reg, 9, "ann", 400);
    assert_eq!(reg.verify_build(5), Err(Error::BuildNotFound));
    assert!(!reg.is_build_verified(5));
}

#[test]
fn verifying_twice_keeps_the_flag_and_is_no_error() {
    let mut reg = ProofOfBuildRegistry::new();
    register(&mut reg, 9, "ann", 400);
    assert_eq!(reg.verify_build(9), Ok(()));
    assert_eq!(reg.verify_build(9), Ok(()));
    assert!(reg.is_build_verified(9));
}

#[test]
fn registering_again_overwrites_and_clears_the_flag() {
    let mut reg = ProofOfBuildRegistry::new();
    register(&mut reg, 9, "ann", 400);
    reg.verify_build(9).unwrap();
    assert!(reg.is_build_verified(9));
    register(&mut reg, 9, "bob", 900);
    let rec = reg.get_build(9).unwrap();
    assert_eq!(rec.builder, "bob");
    assert_eq!(rec.submitted_at, 900);
    assert!(!rec.verified);
    assert!(!reg.is_build_verified(9));
}

#[test]
fn absent_build_yields_no_value() {
    let mut reg = ProofOfBuildRegistry::new();
    assert!(reg.get_build(1).is_none());
    assert!(!reg.is_build_verified(1));
    register(&mut reg, 1, "ann", 1);
    assert!(reg.get_build(1).is_some());
    assert!(reg.get_build(2).is_none());
}

#[test]
fn records_are_kept_per_id() {
    let mut reg = ProofOfBuildRegistry::new();
    register(&mut reg, 1, "ann", 10);
    register(&mut reg, 2, "bob", 20);
    register(&mut reg, 3, "cara", 30);
    reg.verify_build(2).unwrap();
    assert!(!reg.is_build_verified(1));
    assert!(reg.is_build_verified(2));
    assert!(!reg.is_build_verified(3));
    assert_eq!(reg.get_build(1).unwrap().builder, "ann");
    assert_eq!(reg.get_build(3).unwrap().submitted_at, 30);
}
