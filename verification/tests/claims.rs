use state_machine::proof_of_existence::{Call, Pallet};
use state_machine::support::ErrorKind;

#[test]
fn basic_proof_of_existence() {
    let mut poe = Pallet::<&'static str, &'static str>::new();

    let _ = poe.create_claim("fehim", "my_doc");
    assert_eq!(poe.get_claim(&"my_doc"), Some(&"fehim"));

    let res = poe.revoke_claim("shihab", "my_doc");
    assert_eq!(res, Err(ErrorKind::NotClaimOwner));

    let res = poe.revoke_claim("fehim", "my_doc");
    assert_eq!(res, Ok(()));

    let res = poe.revoke_claim("fehim", "my_doc");
    assert_eq!(res, Err(ErrorKind::ClaimNotFound));
}

#[test]
fn claim_lifecycle_scenario() {
    let mut poe = Pallet::<&'static str, &'static str>::new();
    assert_eq!(poe.create_claim("alice", "doc1"), Ok(()));
    assert_eq!(poe.get_claim(&"doc1"), Some(&"alice"));
    assert_eq!(poe.revoke_claim("bob", "doc1"), Err(ErrorKind::NotClaimOwner));
    assert_eq!(poe.revoke_claim("alice", "doc1"), Ok(()));
    assert_eq!(poe.revoke_claim("alice", "doc1"), Err(ErrorKind::ClaimNotFound));
}

#[test]
fn claims_are_unique() {
    let mut poe = Pallet::<u64, u64>::new();
    assert_eq!(poe.create_claim(1, 100), Ok(()));
    assert_eq!(poe.create_claim(2, 100), Err(ErrorKind::ClaimAlreadyExists));
    assert_eq!(poe.create_claim(1, 100), Err(ErrorKind::ClaimAlreadyExists));
    assert_eq!(poe.get_claim(&100), Some(&1));
}

#[test]
fn unclaimed_key_reads_none() {
    let poe = Pallet::<u64, u64>::new();
    assert_eq!(poe.get_claim(&100), None);
}

#[test]
fn failed_revoke_keeps_claim() {
    let mut poe = Pallet::<u64, u64>::new();
    assert_eq!(poe.create_claim(1, 100), Ok(()));
    assert_eq!(poe.revoke_claim(2, 100), Err(ErrorKind::NotClaimOwner));
    assert_eq!(poe.get_claim(&100), Some(&1));
}

#[test]
fn revoke_frees_the_key_for_a_new_owner() {
    let mut poe = Pallet::<u64, u64>::new();
    assert_eq!(poe.create_claim(1, 100), Ok(()));
    assert_eq!(poe.revoke_claim(1, 100), Ok(()));
    assert_eq!(poe.get_claim(&100), None);
    assert_eq!(poe.create_claim(2, 100), Ok(()));
    assert_eq!(poe.get_claim(&100), Some(&2));
}

#[test]
fn claims_on_distinct_keys_are_independent() {
    let mut poe = Pallet::<u64, u64>::new();
    assert_eq!(poe.create_claim(1, 100), Ok(()));
    assert_eq!(poe.create_claim(2, 200), Ok(()));
    assert_eq!(poe.revoke_claim(1, 100), Ok(()));
    assert_eq!(poe.get_claim(&200), Some(&2));
}

#[test]
fn dispatch_routes_claim_calls() {
    let mut poe = Pallet::<u64, u64>::new();
    assert_eq!(poe.dispatch(1, Call::CreateClaim { claim: 100 }), Ok(()));
    assert_eq!(
        poe.dispatch(2, Call::CreateClaim { claim: 100 }),
        Err(ErrorKind::ClaimAlreadyExists)
    );
    assert_eq!(
        poe.dispatch(2, Call::RevokeClaim { claim: 100 }),
        Err(ErrorKind::NotClaimOwner)
    );
    assert_eq!(poe.dispatch(1, Call::RevokeClaim { claim: 100 }), Ok(()));
    assert_eq!(
        poe.dispatch(1, Call::RevokeClaim { claim: 100 }),
        Err(ErrorKind::ClaimNotFound)
    );
}
