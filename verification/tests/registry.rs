use pallet_poe::registry::Pallet;
use pallet_poe::types::{Config, Error, Event, Origin};

fn bounded() -> Pallet {
    Pallet::new(Config::bounded(256))
}

#[test]
fn new_registry_is_empty_and_keeps_its_policy() {
    let poe = Pallet::new(Config::bounded(7));
    assert_eq!(poe.config(), Config { max_claim_length: Some(7) });
    assert_eq!(poe.proofs(&vec![0, 1]), None);
    assert_eq!(Pallet::new(Config::unbounded()).config().max_claim_length, None);
}

#[test]
fn create_reads_back_caller_and_block() {
    let mut poe = bounded();
    assert!(poe.create_claim(Origin::signed(7), vec![1, 2, 3], 42).is_ok());
    assert_eq!(poe.proofs(&vec![1, 2, 3]), Some((7, 42)));
    assert_eq!(poe.proofs(&vec![1, 2]), None);
    assert_eq!(poe.proofs(&vec![1, 2, 4]), None);
    assert_eq!(poe.proofs(&vec![1, 2, 3, 0]), None);
}

#[test]
fn second_create_by_another_caller_fails_and_changes_nothing() {
    let mut poe = bounded();
    assert!(poe.create_claim(Origin::signed(1), vec![0, 1], 10).is_ok());
    assert_eq!(
        poe.create_claim(Origin::signed(2), vec![0, 1], 11),
        Err(Error::ClaimAlreadyExists)
    );
    assert_eq!(poe.proofs(&vec![0, 1]), Some((1, 10)));
}

#[test]
fn create_of_empty_fingerprint_fails() {
    let mut poe = bounded();
    assert_eq!(poe.create_claim(Origin::signed(1), vec![], 1), Err(Error::ClaimEmpty));
    assert_eq!(poe.proofs(&vec![]), None);
    let mut free = Pallet::new(Config::unbounded());
    assert_eq!(free.create_claim(Origin::signed(1), vec![], 1), Err(Error::ClaimEmpty));
}

#[test]
fn create_at_the_bound_succeeds() {
    let mut poe = bounded();
    let claim = vec![5; 256];
    assert_eq!(
        poe.create_claim(Origin::signed(1), claim.clone(), 3),
        Ok(Event::ClaimCreated(1, claim.clone()))
    );
    assert_eq!(poe.proofs(&claim), Some((1, 3)));
}

#[test]
fn create_without_a_bound_takes_long_fingerprints() {
    let mut poe = Pallet::new(Config::unbounded());
    let claim = vec![0; 257];
    assert!(poe.create_claim(Origin::signed(1), claim.clone(), 3).is_ok());
    assert_eq!(poe.proofs(&claim), Some((1, 3)));
}

#[test]
fn create_with_bound_zero_refuses_every_fingerprint() {
    let mut poe = Pallet::new(Config::bounded(0));
    assert_eq!(poe.create_claim(Origin::signed(1), vec![1], 3), Err(Error::ClaimTooLarge));
    assert_eq!(poe.create_claim(Origin::signed(1), vec![], 3), Err(Error::ClaimEmpty));
}

#[test]
fn existing_claim_is_reported_before_its_length() {
    let mut wide = Pallet::new(Config::unbounded());
    assert!(wide.create_claim(Origin::signed(1), vec![0; 300], 1).is_ok());
    assert_eq!(
        wide.create_claim(Origin::signed(1), vec![0; 300], 2),
        Err(Error::ClaimAlreadyExists)
    );
}

#[test]
fn unsigned_origins_are_unauthenticated() {
    let mut poe = bounded();
    assert!(poe.create_claim(Origin::signed(1), vec![0, 1], 1).is_ok());
    for origin in [Origin::Root, Origin::Unsigned] {
        assert_eq!(poe.create_claim(origin, vec![2], 2), Err(Error::Unauthenticated));
        assert_eq!(poe.create_claim(origin, vec![0, 1], 2), Err(Error::Unauthenticated));
        assert_eq!(poe.revoke_claim(origin, vec![0, 1]), Err(Error::Unauthenticated));
        assert_eq!(poe.revoke_claim(origin, vec![9]), Err(Error::Unauthenticated));
        assert_eq!(
            poe.transfer_claim(origin, vec![0, 1], Some(2), 2),
            Err(Error::Unauthenticated)
        );
        assert_eq!(
            poe.transfer_accountid_claim(origin, vec![0, 1], 2, 2),
            Err(Error::Unauthenticated)
        );
    }
    assert_eq!(poe.proofs(&vec![0, 1]), Some((1, 1)));
    assert_eq!(poe.proofs(&vec![2]), None);
}

#[test]
fn revoke_of_unclaimed_fingerprint_is_not_found() {
    let mut poe = bounded();
    assert_eq!(poe.revoke_claim(Origin::signed(1), vec![9, 9]), Err(Error::ClaimNotFound));
    assert_eq!(poe.proofs(&vec![9, 9]), None);
}

#[test]
fn second_revoke_is_not_found() {
    let mut poe = bounded();
    assert!(poe.create_claim(Origin::signed(1), vec![0, 1], 1).is_ok());
    assert!(poe.revoke_claim(Origin::signed(1), vec![0, 1]).is_ok());
    assert_eq!(poe.revoke_claim(Origin::signed(1), vec![0, 1]), Err(Error::ClaimNotFound));
}

#[test]
fn revoked_fingerprint_can_be_claimed_again() {
    let mut poe = bounded();
    assert!(poe.create_claim(Origin::signed(1), vec![0, 1], 1).is_ok());
    assert!(poe.revoke_claim(Origin::signed(1), vec![0, 1]).is_ok());
    assert_eq!(
        poe.create_claim(Origin::signed(2), vec![0, 1], 8),
        Ok(Event::ClaimCreated(2, vec![0, 1]))
    );
    assert_eq!(poe.proofs(&vec![0, 1]), Some((2, 8)));
}

#[test]
fn transfer_resets_the_block() {
    let mut poe = bounded();
    assert!(poe.create_claim(Origin::signed(1), vec![0, 1], 10).is_ok());
    assert_eq!(
        poe.transfer_claim(Origin::signed(1), vec![0, 1], Some(2), 25),
        Ok(Event::ClaimTransferred(1, 2, vec![0, 1]))
    );
    assert_eq!(poe.proofs(&vec![0, 1]), Some((2, 25)));
}

#[test]
fn transfer_hands_over_the_right_to_revoke() {
    let mut poe = bounded();
    assert!(poe.create_claim(Origin::signed(1), vec![0, 1], 10).is_ok());
    assert!(poe.transfer_accountid_claim(Origin::signed(1), vec![0, 1], 2, 11).is_ok());
    assert_eq!(poe.revoke_claim(Origin::signed(1), vec![0, 1]), Err(Error::NotClaimOwner));
    assert_eq!(
        poe.transfer_claim(Origin::signed(1), vec![0, 1], Some(1), 12),
        Err(Error::NotClaimOwner)
    );
    assert_eq!(
        poe.revoke_claim(Origin::signed(2), vec![0, 1]),
        Ok(Event::ClaimRevoked(2, vec![0, 1]))
    );
}

#[test]
fn transfer_to_oneself_resets_the_block() {
    let mut poe = bounded();
    assert!(poe.create_claim(Origin::signed(1), vec![4], 10).is_ok());
    assert_eq!(
        poe.transfer_claim(Origin::signed(1), vec![4], Some(1), 30),
        Ok(Event::ClaimTransferred(1, 1, vec![4]))
    );
    assert_eq!(poe.proofs(&vec![4]), Some((1, 30)));
}

#[test]
fn transfer_to_unresolved_destination_fails() {
    let mut poe = bounded();
    assert!(poe.create_claim(Origin::signed(1), vec![0, 1], 10).is_ok());
    assert_eq!(
        poe.transfer_claim(Origin::signed(1), vec![0, 1], None, 11),
        Err(Error::InvalidDestination)
    );
    assert_eq!(poe.proofs(&vec![0, 1]), Some((1, 10)));
}

#[test]
fn transfer_checks_fingerprint_then_owner_then_destination() {
    let mut poe = bounded();
    assert_eq!(
        poe.transfer_claim(Origin::signed(1), vec![9, 9], None, 1),
        Err(Error::ClaimNotFound)
    );
    assert_eq!(
        poe.transfer_claim(Origin::signed(1), vec![9, 9], Some(2), 1),
        Err(Error::ClaimNotFound)
    );
    assert!(poe.create_claim(Origin::signed(1), vec![0, 1], 10).is_ok());
    assert_eq!(
        poe.transfer_claim(Origin::signed(2), vec![0, 1], None, 11),
        Err(Error::NotClaimOwner)
    );
    assert_eq!(poe.proofs(&vec![0, 1]), Some((1, 10)));
}

#[test]
fn operations_touch_one_fingerprint_only() {
    let mut poe = bounded();
    assert!(poe.create_claim(Origin::signed(1), vec![1], 1).is_ok());
    assert!(poe.create_claim(Origin::signed(2), vec![2], 2).is_ok());
    assert!(poe.create_claim(Origin::signed(3), vec![3], 3).is_ok());
    assert!(poe.transfer_claim(Origin::signed(2), vec![2], Some(9), 4).is_ok());
    assert_eq!(poe.proofs(&vec![1]), Some((1, 1)));
    assert_eq!(poe.proofs(&vec![2]), Some((9, 4)));
    assert_eq!(poe.proofs(&vec![3]), Some((3, 3)));
    assert!(poe.revoke_claim(Origin::signed(1), vec![1]).is_ok());
    assert_eq!(poe.proofs(&vec![1]), None);
    assert_eq!(poe.proofs(&vec![2]), Some((9, 4)));
    assert_eq!(poe.proofs(&vec![3]), Some((3, 3)));
    assert!(poe.revoke_claim(Origin::signed(3), vec![3]).is_ok());
    assert_eq!(poe.proofs(&vec![2]), Some((9, 4)));
    assert_eq!(poe.proofs(&vec![3]), None);
}

#[test]
fn second_create_by_the_same_caller_keeps_the_first_block() {
    let mut poe = bounded();
    assert!(poe.create_claim(Origin::signed(1), vec![0, 1], 10).is_ok());
    assert_eq!(
        poe.create_claim(Origin::signed(1), vec![0, 1], 20),
        Err(Error::ClaimAlreadyExists)
    );
    assert_eq!(poe.proofs(&vec![0, 1]), Some((1, 10)));
}

#[test]
fn failed_create_can_be_repeated_with_the_same_result() {
    let mut poe = bounded();
    let claim = vec![0; 257];
    assert_eq!(poe.create_claim(Origin::signed(1), claim.clone(), 1), Err(Error::ClaimTooLarge));
    assert_eq!(poe.create_claim(Origin::signed(1), claim.clone(), 2), Err(Error::ClaimTooLarge));
    assert_eq!(poe.proofs(&claim), None);
}
