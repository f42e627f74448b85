use pallet_poe::registry::Pallet;
use pallet_poe::types::{Config, Error, Event, Origin};

const NOW: u64 = 1;

fn new_test_ext() -> Pallet {
    Pallet::new(Config::bounded(256))
}

#[test]
fn create_claim_work() {
    let mut poe = new_test_ext();
    let claim = vec![0, 1];
    assert_eq!(
        poe.create_claim(Origin::signed(1), claim.clone(), NOW),
        Ok(Event::ClaimCreated(1, claim.clone()))
    );

    assert_eq!(poe.proofs(&claim), Some((1, NOW)));
}

#[test]
fn create_claim_failed_when_claim_already_exist() {
    let mut poe = new_test_ext();
    let claim = vec![0, 1];
    let _ = poe.create_claim(Origin::signed(1), claim.clone(), NOW);

    let before = poe.proofs(&claim);
    assert_eq!(
        poe.create_claim(Origin::signed(1), claim.clone(), NOW),
        Err(Error::ClaimAlreadyExists)
    );
    assert_eq!(poe.proofs(&claim), before);
    assert_eq!(before, Some((1, NOW)));
}

#[test]
fn create_claim_failed_when_claim_too_large() {
    let mut poe = new_test_ext();
    let claim = vec![0; 257];
    assert_eq!(
        poe.create_claim(Origin::signed(1), claim.clone(), NOW),
        Err(Error::ClaimTooLarge)
    );
    assert_eq!(poe.proofs(&claim), None);
}

#[test]
fn revoke_claim_works() {
    let mut poe = new_test_ext();
    let claim = vec![0, 1];
    let _ = poe.create_claim(Origin::signed(1), claim.clone(), NOW);

    let before = poe.proofs(&claim);
    assert_eq!(
        poe.revoke_claim(Origin::signed(2), claim.clone()),
        Err(Error::NotClaimOwner)
    );
    assert_eq!(poe.proofs(&claim), before);

    assert_eq!(
        poe.revoke_claim(Origin::signed(1), claim.clone()),
        Ok(Event::ClaimRevoked(1, claim.clone()))
    );
    assert_eq!(poe.proofs(&claim), None);
}

#[test]
fn transfer_claim_works() {
    let mut poe = new_test_ext();
    let claim = vec![0, 1];
    let _ = poe.create_claim(Origin::signed(1), claim.clone(), NOW);

    let before = poe.proofs(&claim);
    assert_eq!(
        poe.transfer_accountid_claim(Origin::signed(2), claim.clone(), 3, NOW),
        Err(Error::NotClaimOwner)
    );
    assert_eq!(poe.proofs(&claim), before);

    assert_eq!(
        poe.transfer_accountid_claim(Origin::signed(1), claim.clone(), 2, NOW),
        Ok(Event::ClaimTransferred(1, 2, claim.clone()))
    );

    assert_eq!(poe.proofs(&claim).unwrap().0, 2);
}
