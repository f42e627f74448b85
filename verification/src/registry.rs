//! The registry: the three operations on a store of claims.

use vstd::prelude::*;
use crate::rules::{
    check_create, check_revoke, check_transfer, create_outcome, revoke_outcome, transfer_outcome,
};
use crate::lookup::lookup_identity;
use crate::store::{copy_bytes, ClaimStore};
use crate::types::{AccountId, BlockNumber, Claim, Config, Error, Event, Origin};

verus! {

/// The claims after a `create` on `claims`.
pub open spec fn created(
    config: Config,
    claims: Map<Seq<u8>, Claim>,
    origin: Origin,
    fingerprint: Seq<u8>,
    now: BlockNumber,
) -> Map<Seq<u8>, Claim> {
    match create_outcome(config, origin, fingerprint, claims.get(fingerprint), now) {
        Ok(claim) => claims.insert(fingerprint, claim),
        Err(_) => claims,
    }
}

/// The claims after a `revoke` on `claims`.
pub open spec fn revoked(claims: Map<Seq<u8>, Claim>, origin: Origin, fingerprint: Seq<u8>) -> Map<
    Seq<u8>,
    Claim,
> {
    match revoke_outcome(origin, claims.get(fingerprint)) {
        Ok(_) => claims.remove(fingerprint),
        Err(_) => claims,
    }
}

/// The claims after a `transfer` on `claims`: the entry is removed and put
/// in anew.
pub open spec fn transferred(
    claims: Map<Seq<u8>, Claim>,
    origin: Origin,
    fingerprint: Seq<u8>,
    destination: Option<AccountId>,
    now: BlockNumber,
) -> Map<Seq<u8>, Claim> {
    match transfer_outcome(origin, claims.get(fingerprint), destination, now) {
        Ok((_, claim)) => claims.remove(fingerprint).insert(fingerprint, claim),
        Err(_) => claims,
    }
}

/// A registry of claims under one policy. Its view is the map from each
/// claimed fingerprint to its claim.
pub struct Pallet {
    config: Config,
    proofs: ClaimStore,
}

impl View for Pallet {
    type V = Map<Seq<u8>, Claim>;

    closed spec fn view(&self) -> Map<Seq<u8>, Claim> {
        self.proofs@
    }
}

impl Pallet {
    /// The policy that the registry was set up with.
    pub closed spec fn policy(&self) -> Config {
        self.config
    }

    /// The registry's invariant: the store is in order, and every claimed
    /// fingerprint is one that the policy admits.
    pub closed spec fn wf(&self) -> bool {
        &&& self.proofs.wf()
        &&& forall|f: Seq<u8>| #[trigger] self.proofs@.contains_key(f) ==> self.config.admits(f)
    }

    /// Every claimed fingerprint has at least one byte and is within the
    /// policy's bound.
    pub proof fn claimed_is_admitted(&self, fingerprint: Seq<u8>)
        requires
            self.wf(),
            self@.contains_key(fingerprint),
        ensures
            self.policy().admits(fingerprint),
    {
    }

    /// A registry without claims.
    pub fn new(config: Config) -> (registry: Pallet)
        ensures
            registry.wf(),
            registry.policy() == config,
            registry@ == Map::<Seq<u8>, Claim>::empty(),
    {
        Pallet { config, proofs: ClaimStore::new() }
    }

    /// The registry's policy.
    pub fn config(&self) -> (config: Config)
        ensures
            config == self.policy(),
    {
        self.config
    }

    /// The owner of `claim` and the block of their registration, if the
    /// fingerprint is claimed.
    pub fn proofs(&self, claim: &Vec<u8>) -> (entry: Option<(AccountId, BlockNumber)>)
        requires
            self.wf(),
        ensures
            entry == match self@.get(claim@) {
                Some(c) => Some((c.owner, c.registered_at)),
                None => None,
            },
    {
        match self.proofs.get(claim) {
            Some(c) => Some((c.owner, c.registered_at)),
            None => None,
        }
    }

    /// Registers the caller as the owner of `claim` from block `now`.
    ///
    /// Succeeds exactly when `create_outcome` does, with the event
    /// `ClaimCreated(caller, claim)`; fails with its error otherwise, and
    /// then changes nothing.
    pub fn create_claim(&mut self, origin: Origin, claim: Vec<u8>, now: BlockNumber) -> (result:
        Result<Event, Error>)
        requires
            old(self).wf(),
        ensures
            final(self).wf(),
            final(self).policy() == old(self).policy(),
            final(self)@ == created(old(self).policy(), old(self)@, origin, claim@, now),
            result == match create_outcome(
                old(self).policy(),
                origin,
                claim@,
                old(self)@.get(claim@),
                now,
            ) {
                Ok(entry) => Ok::<Event, Error>(Event::ClaimCreated(entry.owner, claim)),
                Err(e) => Err(e),
            },
    {
        let existing = self.proofs.get(&claim);
        match check_create(&self.config, origin, &claim, existing, now) {
            Ok(entry) => {
                self.proofs.insert(copy_bytes(&claim), entry);
                Ok(Event::ClaimCreated(entry.owner, claim))
            },
            Err(e) => Err(e),
        }
    }

    /// Removes the caller's claim on `claim`.
    ///
    /// Succeeds exactly when `revoke_outcome` does, with the event
    /// `ClaimRevoked(caller, claim)`; fails with its error otherwise, and
    /// then changes nothing.
    pub fn revoke_claim(&mut self, origin: Origin, claim: Vec<u8>) -> (result: Result<Event, Error>)
        requires
            old(self).wf(),
        ensures
            final(self).wf(),
            final(self).policy() == old(self).policy(),
            final(self)@ == revoked(old(self)@, origin, claim@),
            result == match revoke_outcome(origin, old(self)@.get(claim@)) {
                Ok(who) => Ok::<Event, Error>(Event::ClaimRevoked(who, claim)),
                Err(e) => Err(e),
            },
    {
        let existing = self.proofs.get(&claim);
        match check_revoke(origin, existing) {
            Ok(who) => {
                self.proofs.remove(&claim);
                Ok(Event::ClaimRevoked(who, claim))
            },
            Err(e) => Err(e),
        }
    }

    /// Hands the caller's claim on `claim` over to `dest` from block `now`.
    /// `dest` is the destination as the identity resolver returned it:
    /// `None` where it names no account.
    ///
    /// Succeeds exactly when `transfer_outcome` does, with the event
    /// `ClaimTransferred(caller, destination, claim)`; fails with its error
    /// otherwise, and then changes nothing.
    pub fn transfer_claim(
        &mut self,
        origin: Origin,
        claim: Vec<u8>,
        dest: Option<AccountId>,
        now: BlockNumber,
    ) -> (result: Result<Event, Error>)
        requires
            old(self).wf(),
        ensures
            final(self).wf(),
            final(self).policy() == old(self).policy(),
            final(self)@ == transferred(old(self)@, origin, claim@, dest, now),
            result == match transfer_outcome(origin, old(self)@.get(claim@), dest, now) {
                Ok((who, entry)) => Ok::<Event, Error>(
                    Event::ClaimTransferred(who, entry.owner, claim),
                ),
                Err(e) => Err(e),
            },
    {
        let existing = self.proofs.get(&claim);
        match check_transfer(origin, existing, dest, now) {
            Ok((who, entry)) => {
                self.proofs.remove(&claim);
                self.proofs.insert(copy_bytes(&claim), entry);
                Ok(Event::ClaimTransferred(who, entry.owner, claim))
            },
            Err(e) => Err(e),
        }
    }

    /// `transfer_claim` to a destination that is given as an account and
    /// resolved by the identity lookup, which never fails.
    pub fn transfer_accountid_claim(
        &mut self,
        origin: Origin,
        claim: Vec<u8>,
        dest: AccountId,
        now: BlockNumber,
    ) -> (result: Result<Event, Error>)
        requires
            old(self).wf(),
        ensures
            final(self).wf(),
            final(self).policy() == old(self).policy(),
            final(self)@ == transferred(old(self)@, origin, claim@, Some(dest), now),
            result == match revoke_outcome(origin, old(self)@.get(claim@)) {
                Ok(who) => Ok::<Event, Error>(Event::ClaimTransferred(who, dest, claim)),
                Err(e) => Err(e),
            },
    {
        let resolved = match lookup_identity(dest) {
            Ok(to) => Some(to),
            Err(_) => None,
        };
        self.transfer_claim(origin, claim, resolved, now)
    }
}

} // verus!
