//! The checks that an operation passes before it may change the store.
//!
//! Each check is a function of plain values: the origin, the claim that is
//! stored under the fingerprint at the moment (if any), and what the host
//! supplies (the current block, the resolved destination). A host that keeps
//! the claims in storage of its own runs the same checks on what it read.

use vstd::prelude::*;
use crate::types::{AccountId, BlockNumber, Claim, Config, Error, Origin};

verus! {

/// The account behind a signed origin; any other origin is unauthenticated.
pub open spec fn signed_by(origin: Origin) -> Result<AccountId, Error> {
    match origin {
        Origin::Signed(who) => Ok(who),
        _ => Err(Error::Unauthenticated),
    }
}

/// Authenticates `origin` as a signed one.
pub fn ensure_signed(origin: Origin) -> (who: Result<AccountId, Error>)
    ensures
        who == signed_by(origin),
{
    match origin {
        Origin::Signed(who) => Ok(who),
        _ => Err(Error::Unauthenticated),
    }
}

/// What `create` decides. The checks, in order: the origin is signed; the
/// fingerprint is unclaimed; it has at least one byte; it is within the
/// configured bound. On success the caller owns the fingerprint from `now`.
pub open spec fn create_outcome(
    config: Config,
    origin: Origin,
    fingerprint: Seq<u8>,
    existing: Option<Claim>,
    now: BlockNumber,
) -> Result<Claim, Error> {
    match origin {
        Origin::Signed(who) => {
            if existing is Some {
                Err(Error::ClaimAlreadyExists)
            } else if fingerprint.len() == 0 {
                Err(Error::ClaimEmpty)
            } else if config.too_large(fingerprint.len()) {
                Err(Error::ClaimTooLarge)
            } else {
                Ok(Claim { owner: who, registered_at: now })
            }
        },
        _ => Err(Error::Unauthenticated),
    }
}

/// Decides a `create`: the claim to store under `fingerprint`, or the error.
pub fn check_create(
    config: &Config,
    origin: Origin,
    fingerprint: &Vec<u8>,
    existing: Option<Claim>,
    now: BlockNumber,
) -> (outcome: Result<Claim, Error>)
    ensures
        outcome == create_outcome(*config, origin, fingerprint@, existing, now),
{
    let who = match ensure_signed(origin) {
        Ok(who) => who,
        Err(e) => {
            return Err(e);
        },
    };
    if existing.is_some() {
        return Err(Error::ClaimAlreadyExists);
    }
    if fingerprint.len() == 0 {
        return Err(Error::ClaimEmpty);
    }
    match config.max_claim_length {
        Some(max) => {
            if fingerprint.len() > max {
                return Err(Error::ClaimTooLarge);
            }
        },
        None => {},
    }
    Ok(Claim { owner: who, registered_at: now })
}

/// What `revoke` decides. The checks, in order: the origin is signed; the
/// fingerprint is claimed; the caller owns it. On success the result is the
/// caller, whose claim is to be removed.
pub open spec fn revoke_outcome(origin: Origin, existing: Option<Claim>) -> Result<
    AccountId,
    Error,
> {
    match origin {
        Origin::Signed(who) => match existing {
            None => Err(Error::ClaimNotFound),
            Some(claim) => if claim.owner == who {
                Ok(who)
            } else {
                Err(Error::NotClaimOwner)
            },
        },
        _ => Err(Error::Unauthenticated),
    }
}

/// Decides a `revoke`: the owner whose claim goes, or the error.
pub fn check_revoke(origin: Origin, existing: Option<Claim>) -> (outcome: Result<AccountId, Error>)
    ensures
        outcome == revoke_outcome(origin, existing),
{
    let who = match ensure_signed(origin) {
        Ok(who) => who,
        Err(e) => {
            return Err(e);
        },
    };
    match existing {
        None => Err(Error::ClaimNotFound),
        Some(claim) => {
            if claim.owner == who {
                Ok(who)
            } else {
                Err(Error::NotClaimOwner)
            }
        },
    }
}

/// What `transfer` decides. `destination` is what the identity resolver made
/// of the destination: `None` where it names no account. The checks, in
/// order: the origin is signed; the fingerprint is claimed; the caller owns
/// it; the destination resolved. On success the result is the caller and the
/// claim that replaces theirs: the destination owns the fingerprint from
/// `now`, whatever the block of the earlier registration.
pub open spec fn transfer_outcome(
    origin: Origin,
    existing: Option<Claim>,
    destination: Option<AccountId>,
    now: BlockNumber,
) -> Result<(AccountId, Claim), Error> {
    match revoke_outcome(origin, existing) {
        Ok(who) => match destination {
            Some(to) => Ok((who, Claim { owner: to, registered_at: now })),
            None => Err(Error::InvalidDestination),
        },
        Err(e) => Err(e),
    }
}

/// Decides a `transfer`: the former owner and the new claim, or the error.
pub fn check_transfer(
    origin: Origin,
    existing: Option<Claim>,
    destination: Option<AccountId>,
    now: BlockNumber,
) -> (outcome: Result<(AccountId, Claim), Error>)
    ensures
        outcome == transfer_outcome(origin, existing, destination, now),
{
    match check_revoke(origin, existing) {
        Ok(who) => match destination {
            Some(to) => Ok((who, Claim { owner: to, registered_at: now })),
            None => Err(Error::InvalidDestination),
        },
        Err(e) => Err(e),
    }
}

} // verus!
