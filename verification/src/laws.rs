//! What holds of the three operations, for every store and every input.
//!
//! The laws are stated over the map that a registry is viewed as and over
//! the functions that the operations' contracts are written in.

use vstd::prelude::*;
use crate::registry::{created, revoked, transferred};
use crate::rules::{create_outcome, revoke_outcome, transfer_outcome};
use crate::types::{AccountId, BlockNumber, Claim, Config, Error, Origin};

verus! {

/// A `create` succeeds exactly when the origin is signed, the fingerprint is
/// unclaimed and the policy admits it.
pub proof fn create_succeeds_iff(
    config: Config,
    claims: Map<Seq<u8>, Claim>,
    origin: Origin,
    fingerprint: Seq<u8>,
    now: BlockNumber,
)
    ensures
        create_outcome(config, origin, fingerprint, claims.get(fingerprint), now) is Ok <==> {
            &&& origin is Signed
            &&& !claims.contains_key(fingerprint)
            &&& config.admits(fingerprint)
        },
{
}

/// A `revoke` succeeds exactly when the origin is signed by the account
/// that owns the fingerprint.
pub proof fn revoke_succeeds_iff(claims: Map<Seq<u8>, Claim>, origin: Origin, fingerprint: Seq<u8>)
    ensures
        revoke_outcome(origin, claims.get(fingerprint)) is Ok <==> {
            &&& origin is Signed
            &&& claims.contains_key(fingerprint)
            &&& claims[fingerprint].owner == origin->Signed_0
        },
{
}

/// A `transfer` succeeds exactly when a `revoke` from the same origin would,
/// and the destination resolved.
pub proof fn transfer_succeeds_iff(
    claims: Map<Seq<u8>, Claim>,
    origin: Origin,
    fingerprint: Seq<u8>,
    destination: Option<AccountId>,
    now: BlockNumber,
)
    ensures
        transfer_outcome(origin, claims.get(fingerprint), destination, now) is Ok <==> {
            &&& revoke_outcome(origin, claims.get(fingerprint)) is Ok
            &&& destination is Some
        },
{
}

/// An operation that fails leaves the claims as they are.
pub proof fn failure_changes_nothing(
    config: Config,
    claims: Map<Seq<u8>, Claim>,
    origin: Origin,
    fingerprint: Seq<u8>,
    destination: Option<AccountId>,
    now: BlockNumber,
)
    ensures
        create_outcome(config, origin, fingerprint, claims.get(fingerprint), now) is Err ==> created(
            config,
            claims,
            origin,
            fingerprint,
            now,
        ) == claims,
        revoke_outcome(origin, claims.get(fingerprint)) is Err ==> revoked(
            claims,
            origin,
            fingerprint,
        ) == claims,
        transfer_outcome(origin, claims.get(fingerprint), destination, now) is Err ==> transferred(
            claims,
            origin,
            fingerprint,
            destination,
            now,
        ) == claims,
{
}

/// After a successful `create` the fingerprint reads back as claimed by the
/// caller at the block of the call.
pub proof fn create_then_read(
    config: Config,
    claims: Map<Seq<u8>, Claim>,
    caller: AccountId,
    fingerprint: Seq<u8>,
    now: BlockNumber,
)
    requires
        create_outcome(config, Origin::Signed(caller), fingerprint, claims.get(fingerprint), now)
            is Ok,
    ensures
        created(config, claims, Origin::Signed(caller), fingerprint, now).get(fingerprint) == Some(
            Claim { owner: caller, registered_at: now },
        ),
{
}

/// A `create` on a fingerprint that is already claimed fails with
/// `ClaimAlreadyExists`, whoever calls and under whatever policy, and
/// leaves the claims as they are.
pub proof fn create_on_claimed_fails(
    config: Config,
    claims: Map<Seq<u8>, Claim>,
    caller: AccountId,
    fingerprint: Seq<u8>,
    now: BlockNumber,
)
    requires
        claims.contains_key(fingerprint),
    ensures
        create_outcome(config, Origin::Signed(caller), fingerprint, claims.get(fingerprint), now)
            == Err::<Claim, Error>(Error::ClaimAlreadyExists),
        created(config, claims, Origin::Signed(caller), fingerprint, now) == claims,
{
}

/// Of two `create`s on one fingerprint, the first of which succeeds, the
/// second fails with `ClaimAlreadyExists` and leaves the claims as the
/// first left them: the first caller still owns the fingerprint, from the
/// first block.
pub proof fn create_twice(
    config: Config,
    claims: Map<Seq<u8>, Claim>,
    first: AccountId,
    second: AccountId,
    fingerprint: Seq<u8>,
    now: BlockNumber,
    later: BlockNumber,
)
    requires
        create_outcome(config, Origin::Signed(first), fingerprint, claims.get(fingerprint), now)
            is Ok,
    ensures
        ({
            let once = created(config, claims, Origin::Signed(first), fingerprint, now);
            &&& create_outcome(
                config,
                Origin::Signed(second),
                fingerprint,
                once.get(fingerprint),
                later,
            ) == Err::<Claim, Error>(Error::ClaimAlreadyExists)
            &&& created(config, once, Origin::Signed(second), fingerprint, later) == once
            &&& once.get(fingerprint) == Some(Claim { owner: first, registered_at: now })
        }),
{
}

/// A `revoke` by an account that does not own the fingerprint fails with
/// `NotClaimOwner` and leaves the claims as they are.
pub proof fn revoke_by_other_fails(
    claims: Map<Seq<u8>, Claim>,
    caller: AccountId,
    fingerprint: Seq<u8>,
)
    requires
        claims.contains_key(fingerprint),
        claims[fingerprint].owner != caller,
    ensures
        revoke_outcome(Origin::Signed(caller), claims.get(fingerprint)) == Err::<AccountId, Error>(
            Error::NotClaimOwner,
        ),
        revoked(claims, Origin::Signed(caller), fingerprint) == claims,
{
}

/// A `revoke` on an unclaimed fingerprint fails with `ClaimNotFound` and
/// leaves the claims as they are.
pub proof fn revoke_unclaimed_fails(
    claims: Map<Seq<u8>, Claim>,
    caller: AccountId,
    fingerprint: Seq<u8>,
)
    requires
        !claims.contains_key(fingerprint),
    ensures
        revoke_outcome(Origin::Signed(caller), claims.get(fingerprint)) == Err::<AccountId, Error>(
            Error::ClaimNotFound,
        ),
        revoked(claims, Origin::Signed(caller), fingerprint) == claims,
{
}

/// A `revoke` by the owner succeeds; afterwards the fingerprint is
/// unclaimed, and a second `revoke` fails with `ClaimNotFound`.
pub proof fn revoke_by_owner_removes(claims: Map<Seq<u8>, Claim>, fingerprint: Seq<u8>)
    requires
        claims.contains_key(fingerprint),
    ensures
        ({
            let owner = claims[fingerprint].owner;
            let after = revoked(claims, Origin::Signed(owner), fingerprint);
            &&& revoke_outcome(Origin::Signed(owner), claims.get(fingerprint)) == Ok::<
                AccountId,
                Error,
            >(owner)
            &&& after == claims.remove(fingerprint)
            &&& after.get(fingerprint) == None::<Claim>
            &&& revoke_outcome(Origin::Signed(owner), after.get(fingerprint)) == Err::<
                AccountId,
                Error,
            >(Error::ClaimNotFound)
        }),
{
}

/// A `transfer` by an account that does not own the fingerprint fails with
/// `NotClaimOwner`, whatever the destination, and leaves the claims as they
/// are.
pub proof fn transfer_by_other_fails(
    claims: Map<Seq<u8>, Claim>,
    caller: AccountId,
    fingerprint: Seq<u8>,
    destination: Option<AccountId>,
    now: BlockNumber,
)
    requires
        claims.contains_key(fingerprint),
        claims[fingerprint].owner != caller,
    ensures
        transfer_outcome(Origin::Signed(caller), claims.get(fingerprint), destination, now) == Err::<
            (AccountId, Claim),
            Error,
        >(Error::NotClaimOwner),
        transferred(claims, Origin::Signed(caller), fingerprint, destination, now) == claims,
{
}

/// A `transfer` by the owner to a destination that resolved succeeds;
/// afterwards the destination owns the fingerprint from the block of the
/// transfer, not from that of the earlier registration, and nothing else
/// has changed.
pub proof fn transfer_by_owner_replaces(
    claims: Map<Seq<u8>, Claim>,
    fingerprint: Seq<u8>,
    destination: AccountId,
    now: BlockNumber,
)
    requires
        claims.contains_key(fingerprint),
    ensures
        ({
            let owner = claims[fingerprint].owner;
            let entry = Claim { owner: destination, registered_at: now };
            let after = transferred(claims, Origin::Signed(owner), fingerprint, Some(destination), now);
            &&& transfer_outcome(
                Origin::Signed(owner),
                claims.get(fingerprint),
                Some(destination),
                now,
            ) == Ok::<(AccountId, Claim), Error>((owner, entry))
            &&& after.get(fingerprint) == Some(entry)
            &&& after == claims.insert(fingerprint, entry)
        }),
{
    let entry = Claim { owner: destination, registered_at: now };
    assert(claims.remove(fingerprint).insert(fingerprint, entry) =~= claims.insert(
        fingerprint,
        entry,
    ));
}

/// A `transfer` by the owner to a destination that did not resolve fails
/// with `InvalidDestination` and leaves the claims as they are.
pub proof fn transfer_to_unresolved_fails(
    claims: Map<Seq<u8>, Claim>,
    fingerprint: Seq<u8>,
    now: BlockNumber,
)
    requires
        claims.contains_key(fingerprint),
    ensures
        transfer_outcome(
            Origin::Signed(claims[fingerprint].owner),
            claims.get(fingerprint),
            None,
            now,
        ) == Err::<(AccountId, Claim), Error>(Error::InvalidDestination),
        transferred(claims, Origin::Signed(claims[fingerprint].owner), fingerprint, None, now)
            == claims,
{
}

/// An operation from an origin that is not signed fails with
/// `Unauthenticated` and leaves the claims as they are.
pub proof fn unsigned_origin_fails(
    config: Config,
    claims: Map<Seq<u8>, Claim>,
    origin: Origin,
    fingerprint: Seq<u8>,
    destination: Option<AccountId>,
    now: BlockNumber,
)
    requires
        !(origin is Signed),
    ensures
        create_outcome(config, origin, fingerprint, claims.get(fingerprint), now) == Err::<
            Claim,
            Error,
        >(Error::Unauthenticated),
        revoke_outcome(origin, claims.get(fingerprint)) == Err::<AccountId, Error>(
            Error::Unauthenticated,
        ),
        transfer_outcome(origin, claims.get(fingerprint), destination, now) == Err::<
            (AccountId, Claim),
            Error,
        >(Error::Unauthenticated),
        created(config, claims, origin, fingerprint, now) == claims,
        revoked(claims, origin, fingerprint) == claims,
        transferred(claims, origin, fingerprint, destination, now) == claims,
{
}

/// An operation on one fingerprint leaves the claims on every other
/// fingerprint as they are, whether it succeeds or fails.
pub proof fn other_claims_untouched(
    config: Config,
    claims: Map<Seq<u8>, Claim>,
    origin: Origin,
    fingerprint: Seq<u8>,
    destination: Option<AccountId>,
    now: BlockNumber,
    other: Seq<u8>,
)
    requires
        other != fingerprint,
    ensures
        created(config, claims, origin, fingerprint, now).get(other) == claims.get(other),
        revoked(claims, origin, fingerprint).get(other) == claims.get(other),
        transferred(claims, origin, fingerprint, destination, now).get(other) == claims.get(other),
{
}

} // verus!
