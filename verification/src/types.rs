//! The plain data that the registry works on.

use vstd::prelude::*;

verus! {

/// An account identity. The registry only ever compares identities.
pub type AccountId = u64;

/// A block number of the host ledger, used as a registration timestamp.
pub type BlockNumber = u64;

/// Who owns a fingerprint, and since which block.
#[derive(Clone, Copy, Debug, PartialEq, Eq, Structural)]
pub struct Claim {
    pub owner: AccountId,
    pub registered_at: BlockNumber,
}

/// The invocation context of an operation, as the host hands it over.
#[derive(Clone, Copy, Debug, PartialEq, Eq, Structural)]
pub enum Origin {
    /// The host itself dispatched the call.
    Root,
    /// The call was signed by this account.
    Signed(AccountId),
    /// The call was signed by nobody.
    Unsigned,
}

impl Origin {
    /// The origin of a call signed by `who`.
    pub fn signed(who: AccountId) -> (origin: Origin)
        ensures
            origin == Origin::Signed(who),
    {
        Origin::Signed(who)
    }
}

/// Why an operation was refused.
#[derive(Clone, Copy, Debug, PartialEq, Eq, Structural)]
pub enum Error {
    /// The origin is not a signed one.
    Unauthenticated,
    /// `create` on a fingerprint that is already claimed.
    ClaimAlreadyExists,
    /// `create` with a fingerprint of no bytes.
    ClaimEmpty,
    /// `create` with a fingerprint longer than the configured bound.
    ClaimTooLarge,
    /// `revoke` or `transfer` on a fingerprint that nobody has claimed.
    ClaimNotFound,
    /// `revoke` or `transfer` by an account other than the owner.
    NotClaimOwner,
    /// `transfer` to a destination that names no account.
    InvalidDestination,
}

/// What a successful operation reports to the host's event sink.
#[derive(Debug, PartialEq, Eq)]
pub enum Event {
    /// `ClaimCreated(owner, fingerprint)`
    ClaimCreated(AccountId, Vec<u8>),
    /// `ClaimRevoked(owner, fingerprint)`
    ClaimRevoked(AccountId, Vec<u8>),
    /// `ClaimTransferred(from, to, fingerprint)`
    ClaimTransferred(AccountId, AccountId, Vec<u8>),
}

/// The policy that a registry is set up with.
#[derive(Clone, Copy, Debug, PartialEq, Eq, Structural)]
pub struct Config {
    /// The largest number of bytes a fingerprint may have; `None` for no bound.
    pub max_claim_length: Option<usize>,
}

impl Config {
    /// A policy with no bound on a fingerprint's length.
    pub fn unbounded() -> (config: Config)
        ensures
            config == (Config { max_claim_length: None }),
    {
        Config { max_claim_length: None }
    }

    /// A policy that admits fingerprints of at most `max` bytes.
    pub fn bounded(max: usize) -> (config: Config)
        ensures
            config == (Config { max_claim_length: Some(max) }),
    {
        Config { max_claim_length: Some(max) }
    }

    /// Whether a fingerprint of `len` bytes is over the bound.
    pub open spec fn too_large(self, len: nat) -> bool {
        match self.max_claim_length {
            Some(max) => len > max,
            None => false,
        }
    }

    /// A fingerprint is admitted when it has at least one byte and is within
    /// the bound, where there is one.
    pub open spec fn admits(self, fingerprint: Seq<u8>) -> bool {
        fingerprint.len() > 0 && !self.too_large(fingerprint.len())
    }
}

} // verus!
