//! Resolving a destination that is given as an account.

use sp_runtime::traits::{IdentityLookup, LookupError, StaticLookup};
use vstd::prelude::*;
use crate::types::AccountId;

verus! {

/// `sp_runtime::traits::LookupError`: the error of a lookup that failed. It
/// carries nothing.
#[verifier::external_type_specification]
#[verifier::external_body]
pub struct ExLookupError(sp_runtime::traits::LookupError);

/// `<sp_runtime::traits::IdentityLookup<u64> as StaticLookup>::lookup`: the
/// lookup whose source is the account itself. It returns its input as the
/// account it resolved to, and never fails.
#[verifier::external_body]
pub(crate) fn lookup_identity(dest: AccountId) -> (resolved: Result<AccountId, LookupError>)
    ensures
        resolved is Ok,
        resolved.unwrap() == dest,
{
    IdentityLookup::<AccountId>::lookup(dest)
}

} // verus!
