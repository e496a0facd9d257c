//! The authorization guard: the two pure checks every handler that needs
//! them routes through. Signature verification itself is an external
//! collaborator; the host reports whether the caller proved control of
//! its identity, and the guard turns that report and the stored owner
//! identities into typed errors.

use vstd::prelude::*;
use crate::error::MarketplaceError;
use crate::ident::Identity;

verus! {

/// Signer check: the caller must have proven control of its identity.
pub fn check_signer(is_signer: bool) -> (r: Result<(), MarketplaceError>)
    ensures
        r == if is_signer {
            Result::<(), MarketplaceError>::Ok(())
        } else {
            Result::<(), MarketplaceError>::Err(MarketplaceError::NotAuthorized)
        },
{
    if is_signer {
        Result::Ok(())
    } else {
        Result::Err(MarketplaceError::NotAuthorized)
    }
}

/// Ownership check: a record's stored owner must equal the caller.
pub fn check_owner(owner: &Identity, caller: &Identity) -> (r: Result<(), MarketplaceError>)
    ensures
        r == if owner@ == caller@ {
            Result::<(), MarketplaceError>::Ok(())
        } else {
            Result::<(), MarketplaceError>::Err(MarketplaceError::NotAuthorized)
        },
{
    if owner.same(caller) {
        Result::Ok(())
    } else {
        Result::Err(MarketplaceError::NotAuthorized)
    }
}

} // verus!
