//! Decisions the HTTP handlers take before dispatching to a service.
//!
//! The handlers themselves are framework plumbing; what they decide —
//! beyond the ownership gate in [`crate::auth_extract::ensure_owner`] —
//! lives here with a contract.

use vstd::prelude::*;

use crate::error::BlogError;

verus! {

/// A transfer between accounts must name two different accounts; a
/// self-transfer is rejected as a validation error before any lookup.
pub fn validate_transfer(from: u32, to: u32) -> (r: Result<(), BlogError>)
    ensures
        r is Ok <==> from != to,
        r matches Err(e) ==> e matches BlogError::Validation(_),
{
    if from == to {
        Err(BlogError::Validation("source and destination must differ".to_owned()))
    } else {
        Ok(())
    }
}

} // verus!
