//! The identity of a caller.

use vstd::prelude::*;

verus! {

/// `ink::primitives::AccountId`, the 32-byte account identity of ink's default
/// environment. The store only carries such values from a caller to a record
/// and back, so nothing of what one holds is stated here.
#[verifier::external_type_specification]
#[verifier::external_body]
pub struct ExAccountId(ink::primitives::AccountId);

} // verus!
