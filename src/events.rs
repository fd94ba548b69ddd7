//! Records that the cross-contract demo announces to observers.
use vstd::prelude::*;

use crate::store::AccountId;

verus! {

/// A stored flag was flipped to `value`.
#[derive(Clone, Copy, PartialEq, Eq, Structural, Debug)]
pub struct Flipped {
    pub value: bool,
}

/// Ownership passed from `previous_owner` (none at creation) to
/// `new_owner`.
#[derive(Clone, Copy, PartialEq, Eq, Structural, Debug)]
pub struct OwnershipTransferred {
    pub previous_owner: Option<AccountId>,
    pub new_owner: AccountId,
}

} // verus!
