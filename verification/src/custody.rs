//! Requests to the custody collaborator, which holds the assets.
//!
//! The core never moves a balance itself. It names the transfers that belong
//! to an operation; the host hands them to custody in one atomic unit with
//! the change of the pool, so that either all of it happens or none. A
//! request that is refused as it stands names no transfer at all.

use vstd::prelude::*;
use crate::address::Address;

verus! {

/// One transfer asked of custody: `amount` of an asset from one account to
/// another, authorised by an identity.
#[derive(Clone, Copy, Debug, PartialEq, Eq)]
pub struct TransferRequest {
    /// The account that is debited.
    pub from: Address,
    /// The account that is credited.
    pub to: Address,
    /// The identity whose authorisation custody must find.
    pub authority: Address,
    /// How much is moved.
    pub amount: u64,
}

} // verus!
