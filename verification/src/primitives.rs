//! The plain types that accounts, assets, amounts, times and documents are named by.

use vstd::prelude::*;

verus! {

/// Identifies an account.
pub type AccountId = u64;

/// An amount of carbon credits.
pub type Balance = u64;

/// Identifies an asset of the ledger.
pub type AssetId = u64;

/// A point in time, in milliseconds since the Unix epoch.
pub type Moment = u64;

/// Identifies a document of the signing service.
pub type FileId = [u8; 16];

} // verus!
