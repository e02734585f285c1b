//! Certificates of offset credits.

use vstd::prelude::*;

verus! {

/// How many credits of one asset an account has offset, all offsets together.
#[derive(Debug, PartialEq, Eq)]
pub struct CarbonCreditsOffsetCertificate<AssetId, Balance> {
    pub asset_id: AssetId,
    pub offset_amount: Balance,
}

impl<AssetId, Balance> CarbonCreditsOffsetCertificate<AssetId, Balance> {
    /// The certificate that shows `offset_amount` credits of `asset_id` as offset.
    pub fn new(asset_id: AssetId, offset_amount: Balance) -> (certificate: Self)
        ensures
            certificate.asset_id == asset_id,
            certificate.offset_amount == offset_amount,
    {
        Self { asset_id, offset_amount }
    }
}

impl<AssetId: Copy, Balance: Copy> Copy for CarbonCreditsOffsetCertificate<AssetId, Balance> {

}

impl<AssetId: Copy, Balance: Copy> Clone for CarbonCreditsOffsetCertificate<AssetId, Balance> {
    fn clone(&self) -> (copy: Self)
        ensures
            copy == *self,
    {
        *self
    }
}

} // verus!
