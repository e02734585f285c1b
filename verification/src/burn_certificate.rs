//! Certificates of burned credits.

use vstd::prelude::*;

verus! {

/// How many credits of one asset an account has burned, all burns together.
#[derive(Debug, PartialEq, Eq)]
pub struct CarbonCreditsBurnCertificate<AssetId, Balance> {
    pub asset_id: AssetId,
    pub burn_amount: Balance,
}

impl<AssetId, Balance> CarbonCreditsBurnCertificate<AssetId, Balance> {
    /// The certificate that shows `burn_amount` credits of `asset_id` as burned.
    pub fn new(asset_id: AssetId, burn_amount: Balance) -> (certificate: Self)
        ensures
            certificate.asset_id == asset_id,
            certificate.burn_amount == burn_amount,
    {
        Self { asset_id, burn_amount }
    }
}

impl<AssetId: Copy, Balance: Copy> Copy for CarbonCreditsBurnCertificate<AssetId, Balance> {

}

impl<AssetId: Copy, Balance: Copy> Clone for CarbonCreditsBurnCertificate<AssetId, Balance> {
    fn clone(&self) -> (copy: Self)
        ensures
            copy == *self,
    {
        *self
    }
}

} // verus!
