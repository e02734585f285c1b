//! Passports of the assets that stand for carbon credits.

use vstd::prelude::*;
use crate::primitives::Balance;
use crate::project::ProjectId;

verus! {

/// The passport of an asset: it shows that the asset stands for the carbon
/// credits of one annual report of one project, and how many of them were burned.
#[derive(Debug)]
pub struct CarbonCreditsPassport<AssetId> {
    asset_id: AssetId,
    project_id: ProjectId,
    annual_report_index: u64,
    burned_amount: Balance,
}

/// The mathematical value of a passport.
pub struct CarbonCreditsPassportView<AssetId> {
    pub asset_id: AssetId,
    pub project_id: ProjectId,
    pub annual_report_index: u64,
    pub burned_amount: Balance,
}

impl<AssetId> View for CarbonCreditsPassport<AssetId> {
    type V = CarbonCreditsPassportView<AssetId>;

    closed spec fn view(&self) -> CarbonCreditsPassportView<AssetId> {
        CarbonCreditsPassportView {
            asset_id: self.asset_id,
            project_id: self.project_id,
            annual_report_index: self.annual_report_index,
            burned_amount: self.burned_amount,
        }
    }
}

impl<AssetId> CarbonCreditsPassport<AssetId> {
    /// The passport of `asset_id`, issued for the report that is number
    /// `annual_report_index` of project `project_id`, counted from one. Nothing is
    /// burned yet.
    pub fn new(asset_id: AssetId, project_id: ProjectId, annual_report_index: usize) -> (passport:
        Self)
        ensures
            passport@ == (CarbonCreditsPassportView {
                asset_id,
                project_id,
                annual_report_index: annual_report_index as u64,
                burned_amount: 0,
            }),
    {
        let annual_report_index_inner = annual_report_index as u64;

        CarbonCreditsPassport {
            asset_id,
            project_id,
            annual_report_index: annual_report_index_inner,
            burned_amount: 0,
        }
    }

    /// The project that the credits come from.
    pub fn get_project_id(&self) -> (project_id: ProjectId)
        ensures
            project_id == self@.project_id,
    {
        self.project_id
    }

    /// The asset that the passport belongs to.
    pub fn get_asset_id_ref(&self) -> (asset_id: &AssetId)
        ensures
            *asset_id == self@.asset_id,
    {
        &self.asset_id
    }

    /// The number of the report that the credits come from, counted from one.
    pub fn get_annual_report_index(&self) -> (index: u64)
        ensures
            index == self@.annual_report_index,
    {
        self.annual_report_index
    }

    /// The report's number as an index type; numbers beyond `usize` are cut to its
    /// width.
    pub fn get_last_report_index(&self) -> (index: usize)
        ensures
            self@.annual_report_index <= usize::MAX ==> index == self@.annual_report_index,
            index == self@.annual_report_index as usize,
    {
        #[verifier::truncate]
        (self.annual_report_index as usize)
    }

    /// How many credits of the asset were burned, by all holders together.
    pub fn get_burned_amount(&self) -> (burned: Balance)
        ensures
            burned == self@.burned_amount,
    {
        self.burned_amount
    }

    /// Records that `amount` more credits of the asset were burned.
    pub fn add_burned_amount(&mut self, amount: Balance)
        requires
            old(self)@.burned_amount + amount <= Balance::MAX,
        ensures
            final(self)@ == (CarbonCreditsPassportView {
                burned_amount: (old(self)@.burned_amount + amount) as Balance,
                ..old(self)@
            }),
    {
        self.burned_amount = self.burned_amount + amount;
    }
}

impl<AssetId: Copy> Clone for CarbonCreditsPassport<AssetId> {
    fn clone(&self) -> (copy: Self)
        ensures
            copy@ == self@,
    {
        CarbonCreditsPassport {
            asset_id: self.asset_id,
            project_id: self.project_id,
            annual_report_index: self.annual_report_index,
            burned_amount: self.burned_amount,
        }
    }
}

} // verus!
