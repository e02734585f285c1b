//! The events of the registry.

use vstd::prelude::*;
use crate::account::RoleMask;
use crate::primitives::{AccountId, AssetId, Balance, FileId};
use crate::project::ProjectId;
use crate::standard::Standard;

verus! {

/// What a successful operation reports. Each operation reports one event.
#[derive(Clone, Copy, Debug, PartialEq, Eq)]
pub enum Event {
    /// Project owner, project.
    ProjectCreated(AccountId, ProjectId),
    /// Project owner, project, new document.
    ProjectFileIdChanged(AccountId, ProjectId, FileId),
    /// Project owner, project, old standard, new standard.
    ProjectStandardChanged(AccountId, ProjectId, Standard, Standard),
    /// Project owner, project.
    ProjectSubmited(AccountId, ProjectId),
    /// Auditor, project.
    ProjectSignedByAduitor(AccountId, ProjectId),
    /// Account of the standard, project.
    ProjectSignedByStandard(AccountId, ProjectId),
    /// Registry, project.
    ProjectSignedByRegistry(AccountId, ProjectId),
    /// Project owner, signer, role, project.
    ProjectSignerAdded(AccountId, AccountId, RoleMask, ProjectId),
    /// Project owner, signer, role, project.
    ProjectSignerRemoved(AccountId, AccountId, RoleMask, ProjectId),
    /// Project owner, project.
    AnnualReportCreated(AccountId, ProjectId),
    /// Project owner, project.
    AnnualReportDeleted(AccountId, ProjectId),
    /// Project owner, project, new count.
    AnnualReportCreditsCountChanged(AccountId, ProjectId, Balance),
    /// Project owner, project.
    AnnualReportSubmited(AccountId, ProjectId),
    /// Auditor, project.
    AnnualReportSignedByAuditor(AccountId, ProjectId),
    /// Account of the standard, project.
    AnnualReportSignedByStandard(AccountId, ProjectId),
    /// Registry, project.
    AnnualReportSignedByRegistry(AccountId, ProjectId),
    /// Project owner, signer, role, project.
    AnnualReportSignerAdded(AccountId, AccountId, RoleMask, ProjectId),
    /// Project owner, signer, role, project.
    AnnualReportSignerRemoved(AccountId, AccountId, RoleMask, ProjectId),
    /// Project owner, project, asset.
    CarbonCreditsAssetCreated(AccountId, ProjectId, AssetId),
    /// Project owner, asset.
    CarbonCreditsMetadataChanged(AccountId, AssetId),
    /// Project owner, project, asset.
    CarbonCreditsMinted(AccountId, ProjectId, AssetId),
    /// Holder, recipient, asset.
    CarbonCreditsTransfered(AccountId, AccountId, AssetId),
    /// Holder, asset.
    CarbonCreditsAssetBurned(AccountId, AssetId),
}

} // verus!
