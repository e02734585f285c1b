//! The errors of the registry.

use vstd::prelude::*;
use crate::account::{
    RoleMask, AUDITOR_ROLE_MASK, INVESTOR_ROLE_MASK, PROJECT_OWNER_ROLE_MASK, REGISTRY_ROLE_MASK,
    STANDARD_ROLE_MASK,
};

verus! {

/// Why an operation was refused.
#[derive(Clone, Copy, Debug, PartialEq, Eq)]
pub enum Error {
    /// The project is in no state that allows the operation.
    InvalidProjectState,
    /// The account does not hold the auditor role.
    AccountNotAuditor,
    /// The account does not hold the project owner role, or does not own the project.
    AccountNotOwner,
    /// The account does not hold the standard role.
    AccountNotStandard,
    /// The account does not hold the registry role.
    AccountNotRegistry,
    /// The account does not hold the investor role.
    AccountNotInvestor,
    /// The account does not hold the role it was named with.
    AccountIncorrectRole,
    /// The account is no required signer in the given role.
    AccountNotGivenRoleSigner,
    /// The account does not own the document.
    AccountNotFileOwner,
    /// The account has signed already.
    AccountAlreadySigned,
    /// The state does not allow the operation.
    InvalidState,
    /// There is no project with this id.
    ProjectNotExist,
    /// The project is not registered.
    ProjectNotRegistered,
    /// The project has no annual report.
    NoAnnualReports,
    /// The project has an annual report that is not issued.
    NotIssuedAnnualReportsExist,
    /// The ledger did not create the asset.
    ErrorCreatingAsset,
    /// The ledger did not mint the credits.
    ErrorMintingAsset,
    /// The credits of the report were released before.
    CCAlreadyCreated,
    /// The ledger did not transfer the credits.
    TransferFailed,
    /// The ledger did not burn the credits.
    BurnFailed,
    /// The name or the symbol of the credits is empty.
    BadMetadataParameters,
    /// The ledger did not take the metadata.
    SetMetadataFailed,
    /// The annual report is not ready.
    AnnualReportNotReady,
    /// The account holds fewer credits than it wants to burn.
    InsufficientCarbonCredits,
    /// The asset has no passport.
    PassportNotExist,
    /// The passport names another project.
    BadPassportProject,
    /// The passport names another annual report.
    BadPassportAnnualReport,
    /// The account is no signer of the project's document.
    IncorrectProjectSigner,
    /// The account is no signer of the annual report's document.
    IncorrectAnnualReportSigner,
    /// The project has no document.
    IncorrectFileId,
    /// The signing service refused the call that belongs to the operation.
    FileSignFailed,
}

impl Error {
    /// The errors that say that the account may not do what it asked for: it lacks
    /// a role, does not own the project or the document, or is no signer.
    pub open spec fn is_authorization(self) -> bool {
        ||| self == Error::AccountNotAuditor
        ||| self == Error::AccountNotOwner
        ||| self == Error::AccountNotStandard
        ||| self == Error::AccountNotRegistry
        ||| self == Error::AccountNotInvestor
        ||| self == Error::AccountIncorrectRole
        ||| self == Error::AccountNotGivenRoleSigner
        ||| self == Error::AccountNotFileOwner
        ||| self == Error::IncorrectProjectSigner
        ||| self == Error::IncorrectAnnualReportSigner
    }

    /// The error for an account that lacks the role `role`.
    pub fn for_missing_role(role: RoleMask) -> (error: Error)
        ensures
            error == Error::missing_role(role),
    {
        if role == PROJECT_OWNER_ROLE_MASK {
            Error::AccountNotOwner
        } else if role == AUDITOR_ROLE_MASK {
            Error::AccountNotAuditor
        } else if role == STANDARD_ROLE_MASK {
            Error::AccountNotStandard
        } else if role == REGISTRY_ROLE_MASK {
            Error::AccountNotRegistry
        } else if role == INVESTOR_ROLE_MASK {
            Error::AccountNotInvestor
        } else {
            Error::AccountIncorrectRole
        }
    }

    /// The error for an account that lacks the role `role`: the one that names
    /// the role, or `AccountIncorrectRole` for a mask that is no single role of a
    /// signer.
    pub open spec fn missing_role(role: RoleMask) -> Error {
        if role == PROJECT_OWNER_ROLE_MASK {
            Error::AccountNotOwner
        } else if role == AUDITOR_ROLE_MASK {
            Error::AccountNotAuditor
        } else if role == STANDARD_ROLE_MASK {
            Error::AccountNotStandard
        } else if role == REGISTRY_ROLE_MASK {
            Error::AccountNotRegistry
        } else if role == INVESTOR_ROLE_MASK {
            Error::AccountNotInvestor
        } else {
            Error::AccountIncorrectRole
        }
    }
}

} // verus!
