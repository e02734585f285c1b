//! Standards, and the order of signatures that each of them asks for.

use vstd::prelude::*;
use crate::account::{
    RoleMask, AUDITOR_ROLE_MASK, PROJECT_OWNER_ROLE_MASK, REGISTRY_ROLE_MASK, STANDARD_ROLE_MASK,
};
use crate::annual_report::{
    AnnualReportStateMask, REPORT_AUDITOR_SIGN_PENDING, REPORT_ISSUED,
    REPORT_PROJECT_OWNER_SIGN_PENDING, REPORT_REGISTRY_SIGN_PENDING, REPORT_STANDARD_SIGN_PENDING,
};
use crate::project::{
    ProjectStateMask, AUDITOR_SIGN_PENDING, PROJECT_OWNER_SIGN_PENDING, REGISTERED,
    REGISTRY_SIGN_PENDING, STANDARD_SIGN_PENDING,
};

verus! {

/// The certification scheme that a project follows. It decides who signs, and in
/// what order.
#[derive(Clone, Copy, Debug, PartialEq, Eq, Structural)]
#[allow(non_camel_case_types)]
pub enum Standard {
    /// The project owner submits, then the auditor, the standard and the registry
    /// sign in turn.
    GOLD_STANDARD,
}

impl Default for Standard {
    fn default() -> (standard: Standard)
        ensures
            standard == Standard::GOLD_STANDARD,
    {
        Standard::GOLD_STANDARD
    }
}

impl Standard {
    /// The role whose signature a project in `state` waits for, and the state that
    /// the signature leads to. `None` where nothing is left to sign.
    pub open spec fn project_signing_step(self, state: ProjectStateMask) -> Option<
        (RoleMask, ProjectStateMask),
    > {
        match self {
            Standard::GOLD_STANDARD => {
                if state == PROJECT_OWNER_SIGN_PENDING {
                    Some((PROJECT_OWNER_ROLE_MASK, AUDITOR_SIGN_PENDING))
                } else if state == AUDITOR_SIGN_PENDING {
                    Some((AUDITOR_ROLE_MASK, STANDARD_SIGN_PENDING))
                } else if state == STANDARD_SIGN_PENDING {
                    Some((STANDARD_ROLE_MASK, REGISTRY_SIGN_PENDING))
                } else if state == REGISTRY_SIGN_PENDING {
                    Some((REGISTRY_ROLE_MASK, REGISTERED))
                } else {
                    None
                }
            },
        }
    }

    /// The role whose signature an annual report in `state` waits for, and the
    /// state that the signature leads to. `None` where nothing is left to sign.
    pub open spec fn report_signing_step(self, state: AnnualReportStateMask) -> Option<
        (RoleMask, AnnualReportStateMask),
    > {
        match self {
            Standard::GOLD_STANDARD => {
                if state == REPORT_PROJECT_OWNER_SIGN_PENDING {
                    Some((PROJECT_OWNER_ROLE_MASK, REPORT_AUDITOR_SIGN_PENDING))
                } else if state == REPORT_AUDITOR_SIGN_PENDING {
                    Some((AUDITOR_ROLE_MASK, REPORT_STANDARD_SIGN_PENDING))
                } else if state == REPORT_STANDARD_SIGN_PENDING {
                    Some((STANDARD_ROLE_MASK, REPORT_REGISTRY_SIGN_PENDING))
                } else if state == REPORT_REGISTRY_SIGN_PENDING {
                    Some((REGISTRY_ROLE_MASK, REPORT_ISSUED))
                } else {
                    None
                }
            },
        }
    }

    /// The step that a project in `state` waits for.
    pub fn project_step(&self, state: ProjectStateMask) -> (step: Option<
        (RoleMask, ProjectStateMask),
    >)
        ensures
            step == self.project_signing_step(state),
    {
        match self {
            Standard::GOLD_STANDARD => {
                if state == PROJECT_OWNER_SIGN_PENDING {
                    Some((PROJECT_OWNER_ROLE_MASK, AUDITOR_SIGN_PENDING))
                } else if state == AUDITOR_SIGN_PENDING {
                    Some((AUDITOR_ROLE_MASK, STANDARD_SIGN_PENDING))
                } else if state == STANDARD_SIGN_PENDING {
                    Some((STANDARD_ROLE_MASK, REGISTRY_SIGN_PENDING))
                } else if state == REGISTRY_SIGN_PENDING {
                    Some((REGISTRY_ROLE_MASK, REGISTERED))
                } else {
                    None
                }
            },
        }
    }

    /// The step that an annual report in `state` waits for.
    pub fn report_step(&self, state: AnnualReportStateMask) -> (step: Option<
        (RoleMask, AnnualReportStateMask),
    >)
        ensures
            step == self.report_signing_step(state),
    {
        match self {
            Standard::GOLD_STANDARD => {
                if state == REPORT_PROJECT_OWNER_SIGN_PENDING {
                    Some((PROJECT_OWNER_ROLE_MASK, REPORT_AUDITOR_SIGN_PENDING))
                } else if state == REPORT_AUDITOR_SIGN_PENDING {
                    Some((AUDITOR_ROLE_MASK, REPORT_STANDARD_SIGN_PENDING))
                } else if state == REPORT_STANDARD_SIGN_PENDING {
                    Some((STANDARD_ROLE_MASK, REPORT_REGISTRY_SIGN_PENDING))
                } else if state == REPORT_REGISTRY_SIGN_PENDING {
                    Some((REGISTRY_ROLE_MASK, REPORT_ISSUED))
                } else {
                    None
                }
            },
        }
    }
}

} // verus!
