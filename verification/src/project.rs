//! Projects.

use vstd::prelude::*;
use crate::annual_report::{AnnualReportStruct, AnnualReportView, REPORT_ISSUED};
use crate::primitives::{AccountId, FileId};
use crate::required_signers::{RequiredSigner, RequiredSigners};
use crate::standard::Standard;

verus! {

/// The state of a project: one bit for the signature that is due.
pub type ProjectStateMask = u16;

/// The owner has not submitted the project.
pub const PROJECT_OWNER_SIGN_PENDING: ProjectStateMask = 1;

/// The project waits for the auditor.
pub const AUDITOR_SIGN_PENDING: ProjectStateMask = 2;

/// The project waits for the standard.
pub const STANDARD_SIGN_PENDING: ProjectStateMask = 4;

/// The project waits for an investor. No standard uses this state.
pub const INVESTOR_SIGN_PENDING: ProjectStateMask = 8;

/// The project waits for the registry.
pub const REGISTRY_SIGN_PENDING: ProjectStateMask = 16;

/// The project has all signatures and may issue annual reports.
pub const REGISTERED: ProjectStateMask = 32;

/// Identifies a project. The ids start at one and go up by one.
pub type ProjectId = u32;

/// The coarse phase of a project.
#[derive(Clone, Copy, Debug, PartialEq, Eq, Structural)]
#[allow(non_camel_case_types)]
pub enum ProjectStatus {
    /// The owner has not submitted the project.
    PREPARING,
    /// The project is submitted and collects signatures.
    REGISTRATION,
    /// The project is registered and may issue annual reports.
    ISSUANCE,
}

impl Default for ProjectStatus {
    fn default() -> (status: Self)
        ensures
            status == ProjectStatus::PREPARING,
    {
        ProjectStatus::PREPARING
    }
}

/// A carbon offset project.
#[derive(Debug)]
pub struct ProjectStruct {
    pub owner: AccountId,
    pub id: ProjectId,
    pub status: ProjectStatus,
    pub state: ProjectStateMask,
    pub file_id: Option<FileId>,
    pub annual_reports: Vec<AnnualReportStruct>,
    pub required_signers: RequiredSigners,
    pub standard: Standard,
}

/// The mathematical value of a project.
pub struct ProjectView {
    pub owner: AccountId,
    pub id: ProjectId,
    pub status: ProjectStatus,
    pub state: ProjectStateMask,
    pub file_id: Option<FileId>,
    pub annual_reports: Seq<AnnualReportView>,
    pub required_signers: Set<RequiredSigner>,
    pub standard: Standard,
}

/// The values of a list of reports, in the same order.
pub open spec fn reports_view(reports: Seq<AnnualReportStruct>) -> Seq<AnnualReportView> {
    Seq::new(reports.len(), |i: int| reports[i]@)
}

impl ProjectView {
    /// The project that `new` makes.
    pub open spec fn new(
        owner: AccountId,
        id: ProjectId,
        standard: Standard,
        file_id: Option<FileId>,
    ) -> ProjectView {
        ProjectView {
            owner,
            id,
            status: ProjectStatus::PREPARING,
            state: PROJECT_OWNER_SIGN_PENDING,
            file_id,
            annual_reports: Seq::empty(),
            required_signers: Set::empty(),
            standard,
        }
    }

    /// How many signatures a project in `state` has: its place in the order of
    /// the states. States outside the order have none.
    pub open spec fn rank(state: ProjectStateMask) -> nat {
        if state == AUDITOR_SIGN_PENDING {
            1
        } else if state == STANDARD_SIGN_PENDING {
            2
        } else if state == REGISTRY_SIGN_PENDING {
            3
        } else if state == REGISTERED {
            4
        } else {
            0
        }
    }

    /// The phase of a project once it has reached `state`, where `status` was its
    /// phase before: submitting starts the registration, the last signature starts
    /// the issuance.
    pub open spec fn status_in(state: ProjectStateMask, status: ProjectStatus) -> ProjectStatus {
        if state == AUDITOR_SIGN_PENDING {
            ProjectStatus::REGISTRATION
        } else if state == REGISTERED {
            ProjectStatus::ISSUANCE
        } else {
            status
        }
    }

    /// The project is what `before` was, or what it has become by one signature:
    /// id, owner and standard are the same, and the state is the same or the
    /// next one in the order of the standard.
    pub open spec fn steps_from(self, before: ProjectView) -> bool {
        &&& self.id == before.id
        &&& self.owner == before.owner
        &&& self.standard == before.standard
        &&& (self.state == before.state || (before.standard.project_signing_step(before.state)
            matches Some((_, next)) && self.state == next))
    }

    /// The project is what `before` has become by any number of signatures: id,
    /// owner and standard are the same, and the state is the same or a later one in
    /// the order of the states.
    pub open spec fn descends_from(self, before: ProjectView) -> bool {
        &&& self.id == before.id
        &&& self.owner == before.owner
        &&& self.standard == before.standard
        &&& (self.state == before.state || (before.standard.project_signing_step(before.state)
            is Some && Self::rank(before.state) < Self::rank(self.state)))
    }

    /// The report that was created last.
    pub open spec fn last_report(self) -> AnnualReportView
        recommends
            self.annual_reports.len() > 0,
    {
        self.annual_reports.last()
    }

    /// The project with `report` in the place of its last report.
    pub open spec fn with_last_report(self, report: AnnualReportView) -> ProjectView
        recommends
            self.annual_reports.len() > 0,
    {
        ProjectView {
            annual_reports: self.annual_reports.update(self.annual_reports.len() - 1, report),
            ..self
        }
    }

    /// Whether the project has a document.
    pub open spec fn is_ready_for_signing(self) -> bool {
        self.file_id is Some
    }

    /// Every annual report of the project is issued.
    pub open spec fn all_reports_issued(self) -> bool {
        forall|i: int|
            0 <= i < self.annual_reports.len() ==> (#[trigger] self.annual_reports[i]).state
                == REPORT_ISSUED
    }
}

impl View for ProjectStruct {
    type V = ProjectView;

    open spec fn view(&self) -> ProjectView {
        ProjectView {
            owner: self.owner,
            id: self.id,
            status: self.status,
            state: self.state,
            file_id: self.file_id,
            annual_reports: reports_view(self.annual_reports@),
            required_signers: self.required_signers@,
            standard: self.standard,
        }
    }
}

impl ProjectStruct {
    /// A project whose last report has changed, and nothing else, has the old
    /// value with that report replaced.
    pub proof fn lemma_last_report_changed(&self, before: &ProjectStruct)
        requires
            before.annual_reports@.len() > 0,
            self.annual_reports@ == before.annual_reports@.update(
                before.annual_reports@.len() - 1,
                self.annual_reports@.last(),
            ),
            self.owner == before.owner,
            self.id == before.id,
            self.status == before.status,
            self.state == before.state,
            self.file_id == before.file_id,
            self.required_signers == before.required_signers,
            self.standard == before.standard,
        ensures
            self@ == before@.with_last_report(self.annual_reports@.last()@),
    {
        assert(self@.annual_reports =~= before@.annual_reports.update(
            before.annual_reports@.len() - 1,
            self.annual_reports@.last()@,
        ));
    }

    /// A project of `owner` that nobody has signed, without reports and without required signers.
    pub fn new(owner: AccountId, id: u32, standard: Standard, file_id: Option<FileId>) -> (project:
        Self)
        ensures
            project@ == ProjectView::new(owner, id, standard, file_id),
    {
        let project = ProjectStruct {
            file_id,
            owner,
            id,
            standard,
            status: ProjectStatus::default(),
            state: PROJECT_OWNER_SIGN_PENDING,
            annual_reports: Vec::new(),
            required_signers: RequiredSigners::new(),
        };
        assert(project@.annual_reports =~= Seq::empty());
        project
    }

    /// The standard of the project.
    pub fn get_standard(&self) -> (standard: &Standard)
        ensures
            *standard == self@.standard,
    {
        &self.standard
    }

    /// Takes over `new_standard` once the signing has begun. There is one
    /// standard, so the project keeps the standard it was created with.
    pub fn set_new_standard(&mut self, new_standard: Standard)
        ensures
            final(self)@ == old(self)@,
    {
        if self.state != PROJECT_OWNER_SIGN_PENDING {
            self.standard = new_standard
        }
    }

    /// Adds `signer` to the required signers, unless it is one already.
    pub fn assign_required_signer(&mut self, signer: RequiredSigner)
        ensures
            final(self)@ == (ProjectView {
                required_signers: old(self)@.required_signers.insert(signer),
                ..old(self)@
            }),
    {
        self.required_signers.assign(signer);
    }

    /// Takes `signer` from the required signers, if it is one.
    pub fn remove_required_signer(&mut self, signer: RequiredSigner)
        ensures
            final(self)@ == (ProjectView {
                required_signers: old(self)@.required_signers.remove(signer),
                ..old(self)@
            }),
    {
        self.required_signers.remove(signer);
    }

    /// Whether `signer` is a required signer.
    pub fn is_required_signer(&self, signer: RequiredSigner) -> (required: bool)
        ensures
            required == self@.required_signers.contains(signer),
    {
        self.required_signers.contains(signer)
    }

    /// Whether the project has a document, without which nobody signs.
    pub fn is_ready_for_signing(&self) -> (ready: bool)
        ensures
            ready == self@.is_ready_for_signing(),
    {
        self.file_id.is_some()
    }

    /// Whether every annual report of the project is issued.
    pub fn all_reports_issued(&self) -> (issued: bool)
        ensures
            issued == self@.all_reports_issued(),
    {
        let mut i: usize = 0;
        while i < self.annual_reports.len()
            invariant
                i <= self.annual_reports@.len(),
                forall|j: int| 0 <= j < i ==> (#[trigger] self@.annual_reports[j]).state == REPORT_ISSUED,
            decreases self.annual_reports@.len() - i,
        {
            if self.annual_reports[i].state != REPORT_ISSUED {
                assert(self@.annual_reports[i as int].state != REPORT_ISSUED);
                return false;
            }
            i += 1;
        }
        true
    }
}

impl Clone for ProjectStruct {
    fn clone(&self) -> (copy: Self)
        ensures
            copy@ == self@,
    {
        let mut annual_reports: Vec<AnnualReportStruct> = Vec::new();
        let mut i: usize = 0;
        while i < self.annual_reports.len()
            invariant
                i <= self.annual_reports@.len(),
                annual_reports@.len() == i,
                forall|j: int| 0 <= j < i ==> (#[trigger] annual_reports@[j])@ == self.annual_reports@[j]@,
            decreases self.annual_reports@.len() - i,
        {
            annual_reports.push(self.annual_reports[i].clone());
            i += 1;
        }
        let copy = ProjectStruct {
            owner: self.owner,
            id: self.id,
            status: self.status,
            state: self.state,
            file_id: self.file_id,
            annual_reports,
            required_signers: self.required_signers.clone(),
            standard: self.standard,
        };
        assert(copy@.annual_reports =~= self@.annual_reports);
        copy
    }
}

} // verus!
