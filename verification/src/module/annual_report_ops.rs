//! The operations on the annual reports of a project, of which the last one is worked on.

use vstd::prelude::*;
use crate::account::{
    has_role, is_selected_role, RoleMask, AUDITOR_ROLE_MASK, PROJECT_OWNER_ROLE_MASK,
    STANDARD_ROLE_MASK,
};
use crate::annual_report::{
    AnnualReportStruct, AnnualReportView, CarbonCreditsMeta, CarbonCreditsMetaView, REPORT_ISSUED,
    REPORT_PROJECT_OWNER_SIGN_PENDING,
};
use crate::calls::{FileCall, FileCallView};
use crate::error::Error;
use crate::event::Event;
use crate::file_hash::H256;
use crate::module::project_ops::{file_call_result, file_plan_view};
use crate::module::{Module, ModuleView};
use crate::primitives::{AccountId, Balance, FileId, Moment};
use crate::project::{ProjectId, ProjectStruct, ProjectView, REGISTERED};

verus! {

impl AnnualReportView {
    /// The report with `signer` among its required signers.
    pub open spec fn with_signer(self, signer: AccountId, role: RoleMask) -> AnnualReportView {
        AnnualReportView { required_signers: self.required_signers.insert((signer, role)), ..self }
    }

    /// The report without `signer` among its required signers.
    pub open spec fn without_signer(self, signer: AccountId, role: RoleMask) -> AnnualReportView {
        AnnualReportView { required_signers: self.required_signers.remove((signer, role)), ..self }
    }
}

impl ProjectView {
    /// The event that reports the signature of `caller` in the role `role` under
    /// the last annual report.
    pub open spec fn report_signed_event(self, role: RoleMask, caller: AccountId) -> Event {
        if role == PROJECT_OWNER_ROLE_MASK {
            Event::AnnualReportSubmited(caller, self.id)
        } else if role == AUDITOR_ROLE_MASK {
            Event::AnnualReportSignedByAuditor(caller, self.id)
        } else if role == STANDARD_ROLE_MASK {
            Event::AnnualReportSignedByStandard(caller, self.id)
        } else {
            Event::AnnualReportSignedByRegistry(caller, self.id)
        }
    }

    /// What the project answers to `caller`, who holds the roles `caller_roles`
    /// and wants to sign the last annual report.
    ///
    /// Without a report the answer is `NoAnnualReports`, and `InvalidState` for a
    /// report that waits for no signature. Else the caller needs the role that the
    /// state of the report asks for; the one who submits must be the owner of the
    /// project; the caller must be a required signer of the report in that role;
    /// and a report is submitted with valid metadata only.
    pub open spec fn report_sign_result(self, caller: AccountId, caller_roles: RoleMask) -> Result<
        Event,
        Error,
    > {
        if self.annual_reports.len() == 0 {
            Err(Error::NoAnnualReports)
        } else {
            match self.standard.report_signing_step(self.last_report().state) {
                None => Err(Error::InvalidState),
                Some((role, _)) => {
                    if !has_role(caller_roles, role) {
                        Err(Error::missing_role(role))
                    } else if role == PROJECT_OWNER_ROLE_MASK && self.owner != caller {
                        Err(Error::AccountNotOwner)
                    } else if !self.last_report().required_signers.contains((caller, role)) {
                        Err(Error::IncorrectProjectSigner)
                    } else if role == PROJECT_OWNER_ROLE_MASK
                        && !self.last_report().carbon_credits_meta.is_valid() {
                        Err(Error::BadMetadataParameters)
                    } else {
                        Ok(self.report_signed_event(role, caller))
                    }
                },
            }
        }
    }

    /// The project after the signature that its last report waits for.
    pub open spec fn report_signed(self) -> ProjectView
        recommends
            self.annual_reports.len() > 0,
            self.standard.report_signing_step(self.last_report().state) is Some,
    {
        let next = self.standard.report_signing_step(self.last_report().state).unwrap().1;
        self.with_last_report(AnnualReportView { state: next, ..self.last_report() })
    }

    /// Why the owner `caller` may not work on the last report of the project, if
    /// so: the caller does not own the project, or there is no report.
    pub open spec fn last_report_refusal(self, caller: AccountId) -> Option<Error> {
        if self.owner != caller {
            Some(Error::AccountNotOwner)
        } else if self.annual_reports.len() == 0 {
            Some(Error::NoAnnualReports)
        } else {
            None
        }
    }

    /// Why the owner `caller` may not add a report to the project, if so: the
    /// caller does not own the project, the project is not registered, or an
    /// earlier report is not issued.
    pub open spec fn new_report_refusal(self, caller: AccountId) -> Option<Error> {
        if self.owner != caller {
            Some(Error::AccountNotOwner)
        } else if self.state != REGISTERED {
            Some(Error::ProjectNotRegistered)
        } else if !self.all_reports_issued() {
            Some(Error::NotIssuedAnnualReportsExist)
        } else {
            None
        }
    }

    /// The project with one more report.
    pub open spec fn with_new_report(self, report: AnnualReportView) -> ProjectView {
        ProjectView { annual_reports: self.annual_reports.push(report), ..self }
    }

    /// The project without its last report.
    pub open spec fn without_last_report(self) -> ProjectView
        recommends
            self.annual_reports.len() > 0,
    {
        ProjectView { annual_reports: self.annual_reports.drop_last(), ..self }
    }
}

impl ModuleView {
    /// What `create_annual_report` answers.
    pub open spec fn create_annual_report_result(
        self,
        caller: AccountId,
        caller_roles: RoleMask,
        project_id: ProjectId,
        meta: CarbonCreditsMetaView,
        is_file_owner: bool,
    ) -> Result<Event, Error> {
        if !has_role(caller_roles, PROJECT_OWNER_ROLE_MASK) {
            Err(Error::AccountNotOwner)
        } else if !is_file_owner {
            Err(Error::AccountNotFileOwner)
        } else if !self.has_project(project_id) {
            Err(Error::ProjectNotExist)
        } else if self.project(project_id).new_report_refusal(caller) is Some {
            Err(self.project(project_id).new_report_refusal(caller).unwrap())
        } else if !meta.is_valid() {
            Err(Error::BadMetadataParameters)
        } else {
            Ok(Event::AnnualReportCreated(caller, project_id))
        }
    }

    /// The call that `create_annual_report_with_file` needs, or why there is none.
    pub open spec fn create_annual_report_with_file_plan(
        self,
        caller: AccountId,
        caller_roles: RoleMask,
        project_id: ProjectId,
        file_id: FileId,
        filehash: H256,
        tag: Seq<u8>,
        meta: CarbonCreditsMetaView,
    ) -> Result<FileCallView, Error> {
        if !has_role(caller_roles, PROJECT_OWNER_ROLE_MASK) {
            Err(Error::AccountNotOwner)
        } else if !meta.is_valid() {
            Err(Error::BadMetadataParameters)
        } else if !self.has_project(project_id) {
            Err(Error::ProjectNotExist)
        } else if self.project(project_id).new_report_refusal(caller) is Some {
            Err(self.project(project_id).new_report_refusal(caller).unwrap())
        } else {
            Ok(FileCallView::CreateNewFile { tag, filehash, file_id })
        }
    }

    /// The registry with `report` as the new last report of the project.
    pub open spec fn with_new_report(self, project_id: ProjectId, report: AnnualReportView)
        -> ModuleView {
        self.with_project(project_id, self.project(project_id).with_new_report(report))
    }

    /// The registry with `report` in the place of the last report of the project.
    pub open spec fn with_last_report(self, project_id: ProjectId, report: AnnualReportView)
        -> ModuleView {
        self.with_project(project_id, self.project(project_id).with_last_report(report))
    }

    /// What an operation of the project's owner on the last report answers first:
    /// the error, if the caller may not work on it.
    pub open spec fn last_report_refusal(
        self,
        caller: AccountId,
        caller_roles: RoleMask,
        project_id: ProjectId,
    ) -> Option<Error> {
        if !has_role(caller_roles, PROJECT_OWNER_ROLE_MASK) {
            Some(Error::AccountNotOwner)
        } else if !self.has_project(project_id) {
            Some(Error::ProjectNotExist)
        } else {
            self.project(project_id).last_report_refusal(caller)
        }
    }

    /// What `change_report_carbon_credits_count` answers.
    pub open spec fn change_report_carbon_credits_count_result(
        self,
        caller: AccountId,
        caller_roles: RoleMask,
        project_id: ProjectId,
        new_carbon_credits_count: Balance,
    ) -> Result<Event, Error> {
        match self.last_report_refusal(caller, caller_roles, project_id) {
            Some(error) => Err(error),
            None => if self.project(project_id).last_report().state
                != REPORT_PROJECT_OWNER_SIGN_PENDING {
                Err(Error::InvalidState)
            } else {
                Ok(
                    Event::AnnualReportCreditsCountChanged(
                        caller,
                        project_id,
                        new_carbon_credits_count,
                    ),
                )
            },
        }
    }

    /// What `delete_last_annual_report` answers.
    pub open spec fn delete_last_annual_report_result(
        self,
        caller: AccountId,
        caller_roles: RoleMask,
        project_id: ProjectId,
    ) -> Result<Event, Error> {
        match self.last_report_refusal(caller, caller_roles, project_id) {
            Some(error) => Err(error),
            None => if self.project(project_id).last_report().state == REPORT_ISSUED {
                Err(Error::InvalidState)
            } else {
                Ok(Event::AnnualReportDeleted(caller, project_id))
            },
        }
    }

    /// The call that `assign_last_annual_report_signer` needs, or why there is
    /// none.
    pub open spec fn assign_last_annual_report_signer_plan(
        self,
        caller: AccountId,
        signer: AccountId,
        signer_roles: RoleMask,
        role: RoleMask,
        project_id: ProjectId,
    ) -> Result<FileCallView, Error> {
        if !has_role(signer_roles, role) {
            Err(Error::AccountIncorrectRole)
        } else if !self.has_project(project_id) {
            Err(Error::ProjectNotExist)
        } else {
            match self.project(project_id).last_report_refusal(caller) {
                Some(error) => Err(error),
                None => Ok(
                    FileCallView::AssignSigner {
                        file_id: self.project(project_id).last_report().file_id,
                        signer,
                    },
                ),
            }
        }
    }

    /// The call that `remove_last_annual_report_signer` needs, or why there is
    /// none.
    pub open spec fn remove_last_annual_report_signer_plan(
        self,
        caller: AccountId,
        signer: AccountId,
        signer_roles: RoleMask,
        role: RoleMask,
        project_id: ProjectId,
        has_signed: bool,
    ) -> Result<FileCallView, Error> {
        if !has_role(signer_roles, role) {
            Err(Error::AccountIncorrectRole)
        } else if !self.has_project(project_id) {
            Err(Error::ProjectNotExist)
        } else {
            match self.project(project_id).last_report_refusal(caller) {
                Some(error) => Err(error),
                None => if !self.project(project_id).last_report().required_signers.contains(
                    (signer, role),
                ) {
                    Err(Error::AccountNotGivenRoleSigner)
                } else if has_signed {
                    Err(Error::AccountAlreadySigned)
                } else {
                    Ok(
                        FileCallView::DeleteSigner {
                            file_id: self.project(project_id).last_report().file_id,
                            signer,
                        },
                    )
                },
            }
        }
    }

    /// The call that `sign_last_annual_report` needs, or why there is none.
    pub open spec fn sign_last_annual_report_plan(
        self,
        caller: AccountId,
        caller_roles: RoleMask,
        project_id: ProjectId,
        is_file_signer: bool,
    ) -> Result<FileCallView, Error> {
        if !self.has_project(project_id) {
            Err(Error::ProjectNotExist)
        } else if self.project(project_id).annual_reports.len() == 0 {
            Err(Error::NoAnnualReports)
        } else if !is_file_signer {
            Err(Error::IncorrectAnnualReportSigner)
        } else {
            match self.project(project_id).report_sign_result(caller, caller_roles) {
                Err(error) => Err(error),
                Ok(_) => Ok(
                    FileCallView::SignLatestVersion {
                        file_id: self.project(project_id).last_report().file_id,
                    },
                ),
            }
        }
    }

    /// What `sign_last_annual_report` answers: the error of the plan; else
    /// `FileSignFailed` where the signing service refused the call; else the event
    /// of the signature.
    pub open spec fn sign_last_annual_report_result(
        self,
        caller: AccountId,
        caller_roles: RoleMask,
        project_id: ProjectId,
        is_file_signer: bool,
        signed: bool,
    ) -> Result<Event, Error> {
        match self.sign_last_annual_report_plan(caller, caller_roles, project_id, is_file_signer) {
            Err(error) => Err(error),
            Ok(_) => if signed {
                self.project(project_id).report_sign_result(caller, caller_roles)
            } else {
                Err(Error::FileSignFailed)
            },
        }
    }
}

/// A report is signed exactly when the signature was planned and the signing
/// service took it: the state of the report and the signatures of its document
/// go together.
pub proof fn lemma_report_is_signed_with_its_document(
    registry: ModuleView,
    caller: AccountId,
    caller_roles: RoleMask,
    project_id: ProjectId,
    is_file_signer: bool,
    signed: bool,
)
    ensures
        registry.sign_last_annual_report_result(
            caller,
            caller_roles,
            project_id,
            is_file_signer,
            signed,
        ) is Ok <==> registry.sign_last_annual_report_plan(
            caller,
            caller_roles,
            project_id,
            is_file_signer,
        ) is Ok && signed,
        registry.sign_last_annual_report_plan(caller, caller_roles, project_id, is_file_signer)
            is Ok ==> {
            &&& registry.has_project(project_id)
            &&& registry.project(project_id).annual_reports.len() > 0
            &&& registry.sign_last_annual_report_plan(
                caller,
                caller_roles,
                project_id,
                is_file_signer,
            ) == Ok::<FileCallView, Error>(
                FileCallView::SignLatestVersion {
                    file_id: registry.project(project_id).last_report().file_id,
                },
            )
        },
{
}

/// A signature takes the last report exactly one state further in the order of
/// the states, and an issued report takes no signature.
pub proof fn lemma_report_signature_is_one_step(
    project: ProjectView,
    caller: AccountId,
    caller_roles: RoleMask,
)
    ensures
        project.report_sign_result(caller, caller_roles) is Ok ==> {
            &&& AnnualReportView::rank(project.report_signed().last_report().state)
                == AnnualReportView::rank(project.last_report().state) + 1
            &&& project.report_signed().annual_reports.len() == project.annual_reports.len()
        },
        project.annual_reports.len() > 0 && project.last_report().state == REPORT_ISSUED
            ==> project.report_sign_result(caller, caller_roles) == Err::<Event, Error>(
            Error::InvalidState,
        ),
{
}

/// Whoever lacks the role that the state of the last report asks for is refused
/// with an authorization error, whoever the required signers are.
pub proof fn lemma_report_signature_needs_role(
    project: ProjectView,
    caller: AccountId,
    caller_roles: RoleMask,
)
    requires
        project.annual_reports.len() > 0,
        project.standard.report_signing_step(project.last_report().state) matches Some((role, _))
            && !has_role(caller_roles, role),
    ensures
        project.report_sign_result(caller, caller_roles) matches Err(error)
            && error.is_authorization(),
{
}

/// Whoever holds the role that the state of the last report asks for, and is no
/// required signer of the report in that role, is refused with an authorization
/// error.
pub proof fn lemma_report_signature_needs_required_signer(
    project: ProjectView,
    caller: AccountId,
    caller_roles: RoleMask,
)
    requires
        project.annual_reports.len() > 0,
        project.standard.report_signing_step(project.last_report().state) matches Some((role, _))
            && has_role(caller_roles, role) && !project.last_report().required_signers.contains(
            (caller, role),
        ),
    ensures
        project.report_sign_result(caller, caller_roles) matches Err(error)
            && error.is_authorization(),
{
}

/// Whoever lacks the role that the state of the last report asks for cannot sign
/// it: `sign_last_annual_report` ends with an authorization error, whoever the
/// required signers and the signers of the document are.
pub proof fn lemma_sign_report_needs_role(
    registry: ModuleView,
    caller: AccountId,
    caller_roles: RoleMask,
    project_id: ProjectId,
    is_file_signer: bool,
    signed: bool,
)
    requires
        registry.has_project(project_id),
        registry.project(project_id).annual_reports.len() > 0,
        registry.project(project_id).standard.report_signing_step(
            registry.project(project_id).last_report().state,
        ) matches Some((role, _)) && !has_role(caller_roles, role),
    ensures
        registry.sign_last_annual_report_result(
            caller,
            caller_roles,
            project_id,
            is_file_signer,
            signed,
        ) matches Err(error) && error.is_authorization(),
{
}

/// Whoever holds the role that the state of the last report asks for, and is no
/// required signer of the report in that role, cannot sign it:
/// `sign_last_annual_report` ends with an authorization error.
pub proof fn lemma_sign_report_needs_required_signer(
    registry: ModuleView,
    caller: AccountId,
    caller_roles: RoleMask,
    project_id: ProjectId,
    is_file_signer: bool,
    signed: bool,
)
    requires
        registry.has_project(project_id),
        registry.project(project_id).annual_reports.len() > 0,
        registry.project(project_id).standard.report_signing_step(
            registry.project(project_id).last_report().state,
        ) matches Some((role, _)) && has_role(caller_roles, role) && !registry.project(
            project_id,
        ).last_report().required_signers.contains((caller, role)),
    ensures
        registry.sign_last_annual_report_result(
            caller,
            caller_roles,
            project_id,
            is_file_signer,
            signed,
        ) matches Err(error) && error.is_authorization(),
{
}

/// Assigning a signer of the last report twice is assigning it once: after
/// `assign_last_annual_report_signer` has succeeded, the same call is planned and
/// succeeds again, and leaves the registry as it is.
pub proof fn lemma_assign_report_signer_twice(
    registry: ModuleView,
    caller: AccountId,
    signer: AccountId,
    signer_roles: RoleMask,
    role: RoleMask,
    project_id: ProjectId,
)
    requires
        registry.assign_last_annual_report_signer_plan(
            caller,
            signer,
            signer_roles,
            role,
            project_id,
        ) is Ok,
    ensures
        ({
            let once = registry.with_last_report(
                project_id,
                registry.project(project_id).last_report().with_signer(signer, role),
            );
            &&& once.assign_last_annual_report_signer_plan(
                caller,
                signer,
                signer_roles,
                role,
                project_id,
            ) == registry.assign_last_annual_report_signer_plan(
                caller,
                signer,
                signer_roles,
                role,
                project_id,
            )
            &&& once.with_last_report(
                project_id,
                once.project(project_id).last_report().with_signer(signer, role),
            ) == once
            &&& once.project(project_id).last_report().required_signers == registry.project(
                project_id,
            ).last_report().required_signers.insert((signer, role))
        }),
{
    let project = registry.project(project_id);
    let report = project.last_report();
    let once = registry.with_last_report(project_id, report.with_signer(signer, role));
    let signers = report.required_signers;
    assert(signers.insert((signer, role)).insert((signer, role)) =~= signers.insert((signer, role)));
    let again = once.project(project_id).with_last_report(
        once.project(project_id).last_report().with_signer(signer, role),
    );
    assert(again.annual_reports =~= once.project(project_id).annual_reports);
    assert(once.projects.update(project_id - 1, again) =~= once.projects);
}

/// A signer that has signed the document of the last report cannot be removed:
/// `remove_last_annual_report_signer` fails, with `AccountAlreadySigned` where
/// nothing else stands against the removal, and the registry stays as it is.
pub proof fn lemma_signed_report_signer_stays(
    registry: ModuleView,
    caller: AccountId,
    signer: AccountId,
    signer_roles: RoleMask,
    role: RoleMask,
    project_id: ProjectId,
    deleted: bool,
)
    ensures
        file_call_result(
            registry.remove_last_annual_report_signer_plan(
                caller,
                signer,
                signer_roles,
                role,
                project_id,
                true,
            ),
            deleted,
            Event::AnnualReportSignerRemoved(caller, signer, role, project_id),
        ) is Err,
        registry.remove_last_annual_report_signer_plan(
            caller,
            signer,
            signer_roles,
            role,
            project_id,
            false,
        ) is Ok ==> registry.remove_last_annual_report_signer_plan(
            caller,
            signer,
            signer_roles,
            role,
            project_id,
            true,
        ) == Err::<FileCallView, Error>(Error::AccountAlreadySigned),
{
}

/// A report is created only for a registered project whose earlier reports are
/// all issued, with or without the creation of its document.
pub proof fn lemma_new_report_needs_registered_project(
    registry: ModuleView,
    caller: AccountId,
    caller_roles: RoleMask,
    project_id: ProjectId,
    file_id: FileId,
    filehash: H256,
    tag: Seq<u8>,
    meta: CarbonCreditsMetaView,
    is_file_owner: bool,
)
    ensures
        registry.create_annual_report_result(caller, caller_roles, project_id, meta, is_file_owner)
            is Ok ==> {
            &&& registry.has_project(project_id)
            &&& registry.project(project_id).state == REGISTERED
            &&& registry.project(project_id).all_reports_issued()
        },
        registry.create_annual_report_with_file_plan(
            caller,
            caller_roles,
            project_id,
            file_id,
            filehash,
            tag,
            meta,
        ) is Ok ==> {
            &&& registry.has_project(project_id)
            &&& registry.project(project_id).state == REGISTERED
            &&& registry.project(project_id).all_reports_issued()
        },
{
}

/// The number of credits of a report changes only while the report is in its
/// first state: `change_report_carbon_credits_count` succeeds for no other
/// report.
pub proof fn lemma_count_changes_before_signing_only(
    registry: ModuleView,
    caller: AccountId,
    caller_roles: RoleMask,
    project_id: ProjectId,
    new_carbon_credits_count: Balance,
)
    ensures
        registry.change_report_carbon_credits_count_result(
            caller,
            caller_roles,
            project_id,
            new_carbon_credits_count,
        ) is Ok ==> {
            &&& registry.has_project(project_id)
            &&& registry.project(project_id).annual_reports.len() > 0
            &&& registry.project(project_id).last_report().state
                == REPORT_PROJECT_OWNER_SIGN_PENDING
        },
{
}

impl Module {
    /// Why `caller` may not add a report to `project`, if so.
    fn new_report_refusal(project: &ProjectStruct, caller: AccountId) -> (refusal: Option<Error>)
        ensures
            refusal == project@.new_report_refusal(caller),
    {
        if project.owner != caller {
            Some(Error::AccountNotOwner)
        } else if project.state != REGISTERED {
            Some(Error::ProjectNotRegistered)
        } else if !project.all_reports_issued() {
            Some(Error::NotIssuedAnnualReportsExist)
        } else {
            None
        }
    }

    /// Appends `report` to the reports of the project `project_id`.
    fn push_report(&mut self, project_id: ProjectId, report: AnnualReportStruct)
        requires
            old(self).wf(),
            old(self)@.has_project(project_id),
        ensures
            final(self).wf(),
            final(self)@ == old(self)@.with_new_report(project_id, report@),
    {
        let index = (project_id - 1) as usize;
        let project = &mut self.projects[index];
        project.annual_reports.push(report);
        proof {
            let before = old(self).projects@[index as int];
            let after = self.projects@[index as int];
            assert(old(self)@.projects[index as int].id == project_id);
            assert(after@.annual_reports =~= before@.annual_reports.push(report@));
            self.lemma_project_changed(old(self), project_id);
        }
    }

    /// Adds an annual report to the project, with the document `file_id` and
    /// the claim of `carbon_credits_count` credits.
    ///
    /// `is_file_owner` says whether `caller` owns the document; `now` is the
    /// time of the call.
    pub fn create_annual_report(
        &mut self,
        caller: AccountId,
        caller_roles: RoleMask,
        project_id: ProjectId,
        file_id: FileId,
        carbon_credits_count: Balance,
        name: Vec<u8>,
        symbol: Vec<u8>,
        decimals: u8,
        is_file_owner: bool,
        now: Moment,
    ) -> (result: Result<Event, Error>)
        requires
            old(self).wf(),
        ensures
            final(self).wf(),
            result == old(self)@.create_annual_report_result(
                caller,
                caller_roles,
                project_id,
                CarbonCreditsMetaView { name: name@, symbol: symbol@, decimals },
                is_file_owner,
            ),
            final(self)@ == if result is Ok {
                old(self)@.with_new_report(
                    project_id,
                    AnnualReportView::new(
                        file_id,
                        carbon_credits_count,
                        now,
                        CarbonCreditsMetaView { name: name@, symbol: symbol@, decimals },
                    ),
                )
            } else {
                old(self)@
            },
            final(self)@.steps_from(old(self)@),
    {
        if !is_selected_role(caller_roles, PROJECT_OWNER_ROLE_MASK) {
            return Err(Error::AccountNotOwner);
        }
        if !is_file_owner {
            return Err(Error::AccountNotFileOwner);
        }
        match self.project_index(project_id) {
            None => Err(Error::ProjectNotExist),
            Some(index) => {
                if let Some(error) = Self::new_report_refusal(&self.projects[index], caller) {
                    return Err(error);
                }
                let meta = CarbonCreditsMeta::new(name, symbol, decimals);
                if !meta.is_metadata_valid() {
                    return Err(Error::BadMetadataParameters);
                }
                self.push_report(
                    project_id,
                    AnnualReportStruct::new(file_id, carbon_credits_count, now, meta),
                );
                Ok(Event::AnnualReportCreated(caller, project_id))
            },
        }
    }

    /// Plans `create_annual_report_with_file`: the call on the signing service
    /// that belongs to it, or the error that it ends with.
    pub fn plan_create_annual_report_with_file(
        &self,
        caller: AccountId,
        caller_roles: RoleMask,
        project_id: ProjectId,
        file_id: FileId,
        filehash: H256,
        tag: Vec<u8>,
        name: &Vec<u8>,
        symbol: &Vec<u8>,
        decimals: u8,
    ) -> (plan: Result<FileCall, Error>)
        requires
            self.wf(),
        ensures
            file_plan_view(plan) == self@.create_annual_report_with_file_plan(
                caller,
                caller_roles,
                project_id,
                file_id,
                filehash,
                tag@,
                CarbonCreditsMetaView { name: name@, symbol: symbol@, decimals },
            ),
    {
        if !is_selected_role(caller_roles, PROJECT_OWNER_ROLE_MASK) {
            return Err(Error::AccountNotOwner);
        }
        if name.is_empty() || symbol.is_empty() {
            return Err(Error::BadMetadataParameters);
        }
        match self.project_index(project_id) {
            None => Err(Error::ProjectNotExist),
            Some(index) => {
                if let Some(error) = Self::new_report_refusal(&self.projects[index], caller) {
                    return Err(error);
                }
                Ok(FileCall::CreateNewFile { tag, filehash, file_id })
            },
        }
    }

    /// Adds an annual report to the project, whose document the signing service
    /// creates in the same operation.
    ///
    /// `now` is the time of the call. `created` says whether the signing service
    /// took the call of `plan_create_annual_report_with_file`; without a call it
    /// is not looked at.
    pub fn create_annual_report_with_file(
        &mut self,
        caller: AccountId,
        caller_roles: RoleMask,
        project_id: ProjectId,
        file_id: FileId,
        filehash: H256,
        tag: Vec<u8>,
        carbon_credits_count: Balance,
        name: Vec<u8>,
        symbol: Vec<u8>,
        decimals: u8,
        now: Moment,
        created: bool,
    ) -> (result: Result<Event, Error>)
        requires
            old(self).wf(),
        ensures
            final(self).wf(),
            result == file_call_result(
                old(self)@.create_annual_report_with_file_plan(
                    caller,
                    caller_roles,
                    project_id,
                    file_id,
                    filehash,
                    tag@,
                    CarbonCreditsMetaView { name: name@, symbol: symbol@, decimals },
                ),
                created,
                Event::AnnualReportCreated(caller, project_id),
            ),
            final(self)@ == if result is Ok {
                old(self)@.with_new_report(
                    project_id,
                    AnnualReportView::new(
                        file_id,
                        carbon_credits_count,
                        now,
                        CarbonCreditsMetaView { name: name@, symbol: symbol@, decimals },
                    ),
                )
            } else {
                old(self)@
            },
            final(self)@.steps_from(old(self)@),
    {
        let _ = self.plan_create_annual_report_with_file(
            caller,
            caller_roles,
            project_id,
            file_id,
            filehash,
            tag,
            &name,
            &symbol,
            decimals,
        )?;
        if !created {
            return Err(Error::FileSignFailed);
        }
        let meta = CarbonCreditsMeta::new(name, symbol, decimals);
        self.push_report(
            project_id,
            AnnualReportStruct::new(file_id, carbon_credits_count, now, meta),
        );
        Ok(Event::AnnualReportCreated(caller, project_id))
    }

    /// Why `caller` may not work on the last report of `project`, if so.
    fn last_report_refusal(project: &ProjectStruct, caller: AccountId) -> (refusal: Option<Error>)
        ensures
            refusal == project@.last_report_refusal(caller),
    {
        if project.owner != caller {
            Some(Error::AccountNotOwner)
        } else if project.annual_reports.len() == 0 {
            Some(Error::NoAnnualReports)
        } else {
            None
        }
    }

    /// Where the project of an owner's operation on the last report stands, or
    /// the error that the operation ends with.
    fn owner_of_last_report(&self, caller: AccountId, caller_roles: RoleMask, project_id: ProjectId)
        -> (found: Result<usize, Error>)
        requires
            self.wf(),
        ensures
            match found {
                Ok(index) => self@.last_report_refusal(caller, caller_roles, project_id) is None
                    && index == project_id - 1 && index < self.projects@.len()
                    && self.projects@[index as int].annual_reports@.len() > 0,
                Err(error) => self@.last_report_refusal(caller, caller_roles, project_id) == Some(
                    error,
                ),
            },
    {
        if !is_selected_role(caller_roles, PROJECT_OWNER_ROLE_MASK) {
            return Err(Error::AccountNotOwner);
        }
        match self.project_index(project_id) {
            None => Err(Error::ProjectNotExist),
            Some(index) => match Self::last_report_refusal(&self.projects[index], caller) {
                Some(error) => Err(error),
                None => Ok(index),
            },
        }
    }

    /// Sets the number of credits that the last report claims, as long as nobody
    /// has signed the report.
    pub fn change_report_carbon_credits_count(
        &mut self,
        caller: AccountId,
        caller_roles: RoleMask,
        project_id: ProjectId,
        new_carbon_credits_count: Balance,
    ) -> (result: Result<Event, Error>)
        requires
            old(self).wf(),
        ensures
            final(self).wf(),
            result == old(self)@.change_report_carbon_credits_count_result(
                caller,
                caller_roles,
                project_id,
                new_carbon_credits_count,
            ),
            final(self)@ == if result is Ok {
                old(self)@.with_last_report(
                    project_id,
                    AnnualReportView {
                        carbon_credits_count: new_carbon_credits_count,
                        ..old(self)@.project(project_id).last_report()
                    },
                )
            } else {
                old(self)@
            },
            final(self)@.steps_from(old(self)@),
    {
        let index = self.owner_of_last_report(caller, caller_roles, project_id)?;
        let len = self.projects[index].annual_reports.len();
        if self.projects[index].annual_reports[len - 1].state != REPORT_PROJECT_OWNER_SIGN_PENDING {
            return Err(Error::InvalidState);
        }
        let project = &mut self.projects[index];
        let report = &mut project.annual_reports[len - 1];
        report.change_carbon_credits_count(new_carbon_credits_count);
        proof {
            self.projects@[index as int].lemma_last_report_changed(&old(self).projects@[index as int]);
            self.lemma_project_changed(old(self), project_id);
        }
        Ok(Event::AnnualReportCreditsCountChanged(caller, project_id, new_carbon_credits_count))
    }

    /// Deletes the last report of the project, unless it is issued.
    pub fn delete_last_annual_report(
        &mut self,
        caller: AccountId,
        caller_roles: RoleMask,
        project_id: ProjectId,
    ) -> (result: Result<Event, Error>)
        requires
            old(self).wf(),
        ensures
            final(self).wf(),
            result == old(self)@.delete_last_annual_report_result(caller, caller_roles, project_id),
            final(self)@ == if result is Ok {
                old(self)@.with_project(
                    project_id,
                    old(self)@.project(project_id).without_last_report(),
                )
            } else {
                old(self)@
            },
            final(self)@.steps_from(old(self)@),
    {
        let index = self.owner_of_last_report(caller, caller_roles, project_id)?;
        let len = self.projects[index].annual_reports.len();
        if self.projects[index].annual_reports[len - 1].state == REPORT_ISSUED {
            return Err(Error::InvalidState);
        }
        let project = &mut self.projects[index];
        project.annual_reports.remove(len - 1);
        proof {
            let before = old(self).projects@[index as int];
            let after = self.projects@[index as int];
            assert(old(self)@.projects[index as int].id == project_id);
            assert(after.annual_reports@ =~= before.annual_reports@.drop_last());
            assert(after@.annual_reports =~= before@.annual_reports.drop_last());
            self.lemma_project_changed(old(self), project_id);
        }
        Ok(Event::AnnualReportDeleted(caller, project_id))
    }

    /// Plans `assign_last_annual_report_signer`: the call on the signing service
    /// that belongs to it, or the error that it ends with.
    pub fn plan_assign_last_annual_report_signer(
        &self,
        caller: AccountId,
        signer: AccountId,
        signer_roles: RoleMask,
        role: RoleMask,
        project_id: ProjectId,
    ) -> (plan: Result<FileCall, Error>)
        requires
            self.wf(),
        ensures
            file_plan_view(plan) == self@.assign_last_annual_report_signer_plan(
                caller,
                signer,
                signer_roles,
                role,
                project_id,
            ),
    {
        if !is_selected_role(signer_roles, role) {
            return Err(Error::AccountIncorrectRole);
        }
        match self.project_index(project_id) {
            None => Err(Error::ProjectNotExist),
            Some(index) => {
                let project = &self.projects[index];
                if let Some(error) = Self::last_report_refusal(project, caller) {
                    return Err(error);
                }
                let len = project.annual_reports.len();
                Ok(FileCall::AssignSigner { file_id: project.annual_reports[len - 1].file_id, signer })
            },
        }
    }

    /// Makes `signer` a required signer of the last report in the role `role`.
    ///
    /// `signer_roles` are the roles of `signer`. `assigned` says whether the
    /// signing service took the call of `plan_assign_last_annual_report_signer`;
    /// without a call it is not looked at.
    pub fn assign_last_annual_report_signer(
        &mut self,
        caller: AccountId,
        signer: AccountId,
        signer_roles: RoleMask,
        role: RoleMask,
        project_id: ProjectId,
        assigned: bool,
    ) -> (result: Result<Event, Error>)
        requires
            old(self).wf(),
        ensures
            final(self).wf(),
            result == file_call_result(
                old(self)@.assign_last_annual_report_signer_plan(
                    caller,
                    signer,
                    signer_roles,
                    role,
                    project_id,
                ),
                assigned,
                Event::AnnualReportSignerAdded(caller, signer, role, project_id),
            ),
            final(self)@ == if result is Ok {
                old(self)@.with_last_report(
                    project_id,
                    old(self)@.project(project_id).last_report().with_signer(signer, role),
                )
            } else {
                old(self)@
            },
            final(self)@.steps_from(old(self)@),
    {
        let _ = self.plan_assign_last_annual_report_signer(
            caller,
            signer,
            signer_roles,
            role,
            project_id,
        )?;
        if !assigned {
            return Err(Error::FileSignFailed);
        }
        let index = (project_id - 1) as usize;
        let project = &mut self.projects[index];
        let len = project.annual_reports.len();
        let report = &mut project.annual_reports[len - 1];
        report.assign_required_signer((signer, role));
        proof {
            self.projects@[index as int].lemma_last_report_changed(&old(self).projects@[index as int]);
            self.lemma_project_changed(old(self), project_id);
        }
        Ok(Event::AnnualReportSignerAdded(caller, signer, role, project_id))
    }

    /// Plans `remove_last_annual_report_signer`: the call on the signing service
    /// that belongs to it, or the error that it ends with.
    pub fn plan_remove_last_annual_report_signer(
        &self,
        caller: AccountId,
        signer: AccountId,
        signer_roles: RoleMask,
        role: RoleMask,
        project_id: ProjectId,
        has_signed: bool,
    ) -> (plan: Result<FileCall, Error>)
        requires
            self.wf(),
        ensures
            file_plan_view(plan) == self@.remove_last_annual_report_signer_plan(
                caller,
                signer,
                signer_roles,
                role,
                project_id,
                has_signed,
            ),
    {
        if !is_selected_role(signer_roles, role) {
            return Err(Error::AccountIncorrectRole);
        }
        match self.project_index(project_id) {
            None => Err(Error::ProjectNotExist),
            Some(index) => {
                let project = &self.projects[index];
                if let Some(error) = Self::last_report_refusal(project, caller) {
                    return Err(error);
                }
                let len = project.annual_reports.len();
                let report = &project.annual_reports[len - 1];
                if !report.is_required_signer((signer, role)) {
                    return Err(Error::AccountNotGivenRoleSigner);
                }
                if has_signed {
                    return Err(Error::AccountAlreadySigned);
                }
                Ok(FileCall::DeleteSigner { file_id: report.file_id, signer })
            },
        }
    }

    /// Takes `signer` in the role `role` from the required signers of the last
    /// report, unless it has signed.
    ///
    /// `signer_roles` are the roles of `signer`. `has_signed` says whether
    /// `signer` has signed the report's document. `deleted` says whether the
    /// signing service took the call of `plan_remove_last_annual_report_signer`;
    /// without a call it is not looked at.
    pub fn remove_last_annual_report_signer(
        &mut self,
        caller: AccountId,
        signer: AccountId,
        signer_roles: RoleMask,
        role: RoleMask,
        project_id: ProjectId,
        has_signed: bool,
        deleted: bool,
    ) -> (result: Result<Event, Error>)
        requires
            old(self).wf(),
        ensures
            final(self).wf(),
            result == file_call_result(
                old(self)@.remove_last_annual_report_signer_plan(
                    caller,
                    signer,
                    signer_roles,
                    role,
                    project_id,
                    has_signed,
                ),
                deleted,
                Event::AnnualReportSignerRemoved(caller, signer, role, project_id),
            ),
            final(self)@ == if result is Ok {
                old(self)@.with_last_report(
                    project_id,
                    old(self)@.project(project_id).last_report().without_signer(signer, role),
                )
            } else {
                old(self)@
            },
            final(self)@.steps_from(old(self)@),
    {
        let _ = self.plan_remove_last_annual_report_signer(
            caller,
            signer,
            signer_roles,
            role,
            project_id,
            has_signed,
        )?;
        if !deleted {
            return Err(Error::FileSignFailed);
        }
        let index = (project_id - 1) as usize;
        let project = &mut self.projects[index];
        let len = project.annual_reports.len();
        let report = &mut project.annual_reports[len - 1];
        report.remove_required_signer((signer, role));
        proof {
            self.projects@[index as int].lemma_last_report_changed(&old(self).projects@[index as int]);
            self.lemma_project_changed(old(self), project_id);
        }
        Ok(Event::AnnualReportSignerRemoved(caller, signer, role, project_id))
    }

    /// Whether `account`, which holds the roles `account_roles`, holds the role
    /// `role` and is a required signer of the report in that role.
    pub fn is_correct_annual_report_signer(
        annual_report: &AnnualReportStruct,
        account: AccountId,
        account_roles: RoleMask,
        role: RoleMask,
    ) -> (correct: bool)
        ensures
            correct == (has_role(account_roles, role) && annual_report@.required_signers.contains(
                (account, role),
            )),
    {
        is_selected_role(account_roles, role) && annual_report.is_required_signer((account, role))
    }

    /// The event that reports the signature of `caller` in the role `role` under
    /// the last report of `project`.
    fn report_signed_event(role: RoleMask, caller: AccountId, project: &ProjectStruct) -> (event:
        Event)
        ensures
            event == project@.report_signed_event(role, caller),
    {
        if role == PROJECT_OWNER_ROLE_MASK {
            Event::AnnualReportSubmited(caller, project.id)
        } else if role == AUDITOR_ROLE_MASK {
            Event::AnnualReportSignedByAuditor(caller, project.id)
        } else if role == STANDARD_ROLE_MASK {
            Event::AnnualReportSignedByStandard(caller, project.id)
        } else {
            Event::AnnualReportSignedByRegistry(caller, project.id)
        }
    }

    /// Decides whether `caller`, who holds the roles `caller_roles`, may give the
    /// signature that the last report of the project waits for, and with which
    /// event. The project stays as it is.
    pub fn annual_report_signature(
        project: &ProjectStruct,
        caller: AccountId,
        caller_roles: RoleMask,
    ) -> (result: Result<Event, Error>)
        ensures
            result == project@.report_sign_result(caller, caller_roles),
    {
        let len = project.annual_reports.len();
        if len == 0 {
            return Err(Error::NoAnnualReports);
        }
        let report = &project.annual_reports[len - 1];
        match project.get_standard().report_step(report.state) {
            None => Err(Error::InvalidState),
            Some((role, _)) => {
                if !is_selected_role(caller_roles, role) {
                    return Err(Error::for_missing_role(role));
                }
                if role == PROJECT_OWNER_ROLE_MASK && project.owner != caller {
                    return Err(Error::AccountNotOwner);
                }
                if !Self::is_correct_annual_report_signer(report, caller, caller_roles, role) {
                    return Err(Error::IncorrectProjectSigner);
                }
                if role == PROJECT_OWNER_ROLE_MASK && !report.carbon_credits_meta.is_metadata_valid() {
                    return Err(Error::BadMetadataParameters);
                }
                Ok(Self::report_signed_event(role, caller, project))
            },
        }
    }

    /// Takes the signature of `caller`, who holds the roles `caller_roles`, under
    /// the last report of the project: the report goes to the next state of the
    /// project's standard, or the project stays as it is where the signature is
    /// refused.
    pub fn change_project_annual_report_state(
        project: &mut ProjectStruct,
        caller: AccountId,
        caller_roles: RoleMask,
    ) -> (result: Result<Event, Error>)
        ensures
            result == old(project)@.report_sign_result(caller, caller_roles),
            final(project)@ == if result is Ok {
                old(project)@.report_signed()
            } else {
                old(project)@
            },
    {
        let event = Self::annual_report_signature(project, caller, caller_roles)?;
        let standard = *project.get_standard();
        let len = project.annual_reports.len();
        let report = &mut project.annual_reports[len - 1];
        if let Some((_, next)) = standard.report_step(report.state) {
            report.state = next;
        }
        proof {
            project.lemma_last_report_changed(old(project));
        }
        Ok(event)
    }

    /// Plans `sign_last_annual_report`: the call on the signing service that
    /// belongs to it, or the error that it ends with.
    pub fn plan_sign_last_annual_report(
        &self,
        caller: AccountId,
        caller_roles: RoleMask,
        project_id: ProjectId,
        is_file_signer: bool,
    ) -> (plan: Result<FileCall, Error>)
        requires
            self.wf(),
        ensures
            file_plan_view(plan) == self@.sign_last_annual_report_plan(
                caller,
                caller_roles,
                project_id,
                is_file_signer,
            ),
    {
        match self.project_index(project_id) {
            None => Err(Error::ProjectNotExist),
            Some(index) => {
                let project = &self.projects[index];
                let len = project.annual_reports.len();
                if len == 0 {
                    return Err(Error::NoAnnualReports);
                }
                if !is_file_signer {
                    return Err(Error::IncorrectAnnualReportSigner);
                }
                let _ = Self::annual_report_signature(project, caller, caller_roles)?;
                Ok(FileCall::SignLatestVersion { file_id: project.annual_reports[len - 1].file_id })
            },
        }
    }

    /// Signs the last report of the project in the name of `caller`: the report
    /// goes to the next state.
    ///
    /// `caller_roles` are the roles of `caller`. `is_file_signer` says whether
    /// `caller` is a signer of the report's document. `signed` says whether the
    /// signing service took the call of `plan_sign_last_annual_report`; without a
    /// call it is not looked at.
    pub fn sign_last_annual_report(
        &mut self,
        caller: AccountId,
        caller_roles: RoleMask,
        project_id: ProjectId,
        is_file_signer: bool,
        signed: bool,
    ) -> (result: Result<Event, Error>)
        requires
            old(self).wf(),
        ensures
            final(self).wf(),
            result == old(self)@.sign_last_annual_report_result(
                caller,
                caller_roles,
                project_id,
                is_file_signer,
                signed,
            ),
            final(self)@ == if result is Ok {
                old(self)@.with_project(project_id, old(self)@.project(project_id).report_signed())
            } else {
                old(self)@
            },
            final(self)@.steps_from(old(self)@),
    {
        let _ = self.plan_sign_last_annual_report(caller, caller_roles, project_id, is_file_signer)?;
        if !signed {
            return Err(Error::FileSignFailed);
        }
        let index = (project_id - 1) as usize;
        let project = &mut self.projects[index];
        let result = Self::change_project_annual_report_state(project, caller, caller_roles);
        proof {
            self.lemma_project_changed(old(self), project_id);
        }
        result
    }
}

} // verus!
