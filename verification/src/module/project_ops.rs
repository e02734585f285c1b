//! The operations on projects: creating them, naming their document and their signers, and
//! signing them.

use vstd::prelude::*;
use crate::account::{
    has_role, is_selected_role, RoleMask, AUDITOR_ROLE_MASK, PROJECT_OWNER_ROLE_MASK,
    STANDARD_ROLE_MASK,
};
use crate::calls::{FileCall, FileCallView};
use crate::error::Error;
use crate::event::Event;
use crate::module::{Module, ModuleView};
use crate::primitives::{AccountId, FileId};
use crate::project::{
    ProjectId, ProjectStatus, ProjectStruct, ProjectView, AUDITOR_SIGN_PENDING,
    PROJECT_OWNER_SIGN_PENDING, REGISTERED, REGISTRY_SIGN_PENDING, STANDARD_SIGN_PENDING,
};
use crate::standard::Standard;

verus! {

/// The value of a planned call on the signing service, or the error in its place.
pub open spec fn file_plan_view(plan: Result<FileCall, Error>) -> Result<FileCallView, Error> {
    match plan {
        Ok(call) => Ok(call@),
        Err(error) => Err(error),
    }
}

/// What an operation answers whose call on the signing service was planned as
/// `plan`: the error of the plan; else `FileSignFailed` where the service refused
/// the call (`done` is false); else `event`.
pub open spec fn file_call_result(plan: Result<FileCallView, Error>, done: bool, event: Event)
    -> Result<Event, Error> {
    match plan {
        Err(error) => Err(error),
        Ok(_) => if done {
            Ok(event)
        } else {
            Err(Error::FileSignFailed)
        },
    }
}

impl ProjectView {
    /// The event that reports the signature of `caller` in the role `role`.
    pub open spec fn signed_event(self, role: RoleMask, caller: AccountId) -> Event {
        if role == PROJECT_OWNER_ROLE_MASK {
            Event::ProjectSubmited(caller, self.id)
        } else if role == AUDITOR_ROLE_MASK {
            Event::ProjectSignedByAduitor(caller, self.id)
        } else if role == STANDARD_ROLE_MASK {
            Event::ProjectSignedByStandard(caller, self.id)
        } else {
            Event::ProjectSignedByRegistry(caller, self.id)
        }
    }

    /// What the project answers to `caller`, who holds the roles `caller_roles`
    /// and wants to sign.
    ///
    /// A project that waits for no signature refuses with `InvalidState`. Else the
    /// caller needs the role that the state asks for; the one who submits must be
    /// the owner, of a project that has a document; and the caller must be a
    /// required signer in that role.
    pub open spec fn sign_result(self, caller: AccountId, caller_roles: RoleMask) -> Result<
        Event,
        Error,
    > {
        match self.standard.project_signing_step(self.state) {
            None => Err(Error::InvalidState),
            Some((role, _)) => {
                if !has_role(caller_roles, role) {
                    Err(Error::missing_role(role))
                } else if role == PROJECT_OWNER_ROLE_MASK && self.owner != caller {
                    Err(Error::AccountNotOwner)
                } else if role == PROJECT_OWNER_ROLE_MASK && !self.is_ready_for_signing() {
                    Err(Error::IncorrectFileId)
                } else if !self.required_signers.contains((caller, role)) {
                    Err(Error::IncorrectProjectSigner)
                } else {
                    Ok(self.signed_event(role, caller))
                }
            },
        }
    }

    /// The project after the signature that its state waits for.
    pub open spec fn signed(self) -> ProjectView
        recommends
            self.standard.project_signing_step(self.state) is Some,
    {
        let next = self.standard.project_signing_step(self.state).unwrap().1;
        ProjectView { state: next, status: Self::status_in(next, self.status), ..self }
    }

    /// The project with `signer` among its required signers.
    pub open spec fn with_signer(self, signer: AccountId, role: RoleMask) -> ProjectView {
        ProjectView { required_signers: self.required_signers.insert((signer, role)), ..self }
    }

    /// The project without `signer` among its required signers.
    pub open spec fn without_signer(self, signer: AccountId, role: RoleMask) -> ProjectView {
        ProjectView { required_signers: self.required_signers.remove((signer, role)), ..self }
    }
}

impl ModuleView {
    /// What `create_project` answers.
    pub open spec fn create_project_result(
        self,
        caller: AccountId,
        caller_roles: RoleMask,
        file_id: Option<FileId>,
        is_file_owner: bool,
    ) -> Result<Event, Error> {
        if !has_role(caller_roles, PROJECT_OWNER_ROLE_MASK) {
            Err(Error::AccountNotOwner)
        } else if file_id is Some && !is_file_owner {
            Err(Error::AccountNotFileOwner)
        } else {
            Ok(Event::ProjectCreated(caller, (self.last_id() + 1) as ProjectId))
        }
    }

    /// The registry after a `create_project` that succeeded.
    pub open spec fn create_project_state(
        self,
        caller: AccountId,
        standard: Standard,
        file_id: Option<FileId>,
    ) -> ModuleView {
        ModuleView {
            projects: self.projects.push(
                ProjectView::new(caller, (self.last_id() + 1) as ProjectId, standard, file_id),
            ),
            ..self
        }
    }

    /// What `change_project_file_id` answers.
    pub open spec fn change_project_file_id_result(
        self,
        caller: AccountId,
        caller_roles: RoleMask,
        project_id: ProjectId,
        file_id: FileId,
        is_file_owner: bool,
    ) -> Result<Event, Error> {
        if !has_role(caller_roles, PROJECT_OWNER_ROLE_MASK) {
            Err(Error::AccountNotOwner)
        } else if !is_file_owner {
            Err(Error::AccountNotFileOwner)
        } else if !self.has_project(project_id) {
            Err(Error::ProjectNotExist)
        } else if self.project(project_id).owner != caller {
            Err(Error::AccountNotOwner)
        } else if self.project(project_id).state != PROJECT_OWNER_SIGN_PENDING {
            Err(Error::InvalidState)
        } else {
            Ok(Event::ProjectFileIdChanged(caller, project_id, file_id))
        }
    }

    /// The registry after a `change_project_file_id` that succeeded.
    pub open spec fn change_project_file_id_state(self, project_id: ProjectId, file_id: FileId)
        -> ModuleView {
        self.with_project(
            project_id,
            ProjectView { file_id: Some(file_id), ..self.project(project_id) },
        )
    }

    /// The call that `assign_project_signer` needs, or why there is none.
    pub open spec fn assign_project_signer_plan(
        self,
        caller: AccountId,
        signer: AccountId,
        signer_roles: RoleMask,
        role: RoleMask,
        project_id: ProjectId,
    ) -> Result<FileCallView, Error> {
        if !has_role(signer_roles, role) {
            Err(Error::AccountIncorrectRole)
        } else if !self.has_project(project_id) {
            Err(Error::ProjectNotExist)
        } else if self.project(project_id).owner != caller {
            Err(Error::AccountNotOwner)
        } else {
            match self.project(project_id).file_id {
                None => Err(Error::IncorrectFileId),
                Some(file_id) => Ok(FileCallView::AssignSigner { file_id, signer }),
            }
        }
    }

    /// The call that `remove_project_signer` needs, or why there is none.
    pub open spec fn remove_project_signer_plan(
        self,
        caller: AccountId,
        signer: AccountId,
        signer_roles: RoleMask,
        role: RoleMask,
        project_id: ProjectId,
        has_signed: bool,
    ) -> Result<FileCallView, Error> {
        if !has_role(signer_roles, role) {
            Err(Error::AccountIncorrectRole)
        } else if !self.has_project(project_id) {
            Err(Error::ProjectNotExist)
        } else if self.project(project_id).owner != caller {
            Err(Error::AccountNotOwner)
        } else if !self.project(project_id).required_signers.contains((signer, role)) {
            Err(Error::AccountNotGivenRoleSigner)
        } else {
            match self.project(project_id).file_id {
                None => Err(Error::IncorrectFileId),
                Some(file_id) => if has_signed {
                    Err(Error::AccountAlreadySigned)
                } else {
                    Ok(FileCallView::DeleteSigner { file_id, signer })
                },
            }
        }
    }

    /// The call that `sign_project` needs, or why there is none.
    pub open spec fn sign_project_plan(
        self,
        caller: AccountId,
        caller_roles: RoleMask,
        project_id: ProjectId,
        is_file_signer: bool,
    ) -> Result<FileCallView, Error> {
        if !self.has_project(project_id) {
            Err(Error::ProjectNotExist)
        } else {
            match self.project(project_id).file_id {
                None => Err(Error::IncorrectFileId),
                Some(file_id) => if !is_file_signer {
                    Err(Error::IncorrectProjectSigner)
                } else {
                    match self.project(project_id).sign_result(caller, caller_roles) {
                        Err(error) => Err(error),
                        Ok(_) => Ok(FileCallView::SignLatestVersion { file_id }),
                    }
                },
            }
        }
    }

    /// What `sign_project` answers: the error of the plan; else `FileSignFailed`
    /// where the signing service refused the call; else the event of the
    /// signature.
    pub open spec fn sign_project_result(
        self,
        caller: AccountId,
        caller_roles: RoleMask,
        project_id: ProjectId,
        is_file_signer: bool,
        signed: bool,
    ) -> Result<Event, Error> {
        match self.sign_project_plan(caller, caller_roles, project_id, is_file_signer) {
            Err(error) => Err(error),
            Ok(_) => if signed {
                self.project(project_id).sign_result(caller, caller_roles)
            } else {
                Err(Error::FileSignFailed)
            },
        }
    }
}

/// A project is signed exactly when the signature was planned and the signing
/// service took it: the state of the project and the signatures of its document
/// go together.
pub proof fn lemma_project_is_signed_with_its_document(
    registry: ModuleView,
    caller: AccountId,
    caller_roles: RoleMask,
    project_id: ProjectId,
    is_file_signer: bool,
    signed: bool,
)
    ensures
        registry.sign_project_result(caller, caller_roles, project_id, is_file_signer, signed)
            is Ok <==> registry.sign_project_plan(caller, caller_roles, project_id, is_file_signer)
            is Ok && signed,
        registry.sign_project_plan(caller, caller_roles, project_id, is_file_signer) is Ok ==> {
            &&& registry.has_project(project_id)
            &&& registry.sign_project_plan(caller, caller_roles, project_id, is_file_signer)
                == Ok::<FileCallView, Error>(
                FileCallView::SignLatestVersion {
                    file_id: registry.project(project_id).file_id.unwrap(),
                },
            )
        },
{
}

/// A signature takes a project exactly one state further in the order of the
/// states, and a registered project takes no signature.
pub proof fn lemma_signature_is_one_step(
    project: ProjectView,
    caller: AccountId,
    caller_roles: RoleMask,
)
    ensures
        project.sign_result(caller, caller_roles) is Ok ==> {
            &&& ProjectView::rank(project.signed().state) == ProjectView::rank(project.state) + 1
            &&& project.signed().steps_from(project)
            &&& project.state == PROJECT_OWNER_SIGN_PENDING ==> project.signed().state
                == AUDITOR_SIGN_PENDING
            &&& project.state == AUDITOR_SIGN_PENDING ==> project.signed().state
                == STANDARD_SIGN_PENDING
            &&& project.state == STANDARD_SIGN_PENDING ==> project.signed().state
                == REGISTRY_SIGN_PENDING
            &&& project.state == REGISTRY_SIGN_PENDING ==> project.signed().state == REGISTERED
        },
        project.state == REGISTERED ==> project.sign_result(caller, caller_roles) == Err::<
            Event,
            Error,
        >(Error::InvalidState),
{
}

/// Whoever lacks the role that the state of the project asks for is refused
/// with an authorization error, whoever the required signers are.
pub proof fn lemma_signature_needs_role(project: ProjectView, caller: AccountId, caller_roles: RoleMask)
    requires
        project.standard.project_signing_step(project.state) matches Some((role, _)) && !has_role(
            caller_roles,
            role,
        ),
    ensures
        project.sign_result(caller, caller_roles) matches Err(error) && error.is_authorization(),
{
}

/// Whoever holds the role that the state of the project asks for, and is no
/// required signer of the project in that role, is refused with an authorization
/// error, where the project has a document.
pub proof fn lemma_signature_needs_required_signer(
    project: ProjectView,
    caller: AccountId,
    caller_roles: RoleMask,
)
    requires
        project.is_ready_for_signing(),
        project.standard.project_signing_step(project.state) matches Some((role, _)) && has_role(
            caller_roles,
            role,
        ) && !project.required_signers.contains((caller, role)),
    ensures
        project.sign_result(caller, caller_roles) matches Err(error) && error.is_authorization(),
{
}

/// Whoever lacks the role that the state of the project asks for cannot sign:
/// `sign_project` ends with an authorization error, whoever the required signers
/// and the signers of the document are, where the project has a document.
pub proof fn lemma_sign_project_needs_role(
    registry: ModuleView,
    caller: AccountId,
    caller_roles: RoleMask,
    project_id: ProjectId,
    is_file_signer: bool,
    signed: bool,
)
    requires
        registry.has_project(project_id),
        registry.project(project_id).file_id is Some,
        registry.project(project_id).standard.project_signing_step(
            registry.project(project_id).state,
        ) matches Some((role, _)) && !has_role(caller_roles, role),
    ensures
        registry.sign_project_result(caller, caller_roles, project_id, is_file_signer, signed)
            matches Err(error) && error.is_authorization(),
{
}

/// Whoever holds the role that the state of the project asks for, and is no
/// required signer of the project in that role, cannot sign: `sign_project` ends
/// with an authorization error, where the project has a document.
pub proof fn lemma_sign_project_needs_required_signer(
    registry: ModuleView,
    caller: AccountId,
    caller_roles: RoleMask,
    project_id: ProjectId,
    is_file_signer: bool,
    signed: bool,
)
    requires
        registry.has_project(project_id),
        registry.project(project_id).file_id is Some,
        registry.project(project_id).standard.project_signing_step(
            registry.project(project_id).state,
        ) matches Some((role, _)) && has_role(caller_roles, role) && !registry.project(
            project_id,
        ).required_signers.contains((caller, role)),
    ensures
        registry.sign_project_result(caller, caller_roles, project_id, is_file_signer, signed)
            matches Err(error) && error.is_authorization(),
{
}

/// Assigning a signer twice is assigning it once: after `assign_project_signer`
/// has succeeded, the same call is planned and succeeds again, and leaves the
/// registry as it is.
pub proof fn lemma_assign_project_signer_twice(
    registry: ModuleView,
    caller: AccountId,
    signer: AccountId,
    signer_roles: RoleMask,
    role: RoleMask,
    project_id: ProjectId,
)
    requires
        registry.assign_project_signer_plan(caller, signer, signer_roles, role, project_id) is Ok,
    ensures
        ({
            let once = registry.with_project(
                project_id,
                registry.project(project_id).with_signer(signer, role),
            );
            &&& once.assign_project_signer_plan(caller, signer, signer_roles, role, project_id)
                == registry.assign_project_signer_plan(
                caller,
                signer,
                signer_roles,
                role,
                project_id,
            )
            &&& once.with_project(project_id, once.project(project_id).with_signer(signer, role))
                == once
            &&& once.project(project_id).required_signers == registry.project(
                project_id,
            ).required_signers.insert((signer, role))
        }),
{
    let once = registry.with_project(
        project_id,
        registry.project(project_id).with_signer(signer, role),
    );
    let signers = registry.project(project_id).required_signers;
    assert(signers.insert((signer, role)).insert((signer, role)) =~= signers.insert((signer, role)));
    assert(once.projects.update(project_id - 1, once.project(project_id).with_signer(signer, role))
        =~= once.projects);
}

/// A signer that has signed the document of the project cannot be removed:
/// `remove_project_signer` fails, with `AccountAlreadySigned` where nothing else
/// stands against the removal, and the registry stays as it is.
pub proof fn lemma_signed_project_signer_stays(
    registry: ModuleView,
    caller: AccountId,
    signer: AccountId,
    signer_roles: RoleMask,
    role: RoleMask,
    project_id: ProjectId,
    deleted: bool,
)
    ensures
        file_call_result(
            registry.remove_project_signer_plan(
                caller,
                signer,
                signer_roles,
                role,
                project_id,
                true,
            ),
            deleted,
            Event::ProjectSignerRemoved(caller, signer, role, project_id),
        ) is Err,
        registry.remove_project_signer_plan(caller, signer, signer_roles, role, project_id, false)
            is Ok ==> registry.remove_project_signer_plan(
            caller,
            signer,
            signer_roles,
            role,
            project_id,
            true,
        ) == Err::<FileCallView, Error>(Error::AccountAlreadySigned),
{
}

impl Module {
    /// Creates a project that `caller` owns and gives it the next id.
    ///
    /// `caller_roles` are the roles of `caller`. `is_file_owner` says whether
    /// `caller` owns the document `file_id`; without a document it is not looked
    /// at.
    pub fn create_project(
        &mut self,
        caller: AccountId,
        caller_roles: RoleMask,
        standard: Standard,
        file_id: Option<FileId>,
        is_file_owner: bool,
    ) -> (result: Result<Event, Error>)
        requires
            old(self).wf(),
            old(self)@.last_id() < ProjectId::MAX,
        ensures
            final(self).wf(),
            result == old(self)@.create_project_result(caller, caller_roles, file_id, is_file_owner),
            final(self)@ == if result is Ok {
                old(self)@.create_project_state(caller, standard, file_id)
            } else {
                old(self)@
            },
            final(self)@.steps_from(old(self)@),
    {
        if !is_selected_role(caller_roles, PROJECT_OWNER_ROLE_MASK) {
            return Err(Error::AccountNotOwner);
        }
        if file_id.is_some() && !is_file_owner {
            return Err(Error::AccountNotFileOwner);
        }
        let new_id: ProjectId = self.last_id + 1;
        let new_project = ProjectStruct::new(caller, new_id, standard, file_id);
        self.projects.push(new_project);
        self.last_id = new_id;
        assert(self@.projects =~= old(self)@.create_project_state(caller, standard, file_id).projects);
        Ok(Event::ProjectCreated(caller, new_id))
    }

    /// Gives the project a document, as long as nobody has signed it.
    ///
    /// `is_file_owner` says whether `caller` owns the document `file_id`.
    pub fn change_project_file_id(
        &mut self,
        caller: AccountId,
        caller_roles: RoleMask,
        project_id: ProjectId,
        file_id: FileId,
        is_file_owner: bool,
    ) -> (result: Result<Event, Error>)
        requires
            old(self).wf(),
        ensures
            final(self).wf(),
            result == old(self)@.change_project_file_id_result(
                caller,
                caller_roles,
                project_id,
                file_id,
                is_file_owner,
            ),
            final(self)@ == if result is Ok {
                old(self)@.change_project_file_id_state(project_id, file_id)
            } else {
                old(self)@
            },
            final(self)@.steps_from(old(self)@),
    {
        if !is_selected_role(caller_roles, PROJECT_OWNER_ROLE_MASK) {
            return Err(Error::AccountNotOwner);
        }
        if !is_file_owner {
            return Err(Error::AccountNotFileOwner);
        }
        match self.project_index(project_id) {
            None => Err(Error::ProjectNotExist),
            Some(index) => {
                let project = &self.projects[index];
                if project.owner != caller {
                    return Err(Error::AccountNotOwner);
                }
                if project.state != PROJECT_OWNER_SIGN_PENDING {
                    return Err(Error::InvalidState);
                }
                let project = &mut self.projects[index];
                project.file_id = Some(file_id);
                proof {
                    self.lemma_project_changed(old(self), project_id);
                }
                Ok(Event::ProjectFileIdChanged(caller, project_id, file_id))
            },
        }
    }

    /// Whether `account`, which holds the roles `account_roles`, holds the role
    /// `role` and is a required signer of the project in that role.
    pub fn is_correct_project_signer(
        project: &ProjectStruct,
        account: AccountId,
        account_roles: RoleMask,
        role: RoleMask,
    ) -> (correct: bool)
        ensures
            correct == (has_role(account_roles, role) && project@.required_signers.contains(
                (account, role),
            )),
    {
        is_selected_role(account_roles, role) && project.is_required_signer((account, role))
    }

    /// The event that reports the signature of `caller` in the role `role` under
    /// the project `project_id`.
    fn project_signed_event(role: RoleMask, caller: AccountId, project: &ProjectStruct) -> (event:
        Event)
        ensures
            event == project@.signed_event(role, caller),
    {
        if role == PROJECT_OWNER_ROLE_MASK {
            Event::ProjectSubmited(caller, project.id)
        } else if role == AUDITOR_ROLE_MASK {
            Event::ProjectSignedByAduitor(caller, project.id)
        } else if role == STANDARD_ROLE_MASK {
            Event::ProjectSignedByStandard(caller, project.id)
        } else {
            Event::ProjectSignedByRegistry(caller, project.id)
        }
    }

    /// Decides whether `caller`, who holds the roles `caller_roles`, may give the
    /// signature that the project waits for, and with which event. The project
    /// stays as it is.
    pub fn project_signature(
        project: &ProjectStruct,
        caller: AccountId,
        caller_roles: RoleMask,
    ) -> (result: Result<Event, Error>)
        ensures
            result == project@.sign_result(caller, caller_roles),
    {
        match project.get_standard().project_step(project.state) {
            None => Err(Error::InvalidState),
            Some((role, _)) => {
                if !is_selected_role(caller_roles, role) {
                    return Err(Error::for_missing_role(role));
                }
                if role == PROJECT_OWNER_ROLE_MASK {
                    if project.owner != caller {
                        return Err(Error::AccountNotOwner);
                    }
                    if !project.is_ready_for_signing() {
                        return Err(Error::IncorrectFileId);
                    }
                }
                if !Self::is_correct_project_signer(project, caller, caller_roles, role) {
                    return Err(Error::IncorrectProjectSigner);
                }
                Ok(Self::project_signed_event(role, caller, project))
            },
        }
    }

    /// Takes the signature of `caller`, who holds the roles `caller_roles`: the
    /// project goes to the next state of its standard, or stays as it is where the
    /// signature is refused.
    pub fn change_project_state(
        project: &mut ProjectStruct,
        caller: AccountId,
        caller_roles: RoleMask,
    ) -> (result: Result<Event, Error>)
        ensures
            result == old(project)@.sign_result(caller, caller_roles),
            final(project)@ == if result is Ok {
                old(project)@.signed()
            } else {
                old(project)@
            },
            final(project)@.steps_from(old(project)@),
    {
        let event = Self::project_signature(project, caller, caller_roles)?;
        if let Some((_, next)) = project.get_standard().project_step(project.state) {
            project.state = next;
            if next == AUDITOR_SIGN_PENDING {
                project.status = ProjectStatus::REGISTRATION;
            } else if next == REGISTERED {
                project.status = ProjectStatus::ISSUANCE;
            }
        }
        Ok(event)
    }

    /// Plans `assign_project_signer`: the call on the signing service that
    /// belongs to it, or the error that it ends with.
    pub fn plan_assign_project_signer(
        &self,
        caller: AccountId,
        signer: AccountId,
        signer_roles: RoleMask,
        role: RoleMask,
        project_id: ProjectId,
    ) -> (plan: Result<FileCall, Error>)
        requires
            self.wf(),
        ensures
            file_plan_view(plan) == self@.assign_project_signer_plan(
                caller,
                signer,
                signer_roles,
                role,
                project_id,
            ),
    {
        if !is_selected_role(signer_roles, role) {
            return Err(Error::AccountIncorrectRole);
        }
        match self.project_index(project_id) {
            None => Err(Error::ProjectNotExist),
            Some(index) => {
                let project = &self.projects[index];
                if project.owner != caller {
                    return Err(Error::AccountNotOwner);
                }
                match project.file_id {
                    None => Err(Error::IncorrectFileId),
                    Some(file_id) => Ok(FileCall::AssignSigner { file_id, signer }),
                }
            },
        }
    }

    /// Makes `signer` a required signer of the project in the role `role`.
    ///
    /// `signer_roles` are the roles of `signer`. `assigned` says whether the
    /// signing service took the call of `plan_assign_project_signer`; without a
    /// call it is not looked at.
    pub fn assign_project_signer(
        &mut self,
        caller: AccountId,
        signer: AccountId,
        signer_roles: RoleMask,
        role: RoleMask,
        project_id: ProjectId,
        assigned: bool,
    ) -> (result: Result<Event, Error>)
        requires
            old(self).wf(),
        ensures
            final(self).wf(),
            result == file_call_result(
                old(self)@.assign_project_signer_plan(caller, signer, signer_roles, role, project_id),
                assigned,
                Event::ProjectSignerAdded(caller, signer, role, project_id),
            ),
            final(self)@ == if result is Ok {
                old(self)@.with_project(
                    project_id,
                    old(self)@.project(project_id).with_signer(signer, role),
                )
            } else {
                old(self)@
            },
            final(self)@.steps_from(old(self)@),
    {
        let _ = self.plan_assign_project_signer(caller, signer, signer_roles, role, project_id)?;
        if !assigned {
            return Err(Error::FileSignFailed);
        }
        let index = (project_id - 1) as usize;
        let project = &mut self.projects[index];
        project.assign_required_signer((signer, role));
        proof {
            self.lemma_project_changed(old(self), project_id);
        }
        Ok(Event::ProjectSignerAdded(caller, signer, role, project_id))
    }

    /// Plans `remove_project_signer`: the call on the signing service that
    /// belongs to it, or the error that it ends with.
    pub fn plan_remove_project_signer(
        &self,
        caller: AccountId,
        signer: AccountId,
        signer_roles: RoleMask,
        role: RoleMask,
        project_id: ProjectId,
        has_signed: bool,
    ) -> (plan: Result<FileCall, Error>)
        requires
            self.wf(),
        ensures
            file_plan_view(plan) == self@.remove_project_signer_plan(
                caller,
                signer,
                signer_roles,
                role,
                project_id,
                has_signed,
            ),
    {
        if !is_selected_role(signer_roles, role) {
            return Err(Error::AccountIncorrectRole);
        }
        match self.project_index(project_id) {
            None => Err(Error::ProjectNotExist),
            Some(index) => {
                let project = &self.projects[index];
                if project.owner != caller {
                    return Err(Error::AccountNotOwner);
                }
                if !project.is_required_signer((signer, role)) {
                    return Err(Error::AccountNotGivenRoleSigner);
                }
                match project.file_id {
                    None => Err(Error::IncorrectFileId),
                    Some(file_id) => {
                        if has_signed {
                            return Err(Error::AccountAlreadySigned);
                        }
                        Ok(FileCall::DeleteSigner { file_id, signer })
                    },
                }
            },
        }
    }

    /// Takes `signer` in the role `role` from the required signers of the
    /// project, unless it has signed.
    ///
    /// `signer_roles` are the roles of `signer`. `has_signed` says whether
    /// `signer` has signed the project's document. `deleted` says whether the
    /// signing service took the call of `plan_remove_project_signer`; without a
    /// call it is not looked at.
    pub fn remove_project_signer(
        &mut self,
        caller: AccountId,
        signer: AccountId,
        signer_roles: RoleMask,
        role: RoleMask,
        project_id: ProjectId,
        has_signed: bool,
        deleted: bool,
    ) -> (result: Result<Event, Error>)
        requires
            old(self).wf(),
        ensures
            final(self).wf(),
            result == file_call_result(
                old(self)@.remove_project_signer_plan(
                    caller,
                    signer,
                    signer_roles,
                    role,
                    project_id,
                    has_signed,
                ),
                deleted,
                Event::ProjectSignerRemoved(caller, signer, role, project_id),
            ),
            final(self)@ == if result is Ok {
                old(self)@.with_project(
                    project_id,
                    old(self)@.project(project_id).without_signer(signer, role),
                )
            } else {
                old(self)@
            },
            final(self)@.steps_from(old(self)@),
    {
        let _ = self.plan_remove_project_signer(
            caller,
            signer,
            signer_roles,
            role,
            project_id,
            has_signed,
        )?;
        if !deleted {
            return Err(Error::FileSignFailed);
        }
        let index = (project_id - 1) as usize;
        let project = &mut self.projects[index];
        project.remove_required_signer((signer, role));
        proof {
            self.lemma_project_changed(old(self), project_id);
        }
        Ok(Event::ProjectSignerRemoved(caller, signer, role, project_id))
    }

    /// Plans `sign_project`: the call on the signing service that belongs to it,
    /// or the error that it ends with.
    pub fn plan_sign_project(
        &self,
        caller: AccountId,
        caller_roles: RoleMask,
        project_id: ProjectId,
        is_file_signer: bool,
    ) -> (plan: Result<FileCall, Error>)
        requires
            self.wf(),
        ensures
            file_plan_view(plan) == self@.sign_project_plan(
                caller,
                caller_roles,
                project_id,
                is_file_signer,
            ),
    {
        match self.project_index(project_id) {
            None => Err(Error::ProjectNotExist),
            Some(index) => {
                let project = &self.projects[index];
                match project.file_id {
                    None => Err(Error::IncorrectFileId),
                    Some(file_id) => {
                        if !is_file_signer {
                            return Err(Error::IncorrectProjectSigner);
                        }
                        let _ = Self::project_signature(project, caller, caller_roles)?;
                        Ok(FileCall::SignLatestVersion { file_id })
                    },
                }
            },
        }
    }

    /// Signs the project in the name of `caller`: the project goes to the next
    /// state.
    ///
    /// `caller_roles` are the roles of `caller`. `is_file_signer` says whether
    /// `caller` is a signer of the project's document. `signed` says whether the
    /// signing service took the call of `plan_sign_project`; without a call it is
    /// not looked at.
    pub fn sign_project(
        &mut self,
        caller: AccountId,
        caller_roles: RoleMask,
        project_id: ProjectId,
        is_file_signer: bool,
        signed: bool,
    ) -> (result: Result<Event, Error>)
        requires
            old(self).wf(),
        ensures
            final(self).wf(),
            result == old(self)@.sign_project_result(
                caller,
                caller_roles,
                project_id,
                is_file_signer,
                signed,
            ),
            final(self)@ == if result is Ok {
                old(self)@.with_project(project_id, old(self)@.project(project_id).signed())
            } else {
                old(self)@
            },
            final(self)@.steps_from(old(self)@),
    {
        let _ = self.plan_sign_project(caller, caller_roles, project_id, is_file_signer)?;
        if !signed {
            return Err(Error::FileSignFailed);
        }
        let index = (project_id - 1) as usize;
        let project = &mut self.projects[index];
        let result = Self::change_project_state(project, caller, caller_roles);
        proof {
            self.lemma_project_changed(old(self), project_id);
        }
        result
    }
}

} // verus!
