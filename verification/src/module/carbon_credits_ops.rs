//! The operations on carbon credits: releasing them as an asset, transferring and burning them.

use vstd::prelude::*;
use crate::account::{has_role, is_selected_role, RoleMask, PROJECT_OWNER_ROLE_MASK};
use crate::annual_report::{
    clone_bytes, AnnualReportView, CarbonCreditsMeta, CarbonCreditsMetaView,
};
use crate::burn_certificate::CarbonCreditsBurnCertificate;
use crate::calls::{
    AssetCall, AssetCallView, ReleaseOutcome, ReleasePlan, ReleasePlanView,
};
use crate::carbon_credits_passport::{CarbonCreditsPassport, CarbonCreditsPassportView};
use crate::error::Error;
use crate::event::Event;
use crate::module::{Module, ModuleView};
use crate::primitives::{AccountId, AssetId, Balance};
use crate::project::{ProjectId, ProjectStruct, ProjectView, REGISTERED};

verus! {

broadcast use vstd::std_specs::hash::group_hash_axioms;

/// The value of a planned call on the asset ledger, or the error in its place.
pub open spec fn asset_plan_view(plan: Result<AssetCall, Error>) -> Result<AssetCallView, Error> {
    match plan {
        Ok(call) => Ok(call@),
        Err(error) => Err(error),
    }
}

/// The value of the planned calls of a release, or the error in their place.
pub open spec fn release_plan_view(plan: Result<ReleasePlan, Error>) -> Result<
    ReleasePlanView,
    Error,
> {
    match plan {
        Ok(calls) => Ok(calls@),
        Err(error) => Err(error),
    }
}

/// What an operation answers whose call on the asset ledger was planned as
/// `plan`: the error of the plan; else `failure` where the ledger refused the
/// call (`done` is false); else `event`.
pub open spec fn asset_call_result(
    plan: Result<AssetCallView, Error>,
    done: bool,
    failure: Error,
    event: Event,
) -> Result<Event, Error> {
    match plan {
        Err(error) => Err(error),
        Ok(_) => if done {
            Ok(event)
        } else {
            Err(failure)
        },
    }
}

/// What a release answers whose calls were planned as `plan` and came as far as
/// `outcome`: the error of the plan; else the error that names the call that the
/// ledger refused; else `event`.
pub open spec fn release_result(
    plan: Result<ReleasePlanView, Error>,
    outcome: ReleaseOutcome,
    event: Event,
) -> Result<Event, Error> {
    match plan {
        Err(error) => Err(error),
        Ok(_) => match outcome {
            ReleaseOutcome::AssetNotCreated => Err(Error::ErrorCreatingAsset),
            ReleaseOutcome::MetadataNotSet => Err(Error::SetMetadataFailed),
            ReleaseOutcome::CreditsNotMinted => Err(Error::ErrorMintingAsset),
            ReleaseOutcome::Minted => Ok(event),
        },
    }
}

impl ProjectView {
    /// Why the owner `caller` may not release the credits of the last report, if
    /// so: the caller does not own the project, the project is not registered, it
    /// has no report, or the credits of the last report were released before.
    pub open spec fn release_refusal(self, caller: AccountId) -> Option<Error> {
        if self.owner != caller {
            Some(Error::AccountNotOwner)
        } else if self.state != REGISTERED {
            Some(Error::ProjectNotRegistered)
        } else if self.annual_reports.len() == 0 {
            Some(Error::NoAnnualReports)
        } else if self.last_report().carbon_credits_released {
            Some(Error::CCAlreadyCreated)
        } else {
            None
        }
    }

    /// The project after a release that came as far as `outcome`: the credits of
    /// the last report count as released, however far the ledger came, and the
    /// metadata have left the report once the asset was created.
    pub open spec fn released(self, outcome: ReleaseOutcome) -> ProjectView
        recommends
            self.annual_reports.len() > 0,
    {
        self.with_last_report(
            AnnualReportView {
                carbon_credits_released: true,
                carbon_credits_meta: if outcome == ReleaseOutcome::AssetNotCreated {
                    self.last_report().carbon_credits_meta
                } else {
                    CarbonCreditsMetaView::empty()
                },
                ..self.last_report()
            },
        )
    }
}

impl ModuleView {
    /// The calls that `release_carbon_credits` needs, or why there are none.
    pub open spec fn release_carbon_credits_plan(
        self,
        caller: AccountId,
        caller_roles: RoleMask,
        project_id: ProjectId,
        asset_id: AssetId,
        new_carbon_credits_holder: AccountId,
        min_balance: Balance,
    ) -> Result<ReleasePlanView, Error> {
        if !has_role(caller_roles, PROJECT_OWNER_ROLE_MASK) {
            Err(Error::AccountNotOwner)
        } else if !self.has_project(project_id) {
            Err(Error::ProjectNotExist)
        } else {
            match self.project(project_id).release_refusal(caller) {
                Some(error) => Err(error),
                None => {
                    let report = self.project(project_id).last_report();
                    Ok(
                        ReleasePlanView {
                            create: AssetCallView::Create {
                                asset_id,
                                admin: new_carbon_credits_holder,
                                max_zombies: 0,
                                min_balance,
                            },
                            set_metadata: AssetCallView::SetMetadata {
                                asset_id,
                                name: report.carbon_credits_meta.name,
                                symbol: report.carbon_credits_meta.symbol,
                                decimals: report.carbon_credits_meta.decimals,
                            },
                            mint: AssetCallView::Mint {
                                asset_id,
                                beneficiary: caller,
                                amount: report.carbon_credits_count,
                            },
                            destroy: AssetCallView::Destroy { asset_id, zombies_witness: 0 },
                        },
                    )
                },
            }
        }
    }

    /// The passport that a release of the last report of the project gives to
    /// `asset_id`.
    pub open spec fn new_passport(self, project_id: ProjectId, asset_id: AssetId)
        -> CarbonCreditsPassportView<AssetId> {
        CarbonCreditsPassportView {
            asset_id,
            project_id,
            annual_report_index: self.project(project_id).annual_reports.len() as u64,
            burned_amount: 0,
        }
    }

    /// The registry after a release that was planned and came as far as
    /// `outcome`: the project is `released`, and where the ledger took all calls,
    /// the asset has its passport.
    pub open spec fn released(self, project_id: ProjectId, asset_id: AssetId, outcome: ReleaseOutcome)
        -> ModuleView {
        ModuleView {
            projects: self.projects.update(
                project_id - 1,
                self.project(project_id).released(outcome),
            ),
            passports: if outcome == ReleaseOutcome::Minted {
                self.passports.insert(asset_id, self.new_passport(project_id, asset_id))
            } else {
                self.passports
            },
            ..self
        }
    }

    /// The call that `transfer_carbon_credits` needs, or why there is none.
    pub open spec fn transfer_carbon_credits_plan(
        self,
        asset_id: AssetId,
        new_carbon_credits_holder: AccountId,
        amount: Balance,
    ) -> Result<AssetCallView, Error> {
        if !self.passports.contains_key(asset_id) {
            Err(Error::PassportNotExist)
        } else {
            Ok(AssetCallView::Transfer { asset_id, target: new_carbon_credits_holder, amount })
        }
    }

    /// The call that `burn_carbon_credits` needs, or why there is none.
    pub open spec fn burn_carbon_credits_plan(self, asset_id: AssetId, amount: Balance, balance: Balance)
        -> Result<AssetCallView, Error> {
        if !self.passports.contains_key(asset_id) {
            Err(Error::PassportNotExist)
        } else if balance < amount {
            Err(Error::InsufficientCarbonCredits)
        } else {
            Ok(AssetCallView::BurnSelfAssets { asset_id, amount })
        }
    }

    /// The registry after `holder` has burned `amount` credits of `asset_id`: the
    /// certificate of the holder and the passport of the asset show `amount` more.
    pub open spec fn burned(self, holder: AccountId, asset_id: AssetId, amount: Balance)
        -> ModuleView
        recommends
            self.passports.contains_key(asset_id),
    {
        ModuleView {
            certificates: self.certificates.insert(
                holder,
                Self::with_burn(self.certificates_of(holder), asset_id, amount),
            ),
            passports: self.passports.insert(
                asset_id,
                CarbonCreditsPassportView {
                    burned_amount: (self.passports[asset_id].burned_amount + amount) as Balance,
                    ..self.passports[asset_id]
                },
            ),
            ..self
        }
    }
}

/// The credits of a report are released once: after a release that was planned,
/// however it ended on the ledger, no release of the same report is planned
/// again, whoever asks. The second one fails, with `CCAlreadyCreated` for the
/// owner, leaves the registry as it is, and asks for no call on the ledger.
pub proof fn lemma_release_happens_once(
    registry: ModuleView,
    caller: AccountId,
    caller_roles: RoleMask,
    project_id: ProjectId,
    asset_id: AssetId,
    new_carbon_credits_holder: AccountId,
    min_balance: Balance,
    outcome: ReleaseOutcome,
    second_caller: AccountId,
    second_caller_roles: RoleMask,
    second_asset_id: AssetId,
    second_holder: AccountId,
    second_min_balance: Balance,
    second_outcome: ReleaseOutcome,
)
    requires
        registry.release_carbon_credits_plan(
            caller,
            caller_roles,
            project_id,
            asset_id,
            new_carbon_credits_holder,
            min_balance,
        ) is Ok,
    ensures
        registry.released(project_id, asset_id, outcome).release_carbon_credits_plan(
            second_caller,
            second_caller_roles,
            project_id,
            second_asset_id,
            second_holder,
            second_min_balance,
        ) is Err,
        release_result(
            registry.released(project_id, asset_id, outcome).release_carbon_credits_plan(
                caller,
                caller_roles,
                project_id,
                second_asset_id,
                second_holder,
                second_min_balance,
            ),
            second_outcome,
            Event::CarbonCreditsMinted(caller, project_id, second_asset_id),
        ) == Err::<Event, Error>(Error::CCAlreadyCreated),
{
}

/// The sum of `amounts`.
pub open spec fn total(amounts: Seq<Balance>) -> nat
    decreases amounts.len(),
{
    if amounts.len() == 0 {
        0
    } else {
        total(amounts.drop_last()) + amounts.last() as nat
    }
}

impl ModuleView {
    /// The registry after `holder` has burned each of `amounts` of the asset, one
    /// after the other.
    pub open spec fn burned_each(self, holder: AccountId, asset_id: AssetId, amounts: Seq<Balance>)
        -> ModuleView
        decreases amounts.len(),
    {
        if amounts.len() == 0 {
            self
        } else {
            self.burned_each(holder, asset_id, amounts.drop_last()).burned(
                holder,
                asset_id,
                amounts.last(),
            )
        }
    }
}

/// A burn adds its amount to the certificate of the holder for the asset and to
/// the passport of the asset, and to nothing else.
pub proof fn lemma_burn_adds(
    registry: ModuleView,
    holder: AccountId,
    asset_id: AssetId,
    amount: Balance,
)
    requires
        registry.wf(),
        registry.passports.contains_key(asset_id),
        registry.burned_by(holder, asset_id) + amount <= Balance::MAX,
        registry.passports[asset_id].burned_amount + amount <= Balance::MAX,
    ensures
        registry.burned(holder, asset_id, amount).wf(),
        registry.burned(holder, asset_id, amount).burned_by(holder, asset_id) == registry.burned_by(
            holder,
            asset_id,
        ) + amount,
        registry.burned(holder, asset_id, amount).passports.contains_key(asset_id),
        registry.burned(holder, asset_id, amount).passports[asset_id].burned_amount
            == registry.passports[asset_id].burned_amount + amount,
        forall|other: AccountId, asset: AssetId|
            other != holder || asset != asset_id ==> registry.burned(
                holder,
                asset_id,
                amount,
            ).burned_by(other, asset) == registry.burned_by(other, asset),
{
    let held = registry.certificates_of(holder);
    let after = ModuleView::with_burn(held, asset_id, amount);
    let burned = registry.burned(holder, asset_id, amount);
    assert(ModuleView::distinct_assets(held)) by {
        if registry.certificates.contains_key(holder) {
            assert(ModuleView::distinct_assets(registry.certificates[holder]));
        }
    }
    assert(burned.certificates_of(holder) == after);
    if ModuleView::has_certificate(held, asset_id) {
        let place = ModuleView::certificate_place(held, asset_id);
        assert(after[place].asset_id == asset_id);
        assert(ModuleView::has_certificate(after, asset_id));
        let place_after = ModuleView::certificate_place(after, asset_id);
        assert(place_after == place) by {
            if place_after != place {
                assert(held[place_after].asset_id == asset_id);
                if place_after < place {
                    assert(held[place_after].asset_id != held[place].asset_id);
                } else {
                    assert(held[place].asset_id != held[place_after].asset_id);
                }
            }
        }
        assert forall|asset: AssetId| asset != asset_id implies ModuleView::burned_in(after, asset)
            == ModuleView::burned_in(held, asset) by {
            if ModuleView::has_certificate(held, asset) {
                let at = ModuleView::certificate_place(held, asset);
                assert(after[at].asset_id == asset);
                let at_after = ModuleView::certificate_place(after, asset);
                assert(held[at_after].asset_id == asset);
                if at_after < at {
                    assert(held[at_after].asset_id != held[at].asset_id);
                } else if at < at_after {
                    assert(held[at].asset_id != held[at_after].asset_id);
                }
            } else if ModuleView::has_certificate(after, asset) {
                let at_after = ModuleView::certificate_place(after, asset);
                assert(held[at_after].asset_id == asset);
            }
        }
    } else {
        assert(after[held.len() as int].asset_id == asset_id);
        assert(ModuleView::has_certificate(after, asset_id));
        let place_after = ModuleView::certificate_place(after, asset_id);
        assert(place_after == held.len()) by {
            if place_after < held.len() {
                assert(held[place_after].asset_id == asset_id);
            }
        }
        assert forall|asset: AssetId| asset != asset_id implies ModuleView::burned_in(after, asset)
            == ModuleView::burned_in(held, asset) by {
            if ModuleView::has_certificate(held, asset) {
                let at = ModuleView::certificate_place(held, asset);
                assert(after[at].asset_id == asset);
                let at_after = ModuleView::certificate_place(after, asset);
                assert(at_after < held.len());
                assert(held[at_after].asset_id == asset);
                if at_after < at {
                    assert(held[at_after].asset_id != held[at].asset_id);
                } else if at < at_after {
                    assert(held[at].asset_id != held[at_after].asset_id);
                }
            } else if ModuleView::has_certificate(after, asset) {
                let at_after = ModuleView::certificate_place(after, asset);
                assert(at_after < held.len());
                assert(held[at_after].asset_id == asset);
            }
        }
    }
    assert(ModuleView::distinct_assets(after));
    assert forall|other: AccountId, asset: AssetId| other != holder || asset != asset_id implies
        burned.burned_by(other, asset) == registry.burned_by(other, asset) by {
        if other != holder {
            assert(burned.certificates_of(other) == registry.certificates_of(other));
        }
    }
    assert forall|account: AccountId| #[trigger]
        burned.certificates.contains_key(account) implies ModuleView::distinct_assets(
        burned.certificates[account],
    ) by {
        if account != holder {
            assert(registry.certificates.contains_key(account));
        }
    }
}

/// What an account burns adds up: after burns of `amounts` of one asset, the
/// certificate of the holder for the asset and the passport of the asset show
/// the sum of the amounts more than before. Each of the burns asks the ledger to
/// burn the same amount.
pub proof fn lemma_burns_add_up(
    registry: ModuleView,
    holder: AccountId,
    asset_id: AssetId,
    amounts: Seq<Balance>,
)
    requires
        registry.wf(),
        registry.passports.contains_key(asset_id),
        registry.burned_by(holder, asset_id) + total(amounts) <= Balance::MAX,
        registry.passports[asset_id].burned_amount + total(amounts) <= Balance::MAX,
    ensures
        registry.burned_each(holder, asset_id, amounts).wf(),
        registry.burned_each(holder, asset_id, amounts).burned_by(holder, asset_id)
            == registry.burned_by(holder, asset_id) + total(amounts),
        registry.burned_each(holder, asset_id, amounts).passports.contains_key(asset_id),
        registry.burned_each(holder, asset_id, amounts).passports[asset_id].burned_amount
            == registry.passports[asset_id].burned_amount + total(amounts),
        forall|amount: Balance, balance: Balance|
            balance >= amount ==> #[trigger] registry.burn_carbon_credits_plan(
                asset_id,
                amount,
                balance,
            ) == Ok::<AssetCallView, Error>(AssetCallView::BurnSelfAssets { asset_id, amount }),
    decreases amounts.len(),
{
    if amounts.len() > 0 {
        lemma_burns_add_up(registry, holder, asset_id, amounts.drop_last());
        lemma_burn_adds(
            registry.burned_each(holder, asset_id, amounts.drop_last()),
            holder,
            asset_id,
            amounts.last(),
        );
    }
}

impl Module {
    /// Why `caller` may not release the credits of the last report of `project`,
    /// if so.
    fn release_refusal(project: &ProjectStruct, caller: AccountId) -> (refusal: Option<Error>)
        ensures
            refusal == project@.release_refusal(caller),
    {
        if project.owner != caller {
            return Some(Error::AccountNotOwner);
        }
        if project.state != REGISTERED {
            return Some(Error::ProjectNotRegistered);
        }
        let reports_len = project.annual_reports.len();
        if reports_len == 0 {
            return Some(Error::NoAnnualReports);
        }
        if project.annual_reports[reports_len - 1].is_carbon_credits_released() {
            return Some(Error::CCAlreadyCreated);
        }
        None
    }

    /// Plans `release_carbon_credits`: the calls on the asset ledger that belong
    /// to it, or the error that it ends with.
    pub fn plan_release_carbon_credits(
        &self,
        caller: AccountId,
        caller_roles: RoleMask,
        project_id: ProjectId,
        asset_id: AssetId,
        new_carbon_credits_holder: AccountId,
        min_balance: Balance,
    ) -> (plan: Result<ReleasePlan, Error>)
        requires
            self.wf(),
        ensures
            release_plan_view(plan) == self@.release_carbon_credits_plan(
                caller,
                caller_roles,
                project_id,
                asset_id,
                new_carbon_credits_holder,
                min_balance,
            ),
    {
        if !is_selected_role(caller_roles, PROJECT_OWNER_ROLE_MASK) {
            return Err(Error::AccountNotOwner);
        }
        match self.project_index(project_id) {
            None => Err(Error::ProjectNotExist),
            Some(index) => {
                let project = &self.projects[index];
                if let Some(error) = Self::release_refusal(project, caller) {
                    return Err(error);
                }
                let report = &project.annual_reports[project.annual_reports.len() - 1];
                Ok(
                    ReleasePlan {
                        create: AssetCall::Create {
                            asset_id,
                            admin: new_carbon_credits_holder,
                            max_zombies: 0,
                            min_balance,
                        },
                        set_metadata: AssetCall::SetMetadata {
                            asset_id,
                            name: clone_bytes(&report.carbon_credits_meta.name),
                            symbol: clone_bytes(&report.carbon_credits_meta.symbol),
                            decimals: report.carbon_credits_meta.decimals,
                        },
                        mint: AssetCall::Mint {
                            asset_id,
                            beneficiary: caller,
                            amount: report.carbon_credits_count(),
                        },
                        destroy: AssetCall::Destroy { asset_id, zombies_witness: 0 },
                    },
                )
            },
        }
    }

    /// Marks the credits of the last report of the project as released, and
    /// takes the metadata from the report where `asset_created` holds.
    fn mark_released(&mut self, project_id: ProjectId, asset_created: bool)
        requires
            old(self).wf(),
            old(self)@.has_project(project_id),
            old(self)@.project(project_id).annual_reports.len() > 0,
        ensures
            final(self).wf(),
            final(self)@ == old(self)@.with_project(
                project_id,
                old(self)@.project(project_id).with_last_report(
                    AnnualReportView {
                        carbon_credits_released: true,
                        carbon_credits_meta: if asset_created {
                            CarbonCreditsMetaView::empty()
                        } else {
                            old(self)@.project(project_id).last_report().carbon_credits_meta
                        },
                        ..old(self)@.project(project_id).last_report()
                    },
                ),
            ),
    {
        let index = (project_id - 1) as usize;
        let project = &mut self.projects[index];
        let reports_len = project.annual_reports.len();
        let last_annual_report = &mut project.annual_reports[reports_len - 1];
        last_annual_report.set_carbon_credits_released();
        if asset_created {
            let mut meta = CarbonCreditsMeta::default();
            std::mem::swap(&mut meta, &mut last_annual_report.carbon_credits_meta);
        }
        proof {
            self.projects@[index as int].lemma_last_report_changed(&old(self).projects@[index as int]);
            self.lemma_project_changed(old(self), project_id);
        }
    }

    /// Gives `asset_id` the passport of the last report of the project.
    fn insert_passport(&mut self, project_id: ProjectId, asset_id: AssetId)
        requires
            old(self).wf(),
            old(self)@.has_project(project_id),
        ensures
            final(self).wf(),
            final(self)@ == (ModuleView {
                passports: old(self)@.passports.insert(
                    asset_id,
                    old(self)@.new_passport(project_id, asset_id),
                ),
                ..old(self)@
            }),
    {
        let index = (project_id - 1) as usize;
        let reports_len = self.projects[index].annual_reports.len();
        if !self.passports.contains_key(&asset_id) {
            proof {
                self.passport_assets@.lemma_push_to_set_commute(asset_id);
            }
            self.passport_assets.push(asset_id);
        }
        self.passports.insert(asset_id, CarbonCreditsPassport::new(asset_id, project_id, reports_len));
        proof {
            assert(self.passport_assets@.to_set() =~= self.passports@.dom());
            assert(self@.projects =~= old(self)@.projects);
            assert(self@.certificates =~= old(self)@.certificates);
            assert(self@.passports =~= old(self)@.passports.insert(
                asset_id,
                old(self)@.new_passport(project_id, asset_id),
            ));
        }
    }

    /// Releases the credits of the last report of the project as the asset
    /// `asset_id`.
    ///
    /// `outcome` says how far the calls of `plan_release_carbon_credits` came on
    /// the ledger; without calls it is not looked at. From the moment the calls
    /// are due, the credits of the report count as released, however the calls
    /// end: a release that the ledger refused is not tried again. The asset gets
    /// its passport once the ledger has taken all calls.
    pub fn release_carbon_credits(
        &mut self,
        caller: AccountId,
        caller_roles: RoleMask,
        project_id: ProjectId,
        asset_id: AssetId,
        new_carbon_credits_holder: AccountId,
        min_balance: Balance,
        outcome: ReleaseOutcome,
    ) -> (result: Result<Event, Error>)
        requires
            old(self).wf(),
        ensures
            final(self).wf(),
            result == release_result(
                old(self)@.release_carbon_credits_plan(
                    caller,
                    caller_roles,
                    project_id,
                    asset_id,
                    new_carbon_credits_holder,
                    min_balance,
                ),
                outcome,
                Event::CarbonCreditsMinted(caller, project_id, asset_id),
            ),
            final(self)@ == if old(self)@.release_carbon_credits_plan(
                caller,
                caller_roles,
                project_id,
                asset_id,
                new_carbon_credits_holder,
                min_balance,
            ) is Ok {
                old(self)@.released(project_id, asset_id, outcome)
            } else {
                old(self)@
            },
            final(self)@.steps_from(old(self)@),
    {
        if !is_selected_role(caller_roles, PROJECT_OWNER_ROLE_MASK) {
            return Err(Error::AccountNotOwner);
        }
        match self.project_index(project_id) {
            None => Err(Error::ProjectNotExist),
            Some(index) => {
                if let Some(error) = Self::release_refusal(&self.projects[index], caller) {
                    return Err(error);
                }
                match outcome {
                    ReleaseOutcome::AssetNotCreated => {
                        self.mark_released(project_id, false);
                        Err(Error::ErrorCreatingAsset)
                    },
                    ReleaseOutcome::MetadataNotSet => {
                        self.mark_released(project_id, true);
                        Err(Error::SetMetadataFailed)
                    },
                    ReleaseOutcome::CreditsNotMinted => {
                        self.mark_released(project_id, true);
                        Err(Error::ErrorMintingAsset)
                    },
                    ReleaseOutcome::Minted => {
                        self.mark_released(project_id, true);
                        self.insert_passport(project_id, asset_id);
                        Ok(Event::CarbonCreditsMinted(caller, project_id, asset_id))
                    },
                }
            },
        }
    }

    /// Plans `transfer_carbon_credits`: the call on the asset ledger that belongs
    /// to it, or the error that it ends with.
    pub fn plan_transfer_carbon_credits(
        &self,
        asset_id: AssetId,
        new_carbon_credits_holder: AccountId,
        amount: Balance,
    ) -> (plan: Result<AssetCall, Error>)
        ensures
            asset_plan_view(plan) == self@.transfer_carbon_credits_plan(
                asset_id,
                new_carbon_credits_holder,
                amount,
            ),
    {
        if !self.passports.contains_key(&asset_id) {
            return Err(Error::PassportNotExist);
        }
        Ok(AssetCall::Transfer { asset_id, target: new_carbon_credits_holder, amount })
    }

    /// Transfers `amount` credits of the asset from `caller` to
    /// `new_carbon_credits_holder`. The registry keeps no balances and stays as
    /// it is.
    ///
    /// `transferred` says whether the ledger took the call of
    /// `plan_transfer_carbon_credits`; without a call it is not looked at.
    pub fn transfer_carbon_credits(
        &self,
        caller: AccountId,
        asset_id: AssetId,
        new_carbon_credits_holder: AccountId,
        amount: Balance,
        transferred: bool,
    ) -> (result: Result<Event, Error>)
        ensures
            result == asset_call_result(
                self@.transfer_carbon_credits_plan(asset_id, new_carbon_credits_holder, amount),
                transferred,
                Error::TransferFailed,
                Event::CarbonCreditsTransfered(caller, new_carbon_credits_holder, asset_id),
            ),
    {
        let _ = self.plan_transfer_carbon_credits(asset_id, new_carbon_credits_holder, amount)?;
        if !transferred {
            return Err(Error::TransferFailed);
        }
        Ok(Event::CarbonCreditsTransfered(caller, new_carbon_credits_holder, asset_id))
    }

    /// Plans `burn_carbon_credits`: the call on the asset ledger that belongs to
    /// it, or the error that it ends with.
    pub fn plan_burn_carbon_credits(&self, asset_id: AssetId, amount: Balance, balance: Balance) -> (plan:
        Result<AssetCall, Error>)
        ensures
            asset_plan_view(plan) == self@.burn_carbon_credits_plan(asset_id, amount, balance),
    {
        if !self.passports.contains_key(&asset_id) {
            return Err(Error::PassportNotExist);
        }
        if balance < amount {
            return Err(Error::InsufficientCarbonCredits);
        }
        Ok(AssetCall::BurnSelfAssets { asset_id, amount })
    }

    /// How many credits of `asset_id` the account `holder` has burned.
    pub fn burned_by(&self, holder: AccountId, asset_id: AssetId) -> (burned: Balance)
        requires
            self.wf(),
        ensures
            burned == self@.burned_by(holder, asset_id),
    {
        match self.burn_certificates.get(&holder) {
            None => {
                assert(!ModuleView::has_certificate(self@.certificates_of(holder), asset_id));
                0
            },
            Some(certificates) => {
                let ghost held = certificates@;
                assert(held == self@.certificates_of(holder));
                assert(ModuleView::distinct_assets(held)) by {
                    assert(ModuleView::distinct_assets(self@.certificates[holder]));
                }
                let mut i: usize = 0;
                while i < certificates.len()
                    invariant
                        i <= certificates@.len(),
                        certificates@ == held,
                        held == self@.certificates_of(holder),
                        ModuleView::distinct_assets(held),
                        forall|j: int| 0 <= j < i ==> (#[trigger] held[j]).asset_id != asset_id,
                    decreases certificates@.len() - i,
                {
                    if certificates[i].asset_id == asset_id {
                        proof {
                            assert(held[i as int].asset_id == asset_id);
                            assert(ModuleView::has_certificate(held, asset_id));
                            let place = ModuleView::certificate_place(held, asset_id);
                            assert(place == i) by {
                                if place < i {
                                    assert(held[place].asset_id != asset_id);
                                } else if place > i {
                                    assert(held[i as int].asset_id != held[place].asset_id);
                                }
                            }
                        }
                        return certificates[i].burn_amount;
                    }
                    i += 1;
                }
                assert(!ModuleView::has_certificate(held, asset_id));
                0
            },
        }
    }

    /// Whether a burn of `amount` credits of `asset_id` by `holder` can be
    /// recorded: what the certificate of the holder and the passport of the asset
    /// show after it fits their type.
    pub fn burn_fits(&self, holder: AccountId, asset_id: AssetId, amount: Balance) -> (fits: bool)
        requires
            self.wf(),
        ensures
            fits == ({
                &&& self@.burned_by(holder, asset_id) + amount <= Balance::MAX
                &&& self@.passports.contains_key(asset_id) ==> self@.passports[asset_id].burned_amount
                    + amount <= Balance::MAX
            }),
    {
        if self.burned_by(holder, asset_id) > Balance::MAX - amount {
            return false;
        }
        match self.passports.get(&asset_id) {
            Some(passport) => passport.get_burned_amount() <= Balance::MAX - amount,
            None => true,
        }
    }

    /// Adds `amount` to the certificate of `holder` for `asset_id`, which is
    /// created where the holder has none.
    fn add_to_certificate(&mut self, holder: AccountId, asset_id: AssetId, amount: Balance)
        requires
            old(self).wf(),
            old(self)@.burned_by(holder, asset_id) + amount <= Balance::MAX,
        ensures
            final(self).wf(),
            final(self)@ == (ModuleView {
                certificates: old(self)@.certificates.insert(
                    holder,
                    ModuleView::with_burn(old(self)@.certificates_of(holder), asset_id, amount),
                ),
                ..old(self)@
            }),
    {
        let mut certificates = match self.burn_certificates.remove(&holder) {
            Some(certificates) => certificates,
            None => {
                proof {
                    self.certificate_holders@.lemma_push_to_set_commute(holder);
                }
                self.certificate_holders.push(holder);
                Vec::new()
            },
        };
        let ghost held = certificates@;
        assert(held == old(self)@.certificates_of(holder));
        assert(ModuleView::distinct_assets(held)) by {
            if old(self)@.certificates.contains_key(holder) {
                assert(ModuleView::distinct_assets(old(self)@.certificates[holder]));
            }
        }
        let mut i: usize = 0;
        while i < certificates.len() && certificates[i].asset_id != asset_id
            invariant
                i <= certificates@.len(),
                certificates@ == held,
                forall|j: int| 0 <= j < i ==> (#[trigger] held[j]).asset_id != asset_id,
            decreases certificates@.len() - i,
        {
            i += 1;
        }
        if i < certificates.len() {
            proof {
                assert(ModuleView::has_certificate(held, asset_id));
                let place = ModuleView::certificate_place(held, asset_id);
                assert(place == i) by {
                    if place < i {
                        assert(held[place].asset_id != asset_id);
                    } else if place > i {
                        assert(held[i as int].asset_id != held[place].asset_id);
                    }
                }
            }
            let certificate = &mut certificates[i];
            certificate.burn_amount = certificate.burn_amount + amount;
        } else {
            proof {
                assert(!ModuleView::has_certificate(held, asset_id));
            }
            certificates.push(CarbonCreditsBurnCertificate::new(asset_id, amount));
        }
        proof {
            assert(certificates@ =~= ModuleView::with_burn(held, asset_id, amount));
            assert(ModuleView::distinct_assets(certificates@));
        }
        self.burn_certificates.insert(holder, certificates);
        proof {
            assert(self.certificate_holders@.to_set() =~= self.burn_certificates@.dom());
            assert(self@.projects =~= old(self)@.projects);
            assert(self@.passports =~= old(self)@.passports);
            assert(self@.certificates =~= old(self)@.certificates.insert(
                holder,
                ModuleView::with_burn(held, asset_id, amount),
            ));
        }
    }

    /// Adds `amount` to what the passport of `asset_id` shows as burned.
    fn add_to_passport(&mut self, asset_id: AssetId, amount: Balance)
        requires
            old(self).wf(),
            old(self)@.passports.contains_key(asset_id),
            old(self)@.passports[asset_id].burned_amount + amount <= Balance::MAX,
        ensures
            final(self).wf(),
            final(self)@ == (ModuleView {
                passports: old(self)@.passports.insert(
                    asset_id,
                    CarbonCreditsPassportView {
                        burned_amount: (old(self)@.passports[asset_id].burned_amount
                            + amount) as Balance,
                        ..old(self)@.passports[asset_id]
                    },
                ),
                ..old(self)@
            }),
    {
        if let Some(mut passport) = self.passports.remove(&asset_id) {
            passport.add_burned_amount(amount);
            self.passports.insert(asset_id, passport);
        }
        proof {
            assert(self.passport_assets@.to_set() =~= self.passports@.dom());
            assert(self@.projects =~= old(self)@.projects);
            assert(self@.certificates =~= old(self)@.certificates);
            assert(self@.passports =~= old(self)@.passports.insert(
                asset_id,
                CarbonCreditsPassportView {
                    burned_amount: (old(self)@.passports[asset_id].burned_amount + amount) as Balance,
                    ..old(self)@.passports[asset_id]
                },
            ));
        }
    }

    /// Burns `amount` credits of the asset that `caller` holds: the certificate
    /// of the caller and the passport of the asset show `amount` more.
    ///
    /// `balance` is what `caller` holds of the asset. `burned` says whether the
    /// ledger took the call of `plan_burn_carbon_credits`; without a call it is
    /// not looked at. The amounts that the certificate and the passport show
    /// after the burn must fit their type, which `burn_fits` tells.
    pub fn burn_carbon_credits(
        &mut self,
        caller: AccountId,
        asset_id: AssetId,
        amount: Balance,
        balance: Balance,
        burned: bool,
    ) -> (result: Result<Event, Error>)
        requires
            old(self).wf(),
            old(self)@.burn_carbon_credits_plan(asset_id, amount, balance) is Ok && burned ==> {
                &&& old(self)@.burned_by(caller, asset_id) + amount <= Balance::MAX
                &&& old(self)@.passports[asset_id].burned_amount + amount <= Balance::MAX
            },
        ensures
            final(self).wf(),
            result == asset_call_result(
                old(self)@.burn_carbon_credits_plan(asset_id, amount, balance),
                burned,
                Error::BurnFailed,
                Event::CarbonCreditsAssetBurned(caller, asset_id),
            ),
            final(self)@ == if result is Ok {
                old(self)@.burned(caller, asset_id, amount)
            } else {
                old(self)@
            },
            final(self)@.steps_from(old(self)@),
    {
        let _ = self.plan_burn_carbon_credits(asset_id, amount, balance)?;
        if !burned {
            return Err(Error::BurnFailed);
        }
        proof {
            lemma_burn_adds(self@, caller, asset_id, amount);
        }
        self.add_to_certificate(caller, asset_id, amount);
        self.add_to_passport(asset_id, amount);
        Ok(Event::CarbonCreditsAssetBurned(caller, asset_id))
    }

    /// Offsets `amount` credits of the asset that `caller` holds: another name
    /// for burning them, with the same certificate.
    pub fn offset_carbon_credits(
        &mut self,
        caller: AccountId,
        asset_id: AssetId,
        amount: Balance,
        balance: Balance,
        burned: bool,
    ) -> (result: Result<Event, Error>)
        requires
            old(self).wf(),
            old(self)@.burn_carbon_credits_plan(asset_id, amount, balance) is Ok && burned ==> {
                &&& old(self)@.burned_by(caller, asset_id) + amount <= Balance::MAX
                &&& old(self)@.passports[asset_id].burned_amount + amount <= Balance::MAX
            },
        ensures
            final(self).wf(),
            result == asset_call_result(
                old(self)@.burn_carbon_credits_plan(asset_id, amount, balance),
                burned,
                Error::BurnFailed,
                Event::CarbonCreditsAssetBurned(caller, asset_id),
            ),
            final(self)@ == if result is Ok {
                old(self)@.burned(caller, asset_id, amount)
            } else {
                old(self)@
            },
            final(self)@.steps_from(old(self)@),
    {
        self.burn_carbon_credits(caller, asset_id, amount, balance, burned)
    }
}

} // verus!
