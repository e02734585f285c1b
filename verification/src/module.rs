//! The registry: its state, its value, and what every operation keeps of it.

use vstd::prelude::*;
use std::collections::HashMap;
use crate::burn_certificate::CarbonCreditsBurnCertificate;
use crate::carbon_credits_passport::{CarbonCreditsPassport, CarbonCreditsPassportView};
use crate::primitives::{AccountId, AssetId, Balance};
use crate::project::{ProjectId, ProjectStruct, ProjectView};

pub mod project_ops;
pub mod annual_report_ops;
pub mod carbon_credits_ops;
pub mod parts;

verus! {

broadcast use vstd::std_specs::hash::group_hash_axioms;

/// The burn certificate of one account for one asset.
pub type BurnCertificate = CarbonCreditsBurnCertificate<AssetId, Balance>;

/// The state of the carbon credits registry: the projects, the passports of the
/// released assets, and the burn certificates of the holders.
pub struct Module {
    /// The project with id `i + 1` stands at index `i`.
    projects: Vec<ProjectStruct>,
    /// The id that was given out last; 0 before the first project.
    last_id: ProjectId,
    passports: HashMap<AssetId, CarbonCreditsPassport<AssetId>>,
    /// The assets that have a passport, in the order in which they got it.
    passport_assets: Vec<AssetId>,
    burn_certificates: HashMap<AccountId, Vec<BurnCertificate>>,
    /// The accounts that have certificates, in the order of their first burn.
    certificate_holders: Vec<AccountId>,
}

/// The mathematical value of the registry.
pub struct ModuleView {
    /// The projects in the order of their ids, which start at one.
    pub projects: Seq<ProjectView>,
    /// The passports by asset.
    pub passports: Map<AssetId, CarbonCreditsPassportView<AssetId>>,
    /// The burn certificates by holder; an account that never burned has no entry.
    pub certificates: Map<AccountId, Seq<BurnCertificate>>,
}

impl ModuleView {
    /// The registry before the first operation.
    pub open spec fn empty() -> ModuleView {
        ModuleView { projects: Seq::empty(), passports: Map::empty(), certificates: Map::empty() }
    }

    /// The id that was given out last.
    pub open spec fn last_id(self) -> nat {
        self.projects.len()
    }

    /// Whether there is a project with the id `id`.
    pub open spec fn has_project(self, id: ProjectId) -> bool {
        1 <= id <= self.projects.len()
    }

    /// The project with the id `id`.
    pub open spec fn project(self, id: ProjectId) -> ProjectView
        recommends
            self.has_project(id),
    {
        self.projects[id - 1]
    }

    /// The registry with `project` in the place of the project `id`.
    pub open spec fn with_project(self, id: ProjectId, project: ProjectView) -> ModuleView
        recommends
            self.has_project(id),
    {
        ModuleView { projects: self.projects.update(id - 1, project), ..self }
    }

    /// The certificates of `holder`, in the order of the first burn of each asset.
    pub open spec fn certificates_of(self, holder: AccountId) -> Seq<BurnCertificate> {
        if self.certificates.contains_key(holder) {
            self.certificates[holder]
        } else {
            Seq::empty()
        }
    }

    /// Whether `certificates` holds a certificate for `asset`.
    pub open spec fn has_certificate(certificates: Seq<BurnCertificate>, asset: AssetId) -> bool {
        exists|i: int| 0 <= i < certificates.len() && (#[trigger] certificates[i]).asset_id == asset
    }

    /// The place of the certificate for `asset` in `certificates`.
    pub open spec fn certificate_place(certificates: Seq<BurnCertificate>, asset: AssetId) -> int
        recommends
            Self::has_certificate(certificates, asset),
    {
        choose|i: int| 0 <= i < certificates.len() && (#[trigger] certificates[i]).asset_id == asset
    }

    /// How many credits of `asset` the certificates show as burned; nothing where
    /// there is no certificate for it.
    pub open spec fn burned_in(certificates: Seq<BurnCertificate>, asset: AssetId) -> nat {
        if Self::has_certificate(certificates, asset) {
            certificates[Self::certificate_place(certificates, asset)].burn_amount as nat
        } else {
            0
        }
    }

    /// How many credits of `asset` the account `holder` has burned.
    pub open spec fn burned_by(self, holder: AccountId, asset: AssetId) -> nat {
        Self::burned_in(self.certificates_of(holder), asset)
    }

    /// The certificates after a burn of `amount` credits of `asset`: the
    /// certificate for the asset shows `amount` more, and a first burn adds a
    /// certificate at the end.
    pub open spec fn with_burn(certificates: Seq<BurnCertificate>, asset: AssetId, amount: Balance)
        -> Seq<BurnCertificate> {
        if Self::has_certificate(certificates, asset) {
            let place = Self::certificate_place(certificates, asset);
            certificates.update(
                place,
                CarbonCreditsBurnCertificate {
                    asset_id: asset,
                    burn_amount: (certificates[place].burn_amount + amount) as Balance,
                },
            )
        } else {
            certificates.push(CarbonCreditsBurnCertificate { asset_id: asset, burn_amount: amount })
        }
    }

    /// No asset occurs twice in `certificates`.
    pub open spec fn distinct_assets(certificates: Seq<BurnCertificate>) -> bool {
        forall|i: int, j: int|
            0 <= i < j < certificates.len() ==> (#[trigger] certificates[i]).asset_id != (
            #[trigger] certificates[j]).asset_id
    }

    /// What every operation keeps of the registry `before` it: no project leaves,
    /// and each project keeps its id, its owner and its standard, and either keeps
    /// its state or has taken the one step that its standard allows; no asset
    /// loses its passport; and no certificate shows less than it did.
    pub open spec fn steps_from(self, before: ModuleView) -> bool {
        &&& before.projects.len() <= self.projects.len()
        &&& forall|i: int|
            0 <= i < before.projects.len() ==> (#[trigger] self.projects[i]).steps_from(
                before.projects[i],
            )
        &&& forall|asset: AssetId|
            before.passports.contains_key(asset) ==> #[trigger] self.passports.contains_key(asset)
        &&& forall|holder: AccountId, asset: AssetId|
            before.burned_by(holder, asset) <= #[trigger] self.burned_by(holder, asset)
    }

    /// The ids are the places in the list, each passport names the asset that it
    /// stands under, and no holder has two certificates for one asset.
    pub open spec fn wf(self) -> bool {
        &&& self.projects.len() <= ProjectId::MAX
        &&& forall|i: int| 0 <= i < self.projects.len() ==> (#[trigger] self.projects[i]).id == i + 1
        &&& forall|asset: AssetId| #[trigger]
            self.passports.contains_key(asset) ==> self.passports[asset].asset_id == asset
        &&& forall|holder: AccountId| #[trigger]
            self.certificates.contains_key(holder) ==> Self::distinct_assets(
                self.certificates[holder],
            )
    }
}

/// Whatever operations lead from one registry to a later one, each project of
/// the earlier registry is still there, with the id, the owner and the standard it
/// had, and in the state it had or in a later state of the order.
///
/// `trace` holds the registry before the first operation and after each
/// operation.
pub proof fn lemma_projects_only_advance(trace: Seq<ModuleView>, from: int, to: int, index: int)
    requires
        forall|k: int| 0 <= k < trace.len() - 1 ==> (#[trigger] trace[k + 1]).steps_from(trace[k]),
        0 <= from <= to < trace.len(),
        0 <= index < trace[from].projects.len(),
    ensures
        index < trace[to].projects.len(),
        trace[to].projects[index].descends_from(trace[from].projects[index]),
    decreases to - from,
{
    if from < to {
        lemma_projects_only_advance(trace, from, to - 1, index);
        assert(trace[to - 1 + 1].steps_from(trace[to - 1]));
        assert(trace[to].projects[index].steps_from(trace[to - 1].projects[index]));
    }
}

/// Whatever operations lead from one registry to a later one, an asset that had
/// a passport has one, and no certificate shows less in the later registry than in
/// the earlier one.
///
/// `trace` holds the registry before the first operation and after each
/// operation.
pub proof fn lemma_certificates_only_grow(
    trace: Seq<ModuleView>,
    from: int,
    to: int,
    holder: AccountId,
    asset: AssetId,
)
    requires
        forall|k: int| 0 <= k < trace.len() - 1 ==> (#[trigger] trace[k + 1]).steps_from(trace[k]),
        0 <= from <= to < trace.len(),
    ensures
        trace[from].passports.contains_key(asset) ==> trace[to].passports.contains_key(asset),
        trace[from].burned_by(holder, asset) <= trace[to].burned_by(holder, asset),
    decreases to - from,
{
    if from < to {
        lemma_certificates_only_grow(trace, from, to - 1, holder, asset);
        assert(trace[to - 1 + 1].steps_from(trace[to - 1]));
        assert(trace[to - 1].burned_by(holder, asset) <= trace[to].burned_by(holder, asset));
        assert(trace[to - 1].passports.contains_key(asset) ==> trace[to].passports.contains_key(
            asset,
        ));
    }
}

/// A copy of `certificates`.
pub fn clone_certificates(certificates: &Vec<BurnCertificate>) -> (copy: Vec<BurnCertificate>)
    ensures
        copy@ == certificates@,
{
    let mut copy: Vec<BurnCertificate> = Vec::new();
    let mut i: usize = 0;
    while i < certificates.len()
        invariant
            i <= certificates@.len(),
            copy@ == certificates@.subrange(0, i as int),
        decreases certificates@.len() - i,
    {
        copy.push(certificates[i]);
        assert(copy@ =~= certificates@.subrange(0, i + 1));
        i += 1;
    }
    assert(copy@ =~= certificates@);
    copy
}

impl View for Module {
    type V = ModuleView;

    closed spec fn view(&self) -> ModuleView {
        ModuleView {
            projects: Seq::new(self.projects@.len(), |i: int| self.projects@[i]@),
            passports: Map::new(
                |asset: AssetId| self.passports@.contains_key(asset),
                |asset: AssetId| self.passports@[asset]@,
            ),
            certificates: Map::new(
                |holder: AccountId| self.burn_certificates@.contains_key(holder),
                |holder: AccountId| self.burn_certificates@[holder]@,
            ),
        }
    }
}

impl Module {
    /// The place of the project `id` in the list.
    fn project_index(&self, id: ProjectId) -> (index: Option<usize>)
        requires
            self.wf(),
        ensures
            match index {
                Some(i) => self@.has_project(id) && i == id - 1 && i < self.projects@.len(),
                None => !self@.has_project(id),
            },
    {
        if 1 <= id && id as usize <= self.projects.len() {
            Some((id - 1) as usize)
        } else {
            None
        }
    }

    /// The registry is consistent: its value is, and the counter agrees with the
    /// projects.
    pub closed spec fn wf(&self) -> bool {
        &&& self@.wf()
        &&& self.last_id == self.projects@.len()
        &&& self.passport_assets@.no_duplicates()
        &&& self.passport_assets@.to_set() == self.passports@.dom()
        &&& self.certificate_holders@.no_duplicates()
        &&& self.certificate_holders@.to_set() == self.burn_certificates@.dom()
    }

    /// A registry in which one project has changed and kept its id is consistent
    /// again, and its value is the old one with that project replaced.
    proof fn lemma_project_changed(&self, before: &Module, id: ProjectId)
        requires
            before.wf(),
            before@.has_project(id),
            self.projects@ == before.projects@.update(id - 1, self.projects@[id - 1]),
            self.projects@[id - 1]@.id == id,
            self.last_id == before.last_id,
            self.passports == before.passports,
            self.passport_assets == before.passport_assets,
            self.burn_certificates == before.burn_certificates,
            self.certificate_holders == before.certificate_holders,
        ensures
            self.wf(),
            self@ == before@.with_project(id, self.projects@[id - 1]@),
            self@.has_project(id),
            self@.project(id) == self.projects@[id - 1]@,
    {
        assert(self@.projects =~= before@.projects.update(id - 1, self.projects@[id - 1]@));
        assert(self@.passports == before@.passports);
        assert(self@.certificates == before@.certificates);
        assert forall|i: int| 0 <= i < self@.projects.len() implies (#[trigger] self@.projects[i]).id
            == i + 1 by {
            if i != id - 1 {
                assert(self@.projects[i] == before@.projects[i]);
            }
        }
    }

    /// An empty registry, whose id counter stands at zero.
    pub fn new() -> (module: Self)
        ensures
            module.wf(),
            module@ == ModuleView::empty(),
    {
        let module = Module {
            projects: Vec::new(),
            last_id: 0,
            passports: HashMap::new(),
            passport_assets: Vec::new(),
            burn_certificates: HashMap::new(),
            certificate_holders: Vec::new(),
        };
        assert(module@.projects =~= Seq::empty());
        assert(module@.passports =~= Map::empty());
        assert(module@.certificates =~= Map::empty());
        assert(module.passport_assets@.to_set() =~= module.passports@.dom());
        assert(module.certificate_holders@.to_set() =~= module.burn_certificates@.dom());
        module
    }

    /// The id that was given to the last project; 0 where there is none.
    pub fn last_id(&self) -> (id: ProjectId)
        requires
            self.wf(),
        ensures
            id == self@.last_id(),
    {
        self.last_id
    }

    /// A copy of the project with the id `id`.
    pub fn get_proj_by_id(&self, id: ProjectId) -> (project: Option<ProjectStruct>)
        requires
            self.wf(),
        ensures
            match project {
                Some(project) => self@.has_project(id) && project@ == self@.project(id),
                None => !self@.has_project(id),
            },
    {
        match self.project_index(id) {
            Some(index) => Some(self.projects[index].clone()),
            None => None,
        }
    }

    /// A copy of the passport of `asset_id`.
    pub fn get_passport_by_assetid(&self, asset_id: AssetId) -> (passport: Option<
        CarbonCreditsPassport<AssetId>,
    >)
        ensures
            match passport {
                Some(passport) => self@.passports.contains_key(asset_id) && passport@
                    == self@.passports[asset_id],
                None => !self@.passports.contains_key(asset_id),
            },
    {
        match self.passports.get(&asset_id) {
            Some(passport) => Some(passport.clone()),
            None => None,
        }
    }

    /// The burn certificates of `account`; none for an account that never burned.
    pub fn get_certificates_by_account(&self, account: AccountId) -> (certificates: Vec<
        BurnCertificate,
    >)
        ensures
            certificates@ == self@.certificates_of(account),
    {
        match self.burn_certificates.get(&account) {
            Some(held) => clone_certificates(held),
            None => Vec::new(),
        }
    }
}

} // verus!
