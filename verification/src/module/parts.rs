//! The registry as plain lists, for writing it to a store and reading it back.

use vstd::prelude::*;
use std::collections::HashMap;
use crate::carbon_credits_passport::CarbonCreditsPassport;
use crate::module::{clone_certificates, BurnCertificate, Module, ModuleView};
use crate::primitives::{AccountId, AssetId};
use crate::project::{ProjectId, ProjectStruct};

verus! {

broadcast use vstd::std_specs::hash::group_hash_axioms;

/// The contents of a registry as plain lists, as they are kept in a store.
pub struct ModuleParts {
    /// The projects in the order of their ids.
    pub projects: Vec<ProjectStruct>,
    /// The passports, one for each asset that has one.
    pub passports: Vec<CarbonCreditsPassport<AssetId>>,
    /// The certificates of each holder that has some.
    pub burn_certificates: Vec<(AccountId, Vec<BurnCertificate>)>,
}

impl ModuleParts {
    /// The ids of the projects start at one and go up by one.
    pub open spec fn projects_numbered(&self) -> bool {
        &&& self.projects@.len() <= ProjectId::MAX
        &&& forall|i: int|
            0 <= i < self.projects@.len() ==> (#[trigger] self.projects@[i]).id == i + 1
    }

    /// No asset has two passports.
    pub open spec fn passports_distinct(&self) -> bool {
        forall|i: int, j: int|
            0 <= i < j < self.passports@.len() ==> (#[trigger] self.passports@[i])@.asset_id != (
            #[trigger] self.passports@[j])@.asset_id
    }

    /// No holder occurs twice, and no holder has two certificates for one asset.
    pub open spec fn certificates_distinct(&self) -> bool {
        &&& forall|i: int, j: int|
            0 <= i < j < self.burn_certificates@.len() ==> (#[trigger] self.burn_certificates@[i]).0
                != (#[trigger] self.burn_certificates@[j]).0
        &&& forall|i: int|
            0 <= i < self.burn_certificates@.len() ==> ModuleView::distinct_assets(
                (#[trigger] self.burn_certificates@[i]).1@,
            )
    }

    /// The lists are the contents of a registry.
    pub open spec fn valid(&self) -> bool {
        &&& self.projects_numbered()
        &&& self.passports_distinct()
        &&& self.certificates_distinct()
    }

    /// The lists hold what `registry` holds, and nothing else.
    pub open spec fn holds(&self, registry: ModuleView) -> bool {
        &&& registry.projects == Seq::new(self.projects@.len(), |i: int| self.projects@[i]@)
        &&& forall|i: int|
            0 <= i < self.passports@.len() ==> registry.passports.contains_key(
                (#[trigger] self.passports@[i])@.asset_id,
            ) && registry.passports[self.passports@[i]@.asset_id] == self.passports@[i]@
        &&& forall|asset: AssetId| #[trigger]
            registry.passports.contains_key(asset) ==> exists|i: int|
                0 <= i < self.passports@.len() && (#[trigger] self.passports@[i])@.asset_id == asset
        &&& forall|i: int|
            0 <= i < self.burn_certificates@.len() ==> registry.certificates.contains_key(
                (#[trigger] self.burn_certificates@[i]).0,
            ) && registry.certificates[self.burn_certificates@[i].0] == self.burn_certificates@[i].1@
        &&& forall|holder: AccountId| #[trigger]
            registry.certificates.contains_key(holder) ==> exists|i: int|
                0 <= i < self.burn_certificates@.len() && (#[trigger] self.burn_certificates@[i]).0
                    == holder
    }
}

/// Lists hold one registry only: what is written out and read again is the
/// registry that was written.
pub proof fn lemma_parts_hold_one_registry(parts: ModuleParts, first: ModuleView, second: ModuleView)
    requires
        parts.holds(first),
        parts.holds(second),
    ensures
        first == second,
{
    assert forall|asset: AssetId| first.passports.contains_key(asset) implies second.passports.contains_key(
        asset,
    ) && second.passports[asset] == first.passports[asset] by {
        let i = choose|i: int|
            0 <= i < parts.passports@.len() && (#[trigger] parts.passports@[i])@.asset_id == asset;
        assert(second.passports.contains_key(parts.passports@[i]@.asset_id));
    }
    assert forall|asset: AssetId| second.passports.contains_key(asset) implies first.passports.contains_key(
        asset,
    ) by {
        let i = choose|i: int|
            0 <= i < parts.passports@.len() && (#[trigger] parts.passports@[i])@.asset_id == asset;
        assert(first.passports.contains_key(parts.passports@[i]@.asset_id));
    }
    assert(first.passports =~= second.passports);
    assert forall|holder: AccountId| first.certificates.contains_key(holder) implies second.certificates.contains_key(
        holder,
    ) && second.certificates[holder] == first.certificates[holder] by {
        let i = choose|i: int|
            0 <= i < parts.burn_certificates@.len() && (#[trigger] parts.burn_certificates@[i]).0
                == holder;
        assert(second.certificates.contains_key(parts.burn_certificates@[i].0));
    }
    assert forall|holder: AccountId| second.certificates.contains_key(holder) implies first.certificates.contains_key(
        holder,
    ) by {
        let i = choose|i: int|
            0 <= i < parts.burn_certificates@.len() && (#[trigger] parts.burn_certificates@[i]).0
                == holder;
        assert(first.certificates.contains_key(parts.burn_certificates@[i].0));
    }
    assert(first.certificates =~= second.certificates);
}

/// Whether no asset occurs twice in `certificates`.
fn has_distinct_assets(certificates: &Vec<BurnCertificate>) -> (distinct: bool)
    ensures
        distinct == ModuleView::distinct_assets(certificates@),
{
    let mut j: usize = 0;
    while j < certificates.len()
        invariant
            j <= certificates@.len(),
            forall|a: int, b: int|
                0 <= a < b < j ==> (#[trigger] certificates@[a]).asset_id != (
                #[trigger] certificates@[b]).asset_id,
        decreases certificates@.len() - j,
    {
        let mut i: usize = 0;
        while i < j
            invariant
                i <= j < certificates@.len(),
                forall|a: int| 0 <= a < i ==> (#[trigger] certificates@[a]).asset_id != certificates@[j as int].asset_id,
            decreases j - i,
        {
            if certificates[i].asset_id == certificates[j].asset_id {
                return false;
            }
            i += 1;
        }
        j += 1;
    }
    true
}

impl Module {
    /// The contents of the registry as lists.
    pub fn to_parts(&self) -> (parts: ModuleParts)
        requires
            self.wf(),
        ensures
            parts.valid(),
            parts.holds(self@),
    {
        let mut projects: Vec<ProjectStruct> = Vec::new();
        let mut i: usize = 0;
        while i < self.projects.len()
            invariant
                i <= self.projects@.len(),
                projects@.len() == i,
                forall|k: int| 0 <= k < i ==> (#[trigger] projects@[k])@ == self.projects@[k]@,
            decreases self.projects@.len() - i,
        {
            projects.push(self.projects[i].clone());
            i += 1;
        }
        let mut passports: Vec<CarbonCreditsPassport<AssetId>> = Vec::new();
        let mut i: usize = 0;
        while i < self.passport_assets.len()
            invariant
                self.wf(),
                i <= self.passport_assets@.len(),
                passports@.len() == i,
                forall|k: int|
                    0 <= k < i ==> self.passports@.contains_key(self.passport_assets@[k]) && (
                    #[trigger] passports@[k])@ == self.passports@[self.passport_assets@[k]]@,
            decreases self.passport_assets@.len() - i,
        {
            let asset = self.passport_assets[i];
            assert(self.passport_assets@.to_set().contains(asset));
            match self.passports.get(&asset) {
                Some(passport) => {
                    passports.push(passport.clone());
                },
                None => {
                    assert(false);
                },
            }
            i += 1;
        }
        let mut burn_certificates: Vec<(AccountId, Vec<BurnCertificate>)> = Vec::new();
        let mut i: usize = 0;
        while i < self.certificate_holders.len()
            invariant
                self.wf(),
                i <= self.certificate_holders@.len(),
                burn_certificates@.len() == i,
                forall|k: int|
                    0 <= k < i ==> self.burn_certificates@.contains_key(self.certificate_holders@[k])
                        && (#[trigger] burn_certificates@[k]).0 == self.certificate_holders@[k]
                        && burn_certificates@[k].1@
                        == self.burn_certificates@[self.certificate_holders@[k]]@,
            decreases self.certificate_holders@.len() - i,
        {
            let holder = self.certificate_holders[i];
            assert(self.certificate_holders@.to_set().contains(holder));
            match self.burn_certificates.get(&holder) {
                Some(certificates) => {
                    burn_certificates.push((holder, clone_certificates(certificates)));
                },
                None => {
                    assert(false);
                },
            }
            i += 1;
        }
        let parts = ModuleParts { projects, passports, burn_certificates };
        proof {
            assert(self@.projects =~= Seq::new(parts.projects@.len(), |i: int| parts.projects@[i]@));
            assert forall|i: int| 0 <= i < parts.projects@.len() implies (#[trigger] parts.projects@[i]).id
                == i + 1 by {
                assert(self@.projects[i].id == i + 1);
            }
            assert forall|i: int, j: int| 0 <= i < j < parts.passports@.len() implies (
            #[trigger] parts.passports@[i])@.asset_id != (#[trigger] parts.passports@[j])@.asset_id by {
                assert(self@.passports.contains_key(self.passport_assets@[i]));
                assert(self@.passports.contains_key(self.passport_assets@[j]));
            }
            assert forall|i: int| 0 <= i < parts.passports@.len() implies self@.passports.contains_key(
                (#[trigger] parts.passports@[i])@.asset_id,
            ) && self@.passports[parts.passports@[i]@.asset_id] == parts.passports@[i]@ by {
                assert(self@.passports.contains_key(self.passport_assets@[i]));
            }
            assert forall|asset: AssetId| #[trigger] self@.passports.contains_key(asset) implies exists|
                i: int,
            |
                0 <= i < parts.passports@.len() && (#[trigger] parts.passports@[i])@.asset_id == asset by {
                assert(self.passport_assets@.to_set().contains(asset));
                let i = choose|i: int|
                    0 <= i < self.passport_assets@.len() && self.passport_assets@[i] == asset;
                assert(self@.passports.contains_key(self.passport_assets@[i]));
                assert(parts.passports@[i]@.asset_id == asset);
            }
            assert forall|i: int| 0 <= i < parts.burn_certificates@.len() implies ModuleView::distinct_assets(
                (#[trigger] parts.burn_certificates@[i]).1@,
            ) by {
                assert(self@.certificates.contains_key(self.certificate_holders@[i]));
            }
            assert forall|i: int|
                0 <= i < parts.burn_certificates@.len() implies self@.certificates.contains_key(
                (#[trigger] parts.burn_certificates@[i]).0,
            ) && self@.certificates[parts.burn_certificates@[i].0] == parts.burn_certificates@[i].1@ by {
                assert(self@.certificates.contains_key(self.certificate_holders@[i]));
            }
            assert forall|holder: AccountId| #[trigger]
                self@.certificates.contains_key(holder) implies exists|i: int|
                0 <= i < parts.burn_certificates@.len() && (#[trigger] parts.burn_certificates@[i]).0
                    == holder by {
                assert(self.certificate_holders@.to_set().contains(holder));
                let i = choose|i: int|
                    0 <= i < self.certificate_holders@.len() && self.certificate_holders@[i] == holder;
                assert(parts.burn_certificates@[i].0 == holder);
            }
        }
        parts
    }

    /// The registry with the contents `parts`, where they are the contents of a
    /// registry.
    pub fn from_parts(parts: ModuleParts) -> (module: Option<Module>)
        ensures
            match module {
                Some(module) => parts.valid() && module.wf() && parts.holds(module@),
                None => !parts.valid(),
            },
    {
        if parts.projects.len() > ProjectId::MAX as usize {
            return None;
        }
        let mut i: usize = 0;
        while i < parts.projects.len()
            invariant
                i <= parts.projects@.len() <= ProjectId::MAX,
                forall|k: int| 0 <= k < i ==> (#[trigger] parts.projects@[k]).id == k + 1,
            decreases parts.projects@.len() - i,
        {
            if parts.projects[i].id as usize != i + 1 {
                return None;
            }
            i += 1;
        }
        let mut passports: HashMap<AssetId, CarbonCreditsPassport<AssetId>> = HashMap::new();
        let mut passport_assets: Vec<AssetId> = Vec::new();
        let mut i: usize = 0;
        while i < parts.passports.len()
            invariant
                i <= parts.passports@.len(),
                passport_assets@.len() == i,
                passport_assets@.no_duplicates(),
                passport_assets@.to_set() == passports@.dom(),
                forall|k: int| 0 <= k < i ==> passport_assets@[k] == (#[trigger] parts.passports@[k])@.asset_id,
                forall|k: int|
                    0 <= k < i ==> passports@.contains_key((#[trigger] parts.passports@[k])@.asset_id)
                        && passports@[parts.passports@[k]@.asset_id]@ == parts.passports@[k]@,
                forall|a: int, b: int|
                    0 <= a < b < i ==> (#[trigger] parts.passports@[a])@.asset_id != (
                    #[trigger] parts.passports@[b])@.asset_id,
            decreases parts.passports@.len() - i,
        {
            let passport = parts.passports[i].clone();
            let asset = *passport.get_asset_id_ref();
            if passports.contains_key(&asset) {
                proof {
                    assert(passport_assets@.to_set().contains(asset));
                    let k = choose|k: int| 0 <= k < passport_assets@.len() && passport_assets@[k] == asset;
                    assert(parts.passports@[k]@.asset_id == parts.passports@[i as int]@.asset_id);
                }
                return None;
            }
            proof {
                passport_assets@.lemma_push_to_set_commute(asset);
                assert forall|k: int| 0 <= k < i implies (#[trigger] parts.passports@[k])@.asset_id
                    != asset by {
                    assert(passport_assets@.to_set().contains(passport_assets@[k]));
                }
            }
            passport_assets.push(asset);
            passports.insert(asset, passport);
            i += 1;
        }
        let mut burn_certificates: HashMap<AccountId, Vec<BurnCertificate>> = HashMap::new();
        let mut certificate_holders: Vec<AccountId> = Vec::new();
        let mut i: usize = 0;
        while i < parts.burn_certificates.len()
            invariant
                i <= parts.burn_certificates@.len(),
                certificate_holders@.len() == i,
                certificate_holders@.no_duplicates(),
                certificate_holders@.to_set() == burn_certificates@.dom(),
                forall|k: int|
                    0 <= k < i ==> certificate_holders@[k] == (#[trigger] parts.burn_certificates@[k]).0,
                forall|k: int|
                    0 <= k < i ==> burn_certificates@.contains_key(
                        (#[trigger] parts.burn_certificates@[k]).0,
                    ) && burn_certificates@[parts.burn_certificates@[k].0]@
                        == parts.burn_certificates@[k].1@,
                forall|a: int, b: int|
                    0 <= a < b < i ==> (#[trigger] parts.burn_certificates@[a]).0 != (
                    #[trigger] parts.burn_certificates@[b]).0,
                forall|k: int|
                    0 <= k < i ==> ModuleView::distinct_assets(
                        (#[trigger] parts.burn_certificates@[k]).1@,
                    ),
            decreases parts.burn_certificates@.len() - i,
        {
            let holder = parts.burn_certificates[i].0;
            if burn_certificates.contains_key(&holder) {
                proof {
                    assert(certificate_holders@.to_set().contains(holder));
                    let k = choose|k: int|
                        0 <= k < certificate_holders@.len() && certificate_holders@[k] == holder;
                    assert(parts.burn_certificates@[k].0 == parts.burn_certificates@[i as int].0);
                }
                return None;
            }
            if !has_distinct_assets(&parts.burn_certificates[i].1) {
                return None;
            }
            proof {
                certificate_holders@.lemma_push_to_set_commute(holder);
                assert forall|k: int| 0 <= k < i implies (#[trigger] parts.burn_certificates@[k]).0
                    != holder by {
                    assert(certificate_holders@.to_set().contains(certificate_holders@[k]));
                }
            }
            certificate_holders.push(holder);
            burn_certificates.insert(holder, clone_certificates(&parts.burn_certificates[i].1));
            i += 1;
        }
        let ghost lists = parts;
        let last_id = parts.projects.len() as ProjectId;
        let module = Module {
            projects: parts.projects,
            last_id,
            passports,
            passport_assets,
            burn_certificates,
            certificate_holders,
        };
        proof {
            assert(module@.projects =~= Seq::new(lists.projects@.len(), |i: int| lists.projects@[i]@));
            assert forall|asset: AssetId| #[trigger]
                module@.passports.contains_key(asset) implies module@.passports[asset].asset_id
                == asset && exists|i: int|
                0 <= i < lists.passports@.len() && (#[trigger] lists.passports@[i])@.asset_id == asset by {
                assert(module.passport_assets@.to_set().contains(asset));
                let i = choose|i: int|
                    0 <= i < module.passport_assets@.len() && module.passport_assets@[i] == asset;
                assert(lists.passports@[i]@.asset_id == asset);
            }
            assert forall|holder: AccountId| #[trigger]
                module@.certificates.contains_key(holder) implies ModuleView::distinct_assets(
                module@.certificates[holder],
            ) && exists|i: int|
                0 <= i < lists.burn_certificates@.len() && (#[trigger] lists.burn_certificates@[i]).0
                    == holder by {
                assert(module.certificate_holders@.to_set().contains(holder));
                let i = choose|i: int|
                    0 <= i < module.certificate_holders@.len() && module.certificate_holders@[i]
                        == holder;
                assert(lists.burn_certificates@[i].0 == holder);
            }
            assert forall|i: int| 0 <= i < module@.projects.len() implies (#[trigger] module@.projects[i]).id
                == i + 1 by {
                assert(lists.projects@[i].id == i + 1);
            }
        }
        Some(module)
    }
}

} // verus!
