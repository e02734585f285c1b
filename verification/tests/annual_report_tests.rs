#![allow(dead_code)]
#![allow(unused_imports)]

use std::collections::HashMap;

use carbon_credits::account::{
    is_roles_correct, is_selected_role, RoleMask, AUDITOR_ROLE_MASK, INVESTOR_ROLE_MASK,
    MASTER_ROLE_MASK, PROJECT_OWNER_ROLE_MASK, REGISTRY_ROLE_MASK, STANDARD_ROLE_MASK,
};
use carbon_credits::annual_report::{
    REPORT_AUDITOR_SIGN_PENDING, REPORT_ISSUED, REPORT_PROJECT_OWNER_SIGN_PENDING,
    REPORT_REGISTRY_SIGN_PENDING, REPORT_STANDARD_SIGN_PENDING,
};
use carbon_credits::burn_certificate::CarbonCreditsBurnCertificate;
use carbon_credits::calls::{AssetCall, FileCall, ReleaseOutcome};
use carbon_credits::carbon_credits_passport::CarbonCreditsPassport;
use carbon_credits::error::Error;
use carbon_credits::event::Event;
use carbon_credits::file_hash::H256;
use carbon_credits::module::Module;
use carbon_credits::primitives::FileId;
use carbon_credits::project::{
    ProjectId, ProjectStatus, ProjectStruct, AUDITOR_SIGN_PENDING, PROJECT_OWNER_SIGN_PENDING,
    REGISTERED, REGISTRY_SIGN_PENDING, STANDARD_SIGN_PENDING,
};
use carbon_credits::standard::Standard;

// A small runtime around the registry: the role registry, the signing service
// and the asset ledger are kept in memory, and every operation runs as one
// transaction: plan, make the planned calls, then tell the registry how they
// ended.

type DispatchResult = Result<(), Error>;

const TEST_CARBON_CREDITS_COUNT: u64 = 15000;
const TEST_CARBON_CREDITS_DECIMAL: u8 = 0;

// (AccountId, role)
const ROLES: [(u64, RoleMask); 6] = [
    (1_u64, MASTER_ROLE_MASK),
    (2_u64, PROJECT_OWNER_ROLE_MASK),
    (3_u64, AUDITOR_ROLE_MASK),
    (4_u64, STANDARD_ROLE_MASK),
    (5_u64, INVESTOR_ROLE_MASK),
    (6_u64, REGISTRY_ROLE_MASK),
];

struct Accounts {
    roles: HashMap<u64, RoleMask>,
}

impl Accounts {
    fn roles_of(&self, account: u64) -> RoleMask {
        self.roles.get(&account).copied().unwrap_or(0)
    }

    fn account_is_cc_project_owner(&self, account: &u64) -> bool {
        is_selected_role(self.roles_of(*account), PROJECT_OWNER_ROLE_MASK)
    }

    fn account_add_with_role_and_data(&mut self, caller: u64, who: u64, role: RoleMask) -> Result<(), ()> {
        if !is_selected_role(self.roles_of(caller), MASTER_ROLE_MASK) {
            return Err(());
        }
        if self.roles.contains_key(&who) || !is_roles_correct(role) {
            return Err(());
        }
        self.roles.insert(who, role);
        Ok(())
    }

    fn account_withdraw_role(&mut self, caller: u64, who: u64, role: RoleMask) -> Result<(), ()> {
        if !is_selected_role(self.roles_of(caller), MASTER_ROLE_MASK) {
            return Err(());
        }
        match self.roles.get_mut(&who) {
            Some(roles) => {
                *roles &= !role;
                Ok(())
            }
            None => Err(()),
        }
    }
}

struct File {
    owner: u64,
    signers: Vec<u64>,
    versions: Vec<Vec<u64>>,
}

struct Filesign {
    files: HashMap<FileId, File>,
}

impl Filesign {
    fn create_new_file(&mut self, caller: u64, tag: Vec<u8>, _filehash: H256, file_id: Option<FileId>) -> Result<(), ()> {
        let id = file_id.unwrap_or([0; 16]);
        if tag.is_empty() || self.files.contains_key(&id) {
            return Err(());
        }
        self.files.insert(id, File { owner: caller, signers: Vec::new(), versions: vec![Vec::new()] });
        Ok(())
    }

    fn address_is_owner_for_file(&self, id: FileId, account: &u64) -> bool {
        self.files.get(&id).map_or(false, |file| file.owner == *account)
    }

    fn address_is_signer_for_file(&self, id: FileId, account: &u64) -> bool {
        self.files.get(&id).map_or(false, |file| file.signers.contains(account))
    }

    fn address_has_signed_the_file(&self, id: FileId, account: &u64) -> bool {
        self.files.get(&id).map_or(false, |file| file.versions.last().unwrap().contains(account))
    }

    fn signatures_len(&self, id: FileId) -> usize {
        self.files.get(&id).unwrap().versions.last().unwrap().len()
    }

    fn perform(&mut self, caller: u64, call: FileCall) -> Result<(), ()> {
        match call {
            FileCall::CreateNewFile { tag, filehash, file_id } => {
                self.create_new_file(caller, tag, filehash, Some(file_id))
            }
            FileCall::AssignSigner { file_id, signer } => match self.files.get_mut(&file_id) {
                Some(file) if file.owner == caller => {
                    if !file.signers.contains(&signer) {
                        file.signers.push(signer);
                    }
                    Ok(())
                }
                _ => Err(()),
            },
            FileCall::DeleteSigner { file_id, signer } => match self.files.get_mut(&file_id) {
                Some(file) if file.owner == caller && file.signers.contains(&signer) => {
                    file.signers.retain(|held| *held != signer);
                    Ok(())
                }
                _ => Err(()),
            },
            FileCall::SignLatestVersion { file_id } => match self.files.get_mut(&file_id) {
                Some(file) if file.signers.contains(&caller) => {
                    let signatures = file.versions.last_mut().unwrap();
                    if !signatures.contains(&caller) {
                        signatures.push(caller);
                    }
                    Ok(())
                }
                _ => Err(()),
            },
        }
    }
}

struct Asset {
    owner: u64,
    issuer: u64,
    balances: HashMap<u64, u64>,
    name: Vec<u8>,
    symbol: Vec<u8>,
    decimals: u8,
}

struct Assets {
    assets: HashMap<u64, Asset>,
    /// The calls that were made, in their order, by the kind of the call.
    log: Vec<&'static str>,
}

impl Assets {
    fn balance(&self, asset_id: u64, account: u64) -> u64 {
        self.assets.get(&asset_id).and_then(|asset| asset.balances.get(&account).copied()).unwrap_or(0)
    }

    fn perform(&mut self, caller: u64, call: AssetCall) -> Result<(), ()> {
        match call {
            AssetCall::Create { asset_id, admin, max_zombies: _, min_balance } => {
                self.log.push("create");
                if min_balance == 0 || self.assets.contains_key(&asset_id) {
                    return Err(());
                }
                self.assets.insert(
                    asset_id,
                    Asset {
                        owner: caller,
                        issuer: admin,
                        balances: HashMap::new(),
                        name: Vec::new(),
                        symbol: Vec::new(),
                        decimals: 0,
                    },
                );
                Ok(())
            }
            AssetCall::SetMetadata { asset_id, name, symbol, decimals } => {
                self.log.push("set_metadata");
                match self.assets.get_mut(&asset_id) {
                    Some(asset) if asset.owner == caller => {
                        asset.name = name;
                        asset.symbol = symbol;
                        asset.decimals = decimals;
                        Ok(())
                    }
                    _ => Err(()),
                }
            }
            AssetCall::Mint { asset_id, beneficiary, amount } => {
                self.log.push("mint");
                match self.assets.get_mut(&asset_id) {
                    Some(asset) if asset.issuer == caller => {
                        let balance = asset.balances.entry(beneficiary).or_insert(0);
                        *balance = balance.checked_add(amount).ok_or(())?;
                        Ok(())
                    }
                    _ => Err(()),
                }
            }
            AssetCall::Transfer { asset_id, target, amount } => {
                self.log.push("transfer");
                let asset = self.assets.get_mut(&asset_id).ok_or(())?;
                let held = asset.balances.get(&caller).copied().unwrap_or(0);
                if held < amount {
                    return Err(());
                }
                asset.balances.insert(caller, held - amount);
                *asset.balances.entry(target).or_insert(0) += amount;
                Ok(())
            }
            AssetCall::BurnSelfAssets { asset_id, amount } => {
                self.log.push("burn");
                let asset = self.assets.get_mut(&asset_id).ok_or(())?;
                let held = asset.balances.get(&caller).copied().unwrap_or(0);
                if held < amount {
                    return Err(());
                }
                asset.balances.insert(caller, held - amount);
                Ok(())
            }
            AssetCall::Destroy { asset_id, zombies_witness: _ } => {
                self.log.push("destroy");
                self.assets.remove(&asset_id).map(|_| ()).ok_or(())
            }
        }
    }
}

struct TestRuntime {
    accounts: Accounts,
    filesign: Filesign,
    assets: Assets,
    carbon_credits: Module,
    events: Vec<Event>,
    now: u64,
}

// Build the runtime with the accounts of `ROLES`.
fn new_test_ext() -> TestRuntime {
    TestRuntime {
        accounts: Accounts { roles: ROLES.iter().copied().collect() },
        filesign: Filesign { files: HashMap::new() },
        assets: Assets { assets: HashMap::new(), log: Vec::new() },
        carbon_credits: Module::new(),
        events: Vec::new(),
        now: 0,
    }
}

fn new_test_ext_with_event() -> TestRuntime {
    new_test_ext()
}

impl TestRuntime {
    fn deposit(&mut self, result: Result<Event, Error>) -> DispatchResult {
        let event = result?;
        self.events.push(event);
        Ok(())
    }

    // get the last event
    fn last_event(&self) -> Result<Event, ()> {
        self.events.last().copied().ok_or(())
    }

    fn file_of_project(&self, project_id: ProjectId) -> Option<FileId> {
        self.carbon_credits.get_proj_by_id(project_id).and_then(|project| project.file_id)
    }

    fn file_of_last_report(&self, project_id: ProjectId) -> Option<FileId> {
        let project = self.carbon_credits.get_proj_by_id(project_id)?;
        project.annual_reports.last().map(|report| report.file_id)
    }

    fn get_proj_by_id(&self, id: ProjectId) -> Option<ProjectStruct> {
        self.carbon_credits.get_proj_by_id(id)
    }

    fn get_passport_by_assetid(&self, asset_id: u64) -> Option<CarbonCreditsPassport<u64>> {
        self.carbon_credits.get_passport_by_assetid(asset_id)
    }

    fn get_certificates_by_account(&self, account: u64) -> Vec<CarbonCreditsBurnCertificate<u64, u64>> {
        self.carbon_credits.get_certificates_by_account(account)
    }

    fn create_project(&mut self, caller: u64, standard: Standard, file_id: Option<FileId>) -> DispatchResult {
        let roles = self.accounts.roles_of(caller);
        let is_file_owner = file_id.map_or(false, |id| self.filesign.address_is_owner_for_file(id, &caller));
        assert!(self.carbon_credits.last_id() < ProjectId::MAX);
        let result = self.carbon_credits.create_project(caller, roles, standard, file_id, is_file_owner);
        self.deposit(result)
    }

    fn change_project_file_id(&mut self, caller: u64, project_id: ProjectId, file_id: FileId) -> DispatchResult {
        let roles = self.accounts.roles_of(caller);
        let is_file_owner = self.filesign.address_is_owner_for_file(file_id, &caller);
        let result = self.carbon_credits.change_project_file_id(caller, roles, project_id, file_id, is_file_owner);
        self.deposit(result)
    }

    fn assign_project_signer(&mut self, caller: u64, signer: u64, role: RoleMask, project_id: ProjectId) -> DispatchResult {
        let signer_roles = self.accounts.roles_of(signer);
        let assigned = match self.carbon_credits.plan_assign_project_signer(caller, signer, signer_roles, role, project_id) {
            Ok(call) => self.filesign.perform(caller, call).is_ok(),
            Err(_) => false,
        };
        let result = self.carbon_credits.assign_project_signer(caller, signer, signer_roles, role, project_id, assigned);
        self.deposit(result)
    }

    fn remove_project_signer(&mut self, caller: u64, signer: u64, role: RoleMask, project_id: ProjectId) -> DispatchResult {
        let signer_roles = self.accounts.roles_of(signer);
        let has_signed = self.file_of_project(project_id).map_or(false, |id| self.filesign.address_has_signed_the_file(id, &signer));
        let deleted = match self.carbon_credits.plan_remove_project_signer(caller, signer, signer_roles, role, project_id, has_signed) {
            Ok(call) => self.filesign.perform(caller, call).is_ok(),
            Err(_) => false,
        };
        let result = self.carbon_credits.remove_project_signer(caller, signer, signer_roles, role, project_id, has_signed, deleted);
        self.deposit(result)
    }

    fn sign_project(&mut self, caller: u64, project_id: ProjectId) -> DispatchResult {
        let roles = self.accounts.roles_of(caller);
        let is_file_signer = self.file_of_project(project_id).map_or(false, |id| self.filesign.address_is_signer_for_file(id, &caller));
        let signed = match self.carbon_credits.plan_sign_project(caller, roles, project_id, is_file_signer) {
            Ok(call) => self.filesign.perform(caller, call).is_ok(),
            Err(_) => false,
        };
        let result = self.carbon_credits.sign_project(caller, roles, project_id, is_file_signer, signed);
        self.deposit(result)
    }

    fn create_annual_report(
        &mut self,
        caller: u64,
        project_id: ProjectId,
        file_id: FileId,
        carbon_credits_count: u64,
        name: Vec<u8>,
        symbol: Vec<u8>,
        decimals: u8,
    ) -> DispatchResult {
        let roles = self.accounts.roles_of(caller);
        let is_file_owner = self.filesign.address_is_owner_for_file(file_id, &caller);
        let result = self.carbon_credits.create_annual_report(
            caller, roles, project_id, file_id, carbon_credits_count, name, symbol, decimals, is_file_owner, self.now,
        );
        self.deposit(result)
    }

    fn create_annual_report_with_file(
        &mut self,
        caller: u64,
        project_id: ProjectId,
        file_id: FileId,
        filehash: H256,
        tag: Vec<u8>,
        carbon_credits_count: u64,
        name: Vec<u8>,
        symbol: Vec<u8>,
        decimals: u8,
    ) -> DispatchResult {
        let roles = self.accounts.roles_of(caller);
        let created = match self.carbon_credits.plan_create_annual_report_with_file(
            caller, roles, project_id, file_id, filehash, tag.clone(), &name, &symbol, decimals,
        ) {
            Ok(call) => self.filesign.perform(caller, call).is_ok(),
            Err(_) => false,
        };
        let result = self.carbon_credits.create_annual_report_with_file(
            caller, roles, project_id, file_id, filehash, tag, carbon_credits_count, name, symbol, decimals, self.now, created,
        );
        self.deposit(result)
    }

    fn change_report_carbon_credits_count(&mut self, caller: u64, project_id: ProjectId, new_count: u64) -> DispatchResult {
        let roles = self.accounts.roles_of(caller);
        let result = self.carbon_credits.change_report_carbon_credits_count(caller, roles, project_id, new_count);
        self.deposit(result)
    }

    fn delete_last_annual_report(&mut self, caller: u64, project_id: ProjectId) -> DispatchResult {
        let roles = self.accounts.roles_of(caller);
        let result = self.carbon_credits.delete_last_annual_report(caller, roles, project_id);
        self.deposit(result)
    }

    fn assign_last_annual_report_signer(&mut self, caller: u64, signer: u64, role: RoleMask, project_id: ProjectId) -> DispatchResult {
        let signer_roles = self.accounts.roles_of(signer);
        let assigned = match self.carbon_credits.plan_assign_last_annual_report_signer(caller, signer, signer_roles, role, project_id) {
            Ok(call) => self.filesign.perform(caller, call).is_ok(),
            Err(_) => false,
        };
        let result = self.carbon_credits.assign_last_annual_report_signer(caller, signer, signer_roles, role, project_id, assigned);
        self.deposit(result)
    }

    fn remove_last_annual_report_signer(&mut self, caller: u64, signer: u64, role: RoleMask, project_id: ProjectId) -> DispatchResult {
        let signer_roles = self.accounts.roles_of(signer);
        let has_signed = self.file_of_last_report(project_id).map_or(false, |id| self.filesign.address_has_signed_the_file(id, &signer));
        let deleted = match self.carbon_credits.plan_remove_last_annual_report_signer(caller, signer, signer_roles, role, project_id, has_signed) {
            Ok(call) => self.filesign.perform(caller, call).is_ok(),
            Err(_) => false,
        };
        let result = self.carbon_credits.remove_last_annual_report_signer(caller, signer, signer_roles, role, project_id, has_signed, deleted);
        self.deposit(result)
    }

    fn sign_last_annual_report(&mut self, caller: u64, project_id: ProjectId) -> DispatchResult {
        let roles = self.accounts.roles_of(caller);
        let is_file_signer = self.file_of_last_report(project_id).map_or(false, |id| self.filesign.address_is_signer_for_file(id, &caller));
        let signed = match self.carbon_credits.plan_sign_last_annual_report(caller, roles, project_id, is_file_signer) {
            Ok(call) => self.filesign.perform(caller, call).is_ok(),
            Err(_) => false,
        };
        let result = self.carbon_credits.sign_last_annual_report(caller, roles, project_id, is_file_signer, signed);
        self.deposit(result)
    }

    fn release_carbon_credits(&mut self, caller: u64, project_id: ProjectId, asset_id: u64, new_holder: u64, min_balance: u64) -> DispatchResult {
        let roles = self.accounts.roles_of(caller);
        let outcome = match self.carbon_credits.plan_release_carbon_credits(caller, roles, project_id, asset_id, new_holder, min_balance) {
            Ok(plan) => {
                if self.assets.perform(caller, plan.create).is_err() {
                    ReleaseOutcome::AssetNotCreated
                } else if self.assets.perform(caller, plan.set_metadata).is_err() {
                    let _ = self.assets.perform(caller, plan.destroy);
                    ReleaseOutcome::MetadataNotSet
                } else if self.assets.perform(caller, plan.mint).is_err() {
                    let _ = self.assets.perform(caller, plan.destroy);
                    ReleaseOutcome::CreditsNotMinted
                } else {
                    ReleaseOutcome::Minted
                }
            }
            Err(_) => ReleaseOutcome::AssetNotCreated,
        };
        let result = self.carbon_credits.release_carbon_credits(caller, roles, project_id, asset_id, new_holder, min_balance, outcome);
        self.deposit(result)
    }

    fn transfer_carbon_credits(&mut self, caller: u64, asset_id: u64, new_holder: u64, amount: u64) -> DispatchResult {
        let transferred = match self.carbon_credits.plan_transfer_carbon_credits(asset_id, new_holder, amount) {
            Ok(call) => self.assets.perform(caller, call).is_ok(),
            Err(_) => false,
        };
        let result = self.carbon_credits.transfer_carbon_credits(caller, asset_id, new_holder, amount, transferred);
        self.deposit(result)
    }

    fn burn_carbon_credits(&mut self, caller: u64, asset_id: u64, amount: u64) -> DispatchResult {
        let balance = self.assets.balance(asset_id, caller);
        let burned = match self.carbon_credits.plan_burn_carbon_credits(asset_id, amount, balance) {
            Ok(call) => self.assets.perform(caller, call).is_ok(),
            Err(_) => false,
        };
        if burned {
            assert!(self.carbon_credits.burn_fits(caller, asset_id, amount));
        }
        let result = self.carbon_credits.burn_carbon_credits(caller, asset_id, amount, balance, burned);
        self.deposit(result)
    }
}

fn create_user_with_owner_role(rt: &mut TestRuntime) -> u64 {
    let new_owner_id = 555;
    let _ = rt.accounts.account_add_with_role_and_data(ROLES[0].0, new_owner_id, PROJECT_OWNER_ROLE_MASK);
    new_owner_id
}

fn get_test_carbon_credits_name() -> Vec<u8> {
    "CarbonToken".to_owned().as_bytes().to_vec()
}

fn get_test_carbon_credits_symbol() -> Vec<u8> {
    "CT".to_owned().as_bytes().to_vec()
}

fn create_project_documentation_file(rt: &mut TestRuntime, account: u64) -> Option<FileId> {
    let filehash = H256::from([0x66; 32]);
    let file_id = Some([6; 16]);
    let _ = rt.filesign.create_new_file(account, "my_project_documentation".to_owned().as_bytes().to_vec(), filehash, file_id);
    file_id
}

fn create_annual_report_file(rt: &mut TestRuntime, account: u64) -> FileId {
    let filehash = H256::from([0x88; 32]);
    let file_id = [9; 16];
    let _ = rt.filesign.create_new_file(account, "my_annual_report".to_owned().as_bytes().to_vec(), filehash, Some(file_id));
    file_id
}

/// Return tuple -> (project, project_id, project_owner)
fn get_registerd_project_and_owner_gold_standard(rt: &mut TestRuntime) -> (ProjectStruct, ProjectId, u64) {
    get_project_and_owner_and_custom_signers(rt, assign_project_mock_users_required_signers_gold_standard)
}

fn get_project_and_owner_and_custom_signers(rt: &mut TestRuntime, sign_func: fn(&mut TestRuntime, ProjectId)) -> (ProjectStruct, ProjectId, u64) {
    let owner = ROLES[1].0;
    let auditor = ROLES[2].0;
    let standard_acc = ROLES[3].0;
    let registry = ROLES[5].0;
    let standard = Standard::GOLD_STANDARD;

    let file_id = create_project_documentation_file(rt, owner);
    let _ = rt.create_project(owner, standard, file_id);
    sign_func(rt, 1);

    let _ = rt.sign_project(owner, 1);
    let _ = rt.sign_project(auditor, 1);
    let _ = rt.sign_project(standard_acc, 1);
    let _ = rt.sign_project(registry, 1);
    let project = rt.get_proj_by_id(1).unwrap();

    (project, 1, owner)
}

/// Return tuple -> (project, project_id, project_owner)
fn full_sign_annual_report_gold_standard(rt: &mut TestRuntime) -> (ProjectStruct, ProjectId, u64) {
    get_annual_report_and_owner_custom_signers(rt, assign_annual_report_mock_users_required_signers_gold_standard)
}

fn get_annual_report_and_owner_custom_signers(rt: &mut TestRuntime, sign_func: fn(&mut TestRuntime, ProjectId)) -> (ProjectStruct, ProjectId, u64) {
    let (project, proj_id, owner) = get_registerd_project_and_owner_gold_standard(rt);
    let auditor = ROLES[2].0;
    let standard_acc = ROLES[3].0;
    let registry = ROLES[5].0;

    let file_id = create_annual_report_file(rt, owner);
    let _ = rt.create_annual_report(
        owner, proj_id, file_id, TEST_CARBON_CREDITS_COUNT, get_test_carbon_credits_name(), get_test_carbon_credits_symbol(), TEST_CARBON_CREDITS_DECIMAL,
    );
    sign_func(rt, proj_id);

    let tuple_vec = vec![
        (owner, REPORT_AUDITOR_SIGN_PENDING),
        (auditor, REPORT_STANDARD_SIGN_PENDING),
        (standard_acc, REPORT_REGISTRY_SIGN_PENDING),
        (registry, REPORT_ISSUED),
    ];

    for (acc, _state) in tuple_vec {
        let _ = rt.sign_last_annual_report(acc, proj_id);
        let _ = rt.get_proj_by_id(proj_id).unwrap();
    }

    (project, 1, owner)
}

fn assign_project_mock_users_required_signers_gold_standard(rt: &mut TestRuntime, project_id: ProjectId) {
    let owner = ROLES[1].0;
    let _ = rt.assign_project_signer(owner, ROLES[1].0, ROLES[1].1, project_id);
    let _ = rt.assign_project_signer(owner, ROLES[2].0, ROLES[2].1, project_id);
    let _ = rt.assign_project_signer(owner, ROLES[3].0, ROLES[3].1, project_id);
    let _ = rt.assign_project_signer(owner, ROLES[5].0, ROLES[5].1, project_id);
}

fn assign_annual_report_mock_users_required_signers_gold_standard(rt: &mut TestRuntime, project_id: ProjectId) {
    let owner = ROLES[1].0;
    let _ = rt.assign_last_annual_report_signer(owner, ROLES[1].0, ROLES[1].1, project_id);
    let _ = rt.assign_last_annual_report_signer(owner, ROLES[2].0, ROLES[2].1, project_id);
    let _ = rt.assign_last_annual_report_signer(owner, ROLES[3].0, ROLES[3].1, project_id);
    let _ = rt.assign_last_annual_report_signer(owner, ROLES[5].0, ROLES[5].1, project_id);
}

#[test]
fn it_works_for_create_new_annual_report_with_file() {
    let mut rt = new_test_ext();
    let (project, project_id, owner) = get_registerd_project_and_owner_gold_standard(&mut rt);

    let file_id = [11, 22, 33, 44, 55, 66, 77, 88, 99, 0, 11, 12, 13, 14, 15, 16];
    let tag = "my_annual_report".to_owned().as_bytes().to_vec();
    let filehash = H256::from([0x88; 32]);

    let create_report_result = rt.create_annual_report_with_file(owner, project_id, file_id, filehash, tag, TEST_CARBON_CREDITS_COUNT,
        get_test_carbon_credits_name() , get_test_carbon_credits_symbol(), TEST_CARBON_CREDITS_DECIMAL
    );


    let project_with_report = rt.get_proj_by_id(project_id).unwrap();

    assert_eq!(project.annual_reports.len() + 1, project_with_report.annual_reports.len());
    assert_eq!(REPORT_PROJECT_OWNER_SIGN_PENDING, project_with_report.annual_reports.last().unwrap().state);
    assert_eq!(create_report_result, Ok(()));
}

#[test]
fn it_fails_for_create_new_annual_report_with_file_not_project_owner() {
    let mut rt = new_test_ext();
    let (project, project_id, _) = get_registerd_project_and_owner_gold_standard(&mut rt);

    let other_owner = create_user_with_owner_role(&mut rt);

    let file_id = [11, 22, 33, 44, 55, 66, 77, 88, 99, 0, 11, 12, 13, 14, 15, 16];
    let tag = "my_annual_report".to_owned().as_bytes().to_vec();
    let filehash = H256::from([0x88; 32]);

    let create_report_result = rt.create_annual_report_with_file(other_owner, project_id, file_id, filehash, tag, TEST_CARBON_CREDITS_COUNT,
        get_test_carbon_credits_name() , get_test_carbon_credits_symbol(), TEST_CARBON_CREDITS_DECIMAL
    );

    let project_with_report = rt.get_proj_by_id(project_id).unwrap();

    assert_eq!(project.annual_reports.len(), project_with_report.annual_reports.len());
    assert_eq!(create_report_result, Err(Error::AccountNotOwner));
}

#[test]
fn it_fails_for_create_new_annual_report_with_file_not_owner_role() {
    let mut rt = new_test_ext();
    let (project, project_id, _) = get_registerd_project_and_owner_gold_standard(&mut rt);

    let not_owner = ROLES[2].0;

    let file_id = [11, 22, 33, 44, 55, 66, 77, 88, 99, 0, 11, 12, 13, 14, 15, 16];
    let tag = "my_annual_report".to_owned().as_bytes().to_vec();
    let filehash = H256::from([0x88; 32]);

    let create_report_result = rt.create_annual_report_with_file(not_owner, project_id, file_id, filehash, tag, TEST_CARBON_CREDITS_COUNT,
        get_test_carbon_credits_name() , get_test_carbon_credits_symbol(), TEST_CARBON_CREDITS_DECIMAL
    );

    let project_with_report = rt.get_proj_by_id(project_id).unwrap();

    assert_eq!(project.annual_reports.len(), project_with_report.annual_reports.len());
    assert_eq!(create_report_result, Err(Error::AccountNotOwner));
}

#[test]
fn it_fails_for_create_new_annual_report_with_file_bad_metadata() {
    let mut rt = new_test_ext();
    let (project, project_id, owner) = get_registerd_project_and_owner_gold_standard(&mut rt);

    let file_id = [11, 22, 33, 44, 55, 66, 77, 88, 99, 0, 11, 12, 13, 14, 15, 16];
    let tag = "my_annual_report".to_owned().as_bytes().to_vec();
    let filehash = H256::from([0x88; 32]);

    let create_report_empty_name_result = rt.create_annual_report_with_file(owner, project_id, file_id, filehash, tag.clone(), TEST_CARBON_CREDITS_COUNT,
        Vec::new() , get_test_carbon_credits_symbol(), TEST_CARBON_CREDITS_DECIMAL
    );

    let create_report_empty_symbol_result = rt.create_annual_report_with_file(owner, project_id, file_id, filehash, tag, TEST_CARBON_CREDITS_COUNT,
        get_test_carbon_credits_name() , Vec::new(), TEST_CARBON_CREDITS_DECIMAL
    );


    let project_with_report = rt.get_proj_by_id(project_id).unwrap();

    assert_eq!(project.annual_reports.len(), project_with_report.annual_reports.len());
    assert_eq!(create_report_empty_name_result, Err(Error::BadMetadataParameters));
    assert_eq!(create_report_empty_symbol_result, Err(Error::BadMetadataParameters));
}


#[test]
fn it_works_for_create_new_annual_report_gold_standard() {
    let mut rt = new_test_ext();
    let (project, project_id, owner) = get_registerd_project_and_owner_gold_standard(&mut rt);

    let report_file = create_annual_report_file(&mut rt, owner);
    let create_report_result = rt.create_annual_report(owner, project_id, report_file, TEST_CARBON_CREDITS_COUNT,
        get_test_carbon_credits_name() , get_test_carbon_credits_symbol(), TEST_CARBON_CREDITS_DECIMAL
    );
    let project_with_report = rt.get_proj_by_id(project_id).unwrap();

    assert_eq!(project.annual_reports.len() + 1, project_with_report.annual_reports.len());
    assert_eq!(REPORT_PROJECT_OWNER_SIGN_PENDING, project_with_report.annual_reports.last().unwrap().state);
    assert_eq!(create_report_result, Ok(()));
}

#[test]
fn it_works_for_create_new_annual_report_multiple_annual_reports_gold_standard() {
    let mut rt = new_test_ext();
    let (project, project_id, owner) = get_registerd_project_and_owner_gold_standard(&mut rt);

    let report_id = create_annual_report_file(&mut rt, owner);
    let _ = rt.create_annual_report(owner, project_id, report_id, TEST_CARBON_CREDITS_COUNT,
        get_test_carbon_credits_name() , get_test_carbon_credits_symbol(), TEST_CARBON_CREDITS_DECIMAL
    );
    let create_second_report_result = rt.create_annual_report(owner, project_id, report_id, TEST_CARBON_CREDITS_COUNT,
        get_test_carbon_credits_name() , get_test_carbon_credits_symbol(), TEST_CARBON_CREDITS_DECIMAL
    );
    let project_with_report = rt.get_proj_by_id(project_id).unwrap();

    assert_ne!(create_second_report_result, DispatchResult::Ok(()));
    assert_eq!(project.annual_reports.len() + 1, project_with_report.annual_reports.len());
}

#[test]
fn it_fails_for_create_new_annual_report_empty_name_gold_standard() {
    let mut rt = new_test_ext();
    let (project, project_id, owner) = get_registerd_project_and_owner_gold_standard(&mut rt);
    let first_file = create_annual_report_file(&mut rt, owner);
    let first_result = rt.create_annual_report(owner, project_id, first_file, TEST_CARBON_CREDITS_COUNT,
        Vec::new() , get_test_carbon_credits_symbol(), TEST_CARBON_CREDITS_DECIMAL
    );
    let second_file = create_annual_report_file(&mut rt, owner);
    let second_result = rt.create_annual_report(owner, project_id, second_file, TEST_CARBON_CREDITS_COUNT,
        get_test_carbon_credits_name(), Vec::new(), TEST_CARBON_CREDITS_DECIMAL
    );
    let results = vec![first_result, second_result];

    let project_with_report = rt.get_proj_by_id(project_id).unwrap();

    assert_eq!(project.annual_reports.len(), project_with_report.annual_reports.len());

    results.iter().for_each(|create_report_result| {
        assert_eq!(*create_report_result, Err(Error::BadMetadataParameters));
    })
}

#[test]
fn it_fails_for_create_new_annual_report_no_file() {
    let mut rt = new_test_ext();
    let (project, project_id, owner) = get_registerd_project_and_owner_gold_standard(&mut rt);
    let unexisting_file_id = [1,2,3,4,5,6,7,8,9,1,1,1,1,1,1,1];

    let create_report_result = rt.create_annual_report(owner, project_id, unexisting_file_id, TEST_CARBON_CREDITS_COUNT,
        get_test_carbon_credits_name() , get_test_carbon_credits_symbol(), TEST_CARBON_CREDITS_DECIMAL
    );
    let project_with_report = rt.get_proj_by_id(project_id).unwrap();

    assert_eq!(project.annual_reports.len(), project_with_report.annual_reports.len());
    assert_eq!(create_report_result, Err(Error::AccountNotFileOwner));
}

#[test]
fn it_fails_for_create_new_annual_report_not_file_owner() {
    let mut rt = new_test_ext();
    let (project, project_id, owner) = get_registerd_project_and_owner_gold_standard(&mut rt);
    let auditor = ROLES[2].0;
    let unexisting_file_id = create_annual_report_file(&mut rt, auditor);

    let create_report_result = rt.create_annual_report(owner, project_id, unexisting_file_id, TEST_CARBON_CREDITS_COUNT,
        get_test_carbon_credits_name() , get_test_carbon_credits_symbol(), TEST_CARBON_CREDITS_DECIMAL
    );
    let project_with_report = rt.get_proj_by_id(project_id).unwrap();

    assert_eq!(project.annual_reports.len(), project_with_report.annual_reports.len());
    assert_eq!(create_report_result, Err(Error::AccountNotFileOwner));
}

#[test]
fn it_fails_for_create_new_annual_report_gold_standard_not_registered() {
    let mut rt = new_test_ext();
    let owner = ROLES[1].0;
    let auditor = ROLES[2].0;
    let standard_acc = ROLES[3].0;
    let standard = Standard::GOLD_STANDARD;
    let project_id = 1;
    let report_id = create_annual_report_file(&mut rt, owner);

    let mut report_results = Vec::with_capacity(4);
    let mut projects = Vec::with_capacity(4);

    let project_file = create_project_documentation_file(&mut rt, owner);
    let _ = rt.create_project(owner, standard, project_file);
    report_results.push(rt.create_annual_report(owner, project_id, report_id, TEST_CARBON_CREDITS_COUNT,
        get_test_carbon_credits_name() , get_test_carbon_credits_symbol(), TEST_CARBON_CREDITS_DECIMAL
    ));
    projects.push(rt.get_proj_by_id(1).unwrap());

    let _ = rt.sign_project(owner, 1);
    report_results.push(rt.create_annual_report(owner, project_id, report_id, TEST_CARBON_CREDITS_COUNT,
        get_test_carbon_credits_name() , get_test_carbon_credits_symbol(), TEST_CARBON_CREDITS_DECIMAL
    ));
    projects.push(rt.get_proj_by_id(1).unwrap());

    let _ = rt.sign_project(auditor, 1);
    report_results.push(rt.create_annual_report(owner, project_id, report_id, TEST_CARBON_CREDITS_COUNT,
        get_test_carbon_credits_name() , get_test_carbon_credits_symbol(), TEST_CARBON_CREDITS_DECIMAL
    ));
    projects.push(rt.get_proj_by_id(1).unwrap());

    let _ = rt.sign_project(standard_acc, 1);
    report_results.push(rt.create_annual_report(owner, project_id, report_id, TEST_CARBON_CREDITS_COUNT,
        get_test_carbon_credits_name() , get_test_carbon_credits_symbol(), TEST_CARBON_CREDITS_DECIMAL
    ));
    projects.push(rt.get_proj_by_id(1).unwrap());

    // assertion after all steps
    report_results.iter().for_each(|res|{
        assert_ne!(*res, DispatchResult::Ok(()));
    });
    projects.iter().for_each(|proj|{
        assert_eq!(0, proj.annual_reports.len());
    });
}

#[test]
fn it_fails_for_create_new_annual_report_not_an_owner_role_gold_standard() {
    let mut rt = new_test_ext();
    let (project, project_id, owner) = get_registerd_project_and_owner_gold_standard(&mut rt);
    let report_id = create_annual_report_file(&mut rt, owner);

    ROLES.iter()
        .filter(|x| x.1 != PROJECT_OWNER_ROLE_MASK)
        .map(|x| x.0)
        .for_each(|x| {
            let create_report_result = rt.create_annual_report(x, project_id, report_id, TEST_CARBON_CREDITS_COUNT,
                get_test_carbon_credits_name() , get_test_carbon_credits_symbol(), TEST_CARBON_CREDITS_DECIMAL
            );
            let project_with_report = rt.get_proj_by_id(project_id).unwrap();

            assert_eq!(project.annual_reports.len(), project_with_report.annual_reports.len());
            assert_ne!(create_report_result, DispatchResult::Ok(()));
            assert_eq!(create_report_result, Err(Error::AccountNotOwner));
        });
}

#[test]
fn it_fails_for_create_new_annual_report_not_an_owner_of_the_project_gold_standard() {
    let mut rt = new_test_ext();
    let (project, project_id, _) = get_registerd_project_and_owner_gold_standard(&mut rt);


    // Create new acc with owner role
    let new_owner_id = create_user_with_owner_role(&mut rt);
    let report_id = create_annual_report_file(&mut rt, new_owner_id);
    let is_owner = rt.accounts.account_is_cc_project_owner(&new_owner_id);

    let create_report_result = rt.create_annual_report(new_owner_id, project_id, report_id, TEST_CARBON_CREDITS_COUNT,
        get_test_carbon_credits_name() , get_test_carbon_credits_symbol(), TEST_CARBON_CREDITS_DECIMAL
    );
    let project_with_report = rt.get_proj_by_id(project_id).unwrap();

    assert!(is_owner);
    assert_eq!(project.annual_reports.len(), project_with_report.annual_reports.len());
    assert_ne!(create_report_result, DispatchResult::Ok(()));
    assert_eq!(create_report_result, Err(Error::AccountNotOwner));
}


#[test]
fn it_works_annual_report_assign_signer() {
    let mut rt = new_test_ext();
    let (_, project_id, owner) = get_registerd_project_and_owner_gold_standard(&mut rt);

    let report_id = create_annual_report_file(&mut rt, owner);
    let _ = rt.create_annual_report(owner, project_id, report_id, TEST_CARBON_CREDITS_COUNT,
        get_test_carbon_credits_name() , get_test_carbon_credits_symbol(), TEST_CARBON_CREDITS_DECIMAL
    );

    let assign_results = vec![
        rt.assign_last_annual_report_signer(owner, ROLES[1].0, ROLES[1].1, project_id),
        rt.assign_last_annual_report_signer(owner, ROLES[2].0, ROLES[2].1, project_id),
        rt.assign_last_annual_report_signer(owner, ROLES[3].0, ROLES[3].1, project_id),
        rt.assign_last_annual_report_signer(owner, ROLES[5].0, ROLES[5].1, project_id)
    ];

    let project_with_report = rt.get_proj_by_id(project_id).unwrap();

    assign_results.iter().for_each(|result| {
            assert_eq!(*result, Ok(()));
        }
    );
    assert!(project_with_report.annual_reports.last().unwrap().is_required_signer((ROLES[1].0, ROLES[1].1)));
    assert!(project_with_report.annual_reports.last().unwrap().is_required_signer((ROLES[2].0, ROLES[2].1)));
    assert!(project_with_report.annual_reports.last().unwrap().is_required_signer((ROLES[3].0, ROLES[3].1)));
    assert!(project_with_report.annual_reports.last().unwrap().is_required_signer((ROLES[5].0, ROLES[5].1)));
}

#[test]
fn it_works_annual_report_remove_signer() {
    let mut rt = new_test_ext();
    let (_, project_id, owner) = get_registerd_project_and_owner_gold_standard(&mut rt);

    let report_id = create_annual_report_file(&mut rt, owner);
    let _ = rt.create_annual_report(owner, project_id, report_id, TEST_CARBON_CREDITS_COUNT,
        get_test_carbon_credits_name() , get_test_carbon_credits_symbol(), TEST_CARBON_CREDITS_DECIMAL
    );

    let _ = rt.assign_last_annual_report_signer(owner, ROLES[1].0, ROLES[1].1, project_id);
    let _ = rt.assign_last_annual_report_signer(owner, ROLES[2].0, ROLES[2].1, project_id);
    let _ = rt.assign_last_annual_report_signer(owner, ROLES[3].0, ROLES[3].1, project_id);
    let _ = rt.assign_last_annual_report_signer(owner, ROLES[5].0, ROLES[5].1, project_id);

    let delete_result = rt.remove_last_annual_report_signer(owner, ROLES[5].0, ROLES[5].1, project_id);
    let project_with_report = rt.get_proj_by_id(project_id).unwrap();

    assert_eq!(delete_result, Ok(()));
    assert!(!project_with_report.annual_reports.last().unwrap().is_required_signer((ROLES[5].0, ROLES[5].1)));

    // Assert that others are not deleted:
    assert!(project_with_report.annual_reports.last().unwrap().is_required_signer((ROLES[1].0, ROLES[1].1)));
    assert!(project_with_report.annual_reports.last().unwrap().is_required_signer((ROLES[2].0, ROLES[2].1)));
    assert!(project_with_report.annual_reports.last().unwrap().is_required_signer((ROLES[3].0, ROLES[3].1)));
}

#[test]
fn it_fails_annual_report_remove_unexisting_signer() {
    let mut rt = new_test_ext();
    let (_, project_id, owner) = get_registerd_project_and_owner_gold_standard(&mut rt);

    let report_id = create_annual_report_file(&mut rt, owner);
    let _ = rt.create_annual_report(owner, project_id, report_id, TEST_CARBON_CREDITS_COUNT,
        get_test_carbon_credits_name() , get_test_carbon_credits_symbol(), TEST_CARBON_CREDITS_DECIMAL
    );

    let _ = rt.assign_last_annual_report_signer(owner, ROLES[1].0, ROLES[1].1, project_id);
    let _ = rt.assign_last_annual_report_signer(owner, ROLES[2].0, ROLES[2].1, project_id);
    let _ = rt.assign_last_annual_report_signer(owner, ROLES[3].0, ROLES[3].1, project_id);

    let delete_result = rt.remove_last_annual_report_signer(owner, ROLES[5].0, ROLES[5].1, project_id);
    let project_with_report = rt.get_proj_by_id(project_id).unwrap();

    assert_eq!(delete_result, Err(Error::AccountNotGivenRoleSigner));

    assert!(project_with_report.annual_reports.last().unwrap().is_required_signer((ROLES[1].0, ROLES[1].1)));
    assert!(project_with_report.annual_reports.last().unwrap().is_required_signer((ROLES[2].0, ROLES[2].1)));
    assert!(project_with_report.annual_reports.last().unwrap().is_required_signer((ROLES[3].0, ROLES[3].1)));
}

#[test]
fn it_fails_annual_report_remove_signed_signer() {
    let mut rt = new_test_ext();
    let (_, project_id, owner) = get_registerd_project_and_owner_gold_standard(&mut rt);
    let auditor = ROLES[2].0;

    let report_id = create_annual_report_file(&mut rt, owner);
    let _ = rt.create_annual_report(owner, project_id, report_id, TEST_CARBON_CREDITS_COUNT,
        get_test_carbon_credits_name() , get_test_carbon_credits_symbol(), TEST_CARBON_CREDITS_DECIMAL
    );

    let _ = rt.assign_last_annual_report_signer(owner, ROLES[1].0, ROLES[1].1, project_id);
    let _ = rt.assign_last_annual_report_signer(owner, ROLES[2].0, ROLES[2].1, project_id);
    let _ = rt.assign_last_annual_report_signer(owner, ROLES[3].0, ROLES[3].1, project_id);
    let _ = rt.assign_last_annual_report_signer(owner, ROLES[5].0, ROLES[5].1, project_id);

    let _ = rt.sign_last_annual_report(owner, project_id);
    let _ = rt.sign_last_annual_report(auditor, project_id);

    let delete_result = rt.remove_last_annual_report_signer(owner, auditor, ROLES[2].1, project_id);
    let project_with_report = rt.get_proj_by_id(project_id).unwrap();

    assert_eq!(delete_result, Err(Error::AccountAlreadySigned));

    assert!(project_with_report.annual_reports.last().unwrap().is_required_signer((ROLES[1].0, ROLES[1].1)));
    assert!(project_with_report.annual_reports.last().unwrap().is_required_signer((ROLES[2].0, ROLES[2].1)));
    assert!(project_with_report.annual_reports.last().unwrap().is_required_signer((ROLES[3].0, ROLES[3].1)));
}


// Project Owner sends report for verification =>  Auditor provides and submits verification report =>
// Standard Approves carbon credit issuance => Registry issues carbon credits
#[test]
fn it_works_for_full_cycle_sign_annual_report_gold_standard() {
    let mut rt = new_test_ext();
    let (_, project_id, owner) = get_registerd_project_and_owner_gold_standard(&mut rt);
    let auditor = ROLES[2].0;
    let standard_acc = ROLES[3].0;
    let registry = ROLES[5].0;
    let report_id = create_annual_report_file(&mut rt, owner);

    let _ = rt.create_annual_report(owner, project_id, report_id, TEST_CARBON_CREDITS_COUNT,
        get_test_carbon_credits_name() , get_test_carbon_credits_symbol(), TEST_CARBON_CREDITS_DECIMAL
    );
    assign_annual_report_mock_users_required_signers_gold_standard(&mut rt, project_id);

    let tuple_vec = vec![
        (owner, REPORT_AUDITOR_SIGN_PENDING),
        (auditor, REPORT_STANDARD_SIGN_PENDING),
        (standard_acc, REPORT_REGISTRY_SIGN_PENDING),
        (registry, REPORT_ISSUED)
    ];

    for account_state_tuple in tuple_vec.iter() {
        let acc = account_state_tuple.0;
        let state = account_state_tuple.1;
        let result = rt.sign_last_annual_report(acc, project_id);
        let project = rt.get_proj_by_id(project_id).unwrap();

        assert!(rt.filesign.address_has_signed_the_file(report_id, &acc));
        assert_eq!(result, Ok(()));
        assert_eq!(state, project.annual_reports.last().unwrap().state);
    }
}

#[test]
fn it_fails_sign_annual_report_not_an_owner_of_project_gold_standard() {
    let mut rt = new_test_ext();
    let (_, project_id, owner) = get_registerd_project_and_owner_gold_standard(&mut rt);
    let report_id = create_annual_report_file(&mut rt, owner);
    let _ = rt.create_annual_report(owner, project_id, report_id, TEST_CARBON_CREDITS_COUNT,
        get_test_carbon_credits_name() , get_test_carbon_credits_symbol(), TEST_CARBON_CREDITS_DECIMAL
    );
    assign_annual_report_mock_users_required_signers_gold_standard(&mut rt, project_id);

    // Create new acc with owner role
    let new_owner_id = create_user_with_owner_role(&mut rt);
    let is_owner = rt.accounts.account_is_cc_project_owner(&new_owner_id);
    let owner_sign_result = rt.sign_last_annual_report(new_owner_id, 1);

    assert!(is_owner);
    assert_ne!(owner_sign_result, DispatchResult::Ok(()));
}

#[test]
fn it_fails_sign_annual_report_not_an_owner_role_gold_standard() {
    let mut rt = new_test_ext();
    let (_, project_id, owner) = get_registerd_project_and_owner_gold_standard(&mut rt);
    let report_id = create_annual_report_file(&mut rt, owner);
    let _ = rt.create_annual_report(owner, project_id, report_id, TEST_CARBON_CREDITS_COUNT,
        get_test_carbon_credits_name() , get_test_carbon_credits_symbol(), TEST_CARBON_CREDITS_DECIMAL
    );

    ROLES.iter()
    .filter(|x| x.1 != PROJECT_OWNER_ROLE_MASK)
    .map(|x| x.0)
    .for_each(|x| {
        let owner_sign_result = rt.sign_last_annual_report(x, 1);
        assert_ne!(owner_sign_result, DispatchResult::Ok(()));
    });
}

#[test]
fn it_fails_sign_annual_report_owner_not_in_signers_gold_standard() {
    // OWNER NOT IN SIGNERS
    let mut rt = new_test_ext();
    let (_, project_id, owner) = get_registerd_project_and_owner_gold_standard(&mut rt);
    let report_id = create_annual_report_file(&mut rt, owner);
    let _ = rt.create_annual_report(owner, project_id, report_id, TEST_CARBON_CREDITS_COUNT,
        get_test_carbon_credits_name() , get_test_carbon_credits_symbol(), TEST_CARBON_CREDITS_DECIMAL
    );
    let owner_sign_result = rt.sign_last_annual_report(owner, 1);
    assert_eq!(owner_sign_result, Err(Error::IncorrectAnnualReportSigner));
}

#[test]
fn it_fails_sign_annual_report_auditor_not_in_signers_gold_standard() {
    // AUDITOR NOT IN SIGNERS
    let mut rt = new_test_ext();
    let (_, project_id, owner) = get_registerd_project_and_owner_gold_standard(&mut rt);
    let report_id = create_annual_report_file(&mut rt, owner);

    let _ = rt.create_annual_report(owner, project_id, report_id, TEST_CARBON_CREDITS_COUNT,
        get_test_carbon_credits_name() , get_test_carbon_credits_symbol(), TEST_CARBON_CREDITS_DECIMAL
    );
    let _ = rt.assign_last_annual_report_signer(owner, owner, ROLES[1].1, project_id);
    let _owner_sign_result = rt.sign_last_annual_report(owner, 1);
    let auditor = ROLES[2].0;

    let auditor_sign_result = rt.sign_last_annual_report(auditor, 1);
    assert_eq!(auditor_sign_result, Err(Error::IncorrectAnnualReportSigner));
}

#[test]
fn it_fails_sign_annual_report_standard_not_in_signers_gold_standard() {
    // STANDARD NOT IN SIGNERS
    let mut rt = new_test_ext();
    let (_, project_id, owner) = get_registerd_project_and_owner_gold_standard(&mut rt);
    let report_id = create_annual_report_file(&mut rt, owner);
    let auditor = ROLES[2].0;
    let standard_acc = ROLES[3].0;

    let _ = rt.create_annual_report(owner, project_id, report_id, TEST_CARBON_CREDITS_COUNT,
        get_test_carbon_credits_name() , get_test_carbon_credits_symbol(), TEST_CARBON_CREDITS_DECIMAL
    );
    let _ = rt.assign_last_annual_report_signer(owner, owner, ROLES[1].1, project_id);
    let _ = rt.assign_last_annual_report_signer(owner, auditor, ROLES[2].1, project_id);

    let _owner_sign_result = rt.sign_last_annual_report(owner, 1);
    let _auditor_sign_result = rt.sign_last_annual_report(auditor, 1);

    let standard_sign_result = rt.sign_last_annual_report(standard_acc, 1);

    assert_eq!(standard_sign_result, Err(Error::IncorrectAnnualReportSigner));
}

#[test]
fn it_fails_sign_annual_report_registry_not_in_signers_gold_standard() {
    // REGISTRY NOT IN SIGNERS
    let mut rt = new_test_ext();
    let (_, project_id, owner) = get_registerd_project_and_owner_gold_standard(&mut rt);
    let report_id = create_annual_report_file(&mut rt, owner);
    let auditor = ROLES[2].0;
    let standard_acc = ROLES[3].0;
    let registry = ROLES[5].0;

    let _ = rt.create_annual_report(owner, project_id, report_id, TEST_CARBON_CREDITS_COUNT,
        get_test_carbon_credits_name() , get_test_carbon_credits_symbol(), TEST_CARBON_CREDITS_DECIMAL
    );
    let _ = rt.assign_last_annual_report_signer(owner, owner, ROLES[1].1, project_id);
    let _ = rt.assign_last_annual_report_signer(owner, auditor, ROLES[2].1, project_id);
    let _ = rt.assign_last_annual_report_signer(owner, standard_acc, ROLES[3].1, project_id);

    let _owner_sign_result = rt.sign_last_annual_report(owner, 1);
    let _auditor_sign_result = rt.sign_last_annual_report(auditor, 1);
    let _standard_sign_result = rt.sign_last_annual_report(standard_acc, 1);

    let registry_sign_result = rt.sign_last_annual_report(registry, 1);
    assert_eq!(registry_sign_result, Err(Error::IncorrectAnnualReportSigner));
}

#[test]
fn it_fails_sign_annual_report_not_an_auditor_gold_standard() {
    let mut rt = new_test_ext();
    let (_, project_id, owner) = get_registerd_project_and_owner_gold_standard(&mut rt);
    let report_id = create_annual_report_file(&mut rt, owner);

    let _ = rt.create_annual_report(owner, project_id, report_id, TEST_CARBON_CREDITS_COUNT,
        get_test_carbon_credits_name() , get_test_carbon_credits_symbol(), TEST_CARBON_CREDITS_DECIMAL
    );
    assign_annual_report_mock_users_required_signers_gold_standard(&mut rt, project_id);
    let _ = rt.sign_last_annual_report(owner, project_id);


    ROLES.iter()
        .filter(|x| x.1 != AUDITOR_ROLE_MASK)
        .map(|x| x.0)
        .for_each(|x| {
            let auditor_sign_result = rt.sign_last_annual_report(x, project_id);
            assert_ne!(auditor_sign_result, DispatchResult::Ok(()));
        });

    let signatures_len = rt.filesign.signatures_len(report_id);

    assert_eq!(1, signatures_len);
}

#[test]
fn it_fails_sign_annual_report_not_a_standard_role_gold_standard() {
    let mut rt = new_test_ext();
    let (_, project_id, owner) = get_registerd_project_and_owner_gold_standard(&mut rt);
    let report_id = create_annual_report_file(&mut rt, owner);
    let auditor = ROLES[2].0;

    let _ = rt.create_annual_report(owner, project_id, report_id, TEST_CARBON_CREDITS_COUNT,
        get_test_carbon_credits_name() , get_test_carbon_credits_symbol(), TEST_CARBON_CREDITS_DECIMAL
    );
    assign_annual_report_mock_users_required_signers_gold_standard(&mut rt, project_id);
    let _ = rt.sign_last_annual_report(owner, project_id);
    let _ = rt.sign_last_annual_report(auditor, project_id);

    ROLES.iter()
        .filter(|x| x.1 != STANDARD_ROLE_MASK)
        .map(|x| x.0)
        .for_each(|x| {
            let standard_sign_result = rt.sign_last_annual_report(x, project_id);
            assert_ne!(standard_sign_result, DispatchResult::Ok(()));
        });

    let signatures_len = rt.filesign.signatures_len(report_id);

    assert_eq!(2, signatures_len);
}

#[test]
fn it_fails_sign_annual_report_not_an_registry_role_gold_standard() {
    let mut rt = new_test_ext();
    let (_, project_id, owner) = get_registerd_project_and_owner_gold_standard(&mut rt);
    let report_id = create_annual_report_file(&mut rt, owner);
    let auditor = ROLES[2].0;
    let standard_acc = ROLES[3].0;
    let registry = ROLES[5].0;

    let _ = rt.assign_last_annual_report_signer(owner, owner, ROLES[1].1, project_id);
    let _ = rt.assign_last_annual_report_signer(owner, auditor, ROLES[2].1, project_id);
    let _ = rt.assign_last_annual_report_signer(owner, standard_acc, ROLES[3].1, project_id);
    let _ = rt.assign_last_annual_report_signer(owner, registry, ROLES[5].1, project_id);

    let _ = rt.create_annual_report(owner, project_id, report_id, TEST_CARBON_CREDITS_COUNT,
        get_test_carbon_credits_name() , get_test_carbon_credits_symbol(), TEST_CARBON_CREDITS_DECIMAL
    );
    assign_annual_report_mock_users_required_signers_gold_standard(&mut rt, project_id);
    let _ = rt.sign_last_annual_report(owner, project_id);
    let _ = rt.sign_last_annual_report(auditor, project_id);
    let _ = rt.sign_last_annual_report(standard_acc, project_id);

    ROLES.iter()
        .filter(|x| x.1 != REGISTRY_ROLE_MASK)
        .map(|x| x.0)
        .for_each(|x| {
            let sign_result = rt.sign_last_annual_report(x, project_id);
            assert_ne!(sign_result, DispatchResult::Ok(()));
        });

    let signatures_len = rt.filesign.signatures_len(report_id);

    assert_eq!(3, signatures_len);
}

#[test]
fn it_fails_sign_annual_report_already_issued_gold_standard() {
    let mut rt = new_test_ext();
    let (_, project_id, owner) = get_registerd_project_and_owner_gold_standard(&mut rt);
    let report_id = create_annual_report_file(&mut rt, owner);
    let auditor = ROLES[2].0;
    let standard_acc = ROLES[3].0;
    let registry = ROLES[5].0;

    let _ = rt.create_annual_report(owner, project_id, report_id, TEST_CARBON_CREDITS_COUNT,
        get_test_carbon_credits_name() , get_test_carbon_credits_symbol(), TEST_CARBON_CREDITS_DECIMAL
    );

    let _ = rt.assign_last_annual_report_signer(owner, owner, ROLES[1].1, project_id);
    let _ = rt.assign_last_annual_report_signer(owner, auditor, ROLES[2].1, project_id);
    let _ = rt.assign_last_annual_report_signer(owner, standard_acc, ROLES[3].1, project_id);
    let _ = rt.assign_last_annual_report_signer(owner, registry, ROLES[5].1, project_id);

    let result_vec = vec![
        rt.sign_last_annual_report(owner, project_id),
        rt.sign_last_annual_report(auditor, project_id),
        rt.sign_last_annual_report(standard_acc, project_id),
        rt.sign_last_annual_report(registry, project_id)
    ];

    result_vec.iter().for_each(|res|{
        assert_eq!(*res, Ok(()));
    });

    ROLES.iter()
        .map(|x| x.0)
        .for_each(|x| {
            let sign_result = rt.sign_last_annual_report(x, project_id);
            assert_ne!(sign_result, DispatchResult::Ok(()));
        });
}

#[test]
fn it_works_change_report_carbon_credits_count() {
    let mut rt = new_test_ext();
    let (_, project_id, owner) = get_registerd_project_and_owner_gold_standard(&mut rt);
    let report_id = create_annual_report_file(&mut rt, owner);

    let _ = rt.create_annual_report(owner, project_id, report_id, TEST_CARBON_CREDITS_COUNT,
        get_test_carbon_credits_name() , get_test_carbon_credits_symbol(), TEST_CARBON_CREDITS_DECIMAL
    );
    let new_carbon_credits_count = 555666;
    let change_count_result = rt.change_report_carbon_credits_count(owner, project_id, new_carbon_credits_count);

    let project_with_report = rt.get_proj_by_id(project_id).unwrap();

    assert_eq!(project_with_report.annual_reports.last().unwrap().carbon_credits_count(), new_carbon_credits_count);
    assert_eq!(change_count_result, Ok(()));
}

#[test]
fn it_fails_change_report_carbon_credits_count_last_annual_report_not_owner() {
    let mut rt = new_test_ext();
    let (_, project_id, owner) = get_registerd_project_and_owner_gold_standard(&mut rt);
    let report_id = create_annual_report_file(&mut rt, owner);

    // Create new acc with owner role
    let new_owner_id = create_user_with_owner_role(&mut rt);

    let _ = rt.create_annual_report(owner, project_id, report_id, TEST_CARBON_CREDITS_COUNT,
        get_test_carbon_credits_name() , get_test_carbon_credits_symbol(), TEST_CARBON_CREDITS_DECIMAL
    );
    let new_carbon_credits_count = 555666;
    let change_count_result = rt.change_report_carbon_credits_count(new_owner_id, project_id, new_carbon_credits_count);
    let project_with_report = rt.get_proj_by_id(project_id).unwrap();

    assert_eq!(project_with_report.annual_reports.last().unwrap().carbon_credits_count(), TEST_CARBON_CREDITS_COUNT);
    assert_eq!(change_count_result, Err(Error::AccountNotOwner));
}


#[test]
fn it_fails_change_report_carbon_credits_count_last_annual_report_not_correct_state() {
    let mut rt = new_test_ext();
    let (_, project_id, owner) = get_registerd_project_and_owner_gold_standard(&mut rt);
    let report_id = create_annual_report_file(&mut rt, owner);
    let auditor = ROLES[2].0;
    let standard_acc = ROLES[3].0;
    let registry = ROLES[5].0;

    let _ = rt.create_annual_report(owner, project_id, report_id, TEST_CARBON_CREDITS_COUNT,
        get_test_carbon_credits_name() , get_test_carbon_credits_symbol(), TEST_CARBON_CREDITS_DECIMAL
    );
    let _ = rt.assign_last_annual_report_signer(owner, owner, ROLES[1].1, project_id);
    let _ = rt.assign_last_annual_report_signer(owner, auditor, ROLES[2].1, project_id);
    let _ = rt.assign_last_annual_report_signer(owner, standard_acc, ROLES[3].1, project_id);
    let _ = rt.assign_last_annual_report_signer(owner, registry, ROLES[5].1, project_id);

    let new_carbon_credits_count = 555666;
    let mut change_count_results = Vec::new();

    let _owner_sign_result = rt.sign_last_annual_report(owner, project_id);
    change_count_results.push(rt.change_report_carbon_credits_count(owner, project_id, new_carbon_credits_count));
    let _auditor_sign_result = rt.sign_last_annual_report(auditor, project_id);
    change_count_results.push(rt.change_report_carbon_credits_count(owner, project_id, new_carbon_credits_count));
    let _auditor_sign_result = rt.sign_last_annual_report(standard_acc, project_id);
    change_count_results.push(rt.change_report_carbon_credits_count(owner, project_id, new_carbon_credits_count));
    let _auditor_sign_result = rt.sign_last_annual_report(registry, project_id);
    change_count_results.push(rt.change_report_carbon_credits_count(owner, project_id, new_carbon_credits_count));

    let project_with_report = rt.get_proj_by_id(project_id).unwrap();

    assert_eq!(project_with_report.annual_reports.last().unwrap().carbon_credits_count(), TEST_CARBON_CREDITS_COUNT);
    change_count_results.iter().for_each(|res|{
        assert_eq!(*res, Err(Error::InvalidState));
    });

}

// Delete tests:
#[test]
fn it_works_delete_last_annual_report() {
    let mut rt = new_test_ext();
    let (_, project_id, owner) = get_registerd_project_and_owner_gold_standard(&mut rt);
    let report_id = create_annual_report_file(&mut rt, owner);
    let auditor = ROLES[2].0;
    let standard_acc = ROLES[3].0;
    let registry = ROLES[5].0;

    let _ = rt.create_annual_report(owner, project_id, report_id, TEST_CARBON_CREDITS_COUNT,
        get_test_carbon_credits_name() , get_test_carbon_credits_symbol(), TEST_CARBON_CREDITS_DECIMAL
    );
    let _ = rt.assign_last_annual_report_signer(owner, owner, ROLES[1].1, project_id);
    let _ = rt.assign_last_annual_report_signer(owner, auditor, ROLES[2].1, project_id);
    let _ = rt.assign_last_annual_report_signer(owner, standard_acc, ROLES[3].1, project_id);
    let _ = rt.assign_last_annual_report_signer(owner, registry, ROLES[5].1, project_id);

    let _ = rt.sign_last_annual_report(owner, project_id);
    let result = rt.delete_last_annual_report(owner, project_id);

    assert_eq!(result, Ok(()));
}

#[test]
fn it_fails_delete_issued_annual_report() {
    let mut rt = new_test_ext();
    let (_, project_id, owner) = get_registerd_project_and_owner_gold_standard(&mut rt);
    let report_id = create_annual_report_file(&mut rt, owner);
    let auditor = ROLES[2].0;
    let standard_acc = ROLES[3].0;
    let registry = ROLES[5].0;

    let _ = rt.create_annual_report(owner, project_id, report_id, TEST_CARBON_CREDITS_COUNT,
        get_test_carbon_credits_name() , get_test_carbon_credits_symbol(), TEST_CARBON_CREDITS_DECIMAL
    );

    let _ = rt.assign_last_annual_report_signer(owner, owner, ROLES[1].1, project_id);
    let _ = rt.assign_last_annual_report_signer(owner, auditor, ROLES[2].1, project_id);
    let _ = rt.assign_last_annual_report_signer(owner, standard_acc, ROLES[3].1, project_id);
    let _ = rt.assign_last_annual_report_signer(owner, registry, ROLES[5].1, project_id);

    let _ = rt.sign_last_annual_report(owner, project_id);
    let _ = rt.sign_last_annual_report(auditor, project_id);
    let _ = rt.sign_last_annual_report(standard_acc, project_id);
    let _ = rt.sign_last_annual_report(registry, project_id);

    let result = rt.delete_last_annual_report(owner, project_id);
    assert_eq!(result, Err(Error::InvalidState));
}

#[test]
fn it_fails_delete_last_annual_report_not_project_owner() {
    let mut rt = new_test_ext();
    let (_, project_id, owner) = get_registerd_project_and_owner_gold_standard(&mut rt);
    let report_id = create_annual_report_file(&mut rt, owner);

    // Create new acc with owner role
    let new_owner_id = create_user_with_owner_role(&mut rt);

    let _ = rt.create_annual_report(owner, project_id, report_id, TEST_CARBON_CREDITS_COUNT,
        get_test_carbon_credits_name() , get_test_carbon_credits_symbol(), TEST_CARBON_CREDITS_DECIMAL
    );
    let result = rt.delete_last_annual_report(new_owner_id, project_id);

    assert_eq!(result, Err(Error::AccountNotOwner));
}

#[test]
fn it_works_for_create_new_annual_report_deposit_event_gold_standard() {
    let mut rt = new_test_ext_with_event();
    let (_, project_id, owner) = get_registerd_project_and_owner_gold_standard(&mut rt);
    let report_id = create_annual_report_file(&mut rt, owner);
    let _ = rt.create_annual_report(owner, project_id, report_id, TEST_CARBON_CREDITS_COUNT,
        get_test_carbon_credits_name() , get_test_carbon_credits_symbol(), TEST_CARBON_CREDITS_DECIMAL
    );
    let last_event = rt.last_event().unwrap();
    let check_event = Event::AnnualReportCreated(owner, project_id);

    assert_eq!(check_event, last_event);
}

#[test]
fn it_works_sign_annual_report_deposit_events_gold_standard() {
    let mut rt = new_test_ext_with_event();
    let (_, project_id, owner) = get_registerd_project_and_owner_gold_standard(&mut rt);
    let auditor = ROLES[2].0;
    let standard_acc = ROLES[3].0;
    let registry = ROLES[5].0;
    let report_id = create_annual_report_file(&mut rt, owner);

    let _ = rt.create_annual_report(owner, project_id, report_id, TEST_CARBON_CREDITS_COUNT,
        get_test_carbon_credits_name() , get_test_carbon_credits_symbol(), TEST_CARBON_CREDITS_DECIMAL
    );
    assign_annual_report_mock_users_required_signers_gold_standard(&mut rt, project_id);

    let tuple_vec = vec![
        (owner, Event::AnnualReportSubmited(owner, 1)),
        (auditor, Event::AnnualReportSignedByAuditor(auditor, 1)),
        (standard_acc, Event::AnnualReportSignedByStandard(standard_acc, 1)),
        (registry, Event::AnnualReportSignedByRegistry(registry, 1)),
    ];

    tuple_vec.iter()
        .for_each(|(acc, check_event)|{
            let _ = rt.sign_last_annual_report(*acc, project_id);
            let last_event = rt.last_event().unwrap();

            assert_eq!(*check_event, last_event);
        });
}
