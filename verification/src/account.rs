//! Roles of accounts, as bits of a mask.

use vstd::prelude::*;

verus! {

/// A set of roles, one bit for each.
pub type RoleMask = u8;

/// The role that administers the accounts.
pub const MASTER_ROLE_MASK: RoleMask = 1u8;

/// The role of the owner of a project.
pub const PROJECT_OWNER_ROLE_MASK: RoleMask = 2u8;

/// The role of an auditor.
pub const AUDITOR_ROLE_MASK: RoleMask = 4u8;

/// The role of a standard body.
pub const STANDARD_ROLE_MASK: RoleMask = 8u8;

/// The role of an investor.
pub const INVESTOR_ROLE_MASK: RoleMask = 16u8;

/// The role of a registry.
pub const REGISTRY_ROLE_MASK: RoleMask = 32u8;

/// All roles together.
pub const ALL_ROLES_MASK: RoleMask = MASTER_ROLE_MASK | PROJECT_OWNER_ROLE_MASK | AUDITOR_ROLE_MASK
    | STANDARD_ROLE_MASK | AUDITOR_ROLE_MASK | INVESTOR_ROLE_MASK | REGISTRY_ROLE_MASK;

/// The masks that name at least one role and no bit outside the known roles.
pub open spec fn roles_correct(roles: RoleMask) -> bool {
    0 < roles <= 63
}

/// Whether an account with the roles `roles` holds one of the roles in `role`.
pub open spec fn has_role(roles: RoleMask, role: RoleMask) -> bool {
    roles & role != 0
}

/// `ALL_ROLES_MASK` is the union of the six single roles.
pub proof fn lemma_all_roles_mask()
    ensures
        ALL_ROLES_MASK == 63,
        forall|roles: RoleMask| roles_correct(roles) <==> roles != 0 && roles & !ALL_ROLES_MASK == 0,
{
    assert(1u8 | 2u8 | 4u8 | 8u8 | 4u8 | 16u8 | 32u8 == 63u8) by (bit_vector);
    assert forall|roles: RoleMask| roles_correct(roles) <==> roles != 0 && roles & !ALL_ROLES_MASK
        == 0 by {
        assert((0 < roles && roles <= 63u8) <==> (roles != 0 && roles & !63u8 == 0)) by (bit_vector);
    }
}

/// Whether `role` is one of the six single roles.
pub open spec fn is_single_role(role: RoleMask) -> bool {
    ||| role == MASTER_ROLE_MASK
    ||| role == PROJECT_OWNER_ROLE_MASK
    ||| role == AUDITOR_ROLE_MASK
    ||| role == STANDARD_ROLE_MASK
    ||| role == INVESTOR_ROLE_MASK
    ||| role == REGISTRY_ROLE_MASK
}

/// The single roles are bits of their own: an account with one role holds that
/// role and no other, an account without roles holds none, and an account with
/// several roles holds each of them.
pub proof fn lemma_single_roles()
    ensures
        forall|held: RoleMask, role: RoleMask|
            is_single_role(held) && is_single_role(role) ==> (#[trigger] has_role(held, role) <==> held
                == role),
        forall|role: RoleMask| !#[trigger] has_role(0, role),
        forall|first: RoleMask, second: RoleMask, role: RoleMask| #[trigger]
            has_role(first | second, role) <==> has_role(first, role) || has_role(second, role),
{
    assert forall|held: RoleMask, role: RoleMask|
        is_single_role(held) && is_single_role(role) implies (#[trigger] has_role(held, role) <==> held
        == role) by {
        assert((held == 1 || held == 2 || held == 4 || held == 8 || held == 16 || held == 32) && (role
            == 1 || role == 2 || role == 4 || role == 8 || role == 16 || role == 32) ==> (held & role
            != 0 <==> held == role)) by (bit_vector);
    }
    assert forall|role: RoleMask| !#[trigger] has_role(0, role) by {
        assert(0u8 & role == 0) by (bit_vector);
    }
    assert forall|first: RoleMask, second: RoleMask, role: RoleMask| #[trigger]
        has_role(first | second, role) <==> has_role(first, role) || has_role(second, role) by {
        assert(((first | second) & role != 0) <==> (first & role != 0 || second & role != 0))
            by (bit_vector);
    }
}

/// Whether `roles` names at least one role and no bit outside the known roles.
pub fn is_roles_correct(roles: u8) -> (correct: bool)
    ensures
        correct == roles_correct(roles),
{
    proof {
        lemma_all_roles_mask();
    }
    roles <= ALL_ROLES_MASK && roles > 0
}

/// Whether `roles` holds one of the roles in `role`.
pub fn is_selected_role(roles: RoleMask, role: RoleMask) -> (selected: bool)
    ensures
        selected == has_role(roles, role),
{
    roles & role != 0
}

/// The roles of one account.
#[derive(Clone, Copy, Debug)]
pub struct CarbonCreditAccountStruct {
    pub roles: u8,
}

impl CarbonCreditAccountStruct {
    /// The account with the roles `roles`.
    pub fn new(roles: u8) -> (account: Self)
        ensures
            account.roles == roles,
    {
        CarbonCreditAccountStruct { roles }
    }
}

impl Default for CarbonCreditAccountStruct {
    fn default() -> (account: Self)
        ensures
            account.roles == 0,
    {
        CarbonCreditAccountStruct { roles: 0 }
    }
}

} // verus!
