use vstd::prelude::*;
use crate::errors::StablecoinError;
use crate::events::RolesUpdated;
use crate::identity::Pubkey;

verus! {

/// Full control; implies every other capability.
pub const ROLE_MASTER: u8 = 1;
/// May mint.
pub const ROLE_MINTER: u8 = 2;
/// May burn from any account.
pub const ROLE_BURNER: u8 = 4;
/// May pause, unpause, freeze and thaw.
pub const ROLE_PAUSER: u8 = 8;
/// May manage the blacklist.
pub const ROLE_BLACKLISTER: u8 = 16;
/// May seize funds.
pub const ROLE_SEIZER: u8 = 32;
/// May freeze and thaw individual accounts.
pub const ROLE_FREEZER: u8 = 64;

/// The capability bitmask that one identity holds on one stablecoin.
#[derive(Clone, Copy, Debug, PartialEq, Eq, Structural)]
pub struct RoleAccount {
    pub owner: Pubkey,
    pub roles: u8,
    pub stablecoin: Pubkey,
    pub bump: u8,
}

/// Whether a bitmask holds the master bit.
pub open spec fn is_master(bits: u8) -> bool {
    bits & ROLE_MASTER != 0
}

/// Whether a bitmask authorizes the capability `role`: the bit itself or the
/// master bit, tested explicitly.
pub open spec fn holds(bits: u8, role: u8) -> bool {
    bits & role != 0 || bits & ROLE_MASTER != 0
}

/// Tests the master bit.
pub fn has_master(bits: u8) -> (r: bool)
    ensures
        r == is_master(bits),
{
    bits & ROLE_MASTER != 0
}

/// Tests whether `bits` authorizes `role`.
pub fn has_role(bits: u8, role: u8) -> (r: bool)
    ensures
        r == holds(bits, role),
{
    bits & role != 0 || bits & ROLE_MASTER != 0
}

/// A master bit implies every capability.
pub proof fn lemma_master_implies_all(bits: u8, role: u8)
    requires
        is_master(bits),
    ensures
        holds(bits, role),
{
}

/// The bitmask a stablecoin's creator receives: every capability but
/// `ROLE_FREEZER`.
pub const INITIAL_MASTER_ROLES: u8 = ROLE_MASTER | ROLE_MINTER | ROLE_BURNER | ROLE_PAUSER
    | ROLE_BLACKLISTER | ROLE_SEIZER;

/// A role record whose bitmask was overwritten with `bits`.
pub open spec fn granted(acct: RoleAccount, bits: u8) -> RoleAccount {
    RoleAccount { roles: bits, ..acct }
}

/// Overwrites the bitmask of `target` with `new_roles` (not merged with the
/// old one). Only a holder of the master bit may; any bits are accepted.
pub fn update_roles(
    authority_role: &RoleAccount,
    target_role: &mut RoleAccount,
    authority: Pubkey,
    target: Pubkey,
    new_roles: u8,
    now: i64,
) -> (r: Result<RolesUpdated, StablecoinError>)
    ensures
        match r {
            Ok(ev) => {
                &&& is_master(authority_role.roles)
                &&& *final(target_role) == granted(*old(target_role), new_roles)
                &&& ev == (RolesUpdated { authority, target, new_roles, timestamp: now })
            },
            Err(e) => {
                &&& !is_master(authority_role.roles)
                &&& e == StablecoinError::Unauthorized
                &&& *final(target_role) == *old(target_role)
            },
        },
{
    if !has_master(authority_role.roles) {
        return Err(StablecoinError::Unauthorized);
    }
    target_role.roles = new_roles;
    Ok(RolesUpdated { authority, target, new_roles, timestamp: now })
}

} // verus!
