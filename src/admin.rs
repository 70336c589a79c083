use vstd::prelude::*;
use vstd::utf8::encode_utf8;
use crate::errors::StablecoinError;
use crate::events::{
    AccountFrozen, AccountThawed, AuthorityTransferStarted, AuthorityTransferred, PauseEvent,
    StablecoinInitialized, StablecoinPaused, StablecoinUnpaused,
};
use crate::identity::Pubkey;
use crate::issuance::StablecoinState;
use crate::roles::{has_master, has_role, holds, is_master, RoleAccount, INITIAL_MASTER_ROLES, ROLE_PAUSER};

verus! {

/// Most bytes in a stablecoin's name.
pub const MAX_NAME_BYTES: usize = 32;
/// Most bytes in a stablecoin's symbol.
pub const MAX_SYMBOL_BYTES: usize = 10;

/// Feature bit: transfers go through the compliance hook.
pub const FEATURE_TRANSFER_HOOK: u8 = 1;
/// Feature bit: a permanent delegate is configured.
pub const FEATURE_PERMANENT_DELEGATE: u8 = 2;
/// Feature bit: the mint may be closed.
pub const FEATURE_MINT_CLOSE_AUTHORITY: u8 = 4;
/// Feature bit: new accounts start in a default state.
pub const FEATURE_DEFAULT_ACCOUNT_STATE: u8 = 8;

/// The number of bytes of a string in UTF-8.
pub open spec fn byte_len(s: Seq<char>) -> nat {
    encode_utf8(s).len()
}

/// The feature bits chosen at creation.
pub open spec fn initial_features(transfer_hook: bool, permanent_delegate: bool) -> u8 {
    ((if transfer_hook { FEATURE_TRANSFER_HOOK } else { 0 }) + (if permanent_delegate {
        FEATURE_PERMANENT_DELEGATE
    } else {
        0
    })) as u8
}

/// Sets up a stablecoin created by `authority` at `now`: its record, the
/// creator's role record (`INITIAL_MASTER_ROLES`) and the event.
///
/// Refused with `InvalidAmount` when the name has more than
/// `MAX_NAME_BYTES` bytes or the symbol more than `MAX_SYMBOL_BYTES`. The
/// supply starts at 0, nothing is paused, no cap, no epoch quota, no pending
/// authority, and the first epoch window opens at `now`.
pub fn initialize(
    authority: Pubkey,
    mint: Pubkey,
    stablecoin: Pubkey,
    name: String,
    symbol: String,
    decimals: u8,
    enable_transfer_hook: bool,
    enable_permanent_delegate: bool,
    now: i64,
    state_bump: u8,
    role_bump: u8,
) -> (r: Result<(StablecoinState, RoleAccount, StablecoinInitialized), StablecoinError>)
    ensures
        match r {
            Ok((s, role, ev)) => {
                &&& byte_len(name@) <= MAX_NAME_BYTES
                &&& byte_len(symbol@) <= MAX_SYMBOL_BYTES
                &&& s == (StablecoinState {
                    authority,
                    mint,
                    name,
                    symbol,
                    decimals,
                    total_supply: 0,
                    is_paused: false,
                    features: initial_features(enable_transfer_hook, enable_permanent_delegate),
                    supply_cap: 0,
                    epoch_quota: 0,
                    current_epoch_minted: 0,
                    current_epoch_start: now,
                    pending_authority: None,
                    bump: state_bump,
                })
                &&& role == (RoleAccount {
                    owner: authority,
                    roles: INITIAL_MASTER_ROLES,
                    stablecoin,
                    bump: role_bump,
                })
                &&& ev == (StablecoinInitialized { mint, authority, name, symbol, timestamp: now })
            },
            Err(e) => {
                &&& byte_len(name@) > MAX_NAME_BYTES || byte_len(symbol@) > MAX_SYMBOL_BYTES
                &&& e == StablecoinError::InvalidAmount
            },
        },
{
    if name.as_str().as_bytes().len() > MAX_NAME_BYTES {
        return Err(StablecoinError::InvalidAmount);
    }
    if symbol.as_str().as_bytes().len() > MAX_SYMBOL_BYTES {
        return Err(StablecoinError::InvalidAmount);
    }
    let features: u8 = (if enable_transfer_hook {
        FEATURE_TRANSFER_HOOK
    } else {
        0
    }) + (if enable_permanent_delegate {
        FEATURE_PERMANENT_DELEGATE
    } else {
        0
    });
    let ev = StablecoinInitialized {
        mint,
        authority,
        name: name.clone(),
        symbol: symbol.clone(),
        timestamp: now,
    };
    let state = StablecoinState {
        authority,
        mint,
        name,
        symbol,
        decimals,
        total_supply: 0,
        is_paused: false,
        features,
        supply_cap: 0,
        epoch_quota: 0,
        current_epoch_minted: 0,
        current_epoch_start: now,
        pending_authority: None,
        bump: state_bump,
    };
    let role = RoleAccount { owner: authority, roles: INITIAL_MASTER_ROLES, stablecoin, bump: role_bump };
    Ok((state, role, ev))
}

/// Approves freezing `account`: needs the pauser or master bit, and is
/// refused while paused. Nothing is recorded here.
pub fn freeze_account(
    state: &StablecoinState,
    pauser_role: &RoleAccount,
    pauser: Pubkey,
    account: Pubkey,
    now: i64,
) -> (r: Result<AccountFrozen, StablecoinError>)
    ensures
        match r {
            Ok(ev) => !state.is_paused && holds(pauser_role.roles, ROLE_PAUSER) && ev == (
            AccountFrozen { pauser, account, timestamp: now }),
            Err(e) => e == (if state.is_paused {
                StablecoinError::ContractPaused
            } else {
                StablecoinError::Unauthorized
            }) && (state.is_paused || !holds(pauser_role.roles, ROLE_PAUSER)),
        },
{
    if state.is_paused {
        return Err(StablecoinError::ContractPaused);
    }
    if !has_role(pauser_role.roles, ROLE_PAUSER) {
        return Err(StablecoinError::Unauthorized);
    }
    Ok(AccountFrozen { pauser, account, timestamp: now })
}

/// Approves thawing `account`: needs the pauser or master bit, and is
/// allowed while paused so that a wrongly frozen account can be recovered.
pub fn thaw_account(pauser_role: &RoleAccount, pauser: Pubkey, account: Pubkey, now: i64) -> (r:
    Result<AccountThawed, StablecoinError>)
    ensures
        match r {
            Ok(ev) => holds(pauser_role.roles, ROLE_PAUSER) && ev == (AccountThawed {
                pauser,
                account,
                timestamp: now,
            }),
            Err(e) => !holds(pauser_role.roles, ROLE_PAUSER) && e == StablecoinError::Unauthorized,
        },
{
    if !has_role(pauser_role.roles, ROLE_PAUSER) {
        return Err(StablecoinError::Unauthorized);
    }
    Ok(AccountThawed { pauser, account, timestamp: now })
}

/// Sets the pause flag to `paused`; needs the pauser or master bit.
pub fn set_paused(
    state: &mut StablecoinState,
    pauser_role: &RoleAccount,
    pauser: Pubkey,
    paused: bool,
    now: i64,
) -> (r: Result<PauseEvent, StablecoinError>)
    ensures
        match r {
            Ok(ev) => {
                &&& holds(pauser_role.roles, ROLE_PAUSER)
                &&& *final(state) == (StablecoinState { is_paused: paused, ..*old(state) })
                &&& ev == (if paused {
                    PauseEvent::Paused(StablecoinPaused { pauser, timestamp: now })
                } else {
                    PauseEvent::Unpaused(StablecoinUnpaused { pauser, timestamp: now })
                })
            },
            Err(e) => {
                &&& !holds(pauser_role.roles, ROLE_PAUSER)
                &&& e == StablecoinError::Unauthorized
                &&& *final(state) == *old(state)
            },
        },
{
    if !has_role(pauser_role.roles, ROLE_PAUSER) {
        return Err(StablecoinError::Unauthorized);
    }
    state.is_paused = paused;
    if paused {
        Ok(PauseEvent::Paused(StablecoinPaused { pauser, timestamp: now }))
    } else {
        Ok(PauseEvent::Unpaused(StablecoinUnpaused { pauser, timestamp: now }))
    }
}

/// First step of an authority transfer: the current authority names
/// `new_authority` as pending. Anyone else is refused.
pub fn transfer_authority(
    state: &mut StablecoinState,
    authority: Pubkey,
    new_authority: Pubkey,
    now: i64,
) -> (r: Result<AuthorityTransferStarted, StablecoinError>)
    ensures
        match r {
            Ok(ev) => {
                &&& authority == old(state).authority
                &&& *final(state) == (StablecoinState {
                    pending_authority: Some(new_authority),
                    ..*old(state)
                })
                &&& ev == (AuthorityTransferStarted {
                    previous_authority: authority,
                    pending_authority: new_authority,
                    timestamp: now,
                })
            },
            Err(e) => {
                &&& authority != old(state).authority
                &&& e == StablecoinError::InvalidAuthority
                &&& *final(state) == *old(state)
            },
        },
{
    if authority != state.authority {
        return Err(StablecoinError::InvalidAuthority);
    }
    state.pending_authority = Some(new_authority);
    Ok(AuthorityTransferStarted { previous_authority: authority, pending_authority: new_authority, timestamp: now })
}

/// Second step of an authority transfer: the pending authority claims
/// control, and the pending slot is cleared. Anyone else is refused, as is
/// every caller when no transfer is pending.
pub fn accept_authority(state: &mut StablecoinState, caller: Pubkey, now: i64) -> (r: Result<
    AuthorityTransferred,
    StablecoinError,
>)
    ensures
        match r {
            Ok(ev) => {
                &&& old(state).pending_authority == Some(caller)
                &&& *final(state) == (StablecoinState {
                    authority: caller,
                    pending_authority: None,
                    ..*old(state)
                })
                &&& ev == (AuthorityTransferred {
                    previous_authority: old(state).authority,
                    new_authority: caller,
                    timestamp: now,
                })
            },
            Err(e) => {
                &&& old(state).pending_authority != Some(caller)
                &&& e == StablecoinError::InvalidAuthority
                &&& *final(state) == *old(state)
            },
        },
{
    match state.pending_authority {
        Some(p) => {
            if p != caller {
                return Err(StablecoinError::InvalidAuthority);
            }
        },
        None => return Err(StablecoinError::InvalidAuthority),
    }
    let previous_authority = state.authority;
    state.authority = caller;
    state.pending_authority = None;
    Ok(AuthorityTransferred { previous_authority, new_authority: caller, timestamp: now })
}

/// Sets the mint-close-authority feature bit; only a master may.
pub fn enable_mint_close_authority(state: &mut StablecoinState, authority_role: &RoleAccount) -> (r:
    Result<(), StablecoinError>)
    ensures
        match r {
            Ok(()) => is_master(authority_role.roles) && *final(state) == (StablecoinState {
                features: old(state).features | FEATURE_MINT_CLOSE_AUTHORITY,
                ..*old(state)
            }),
            Err(e) => !is_master(authority_role.roles) && e == StablecoinError::Unauthorized
                && *final(state) == *old(state),
        },
{
    if !has_master(authority_role.roles) {
        return Err(StablecoinError::Unauthorized);
    }
    state.features = state.features | FEATURE_MINT_CLOSE_AUTHORITY;
    Ok(())
}

/// Sets the default-account-state feature bit; only a master may.
pub fn enable_default_account_state(state: &mut StablecoinState, authority_role: &RoleAccount) -> (r:
    Result<(), StablecoinError>)
    ensures
        match r {
            Ok(()) => is_master(authority_role.roles) && *final(state) == (StablecoinState {
                features: old(state).features | FEATURE_DEFAULT_ACCOUNT_STATE,
                ..*old(state)
            }),
            Err(e) => !is_master(authority_role.roles) && e == StablecoinError::Unauthorized
                && *final(state) == *old(state),
        },
{
    if !has_master(authority_role.roles) {
        return Err(StablecoinError::Unauthorized);
    }
    state.features = state.features | FEATURE_DEFAULT_ACCOUNT_STATE;
    Ok(())
}

} // verus!
