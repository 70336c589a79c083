use vstd::prelude::*;
use crate::errors::StablecoinError;
use crate::events::{BatchMinted, MinterQuotaUpdated, TokensBurned, TokensMinted};
use crate::identity::Pubkey;
use crate::roles::{has_master, has_role, holds, is_master, RoleAccount, ROLE_BURNER, ROLE_MINTER};

verus! {

/// Length of one epoch-quota window, in seconds.
pub const EPOCH_SECONDS: i64 = 86400;

/// Most entries in one batch mint.
pub const MAX_BATCH: usize = 10;

/// The record of one stablecoin: its authority, supply, limits and the
/// current epoch window.
#[derive(Clone, Debug)]
pub struct StablecoinState {
    pub authority: Pubkey,
    pub mint: Pubkey,
    pub name: String,
    pub symbol: String,
    pub decimals: u8,
    pub total_supply: u64,
    pub is_paused: bool,
    pub features: u8,
    /// 0 means unlimited.
    pub supply_cap: u64,
    /// 0 means unlimited.
    pub epoch_quota: u64,
    pub current_epoch_minted: u64,
    pub current_epoch_start: i64,
    pub pending_authority: Option<Pubkey>,
    pub bump: u8,
}

impl StablecoinState {
    /// The supply is within the cap, and the current window within the
    /// epoch quota, each where one is set.
    pub open spec fn within_limits(&self) -> bool {
        &&& self.supply_cap != 0 ==> self.total_supply <= self.supply_cap
        &&& self.epoch_quota != 0 ==> self.current_epoch_minted <= self.epoch_quota
    }
}

/// The quota of one minter and what it has minted so far.
#[derive(Clone, Copy, Debug, PartialEq, Eq, Structural)]
pub struct MinterInfo {
    pub minter: Pubkey,
    pub quota: u64,
    pub minted: u64,
    pub stablecoin: Pubkey,
    pub bump: u8,
}

/// Whether a mint at `now` starts a new epoch window.
pub open spec fn rolls_over(s: StablecoinState, now: i64) -> bool {
    s.epoch_quota != 0 && now - s.current_epoch_start >= EPOCH_SECONDS
}

/// The amount minted in the window that a mint at `now` falls in.
pub open spec fn epoch_minted_at(s: StablecoinState, now: i64) -> int {
    if rolls_over(s, now) {
        0
    } else {
        s.current_epoch_minted as int
    }
}

/// The start of the window that a mint at `now` falls in.
pub open spec fn epoch_start_at(s: StablecoinState, now: i64) -> i64 {
    if rolls_over(s, now) {
        now
    } else {
        s.current_epoch_start
    }
}

/// The first limit that issuing `total` at `now` would break, if any: the
/// minter's quota (not for a master), the supply cap, then the epoch quota,
/// each preceded by the overflow of the sum that it compares.
pub open spec fn issue_error(
    s: StablecoinState,
    bits: u8,
    info: MinterInfo,
    total: int,
    now: i64,
) -> Option<StablecoinError> {
    if !is_master(bits) && info.minted + total > u64::MAX {
        Some(StablecoinError::MathOverflow)
    } else if !is_master(bits) && info.minted + total > info.quota {
        Some(StablecoinError::QuotaExceeded)
    } else if s.total_supply + total > u64::MAX {
        Some(StablecoinError::MathOverflow)
    } else if s.supply_cap != 0 && s.total_supply + total > s.supply_cap {
        Some(StablecoinError::SupplyCapExceeded)
    } else if s.epoch_quota != 0 && !(i64::MIN <= now - s.current_epoch_start <= i64::MAX) {
        Some(StablecoinError::MathOverflow)
    } else if epoch_minted_at(s, now) + total > u64::MAX {
        Some(StablecoinError::MathOverflow)
    } else if s.epoch_quota != 0 && epoch_minted_at(s, now) + total > s.epoch_quota {
        Some(StablecoinError::EpochQuotaExceeded)
    } else {
        None
    }
}

/// The record after `total` was issued at `now`.
pub open spec fn after_issue(s: StablecoinState, total: int, now: i64) -> StablecoinState {
    StablecoinState {
        total_supply: (s.total_supply + total) as u64,
        current_epoch_minted: (epoch_minted_at(s, now) + total) as u64,
        current_epoch_start: epoch_start_at(s, now),
        ..s
    }
}

/// The minter's record after it issued `total`; a master's is not kept.
pub open spec fn after_issue_info(info: MinterInfo, bits: u8, total: int) -> MinterInfo {
    if is_master(bits) {
        info
    } else {
        MinterInfo { minted: (info.minted + total) as u64, ..info }
    }
}

/// Why a mint of `amount` would be refused, if it would.
pub open spec fn mint_error(
    s: StablecoinState,
    bits: u8,
    info: MinterInfo,
    amount: u64,
    now: i64,
) -> Option<StablecoinError> {
    if s.is_paused {
        Some(StablecoinError::ContractPaused)
    } else if amount == 0 {
        Some(StablecoinError::InvalidAmount)
    } else if !holds(bits, ROLE_MINTER) {
        Some(StablecoinError::Unauthorized)
    } else {
        issue_error(s, bits, info, amount as int, now)
    }
}

/// Checks the quota, the cap and the epoch window for issuing `total`, and
/// on success records it. On failure nothing changes.
fn issue(
    state: &mut StablecoinState,
    bits: u8,
    info: &mut MinterInfo,
    total: u64,
    now: i64,
) -> (r: Result<(), StablecoinError>)
    ensures
        match r {
            Ok(()) => {
                &&& issue_error(*old(state), bits, *old(info), total as int, now) is None
                &&& *final(state) == after_issue(*old(state), total as int, now)
                &&& *final(info) == after_issue_info(*old(info), bits, total as int)
            },
            Err(e) => {
                &&& issue_error(*old(state), bits, *old(info), total as int, now) == Some(e)
                &&& *final(state) == *old(state)
                &&& *final(info) == *old(info)
            },
        },
{
    let master = has_master(bits);
    if !master {
        let new_minted = match info.minted.checked_add(total) {
            Some(v) => v,
            None => return Err(StablecoinError::MathOverflow),
        };
        if new_minted > info.quota {
            return Err(StablecoinError::QuotaExceeded);
        }
    }
    let new_supply = match state.total_supply.checked_add(total) {
        Some(v) => v,
        None => return Err(StablecoinError::MathOverflow),
    };
    if state.supply_cap != 0 && new_supply > state.supply_cap {
        return Err(StablecoinError::SupplyCapExceeded);
    }
    let mut epoch_minted = state.current_epoch_minted;
    let mut epoch_start = state.current_epoch_start;
    if state.epoch_quota != 0 {
        let elapsed = match now.checked_sub(state.current_epoch_start) {
            Some(v) => v,
            None => return Err(StablecoinError::MathOverflow),
        };
        if elapsed >= EPOCH_SECONDS {
            epoch_minted = 0;
            epoch_start = now;
        }
    }
    let new_epoch_minted = match epoch_minted.checked_add(total) {
        Some(v) => v,
        None => return Err(StablecoinError::MathOverflow),
    };
    if state.epoch_quota != 0 && new_epoch_minted > state.epoch_quota {
        return Err(StablecoinError::EpochQuotaExceeded);
    }
    state.total_supply = new_supply;
    state.current_epoch_minted = new_epoch_minted;
    state.current_epoch_start = epoch_start;
    if !master {
        info.minted = info.minted + total;
    }
    Ok(())
}

/// Mints `amount` to `recipient` on behalf of `minter`.
///
/// Refused while paused, for a zero amount, for a caller without the minter
/// or master bit, and when the minter's quota (masters have none), the supply
/// cap or the epoch quota would be exceeded or a sum would overflow. A mint
/// at least `EPOCH_SECONDS` after the current window began first opens a new
/// window at `now`. On success the supply, the window and the minter's record
/// grow by `amount`; on refusal nothing changes.
pub fn mint(
    state: &mut StablecoinState,
    minter_role: &RoleAccount,
    minter_info: &mut MinterInfo,
    minter: Pubkey,
    recipient: Pubkey,
    amount: u64,
    now: i64,
) -> (r: Result<TokensMinted, StablecoinError>)
    ensures
        match r {
            Ok(ev) => {
                &&& mint_error(*old(state), minter_role.roles, *old(minter_info), amount, now) is None
                &&& *final(state) == after_issue(*old(state), amount as int, now)
                &&& *final(minter_info) == after_issue_info(
                    *old(minter_info),
                    minter_role.roles,
                    amount as int,
                )
                &&& ev == (TokensMinted { minter, recipient, amount, timestamp: now })
            },
            Err(e) => {
                &&& mint_error(*old(state), minter_role.roles, *old(minter_info), amount, now)
                    == Some(e)
                &&& *final(state) == *old(state)
                &&& *final(minter_info) == *old(minter_info)
            },
        },
{
    if state.is_paused {
        return Err(StablecoinError::ContractPaused);
    }
    if amount == 0 {
        return Err(StablecoinError::InvalidAmount);
    }
    if !has_role(minter_role.roles, ROLE_MINTER) {
        return Err(StablecoinError::Unauthorized);
    }
    match issue(state, minter_role.roles, minter_info, amount, now) {
        Ok(()) => Ok(TokensMinted { minter, recipient, amount, timestamp: now }),
        Err(e) => Err(e),
    }
}

/// The sum of a list of amounts.
pub open spec fn sum_amounts(a: Seq<u64>) -> int
    decreases a.len(),
{
    if a.len() == 0 {
        0
    } else {
        sum_amounts(a.drop_last()) + a.last()
    }
}

/// The first fault met while adding up `a` in order: a zero amount, or a
/// running total past `u64::MAX`.
pub open spec fn total_error(a: Seq<u64>) -> Option<StablecoinError>
    decreases a.len(),
{
    if a.len() == 0 {
        None
    } else if total_error(a.drop_last()) is Some {
        total_error(a.drop_last())
    } else if a.last() == 0 {
        Some(StablecoinError::InvalidAmount)
    } else if sum_amounts(a) > u64::MAX {
        Some(StablecoinError::MathOverflow)
    } else {
        None
    }
}

/// Why a batch mint would be refused, if it would. The limits are checked
/// once, against the sum of the batch.
pub open spec fn batch_mint_error(
    s: StablecoinState,
    bits: u8,
    info: MinterInfo,
    amounts: Seq<u64>,
    recipient_count: int,
    now: i64,
) -> Option<StablecoinError> {
    if amounts.len() == 0 || amounts.len() > MAX_BATCH || recipient_count != amounts.len() {
        Some(StablecoinError::InvalidAmount)
    } else if s.is_paused {
        Some(StablecoinError::ContractPaused)
    } else if !holds(bits, ROLE_MINTER) {
        Some(StablecoinError::Unauthorized)
    } else if total_error(amounts) is Some {
        total_error(amounts)
    } else {
        issue_error(s, bits, info, sum_amounts(amounts), now)
    }
}

/// A fault in a prefix is the fault of the whole list.
proof fn lemma_total_error_extends(a: Seq<u64>, k: int)
    requires
        0 <= k <= a.len(),
        total_error(a.subrange(0, k)) is Some,
    ensures
        total_error(a) == total_error(a.subrange(0, k)),
    decreases a.len(),
{
    if a.len() == k {
        assert(a.subrange(0, k) =~= a);
    } else {
        assert(a.drop_last().subrange(0, k) =~= a.subrange(0, k));
        lemma_total_error_extends(a.drop_last(), k);
    }
}

/// Mints `amounts[i]` to the `i`-th of `recipient_count` recipients.
///
/// The batch holds 1 to `MAX_BATCH` amounts, one per recipient, each nonzero,
/// and their sum must fit in a `u64`; the quota, the cap and the epoch quota
/// are then checked once against that sum. Any refusal rejects the whole
/// batch and changes nothing; on success the records grow by the sum.
pub fn batch_mint(
    state: &mut StablecoinState,
    minter_role: &RoleAccount,
    minter_info: &mut MinterInfo,
    minter: Pubkey,
    amounts: &Vec<u64>,
    recipient_count: usize,
    now: i64,
) -> (r: Result<BatchMinted, StablecoinError>)
    ensures
        match r {
            Ok(ev) => {
                &&& batch_mint_error(
                    *old(state),
                    minter_role.roles,
                    *old(minter_info),
                    amounts@,
                    recipient_count as int,
                    now,
                ) is None
                &&& *final(state) == after_issue(*old(state), sum_amounts(amounts@), now)
                &&& *final(minter_info) == after_issue_info(
                    *old(minter_info),
                    minter_role.roles,
                    sum_amounts(amounts@),
                )
                &&& ev == (BatchMinted {
                    minter,
                    recipients: amounts@.len() as u16,
                    total_amount: sum_amounts(amounts@) as u64,
                    timestamp: now,
                })
            },
            Err(e) => {
                &&& batch_mint_error(
                    *old(state),
                    minter_role.roles,
                    *old(minter_info),
                    amounts@,
                    recipient_count as int,
                    now,
                ) == Some(e)
                &&& *final(state) == *old(state)
                &&& *final(minter_info) == *old(minter_info)
            },
        },
{
    let n = amounts.len();
    if n == 0 || n > MAX_BATCH || recipient_count != n {
        return Err(StablecoinError::InvalidAmount);
    }
    if state.is_paused {
        return Err(StablecoinError::ContractPaused);
    }
    if !has_role(minter_role.roles, ROLE_MINTER) {
        return Err(StablecoinError::Unauthorized);
    }
    let mut total: u64 = 0;
    let mut i: usize = 0;
    while i < n
        invariant
            n == amounts@.len(),
            0 < n <= MAX_BATCH,
            recipient_count == n,
            !state.is_paused,
            holds(minter_role.roles, ROLE_MINTER),
            *state == *old(state),
            *minter_info == *old(minter_info),
            0 <= i <= n,
            total_error(amounts@.subrange(0, i as int)) is None,
            total == sum_amounts(amounts@.subrange(0, i as int)),
        decreases n - i,
    {
        let a = amounts[i];
        let ghost prefix = amounts@.subrange(0, i + 1);
        proof {
            assert(prefix.drop_last() =~= amounts@.subrange(0, i as int));
            assert(prefix.last() == a);
        }
        if a == 0 {
            proof {
                assert(total_error(prefix) == Some(StablecoinError::InvalidAmount));
                lemma_total_error_extends(amounts@, i + 1);
            }
            return Err(StablecoinError::InvalidAmount);
        }
        total = match total.checked_add(a) {
            Some(v) => v,
            None => {
                proof {
                    assert(sum_amounts(prefix) == total + a);
                    assert(total_error(prefix) == Some(StablecoinError::MathOverflow));
                    lemma_total_error_extends(amounts@, i + 1);
                }
                return Err(StablecoinError::MathOverflow);
            },
        };
        i = i + 1;
    }
    proof {
        assert(amounts@.subrange(0, n as int) =~= amounts@);
    }
    match issue(state, minter_role.roles, minter_info, total, now) {
        Ok(()) => Ok(BatchMinted { minter, recipients: n as u16, total_amount: total, timestamp: now }),
        Err(e) => Err(e),
    }
}

/// Under whose authority a burn moves the funds.
#[derive(Clone, Copy, Debug, PartialEq, Eq, Structural)]
pub enum BurnAuthority {
    /// A holder of the burner or master bit, through the stablecoin's own
    /// burn authority; it may burn from any account.
    Burner,
    /// The owner of the funds, burning its own.
    Owner,
}

/// Why a burn would be refused, if it would.
pub open spec fn burn_error(
    s: StablecoinState,
    bits: u8,
    burner: Pubkey,
    owner: Pubkey,
    amount: u64,
) -> Option<StablecoinError> {
    if s.is_paused {
        Some(StablecoinError::ContractPaused)
    } else if amount == 0 {
        Some(StablecoinError::InvalidAmount)
    } else if !holds(bits, ROLE_BURNER) && owner != burner {
        Some(StablecoinError::Unauthorized)
    } else if s.total_supply < amount {
        Some(StablecoinError::MathOverflow)
    } else {
        None
    }
}

/// Burns `amount` from an account owned by `owner`, at the request of
/// `burner`.
///
/// Allowed to a holder of the burner or master bit, who burns under the
/// stablecoin's authority, and to the owner of the funds. Refused while
/// paused, for a zero amount, and when the supply is smaller than `amount`.
/// On success the supply shrinks by `amount`.
pub fn burn(
    state: &mut StablecoinState,
    burner_role: &RoleAccount,
    burner: Pubkey,
    owner: Pubkey,
    amount: u64,
    now: i64,
) -> (r: Result<(BurnAuthority, TokensBurned), StablecoinError>)
    ensures
        match r {
            Ok((how, ev)) => {
                &&& burn_error(*old(state), burner_role.roles, burner, owner, amount) is None
                &&& *final(state) == (StablecoinState {
                    total_supply: (old(state).total_supply - amount) as u64,
                    ..*old(state)
                })
                &&& how == (if holds(burner_role.roles, ROLE_BURNER) {
                    BurnAuthority::Burner
                } else {
                    BurnAuthority::Owner
                })
                &&& ev == (TokensBurned { burner, owner, amount, timestamp: now })
            },
            Err(e) => {
                &&& burn_error(*old(state), burner_role.roles, burner, owner, amount) == Some(e)
                &&& *final(state) == *old(state)
            },
        },
{
    if state.is_paused {
        return Err(StablecoinError::ContractPaused);
    }
    if amount == 0 {
        return Err(StablecoinError::InvalidAmount);
    }
    let is_burner = has_role(burner_role.roles, ROLE_BURNER);
    if !is_burner && owner != burner {
        return Err(StablecoinError::Unauthorized);
    }
    let new_supply = match state.total_supply.checked_sub(amount) {
        Some(v) => v,
        None => return Err(StablecoinError::MathOverflow),
    };
    state.total_supply = new_supply;
    let how = if is_burner {
        BurnAuthority::Burner
    } else {
        BurnAuthority::Owner
    };
    Ok((how, TokensBurned { burner, owner, amount, timestamp: now }))
}

/// Sets the quota of a minter; only a master may, and never below what the
/// minter has already minted (`QuotaExceeded`), so that `minted <= quota`
/// keeps holding.
pub fn update_minter_quota(
    authority_role: &RoleAccount,
    minter_info: &mut MinterInfo,
    authority: Pubkey,
    minter: Pubkey,
    new_quota: u64,
    now: i64,
) -> (r: Result<MinterQuotaUpdated, StablecoinError>)
    ensures
        match r {
            Ok(ev) => {
                &&& is_master(authority_role.roles)
                &&& old(minter_info).minted <= new_quota
                &&& *final(minter_info) == (MinterInfo { quota: new_quota, ..*old(minter_info) })
                &&& final(minter_info).minted <= final(minter_info).quota
                &&& ev == (MinterQuotaUpdated { authority, minter, new_quota, timestamp: now })
            },
            Err(e) => {
                &&& e == (if !is_master(authority_role.roles) {
                    StablecoinError::Unauthorized
                } else {
                    StablecoinError::QuotaExceeded
                })
                &&& !is_master(authority_role.roles) || new_quota < old(minter_info).minted
                &&& *final(minter_info) == *old(minter_info)
            },
        },
{
    if !has_master(authority_role.roles) {
        return Err(StablecoinError::Unauthorized);
    }
    if new_quota < minter_info.minted {
        return Err(StablecoinError::QuotaExceeded);
    }
    minter_info.quota = new_quota;
    Ok(MinterQuotaUpdated { authority, minter, new_quota, timestamp: now })
}

/// Sets the supply cap (0 for none); only a master may, and never below the
/// present supply (`SupplyCapExceeded`).
pub fn update_supply_cap(
    state: &mut StablecoinState,
    authority_role: &RoleAccount,
    new_cap: u64,
) -> (r: Result<(), StablecoinError>)
    ensures
        match r {
            Ok(()) => {
                &&& is_master(authority_role.roles)
                &&& new_cap == 0 || old(state).total_supply <= new_cap
                &&& *final(state) == (StablecoinState { supply_cap: new_cap, ..*old(state) })
            },
            Err(e) => {
                &&& e == (if !is_master(authority_role.roles) {
                    StablecoinError::Unauthorized
                } else {
                    StablecoinError::SupplyCapExceeded
                })
                &&& !is_master(authority_role.roles) || (new_cap != 0 && new_cap
                    < old(state).total_supply)
                &&& *final(state) == *old(state)
            },
        },
        old(state).within_limits() ==> final(state).within_limits(),
{
    if !has_master(authority_role.roles) {
        return Err(StablecoinError::Unauthorized);
    }
    if new_cap != 0 && new_cap < state.total_supply {
        return Err(StablecoinError::SupplyCapExceeded);
    }
    state.supply_cap = new_cap;
    Ok(())
}

/// Whether the window that began at `current_epoch_start` has closed by
/// `now`, whatever the quota.
pub open spec fn window_closed(s: StablecoinState, now: i64) -> bool {
    now - s.current_epoch_start >= EPOCH_SECONDS
}

/// Why a new epoch quota would be refused, if it would.
pub open spec fn epoch_quota_error(s: StablecoinState, bits: u8, new_quota: u64, now: i64) -> Option<
    StablecoinError,
> {
    if !is_master(bits) {
        Some(StablecoinError::Unauthorized)
    } else if !(i64::MIN <= now - s.current_epoch_start <= i64::MAX) {
        Some(StablecoinError::MathOverflow)
    } else if new_quota != 0 && !window_closed(s, now) && s.current_epoch_minted > new_quota {
        Some(StablecoinError::EpochQuotaExceeded)
    } else {
        None
    }
}

/// The record after the epoch quota was set to `new_quota` at `now`: a
/// window that has closed is first replaced by an empty one opening at `now`.
pub open spec fn with_epoch_quota(s: StablecoinState, new_quota: u64, now: i64) -> StablecoinState {
    StablecoinState {
        epoch_quota: new_quota,
        current_epoch_minted: if window_closed(s, now) {
            0
        } else {
            s.current_epoch_minted
        },
        current_epoch_start: if window_closed(s, now) {
            now
        } else {
            s.current_epoch_start
        },
        ..s
    }
}

/// Sets the epoch quota (0 for none) at `now`; only a master may. A closed
/// window is first reset, as a mint would; a quota below what the open
/// window has already minted is refused (`EpochQuotaExceeded`).
pub fn update_epoch_quota(
    state: &mut StablecoinState,
    authority_role: &RoleAccount,
    new_quota: u64,
    now: i64,
) -> (r: Result<(), StablecoinError>)
    ensures
        match r {
            Ok(()) => {
                &&& epoch_quota_error(*old(state), authority_role.roles, new_quota, now) is None
                &&& *final(state) == with_epoch_quota(*old(state), new_quota, now)
            },
            Err(e) => {
                &&& epoch_quota_error(*old(state), authority_role.roles, new_quota, now) == Some(e)
                &&& *final(state) == *old(state)
            },
        },
        old(state).within_limits() ==> final(state).within_limits(),
{
    if !has_master(authority_role.roles) {
        return Err(StablecoinError::Unauthorized);
    }
    let elapsed = match now.checked_sub(state.current_epoch_start) {
        Some(v) => v,
        None => return Err(StablecoinError::MathOverflow),
    };
    let closed = elapsed >= EPOCH_SECONDS;
    if new_quota != 0 && !closed && state.current_epoch_minted > new_quota {
        return Err(StablecoinError::EpochQuotaExceeded);
    }
    if closed {
        state.current_epoch_minted = 0;
        state.current_epoch_start = now;
    }
    state.epoch_quota = new_quota;
    Ok(())
}

} // verus!
