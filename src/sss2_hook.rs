use vstd::prelude::*;
use crate::fees::{calculate_fee, fee_for};
use crate::identity::Pubkey;
use crate::layout::{le_u64, pubkey_at, read_pubkey, read_u64_le};

verus! {

/// Highest fee rate this hook accepts, in basis points (10%).
pub const MAX_FEE_BPS: u16 = 1000;

/// Bytes of the tag that opens every stored record.
pub const DISCRIMINATOR_LEN: usize = 8;
/// Bytes of a stored `WhitelistEntry` or `BlacklistEntry` after the tag.
pub const LIST_RECORD_SIZE: usize = 42;
/// Tag of a stored `BlacklistEntry`, read as a little-endian word: the
/// first eight bytes of SHA-256 of "account:BlacklistEntry".
pub const BLACKLIST_ENTRY_DISCRIMINATOR: u64 = 0xbda8198d28e7b3da;
/// Tag of a stored `WhitelistEntry`, read as a little-endian word: the
/// first eight bytes of SHA-256 of "account:WhitelistEntry".
pub const WHITELIST_ENTRY_DISCRIMINATOR: u64 = 0x3eeac0db51ad4633;

/// The fee configuration of the hook.
#[derive(Clone, Copy, Debug, PartialEq, Eq, Structural)]
pub struct TransferHookConfig {
    pub authority: Pubkey,
    pub transfer_fee_basis_points: u16,
    pub max_transfer_fee: u64,
    pub min_transfer_amount: u64,
    pub total_fees_collected: u64,
    pub bump: u8,
    pub is_paused: bool,
    pub permanent_delegate: Option<Pubkey>,
    pub blacklist_enabled: bool,
}

/// Which list an entry belongs to.
#[derive(Clone, Copy, Debug, PartialEq, Eq, Structural)]
pub enum ListType {
    Whitelist,
    Blacklist,
}

/// An entry of the whitelist or of the blacklist.
#[derive(Clone, Copy, Debug, PartialEq, Eq, Structural)]
pub struct ListEntry {
    pub address: Pubkey,
    pub is_active: bool,
    pub entry_type: ListType,
    pub created_at: i64,
    pub bump: u8,
}

/// A stored whitelist record, as a transfer presents it.
#[derive(Clone, Copy, Debug, PartialEq, Eq, Structural)]
pub struct WhitelistEntry {
    pub address: Pubkey,
    pub is_whitelisted: bool,
    pub added_at: i64,
    pub bump: u8,
}

/// A stored blacklist record, as a transfer presents it.
#[derive(Clone, Copy, Debug, PartialEq, Eq, Structural)]
pub struct BlacklistEntry {
    pub address: Pubkey,
    pub is_blacklisted: bool,
    pub created_at: i64,
    pub bump: u8,
}

/// Why a hook operation was refused.
#[derive(Clone, Copy, Debug, PartialEq, Eq, Structural)]
pub enum TransferHookError {
    FeeTooHigh,
    InvalidAuthority,
    AmountTooLow,
    ContractPaused,
    AddressBlacklisted,
    MathOverflow,
}

/// Published for every evaluated transfer.
#[derive(Clone, Copy, Debug, PartialEq, Eq, Structural)]
pub struct TransferHookEvent {
    pub source: Pubkey,
    pub destination: Pubkey,
    pub amount: u64,
    pub fee: u64,
    pub is_delegate_transfer: bool,
    pub timestamp: i64,
}

/// Published when the fee configuration changes.
#[derive(Clone, Copy, Debug, PartialEq, Eq, Structural)]
pub struct FeeConfigUpdated {
    pub authority: Pubkey,
    pub transfer_fee_basis_points: u16,
    pub max_transfer_fee: u64,
    pub min_transfer_amount: u64,
    pub timestamp: i64,
}

/// Published when a list entry is created.
#[derive(Clone, Copy, Debug, PartialEq, Eq, Structural)]
pub struct ListEntryAdded {
    pub address: Pubkey,
    pub entry_type: ListType,
    pub added_by: Pubkey,
    pub timestamp: i64,
}

/// Published when a list entry is closed.
#[derive(Clone, Copy, Debug, PartialEq, Eq, Structural)]
pub struct ListEntryRemoved {
    pub address: Pubkey,
    pub entry_type: ListType,
    pub removed_by: Pubkey,
    pub timestamp: i64,
}

/// Published when the permanent delegate is set or cleared.
#[derive(Clone, Copy, Debug, PartialEq, Eq, Structural)]
pub struct PermanentDelegateUpdated {
    pub delegate: Option<Pubkey>,
    pub updated_by: Pubkey,
    pub timestamp: i64,
}

/// Published when an address is whitelisted (older record form).
#[derive(Clone, Copy, Debug, PartialEq, Eq, Structural)]
pub struct WhitelistAdded {
    pub address: Pubkey,
    pub added_by: Pubkey,
    pub timestamp: i64,
}

/// Published when an address leaves the whitelist (older record form).
#[derive(Clone, Copy, Debug, PartialEq, Eq, Structural)]
pub struct WhitelistRemoved {
    pub address: Pubkey,
    pub removed_by: Pubkey,
    pub timestamp: i64,
}

/// An account handed to a transfer: its owning program and its bytes.
#[derive(Clone, Debug)]
pub struct AccountView {
    pub owner: Pubkey,
    pub data: Vec<u8>,
}

/// Whether `data`, owned by `owner`, holds a record tagged `tag` that this
/// program (`program_id`) wrote: not empty, long enough, and opening with
/// the tag. Any other account stands for "no entry".
pub open spec fn holds_record(owner: Pubkey, data: Seq<u8>, program_id: Pubkey, tag: u64) -> bool {
    &&& data.len() != 0
    &&& owner == program_id
    &&& data.len() >= DISCRIMINATOR_LEN + LIST_RECORD_SIZE
    &&& le_u64(data, 0) == tag
}

/// The stored list record in `data`: an address, a flag byte that must be
/// 0 or 1, a little-endian timestamp and a bump byte. `Err` when the flag
/// byte is anything else.
pub open spec fn decode_flagged(data: Seq<u8>) -> Result<(Pubkey, bool, i64, u8), ()> {
    if data[40] > 1 {
        Err(())
    } else {
        Ok((pubkey_at(data, 8), data[40] == 1, le_u64(data, 41) as i64, data[49]))
    }
}

/// Decodes the record fields of a list account whose tag was recognised.
fn read_flagged(data: &Vec<u8>) -> (r: Result<(Pubkey, bool, i64, u8), ()>)
    requires
        data@.len() >= DISCRIMINATOR_LEN + LIST_RECORD_SIZE,
    ensures
        r == decode_flagged(data@),
{
    let flag = data[40];
    if flag > 1 {
        return Err(());
    }
    Ok((read_pubkey(data, 8), flag == 1, read_u64_le(data, 41) as i64, data[49]))
}

/// The blacklist record that an account presents: `Ok(None)` when it holds
/// none, `Err` when the record is malformed.
pub open spec fn decode_blacklist(acct: AccountView, program_id: Pubkey) -> Result<
    Option<BlacklistEntry>,
    TransferHookError,
> {
    if !holds_record(acct.owner, acct.data@, program_id, BLACKLIST_ENTRY_DISCRIMINATOR) {
        Ok(None)
    } else {
        match decode_flagged(acct.data@) {
            Ok((address, is_blacklisted, created_at, bump)) => Ok(
                Some(BlacklistEntry { address, is_blacklisted, created_at, bump }),
            ),
            Err(()) => Err(TransferHookError::InvalidAuthority),
        }
    }
}

/// The whitelist record that an account presents: `Ok(None)` when it holds
/// none, `Err` when the record is malformed.
pub open spec fn decode_whitelist(acct: AccountView, program_id: Pubkey) -> Result<
    Option<WhitelistEntry>,
    TransferHookError,
> {
    if !holds_record(acct.owner, acct.data@, program_id, WHITELIST_ENTRY_DISCRIMINATOR) {
        Ok(None)
    } else {
        match decode_flagged(acct.data@) {
            Ok((address, is_whitelisted, added_at, bump)) => Ok(
                Some(WhitelistEntry { address, is_whitelisted, added_at, bump }),
            ),
            Err(()) => Err(TransferHookError::InvalidAuthority),
        }
    }
}

/// Whether `data` opens with `tag`; short data does not.
fn has_tag(owner: Pubkey, data: &Vec<u8>, program_id: Pubkey, tag: u64) -> (r: bool)
    ensures
        r == holds_record(owner, data@, program_id, tag),
{
    if data.len() == 0 || owner != program_id || data.len() < DISCRIMINATOR_LEN + LIST_RECORD_SIZE {
        return false;
    }
    read_u64_le(data, 0) == tag
}

/// Reads the blacklist record that `acct` presents, if any.
pub fn read_blacklist_entry(acct: &AccountView, program_id: Pubkey) -> (r: Result<
    Option<BlacklistEntry>,
    TransferHookError,
>)
    ensures
        r == decode_blacklist(*acct, program_id),
{
    if !has_tag(acct.owner, &acct.data, program_id, BLACKLIST_ENTRY_DISCRIMINATOR) {
        return Ok(None);
    }
    match read_flagged(&acct.data) {
        Ok((address, is_blacklisted, created_at, bump)) => Ok(
            Some(BlacklistEntry { address, is_blacklisted, created_at, bump }),
        ),
        Err(()) => Err(TransferHookError::InvalidAuthority),
    }
}

/// Reads the whitelist record that `acct` presents, if any.
pub fn read_whitelist_entry(acct: &AccountView, program_id: Pubkey) -> (r: Result<
    Option<WhitelistEntry>,
    TransferHookError,
>)
    ensures
        r == decode_whitelist(*acct, program_id),
{
    if !has_tag(acct.owner, &acct.data, program_id, WHITELIST_ENTRY_DISCRIMINATOR) {
        return Ok(None);
    }
    match read_flagged(&acct.data) {
        Ok((address, is_whitelisted, added_at, bump)) => Ok(
            Some(WhitelistEntry { address, is_whitelisted, added_at, bump }),
        ),
        Err(()) => Err(TransferHookError::InvalidAuthority),
    }
}

/// Whether either party is the permanent delegate.
pub open spec fn is_delegate_transfer(c: TransferHookConfig, source: Pubkey, destination: Pubkey) -> bool {
    match c.permanent_delegate {
        Some(d) => source == d || destination == d,
        None => false,
    }
}

/// The outcome of a transfer: the fee and whether the permanent delegate
/// was involved, or why it is refused.
///
/// Refused while paused. The permanent delegate passes with no fee, before
/// any list is read. With blacklisting enabled, a blacklist record that is
/// set refuses the transfer. A set whitelist record of the source, or a
/// transfer by the authority, passes with no fee. Anything else must move at
/// least the minimum and pays `fee_for`, which must fit in the fees
/// collected. A malformed record refuses the transfer as it is read.
pub open spec fn hook_outcome(
    c: TransferHookConfig,
    program_id: Pubkey,
    source: Pubkey,
    destination: Pubkey,
    whitelist: AccountView,
    blacklist: AccountView,
    amount: u64,
) -> Result<(u64, bool), TransferHookError> {
    let bl = decode_blacklist(blacklist, program_id);
    let wl = decode_whitelist(whitelist, program_id);
    if c.is_paused {
        Err(TransferHookError::ContractPaused)
    } else if is_delegate_transfer(c, source, destination) {
        Ok((0, true))
    } else if c.blacklist_enabled && bl is Err {
        Err(TransferHookError::InvalidAuthority)
    } else if c.blacklist_enabled && (bl matches Ok(Some(e)) && e.is_blacklisted) {
        Err(TransferHookError::AddressBlacklisted)
    } else if wl is Err {
        Err(TransferHookError::InvalidAuthority)
    } else if wl matches Ok(Some(e)) && e.is_whitelisted && e.address == source {
        Ok((0, false))
    } else if source == c.authority {
        Ok((0, false))
    } else if amount < c.min_transfer_amount {
        Err(TransferHookError::AmountTooLow)
    } else if c.total_fees_collected + fee_for(amount, c.transfer_fee_basis_points, c.max_transfer_fee)
        > u64::MAX {
        Err(TransferHookError::MathOverflow)
    } else {
        Ok((fee_for(amount, c.transfer_fee_basis_points, c.max_transfer_fee) as u64, false))
    }
}

/// Evaluates a transfer of `amount` from `source` to `destination`, with the
/// whitelist and blacklist accounts it presents; see `hook_outcome`. The fee
/// is added to the fees collected; a refusal changes nothing.
pub fn execute_transfer_hook(
    config: &mut TransferHookConfig,
    program_id: Pubkey,
    source: Pubkey,
    destination: Pubkey,
    whitelist: &AccountView,
    blacklist: &AccountView,
    amount: u64,
    now: i64,
) -> (r: Result<TransferHookEvent, TransferHookError>)
    ensures
        match hook_outcome(*old(config), program_id, source, destination, *whitelist, *blacklist, amount) {
            Ok((fee, delegate)) => {
                &&& r == Ok::<TransferHookEvent, TransferHookError>(
                    TransferHookEvent {
                        source,
                        destination,
                        amount,
                        fee,
                        is_delegate_transfer: delegate,
                        timestamp: now,
                    },
                )
                &&& *final(config) == (TransferHookConfig {
                    total_fees_collected: (old(config).total_fees_collected + fee) as u64,
                    ..*old(config)
                })
            },
            Err(e) => r == Err::<TransferHookEvent, TransferHookError>(e) && *final(config) == *old(
                config,
            ),
        },
{
    if config.is_paused {
        return Err(TransferHookError::ContractPaused);
    }
    if let Some(delegate) = config.permanent_delegate {
        if source == delegate || destination == delegate {
            return Ok(
                TransferHookEvent {
                    source,
                    destination,
                    amount,
                    fee: 0,
                    is_delegate_transfer: true,
                    timestamp: now,
                },
            );
        }
    }
    if config.blacklist_enabled {
        if let Some(entry) = read_blacklist_entry(blacklist, program_id)? {
            if entry.is_blacklisted {
                return Err(TransferHookError::AddressBlacklisted);
            }
        }
    }
    if let Some(entry) = read_whitelist_entry(whitelist, program_id)? {
        if entry.is_whitelisted && entry.address == source {
            return Ok(
                TransferHookEvent {
                    source,
                    destination,
                    amount,
                    fee: 0,
                    is_delegate_transfer: false,
                    timestamp: now,
                },
            );
        }
    }
    if source == config.authority {
        return Ok(
            TransferHookEvent {
                source,
                destination,
                amount,
                fee: 0,
                is_delegate_transfer: false,
                timestamp: now,
            },
        );
    }
    if amount < config.min_transfer_amount {
        return Err(TransferHookError::AmountTooLow);
    }
    let fee = calculate_fee(amount, config.transfer_fee_basis_points, config.max_transfer_fee);
    config.total_fees_collected = match config.total_fees_collected.checked_add(fee) {
        Some(v) => v,
        None => return Err(TransferHookError::MathOverflow),
    };
    Ok(TransferHookEvent { source, destination, amount, fee, is_delegate_transfer: false, timestamp: now })
}

/// Builds the hook configuration of `authority`: the given fee rate (at
/// most `MAX_FEE_BPS`, else `FeeTooHigh`) and maximum fee, no minimum, not
/// paused, no permanent delegate, blacklisting enabled.
pub fn initialize(authority: Pubkey, transfer_fee_basis_points: u16, max_transfer_fee: u64, bump: u8) -> (r:
    Result<TransferHookConfig, TransferHookError>)
    ensures
        transfer_fee_basis_points <= MAX_FEE_BPS ==> r == Ok::<
            TransferHookConfig,
            TransferHookError,
        >(
            TransferHookConfig {
                authority,
                transfer_fee_basis_points,
                max_transfer_fee,
                min_transfer_amount: 0,
                total_fees_collected: 0,
                bump,
                is_paused: false,
                permanent_delegate: None,
                blacklist_enabled: true,
            },
        ),
        transfer_fee_basis_points > MAX_FEE_BPS ==> r == Err::<TransferHookConfig, TransferHookError>(
            TransferHookError::FeeTooHigh,
        ),
{
    if transfer_fee_basis_points > MAX_FEE_BPS {
        return Err(TransferHookError::FeeTooHigh);
    }
    Ok(
        TransferHookConfig {
            authority,
            transfer_fee_basis_points,
            max_transfer_fee,
            min_transfer_amount: 0,
            total_fees_collected: 0,
            bump,
            is_paused: false,
            permanent_delegate: None,
            blacklist_enabled: true,
        },
    )
}

/// Replaces the fee rate, the maximum fee and the minimum amount. Only the
/// authority may, and the rate may not exceed `MAX_FEE_BPS`.
pub fn update_fee_config(
    config: &mut TransferHookConfig,
    authority: Pubkey,
    transfer_fee_basis_points: u16,
    max_transfer_fee: u64,
    min_transfer_amount: u64,
    now: i64,
) -> (r: Result<FeeConfigUpdated, TransferHookError>)
    ensures
        match r {
            Ok(ev) => {
                &&& authority == old(config).authority
                &&& transfer_fee_basis_points <= MAX_FEE_BPS
                &&& *final(config) == (TransferHookConfig {
                    transfer_fee_basis_points,
                    max_transfer_fee,
                    min_transfer_amount,
                    ..*old(config)
                })
                &&& ev == (FeeConfigUpdated {
                    authority,
                    transfer_fee_basis_points,
                    max_transfer_fee,
                    min_transfer_amount,
                    timestamp: now,
                })
            },
            Err(e) => {
                &&& e == (if authority != old(config).authority {
                    TransferHookError::InvalidAuthority
                } else {
                    TransferHookError::FeeTooHigh
                })
                &&& authority != old(config).authority || transfer_fee_basis_points > MAX_FEE_BPS
                &&& *final(config) == *old(config)
            },
        },
{
    if authority != config.authority {
        return Err(TransferHookError::InvalidAuthority);
    }
    if transfer_fee_basis_points > MAX_FEE_BPS {
        return Err(TransferHookError::FeeTooHigh);
    }
    config.transfer_fee_basis_points = transfer_fee_basis_points;
    config.max_transfer_fee = max_transfer_fee;
    config.min_transfer_amount = min_transfer_amount;
    Ok(FeeConfigUpdated { authority, transfer_fee_basis_points, max_transfer_fee, min_transfer_amount, timestamp: now })
}

/// Creates an active entry for `address` on the list `entry_type`; only the
/// authority may.
fn add_entry(
    config: &TransferHookConfig,
    authority: Pubkey,
    address: Pubkey,
    entry_type: ListType,
    now: i64,
    bump: u8,
) -> (r: Result<(ListEntry, ListEntryAdded), TransferHookError>)
    ensures
        authority == config.authority ==> r == Ok::<(ListEntry, ListEntryAdded), TransferHookError>(
            (
                ListEntry { address, is_active: true, entry_type, created_at: now, bump },
                ListEntryAdded { address, entry_type, added_by: authority, timestamp: now },
            ),
        ),
        authority != config.authority ==> r == Err::<(ListEntry, ListEntryAdded), TransferHookError>(
            TransferHookError::InvalidAuthority,
        ),
{
    if authority != config.authority {
        return Err(TransferHookError::InvalidAuthority);
    }
    Ok(
        (
            ListEntry { address, is_active: true, entry_type, created_at: now, bump },
            ListEntryAdded { address, entry_type, added_by: authority, timestamp: now },
        ),
    )
}

/// Approves closing `entry` of the list `entry_type`; only the authority
/// may. The event names the address stored in the entry.
fn remove_entry(
    config: &TransferHookConfig,
    authority: Pubkey,
    entry: &ListEntry,
    entry_type: ListType,
    now: i64,
) -> (r: Result<ListEntryRemoved, TransferHookError>)
    ensures
        authority == config.authority ==> r == Ok::<ListEntryRemoved, TransferHookError>(
            ListEntryRemoved { address: entry.address, entry_type, removed_by: authority, timestamp: now },
        ),
        authority != config.authority ==> r == Err::<ListEntryRemoved, TransferHookError>(
            TransferHookError::InvalidAuthority,
        ),
{
    if authority != config.authority {
        return Err(TransferHookError::InvalidAuthority);
    }
    Ok(ListEntryRemoved { address: entry.address, entry_type, removed_by: authority, timestamp: now })
}

/// Whitelists `address`; only the authority may.
pub fn add_whitelist(config: &TransferHookConfig, authority: Pubkey, address: Pubkey, now: i64, bump: u8) -> (r:
    Result<(ListEntry, ListEntryAdded), TransferHookError>)
    ensures
        authority == config.authority ==> r == Ok::<(ListEntry, ListEntryAdded), TransferHookError>(
            (
                ListEntry { address, is_active: true, entry_type: ListType::Whitelist, created_at: now, bump },
                ListEntryAdded { address, entry_type: ListType::Whitelist, added_by: authority, timestamp: now },
            ),
        ),
        authority != config.authority ==> r == Err::<(ListEntry, ListEntryAdded), TransferHookError>(
            TransferHookError::InvalidAuthority,
        ),
{
    add_entry(config, authority, address, ListType::Whitelist, now, bump)
}

/// Removes a whitelist entry; only the authority may.
pub fn remove_whitelist(config: &TransferHookConfig, authority: Pubkey, entry: &ListEntry, now: i64) -> (r:
    Result<ListEntryRemoved, TransferHookError>)
    ensures
        authority == config.authority ==> r == Ok::<ListEntryRemoved, TransferHookError>(
            ListEntryRemoved {
                address: entry.address,
                entry_type: ListType::Whitelist,
                removed_by: authority,
                timestamp: now,
            },
        ),
        authority != config.authority ==> r == Err::<ListEntryRemoved, TransferHookError>(
            TransferHookError::InvalidAuthority,
        ),
{
    remove_entry(config, authority, entry, ListType::Whitelist, now)
}

/// Blacklists `address`; only the authority may.
pub fn add_blacklist(config: &TransferHookConfig, authority: Pubkey, address: Pubkey, now: i64, bump: u8) -> (r:
    Result<(ListEntry, ListEntryAdded), TransferHookError>)
    ensures
        authority == config.authority ==> r == Ok::<(ListEntry, ListEntryAdded), TransferHookError>(
            (
                ListEntry { address, is_active: true, entry_type: ListType::Blacklist, created_at: now, bump },
                ListEntryAdded { address, entry_type: ListType::Blacklist, added_by: authority, timestamp: now },
            ),
        ),
        authority != config.authority ==> r == Err::<(ListEntry, ListEntryAdded), TransferHookError>(
            TransferHookError::InvalidAuthority,
        ),
{
    add_entry(config, authority, address, ListType::Blacklist, now, bump)
}

/// Removes a blacklist entry; only the authority may.
pub fn remove_blacklist(config: &TransferHookConfig, authority: Pubkey, entry: &ListEntry, now: i64) -> (r:
    Result<ListEntryRemoved, TransferHookError>)
    ensures
        authority == config.authority ==> r == Ok::<ListEntryRemoved, TransferHookError>(
            ListEntryRemoved {
                address: entry.address,
                entry_type: ListType::Blacklist,
                removed_by: authority,
                timestamp: now,
            },
        ),
        authority != config.authority ==> r == Err::<ListEntryRemoved, TransferHookError>(
            TransferHookError::InvalidAuthority,
        ),
{
    remove_entry(config, authority, entry, ListType::Blacklist, now)
}

/// Sets or clears the permanent delegate; only the authority may.
pub fn set_permanent_delegate(
    config: &mut TransferHookConfig,
    authority: Pubkey,
    delegate: Option<Pubkey>,
    now: i64,
) -> (r: Result<PermanentDelegateUpdated, TransferHookError>)
    ensures
        match r {
            Ok(ev) => {
                &&& authority == old(config).authority
                &&& *final(config) == (TransferHookConfig { permanent_delegate: delegate, ..*old(config) })
                &&& ev == (PermanentDelegateUpdated { delegate, updated_by: authority, timestamp: now })
            },
            Err(e) => {
                &&& authority != old(config).authority
                &&& e == TransferHookError::InvalidAuthority
                &&& *final(config) == *old(config)
            },
        },
{
    if authority != config.authority {
        return Err(TransferHookError::InvalidAuthority);
    }
    config.permanent_delegate = delegate;
    Ok(PermanentDelegateUpdated { delegate, updated_by: authority, timestamp: now })
}

/// Turns blacklist enforcement on or off; only the authority may.
pub fn set_blacklist_enabled(config: &mut TransferHookConfig, authority: Pubkey, enabled: bool) -> (r:
    Result<(), TransferHookError>)
    ensures
        match r {
            Ok(()) => authority == old(config).authority && *final(config) == (TransferHookConfig {
                blacklist_enabled: enabled,
                ..*old(config)
            }),
            Err(e) => authority != old(config).authority && e == TransferHookError::InvalidAuthority
                && *final(config) == *old(config),
        },
{
    if authority != config.authority {
        return Err(TransferHookError::InvalidAuthority);
    }
    config.blacklist_enabled = enabled;
    Ok(())
}

/// Pauses or unpauses the hook; only the authority may.
pub fn set_paused(config: &mut TransferHookConfig, authority: Pubkey, paused: bool) -> (r: Result<
    (),
    TransferHookError,
>)
    ensures
        match r {
            Ok(()) => authority == old(config).authority && *final(config) == (TransferHookConfig {
                is_paused: paused,
                ..*old(config)
            }),
            Err(e) => authority != old(config).authority && e == TransferHookError::InvalidAuthority
                && *final(config) == *old(config),
        },
{
    if authority != config.authority {
        return Err(TransferHookError::InvalidAuthority);
    }
    config.is_paused = paused;
    Ok(())
}

/// Approves closing the configuration; only the authority may. Returns the
/// fees collected over its life.
pub fn close_config(config: &TransferHookConfig, authority: Pubkey) -> (r: Result<u64, TransferHookError>)
    ensures
        authority == config.authority ==> r == Ok::<u64, TransferHookError>(config.total_fees_collected),
        authority != config.authority ==> r == Err::<u64, TransferHookError>(
            TransferHookError::InvalidAuthority,
        ),
{
    if authority != config.authority {
        return Err(TransferHookError::InvalidAuthority);
    }
    Ok(config.total_fees_collected)
}

} // verus!
