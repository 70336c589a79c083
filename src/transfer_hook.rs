use vstd::prelude::*;
use vstd::string::StringExecFns;
use crate::fees::{calculate_fee, fee_for, BPS_DENOMINATOR};
use crate::identity::Pubkey;

verus! {

/// Most addresses in one batch blacklisting.
pub const MAX_BATCH_BLACKLIST: usize = 10;

/// The compliance configuration of one stablecoin.
#[derive(Clone, Copy, Debug, PartialEq, Eq, Structural)]
pub struct TransferHookConfig {
    pub stablecoin: Pubkey,
    pub authority: Pubkey,
    pub transfer_fee_basis_points: u16,
    pub max_transfer_fee: u64,
    pub min_transfer_amount: u64,
    pub total_fees_collected: u64,
    pub is_paused: bool,
    pub blacklist_enabled: bool,
    /// The identity that overrides every compliance check, if any.
    pub permanent_delegate: Option<Pubkey>,
    pub bump: u8,
}

/// A blacklist entry. Removal clears `is_active` and keeps the entry.
#[derive(Clone, Debug)]
pub struct BlacklistEntry {
    pub address: Pubkey,
    pub reason: String,
    pub blacklisted_by: Pubkey,
    pub created_at: i64,
    pub is_active: bool,
    pub bump: u8,
}

/// A whitelist entry; while it exists its address pays no fee.
#[derive(Clone, Copy, Debug, PartialEq, Eq, Structural)]
pub struct WhitelistEntry {
    pub address: Pubkey,
    pub whitelist_type: WhitelistType,
    pub added_by: Pubkey,
    pub created_at: i64,
    pub bump: u8,
}

/// How far a whitelisted address is exempt.
#[derive(Clone, Copy, Debug, PartialEq, Eq, Structural)]
pub enum WhitelistType {
    FeeExempt,
    FullBypass,
}

/// Why a compliance operation was refused.
#[derive(Clone, Copy, Debug, PartialEq, Eq, Structural)]
pub enum TransferHookError {
    HookPaused,
    SourceBlacklisted,
    DestinationBlacklisted,
    AmountTooLow,
    InvalidAuthority,
    AlreadyBlacklisted,
    BlacklistNotFound,
    AlreadyWhitelisted,
    ComplianceNotEnabled,
    InvalidInstruction,
    MathOverflow,
    SelfSeizure,
}

/// Published for every evaluated transfer.
#[derive(Clone, Copy, Debug, PartialEq, Eq, Structural)]
pub struct TransferExecuted {
    pub source: Pubkey,
    pub destination: Pubkey,
    pub amount: u64,
    pub fee: u64,
    pub net_amount: u64,
    pub is_whitelisted: bool,
    pub is_delegate: bool,
    pub timestamp: i64,
}

/// Published when an address is blacklisted.
#[derive(Clone, Debug)]
pub struct BlacklistAdded {
    pub address: Pubkey,
    pub reason: String,
    pub blacklisted_by: Pubkey,
    pub timestamp: i64,
}

/// Published when a blacklist entry is deactivated.
#[derive(Clone, Copy, Debug, PartialEq, Eq, Structural)]
pub struct BlacklistRemoved {
    pub address: Pubkey,
    pub removed_by: Pubkey,
    pub timestamp: i64,
}

/// Published after a seizure.
#[derive(Clone, Debug)]
pub struct TokensSeized {
    pub from: Pubkey,
    pub to: Pubkey,
    pub amount: u64,
    pub seized_by: Pubkey,
    pub reason: String,
    pub timestamp: i64,
}

/// Published when the configuration changes.
#[derive(Clone, Debug)]
pub struct ConfigUpdated {
    pub authority: Pubkey,
    pub field: String,
    pub value: String,
    pub timestamp: i64,
}

/// Published after a batch blacklisting.
#[derive(Clone, Copy, Debug, PartialEq, Eq, Structural)]
pub struct BatchBlacklistAdded {
    pub authority: Pubkey,
    pub count: u16,
    pub timestamp: i64,
}

/// Whether an optional blacklist entry is present and active.
pub open spec fn is_active_entry(e: Option<BlacklistEntry>) -> bool {
    match e {
        Some(entry) => entry.is_active,
        None => false,
    }
}

/// Whether either party of a transfer is the permanent delegate.
pub open spec fn involves_delegate(c: TransferHookConfig, source: Pubkey, destination: Pubkey) -> bool {
    match c.permanent_delegate {
        Some(d) => source == d || destination == d,
        None => false,
    }
}

/// The fee that a transfer owes: none when the permanent delegate or a
/// whitelisted party is involved, else the configured rate capped at the
/// maximum fee.
pub open spec fn transfer_fee(c: TransferHookConfig, delegate: bool, whitelisted: bool, amount: u64) -> int {
    if delegate || whitelisted {
        0
    } else {
        fee_for(amount, c.transfer_fee_basis_points, c.max_transfer_fee)
    }
}

/// Why a transfer would be refused, if it would. The permanent delegate
/// overrides the blacklist; a whitelisted party skips the minimum amount.
pub open spec fn transfer_error(
    c: TransferHookConfig,
    delegate: bool,
    source_blacklisted: bool,
    destination_blacklisted: bool,
    whitelisted: bool,
    amount: u64,
) -> Option<TransferHookError> {
    let fee = transfer_fee(c, delegate, whitelisted, amount);
    if c.is_paused {
        Some(TransferHookError::HookPaused)
    } else if !delegate && c.blacklist_enabled && source_blacklisted {
        Some(TransferHookError::SourceBlacklisted)
    } else if !delegate && c.blacklist_enabled && destination_blacklisted {
        Some(TransferHookError::DestinationBlacklisted)
    } else if !delegate && !whitelisted && amount < c.min_transfer_amount {
        Some(TransferHookError::AmountTooLow)
    } else if fee > amount {
        Some(TransferHookError::MathOverflow)
    } else if c.total_fees_collected + fee > u64::MAX {
        Some(TransferHookError::MathOverflow)
    } else {
        None
    }
}

/// Evaluates a transfer of `amount` from `source` to `destination`, given
/// the blacklist and whitelist entries of both parties.
///
/// Refused while paused. A transfer that involves the permanent delegate
/// passes with no fee, whatever the lists say. Otherwise, with blacklisting
/// enabled, an active entry of the source or of the destination refuses it;
/// a whitelisted party pays no fee and skips the minimum; everyone else must
/// move at least the minimum amount and pays `fee_for`. The fee is added to
/// the fees collected, and the net amount is `amount - fee`.
pub fn execute_transfer_hook(
    config: &mut TransferHookConfig,
    source: Pubkey,
    destination: Pubkey,
    source_blacklist: &Option<BlacklistEntry>,
    destination_blacklist: &Option<BlacklistEntry>,
    source_whitelist: &Option<WhitelistEntry>,
    destination_whitelist: &Option<WhitelistEntry>,
    amount: u64,
    now: i64,
) -> (r: Result<TransferExecuted, TransferHookError>)
    ensures
        ({
            let delegate = involves_delegate(*old(config), source, destination);
            let whitelisted = source_whitelist.is_some() || destination_whitelist.is_some();
            let err = transfer_error(
                *old(config),
                delegate,
                is_active_entry(*source_blacklist),
                is_active_entry(*destination_blacklist),
                whitelisted,
                amount,
            );
            let fee = transfer_fee(*old(config), delegate, whitelisted, amount);
            match r {
                Ok(ev) => {
                    &&& err is None
                    &&& *final(config) == (TransferHookConfig {
                        total_fees_collected: (old(config).total_fees_collected + fee) as u64,
                        ..*old(config)
                    })
                    &&& ev == (TransferExecuted {
                        source,
                        destination,
                        amount,
                        fee: fee as u64,
                        net_amount: (amount - fee) as u64,
                        is_whitelisted: whitelisted,
                        is_delegate: delegate,
                        timestamp: now,
                    })
                },
                Err(e) => err == Some(e) && *final(config) == *old(config),
            }
        }),
{
    if config.is_paused {
        return Err(TransferHookError::HookPaused);
    }
    let is_delegate = match config.permanent_delegate {
        Some(d) => source == d || destination == d,
        None => false,
    };
    if !is_delegate && config.blacklist_enabled {
        if let Some(entry) = source_blacklist {
            if entry.is_active {
                return Err(TransferHookError::SourceBlacklisted);
            }
        }
        if let Some(entry) = destination_blacklist {
            if entry.is_active {
                return Err(TransferHookError::DestinationBlacklisted);
            }
        }
    }
    let is_whitelisted = source_whitelist.is_some() || destination_whitelist.is_some();
    let mut fee: u64 = 0;
    if !is_delegate && !is_whitelisted {
        if amount < config.min_transfer_amount {
            return Err(TransferHookError::AmountTooLow);
        }
        fee = calculate_fee(amount, config.transfer_fee_basis_points, config.max_transfer_fee);
    }
    let net_amount = match amount.checked_sub(fee) {
        Some(v) => v,
        None => return Err(TransferHookError::MathOverflow),
    };
    if fee > 0 {
        config.total_fees_collected = match config.total_fees_collected.checked_add(fee) {
            Some(v) => v,
            None => return Err(TransferHookError::MathOverflow),
        };
    }
    Ok(TransferExecuted {
        source,
        destination,
        amount,
        fee,
        net_amount,
        is_whitelisted,
        is_delegate,
        timestamp: now,
    })
}

/// Builds the configuration of a new compliance hook: no fees collected,
/// not paused, no permanent delegate. A fee rate above 100%
/// (`BPS_DENOMINATOR` basis points) is refused with `InvalidInstruction`.
pub fn initialize(
    stablecoin: Pubkey,
    authority: Pubkey,
    transfer_fee_basis_points: u16,
    max_transfer_fee: u64,
    min_transfer_amount: u64,
    blacklist_enabled: bool,
    bump: u8,
) -> (r: Result<TransferHookConfig, TransferHookError>)
    ensures
        transfer_fee_basis_points <= BPS_DENOMINATOR ==> r == Ok::<
            TransferHookConfig,
            TransferHookError,
        >(
            TransferHookConfig {
                stablecoin,
                authority,
                transfer_fee_basis_points,
                max_transfer_fee,
                min_transfer_amount,
                total_fees_collected: 0,
                is_paused: false,
                blacklist_enabled,
                permanent_delegate: None,
                bump,
            },
        ),
        transfer_fee_basis_points > BPS_DENOMINATOR ==> r == Err::<
            TransferHookConfig,
            TransferHookError,
        >(TransferHookError::InvalidInstruction),
{
    if transfer_fee_basis_points as u64 > BPS_DENOMINATOR {
        return Err(TransferHookError::InvalidInstruction);
    }
    Ok(
        TransferHookConfig {
            stablecoin,
            authority,
            transfer_fee_basis_points,
            max_transfer_fee,
            min_transfer_amount,
            total_fees_collected: 0,
            is_paused: false,
            blacklist_enabled,
            permanent_delegate: None,
            bump,
        },
    )
}

/// The amount a seizure takes: the one given, else the whole balance.
pub open spec fn seize_amount(amount: Option<u64>, balance: u64) -> u64 {
    match amount {
        Some(a) => a,
        None => balance,
    }
}

/// Why a seizure would be refused, if it would.
pub open spec fn seize_error(
    c: TransferHookConfig,
    authority: Pubkey,
    source: Pubkey,
    balance: u64,
    treasury: Pubkey,
    amount: Option<u64>,
) -> Option<TransferHookError> {
    if c.permanent_delegate != Some(authority) {
        Some(TransferHookError::InvalidAuthority)
    } else if source == treasury {
        Some(TransferHookError::SelfSeizure)
    } else if seize_amount(amount, balance) == 0 || seize_amount(amount, balance) > balance {
        Some(TransferHookError::AmountTooLow)
    } else {
        None
    }
}

/// Approves moving funds from the account `source`, owned by
/// `source_owner` and holding `balance`, to the account `treasury`, under
/// the permanent delegate's authority.
///
/// Only the permanent delegate may seize, and never from an account into
/// itself (`SelfSeizure`). Without `amount` the whole balance is taken; a given amount
/// must be positive and at most the balance.
pub fn seize_tokens(
    config: &TransferHookConfig,
    authority: Pubkey,
    source: Pubkey,
    source_owner: Pubkey,
    balance: u64,
    treasury: Pubkey,
    treasury_owner: Pubkey,
    amount: Option<u64>,
    reason: String,
    now: i64,
) -> (r: Result<TokensSeized, TransferHookError>)
    ensures
        match r {
            Ok(ev) => {
                &&& seize_error(*config, authority, source, balance, treasury, amount) is None
                &&& ev == (TokensSeized {
                    from: source_owner,
                    to: treasury_owner,
                    amount: seize_amount(amount, balance),
                    seized_by: authority,
                    reason,
                    timestamp: now,
                })
            },
            Err(e) => seize_error(*config, authority, source, balance, treasury, amount)
                == Some(e),
        },
{
    if config.permanent_delegate != Some(authority) {
        return Err(TransferHookError::InvalidAuthority);
    }
    if source == treasury {
        return Err(TransferHookError::SelfSeizure);
    }
    let seized = match amount {
        Some(a) => a,
        None => balance,
    };
    if seized == 0 || seized > balance {
        return Err(TransferHookError::AmountTooLow);
    }
    Ok(TokensSeized {
        from: source_owner,
        to: treasury_owner,
        amount: seized,
        seized_by: authority,
        reason,
        timestamp: now,
    })
}

/// Blacklists `target`, overwriting any earlier entry for it. Only the
/// configuration's authority may, and only while blacklisting is enabled.
pub fn add_to_blacklist(
    config: &TransferHookConfig,
    authority: Pubkey,
    target: Pubkey,
    reason: String,
    now: i64,
) -> (r: Result<(BlacklistEntry, BlacklistAdded), TransferHookError>)
    ensures
        match r {
            Ok((entry, ev)) => {
                &&& authority == config.authority
                &&& config.blacklist_enabled
                &&& entry == (BlacklistEntry {
                    address: target,
                    reason,
                    blacklisted_by: authority,
                    created_at: now,
                    is_active: true,
                    bump: 0,
                })
                &&& ev == (BlacklistAdded {
                    address: target,
                    reason,
                    blacklisted_by: authority,
                    timestamp: now,
                })
            },
            Err(e) => e == (if authority != config.authority {
                TransferHookError::InvalidAuthority
            } else {
                TransferHookError::ComplianceNotEnabled
            }) && (authority != config.authority || !config.blacklist_enabled),
        },
{
    if authority != config.authority {
        return Err(TransferHookError::InvalidAuthority);
    }
    if !config.blacklist_enabled {
        return Err(TransferHookError::ComplianceNotEnabled);
    }
    let ev = BlacklistAdded {
        address: target,
        reason: reason.clone(),
        blacklisted_by: authority,
        timestamp: now,
    };
    let entry = BlacklistEntry {
        address: target,
        reason,
        blacklisted_by: authority,
        created_at: now,
        is_active: true,
        bump: 0,
    };
    Ok((entry, ev))
}

/// Deactivates a blacklist entry, keeping it for the record. Only the
/// configuration's authority may.
pub fn remove_from_blacklist(
    config: &TransferHookConfig,
    entry: &mut BlacklistEntry,
    authority: Pubkey,
    now: i64,
) -> (r: Result<BlacklistRemoved, TransferHookError>)
    ensures
        match r {
            Ok(ev) => {
                &&& authority == config.authority
                &&& *final(entry) == (BlacklistEntry { is_active: false, ..*old(entry) })
                &&& ev == (BlacklistRemoved {
                    address: old(entry).address,
                    removed_by: authority,
                    timestamp: now,
                })
            },
            Err(e) => {
                &&& authority != config.authority
                &&& e == TransferHookError::InvalidAuthority
                &&& *final(entry) == *old(entry)
            },
        },
{
    if authority != config.authority {
        return Err(TransferHookError::InvalidAuthority);
    }
    entry.is_active = false;
    Ok(BlacklistRemoved { address: entry.address, removed_by: authority, timestamp: now })
}

/// Whitelists `target`, overwriting any earlier entry for it. Only the
/// configuration's authority may.
pub fn add_to_whitelist(
    config: &TransferHookConfig,
    authority: Pubkey,
    target: Pubkey,
    whitelist_type: WhitelistType,
    now: i64,
) -> (r: Result<WhitelistEntry, TransferHookError>)
    ensures
        match r {
            Ok(entry) => authority == config.authority && entry == (WhitelistEntry {
                address: target,
                whitelist_type,
                added_by: authority,
                created_at: now,
                bump: 0,
            }),
            Err(e) => authority != config.authority && e == TransferHookError::InvalidAuthority,
        },
{
    if authority != config.authority {
        return Err(TransferHookError::InvalidAuthority);
    }
    Ok(WhitelistEntry { address: target, whitelist_type, added_by: authority, created_at: now, bump: 0 })
}

/// Approves closing a whitelist entry. Only the configuration's authority
/// may.
pub fn remove_from_whitelist(config: &TransferHookConfig, authority: Pubkey) -> (r: Result<
    (),
    TransferHookError,
>)
    ensures
        r is Ok <==> authority == config.authority,
        r is Err ==> r == Err::<(), TransferHookError>(TransferHookError::InvalidAuthority),
{
    if authority != config.authority {
        return Err(TransferHookError::InvalidAuthority);
    }
    Ok(())
}

/// Whether the fee rate after an update (the new one if given, else the
/// present one) is at most 100%.
pub open spec fn rate_in_range(c: TransferHookConfig, bps: Option<u16>) -> bool {
    match bps {
        Some(v) => v <= BPS_DENOMINATOR,
        None => c.transfer_fee_basis_points <= BPS_DENOMINATOR,
    }
}

/// The configuration after the given fields were replaced; a `None` keeps a
/// field as it was.
pub open spec fn updated_config(
    c: TransferHookConfig,
    transfer_fee_basis_points: Option<u16>,
    max_transfer_fee: Option<u64>,
    min_transfer_amount: Option<u64>,
    is_paused: Option<bool>,
    blacklist_enabled: Option<bool>,
    permanent_delegate: Option<Option<Pubkey>>,
) -> TransferHookConfig {
    TransferHookConfig {
        transfer_fee_basis_points: match transfer_fee_basis_points {
            Some(v) => v,
            None => c.transfer_fee_basis_points,
        },
        max_transfer_fee: match max_transfer_fee {
            Some(v) => v,
            None => c.max_transfer_fee,
        },
        min_transfer_amount: match min_transfer_amount {
            Some(v) => v,
            None => c.min_transfer_amount,
        },
        is_paused: match is_paused {
            Some(v) => v,
            None => c.is_paused,
        },
        blacklist_enabled: match blacklist_enabled {
            Some(v) => v,
            None => c.blacklist_enabled,
        },
        permanent_delegate: match permanent_delegate {
            Some(v) => v,
            None => c.permanent_delegate,
        },
        ..c
    }
}

/// Replaces the given fields of the configuration. Only its authority may,
/// and an update that leaves the fee rate above 100% is refused with
/// `InvalidInstruction`.
pub fn update_config(
    config: &mut TransferHookConfig,
    authority: Pubkey,
    transfer_fee_basis_points: Option<u16>,
    max_transfer_fee: Option<u64>,
    min_transfer_amount: Option<u64>,
    is_paused: Option<bool>,
    blacklist_enabled: Option<bool>,
    permanent_delegate: Option<Option<Pubkey>>,
    now: i64,
) -> (r: Result<ConfigUpdated, TransferHookError>)
    ensures
        match r {
            Ok(ev) => {
                &&& authority == old(config).authority
                &&& rate_in_range(*old(config), transfer_fee_basis_points)
                &&& *final(config) == updated_config(
                    *old(config),
                    transfer_fee_basis_points,
                    max_transfer_fee,
                    min_transfer_amount,
                    is_paused,
                    blacklist_enabled,
                    permanent_delegate,
                )
                &&& ev.authority == authority
                &&& ev.field@ == "update_config"@
                &&& ev.value@ == "multiple"@
                &&& ev.timestamp == now
            },
            Err(e) => {
                &&& e == (if authority != old(config).authority {
                    TransferHookError::InvalidAuthority
                } else {
                    TransferHookError::InvalidInstruction
                })
                &&& authority != old(config).authority || !rate_in_range(*old(config), transfer_fee_basis_points)
                &&& *final(config) == *old(config)
            },
        },
        r is Ok ==> final(config).transfer_fee_basis_points <= BPS_DENOMINATOR,
{
    if authority != config.authority {
        return Err(TransferHookError::InvalidAuthority);
    }
    let rate = match transfer_fee_basis_points {
        Some(v) => v,
        None => config.transfer_fee_basis_points,
    };
    if rate as u64 > BPS_DENOMINATOR {
        return Err(TransferHookError::InvalidInstruction);
    }
    if let Some(v) = transfer_fee_basis_points {
        config.transfer_fee_basis_points = v;
    }
    if let Some(v) = max_transfer_fee {
        config.max_transfer_fee = v;
    }
    if let Some(v) = min_transfer_amount {
        config.min_transfer_amount = v;
    }
    if let Some(v) = is_paused {
        config.is_paused = v;
    }
    if let Some(v) = blacklist_enabled {
        config.blacklist_enabled = v;
    }
    if let Some(v) = permanent_delegate {
        config.permanent_delegate = v;
    }
    Ok(ConfigUpdated {
        authority,
        field: String::from_str("update_config"),
        value: String::from_str("multiple"),
        timestamp: now,
    })
}

/// Why a batch blacklisting would be refused, if it would.
pub open spec fn batch_blacklist_error(
    c: TransferHookConfig,
    authority: Pubkey,
    count: int,
    reason_count: int,
) -> Option<TransferHookError> {
    if authority != c.authority {
        Some(TransferHookError::InvalidAuthority)
    } else if count != reason_count || count > MAX_BATCH_BLACKLIST {
        Some(TransferHookError::InvalidInstruction)
    } else if !c.blacklist_enabled {
        Some(TransferHookError::ComplianceNotEnabled)
    } else {
        None
    }
}

/// Blacklists each of `addresses` with the reason at the same position,
/// overwriting earlier entries: there is no refusal for an address already
/// listed. At most `MAX_BATCH_BLACKLIST` addresses, one reason each; only
/// the authority may, and only while blacklisting is enabled.
pub fn batch_blacklist(
    config: &TransferHookConfig,
    authority: Pubkey,
    addresses: &Vec<Pubkey>,
    reasons: &Vec<String>,
    now: i64,
) -> (r: Result<(Vec<BlacklistEntry>, BatchBlacklistAdded), TransferHookError>)
    ensures
        match r {
            Ok((entries, ev)) => {
                &&& batch_blacklist_error(
                    *config,
                    authority,
                    addresses@.len() as int,
                    reasons@.len() as int,
                ) is None
                &&& entries@.len() == addresses@.len()
                &&& forall|i: int|
                    0 <= i < entries@.len() ==> #[trigger] entries@[i] == (BlacklistEntry {
                        address: addresses@[i],
                        reason: reasons@[i],
                        blacklisted_by: authority,
                        created_at: now,
                        is_active: true,
                        bump: 0,
                    })
                &&& ev == (BatchBlacklistAdded {
                    authority,
                    count: addresses@.len() as u16,
                    timestamp: now,
                })
            },
            Err(e) => batch_blacklist_error(
                *config,
                authority,
                addresses@.len() as int,
                reasons@.len() as int,
            ) == Some(e),
        },
{
    if authority != config.authority {
        return Err(TransferHookError::InvalidAuthority);
    }
    if addresses.len() != reasons.len() || addresses.len() > MAX_BATCH_BLACKLIST {
        return Err(TransferHookError::InvalidInstruction);
    }
    if !config.blacklist_enabled {
        return Err(TransferHookError::ComplianceNotEnabled);
    }
    let mut entries: Vec<BlacklistEntry> = Vec::new();
    let mut i: usize = 0;
    while i < addresses.len()
        invariant
            addresses@.len() == reasons@.len(),
            i <= addresses@.len(),
            entries@.len() == i,
            forall|j: int|
                0 <= j < i ==> #[trigger] entries@[j] == (BlacklistEntry {
                    address: addresses@[j],
                    reason: reasons@[j],
                    blacklisted_by: authority,
                    created_at: now,
                    is_active: true,
                    bump: 0,
                }),
        decreases addresses@.len() - i,
    {
        entries.push(
            BlacklistEntry {
                address: addresses[i],
                reason: reasons[i].clone(),
                blacklisted_by: authority,
                created_at: now,
                is_active: true,
                bump: 0,
            },
        );
        i = i + 1;
    }
    Ok((entries, BatchBlacklistAdded { authority, count: addresses.len() as u16, timestamp: now }))
}

} // verus!
