//! Properties that hold across operations, proved over the same spec
//! functions that the operations' contracts use.

use vstd::prelude::*;
use crate::errors::StablecoinError;
use crate::fees::{fee_for, lemma_fee_within_amount, BPS_DENOMINATOR};
use crate::identity::Pubkey;
use crate::issuance::{
    after_issue, after_issue_info, batch_mint_error, burn_error, mint_error, rolls_over,
    sum_amounts, total_error, MinterInfo, StablecoinState, EPOCH_SECONDS, MAX_BATCH,
};
use crate::multisig::{approve_error, execute_error, valid_approvals, MultisigConfig, MultisigProposal};
use crate::roles::{granted, holds, is_master, RoleAccount, ROLE_MINTER};
use crate::sss2_hook;
use crate::transfer_hook::{involves_delegate, transfer_error, transfer_fee, TransferHookConfig};

verus! {

/// A run of `amounts.len()` mint attempts, each of which may succeed or be
/// refused: attempt `k` is made on `states[k]` by a caller with bitmask
/// `roles[k]` and record `infos[k]`, for `amounts[k]` at `times[k]`, and
/// leaves `states[k + 1]`, as `mint` describes it.
pub open spec fn mint_run(
    states: Seq<StablecoinState>,
    roles: Seq<u8>,
    infos: Seq<MinterInfo>,
    amounts: Seq<u64>,
    times: Seq<i64>,
) -> bool {
    &&& states.len() == amounts.len() + 1
    &&& roles.len() == amounts.len()
    &&& infos.len() == amounts.len()
    &&& times.len() == amounts.len()
    &&& forall|k: int|
        0 <= k < amounts.len() ==> if #[trigger] mint_error(
            states[k],
            roles[k],
            infos[k],
            amounts[k],
            times[k],
        ) is None {
            states[k + 1] == after_issue(states[k], amounts[k] as int, times[k])
        } else {
            states[k + 1] == states[k]
        }
}

/// The sum of the amounts of the attempts of a run that succeeded.
pub open spec fn minted_in_run(
    states: Seq<StablecoinState>,
    roles: Seq<u8>,
    infos: Seq<MinterInfo>,
    amounts: Seq<u64>,
    times: Seq<i64>,
) -> int
    decreases amounts.len(),
{
    if amounts.len() == 0 {
        0
    } else {
        let k = amounts.len() - 1;
        minted_in_run(
            states.drop_last(),
            roles.drop_last(),
            infos.drop_last(),
            amounts.drop_last(),
            times.drop_last(),
        ) + if mint_error(states[k], roles[k], infos[k], amounts[k], times[k]) is None {
            amounts[k] as int
        } else {
            0
        }
    }
}

/// After any run of mint attempts the supply has grown by exactly the sum
/// of the amounts of the successful ones (refused ones add nothing), and
/// while a cap is set no state of the run holds more than the cap, provided
/// the first one did not.
pub proof fn lemma_supply_tracks_mints(
    states: Seq<StablecoinState>,
    roles: Seq<u8>,
    infos: Seq<MinterInfo>,
    amounts: Seq<u64>,
    times: Seq<i64>,
)
    requires
        mint_run(states, roles, infos, amounts, times),
    ensures
        states.last().total_supply == states[0].total_supply + minted_in_run(
            states,
            roles,
            infos,
            amounts,
            times,
        ),
        states.last().supply_cap == states[0].supply_cap,
        states[0].supply_cap != 0 && states[0].total_supply <= states[0].supply_cap ==> forall|k: int|
            0 <= k < states.len() ==> #[trigger] states[k].total_supply <= states[0].supply_cap,
    decreases amounts.len(),
{
    let n = amounts.len() as int;
    if n > 0 {
        let k = n - 1;
        assert(if mint_error(states[k], roles[k], infos[k], amounts[k], times[k]) is None {
            states[k + 1] == after_issue(states[k], amounts[k] as int, times[k])
        } else {
            states[k + 1] == states[k]
        });
        let prefix = states.drop_last();
        assert forall|j: int| 0 <= j < amounts.drop_last().len() implies if #[trigger] mint_error(
            prefix[j],
            roles.drop_last()[j],
            infos.drop_last()[j],
            amounts.drop_last()[j],
            times.drop_last()[j],
        ) is None {
            prefix[j + 1] == after_issue(prefix[j], amounts.drop_last()[j] as int, times.drop_last()[j])
        } else {
            prefix[j + 1] == prefix[j]
        } by {
            assert(mint_error(states[j], roles[j], infos[j], amounts[j], times[j]) is None ==> states[j
                + 1] == after_issue(states[j], amounts[j] as int, times[j]));
        }
        lemma_supply_tracks_mints(
            prefix,
            roles.drop_last(),
            infos.drop_last(),
            amounts.drop_last(),
            times.drop_last(),
        );
        assert(prefix.last() == states[k]);
        if states[0].supply_cap != 0 && states[0].total_supply <= states[0].supply_cap {
            assert forall|j: int| 0 <= j < states.len() implies #[trigger] states[j].total_supply
                <= states[0].supply_cap by {
                if j < n {
                    assert(prefix[j] == states[j]);
                }
            }
        }
    }
}

/// A sum of amounts is never negative.
pub proof fn lemma_sum_nonnegative(amounts: Seq<u64>)
    ensures
        sum_amounts(amounts) >= 0,
    decreases amounts.len(),
{
    if amounts.len() > 0 {
        lemma_sum_nonnegative(amounts.drop_last());
    }
}

/// A successful mint by a minter without the master bit leaves it within
/// its quota, and a mint that would take it past the quota is refused.
pub proof fn lemma_mint_keeps_quota(
    s: StablecoinState,
    bits: u8,
    info: MinterInfo,
    amount: u64,
    now: i64,
)
    requires
        !is_master(bits),
    ensures
        mint_error(s, bits, info, amount, now) is None ==> after_issue_info(
            info,
            bits,
            amount as int,
        ).minted <= info.quota,
        info.minted + amount > info.quota ==> mint_error(s, bits, info, amount, now) is Some,
{
}

/// The same for a batch, checked against the sum of its amounts.
pub proof fn lemma_batch_mint_keeps_quota(
    s: StablecoinState,
    bits: u8,
    info: MinterInfo,
    amounts: Seq<u64>,
    recipient_count: int,
    now: i64,
)
    requires
        !is_master(bits),
    ensures
        batch_mint_error(s, bits, info, amounts, recipient_count, now) is None ==> after_issue_info(
            info,
            bits,
            sum_amounts(amounts),
        ).minted <= info.quota,
        info.minted + sum_amounts(amounts) > info.quota ==> batch_mint_error(
            s,
            bits,
            info,
            amounts,
            recipient_count,
            now,
        ) is Some,
{
    lemma_sum_nonnegative(amounts);
}

/// A mint one second before the window closes still counts in the current
/// window; a mint when it closes opens a new window that holds only the new
/// amount.
pub proof fn lemma_epoch_rollover(s: StablecoinState, amount: u64)
    requires
        s.epoch_quota != 0,
        s.current_epoch_start <= i64::MAX - EPOCH_SECONDS,
    ensures
        !rolls_over(s, (s.current_epoch_start + EPOCH_SECONDS - 1) as i64),
        after_issue(s, amount as int, (s.current_epoch_start + EPOCH_SECONDS - 1) as i64).current_epoch_start
            == s.current_epoch_start,
        after_issue(s, amount as int, (s.current_epoch_start + EPOCH_SECONDS - 1) as i64).current_epoch_minted
            == (s.current_epoch_minted + amount) as u64,
        rolls_over(s, (s.current_epoch_start + EPOCH_SECONDS) as i64),
        after_issue(s, amount as int, (s.current_epoch_start + EPOCH_SECONDS) as i64).current_epoch_start
            == s.current_epoch_start + EPOCH_SECONDS,
        after_issue(s, amount as int, (s.current_epoch_start + EPOCH_SECONDS) as i64).current_epoch_minted
            == amount,
{
}

/// A transfer that involves the permanent delegate is never refused for
/// the lists or the minimum, and owes no fee, whatever the blacklist says;
/// only a pause stops it.
pub proof fn lemma_delegate_pays_no_fee(
    c: TransferHookConfig,
    source: Pubkey,
    destination: Pubkey,
    source_blacklisted: bool,
    destination_blacklisted: bool,
    whitelisted: bool,
    amount: u64,
)
    requires
        involves_delegate(c, source, destination),
        !c.is_paused,
    ensures
        transfer_fee(c, true, whitelisted, amount) == 0,
        transfer_error(
            c,
            true,
            source_blacklisted,
            destination_blacklisted,
            whitelisted,
            amount,
        ) is None,
{
}

/// The same for the second hook: a transfer that involves the permanent
/// delegate passes with no fee whatever the accounts it presents hold.
pub proof fn lemma_delegate_pays_no_fee_sss2(
    c: sss2_hook::TransferHookConfig,
    program_id: Pubkey,
    source: Pubkey,
    destination: Pubkey,
    whitelist: sss2_hook::AccountView,
    blacklist: sss2_hook::AccountView,
    amount: u64,
)
    requires
        sss2_hook::is_delegate_transfer(c, source, destination),
        !c.is_paused,
    ensures
        sss2_hook::hook_outcome(c, program_id, source, destination, whitelist, blacklist, amount)
            == Ok::<(u64, bool), sss2_hook::TransferHookError>((0u64, true)),
{
}

/// Granting a bitmask and reading it back gives exactly that bitmask: a
/// grant overwrites whatever was held before.
pub proof fn lemma_grant_round_trip(acct: RoleAccount, earlier: u8, bits: u8)
    ensures
        granted(acct, bits).roles == bits,
        granted(granted(acct, earlier), bits).roles == bits,
        granted(granted(acct, earlier), bits) == granted(acct, bits),
{
}

/// A proposal executes at most once: once executed, executing it again is
/// refused. Nor does an expired proposal ever execute.
pub proof fn lemma_execute_at_most_once(
    c: MultisigConfig,
    p: MultisigProposal,
    now: i64,
)
    ensures
        p.executed ==> execute_error(c, p, now) is Some,
        now >= p.expires_at ==> execute_error(c, p, now) is Some,
{
}

/// Whatever the record held before, a successful mint leaves the supply
/// within the cap and the window within the epoch quota.
pub proof fn lemma_mint_within_limits(
    s: StablecoinState,
    bits: u8,
    info: MinterInfo,
    amount: u64,
    now: i64,
)
    requires
        mint_error(s, bits, info, amount, now) is None,
    ensures
        after_issue(s, amount as int, now).within_limits(),
{
}

/// The same for a batch.
pub proof fn lemma_batch_mint_within_limits(
    s: StablecoinState,
    bits: u8,
    info: MinterInfo,
    amounts: Seq<u64>,
    recipient_count: int,
    now: i64,
)
    requires
        batch_mint_error(s, bits, info, amounts, recipient_count, now) is None,
    ensures
        after_issue(s, sum_amounts(amounts), now).within_limits(),
{
    lemma_sum_nonnegative(amounts);
}

/// A burn keeps a record within its limits.
pub proof fn lemma_burn_within_limits(s: StablecoinState, bits: u8, burner: Pubkey, owner: Pubkey, amount: u64)
    requires
        s.within_limits(),
        burn_error(s, bits, burner, owner, amount) is None,
    ensures
        (StablecoinState { total_supply: (s.total_supply - amount) as u64, ..s }).within_limits(),
{
}

/// An accepted approval keeps the approvals distinct and from signers.
pub proof fn lemma_approval_keeps_approvals_valid(
    c: MultisigConfig,
    p: MultisigProposal,
    signer: Pubkey,
    now: i64,
)
    requires
        valid_approvals(c.signers@, p.approvals@),
        approve_error(c, p, signer, now) is None,
    ensures
        valid_approvals(c.signers@, p.approvals@.push(signer)),
{
    let a = p.approvals@.push(signer);
    assert forall|i: int| 0 <= i < a.len() implies c.signers@.contains(#[trigger] a[i]) by {
        if i < p.approvals@.len() {
            assert(a[i] == p.approvals@[i]);
        }
    }
    assert forall|i: int, j: int| 0 <= i < a.len() && 0 <= j < a.len() && i != j implies a[i] != a[j] by {
        if i == p.approvals@.len() {
            assert(a[j] == p.approvals@[j]);
        } else if j == p.approvals@.len() {
            assert(a[i] == p.approvals@[i]);
        } else {
            assert(a[i] == p.approvals@[i]);
            assert(a[j] == p.approvals@[j]);
        }
    }
}

/// A batch is held to the minter's quota as a whole: when its amounts
/// together exceed what the quota leaves, it is refused with
/// `QuotaExceeded`, even if each amount alone would fit, unless the sum
/// with what was minted overflows (`MathOverflow`).
pub proof fn lemma_batch_checks_aggregate(
    s: StablecoinState,
    bits: u8,
    info: MinterInfo,
    amounts: Seq<u64>,
    now: i64,
)
    requires
        0 < amounts.len() <= MAX_BATCH,
        !s.is_paused,
        holds(bits, ROLE_MINTER),
        !is_master(bits),
        total_error(amounts) is None,
        info.minted + sum_amounts(amounts) <= u64::MAX,
        info.minted + sum_amounts(amounts) > info.quota,
    ensures
        batch_mint_error(s, bits, info, amounts, amounts.len() as int, now) == Some(
            StablecoinError::QuotaExceeded,
        ),
{
}

/// A standard transfer (no delegate, no whitelisted party, no active
/// blacklist entry, at least the minimum, a rate of at most 100%) passes
/// and owes exactly `fee_for`, leaving `amount - fee_for` to the receiver,
/// unless the fees collected would overflow.
pub proof fn lemma_standard_transfer_fee(
    c: TransferHookConfig,
    source_blacklisted: bool,
    destination_blacklisted: bool,
    amount: u64,
)
    requires
        !c.is_paused,
        !c.blacklist_enabled || (!source_blacklisted && !destination_blacklisted),
        amount >= c.min_transfer_amount,
        c.transfer_fee_basis_points <= BPS_DENOMINATOR,
        c.total_fees_collected + fee_for(amount, c.transfer_fee_basis_points, c.max_transfer_fee)
            <= u64::MAX,
    ensures
        transfer_error(c, false, source_blacklisted, destination_blacklisted, false, amount) is None,
        transfer_fee(c, false, false, amount) == fee_for(
            amount,
            c.transfer_fee_basis_points,
            c.max_transfer_fee,
        ),
        0 <= amount - transfer_fee(c, false, false, amount) <= amount,
{
    lemma_fee_within_amount(amount, c.transfer_fee_basis_points, c.max_transfer_fee);
}

} // verus!
