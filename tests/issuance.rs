use sss_token::errors::StablecoinError;
use sss_token::issuance::{
    batch_mint, burn, mint, update_epoch_quota, update_minter_quota, update_supply_cap,
    BurnAuthority, MinterInfo, StablecoinState,
};
use sss_token::roles::{RoleAccount, ROLE_BURNER, ROLE_MASTER, ROLE_MINTER};
use sss_token::Pubkey;

fn key(n: u64) -> Pubkey {
    Pubkey { w0: n, w1: 0, w2: 0, w3: 0 }
}

fn state() -> StablecoinState {
    StablecoinState {
        authority: key(1),
        mint: key(2),
        name: "USD Coin".to_string(),
        symbol: "USDX".to_string(),
        decimals: 6,
        total_supply: 0,
        is_paused: false,
        features: 0,
        supply_cap: 0,
        epoch_quota: 0,
        current_epoch_minted: 0,
        current_epoch_start: 1_000,
        pending_authority: None,
        bump: 255,
    }
}

fn role(bits: u8) -> RoleAccount {
    RoleAccount { owner: key(7), roles: bits, stablecoin: key(3), bump: 0 }
}

fn minter(quota: u64, minted: u64) -> MinterInfo {
    MinterInfo { minter: key(7), quota, minted, stablecoin: key(3), bump: 0 }
}

fn same(a: &StablecoinState, b: &StablecoinState) -> bool {
    a.total_supply == b.total_supply
        && a.current_epoch_minted == b.current_epoch_minted
        && a.current_epoch_start == b.current_epoch_start
        && a.supply_cap == b.supply_cap
        && a.epoch_quota == b.epoch_quota
        && a.is_paused == b.is_paused
}

#[test]
fn mint_records_supply_window_and_quota() {
    let mut s = state();
    let mut info = minter(100, 10);
    let ev = mint(&mut s, &role(ROLE_MINTER), &mut info, key(7), key(8), 40, 2_000).unwrap();
    assert_eq!(s.total_supply, 40);
    assert_eq!(s.current_epoch_minted, 40);
    assert_eq!(info.minted, 50);
    assert_eq!(ev.amount, 40);
    assert_eq!(ev.recipient, key(8));
    assert_eq!(ev.minter, key(7));
    assert_eq!(ev.timestamp, 2_000);
}

#[test]
fn supply_is_sum_of_successful_mints() {
    let mut s = state();
    let mut info = minter(1_000, 0);
    let amounts = [5u64, 17, 300, 1];
    for a in amounts {
        mint(&mut s, &role(ROLE_MINTER), &mut info, key(7), key(8), a, 2_000).unwrap();
    }
    // a refused mint in between adds nothing
    assert_eq!(
        mint(&mut s, &role(ROLE_MINTER), &mut info, key(7), key(8), 0, 2_000).unwrap_err(),
        StablecoinError::InvalidAmount
    );
    assert_eq!(s.total_supply, 323);
    assert_eq!(info.minted, 323);
}

#[test]
fn mint_never_passes_supply_cap() {
    let mut s = state();
    s.supply_cap = 100;
    let mut info = minter(1_000, 0);
    mint(&mut s, &role(ROLE_MINTER), &mut info, key(7), key(8), 60, 2_000).unwrap();
    assert_eq!(
        mint(&mut s, &role(ROLE_MINTER), &mut info, key(7), key(8), 41, 2_000).unwrap_err(),
        StablecoinError::SupplyCapExceeded
    );
    mint(&mut s, &role(ROLE_MINTER), &mut info, key(7), key(8), 40, 2_000).unwrap();
    assert_eq!(s.total_supply, 100);
    assert_eq!(info.minted, 100);
}

#[test]
fn mint_refused_while_paused() {
    let mut s = state();
    s.is_paused = true;
    let mut info = minter(100, 0);
    assert_eq!(
        mint(&mut s, &role(ROLE_MINTER), &mut info, key(7), key(8), 1, 2_000).unwrap_err(),
        StablecoinError::ContractPaused
    );
}

#[test]
fn mint_refused_without_minter_role() {
    let mut s = state();
    let mut info = minter(100, 0);
    assert_eq!(
        mint(&mut s, &role(ROLE_BURNER), &mut info, key(7), key(8), 1, 2_000).unwrap_err(),
        StablecoinError::Unauthorized
    );
    assert_eq!(s.total_supply, 0);
}

#[test]
fn quota_exceeded_changes_nothing() {
    let mut s = state();
    let before = state();
    let mut info = minter(50, 45);
    assert_eq!(
        mint(&mut s, &role(ROLE_MINTER), &mut info, key(7), key(8), 6, 2_000).unwrap_err(),
        StablecoinError::QuotaExceeded
    );
    assert!(same(&s, &before));
    assert_eq!(info, minter(50, 45));
    mint(&mut s, &role(ROLE_MINTER), &mut info, key(7), key(8), 5, 2_000).unwrap();
    assert_eq!(info.minted, 50);
    assert!(info.minted <= info.quota);
}

#[test]
fn master_bypasses_minter_quota() {
    let mut s = state();
    let mut info = minter(0, 0);
    mint(&mut s, &role(ROLE_MASTER), &mut info, key(7), key(8), 500, 2_000).unwrap();
    assert_eq!(s.total_supply, 500);
    assert_eq!(info.minted, 0);
}

#[test]
fn minted_overflow_is_math_overflow() {
    let mut s = state();
    let mut info = minter(u64::MAX, u64::MAX - 1);
    assert_eq!(
        mint(&mut s, &role(ROLE_MINTER), &mut info, key(7), key(8), 2, 2_000).unwrap_err(),
        StablecoinError::MathOverflow
    );
    let mut s2 = state();
    s2.total_supply = u64::MAX;
    let mut info2 = minter(10, 0);
    assert_eq!(
        mint(&mut s2, &role(ROLE_MINTER), &mut info2, key(7), key(8), 1, 2_000).unwrap_err(),
        StablecoinError::MathOverflow
    );
}

#[test]
fn epoch_window_kept_one_second_before_rollover() {
    let mut s = state();
    s.epoch_quota = 1_000;
    s.current_epoch_minted = 300;
    let mut info = minter(10_000, 0);
    mint(&mut s, &role(ROLE_MINTER), &mut info, key(7), key(8), 50, 1_000 + 86_399).unwrap();
    assert_eq!(s.current_epoch_minted, 350);
    assert_eq!(s.current_epoch_start, 1_000);
}

#[test]
fn epoch_window_resets_at_rollover() {
    let mut s = state();
    s.epoch_quota = 1_000;
    s.current_epoch_minted = 990;
    let mut info = minter(10_000, 0);
    mint(&mut s, &role(ROLE_MINTER), &mut info, key(7), key(8), 50, 1_000 + 86_400).unwrap();
    assert_eq!(s.current_epoch_minted, 50);
    assert_eq!(s.current_epoch_start, 1_000 + 86_400);
}

#[test]
fn epoch_quota_exceeded_keeps_old_window() {
    let mut s = state();
    s.epoch_quota = 1_000;
    s.current_epoch_minted = 990;
    let mut info = minter(10_000, 0);
    assert_eq!(
        mint(&mut s, &role(ROLE_MINTER), &mut info, key(7), key(8), 11, 1_000 + 86_399).unwrap_err(),
        StablecoinError::EpochQuotaExceeded
    );
    assert_eq!(s.current_epoch_minted, 990);
    assert_eq!(s.current_epoch_start, 1_000);
}

#[test]
fn batch_over_remaining_quota_fails_entirely() {
    let mut s = state();
    let mut info = minter(55, 0);
    let r = batch_mint(&mut s, &role(ROLE_MINTER), &mut info, key(7), &vec![10, 20, 30], 3, 2_000);
    assert_eq!(r.unwrap_err(), StablecoinError::QuotaExceeded);
    assert!(same(&s, &state()));
    assert_eq!(info, minter(55, 0));
}

#[test]
fn batch_mint_adds_the_sum() {
    let mut s = state();
    let mut info = minter(60, 0);
    let ev = batch_mint(&mut s, &role(ROLE_MINTER), &mut info, key(7), &vec![10, 20, 30], 3, 2_000).unwrap();
    assert_eq!(ev.total_amount, 60);
    assert_eq!(ev.recipients, 3);
    assert_eq!(s.total_supply, 60);
    assert_eq!(s.current_epoch_minted, 60);
    assert_eq!(info.minted, 60);
}

#[test]
fn batch_shape_errors() {
    let mut s = state();
    let mut info = minter(1_000, 0);
    let r = role(ROLE_MINTER);
    assert_eq!(batch_mint(&mut s, &r, &mut info, key(7), &vec![], 0, 2_000).unwrap_err(), StablecoinError::InvalidAmount);
    assert_eq!(batch_mint(&mut s, &r, &mut info, key(7), &vec![1; 11], 11, 2_000).unwrap_err(), StablecoinError::InvalidAmount);
    assert_eq!(batch_mint(&mut s, &r, &mut info, key(7), &vec![1, 2], 3, 2_000).unwrap_err(), StablecoinError::InvalidAmount);
    assert_eq!(batch_mint(&mut s, &r, &mut info, key(7), &vec![1, 0, 2], 3, 2_000).unwrap_err(), StablecoinError::InvalidAmount);
    assert_eq!(
        batch_mint(&mut s, &r, &mut info, key(7), &vec![u64::MAX, 1], 2, 2_000).unwrap_err(),
        StablecoinError::MathOverflow
    );
    assert_eq!(s.total_supply, 0);
    let ev = batch_mint(&mut s, &r, &mut info, key(7), &vec![1; 10], 10, 2_000).unwrap();
    assert_eq!(ev.total_amount, 10);
}

#[test]
fn batch_refused_while_paused_or_unauthorized() {
    let mut s = state();
    let mut info = minter(1_000, 0);
    assert_eq!(
        batch_mint(&mut s, &role(ROLE_BURNER), &mut info, key(7), &vec![1], 1, 2_000).unwrap_err(),
        StablecoinError::Unauthorized
    );
    s.is_paused = true;
    assert_eq!(
        batch_mint(&mut s, &role(ROLE_MINTER), &mut info, key(7), &vec![1], 1, 2_000).unwrap_err(),
        StablecoinError::ContractPaused
    );
}

#[test]
fn burn_by_burner_and_by_owner() {
    let mut s = state();
    s.total_supply = 100;
    let (how, ev) = burn(&mut s, &role(ROLE_BURNER), key(7), key(9), 30, 5).unwrap();
    assert_eq!(how, BurnAuthority::Burner);
    assert_eq!(ev.amount, 30);
    assert_eq!(ev.owner, key(9));
    assert_eq!(s.total_supply, 70);
    let (how, _) = burn(&mut s, &role(0), key(9), key(9), 20, 5).unwrap();
    assert_eq!(how, BurnAuthority::Owner);
    assert_eq!(s.total_supply, 50);
}

#[test]
fn burn_errors() {
    let mut s = state();
    s.total_supply = 10;
    assert_eq!(burn(&mut s, &role(0), key(7), key(9), 5, 5).unwrap_err(), StablecoinError::Unauthorized);
    assert_eq!(burn(&mut s, &role(ROLE_BURNER), key(7), key(9), 0, 5).unwrap_err(), StablecoinError::InvalidAmount);
    assert_eq!(burn(&mut s, &role(ROLE_BURNER), key(7), key(9), 11, 5).unwrap_err(), StablecoinError::MathOverflow);
    s.is_paused = true;
    assert_eq!(burn(&mut s, &role(ROLE_BURNER), key(7), key(9), 1, 5).unwrap_err(), StablecoinError::ContractPaused);
    assert_eq!(s.total_supply, 10);
}

#[test]
fn limits_are_set_by_master_only() {
    let mut s = state();
    let mut info = minter(5, 0);
    assert_eq!(update_supply_cap(&mut s, &role(ROLE_MINTER), 9).unwrap_err(), StablecoinError::Unauthorized);
    update_supply_cap(&mut s, &role(ROLE_MASTER), 9).unwrap();
    assert_eq!(s.supply_cap, 9);
    assert_eq!(update_epoch_quota(&mut s, &role(ROLE_MINTER), 4, 1_000).unwrap_err(), StablecoinError::Unauthorized);
    update_epoch_quota(&mut s, &role(ROLE_MASTER), 4, 1_000).unwrap();
    assert_eq!(s.epoch_quota, 4);
    assert_eq!(
        update_minter_quota(&role(ROLE_MINTER), &mut info, key(1), key(7), 80, 3).unwrap_err(),
        StablecoinError::Unauthorized
    );
    let ev = update_minter_quota(&role(ROLE_MASTER), &mut info, key(1), key(7), 80, 3).unwrap();
    assert_eq!(info.quota, 80);
    assert_eq!(ev.new_quota, 80);
}

#[test]
fn quota_cannot_drop_below_minted() {
    let mut info = minter(20, 10);
    assert_eq!(
        update_minter_quota(&role(ROLE_MASTER), &mut info, key(1), key(7), 5, 3).unwrap_err(),
        StablecoinError::QuotaExceeded
    );
    assert_eq!(info, minter(20, 10));
    update_minter_quota(&role(ROLE_MASTER), &mut info, key(1), key(7), 10, 3).unwrap();
    assert_eq!(info.quota, 10);
    assert!(info.minted <= info.quota);
}

#[test]
fn cap_cannot_drop_below_supply() {
    let mut s = state();
    s.total_supply = 100;
    assert_eq!(update_supply_cap(&mut s, &role(ROLE_MASTER), 99).unwrap_err(), StablecoinError::SupplyCapExceeded);
    assert_eq!(s.supply_cap, 0);
    update_supply_cap(&mut s, &role(ROLE_MASTER), 100).unwrap();
    assert_eq!(s.supply_cap, 100);
    update_supply_cap(&mut s, &role(ROLE_MASTER), 0).unwrap();
    assert_eq!(s.supply_cap, 0);
}

#[test]
fn epoch_quota_respects_open_window() {
    let mut s = state();
    s.current_epoch_minted = 500;
    // the window opened at 1_000 is still open at 1_000 + 86_399
    assert_eq!(
        update_epoch_quota(&mut s, &role(ROLE_MASTER), 400, 1_000 + 86_399).unwrap_err(),
        StablecoinError::EpochQuotaExceeded
    );
    assert_eq!(s.epoch_quota, 0);
    update_epoch_quota(&mut s, &role(ROLE_MASTER), 500, 1_000 + 86_399).unwrap();
    assert_eq!(s.current_epoch_minted, 500);
    // once the window has closed, a new empty one opens
    let mut t = state();
    t.current_epoch_minted = 500;
    update_epoch_quota(&mut t, &role(ROLE_MASTER), 400, 1_000 + 86_400).unwrap();
    assert_eq!(t.epoch_quota, 400);
    assert_eq!(t.current_epoch_minted, 0);
    assert_eq!(t.current_epoch_start, 1_000 + 86_400);
}
