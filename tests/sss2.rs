use sss_token::fees::calculate_fee;
use sss_token::layout::{read_pubkey, read_u64_le};
use sss_token::sss2_hook::{
    add_blacklist, add_whitelist, close_config, execute_transfer_hook, initialize,
    read_blacklist_entry, read_whitelist_entry, remove_blacklist, remove_whitelist,
    set_blacklist_enabled, set_paused, set_permanent_delegate, update_fee_config, AccountView,
    ListType, TransferHookConfig, TransferHookError, BLACKLIST_ENTRY_DISCRIMINATOR,
    WHITELIST_ENTRY_DISCRIMINATOR,
};
use sss_token::Pubkey;

const PROGRAM: Pubkey = Pubkey { w0: 77, w1: 78, w2: 79, w3: 80 };

fn key(n: u64) -> Pubkey {
    Pubkey { w0: n, w1: 0, w2: n, w3: 0 }
}

fn key_bytes(k: Pubkey) -> Vec<u8> {
    [k.w0, k.w1, k.w2, k.w3].iter().flat_map(|w| w.to_le_bytes()).collect()
}

fn record(tag: u64, address: Pubkey, flag: u8) -> AccountView {
    let mut data = tag.to_le_bytes().to_vec();
    data.extend(key_bytes(address));
    data.push(flag);
    data.extend(1_700_000_000i64.to_le_bytes());
    data.push(254);
    AccountView { owner: PROGRAM, data }
}

fn empty() -> AccountView {
    AccountView { owner: key(0), data: vec![] }
}

fn config() -> TransferHookConfig {
    let mut c = initialize(key(1), 50, 10_000, 3).unwrap();
    c.min_transfer_amount = 100;
    c
}

#[test]
fn record_tags_match_anchor_discriminators() {
    let b = anchor_lang::solana_program::hash::hash(b"account:BlacklistEntry").to_bytes();
    let w = anchor_lang::solana_program::hash::hash(b"account:WhitelistEntry").to_bytes();
    assert_eq!(BLACKLIST_ENTRY_DISCRIMINATOR.to_le_bytes(), b[..8]);
    assert_eq!(WHITELIST_ENTRY_DISCRIMINATOR.to_le_bytes(), w[..8]);
}

#[test]
fn reads_little_endian_words_and_keys() {
    let data: Vec<u8> = (1..=40).collect();
    assert_eq!(read_u64_le(&data, 0), 0x0807060504030201);
    assert_eq!(read_u64_le(&data, 3), u64::from_le_bytes([4, 5, 6, 7, 8, 9, 10, 11]));
    let k = key(0x1122334455667788);
    let mut bytes = vec![9u8];
    bytes.extend(key_bytes(k));
    assert_eq!(read_pubkey(&bytes, 1), k);
}

#[test]
fn decodes_list_records() {
    let e = read_blacklist_entry(&record(BLACKLIST_ENTRY_DISCRIMINATOR, key(5), 1), PROGRAM).unwrap().unwrap();
    assert_eq!(e.address, key(5));
    assert!(e.is_blacklisted);
    assert_eq!(e.created_at, 1_700_000_000);
    assert_eq!(e.bump, 254);
    let w = read_whitelist_entry(&record(WHITELIST_ENTRY_DISCRIMINATOR, key(6), 0), PROGRAM).unwrap().unwrap();
    assert!(!w.is_whitelisted);
    assert_eq!(w.address, key(6));
    // a wrong tag, a foreign owner or short data holds no record
    assert_eq!(read_blacklist_entry(&record(WHITELIST_ENTRY_DISCRIMINATOR, key(5), 1), PROGRAM).unwrap(), None);
    let mut foreign = record(BLACKLIST_ENTRY_DISCRIMINATOR, key(5), 1);
    foreign.owner = key(4);
    assert_eq!(read_blacklist_entry(&foreign, PROGRAM).unwrap(), None);
    let mut short = record(BLACKLIST_ENTRY_DISCRIMINATOR, key(5), 1);
    short.data.pop();
    assert_eq!(read_blacklist_entry(&short, PROGRAM).unwrap(), None);
    assert_eq!(read_blacklist_entry(&empty(), PROGRAM).unwrap(), None);
    // a flag byte other than 0 or 1 is malformed
    assert_eq!(
        read_blacklist_entry(&record(BLACKLIST_ENTRY_DISCRIMINATOR, key(5), 2), PROGRAM).unwrap_err(),
        TransferHookError::InvalidAuthority
    );
}

#[test]
fn sss2_standard_transfer_pays_fee() {
    let mut c = config();
    let ev = execute_transfer_hook(&mut c, PROGRAM, key(5), key(6), &empty(), &empty(), 1_000_000, 4).unwrap();
    assert_eq!(ev.fee, 5_000);
    assert!(!ev.is_delegate_transfer);
    let ev = execute_transfer_hook(&mut c, PROGRAM, key(5), key(6), &empty(), &empty(), 10_000_000, 4).unwrap();
    assert_eq!(ev.fee, 10_000);
    assert_eq!(c.total_fees_collected, 15_000);
    assert_eq!(
        execute_transfer_hook(&mut c, PROGRAM, key(5), key(6), &empty(), &empty(), 99, 4).unwrap_err(),
        TransferHookError::AmountTooLow
    );
    assert_eq!(close_config(&c, key(1)).unwrap(), 15_000);
    c.total_fees_collected = u64::MAX;
    assert_eq!(
        execute_transfer_hook(&mut c, PROGRAM, key(5), key(6), &empty(), &empty(), 1_000_000, 4).unwrap_err(),
        TransferHookError::MathOverflow
    );
    assert_eq!(c.total_fees_collected, u64::MAX);
}

#[test]
fn sss2_blacklist_and_whitelist() {
    let mut c = config();
    let bl = record(BLACKLIST_ENTRY_DISCRIMINATOR, key(5), 1);
    assert_eq!(
        execute_transfer_hook(&mut c, PROGRAM, key(5), key(6), &empty(), &bl, 1_000, 4).unwrap_err(),
        TransferHookError::AddressBlacklisted
    );
    let cleared = record(BLACKLIST_ENTRY_DISCRIMINATOR, key(5), 0);
    assert!(execute_transfer_hook(&mut c, PROGRAM, key(5), key(6), &empty(), &cleared, 1_000, 4).is_ok());
    set_blacklist_enabled(&mut c, key(1), false).unwrap();
    assert!(execute_transfer_hook(&mut c, PROGRAM, key(5), key(6), &empty(), &bl, 1_000, 4).is_ok());
    let wl = record(WHITELIST_ENTRY_DISCRIMINATOR, key(5), 1);
    let ev = execute_transfer_hook(&mut c, PROGRAM, key(5), key(6), &wl, &empty(), 10, 4).unwrap();
    assert_eq!(ev.fee, 0);
    // the whitelist record must name the source
    assert_eq!(
        execute_transfer_hook(&mut c, PROGRAM, key(7), key(6), &wl, &empty(), 10, 4).unwrap_err(),
        TransferHookError::AmountTooLow
    );
}

#[test]
fn sss2_delegate_and_authority_pay_nothing() {
    let mut c = config();
    assert_eq!(
        set_permanent_delegate(&mut c, key(9), Some(key(9)), 4).unwrap_err(),
        TransferHookError::InvalidAuthority
    );
    set_permanent_delegate(&mut c, key(1), Some(key(9)), 4).unwrap();
    let bl = record(BLACKLIST_ENTRY_DISCRIMINATOR, key(5), 1);
    let ev = execute_transfer_hook(&mut c, PROGRAM, key(5), key(9), &empty(), &bl, 1_000_000, 4).unwrap();
    assert_eq!(ev.fee, 0);
    assert!(ev.is_delegate_transfer);
    let ev = execute_transfer_hook(&mut c, PROGRAM, key(1), key(6), &empty(), &empty(), 1_000_000, 4).unwrap();
    assert_eq!(ev.fee, 0);
    assert!(!ev.is_delegate_transfer);
    set_paused(&mut c, key(1), true).unwrap();
    assert_eq!(
        execute_transfer_hook(&mut c, PROGRAM, key(5), key(9), &empty(), &empty(), 1, 4).unwrap_err(),
        TransferHookError::ContractPaused
    );
}

#[test]
fn sss2_fee_rate_is_capped() {
    assert_eq!(initialize(key(1), 1_001, 5, 0).unwrap_err(), TransferHookError::FeeTooHigh);
    let c = initialize(key(1), 1_000, 5, 0).unwrap();
    assert!(c.blacklist_enabled);
    assert_eq!(c.min_transfer_amount, 0);
    let mut c = config();
    assert_eq!(update_fee_config(&mut c, key(1), 1_001, 1, 1, 0).unwrap_err(), TransferHookError::FeeTooHigh);
    assert_eq!(update_fee_config(&mut c, key(2), 10, 1, 1, 0).unwrap_err(), TransferHookError::InvalidAuthority);
    let ev = update_fee_config(&mut c, key(1), 10, 1, 1, 0).unwrap();
    assert_eq!(ev.transfer_fee_basis_points, 10);
    assert_eq!(c.max_transfer_fee, 1);
    assert_eq!(calculate_fee(1_000, 1_000, 1_000), 100);
}

#[test]
fn sss2_list_entries() {
    let c = config();
    let (e, ev) = add_whitelist(&c, key(1), key(5), 11, 250).unwrap();
    assert_eq!(e.entry_type, ListType::Whitelist);
    assert!(e.is_active);
    assert_eq!(ev.added_by, key(1));
    let r = remove_whitelist(&c, key(1), &e, 12).unwrap();
    assert_eq!(r.address, key(5));
    let (b, _) = add_blacklist(&c, key(1), key(6), 11, 250).unwrap();
    assert_eq!(b.entry_type, ListType::Blacklist);
    assert_eq!(remove_blacklist(&c, key(1), &b, 12).unwrap().entry_type, ListType::Blacklist);
    assert_eq!(add_blacklist(&c, key(2), key(6), 11, 250).unwrap_err(), TransferHookError::InvalidAuthority);
    assert_eq!(remove_blacklist(&c, key(2), &b, 12).unwrap_err(), TransferHookError::InvalidAuthority);
    assert_eq!(close_config(&c, key(1)).unwrap(), 0);
    assert_eq!(close_config(&c, key(2)).unwrap_err(), TransferHookError::InvalidAuthority);
}
