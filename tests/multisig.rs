use sss_token::errors::StablecoinError;
use sss_token::multisig::{
    all_distinct, approve_proposal, contains_key, create_proposal, execute_proposal,
    initialize_multisig, MultisigConfig,
};
use sss_token::roles::{RoleAccount, ROLE_MASTER, ROLE_MINTER};
use sss_token::Pubkey;

fn key(n: u64) -> Pubkey {
    Pubkey { w0: 0, w1: 0, w2: 0, w3: n }
}

fn master() -> RoleAccount {
    RoleAccount { owner: key(1), roles: ROLE_MASTER, stablecoin: key(3), bump: 0 }
}

fn config() -> MultisigConfig {
    initialize_multisig(&master(), key(3), 2, vec![key(10), key(11), key(12)], 1).unwrap()
}

#[test]
fn two_of_three_lifecycle() {
    let c = config();
    let (mut p, ev) = create_proposal(&c, key(20), key(21), key(10), vec![1, 2, 3], 100, 1_000, 0).unwrap();
    assert_eq!(ev.proposer, key(10));
    assert_eq!(p.expires_at, 1_100);
    // approve(A) once, then again: refused as a duplicate
    approve_proposal(&c, &mut p, key(21), key(10), 1_001).unwrap();
    assert_eq!(approve_proposal(&c, &mut p, key(21), key(10), 1_002).unwrap_err(), StablecoinError::InvalidAmount);
    let ev = approve_proposal(&c, &mut p, key(21), key(11), 1_003).unwrap();
    assert_eq!(ev.approvals, 2);
    assert_eq!(ev.threshold, 2);
    assert_eq!(p.approvals.len(), 2);
    let ev = execute_proposal(&c, &mut p, key(21), key(12), 1_099).unwrap();
    assert_eq!(ev.executor, key(12));
    assert!(p.executed);
    assert_eq!(execute_proposal(&c, &mut p, key(21), key(12), 1_099).unwrap_err(), StablecoinError::InvalidAmount);
    assert_eq!(approve_proposal(&c, &mut p, key(21), key(12), 1_050).unwrap_err(), StablecoinError::InvalidAmount);
}

#[test]
fn expired_proposal_never_executes() {
    let c = config();
    let (mut p, _) = create_proposal(&c, key(20), key(21), key(10), vec![], 100, 1_000, 0).unwrap();
    approve_proposal(&c, &mut p, key(21), key(10), 1_001).unwrap();
    approve_proposal(&c, &mut p, key(21), key(11), 1_001).unwrap();
    approve_proposal(&c, &mut p, key(21), key(12), 1_001).unwrap();
    assert_eq!(execute_proposal(&c, &mut p, key(21), key(10), 1_100).unwrap_err(), StablecoinError::InvalidAmount);
    assert_eq!(approve_proposal(&c, &mut p, key(21), key(10), 1_100).unwrap_err(), StablecoinError::InvalidAmount);
    assert!(!p.executed);
}

#[test]
fn execute_needs_threshold() {
    let c = config();
    let (mut p, _) = create_proposal(&c, key(20), key(21), key(10), vec![], 100, 1_000, 0).unwrap();
    approve_proposal(&c, &mut p, key(21), key(10), 1_001).unwrap();
    assert_eq!(execute_proposal(&c, &mut p, key(21), key(10), 1_002).unwrap_err(), StablecoinError::Unauthorized);
    assert!(!p.executed);
}

#[test]
fn only_signers_propose_and_approve() {
    let c = config();
    assert_eq!(
        create_proposal(&c, key(20), key(21), key(99), vec![], 100, 1_000, 0).unwrap_err(),
        StablecoinError::Unauthorized
    );
    let (mut p, _) = create_proposal(&c, key(20), key(21), key(11), vec![], 100, 1_000, 0).unwrap();
    assert_eq!(approve_proposal(&c, &mut p, key(21), key(99), 1_001).unwrap_err(), StablecoinError::Unauthorized);
    assert_eq!(
        create_proposal(&c, key(20), key(21), key(11), vec![], i64::MAX, 1, 0).unwrap_err(),
        StablecoinError::MathOverflow
    );
}

#[test]
fn multisig_config_validation() {
    let minter = RoleAccount { owner: key(1), roles: ROLE_MINTER, stablecoin: key(3), bump: 0 };
    assert_eq!(initialize_multisig(&minter, key(3), 1, vec![key(1)], 0).unwrap_err(), StablecoinError::Unauthorized);
    assert_eq!(initialize_multisig(&master(), key(3), 0, vec![key(1)], 0).unwrap_err(), StablecoinError::InvalidAmount);
    assert_eq!(initialize_multisig(&master(), key(3), 3, vec![key(1), key(2)], 0).unwrap_err(), StablecoinError::InvalidAmount);
    let eleven: Vec<Pubkey> = (0..11).map(key).collect();
    assert_eq!(initialize_multisig(&master(), key(3), 2, eleven, 0).unwrap_err(), StablecoinError::InvalidAmount);
    assert_eq!(
        initialize_multisig(&master(), key(3), 1, vec![key(1), key(2), key(1)], 0).unwrap_err(),
        StablecoinError::InvalidAmount
    );
    let ten: Vec<Pubkey> = (0..10).map(key).collect();
    let c = initialize_multisig(&master(), key(3), 10, ten, 0).unwrap();
    assert_eq!(c.signers.len(), 10);
}

#[test]
fn key_search_helpers() {
    assert!(contains_key(&vec![key(1), key(2)], key(2)));
    assert!(!contains_key(&vec![key(1), key(2)], key(3)));
    assert!(all_distinct(&vec![key(1), key(2)]));
    assert!(!all_distinct(&vec![key(2), key(1), key(2)]));
    assert!(all_distinct(&vec![]));
}
