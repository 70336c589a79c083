use vstd::prelude::*;
use crate::identity::Pubkey;

verus! {

/// Published once a stablecoin has been set up.
#[derive(Clone, Debug)]
pub struct StablecoinInitialized {
    pub mint: Pubkey,
    pub authority: Pubkey,
    pub name: String,
    pub symbol: String,
    pub timestamp: i64,
}

/// Published after a mint.
#[derive(Clone, Copy, Debug, PartialEq, Eq, Structural)]
pub struct TokensMinted {
    pub minter: Pubkey,
    pub recipient: Pubkey,
    pub amount: u64,
    pub timestamp: i64,
}

/// Published after a burn.
#[derive(Clone, Copy, Debug, PartialEq, Eq, Structural)]
pub struct TokensBurned {
    pub burner: Pubkey,
    pub owner: Pubkey,
    pub amount: u64,
    pub timestamp: i64,
}

/// Published after an account was frozen.
#[derive(Clone, Copy, Debug, PartialEq, Eq, Structural)]
pub struct AccountFrozen {
    pub pauser: Pubkey,
    pub account: Pubkey,
    pub timestamp: i64,
}

/// Published after an account was thawed.
#[derive(Clone, Copy, Debug, PartialEq, Eq, Structural)]
pub struct AccountThawed {
    pub pauser: Pubkey,
    pub account: Pubkey,
    pub timestamp: i64,
}

/// Published when the stablecoin is paused.
#[derive(Clone, Copy, Debug, PartialEq, Eq, Structural)]
pub struct StablecoinPaused {
    pub pauser: Pubkey,
    pub timestamp: i64,
}

/// Published when the stablecoin is unpaused.
#[derive(Clone, Copy, Debug, PartialEq, Eq, Structural)]
pub struct StablecoinUnpaused {
    pub pauser: Pubkey,
    pub timestamp: i64,
}

/// Published after a role bitmask was overwritten.
#[derive(Clone, Copy, Debug, PartialEq, Eq, Structural)]
pub struct RolesUpdated {
    pub authority: Pubkey,
    pub target: Pubkey,
    pub new_roles: u8,
    pub timestamp: i64,
}

/// Published after a minter's quota was set.
#[derive(Clone, Copy, Debug, PartialEq, Eq, Structural)]
pub struct MinterQuotaUpdated {
    pub authority: Pubkey,
    pub minter: Pubkey,
    pub new_quota: u64,
    pub timestamp: i64,
}

/// Published when an authority transfer is started.
#[derive(Clone, Copy, Debug, PartialEq, Eq, Structural)]
pub struct AuthorityTransferStarted {
    pub previous_authority: Pubkey,
    pub pending_authority: Pubkey,
    pub timestamp: i64,
}

/// Published when the pending authority has claimed control.
#[derive(Clone, Copy, Debug, PartialEq, Eq, Structural)]
pub struct AuthorityTransferred {
    pub previous_authority: Pubkey,
    pub new_authority: Pubkey,
    pub timestamp: i64,
}

/// Published after a batch mint.
#[derive(Clone, Copy, Debug, PartialEq, Eq, Structural)]
pub struct BatchMinted {
    pub minter: Pubkey,
    pub recipients: u16,
    pub total_amount: u64,
    pub timestamp: i64,
}

/// Published when a multisig proposal is created.
#[derive(Clone, Copy, Debug, PartialEq, Eq, Structural)]
pub struct MultisigProposalCreated {
    pub proposal: Pubkey,
    pub proposer: Pubkey,
    pub timestamp: i64,
}

/// Published after each approval of a proposal.
#[derive(Clone, Copy, Debug, PartialEq, Eq, Structural)]
pub struct MultisigProposalApproved {
    pub proposal: Pubkey,
    pub approver: Pubkey,
    pub approvals: u8,
    pub threshold: u8,
    pub timestamp: i64,
}

/// Published when a proposal is executed.
#[derive(Clone, Copy, Debug, PartialEq, Eq, Structural)]
pub struct MultisigProposalExecuted {
    pub proposal: Pubkey,
    pub executor: Pubkey,
    pub timestamp: i64,
}

/// What a change of the pause flag publishes: one record per direction.
#[derive(Clone, Copy, Debug, PartialEq, Eq, Structural)]
pub enum PauseEvent {
    Paused(StablecoinPaused),
    Unpaused(StablecoinUnpaused),
}

} // verus!
