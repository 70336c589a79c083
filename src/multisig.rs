use vstd::prelude::*;
use crate::errors::StablecoinError;
use crate::events::{MultisigProposalApproved, MultisigProposalCreated, MultisigProposalExecuted};
use crate::identity::Pubkey;
use crate::roles::{has_master, is_master, RoleAccount};

verus! {

/// Most signers in one multisig configuration.
pub const MAX_SIGNERS: usize = 10;

/// Who may sign for a stablecoin, and how many approvals an action needs.
#[derive(Clone, Debug)]
pub struct MultisigConfig {
    pub stablecoin: Pubkey,
    pub threshold: u8,
    pub signers: Vec<Pubkey>,
    pub bump: u8,
}

/// An action awaiting collective approval. `instruction_data` is opaque
/// here: the caller applies it once the proposal has been executed.
#[derive(Clone, Debug)]
pub struct MultisigProposal {
    pub config: Pubkey,
    pub proposer: Pubkey,
    pub instruction_data: Vec<u8>,
    pub approvals: Vec<Pubkey>,
    pub executed: bool,
    pub created_at: i64,
    pub expires_at: i64,
    pub bump: u8,
}

impl MultisigConfig {
    /// A threshold between 1 and the number of signers, at most
    /// `MAX_SIGNERS` signers, all distinct.
    pub open spec fn wf(&self) -> bool {
        &&& 1 <= self.threshold <= self.signers@.len() <= MAX_SIGNERS
        &&& self.signers@.no_duplicates()
    }
}

/// Approvals that are distinct and each from a signer.
pub open spec fn valid_approvals(signers: Seq<Pubkey>, approvals: Seq<Pubkey>) -> bool {
    &&& approvals.no_duplicates()
    &&& forall|i: int| 0 <= i < approvals.len() ==> signers.contains(#[trigger] approvals[i])
}

/// Two proposals that agree on everything but the approvals and the
/// executed flag.
pub open spec fn same_proposal(a: MultisigProposal, b: MultisigProposal) -> bool {
    &&& a.config == b.config
    &&& a.proposer == b.proposer
    &&& a.instruction_data@ == b.instruction_data@
    &&& a.created_at == b.created_at
    &&& a.expires_at == b.expires_at
    &&& a.bump == b.bump
}

/// Whether `k` occurs in `v`.
pub fn contains_key(v: &Vec<Pubkey>, k: Pubkey) -> (r: bool)
    ensures
        r == v@.contains(k),
{
    let mut i: usize = 0;
    while i < v.len()
        invariant
            i <= v@.len(),
            forall|j: int| 0 <= j < i ==> v@[j] != k,
        decreases v@.len() - i,
    {
        if v[i] == k {
            assert(v@[i as int] == k);
            return true;
        }
        i = i + 1;
    }
    false
}

/// Whether no key occurs twice in `v`.
pub fn all_distinct(v: &Vec<Pubkey>) -> (r: bool)
    ensures
        r == v@.no_duplicates(),
{
    let mut i: usize = 0;
    while i < v.len()
        invariant
            i <= v@.len(),
            forall|a: int, b: int| 0 <= a < b < i ==> v@[a] != v@[b],
        decreases v@.len() - i,
    {
        let mut j: usize = 0;
        while j < i
            invariant
                i < v@.len(),
                j <= i,
                forall|a: int, b: int| 0 <= a < b < i ==> v@[a] != v@[b],
                forall|a: int| 0 <= a < j ==> v@[a] != v@[i as int],
            decreases i - j,
        {
            if v[j] == v[i] {
                return false;
            }
            j = j + 1;
        }
        i = i + 1;
    }
    assert forall|a: int, b: int| 0 <= a < v@.len() && 0 <= b < v@.len() && a != b implies v@[a]
        != v@[b] by {
        if a > b {
            assert(v@[b] != v@[a]);
        }
    }
    true
}

/// Why a multisig configuration would be refused, if it would. Repeated
/// signers are refused, like every other malformed signer set.
pub open spec fn multisig_error(bits: u8, threshold: u8, signers: Seq<Pubkey>) -> Option<
    StablecoinError,
> {
    if !is_master(bits) {
        Some(StablecoinError::Unauthorized)
    } else if threshold == 0 || threshold > signers.len() || signers.len() > MAX_SIGNERS {
        Some(StablecoinError::InvalidAmount)
    } else if !signers.no_duplicates() {
        Some(StablecoinError::InvalidAmount)
    } else {
        None
    }
}

/// Sets up the multisig of a stablecoin; only a master may. The threshold
/// must lie between 1 and the number of signers, and the signers, at most
/// `MAX_SIGNERS`, must be distinct.
pub fn initialize_multisig(
    authority_role: &RoleAccount,
    stablecoin: Pubkey,
    threshold: u8,
    signers: Vec<Pubkey>,
    bump: u8,
) -> (r: Result<MultisigConfig, StablecoinError>)
    ensures
        match r {
            Ok(c) => {
                &&& multisig_error(authority_role.roles, threshold, signers@) is None
                &&& c.wf()
                &&& c.stablecoin == stablecoin
                &&& c.threshold == threshold
                &&& c.signers@ == signers@
                &&& c.bump == bump
            },
            Err(e) => multisig_error(authority_role.roles, threshold, signers@) == Some(e),
        },
{
    if !has_master(authority_role.roles) {
        return Err(StablecoinError::Unauthorized);
    }
    if threshold == 0 || threshold as usize > signers.len() || signers.len() > MAX_SIGNERS {
        return Err(StablecoinError::InvalidAmount);
    }
    if !all_distinct(&signers) {
        return Err(StablecoinError::InvalidAmount);
    }
    Ok(MultisigConfig { stablecoin, threshold, signers, bump })
}

/// Opens a proposal by `proposer`, which must be one of the signers, with
/// no approvals, expiring `expires_in` seconds after `now`.
pub fn create_proposal(
    config: &MultisigConfig,
    config_key: Pubkey,
    proposal_key: Pubkey,
    proposer: Pubkey,
    instruction_data: Vec<u8>,
    expires_in: i64,
    now: i64,
    bump: u8,
) -> (r: Result<(MultisigProposal, MultisigProposalCreated), StablecoinError>)
    ensures
        match r {
            Ok((p, ev)) => {
                &&& config.signers@.contains(proposer)
                &&& now + expires_in <= i64::MAX && now + expires_in >= i64::MIN
                &&& p.config == config_key
                &&& p.proposer == proposer
                &&& p.instruction_data@ == instruction_data@
                &&& p.approvals@ == Seq::<Pubkey>::empty()
                &&& !p.executed
                &&& p.created_at == now
                &&& p.expires_at == now + expires_in
                &&& p.bump == bump
                &&& ev == (MultisigProposalCreated { proposal: proposal_key, proposer, timestamp: now })
            },
            Err(e) => if !config.signers@.contains(proposer) {
                e == StablecoinError::Unauthorized
            } else {
                e == StablecoinError::MathOverflow && !(i64::MIN <= now + expires_in <= i64::MAX)
            },
        },
{
    if !contains_key(&config.signers, proposer) {
        return Err(StablecoinError::Unauthorized);
    }
    let expires_at = match now.checked_add(expires_in) {
        Some(v) => v,
        None => return Err(StablecoinError::MathOverflow),
    };
    let p = MultisigProposal {
        config: config_key,
        proposer,
        instruction_data,
        approvals: Vec::new(),
        executed: false,
        created_at: now,
        expires_at,
        bump,
    };
    Ok((p, MultisigProposalCreated { proposal: proposal_key, proposer, timestamp: now }))
}

/// Why an approval by `signer` at `now` would be refused, if it would.
pub open spec fn approve_error(
    c: MultisigConfig,
    p: MultisigProposal,
    signer: Pubkey,
    now: i64,
) -> Option<StablecoinError> {
    if now >= p.expires_at {
        Some(StablecoinError::InvalidAmount)
    } else if p.executed {
        Some(StablecoinError::InvalidAmount)
    } else if !c.signers@.contains(signer) {
        Some(StablecoinError::Unauthorized)
    } else if p.approvals@.contains(signer) {
        Some(StablecoinError::InvalidAmount)
    } else {
        None
    }
}

/// Records the approval of `signer`. Refused once the proposal has expired
/// (`now >= expires_at`) or been executed, for a non-signer, and for a
/// signer who already approved. Approvals may exceed the threshold.
pub fn approve_proposal(
    config: &MultisigConfig,
    proposal: &mut MultisigProposal,
    proposal_key: Pubkey,
    signer: Pubkey,
    now: i64,
) -> (r: Result<MultisigProposalApproved, StablecoinError>)
    ensures
        match r {
            Ok(ev) => {
                &&& approve_error(*config, *old(proposal), signer, now) is None
                &&& same_proposal(*final(proposal), *old(proposal))
                &&& final(proposal).executed == old(proposal).executed
                &&& final(proposal).approvals@ == old(proposal).approvals@.push(signer)
                &&& ev == (MultisigProposalApproved {
                    proposal: proposal_key,
                    approver: signer,
                    approvals: final(proposal).approvals@.len() as u8,
                    threshold: config.threshold,
                    timestamp: now,
                })
            },
            Err(e) => {
                &&& approve_error(*config, *old(proposal), signer, now) == Some(e)
                &&& *final(proposal) == *old(proposal)
            },
        },
{
    if now >= proposal.expires_at {
        return Err(StablecoinError::InvalidAmount);
    }
    if proposal.executed {
        return Err(StablecoinError::InvalidAmount);
    }
    if !contains_key(&config.signers, signer) {
        return Err(StablecoinError::Unauthorized);
    }
    if contains_key(&proposal.approvals, signer) {
        return Err(StablecoinError::InvalidAmount);
    }
    proposal.approvals.push(signer);
    Ok(MultisigProposalApproved {
        proposal: proposal_key,
        approver: signer,
        approvals: proposal.approvals.len() as u8,
        threshold: config.threshold,
        timestamp: now,
    })
}

/// Why executing at `now` would be refused, if it would.
pub open spec fn execute_error(c: MultisigConfig, p: MultisigProposal, now: i64) -> Option<
    StablecoinError,
> {
    if now >= p.expires_at {
        Some(StablecoinError::InvalidAmount)
    } else if p.approvals@.len() < c.threshold {
        Some(StablecoinError::Unauthorized)
    } else if p.executed {
        Some(StablecoinError::InvalidAmount)
    } else {
        None
    }
}

/// Marks the proposal executed. Refused once it has expired, while it has
/// fewer approvals than the threshold, and when it was already executed.
/// The executed proposal is the caller's authorization to apply its action.
pub fn execute_proposal(
    config: &MultisigConfig,
    proposal: &mut MultisigProposal,
    proposal_key: Pubkey,
    executor: Pubkey,
    now: i64,
) -> (r: Result<MultisigProposalExecuted, StablecoinError>)
    ensures
        match r {
            Ok(ev) => {
                &&& execute_error(*config, *old(proposal), now) is None
                &&& same_proposal(*final(proposal), *old(proposal))
                &&& final(proposal).approvals@ == old(proposal).approvals@
                &&& final(proposal).executed
                &&& ev == (MultisigProposalExecuted { proposal: proposal_key, executor, timestamp: now })
            },
            Err(e) => {
                &&& execute_error(*config, *old(proposal), now) == Some(e)
                &&& *final(proposal) == *old(proposal)
            },
        },
{
    if now >= proposal.expires_at {
        return Err(StablecoinError::InvalidAmount);
    }
    if proposal.approvals.len() < config.threshold as usize {
        return Err(StablecoinError::Unauthorized);
    }
    if proposal.executed {
        return Err(StablecoinError::InvalidAmount);
    }
    proposal.executed = true;
    Ok(MultisigProposalExecuted { proposal: proposal_key, executor, timestamp: now })
}

} // verus!
