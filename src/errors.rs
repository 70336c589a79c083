use vstd::prelude::*;

verus! {

/// Why an issuance, role or governance operation was refused.
#[derive(Clone, Copy, Debug, PartialEq, Eq, Structural)]
pub enum StablecoinError {
    Unauthorized,
    ContractPaused,
    InvalidAmount,
    QuotaExceeded,
    RoleAlreadyAssigned,
    MathOverflow,
    InvalidAuthority,
    ComplianceNotEnabled,
    AlreadyInitialized,
    InsufficientBalance,
    SupplyCapExceeded,
    EpochQuotaExceeded,
    NameTooLong,
    SymbolTooLong,
    InvalidRole,
}

} // verus!
