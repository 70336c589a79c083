//! Decision logic of a permissioned stablecoin: role-based access control,
//! issuance limits, transfer compliance and multisignature governance.
//!
//! Every operation is a function from the current records and an
//! already-authenticated caller to either an error, with the records left as
//! they were, or the updated records and the event to publish. Moving value
//! (minting, burning, freezing, transferring) is left to the caller, which
//! performs it only after an operation here has succeeded.

mod identity;

pub mod admin;
pub mod errors;
pub mod events;
pub mod fees;
pub mod issuance;
pub mod laws;
pub mod layout;
pub mod multisig;
pub mod roles;
pub mod sss2_hook;
pub mod transfer_hook;

pub use identity::Pubkey;
