//! A verified fungible-token ledger.
//!
//! The crate keeps account balances, owner/spender allowances, a conserved
//! total supply and a single privileged minter role, and proves after every
//! operation that the total supply equals the sum of all balances, that every
//! operation either fully applies or leaves the state untouched, and that
//! the event log records exactly the successful operations.

pub mod types;
pub mod errors;
pub mod balances;
pub mod allowances;
pub mod events;
pub mod erc20;
pub mod ownable;
pub mod metadata;
pub mod token;
pub mod laws;
