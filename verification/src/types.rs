use vstd::prelude::*;

verus! {

/// An account identifier: a fixed-width address value.
///
/// The zero value is the reserved "nowhere" account: it may never hold a
/// balance or an allowance, and it stands for "out of nowhere" in the `from`
/// field of a mint event and for "into nowhere" in the `to` field of a burn
/// event.
pub type Account = u64;

/// A token amount: the widest unsigned integer the ledger works in.
/// Balances, allowances and the total supply all use this type, so none of
/// them can ever be negative.
pub type Amount = u128;

/// The reserved null account identifier.
pub const ZERO_ACCOUNT: Account = 0;

/// The sentinel allowance that means "unlimited": a delegated transfer
/// against it neither checks nor decrements the allowance.
pub const INFINITE_ALLOWANCE: Amount = u128::MAX;

} // verus!
