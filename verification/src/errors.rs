use vstd::prelude::*;
use crate::types::{Account, Amount};

verus! {

/// Every way a ledger operation can fail. A failed operation never mutates
/// any state: the caller sees either the full effect or none of it.
#[derive(Clone, Copy, Debug, PartialEq, Eq, Structural)]
pub enum Error {
    /// A debit asked for more than the account holds.
    InsufficientBalance { account: Account, balance: Amount, needed: Amount },
    /// A delegated transfer asked for more than the spender's allowance.
    InsufficientAllowance { owner: Account, spender: Account, allowance: Amount, needed: Amount },
    /// A credit or mint would push a balance or the total supply past the
    /// largest representable amount.
    ArithmeticOverflow,
    /// A privileged call was made by an account other than the role holder.
    Unauthorized,
    /// The null account identifier was used where a real account is required.
    InvalidAccount,
}

} // verus!
