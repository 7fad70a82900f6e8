use vstd::prelude::*;
use crate::types::{Account, Amount};

verus! {

/// One record in the ledger's event log, written on every successful
/// state-changing operation, in the order the operations committed.
///
/// A mint is recorded as a transfer out of the null account, a burn as a
/// transfer into it.
#[derive(Clone, Copy, Debug, PartialEq, Eq, Structural)]
pub enum Event {
    Transfer { from: Account, to: Account, value: Amount },
    Approval { owner: Account, spender: Account, value: Amount },
}

} // verus!
