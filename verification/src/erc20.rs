use vstd::prelude::*;
use crate::allowances::AllowanceStore;
use crate::balances::{lemma_amount_le_sum, BalanceStore};
use crate::errors::Error;
use crate::events::Event;
use crate::types::{Account, Amount, INFINITE_ALLOWANCE, ZERO_ACCOUNT};

verus! {

/// The token ledger proper: balances and total supply, allowances, and the
/// event log. Every operation either fully applies and appends exactly one
/// event, or fails and leaves the whole state untouched.
#[derive(Debug)]
pub struct Erc20 {
    pub balances: BalanceStore,
    pub allowances: AllowanceStore,
    pub events: Vec<Event>,
}

/// How a successful transfer moves balances: `value` leaves `from` and
/// arrives at `to`, every other account is untouched, and a self-transfer
/// nets to zero.
pub open spec fn balances_moved(
    pre: Erc20,
    post: Erc20,
    from: Account,
    to: Account,
    value: Amount,
) -> bool {
    forall|a: Account|
        post.bal(a) as int == pre.bal(a) as int + (if a == to {
            value as int
        } else {
            0
        }) - (if a == from {
            value as int
        } else {
            0
        })
}

/// The effect of a successful `transfer(from, to, value)`.
pub open spec fn transfer_ok(
    pre: Erc20,
    post: Erc20,
    from: Account,
    to: Account,
    value: Amount,
) -> bool {
    &&& from != ZERO_ACCOUNT
    &&& to != ZERO_ACCOUNT
    &&& value <= pre.bal(from)
    &&& balances_moved(pre, post, from, to, value)
    &&& post.total() == pre.total()
    &&& post.allowances == pre.allowances
    &&& post.events@ == pre.events@.push(Event::Transfer { from, to, value })
}

/// The effect of a successful `mint(to, value)`.
pub open spec fn mint_ok(pre: Erc20, post: Erc20, to: Account, value: Amount) -> bool {
    &&& to != ZERO_ACCOUNT
    &&& pre.total() + value <= u128::MAX
    &&& post.total() == pre.total() + value
    &&& forall|a: Account|
        post.bal(a) as int == pre.bal(a) as int + (if a == to {
            value as int
        } else {
            0
        })
    &&& post.allowances == pre.allowances
    &&& post.events@ == pre.events@.push(Event::Transfer { from: ZERO_ACCOUNT, to, value })
}

/// The effect of a successful `burn(from, value)`.
pub open spec fn burn_ok(pre: Erc20, post: Erc20, from: Account, value: Amount) -> bool {
    &&& from != ZERO_ACCOUNT
    &&& value <= pre.bal(from)
    &&& post.total() == pre.total() - value
    &&& forall|a: Account|
        post.bal(a) as int == pre.bal(a) as int - (if a == from {
            value as int
        } else {
            0
        })
    &&& post.allowances == pre.allowances
    &&& post.events@ == pre.events@.push(Event::Transfer { from, to: ZERO_ACCOUNT, value })
}

/// The effect of a successful `approve(owner, spender, value)`.
pub open spec fn approve_ok(
    pre: Erc20,
    post: Erc20,
    owner: Account,
    spender: Account,
    value: Amount,
) -> bool {
    &&& owner != ZERO_ACCOUNT
    &&& spender != ZERO_ACCOUNT
    &&& post.allow(owner, spender) == value
    &&& forall|o2: Account, p2: Account|
        !(o2 == owner && p2 == spender) ==> post.allow(o2, p2) == pre.allow(o2, p2)
    &&& post.balances == pre.balances
    &&& post.events@ == pre.events@.push(Event::Approval { owner, spender, value })
}

/// How a successful delegated operation consumes the allowance: the infinite
/// sentinel is neither checked nor decremented, any other allowance covers
/// `value` and shrinks by it.
pub open spec fn allowance_spent(
    pre: Erc20,
    post: Erc20,
    owner: Account,
    spender: Account,
    value: Amount,
) -> bool {
    &&& pre.allow(owner, spender) == INFINITE_ALLOWANCE || value <= pre.allow(owner, spender)
    &&& if pre.allow(owner, spender) == INFINITE_ALLOWANCE {
        post.allowances == pre.allowances
    } else {
        post.allow(owner, spender) == pre.allow(owner, spender) - value
            && (forall|o2: Account, p2: Account|
                !(o2 == owner && p2 == spender) ==> post.allow(o2, p2) == pre.allow(o2, p2))
    }
}

/// The effect of a successful `transfer_from(spender, from, to, value)`.
pub open spec fn transfer_from_ok(
    pre: Erc20,
    post: Erc20,
    spender: Account,
    from: Account,
    to: Account,
    value: Amount,
) -> bool {
    &&& allowance_spent(pre, post, from, spender, value)
    &&& from != ZERO_ACCOUNT
    &&& to != ZERO_ACCOUNT
    &&& value <= pre.bal(from)
    &&& balances_moved(pre, post, from, to, value)
    &&& post.total() == pre.total()
    &&& post.events@ == pre.events@.push(Event::Transfer { from, to, value })
}

/// The effect of a successful `burn_from(spender, owner, value)`.
pub open spec fn burn_from_ok(
    pre: Erc20,
    post: Erc20,
    spender: Account,
    owner: Account,
    value: Amount,
) -> bool {
    &&& allowance_spent(pre, post, owner, spender, value)
    &&& owner != ZERO_ACCOUNT
    &&& value <= pre.bal(owner)
    &&& post.total() == pre.total() - value
    &&& forall|a: Account|
        post.bal(a) as int == pre.bal(a) as int - (if a == owner {
            value as int
        } else {
            0
        })
    &&& post.events@ == pre.events@.push(Event::Transfer { from: owner, to: ZERO_ACCOUNT, value })
}

impl Erc20 {
    /// The ledger invariant: unique store entries, and the conservation law
    /// `total supply == sum of all balances`. Established by `new` and
    /// preserved by every operation.
    pub open spec fn inv(self) -> bool {
        self.balances.inv() && self.allowances.wf()
    }

    pub open spec fn bal(self, a: Account) -> Amount {
        self.balances.bal(a)
    }

    pub open spec fn total(self) -> Amount {
        self.balances.total
    }

    pub open spec fn allow(self, o: Account, p: Account) -> Amount {
        self.allowances.granted(o, p)
    }

    /// An empty ledger: no balances, no allowances, no events.
    pub fn new() -> (r: Erc20)
        ensures
            r.inv(),
            r.total() == 0,
            forall|a: Account| r.bal(a) == 0,
            forall|o: Account, p: Account| r.allow(o, p) == 0,
            r.events@ == Seq::<Event>::empty(),
    {
        Erc20 { balances: BalanceStore::new(), allowances: AllowanceStore::new(), events: Vec::new() }
    }

    pub fn total_supply(&self) -> (r: Amount)
        ensures
            r == self.total(),
    {
        self.balances.total_supply()
    }

    pub fn balance_of(&self, a: Account) -> (r: Amount)
        requires
            self.inv(),
        ensures
            r == self.bal(a),
    {
        self.balances.balance_of(a)
    }

    pub fn allowance(&self, o: Account, p: Account) -> (r: Amount)
        requires
            self.inv(),
        ensures
            r == self.allow(o, p),
    {
        self.allowances.allowance_of(o, p)
    }

    /// Move `value` from `from` to `to`. All preconditions are checked before
    /// any write, so a failure leaves the ledger untouched; a transfer to the
    /// sender itself always succeeds when the balance covers `value`.
    pub fn transfer(&mut self, from: Account, to: Account, value: Amount) -> (r: Result<
        bool,
        Error,
    >)
        requires
            old(self).inv(),
        ensures
            final(self).inv(),
            match r {
                Ok(b) => b && transfer_ok(*old(self), *final(self), from, to, value),
                Err(e) => *final(self) == *old(self) && (if from == ZERO_ACCOUNT || to
                    == ZERO_ACCOUNT {
                    e == Error::InvalidAccount
                } else {
                    value > old(self).bal(from) && e == (Error::InsufficientBalance {
                        account: from,
                        balance: old(self).bal(from),
                        needed: value,
                    })
                }),
            },
    {
        if from == ZERO_ACCOUNT || to == ZERO_ACCOUNT {
            return Err(Error::InvalidAccount);
        }
        let bal_from = self.balances.balance_of(from);
        if value > bal_from {
            return Err(Error::InsufficientBalance {
                account: from,
                balance: bal_from,
                needed: value,
            });
        }
        match self.balances.debit(from, value) {
            Err(e) => Err(e),
            Ok(()) => {
                proof {
                    lemma_amount_le_sum(self.balances.entries@, to);
                }
                match self.balances.credit(to, value) {
                    Err(e) => Err(e),
                    Ok(()) => {
                        self.events.push(Event::Transfer { from, to, value });
                        Ok(true)
                    }
                }
            }
        }
    }

    /// Create `value` new tokens on `to`'s balance. Fails, mutating nothing,
    /// when `to` is the null account or the supply would overflow.
    pub fn mint(&mut self, to: Account, value: Amount) -> (r: Result<(), Error>)
        requires
            old(self).inv(),
        ensures
            final(self).inv(),
            match r {
                Ok(()) => mint_ok(*old(self), *final(self), to, value),
                Err(e) => *final(self) == *old(self) && (if to == ZERO_ACCOUNT {
                    e == Error::InvalidAccount
                } else {
                    old(self).total() + value > u128::MAX && e == Error::ArithmeticOverflow
                }),
            },
    {
        if to == ZERO_ACCOUNT {
            return Err(Error::InvalidAccount);
        }
        match self.balances.mint(to, value) {
            Err(e) => Err(e),
            Ok(()) => {
                self.events.push(Event::Transfer { from: ZERO_ACCOUNT, to, value });
                Ok(())
            }
        }
    }

    /// Destroy `value` tokens from `from`'s balance. Fails, mutating nothing,
    /// when `from` is the null account or holds less than `value`.
    pub fn burn(&mut self, from: Account, value: Amount) -> (r: Result<(), Error>)
        requires
            old(self).inv(),
        ensures
            final(self).inv(),
            match r {
                Ok(()) => burn_ok(*old(self), *final(self), from, value),
                Err(e) => *final(self) == *old(self) && (if from == ZERO_ACCOUNT {
                    e == Error::InvalidAccount
                } else {
                    value > old(self).bal(from) && e == (Error::InsufficientBalance {
                        account: from,
                        balance: old(self).bal(from),
                        needed: value,
                    })
                }),
            },
    {
        if from == ZERO_ACCOUNT {
            return Err(Error::InvalidAccount);
        }
        match self.balances.burn(from, value) {
            Err(e) => Err(e),
            Ok(()) => {
                self.events.push(Event::Transfer { from, to: ZERO_ACCOUNT, value });
                Ok(())
            }
        }
    }

    /// Overwrite `spender`'s allowance against `owner`; granting zero revokes
    /// it, granting the maximum makes it infinite. The Approval event is
    /// recorded even for zero.
    pub fn approve(&mut self, owner: Account, spender: Account, value: Amount) -> (r: Result<
        bool,
        Error,
    >)
        requires
            old(self).inv(),
        ensures
            final(self).inv(),
            match r {
                Ok(b) => b && approve_ok(*old(self), *final(self), owner, spender, value),
                Err(e) => *final(self) == *old(self) && (owner == ZERO_ACCOUNT || spender
                    == ZERO_ACCOUNT) && e == Error::InvalidAccount,
            },
    {
        match self.allowances.approve(owner, spender, value) {
            Err(e) => Err(e),
            Ok(()) => {
                self.events.push(Event::Approval { owner, spender, value });
                Ok(true)
            }
        }
    }

    /// Delegated transfer: `spender` moves `value` from `from` to `to`
    /// against its allowance. Allowance, account validity and balance are all
    /// checked before any write, so allowance consumption and balance
    /// movement commit as one atomic unit.
    pub fn transfer_from(
        &mut self,
        spender: Account,
        from: Account,
        to: Account,
        value: Amount,
    ) -> (r: Result<bool, Error>)
        requires
            old(self).inv(),
        ensures
            final(self).inv(),
            match r {
                Ok(b) => b && transfer_from_ok(*old(self), *final(self), spender, from, to, value),
                Err(e) => *final(self) == *old(self) && (if old(self).allow(from, spender)
                    != INFINITE_ALLOWANCE && value > old(self).allow(from, spender) {
                    e == (Error::InsufficientAllowance {
                        owner: from,
                        spender: spender,
                        allowance: old(self).allow(from, spender),
                        needed: value,
                    })
                } else if from == ZERO_ACCOUNT || to == ZERO_ACCOUNT {
                    e == Error::InvalidAccount
                } else {
                    value > old(self).bal(from) && e == (Error::InsufficientBalance {
                        account: from,
                        balance: old(self).bal(from),
                        needed: value,
                    })
                }),
            },
    {
        let granted = self.allowances.allowance_of(from, spender);
        if granted != INFINITE_ALLOWANCE && value > granted {
            return Err(Error::InsufficientAllowance {
                owner: from,
                spender: spender,
                allowance: granted,
                needed: value,
            });
        }
        if from == ZERO_ACCOUNT || to == ZERO_ACCOUNT {
            return Err(Error::InvalidAccount);
        }
        let bal_from = self.balances.balance_of(from);
        if value > bal_from {
            return Err(Error::InsufficientBalance {
                account: from,
                balance: bal_from,
                needed: value,
            });
        }
        match self.allowances.spend(from, spender, value) {
            Err(e) => Err(e),
            Ok(()) => match self.transfer(from, to, value) {
                Err(e) => Err(e),
                Ok(b) => Ok(b),
            },
        }
    }

    /// Delegated burn: `spender` destroys `value` tokens from `owner`'s
    /// balance against its allowance, under the same atomic rule as a
    /// delegated transfer.
    pub fn burn_from(&mut self, spender: Account, owner: Account, value: Amount) -> (r: Result<
        (),
        Error,
    >)
        requires
            old(self).inv(),
        ensures
            final(self).inv(),
            match r {
                Ok(()) => burn_from_ok(*old(self), *final(self), spender, owner, value),
                Err(e) => *final(self) == *old(self) && (if old(self).allow(owner, spender)
                    != INFINITE_ALLOWANCE && value > old(self).allow(owner, spender) {
                    e == (Error::InsufficientAllowance {
                        owner: owner,
                        spender: spender,
                        allowance: old(self).allow(owner, spender),
                        needed: value,
                    })
                } else if owner == ZERO_ACCOUNT {
                    e == Error::InvalidAccount
                } else {
                    value > old(self).bal(owner) && e == (Error::InsufficientBalance {
                        account: owner,
                        balance: old(self).bal(owner),
                        needed: value,
                    })
                }),
            },
    {
        let granted = self.allowances.allowance_of(owner, spender);
        if granted != INFINITE_ALLOWANCE && value > granted {
            return Err(Error::InsufficientAllowance {
                owner: owner,
                spender: spender,
                allowance: granted,
                needed: value,
            });
        }
        if owner == ZERO_ACCOUNT {
            return Err(Error::InvalidAccount);
        }
        let bal_owner = self.balances.balance_of(owner);
        if value > bal_owner {
            return Err(Error::InsufficientBalance {
                account: owner,
                balance: bal_owner,
                needed: value,
            });
        }
        match self.allowances.spend(owner, spender, value) {
            Err(e) => Err(e),
            Ok(()) => match self.burn(owner, value) {
                Err(e) => Err(e),
                Ok(()) => Ok(()),
            },
        }
    }
}

} // verus!
