use vstd::prelude::*;
use crate::erc20::{
    approve_ok, burn_from_ok, burn_ok, mint_ok, transfer_from_ok, transfer_ok, Erc20,
};
use crate::errors::Error;
use crate::events::Event;
use crate::metadata::{Erc20Metadata, DECIMALS};
use crate::ownable::Ownable;
use crate::types::{Account, Amount, INFINITE_ALLOWANCE, ZERO_ACCOUNT};

verus! {

/// The complete token: the ledger, its human-readable metadata, and the
/// access guard for the privileged mint. Callers identify themselves by an
/// explicit `caller` argument; the host that dispatches calls into the token
/// is responsible for passing the true caller.
#[derive(Debug)]
pub struct Erc20Workshop {
    pub erc20: Erc20,
    pub metadata: Erc20Metadata,
    pub ownable: Ownable,
}

impl Erc20Workshop {
    pub open spec fn inv(self) -> bool {
        self.erc20.inv()
    }

    /// The metadata and the guard are untouched by a ledger operation.
    pub open spec fn same_admin(pre: Erc20Workshop, post: Erc20Workshop) -> bool {
        post.metadata == pre.metadata && post.ownable == pre.ownable
    }

    /// Build a fresh, empty token with the given metadata and role holder.
    /// Fails exactly when `owner` is the null account.
    pub fn constructor(name: String, symbol: String, owner: Account) -> (r: Result<
        Erc20Workshop,
        Error,
    >)
        ensures
            match r {
                Ok(t) => owner != ZERO_ACCOUNT && t.inv() && t.ownable.holder == owner
                    && t.metadata.token_name == name && t.metadata.token_symbol == symbol
                    && t.erc20.total() == 0 && (forall|a: Account| t.erc20.bal(a) == 0) && (forall|
                    o: Account,
                    p: Account,
                | t.erc20.allow(o, p) == 0) && t.erc20.events@ == Seq::<Event>::empty(),
                Err(e) => owner == ZERO_ACCOUNT && e == Error::InvalidAccount,
            },
    {
        let ownable = match Ownable::constructor(owner) {
            Ok(o) => o,
            Err(e) => {
                return Err(e);
            },
        };
        let metadata = Erc20Metadata::constructor(name, symbol);
        Ok(Erc20Workshop { erc20: Erc20::new(), metadata, ownable })
    }

    /// Privileged supply creation: only the role holder may mint, and the
    /// guard is consulted before any state is read or written.
    pub fn mint(&mut self, caller: Account, to: Account, value: Amount) -> (r: Result<(), Error>)
        requires
            old(self).inv(),
        ensures
            final(self).inv(),
            match r {
                Ok(()) => old(self).ownable.authorized(caller)
                    && mint_ok(old(self).erc20, final(self).erc20, to, value)
                    && Self::same_admin(*old(self), *final(self)),
                Err(e) => *final(self) == *old(self) && (if !old(self).ownable.authorized(caller) {
                    e == Error::Unauthorized
                } else if to == ZERO_ACCOUNT {
                    e == Error::InvalidAccount
                } else {
                    old(self).erc20.total() + value > u128::MAX && e == Error::ArithmeticOverflow
                }),
            },
    {
        match self.ownable.only_owner(caller) {
            Err(e) => Err(e),
            Ok(()) => self.erc20.mint(to, value),
        }
    }

    pub fn total_supply(&self) -> (r: Amount)
        ensures
            r == self.erc20.total(),
    {
        self.erc20.total_supply()
    }

    pub fn balance_of(&self, account: Account) -> (r: Amount)
        requires
            self.inv(),
        ensures
            r == self.erc20.bal(account),
    {
        self.erc20.balance_of(account)
    }

    /// Move `value` from the caller's own balance to `to`.
    pub fn transfer(&mut self, caller: Account, to: Account, value: Amount) -> (r: Result<
        bool,
        Error,
    >)
        requires
            old(self).inv(),
        ensures
            final(self).inv(),
            match r {
                Ok(b) => b && transfer_ok(old(self).erc20, final(self).erc20, caller, to, value)
                    && Self::same_admin(*old(self), *final(self)),
                Err(e) => *final(self) == *old(self) && (if caller == ZERO_ACCOUNT || to
                    == ZERO_ACCOUNT {
                    e == Error::InvalidAccount
                } else {
                    value > old(self).erc20.bal(caller) && e == (Error::InsufficientBalance {
                        account: caller,
                        balance: old(self).erc20.bal(caller),
                        needed: value,
                    })
                }),
            },
    {
        self.erc20.transfer(caller, to, value)
    }

    pub fn allowance(&self, owner: Account, spender: Account) -> (r: Amount)
        requires
            self.inv(),
        ensures
            r == self.erc20.allow(owner, spender),
    {
        self.erc20.allowance(owner, spender)
    }

    /// The caller overwrites `spender`'s allowance against itself.
    pub fn approve(&mut self, caller: Account, spender: Account, value: Amount) -> (r: Result<
        bool,
        Error,
    >)
        requires
            old(self).inv(),
        ensures
            final(self).inv(),
            match r {
                Ok(b) => b && approve_ok(old(self).erc20, final(self).erc20, caller, spender, value)
                    && Self::same_admin(*old(self), *final(self)),
                Err(e) => *final(self) == *old(self) && (caller == ZERO_ACCOUNT || spender
                    == ZERO_ACCOUNT) && e == Error::InvalidAccount,
            },
    {
        self.erc20.approve(caller, spender, value)
    }

    /// The caller, as spender, moves `value` from `from` to `to` against its
    /// allowance.
    pub fn transfer_from(
        &mut self,
        caller: Account,
        from: Account,
        to: Account,
        value: Amount,
    ) -> (r: Result<bool, Error>)
        requires
            old(self).inv(),
        ensures
            final(self).inv(),
            match r {
                Ok(b) => b && transfer_from_ok(
                    old(self).erc20,
                    final(self).erc20,
                    caller,
                    from,
                    to,
                    value,
                ) && Self::same_admin(*old(self), *final(self)),
                Err(e) => *final(self) == *old(self) && (if old(self).erc20.allow(from, caller)
                    != INFINITE_ALLOWANCE && value > old(self).erc20.allow(from, caller) {
                    e == (Error::InsufficientAllowance {
                        owner: from,
                        spender: caller,
                        allowance: old(self).erc20.allow(from, caller),
                        needed: value,
                    })
                } else if from == ZERO_ACCOUNT || to == ZERO_ACCOUNT {
                    e == Error::InvalidAccount
                } else {
                    value > old(self).erc20.bal(from) && e == (Error::InsufficientBalance {
                        account: from,
                        balance: old(self).erc20.bal(from),
                        needed: value,
                    })
                }),
            },
    {
        self.erc20.transfer_from(caller, from, to, value)
    }

    /// The caller destroys `value` tokens from its own balance.
    pub fn burn(&mut self, caller: Account, value: Amount) -> (r: Result<(), Error>)
        requires
            old(self).inv(),
        ensures
            final(self).inv(),
            match r {
                Ok(()) => burn_ok(old(self).erc20, final(self).erc20, caller, value)
                    && Self::same_admin(*old(self), *final(self)),
                Err(e) => *final(self) == *old(self) && (if caller == ZERO_ACCOUNT {
                    e == Error::InvalidAccount
                } else {
                    value > old(self).erc20.bal(caller) && e == (Error::InsufficientBalance {
                        account: caller,
                        balance: old(self).erc20.bal(caller),
                        needed: value,
                    })
                }),
            },
    {
        self.erc20.burn(caller, value)
    }

    /// The caller, as spender, destroys `value` tokens from `account`'s
    /// balance against its allowance.
    pub fn burn_from(&mut self, caller: Account, account: Account, value: Amount) -> (r: Result<
        (),
        Error,
    >)
        requires
            old(self).inv(),
        ensures
            final(self).inv(),
            match r {
                Ok(()) => burn_from_ok(old(self).erc20, final(self).erc20, caller, account, value)
                    && Self::same_admin(*old(self), *final(self)),
                Err(e) => *final(self) == *old(self) && (if old(self).erc20.allow(account, caller)
                    != INFINITE_ALLOWANCE && value > old(self).erc20.allow(account, caller) {
                    e == (Error::InsufficientAllowance {
                        owner: account,
                        spender: caller,
                        allowance: old(self).erc20.allow(account, caller),
                        needed: value,
                    })
                } else if account == ZERO_ACCOUNT {
                    e == Error::InvalidAccount
                } else {
                    value > old(self).erc20.bal(account) && e == (Error::InsufficientBalance {
                        account: account,
                        balance: old(self).erc20.bal(account),
                        needed: value,
                    })
                }),
            },
    {
        self.erc20.burn_from(caller, account, value)
    }

    pub fn name(&self) -> (r: String)
        ensures
            r == self.metadata.token_name,
    {
        self.metadata.name()
    }

    pub fn symbol(&self) -> (r: String)
        ensures
            r == self.metadata.token_symbol,
    {
        self.metadata.symbol()
    }

    pub fn decimals(&self) -> (r: u8)
        ensures
            r == DECIMALS,
    {
        self.metadata.decimals()
    }

    pub fn owner(&self) -> (r: Account)
        ensures
            r == self.ownable.holder,
    {
        self.ownable.owner()
    }

    /// The event log so far: one record per successful operation, oldest
    /// first.
    pub fn events(&self) -> (r: &Vec<Event>)
        ensures
            r@ == self.erc20.events@,
    {
        &self.erc20.events
    }

    pub fn transfer_ownership(&mut self, caller: Account, new_owner: Account) -> (r: Result<
        (),
        Error,
    >)
        requires
            old(self).inv(),
        ensures
            final(self).inv(),
            final(self).erc20 == old(self).erc20,
            final(self).metadata == old(self).metadata,
            match r {
                Ok(()) => old(self).ownable.authorized(caller) && new_owner != ZERO_ACCOUNT
                    && final(self).ownable.holder == new_owner,
                Err(e) => *final(self) == *old(self) && (if !old(self).ownable.authorized(caller) {
                    e == Error::Unauthorized
                } else {
                    new_owner == ZERO_ACCOUNT && e == Error::InvalidAccount
                }),
            },
    {
        self.ownable.transfer_ownership(caller, new_owner)
    }

    pub fn renounce_ownership(&mut self, caller: Account) -> (r: Result<(), Error>)
        requires
            old(self).inv(),
        ensures
            final(self).inv(),
            final(self).erc20 == old(self).erc20,
            final(self).metadata == old(self).metadata,
            match r {
                Ok(()) => old(self).ownable.authorized(caller) && final(self).ownable.holder
                    == ZERO_ACCOUNT,
                Err(e) => *final(self) == *old(self) && !old(self).ownable.authorized(caller)
                    && e == Error::Unauthorized,
            },
    {
        self.ownable.renounce_ownership(caller)
    }
}

} // verus!
