use vstd::prelude::*;
use crate::errors::Error;
use crate::types::{Account, ZERO_ACCOUNT};

verus! {

/// The access guard: one designated role holder gates the privileged
/// operations. The guard is consulted on every privileged call; nothing is
/// cached across calls.
#[derive(Debug)]
pub struct Ownable {
    /// The current role holder; the null account after renunciation.
    pub holder: Account,
}

impl Ownable {
    /// Install the initial role holder. Fails exactly when `owner` is the
    /// null account.
    pub fn constructor(owner: Account) -> (r: Result<Ownable, Error>)
        ensures
            match r {
                Ok(o) => owner != ZERO_ACCOUNT && o.holder == owner,
                Err(e) => owner == ZERO_ACCOUNT && e == Error::InvalidAccount,
            },
    {
        if owner == ZERO_ACCOUNT {
            return Err(Error::InvalidAccount);
        }
        Ok(Ownable { holder: owner })
    }

    pub fn owner(&self) -> (r: Account)
        ensures
            r == self.holder,
    {
        self.holder
    }

    /// Whether `caller` holds the role. The null account is never
    /// authorized — the host never lets it originate a call — so once the
    /// role is renounced to it, no caller can ever pass this check again.
    pub open spec fn authorized(self, caller: Account) -> bool {
        caller != ZERO_ACCOUNT && caller == self.holder
    }

    /// The single predicate the ledger consults: is `caller` the role holder?
    pub fn is_authorized(&self, caller: Account) -> (r: bool)
        ensures
            r == self.authorized(caller),
    {
        caller != ZERO_ACCOUNT && caller == self.holder
    }

    /// Succeeds exactly when `caller` holds the role.
    pub fn only_owner(&self, caller: Account) -> (r: Result<(), Error>)
        ensures
            match r {
                Ok(()) => self.authorized(caller),
                Err(e) => !self.authorized(caller) && e == Error::Unauthorized,
            },
    {
        if self.is_authorized(caller) {
            Ok(())
        } else {
            Err(Error::Unauthorized)
        }
    }

    /// Hand the role to `new_owner`. Only the current holder may call this,
    /// and the null account may not become the holder this way.
    pub fn transfer_ownership(&mut self, caller: Account, new_owner: Account) -> (r: Result<
        (),
        Error,
    >)
        ensures
            match r {
                Ok(()) => old(self).authorized(caller) && new_owner != ZERO_ACCOUNT
                    && final(self).holder == new_owner,
                Err(e) => *final(self) == *old(self) && (if !old(self).authorized(caller) {
                    e == Error::Unauthorized
                } else {
                    new_owner == ZERO_ACCOUNT && e == Error::InvalidAccount
                }),
            },
    {
        if !self.is_authorized(caller) {
            return Err(Error::Unauthorized);
        }
        if new_owner == ZERO_ACCOUNT {
            return Err(Error::InvalidAccount);
        }
        self.holder = new_owner;
        Ok(())
    }

    /// Give the role up for good: the holder becomes the null account, so no
    /// privileged call can ever succeed again. Only the current holder may
    /// call this.
    pub fn renounce_ownership(&mut self, caller: Account) -> (r: Result<(), Error>)
        ensures
            match r {
                Ok(()) => old(self).authorized(caller) && final(self).holder == ZERO_ACCOUNT,
                Err(e) => *final(self) == *old(self) && !old(self).authorized(caller)
                    && e == Error::Unauthorized,
            },
    {
        if !self.is_authorized(caller) {
            return Err(Error::Unauthorized);
        }
        self.holder = ZERO_ACCOUNT;
        Ok(())
    }
}

} // verus!
