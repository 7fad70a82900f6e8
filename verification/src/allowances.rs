use vstd::prelude::*;
use vstd::pervasive::VecAdditionalExecFns;
use crate::errors::Error;
use crate::types::{Account, Amount, INFINITE_ALLOWANCE, ZERO_ACCOUNT};

verus! {

/// The amount that `s` records for the (owner, spender) pair; zero when the
/// pair has no entry.
pub open spec fn granted_of(s: Seq<(Account, Account, Amount)>, o: Account, p: Account) -> Amount
    decreases s.len(),
{
    if s.len() == 0 {
        0
    } else if s.last().0 == o && s.last().1 == p {
        s.last().2
    } else {
        granted_of(s.drop_last(), o, p)
    }
}

/// Each (owner, spender) pair has at most one entry.
pub open spec fn distinct_pairs(s: Seq<(Account, Account, Amount)>) -> bool {
    forall|i: int, j: int|
        0 <= i < j < s.len() ==> !(s[i].0 == s[j].0 && s[i].1 == s[j].1)
}

pub proof fn lemma_granted_absent(s: Seq<(Account, Account, Amount)>, o: Account, p: Account)
    requires
        forall|i: int| 0 <= i < s.len() ==> !(s[i].0 == o && s[i].1 == p),
    ensures
        granted_of(s, o, p) == 0,
    decreases s.len(),
{
    if s.len() > 0 {
        lemma_granted_absent(s.drop_last(), o, p);
    }
}

pub proof fn lemma_granted_present(s: Seq<(Account, Account, Amount)>, i: int)
    requires
        distinct_pairs(s),
        0 <= i < s.len(),
    ensures
        granted_of(s, s[i].0, s[i].1) == s[i].2,
    decreases s.len(),
{
    if i < s.len() - 1 {
        lemma_granted_present(s.drop_last(), i);
    }
}

pub proof fn lemma_grant_update_keeps_distinct(
    s: Seq<(Account, Account, Amount)>,
    i: int,
    e: (Account, Account, Amount),
)
    requires
        distinct_pairs(s),
        0 <= i < s.len(),
        s[i].0 == e.0,
        s[i].1 == e.1,
    ensures
        distinct_pairs(s.update(i, e)),
{
    assert(forall|j: int|
        0 <= j < s.len() ==> s.update(i, e)[j].0 == s[j].0 && s.update(i, e)[j].1 == s[j].1);
}

pub proof fn lemma_granted_update(
    s: Seq<(Account, Account, Amount)>,
    i: int,
    e: (Account, Account, Amount),
    o: Account,
    p: Account,
)
    requires
        distinct_pairs(s),
        0 <= i < s.len(),
        s[i].0 == e.0,
        s[i].1 == e.1,
    ensures
        granted_of(s.update(i, e), o, p)
            == (if o == e.0 && p == e.1 { e.2 } else { granted_of(s, o, p) }),
    decreases s.len(),
{
    let t = s.update(i, e);
    if i == s.len() - 1 {
        assert(t.drop_last() =~= s.drop_last());
    } else {
        assert(t.drop_last() =~= s.drop_last().update(i, e));
        lemma_granted_update(s.drop_last(), i, e, o, p);
    }
}

/// All allowances after an in-place update, stated over every pair at once.
pub proof fn lemma_granted_update_all(
    s: Seq<(Account, Account, Amount)>,
    i: int,
    e: (Account, Account, Amount),
)
    requires
        distinct_pairs(s),
        0 <= i < s.len(),
        s[i].0 == e.0,
        s[i].1 == e.1,
    ensures
        forall|o: Account, p: Account|
            granted_of(s.update(i, e), o, p)
                == (if o == e.0 && p == e.1 { e.2 } else { granted_of(s, o, p) }),
{
    assert forall|o: Account, p: Account|
        granted_of(s.update(i, e), o, p)
            == (if o == e.0 && p == e.1 { e.2 } else { granted_of(s, o, p) }) by {
        lemma_granted_update(s, i, e, o, p);
    }
}

pub proof fn lemma_grant_push_keeps_distinct(
    s: Seq<(Account, Account, Amount)>,
    e: (Account, Account, Amount),
)
    requires
        distinct_pairs(s),
        forall|i: int| 0 <= i < s.len() ==> !(s[i].0 == e.0 && s[i].1 == e.1),
    ensures
        distinct_pairs(s.push(e)),
{
}

/// All allowances after appending a fresh entry, stated over every pair.
pub proof fn lemma_granted_push_all(
    s: Seq<(Account, Account, Amount)>,
    e: (Account, Account, Amount),
)
    ensures
        forall|o: Account, p: Account|
            granted_of(s.push(e), o, p)
                == (if o == e.0 && p == e.1 { e.2 } else { granted_of(s, o, p) }),
{
    assert forall|o: Account, p: Account|
        granted_of(s.push(e), o, p)
            == (if o == e.0 && p == e.1 { e.2 } else { granted_of(s, o, p) }) by {
        assert(s.push(e).drop_last() =~= s);
        assert(s.push(e).last() == e);
    }
}

/// The allowance store: for each (owner, spender) pair, the largest amount
/// the spender may still move out of the owner's balance by delegation.
#[derive(Debug)]
pub struct AllowanceStore {
    /// One entry per (owner, spender) pair that has ever been granted to; a
    /// pair without an entry is granted zero. No pair appears twice.
    pub entries: Vec<(Account, Account, Amount)>,
}

impl AllowanceStore {
    /// Well-formed: no (owner, spender) pair has two entries.
    pub open spec fn wf(self) -> bool {
        distinct_pairs(self.entries@)
    }

    /// The allowance of spender `p` against owner `o`.
    pub open spec fn granted(self, o: Account, p: Account) -> Amount {
        granted_of(self.entries@, o, p)
    }

    /// An empty store: every allowance zero.
    pub fn new() -> (r: AllowanceStore)
        ensures
            r.wf(),
            forall|o: Account, p: Account| r.granted(o, p) == 0,
    {
        AllowanceStore { entries: Vec::new() }
    }

    /// The index of the (o, p) entry, if the pair has one.
    fn find(&self, o: Account, p: Account) -> (r: Option<usize>)
        requires
            self.wf(),
        ensures
            match r {
                Some(i) => i < self.entries@.len() && self.entries@[i as int].0 == o
                    && self.entries@[i as int].1 == p
                    && self.entries@[i as int].2 == self.granted(o, p),
                None => self.granted(o, p) == 0
                    && (forall|j: int|
                        0 <= j < self.entries@.len()
                            ==> !(self.entries@[j].0 == o && self.entries@[j].1 == p)),
            },
    {
        let n = self.entries.len();
        let mut i: usize = 0;
        while i < n
            invariant
                n == self.entries@.len(),
                i <= n,
                self.wf(),
                forall|j: int| 0 <= j < i ==> !(self.entries@[j].0 == o && self.entries@[j].1 == p),
            decreases n - i,
        {
            if self.entries[i].0 == o && self.entries[i].1 == p {
                proof {
                    lemma_granted_present(self.entries@, i as int);
                }
                return Some(i);
            }
            i = i + 1;
        }
        proof {
            lemma_granted_absent(self.entries@, o, p);
        }
        None
    }

    /// Pure lookup; unknown pairs are granted zero.
    pub fn allowance_of(&self, o: Account, p: Account) -> (r: Amount)
        requires
            self.wf(),
        ensures
            r == self.granted(o, p),
    {
        match self.find(o, p) {
            Some(i) => self.entries[i].2,
            None => 0,
        }
    }

    /// Overwrite the allowance of spender `p` against owner `o` with `amount`
    /// (not additive; granting zero revokes the delegation). Fails, mutating
    /// nothing, exactly when either identifier is the null account.
    pub fn approve(&mut self, o: Account, p: Account, amount: Amount) -> (r: Result<(), Error>)
        requires
            old(self).wf(),
        ensures
            final(self).wf(),
            match r {
                Ok(()) => o != ZERO_ACCOUNT && p != ZERO_ACCOUNT
                    && final(self).granted(o, p) == amount
                    && (forall|o2: Account, p2: Account|
                        !(o2 == o && p2 == p) ==> final(self).granted(o2, p2) == old(self).granted(o2, p2)),
                Err(e) => e == Error::InvalidAccount
                    && (o == ZERO_ACCOUNT || p == ZERO_ACCOUNT)
                    && *final(self) == *old(self),
            },
    {
        if o == ZERO_ACCOUNT || p == ZERO_ACCOUNT {
            return Err(Error::InvalidAccount);
        }
        match self.find(o, p) {
            Some(i) => {
                let ghost s0 = self.entries@;
                self.entries.set(i, (o, p, amount));
                proof {
                    lemma_grant_update_keeps_distinct(s0, i as int, (o, p, amount));
                    lemma_granted_update_all(s0, i as int, (o, p, amount));
                }
                Ok(())
            }
            None => {
                let ghost s0 = self.entries@;
                self.entries.push((o, p, amount));
                proof {
                    lemma_grant_push_keeps_distinct(s0, (o, p, amount));
                    lemma_granted_push_all(s0, (o, p, amount));
                }
                Ok(())
            }
        }
    }

    /// Consume `amount` of the allowance of spender `p` against owner `o`.
    /// Against the infinite sentinel it succeeds without checking or
    /// decrementing; otherwise it fails, mutating nothing, exactly when the
    /// allowance is smaller than `amount`, and decrements it otherwise.
    pub fn spend(&mut self, o: Account, p: Account, amount: Amount) -> (r: Result<(), Error>)
        requires
            old(self).wf(),
        ensures
            final(self).wf(),
            match r {
                Ok(()) => (old(self).granted(o, p) == INFINITE_ALLOWANCE
                        || amount <= old(self).granted(o, p))
                    && (if old(self).granted(o, p) == INFINITE_ALLOWANCE {
                        *final(self) == *old(self)
                    } else {
                        final(self).granted(o, p) == old(self).granted(o, p) - amount
                            && (forall|o2: Account, p2: Account|
                                !(o2 == o && p2 == p)
                                    ==> final(self).granted(o2, p2) == old(self).granted(o2, p2))
                    }),
                Err(e) => old(self).granted(o, p) != INFINITE_ALLOWANCE
                    && amount > old(self).granted(o, p)
                    && e == (Error::InsufficientAllowance {
                        owner: o,
                        spender: p,
                        allowance: old(self).granted(o, p),
                        needed: amount,
                    })
                    && *final(self) == *old(self),
            },
    {
        match self.find(o, p) {
            Some(i) => {
                let cur = self.entries[i].2;
                if cur == INFINITE_ALLOWANCE {
                    Ok(())
                } else if amount > cur {
                    Err(Error::InsufficientAllowance {
                        owner: o,
                        spender: p,
                        allowance: cur,
                        needed: amount,
                    })
                } else {
                    let ghost s0 = self.entries@;
                    self.entries.set(i, (o, p, cur - amount));
                    proof {
                        lemma_grant_update_keeps_distinct(s0, i as int, (o, p, (cur - amount) as Amount));
                        lemma_granted_update_all(s0, i as int, (o, p, (cur - amount) as Amount));
                    }
                    Ok(())
                }
            }
            None => {
                if amount > 0 {
                    Err(Error::InsufficientAllowance {
                        owner: o,
                        spender: p,
                        allowance: 0,
                        needed: amount,
                    })
                } else {
                    Ok(())
                }
            }
        }
    }
}

} // verus!
