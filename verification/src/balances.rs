use vstd::prelude::*;
use vstd::pervasive::VecAdditionalExecFns;
use crate::errors::Error;
use crate::types::{Account, Amount};

verus! {

/// The sum of the amounts recorded in `s`, counted from the end.
pub open spec fn sum_of(s: Seq<(Account, Amount)>) -> int
    decreases s.len(),
{
    if s.len() == 0 {
        0
    } else {
        s.last().1 + sum_of(s.drop_last())
    }
}

/// The amount recorded for account `a` in `s`; zero when `a` has no entry.
pub open spec fn amount_of(s: Seq<(Account, Amount)>, a: Account) -> Amount
    decreases s.len(),
{
    if s.len() == 0 {
        0
    } else if s.last().0 == a {
        s.last().1
    } else {
        amount_of(s.drop_last(), a)
    }
}

/// Each account has at most one entry.
pub open spec fn distinct_keys(s: Seq<(Account, Amount)>) -> bool {
    forall|i: int, j: int| 0 <= i < j < s.len() ==> s[i].0 != s[j].0
}

pub proof fn lemma_sum_nonneg(s: Seq<(Account, Amount)>)
    ensures
        sum_of(s) >= 0,
    decreases s.len(),
{
    if s.len() > 0 {
        lemma_sum_nonneg(s.drop_last());
    }
}

pub proof fn lemma_sum_push(s: Seq<(Account, Amount)>, p: (Account, Amount))
    ensures
        sum_of(s.push(p)) == sum_of(s) + p.1,
{
    assert(s.push(p).drop_last() =~= s);
}

pub proof fn lemma_sum_update(s: Seq<(Account, Amount)>, i: int, p: (Account, Amount))
    requires
        0 <= i < s.len(),
    ensures
        sum_of(s.update(i, p)) == sum_of(s) - s[i].1 + p.1,
    decreases s.len(),
{
    let t = s.update(i, p);
    if i == s.len() - 1 {
        assert(t.drop_last() =~= s.drop_last());
    } else {
        assert(t.drop_last() =~= s.drop_last().update(i, p));
        lemma_sum_update(s.drop_last(), i, p);
    }
}

/// No single balance can exceed the sum of all balances.
pub proof fn lemma_amount_le_sum(s: Seq<(Account, Amount)>, a: Account)
    ensures
        amount_of(s, a) <= sum_of(s),
    decreases s.len(),
{
    if s.len() > 0 {
        lemma_sum_nonneg(s.drop_last());
        lemma_amount_le_sum(s.drop_last(), a);
    }
}

pub proof fn lemma_amount_absent(s: Seq<(Account, Amount)>, a: Account)
    requires
        forall|i: int| 0 <= i < s.len() ==> s[i].0 != a,
    ensures
        amount_of(s, a) == 0,
    decreases s.len(),
{
    if s.len() > 0 {
        lemma_amount_absent(s.drop_last(), a);
    }
}

pub proof fn lemma_amount_present(s: Seq<(Account, Amount)>, i: int)
    requires
        distinct_keys(s),
        0 <= i < s.len(),
    ensures
        amount_of(s, s[i].0) == s[i].1,
    decreases s.len(),
{
    if i < s.len() - 1 {
        lemma_amount_present(s.drop_last(), i);
    }
}

pub proof fn lemma_update_keeps_distinct(s: Seq<(Account, Amount)>, i: int, p: (Account, Amount))
    requires
        distinct_keys(s),
        0 <= i < s.len(),
        s[i].0 == p.0,
    ensures
        distinct_keys(s.update(i, p)),
{
    assert(forall|j: int| 0 <= j < s.len() ==> s.update(i, p)[j].0 == s[j].0);
}

pub proof fn lemma_amount_update(s: Seq<(Account, Amount)>, i: int, p: (Account, Amount), b: Account)
    requires
        distinct_keys(s),
        0 <= i < s.len(),
        s[i].0 == p.0,
    ensures
        amount_of(s.update(i, p), b) == (if b == p.0 { p.1 } else { amount_of(s, b) }),
    decreases s.len(),
{
    let t = s.update(i, p);
    if i == s.len() - 1 {
        assert(t.drop_last() =~= s.drop_last());
        if b != p.0 && s.last().0 != b {
            assert(amount_of(t, b) == amount_of(t.drop_last(), b));
        }
    } else {
        assert(t.drop_last() =~= s.drop_last().update(i, p));
        lemma_amount_update(s.drop_last(), i, p, b);
    }
}

/// All balances after an in-place update, stated over every account at once.
pub proof fn lemma_amount_update_all(s: Seq<(Account, Amount)>, i: int, p: (Account, Amount))
    requires
        distinct_keys(s),
        0 <= i < s.len(),
        s[i].0 == p.0,
    ensures
        forall|b: Account|
            amount_of(s.update(i, p), b) == (if b == p.0 { p.1 } else { amount_of(s, b) }),
{
    assert forall|b: Account|
        amount_of(s.update(i, p), b) == (if b == p.0 { p.1 } else { amount_of(s, b) }) by {
        lemma_amount_update(s, i, p, b);
    }
}

pub proof fn lemma_push_keeps_distinct(s: Seq<(Account, Amount)>, p: (Account, Amount))
    requires
        distinct_keys(s),
        forall|i: int| 0 <= i < s.len() ==> s[i].0 != p.0,
    ensures
        distinct_keys(s.push(p)),
{
}

/// All balances after appending a fresh entry, stated over every account.
pub proof fn lemma_amount_push_all(s: Seq<(Account, Amount)>, p: (Account, Amount))
    ensures
        forall|b: Account|
            amount_of(s.push(p), b) == (if b == p.0 { p.1 } else { amount_of(s, b) }),
{
    assert forall|b: Account|
        amount_of(s.push(p), b) == (if b == p.0 { p.1 } else { amount_of(s, b) }) by {
        assert(s.push(p).drop_last() =~= s);
        assert(s.push(p).last() == p);
    }
}

/// The balance store: every account's balance, and the total supply.
///
/// Conservation is the store's central invariant: `total` always equals the
/// sum of all recorded balances, so the supply can never underflow below any
/// single debit and a supply-overflow check covers every balance as well.
#[derive(Debug)]
pub struct BalanceStore {
    /// One entry per account that has ever been credited; an account without
    /// an entry holds zero. No account appears twice.
    pub entries: Vec<(Account, Amount)>,
    /// The total supply; mutated only by `mint` and `burn`.
    pub total: Amount,
}

impl BalanceStore {
    /// Well-formed: no account has two entries.
    pub open spec fn wf(self) -> bool {
        distinct_keys(self.entries@)
    }

    /// The balance of account `a`.
    pub open spec fn bal(self, a: Account) -> Amount {
        amount_of(self.entries@, a)
    }

    /// The sum of all recorded balances.
    pub open spec fn sum(self) -> int {
        sum_of(self.entries@)
    }

    /// The conservation law: the total supply equals the sum of all balances.
    pub open spec fn conserved(self) -> bool {
        self.total as int == self.sum()
    }

    pub open spec fn inv(self) -> bool {
        self.wf() && self.conserved()
    }

    /// An empty store: every balance zero, total supply zero.
    pub fn new() -> (r: BalanceStore)
        ensures
            r.inv(),
            r.total == 0,
            forall|a: Account| r.bal(a) == 0,
    {
        BalanceStore { entries: Vec::new(), total: 0 }
    }

    /// The index of `a`'s entry, if it has one.
    fn find(&self, a: Account) -> (r: Option<usize>)
        requires
            self.wf(),
        ensures
            match r {
                Some(i) => i < self.entries@.len() && self.entries@[i as int].0 == a
                    && self.entries@[i as int].1 == self.bal(a),
                None => self.bal(a) == 0
                    && (forall|j: int| 0 <= j < self.entries@.len() ==> self.entries@[j].0 != a),
            },
    {
        let n = self.entries.len();
        let mut i: usize = 0;
        while i < n
            invariant
                n == self.entries@.len(),
                i <= n,
                self.wf(),
                forall|j: int| 0 <= j < i ==> self.entries@[j].0 != a,
            decreases n - i,
        {
            if self.entries[i].0 == a {
                proof {
                    lemma_amount_present(self.entries@, i as int);
                }
                return Some(i);
            }
            i = i + 1;
        }
        proof {
            lemma_amount_absent(self.entries@, a);
        }
        None
    }

    /// Pure lookup; unknown accounts hold zero.
    pub fn balance_of(&self, a: Account) -> (r: Amount)
        requires
            self.wf(),
        ensures
            r == self.bal(a),
    {
        match self.find(a) {
            Some(i) => self.entries[i].1,
            None => 0,
        }
    }

    pub fn total_supply(&self) -> (r: Amount)
        ensures
            r == self.total,
    {
        self.total
    }

    /// Increase `a`'s balance by `amount`; the total supply is untouched.
    /// Fails, mutating nothing, exactly when the new balance would not fit.
    pub fn credit(&mut self, a: Account, amount: Amount) -> (r: Result<(), Error>)
        requires
            old(self).wf(),
        ensures
            final(self).wf(),
            final(self).total == old(self).total,
            match r {
                Ok(()) => old(self).bal(a) + amount <= u128::MAX
                    && final(self).bal(a) == old(self).bal(a) + amount
                    && (forall|b: Account| b != a ==> final(self).bal(b) == old(self).bal(b))
                    && final(self).sum() == old(self).sum() + amount,
                Err(e) => e == Error::ArithmeticOverflow
                    && old(self).bal(a) + amount > u128::MAX
                    && *final(self) == *old(self),
            },
    {
        match self.find(a) {
            Some(i) => {
                let cur = self.entries[i].1;
                if amount > u128::MAX - cur {
                    Err(Error::ArithmeticOverflow)
                } else {
                    let ghost s0 = self.entries@;
                    self.entries.set(i, (a, cur + amount));
                    proof {
                        lemma_update_keeps_distinct(s0, i as int, (a, (cur + amount) as Amount));
                        lemma_amount_update_all(s0, i as int, (a, (cur + amount) as Amount));
                        lemma_sum_update(s0, i as int, (a, (cur + amount) as Amount));
                    }
                    Ok(())
                }
            }
            None => {
                let ghost s0 = self.entries@;
                self.entries.push((a, amount));
                proof {
                    lemma_push_keeps_distinct(s0, (a, amount));
                    lemma_amount_push_all(s0, (a, amount));
                    lemma_sum_push(s0, (a, amount));
                }
                Ok(())
            }
        }
    }

    /// Decrease `a`'s balance by `amount`; the total supply is untouched.
    /// Fails, mutating nothing, exactly when `a` holds less than `amount`.
    pub fn debit(&mut self, a: Account, amount: Amount) -> (r: Result<(), Error>)
        requires
            old(self).wf(),
        ensures
            final(self).wf(),
            final(self).total == old(self).total,
            match r {
                Ok(()) => amount <= old(self).bal(a)
                    && final(self).bal(a) == old(self).bal(a) - amount
                    && (forall|b: Account| b != a ==> final(self).bal(b) == old(self).bal(b))
                    && final(self).sum() == old(self).sum() - amount,
                Err(e) => amount > old(self).bal(a)
                    && e == (Error::InsufficientBalance {
                        account: a,
                        balance: old(self).bal(a),
                        needed: amount,
                    })
                    && *final(self) == *old(self),
            },
    {
        match self.find(a) {
            Some(i) => {
                let cur = self.entries[i].1;
                if amount > cur {
                    Err(Error::InsufficientBalance { account: a, balance: cur, needed: amount })
                } else {
                    let ghost s0 = self.entries@;
                    self.entries.set(i, (a, cur - amount));
                    proof {
                        lemma_update_keeps_distinct(s0, i as int, (a, (cur - amount) as Amount));
                        lemma_amount_update_all(s0, i as int, (a, (cur - amount) as Amount));
                        lemma_sum_update(s0, i as int, (a, (cur - amount) as Amount));
                    }
                    Ok(())
                }
            }
            None => {
                if amount > 0 {
                    Err(Error::InsufficientBalance { account: a, balance: 0, needed: amount })
                } else {
                    Ok(())
                }
            }
        }
    }

    /// Credit `a` and raise the total supply, atomically: both preconditions
    /// are checked before either field is written. Fails exactly when the new
    /// supply would not fit; conservation makes that check cover the balance.
    pub fn mint(&mut self, a: Account, amount: Amount) -> (r: Result<(), Error>)
        requires
            old(self).inv(),
        ensures
            final(self).inv(),
            match r {
                Ok(()) => old(self).total + amount <= u128::MAX
                    && final(self).total == old(self).total + amount
                    && final(self).bal(a) == old(self).bal(a) + amount
                    && (forall|b: Account| b != a ==> final(self).bal(b) == old(self).bal(b)),
                Err(e) => e == Error::ArithmeticOverflow
                    && old(self).total + amount > u128::MAX
                    && *final(self) == *old(self),
            },
    {
        if amount > u128::MAX - self.total {
            return Err(Error::ArithmeticOverflow);
        }
        proof {
            lemma_amount_le_sum(self.entries@, a);
        }
        match self.credit(a, amount) {
            Ok(()) => {
                self.total = self.total + amount;
                Ok(())
            }
            Err(e) => Err(e),
        }
    }

    /// Debit `a` and lower the total supply, atomically. Fails exactly when
    /// `a` holds less than `amount`; the supply can never underflow because
    /// it always covers every single balance.
    pub fn burn(&mut self, a: Account, amount: Amount) -> (r: Result<(), Error>)
        requires
            old(self).inv(),
        ensures
            final(self).inv(),
            match r {
                Ok(()) => amount <= old(self).bal(a)
                    && final(self).total == old(self).total - amount
                    && final(self).bal(a) == old(self).bal(a) - amount
                    && (forall|b: Account| b != a ==> final(self).bal(b) == old(self).bal(b)),
                Err(e) => amount > old(self).bal(a)
                    && e == (Error::InsufficientBalance {
                        account: a,
                        balance: old(self).bal(a),
                        needed: amount,
                    })
                    && *final(self) == *old(self),
            },
    {
        proof {
            lemma_amount_le_sum(self.entries@, a);
        }
        match self.debit(a, amount) {
            Ok(()) => {
                self.total = self.total - amount;
                Ok(())
            }
            Err(e) => Err(e),
        }
    }
}

} // verus!
