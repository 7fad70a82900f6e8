use vstd::prelude::*;
use crate::balances::{lemma_amount_le_sum, sum_of};
use crate::erc20::{approve_ok, burn_from_ok, burn_ok, mint_ok, transfer_from_ok, Erc20};
use crate::events::Event;
use crate::types::{Account, Amount, INFINITE_ALLOWANCE};

verus! {

/// Conservation: in every well-formed ledger state, the recorded total
/// supply is exactly the sum of all balances. Every constructor establishes
/// `inv` and every operation preserves it, so this holds of every reachable
/// state.
pub proof fn lemma_conservation(l: Erc20)
    requires
        l.inv(),
    ensures
        l.total() as int == sum_of(l.balances.entries@),
{
}

/// No balance and no supply is ever negative — the amounts are unsigned by
/// construction — and conservation bounds every single balance by the total
/// supply, so a burn can never underflow the supply.
pub proof fn lemma_balance_bounds(l: Erc20, a: Account)
    requires
        l.inv(),
    ensures
        l.bal(a) >= 0,
        l.total() >= 0,
        l.bal(a) <= l.total(),
{
    lemma_amount_le_sum(l.balances.entries@, a);
}

/// Approving zero revokes the delegation: after a successful
/// `approve(owner, spender, 0)` the allowance reads back as zero, and the
/// Approval event is still recorded, with value zero.
pub proof fn lemma_approve_zero_revokes(pre: Erc20, post: Erc20, owner: Account, spender: Account)
    requires
        approve_ok(pre, post, owner, spender, 0),
    ensures
        post.allow(owner, spender) == 0,
        post.events@ == pre.events@.push(Event::Approval { owner, spender, value: 0 }),
{
}

/// A mint can always be undone: after a successful `mint(a, n)` the burn of
/// the same amount from the same account cannot fail for want of balance.
pub proof fn lemma_mint_enables_burn(pre: Erc20, mid: Erc20, a: Account, n: Amount)
    requires
        mint_ok(pre, mid, a, n),
    ensures
        n <= mid.bal(a),
{
}

/// Round trip: a successful `mint(a, n)` followed by a successful
/// `burn(a, n)` returns every balance and the total supply to their pre-mint
/// values.
pub proof fn lemma_mint_burn_round_trip(pre: Erc20, mid: Erc20, post: Erc20, a: Account, n: Amount)
    requires
        mint_ok(pre, mid, a, n),
        burn_ok(mid, post, a, n),
    ensures
        post.total() == pre.total(),
        forall|b: Account| post.bal(b) == pre.bal(b),
{
    assert forall|b: Account| post.bal(b) == pre.bal(b) by {
        assert(mid.bal(b) as int == pre.bal(b) as int + (if b == a {
            n as int
        } else {
            0
        }));
    }
}

/// The infinite allowance is a sentinel, not a budget: a successful delegated
/// transfer against it leaves it untouched, so no sequence of delegated
/// transfers ever decrements it.
pub proof fn lemma_infinite_allowance_kept_by_transfer(
    pre: Erc20,
    post: Erc20,
    spender: Account,
    from: Account,
    to: Account,
    value: Amount,
)
    requires
        pre.allow(from, spender) == INFINITE_ALLOWANCE,
        transfer_from_ok(pre, post, spender, from, to, value),
    ensures
        post.allow(from, spender) == INFINITE_ALLOWANCE,
{
}

/// The same, for delegated burns.
pub proof fn lemma_infinite_allowance_kept_by_burn(
    pre: Erc20,
    post: Erc20,
    spender: Account,
    owner: Account,
    value: Amount,
)
    requires
        pre.allow(owner, spender) == INFINITE_ALLOWANCE,
        burn_from_ok(pre, post, spender, owner, value),
    ensures
        post.allow(owner, spender) == INFINITE_ALLOWANCE,
{
}

} // verus!
