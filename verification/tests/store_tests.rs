use erc20_workshop::allowances::AllowanceStore;
use erc20_workshop::balances::BalanceStore;
use erc20_workshop::errors::Error;

const ALICE: u64 = 1;
const BOB: u64 = 2;

#[test]
fn credit_overflow_leaves_the_store_untouched() {
    let mut store = BalanceStore::new();
    store.credit(ALICE, u128::MAX - 1).expect("should credit");
    assert_eq!(u128::MAX - 1, store.balance_of(ALICE));

    let err = store.credit(ALICE, 2).unwrap_err();
    assert_eq!(err, Error::ArithmeticOverflow);
    assert_eq!(u128::MAX - 1, store.balance_of(ALICE));

    store.credit(ALICE, 1).expect("should credit");
    assert_eq!(u128::MAX, store.balance_of(ALICE));
}

#[test]
fn debit_from_unknown_account_fails_with_zero_balance() {
    let mut store = BalanceStore::new();
    let err = store.debit(BOB, 1).unwrap_err();
    assert_eq!(
        err,
        Error::InsufficientBalance {
            account: BOB,
            balance: 0,
            needed: 1,
        }
    );
    assert_eq!(0, store.balance_of(BOB));
}

#[test]
fn credit_and_debit_leave_the_total_supply_alone() {
    let mut store = BalanceStore::new();
    store.credit(ALICE, 10).expect("should credit");
    store.debit(ALICE, 4).expect("should debit");
    assert_eq!(6, store.balance_of(ALICE));
    assert_eq!(0, store.total_supply());
}

#[test]
fn store_mint_and_burn_move_the_total_supply() {
    let mut store = BalanceStore::new();
    store.mint(ALICE, 10).expect("should mint");
    store.mint(BOB, 5).expect("should mint");
    assert_eq!(15, store.total_supply());

    store.burn(ALICE, 3).expect("should burn");
    assert_eq!(7, store.balance_of(ALICE));
    assert_eq!(12, store.total_supply());

    let err = store.burn(BOB, 6).unwrap_err();
    assert_eq!(
        err,
        Error::InsufficientBalance {
            account: BOB,
            balance: 5,
            needed: 6,
        }
    );
    assert_eq!(12, store.total_supply());
}

#[test]
fn approvals_overwrite_rather_than_add() {
    let mut store = AllowanceStore::new();
    store.approve(ALICE, BOB, 5).expect("should approve");
    store.approve(ALICE, BOB, 3).expect("should approve");
    assert_eq!(3, store.allowance_of(ALICE, BOB));
    assert_eq!(0, store.allowance_of(BOB, ALICE));
}

#[test]
fn spend_decrements_and_rejects_shortfalls() {
    let mut store = AllowanceStore::new();
    store.approve(ALICE, BOB, 5).expect("should approve");

    store.spend(ALICE, BOB, 2).expect("should spend");
    assert_eq!(3, store.allowance_of(ALICE, BOB));

    let err = store.spend(ALICE, BOB, 4).unwrap_err();
    assert_eq!(
        err,
        Error::InsufficientAllowance {
            owner: ALICE,
            spender: BOB,
            allowance: 3,
            needed: 4,
        }
    );
    assert_eq!(3, store.allowance_of(ALICE, BOB));
}

#[test]
fn spending_an_infinite_allowance_keeps_it_infinite() {
    let mut store = AllowanceStore::new();
    store.approve(ALICE, BOB, u128::MAX).expect("should approve");
    store.spend(ALICE, BOB, u128::MAX).expect("should spend");
    store.spend(ALICE, BOB, 1).expect("should spend");
    assert_eq!(u128::MAX, store.allowance_of(ALICE, BOB));
}
