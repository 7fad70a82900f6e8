use erc20_workshop::errors::Error;
use erc20_workshop::events::Event;
use erc20_workshop::token::Erc20Workshop;
use erc20_workshop::types::{INFINITE_ALLOWANCE, ZERO_ACCOUNT};

const ALICE: u64 = 1;
const BOB: u64 = 2;
const CAROL: u64 = 3;

fn fresh_token(owner: u64) -> Erc20Workshop {
    Erc20Workshop::constructor(
        "Stylus ERC-20 Workshop".to_string(),
        "MTK".to_string(),
        owner,
    )
    .expect("should construct")
}

#[test]
fn constructs() {
    let name: String = "Stylus ERC-20 Workshop".to_string();
    let symbol: String = "MTK".to_string();

    let token = Erc20Workshop::constructor(name.clone(), symbol.clone(), ALICE)
        .expect("should construct");

    assert_eq!(name, token.name());
    assert_eq!(symbol, token.symbol());
    assert_eq!(18u8, token.decimals());
    assert_eq!(ALICE, token.owner());
}

#[test]
fn transfer_reverts_when_insufficient_balance() {
    let mut token = fresh_token(ALICE);

    let one: u128 = 1;

    token.mint(ALICE, ALICE, one).expect("should mint tokens");

    let initial_alice_balance = token.balance_of(ALICE);
    let initial_bob_balance = token.balance_of(BOB);

    let err = token.transfer(ALICE, BOB, one + one).unwrap_err();

    assert!(matches!(
        err,
        Error::InsufficientBalance {
            account,
            balance,
            needed,
        } if account == ALICE && balance == initial_alice_balance && needed == one + one,
    ));

    assert_eq!(initial_alice_balance, token.balance_of(ALICE));
    assert_eq!(initial_bob_balance, token.balance_of(BOB));
}

#[test]
fn mint_reverts_when_arithmetic_overflow() {
    let mut token = fresh_token(ALICE);

    let one: u128 = 1;
    assert_eq!(0, token.balance_of(ALICE));
    assert_eq!(0, token.total_supply());

    token
        .mint(ALICE, ALICE, u128::MAX)
        .expect("should mint tokens");

    let result = token.mint(ALICE, ALICE, one);
    assert_eq!(result, Err(Error::ArithmeticOverflow));

    assert_eq!(u128::MAX, token.balance_of(ALICE));
    assert_eq!(u128::MAX, token.total_supply());
}

#[test]
fn transfers() {
    let mut token = fresh_token(ALICE);

    let one: u128 = 1;

    token.mint(ALICE, ALICE, one).expect("should mint tokens");

    let initial_alice_balance = token.balance_of(ALICE);
    let initial_bob_balance = token.balance_of(BOB);

    let result = token.transfer(ALICE, BOB, one);
    assert!(result.is_ok());

    assert_eq!(initial_alice_balance - one, token.balance_of(ALICE));
    assert_eq!(initial_bob_balance + one, token.balance_of(BOB));

    let emitted = token.events();
    assert!(emitted.contains(&Event::Transfer {
        from: ALICE,
        to: BOB,
        value: one,
    }));
}

#[test]
fn mint_records_transfer_from_nowhere() {
    let mut token = fresh_token(ALICE);
    token.mint(ALICE, BOB, 7).expect("should mint tokens");
    let emitted = token.events();
    assert_eq!(
        emitted[emitted.len() - 1],
        Event::Transfer {
            from: ZERO_ACCOUNT,
            to: BOB,
            value: 7,
        }
    );
}

#[test]
fn burn_records_transfer_into_nowhere() {
    let mut token = fresh_token(ALICE);
    token.mint(ALICE, ALICE, 9).expect("should mint tokens");
    token.burn(ALICE, 4).expect("should burn tokens");
    assert_eq!(5, token.balance_of(ALICE));
    assert_eq!(5, token.total_supply());
    let emitted = token.events();
    assert_eq!(
        emitted[emitted.len() - 1],
        Event::Transfer {
            from: ALICE,
            to: ZERO_ACCOUNT,
            value: 4,
        }
    );
}

#[test]
fn approve_zero_revokes_and_still_records_approval() {
    let mut token = fresh_token(ALICE);
    token.approve(ALICE, CAROL, 4).expect("should approve");
    assert_eq!(4, token.allowance(ALICE, CAROL));

    token.approve(ALICE, CAROL, 0).expect("should approve");
    assert_eq!(0, token.allowance(ALICE, CAROL));

    let emitted = token.events();
    assert_eq!(
        emitted[emitted.len() - 1],
        Event::Approval {
            owner: ALICE,
            spender: CAROL,
            value: 0,
        }
    );
}

#[test]
fn mint_then_burn_round_trips_balance_and_supply() {
    let mut token = fresh_token(ALICE);
    token.mint(ALICE, BOB, 100).expect("should mint tokens");

    let balance_before = token.balance_of(BOB);
    let supply_before = token.total_supply();

    token.mint(ALICE, BOB, 37).expect("should mint tokens");
    token.burn(BOB, 37).expect("should burn tokens");

    assert_eq!(balance_before, token.balance_of(BOB));
    assert_eq!(supply_before, token.total_supply());
}

#[test]
fn minting_max_succeeds_then_one_more_overflows() {
    let mut token = fresh_token(ALICE);

    assert_eq!(0, token.balance_of(BOB));
    token
        .mint(ALICE, BOB, u128::MAX)
        .expect("should mint tokens");
    assert_eq!(u128::MAX, token.balance_of(BOB));
    assert_eq!(u128::MAX, token.total_supply());

    let result = token.mint(ALICE, CAROL, 1);
    assert_eq!(result, Err(Error::ArithmeticOverflow));
    assert_eq!(u128::MAX, token.balance_of(BOB));
    assert_eq!(0, token.balance_of(CAROL));
    assert_eq!(u128::MAX, token.total_supply());
}

#[test]
fn underfunded_transfer_fails_with_exact_error() {
    let mut token = fresh_token(ALICE);
    token.mint(ALICE, ALICE, 1).expect("should mint tokens");

    let err = token.transfer(ALICE, BOB, 2).unwrap_err();
    assert_eq!(
        err,
        Error::InsufficientBalance {
            account: ALICE,
            balance: 1,
            needed: 2,
        }
    );
    assert_eq!(1, token.balance_of(ALICE));
    assert_eq!(0, token.balance_of(BOB));
}

#[test]
fn delegated_transfer_spends_allowance_exactly() {
    let mut token = fresh_token(ALICE);
    token.mint(ALICE, ALICE, 10).expect("should mint tokens");
    token.approve(ALICE, CAROL, 4).expect("should approve");

    let ok = token.transfer_from(CAROL, ALICE, BOB, 4).expect("should transfer");
    assert!(ok);
    assert_eq!(6, token.balance_of(ALICE));
    assert_eq!(4, token.balance_of(BOB));
    assert_eq!(0, token.allowance(ALICE, CAROL));

    let err = token.transfer_from(CAROL, ALICE, BOB, 1).unwrap_err();
    assert_eq!(
        err,
        Error::InsufficientAllowance {
            owner: ALICE,
            spender: CAROL,
            allowance: 0,
            needed: 1,
        }
    );
    assert_eq!(6, token.balance_of(ALICE));
    assert_eq!(4, token.balance_of(BOB));
}

#[test]
fn infinite_allowance_is_never_decremented() {
    let mut token = fresh_token(ALICE);
    token.mint(ALICE, ALICE, 50).expect("should mint tokens");
    token
        .approve(ALICE, CAROL, INFINITE_ALLOWANCE)
        .expect("should approve");

    token
        .transfer_from(CAROL, ALICE, BOB, 20)
        .expect("should transfer");
    assert_eq!(INFINITE_ALLOWANCE, token.allowance(ALICE, CAROL));

    token
        .transfer_from(CAROL, ALICE, BOB, 30)
        .expect("should transfer");
    assert_eq!(INFINITE_ALLOWANCE, token.allowance(ALICE, CAROL));
    assert_eq!(0, token.balance_of(ALICE));
    assert_eq!(50, token.balance_of(BOB));
}

#[test]
fn burn_from_consumes_allowance_and_supply() {
    let mut token = fresh_token(ALICE);
    token.mint(ALICE, BOB, 10).expect("should mint tokens");
    token.approve(BOB, CAROL, 6).expect("should approve");

    token.burn_from(CAROL, BOB, 5).expect("should burn");
    assert_eq!(5, token.balance_of(BOB));
    assert_eq!(5, token.total_supply());
    assert_eq!(1, token.allowance(BOB, CAROL));

    let err = token.burn_from(CAROL, BOB, 2).unwrap_err();
    assert_eq!(
        err,
        Error::InsufficientAllowance {
            owner: BOB,
            spender: CAROL,
            allowance: 1,
            needed: 2,
        }
    );
}

#[test]
fn mint_by_non_owner_is_unauthorized() {
    let mut token = fresh_token(ALICE);
    let result = token.mint(BOB, BOB, 5);
    assert_eq!(result, Err(Error::Unauthorized));
    assert_eq!(0, token.balance_of(BOB));
    assert_eq!(0, token.total_supply());
}

#[test]
fn null_account_is_rejected_everywhere() {
    assert_eq!(
        Erc20Workshop::constructor("T".to_string(), "T".to_string(), ZERO_ACCOUNT).unwrap_err(),
        Error::InvalidAccount
    );

    let mut token = fresh_token(ALICE);
    token.mint(ALICE, ALICE, 5).expect("should mint tokens");

    assert_eq!(
        token.mint(ALICE, ZERO_ACCOUNT, 1).unwrap_err(),
        Error::InvalidAccount
    );
    assert_eq!(
        token.transfer(ALICE, ZERO_ACCOUNT, 1).unwrap_err(),
        Error::InvalidAccount
    );
    assert_eq!(
        token.approve(ALICE, ZERO_ACCOUNT, 1).unwrap_err(),
        Error::InvalidAccount
    );
    assert_eq!(
        token.approve(ZERO_ACCOUNT, BOB, 1).unwrap_err(),
        Error::InvalidAccount
    );
    assert_eq!(5, token.balance_of(ALICE));
    assert_eq!(5, token.total_supply());
}

#[test]
fn zero_amount_transfer_is_a_recorded_no_op() {
    let mut token = fresh_token(ALICE);
    token.mint(ALICE, ALICE, 3).expect("should mint tokens");

    let events_before = token.events().len();
    token.transfer(ALICE, BOB, 0).expect("should transfer");
    assert_eq!(3, token.balance_of(ALICE));
    assert_eq!(0, token.balance_of(BOB));

    let emitted = token.events();
    assert_eq!(events_before + 1, emitted.len());
    assert_eq!(
        emitted[emitted.len() - 1],
        Event::Transfer {
            from: ALICE,
            to: BOB,
            value: 0,
        }
    );
}

#[test]
fn self_transfer_succeeds_and_changes_nothing() {
    let mut token = fresh_token(ALICE);
    token.mint(ALICE, ALICE, 8).expect("should mint tokens");

    token.transfer(ALICE, ALICE, 8).expect("should transfer");
    assert_eq!(8, token.balance_of(ALICE));
    assert_eq!(8, token.total_supply());
}

#[test]
fn ownership_transfer_moves_the_minting_role() {
    let mut token = fresh_token(ALICE);
    token
        .transfer_ownership(ALICE, BOB)
        .expect("should transfer ownership");
    assert_eq!(BOB, token.owner());

    assert_eq!(token.mint(ALICE, ALICE, 1), Err(Error::Unauthorized));
    token.mint(BOB, ALICE, 1).expect("should mint tokens");
    assert_eq!(1, token.balance_of(ALICE));

    assert_eq!(
        token.transfer_ownership(BOB, ZERO_ACCOUNT).unwrap_err(),
        Error::InvalidAccount
    );
    assert_eq!(
        token.transfer_ownership(ALICE, CAROL).unwrap_err(),
        Error::Unauthorized
    );
}

#[test]
fn renounced_ownership_disables_minting_for_good() {
    let mut token = fresh_token(ALICE);
    token
        .renounce_ownership(ALICE)
        .expect("should renounce ownership");
    assert_eq!(ZERO_ACCOUNT, token.owner());
    assert_eq!(token.mint(ALICE, ALICE, 1), Err(Error::Unauthorized));
    assert_eq!(token.mint(ZERO_ACCOUNT, ALICE, 1), Err(Error::Unauthorized));
}

#[test]
fn supply_always_equals_the_sum_of_balances() {
    let mut token = fresh_token(ALICE);
    token.mint(ALICE, ALICE, 40).expect("should mint tokens");
    token.mint(ALICE, BOB, 2).expect("should mint tokens");
    token.transfer(ALICE, BOB, 15).expect("should transfer");
    token.approve(ALICE, CAROL, 10).expect("should approve");
    token
        .transfer_from(CAROL, ALICE, CAROL, 10)
        .expect("should transfer");
    token.burn(BOB, 7).expect("should burn");

    let sum = token.balance_of(ALICE) + token.balance_of(BOB) + token.balance_of(CAROL);
    assert_eq!(sum, token.total_supply());
    assert_eq!(35, token.total_supply());
}
