use coffee::{CoffeeEvent, Contract, DataKey, Ledger, Tip, TipError, CREATOR_ADDRESS};
use soroban_sdk::testutils::Address as TestAddress;
use soroban_sdk::{Address, Env, String};

#[test]
fn new_ledger_has_room_for_any_positive_amount() {
    let env = Env::default();
    let ledger = Ledger::new();
    let x = Address::generate(&env);
    assert!(ledger.has_room(&x, 1));
    assert!(ledger.has_room(&x, 100));
    assert!(ledger.has_room(&x, i128::MAX));
}

#[test]
fn room_ends_where_the_total_would_overflow() {
    let env = Env::default();
    let mut ledger = Ledger::new();
    let x = Address::generate(&env);
    let y = Address::generate(&env);

    let big = i128::MAX - 10;
    assert!(Contract::buy_coffee(&env, &mut ledger, true, x.clone(), big, String::from_str(&env, "big")).is_ok());

    assert!(ledger.has_room(&x, 10));
    assert!(!ledger.has_room(&x, 11));
    assert!(!ledger.has_room(&x, i128::MAX));
    // another payer starts from zero
    assert!(ledger.has_room(&y, 11));
    assert!(ledger.has_room(&y, i128::MAX));
}

#[test]
fn room_is_there_for_a_new_payer_in_a_used_ledger() {
    let env = Env::default();
    let mut ledger = Ledger::new();
    let x = Address::generate(&env);
    let y = Address::generate(&env);
    assert!(Contract::buy_coffee(&env, &mut ledger, true, x.clone(), 3, String::from_str(&env, "a")).is_ok());
    assert!(Contract::buy_coffee(&env, &mut ledger, true, x.clone(), 4, String::from_str(&env, "b")).is_ok());
    assert!(ledger.has_room(&y, 5));
    assert!(ledger.has_room(&x, 5));
}

#[test]
fn try_buy_coffee_records_like_buy_coffee() {
    let env = Env::default();
    let mut ledger = Ledger::new();
    let x = Address::generate(&env);
    let m = String::from_str(&env, "thanks");

    let outcome = Contract::try_buy_coffee(&env, &mut ledger, true, x.clone(), 25, m.clone());
    assert_eq!(outcome, Some(Ok(CoffeeEvent { from: x.clone(), amount: 25 })));
    assert_eq!(Contract::total_donated(&ledger, x.clone()), 25);

    let history = Contract::tip_history(&env, &ledger);
    assert_eq!(history.len(), 1);
    assert_eq!(Tip::from_row(history.get_unchecked(0)), Tip { from: x, amount: 25, message: m });
}

#[test]
fn try_buy_coffee_reports_refusals() {
    let env = Env::default();
    let mut ledger = Ledger::new();
    let x = Address::generate(&env);

    let zero = Contract::try_buy_coffee(&env, &mut ledger, true, x.clone(), 0, String::from_str(&env, "z"));
    assert_eq!(zero, Some(Err(TipError::InvalidAmount)));
    let stranger = Contract::try_buy_coffee(&env, &mut ledger, false, x.clone(), 9, String::from_str(&env, "s"));
    assert_eq!(stranger, Some(Err(TipError::Authorization)));

    assert_eq!(Contract::total_donated(&ledger, x), 0);
    assert_eq!(Contract::tip_history(&env, &ledger).len(), 0);
}

#[test]
fn try_buy_coffee_stops_at_overflow() {
    let env = Env::default();
    let mut ledger = Ledger::new();
    let x = Address::generate(&env);

    let first = Contract::try_buy_coffee(&env, &mut ledger, true, x.clone(), i128::MAX, String::from_str(&env, "all"));
    assert_eq!(first, Some(Ok(CoffeeEvent { from: x.clone(), amount: i128::MAX })));

    let second = Contract::try_buy_coffee(&env, &mut ledger, true, x.clone(), 1, String::from_str(&env, "more"));
    assert_eq!(second, None);

    assert_eq!(Contract::total_donated(&ledger, x.clone()), i128::MAX);
    assert_eq!(Contract::tip_history(&env, &ledger).len(), 1);

    // a refusal is still told as one, whatever the room
    let zero = Contract::try_buy_coffee(&env, &mut ledger, true, x.clone(), 0, String::from_str(&env, "z"));
    assert_eq!(zero, Some(Err(TipError::InvalidAmount)));
    let stranger = Contract::try_buy_coffee(&env, &mut ledger, false, x, 1, String::from_str(&env, "s"));
    assert_eq!(stranger, Some(Err(TipError::Authorization)));
}

#[test]
fn ledger_survives_a_round_trip_through_its_parts() {
    let env = Env::default();
    let mut ledger = Ledger::new();
    let x = Address::generate(&env);
    let y = Address::generate(&env);
    let m1 = String::from_str(&env, "first");
    let m2 = String::from_str(&env, "second");
    assert!(Contract::buy_coffee(&env, &mut ledger, true, x.clone(), 10, m1.clone()).is_ok());
    assert!(Contract::buy_coffee(&env, &mut ledger, true, y.clone(), 20, m2.clone()).is_ok());

    let (board, history) = ledger.into_parts();
    assert_eq!(board.as_ref().map(|b| b.len()), Some(2));
    assert_eq!(history.as_ref().map(|h| h.len()), Some(2));

    let mut ledger = Ledger::restore(board, history);
    assert!(ledger.holds(DataKey::Leaderboard));
    assert!(ledger.holds(DataKey::TipHistory));
    assert_eq!(Contract::total_donated(&ledger, x.clone()), 10);
    assert_eq!(Contract::total_donated(&ledger, y.clone()), 20);

    assert!(Contract::buy_coffee(&env, &mut ledger, true, x.clone(), 5, String::from_str(&env, "third")).is_ok());
    assert_eq!(Contract::total_donated(&ledger, x.clone()), 15);
    let history = Contract::tip_history(&env, &ledger);
    assert_eq!(history.len(), 3);
    assert_eq!(Tip::from_row(history.get_unchecked(0)), Tip { from: x, amount: 10, message: m1 });
    assert_eq!(Tip::from_row(history.get_unchecked(1)), Tip { from: y, amount: 20, message: m2 });
}

#[test]
fn new_ledger_has_no_parts() {
    let (board, history) = Ledger::new().into_parts();
    assert!(board.is_none());
    assert!(history.is_none());

    let ledger = Ledger::restore(None, None);
    assert!(!ledger.holds(DataKey::Leaderboard));
    assert!(!ledger.holds(DataKey::TipHistory));
}

#[test]
fn ledger_with_one_slot_reads_the_other_as_empty() {
    let env = Env::default();
    let mut ledger = Ledger::new();
    let x = Address::generate(&env);
    assert!(Contract::buy_coffee(&env, &mut ledger, true, x.clone(), 8, String::from_str(&env, "m")).is_ok());
    let (board, history) = ledger.into_parts();

    let only_board = Ledger::restore(board, None);
    assert!(only_board.holds(DataKey::Leaderboard));
    assert!(!only_board.holds(DataKey::TipHistory));
    assert_eq!(Contract::total_donated(&only_board, x.clone()), 8);
    assert_eq!(Contract::tip_history(&env, &only_board).len(), 0);

    let only_history = Ledger::restore(None, history);
    assert!(!only_history.holds(DataKey::Leaderboard));
    assert!(only_history.holds(DataKey::TipHistory));
    assert_eq!(Contract::total_donated(&only_history, x), 0);
    assert_eq!(Contract::leaderboard(&env, &only_history).len(), 0);
    assert_eq!(Contract::tip_history(&env, &only_history).len(), 1);
}

#[test]
fn returned_aggregates_are_snapshots() {
    let env = Env::default();
    let mut ledger = Ledger::new();
    let x = Address::generate(&env);
    assert!(Contract::buy_coffee(&env, &mut ledger, true, x.clone(), 1, String::from_str(&env, "a")).is_ok());

    let board_before = Contract::leaderboard(&env, &ledger);
    let history_before = Contract::tip_history(&env, &ledger);

    assert!(Contract::buy_coffee(&env, &mut ledger, true, x.clone(), 2, String::from_str(&env, "b")).is_ok());

    assert_eq!(board_before.get(x.clone()), Some(1));
    assert_eq!(history_before.len(), 1);
    assert_eq!(Contract::leaderboard(&env, &ledger).get(x), Some(3));
    assert_eq!(Contract::tip_history(&env, &ledger).len(), 2);
}

#[test]
fn tip_and_row_convert_both_ways() {
    let env = Env::default();
    let x = Address::generate(&env);
    let m = String::from_str(&env, "row");

    let tip = Tip::from_row((x.clone(), 42, m.clone()));
    assert_eq!(tip.from, x);
    assert_eq!(tip.amount, 42);
    assert_eq!(tip.message, m);

    let row = tip.into_row();
    assert_eq!(row, (x, 42, m));
}

#[test]
fn errors_name_the_broken_rule() {
    assert_eq!(TipError::InvalidAmount.message(), "amount must be greater than zero");
    assert_eq!(TipError::Authorization.message(), "invocation is not authorized by the payer");
    assert_ne!(TipError::InvalidAmount, TipError::Authorization);
}

#[test]
fn data_keys_are_distinct() {
    assert_ne!(DataKey::Leaderboard, DataKey::TipHistory);
    assert_eq!(DataKey::Leaderboard, DataKey::Leaderboard);
    assert_eq!(DataKey::TipHistory, DataKey::TipHistory);
}

#[test]
fn creator_address_is_an_account_strkey() {
    let env = Env::default();
    assert_eq!(CREATOR_ADDRESS, "GC6QXTLS3XSA3GJPHODE2ZSCQS2LFAOANOZKUFLKBJNXCRVYV6NJB3RI");
    let creator = Address::from_str(&env, CREATOR_ADDRESS);
    assert_eq!(creator.to_string(), String::from_str(&env, CREATOR_ADDRESS));
}

#[test]
fn payer_is_found_under_any_handle() {
    let env = Env::default();
    let mut ledger = Ledger::new();
    let first = Address::from_str(&env, CREATOR_ADDRESS);
    let second = Address::from_str(&env, CREATOR_ADDRESS);
    let other = Address::generate(&env);

    assert!(Contract::buy_coffee(&env, &mut ledger, true, first.clone(), 12, String::from_str(&env, "a")).is_ok());
    assert!(Contract::buy_coffee(&env, &mut ledger, true, second.clone(), 30, String::from_str(&env, "b")).is_ok());

    assert_eq!(Contract::total_donated(&ledger, first), 42);
    assert_eq!(Contract::total_donated(&ledger, second), 42);
    assert_eq!(Contract::total_donated(&ledger, other), 0);
    assert_eq!(Contract::leaderboard(&env, &ledger).len(), 1);
}
