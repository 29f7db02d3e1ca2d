use dashmap::DashMap;
use diamond_market::bank::data::{Account, Bank, FundResponse, User};

fn accounts(list: &[(&str, i32)]) -> DashMap<String, Account> {
    let m = DashMap::new();
    for (name, balance) in list {
        m.insert(name.to_string(), Account { balance: *balance, clearance: 1 });
    }
    m
}

fn balance(bank: &mut Bank, id: usize, account: &str) -> i32 {
    let u = bank.get_user(id);
    let b = u.accounts.as_ref().unwrap().get(account).unwrap().balance;
    b
}

fn sample_bank() -> Bank {
    let mut bank = Bank::connect(vec!["alice".to_string(), "bob".to_string(), "carol".to_string()]);
    bank.get_user_mut(0).unwrap().populate(100, 1, Some(accounts(&[("main", 100), ("savings", 5)])));
    bank.get_user_mut(1).unwrap().populate(50, 2, Some(accounts(&[("main", 50)])));
    bank.get_user_mut(2).unwrap().populate(0, 0, None);
    bank
}

#[test]
fn connect_lists_users_with_zero_totals() {
    let mut bank = Bank::connect(vec!["alice".to_string(), "bob".to_string()]);
    let u = bank.get_user(1);
    assert_eq!(u.name, "bob");
    assert_eq!(u.balance, 0);
    assert_eq!(u.perm_count, 0);
    assert!(u.accounts.is_none());
    assert!(bank.get_user_mut(2).is_none());
}

#[test]
fn populate_fills_totals_and_accounts() {
    let mut bank = sample_bank();
    let u = bank.get_user(0);
    assert_eq!(u.name, "alice");
    assert_eq!(u.balance, 100);
    assert_eq!(u.perm_count, 1);
    assert_eq!(u.accounts.as_ref().unwrap().len(), 2);
}

#[test]
fn update_user_replaces_or_fails() {
    let mut bank = sample_bank();
    let mut u = bank.get_user(1);
    u.balance = 7;
    assert!(bank.update_user(1, u.clone()).is_ok());
    assert_eq!(bank.get_user(1).balance, 7);
    let err = bank.update_user(3, u).unwrap_err();
    assert_eq!(err, "Could not find user with ID '3'");
}

#[test]
fn send_funds_moves_between_users() {
    let mut bank = sample_bank();
    assert!(bank.send_funds(0, "main".to_string(), 1, "main".to_string(), 30).is_ok());
    assert_eq!(balance(&mut bank, 0, "main"), 70);
    assert_eq!(balance(&mut bank, 1, "main"), 80);
    assert_eq!(balance(&mut bank, 0, "savings"), 5);
}

#[test]
fn send_funds_within_one_user_keeps_only_the_credit() {
    let mut bank = sample_bank();
    assert!(bank.send_funds(0, "main".to_string(), 0, "savings".to_string(), 10).is_ok());
    assert_eq!(balance(&mut bank, 0, "main"), 100);
    assert_eq!(balance(&mut bank, 0, "savings"), 15);
}

#[test]
fn send_funds_errors() {
    let mut bank = sample_bank();
    assert_eq!(
        bank.send_funds(2, "main".to_string(), 0, "main".to_string(), 1).unwrap_err(),
        "Could not find any accounts for user 'carol'"
    );
    assert_eq!(
        bank.send_funds(0, "gold".to_string(), 1, "main".to_string(), 1).unwrap_err(),
        "Could not find account 'gold' for user 'alice'"
    );
    assert_eq!(
        bank.send_funds(0, "main".to_string(), 2, "main".to_string(), 1).unwrap_err(),
        "Could not find any accounts for user 'carol'"
    );
    assert_eq!(
        bank.send_funds(0, "main".to_string(), 1, "gold".to_string(), 1).unwrap_err(),
        "Could not find account 'gold' for user 'bob'"
    );
    assert_eq!(
        bank.send_funds(0, "gold".to_string(), 9, "main".to_string(), 1).unwrap_err(),
        "Could not find account 'gold' for user 'alice'"
    );
    assert_eq!(balance(&mut bank, 0, "main"), 100);
    assert_eq!(balance(&mut bank, 1, "main"), 50);
}

#[test]
fn default_account_is_one_of_the_accounts() {
    let mut bank = sample_bank();
    let alice = bank.get_user(0);
    let name = alice.get_default_account().unwrap();
    assert!(name == "main" || name == "savings");
    let bob = bank.get_user(1);
    assert_eq!(bob.get_default_account().unwrap(), "main");
    let carol = bank.get_user(2);
    assert_eq!(carol.get_default_account().unwrap_err(), "User doesn't have any accounts");
}

#[test]
fn fund_response_outcome() {
    let refused = FundResponse { content: "insufficient funds".to_string(), value: 0 };
    assert_eq!(refused.outcome().unwrap_err(), "insufficient funds");
    let ok = FundResponse { content: "done".to_string(), value: 1 };
    assert!(ok.outcome().is_ok());
    let negative = FundResponse { content: "odd".to_string(), value: -3 };
    assert!(negative.outcome().is_ok());
}

#[test]
fn get_user_is_a_copy() {
    let mut bank = sample_bank();
    let mut u = bank.get_user(0);
    u.balance = 1;
    let _unused: &User = &u;
    assert_eq!(bank.get_user(0).balance, 100);
}

fn total(bank: &mut Bank, users: usize) -> i64 {
    let mut sum = 0i64;
    for id in 0..users {
        if let Some(m) = bank.get_user(id).accounts {
            for entry in m.iter() {
                sum += entry.value().balance as i64;
            }
        }
    }
    sum
}

#[test]
fn transfer_keeps_the_bank_total() {
    let mut bank = sample_bank();
    let before = total(&mut bank, 3);
    assert!(bank.send_funds(1, "main".to_string(), 0, "savings".to_string(), 20).is_ok());
    assert_eq!(total(&mut bank, 3), before);
}

#[test]
fn transfer_there_and_back_restores_both() {
    let mut bank = sample_bank();
    assert!(bank.send_funds(0, "main".to_string(), 1, "main".to_string(), 25).is_ok());
    assert!(bank.send_funds(1, "main".to_string(), 0, "main".to_string(), 25).is_ok());
    assert_eq!(balance(&mut bank, 0, "main"), 100);
    assert_eq!(balance(&mut bank, 1, "main"), 50);
}

#[test]
fn failed_account_check_needs_no_balance_room() {
    let mut bank = Bank::connect(vec!["a".to_string(), "b".to_string()]);
    bank.get_user_mut(0).unwrap().populate(0, 0, Some(accounts(&[("main", i32::MIN)])));
    bank.get_user_mut(1).unwrap().populate(0, 0, Some(accounts(&[("main", i32::MAX)])));
    assert_eq!(
        bank.send_funds(0, "main".to_string(), 1, "other".to_string(), 5).unwrap_err(),
        "Could not find account 'other' for user 'b'"
    );
}
