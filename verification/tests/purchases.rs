use dashmap::DashMap;
use diamond_market::bank::data::{Account, Bank, FundResponse};
use diamond_market::data::{Item, ItemRatio, MarketData};
use diamond_market::routes::instance::{get_bank_ip, parse_u32_text};
use diamond_market::routes::transactions::{
    complete_purchase, purchase, purchase_defined, quantity_for, PurchaseResult, PurchaseStep,
};

fn accounts(list: &[(&str, i32)]) -> DashMap<String, Account> {
    let m = DashMap::new();
    for (name, balance) in list {
        m.insert(name.to_string(), Account { balance: *balance, clearance: 0 });
    }
    m
}

fn item(id: &str, quantity: u32, price: u32, poster: u16, ratio: ItemRatio) -> Item {
    Item {
        item_id: id.to_string(),
        item_image_url: String::new(),
        display_name: "Thing".to_string(),
        quantity,
        price,
        poster_id: poster,
        time_posted: String::new(),
        item_ratio: ratio,
    }
}

fn setup(it: Item) -> (MarketData, Bank, String) {
    let md = MarketData { items: DashMap::new() };
    let id = Item::gen_market_id(&it);
    md.items.insert(id.clone(), it);
    let mut bank = Bank::connect(vec!["buyer".to_string(), "seller".to_string(), "poor".to_string()]);
    bank.get_user_mut(0).unwrap().populate(0, 0, Some(accounts(&[("wallet", 100)])));
    bank.get_user_mut(1).unwrap().populate(0, 0, Some(accounts(&[("till", 10)])));
    bank.get_user_mut(2).unwrap().populate(0, 0, None);
    (md, bank, id)
}

fn fail_text(step: PurchaseStep) -> String {
    match step {
        PurchaseStep::Done(PurchaseResult::Fail(m)) => m,
        _ => panic!("expected a refusal"),
    }
}

fn run(md: &mut MarketData, bank: &mut Bank, id: &str, user: usize, acct: &str, diamonds: u32) -> PurchaseStep {
    assert!(purchase_defined(md, bank, &id.to_string(), user, &acct.to_string(), diamonds));
    purchase(md, bank, id.to_string(), user, acct.to_string(), diamonds)
}

#[test]
fn quantity_by_ratio() {
    let d = 3;
    assert_eq!(quantity_for(&item("minecraft:dirt", 0, 0, 0, ItemRatio::Individual), d), 3);
    assert_eq!(quantity_for(&item("minecraft:dirt", 0, 0, 0, ItemRatio::Pair), d), 6);
    assert_eq!(quantity_for(&item("minecraft:dirt", 0, 0, 0, ItemRatio::HalfStack), d), 96);
    assert_eq!(quantity_for(&item("minecraft:egg", 0, 0, 0, ItemRatio::HalfStack), d), 24);
    assert_eq!(quantity_for(&item("minecraft:dirt", 0, 0, 0, ItemRatio::Stack), d), 192);
    assert_eq!(quantity_for(&item("minecraft:ender_pearl", 0, 0, 0, ItemRatio::Stack), d), 48);
    assert_eq!(quantity_for(&item("minecraft:dirt", 0, 0, 0, ItemRatio::Custom(5)), d), 15);
    assert_eq!(
        quantity_for(&item("x", 0, 0, 0, ItemRatio::Custom(u32::MAX)), u32::MAX),
        (u32::MAX as u64) * (u32::MAX as u64)
    );
}

#[test]
fn purchase_books_and_completes() {
    let (mut md, mut bank, id) = setup(item("minecraft:dirt", 10, 3, 1, ItemRatio::Pair));
    let step = run(&mut md, &mut bank, &id, 0, "wallet", 2);
    let pending = match step {
        PurchaseStep::AwaitBank(p) => p,
        _ => panic!("expected the purchase to be booked"),
    };
    assert_eq!(md.items.get(&id).unwrap().quantity, 6);
    assert_eq!(pending.from_id, 0);
    assert_eq!(pending.from_account, "wallet");
    assert_eq!(pending.to_id, 1);
    assert_eq!(pending.to_account, "till");
    assert_eq!(pending.amount, 12);
    assert_eq!(pending.message, "Bought 4 Thing(s) for 12 diamonds!");
    assert_eq!(bank.get_user(0).accounts.unwrap().get("wallet").unwrap().balance, 88);
    assert_eq!(bank.get_user(1).accounts.unwrap().get("till").unwrap().balance, 22);
    let done = complete_purchase(&mut bank, pending, FundResponse { content: "ok".to_string(), value: 1 });
    match done {
        PurchaseResult::Success(m) => assert_eq!(m, "Bought 4 Thing(s) for 12 diamonds!"),
        PurchaseResult::Fail(m) => panic!("unexpected failure {}", m),
    }
    assert_eq!(bank.get_user(0).accounts.unwrap().get("wallet").unwrap().balance, 100);
    assert_eq!(bank.get_user(1).accounts.unwrap().get("till").unwrap().balance, 22);
}

#[test]
fn bank_refusal_fails_the_purchase() {
    let (mut md, mut bank, id) = setup(item("minecraft:dirt", 10, 3, 1, ItemRatio::Individual));
    let pending = match run(&mut md, &mut bank, &id, 0, "wallet", 1) {
        PurchaseStep::AwaitBank(p) => p,
        _ => panic!("expected the purchase to be booked"),
    };
    let done = complete_purchase(&mut bank, pending, FundResponse { content: "wrong password".to_string(), value: 0 });
    match done {
        PurchaseResult::Fail(m) => assert_eq!(m, "Could not send funds: wrong password"),
        PurchaseResult::Success(_) => panic!("expected failure"),
    }
    assert_eq!(md.items.get(&id).unwrap().quantity, 9);
}

#[test]
fn purchase_refusals() {
    let (mut md, mut bank, id) = setup(item("minecraft:dirt", 10, 3, 1, ItemRatio::Individual));
    assert_eq!(fail_text(run(&mut md, &mut bank, &id, 7, "wallet", 1)), "Could not find user with ID '7'");
    assert_eq!(
        fail_text(run(&mut md, &mut bank, "abc", 0, "wallet", 1)),
        "Could not find item with market ID 'abc'"
    );
    assert_eq!(fail_text(run(&mut md, &mut bank, &id, 0, "wallet", 0)), "Cannot purchase 0 of an item");
    assert_eq!(fail_text(run(&mut md, &mut bank, &id, 0, "wallet", 11)), "Cannot purchase over amount of stock");
    assert_eq!(
        fail_text(run(&mut md, &mut bank, &id, 2, "wallet", 1)),
        "Could not find account with name 'wallet' for user 'poor'"
    );
    assert_eq!(
        fail_text(run(&mut md, &mut bank, &id, 0, "wallet", 40)),
        "Cannot purchase over amount of stock"
    );
    assert_eq!(md.items.get(&id).unwrap().quantity, 10);
}

#[test]
fn purchase_refuses_unknown_seller_and_empty_stock() {
    let (mut md, mut bank, id) = setup(item("minecraft:dirt", 10, 3, 9, ItemRatio::Individual));
    assert_eq!(fail_text(run(&mut md, &mut bank, &id, 0, "wallet", 1)), "Could not find seller user with ID '9'");
    let (mut md, mut bank, id) = setup(item("minecraft:dirt", 0, 3, 1, ItemRatio::Individual));
    assert_eq!(fail_text(run(&mut md, &mut bank, &id, 0, "wallet", 1)), "Item 'minecraft:dirt' out of stock");
}

#[test]
fn purchase_refuses_what_the_account_cannot_cover() {
    let (mut md, mut bank, id) = setup(item("minecraft:dirt", 100, 30, 1, ItemRatio::Individual));
    assert_eq!(
        fail_text(run(&mut md, &mut bank, &id, 0, "wallet", 4)),
        "Total cost for purchasing 4 Thing(s) exceeds the 'wallet' balance."
    );
    assert_eq!(bank.get_user(0).accounts.unwrap().get("wallet").unwrap().balance, 100);
}

#[test]
fn purchase_without_answer_is_detected() {
    let (md, mut bank, id) = setup(item("minecraft:dirt", 100, 30, 1, ItemRatio::Custom(u32::MAX)));
    assert!(!purchase_defined(&md, &mut bank, &id, 0, &"wallet".to_string(), 2));
    let (md, mut bank, id) = setup(item("minecraft:dirt", 100, 3, 1, ItemRatio::Individual));
    assert!(!purchase_defined(&md, &mut bank, &id, 0, &"missing".to_string(), 1));
    let (md, mut bank, id) = setup(item("minecraft:dirt", 100, 3, 2, ItemRatio::Individual));
    assert!(!purchase_defined(&md, &mut bank, &id, 0, &"wallet".to_string(), 1));
}

#[test]
fn bank_port_defaults_to_80() {
    let b = get_bank_ip("10.0.0.1".to_string(), None).unwrap();
    assert_eq!(b.ip, "10.0.0.1");
    assert_eq!(b.port, 80);
    assert_eq!(get_bank_ip("h".to_string(), Some("8080".to_string())).unwrap().port, 8080);
    assert_eq!(get_bank_ip("h".to_string(), Some("+12".to_string())).unwrap().port, 12);
    assert!(get_bank_ip("h".to_string(), Some("abc".to_string())).is_none());
    assert!(get_bank_ip("h".to_string(), Some("4294967296".to_string())).is_none());
    assert!(get_bank_ip("h".to_string(), Some("".to_string())).is_none());
    assert!(get_bank_ip("h".to_string(), Some("-1".to_string())).is_none());
}

#[test]
fn second_purchase_cannot_oversell() {
    let (mut md, mut bank, id) = setup(item("minecraft:dirt", 5, 1, 1, ItemRatio::Individual));
    match run(&mut md, &mut bank, &id, 0, "wallet", 3) {
        PurchaseStep::AwaitBank(_) => {},
        _ => panic!("expected the first purchase to be booked"),
    }
    assert_eq!(md.items.get(&id).unwrap().quantity, 2);
    assert_eq!(fail_text(run(&mut md, &mut bank, &id, 0, "wallet", 3)), "Cannot purchase over amount of stock");
    assert_eq!(md.items.get(&id).unwrap().quantity, 2);
}

#[test]
fn parses_like_std() {
    for t in ["0", "7", "+7", "007", "4294967295", "4294967296", "99999999999", "", "+", "-0", " 1", "1a", "١"] {
        assert_eq!(parse_u32_text(t), t.parse::<u32>().ok(), "{:?}", t);
    }
}
