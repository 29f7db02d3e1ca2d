use dashmap::DashMap;
use diamond_market::data::{Item, ItemRatio, MarketData};
use diamond_market::routes::products::{
    add_item, all_products, get_products_above_price, get_products_at_price, get_products_by_id,
    get_products_by_name, get_products_under_price, remove_item, select_entries, ProductFilter,
};
use std::collections::hash_map::DefaultHasher;
use std::hash::{Hash, Hasher};

fn item(id: &str, name: &str, quantity: u32, price: u32) -> Item {
    Item {
        item_id: id.to_string(),
        item_image_url: "img".to_string(),
        display_name: name.to_string(),
        quantity,
        price,
        poster_id: 1,
        time_posted: "Mon, 01 Jan 2024 00:00:00 +0000".to_string(),
        item_ratio: ItemRatio::Individual,
    }
}

fn empty_market() -> MarketData {
    MarketData { items: DashMap::new() }
}

fn sorted_ids(v: &[(String, Item)]) -> Vec<String> {
    let mut ids: Vec<String> = v.iter().map(|e| e.0.clone()).collect();
    ids.sort();
    ids
}

#[test]
fn market_id_is_hex_of_std_hash() {
    let it = item("minecraft:dirt", "Dirt", 64, 1);
    let mut h = DefaultHasher::new();
    it.hash(&mut h);
    assert_eq!(Item::gen_market_id(&it), format!("{:x}", h.finish()));
}

#[test]
fn market_id_is_stable_and_hex() {
    let a = item("minecraft:dirt", "Dirt", 64, 1);
    let b = item("minecraft:dirt", "Dirt", 64, 1);
    let id = Item::gen_market_id(&a);
    assert_eq!(id, Item::gen_market_id(&b));
    assert!(!id.is_empty() && id.len() <= 16);
    assert!(id.chars().all(|c| c.is_ascii_digit() || ('a'..='f').contains(&c)));
    let c = item("minecraft:dirt", "Dirt", 63, 1);
    assert_ne!(id, Item::gen_market_id(&c));
}

#[test]
fn default_item_is_a_null_placeholder() {
    let d = Item::default();
    assert_eq!(d.item_id, "null");
    assert_eq!(d.item_image_url, "null");
    assert_eq!(d.display_name, "null");
    assert_eq!(d.quantity, 0);
    assert_eq!(d.price, 0);
    assert_eq!(d.poster_id, 0);
    assert_eq!(d.item_ratio, ItemRatio::Individual);
    assert!(d.time_posted.len() == 30 || d.time_posted.len() == 31);
    assert!(d.time_posted.ends_with(" +0000"));
    assert!(chrono::DateTime::parse_from_rfc2822(&d.time_posted).is_ok());
}

#[test]
fn add_item_files_under_market_id() {
    let mut md = empty_market();
    let it = item("minecraft:dirt", "Dirt", 64, 1);
    let id = Item::gen_market_id(&it);
    md.add_item(it.clone());
    assert_eq!(md.items.len(), 1);
    assert_eq!(*md.items.get(&id).unwrap(), it);
    md.add_item(it.clone());
    assert_eq!(md.items.len(), 1);
}

#[test]
fn remove_item_removes_or_ignores() {
    let mut md = empty_market();
    let it = item("minecraft:dirt", "Dirt", 64, 1);
    let id = Item::gen_market_id(&it);
    md.add_item(it);
    assert!(!md.remove_item("nope".to_string()));
    assert_eq!(md.items.len(), 1);
    assert!(md.remove_item(id.clone()));
    assert!(md.items.is_empty());
    assert!(!md.remove_item(id));
}

#[test]
fn edit_item_replaces_or_ignores() {
    let mut md = empty_market();
    let it = item("minecraft:dirt", "Dirt", 64, 1);
    let id = Item::gen_market_id(&it);
    md.add_item(it);
    let new = item("minecraft:stone", "Stone", 3, 7);
    assert!(md.edit_item(id.clone(), new.clone()));
    assert_eq!(*md.items.get(&id).unwrap(), new);
    assert!(!md.edit_item("missing".to_string(), new));
    assert_eq!(md.items.len(), 1);
    assert!(md.items.get("missing").is_none());
}

fn sample_market() -> (MarketData, String, String, String) {
    let mut md = empty_market();
    let a = item("minecraft:dirt", "Dirt", 64, 1);
    let b = item("minecraft:stone", "Stone", 32, 5);
    let c = item("minecraft:dirt", "Fancy Dirt", 10, 9);
    let (ia, ib, ic) = (Item::gen_market_id(&a), Item::gen_market_id(&b), Item::gen_market_id(&c));
    add_item(&mut md, a);
    add_item(&mut md, b);
    add_item(&mut md, c);
    (md, ia, ib, ic)
}

#[test]
fn lookups_by_name_and_id() {
    let (md, ia, _ib, ic) = sample_market();
    let by_name = get_products_by_name(&md, "Dirt".to_string());
    assert_eq!(sorted_ids(&by_name), vec![ia.clone()]);
    let mut expect = vec![ia, ic];
    expect.sort();
    assert_eq!(sorted_ids(&get_products_by_id(&md, "minecraft:dirt".to_string())), expect);
    assert!(get_products_by_name(&md, "Gold".to_string()).is_empty());
}

#[test]
fn lookups_by_price() {
    let (md, ia, ib, ic) = sample_market();
    let mut under = vec![ia.clone(), ib.clone()];
    under.sort();
    assert_eq!(sorted_ids(&get_products_under_price(&md, 5)), under);
    let mut above = vec![ib.clone(), ic.clone()];
    above.sort();
    assert_eq!(sorted_ids(&get_products_above_price(&md, 5)), above);
    assert_eq!(sorted_ids(&get_products_at_price(&md, 5)), vec![ib]);
    assert!(get_products_at_price(&md, 2).is_empty());
    assert_eq!(get_products_under_price(&md, 0).len(), 0);
    assert_eq!(get_products_above_price(&md, 0).len(), 3);
}

#[test]
fn select_entries_keeps_order() {
    let entries = vec![
        ("x".to_string(), item("a", "A", 1, 3)),
        ("y".to_string(), item("b", "B", 1, 1)),
        ("z".to_string(), item("c", "C", 1, 2)),
    ];
    let kept = select_entries(entries, &ProductFilter::AtMost(2));
    let keys: Vec<&str> = kept.iter().map(|e| e.0.as_str()).collect();
    assert_eq!(keys, vec!["y", "z"]);
}

#[test]
fn all_products_copies_the_market() {
    let (md, ia, ib, ic) = sample_market();
    let copy = all_products(&md);
    assert_eq!(copy.len(), 3);
    for id in [ia, ib, ic] {
        assert_eq!(*copy.get(&id).unwrap(), *md.items.get(&id).unwrap());
    }
}

#[test]
fn remove_item_route_uses_market_id() {
    let (mut md, _ia, ib, _ic) = sample_market();
    let stone = item("minecraft:stone", "Stone", 32, 5);
    assert!(remove_item(&mut md, stone.clone()));
    assert!(md.items.get(&ib).is_none());
    assert_eq!(md.items.len(), 2);
    assert!(!remove_item(&mut md, stone));
}

#[test]
fn price_lookups_split_the_market() {
    let (md, _ia, _ib, _ic) = sample_market();
    for price in [0u32, 1, 3, 5, 9, 10] {
        let under = sorted_ids(&get_products_under_price(&md, price));
        let above = sorted_ids(&get_products_above_price(&md, price));
        let at = sorted_ids(&get_products_at_price(&md, price));
        let both: Vec<String> = under.iter().filter(|k| above.contains(k)).cloned().collect();
        assert_eq!(at, both);
        let mut union: Vec<String> = under.clone();
        for k in above {
            if !union.contains(&k) {
                union.push(k);
            }
        }
        assert_eq!(union.len(), md.items.len());
    }
}

#[test]
fn added_item_is_found_by_name_and_id() {
    let (mut md, _ia, _ib, _ic) = sample_market();
    let gold = item("minecraft:gold_ingot", "Gold", 5, 40);
    let id = Item::gen_market_id(&gold);
    add_item(&mut md, gold);
    assert_eq!(sorted_ids(&get_products_by_name(&md, "Gold".to_string())), vec![id.clone()]);
    assert_eq!(sorted_ids(&get_products_by_id(&md, "minecraft:gold_ingot".to_string())), vec![id]);
}
