//! The concurrent map (`dashmap::DashMap`) that holds the market's items and
//! each user's accounts, and what each of its methods that the library calls
//! does to the contents.
//!
//! A `DashMap` takes `&self` even where it changes its contents; the wrappers
//! here take `&mut` there, so that the change is stated over the map before
//! and after the call. A `DashMap` is walked shard by shard in an order that
//! follows its per-process random hasher: what comes out of a walk is stated
//! as a listing of the contents, not as an order.
use crate::bank::data::Account;
use crate::data::{Item, ItemView};
use dashmap::DashMap;
use vstd::prelude::*;

verus! {

#[verifier::external_type_specification]
#[verifier::external_body]
#[verifier::reject_recursive_types(K)]
#[verifier::reject_recursive_types(V)]
#[verifier::reject_recursive_types(S)]
pub struct ExDashMap<K, V, S>(DashMap<K, V, S>);

/// What a market map holds: each market id (by its characters) and the item under it.
pub uninterp spec fn market_items(m: DashMap<String, Item>) -> Map<Seq<char>, ItemView>;

/// What an account map holds: each account name (by its characters) and the account.
pub uninterp spec fn account_entries(m: DashMap<String, Account>) -> Map<Seq<char>, Account>;

/// `s` lists exactly the entries of `m`, each once, in some order.
pub open spec fn lists_entries(s: Seq<(Seq<char>, ItemView)>, m: Map<Seq<char>, ItemView>) -> bool {
    &&& forall|i: int| 0 <= i < s.len() ==> #[trigger] m.contains_key(s[i].0) && m[s[i].0] == s[i].1
    &&& forall|k: Seq<char>| #[trigger] m.contains_key(k) ==> exists|i: int| 0 <= i < s.len() && s[i].0 == k
    &&& forall|i: int, j: int| 0 <= i < j < s.len() ==> s[i].0 != s[j].0
}

/// `s` lists exactly the keys of `m`, each once, in some order.
pub open spec fn lists_keys<V>(s: Seq<Seq<char>>, m: Map<Seq<char>, V>) -> bool {
    &&& forall|i: int| 0 <= i < s.len() ==> #[trigger] m.contains_key(s[i])
    &&& forall|k: Seq<char>| #[trigger] m.contains_key(k) ==> s.contains(k)
    &&& forall|i: int, j: int| 0 <= i < j < s.len() ==> s[i] != s[j]
}

/// The characters of each key and the view of each item of a listing.
pub open spec fn entries_view(s: Seq<(String, Item)>) -> Seq<(Seq<char>, ItemView)> {
    s.map_values(|e: (String, Item)| (e.0@, e.1@))
}

/// The characters of each string of a listing.
pub open spec fn strings_view(s: Seq<String>) -> Seq<Seq<char>> {
    s.map_values(|e: String| e@)
}

/// `DashMap::contains_key` on a market map: whether the id is a key.
#[verifier::external_body]
pub fn market_contains(m: &DashMap<String, Item>, key: &str) -> (r: bool)
    ensures
        r == market_items(*m).contains_key(key@),
{
    m.contains_key(key)
}

/// `DashMap::get` on a market map, with the item under the id cloned out.
#[verifier::external_body]
pub fn market_get(m: &DashMap<String, Item>, key: &str) -> (r: Option<Item>)
    ensures
        r is Some <==> market_items(*m).contains_key(key@),
        r matches Some(item) ==> item@ == market_items(*m)[key@],
{
    m.get(key).map(|entry| entry.value().clone())
}

/// `DashMap::insert` on a market map: the id now holds the item; the item it
/// held before, if any, comes back.
#[verifier::external_body]
pub fn market_insert(m: &mut DashMap<String, Item>, key: String, item: Item) -> (r: Option<Item>)
    ensures
        market_items(*final(m)) == market_items(*old(m)).insert(key@, item@),
        r is Some <==> market_items(*old(m)).contains_key(key@),
        r matches Some(prev) ==> prev@ == market_items(*old(m))[key@],
{
    m.insert(key, item)
}

/// `DashMap::remove` on a market map: the id is no longer a key; its entry,
/// if there was one, comes back.
#[verifier::external_body]
pub fn market_remove(m: &mut DashMap<String, Item>, key: &str) -> (r: Option<(String, Item)>)
    ensures
        market_items(*final(m)) == market_items(*old(m)).remove(key@),
        r is Some <==> market_items(*old(m)).contains_key(key@),
        r matches Some(entry) ==> entry.0@ == key@ && entry.1@ == market_items(*old(m))[key@],
{
    m.remove(key)
}

/// `DashMap::clone` then `into_iter` and `collect`: every entry of a market
/// map, each once, in the order the map's shards are walked.
#[verifier::external_body]
pub fn market_listing(m: &DashMap<String, Item>) -> (r: Vec<(String, Item)>)
    ensures
        lists_entries(entries_view(r@), market_items(*m)),
{
    m.clone().into_iter().collect()
}

/// `DashMap::clone` on a market map: a second map with the same contents.
#[verifier::external_body]
pub fn market_clone(m: &DashMap<String, Item>) -> (r: DashMap<String, Item>)
    ensures
        market_items(r) == market_items(*m),
{
    m.clone()
}

/// `DashMap::get` on an account map, with the account under the name copied out.
#[verifier::external_body]
pub fn account_get(m: &DashMap<String, Account>, key: &str) -> (r: Option<Account>)
    ensures
        r is Some <==> account_entries(*m).contains_key(key@),
        r matches Some(acct) ==> acct == account_entries(*m)[key@],
{
    m.get(key).map(|entry| *entry.value())
}

/// `DashMap::insert` on an account map: the name now holds the account; the
/// account it held before, if any, comes back.
#[verifier::external_body]
pub fn account_insert(m: &mut DashMap<String, Account>, key: String, acct: Account) -> (r: Option<Account>)
    ensures
        account_entries(*final(m)) == account_entries(*old(m)).insert(key@, acct),
        r is Some <==> account_entries(*old(m)).contains_key(key@),
        r matches Some(prev) ==> prev == account_entries(*old(m))[key@],
{
    m.insert(key, acct)
}

/// `DashMap::clone`, `into_iter` and `collect` of the keys: every account
/// name of the map, each once, in the order the map's shards are walked.
#[verifier::external_body]
pub fn account_names(m: &DashMap<String, Account>) -> (r: Vec<String>)
    ensures
        lists_keys(strings_view(r@), account_entries(*m)),
{
    m.clone().into_iter().map(|entry| entry.0).collect()
}

/// `DashMap::clone` on an account map: a second map with the same contents.
#[verifier::external_body]
pub fn account_clone(m: &DashMap<String, Account>) -> (r: DashMap<String, Account>)
    ensures
        account_entries(r) == account_entries(*m),
{
    m.clone()
}

} // verus!
