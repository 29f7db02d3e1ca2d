//! Market items and the market's store of them.
use crate::store::{market_contains, market_insert, market_items, market_remove};
use crate::text::{all_digits, digits_value, hex_string, is_lower_hex_char, lemma_lower_hex_shape, lower_hex};
use dashmap::DashMap;
use std::collections::hash_map::DefaultHasher;
use std::hash::{Hash, Hasher};
use vstd::prelude::*;

verus! {

/// How many items one diamond buys.
#[derive(Clone, Copy, Debug, PartialEq, Eq, Hash)]
pub enum ItemRatio {
    Individual,
    Pair,
    HalfStack,
    Stack,
    Custom(u32),
}

/// An item on offer in the market.
#[derive(Clone, Debug, PartialEq, Hash)]
pub struct Item {
    pub item_id: String,
    pub item_image_url: String,
    pub display_name: String,
    pub quantity: u32,
    pub price: u32,
    pub poster_id: u16,
    pub time_posted: String,
    pub item_ratio: ItemRatio,
}

/// An item with each text field taken by its characters.
pub struct ItemView {
    pub item_id: Seq<char>,
    pub item_image_url: Seq<char>,
    pub display_name: Seq<char>,
    pub quantity: u32,
    pub price: u32,
    pub poster_id: u16,
    pub time_posted: Seq<char>,
    pub item_ratio: ItemRatio,
}

impl View for Item {
    type V = ItemView;

    open spec fn view(&self) -> ItemView {
        ItemView {
            item_id: self.item_id@,
            item_image_url: self.item_image_url@,
            display_name: self.display_name@,
            quantity: self.quantity,
            price: self.price,
            poster_id: self.poster_id,
            time_posted: self.time_posted@,
            item_ratio: self.item_ratio,
        }
    }
}

/// What `Item`'s derived `Hash` feeds a fresh `DefaultHasher`, finished: a
/// function of the item's field values alone.
pub uninterp spec fn item_hash(item: ItemView) -> u64;

/// The market id of an item: its hash in lower-case hexadecimal.
pub open spec fn market_id(item: ItemView) -> Seq<char> {
    lower_hex(item_hash(item) as nat)
}

/// `Hash::hash` of the item into `DefaultHasher::new()`, then `Hasher::finish`.
/// `DefaultHasher::new` starts from fixed keys, so equal items hash alike in one
/// build; the value itself is left to the name `item_hash`.
#[verifier::external_body]
fn hash_item(item: &Item) -> (h: u64)
    ensures
        h == item_hash(item@),
{
    let mut hasher = DefaultHasher::new();
    item.hash(&mut hasher);
    hasher.finish()
}

/// An English three-letter weekday name.
pub open spec fn is_weekday_name(s: Seq<char>) -> bool {
    ||| s == "Sun"@
    ||| s == "Mon"@
    ||| s == "Tue"@
    ||| s == "Wed"@
    ||| s == "Thu"@
    ||| s == "Fri"@
    ||| s == "Sat"@
}

/// An English three-letter month name.
pub open spec fn is_month_name(s: Seq<char>) -> bool {
    ||| s == "Jan"@
    ||| s == "Feb"@
    ||| s == "Mar"@
    ||| s == "Apr"@
    ||| s == "May"@
    ||| s == "Jun"@
    ||| s == "Jul"@
    ||| s == "Aug"@
    ||| s == "Sep"@
    ||| s == "Oct"@
    ||| s == "Nov"@
    ||| s == "Dec"@
}

/// A UTC date and time as RFC 2822 text the way chrono writes it, such as
/// "Tue, 1 Jul 2003 10:52:37 +0000": weekday, day of the month (1 to 31,
/// without a leading zero), month, four-digit year, two-digit hours (below
/// 24), minutes (below 60) and seconds (at most 60), and a zero offset.
pub open spec fn is_rfc2822_utc(s: Seq<char>) -> bool {
    let w = s.len() - 30;
    let day = s.subrange(5, 6 + w);
    &&& (s.len() == 30 || s.len() == 31)
    &&& is_weekday_name(s.subrange(0, 3))
    &&& s.subrange(3, 5) == ", "@
    &&& all_digits(day) && 1 <= digits_value(day) <= 31 && day[0] != '0'
    &&& s[6 + w] == ' '
    &&& is_month_name(s.subrange(7 + w, 10 + w))
    &&& s[10 + w] == ' '
    &&& all_digits(s.subrange(11 + w, 15 + w))
    &&& s[15 + w] == ' '
    &&& all_digits(s.subrange(16 + w, 18 + w)) && digits_value(s.subrange(16 + w, 18 + w)) < 24
    &&& s[18 + w] == ':'
    &&& all_digits(s.subrange(19 + w, 21 + w)) && digits_value(s.subrange(19 + w, 21 + w)) < 60
    &&& s[21 + w] == ':'
    &&& all_digits(s.subrange(22 + w, 24 + w)) && digits_value(s.subrange(22 + w, 24 + w)) <= 60
    &&& s.subrange(24 + w, 30 + w) == " +0000"@
}

/// `chrono::Utc::now().to_rfc2822()`: the current time as RFC 2822 text.
/// Which time it is depends on the clock, so only the text's shape is
/// stated: chrono writes the weekday, day, month, year, time and a `+0000`
/// offset for UTC. chrono panics when the clock reads before 1970 or past
/// the year 9999, which no argument here can rule out.
#[verifier::external_body]
fn now_rfc2822() -> (r: String)
    ensures
        is_rfc2822_utc(r@),
{
    chrono::Utc::now().to_rfc2822()
}

impl Item {
    /// The id the market files an item under: the item's hash in lower-case hexadecimal.
    pub fn gen_market_id(item: &Item) -> (id: String)
        ensures
            id@ == market_id(item@),
    {
        let h = hash_item(item);
        hex_string(h)
    }
}

impl Default for Item {
    /// A placeholder item: "null" texts, nothing in stock, free, posted by
    /// user 0 just now, sold one per diamond.
    fn default() -> (r: Self)
        ensures
            r.item_id@ == seq!['n', 'u', 'l', 'l'],
            r.item_image_url@ == seq!['n', 'u', 'l', 'l'],
            r.display_name@ == seq!['n', 'u', 'l', 'l'],
            r.quantity == 0,
            r.price == 0,
            r.poster_id == 0,
            r.item_ratio == ItemRatio::Individual,
            is_rfc2822_utc(r.time_posted@),
    {
        let null = "null";
        proof {
            reveal_strlit("null");
        }
        Item {
            item_id: String::from_str(null),
            item_image_url: String::from_str(null),
            display_name: String::from_str(null),
            quantity: 0,
            price: 0,
            poster_id: 0,
            time_posted: now_rfc2822(),
            item_ratio: ItemRatio::Individual,
        }
    }
}

/// The market's items, each filed under its market id.
pub struct MarketData {
    pub items: DashMap<String, Item>,
}

impl View for MarketData {
    type V = Map<Seq<char>, ItemView>;

    open spec fn view(&self) -> Map<Seq<char>, ItemView> {
        market_items(self.items)
    }
}

impl MarketData {
    /// Files the item under its market id, replacing what was filed there.
    /// (Saving the market afterwards is the caller's part.)
    pub fn add_item(&mut self, item: Item)
        ensures
            final(self)@ == old(self)@.insert(market_id(item@), item@),
    {
        let id = Item::gen_market_id(&item);
        market_insert(&mut self.items, id, item);
    }

    /// Takes the item filed under `uid` off the market; an unknown id is
    /// ignored. Says whether anything was removed (and so needs saving).
    pub fn remove_item(&mut self, uid: String) -> (removed: bool)
        ensures
            removed == old(self)@.contains_key(uid@),
            final(self)@ == old(self)@.remove(uid@),
    {
        if market_contains(&self.items, uid.as_str()) {
            market_remove(&mut self.items, uid.as_str());
            true
        } else {
            proof {
                assert(old(self)@.remove(uid@) =~= old(self)@);
            }
            false
        }
    }

    /// Replaces the item filed under `uid`; an unknown id is ignored. Says
    /// whether anything was replaced (and so needs saving).
    pub fn edit_item(&mut self, uid: String, item: Item) -> (edited: bool)
        ensures
            edited == old(self)@.contains_key(uid@),
            edited ==> final(self)@ == old(self)@.insert(uid@, item@),
            !edited ==> final(self)@ == old(self)@,
    {
        if market_contains(&self.items, uid.as_str()) {
            market_insert(&mut self.items, uid, item);
            true
        } else {
            false
        }
    }
}

/// A market id is one to sixteen lower-case hexadecimal characters, and
/// equal items get equal ids.
pub proof fn lemma_market_id_shape(item: ItemView, other: ItemView)
    ensures
        1 <= market_id(item).len() <= 16,
        forall|i: int| 0 <= i < market_id(item).len() ==> is_lower_hex_char(#[trigger] market_id(item)[i]),
        item == other ==> market_id(item) == market_id(other),
{
    lemma_lower_hex_shape(item_hash(item));
}

/// An item just added is filed under its market id, and nothing else changed.
pub proof fn lemma_added_item_found(m: Map<Seq<char>, ItemView>, item: ItemView, key: Seq<char>)
    ensures
        m.insert(market_id(item), item).contains_key(market_id(item)),
        m.insert(market_id(item), item)[market_id(item)] == item,
        key != market_id(item) ==> (m.insert(market_id(item), item).contains_key(key) == m.contains_key(key)
            && m.insert(market_id(item), item)[key] == m[key]),
{
}

/// Removing an id after adding under it leaves the market as removing it
/// from the start would: adding then removing undoes the add for an id that
/// was free.
pub proof fn lemma_remove_undoes_add(m: Map<Seq<char>, ItemView>, item: ItemView)
    ensures
        m.insert(market_id(item), item).remove(market_id(item)) == m.remove(market_id(item)),
        !m.contains_key(market_id(item)) ==> m.insert(market_id(item), item).remove(market_id(item)) == m,
{
    assert(m.insert(market_id(item), item).remove(market_id(item)) =~= m.remove(market_id(item)));
    if !m.contains_key(market_id(item)) {
        assert(m.remove(market_id(item)) =~= m);
    }
}

} // verus!
