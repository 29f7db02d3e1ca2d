//! Looking up, listing, adding and removing market items.
use crate::data::{market_id, Item, ItemView, MarketData};
use crate::store::{entries_view, lists_entries, market_clone, market_items, market_listing};
use dashmap::DashMap;
use vstd::prelude::*;

verus! {

/// Which items a product lookup keeps.
pub enum ProductFilter {
    /// Items shown under exactly this name.
    Name(String),
    /// Items of exactly this game item id.
    Id(String),
    /// Items priced at or below this.
    AtMost(u32),
    /// Items priced at or above this.
    AtLeast(u32),
    /// Items priced exactly this.
    Exactly(u32),
}

/// Whether the filter keeps the item.
pub open spec fn admits(f: ProductFilter, item: ItemView) -> bool {
    match f {
        ProductFilter::Name(name) => item.display_name == name@,
        ProductFilter::Id(id) => item.item_id == id@,
        ProductFilter::AtMost(price) => item.price <= price,
        ProductFilter::AtLeast(price) => item.price >= price,
        ProductFilter::Exactly(price) => item.price == price,
    }
}

/// Whether the filter keeps the entry's item.
pub open spec fn keeps(f: ProductFilter) -> spec_fn((Seq<char>, ItemView)) -> bool {
    |e: (Seq<char>, ItemView)| admits(f, e.1)
}

/// The entries of the market whose items the filter keeps.
pub open spec fn selected(m: Map<Seq<char>, ItemView>, f: ProductFilter) -> Map<Seq<char>, ItemView> {
    Map::new(|k: Seq<char>| m.contains_key(k) && admits(f, m[k]), |k: Seq<char>| m[k])
}

fn admits_item(f: &ProductFilter, item: &Item) -> (r: bool)
    ensures
        r == admits(*f, item@),
{
    match f {
        ProductFilter::Name(name) => item.display_name == *name,
        ProductFilter::Id(id) => item.item_id == *id,
        ProductFilter::AtMost(price) => item.price <= *price,
        ProductFilter::AtLeast(price) => item.price >= *price,
        ProductFilter::Exactly(price) => item.price == *price,
    }
}

/// The entries whose items the filter keeps, in the order given.
pub fn select_entries(entries: Vec<(String, Item)>, filter: &ProductFilter) -> (r: Vec<(String, Item)>)
    ensures
        entries_view(r@) == entries_view(entries@).filter(keeps(*filter)),
{
    let ghost all = entries_view(entries@);
    let mut r: Vec<(String, Item)> = Vec::new();
    for e in it: entries.into_iter()
        invariant
            it.seq() == entries@,
            all == entries_view(entries@),
            entries_view(r@) == all.take(it.index() as int).filter(keeps(*filter)),
    {
        let ghost i = it.index() as int;
        let ghost before = r@;
        let ghost ev = (e.0@, e.1@);
        proof {
            assert(all.take(i + 1).drop_last() =~= all.take(i));
            reveal(Seq::filter);
            assert(all.take(i + 1).last() == ev);
            assert(all.take(i + 1).filter(keeps(*filter)) == (if admits(*filter, e.1@) {
                all.take(i).filter(keeps(*filter)).push(ev)
            } else {
                all.take(i).filter(keeps(*filter))
            }));
        }
        if admits_item(filter, &e.1) {
            r.push(e);
            proof {
                assert(entries_view(r@) =~= entries_view(before).push(ev));
            }
        }
    }
    proof {
        assert(all.take(all.len() as int) =~= all);
    }
    r
}

/// Filtering a listing of a map lists the entries of the map that the filter keeps.
pub proof fn lemma_filtered_listing(l: Seq<(Seq<char>, ItemView)>, m: Map<Seq<char>, ItemView>, f: ProductFilter)
    requires
        lists_entries(l, m),
    ensures
        lists_entries(l.filter(keeps(f)), selected(m, f)),
{
    let s = l.filter(keeps(f));
    let sel = selected(m, f);
    assert forall|i: int| 0 <= i < s.len() implies #[trigger] sel.contains_key(s[i].0) && sel[s[i].0] == s[i].1 by {
        l.lemma_filter_pred(keeps(f), i);
        assert(s.contains(s[i]));
        l.lemma_filter_contains_rev(keeps(f), s[i]);
        let j = choose|j: int| 0 <= j < l.len() && l[j] == s[i];
        assert(m.contains_key(l[j].0));
    }
    assert forall|k: Seq<char>| #[trigger] sel.contains_key(k) implies exists|i: int| 0 <= i < s.len() && s[i].0 == k by {
        assert(m.contains_key(k));
        let j = choose|j: int| 0 <= j < l.len() && l[j].0 == k;
        assert(m[l[j].0] == l[j].1);
        l.lemma_filter_contains(keeps(f), j);
        let i = choose|i: int| 0 <= i < s.len() && s[i] == l[j];
        assert(s[i].0 == k);
    }
    lemma_filter_keeps_keys_distinct(l, f);
}

/// Filtering a listing whose keys are distinct keeps them distinct.
pub proof fn lemma_filter_keeps_keys_distinct(l: Seq<(Seq<char>, ItemView)>, f: ProductFilter)
    requires
        forall|i: int, j: int| 0 <= i < j < l.len() ==> l[i].0 != l[j].0,
    ensures
        forall|i: int, j: int|
            0 <= i < j < l.filter(keeps(f)).len() ==> l.filter(keeps(f))[i].0 != l.filter(keeps(f))[j].0,
    decreases l.len(),
{
    reveal(Seq::filter);
    if l.len() > 0 {
        let init = l.drop_last();
        lemma_filter_keeps_keys_distinct(init, f);
        let s0 = init.filter(keeps(f));
        if admits(f, l.last().1) {
            assert forall|i: int| 0 <= i < s0.len() implies s0[i].0 != l.last().0 by {
                assert(s0.contains(s0[i]));
                init.lemma_filter_contains_rev(keeps(f), s0[i]);
                let j = choose|j: int| 0 <= j < init.len() && init[j] == s0[i];
                assert(l[j] == init[j]);
            }
        }
    }
}

/// A lookup by game item id lists exactly the market's entries whose item
/// id equals the one asked for: each listed entry is the market's own, with
/// that id, and every such entry of the market is listed.
pub proof fn lemma_lookup_by_id_is_exact(s: Seq<(Seq<char>, ItemView)>, m: Map<Seq<char>, ItemView>, id: String)
    requires
        lists_entries(s, selected(m, ProductFilter::Id(id))),
    ensures
        forall|i: int| 0 <= i < s.len() ==> m.contains_key(#[trigger] s[i].0) && s[i].1 == m[s[i].0]
            && s[i].1.item_id == id@,
        forall|k: Seq<char>| #[trigger] m.contains_key(k) && m[k].item_id == id@ ==> exists|i: int|
            0 <= i < s.len() && s[i].0 == k,
{
    assert forall|i: int| 0 <= i < s.len() implies m.contains_key(#[trigger] s[i].0)
        && s[i].1 == m[s[i].0] && s[i].1.item_id == id@ by {
        assert(selected(m, ProductFilter::Id(id)).contains_key(s[i].0));
    }
    assert forall|k: Seq<char>| #[trigger] m.contains_key(k) && m[k].item_id == id@ implies exists|i: int|
        0 <= i < s.len() && s[i].0 == k by {
        assert(selected(m, ProductFilter::Id(id)).contains_key(k));
    }
}

/// A lookup by display name lists exactly the market's entries shown under
/// that very name: each listed entry is the market's own, with that name,
/// and every such entry of the market is listed.
pub proof fn lemma_lookup_by_name_is_exact(s: Seq<(Seq<char>, ItemView)>, m: Map<Seq<char>, ItemView>, name: String)
    requires
        lists_entries(s, selected(m, ProductFilter::Name(name))),
    ensures
        forall|i: int| 0 <= i < s.len() ==> m.contains_key(#[trigger] s[i].0) && s[i].1 == m[s[i].0]
            && s[i].1.display_name == name@,
        forall|k: Seq<char>| #[trigger] m.contains_key(k) && m[k].display_name == name@ ==> exists|i: int|
            0 <= i < s.len() && s[i].0 == k,
{
    assert forall|i: int| 0 <= i < s.len() implies m.contains_key(#[trigger] s[i].0)
        && s[i].1 == m[s[i].0] && s[i].1.display_name == name@ by {
        assert(selected(m, ProductFilter::Name(name)).contains_key(s[i].0));
    }
    assert forall|k: Seq<char>| #[trigger] m.contains_key(k) && m[k].display_name == name@ implies exists|i: int|
        0 <= i < s.len() && s[i].0 == k by {
        assert(selected(m, ProductFilter::Name(name)).contains_key(k));
    }
}

/// The price lookups compare each item's price with the price asked for, for
/// every price, zero included: at most `p` lists exactly the market's items
/// priced `<= p`, at least `p` those priced `>= p`, and exactly `p` those
/// priced `== p`.
pub proof fn lemma_price_lookups_are_exact(
    at_most: Seq<(Seq<char>, ItemView)>,
    at_least: Seq<(Seq<char>, ItemView)>,
    exactly: Seq<(Seq<char>, ItemView)>,
    m: Map<Seq<char>, ItemView>,
    p: u32,
)
    requires
        lists_entries(at_most, selected(m, ProductFilter::AtMost(p))),
        lists_entries(at_least, selected(m, ProductFilter::AtLeast(p))),
        lists_entries(exactly, selected(m, ProductFilter::Exactly(p))),
    ensures
        forall|i: int| 0 <= i < at_most.len() ==> m.contains_key(#[trigger] at_most[i].0)
            && at_most[i].1 == m[at_most[i].0] && at_most[i].1.price <= p,
        forall|i: int| 0 <= i < at_least.len() ==> m.contains_key(#[trigger] at_least[i].0)
            && at_least[i].1 == m[at_least[i].0] && at_least[i].1.price >= p,
        forall|i: int| 0 <= i < exactly.len() ==> m.contains_key(#[trigger] exactly[i].0)
            && exactly[i].1 == m[exactly[i].0] && exactly[i].1.price == p,
        forall|k: Seq<char>| #[trigger] m.contains_key(k) && m[k].price <= p ==> exists|i: int|
            0 <= i < at_most.len() && at_most[i].0 == k,
        forall|k: Seq<char>| #[trigger] m.contains_key(k) && m[k].price >= p ==> exists|i: int|
            0 <= i < at_least.len() && at_least[i].0 == k,
        forall|k: Seq<char>| #[trigger] m.contains_key(k) && m[k].price == p ==> exists|i: int|
            0 <= i < exactly.len() && exactly[i].0 == k,
{
    assert forall|i: int| 0 <= i < at_most.len() implies m.contains_key(#[trigger] at_most[i].0)
        && at_most[i].1 == m[at_most[i].0] && at_most[i].1.price <= p by {
        assert(selected(m, ProductFilter::AtMost(p)).contains_key(at_most[i].0));
    }
    assert forall|i: int| 0 <= i < at_least.len() implies m.contains_key(#[trigger] at_least[i].0)
        && at_least[i].1 == m[at_least[i].0] && at_least[i].1.price >= p by {
        assert(selected(m, ProductFilter::AtLeast(p)).contains_key(at_least[i].0));
    }
    assert forall|i: int| 0 <= i < exactly.len() implies m.contains_key(#[trigger] exactly[i].0)
        && exactly[i].1 == m[exactly[i].0] && exactly[i].1.price == p by {
        assert(selected(m, ProductFilter::Exactly(p)).contains_key(exactly[i].0));
    }
    assert forall|k: Seq<char>| #[trigger] m.contains_key(k) && m[k].price <= p implies exists|i: int|
        0 <= i < at_most.len() && at_most[i].0 == k by {
        assert(selected(m, ProductFilter::AtMost(p)).contains_key(k));
    }
    assert forall|k: Seq<char>| #[trigger] m.contains_key(k) && m[k].price >= p implies exists|i: int|
        0 <= i < at_least.len() && at_least[i].0 == k by {
        assert(selected(m, ProductFilter::AtLeast(p)).contains_key(k));
    }
    assert forall|k: Seq<char>| #[trigger] m.contains_key(k) && m[k].price == p implies exists|i: int|
        0 <= i < exactly.len() && exactly[i].0 == k by {
        assert(selected(m, ProductFilter::Exactly(p)).contains_key(k));
    }
}

/// What a lookup returns is part of the market, and each price split covers
/// it: every item is at most or at least a price, and the items at exactly a
/// price are those both at most and at least it.
pub proof fn lemma_price_lookups_agree(m: Map<Seq<char>, ItemView>, f: ProductFilter, price: u32)
    ensures
        selected(m, f).submap_of(m),
        forall|k: Seq<char>| #[trigger] m.contains_key(k) ==> selected(m, ProductFilter::AtMost(price)).contains_key(k)
            || selected(m, ProductFilter::AtLeast(price)).contains_key(k),
        forall|k: Seq<char>| #[trigger] selected(m, ProductFilter::Exactly(price)).contains_key(k) <==> (selected(
            m,
            ProductFilter::AtMost(price),
        ).contains_key(k) && selected(m, ProductFilter::AtLeast(price)).contains_key(k)),
{
}

/// An item just put on the market is found by a lookup of its name and by
/// a lookup of its game item id, under its market id.
pub proof fn lemma_added_item_listed(m: Map<Seq<char>, ItemView>, item: ItemView, name: String, id: String)
    ensures
        name@ == item.display_name ==> selected(m.insert(market_id(item), item), ProductFilter::Name(name))
            .contains_key(market_id(item)),
        id@ == item.item_id ==> selected(m.insert(market_id(item), item), ProductFilter::Id(id)).contains_key(
            market_id(item),
        ),
{
}

/// The products shown under exactly this name, each with its market id, in no set order.
pub fn get_products_by_name(md: &MarketData, item_name: String) -> (r: Vec<(String, Item)>)
    ensures
        lists_entries(entries_view(r@), selected(md@, ProductFilter::Name(item_name))),
{
    products_matching(md, ProductFilter::Name(item_name))
}

/// The products of exactly this game item id, each with its market id, in no set order.
pub fn get_products_by_id(md: &MarketData, item_id: String) -> (r: Vec<(String, Item)>)
    ensures
        lists_entries(entries_view(r@), selected(md@, ProductFilter::Id(item_id))),
{
    products_matching(md, ProductFilter::Id(item_id))
}

/// The products priced at or below `price`, each with its market id, in no set order.
pub fn get_products_under_price(md: &MarketData, price: u32) -> (r: Vec<(String, Item)>)
    ensures
        lists_entries(entries_view(r@), selected(md@, ProductFilter::AtMost(price))),
{
    products_matching(md, ProductFilter::AtMost(price))
}

/// The products priced at or above `price`, each with its market id, in no set order.
pub fn get_products_above_price(md: &MarketData, price: u32) -> (r: Vec<(String, Item)>)
    ensures
        lists_entries(entries_view(r@), selected(md@, ProductFilter::AtLeast(price))),
{
    products_matching(md, ProductFilter::AtLeast(price))
}

/// The products priced exactly `price`, each with its market id, in no set order.
pub fn get_products_at_price(md: &MarketData, price: u32) -> (r: Vec<(String, Item)>)
    ensures
        lists_entries(entries_view(r@), selected(md@, ProductFilter::Exactly(price))),
{
    products_matching(md, ProductFilter::Exactly(price))
}

fn products_matching(md: &MarketData, filter: ProductFilter) -> (r: Vec<(String, Item)>)
    ensures
        lists_entries(entries_view(r@), selected(md@, filter)),
{
    let listing = market_listing(&md.items);
    let r = select_entries(listing, &filter);
    proof {
        lemma_filtered_listing(entries_view(listing@), md@, filter);
    }
    r
}

/// A copy of the whole market.
pub fn all_products(md: &MarketData) -> (items: DashMap<String, Item>)
    ensures
        market_items(items) == md@,
{
    market_clone(&md.items)
}

/// Puts the item on the market under its market id.
pub fn add_item(md: &mut MarketData, item: Item)
    ensures
        final(md)@ == old(md)@.insert(market_id(item@), item@),
{
    md.add_item(item);
}

/// Takes the item off the market: whatever is filed under its market id goes.
/// Says whether anything was removed (and so needs saving).
pub fn remove_item(md: &mut MarketData, item: Item) -> (removed: bool)
    ensures
        removed == old(md)@.contains_key(market_id(item@)),
        final(md)@ == old(md)@.remove(market_id(item@)),
{
    let uid = Item::gen_market_id(&item);
    md.remove_item(uid)
}

} // verus!
