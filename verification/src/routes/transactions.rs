//! Buying an item: the market's checks, the stock update and the local side
//! of paying the seller, then what the bank's answer makes of the purchase.
use crate::bank::data::{
    can_credit, credited, no_user_message, no_user_text, transferred, Bank, FundResponse, User, UserView,
};
use crate::data::{Item, ItemRatio, ItemView, MarketData};
use crate::store::{
    account_entries, account_get, account_names, lists_keys, market_get, market_insert, strings_view,
};
use crate::text::{decimal, push_decimal, push_text};
use vstd::prelude::*;
use vstd::string::StringExecFns;

verus! {

/// How a purchase ended, with a message for the buyer.
pub enum PurchaseResult {
    Success(String),
    Fail(String),
}

/// A purchase the market has accepted and booked locally, waiting on the
/// bank: what to ask it to transfer, and what to finish with.
pub struct PendingPurchase {
    /// The buyer's id, and the account the diamonds come from.
    pub from_id: usize,
    pub from_account: String,
    /// The seller's id, and the account the diamonds go to.
    pub to_id: usize,
    pub to_account: String,
    /// The price of the purchase, in diamonds.
    pub amount: i32,
    /// The buyer as it was before the purchase, stored back once the bank agrees.
    pub customer: User,
    /// The message for the buyer when the purchase succeeds.
    pub message: String,
}

/// Where a purchase stands after the market's part.
pub enum PurchaseStep {
    /// The market refused; nothing changed.
    Done(PurchaseResult),
    /// The market booked the purchase; the bank must now be asked to transfer.
    AwaitBank(PendingPurchase),
}

/// Items that stack to sixteen rather than sixty-four.
pub open spec fn is_sixteen_stack(item_id: Seq<char>) -> bool {
    ||| item_id == "minecraft:snowball"@
    ||| item_id == "minecraft:bucket"@
    ||| item_id == "minecraft:egg"@
    ||| item_id == "minecraft:oak_sign"@
    ||| item_id == "minecraft:spruce_sign"@
    ||| item_id == "minecraft:birch_sign"@
    ||| item_id == "minecraft:jungle_sign"@
    ||| item_id == "minecraft:acacia_sign"@
    ||| item_id == "minecraft:dark_oak_sign"@
    ||| item_id == "minecraft:crimson_sign"@
    ||| item_id == "minecraft:warped_sign"@
    ||| item_id == "minecraft:ender_pearl"@
    ||| item_id == "minecraft:honey_bottle"@
}

/// How many items `diamonds` diamonds buy at this ratio: a pair is two, half a
/// stack eight or thirty-two, a stack sixteen or sixty-four (by how the item
/// stacks), a custom ratio its count.
pub open spec fn purchase_quantity(ratio: ItemRatio, item_id: Seq<char>, diamonds: u32) -> int {
    match ratio {
        ItemRatio::Individual => diamonds as int,
        ItemRatio::Pair => diamonds * 2,
        ItemRatio::HalfStack => if is_sixteen_stack(item_id) { diamonds * 8 } else { diamonds * 32 },
        ItemRatio::Stack => if is_sixteen_stack(item_id) { diamonds * 16 } else { diamonds * 64 },
        ItemRatio::Custom(amount) => diamonds * amount,
    }
}

/// "Could not find item with market ID '<id>'"
pub open spec fn no_item_message(market_id: Seq<char>) -> Seq<char> {
    "Could not find item with market ID '"@ + market_id + "'"@
}

/// "Could not find seller user with ID '<id>'"
pub open spec fn no_seller_message(poster_id: nat) -> Seq<char> {
    "Could not find seller user with ID '"@ + decimal(poster_id) + "'"@
}

/// "Cannot purchase 0 of an item"
pub open spec fn zero_quantity_message() -> Seq<char> {
    "Cannot purchase 0 of an item"@
}

/// "Item '<item id>' out of stock"
pub open spec fn out_of_stock_message(item_id: Seq<char>) -> Seq<char> {
    "Item '"@ + item_id + "' out of stock"@
}

/// "Cannot purchase over amount of stock"
pub open spec fn over_stock_message() -> Seq<char> {
    "Cannot purchase over amount of stock"@
}

/// "Could not find account with name '<account>' for user '<user>'"
pub open spec fn no_customer_account_message(account: Seq<char>, user: Seq<char>) -> Seq<char> {
    "Could not find account with name '"@ + account + "' for user '"@ + user + "'"@
}

/// "Total cost for purchasing <quantity> <name>(s) exceeds the '<account>' balance."
pub open spec fn too_costly_message(quantity: nat, display_name: Seq<char>, account: Seq<char>) -> Seq<char> {
    "Total cost for purchasing "@ + decimal(quantity) + " "@ + display_name + "(s) exceeds the '"@ + account
        + "' balance."@
}

/// "Bought <quantity> <name>(s) for <cost> diamonds!"
pub open spec fn success_message(quantity: nat, display_name: Seq<char>, cost: nat) -> Seq<char> {
    "Bought "@ + decimal(quantity) + " "@ + display_name + "(s) for "@ + decimal(cost) + " diamonds!"@
}

/// "Could not send funds: <reason>"
pub open spec fn send_failed_message(reason: Seq<char>) -> Seq<char> {
    "Could not send funds: "@ + reason
}

/// "Could not update local user: <reason>"
pub open spec fn update_failed_message(reason: Seq<char>) -> Seq<char> {
    "Could not update local user: "@ + reason
}

/// Why the market refuses a purchase, if it does, checked in this order: the
/// buyer, the item, the seller, the quantity, the stock, the buyer's
/// accounts, and whether the named account covers the cost (its balance read
/// as a `u32`).
pub open spec fn purchase_refusal(
    items: Map<Seq<char>, ItemView>,
    users: Seq<UserView>,
    market_id: Seq<char>,
    user_id: nat,
    account: Seq<char>,
    diamonds: u32,
) -> Option<Seq<char>> {
    if user_id >= users.len() {
        Some(no_user_message(user_id))
    } else if !items.contains_key(market_id) {
        Some(no_item_message(market_id))
    } else {
        let item = items[market_id];
        let customer = users[user_id as int];
        let q = purchase_quantity(item.item_ratio, item.item_id, diamonds);
        if item.poster_id >= users.len() {
            Some(no_seller_message(item.poster_id as nat))
        } else if q == 0 {
            Some(zero_quantity_message())
        } else if item.quantity == 0 {
            Some(out_of_stock_message(item.item_id))
        } else if q > item.quantity {
            Some(over_stock_message())
        } else if customer.accounts is None {
            Some(no_customer_account_message(account, customer.name))
        } else if q * item.price > (customer.accounts->0[account].balance as u32) {
            Some(too_costly_message(q as nat, item.display_name, account))
        } else {
            None
        }
    }
}

/// Whether a purchase runs to an answer: the quantity and the cost fit a
/// `u32`, a buyer with accounts has the one named, and once accepted the
/// seller has an account, and both the buyer's account and every account of
/// the seller can take the transfer within an `i32`.
pub open spec fn purchase_is_defined(
    items: Map<Seq<char>, ItemView>,
    users: Seq<UserView>,
    market_id: Seq<char>,
    user_id: nat,
    account: Seq<char>,
    diamonds: u32,
) -> bool {
    (user_id < users.len() && items.contains_key(market_id) && (items[market_id].poster_id as nat)
        < users.len()) ==> {
        let item = items[market_id];
        let customer = users[user_id as int];
        let seller = users[item.poster_id as int];
        let q = purchase_quantity(item.item_ratio, item.item_id, diamonds);
        let cost = q * item.price;
        &&& q <= u32::MAX
        &&& (q != 0 && item.quantity != 0 && q <= item.quantity && customer.accounts is Some) ==> {
            &&& customer.accounts->0.contains_key(account)
            &&& cost <= u32::MAX
            &&& cost <= (customer.accounts->0[account].balance as u32) ==> {
                &&& seller.accounts matches Some(m) && exists|k: Seq<char>| m.contains_key(k)
                &&& can_credit(customer, account, -((cost as u32) as i32))
                &&& forall|k: Seq<char>| #[trigger] seller.accounts->0.contains_key(k)
                    ==> can_credit(seller, k, ((cost as u32) as i32) as int)
            }
        }
    }
}

/// The item with its stock set to `quantity`.
pub open spec fn with_stock(item: ItemView, quantity: u32) -> ItemView {
    ItemView { quantity, ..item }
}

/// An accepted purchase is of at least one item and no more than the stock,
/// from a buyer, an item and a seller that exist, at a cost the named
/// account covers.
pub proof fn lemma_accepted_purchase_bounds(
    items: Map<Seq<char>, ItemView>,
    users: Seq<UserView>,
    market_id: Seq<char>,
    user_id: nat,
    account: Seq<char>,
    diamonds: u32,
)
    requires
        purchase_refusal(items, users, market_id, user_id, account, diamonds) is None,
    ensures
        user_id < users.len(),
        items.contains_key(market_id),
        (items[market_id].poster_id as nat) < users.len(),
        ({
            let item = items[market_id];
            let q = purchase_quantity(item.item_ratio, item.item_id, diamonds);
            &&& 0 < q <= item.quantity
            &&& users[user_id as int].accounts is Some
            &&& q * item.price <= (users[user_id as int].accounts->0[account].balance as u32)
        }),
{
}

/// What one purchase unit buys: one item per diamond, two for a pair, a
/// custom count as set; a stack is sixteen per diamond (half a stack eight)
/// for the items that stack to sixteen (snowballs, buckets, eggs, the nine
/// kinds of sign, ender pearls, honey bottles) and sixty-four (thirty-two)
/// for every other item.
pub proof fn lemma_quantity_by_ratio(d: u32, amount: u32, other: Seq<char>)
    ensures
        purchase_quantity(ItemRatio::Stack, "minecraft:snowball"@, d) == 16 * d,
        purchase_quantity(ItemRatio::HalfStack, "minecraft:snowball"@, d) == 8 * d,
        purchase_quantity(ItemRatio::Stack, "minecraft:bucket"@, d) == 16 * d,
        purchase_quantity(ItemRatio::HalfStack, "minecraft:bucket"@, d) == 8 * d,
        purchase_quantity(ItemRatio::Stack, "minecraft:egg"@, d) == 16 * d,
        purchase_quantity(ItemRatio::HalfStack, "minecraft:egg"@, d) == 8 * d,
        purchase_quantity(ItemRatio::Stack, "minecraft:oak_sign"@, d) == 16 * d,
        purchase_quantity(ItemRatio::HalfStack, "minecraft:oak_sign"@, d) == 8 * d,
        purchase_quantity(ItemRatio::Stack, "minecraft:spruce_sign"@, d) == 16 * d,
        purchase_quantity(ItemRatio::HalfStack, "minecraft:spruce_sign"@, d) == 8 * d,
        purchase_quantity(ItemRatio::Stack, "minecraft:birch_sign"@, d) == 16 * d,
        purchase_quantity(ItemRatio::HalfStack, "minecraft:birch_sign"@, d) == 8 * d,
        purchase_quantity(ItemRatio::Stack, "minecraft:jungle_sign"@, d) == 16 * d,
        purchase_quantity(ItemRatio::HalfStack, "minecraft:jungle_sign"@, d) == 8 * d,
        purchase_quantity(ItemRatio::Stack, "minecraft:acacia_sign"@, d) == 16 * d,
        purchase_quantity(ItemRatio::HalfStack, "minecraft:acacia_sign"@, d) == 8 * d,
        purchase_quantity(ItemRatio::Stack, "minecraft:dark_oak_sign"@, d) == 16 * d,
        purchase_quantity(ItemRatio::HalfStack, "minecraft:dark_oak_sign"@, d) == 8 * d,
        purchase_quantity(ItemRatio::Stack, "minecraft:crimson_sign"@, d) == 16 * d,
        purchase_quantity(ItemRatio::HalfStack, "minecraft:crimson_sign"@, d) == 8 * d,
        purchase_quantity(ItemRatio::Stack, "minecraft:warped_sign"@, d) == 16 * d,
        purchase_quantity(ItemRatio::HalfStack, "minecraft:warped_sign"@, d) == 8 * d,
        purchase_quantity(ItemRatio::Stack, "minecraft:ender_pearl"@, d) == 16 * d,
        purchase_quantity(ItemRatio::HalfStack, "minecraft:ender_pearl"@, d) == 8 * d,
        purchase_quantity(ItemRatio::Stack, "minecraft:honey_bottle"@, d) == 16 * d,
        purchase_quantity(ItemRatio::HalfStack, "minecraft:honey_bottle"@, d) == 8 * d,
        (other != "minecraft:snowball"@ && other != "minecraft:bucket"@ && other != "minecraft:egg"@ && other != "minecraft:oak_sign"@ && other != "minecraft:spruce_sign"@ && other != "minecraft:birch_sign"@ && other != "minecraft:jungle_sign"@ && other != "minecraft:acacia_sign"@ && other != "minecraft:dark_oak_sign"@ && other != "minecraft:crimson_sign"@ && other != "minecraft:warped_sign"@ && other != "minecraft:ender_pearl"@ && other != "minecraft:honey_bottle"@) ==> purchase_quantity(ItemRatio::Stack, other, d) == 64 * d
            && purchase_quantity(ItemRatio::HalfStack, other, d) == 32 * d,
        purchase_quantity(ItemRatio::Individual, other, d) == d,
        purchase_quantity(ItemRatio::Pair, other, d) == 2 * d,
        purchase_quantity(ItemRatio::Custom(amount), other, d) == d * amount,
{
}

/// The message for each refusal, checked in order: a missing buyer, item or
/// seller (by id), nothing to buy, an empty stock, more than the stock, a
/// buyer without accounts, a cost over the balance; and the texts a
/// purchase ends with.
pub proof fn lemma_purchase_messages(
    items: Map<Seq<char>, ItemView>,
    users: Seq<UserView>,
    market_id: Seq<char>,
    user_id: nat,
    account: Seq<char>,
    diamonds: u32,
    quantity: nat,
    name: Seq<char>,
    cost: nat,
    reason: Seq<char>,
)
    ensures
        ({
            let r = purchase_refusal(items, users, market_id, user_id, account, diamonds);
            let item = items[market_id];
            let q = purchase_quantity(item.item_ratio, item.item_id, diamonds);
            let customer = users[user_id as int];
            let found = user_id < users.len() && items.contains_key(market_id) && (item.poster_id as nat)
                < users.len();
            &&& user_id >= users.len() ==> r == Some("Could not find user with ID '"@ + decimal(user_id) + "'"@)
            &&& (user_id < users.len() && !items.contains_key(market_id)) ==> r == Some(
                "Could not find item with market ID '"@ + market_id + "'"@,
            )
            &&& (user_id < users.len() && items.contains_key(market_id) && (item.poster_id as nat)
                >= users.len()) ==> r == Some(
                "Could not find seller user with ID '"@ + decimal(item.poster_id as nat) + "'"@,
            )
            &&& (found && q == 0) ==> r == Some("Cannot purchase 0 of an item"@)
            &&& (found && q != 0 && item.quantity == 0) ==> r == Some("Item '"@ + item.item_id + "' out of stock"@)
            &&& (found && q != 0 && item.quantity != 0 && q > item.quantity) ==> r == Some(
                "Cannot purchase over amount of stock"@,
            )
            &&& (found && 0 < q <= item.quantity && customer.accounts is None) ==> r == Some(
                "Could not find account with name '"@ + account + "' for user '"@ + customer.name + "'"@,
            )
            &&& (found && 0 < q <= item.quantity && customer.accounts is Some && q * item.price > (
            customer.accounts->0[account].balance as u32)) ==> r == Some(
                "Total cost for purchasing "@ + decimal(q as nat) + " "@ + item.display_name
                    + "(s) exceeds the '"@ + account + "' balance."@,
            )
            &&& success_message(quantity, name, cost) == "Bought "@ + decimal(quantity) + " "@ + name + "(s) for "@
                + decimal(cost) + " diamonds!"@
            &&& send_failed_message(reason) == "Could not send funds: "@ + reason
            &&& update_failed_message(reason) == "Could not update local user: "@ + reason
        }),
{
}

/// Setting an item's stock changes its stock and nothing else.
pub proof fn lemma_with_stock_changes_only_stock(item: ItemView, quantity: u32)
    ensures
        with_stock(item, quantity).quantity == quantity,
        with_stock(item, quantity).item_id == item.item_id,
        with_stock(item, quantity).item_image_url == item.item_image_url,
        with_stock(item, quantity).display_name == item.display_name,
        with_stock(item, quantity).price == item.price,
        with_stock(item, quantity).poster_id == item.poster_id,
        with_stock(item, quantity).time_posted == item.time_posted,
        with_stock(item, quantity).item_ratio == item.item_ratio,
{
}

/// When the market accepts a purchase: exactly when the buyer, the item and
/// the seller exist, at least one item is bought and no more than the stock
/// (the whole remaining stock may be bought), the buyer has accounts, and the
/// cost is within the named account's balance (read as a `u32`). Once the
/// earlier checks pass on a non-empty stock, asking for more than the stock
/// is refused as such, and only then.
pub proof fn lemma_acceptance_is_exact(
    items: Map<Seq<char>, ItemView>,
    users: Seq<UserView>,
    market_id: Seq<char>,
    user_id: nat,
    account: Seq<char>,
    diamonds: u32,
)
    ensures
        ({
            let item = items[market_id];
            let q = purchase_quantity(item.item_ratio, item.item_id, diamonds);
            let customer = users[user_id as int];
            &&& purchase_refusal(items, users, market_id, user_id, account, diamonds) is None <==> {
                &&& user_id < users.len()
                &&& items.contains_key(market_id)
                &&& (item.poster_id as nat) < users.len()
                &&& 0 < q <= item.quantity
                &&& customer.accounts is Some
                &&& q * item.price <= (customer.accounts->0[account].balance as u32)
            }
            &&& (user_id < users.len() && items.contains_key(market_id) && (item.poster_id as nat) < users.len()
                && q > 0 && item.quantity > 0) ==> (purchase_refusal(
                items,
                users,
                market_id,
                user_id,
                account,
                diamonds,
            ) == Some("Cannot purchase over amount of stock"@) <==> q > item.quantity)
        }),
{
    let item = items[market_id];
    let q = purchase_quantity(item.item_ratio, item.item_id, diamonds);
    let customer = users[user_id as int];
    let r = purchase_refusal(items, users, market_id, user_id, account, diamonds);
    let over = "Cannot purchase over amount of stock"@;
    reveal_strlit("Cannot purchase over amount of stock");
    reveal_strlit("Could not find account with name '");
    reveal_strlit("Total cost for purchasing ");
    if user_id < users.len() && items.contains_key(market_id) && (item.poster_id as nat) < users.len() && q > 0
        && item.quantity > 0 && q <= item.quantity {
        if customer.accounts is None {
            let msg = no_customer_account_message(account, customer.name);
            assert(msg[1] == 'o');
            assert(over[1] == 'a');
            assert(r == Some(msg));
            assert(msg != over);
        } else if q * item.price > (customer.accounts->0[account].balance as u32) {
            let msg = too_costly_message(q as nat, item.display_name, account);
            assert(msg[0] == 'T');
            assert(over[0] == 'C');
            assert(r == Some(msg));
            assert(msg != over);
        }
    }
}

/// Two purchases of one item never sell more than its stock: after one
/// accepted purchase (which leaves the stock less what it took), a second
/// purchase that asks for more than is left is refused, whoever makes it.
pub proof fn lemma_no_overselling(
    items: Map<Seq<char>, ItemView>,
    users: Seq<UserView>,
    users_after: Seq<UserView>,
    market_id: Seq<char>,
    first_user: nat,
    first_account: Seq<char>,
    first_diamonds: u32,
    second_user: nat,
    second_account: Seq<char>,
    second_diamonds: u32,
)
    requires
        purchase_refusal(items, users, market_id, first_user, first_account, first_diamonds) is None,
        purchase_quantity(items[market_id].item_ratio, items[market_id].item_id, first_diamonds)
            + purchase_quantity(items[market_id].item_ratio, items[market_id].item_id, second_diamonds)
            > items[market_id].quantity,
    ensures
        ({
            let item = items[market_id];
            let q = purchase_quantity(item.item_ratio, item.item_id, first_diamonds);
            &&& 0 < q <= item.quantity
            &&& purchase_refusal(
                items.insert(market_id, with_stock(item, (item.quantity - q) as u32)),
                users_after,
                market_id,
                second_user,
                second_account,
                second_diamonds,
            ) is Some
        }),
{
}

/// Once the bank agrees, the buyer's local record is stored back as it was
/// before the purchase, while a seller other than the buyer keeps the amount
/// on its account.
pub proof fn lemma_completed_purchase_records(
    users: Seq<UserView>,
    buyer: nat,
    buyer_account: Seq<char>,
    seller: nat,
    seller_account: Seq<char>,
    amount: int,
)
    requires
        buyer < users.len(),
        seller < users.len(),
    ensures
        ({
            let after = transferred(users, buyer, buyer_account, seller, seller_account, amount).update(
                buyer as int,
                users[buyer as int],
            );
            &&& after[buyer as int] == users[buyer as int]
            &&& seller != buyer ==> after[seller as int] == credited(users[seller as int], seller_account, amount)
        }),
{
}

fn text_is(s: &String, lit: &str) -> (r: bool)
    ensures
        r == (s@ == lit@),
{
    *s == String::from_str(lit)
}

fn sixteen_stack(item_id: &String) -> (r: bool)
    ensures
        r == is_sixteen_stack(item_id@),
{
    text_is(item_id, "minecraft:snowball") || text_is(item_id, "minecraft:bucket") || text_is(
        item_id,
        "minecraft:egg",
    ) || text_is(item_id, "minecraft:oak_sign") || text_is(item_id, "minecraft:spruce_sign")
        || text_is(item_id, "minecraft:birch_sign") || text_is(item_id, "minecraft:jungle_sign")
        || text_is(item_id, "minecraft:acacia_sign") || text_is(item_id, "minecraft:dark_oak_sign")
        || text_is(item_id, "minecraft:crimson_sign") || text_is(item_id, "minecraft:warped_sign")
        || text_is(item_id, "minecraft:ender_pearl") || text_is(item_id, "minecraft:honey_bottle")
}

/// How many items `diamond_amount` diamonds buy of this item.
pub fn quantity_for(item: &Item, diamond_amount: u32) -> (q: u64)
    ensures
        q == purchase_quantity(item.item_ratio, item.item_id@, diamond_amount),
{
    let d = diamond_amount as u64;
    match item.item_ratio {
        ItemRatio::Pair => d * 2,
        ItemRatio::HalfStack => if sixteen_stack(&item.item_id) {
            d * 8
        } else {
            d * 32
        },
        ItemRatio::Stack => if sixteen_stack(&item.item_id) {
            d * 16
        } else {
            d * 64
        },
        ItemRatio::Custom(amount) => {
            assert(d * amount <= 0xffff_ffff * 0xffff_ffff) by (nonlinear_arith)
                requires
                    d <= 0xffff_ffff,
                    amount <= 0xffff_ffff,
            ;
            d * amount as u64
        },
        ItemRatio::Individual => d,
    }
}

fn fail(msg: String) -> (r: PurchaseStep)
    ensures
        r == PurchaseStep::Done(PurchaseResult::Fail(msg)),
{
    PurchaseStep::Done(PurchaseResult::Fail(msg))
}

fn message3(a: &str, b: &str, c: &str) -> (s: String)
    ensures
        s@ == a@ + b@ + c@,
{
    let mut s = String::new();
    push_text(&mut s, a);
    push_text(&mut s, b);
    push_text(&mut s, c);
    assert(s@ =~= a@ + b@ + c@);
    s
}

/// The market's part of a purchase of `diamond_amount` diamonds' worth of the
/// item filed under `market_id`, by the user `user_id` paying from the
/// account `account_name`. A refusal changes nothing. Otherwise the item's
/// stock goes down by the quantity bought, the price moves locally from the
/// buyer's account to one of the seller's accounts (see `Bank::send_funds`),
/// and the purchase waits on the bank (see `complete_purchase`).
pub fn purchase(
    md: &mut MarketData,
    bank: &mut Bank,
    market_id: String,
    user_id: usize,
    account_name: String,
    diamond_amount: u32,
) -> (r: PurchaseStep)
    requires
        purchase_is_defined(old(md)@, old(bank)@, market_id@, user_id as nat, account_name@, diamond_amount),
    ensures
        match r {
            PurchaseStep::Done(PurchaseResult::Fail(msg)) => purchase_refusal(
                old(md)@,
                old(bank)@,
                market_id@,
                user_id as nat,
                account_name@,
                diamond_amount,
            ) == Some(msg@) && final(md)@ == old(md)@ && final(bank)@ == old(bank)@,
            PurchaseStep::Done(PurchaseResult::Success(_)) => false,
            PurchaseStep::AwaitBank(p) => {
                let item = old(md)@[market_id@];
                let q = purchase_quantity(item.item_ratio, item.item_id, diamond_amount);
                let cost = q * item.price;
                &&& purchase_refusal(
                    old(md)@,
                    old(bank)@,
                    market_id@,
                    user_id as nat,
                    account_name@,
                    diamond_amount,
                ) is None
                &&& final(md)@ == old(md)@.insert(market_id@, with_stock(item, (item.quantity - q) as u32))
                &&& p.from_id == user_id
                &&& p.from_account@ == account_name@
                &&& p.to_id == item.poster_id as usize
                &&& old(bank)@[item.poster_id as int].accounts->0.contains_key(p.to_account@)
                &&& p.amount == (cost as u32) as i32
                &&& p.customer@ == old(bank)@[user_id as int]
                &&& p.message@ == success_message(q as nat, item.display_name, cost as nat)
                &&& final(bank)@ == transferred(
                    old(bank)@,
                    user_id as nat,
                    account_name@,
                    item.poster_id as nat,
                    p.to_account@,
                    p.amount as int,
                )
            },
        },
{
    match bank.get_user_mut(user_id) {
        None => return fail(no_user_text(user_id as u64)),
        Some(_) => {},
    }
    let customer = bank.get_user(user_id);
    let item = match market_get(&md.items, market_id.as_str()) {
        Some(i) => i,
        None => return fail(message3("Could not find item with market ID '", market_id.as_str(), "'")),
    };
    match bank.get_user_mut(item.poster_id as usize) {
        None => {
            let mut msg = String::new();
            push_text(&mut msg, "Could not find seller user with ID '");
            push_decimal(&mut msg, item.poster_id as u64);
            push_text(&mut msg, "'");
            assert(msg@ =~= no_seller_message(item.poster_id as nat));
            return fail(msg);
        },
        Some(_) => {},
    }
    let seller = bank.get_user(item.poster_id as usize);
    let quantity = quantity_for(&item, diamond_amount) as u32;
    if quantity == 0 {
        return fail(String::from_str("Cannot purchase 0 of an item"));
    } else if item.quantity == 0 {
        return fail(message3("Item '", item.item_id.as_str(), "' out of stock"));
    } else if quantity > item.quantity {
        return fail(String::from_str("Cannot purchase over amount of stock"));
    }
    let account = match &customer.accounts {
        None => {
            let mut msg = message3("Could not find account with name '", account_name.as_str(), "' for user '");
            push_text(&mut msg, customer.name.as_str());
            push_text(&mut msg, "'");
            assert(msg@ =~= no_customer_account_message(account_name@, customer.name@));
            return fail(msg);
        },
        Some(accounts) => match account_get(accounts, account_name.as_str()) {
            Some(a) => a,
            None => {
                assert(false);
                return fail(String::new());
            },
        },
    };
    let cost = quantity * item.price;
    if cost > account.balance as u32 {
        let mut msg = String::new();
        push_text(&mut msg, "Total cost for purchasing ");
        push_decimal(&mut msg, quantity as u64);
        push_text(&mut msg, " ");
        push_text(&mut msg, item.display_name.as_str());
        push_text(&mut msg, "(s) exceeds the '");
        push_text(&mut msg, account_name.as_str());
        push_text(&mut msg, "' balance.");
        assert(msg@ =~= too_costly_message(quantity as nat, item.display_name@, account_name@));
        return fail(msg);
    }
    let ghost item_before = item@;
    let display_name = item.display_name.clone();
    let poster_id = item.poster_id;
    let mut item = item;
    item.quantity = item.quantity - quantity;
    market_insert(&mut md.items, market_id, item);
    proof {
        assert(item@ == with_stock(item_before, (item_before.quantity - quantity) as u32));
    }
    let seller_account = match seller.get_default_account() {
        Ok(name) => name,
        Err(_) => {
            assert(false);
            return fail(String::new());
        },
    };
    let amount = cost as i32;
    match bank.send_funds(user_id, account_name.clone(), poster_id as usize, seller_account.clone(), amount) {
        Ok(()) => {},
        Err(e) => {
            assert(false);
            return fail(e);
        },
    }
    let mut message = String::new();
    push_text(&mut message, "Bought ");
    push_decimal(&mut message, quantity as u64);
    push_text(&mut message, " ");
    push_text(&mut message, display_name.as_str());
    push_text(&mut message, "(s) for ");
    push_decimal(&mut message, cost as u64);
    push_text(&mut message, " diamonds!");
    assert(message@ =~= success_message(quantity as nat, display_name@, cost as nat));
    PurchaseStep::AwaitBank(
        PendingPurchase {
            from_id: user_id,
            from_account: account_name,
            to_id: poster_id as usize,
            to_account: seller_account,
            amount,
            customer,
            message,
        },
    )
}

/// Whether `purchase` may be called on these inputs (`purchase_is_defined`);
/// where it may not, the purchase has no answer.
pub fn purchase_defined(
    md: &MarketData,
    bank: &mut Bank,
    market_id: &String,
    user_id: usize,
    account_name: &String,
    diamond_amount: u32,
) -> (r: bool)
    ensures
        r == purchase_is_defined(md@, old(bank)@, market_id@, user_id as nat, account_name@, diamond_amount),
        final(bank)@ == old(bank)@,
{
    if bank.get_user_mut(user_id).is_none() {
        return true;
    }
    let item = match market_get(&md.items, market_id.as_str()) {
        Some(i) => i,
        None => return true,
    };
    if bank.get_user_mut(item.poster_id as usize).is_none() {
        return true;
    }
    let customer = bank.get_user(user_id);
    let seller = bank.get_user(item.poster_id as usize);
    let q = quantity_for(&item, diamond_amount);
    if q > 0xffff_ffff {
        return false;
    }
    let accounts = match &customer.accounts {
        Some(accounts) => accounts,
        None => return true,
    };
    if q == 0 || item.quantity == 0 || q > item.quantity as u64 {
        return true;
    }
    let account = match account_get(accounts, account_name.as_str()) {
        Some(a) => a,
        None => return false,
    };
    assert(q * item.price <= 0xffff_ffff * 0xffff_ffff) by (nonlinear_arith)
        requires
            q <= 0xffff_ffff,
            item.price <= 0xffff_ffff,
    ;
    let cost = q * item.price as u64;
    if cost > 0xffff_ffff {
        return false;
    }
    if cost > account.balance as u32 as u64 {
        return true;
    }
    let amount = cost as u32 as i32;
    let debited = account.balance as i64 - amount as i64;
    if debited < -0x8000_0000 || debited > 0x7fff_ffff {
        return false;
    }
    let seller_accounts = match &seller.accounts {
        Some(m) => m,
        None => return false,
    };
    let names = account_names(seller_accounts);
    if names.len() == 0 {
        proof {
            let m = seller@.accounts->0;
            if exists|k: Seq<char>| m.contains_key(k) {
                let k = choose|k: Seq<char>| m.contains_key(k);
                assert(strings_view(names@).contains(k));
            }
        }
        return false;
    }
    let ghost m = seller@.accounts->0;
    proof {
        assert(m.contains_key(strings_view(names@)[0]));
    }
    #[verifier::loop_isolation(false)]
    for i in 0..names.len()
        invariant
            names@.len() > 0,
            m == account_entries(*seller_accounts),
            seller@.accounts == Some(m),
            lists_keys(strings_view(names@), m),
            forall|j: int| 0 <= j < i ==> can_credit(seller@, #[trigger] names@[j]@, amount as int),
    {
        let a = match account_get(seller_accounts, names[i].as_str()) {
            Some(a) => a,
            None => {
                proof {
                    assert(strings_view(names@)[i as int] == names@[i as int]@);
                }
                return false;
            },
        };
        let credited = a.balance as i64 + amount as i64;
        if credited < -0x8000_0000 || credited > 0x7fff_ffff {
            proof {
                assert(strings_view(names@)[i as int] == names@[i as int]@);
                assert(m.contains_key(names@[i as int]@));
            }
            return false;
        }
    }
    proof {
        assert forall|k: Seq<char>| #[trigger] m.contains_key(k) implies can_credit(seller@, k, amount as int) by {
            assert(strings_view(names@).contains(k));
            let j = choose|j: int| 0 <= j < strings_view(names@).len() && strings_view(names@)[j] == k;
            assert(names@[j]@ == k);
        }
    }
    true
}

/// What the bank's answer makes of a pending purchase: a refusal by the bank
/// fails it (the stock and local balances stay as the market left them);
/// otherwise the buyer's record from before the purchase is stored back, and
/// the purchase succeeds with its message.
pub fn complete_purchase(bank: &mut Bank, pending: PendingPurchase, response: FundResponse) -> (r: PurchaseResult)
    ensures
        r is Success <==> response.value != 0 && pending.from_id < old(bank)@.len(),
        r matches PurchaseResult::Success(msg) ==> msg@ == pending.message@ && final(bank)@ == old(bank)@.update(
            pending.from_id as int,
            pending.customer@,
        ),
        r matches PurchaseResult::Fail(msg) ==> final(bank)@ == old(bank)@ && msg@ == (if response.value == 0 {
            send_failed_message(response.content@)
        } else {
            update_failed_message(no_user_message(pending.from_id as nat))
        }),
{
    let ghost content = response.content@;
    match response.outcome() {
        Err(e) => {
            let mut msg = String::from_str("Could not send funds: ");
            push_text(&mut msg, e.as_str());
            PurchaseResult::Fail(msg)
        },
        Ok(()) => match bank.update_user(pending.from_id, pending.customer) {
            Err(e) => {
                let mut msg = String::from_str("Could not update local user: ");
                push_text(&mut msg, e.as_str());
                PurchaseResult::Fail(msg)
            },
            Ok(()) => PurchaseResult::Success(pending.message),
        },
    }
}

} // verus!
