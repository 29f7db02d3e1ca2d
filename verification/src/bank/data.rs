//! Users, their accounts, and the local side of moving funds between them.
use crate::store::{account_clone, account_entries, account_get, account_insert, account_names, strings_view};
use crate::text::{decimal, push_decimal, push_text};
use dashmap::DashMap;
use vstd::prelude::*;

verus! {

/// One bank account of a user.
#[derive(Clone, Copy, Debug, PartialEq, Eq)]
pub struct Account {
    pub balance: i32,
    pub clearance: i32,
}

/// A bank user: totals, name, and (once known) accounts by name.
#[derive(Clone, Debug)]
pub struct User {
    pub balance: i32,
    pub name: String,
    pub perm_count: i32,
    pub accounts: Option<DashMap<String, Account>>,
}

/// A user with the name taken by its characters and the accounts by their contents.
pub struct UserView {
    pub balance: i32,
    pub name: Seq<char>,
    pub perm_count: i32,
    pub accounts: Option<Map<Seq<char>, Account>>,
}

/// The contents of an optional account map.
pub open spec fn accounts_view(a: Option<DashMap<String, Account>>) -> Option<Map<Seq<char>, Account>> {
    match a {
        Some(m) => Some(account_entries(m)),
        None => None,
    }
}

impl View for User {
    type V = UserView;

    open spec fn view(&self) -> UserView {
        UserView {
            balance: self.balance,
            name: self.name@,
            perm_count: self.perm_count,
            accounts: accounts_view(self.accounts),
        }
    }
}

/// The user with `delta` added to the balance of the account `name` (which it holds).
pub open spec fn credited(u: UserView, name: Seq<char>, delta: int) -> UserView {
    let accts = u.accounts->0;
    UserView {
        balance: u.balance,
        name: u.name,
        perm_count: u.perm_count,
        accounts: Some(accts.insert(name, Account {
            balance: (accts[name].balance + delta) as i32,
            clearance: accts[name].clearance,
        })),
    }
}

/// Whether the user has an account called `name`.
pub open spec fn has_account(u: UserView, name: Seq<char>) -> bool {
    u.accounts matches Some(m) && m.contains_key(name)
}

/// Whether the account `name` of the user (if it has one) can take `delta`
/// without leaving the range of an `i32`.
pub open spec fn can_credit(u: UserView, name: Seq<char>, delta: int) -> bool {
    has_account(u, name) ==> i32::MIN <= u.accounts->0[name].balance + delta <= i32::MAX
}

/// "Could not find user with ID '<id>'"
pub open spec fn no_user_message(id: nat) -> Seq<char> {
    "Could not find user with ID '"@ + decimal(id) + "'"@
}

/// "User doesn't have any assigned accounts"
pub open spec fn no_assigned_accounts_message() -> Seq<char> {
    "User doesn't have any assigned accounts"@
}

/// "User doesn't have an account with the name '<name>'"
pub open spec fn no_named_account_message(name: Seq<char>) -> Seq<char> {
    "User doesn't have an account with the name '"@ + name + "'"@
}

/// "User doesn't have any accounts"
pub open spec fn no_accounts_message() -> Seq<char> {
    "User doesn't have any accounts"@
}

/// "Could not find any accounts for user '<user>'"
pub open spec fn user_without_accounts_message(user: Seq<char>) -> Seq<char> {
    "Could not find any accounts for user '"@ + user + "'"@
}

/// "Could not find account '<account>' for user '<user>'"
pub open spec fn user_without_account_message(account: Seq<char>, user: Seq<char>) -> Seq<char> {
    "Could not find account '"@ + account + "' for user '"@ + user + "'"@
}

/// What `remove_balance` or `add_balance` answers, by the user's accounts.
pub open spec fn balance_change_error(u: UserView, name: Seq<char>) -> Option<Seq<char>> {
    match u.accounts {
        None => Some(no_assigned_accounts_message()),
        Some(m) => if m.contains_key(name) {
            None
        } else {
            Some(no_named_account_message(name))
        },
    }
}

/// Why `send_funds` refuses a transfer, if it does: the sender's accounts are
/// looked at first, then the receiver's.
pub open spec fn transfer_error(
    users: Seq<UserView>,
    from_id: nat,
    from_account: Seq<char>,
    to_id: nat,
    to_account: Seq<char>,
) -> Option<Seq<char>> {
    let from = users[from_id as int];
    let to = users[to_id as int];
    if from.accounts is None {
        Some(user_without_accounts_message(from.name))
    } else if !has_account(from, from_account) {
        Some(user_without_account_message(from_account, from.name))
    } else if to.accounts is None {
        Some(user_without_accounts_message(to.name))
    } else if !has_account(to, to_account) {
        Some(user_without_account_message(to_account, to.name))
    } else {
        None
    }
}

/// The users after a transfer of `amount`: the sender's copy with the amount
/// taken off is stored first, then the receiver's copy (taken before the
/// sender's was changed) with the amount added. When both are the same user,
/// the second store wins.
pub open spec fn transferred(
    users: Seq<UserView>,
    from_id: nat,
    from_account: Seq<char>,
    to_id: nat,
    to_account: Seq<char>,
    amount: int,
) -> Seq<UserView> {
    users.update(from_id as int, credited(users[from_id as int], from_account, -amount)).update(
        to_id as int,
        credited(users[to_id as int], to_account, amount),
    )
}

fn clone_accounts(a: &Option<DashMap<String, Account>>) -> (r: Option<DashMap<String, Account>>)
    ensures
        accounts_view(r) == accounts_view(*a),
{
    match a {
        Some(m) => Some(account_clone(m)),
        None => None,
    }
}

fn clone_user(u: &User) -> (r: User)
    ensures
        r@ == u@,
{
    User {
        balance: u.balance,
        name: u.name.clone(),
        perm_count: u.perm_count,
        accounts: clone_accounts(&u.accounts),
    }
}

fn quoted_message(prefix: &str, middle: &str, suffix: &str) -> (s: String)
    ensures
        s@ == prefix@ + middle@ + suffix@,
{
    let mut s = String::new();
    push_text(&mut s, prefix);
    push_text(&mut s, middle);
    push_text(&mut s, suffix);
    assert(s@ =~= prefix@ + middle@ + suffix@);
    s
}

/// The text of `no_user_message`.
pub fn no_user_text(id: u64) -> (s: String)
    ensures
        s@ == no_user_message(id as nat),
{
    let mut s = String::new();
    push_text(&mut s, "Could not find user with ID '");
    push_decimal(&mut s, id);
    push_text(&mut s, "'");
    assert(s@ =~= no_user_message(id as nat));
    s
}

impl User {
    /// Fills in what the bank reports of this user: totals and accounts.
    pub fn populate(&mut self, balance: i32, perm_count: i32, accounts: Option<DashMap<String, Account>>)
        ensures
            final(self)@ == (UserView {
                balance,
                name: old(self)@.name,
                perm_count,
                accounts: accounts_view(accounts),
            }),
    {
        self.balance = balance;
        self.perm_count = perm_count;
        self.accounts = accounts;
    }

    fn remove_balance(&mut self, account_name: String, amount: i32) -> (r: Result<(), String>)
        requires
            can_credit(old(self)@, account_name@, -amount),
        ensures
            match r {
                Ok(_) => balance_change_error(old(self)@, account_name@) is None
                    && final(self)@ == credited(old(self)@, account_name@, -amount),
                Err(e) => balance_change_error(old(self)@, account_name@) == Some(e@)
                    && final(self)@ == old(self)@,
            },
    {
        match &mut self.accounts {
            None => Err(String::from_str("User doesn't have any assigned accounts")),
            Some(accounts) => match account_get(accounts, account_name.as_str()) {
                None => Err(quoted_message(
                    "User doesn't have an account with the name '",
                    account_name.as_str(),
                    "'",
                )),
                Some(account) => {
                    account_insert(
                        accounts,
                        account_name,
                        Account { balance: account.balance - amount, clearance: account.clearance },
                    );
                    Ok(())
                },
            },
        }
    }

    fn add_balance(&mut self, account_name: String, amount: i32) -> (r: Result<(), String>)
        requires
            can_credit(old(self)@, account_name@, amount as int),
        ensures
            match r {
                Ok(_) => balance_change_error(old(self)@, account_name@) is None
                    && final(self)@ == credited(old(self)@, account_name@, amount as int),
                Err(e) => balance_change_error(old(self)@, account_name@) == Some(e@)
                    && final(self)@ == old(self)@,
            },
    {
        match &mut self.accounts {
            None => Err(String::from_str("User doesn't have any assigned accounts")),
            Some(accounts) => match account_get(accounts, account_name.as_str()) {
                None => Err(quoted_message(
                    "User doesn't have an account with the name '",
                    account_name.as_str(),
                    "'",
                )),
                Some(account) => {
                    account_insert(
                        accounts,
                        account_name,
                        Account { balance: account.balance + amount, clearance: account.clearance },
                    );
                    Ok(())
                },
            },
        }
    }

    /// One of the user's account names (the first the account map yields);
    /// an error when the user has no accounts at all.
    pub fn get_default_account(&self) -> (r: Result<String, String>)
        requires
            self@.accounts matches Some(m) ==> exists|k: Seq<char>| m.contains_key(k),
        ensures
            self@.accounts is None <==> r is Err,
            r matches Err(e) ==> e@ == no_accounts_message(),
            r matches Ok(name) ==> self@.accounts->0.contains_key(name@),
    {
        match &self.accounts {
            None => Err(String::from_str("User doesn't have any accounts")),
            Some(accounts) => {
                let names = account_names(accounts);
                proof {
                    let m = account_entries(*accounts);
                    let k = choose|k: Seq<char>| m.contains_key(k);
                    assert(strings_view(names@).contains(k));
                    assert(strings_view(names@)[0] == names@[0]@);
                    assert(m.contains_key(strings_view(names@)[0]));
                }
                Ok(names[0].clone())
            },
        }
    }
}

/// The bank's users, a user's id being its place in the list.
#[derive(Clone)]
pub struct Bank {
    users: Vec<User>,
}

impl View for Bank {
    type V = Seq<UserView>;

    closed spec fn view(&self) -> Seq<UserView> {
        self.users@.map_values(|u: User| u@)
    }
}

impl Bank {
    /// The bank's users as first listed: each name with zero totals and no accounts yet.
    pub fn connect(usernames: Vec<String>) -> (bank: Bank)
        ensures
            bank@.len() == usernames@.len(),
            forall|i: int| 0 <= i < usernames@.len() ==> #[trigger] bank@[i] == (UserView {
                balance: 0,
                name: usernames@[i]@,
                perm_count: 0,
                accounts: None,
            }),
    {
        let mut users: Vec<User> = Vec::new();
        for name in it: usernames.into_iter()
            invariant
                users@.len() == it.index(),
                it.seq() == usernames@,
                forall|i: int| 0 <= i < users@.len() ==> #[trigger] users@[i]@ == (UserView {
                    balance: 0,
                    name: usernames@[i]@,
                    perm_count: 0,
                    accounts: None,
                }),
        {
            users.push(User { balance: 0, name, perm_count: 0, accounts: None });
        }
        let bank = Bank { users };
        assert(bank@.len() == usernames@.len());
        bank
    }

    /// The user with this id, to change in place, if there is one.
    pub fn get_user_mut(&mut self, user_id: usize) -> (r: Option<&mut User>)
        ensures
            r is Some <==> user_id < old(self)@.len(),
            r matches Some(u) ==> (*u)@ == old(self)@[user_id as int]
                && final(self)@ == old(self)@.update(user_id as int, (*final(u))@),
            r is None ==> final(self)@ == old(self)@,
    {
        if user_id < self.users.len() {
            Some(&mut self.users[user_id])
        } else {
            None
        }
    }

    /// A copy of the user with this id.
    pub fn get_user(&mut self, user_id: usize) -> (user: User)
        requires
            user_id < old(self)@.len(),
        ensures
            user@ == old(self)@[user_id as int],
            final(self)@ == old(self)@,
    {
        clone_user(&self.users[user_id])
    }

    /// Replaces the user with this id; an unknown id is an error and changes nothing.
    pub fn update_user(&mut self, user_id: usize, user_updated: User) -> (r: Result<(), String>)
        ensures
            r is Ok <==> user_id < old(self)@.len(),
            r is Ok ==> final(self)@ == old(self)@.update(user_id as int, user_updated@),
            r matches Err(e) ==> e@ == no_user_message(user_id as nat) && final(self)@ == old(self)@,
    {
        if user_id < self.users.len() {
            self.users.set(user_id, user_updated);
            proof {
                assert(self@ =~= old(self)@.update(user_id as int, user_updated@));
            }
            Ok(())
        } else {
            Err(no_user_text(user_id as u64))
        }
    }

    /// The bank's side of moving `amount` from the sender's account to the
    /// receiver's: both must have the named accounts; then the sender's copy
    /// with the amount taken off is stored, and the receiver's copy (taken
    /// before) with the amount added. The request to the bank itself, and
    /// what it answers (see `FundResponse::outcome`), follow an `Ok`.
    pub fn send_funds(
        &mut self,
        from_id: usize,
        from_account: String,
        to_id: usize,
        to_account: String,
        amount: i32,
    ) -> (r: Result<(), String>)
        requires
            from_id < old(self)@.len(),
            has_account(old(self)@[from_id as int], from_account@) ==> to_id < old(self)@.len(),
            transfer_error(old(self)@, from_id as nat, from_account@, to_id as nat, to_account@) is None ==> {
                &&& can_credit(old(self)@[from_id as int], from_account@, -amount)
                &&& can_credit(old(self)@[to_id as int], to_account@, amount as int)
            },
        ensures
            match r {
                Ok(_) => transfer_error(old(self)@, from_id as nat, from_account@, to_id as nat, to_account@) is None
                    && final(self)@ == transferred(
                        old(self)@,
                        from_id as nat,
                        from_account@,
                        to_id as nat,
                        to_account@,
                        amount as int,
                    ),
                Err(e) => transfer_error(old(self)@, from_id as nat, from_account@, to_id as nat, to_account@)
                    == Some(e@) && final(self)@ == old(self)@,
            },
    {
        let mut from_user = self.get_user(from_id);
        match &from_user.accounts {
            None => {
                return Err(quoted_message(
                    "Could not find any accounts for user '",
                    from_user.name.as_str(),
                    "'",
                ));
            },
            Some(accounts) => {
                if account_get(accounts, from_account.as_str()).is_none() {
                    let mut msg = quoted_message("Could not find account '", from_account.as_str(), "' for user '");
                    push_text(&mut msg, from_user.name.as_str());
                    push_text(&mut msg, "'");
                    assert(msg@ =~= user_without_account_message(from_account@, from_user.name@));
                    return Err(msg);
                }
            },
        }
        let mut to_user = self.get_user(to_id);
        match &to_user.accounts {
            None => {
                return Err(quoted_message(
                    "Could not find any accounts for user '",
                    to_user.name.as_str(),
                    "'",
                ));
            },
            Some(accounts) => {
                if account_get(accounts, to_account.as_str()).is_none() {
                    let mut msg = quoted_message("Could not find account '", to_account.as_str(), "' for user '");
                    push_text(&mut msg, to_user.name.as_str());
                    push_text(&mut msg, "'");
                    assert(msg@ =~= user_without_account_message(to_account@, to_user.name@));
                    return Err(msg);
                }
            },
        }
        let _ = from_user.remove_balance(from_account, amount);
        let _ = to_user.add_balance(to_account, amount);
        let _ = self.update_user(from_id, from_user);
        let _ = self.update_user(to_id, to_user);
        Ok(())
    }
}

/// The message for each refusal of a transfer, checked in order (the
/// sender's accounts, then the receiver's), and for the other refusals of
/// the bank's users.
pub proof fn lemma_bank_messages(
    users: Seq<UserView>,
    from_id: nat,
    from_account: Seq<char>,
    to_id: nat,
    to_account: Seq<char>,
    u: UserView,
    name: Seq<char>,
    id: nat,
)
    ensures
        ({
            let e = transfer_error(users, from_id, from_account, to_id, to_account);
            let from = users[from_id as int];
            let to = users[to_id as int];
            &&& from.accounts is None ==> e == Some("Could not find any accounts for user '"@ + from.name + "'"@)
            &&& (from.accounts is Some && !from.accounts->0.contains_key(from_account)) ==> e == Some(
                "Could not find account '"@ + from_account + "' for user '"@ + from.name + "'"@,
            )
            &&& (has_account(from, from_account) && to.accounts is None) ==> e == Some(
                "Could not find any accounts for user '"@ + to.name + "'"@,
            )
            &&& (has_account(from, from_account) && to.accounts is Some && !to.accounts->0.contains_key(
                to_account,
            )) ==> e == Some("Could not find account '"@ + to_account + "' for user '"@ + to.name + "'"@)
            &&& (has_account(from, from_account) && has_account(to, to_account)) ==> e is None
            &&& no_user_message(id) == "Could not find user with ID '"@ + decimal(id) + "'"@
            &&& no_accounts_message() == "User doesn't have any accounts"@
            &&& u.accounts is None ==> balance_change_error(u, name) == Some(
                "User doesn't have any assigned accounts"@,
            )
            &&& (u.accounts is Some && !u.accounts->0.contains_key(name)) ==> balance_change_error(u, name) == Some(
                "User doesn't have an account with the name '"@ + name + "'"@,
            )
            &&& has_account(u, name) ==> balance_change_error(u, name) is None
        }),
{
}

/// A user stored by `update_user` is what `get_user` then reads back under
/// that id; every other user is untouched.
pub proof fn lemma_update_then_read(users: Seq<UserView>, user_id: nat, user: UserView, other: nat)
    requires
        user_id < users.len(),
        other < users.len(),
    ensures
        users.update(user_id as int, user)[user_id as int] == user,
        other != user_id ==> users.update(user_id as int, user)[other as int] == users[other as int],
{
}

/// Between two different users, a transfer takes the amount off the
/// sender's account and puts it on the receiver's, so the two balances keep
/// their sum; no other account and no other user changes.
pub proof fn lemma_transfer_moves_amount(
    users: Seq<UserView>,
    from_id: nat,
    from_account: Seq<char>,
    to_id: nat,
    to_account: Seq<char>,
    amount: i32,
    other_id: nat,
    other_account: Seq<char>,
)
    requires
        from_id < users.len(),
        to_id < users.len(),
        from_id != to_id,
        transfer_error(users, from_id, from_account, to_id, to_account) is None,
        can_credit(users[from_id as int], from_account, -amount),
        can_credit(users[to_id as int], to_account, amount as int),
        other_id < users.len(),
    ensures
        ({
            let after = transferred(users, from_id, from_account, to_id, to_account, amount as int);
            let from_before = users[from_id as int].accounts->0;
            let to_before = users[to_id as int].accounts->0;
            let from_after = after[from_id as int].accounts->0;
            let to_after = after[to_id as int].accounts->0;
            &&& from_after[from_account].balance == from_before[from_account].balance - amount
            &&& to_after[to_account].balance == to_before[to_account].balance + amount
            &&& from_after[from_account].balance + to_after[to_account].balance
                == from_before[from_account].balance + to_before[to_account].balance
            &&& from_after.dom() == from_before.dom()
            &&& to_after.dom() == to_before.dom()
            &&& (other_account != from_account && from_before.contains_key(other_account))
                ==> from_after[other_account] == from_before[other_account]
            &&& (other_account != to_account && to_before.contains_key(other_account))
                ==> to_after[other_account] == to_before[other_account]
            &&& (other_id != from_id && other_id != to_id) ==> after[other_id as int] == users[other_id as int]
        }),
{
    let after = transferred(users, from_id, from_account, to_id, to_account, amount as int);
    assert(after[from_id as int].accounts->0.dom() =~= users[from_id as int].accounts->0.dom());
    assert(after[to_id as int].accounts->0.dom() =~= users[to_id as int].accounts->0.dom());
}

/// Adding an amount to an account and then taking the same amount off again
/// gives back the user as it was.
pub proof fn lemma_credit_then_debit_restores(u: UserView, name: Seq<char>, amount: int)
    requires
        has_account(u, name),
        can_credit(u, name, amount),
    ensures
        credited(credited(u, name, amount), name, -amount) == u,
{
    let m = u.accounts->0;
    let back = credited(credited(u, name, amount), name, -amount);
    assert(back.accounts->0[name] == m[name]);
    assert(back.accounts->0 =~= m);
}

/// The sum of the balances of the accounts in a map (which holds finitely many).
pub open spec fn accounts_total(m: Map<Seq<char>, Account>) -> int
    decreases m.dom().len(),
    when m.dom().finite()
{
    if m.dom().len() == 0 {
        0
    } else {
        let k = m.dom().choose();
        m[k].balance + accounts_total(m.remove(k))
    }
}

/// The sum of the balances of all of a user's accounts.
pub open spec fn user_total(u: UserView) -> int {
    match u.accounts {
        Some(m) => accounts_total(m),
        None => 0,
    }
}

/// The sum of the balances of all accounts of all users.
pub open spec fn bank_total(users: Seq<UserView>) -> int
    decreases users.len(),
{
    if users.len() == 0 {
        0
    } else {
        bank_total(users.drop_last()) + user_total(users.last())
    }
}

proof fn lemma_accounts_total_remove(m: Map<Seq<char>, Account>, k: Seq<char>)
    requires
        m.dom().finite(),
        m.contains_key(k),
    ensures
        accounts_total(m) == m[k].balance + accounts_total(m.remove(k)),
    decreases m.dom().len(),
{
    let c = m.dom().choose();
    if c != k {
        lemma_accounts_total_remove(m.remove(c), k);
        lemma_accounts_total_remove(m.remove(k), c);
        assert(m.remove(c).remove(k) =~= m.remove(k).remove(c));
    }
}

proof fn lemma_accounts_total_insert(m: Map<Seq<char>, Account>, k: Seq<char>, v: Account)
    requires
        m.dom().finite(),
        m.contains_key(k),
    ensures
        accounts_total(m.insert(k, v)) == accounts_total(m) - m[k].balance + v.balance,
{
    lemma_accounts_total_remove(m, k);
    lemma_accounts_total_remove(m.insert(k, v), k);
    assert(m.insert(k, v).remove(k) =~= m.remove(k));
}

proof fn lemma_bank_total_update(users: Seq<UserView>, i: int, u: UserView)
    requires
        0 <= i < users.len(),
    ensures
        bank_total(users.update(i, u)) == bank_total(users) - user_total(users[i]) + user_total(u),
    decreases users.len(),
{
    let after = users.update(i, u);
    if i == users.len() - 1 {
        assert(after.drop_last() =~= users.drop_last());
    } else {
        lemma_bank_total_update(users.drop_last(), i, u);
        assert(after.drop_last() =~= users.drop_last().update(i, u));
    }
}

/// Between two different users, a transfer leaves the sum of all balances of
/// all users' accounts as it was.
pub proof fn lemma_transfer_keeps_bank_total(
    users: Seq<UserView>,
    from_id: nat,
    from_account: Seq<char>,
    to_id: nat,
    to_account: Seq<char>,
    amount: i32,
)
    requires
        from_id < users.len(),
        to_id < users.len(),
        from_id != to_id,
        transfer_error(users, from_id, from_account, to_id, to_account) is None,
        can_credit(users[from_id as int], from_account, -amount),
        can_credit(users[to_id as int], to_account, amount as int),
        users[from_id as int].accounts->0.dom().finite(),
        users[to_id as int].accounts->0.dom().finite(),
    ensures
        bank_total(transferred(users, from_id, from_account, to_id, to_account, amount as int)) == bank_total(users),
{
    let from = users[from_id as int];
    let to = users[to_id as int];
    let from2 = credited(from, from_account, -amount);
    let to2 = credited(to, to_account, amount as int);
    lemma_accounts_total_insert(from.accounts->0, from_account, from2.accounts->0[from_account]);
    lemma_accounts_total_insert(to.accounts->0, to_account, to2.accounts->0[to_account]);
    let mid = users.update(from_id as int, from2);
    lemma_bank_total_update(users, from_id as int, from2);
    lemma_bank_total_update(mid, to_id as int, to2);
    assert(mid[to_id as int] == to);
}

/// What the bank answers a transfer request: a message, and a value that is
/// zero when the bank refused.
pub struct FundResponse {
    pub content: String,
    pub value: i32,
}

impl FundResponse {
    /// A refusal (value zero) is an error carrying the bank's message; any other value is success.
    pub fn outcome(self) -> (r: Result<(), String>)
        ensures
            r is Ok <==> self.value != 0,
            r matches Err(e) ==> e@ == self.content@,
    {
        if self.value == 0 {
            Err(self.content)
        } else {
            Ok(())
        }
    }
}

} // verus!
