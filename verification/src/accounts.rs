//! Financial accounts: the entity, its filters and the query that lists them.
use vstd::prelude::*;

use crate::clock::{is_instant, new_id, now_instant};
use crate::text::text_eq;

verus! {

/// The kind of a financial account.
#[derive(Clone, Copy, Debug, PartialEq, Eq, Structural)]
pub enum AccountType {
    Checking,
    Savings,
    Credit,
    Investment,
    Cash,
}

/// How an account's kind is stored: its snake-case name as a JSON string, quotes
/// included.
pub open spec fn stored_account_type(t: AccountType) -> Seq<char> {
    match t {
        AccountType::Checking => "\"checking\""@,
        AccountType::Savings => "\"savings\""@,
        AccountType::Credit => "\"credit\""@,
        AccountType::Investment => "\"investment\""@,
        AccountType::Cash => "\"cash\""@,
    }
}

impl AccountType {
    /// The stored form of the kind.
    pub fn to_stored(&self) -> (r: &'static str)
        ensures
            r@ == stored_account_type(*self),
    {
        match self {
            AccountType::Checking => "\"checking\"",
            AccountType::Savings => "\"savings\"",
            AccountType::Credit => "\"credit\"",
            AccountType::Investment => "\"investment\"",
            AccountType::Cash => "\"cash\"",
        }
    }

    /// The kind that stored text names; text that names none reads as `Checking`.
    pub fn from_stored(s: &str) -> (t: AccountType)
        ensures
            s@ == stored_account_type(t) || (t == AccountType::Checking && forall|k: AccountType|
                s@ != #[trigger] stored_account_type(k)),
    {
        if text_eq(s, "\"checking\"") {
            AccountType::Checking
        } else if text_eq(s, "\"savings\"") {
            AccountType::Savings
        } else if text_eq(s, "\"credit\"") {
            AccountType::Credit
        } else if text_eq(s, "\"investment\"") {
            AccountType::Investment
        } else if text_eq(s, "\"cash\"") {
            AccountType::Cash
        } else {
            AccountType::Checking
        }
    }
}

/// Different kinds are stored differently, so reading back what was stored gives
/// the same kind.
pub proof fn stored_account_type_reads_back(t: AccountType, k: AccountType)
    ensures
        stored_account_type(t) == stored_account_type(k) ==> t == k,
{
    reveal_strlit("\"checking\"");
    reveal_strlit("\"savings\"");
    reveal_strlit("\"credit\"");
    reveal_strlit("\"investment\"");
    reveal_strlit("\"cash\"");
    if stored_account_type(t) == stored_account_type(k) && t != k {
        let a = stored_account_type(t);
        let b = stored_account_type(k);
        assert(a.len() == b.len());
        assert(a[1] == b[1]);
        assert(a[2] == b[2]);
    }
}

/// A financial account. Balances are in the currency's minor unit.
#[derive(Clone, Debug)]
pub struct Account {
    pub id: u128,
    pub user_id: u128,
    pub name: String,
    pub account_type: AccountType,
    pub balance: i64,
    pub currency: String,
    pub is_active: bool,
    pub created_at: i64,
    pub updated_at: i64,
}

/// `after` is `before` with only its last-update instant changed.
pub open spec fn touched(before: Account, after: Account) -> bool {
    after == (Account { updated_at: after.updated_at, ..before })
}

/// `after` is `before` with `amount` added to the balance.
pub open spec fn balance_moved(before: Account, after: Account, amount: int) -> bool {
    &&& after.balance == before.balance + amount
    &&& touched(Account { balance: before.balance, ..after }, before)
}

/// `after` is `before` with its active flag set to `active`.
pub open spec fn activity_set(before: Account, after: Account, active: bool) -> bool {
    &&& after.is_active == active
    &&& touched(Account { is_active: before.is_active, ..after }, before)
}

/// `after` is `before` renamed to `name`.
pub open spec fn renamed(before: Account, after: Account, name: Seq<char>) -> bool {
    &&& after.name@ == name
    &&& touched(Account { name: before.name, ..after }, before)
}

impl Account {
    /// A new active account with a fresh identifier, created now.
    pub fn new(
        user_id: u128,
        name: String,
        account_type: AccountType,
        initial_balance: i64,
        currency: String,
    ) -> (a: Account)
        ensures
            a.user_id == user_id,
            a.name == name,
            a.account_type == account_type,
            a.balance == initial_balance,
            a.currency == currency,
            a.is_active,
            a.created_at == a.updated_at,
    {
        let now = now_instant();
        Account {
            id: new_id(),
            user_id,
            name,
            account_type,
            balance: initial_balance,
            currency,
            is_active: true,
            created_at: now,
            updated_at: now,
        }
    }

    /// Adds `amount` (which may be negative) to the balance at instant `now`.
    pub fn update_balance_at(&mut self, amount: i64, now: i64)
        requires
            i64::MIN <= old(self).balance + amount <= i64::MAX,
        ensures
            balance_moved(*old(self), *final(self), amount as int),
            final(self).updated_at == now,
    {
        self.balance = self.balance + amount;
        self.updated_at = now;
    }

    /// Adds `amount` (which may be negative) to the balance, now.
    pub fn update_balance(&mut self, amount: i64)
        requires
            i64::MIN <= old(self).balance + amount <= i64::MAX,
        ensures
            balance_moved(*old(self), *final(self), amount as int),
            is_instant(final(self).updated_at as int),
            0 <= final(self).updated_at,
    {
        self.update_balance_at(amount, now_instant());
    }

    /// Marks the account inactive at instant `now`.
    pub fn deactivate_at(&mut self, now: i64)
        ensures
            activity_set(*old(self), *final(self), false),
            final(self).updated_at == now,
    {
        self.is_active = false;
        self.updated_at = now;
    }

    /// Marks the account inactive, now.
    pub fn deactivate(&mut self)
        ensures
            activity_set(*old(self), *final(self), false),
            is_instant(final(self).updated_at as int),
            0 <= final(self).updated_at,
    {
        self.deactivate_at(now_instant());
    }

    /// Marks the account active at instant `now`.
    pub fn activate_at(&mut self, now: i64)
        ensures
            activity_set(*old(self), *final(self), true),
            final(self).updated_at == now,
    {
        self.is_active = true;
        self.updated_at = now;
    }

    /// Marks the account active, now.
    pub fn activate(&mut self)
        ensures
            activity_set(*old(self), *final(self), true),
            is_instant(final(self).updated_at as int),
            0 <= final(self).updated_at,
    {
        self.activate_at(now_instant());
    }

    /// Gives the account a new name at instant `now`.
    pub fn rename_at(&mut self, new_name: String, now: i64)
        ensures
            renamed(*old(self), *final(self), new_name@),
            final(self).name == new_name,
            final(self).updated_at == now,
    {
        self.name = new_name;
        self.updated_at = now;
    }

    /// Gives the account a new name, now.
    pub fn rename(&mut self, new_name: String)
        ensures
            renamed(*old(self), *final(self), new_name@),
            final(self).name == new_name,
            is_instant(final(self).updated_at as int),
            0 <= final(self).updated_at,
    {
        self.rename_at(new_name, now_instant());
    }

    /// A copy of the account.
    pub fn duplicate(&self) -> (r: Account)
        ensures
            r == *self,
    {
        Account {
            id: self.id,
            user_id: self.user_id,
            name: self.name.clone(),
            account_type: self.account_type,
            balance: self.balance,
            currency: self.currency.clone(),
            is_active: self.is_active,
            created_at: self.created_at,
            updated_at: self.updated_at,
        }
    }
}

/// Two balance updates in a row move the balance by the sum of their amounts and
/// change nothing else but the last-update instant.
pub proof fn balance_updates_add_up(a: Account, b: Account, c: Account, x: int, y: int)
    requires
        balance_moved(a, b, x),
        balance_moved(b, c, y),
    ensures
        balance_moved(a, c, x + y),
{
}

/// Deactivating and then activating an account leaves it active and otherwise as it
/// was, but for the last-update instant.
pub proof fn reactivation_restores(a: Account, b: Account, c: Account)
    requires
        activity_set(a, b, false),
        activity_set(b, c, true),
    ensures
        c.is_active,
        touched(Account { is_active: a.is_active, ..c }, a),
{
}

/// Renaming changes neither the balance, the owner, the kind, the currency nor the
/// active flag.
pub proof fn rename_keeps_money(a: Account, b: Account, name: Seq<char>)
    requires
        renamed(a, b, name),
    ensures
        b.balance == a.balance,
        b.user_id == a.user_id,
        b.id == a.id,
        b.account_type == a.account_type,
        b.currency == a.currency,
        b.is_active == a.is_active,
{
}

/// Filters on a listing of accounts; a field left `None` does not filter.
#[derive(Clone, Debug)]
pub struct AccountFilters {
    pub user_id: Option<u128>,
    pub account_type: Option<AccountType>,
    pub currency: Option<String>,
    pub is_active: Option<bool>,
    pub min_balance: Option<i64>,
    pub max_balance: Option<i64>,
    pub name: Option<String>,
}

impl Default for AccountFilters {
    fn default() -> (f: AccountFilters)
        ensures
            f.user_id is None,
            f.account_type is None,
            f.currency is None,
            f.is_active is None,
            f.min_balance is None,
            f.max_balance is None,
            f.name is None,
    {
        AccountFilters {
            user_id: None,
            account_type: None,
            currency: None,
            is_active: None,
            min_balance: None,
            max_balance: None,
            name: None,
        }
    }
}

impl AccountFilters {
    pub open spec fn spec_is_empty(&self) -> bool {
        &&& self.user_id is None
        &&& self.account_type is None
        &&& self.currency is None
        &&& self.is_active is None
        &&& self.min_balance is None
        &&& self.max_balance is None
        &&& self.name is None
    }

    /// Whether no field filters.
    pub fn is_empty(&self) -> (r: bool)
        ensures
            r == self.spec_is_empty(),
    {
        self.user_id.is_none() && self.account_type.is_none() && self.currency.is_none()
            && self.is_active.is_none() && self.min_balance.is_none()
            && self.max_balance.is_none() && self.name.is_none()
    }

    pub open spec fn balance_range_inverted(&self) -> bool {
        self.min_balance matches Some(min) && self.max_balance matches Some(max) && min > max
    }

    /// Rejects a balance range whose lower end lies above its upper end.
    pub fn validate(&self) -> (r: Result<(), String>)
        ensures
            r is Err <==> self.balance_range_inverted(),
            r matches Err(m) ==> m@ == "min_balance must be less than or equal to max_balance"@,
    {
        if let (Some(min), Some(max)) = (self.min_balance, self.max_balance) {
            if min > max {
                return Err(String::from_str("min_balance must be less than or equal to max_balance"));
            }
        }
        Ok(())
    }

    /// A copy of the filters.
    pub fn duplicate(&self) -> (r: AccountFilters)
        ensures
            r == *self,
    {
        AccountFilters {
            user_id: self.user_id,
            account_type: self.account_type,
            currency: match &self.currency {
                Some(c) => Some(c.clone()),
                None => None,
            },
            is_active: self.is_active,
            min_balance: self.min_balance,
            max_balance: self.max_balance,
            name: match &self.name {
                Some(n) => Some(n.clone()),
                None => None,
            },
        }
    }
}

/// `b` lies between `lo` and `hi`, both included.
pub open spec fn between(lo: i64, b: i64, hi: i64) -> bool {
    lo <= b <= hi
}

/// A balance range is refused exactly when both bounds are given and no balance
/// lies within them.
pub proof fn inverted_range_admits_no_balance(f: AccountFilters)
    ensures
        f.balance_range_inverted() <==> (f.min_balance is Some && f.max_balance is Some && forall|
            b: i64,
        | !#[trigger] between(f.min_balance->0, b, f.max_balance->0)),
{
    if f.min_balance is Some && f.max_balance is Some && !f.balance_range_inverted() {
        assert(between(f.min_balance->0, f.min_balance->0, f.max_balance->0));
    }
}

/// One condition that a stored account must meet to be listed.
#[derive(Clone, Debug)]
pub enum AccountCondition {
    UserIdIs(u128),
    AccountTypeIs(AccountType),
    CurrencyIs(String),
    ActiveIs(bool),
    BalanceAtLeast(i64),
    BalanceAtMost(i64),
    NameContains(String),
}

/// The conditions that `f` asks for, in the order of its fields.
pub open spec fn conditions_of(f: AccountFilters) -> Seq<AccountCondition> {
    let s0: Seq<AccountCondition> = Seq::empty();
    let s1 = match f.user_id { Some(u) => s0.push(AccountCondition::UserIdIs(u)), None => s0 };
    let s2 = match f.account_type {
        Some(t) => s1.push(AccountCondition::AccountTypeIs(t)),
        None => s1,
    };
    let s3 = match f.currency { Some(c) => s2.push(AccountCondition::CurrencyIs(c)), None => s2 };
    let s4 = match f.is_active { Some(b) => s3.push(AccountCondition::ActiveIs(b)), None => s3 };
    let s5 = match f.min_balance {
        Some(m) => s4.push(AccountCondition::BalanceAtLeast(m)),
        None => s4,
    };
    let s6 = match f.max_balance {
        Some(m) => s5.push(AccountCondition::BalanceAtMost(m)),
        None => s5,
    };
    match f.name { Some(n) => s6.push(AccountCondition::NameContains(n)), None => s6 }
}

/// The conditions that the filters ask of a stored account.
pub fn account_conditions(filters: &AccountFilters) -> (r: Vec<AccountCondition>)
    ensures
        r@ == conditions_of(*filters),
{
    let mut v: Vec<AccountCondition> = Vec::new();
    if let Some(u) = filters.user_id {
        v.push(AccountCondition::UserIdIs(u));
    }
    if let Some(t) = filters.account_type {
        v.push(AccountCondition::AccountTypeIs(t));
    }
    if let Some(c) = &filters.currency {
        v.push(AccountCondition::CurrencyIs(c.clone()));
    }
    if let Some(b) = filters.is_active {
        v.push(AccountCondition::ActiveIs(b));
    }
    if let Some(m) = filters.min_balance {
        v.push(AccountCondition::BalanceAtLeast(m));
    }
    if let Some(m) = filters.max_balance {
        v.push(AccountCondition::BalanceAtMost(m));
    }
    if let Some(n) = &filters.name {
        v.push(AccountCondition::NameContains(n.clone()));
    }
    v
}

/// Whether `part` occurs in `whole` as a run of consecutive characters.
pub open spec fn has_substring(whole: Seq<char>, part: Seq<char>) -> bool {
    exists|i: int| 0 <= i && i + part.len() <= whole.len() && #[trigger] whole.subrange(i, i + part.len())
        == part
}

impl AccountCondition {
    /// Whether a stored account meets this condition.
    pub open spec fn admits(&self, a: Account) -> bool {
        match self {
            AccountCondition::UserIdIs(u) => a.user_id == *u,
            AccountCondition::AccountTypeIs(t) => a.account_type == *t,
            AccountCondition::CurrencyIs(c) => a.currency@ == c@,
            AccountCondition::ActiveIs(b) => a.is_active == *b,
            AccountCondition::BalanceAtLeast(m) => a.balance >= *m,
            AccountCondition::BalanceAtMost(m) => a.balance <= *m,
            AccountCondition::NameContains(n) => has_substring(a.name@, n@),
        }
    }
}

/// Every condition of `s` admits the account.
pub open spec fn all_admit(s: Seq<AccountCondition>, a: Account) -> bool {
    forall|i: int| 0 <= i < s.len() ==> (#[trigger] s[i]).admits(a)
}

/// A stored account that the filters let through: it belongs to the requested
/// user, has the requested kind and currency, the requested active flag, a balance
/// within the requested bounds, and a name that contains the requested text.
pub open spec fn passes_filters(f: AccountFilters, a: Account) -> bool {
    &&& (f.user_id matches Some(u) ==> a.user_id == u)
    &&& (f.account_type matches Some(t) ==> a.account_type == t)
    &&& (f.currency matches Some(c) ==> a.currency@ == c@)
    &&& (f.is_active matches Some(b) ==> a.is_active == b)
    &&& (f.min_balance matches Some(m) ==> a.balance >= m)
    &&& (f.max_balance matches Some(m) ==> a.balance <= m)
    &&& (f.name matches Some(n) ==> has_substring(a.name@, n@))
}

proof fn push_contains<A>(s: Seq<A>, x: A, y: A)
    ensures
        s.push(x).contains(y) <==> (s.contains(y) || x == y),
{
    if s.contains(y) {
        let i = choose|i: int| 0 <= i < s.len() && s[i] == y;
        assert(s.push(x)[i] == y);
    }
    if x == y {
        assert(s.push(x)[s.len() as int] == y);
    }
    if s.push(x).contains(y) {
        let i = choose|i: int| 0 <= i < s.push(x).len() && s.push(x)[i] == y;
        if i < s.len() {
            assert(s[i] == y);
        }
    }
}

proof fn push_all_admit(s: Seq<AccountCondition>, x: AccountCondition, a: Account)
    ensures
        all_admit(s.push(x), a) <==> (all_admit(s, a) && x.admits(a)),
{
    if all_admit(s.push(x), a) {
        assert(s.push(x)[s.len() as int] == x);
        assert forall|i: int| 0 <= i < s.len() implies (#[trigger] s[i]).admits(a) by {
            assert(s.push(x)[i] == s[i]);
        }
    }
    if all_admit(s, a) && x.admits(a) {
        assert forall|i: int| 0 <= i < s.push(x).len() implies (#[trigger] s.push(x)[i]).admits(a) by {
            if i < s.len() {
                assert(s.push(x)[i] == s[i]);
            }
        }
    }
}

/// The conditions of a listing are exactly the filters asked for: a field set to a
/// value yields the condition on that value and nothing else yields it. In
/// particular a maximum balance `m` yields "balance at most `m`", a minimum
/// "balance at least `m`", and an active flag `b` "active is `b`".
pub proof fn conditions_are_the_requested_filters(f: AccountFilters, c: AccountCondition)
    ensures
        conditions_of(f).contains(c) <==> match c {
            AccountCondition::UserIdIs(u) => f.user_id == Some(u),
            AccountCondition::AccountTypeIs(t) => f.account_type == Some(t),
            AccountCondition::CurrencyIs(x) => f.currency == Some(x),
            AccountCondition::ActiveIs(b) => f.is_active == Some(b),
            AccountCondition::BalanceAtLeast(m) => f.min_balance == Some(m),
            AccountCondition::BalanceAtMost(m) => f.max_balance == Some(m),
            AccountCondition::NameContains(n) => f.name == Some(n),
        },
{
    let s0: Seq<AccountCondition> = Seq::empty();
    let s1 = match f.user_id { Some(u) => s0.push(AccountCondition::UserIdIs(u)), None => s0 };
    let s2 = match f.account_type {
        Some(t) => s1.push(AccountCondition::AccountTypeIs(t)),
        None => s1,
    };
    let s3 = match f.currency { Some(x) => s2.push(AccountCondition::CurrencyIs(x)), None => s2 };
    let s4 = match f.is_active { Some(b) => s3.push(AccountCondition::ActiveIs(b)), None => s3 };
    let s5 = match f.min_balance {
        Some(m) => s4.push(AccountCondition::BalanceAtLeast(m)),
        None => s4,
    };
    let s6 = match f.max_balance {
        Some(m) => s5.push(AccountCondition::BalanceAtMost(m)),
        None => s5,
    };
    let s7 = match f.name { Some(n) => s6.push(AccountCondition::NameContains(n)), None => s6 };
    assert(s7 == conditions_of(f));
    assert(!s0.contains(c));
    if let Some(u) = f.user_id { push_contains(s0, AccountCondition::UserIdIs(u), c); }
    if let Some(t) = f.account_type { push_contains(s1, AccountCondition::AccountTypeIs(t), c); }
    if let Some(x) = f.currency { push_contains(s2, AccountCondition::CurrencyIs(x), c); }
    if let Some(b) = f.is_active { push_contains(s3, AccountCondition::ActiveIs(b), c); }
    if let Some(m) = f.min_balance { push_contains(s4, AccountCondition::BalanceAtLeast(m), c); }
    if let Some(m) = f.max_balance { push_contains(s5, AccountCondition::BalanceAtMost(m), c); }
    if let Some(n) = f.name { push_contains(s6, AccountCondition::NameContains(n), c); }
}

/// An account meets every condition of a listing exactly when the filters let it
/// through: the listing holds the accounts that the filters ask for, no more and no
/// fewer.
pub proof fn conditions_admit_what_the_filters_ask(f: AccountFilters, a: Account)
    ensures
        all_admit(conditions_of(f), a) <==> passes_filters(f, a),
{
    let s0: Seq<AccountCondition> = Seq::empty();
    let s1 = match f.user_id { Some(u) => s0.push(AccountCondition::UserIdIs(u)), None => s0 };
    let s2 = match f.account_type {
        Some(t) => s1.push(AccountCondition::AccountTypeIs(t)),
        None => s1,
    };
    let s3 = match f.currency { Some(x) => s2.push(AccountCondition::CurrencyIs(x)), None => s2 };
    let s4 = match f.is_active { Some(b) => s3.push(AccountCondition::ActiveIs(b)), None => s3 };
    let s5 = match f.min_balance {
        Some(m) => s4.push(AccountCondition::BalanceAtLeast(m)),
        None => s4,
    };
    let s6 = match f.max_balance {
        Some(m) => s5.push(AccountCondition::BalanceAtMost(m)),
        None => s5,
    };
    let s7 = match f.name { Some(n) => s6.push(AccountCondition::NameContains(n)), None => s6 };
    assert(s7 == conditions_of(f));
    assert(all_admit(s0, a));
    if let Some(u) = f.user_id { push_all_admit(s0, AccountCondition::UserIdIs(u), a); }
    if let Some(t) = f.account_type { push_all_admit(s1, AccountCondition::AccountTypeIs(t), a); }
    if let Some(x) = f.currency { push_all_admit(s2, AccountCondition::CurrencyIs(x), a); }
    if let Some(b) = f.is_active { push_all_admit(s3, AccountCondition::ActiveIs(b), a); }
    if let Some(m) = f.min_balance { push_all_admit(s4, AccountCondition::BalanceAtLeast(m), a); }
    if let Some(m) = f.max_balance { push_all_admit(s5, AccountCondition::BalanceAtMost(m), a); }
    if let Some(n) = f.name { push_all_admit(s6, AccountCondition::NameContains(n), a); }
}

} // verus!

verus! {

/// The sort keys that a listing request may name.
pub const ALLOWED_SORT_FIELDS: [&'static str; 6] = [
    "name",
    "account_type",
    "balance",
    "currency",
    "created_at",
    "updated_at",
];

/// The column by which a listing of accounts is ordered.
#[derive(Clone, Copy, Debug, PartialEq, Eq, Structural)]
pub enum AccountSortColumn {
    Name,
    Balance,
    CreatedAt,
    UpdatedAt,
}

/// A listing of stored accounts: which ones, in which order, and which page.
#[derive(Clone, Debug)]
pub struct AccountListing {
    pub conditions: Vec<AccountCondition>,
    pub sort_column: AccountSortColumn,
    pub ascending: bool,
    pub page_size: u64,
    pub page_index: u64,
}

/// The column that the requested sort key selects; an unknown or absent key
/// orders by creation.
pub open spec fn sort_column_for(sort_by: Option<Seq<char>>) -> AccountSortColumn {
    match sort_by {
        Some(k) => if k == "name"@ {
            AccountSortColumn::Name
        } else if k == "balance"@ {
            AccountSortColumn::Balance
        } else if k == "updated_at"@ {
            AccountSortColumn::UpdatedAt
        } else {
            AccountSortColumn::CreatedAt
        },
        None => AccountSortColumn::CreatedAt,
    }
}

/// Each sort key orders by its own column: "name" by name, "balance" by balance,
/// "updated_at" by the last update, and no key, "created_at" or any other key by
/// creation.
pub proof fn sort_key_picks_its_column(k: Option<Seq<char>>)
    ensures
        sort_column_for(k) == AccountSortColumn::Name <==> k == Some("name"@),
        sort_column_for(k) == AccountSortColumn::Balance <==> k == Some("balance"@),
        sort_column_for(k) == AccountSortColumn::UpdatedAt <==> k == Some("updated_at"@),
        sort_column_for(k) == AccountSortColumn::CreatedAt <==> !(k == Some("name"@) || k == Some(
            "balance"@,
        ) || k == Some("updated_at"@)),
        sort_column_for(Some("created_at"@)) == AccountSortColumn::CreatedAt,
        sort_column_for(None) == AccountSortColumn::CreatedAt,
{
    reveal_strlit("name");
    reveal_strlit("balance");
    reveal_strlit("updated_at");
    reveal_strlit("created_at");
    assert("name"@[0] == 'n' && "balance"@[0] == 'b' && "updated_at"@[0] == 'u');
    assert("created_at"@[0] == 'c');
    assert("name"@ != "balance"@);
    assert("name"@ != "updated_at"@);
    assert("balance"@ != "updated_at"@);
    assert("created_at"@ != "name"@);
    assert("created_at"@ != "balance"@);
    assert("created_at"@ != "updated_at"@);
}

pub open spec fn page_size_for(limit: i64) -> u64 {
    limit as u64
}

/// The page that holds the `offset`-th account when pages hold `limit` accounts
/// (a page size below one counts as one).
pub open spec fn page_index_for(limit: i64, offset: i64) -> u64 {
    let size: int = if limit < 1 { 1 } else { limit as int };
    let q: int = if offset >= 0 { (offset as int) / size } else { -((-(offset as int)) / size) };
    q as i64 as u64
}

/// A page holds as many accounts as the limit asks for, whenever that is not
/// negative.
pub proof fn page_size_is_the_limit(limit: i64)
    requires
        limit >= 0,
    ensures
        page_size_for(limit) == limit,
{
}

/// Plans a listing of accounts: the filters' conditions, the sort column and
/// direction (ascending only when `sort_order` reads "asc" in any case), and the page.
pub fn plan_account_listing(
    filters: &AccountFilters,
    sort_by: Option<&str>,
    sort_order: &str,
    limit: i64,
    offset: i64,
) -> (r: AccountListing)
    ensures
        r.conditions@ == conditions_of(*filters),
        r.sort_column == sort_column_for(
            match sort_by {
                Some(k) => Some(k@),
                None => None,
            },
        ),
        r.ascending == (crate::text::lowercased(sort_order@) == "asc"@),
        r.page_size == page_size_for(limit),
        r.page_index == page_index_for(limit, offset),
{
    let conditions = account_conditions(filters);
    let lowered = crate::text::lowercase(sort_order);
    let ascending = text_eq(lowered.as_str(), "asc");
    let sort_column = match sort_by {
        Some(k) => if text_eq(k, "name") {
            AccountSortColumn::Name
        } else if text_eq(k, "balance") {
            AccountSortColumn::Balance
        } else if text_eq(k, "updated_at") {
            AccountSortColumn::UpdatedAt
        } else {
            AccountSortColumn::CreatedAt
        },
        None => AccountSortColumn::CreatedAt,
    };
    let size: i64 = if limit < 1 { 1 } else { limit };
    let q: i64 = if offset >= 0 { offset / size } else { -((-(offset as i128)) / (size as i128)) as i64 };
    AccountListing {
        conditions,
        sort_column,
        ascending,
        page_size: limit as u64,
        page_index: q as u64,
    }
}

/// With a positive page size and a non-negative offset, the planned page is the one
/// that holds the account at that offset.
pub proof fn page_holds_its_offset(limit: i64, offset: i64)
    requires
        limit >= 1,
        offset >= 0,
    ensures
        page_index_for(limit, offset) * (limit as int) <= offset,
        offset < (page_index_for(limit, offset) + 1) * (limit as int),
{
    let q: int = (offset as int) / (limit as int);
    assert(0 <= q <= offset && q * limit <= offset < (q + 1) * limit) by (nonlinear_arith)
        requires
            limit >= 1,
            offset >= 0,
            q == (offset as int) / (limit as int),
    ;
    assert(page_index_for(limit, offset) == q);
}

/// Paging parameters of a listing request.
#[derive(Clone, Copy, Debug)]
pub struct PaginationQuery {
    pub page: u32,
    pub per_page: u32,
}

impl PaginationQuery {
    /// How many items a page holds.
    pub fn limit(&self) -> (r: u32)
        ensures
            r == self.per_page,
    {
        self.per_page
    }

    /// How many items come before the requested page, counting pages from one (a
    /// page of zero counts as the first); it saturates at the largest `u32`.
    pub fn offset(&self) -> (r: u32)
        ensures
            r == (if self.page == 0 {
                0
            } else {
                let full = (self.page - 1) * self.per_page;
                if full > u32::MAX {
                    u32::MAX as int
                } else {
                    full
                }
            }),
    {
        let before: u32 = if self.page == 0 { 0 } else { self.page - 1 };
        let b: u64 = before as u64;
        let p: u64 = self.per_page as u64;
        assert(b * p <= u64::MAX) by (nonlinear_arith)
            requires
                b <= u32::MAX,
                p <= u32::MAX,
        ;
        let full: u64 = b * p;
        if full > u32::MAX as u64 {
            u32::MAX
        } else {
            full as u32
        }
    }
}

/// The page requested when none is given.
pub fn default_page() -> (p: u32)
    ensures
        p == 1,
{
    1
}

/// The page size requested when none is given.
pub fn default_per_page() -> (p: u32)
    ensures
        p == 20,
{
    20
}

} // verus!
