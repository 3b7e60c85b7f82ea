//! Use cases on accounts, as state machines over the storage operations.
use vstd::prelude::*;

use crate::accounts::{activity_set, renamed, Account, AccountFilters, AccountType};
use crate::error::AppError;
use crate::flow::{ends_out_of_turn, out_of_turn, Op, Outcome, Progress};

verus! {

pub open spec fn not_found(p: Progress<Account>, msg: Seq<char>) -> bool {
    p matches Progress::Finish(Err(AppError::NotFound(m))) && m@ == msg
}

/// Creates an account for a user.
#[derive(Debug)]
pub enum CreateAccount {
    Ready,
    Saving,
    Done,
}

impl CreateAccount {
    pub fn new() -> (s: Self)
        ensures
            s is Ready,
    {
        CreateAccount::Ready
    }

    /// Starts: a new active account is stored.
    pub fn execute(
        self,
        user_id: u128,
        name: String,
        account_type: AccountType,
        initial_balance: i64,
        currency: String,
    ) -> (r: (Self, Progress<Account>))
        ensures
            r.0 is Saving,
            r.1 matches Progress::Run(Op::CreateAccount(a)) && {
                &&& a.user_id == user_id
                &&& a.name == name
                &&& a.account_type == account_type
                &&& a.balance == initial_balance
                &&& a.currency == currency
                &&& a.is_active
                &&& a.created_at == a.updated_at
            },
    {
        let account = Account::new(user_id, name, account_type, initial_balance, currency);
        (CreateAccount::Saving, Progress::Run(Op::CreateAccount(account)))
    }

    /// The stored account is the result.
    pub fn resume(self, outcome: Outcome) -> (r: (Self, Progress<Account>))
        ensures
            r.0 is Done,
            match (self, outcome) {
                (CreateAccount::Saving, Outcome::AccountSaved(res)) => r.1 == Progress::Finish(res),
                _ => ends_out_of_turn(r.1),
            },
    {
        match (self, outcome) {
            (CreateAccount::Saving, Outcome::AccountSaved(res)) => (
                CreateAccount::Done,
                Progress::Finish(res),
            ),
            _ => (CreateAccount::Done, out_of_turn()),
        }
    }
}

/// Reads one account.
#[derive(Debug)]
pub enum GetAccount {
    Ready,
    Finding,
    Done,
}

impl GetAccount {
    pub fn new() -> (s: Self)
        ensures
            s is Ready,
    {
        GetAccount::Ready
    }

    /// Starts: the account is looked up.
    pub fn execute(self, id: u128) -> (r: (Self, Progress<Account>))
        ensures
            r.0 is Finding,
            r.1 == Progress::<Account>::Run(Op::FindAccount(id)),
    {
        (GetAccount::Finding, Progress::Run(Op::FindAccount(id)))
    }

    /// The account found is the result; none found is `NotFound`.
    pub fn resume(self, outcome: Outcome) -> (r: (Self, Progress<Account>))
        ensures
            r.0 is Done,
            match (self, outcome) {
                (GetAccount::Finding, Outcome::AccountFound(Ok(Some(a)))) => r.1
                    == Progress::Finish(Ok::<Account, AppError>(a)),
                (GetAccount::Finding, Outcome::AccountFound(Ok(None))) => not_found(
                    r.1,
                    "Account not found"@,
                ),
                (GetAccount::Finding, Outcome::AccountFound(Err(e))) => r.1 == Progress::Finish(
                    Err::<Account, AppError>(e),
                ),
                _ => ends_out_of_turn(r.1),
            },
    {
        match (self, outcome) {
            (GetAccount::Finding, Outcome::AccountFound(found)) => {
                let p = match found {
                    Ok(Some(a)) => Progress::Finish(Ok(a)),
                    Ok(None) => Progress::Finish(
                        Err(AppError::NotFound(String::from_str("Account not found"))),
                    ),
                    Err(e) => Progress::Finish(Err(e)),
                };
                (GetAccount::Done, p)
            },
            _ => (GetAccount::Done, out_of_turn()),
        }
    }
}

/// Lists a page of accounts together with the number of all matching accounts.
#[derive(Debug)]
pub enum ListAccounts {
    Ready,
    Counting {
        filters: AccountFilters,
        sort_by: Option<String>,
        sort_order: String,
        limit: u32,
        offset: u32,
    },
    Listing { total: i64 },
    Done,
}

impl ListAccounts {
    pub fn new() -> (s: Self)
        ensures
            s is Ready,
    {
        ListAccounts::Ready
    }

    /// Starts: the matching accounts are counted first.
    pub fn execute(
        self,
        filters: &AccountFilters,
        sort_by: Option<&str>,
        sort_order: &str,
        limit: u32,
        offset: u32,
    ) -> (r: (Self, Progress<(Vec<Account>, i64)>))
        ensures
            r.1 == Progress::<(Vec<Account>, i64)>::Run(Op::CountAccounts(*filters)),
            r.0 matches ListAccounts::Counting { filters: f, sort_by: s, sort_order: o, limit: l, offset: k } && {
                &&& f == *filters
                &&& match sort_by {
                    Some(x) => s matches Some(y) && y@ == x@,
                    None => s is None,
                }
                &&& o@ == sort_order@
                &&& l == limit
                &&& k == offset
            },
    {
        let sort_by_owned = match sort_by {
            Some(x) => Some(String::from_str(x)),
            None => None,
        };
        (
            ListAccounts::Counting {
                filters: filters.duplicate(),
                sort_by: sort_by_owned,
                sort_order: String::from_str(sort_order),
                limit,
                offset,
            },
            Progress::Run(Op::CountAccounts(filters.duplicate())),
        )
    }

    /// With the count known the page is fetched; the result pairs the page with the
    /// count. Any failure ends the listing with that error.
    pub fn resume(self, outcome: Outcome) -> (r: (Self, Progress<(Vec<Account>, i64)>))
        ensures
            match (self, outcome) {
                (
                    ListAccounts::Counting { filters, sort_by, sort_order, limit, offset },
                    Outcome::Counted(Ok(total)),
                ) => r.0 == (ListAccounts::Listing { total }) && r.1 == Progress::<
                    (Vec<Account>, i64),
                >::Run(Op::ListAccounts(filters, sort_by, sort_order, limit as i64, offset as i64)),
                (ListAccounts::Counting { .. }, Outcome::Counted(Err(e))) => r.0 is Done && r.1
                    == Progress::Finish(Err::<(Vec<Account>, i64), AppError>(e)),
                (ListAccounts::Listing { total }, Outcome::AccountsListed(Ok(v))) => r.0 is Done
                    && r.1 == Progress::Finish(Ok::<(Vec<Account>, i64), AppError>((v, total))),
                (ListAccounts::Listing { .. }, Outcome::AccountsListed(Err(e))) => r.0 is Done
                    && r.1 == Progress::Finish(Err::<(Vec<Account>, i64), AppError>(e)),
                _ => r.0 is Done && ends_out_of_turn(r.1),
            },
    {
        match (self, outcome) {
            (
                ListAccounts::Counting { filters, sort_by, sort_order, limit, offset },
                Outcome::Counted(counted),
            ) => match counted {
                Ok(total) => (
                    ListAccounts::Listing { total },
                    Progress::Run(
                        Op::ListAccounts(filters, sort_by, sort_order, limit as i64, offset as i64),
                    ),
                ),
                Err(e) => (ListAccounts::Done, Progress::Finish(Err(e))),
            },
            (ListAccounts::Listing { total }, Outcome::AccountsListed(listed)) => match listed {
                Ok(v) => (ListAccounts::Done, Progress::Finish(Ok((v, total)))),
                Err(e) => (ListAccounts::Done, Progress::Finish(Err(e))),
            },
            _ => (ListAccounts::Done, out_of_turn()),
        }
    }
}

/// Deactivates an account without deleting it.
#[derive(Debug)]
pub enum DeactivateAccount {
    Ready,
    Finding,
    Saving,
    Done,
}

impl DeactivateAccount {
    pub fn new() -> (s: Self)
        ensures
            s is Ready,
    {
        DeactivateAccount::Ready
    }

    /// Starts: the account is looked up.
    pub fn execute(self, id: u128) -> (r: (Self, Progress<Account>))
        ensures
            r.0 is Finding,
            r.1 == Progress::<Account>::Run(Op::FindAccount(id)),
    {
        (DeactivateAccount::Finding, Progress::Run(Op::FindAccount(id)))
    }

    /// A found account is stored inactive and the stored account is the result;
    /// none found is `NotFound`.
    pub fn resume(self, outcome: Outcome) -> (r: (Self, Progress<Account>))
        ensures
            match (self, outcome) {
                (DeactivateAccount::Finding, Outcome::AccountFound(Ok(Some(a)))) => r.0 is Saving
                    && (r.1 matches Progress::Run(Op::UpdateAccount(b)) && activity_set(a, b, false)),
                (DeactivateAccount::Finding, Outcome::AccountFound(Ok(None))) => r.0 is Done
                    && not_found(r.1, "Account not found"@),
                (DeactivateAccount::Finding, Outcome::AccountFound(Err(e))) => r.0 is Done && r.1
                    == Progress::Finish(Err::<Account, AppError>(e)),
                (DeactivateAccount::Saving, Outcome::AccountSaved(res)) => r.0 is Done && r.1
                    == Progress::Finish(res),
                _ => r.0 is Done && ends_out_of_turn(r.1),
            },
    {
        match (self, outcome) {
            (DeactivateAccount::Finding, Outcome::AccountFound(found)) => match found {
                Ok(Some(a)) => {
                    let mut account = a;
                    account.deactivate();
                    (DeactivateAccount::Saving, Progress::Run(Op::UpdateAccount(account)))
                },
                Ok(None) => (
                    DeactivateAccount::Done,
                    Progress::Finish(Err(AppError::NotFound(String::from_str("Account not found")))),
                ),
                Err(e) => (DeactivateAccount::Done, Progress::Finish(Err(e))),
            },
            (DeactivateAccount::Saving, Outcome::AccountSaved(res)) => (
                DeactivateAccount::Done,
                Progress::Finish(res),
            ),
            _ => (DeactivateAccount::Done, out_of_turn()),
        }
    }
}

/// Deletes an account for good.
#[derive(Debug)]
pub enum DeleteAccount {
    Ready,
    Finding { id: u128 },
    Deleting,
    Done,
}

impl DeleteAccount {
    pub fn new() -> (s: Self)
        ensures
            s is Ready,
    {
        DeleteAccount::Ready
    }

    /// Starts: the account is looked up.
    pub fn execute(self, id: u128) -> (r: (Self, Progress<()>))
        ensures
            r.0 == (DeleteAccount::Finding { id }),
            r.1 == Progress::<()>::Run(Op::FindAccount(id)),
    {
        (DeleteAccount::Finding { id }, Progress::Run(Op::FindAccount(id)))
    }

    /// A found account is deleted; none found is `NotFound`.
    pub fn resume(self, outcome: Outcome) -> (r: (Self, Progress<()>))
        ensures
            match (self, outcome) {
                (DeleteAccount::Finding { id }, Outcome::AccountFound(Ok(Some(_)))) => r.0 is Deleting
                    && r.1 == Progress::<()>::Run(Op::DeleteAccount(id)),
                (DeleteAccount::Finding { .. }, Outcome::AccountFound(Ok(None))) => r.0 is Done
                    && (r.1 matches Progress::Finish(Err(AppError::NotFound(m))) && m@
                    == "Account not found"@),
                (DeleteAccount::Finding { .. }, Outcome::AccountFound(Err(e))) => r.0 is Done && r.1
                    == Progress::Finish(Err::<(), AppError>(e)),
                (DeleteAccount::Deleting, Outcome::Completed(res)) => r.0 is Done && r.1
                    == Progress::Finish(res),
                _ => r.0 is Done && ends_out_of_turn(r.1),
            },
    {
        match (self, outcome) {
            (DeleteAccount::Finding { id }, Outcome::AccountFound(found)) => match found {
                Ok(Some(_)) => (DeleteAccount::Deleting, Progress::Run(Op::DeleteAccount(id))),
                Ok(None) => (
                    DeleteAccount::Done,
                    Progress::Finish(Err(AppError::NotFound(String::from_str("Account not found")))),
                ),
                Err(e) => (DeleteAccount::Done, Progress::Finish(Err(e))),
            },
            (DeleteAccount::Deleting, Outcome::Completed(res)) => (
                DeleteAccount::Done,
                Progress::Finish(res),
            ),
            _ => (DeleteAccount::Done, out_of_turn()),
        }
    }
}

/// Renames an account.
#[derive(Debug)]
pub enum UpdateAccount {
    Ready,
    Finding { name: Option<String> },
    Saving,
    Done,
}

impl UpdateAccount {
    pub fn new() -> (s: Self)
        ensures
            s is Ready,
    {
        UpdateAccount::Ready
    }

    /// Starts: the account is looked up.
    pub fn execute(self, id: u128, name: Option<String>) -> (r: (Self, Progress<Account>))
        ensures
            r.0 == (UpdateAccount::Finding { name }),
            r.1 == Progress::<Account>::Run(Op::FindAccount(id)),
    {
        (UpdateAccount::Finding { name }, Progress::Run(Op::FindAccount(id)))
    }

    /// A found account is stored under the new name, or unchanged when no name is
    /// given, and the stored account is the result; none found is `NotFound`.
    pub fn resume(self, outcome: Outcome) -> (r: (Self, Progress<Account>))
        ensures
            match (self, outcome) {
                (UpdateAccount::Finding { name }, Outcome::AccountFound(Ok(Some(a)))) => r.0 is Saving
                    && (r.1 matches Progress::Run(Op::UpdateAccount(b)) && match name {
                    Some(n) => renamed(a, b, n@) && b.name == n,
                    None => b == a,
                }),
                (UpdateAccount::Finding { .. }, Outcome::AccountFound(Ok(None))) => r.0 is Done
                    && not_found(r.1, "Account not found"@),
                (UpdateAccount::Finding { .. }, Outcome::AccountFound(Err(e))) => r.0 is Done && r.1
                    == Progress::Finish(Err::<Account, AppError>(e)),
                (UpdateAccount::Saving, Outcome::AccountSaved(res)) => r.0 is Done && r.1
                    == Progress::Finish(res),
                _ => r.0 is Done && ends_out_of_turn(r.1),
            },
    {
        match (self, outcome) {
            (UpdateAccount::Finding { name }, Outcome::AccountFound(found)) => match found {
                Ok(Some(a)) => {
                    let mut account = a;
                    if let Some(new_name) = name {
                        account.rename(new_name);
                    }
                    (UpdateAccount::Saving, Progress::Run(Op::UpdateAccount(account)))
                },
                Ok(None) => (
                    UpdateAccount::Done,
                    Progress::Finish(Err(AppError::NotFound(String::from_str("Account not found")))),
                ),
                Err(e) => (UpdateAccount::Done, Progress::Finish(Err(e))),
            },
            (UpdateAccount::Saving, Outcome::AccountSaved(res)) => (
                UpdateAccount::Done,
                Progress::Finish(res),
            ),
            _ => (UpdateAccount::Done, out_of_turn()),
        }
    }
}

} // verus!
