//! The outside operations that use cases ask a driver to perform, and the outcomes
//! the driver reports back. A use case is a state machine: each step takes the
//! outcome of the last operation and either asks for the next one or finishes.
use vstd::prelude::*;

use crate::accounts::{Account, AccountFilters};
use crate::error::AppError;
use crate::mail::Email;
use crate::tokens::{EmailVerification, PasswordResetToken, RefreshToken};
use crate::users::User;

verus! {

/// An operation outside the library: storage, password hashing, code generation,
/// mail and the Google profile exchange.
#[derive(Debug)]
pub enum Op {
    FindUserByEmail(String),
    FindUserById(u128),
    CreateUser(User),
    UpdateUser(User),
    DeleteUser(u128),
    /// Hash a password for storage.
    HashPassword(String),
    /// Check a password against a stored hash.
    VerifyPassword(String, String),
    /// Produce a one-time email verification code.
    GenerateOtp,
    StoreRefreshToken(RefreshToken),
    FindRefreshToken(String),
    DeleteRefreshToken(u128),
    DeleteRefreshTokensOfUser(u128),
    DeleteRefreshTokenByValue(String),
    StoreEmailVerification(EmailVerification),
    FindEmailVerification(u128),
    DeleteEmailVerification(u128),
    StoreResetToken(PasswordResetToken),
    FindResetToken(String),
    UpdateResetToken(PasswordResetToken),
    DeleteResetTokensOfUser(u128),
    SendEmail(Email),
    /// Exchange a Google authorization code for the account's email, name and id.
    FetchGoogleUserInfo(String),
    FindAccount(u128),
    CreateAccount(Account),
    UpdateAccount(Account),
    DeleteAccount(u128),
    CountAccounts(AccountFilters),
    /// Fetch a page of accounts: filters, sort key, sort order, limit and offset.
    ListAccounts(AccountFilters, Option<String>, String, i64, i64),
}

/// What an operation came to.
#[derive(Debug)]
pub enum Outcome {
    UserFound(Result<Option<User>, AppError>),
    UserSaved(Result<User, AppError>),
    Completed(Result<(), AppError>),
    Text(Result<String, AppError>),
    Verdict(Result<bool, AppError>),
    RefreshTokenFound(Result<Option<RefreshToken>, AppError>),
    VerificationFound(Result<Option<EmailVerification>, AppError>),
    ResetTokenFound(Result<Option<PasswordResetToken>, AppError>),
    GoogleUser(Result<(String, String, String), AppError>),
    AccountFound(Result<Option<Account>, AppError>),
    AccountSaved(Result<Account, AppError>),
    AccountsListed(Result<Vec<Account>, AppError>),
    Counted(Result<i64, AppError>),
}

/// Where a use case stands after a step.
#[derive(Debug)]
pub enum Progress<T> {
    /// Perform this operation and report its outcome.
    Run(Op),
    /// The use case is over, with this result.
    Finish(Result<T, AppError>),
}

pub open spec fn is_out_of_turn(e: AppError) -> bool {
    e matches AppError::InternalError(m) && m@ == "operation answered out of turn"@
}

/// The use case has ended with the out-of-turn error.
pub open spec fn ends_out_of_turn<T>(p: Progress<T>) -> bool {
    p matches Progress::Finish(Err(e)) && is_out_of_turn(e)
}

/// The use case has ended with a failure that carries this message.
pub open spec fn ends_in_failure<T>(p: Progress<T>, msg: Seq<char>) -> bool {
    p matches Progress::Finish(Err(AppError::Failure(m))) && m@ == msg
}

/// The use case has ended with an internal error that carries this message.
pub open spec fn ends_in_internal_error<T>(p: Progress<T>, msg: Seq<char>) -> bool {
    p matches Progress::Finish(Err(AppError::InternalError(m))) && m@ == msg
}

/// The use case has ended refusing access, with this message.
pub open spec fn ends_unauthorized<T>(p: Progress<T>, msg: Seq<char>) -> bool {
    p matches Progress::Finish(Err(AppError::Unauthorized(m))) && m@ == msg
}

/// The use case has ended rejecting its input, with this message.
pub open spec fn ends_in_bad_request<T>(p: Progress<T>, msg: Seq<char>) -> bool {
    p matches Progress::Finish(Err(AppError::BadRequest(m))) && m@ == msg
}

/// The use case has ended without finding what it needed, with this message.
pub open spec fn ends_not_found<T>(p: Progress<T>, msg: Seq<char>) -> bool {
    p matches Progress::Finish(Err(AppError::NotFound(m))) && m@ == msg
}

/// The use case has ended on a conflict with stored data, with this message.
pub open spec fn ends_in_conflict<T>(p: Progress<T>, msg: Seq<char>) -> bool {
    p matches Progress::Finish(Err(AppError::Conflict(m))) && m@ == msg
}

/// The use case has ended with this error.
pub open spec fn ends_with<T>(p: Progress<T>, e: AppError) -> bool {
    p matches Progress::Finish(Err(x)) && x == e
}

/// Ends a use case with a failure carrying `msg`.
pub fn failure<T>(msg: &str) -> (p: Progress<T>)
    ensures
        ends_in_failure(p, msg@),
{
    Progress::Finish(Err(AppError::Failure(String::from_str(msg))))
}

/// The error with which a use case ends when it is resumed with an outcome that
/// does not answer the operation it asked for, or after it has finished.
pub fn out_of_turn<T>() -> (p: Progress<T>)
    ensures
        p matches Progress::Finish(Err(e)) && is_out_of_turn(e),
{
    Progress::Finish(Err(AppError::InternalError(String::from_str("operation answered out of turn"))))
}

} // verus!
