//! Changing a password, and resetting a forgotten one through a mailed link.
use vstd::prelude::*;

use crate::clock::{instant_after, is_instant, random_byte};
use crate::error::{internal_error, AppError};
use crate::flow::{
    ends_in_bad_request, ends_in_failure, ends_in_internal_error, ends_not_found, ends_out_of_turn,
    ends_with, failure, out_of_turn, Op, Outcome, Progress,
};
use crate::mail::{password_reset_email, reset_body, reset_link_of, RESET_SUBJECT};
use crate::registration_flows::greeting_name;
use crate::tokens::{hex_encode, hex_text_is_hex_digits, is_hex_char, is_hex_of, PasswordResetToken};
use crate::users::{user_touched, User};

verus! {

/// How long a password reset token lasts, in minutes.
pub const RESET_TOKEN_MINUTES: i64 = 60i64;

/// `after` is `before` with the new password hash `hash`.
pub open spec fn password_replaced(before: User, after: User, hash: Seq<char>) -> bool {
    &&& after.password_hash@ == hash
    &&& user_touched(User { password_hash: before.password_hash, ..after }, before)
}

/// Text that a reset token may be: the hexadecimal form of 32 bytes.
pub open spec fn is_reset_token_text(s: Seq<char>) -> bool {
    exists|b: Seq<u8>| b.len() == 32 && #[trigger] is_hex_of(s, b)
}

/// Where a password change stands.
#[derive(Debug)]
pub enum ChangePassword {
    Ready,
    FindingUser { current_password: String, new_password: String },
    Checking { user: User, new_password: String },
    Hashing { user: User },
    Saving,
    Done,
}

impl ChangePassword {
    pub fn new() -> (s: Self)
        ensures
            s is Ready,
    {
        ChangePassword::Ready
    }

    /// Starts: the user is looked up.
    pub fn execute(self, user_id: u128, current_password: String, new_password: String) -> (r: (
        Self,
        Progress<()>,
    ))
        ensures
            r.0 == (ChangePassword::FindingUser { current_password, new_password }),
            r.1 == Progress::<()>::Run(Op::FindUserById(user_id)),
    {
        (
            ChangePassword::FindingUser { current_password, new_password },
            Progress::Run(Op::FindUserById(user_id)),
        )
    }

    /// The current password must check out; then the new one is hashed and the user
    /// saved with it.
    pub fn resume(self, outcome: Outcome) -> (r: (Self, Progress<()>))
        ensures
            match (self, outcome) {
                (ChangePassword::FindingUser { .. }, Outcome::UserFound(Ok(None))) => r.0 is Done
                    && ends_in_failure(r.1, "User not found"@),
                (ChangePassword::FindingUser { .. }, Outcome::UserFound(Err(e))) => r.0 is Done
                    && ends_with(r.1, e),
                (
                    ChangePassword::FindingUser { current_password, new_password },
                    Outcome::UserFound(Ok(Some(u))),
                ) => r.0 == (ChangePassword::Checking { user: u, new_password }) && r.1
                    == Progress::<()>::Run(Op::VerifyPassword(current_password, u.password_hash)),
                (ChangePassword::Checking { .. }, Outcome::Verdict(Ok(false))) => r.0 is Done
                    && ends_in_failure(r.1, "Current password is incorrect"@),
                (ChangePassword::Checking { .. }, Outcome::Verdict(Err(e))) => r.0 is Done
                    && ends_with(r.1, e),
                (ChangePassword::Checking { user, new_password }, Outcome::Verdict(Ok(true))) => r.0
                    == (ChangePassword::Hashing { user }) && r.1 == Progress::<()>::Run(
                    Op::HashPassword(new_password),
                ),
                (ChangePassword::Hashing { user }, Outcome::Text(Ok(h))) => r.0 is Saving && (
                r.1 matches Progress::Run(Op::UpdateUser(u)) && password_replaced(user, u, h@)),
                (ChangePassword::Hashing { .. }, Outcome::Text(Err(_))) => r.0 is Done
                    && ends_in_failure(r.1, "Failed to hash password"@),
                (ChangePassword::Saving, Outcome::UserSaved(Ok(_))) => r.0 is Done && r.1
                    == Progress::Finish(Ok::<(), AppError>(())),
                (ChangePassword::Saving, Outcome::UserSaved(Err(_))) => r.0 is Done
                    && ends_in_failure(r.1, "Failed to update user password"@),
                _ => r.0 is Done && ends_out_of_turn(r.1),
            },
    {
        match (self, outcome) {
            (
                ChangePassword::FindingUser { current_password, new_password },
                Outcome::UserFound(found),
            ) => match found {
                Ok(None) => (ChangePassword::Done, failure("User not found")),
                Err(e) => (ChangePassword::Done, Progress::Finish(Err(e))),
                Ok(Some(u)) => {
                    let hash = u.password_hash.clone();
                    (
                        ChangePassword::Checking { user: u, new_password },
                        Progress::Run(Op::VerifyPassword(current_password, hash)),
                    )
                },
            },
            (ChangePassword::Checking { user, new_password }, Outcome::Verdict(verdict)) => match verdict {
                Ok(true) => (ChangePassword::Hashing { user }, Progress::Run(Op::HashPassword(new_password))),
                Ok(false) => (ChangePassword::Done, failure("Current password is incorrect")),
                Err(e) => (ChangePassword::Done, Progress::Finish(Err(e))),
            },
            (ChangePassword::Hashing { user }, Outcome::Text(hashed)) => match hashed {
                Ok(h) => {
                    let mut changed = user;
                    changed.change_password(h);
                    (ChangePassword::Saving, Progress::Run(Op::UpdateUser(changed)))
                },
                Err(_) => (ChangePassword::Done, failure("Failed to hash password")),
            },
            (ChangePassword::Saving, Outcome::UserSaved(saved)) => match saved {
                Ok(_) => (ChangePassword::Done, Progress::Finish(Ok(()))),
                Err(_) => (ChangePassword::Done, failure("Failed to update user password")),
            },
            _ => (ChangePassword::Done, out_of_turn()),
        }
    }
}

/// Where a request for a password reset stands.
#[derive(Debug)]
pub enum RequestPasswordReset {
    Ready,
    Finding { email: String, base_url: String },
    Clearing { email: String, base_url: String, user: User },
    Storing { email: String, base_url: String, user: User, token: String },
    Sending,
    Done,
}

impl RequestPasswordReset {
    pub fn new() -> (s: Self)
        ensures
            s is Ready,
    {
        RequestPasswordReset::Ready
    }

    /// A fresh random token: 32 random bytes as 64 lowercase hexadecimal digits.
    pub fn generate_secure_token() -> (s: String)
        ensures
            s@.len() == 64,
            is_reset_token_text(s@),
            forall|j: int| 0 <= j < s@.len() ==> is_hex_char(#[trigger] s@[j]),
    {
        let mut bytes: Vec<u8> = Vec::new();
        let mut i: usize = 0;
        while i < 32
            invariant
                i <= 32,
                bytes@.len() == i,
            decreases 32 - i,
        {
            bytes.push(random_byte());
            i = i + 1;
        }
        let s = hex_encode(&bytes);
        proof {
            hex_text_is_hex_digits(s@, bytes@);
        }
        s
    }

    /// Starts: the user is looked up by email.
    pub fn execute(self, email: String, base_url: String) -> (r: (Self, Progress<()>))
        ensures
            r.0 == (RequestPasswordReset::Finding { email, base_url }),
            r.1 == Progress::<()>::Run(Op::FindUserByEmail(email)),
    {
        let looked_up = email.clone();
        (RequestPasswordReset::Finding { email, base_url }, Progress::Run(Op::FindUserByEmail(looked_up)))
    }

    /// An unknown address ends quietly with success. For a known one the user's
    /// earlier reset tokens are deleted (whatever comes of it), a fresh token valid
    /// for an hour from `now` is stored, and the reset link is mailed.
    pub fn resume(self, outcome: Outcome, now: i64) -> (r: (Self, Progress<()>))
        requires
            is_instant(now as int),
        ensures
            match (self, outcome) {
                (RequestPasswordReset::Finding { .. }, Outcome::UserFound(Ok(None))) => r.0 is Done
                    && r.1 == Progress::Finish(Ok::<(), AppError>(())),
                (RequestPasswordReset::Finding { .. }, Outcome::UserFound(Err(e))) => r.0 is Done
                    && ends_with(r.1, e),
                (
                    RequestPasswordReset::Finding { email, base_url },
                    Outcome::UserFound(Ok(Some(u))),
                ) => r.0 == (RequestPasswordReset::Clearing { email, base_url, user: u }) && r.1
                    == Progress::<()>::Run(Op::DeleteResetTokensOfUser(u.id)),
                (
                    RequestPasswordReset::Clearing { email, base_url, user },
                    Outcome::Completed(_),
                ) => if instant_after(now as int, RESET_TOKEN_MINUTES as int) is Some {
                    r.0 matches RequestPasswordReset::Storing { email: e, base_url: b, user: u, token }
                        && e == email && b == base_url && u == user && is_reset_token_text(token@)
                        && (r.1 matches Progress::Run(Op::StoreResetToken(t)) && t.user_id
                        == user.id && t.token == token && !t.used && t.created_at == now
                        && instant_after(now as int, RESET_TOKEN_MINUTES as int) == Some(
                        t.expires_at as int,
                    ))
                } else {
                    r.0 is Done && ends_in_failure(r.1, "Failed to create password reset token"@)
                },
                (
                    RequestPasswordReset::Storing { email, base_url, user, token },
                    Outcome::Completed(Ok(())),
                ) => r.0 is Sending && (r.1 matches Progress::Run(Op::SendEmail(m)) && m.to_email@
                    == email@ && m.to_name@ == greeting_name(user, email@) && m.subject@
                    == RESET_SUBJECT@ && m.html_body@ == reset_body(
                    greeting_name(user, email@),
                    reset_link_of(base_url@, token@),
                )),
                (RequestPasswordReset::Storing { .. }, Outcome::Completed(Err(_))) => r.0 is Done
                    && ends_in_failure(r.1, "Failed to create password reset token"@),
                (RequestPasswordReset::Sending, Outcome::Completed(Ok(()))) => r.0 is Done && r.1
                    == Progress::Finish(Ok::<(), AppError>(())),
                (RequestPasswordReset::Sending, Outcome::Completed(Err(_))) => r.0 is Done
                    && ends_in_failure(r.1, "Failed to send password reset email"@),
                _ => r.0 is Done && ends_out_of_turn(r.1),
            },
    {
        match (self, outcome) {
            (RequestPasswordReset::Finding { email, base_url }, Outcome::UserFound(found)) => match found {
                Ok(None) => (RequestPasswordReset::Done, Progress::Finish(Ok(()))),
                Err(e) => (RequestPasswordReset::Done, Progress::Finish(Err(e))),
                Ok(Some(u)) => {
                    let user_id = u.id;
                    (
                        RequestPasswordReset::Clearing { email, base_url, user: u },
                        Progress::Run(Op::DeleteResetTokensOfUser(user_id)),
                    )
                },
            },
            (RequestPasswordReset::Clearing { email, base_url, user }, Outcome::Completed(_)) => {
                let token = Self::generate_secure_token();
                match PasswordResetToken::issued_at(user.id, token.clone(), RESET_TOKEN_MINUTES, now) {
                    Some(t) => (
                        RequestPasswordReset::Storing { email, base_url, user, token },
                        Progress::Run(Op::StoreResetToken(t)),
                    ),
                    None => (RequestPasswordReset::Done, failure("Failed to create password reset token")),
                }
            },
            (RequestPasswordReset::Storing { email, base_url, user, token }, Outcome::Completed(stored)) => match stored {
                Ok(()) => {
                    let name = match user.full_name() {
                        Some(n) => n,
                        None => email.clone(),
                    };
                    let message = password_reset_email(
                        email.as_str(),
                        name.as_str(),
                        token.as_str(),
                        base_url.as_str(),
                    );
                    (RequestPasswordReset::Sending, Progress::Run(Op::SendEmail(message)))
                },
                Err(_) => (RequestPasswordReset::Done, failure("Failed to create password reset token")),
            },
            (RequestPasswordReset::Sending, Outcome::Completed(sent)) => match sent {
                Ok(()) => (RequestPasswordReset::Done, Progress::Finish(Ok(()))),
                Err(_) => (RequestPasswordReset::Done, failure("Failed to send password reset email")),
            },
            _ => (RequestPasswordReset::Done, out_of_turn()),
        }
    }
}

/// Where a password reset stands.
#[derive(Debug)]
pub enum ResetPassword {
    Ready,
    Finding { new_password: String },
    FindingUser { reset: PasswordResetToken, new_password: String },
    Hashing { reset: PasswordResetToken, user: User },
    SavingUser { reset: PasswordResetToken },
    SavingToken,
    Done,
}

impl ResetPassword {
    pub fn new() -> (s: Self)
        ensures
            s is Ready,
    {
        ResetPassword::Ready
    }

    /// Starts: the reset token is looked up.
    pub fn execute(self, token: String, new_password: String) -> (r: (Self, Progress<()>))
        ensures
            r.0 == (ResetPassword::Finding { new_password }),
            r.1 == Progress::<()>::Run(Op::FindResetToken(token)),
    {
        (ResetPassword::Finding { new_password }, Progress::Run(Op::FindResetToken(token)))
    }

    /// An unknown, spent or (at `now`) expired token is refused. Otherwise the new
    /// password is hashed, the token's user saved with it, and the token saved spent.
    pub fn resume(self, outcome: Outcome, now: i64) -> (r: (Self, Progress<()>))
        ensures
            match (self, outcome) {
                (ResetPassword::Finding { .. }, Outcome::ResetTokenFound(Ok(None))) => r.0 is Done
                    && ends_in_bad_request(r.1, "Invalid or expired reset token"@),
                (ResetPassword::Finding { .. }, Outcome::ResetTokenFound(Err(e))) => r.0 is Done
                    && ends_with(r.1, e),
                (ResetPassword::Finding { new_password }, Outcome::ResetTokenFound(Ok(Some(t)))) => if t.valid_at(
                    now as int,
                ) {
                    r.0 == (ResetPassword::FindingUser { reset: t, new_password }) && r.1
                        == Progress::<()>::Run(Op::FindUserById(t.user_id))
                } else {
                    r.0 is Done && ends_in_bad_request(r.1, "Invalid or expired reset token"@)
                },
                (ResetPassword::FindingUser { .. }, Outcome::UserFound(Ok(None))) => r.0 is Done
                    && ends_not_found(r.1, "User not found"@),
                (ResetPassword::FindingUser { .. }, Outcome::UserFound(Err(e))) => r.0 is Done
                    && ends_with(r.1, e),
                (
                    ResetPassword::FindingUser { reset, new_password },
                    Outcome::UserFound(Ok(Some(u))),
                ) => r.0 == (ResetPassword::Hashing { reset, user: u }) && r.1 == Progress::<
                    (),
                >::Run(Op::HashPassword(new_password)),
                (ResetPassword::Hashing { reset, user }, Outcome::Text(Ok(h))) => r.0
                    == (ResetPassword::SavingUser { reset }) && (r.1 matches Progress::Run(
                    Op::UpdateUser(u),
                ) && password_replaced(user, u, h@)),
                (ResetPassword::Hashing { .. }, Outcome::Text(Err(e))) => r.0 is Done
                    && ends_in_internal_error(r.1, "Failed to hash password: "@ + e.msg()),
                (ResetPassword::SavingUser { reset }, Outcome::UserSaved(Ok(_))) => r.0 is SavingToken
                    && r.1 == Progress::<()>::Run(
                    Op::UpdateResetToken(PasswordResetToken { used: true, ..reset }),
                ),
                (ResetPassword::SavingUser { .. }, Outcome::UserSaved(Err(e))) => r.0 is Done
                    && ends_in_internal_error(r.1, "Failed to update user password: "@ + e.msg()),
                (ResetPassword::SavingToken, Outcome::Completed(Ok(()))) => r.0 is Done && r.1
                    == Progress::Finish(Ok::<(), AppError>(())),
                (ResetPassword::SavingToken, Outcome::Completed(Err(e))) => r.0 is Done
                    && ends_in_internal_error(r.1, "Failed to update reset token: "@ + e.msg()),
                _ => r.0 is Done && ends_out_of_turn(r.1),
            },
    {
        match (self, outcome) {
            (ResetPassword::Finding { new_password }, Outcome::ResetTokenFound(found)) => match found {
                Ok(None) => (
                    ResetPassword::Done,
                    Progress::Finish(
                        Err(AppError::BadRequest(String::from_str("Invalid or expired reset token"))),
                    ),
                ),
                Err(e) => (ResetPassword::Done, Progress::Finish(Err(e))),
                Ok(Some(t)) => {
                    if t.is_valid_at(now) {
                        let user_id = t.user_id;
                        (
                            ResetPassword::FindingUser { reset: t, new_password },
                            Progress::Run(Op::FindUserById(user_id)),
                        )
                    } else {
                        (
                            ResetPassword::Done,
                            Progress::Finish(
                                Err(
                                    AppError::BadRequest(
                                        String::from_str("Invalid or expired reset token"),
                                    ),
                                ),
                            ),
                        )
                    }
                },
            },
            (ResetPassword::FindingUser { reset, new_password }, Outcome::UserFound(found)) => match found {
                Ok(None) => (
                    ResetPassword::Done,
                    Progress::Finish(Err(AppError::NotFound(String::from_str("User not found")))),
                ),
                Err(e) => (ResetPassword::Done, Progress::Finish(Err(e))),
                Ok(Some(u)) => (
                    ResetPassword::Hashing { reset, user: u },
                    Progress::Run(Op::HashPassword(new_password)),
                ),
            },
            (ResetPassword::Hashing { reset, user }, Outcome::Text(hashed)) => match hashed {
                Ok(h) => {
                    let mut changed = user;
                    changed.change_password(h);
                    (ResetPassword::SavingUser { reset }, Progress::Run(Op::UpdateUser(changed)))
                },
                Err(e) => (
                    ResetPassword::Done,
                    Progress::Finish(Err(internal_error("Failed to hash password: ", &e))),
                ),
            },
            (ResetPassword::SavingUser { reset }, Outcome::UserSaved(saved)) => match saved {
                Ok(_) => {
                    let mut spent = reset;
                    spent.mark_as_used();
                    (ResetPassword::SavingToken, Progress::Run(Op::UpdateResetToken(spent)))
                },
                Err(e) => (
                    ResetPassword::Done,
                    Progress::Finish(Err(internal_error("Failed to update user password: ", &e))),
                ),
            },
            (ResetPassword::SavingToken, Outcome::Completed(saved)) => match saved {
                Ok(()) => (ResetPassword::Done, Progress::Finish(Ok(()))),
                Err(e) => (
                    ResetPassword::Done,
                    Progress::Finish(Err(internal_error("Failed to update reset token: ", &e))),
                ),
            },
            _ => (ResetPassword::Done, out_of_turn()),
        }
    }
}

} // verus!
