//! Registering with email and password, and confirming the email address.
use vstd::prelude::*;

use crate::clock::{instant_after, is_instant};
use crate::error::{internal_error, AppError};
use crate::flow::{
    ends_in_conflict, ends_in_failure, ends_in_internal_error, ends_out_of_turn, ends_with,
    failure, out_of_turn, Op, Outcome, Progress,
};
use crate::mail::{verification_body, verification_email, VERIFICATION_SUBJECT};
use crate::tokens::EmailVerification;
use crate::users::{is_fresh_user, opt_view, User};

verus! {

/// How long an email verification code lasts, in minutes.
pub const VERIFICATION_CODE_MINUTES: i64 = 10i64;

/// The name that a message to a new user greets: the user's full name, or else
/// their email address.
pub open spec fn greeting_name(user: User, email: Seq<char>) -> Seq<char> {
    match user.spec_full_name() {
        Some(n) => n,
        None => email,
    }
}

/// Where a registration stands.
#[derive(Debug)]
pub enum RegisterUser {
    Ready,
    Checking {
        email: String,
        password: String,
        first_name: Option<String>,
        last_name: Option<String>,
    },
    Hashing { email: String, first_name: Option<String>, last_name: Option<String> },
    Creating { email: String },
    GeneratingCode { email: String, user: User },
    StoringCode { email: String, user: User, code: String },
    Sending { user_id: u128 },
    Done,
}

impl RegisterUser {
    pub fn new() -> (s: Self)
        ensures
            s is Ready,
    {
        RegisterUser::Ready
    }

    /// Starts: a user with the same email address is looked for.
    pub fn execute(
        self,
        email: String,
        password: String,
        first_name: Option<String>,
        last_name: Option<String>,
    ) -> (r: (Self, Progress<u128>))
        ensures
            r.0 == (RegisterUser::Checking { email, password, first_name, last_name }),
            r.1 == Progress::<u128>::Run(Op::FindUserByEmail(email)),
    {
        let looked_up = email.clone();
        (
            RegisterUser::Checking { email, password, first_name, last_name },
            Progress::Run(Op::FindUserByEmail(looked_up)),
        )
    }

    /// A taken address is a `Conflict`. Otherwise the password is hashed, the user
    /// stored, a one-time code generated and stored to expire ten minutes after
    /// `now`, and mailed to the address; the new user's identifier is the result.
    pub fn resume(self, outcome: Outcome, now: i64) -> (r: (Self, Progress<u128>))
        requires
            is_instant(now as int),
        ensures
            match (self, outcome) {
                (RegisterUser::Checking { .. }, Outcome::UserFound(Ok(Some(_)))) => r.0 is Done
                    && ends_in_conflict(r.1, "User with this email already exists"@),
                (RegisterUser::Checking { .. }, Outcome::UserFound(Err(e))) => r.0 is Done
                    && ends_with(r.1, e),
                (
                    RegisterUser::Checking { email, password, first_name, last_name },
                    Outcome::UserFound(Ok(None)),
                ) => r.0 == (RegisterUser::Hashing { email, first_name, last_name }) && r.1
                    == Progress::<u128>::Run(Op::HashPassword(password)),
                (
                    RegisterUser::Hashing { email, first_name, last_name },
                    Outcome::Text(Ok(h)),
                ) => r.0 == (RegisterUser::Creating { email }) && (r.1 matches Progress::Run(
                    Op::CreateUser(u),
                ) && is_fresh_user(u, email@, h@, opt_view(first_name), opt_view(last_name))),
                (RegisterUser::Hashing { .. }, Outcome::Text(Err(e))) => r.0 is Done
                    && ends_in_internal_error(r.1, "Failed to hash password: "@ + e.msg()),
                (RegisterUser::Creating { email }, Outcome::UserSaved(Ok(u))) => r.0
                    == (RegisterUser::GeneratingCode { email, user: u }) && r.1
                    == Progress::<u128>::Run(Op::GenerateOtp),
                (RegisterUser::Creating { .. }, Outcome::UserSaved(Err(e))) => r.0 is Done
                    && ends_in_internal_error(r.1, "Failed to create user: "@ + e.msg()),
                (RegisterUser::GeneratingCode { email, user }, Outcome::Text(Ok(code))) => if instant_after(
                    now as int,
                    VERIFICATION_CODE_MINUTES as int,
                ) is Some {
                    r.0 == (RegisterUser::StoringCode { email, user, code }) && (r.1 matches Progress::Run(
                        Op::StoreEmailVerification(v),
                    ) && v.user_id == user.id && v.otp_code == code && v.created_at == now
                        && instant_after(now as int, VERIFICATION_CODE_MINUTES as int) == Some(
                        v.expires_at as int,
                    ))
                } else {
                    r.0 is Done && ends_in_internal_error(
                        r.1,
                        "Failed to create email verification: expiry out of range"@,
                    )
                },
                (RegisterUser::GeneratingCode { .. }, Outcome::Text(Err(e))) => r.0 is Done
                    && ends_with(r.1, e),
                (RegisterUser::StoringCode { email, user, code }, Outcome::Completed(Ok(()))) => r.0
                    == (RegisterUser::Sending { user_id: user.id }) && (r.1 matches Progress::Run(
                    Op::SendEmail(m),
                ) && m.to_email@ == email@ && m.to_name@ == greeting_name(user, email@)
                    && m.subject@ == VERIFICATION_SUBJECT@ && m.html_body@ == verification_body(
                    greeting_name(user, email@),
                    code@,
                )),
                (RegisterUser::StoringCode { .. }, Outcome::Completed(Err(e))) => r.0 is Done
                    && ends_in_internal_error(
                    r.1,
                    "Failed to create email verification: "@ + e.msg(),
                ),
                (RegisterUser::Sending { user_id }, Outcome::Completed(Ok(()))) => r.0 is Done && r.1
                    == Progress::Finish(Ok::<u128, AppError>(user_id)),
                (RegisterUser::Sending { .. }, Outcome::Completed(Err(e))) => r.0 is Done
                    && ends_in_internal_error(r.1, "Failed to send verification email: "@ + e.msg()),
                _ => r.0 is Done && ends_out_of_turn(r.1),
            },
    {
        match (self, outcome) {
            (
                RegisterUser::Checking { email, password, first_name, last_name },
                Outcome::UserFound(found),
            ) => match found {
                Ok(Some(_)) => (
                    RegisterUser::Done,
                    Progress::Finish(
                        Err(
                            AppError::Conflict(
                                String::from_str("User with this email already exists"),
                            ),
                        ),
                    ),
                ),
                Err(e) => (RegisterUser::Done, Progress::Finish(Err(e))),
                Ok(None) => (
                    RegisterUser::Hashing { email, first_name, last_name },
                    Progress::Run(Op::HashPassword(password)),
                ),
            },
            (RegisterUser::Hashing { email, first_name, last_name }, Outcome::Text(hashed)) => match hashed {
                Ok(h) => {
                    let user = User::new(email.clone(), h, first_name, last_name);
                    (RegisterUser::Creating { email }, Progress::Run(Op::CreateUser(user)))
                },
                Err(e) => (
                    RegisterUser::Done,
                    Progress::Finish(Err(internal_error("Failed to hash password: ", &e))),
                ),
            },
            (RegisterUser::Creating { email }, Outcome::UserSaved(saved)) => match saved {
                Ok(u) => (RegisterUser::GeneratingCode { email, user: u }, Progress::Run(Op::GenerateOtp)),
                Err(e) => (
                    RegisterUser::Done,
                    Progress::Finish(Err(internal_error("Failed to create user: ", &e))),
                ),
            },
            (RegisterUser::GeneratingCode { email, user }, Outcome::Text(generated)) => match generated {
                Ok(code) => match EmailVerification::issued_at(
                    user.id,
                    code.clone(),
                    VERIFICATION_CODE_MINUTES,
                    now,
                ) {
                    Some(v) => (
                        RegisterUser::StoringCode { email, user, code },
                        Progress::Run(Op::StoreEmailVerification(v)),
                    ),
                    None => (
                        RegisterUser::Done,
                        Progress::Finish(
                            Err(
                                AppError::InternalError(
                                    String::from_str(
                                        "Failed to create email verification: expiry out of range",
                                    ),
                                ),
                            ),
                        ),
                    ),
                },
                Err(e) => (RegisterUser::Done, Progress::Finish(Err(e))),
            },
            (RegisterUser::StoringCode { email, user, code }, Outcome::Completed(stored)) => match stored {
                Ok(()) => {
                    let name = match user.full_name() {
                        Some(n) => n,
                        None => email.clone(),
                    };
                    let message = verification_email(email.as_str(), name.as_str(), code.as_str());
                    (RegisterUser::Sending { user_id: user.id }, Progress::Run(Op::SendEmail(message)))
                },
                Err(e) => (
                    RegisterUser::Done,
                    Progress::Finish(Err(internal_error("Failed to create email verification: ", &e))),
                ),
            },
            (RegisterUser::Sending { user_id }, Outcome::Completed(sent)) => match sent {
                Ok(()) => (RegisterUser::Done, Progress::Finish(Ok(user_id))),
                Err(e) => (
                    RegisterUser::Done,
                    Progress::Finish(Err(internal_error("Failed to send verification email: ", &e))),
                ),
            },
            _ => (RegisterUser::Done, out_of_turn()),
        }
    }
}

/// Where an email confirmation stands.
#[derive(Debug)]
pub enum VerifyEmail {
    Ready,
    FindingUser { user_id: u128, otp_code: String },
    FindingCode { user: User, otp_code: String },
    Saving { verification_id: u128 },
    Deleting,
    Done,
}

impl VerifyEmail {
    pub fn new() -> (s: Self)
        ensures
            s is Ready,
    {
        VerifyEmail::Ready
    }

    /// Starts: the user is looked up.
    pub fn execute(self, user_id: u128, otp_code: String) -> (r: (Self, Progress<()>))
        ensures
            r.0 == (VerifyEmail::FindingUser { user_id, otp_code }),
            r.1 == Progress::<()>::Run(Op::FindUserById(user_id)),
    {
        (VerifyEmail::FindingUser { user_id, otp_code }, Progress::Run(Op::FindUserById(user_id)))
    }

    /// The user's stored code must match and not have expired at `now`; then the
    /// user is saved with the email verified and the code deleted.
    pub fn resume(self, outcome: Outcome, now: i64) -> (r: (Self, Progress<()>))
        ensures
            match (self, outcome) {
                (VerifyEmail::FindingUser { user_id, otp_code }, Outcome::UserFound(Ok(Some(u)))) => r.0
                    == (VerifyEmail::FindingCode { user: u, otp_code }) && r.1 == Progress::<
                    (),
                >::Run(Op::FindEmailVerification(user_id)),
                (VerifyEmail::FindingUser { .. }, Outcome::UserFound(Ok(None))) => r.0 is Done
                    && ends_in_failure(r.1, "User not found"@),
                (VerifyEmail::FindingUser { .. }, Outcome::UserFound(Err(e))) => r.0 is Done
                    && ends_with(r.1, e),
                (
                    VerifyEmail::FindingCode { user, otp_code },
                    Outcome::VerificationFound(Ok(Some(v))),
                ) => if v.valid_at(otp_code@, now as int) {
                    r.0 == (VerifyEmail::Saving { verification_id: v.id }) && r.1 == Progress::<
                        (),
                    >::Run(Op::UpdateUser(User { email_verified: true, ..user }))
                } else {
                    r.0 is Done && ends_in_failure(r.1, "Invalid or expired OTP code"@)
                },
                (VerifyEmail::FindingCode { .. }, Outcome::VerificationFound(Ok(None))) => r.0 is Done
                    && ends_in_failure(r.1, "No verification code found for this user"@),
                (VerifyEmail::FindingCode { .. }, Outcome::VerificationFound(Err(e))) => r.0 is Done
                    && ends_with(r.1, e),
                (VerifyEmail::Saving { verification_id }, Outcome::UserSaved(Ok(_))) => r.0 is Deleting
                    && r.1 == Progress::<()>::Run(Op::DeleteEmailVerification(verification_id)),
                (VerifyEmail::Saving { .. }, Outcome::UserSaved(Err(_))) => r.0 is Done
                    && ends_in_failure(r.1, "Failed to update user"@),
                (VerifyEmail::Deleting, Outcome::Completed(Ok(()))) => r.0 is Done && r.1
                    == Progress::Finish(Ok::<(), AppError>(())),
                (VerifyEmail::Deleting, Outcome::Completed(Err(_))) => r.0 is Done
                    && ends_in_failure(r.1, "Failed to delete verification record"@),
                _ => r.0 is Done && ends_out_of_turn(r.1),
            },
    {
        match (self, outcome) {
            (VerifyEmail::FindingUser { user_id, otp_code }, Outcome::UserFound(found)) => match found {
                Ok(Some(u)) => (
                    VerifyEmail::FindingCode { user: u, otp_code },
                    Progress::Run(Op::FindEmailVerification(user_id)),
                ),
                Ok(None) => (VerifyEmail::Done, failure("User not found")),
                Err(e) => (VerifyEmail::Done, Progress::Finish(Err(e))),
            },
            (VerifyEmail::FindingCode { user, otp_code }, Outcome::VerificationFound(found)) => match found {
                Ok(Some(v)) => {
                    if v.is_valid_at(otp_code.as_str(), now) {
                        (
                            VerifyEmail::Saving { verification_id: v.id },
                            Progress::Run(Op::UpdateUser(User { email_verified: true, ..user })),
                        )
                    } else {
                        (VerifyEmail::Done, failure("Invalid or expired OTP code"))
                    }
                },
                Ok(None) => (VerifyEmail::Done, failure("No verification code found for this user")),
                Err(e) => (VerifyEmail::Done, Progress::Finish(Err(e))),
            },
            (VerifyEmail::Saving { verification_id }, Outcome::UserSaved(saved)) => match saved {
                Ok(_) => (
                    VerifyEmail::Deleting,
                    Progress::Run(Op::DeleteEmailVerification(verification_id)),
                ),
                Err(_) => (VerifyEmail::Done, failure("Failed to update user")),
            },
            (VerifyEmail::Deleting, Outcome::Completed(deleted)) => match deleted {
                Ok(()) => (VerifyEmail::Done, Progress::Finish(Ok(()))),
                Err(_) => (VerifyEmail::Done, failure("Failed to delete verification record")),
            },
            _ => (VerifyEmail::Done, out_of_turn()),
        }
    }
}

} // verus!
