//! Turning two-factor authentication on and off, and checking a code.
use vstd::prelude::*;

use crate::clock::is_instant;
use crate::error::AppError;
use crate::flow::{
    ends_in_failure, ends_in_internal_error, ends_not_found, ends_out_of_turn, ends_with, failure,
    out_of_turn, Op, Outcome, Progress,
};
use crate::text::joined;
use crate::two_factor::{
    code_outcome, is_fresh_secret, issued_code_is_accepted, verify_outcome, TwoFactorError,
    TwoFactorService,
};
use crate::users::User;

verus! {

/// The outcome of checking `code` at instant `now` against the secret that the user
/// has stored; for a user without one no code is valid.
pub open spec fn stored_secret_check(u: User, code: Seq<char>, now: int) -> Result<
    bool,
    TwoFactorError,
> {
    match u.two_factor_secret {
        Some(s) => verify_outcome(s@, code, now),
        None => Ok(false),
    }
}

/// Checks `code` at instant `now` against the user's stored secret.
fn check_stored_secret(
    service: &TwoFactorService,
    u: &User,
    code: &str,
    now: i64,
) -> (r: Result<bool, TwoFactorError>)
    requires
        is_instant(now as int),
    ensures
        r == stored_secret_check(*u, code@, now as int),
{
    match &u.two_factor_secret {
        Some(s) => service.verify_code_at(u.email.as_str(), s.as_str(), code, now),
        None => Ok(false),
    }
}

/// What turning on two-factor authentication hands back.
#[derive(Debug)]
pub struct Enable2FAResult {
    pub secret: String,
    pub qr_code_svg: String,
    pub provisioning_uri: String,
}

/// Where turning on two-factor authentication stands.
#[derive(Debug)]
pub enum Enable2FAStep {
    Ready,
    Finding,
    Saving { secret: String, qr_code_svg: String, provisioning_uri: String },
    Done,
}

/// Turns on two-factor authentication: a fresh secret, with its provisioning address
/// and that address drawn as a QR code.
#[derive(Debug)]
pub struct Enable2FA {
    pub two_factor_service: TwoFactorService,
    pub step: Enable2FAStep,
}

impl Enable2FA {
    pub fn new(two_factor_service: TwoFactorService) -> (s: Self)
        ensures
            s.two_factor_service == two_factor_service,
            s.step is Ready,
    {
        Enable2FA { two_factor_service, step: Enable2FAStep::Ready }
    }

    /// Starts: the user is looked up.
    pub fn execute(self, user_id: u128) -> (r: (Self, Progress<Enable2FAResult>))
        ensures
            r.0.two_factor_service == self.two_factor_service,
            r.0.step is Finding,
            r.1 == Progress::<Enable2FAResult>::Run(Op::FindUserById(user_id)),
    {
        (
            Enable2FA { two_factor_service: self.two_factor_service, step: Enable2FAStep::Finding },
            Progress::Run(Op::FindUserById(user_id)),
        )
    }

    /// For a found user a fresh secret is made, with the provisioning address for
    /// the user's email and its QR code; the user is saved with the secret stored
    /// and the result carries all three. An address too long for a QR code fails;
    /// only one of more than 300 bytes can be.
    pub fn resume(self, outcome: Outcome) -> (r: (Self, Progress<Enable2FAResult>))
        ensures
            r.0.two_factor_service == self.two_factor_service,
            match (self.step, outcome) {
                (Enable2FAStep::Finding, Outcome::UserFound(Ok(None))) => r.0.step is Done
                    && ends_in_failure(r.1, "User not found"@),
                (Enable2FAStep::Finding, Outcome::UserFound(Err(e))) => r.0.step is Done
                    && ends_with(r.1, e),
                (Enable2FAStep::Finding, Outcome::UserFound(Ok(Some(u)))) => match r.0.step {
                    Enable2FAStep::Saving { secret, qr_code_svg, provisioning_uri } => {
                        &&& is_fresh_secret(secret@)
                        &&& provisioning_uri@ == self.two_factor_service.provisioning_uri(
                            u.email@,
                            secret@,
                        )
                        &&& self.two_factor_service.provisioning_qr(u.email@, secret@) == Some(
                            qr_code_svg@,
                        )
                        &&& r.1 == Progress::<Enable2FAResult>::Run(
                            Op::UpdateUser(User { two_factor_secret: Some(secret), ..u }),
                        )
                    },
                    _ => {
                        &&& r.0.step is Done
                        &&& ends_in_failure(r.1, "Failed to generate QR code"@)
                        &&& exists|s: Seq<char>|
                            is_fresh_secret(s) && (#[trigger] self.two_factor_service.provisioning_qr(
                                u.email@,
                                s,
                            )) is None && vstd::utf8::encode_utf8(
                                self.two_factor_service.provisioning_uri(u.email@, s),
                            ).len() > 300
                    },
                },
                (
                    Enable2FAStep::Saving { secret, qr_code_svg, provisioning_uri },
                    Outcome::UserSaved(Ok(_)),
                ) => r.0.step is Done && r.1 == Progress::Finish(
                    Ok::<Enable2FAResult, AppError>(
                        Enable2FAResult { secret, qr_code_svg, provisioning_uri },
                    ),
                ),
                (Enable2FAStep::Saving { .. }, Outcome::UserSaved(Err(_))) => r.0.step is Done
                    && ends_in_failure(r.1, "Failed to update user"@),
                _ => r.0.step is Done && ends_out_of_turn(r.1),
            },
    {
        let Enable2FA { two_factor_service, step } = self;
        match (step, outcome) {
            (Enable2FAStep::Finding, Outcome::UserFound(found)) => match found {
                Ok(None) => (
                    Enable2FA { two_factor_service, step: Enable2FAStep::Done },
                    failure("User not found"),
                ),
                Err(e) => (
                    Enable2FA { two_factor_service, step: Enable2FAStep::Done },
                    Progress::Finish(Err(e)),
                ),
                Ok(Some(u)) => {
                    let secret = two_factor_service.generate_secret();
                    match two_factor_service.generate_qr_code(u.email.as_str(), secret.as_str()) {
                        Err(_) => (
                            Enable2FA { two_factor_service, step: Enable2FAStep::Done },
                            failure("Failed to generate QR code"),
                        ),
                        Ok(qr_code_svg) => {
                            let provisioning_uri = match two_factor_service.get_provisioning_uri(
                                u.email.as_str(),
                                secret.as_str(),
                            ) {
                                Ok(uri) => uri,
                                Err(_) => {
                                    return (
                                        Enable2FA { two_factor_service, step: Enable2FAStep::Done },
                                        failure("Failed to generate provisioning URI"),
                                    );
                                },
                            };
                            let stored = secret.clone();
                            (
                                Enable2FA {
                                    two_factor_service,
                                    step: Enable2FAStep::Saving {
                                        secret,
                                        qr_code_svg,
                                        provisioning_uri,
                                    },
                                },
                                Progress::Run(
                                    Op::UpdateUser(User { two_factor_secret: Some(stored), ..u }),
                                ),
                            )
                        },
                    }
                },
            },
            (
                Enable2FAStep::Saving { secret, qr_code_svg, provisioning_uri },
                Outcome::UserSaved(saved),
            ) => match saved {
                Ok(_) => (
                    Enable2FA { two_factor_service, step: Enable2FAStep::Done },
                    Progress::Finish(Ok(Enable2FAResult { secret, qr_code_svg, provisioning_uri })),
                ),
                Err(_) => (
                    Enable2FA { two_factor_service, step: Enable2FAStep::Done },
                    failure("Failed to update user"),
                ),
            },
            _ => (Enable2FA { two_factor_service, step: Enable2FAStep::Done }, out_of_turn()),
        }
    }
}

/// Where turning off two-factor authentication stands.
#[derive(Debug)]
pub enum Disable2FAStep {
    Ready,
    Finding { password: String, code: String },
    Checking { user: User, code: String },
    Saving,
    Done,
}

/// Turns off two-factor authentication, given the password and a current code.
#[derive(Debug)]
pub struct Disable2FA {
    pub two_factor_service: TwoFactorService,
    pub step: Disable2FAStep,
}

impl Disable2FA {
    pub fn new(two_factor_service: TwoFactorService) -> (s: Self)
        ensures
            s.two_factor_service == two_factor_service,
            s.step is Ready,
    {
        Disable2FA { two_factor_service, step: Disable2FAStep::Ready }
    }

    /// Starts: the user is looked up.
    pub fn execute(self, user_id: u128, password: String, code: String) -> (r: (Self, Progress<()>))
        ensures
            r.0.two_factor_service == self.two_factor_service,
            r.0.step == (Disable2FAStep::Finding { password, code }),
            r.1 == Progress::<()>::Run(Op::FindUserById(user_id)),
    {
        (
            Disable2FA {
                two_factor_service: self.two_factor_service,
                step: Disable2FAStep::Finding { password, code },
            },
            Progress::Run(Op::FindUserById(user_id)),
        )
    }

    /// The password must check out and the code verify at `now` against the user's
    /// stored secret; then the user is saved with two-factor authentication off and
    /// no secret.
    pub fn resume(self, outcome: Outcome, now: i64) -> (r: (Self, Progress<()>))
        requires
            is_instant(now as int),
        ensures
            r.0.two_factor_service == self.two_factor_service,
            match (self.step, outcome) {
                (Disable2FAStep::Finding { .. }, Outcome::UserFound(Ok(None))) => r.0.step is Done
                    && ends_in_failure(r.1, "User not found"@),
                (Disable2FAStep::Finding { .. }, Outcome::UserFound(Err(e))) => r.0.step is Done
                    && ends_with(r.1, e),
                (Disable2FAStep::Finding { password, code }, Outcome::UserFound(Ok(Some(u)))) => r.0.step
                    == (Disable2FAStep::Checking { user: u, code }) && r.1 == Progress::<()>::Run(
                    Op::VerifyPassword(password, u.password_hash),
                ),
                (Disable2FAStep::Checking { .. }, Outcome::Verdict(Ok(false))) => r.0.step is Done
                    && ends_in_failure(r.1, "Invalid password"@),
                (Disable2FAStep::Checking { .. }, Outcome::Verdict(Err(e))) => r.0.step is Done
                    && ends_with(r.1, e),
                (Disable2FAStep::Checking { user, code }, Outcome::Verdict(Ok(true))) => match stored_secret_check(
                    user,
                    code@,
                    now as int,
                ) {
                    Err(te) => r.0.step is Done && ends_in_failure(r.1, te.msg()),
                    Ok(false) => r.0.step is Done && ends_in_failure(r.1, "Invalid 2FA code"@),
                    Ok(true) => r.0.step is Saving && r.1 == Progress::<()>::Run(
                        Op::UpdateUser(
                            User { two_factor_enabled: false, two_factor_secret: None, ..user },
                        ),
                    ),
                },
                (Disable2FAStep::Saving, Outcome::UserSaved(Ok(_))) => r.0.step is Done && r.1
                    == Progress::Finish(Ok::<(), AppError>(())),
                (Disable2FAStep::Saving, Outcome::UserSaved(Err(_))) => r.0.step is Done
                    && ends_in_failure(r.1, "Failed to disable 2FA"@),
                _ => r.0.step is Done && ends_out_of_turn(r.1),
            },
    {
        let Disable2FA { two_factor_service, step } = self;
        match (step, outcome) {
            (Disable2FAStep::Finding { password, code }, Outcome::UserFound(found)) => match found {
                Ok(None) => (
                    Disable2FA { two_factor_service, step: Disable2FAStep::Done },
                    failure("User not found"),
                ),
                Err(e) => (
                    Disable2FA { two_factor_service, step: Disable2FAStep::Done },
                    Progress::Finish(Err(e)),
                ),
                Ok(Some(u)) => {
                    let hash = u.password_hash.clone();
                    (
                        Disable2FA {
                            two_factor_service,
                            step: Disable2FAStep::Checking { user: u, code },
                        },
                        Progress::Run(Op::VerifyPassword(password, hash)),
                    )
                },
            },
            (Disable2FAStep::Checking { user, code }, Outcome::Verdict(verdict)) => match verdict {
                Ok(false) => (
                    Disable2FA { two_factor_service, step: Disable2FAStep::Done },
                    failure("Invalid password"),
                ),
                Err(e) => (
                    Disable2FA { two_factor_service, step: Disable2FAStep::Done },
                    Progress::Finish(Err(e)),
                ),
                Ok(true) => match check_stored_secret(&two_factor_service, &user, code.as_str(), now) {
                    Err(te) => (
                        Disable2FA { two_factor_service, step: Disable2FAStep::Done },
                        failure(te.message().as_str()),
                    ),
                    Ok(false) => (
                        Disable2FA { two_factor_service, step: Disable2FAStep::Done },
                        failure("Invalid 2FA code"),
                    ),
                    Ok(true) => (
                        Disable2FA { two_factor_service, step: Disable2FAStep::Saving },
                        Progress::Run(
                            Op::UpdateUser(
                                User { two_factor_enabled: false, two_factor_secret: None, ..user },
                            ),
                        ),
                    ),
                },
            },
            (Disable2FAStep::Saving, Outcome::UserSaved(saved)) => match saved {
                Ok(_) => (
                    Disable2FA { two_factor_service, step: Disable2FAStep::Done },
                    Progress::Finish(Ok(())),
                ),
                Err(_) => (
                    Disable2FA { two_factor_service, step: Disable2FAStep::Done },
                    failure("Failed to disable 2FA"),
                ),
            },
            _ => (Disable2FA { two_factor_service, step: Disable2FAStep::Done }, out_of_turn()),
        }
    }
}

/// Where checking a two-factor code stands.
#[derive(Debug)]
pub enum Verify2FAStep {
    Ready,
    Finding { code: String, enable_on_success: bool },
    Enabling,
    Done,
}

/// Checks a two-factor code, saving the user when asked to on success.
#[derive(Debug)]
pub struct Verify2FA {
    pub two_factor_service: TwoFactorService,
    pub step: Verify2FAStep,
}

impl Verify2FA {
    pub fn new(two_factor_service: TwoFactorService) -> (s: Self)
        ensures
            s.two_factor_service == two_factor_service,
            s.step is Ready,
    {
        Verify2FA { two_factor_service, step: Verify2FAStep::Ready }
    }

    /// Starts: the user is looked up.
    pub fn execute(self, user_id: u128, code: String, enable_on_success: bool) -> (r: (
        Self,
        Progress<bool>,
    ))
        ensures
            r.0.two_factor_service == self.two_factor_service,
            r.0.step == (Verify2FAStep::Finding { code, enable_on_success }),
            r.1 == Progress::<bool>::Run(Op::FindUserById(user_id)),
    {
        (
            Verify2FA {
                two_factor_service: self.two_factor_service,
                step: Verify2FAStep::Finding { code, enable_on_success },
            },
            Progress::Run(Op::FindUserById(user_id)),
        )
    }

    /// The result says whether the code verifies at `now` against the user's stored
    /// secret; a verified code first saves the user with two-factor authentication
    /// on when `enable_on_success` asks.
    pub fn resume(self, outcome: Outcome, now: i64) -> (r: (Self, Progress<bool>))
        requires
            is_instant(now as int),
        ensures
            r.0.two_factor_service == self.two_factor_service,
            match (self.step, outcome) {
                (Verify2FAStep::Finding { .. }, Outcome::UserFound(Ok(None))) => r.0.step is Done
                    && ends_not_found(r.1, "User not found"@),
                (Verify2FAStep::Finding { .. }, Outcome::UserFound(Err(e))) => r.0.step is Done
                    && ends_with(r.1, e),
                (
                    Verify2FAStep::Finding { code, enable_on_success },
                    Outcome::UserFound(Ok(Some(u))),
                ) => match stored_secret_check(u, code@, now as int) {
                    Err(te) => r.0.step is Done && ends_in_internal_error(
                        r.1,
                        "2FA verification failed: "@ + te.msg(),
                    ),
                    Ok(false) => r.0.step is Done && r.1 == Progress::Finish(
                        Ok::<bool, AppError>(false),
                    ),
                    Ok(true) => if enable_on_success {
                        r.0.step is Enabling && r.1 == Progress::<bool>::Run(
                            Op::UpdateUser(User { two_factor_enabled: true, ..u }),
                        )
                    } else {
                        r.0.step is Done && r.1 == Progress::Finish(Ok::<bool, AppError>(true))
                    },
                },
                (Verify2FAStep::Enabling, Outcome::UserSaved(Ok(_))) => r.0.step is Done && r.1
                    == Progress::Finish(Ok::<bool, AppError>(true)),
                (Verify2FAStep::Enabling, Outcome::UserSaved(Err(e))) => r.0.step is Done
                    && ends_in_internal_error(r.1, "Failed to enable 2FA: "@ + e.msg()),
                _ => r.0.step is Done && ends_out_of_turn(r.1),
            },
    {
        let Verify2FA { two_factor_service, step } = self;
        match (step, outcome) {
            (Verify2FAStep::Finding { code, enable_on_success }, Outcome::UserFound(found)) => match found {
                Ok(None) => (
                    Verify2FA { two_factor_service, step: Verify2FAStep::Done },
                    Progress::Finish(Err(AppError::NotFound(String::from_str("User not found")))),
                ),
                Err(e) => (
                    Verify2FA { two_factor_service, step: Verify2FAStep::Done },
                    Progress::Finish(Err(e)),
                ),
                Ok(Some(u)) => match check_stored_secret(&two_factor_service, &u, code.as_str(), now) {
                    Err(te) => (
                        Verify2FA { two_factor_service, step: Verify2FAStep::Done },
                        Progress::Finish(
                            Err(
                                AppError::InternalError(
                                    joined("2FA verification failed: ", te.message().as_str()),
                                ),
                            ),
                        ),
                    ),
                    Ok(false) => (
                        Verify2FA { two_factor_service, step: Verify2FAStep::Done },
                        Progress::Finish(Ok(false)),
                    ),
                    Ok(true) => {
                        if enable_on_success {
                            (
                                Verify2FA { two_factor_service, step: Verify2FAStep::Enabling },
                                Progress::Run(Op::UpdateUser(User { two_factor_enabled: true, ..u })),
                            )
                        } else {
                            (
                                Verify2FA { two_factor_service, step: Verify2FAStep::Done },
                                Progress::Finish(Ok(true)),
                            )
                        }
                    },
                },
            },
            (Verify2FAStep::Enabling, Outcome::UserSaved(saved)) => match saved {
                Ok(_) => (
                    Verify2FA { two_factor_service, step: Verify2FAStep::Done },
                    Progress::Finish(Ok(true)),
                ),
                Err(e) => (
                    Verify2FA { two_factor_service, step: Verify2FAStep::Done },
                    Progress::Finish(Err(crate::error::internal_error("Failed to enable 2FA: ", &e))),
                ),
            },
            _ => (Verify2FA { two_factor_service, step: Verify2FAStep::Done }, out_of_turn()),
        }
    }
}

/// A code issued at an instant for the secret that a user has stored is accepted
/// for that user at the same instant.
pub proof fn stored_secret_accepts_its_code(u: User, secret: Seq<char>, now: int)
    requires
        u.two_factor_secret matches Some(s) && s@ == secret,
        now / 1_000_000 >= 30,
        code_outcome(secret, now) is Ok,
    ensures
        stored_secret_check(u, code_outcome(secret, now)->Ok_0, now) == Ok::<bool, TwoFactorError>(
            true,
        ),
{
    issued_code_is_accepted(secret, now);
}

} // verus!
