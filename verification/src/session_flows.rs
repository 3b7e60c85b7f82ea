//! Signing in with credentials, renewing access with a refresh token, and signing
//! out, as state machines over the outside operations.
use vstd::prelude::*;

use crate::clock::is_instant;
use crate::error::AppError;
use crate::text::joined;
use crate::flow::{
    ends_in_failure, ends_in_internal_error, ends_out_of_turn, ends_unauthorized, ends_with,
    failure, out_of_turn, Op, Outcome, Progress,
};
use crate::tokens::{access_token_for, refresh_token_for, verified_claims, Claims, JwtService, RefreshToken};
use crate::users::User;

verus! {

/// What a successful sign-in hands back.
#[derive(Debug)]
pub struct LoginResult {
    pub access_token: String,
    pub refresh_token: String,
    pub requires_2fa: bool,
    pub user: User,
}

/// Where a sign-in stands.
#[derive(Debug)]
pub enum LoginStep {
    Ready,
    FindingUser { password: String },
    CheckingPassword { user: User },
    SavingUser { user: User },
    StoringRefresh { user: User, access_token: String, refresh_token: String },
    Done,
}

/// Signs a user in with email and password and issues a pair of tokens.
pub struct Login {
    pub jwt: JwtService,
    pub step: LoginStep,
}

/// `p` asks to store, for this user, the refresh token `token` that expires at
/// instant `expires_at`.
pub open spec fn stores_refresh_token<T>(p: Progress<T>, user_id: u128, token: Seq<char>, expires_at: int) -> bool {
    p matches Progress::Run(Op::StoreRefreshToken(s)) && s.user_id == user_id && s.token@ == token
        && s.expires_at == expires_at
}

impl Login {
    pub fn new(jwt: JwtService) -> (s: Self)
        ensures
            s.jwt == jwt,
            s.step is Ready,
    {
        Login { jwt, step: LoginStep::Ready }
    }

    /// Starts: the user is looked up by email.
    pub fn execute(self, email: String, password: String) -> (r: (Self, Progress<LoginResult>))
        ensures
            r.0.jwt == self.jwt,
            r.0.step == (LoginStep::FindingUser { password }),
            r.1 == Progress::<LoginResult>::Run(Op::FindUserByEmail(email)),
    {
        (
            Login { jwt: self.jwt, step: LoginStep::FindingUser { password } },
            Progress::Run(Op::FindUserByEmail(email)),
        )
    }

    /// An unknown email or a wrong password fails alike; otherwise the user is
    /// saved, an access and a refresh token are signed at `now`, the refresh token
    /// is stored, and the result carries both tokens and the user.
    pub fn resume(self, outcome: Outcome, now: i64) -> (r: (Self, Progress<LoginResult>))
        requires
            is_instant(now as int),
        ensures
            r.0.jwt == self.jwt,
            match (self.step, outcome) {
                (LoginStep::FindingUser { password }, Outcome::UserFound(Ok(Some(u)))) => r.0.step
                    == (LoginStep::CheckingPassword { user: u }) && r.1 == Progress::<
                    LoginResult,
                >::Run(Op::VerifyPassword(password, u.password_hash)),
                (LoginStep::FindingUser { .. }, Outcome::UserFound(Ok(None))) => r.0.step is Done
                    && ends_in_failure(r.1, "Invalid email or password"@),
                (LoginStep::FindingUser { .. }, Outcome::UserFound(Err(e))) => r.0.step is Done
                    && ends_with(r.1, e),
                (LoginStep::CheckingPassword { user }, Outcome::Verdict(Ok(true))) => r.0.step == (
                LoginStep::SavingUser { user }) && r.1 == Progress::<LoginResult>::Run(
                    Op::UpdateUser(user),
                ),
                (LoginStep::CheckingPassword { .. }, Outcome::Verdict(Ok(false))) => r.0.step is Done
                    && ends_in_failure(r.1, "Invalid email or password"@),
                (LoginStep::CheckingPassword { .. }, Outcome::Verdict(Err(e))) => r.0.step is Done
                    && ends_with(r.1, e),
                (LoginStep::SavingUser { user }, Outcome::UserSaved(Ok(_))) => match access_token_for(
                    self.jwt,
                    user.id,
                    user.email@,
                    now as int,
                ) {
                    Err(m) => r.0.step is Done && ends_in_failure(r.1, m),
                    Ok(a) => match refresh_token_for(self.jwt, user.id, user.email@, now as int) {
                        Err(m) => r.0.step is Done && ends_in_failure(r.1, m),
                        Ok((t, at)) => (r.0.step matches LoginStep::StoringRefresh {
                            user: u,
                            access_token,
                            refresh_token,
                        } && u == user && access_token@ == a && refresh_token@ == t)
                            && stores_refresh_token(r.1, user.id, t, at),
                    },
                },
                (LoginStep::SavingUser { .. }, Outcome::UserSaved(Err(_))) => r.0.step is Done
                    && ends_in_failure(r.1, "Failed to update user last login"@),
                (
                    LoginStep::StoringRefresh { user, access_token, refresh_token },
                    Outcome::Completed(Ok(())),
                ) => r.0.step is Done && r.1 == Progress::Finish(
                    Ok::<LoginResult, AppError>(
                        LoginResult { access_token, refresh_token, requires_2fa: false, user },
                    ),
                ),
                (LoginStep::StoringRefresh { .. }, Outcome::Completed(Err(_))) => r.0.step is Done
                    && ends_in_failure(r.1, "Failed to store refresh token"@),
                _ => r.0.step is Done && ends_out_of_turn(r.1),
            },
    {
        let Login { jwt, step } = self;
        match (step, outcome) {
            (LoginStep::FindingUser { password }, Outcome::UserFound(found)) => match found {
                Ok(Some(u)) => {
                    let hash = u.password_hash.clone();
                    (
                        Login { jwt, step: LoginStep::CheckingPassword { user: u } },
                        Progress::Run(Op::VerifyPassword(password, hash)),
                    )
                },
                Ok(None) => (
                    Login { jwt, step: LoginStep::Done },
                    failure("Invalid email or password"),
                ),
                Err(e) => (Login { jwt, step: LoginStep::Done }, Progress::Finish(Err(e))),
            },
            (LoginStep::CheckingPassword { user }, Outcome::Verdict(verdict)) => match verdict {
                Ok(true) => {
                    let saved = user.duplicate();
                    (
                        Login { jwt, step: LoginStep::SavingUser { user } },
                        Progress::Run(Op::UpdateUser(saved)),
                    )
                },
                Ok(false) => (
                    Login { jwt, step: LoginStep::Done },
                    failure("Invalid email or password"),
                ),
                Err(e) => (Login { jwt, step: LoginStep::Done }, Progress::Finish(Err(e))),
            },
            (LoginStep::SavingUser { user }, Outcome::UserSaved(saved)) => match saved {
                Ok(_) => {
                    let access_token = match jwt.generate_access_token_at(user.id, user.email.clone(), now) {
                        Ok(a) => a,
                        Err(m) => {
                            return (Login { jwt, step: LoginStep::Done }, failure(m.as_str()));
                        },
                    };
                    let (refresh_token, expires_at) = match jwt.generate_refresh_token_at(
                        user.id,
                        user.email.clone(),
                        now,
                    ) {
                        Ok(p) => p,
                        Err(m) => {
                            return (Login { jwt, step: LoginStep::Done }, failure(m.as_str()));
                        },
                    };
                    let stored = RefreshToken::new(user.id, refresh_token.clone(), expires_at);
                    (
                        Login { jwt, step: LoginStep::StoringRefresh { user, access_token, refresh_token } },
                        Progress::Run(Op::StoreRefreshToken(stored)),
                    )
                },
                Err(_) => (
                    Login { jwt, step: LoginStep::Done },
                    failure("Failed to update user last login"),
                ),
            },
            (
                LoginStep::StoringRefresh { user, access_token, refresh_token },
                Outcome::Completed(stored),
            ) => match stored {
                Ok(()) => (
                    Login { jwt, step: LoginStep::Done },
                    Progress::Finish(
                        Ok(LoginResult { access_token, refresh_token, requires_2fa: false, user }),
                    ),
                ),
                Err(_) => (
                    Login { jwt, step: LoginStep::Done },
                    failure("Failed to store refresh token"),
                ),
            },
            _ => (Login { jwt, step: LoginStep::Done }, out_of_turn()),
        }
    }
}

/// Where a token refresh stands.
#[derive(Debug)]
pub enum RefreshStep {
    Ready,
    FindingStored { claims: Claims },
    DeletingExpired,
    FindingUser,
    Done,
}

/// Issues a new access token for a valid refresh token.
pub struct RefreshAccessToken {
    pub jwt: JwtService,
    pub step: RefreshStep,
}

impl RefreshAccessToken {
    pub fn new(jwt: JwtService) -> (s: Self)
        ensures
            s.jwt == jwt,
            s.step is Ready,
    {
        RefreshAccessToken { jwt, step: RefreshStep::Ready }
    }

    /// Starts: the refresh token's signature is checked and its claims read at
    /// instant `now`. A token that does not verify or has expired, or that is no
    /// refresh token, is refused; otherwise its stored record is looked up.
    pub fn execute(self, refresh_token: String, now: i64) -> (r: (Self, Progress<String>))
        requires
            is_instant(now as int),
        ensures
            r.0.jwt == self.jwt,
            match verified_claims(self.jwt.secret@, refresh_token@, now as int) {
                Err(_) => r.0.step is Done && ends_unauthorized(
                    r.1,
                    "Invalid or expired refresh token"@,
                ),
                Ok(c) => if c.3 != "refresh"@ {
                    r.0.step is Done && ends_unauthorized(r.1, "Token is not a refresh token"@)
                } else {
                    r.0.step matches RefreshStep::FindingStored { claims } && claims.fields() == c
                        && r.1 == Progress::<String>::Run(Op::FindRefreshToken(refresh_token))
                },
            },
    {
        let jwt = self.jwt;
        match jwt.verify_token_at(refresh_token.as_str(), now) {
            Err(_) => (
                RefreshAccessToken { jwt, step: RefreshStep::Done },
                Progress::Finish(
                    Err(AppError::Unauthorized(String::from_str("Invalid or expired refresh token"))),
                ),
            ),
            Ok(c) => {
                if !c.is_refresh_token() {
                    (
                        RefreshAccessToken { jwt, step: RefreshStep::Done },
                        Progress::Finish(
                            Err(AppError::Unauthorized(String::from_str("Token is not a refresh token"))),
                        ),
                    )
                } else {
                    (
                        RefreshAccessToken { jwt, step: RefreshStep::FindingStored { claims: c } },
                        Progress::Run(Op::FindRefreshToken(refresh_token)),
                    )
                }
            },
        }
    }

    /// A token that is not stored, or whose stored record has expired at `now`
    /// (which is then deleted), is refused; so is one whose user is gone. Otherwise
    /// an access token for the user is signed at `now` and is the result.
    pub fn resume(self, outcome: Outcome, now: i64) -> (r: (Self, Progress<String>))
        requires
            is_instant(now as int),
        ensures
            r.0.jwt == self.jwt,
            match (self.step, outcome) {
            (RefreshStep::FindingStored { .. }, Outcome::RefreshTokenFound(Ok(None))) => r.0.step is Done
                    && ends_unauthorized(r.1, "Refresh token not found or revoked"@),
                (RefreshStep::FindingStored { .. }, Outcome::RefreshTokenFound(Err(e))) => r.0.step is Done
                    && ends_with(r.1, e),
                (RefreshStep::FindingStored { claims }, Outcome::RefreshTokenFound(Ok(Some(t)))) => if t.expired_at(
                    now as int,
                ) {
                    r.0.step is DeletingExpired && r.1 == Progress::<String>::Run(
                        Op::DeleteRefreshToken(t.id),
                    )
                } else {
                    r.0.step is FindingUser && r.1 == Progress::<String>::Run(
                        Op::FindUserById(claims.sub),
                    )
                },
                (RefreshStep::DeletingExpired, Outcome::Completed(_)) => r.0.step is Done
                    && ends_unauthorized(r.1, "Refresh token has expired"@),
                (RefreshStep::FindingUser, Outcome::UserFound(Ok(None))) => r.0.step is Done
                    && ends_unauthorized(r.1, "User not found"@),
                (RefreshStep::FindingUser, Outcome::UserFound(Err(e))) => r.0.step is Done
                    && ends_with(r.1, e),
                (RefreshStep::FindingUser, Outcome::UserFound(Ok(Some(u)))) => r.0.step is Done
                    && match access_token_for(self.jwt, u.id, u.email@, now as int) {
                    Ok(a) => r.1 matches Progress::Finish(Ok(t)) && t@ == a,
                    Err(m) => ends_in_internal_error(r.1, "Failed to generate access token: "@ + m),
                },
                _ => r.0.step is Done && ends_out_of_turn(r.1),
            },
    {
        let RefreshAccessToken { jwt, step } = self;
        match (step, outcome) {
            (RefreshStep::FindingStored { claims }, Outcome::RefreshTokenFound(found)) => match found {
                Ok(None) => (
                    RefreshAccessToken { jwt, step: RefreshStep::Done },
                    Progress::Finish(
                        Err(
                            AppError::Unauthorized(
                                String::from_str("Refresh token not found or revoked"),
                            ),
                        ),
                    ),
                ),
                Err(e) => (RefreshAccessToken { jwt, step: RefreshStep::Done }, Progress::Finish(Err(e))),
                Ok(Some(t)) => {
                    if t.is_expired_at(now) {
                        (
                            RefreshAccessToken { jwt, step: RefreshStep::DeletingExpired },
                            Progress::Run(Op::DeleteRefreshToken(t.id)),
                        )
                    } else {
                        (
                            RefreshAccessToken { jwt, step: RefreshStep::FindingUser },
                            Progress::Run(Op::FindUserById(claims.sub)),
                        )
                    }
                },
            },
            (RefreshStep::DeletingExpired, Outcome::Completed(_)) => (
                RefreshAccessToken { jwt, step: RefreshStep::Done },
                Progress::Finish(
                    Err(AppError::Unauthorized(String::from_str("Refresh token has expired"))),
                ),
            ),
            (RefreshStep::FindingUser, Outcome::UserFound(found)) => match found {
                Ok(None) => (
                    RefreshAccessToken { jwt, step: RefreshStep::Done },
                    Progress::Finish(Err(AppError::Unauthorized(String::from_str("User not found")))),
                ),
                Err(e) => (RefreshAccessToken { jwt, step: RefreshStep::Done }, Progress::Finish(Err(e))),
                Ok(Some(u)) => match jwt.generate_access_token_at(u.id, u.email, now) {
                    Ok(a) => (RefreshAccessToken { jwt, step: RefreshStep::Done }, Progress::Finish(Ok(a))),
                    Err(m) => (
                        RefreshAccessToken { jwt, step: RefreshStep::Done },
                        Progress::Finish(
                            Err(
                                AppError::InternalError(
                                    joined("Failed to generate access token: ", m.as_str()),
                                ),
                            ),
                        ),
                    ),
                },
            },
            _ => (RefreshAccessToken { jwt, step: RefreshStep::Done }, out_of_turn()),
        }
    }
}

/// Signs a user out of one session by revoking its refresh token.
#[derive(Debug)]
pub enum Logout {
    Ready,
    Revoking,
    Done,
}

impl Logout {
    pub fn new() -> (s: Self)
        ensures
            s is Ready,
    {
        Logout::Ready
    }

    /// Starts: the refresh token is deleted.
    pub fn execute(self, refresh_token: String) -> (r: (Self, Progress<()>))
        ensures
            r.0 is Revoking,
            r.1 == Progress::<()>::Run(Op::DeleteRefreshTokenByValue(refresh_token)),
    {
        (Logout::Revoking, Progress::Run(Op::DeleteRefreshTokenByValue(refresh_token)))
    }

    /// The deletion's outcome is the result.
    pub fn resume(self, outcome: Outcome) -> (r: (Self, Progress<()>))
        ensures
            r.0 is Done,
            match (self, outcome) {
                (Logout::Revoking, Outcome::Completed(res)) => r.1 == Progress::Finish(res),
                _ => ends_out_of_turn(r.1),
            },
    {
        match (self, outcome) {
            (Logout::Revoking, Outcome::Completed(res)) => (Logout::Done, Progress::Finish(res)),
            _ => (Logout::Done, out_of_turn()),
        }
    }
}

/// Signs a user out of every session by revoking all of their refresh tokens.
#[derive(Debug)]
pub enum LogoutAll {
    Ready,
    Revoking,
    Done,
}

impl LogoutAll {
    pub fn new() -> (s: Self)
        ensures
            s is Ready,
    {
        LogoutAll::Ready
    }

    /// Starts: all refresh tokens of the user are deleted.
    pub fn execute(self, user_id: u128) -> (r: (Self, Progress<()>))
        ensures
            r.0 is Revoking,
            r.1 == Progress::<()>::Run(Op::DeleteRefreshTokensOfUser(user_id)),
    {
        (LogoutAll::Revoking, Progress::Run(Op::DeleteRefreshTokensOfUser(user_id)))
    }

    /// The deletion's outcome is the result.
    pub fn resume(self, outcome: Outcome) -> (r: (Self, Progress<()>))
        ensures
            r.0 is Done,
            match (self, outcome) {
                (LogoutAll::Revoking, Outcome::Completed(res)) => r.1 == Progress::Finish(res),
                _ => ends_out_of_turn(r.1),
            },
    {
        match (self, outcome) {
            (LogoutAll::Revoking, Outcome::Completed(res)) => (LogoutAll::Done, Progress::Finish(res)),
            _ => (LogoutAll::Done, out_of_turn()),
        }
    }
}

} // verus!
