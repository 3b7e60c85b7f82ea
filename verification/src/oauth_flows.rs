//! Signing in with Google: sending the user to Google, and taking them back in.
use vstd::prelude::*;

use crate::clock::{is_instant, new_id_text, uuid_text_of};
use crate::error::{internal_error, unauthorized_error, AppError};
use crate::flow::{
    ends_in_internal_error, ends_out_of_turn, ends_unauthorized, ends_with, out_of_turn, Op, Outcome,
    Progress,
};
use crate::oauth::GoogleOAuthService;
use crate::session_flows::stores_refresh_token;
use crate::text::joined;
use crate::tokens::{access_token_for, refresh_token_for, JwtService, RefreshToken};
use crate::users::{is_fresh_user, names_from_words, split_display_name, whitespace_words, User};

verus! {

/// Sends a user to Google's sign-in page.
#[derive(Clone, Debug)]
pub struct GoogleOAuthLogin {
    pub google_oauth_service: GoogleOAuthService,
}

impl GoogleOAuthLogin {
    pub fn new(google_oauth_service: GoogleOAuthService) -> (s: Self)
        ensures
            s.google_oauth_service == google_oauth_service,
    {
        GoogleOAuthLogin { google_oauth_service }
    }

    /// The address of Google's sign-in page for this application.
    pub fn execute(&self) -> (r: String)
        ensures
            r@ == self.google_oauth_service.authorization_url(),
    {
        self.google_oauth_service.get_authorization_url()
    }
}

/// The answer to a request to sign in with Google: where to send the user.
#[derive(Clone, Debug)]
pub struct GoogleOAuthLoginData {
    pub auth_url: String,
}

/// What a Google sign-in hands back.
#[derive(Debug)]
pub struct GoogleOAuthCallbackResult {
    pub access_token: String,
    pub refresh_token: String,
    pub is_new_user: bool,
}

/// Where a Google sign-in stands.
#[derive(Debug)]
pub enum CallbackStep {
    Ready,
    Fetching,
    FindingUser { email: String, name: String },
    UpdatingUser,
    Hashing { email: String, name: String },
    Creating,
    Storing { access_token: String, refresh_token: String, is_new_user: bool },
    Done,
}

/// Takes a user back from Google: signs in the account with the reported email
/// address, registering it first when there is none, and issues a pair of tokens.
pub struct GoogleOAuthCallback {
    pub jwt: JwtService,
    pub step: CallbackStep,
}

/// `r` has signed both tokens for `user` at `now` and asks to store the refresh
/// token; or, where a token cannot be issued, has ended saying why.
pub open spec fn issues_tokens(
    jwt: JwtService,
    user: User,
    is_new_user: bool,
    now: int,
    r: (GoogleOAuthCallback, Progress<GoogleOAuthCallbackResult>),
) -> bool {
    &&& r.0.jwt == jwt
    &&& match access_token_for(jwt, user.id, user.email@, now) {
        Err(m) => r.0.step is Done && ends_in_internal_error(
            r.1,
            "Failed to generate access token: "@ + m,
        ),
        Ok(a) => match refresh_token_for(jwt, user.id, user.email@, now) {
            Err(m) => r.0.step is Done && ends_in_internal_error(
                r.1,
                "Failed to generate refresh token: "@ + m,
            ),
            Ok((t, at)) => (r.0.step matches CallbackStep::Storing {
                access_token,
                refresh_token,
                is_new_user: n,
            } && access_token@ == a && refresh_token@ == t && n == is_new_user)
                && stores_refresh_token(r.1, user.id, t, at),
        },
    }
}

impl GoogleOAuthCallback {
    pub fn new(jwt: JwtService) -> (s: Self)
        ensures
            s.jwt == jwt,
            s.step is Ready,
    {
        GoogleOAuthCallback { jwt, step: CallbackStep::Ready }
    }

    /// Starts: the authorization code is exchanged for the Google profile.
    pub fn execute(self, code: String) -> (r: (Self, Progress<GoogleOAuthCallbackResult>))
        ensures
            r.0.jwt == self.jwt,
            r.0.step is Fetching,
            r.1 == Progress::<GoogleOAuthCallbackResult>::Run(Op::FetchGoogleUserInfo(code)),
    {
        (
            GoogleOAuthCallback { jwt: self.jwt, step: CallbackStep::Fetching },
            Progress::Run(Op::FetchGoogleUserInfo(code)),
        )
    }

    fn issue_tokens(jwt: JwtService, user: User, is_new_user: bool, now: i64) -> (r: (
        Self,
        Progress<GoogleOAuthCallbackResult>,
    ))
        requires
            is_instant(now as int),
        ensures
            issues_tokens(jwt, user, is_new_user, now as int, r),
    {
        let access_token = match jwt.generate_access_token_at(user.id, user.email.clone(), now) {
            Ok(a) => a,
            Err(m) => {
                return (
                    GoogleOAuthCallback { jwt, step: CallbackStep::Done },
                    Progress::Finish(
                        Err(
                            AppError::InternalError(
                                joined("Failed to generate access token: ", m.as_str()),
                            ),
                        ),
                    ),
                );
            },
        };
        let (refresh_token, expires_at) = match jwt.generate_refresh_token_at(
            user.id,
            user.email.clone(),
            now,
        ) {
            Ok(p) => p,
            Err(m) => {
                return (
                    GoogleOAuthCallback { jwt, step: CallbackStep::Done },
                    Progress::Finish(
                        Err(
                            AppError::InternalError(
                                joined("Failed to generate refresh token: ", m.as_str()),
                            ),
                        ),
                    ),
                );
            },
        };
        let stored = RefreshToken::new(user.id, refresh_token.clone(), expires_at);
        (
            GoogleOAuthCallback {
                jwt,
                step: CallbackStep::Storing { access_token, refresh_token, is_new_user },
            },
            Progress::Run(Op::StoreRefreshToken(stored)),
        )
    }

    /// A known email address signs in its stored user (after saving it); an unknown
    /// one registers a new user named from Google's display name, with a random
    /// identifier's text as password. Either way tokens are signed at `now` and the refresh token stored.
    pub fn resume(self, outcome: Outcome, now: i64) -> (r: (
        Self,
        Progress<GoogleOAuthCallbackResult>,
    ))
        requires
            is_instant(now as int),
        ensures
            r.0.jwt == self.jwt,
            match (self.step, outcome) {
                (CallbackStep::Fetching, Outcome::GoogleUser(Err(e))) => r.0.step is Done
                    && ends_unauthorized(r.1, "Failed to get user info from Google: "@ + e.msg()),
                (CallbackStep::Fetching, Outcome::GoogleUser(Ok((email, name, _)))) => r.0.step == (
                CallbackStep::FindingUser { email, name }) && r.1 == Progress::<
                    GoogleOAuthCallbackResult,
                >::Run(Op::FindUserByEmail(email)),
                (CallbackStep::FindingUser { .. }, Outcome::UserFound(Err(e))) => r.0.step is Done
                    && ends_with(r.1, e),
                (CallbackStep::FindingUser { .. }, Outcome::UserFound(Ok(Some(u)))) => r.0.step is UpdatingUser
                    && r.1 == Progress::<GoogleOAuthCallbackResult>::Run(Op::UpdateUser(u)),
                (CallbackStep::FindingUser { email, name }, Outcome::UserFound(Ok(None))) => r.0.step
                    == (CallbackStep::Hashing { email, name }) && (r.1 matches Progress::Run(
                    Op::HashPassword(pw),
                ) && exists|id: u128| pw@ == #[trigger] uuid_text_of(id)),
                (CallbackStep::UpdatingUser, Outcome::UserSaved(Ok(u))) => issues_tokens(
                    self.jwt,
                    u,
                    false,
                    now as int,
                    r,
                ),
                (CallbackStep::UpdatingUser, Outcome::UserSaved(Err(e))) => r.0.step is Done
                    && ends_in_internal_error(r.1, "Failed to update user: "@ + e.msg()),
                (CallbackStep::Hashing { email, name }, Outcome::Text(Ok(h))) => r.0.step is Creating
                    && (r.1 matches Progress::Run(Op::CreateUser(u)) && is_fresh_user(
                    u,
                    email@,
                    h@,
                    names_from_words(whitespace_words(name@)).0,
                    names_from_words(whitespace_words(name@)).1,
                )),
                (CallbackStep::Hashing { .. }, Outcome::Text(Err(e))) => r.0.step is Done
                    && ends_in_internal_error(r.1, "Failed to hash password: "@ + e.msg()),
                (CallbackStep::Creating, Outcome::UserSaved(Ok(u))) => issues_tokens(
                    self.jwt,
                    u,
                    true,
                    now as int,
                    r,
                ),
                (CallbackStep::Creating, Outcome::UserSaved(Err(e))) => r.0.step is Done
                    && ends_in_internal_error(r.1, "Failed to create user: "@ + e.msg()),
                (
                    CallbackStep::Storing { access_token, refresh_token, is_new_user },
                    Outcome::Completed(Ok(())),
                ) => r.0.step is Done && r.1 == Progress::Finish(
                    Ok::<GoogleOAuthCallbackResult, AppError>(
                        GoogleOAuthCallbackResult { access_token, refresh_token, is_new_user },
                    ),
                ),
                (CallbackStep::Storing { .. }, Outcome::Completed(Err(e))) => r.0.step is Done
                    && ends_in_internal_error(r.1, "Failed to store refresh token: "@ + e.msg()),
                _ => r.0.step is Done && ends_out_of_turn(r.1),
            },
    {
        let GoogleOAuthCallback { jwt, step } = self;
        match (step, outcome) {
            (CallbackStep::Fetching, Outcome::GoogleUser(fetched)) => match fetched {
                Err(e) => (
                    GoogleOAuthCallback { jwt, step: CallbackStep::Done },
                    Progress::Finish(
                        Err(unauthorized_error("Failed to get user info from Google: ", &e)),
                    ),
                ),
                Ok((email, name, _google_id)) => {
                    let looked_up = email.clone();
                    (
                        GoogleOAuthCallback { jwt, step: CallbackStep::FindingUser { email, name } },
                        Progress::Run(Op::FindUserByEmail(looked_up)),
                    )
                },
            },
            (CallbackStep::FindingUser { email, name }, Outcome::UserFound(found)) => match found {
                Err(e) => (
                    GoogleOAuthCallback { jwt, step: CallbackStep::Done },
                    Progress::Finish(Err(e)),
                ),
                Ok(Some(u)) => (
                    GoogleOAuthCallback { jwt, step: CallbackStep::UpdatingUser },
                    Progress::Run(Op::UpdateUser(u)),
                ),
                Ok(None) => {
                    let random_password = new_id_text();
                    (
                        GoogleOAuthCallback { jwt, step: CallbackStep::Hashing { email, name } },
                        Progress::Run(Op::HashPassword(random_password)),
                    )
                },
            },
            (CallbackStep::UpdatingUser, Outcome::UserSaved(saved)) => match saved {
                Ok(u) => Self::issue_tokens(jwt, u, false, now),
                Err(e) => (
                    GoogleOAuthCallback { jwt, step: CallbackStep::Done },
                    Progress::Finish(Err(internal_error("Failed to update user: ", &e))),
                ),
            },
            (CallbackStep::Hashing { email, name }, Outcome::Text(hashed)) => match hashed {
                Ok(h) => {
                    let (first_name, last_name) = split_display_name(name.as_str());
                    let user = User::new(email, h, first_name, last_name);
                    (
                        GoogleOAuthCallback { jwt, step: CallbackStep::Creating },
                        Progress::Run(Op::CreateUser(user)),
                    )
                },
                Err(e) => (
                    GoogleOAuthCallback { jwt, step: CallbackStep::Done },
                    Progress::Finish(Err(internal_error("Failed to hash password: ", &e))),
                ),
            },
            (CallbackStep::Creating, Outcome::UserSaved(saved)) => match saved {
                Ok(u) => Self::issue_tokens(jwt, u, true, now),
                Err(e) => (
                    GoogleOAuthCallback { jwt, step: CallbackStep::Done },
                    Progress::Finish(Err(internal_error("Failed to create user: ", &e))),
                ),
            },
            (
                CallbackStep::Storing { access_token, refresh_token, is_new_user },
                Outcome::Completed(stored),
            ) => match stored {
                Ok(()) => (
                    GoogleOAuthCallback { jwt, step: CallbackStep::Done },
                    Progress::Finish(
                        Ok(GoogleOAuthCallbackResult { access_token, refresh_token, is_new_user }),
                    ),
                ),
                Err(e) => (
                    GoogleOAuthCallback { jwt, step: CallbackStep::Done },
                    Progress::Finish(Err(internal_error("Failed to store refresh token: ", &e))),
                ),
            },
            _ => (GoogleOAuthCallback { jwt, step: CallbackStep::Done }, out_of_turn()),
        }
    }
}

} // verus!
