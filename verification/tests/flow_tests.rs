use fta::account_flows::{DeactivateAccount, DeleteAccount, GetAccount, UpdateAccount};
use fta::accounts::{Account, AccountType};
use fta::error::AppError;
use fta::flow::{Op, Outcome, Progress};
use fta::oauth_flows::GoogleOAuthCallback;
use fta::password_flows::{ChangePassword, RequestPasswordReset, ResetPassword};
use fta::registration_flows::{RegisterUser, VerifyEmail};
use fta::session_flows::{Login, Logout, RefreshAccessToken};
use fta::tokens::{EmailVerification, JwtService, PasswordResetToken, RefreshToken};
use fta::two_factor::TwoFactorService;
use fta::two_factor_flows::{Disable2FA, Enable2FA, Verify2FA};
use fta::user_flows::{CreateUser, DeleteUser, UpdateUser};
use fta::users::User;

const NOW: i64 = 1_700_000_000_000_000;

fn user(first: Option<&str>, last: Option<&str>) -> User {
    User::new(
        "ada@example.com".to_string(),
        "hash".to_string(),
        first.map(|s| s.to_string()),
        last.map(|s| s.to_string()),
    )
}

fn failure_message<T>(p: &Progress<T>) -> Option<String> {
    match p {
        Progress::Finish(Err(e)) => Some(e.message().clone()),
        _ => None,
    }
}

fn claims_of(token: &str) -> serde_json::Value {
    let mut validation = jsonwebtoken::Validation::default();
    validation.validate_exp = false;
    jsonwebtoken::decode::<serde_json::Value>(
        token,
        &jsonwebtoken::DecodingKey::from_secret(b"secret"),
        &validation,
    )
    .unwrap()
    .claims
}

#[test]
fn login_issues_both_tokens_and_stores_the_refresh_token() {
    let jwt = JwtService::new("secret", None, None);
    let u = user(Some("Ada"), None);
    let id = u.id;
    let (s, p) = Login::new(jwt).execute("ada@example.com".to_string(), "pw".to_string());
    assert!(matches!(p, Progress::Run(Op::FindUserByEmail(ref e)) if e == "ada@example.com"));
    let (s, p) = s.resume(Outcome::UserFound(Ok(Some(u))), NOW);
    assert!(matches!(p, Progress::Run(Op::VerifyPassword(ref pw, ref h)) if pw == "pw" && h == "hash"));
    let (s, p) = s.resume(Outcome::Verdict(Ok(true)), NOW);
    let saved = match p {
        Progress::Run(Op::UpdateUser(u)) => u,
        other => panic!("unexpected {:?}", other),
    };
    let (s, p) = s.resume(Outcome::UserSaved(Ok(saved)), NOW);
    let stored = match p {
        Progress::Run(Op::StoreRefreshToken(t)) => t,
        other => panic!("unexpected {:?}", other),
    };
    assert_eq!(stored.user_id, id);
    assert_eq!(stored.expires_at, NOW + 10080 * 60 * 1_000_000);
    let refresh_claims = claims_of(&stored.token);
    assert_eq!(refresh_claims["token_type"], "refresh");
    assert_eq!(refresh_claims["exp"], NOW / 1_000_000 + 10080 * 60);
    let (_, p) = s.resume(Outcome::Completed(Ok(())), NOW);
    match p {
        Progress::Finish(Ok(r)) => {
            let access_claims = claims_of(&r.access_token);
            assert_eq!(access_claims["token_type"], "access");
            assert_eq!(access_claims["sub"], uuid::Uuid::from_u128(id).to_string());
            assert_eq!(access_claims["email"], "ada@example.com");
            assert_eq!(access_claims["exp"], NOW / 1_000_000 + 15 * 60);
            assert_eq!(r.refresh_token, stored.token);
            assert!(!r.requires_2fa);
            assert_eq!(r.user.id, id);
        }
        other => panic!("unexpected {:?}", other),
    }
}

#[test]
fn login_fails_when_the_refresh_token_is_not_stored() {
    let jwt = JwtService::new("secret", None, None);
    let (s, _) = Login::new(jwt).execute("x@y.z".to_string(), "pw".to_string());
    let (s, _) = s.resume(Outcome::UserFound(Ok(Some(user(None, None)))), NOW);
    let (s, _) = s.resume(Outcome::Verdict(Ok(true)), NOW);
    let (s, _) = s.resume(Outcome::UserSaved(Ok(user(None, None))), NOW);
    let (_, p) = s.resume(Outcome::Completed(Err(AppError::Failure("db".to_string()))), NOW);
    assert_eq!(failure_message(&p), Some("Failed to store refresh token".to_string()));
}

#[test]
fn login_reports_an_expiry_beyond_the_calendar() {
    let jwt = JwtService::new("secret", Some(i64::MAX), None);
    let (s, _) = Login::new(jwt).execute("x@y.z".to_string(), "pw".to_string());
    let (s, _) = s.resume(Outcome::UserFound(Ok(Some(user(None, None)))), NOW);
    let (s, _) = s.resume(Outcome::Verdict(Ok(true)), NOW);
    let (_, p) = s.resume(Outcome::UserSaved(Ok(user(None, None))), NOW);
    assert_eq!(
        failure_message(&p),
        Some("Failed to generate access token: expiry out of range".to_string())
    );
}

#[test]
fn login_refuses_unknown_email_and_wrong_password_alike() {
    let jwt = JwtService::new("secret", None, None);
    let (s, _) = Login::new(jwt.clone()).execute("x@y.z".to_string(), "pw".to_string());
    let (_, p) = s.resume(Outcome::UserFound(Ok(None)), NOW);
    assert_eq!(failure_message(&p), Some("Invalid email or password".to_string()));

    let (s, _) = Login::new(jwt).execute("x@y.z".to_string(), "pw".to_string());
    let (s, _) = s.resume(Outcome::UserFound(Ok(Some(user(None, None)))), NOW);
    let (_, p) = s.resume(Outcome::Verdict(Ok(false)), NOW);
    assert_eq!(failure_message(&p), Some("Invalid email or password".to_string()));
}

#[test]
fn answering_out_of_turn_ends_the_use_case() {
    let jwt = JwtService::new("secret", None, None);
    let (s, _) = Login::new(jwt).execute("x@y.z".to_string(), "pw".to_string());
    let (_, p) = s.resume(Outcome::Counted(Ok(3)), NOW);
    assert!(matches!(p, Progress::Finish(Err(AppError::InternalError(ref m))) if m == "operation answered out of turn"));
}

#[test]
fn registration_refuses_a_taken_address() {
    let (s, _) = RegisterUser::new().execute("a@b.c".to_string(), "pw".to_string(), None, None);
    let (_, p) = s.resume(Outcome::UserFound(Ok(Some(user(None, None)))), NOW);
    assert!(matches!(p, Progress::Finish(Err(AppError::Conflict(ref m))) if m == "User with this email already exists"));
}

#[test]
fn registration_stores_and_mails_a_ten_minute_code() {
    let (s, _) = RegisterUser::new().execute(
        "ada@example.com".to_string(),
        "pw".to_string(),
        Some("Ada".to_string()),
        Some("Lovelace".to_string()),
    );
    let (s, p) = s.resume(Outcome::UserFound(Ok(None)), NOW);
    assert!(matches!(p, Progress::Run(Op::HashPassword(ref pw)) if pw == "pw"));
    let (s, p) = s.resume(Outcome::Text(Ok("H".to_string())), NOW);
    let created = match p {
        Progress::Run(Op::CreateUser(u)) => u,
        other => panic!("unexpected {:?}", other),
    };
    assert_eq!(created.password_hash, "H");
    assert!(!created.email_verified);
    let id = created.id;
    let (s, p) = s.resume(Outcome::UserSaved(Ok(created)), NOW);
    assert!(matches!(p, Progress::Run(Op::GenerateOtp)));
    let (s, p) = s.resume(Outcome::Text(Ok("123456".to_string())), NOW);
    match &p {
        Progress::Run(Op::StoreEmailVerification(v)) => {
            assert_eq!(v.user_id, id);
            assert_eq!(v.otp_code, "123456");
            assert_eq!(v.expires_at, NOW + 600_000_000);
        }
        other => panic!("unexpected {:?}", other),
    }
    let (s, p) = s.resume(Outcome::Completed(Ok(())), NOW);
    match &p {
        Progress::Run(Op::SendEmail(m)) => {
            assert_eq!(m.to_email, "ada@example.com");
            assert_eq!(m.to_name, "Ada Lovelace");
            assert_eq!(m.subject, "Verify Your Email Address");
            assert!(m.html_body.contains("<p>Hi Ada Lovelace,</p>"));
            assert!(m.html_body.contains(">123456</h1>"));
        }
        other => panic!("unexpected {:?}", other),
    }
    let (_, p) = s.resume(Outcome::Completed(Ok(())), NOW);
    assert!(matches!(p, Progress::Finish(Ok(x)) if x == id));
}

#[test]
fn registration_errors_name_the_failed_step() {
    let (s, _) = RegisterUser::new().execute("a@b.c".to_string(), "pw".to_string(), None, None);
    let (s, _) = s.resume(Outcome::UserFound(Ok(None)), NOW);
    let (_, p) = s.resume(Outcome::Text(Err(AppError::Failure("weak".to_string()))), NOW);
    assert!(matches!(p, Progress::Finish(Err(AppError::InternalError(ref m))) if m == "Failed to hash password: weak"));
}

#[test]
fn email_confirmation_checks_the_code() {
    let u = user(None, None);
    let id = u.id;
    let v = EmailVerification::issued_at(id, "111111".to_string(), 10, NOW).unwrap();
    let vid = v.id;
    let (s, _) = VerifyEmail::new().execute(id, "111111".to_string());
    let (s, p) = s.resume(Outcome::UserFound(Ok(Some(u))), NOW);
    assert!(matches!(p, Progress::Run(Op::FindEmailVerification(x)) if x == id));
    let (s, p) = s.resume(Outcome::VerificationFound(Ok(Some(v))), NOW);
    match &p {
        Progress::Run(Op::UpdateUser(saved)) => {
            assert!(saved.email_verified);
            assert_eq!(saved.id, id);
        }
        other => panic!("unexpected {:?}", other),
    }
    let (s, p) = s.resume(Outcome::UserSaved(Ok(user(None, None))), NOW);
    assert!(matches!(p, Progress::Run(Op::DeleteEmailVerification(x)) if x == vid));
    let (_, p) = s.resume(Outcome::Completed(Ok(())), NOW);
    assert!(matches!(p, Progress::Finish(Ok(()))));

    let u = user(None, None);
    let v = EmailVerification::issued_at(u.id, "111111".to_string(), 10, NOW).unwrap();
    let (s, _) = VerifyEmail::new().execute(u.id, "222222".to_string());
    let (s, _) = s.resume(Outcome::UserFound(Ok(Some(u))), NOW);
    let (_, p) = s.resume(Outcome::VerificationFound(Ok(Some(v))), NOW);
    assert_eq!(failure_message(&p), Some("Invalid or expired OTP code".to_string()));
}

#[test]
fn refresh_refuses_an_access_token_and_an_expired_record() {
    let jwt = JwtService::new("secret", None, None);
    let access = jwt.generate_access_token_at(1, "e".to_string(), NOW).unwrap();
    let (_, p) = RefreshAccessToken::new(jwt.clone()).execute(access, NOW);
    assert!(matches!(p, Progress::Finish(Err(AppError::Unauthorized(ref m))) if m == "Token is not a refresh token"));

    let (refresh, _) = jwt.generate_refresh_token_at(1, "e".to_string(), NOW).unwrap();
    let (s, p) = RefreshAccessToken::new(jwt.clone()).execute(refresh.clone(), NOW);
    assert!(matches!(p, Progress::Run(Op::FindRefreshToken(ref t)) if *t == refresh));
    let stored = RefreshToken::new(1, refresh.clone(), NOW - 1);
    let stored_id = stored.id;
    let (s, p) = s.resume(Outcome::RefreshTokenFound(Ok(Some(stored))), NOW);
    assert!(matches!(p, Progress::Run(Op::DeleteRefreshToken(x)) if x == stored_id));
    let (_, p) = s.resume(Outcome::Completed(Err(AppError::Failure("db".to_string()))), NOW);
    assert!(matches!(p, Progress::Finish(Err(AppError::Unauthorized(ref m))) if m == "Refresh token has expired"));

    let later = NOW + 10081 * 60 * 1_000_000;
    let (_, p) = RefreshAccessToken::new(jwt.clone()).execute(refresh, later);
    assert!(matches!(p, Progress::Finish(Err(AppError::Unauthorized(ref m))) if m == "Invalid or expired refresh token"));

    let (_, p) = RefreshAccessToken::new(jwt).execute("t".to_string(), NOW);
    assert!(matches!(p, Progress::Finish(Err(AppError::Unauthorized(ref m))) if m == "Invalid or expired refresh token"));
}

#[test]
fn refresh_signs_a_new_access_token() {
    let jwt = JwtService::new("secret", Some(5), None);
    let u = user(None, None);
    let (refresh, _) = jwt.generate_refresh_token_at(u.id, "e".to_string(), NOW).unwrap();
    let (s, _) = RefreshAccessToken::new(jwt).execute(refresh.clone(), NOW);
    let stored = RefreshToken::new(u.id, refresh, NOW + 1);
    let (s, p) = s.resume(Outcome::RefreshTokenFound(Ok(Some(stored))), NOW);
    assert!(matches!(p, Progress::Run(Op::FindUserById(x)) if x == u.id));
    let id = u.id;
    let (_, p) = s.resume(Outcome::UserFound(Ok(Some(u))), NOW);
    match p {
        Progress::Finish(Ok(token)) => {
            let claims = claims_of(&token);
            assert_eq!(claims["token_type"], "access");
            assert_eq!(claims["sub"], uuid::Uuid::from_u128(id).to_string());
            assert_eq!(claims["exp"], NOW / 1_000_000 + 300);
        }
        other => panic!("unexpected {:?}", other),
    }
}

#[test]
fn reset_refuses_a_spent_token_and_spends_a_valid_one() {
    let mut spent = PasswordResetToken::issued_at(1, "tok".to_string(), 60, NOW).unwrap();
    spent.mark_as_used();
    let (s, _) = ResetPassword::new().execute("tok".to_string(), "newpassword".to_string());
    let (_, p) = s.resume(Outcome::ResetTokenFound(Ok(Some(spent))), NOW);
    assert!(matches!(p, Progress::Finish(Err(AppError::BadRequest(ref m))) if m == "Invalid or expired reset token"));

    let u = user(None, None);
    let fresh = PasswordResetToken::issued_at(u.id, "tok".to_string(), 60, NOW).unwrap();
    let (s, _) = ResetPassword::new().execute("tok".to_string(), "newpassword".to_string());
    let (s, p) = s.resume(Outcome::ResetTokenFound(Ok(Some(fresh))), NOW);
    assert!(matches!(p, Progress::Run(Op::FindUserById(x)) if x == u.id));
    let (s, p) = s.resume(Outcome::UserFound(Ok(Some(u))), NOW);
    assert!(matches!(p, Progress::Run(Op::HashPassword(ref pw)) if pw == "newpassword"));
    let (s, p) = s.resume(Outcome::Text(Ok("H2".to_string())), NOW);
    let changed = match p {
        Progress::Run(Op::UpdateUser(u)) => u,
        other => panic!("unexpected {:?}", other),
    };
    assert_eq!(changed.password_hash, "H2");
    let (s, p) = s.resume(Outcome::UserSaved(Ok(changed)), NOW);
    assert!(matches!(p, Progress::Run(Op::UpdateResetToken(ref t)) if t.used));
    let (_, p) = s.resume(Outcome::Completed(Ok(())), NOW);
    assert!(matches!(p, Progress::Finish(Ok(()))));

    let (s, _) = ResetPassword::new().execute("tok".to_string(), "newpassword".to_string());
    let (s, _) = s.resume(Outcome::ResetTokenFound(Ok(Some(PasswordResetToken::issued_at(5, "tok".to_string(), 60, NOW).unwrap()))), NOW);
    let (_, p) = s.resume(Outcome::UserFound(Ok(None)), NOW);
    assert!(matches!(p, Progress::Finish(Err(AppError::NotFound(ref m))) if m == "User not found"));
}

#[test]
fn password_reset_request_is_silent_for_unknown_addresses() {
    let (s, _) = RequestPasswordReset::new().execute("no@one.x".to_string(), "https://app".to_string());
    let (_, p) = s.resume(Outcome::UserFound(Ok(None)), NOW);
    assert!(matches!(p, Progress::Finish(Ok(()))));
}

#[test]
fn password_reset_request_mails_a_link_with_a_fresh_token() {
    let u = user(None, None);
    let (s, _) = RequestPasswordReset::new().execute("ada@example.com".to_string(), "https://app".to_string());
    let (s, p) = s.resume(Outcome::UserFound(Ok(Some(u))), NOW);
    assert!(matches!(p, Progress::Run(Op::DeleteResetTokensOfUser(_))));
    let (s, p) = s.resume(Outcome::Completed(Err(AppError::Failure("ignored".to_string()))), NOW);
    let token = match p {
        Progress::Run(Op::StoreResetToken(t)) => {
            assert!(!t.used);
            assert_eq!(t.expires_at, NOW + 3_600_000_000);
            t.token
        }
        other => panic!("unexpected {:?}", other),
    };
    assert_eq!(token.len(), 64);
    let (s, p) = s.resume(Outcome::Completed(Ok(())), NOW);
    match &p {
        Progress::Run(Op::SendEmail(m)) => {
            assert_eq!(m.subject, "Reset Your Password");
            assert_eq!(m.to_name, "ada@example.com");
            let link = format!("https://app/reset-password?token={}", token);
            assert_eq!(m.html_body.matches(&link).count(), 2);
        }
        other => panic!("unexpected {:?}", other),
    }
    let (_, p) = s.resume(Outcome::Completed(Err(AppError::Failure("smtp".to_string()))), NOW);
    assert_eq!(failure_message(&p), Some("Failed to send password reset email".to_string()));
}

#[test]
fn change_password_requires_the_current_one() {
    let u = user(None, None);
    let (s, _) = ChangePassword::new().execute(u.id, "old".to_string(), "new-password".to_string());
    let (s, _) = s.resume(Outcome::UserFound(Ok(Some(u))));
    let (_, p) = s.resume(Outcome::Verdict(Ok(false)));
    assert_eq!(failure_message(&p), Some("Current password is incorrect".to_string()));
}

fn user_with_secret(secret: &str) -> User {
    let mut u = user(None, None);
    u.two_factor_secret = Some(secret.to_string());
    u
}

const SECRET: &str = "JBSWY3DPEHPK3PXPJBSWY3DPEHPK3PXP";

#[test]
fn verifying_a_code_checks_the_users_secret_and_turns_two_factor_on() {
    let service = TwoFactorService::new("App".to_string());
    let code = service.generate_code_at("x", SECRET, NOW).unwrap();

    let u = user_with_secret(SECRET);
    let id = u.id;
    let (s, _) = Verify2FA::new(service.clone()).execute(id, code.clone(), true);
    let (s, p) = s.resume(Outcome::UserFound(Ok(Some(u))), NOW);
    match &p {
        Progress::Run(Op::UpdateUser(saved)) => {
            assert!(saved.two_factor_enabled);
            assert_eq!(saved.two_factor_secret.as_deref(), Some(SECRET));
            assert_eq!(saved.id, id);
        }
        other => panic!("unexpected {:?}", other),
    }
    let (_, p) = s.resume(Outcome::UserSaved(Ok(user(None, None))), NOW);
    assert!(matches!(p, Progress::Finish(Ok(true))));

    let (s, _) = Verify2FA::new(service.clone()).execute(id, code.clone(), false);
    let (_, p) = s.resume(Outcome::UserFound(Ok(Some(user_with_secret(SECRET)))), NOW);
    assert!(matches!(p, Progress::Finish(Ok(true))));

    let wrong = if code == "000000" { "111111" } else { "000000" };
    let (s, _) = Verify2FA::new(service.clone()).execute(id, wrong.to_string(), true);
    let (_, p) = s.resume(Outcome::UserFound(Ok(Some(user_with_secret(SECRET)))), NOW);
    assert!(matches!(p, Progress::Finish(Ok(false))));

    let (s, _) = Verify2FA::new(service.clone()).execute(id, code.clone(), true);
    let (_, p) = s.resume(Outcome::UserFound(Ok(Some(user(None, None)))), NOW);
    assert!(matches!(p, Progress::Finish(Ok(false))));

    let (s, _) = Verify2FA::new(service).execute(id, code, true);
    let (_, p) = s.resume(Outcome::UserFound(Ok(Some(user_with_secret("placeholder")))), NOW);
    assert!(matches!(p, Progress::Finish(Err(AppError::InternalError(ref m))) if m == "2FA verification failed: Failed to decode secret"));
}

#[test]
fn disabling_two_factor_needs_password_and_a_current_code() {
    let service = TwoFactorService::new("App".to_string());
    let code = service.generate_code_at("x", SECRET, NOW).unwrap();

    let mut u = user_with_secret(SECRET);
    u.two_factor_enabled = true;
    let id = u.id;
    let (s, _) = Disable2FA::new(service.clone()).execute(id, "pw".to_string(), code.clone());
    let (s, _) = s.resume(Outcome::UserFound(Ok(Some(u))), NOW);
    let (s, p) = s.resume(Outcome::Verdict(Ok(true)), NOW);
    match &p {
        Progress::Run(Op::UpdateUser(saved)) => {
            assert!(!saved.two_factor_enabled);
            assert!(saved.two_factor_secret.is_none());
            assert_eq!(saved.id, id);
        }
        other => panic!("unexpected {:?}", other),
    }
    let (_, p) = s.resume(Outcome::UserSaved(Ok(user(None, None))), NOW);
    assert!(matches!(p, Progress::Finish(Ok(()))));

    let wrong = if code == "000000" { "111111" } else { "000000" };
    let (s, _) = Disable2FA::new(service.clone()).execute(id, "pw".to_string(), wrong.to_string());
    let (s, _) = s.resume(Outcome::UserFound(Ok(Some(user_with_secret(SECRET)))), NOW);
    let (_, p) = s.resume(Outcome::Verdict(Ok(true)), NOW);
    assert_eq!(failure_message(&p), Some("Invalid 2FA code".to_string()));

    let (s, _) = Disable2FA::new(service.clone()).execute(id, "pw".to_string(), code.clone());
    let (s, _) = s.resume(Outcome::UserFound(Ok(Some(user_with_secret(SECRET)))), NOW);
    let (_, p) = s.resume(Outcome::Verdict(Ok(false)), NOW);
    assert_eq!(failure_message(&p), Some("Invalid password".to_string()));

    let (s, _) = Disable2FA::new(service).execute(id, "pw".to_string(), code);
    let (s, _) = s.resume(Outcome::UserFound(Ok(Some(user_with_secret("placeholder")))), NOW);
    let (_, p) = s.resume(Outcome::Verdict(Ok(true)), NOW);
    assert_eq!(failure_message(&p), Some("Failed to decode secret".to_string()));
}

#[test]
fn enabling_two_factor_hands_back_secret_uri_and_qr_code() {
    let service = TwoFactorService::new("App".to_string());
    let u = user(None, None);
    let (s, _) = Enable2FA::new(service).execute(u.id);
    let (s, p) = s.resume(Outcome::UserFound(Ok(Some(u))));
    let stored = match &p {
        Progress::Run(Op::UpdateUser(saved)) => saved.two_factor_secret.clone().unwrap(),
        other => panic!("unexpected {:?}", other),
    };
    let (_, p) = s.resume(Outcome::UserSaved(Ok(user(None, None))));
    match p {
        Progress::Finish(Ok(r)) => {
            assert_eq!(r.secret, stored);
            assert_eq!(r.secret.len(), 32);
            assert!(r.provisioning_uri.starts_with("otpauth://totp/App:ada@example.com?secret="));
            assert!(r.provisioning_uri.contains(&r.secret));
            assert!(r.qr_code_svg.contains("<svg"));
        }
        other => panic!("unexpected {:?}", other),
    }
}

#[test]
fn google_sign_in_registers_an_unknown_address() {
    let jwt = JwtService::new("secret", None, None);
    let (s, p) = GoogleOAuthCallback::new(jwt).execute("code".to_string());
    assert!(matches!(p, Progress::Run(Op::FetchGoogleUserInfo(ref c)) if c == "code"));
    let (s, p) = s.resume(
        Outcome::GoogleUser(Ok(("g@x.y".to_string(), "  Grace  Brewster Hopper ".to_string(), "id".to_string()))),
        NOW,
    );
    assert!(matches!(p, Progress::Run(Op::FindUserByEmail(ref e)) if e == "g@x.y"));
    let (s, p) = s.resume(Outcome::UserFound(Ok(None)), NOW);
    match &p {
        Progress::Run(Op::HashPassword(pw)) => {
            assert_eq!(pw.len(), 36);
            assert_eq!(pw.matches('-').count(), 4);
            assert!(uuid::Uuid::parse_str(pw).is_ok());
        }
        other => panic!("unexpected {:?}", other),
    }
    let (s, p) = s.resume(Outcome::Text(Ok("H".to_string())), NOW);
    let created = match p {
        Progress::Run(Op::CreateUser(u)) => u,
        other => panic!("unexpected {:?}", other),
    };
    assert_eq!(created.first_name, Some("Grace".to_string()));
    assert_eq!(created.last_name, Some("Brewster Hopper".to_string()));
    let created_id = created.id;
    let (s, p) = s.resume(Outcome::UserSaved(Ok(created)), NOW);
    let stored = match p {
        Progress::Run(Op::StoreRefreshToken(t)) => t,
        other => panic!("unexpected {:?}", other),
    };
    assert_eq!(stored.user_id, created_id);
    let (_, p) = s.resume(Outcome::Completed(Ok(())), NOW);
    match p {
        Progress::Finish(Ok(r)) => {
            assert!(r.is_new_user);
            assert_eq!(claims_of(&r.access_token)["email"], "g@x.y");
            assert_eq!(r.refresh_token, stored.token);
        }
        other => panic!("unexpected {:?}", other),
    }
}

#[test]
fn google_sign_in_failure_is_unauthorized() {
    let jwt = JwtService::new("secret", None, None);
    let (s, _) = GoogleOAuthCallback::new(jwt).execute("code".to_string());
    let (_, p) = s.resume(Outcome::GoogleUser(Err(AppError::Failure("Token exchange failed: x".to_string()))), NOW);
    assert!(matches!(p, Progress::Finish(Err(AppError::Unauthorized(ref m))) if m == "Failed to get user info from Google: Token exchange failed: x"));
}

#[test]
fn logout_revokes_the_given_token() {
    let (s, p) = Logout::new().execute("tok".to_string());
    assert!(matches!(p, Progress::Run(Op::DeleteRefreshTokenByValue(ref t)) if t == "tok"));
    let (_, p) = s.resume(Outcome::Completed(Ok(())));
    assert!(matches!(p, Progress::Finish(Ok(()))));
}

#[test]
fn user_use_cases_report_missing_and_taken_users() {
    let (s, _) = CreateUser::new().execute("a@b.c".to_string(), "h".to_string(), None, None);
    let (_, p) = s.resume(Outcome::UserFound(Ok(Some(user(None, None)))));
    assert!(matches!(p, Progress::Finish(Err(AppError::Conflict(ref m))) if m == "User with this email already exists"));

    let (s, _) = DeleteUser::new().execute(9);
    let (_, p) = s.resume(Outcome::UserFound(Ok(None)));
    assert!(matches!(p, Progress::Finish(Err(AppError::NotFound(ref m))) if m == "User not found"));

    let (s, _) = UpdateUser::new().execute(9, Some("A".to_string()), None);
    let (s, p) = s.resume(Outcome::UserFound(Ok(Some(user(Some("Old"), Some("Name"))))));
    match &p {
        Progress::Run(Op::UpdateUser(u)) => {
            assert_eq!(u.first_name, Some("A".to_string()));
            assert_eq!(u.last_name, None);
        }
        other => panic!("unexpected {:?}", other),
    }
    let (_, p) = s.resume(Outcome::UserSaved(Ok(user(None, None))));
    assert!(matches!(p, Progress::Finish(Ok(_))));
}

fn account() -> Account {
    Account::new(1, "Main".to_string(), AccountType::Checking, 500, "USD".to_string())
}

#[test]
fn account_use_cases_report_missing_accounts() {
    let (s, _) = GetAccount::new().execute(3);
    let (_, p) = s.resume(Outcome::AccountFound(Ok(None)));
    assert!(matches!(p, Progress::Finish(Err(AppError::NotFound(ref m))) if m == "Account not found"));

    let (s, p) = DeleteAccount::new().execute(3);
    assert!(matches!(p, Progress::Run(Op::FindAccount(3))));
    let (s, p) = s.resume(Outcome::AccountFound(Ok(Some(account()))));
    assert!(matches!(p, Progress::Run(Op::DeleteAccount(3))));
    let (_, p) = s.resume(Outcome::Completed(Ok(())));
    assert!(matches!(p, Progress::Finish(Ok(()))));
}

#[test]
fn deactivation_and_renaming_change_only_their_fields() {
    let a = account();
    let (s, _) = DeactivateAccount::new().execute(a.id);
    let (_, p) = s.resume(Outcome::AccountFound(Ok(Some(a.clone()))));
    match &p {
        Progress::Run(Op::UpdateAccount(b)) => {
            assert!(!b.is_active);
            assert_eq!(b.balance, a.balance);
            assert_eq!(b.name, a.name);
        }
        other => panic!("unexpected {:?}", other),
    }

    let (s, _) = UpdateAccount::new().execute(a.id, Some("Savings".to_string()));
    let (_, p) = s.resume(Outcome::AccountFound(Ok(Some(a.clone()))));
    match &p {
        Progress::Run(Op::UpdateAccount(b)) => {
            assert_eq!(b.name, "Savings");
            assert!(b.is_active);
        }
        other => panic!("unexpected {:?}", other),
    }

    let (s, _) = UpdateAccount::new().execute(a.id, None);
    let (_, p) = s.resume(Outcome::AccountFound(Ok(Some(a.clone()))));
    match &p {
        Progress::Run(Op::UpdateAccount(b)) => {
            assert_eq!(b.name, a.name);
            assert_eq!(b.updated_at, a.updated_at);
        }
        other => panic!("unexpected {:?}", other),
    }
}
