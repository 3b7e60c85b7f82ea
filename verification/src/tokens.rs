//! Authentication tokens: the claims that a signed token carries, the settings
//! that issue them, and the stored refresh, reset and verification records.
use vstd::prelude::*;

use crate::clock::{
    instant_after, instant_after_minutes, is_instant, new_id, now_instant, uuid_parse, uuid_text,
    uuid_text_of, uuid_value_of, whole_seconds,
};
use crate::error::AppError;
use crate::text::{joined, text_eq};
use crate::users::opt_view;

verus! {

/// What a signed token says: whose it is, until when, and what it is for.
#[derive(Clone, Debug)]
pub struct Claims {
    pub sub: u128,
    pub email: String,
    /// Expiry, in whole seconds since the epoch.
    pub exp: i64,
    pub token_type: String,
}

impl Claims {
    /// Claims of an access token for the user that expires at second `exp`.
    pub fn new_access_token(user_id: u128, email: String, exp: i64) -> (c: Claims)
        ensures
            c.sub == user_id,
            c.email == email,
            c.exp == exp,
            c.token_type@ == "access"@,
    {
        Claims { sub: user_id, email, exp, token_type: String::from_str("access") }
    }

    /// Claims of a refresh token for the user that expires at second `exp`.
    pub fn new_refresh_token(user_id: u128, email: String, exp: i64) -> (c: Claims)
        ensures
            c.sub == user_id,
            c.email == email,
            c.exp == exp,
            c.token_type@ == "refresh"@,
    {
        Claims { sub: user_id, email, exp, token_type: String::from_str("refresh") }
    }

    /// The claims as plain values: subject, email, expiry and kind.
    pub open spec fn fields(&self) -> (u128, Seq<char>, int, Seq<char>) {
        (self.sub, self.email@, self.exp as int, self.token_type@)
    }

    pub open spec fn spec_is_access_token(&self) -> bool {
        self.token_type@ == "access"@
    }

    pub open spec fn spec_is_refresh_token(&self) -> bool {
        self.token_type@ == "refresh"@
    }

    /// Expired once the current whole second is past the expiry.
    pub open spec fn expired_at(&self, now: int) -> bool {
        self.exp < now / 1_000_000
    }

    /// Whether the claims are those of an access token.
    pub fn is_access_token(&self) -> (r: bool)
        ensures
            r == self.spec_is_access_token(),
    {
        text_eq(self.token_type.as_str(), "access")
    }

    /// Whether the claims are those of a refresh token.
    pub fn is_refresh_token(&self) -> (r: bool)
        ensures
            r == self.spec_is_refresh_token(),
    {
        text_eq(self.token_type.as_str(), "refresh")
    }

    /// Whether the token has expired at instant `now`.
    pub fn is_expired_at(&self, now: i64) -> (r: bool)
        requires
            is_instant(now as int),
        ensures
            r == self.expired_at(now as int),
    {
        self.exp < whole_seconds(now)
    }

    /// A copy of the claims.
    pub fn duplicate(&self) -> (r: Claims)
        ensures
            r == *self,
    {
        Claims {
            sub: self.sub,
            email: self.email.clone(),
            exp: self.exp,
            token_type: self.token_type.clone(),
        }
    }
}

/// Settings for issuing tokens: the signing secret and how long each kind lasts.
/// There is no debug form, so that the secret does not reach a log.
#[derive(Clone)]
pub struct JwtService {
    pub secret: String,
    pub access_token_expiry_minutes: i64,
    pub refresh_token_expiry_minutes: i64,
}

/// `c` are the claims of an access token for this user issued at `now` under `jwt`.
pub open spec fn access_claims_for(
    jwt: JwtService,
    user_id: u128,
    email: Seq<char>,
    now: int,
    c: Claims,
) -> bool {
    &&& c.sub == user_id
    &&& c.email@ == email
    &&& c.spec_is_access_token()
    &&& (instant_after(now, jwt.access_token_expiry_minutes as int) matches Some(t) && c.exp == t
        / 1_000_000)
}

/// `c` are the claims of a refresh token for this user issued at `now` under `jwt`,
/// which expires at instant `expires_at`.
pub open spec fn refresh_claims_for(
    jwt: JwtService,
    user_id: u128,
    email: Seq<char>,
    now: int,
    c: Claims,
    expires_at: int,
) -> bool {
    &&& c.sub == user_id
    &&& c.email@ == email
    &&& c.spec_is_refresh_token()
    &&& instant_after(now, jwt.refresh_token_expiry_minutes as int) == Some(expires_at)
    &&& c.exp == expires_at / 1_000_000
}

/// The token that `jsonwebtoken` signs with HS256 under `secret` for claims with
/// these values, the subject given as text.
pub uninterp spec fn jwt_hs256(
    secret: Seq<char>,
    sub: Seq<char>,
    email: Seq<char>,
    exp: int,
    token_type: Seq<char>,
) -> Seq<char>;

/// What `jsonwebtoken::decode` reads from `token` under `secret`, with HS256 and
/// the default validation except the expiry check, the signature checked or not:
/// the claims `sub`, `email` and `token_type` where they are text and `exp` where it
/// is a whole number, or the error's text.
pub uninterp spec fn jwt_hs256_read(secret: Seq<char>, token: Seq<char>, check_signature: bool) -> Result<
    (Option<Seq<char>>, Option<Seq<char>>, Option<int>, Option<Seq<char>>),
    Seq<char>,
>;

/// What reading a token gives back when it was signed with these claims.
pub open spec fn read_back(sub: Seq<char>, email: Seq<char>, exp: int, token_type: Seq<char>) -> Result<
    (Option<Seq<char>>, Option<Seq<char>>, Option<int>, Option<Seq<char>>),
    Seq<char>,
> {
    Ok((Some(sub), Some(email), Some(exp), Some(token_type)))
}

pub open spec fn opt_int(o: Option<i64>) -> Option<int> {
    match o {
        Some(v) => Some(v as int),
        None => None,
    }
}

/// The plain values of what a token read gave.
pub open spec fn read_view(
    r: Result<(Option<String>, Option<String>, Option<i64>, Option<String>), String>,
) -> Result<(Option<Seq<char>>, Option<Seq<char>>, Option<int>, Option<Seq<char>>), Seq<char>> {
    match r {
        Ok((sub, email, exp, token_type)) => Ok(
            (opt_view(sub), opt_view(email), opt_int(exp), opt_view(token_type)),
        ),
        Err(m) => Err(m@),
    }
}

/// The claims that the fields read from a token stand for: all four present and the
/// subject a UUID.
pub open spec fn claims_of_fields(
    f: (Option<Seq<char>>, Option<Seq<char>>, Option<int>, Option<Seq<char>>),
) -> Option<(u128, Seq<char>, int, Seq<char>)> {
    match f {
        (Some(sub), Some(email), Some(exp), Some(token_type)) => match uuid_value_of(sub) {
            Some(id) => Some((id, email, exp, token_type)),
            None => None,
        },
        _ => None,
    }
}

/// What checking `token` under `secret` at instant `now` gives: the claims, or the
/// message it is refused with. A token more than a minute past its expiry is
/// refused by the signature check's own expiry rule; one past its expiry by less is
/// refused as expired.
pub open spec fn verified_claims(secret: Seq<char>, token: Seq<char>, now: int) -> Result<
    (u128, Seq<char>, int, Seq<char>),
    Seq<char>,
> {
    match jwt_hs256_read(secret, token, true) {
        Err(e) => Err("Failed to verify token: "@ + e),
        Ok(f) => match claims_of_fields(f) {
            None => Err("Failed to verify token: invalid claims"@),
            Some(c) => if c.2 < now / 1_000_000 - 60 {
                Err("Failed to verify token: ExpiredSignature"@)
            } else if c.2 < now / 1_000_000 {
                Err("Token has expired"@)
            } else {
                Ok(c)
            },
        },
    }
}

/// What reading `token` without checking its signature or expiry gives: the claims,
/// or the message it is refused with.
pub open spec fn unverified_claims(secret: Seq<char>, token: Seq<char>) -> Result<
    (u128, Seq<char>, int, Seq<char>),
    Seq<char>,
> {
    match jwt_hs256_read(secret, token, false) {
        Err(e) => Err("Failed to decode token: "@ + e),
        Ok(f) => match claims_of_fields(f) {
            None => Err("Failed to decode token: invalid claims"@),
            Some(c) => Ok(c),
        },
    }
}

/// Reading `token` under the service's secret gives back the claims `c`: checked at
/// any instant up to the second `c.2` that it expires at, and unchecked at any time.
pub open spec fn reads_back(
    jwt: JwtService,
    token: Seq<char>,
    c: (u128, Seq<char>, int, Seq<char>),
) -> bool {
    &&& forall|at: int|
        at / 1_000_000 <= c.2 ==> #[trigger] verified_claims(jwt.secret@, token, at) == Ok::<
            (u128, Seq<char>, int, Seq<char>),
            Seq<char>,
        >(c)
    &&& unverified_claims(jwt.secret@, token) == Ok::<(u128, Seq<char>, int, Seq<char>), Seq<char>>(
        c,
    )
}

/// How many times `c` occurs in `s`.
pub open spec fn occurrences(s: Seq<char>, c: char) -> nat
    decreases s.len(),
{
    if s.len() == 0 {
        0
    } else {
        occurrences(s.drop_last(), c) + if s.last() == c {
            1nat
        } else {
            0nat
        }
    }
}

/// Text that is not shaped like a token: it lacks the two dots that separate a
/// header, a payload and a signature.
pub open spec fn lacks_token_shape(token: Seq<char>) -> bool {
    occurrences(token, '.') < 2
}

/// The claims `sub`, `email`, `exp` and `token_type` of a token signed with HS256
/// under `secret`, the signature checked or not.
///
/// Calls `jsonwebtoken::decode` into a JSON object with the default validation
/// (HS256, `exp` required) except that the expiry is not checked, and without the
/// signature check when `check_signature` is false; then picks the four claims,
/// each where it has the expected JSON type. The result is named `jwt_hs256_read`.
/// By the crate's source, text with fewer than two dots does not split into the
/// three parts of a token and is refused with `InvalidToken`, whose text is its
/// name.
#[verifier::external_body]
fn jwt_read(secret: &str, token: &str, check_signature: bool) -> (r: Result<
    (Option<String>, Option<String>, Option<i64>, Option<String>),
    String,
>)
    ensures
        jwt_hs256_read(secret@, token@, check_signature) == read_view(r),
        r is Ok ==> !lacks_token_shape(token@),
        r matches Err(m) ==> lacks_token_shape(token@) ==> m@ == "InvalidToken"@,
{
    let mut v = jsonwebtoken::Validation::default();
    v.validate_exp = false;
    if !check_signature {
        v.insecure_disable_signature_validation();
    }
    let key = jsonwebtoken::DecodingKey::from_secret(secret.as_bytes());
    let c = jsonwebtoken::decode::<serde_json::Map<String, serde_json::Value>>(token, &key, &v)
        .map_err(|e| e.to_string())?.claims;
    let text = |k: &str| c.get(k).and_then(|x| x.as_str()).map(|x| x.to_string());
    Ok((text("sub"), text("email"), c.get("exp").and_then(|x| x.as_i64()), text("token_type")))
}

/// The claims that fields read from a token stand for, if they make claims.
fn claims_from_fields(
    sub: Option<String>,
    email: Option<String>,
    exp: Option<i64>,
    token_type: Option<String>,
) -> (r: Option<Claims>)
    ensures
        match claims_of_fields((opt_view(sub), opt_view(email), opt_int(exp), opt_view(token_type))) {
            Some(c) => r matches Some(x) && x.fields() == c,
            None => r is None,
        },
{
    match (sub, email, exp, token_type) {
        (Some(s), Some(e), Some(x), Some(t)) => match uuid_parse(s.as_str()) {
            Some(id) => Some(Claims { sub: id, email: e, exp: x, token_type: t }),
            None => None,
        },
        _ => None,
    }
}

/// Claims signed into a token with HS256 under `secret`.
///
/// Calls `jsonwebtoken::encode` with the default header (HS256), the claims as a
/// JSON object of `sub`, `email`, `exp` and `token_type`, and a key made from the
/// secret's bytes. The token is named `jwt_hs256`. By the crate's source this
/// signing cannot fail: the key is an HMAC key as the header asks, an object of
/// strings and a number always serializes, and HMAC signing is total. Also by the
/// source, `jsonwebtoken::decode` under the same secret and the default validation
/// without the expiry check reads the four claims back, whether or not it checks
/// the signature, as long as the expiry is not negative (the crate requires an
/// `exp` that reads as an unsigned number).
#[verifier::external_body]
fn jwt_sign(secret: &str, sub: &str, email: &str, exp: i64, token_type: &str) -> (r: Result<
    String,
    String,
>)
    ensures
        r is Ok,
        r matches Ok(t) ==> t@ == jwt_hs256(secret@, sub@, email@, exp as int, token_type@),
        r matches Ok(t) ==> exp >= 0 ==> jwt_hs256_read(secret@, t@, true) == read_back(
            sub@,
            email@,
            exp as int,
            token_type@,
        ),
        r matches Ok(t) ==> exp >= 0 ==> jwt_hs256_read(secret@, t@, false) == read_back(
            sub@,
            email@,
            exp as int,
            token_type@,
        ),
{
    let mut claims = serde_json::Map::new();
    claims.insert("sub".to_string(), sub.into());
    claims.insert("email".to_string(), email.into());
    claims.insert("exp".to_string(), exp.into());
    claims.insert("token_type".to_string(), token_type.into());
    let key = jsonwebtoken::EncodingKey::from_secret(secret.as_bytes());
    jsonwebtoken::encode(&jsonwebtoken::Header::default(), &claims, &key).map_err(|e| e.to_string())
}

/// Signs the claims under `secret`, the subject written as UUID text.
fn sign_claims(secret: &str, claims: &Claims) -> (r: Result<String, String>)
    ensures
        r is Ok,
        r matches Ok(t) ==> t@ == jwt_hs256(
            secret@,
            uuid_text_of(claims.sub),
            claims.email@,
            claims.exp as int,
            claims.token_type@,
        ),
        r matches Ok(t) ==> claims.exp >= 0 ==> jwt_hs256_read(secret@, t@, true) == read_back(
            uuid_text_of(claims.sub),
            claims.email@,
            claims.exp as int,
            claims.token_type@,
        ),
        r matches Ok(t) ==> claims.exp >= 0 ==> jwt_hs256_read(secret@, t@, false) == read_back(
            uuid_text_of(claims.sub),
            claims.email@,
            claims.exp as int,
            claims.token_type@,
        ),
        uuid_value_of(uuid_text_of(claims.sub)) == Some(claims.sub),
{
    let sub = uuid_text(claims.sub);
    jwt_sign(secret, sub.as_str(), claims.email.as_str(), claims.exp, claims.token_type.as_str())
}

/// The access token for this user issued at `now` under `jwt`, or why there is none.
pub open spec fn access_token_for(jwt: JwtService, user_id: u128, email: Seq<char>, now: int) -> Result<
    Seq<char>,
    Seq<char>,
> {
    match instant_after(now, jwt.access_token_expiry_minutes as int) {
        Some(t) => Ok(
            jwt_hs256(jwt.secret@, uuid_text_of(user_id), email, t / 1_000_000, "access"@),
        ),
        None => Err("Failed to generate access token: expiry out of range"@),
    }
}

/// The second at which an access token issued at `now` under `jwt` expires.
pub open spec fn access_expiry(jwt: JwtService, now: int) -> int {
    match instant_after(now, jwt.access_token_expiry_minutes as int) {
        Some(t) => t / 1_000_000,
        None => 0,
    }
}

/// The refresh token for this user issued at `now` under `jwt`, with the instant it
/// expires, or why there is none.
pub open spec fn refresh_token_for(jwt: JwtService, user_id: u128, email: Seq<char>, now: int) -> Result<
    (Seq<char>, int),
    Seq<char>,
> {
    match instant_after(now, jwt.refresh_token_expiry_minutes as int) {
        Some(t) => Ok(
            (jwt_hs256(jwt.secret@, uuid_text_of(user_id), email, t / 1_000_000, "refresh"@), t),
        ),
        None => Err("Failed to generate refresh token: expiry out of range"@),
    }
}

impl JwtService {
    /// Settings with the given secret; access tokens last 15 minutes and refresh
    /// tokens 10080 minutes (seven days) unless other durations are given.
    pub fn new(
        jwt_secret: &str,
        access_token_expiry_minutes: Option<i64>,
        refresh_token_expiry_minutes: Option<i64>,
    ) -> (s: JwtService)
        ensures
            s.secret@ == jwt_secret@,
            s.access_token_expiry_minutes == match access_token_expiry_minutes {
                Some(m) => m,
                None => 15,
            },
            s.refresh_token_expiry_minutes == match refresh_token_expiry_minutes {
                Some(m) => m,
                None => 10080,
            },
    {
        JwtService {
            secret: String::from_str(jwt_secret),
            access_token_expiry_minutes: match access_token_expiry_minutes {
                Some(m) => m,
                None => 15,
            },
            refresh_token_expiry_minutes: match refresh_token_expiry_minutes {
                Some(m) => m,
                None => 10080,
            },
        }
    }

    /// Claims of an access token issued at `now`; `None` where its expiry cannot
    /// be represented.
    pub fn access_claims_at(&self, user_id: u128, email: String, now: i64) -> (r: Option<Claims>)
        requires
            is_instant(now as int),
        ensures
            r is Some <==> instant_after(now as int, self.access_token_expiry_minutes as int) is Some,
            r matches Some(c) ==> c.email == email && access_claims_for(
                *self,
                user_id,
                email@,
                now as int,
                c,
            ),
    {
        match instant_after_minutes(now, self.access_token_expiry_minutes) {
            Some(t) => Some(Claims::new_access_token(user_id, email, whole_seconds(t))),
            None => None,
        }
    }

    /// Claims of a refresh token issued at `now`, with the instant it expires;
    /// `None` where that instant cannot be represented.
    pub fn refresh_claims_at(&self, user_id: u128, email: String, now: i64) -> (r: Option<
        (Claims, i64),
    >)
        requires
            is_instant(now as int),
        ensures
            r is Some <==> instant_after(now as int, self.refresh_token_expiry_minutes as int) is Some,
            r matches Some((c, t)) ==> c.email == email && refresh_claims_for(
                *self,
                user_id,
                email@,
                now as int,
                c,
                t as int,
            ),
    {
        match instant_after_minutes(now, self.refresh_token_expiry_minutes) {
            Some(t) => Some((Claims::new_refresh_token(user_id, email, whole_seconds(t)), t)),
            None => None,
        }
    }

    /// A signed access token for the user, issued at `now`.
    pub fn generate_access_token_at(&self, user_id: u128, email: String, now: i64) -> (r: Result<
        String,
        String,
    >)
        requires
            is_instant(now as int),
        ensures
            match r {
                Ok(t) => access_token_for(*self, user_id, email@, now as int) == Ok::<
                    Seq<char>,
                    Seq<char>,
                >(t@),
                Err(m) => access_token_for(*self, user_id, email@, now as int) == Err::<
                    Seq<char>,
                    Seq<char>,
                >(m@),
            },
            r matches Ok(t) ==> access_expiry(*self, now as int) >= 0 ==> reads_back(
                *self,
                t@,
                (user_id, email@, access_expiry(*self, now as int), "access"@),
            ),
    {
        let ghost e = email@;
        let claims = match self.access_claims_at(user_id, email, now) {
            Some(c) => c,
            None => {
                return Err(String::from_str("Failed to generate access token: expiry out of range"));
            },
        };
        proof {
            reveal_strlit("access");
        }
        match sign_claims(self.secret.as_str(), &claims) {
            Ok(t) => Ok(t),
            Err(e) => Err(crate::text::joined("Failed to generate access token: ", e.as_str())),
        }
    }

    /// A signed access token for the user, issued now.
    pub fn generate_access_token(&self, user_id: u128, email: String) -> (r: Result<String, String>)
        ensures
            exists|now: int|
                is_instant(now) && 0 <= now && match r {
                    Ok(t) => #[trigger] access_token_for(*self, user_id, email@, now) == Ok::<
                        Seq<char>,
                        Seq<char>,
                    >(t@) && (access_expiry(*self, now) >= 0 ==> reads_back(
                        *self,
                        t@,
                        (user_id, email@, access_expiry(*self, now), "access"@),
                    )),
                    Err(m) => access_token_for(*self, user_id, email@, now) == Err::<
                        Seq<char>,
                        Seq<char>,
                    >(m@),
                },
    {
        let now = now_instant();
        self.generate_access_token_at(user_id, email, now)
    }

    /// A signed refresh token for the user, issued at `now`, with the instant it
    /// expires.
    pub fn generate_refresh_token_at(&self, user_id: u128, email: String, now: i64) -> (r: Result<
        (String, i64),
        String,
    >)
        requires
            is_instant(now as int),
        ensures
            match r {
                Ok((t, at)) => refresh_token_for(*self, user_id, email@, now as int) == Ok::<
                    (Seq<char>, int),
                    Seq<char>,
                >((t@, at as int)),
                Err(m) => refresh_token_for(*self, user_id, email@, now as int) == Err::<
                    (Seq<char>, int),
                    Seq<char>,
                >(m@),
            },
            r matches Ok((t, at)) ==> at >= 0 ==> reads_back(
                *self,
                t@,
                (user_id, email@, at / 1_000_000, "refresh"@),
            ),
    {
        let ghost e = email@;
        let (claims, expires_at) = match self.refresh_claims_at(user_id, email, now) {
            Some(p) => p,
            None => {
                return Err(String::from_str("Failed to generate refresh token: expiry out of range"));
            },
        };
        proof {
            reveal_strlit("refresh");
        }
        match sign_claims(self.secret.as_str(), &claims) {
            Ok(t) => Ok((t, expires_at)),
            Err(e) => Err(crate::text::joined("Failed to generate refresh token: ", e.as_str())),
        }
    }

    /// A signed refresh token for the user, issued now, with the instant it expires.
    pub fn generate_refresh_token(&self, user_id: u128, email: String) -> (r: Result<
        (String, i64),
        String,
    >)
        ensures
            exists|now: int|
                is_instant(now) && 0 <= now && match r {
                    Ok((t, at)) => #[trigger] refresh_token_for(*self, user_id, email@, now) == Ok::<
                        (Seq<char>, int),
                        Seq<char>,
                    >((t@, at as int)) && (at >= 0 ==> reads_back(
                        *self,
                        t@,
                        (user_id, email@, at / 1_000_000, "refresh"@),
                    )),
                    Err(m) => refresh_token_for(*self, user_id, email@, now) == Err::<
                        (Seq<char>, int),
                        Seq<char>,
                    >(m@),
                },
    {
        let now = now_instant();
        self.generate_refresh_token_at(user_id, email, now)
    }

    /// Checks the token's signature under the service's secret at instant `now` and
    /// reads its claims, refusing them once expired.
    pub fn verify_token_at(&self, token: &str, now: i64) -> (r: Result<Claims, AppError>)
        requires
            is_instant(now as int),
        ensures
            match verified_claims(self.secret@, token@, now as int) {
                Ok(c) => r matches Ok(x) && x.fields() == c,
                Err(m) => r matches Err(AppError::Failure(x)) && x@ == m,
            },
            lacks_token_shape(token@) ==> (r matches Err(AppError::Failure(x)) && x@
                == "Failed to verify token: InvalidToken"@),
    {
        let (sub, email, exp, token_type) = match jwt_read(self.secret.as_str(), token, true) {
            Ok(f) => f,
            Err(e) => {
                proof {
                    reveal_strlit("Failed to verify token: ");
                    reveal_strlit("InvalidToken");
                    reveal_strlit("Failed to verify token: InvalidToken");
                }
                return Err(AppError::Failure(joined("Failed to verify token: ", e.as_str())));
            },
        };
        let c = match claims_from_fields(sub, email, exp, token_type) {
            Some(c) => c,
            None => {
                return Err(AppError::Failure(String::from_str("Failed to verify token: invalid claims")));
            },
        };
        let s = whole_seconds(now);
        if (c.exp as i128) < (s as i128) - 60 {
            return Err(AppError::Failure(String::from_str("Failed to verify token: ExpiredSignature")));
        }
        if c.exp < s {
            return Err(AppError::Failure(String::from_str("Token has expired")));
        }
        Ok(c)
    }

    /// Checks the token's signature and reads its claims, refusing them once expired.
    pub fn verify_token(&self, token: &str) -> (r: Result<Claims, AppError>)
        ensures
            exists|now: int|
                is_instant(now) && 0 <= now && match #[trigger] verified_claims(self.secret@, token@, now) {
                    Ok(c) => r matches Ok(x) && x.fields() == c,
                    Err(m) => r matches Err(AppError::Failure(x)) && x@ == m,
                },
            lacks_token_shape(token@) ==> (r matches Err(AppError::Failure(x)) && x@
                == "Failed to verify token: InvalidToken"@),
    {
        let now = now_instant();
        self.verify_token_at(token, now)
    }

    /// Reads the token's claims without checking its signature or expiry.
    pub fn decode_token_unverified(&self, token: &str) -> (r: Result<Claims, AppError>)
        ensures
            match unverified_claims(self.secret@, token@) {
                Ok(c) => r matches Ok(x) && x.fields() == c,
                Err(m) => r matches Err(AppError::Failure(x)) && x@ == m,
            },
            lacks_token_shape(token@) ==> (r matches Err(AppError::Failure(x)) && x@
                == "Failed to decode token: InvalidToken"@),
    {
        let (sub, email, exp, token_type) = match jwt_read(self.secret.as_str(), token, false) {
            Ok(f) => f,
            Err(e) => {
                proof {
                    reveal_strlit("Failed to decode token: ");
                    reveal_strlit("InvalidToken");
                    reveal_strlit("Failed to decode token: InvalidToken");
                }
                return Err(AppError::Failure(joined("Failed to decode token: ", e.as_str())));
            },
        };
        match claims_from_fields(sub, email, exp, token_type) {
            Some(c) => Ok(c),
            None => Err(AppError::Failure(String::from_str("Failed to decode token: invalid claims"))),
        }
    }

    /// The user a token names, read without checking the token.
    pub fn extract_user_id(&self, token: &str) -> (r: Result<u128, AppError>)
        ensures
            match unverified_claims(self.secret@, token@) {
                Ok(c) => r == Ok::<u128, AppError>(c.0),
                Err(m) => r matches Err(AppError::Failure(x)) && x@ == m,
            },
            lacks_token_shape(token@) ==> (r matches Err(AppError::Failure(x)) && x@
                == "Failed to decode token: InvalidToken"@),
    {
        match self.decode_token_unverified(token) {
            Ok(c) => Ok(c.sub),
            Err(e) => Err(e),
        }
    }
}

/// A stored refresh token.
#[derive(Clone, Debug)]
pub struct RefreshToken {
    pub id: u128,
    pub user_id: u128,
    pub token: String,
    pub expires_at: i64,
    pub created_at: i64,
}

impl RefreshToken {
    /// A new stored refresh token with a fresh identifier, created now.
    pub fn new(user_id: u128, token: String, expires_at: i64) -> (r: RefreshToken)
        ensures
            r.user_id == user_id,
            r.token == token,
            r.expires_at == expires_at,
    {
        RefreshToken { id: new_id(), user_id, token, expires_at, created_at: now_instant() }
    }

    pub open spec fn expired_at(&self, now: int) -> bool {
        now > self.expires_at
    }

    /// Whether the stored token has expired at instant `now`.
    pub fn is_expired_at(&self, now: i64) -> (r: bool)
        ensures
            r == self.expired_at(now as int),
    {
        now > self.expires_at
    }
}

/// A stored one-time code that proves a user owns their email address.
#[derive(Clone, Debug)]
pub struct EmailVerification {
    pub id: u128,
    pub user_id: u128,
    pub otp_code: String,
    pub expires_at: i64,
    pub created_at: i64,
}

impl EmailVerification {
    /// A verification code issued at `now` that lasts `minutes` minutes; `None`
    /// where its expiry cannot be represented.
    pub fn issued_at(user_id: u128, otp_code: String, minutes: i64, now: i64) -> (r: Option<
        EmailVerification,
    >)
        requires
            is_instant(now as int),
        ensures
            r is Some <==> instant_after(now as int, minutes as int) is Some,
            r matches Some(v) ==> {
                &&& v.user_id == user_id
                &&& v.otp_code == otp_code
                &&& v.created_at == now
                &&& v.expires_at == instant_after(now as int, minutes as int)->0
            },
    {
        match instant_after_minutes(now, minutes) {
            Some(t) => Some(
                EmailVerification { id: new_id(), user_id, otp_code, expires_at: t, created_at: now },
            ),
            None => None,
        }
    }

    pub open spec fn valid_at(&self, code: Seq<char>, now: int) -> bool {
        self.otp_code@ == code && now <= self.expires_at
    }

    /// Whether `code` is this verification's code and it has not expired at `now`.
    pub fn is_valid_at(&self, code: &str, now: i64) -> (r: bool)
        ensures
            r == self.valid_at(code@, now as int),
    {
        text_eq(self.otp_code.as_str(), code) && now <= self.expires_at
    }
}

/// A stored token that lets a user set a new password once.
#[derive(Clone, Debug)]
pub struct PasswordResetToken {
    pub id: u128,
    pub user_id: u128,
    pub token: String,
    pub expires_at: i64,
    pub used: bool,
    pub created_at: i64,
}

impl PasswordResetToken {
    /// An unused reset token issued at `now` that lasts `minutes` minutes; `None`
    /// where its expiry cannot be represented.
    pub fn issued_at(user_id: u128, token: String, minutes: i64, now: i64) -> (r: Option<
        PasswordResetToken,
    >)
        requires
            is_instant(now as int),
        ensures
            r is Some <==> instant_after(now as int, minutes as int) is Some,
            r matches Some(t) ==> {
                &&& t.user_id == user_id
                &&& t.token == token
                &&& !t.used
                &&& t.created_at == now
                &&& t.expires_at == instant_after(now as int, minutes as int)->0
            },
    {
        match instant_after_minutes(now, minutes) {
            Some(t) => Some(
                PasswordResetToken {
                    id: new_id(),
                    user_id,
                    token,
                    expires_at: t,
                    used: false,
                    created_at: now,
                },
            ),
            None => None,
        }
    }

    pub open spec fn valid_at(&self, now: int) -> bool {
        !self.used && now <= self.expires_at
    }

    /// Whether the token is unused and has not expired at `now`.
    pub fn is_valid_at(&self, now: i64) -> (r: bool)
        ensures
            r == self.valid_at(now as int),
    {
        !self.used && now <= self.expires_at
    }

    /// Spends the token.
    pub fn mark_as_used(&mut self)
        ensures
            *final(self) == (PasswordResetToken { used: true, ..*old(self) }),
    {
        self.used = true;
    }
}

/// A spent reset token is no longer valid, whatever the time.
pub proof fn used_reset_token_is_invalid(t: PasswordResetToken, now: int)
    requires
        t.used,
    ensures
        !t.valid_at(now),
{
}

/// The lowercase hexadecimal digit of `n`, for `n` below sixteen.
pub open spec fn hex_digit(n: int) -> char {
    if n < 10 {
        ((n + 48) as u32) as char
    } else {
        ((n + 87) as u32) as char
    }
}

/// `s` is the lowercase hexadecimal text of `bytes`, two digits per byte, high
/// digit first.
pub open spec fn is_hex_of(s: Seq<char>, bytes: Seq<u8>) -> bool {
    &&& s.len() == 2 * bytes.len()
    &&& forall|i: int|
        0 <= i < bytes.len() ==> s[2 * i] == hex_digit(bytes[i] as int / 16) && s[2 * i + 1]
            == hex_digit(bytes[i] as int % 16)
}

pub open spec fn is_hex_char(c: char) -> bool {
    ('0' <= c <= '9') || ('a' <= c <= 'f')
}

/// The bytes as lowercase hexadecimal text.
///
/// Calls `hex::encode`, which writes each byte as two lowercase hexadecimal
/// digits, high digit first; the contract states exactly that.
#[verifier::external_body]
pub(crate) fn hex_encode(bytes: &Vec<u8>) -> (s: String)
    ensures
        is_hex_of(s@, bytes@),
{
    hex::encode(bytes)
}

/// Hexadecimal text is made of hexadecimal digits.
pub proof fn hex_text_is_hex_digits(s: Seq<char>, bytes: Seq<u8>)
    requires
        is_hex_of(s, bytes),
    ensures
        forall|j: int| 0 <= j < s.len() ==> is_hex_char(#[trigger] s[j]),
{
    assert forall|j: int| 0 <= j < s.len() implies is_hex_char(#[trigger] s[j]) by {
        let i = j / 2;
        assert(0 <= i < bytes.len());
        assert(j == 2 * i || j == 2 * i + 1);
        assert(s[2 * i] == hex_digit(bytes[i] as int / 16));
        assert(s[2 * i + 1] == hex_digit(bytes[i] as int % 16));
    }
}

/// An access token is never a refresh token, and the other way round: the claims
/// that each kind of issue makes are told apart by their type.
pub proof fn token_kinds_are_exclusive(c: Claims)
    ensures
        !(c.spec_is_access_token() && c.spec_is_refresh_token()),
{
    reveal_strlit("access");
    reveal_strlit("refresh");
    if c.spec_is_access_token() && c.spec_is_refresh_token() {
        assert("access"@[0] != "refresh"@[0]);
    }
}

/// Tokens issued with a lifetime of no negative length have not expired at the
/// instant they are issued.
pub proof fn fresh_tokens_are_not_expired(
    jwt: JwtService,
    user_id: u128,
    email: Seq<char>,
    now: int,
    access: Claims,
    refresh: Claims,
    expires_at: int,
)
    requires
        jwt.access_token_expiry_minutes >= 0,
        jwt.refresh_token_expiry_minutes >= 0,
        access_claims_for(jwt, user_id, email, now, access),
        refresh_claims_for(jwt, user_id, email, now, refresh, expires_at),
    ensures
        !access.expired_at(now),
        !refresh.expired_at(now),
        now <= expires_at,
{
    let t = instant_after(now, jwt.access_token_expiry_minutes as int)->0;
    assert(t >= now);
    assert(t / 1_000_000 >= now / 1_000_000) by (nonlinear_arith)
        requires
            t >= now,
    ;
    assert(expires_at / 1_000_000 >= now / 1_000_000) by (nonlinear_arith)
        requires
            expires_at >= now,
    ;
}

/// A code issued for a lasting, non-negative number of minutes is valid for that
/// code at the instant of issue and until it expires, and for no other code.
pub proof fn issued_verification_is_valid(v: EmailVerification, now: int, minutes: int, at: int)
    requires
        minutes >= 0,
        v.created_at == now,
        instant_after(now, minutes) == Some(v.expires_at as int),
        now <= at <= v.expires_at,
    ensures
        v.valid_at(v.otp_code@, at),
        forall|code: Seq<char>| code != v.otp_code@ ==> !v.valid_at(code, at),
{
}

/// A reset token issued for a non-negative number of minutes is valid from its
/// issue until it expires, as long as it has not been spent.
pub proof fn issued_reset_token_is_valid(t: PasswordResetToken, now: int, minutes: int, at: int)
    requires
        minutes >= 0,
        !t.used,
        instant_after(now, minutes) == Some(t.expires_at as int),
        now <= at <= t.expires_at,
    ensures
        t.valid_at(at),
        !(PasswordResetToken { used: true, ..t }).valid_at(at),
{
}

} // verus!
