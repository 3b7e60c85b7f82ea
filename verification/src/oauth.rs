//! Outside identity providers: naming them, and the Google sign-in exchange.
use vstd::prelude::*;

use crate::text::{all_ascii, ascii_lower, joined, lowercase, lowercased, text_eq};

verus! {

/// An outside identity provider.
#[derive(Clone, Copy, Debug, PartialEq, Eq, Structural)]
pub enum OAuthProvider {
    Google,
}

impl OAuthProvider {
    pub open spec fn name(&self) -> Seq<char> {
        match self {
            OAuthProvider::Google => "google"@,
        }
    }

    /// The provider's name as stored and sent.
    pub fn as_str(&self) -> (r: &str)
        ensures
            r@ == self.name(),
    {
        match self {
            OAuthProvider::Google => "google",
        }
    }

    /// The provider's name as owned text, as its display form writes it.
    pub fn to_display_string(&self) -> (r: String)
        ensures
            r@ == self.name(),
    {
        String::from_str(self.as_str())
    }

    /// Reads a provider from its name, in any letter case.
    pub fn try_from(value: &str) -> (r: Result<OAuthProvider, String>)
        ensures
            r is Ok <==> lowercased(value@) == "google"@,
            r matches Ok(p) ==> p == OAuthProvider::Google,
            r matches Err(m) ==> m@ == "Unknown OAuth provider: "@ + value@,
            all_ascii(value@) ==> (r is Ok <==> value@.map_values(|c: char| ascii_lower(c))
                == "google"@),
            value@ == OAuthProvider::Google.name() ==> r == Ok::<OAuthProvider, String>(
                OAuthProvider::Google,
            ),
    {
        let lowered = lowercase(value);
        proof {
            reveal_strlit("google");
            if value@ == "google"@ {
                assert(all_ascii(value@));
                assert(value@.map_values(|c: char| ascii_lower(c)) =~= "google"@);
            }
        }
        if text_eq(lowered.as_str(), "google") {
            Ok(OAuthProvider::Google)
        } else {
            Err(joined("Unknown OAuth provider: ", value))
        }
    }
}

/// Bytes that URL encoding leaves as they are: ASCII letters, digits and `-_.~`.
pub open spec fn url_safe_byte(b: u8) -> bool {
    (48 <= b <= 57) || (65 <= b <= 90) || (97 <= b <= 122) || b == 45 || b == 46 || b == 95
        || b == 126
}

/// The uppercase hexadecimal digit of `n`, for `n` below sixteen.
pub open spec fn upper_hex_digit(n: int) -> char {
    if n < 10 {
        ((n + 48) as u32) as char
    } else {
        ((n + 55) as u32) as char
    }
}

/// Each byte kept when safe, else written as `%` and two uppercase hex digits.
pub open spec fn percent_encoded(bytes: Seq<u8>) -> Seq<char>
    decreases bytes.len(),
{
    if bytes.len() == 0 {
        Seq::empty()
    } else {
        let b = bytes[0];
        (if url_safe_byte(b) {
            seq![(b as u32) as char]
        } else {
            seq!['%', upper_hex_digit(b as int / 16), upper_hex_digit(b as int % 16)]
        }) + percent_encoded(bytes.drop_first())
    }
}

/// URL encoding of text: percent-encoding of its UTF-8 bytes.
pub open spec fn url_encoded(s: Seq<char>) -> Seq<char> {
    percent_encoded(vstd::utf8::encode_utf8(s))
}

/// Percent-encodes every byte of the UTF-8 text but ASCII letters, digits and `-_.~`.
///
/// Calls `urlencoding::encode`, whose source writes each other byte as `%` and two
/// uppercase hexadecimal digits; the contract states exactly that.
#[verifier::external_body]
pub(crate) fn url_encode(s: &str) -> (r: String)
    ensures
        r@ == url_encoded(s@),
{
    urlencoding::encode(s).into_owned()
}

/// Settings of the Google sign-in exchange.
#[derive(Clone, Debug)]
pub struct GoogleOAuthService {
    pub client_id: String,
    pub redirect_uri: String,
    pub client_secret: String,
}

/// The profile that Google reports for a signed-in account.
#[derive(Clone, Debug)]
pub struct GoogleUserInfo {
    pub id: String,
    pub email: String,
    pub verified_email: Option<bool>,
    pub name: Option<String>,
}

impl GoogleOAuthService {
    pub fn new(client_id: String, client_secret: String, redirect_uri: String) -> (s: Self)
        ensures
            s.client_id == client_id,
            s.client_secret == client_secret,
            s.redirect_uri == redirect_uri,
    {
        GoogleOAuthService { client_id, redirect_uri, client_secret }
    }

    pub open spec fn authorization_url(&self) -> Seq<char> {
        "https://accounts.google.com/o/oauth2/v2/auth?client_id="@ + self.client_id@
            + "&redirect_uri="@ + url_encoded(self.redirect_uri@)
            + "&response_type=code&scope="@ + url_encoded("openid email profile"@)
    }

    /// The address to send a user to so that Google asks them to sign in.
    pub fn get_authorization_url(&self) -> (r: String)
        ensures
            r@ == self.authorization_url(),
    {
        let a = joined("https://accounts.google.com/o/oauth2/v2/auth?client_id=", self.client_id.as_str());
        let b = joined(a.as_str(), "&redirect_uri=");
        let redirect = url_encode(self.redirect_uri.as_str());
        let c = joined(b.as_str(), redirect.as_str());
        let d = joined(c.as_str(), "&response_type=code&scope=");
        let scopes = url_encode("openid email profile");
        joined(d.as_str(), scopes.as_str())
    }

    /// The form fields, name and value, that trade `code` for an access token.
    pub open spec fn token_request_form_spec(&self, code: Seq<char>) -> Seq<(Seq<char>, Seq<char>)> {
        seq![
            ("code"@, code),
            ("client_id"@, self.client_id@),
            ("client_secret"@, self.client_secret@),
            ("redirect_uri"@, self.redirect_uri@),
            ("grant_type"@, "authorization_code"@),
        ]
    }

    /// The form fields that exchange an authorization code for an access token.
    pub fn token_request_form(&self, code: &str) -> (r: Vec<(String, String)>)
        ensures
            r@.map_values(|f: (String, String)| (f.0@, f.1@)) == self.token_request_form_spec(code@),
    {
        let mut v: Vec<(String, String)> = Vec::new();
        v.push((String::from_str("code"), String::from_str(code)));
        v.push((String::from_str("client_id"), self.client_id.clone()));
        v.push((String::from_str("client_secret"), self.client_secret.clone()));
        v.push((String::from_str("redirect_uri"), self.redirect_uri.clone()));
        v.push((String::from_str("grant_type"), String::from_str("authorization_code")));
        v
    }

    /// Email, display name and Google identifier of a reported profile; a profile
    /// without a name is called "Google User".
    pub fn user_info_fields(info: GoogleUserInfo) -> (r: (String, String, String))
        ensures
            r.0 == info.email,
            r.2 == info.id,
            info.name matches Some(n) ==> r.1 == n,
            info.name is None ==> r.1@ == "Google User"@,
    {
        let name = match info.name {
            Some(n) => n,
            None => String::from_str("Google User"),
        };
        (info.email, name, info.id)
    }

    /// Whether a reported profile's email address is verified; an unreported flag
    /// counts as unverified.
    pub fn email_verified_flag(info: &GoogleUserInfo) -> (r: bool)
        ensures
            r == (info.verified_email == Some(true)),
    {
        match info.verified_email {
            Some(b) => b,
            None => false,
        }
    }
}

/// Where Google's token endpoint takes an authorization code.
pub const GOOGLE_TOKEN_URL: &'static str = "https://oauth2.googleapis.com/token";

/// Where Google reports the signed-in account's profile.
pub const GOOGLE_USER_INFO_URL: &'static str = "https://www.googleapis.com/oauth2/v2/userinfo";

/// An HTTP request of the exchange with Google.
#[derive(Debug)]
pub enum GoogleRequest {
    /// POST these form fields to the address.
    PostForm { url: String, form: Vec<(String, String)> },
    /// GET the address, authorized by this bearer token.
    GetWithBearer { url: String, token: String },
}

/// What came of a request: it could not be sent (the error's text), or the server
/// answered with a success status or not, a body, and the body read as `T` or the
/// reason it could not be.
#[derive(Debug)]
pub enum HttpReply<T> {
    NotSent(String),
    Answered { success: bool, body: String, parsed: Result<T, String> },
}

/// What the exchange asks for next.
#[derive(Debug)]
pub enum ExchangeProgress {
    Send(GoogleRequest),
    Finish(Result<GoogleUserInfo, String>),
}

/// Exchanges an authorization code for the profile of the Google account that
/// granted it: the code is traded for an access token, which then fetches the
/// profile. With `check_status`, an answer without a success status fails with its
/// body; without it, every answer's body is read.
#[derive(Debug)]
pub enum GoogleProfileExchange {
    Ready,
    ExchangingCode { check_status: bool },
    FetchingProfile { check_status: bool },
    Done,
}

/// The exchange has finished with this error message.
pub open spec fn exchange_fails_with(p: ExchangeProgress, msg: Seq<char>) -> bool {
    p matches ExchangeProgress::Finish(Err(m)) && m@ == msg
}

impl GoogleProfileExchange {
    pub fn new() -> (s: Self)
        ensures
            s is Ready,
    {
        GoogleProfileExchange::Ready
    }

    /// Starts: the code and the client's credentials are posted to the token
    /// endpoint.
    pub fn start(self, service: &GoogleOAuthService, code: &str, check_status: bool) -> (r: (
        Self,
        ExchangeProgress,
    ))
        ensures
            r.0 == (GoogleProfileExchange::ExchangingCode { check_status }),
            r.1 matches ExchangeProgress::Send(GoogleRequest::PostForm { url, form }) && url@
                == GOOGLE_TOKEN_URL@ && form@.map_values(|f: (String, String)| (f.0@, f.1@))
                == service.token_request_form_spec(code@),
    {
        let form = service.token_request_form(code);
        (
            GoogleProfileExchange::ExchangingCode { check_status },
            ExchangeProgress::Send(
                GoogleRequest::PostForm { url: String::from_str(GOOGLE_TOKEN_URL), form },
            ),
        )
    }

    /// The token endpoint's answer: its access token fetches the profile.
    pub fn on_token_reply(self, reply: HttpReply<String>) -> (r: (Self, ExchangeProgress))
        ensures
            match (self, reply) {
                (GoogleProfileExchange::ExchangingCode { .. }, HttpReply::NotSent(e)) => r.0 is Done
                    && exchange_fails_with(r.1, "Failed to exchange code for token: "@ + e@),
                (
                    GoogleProfileExchange::ExchangingCode { check_status },
                    HttpReply::Answered { success, body, parsed },
                ) => if check_status && !success {
                    r.0 is Done && exchange_fails_with(r.1, "Token exchange failed: "@ + body@)
                } else {
                    match parsed {
                        Err(e) => r.0 is Done && exchange_fails_with(
                            r.1,
                            "Failed to parse token response: "@ + e@,
                        ),
                        Ok(t) => r.0 == (GoogleProfileExchange::FetchingProfile { check_status })
                            && (r.1 matches ExchangeProgress::Send(
                            GoogleRequest::GetWithBearer { url, token },
                        ) && url@ == GOOGLE_USER_INFO_URL@ && token == t),
                    }
                },
                _ => r.0 is Done && exchange_fails_with(r.1, "exchange answered out of turn"@),
            },
    {
        match (self, reply) {
            (GoogleProfileExchange::ExchangingCode { check_status }, reply) => match reply {
                HttpReply::NotSent(e) => (
                    GoogleProfileExchange::Done,
                    ExchangeProgress::Finish(
                        Err(joined("Failed to exchange code for token: ", e.as_str())),
                    ),
                ),
                HttpReply::Answered { success, body, parsed } => {
                    if check_status && !success {
                        (
                            GoogleProfileExchange::Done,
                            ExchangeProgress::Finish(
                                Err(joined("Token exchange failed: ", body.as_str())),
                            ),
                        )
                    } else {
                        match parsed {
                            Err(e) => (
                                GoogleProfileExchange::Done,
                                ExchangeProgress::Finish(
                                    Err(joined("Failed to parse token response: ", e.as_str())),
                                ),
                            ),
                            Ok(t) => (
                                GoogleProfileExchange::FetchingProfile { check_status },
                                ExchangeProgress::Send(
                                    GoogleRequest::GetWithBearer {
                                        url: String::from_str(GOOGLE_USER_INFO_URL),
                                        token: t,
                                    },
                                ),
                            ),
                        }
                    }
                },
            },
            _ => (
                GoogleProfileExchange::Done,
                ExchangeProgress::Finish(Err(String::from_str("exchange answered out of turn"))),
            ),
        }
    }

    /// The profile endpoint's answer: the profile is the result.
    pub fn on_profile_reply(self, reply: HttpReply<GoogleUserInfo>) -> (r: (Self, ExchangeProgress))
        ensures
            r.0 is Done,
            match (self, reply) {
                (GoogleProfileExchange::FetchingProfile { .. }, HttpReply::NotSent(e)) => exchange_fails_with(
                    r.1,
                    "Failed to fetch user info: "@ + e@,
                ),
                (
                    GoogleProfileExchange::FetchingProfile { check_status },
                    HttpReply::Answered { success, body, parsed },
                ) => if check_status && !success {
                    exchange_fails_with(r.1, "User info fetch failed: "@ + body@)
                } else {
                    match parsed {
                        Err(e) => exchange_fails_with(r.1, "Failed to parse user info: "@ + e@),
                        Ok(info) => r.1 == ExchangeProgress::Finish(
                            Ok::<GoogleUserInfo, String>(info),
                        ),
                    }
                },
                _ => exchange_fails_with(r.1, "exchange answered out of turn"@),
            },
    {
        match (self, reply) {
            (GoogleProfileExchange::FetchingProfile { check_status }, reply) => match reply {
                HttpReply::NotSent(e) => (
                    GoogleProfileExchange::Done,
                    ExchangeProgress::Finish(Err(joined("Failed to fetch user info: ", e.as_str()))),
                ),
                HttpReply::Answered { success, body, parsed } => {
                    if check_status && !success {
                        (
                            GoogleProfileExchange::Done,
                            ExchangeProgress::Finish(
                                Err(joined("User info fetch failed: ", body.as_str())),
                            ),
                        )
                    } else {
                        match parsed {
                            Err(e) => (
                                GoogleProfileExchange::Done,
                                ExchangeProgress::Finish(
                                    Err(joined("Failed to parse user info: ", e.as_str())),
                                ),
                            ),
                            Ok(info) => (GoogleProfileExchange::Done, ExchangeProgress::Finish(Ok(info))),
                        }
                    }
                },
            },
            _ => (
                GoogleProfileExchange::Done,
                ExchangeProgress::Finish(Err(String::from_str("exchange answered out of turn"))),
            ),
        }
    }
}

} // verus!
