//! Reading the bearer token of a request and deciding who is signed in.
use vstd::prelude::*;
use vstd::utf8::{decode_utf8, valid_utf8};

use crate::error::AppError;
use crate::text::{joined, starts_with};
use crate::tokens::Claims;

verus! {

/// A byte that an HTTP header value may hold and still read as text: visible ASCII
/// or a tab.
pub open spec fn header_char(b: u8) -> bool {
    (32 <= b && b < 127) || b == 9
}

pub open spec fn ascii_text(b: Seq<u8>) -> Seq<char> {
    b.map_values(|x: u8| (x as u32) as char)
}

/// The token that an `Authorization` header carries, or the message that rejects it.
pub open spec fn bearer_token_of(header: Option<Seq<u8>>) -> Result<Seq<char>, Seq<char>> {
    match header {
        None => Err("Missing Authorization header"@),
        Some(b) => if !(forall|i: int| 0 <= i < b.len() ==> header_char(#[trigger] b[i])) {
            Err("Invalid Authorization header"@)
        } else {
            let s = ascii_text(b);
            if !(s.len() >= 7 && s.subrange(0, 7) == "Bearer "@) {
                Err("Authorization header must start with 'Bearer '"@)
            } else if s.len() == 7 {
                Err("Token is empty"@)
            } else {
                Ok(s.subrange(7, s.len() as int))
            }
        },
    }
}

/// The text that UTF-8 bytes stand for.
///
/// Calls `String::from_utf8`, which fails exactly when the bytes are not UTF-8
/// and otherwise holds the characters they encode.
#[verifier::external_body]
fn utf8_to_string(bytes: &[u8]) -> (r: Option<String>)
    ensures
        r is Some <==> valid_utf8(bytes@),
        r matches Some(s) ==> s@ == decode_utf8(bytes@),
{
    String::from_utf8(bytes.to_vec()).ok()
}

/// ASCII bytes are UTF-8, each byte encoding the character with its code.
proof fn ascii_is_utf8(b: Seq<u8>)
    requires
        forall|i: int| 0 <= i < b.len() ==> (#[trigger] b[i]) < 128,
    ensures
        valid_utf8(b),
        decode_utf8(b) == ascii_text(b),
    decreases b.len(),
{
    if b.len() > 0 {
        let x = b[0];
        assert(x < 128);
        assert((x & 0x7F) == x) by (bit_vector)
            requires
                x < 128,
        ;
        assert(vstd::utf8::pop_first_scalar(b) =~= b.drop_first());
        ascii_is_utf8(b.drop_first());
        assert(decode_utf8(b) =~= ascii_text(b));
    }
}

/// Reads the bearer token of an `Authorization` header value, given as its bytes.
pub fn extract_token_from_header(header: Option<&[u8]>) -> (r: Result<String, String>)
    ensures
        match r {
            Ok(t) => bearer_token_of(
                match header {
                    Some(b) => Some(b@),
                    None => None,
                },
            ) == Ok::<Seq<char>, Seq<char>>(t@),
            Err(m) => bearer_token_of(
                match header {
                    Some(b) => Some(b@),
                    None => None,
                },
            ) == Err::<Seq<char>, Seq<char>>(m@),
        },
{
    let bytes = match header {
        None => return Err(String::from_str("Missing Authorization header")),
        Some(b) => b,
    };
    let n = bytes.len();
    let mut i: usize = 0;
    let mut visible = true;
    while i < n
        invariant
            n == bytes@.len(),
            i <= n,
            visible == (forall|j: int| 0 <= j < i ==> header_char(#[trigger] bytes@[j])),
        decreases n - i,
    {
        let b = bytes[i];
        if !((b >= 32 && b < 127) || b == 9) {
            visible = false;
        }
        i = i + 1;
    }
    if !visible {
        return Err(String::from_str("Invalid Authorization header"));
    }
    proof {
        ascii_is_utf8(bytes@);
    }
    let text = match utf8_to_string(bytes) {
        Some(t) => t,
        None => return Err(String::from_str("Invalid Authorization header")),
    };
    let s = text.as_str();
    if !starts_with(s, "Bearer ") {
        proof {
            reveal_strlit("Bearer ");
        }
        return Err(String::from_str("Authorization header must start with 'Bearer '"));
    }
    proof {
        reveal_strlit("Bearer ");
    }
    let len = s.unicode_len();
    if len == 7 {
        return Err(String::from_str("Token is empty"));
    }
    let token = s.substring_char(7, len);
    Ok(String::from_str(token))
}

/// The signed-in user that a request carries.
#[derive(Clone, Debug)]
pub struct AuthUser {
    pub user_id: u128,
    pub email: String,
}

/// The user that a verified token signs in, or the message that rejects it: a token
/// that failed verification, or one that is not an access token.
pub fn authenticate(verified: Result<Claims, AppError>) -> (r: Result<AuthUser, String>)
    ensures
        verified matches Err(e) ==> (r matches Err(m) && m@ == "Invalid token: "@ + e.msg()),
        verified matches Ok(c) ==> if c.spec_is_access_token() {
            r matches Ok(u) && u.user_id == c.sub && u.email == c.email
        } else {
            r matches Err(m) && m@ == "Invalid token type"@
        },
{
    match verified {
        Err(e) => Err(joined("Invalid token: ", e.message().as_str())),
        Ok(c) => {
            if c.is_access_token() {
                Ok(AuthUser { user_id: c.sub, email: c.email })
            } else {
                Err(String::from_str("Invalid token type"))
            }
        },
    }
}

/// The user that a request may carry: none unless a verified access token signs
/// them in.
pub fn optional_user(verified: Result<Claims, AppError>) -> (r: Option<AuthUser>)
    ensures
        r is Some <==> (verified matches Ok(c) && c.spec_is_access_token()),
        r matches Some(u) ==> verified matches Ok(c) && u.user_id == c.sub && u.email == c.email,
{
    match authenticate(verified) {
        Ok(u) => Some(u),
        Err(_) => None,
    }
}

/// The bytes of `Bearer ` as a header carries them.
pub open spec fn bearer_prefix() -> Seq<u8> {
    seq![66u8, 101u8, 97u8, 114u8, 101u8, 114u8, 32u8]
}

/// A header that carries `Bearer ` and then a non-empty token of visible ASCII
/// characters gives that token back.
pub proof fn bearer_header_gives_its_token_back(token: Seq<u8>)
    requires
        token.len() > 0,
        forall|i: int| 0 <= i < token.len() ==> header_char(#[trigger] token[i]),
    ensures
        bearer_token_of(Some(bearer_prefix() + token)) == Ok::<Seq<char>, Seq<char>>(
            ascii_text(token),
        ),
{
    let b = bearer_prefix() + token;
    reveal_strlit("Bearer ");
    assert forall|i: int| 0 <= i < b.len() implies header_char(#[trigger] b[i]) by {
        if i >= 7 {
            assert(b[i] == token[i - 7]);
        }
    }
    let s = ascii_text(b);
    assert(s.subrange(0, 7) =~= "Bearer "@);
    assert(s.subrange(7, s.len() as int) =~= ascii_text(token));
}

} // verus!
