//! Two-factor authentication with time-based one-time codes.
use vstd::prelude::*;

use crate::clock::{is_instant, now_instant, random_byte, whole_seconds};
use crate::oauth::{url_encode, url_encoded};
use crate::text::{decimal, decimal_text, joined};

verus! {

/// A character of the RFC 4648 base32 alphabet (upper case, no padding).
pub open spec fn is_base32_char(c: char) -> bool {
    ('A' <= c <= 'Z') || ('2' <= c <= '7')
}

pub open spec fn all_base32(s: Seq<char>) -> bool {
    forall|i: int| 0 <= i < s.len() ==> is_base32_char(#[trigger] s[i])
}

/// What `base32::encode` gives, without padding, for these bytes.
pub uninterp spec fn base32_text(data: Seq<u8>) -> Seq<char>;

/// What `base32::decode` gives, without padding, for text of base32 characters.
pub uninterp spec fn base32_bytes(s: Seq<char>) -> Seq<u8>;

/// The bytes as unpadded RFC 4648 base32 text.
///
/// Calls `base32::encode` with the unpadded RFC 4648 alphabet. The result is
/// named `base32_text`; the contract adds what the crate's source shows: eight
/// characters for each five bytes, without padding, all from the alphabet, and
/// that `base32::decode` gives the bytes back (the crate's own round-trip test).
#[verifier::external_body]
fn base32_encode(data: &Vec<u8>) -> (s: String)
    ensures
        s@ == base32_text(data@),
        s@.len() == (8 * data@.len() + 4) / 5,
        all_base32(s@),
        base32_bytes(s@) == data@,
{
    base32::encode(base32::Alphabet::Rfc4648 { padding: false }, data)
}

/// The bytes that unpadded RFC 4648 base32 text stands for.
///
/// Calls `base32::decode` with the unpadded RFC 4648 alphabet. By the crate's
/// source it fails exactly when a character lies outside the alphabet; the bytes
/// are named `base32_bytes`.
#[verifier::external_body]
fn base32_decode(s: &str) -> (r: Option<Vec<u8>>)
    ensures
        r is Some <==> all_base32(s@),
        r matches Some(b) ==> b@ == base32_bytes(s@),
{
    base32::decode(base32::Alphabet::Rfc4648 { padding: false }, s)
}

/// The six-digit code that an SHA-1 TOTP with this secret gives for the given
/// 30-second step.
pub uninterp spec fn totp_step_code(secret: Seq<u8>, step: int) -> Seq<char>;

/// Whether `token` is the code of the step holding second `t`, or of the step
/// just before or after it.
pub open spec fn totp_accepts(secret: Seq<u8>, token: Seq<char>, t: int) -> bool {
    exists|i: int| 0 <= i <= 2 && #[trigger] totp_step_code(secret, t / 30 - 1 + i) == token
}

/// Whether `totp-rs` accepts this secret for a TOTP.
///
/// Calls `totp_rs::TOTP::new` with SHA-1, six digits, a skew of one step and
/// 30-second steps. By the crate's source, with six digits it fails exactly when
/// the secret is shorter than 16 bytes.
#[verifier::external_body]
fn totp_accepts_secret(secret: &Vec<u8>) -> (ok: bool)
    ensures
        ok == (secret@.len() >= 16),
{
    totp_rs::TOTP::new(totp_rs::Algorithm::SHA1, 6, 1, 30, secret.clone()).is_ok()
}

/// Six ASCII decimal digits.
pub open spec fn is_six_digits(s: Seq<char>) -> bool {
    &&& s.len() == 6
    &&& forall|i: int| 0 <= i < 6 ==> '0' <= #[trigger] s[i] <= '9'
}

/// The code for second `time`.
///
/// Calls `totp_rs::TOTP::generate` on a TOTP with SHA-1, six digits, a skew of
/// one step and 30-second steps. By the crate's source the code depends only on
/// the secret and the step `time / 30`; it is named `totp_step_code`. Also by the
/// source, it is the truncated HMAC value modulo a million, written with six
/// digits padded with zeros.
#[verifier::external_body]
fn totp_code_at(secret: &Vec<u8>, time: u64) -> (code: String)
    ensures
        code@ == totp_step_code(secret@, (time / 30) as int),
        is_six_digits(code@),
{
    totp_rs::TOTP::new_unchecked(totp_rs::Algorithm::SHA1, 6, 1, 30, secret.clone()).generate(time)
}

/// Whether `token` is accepted at second `time`.
///
/// Calls `totp_rs::TOTP::check` on a TOTP with SHA-1, six digits, a skew of one
/// step and 30-second steps. By the crate's source it compares the token with the
/// codes of the step before, the step of, and the step after `time`.
#[verifier::external_body]
fn totp_check_at(secret: &Vec<u8>, token: &str, time: u64) -> (ok: bool)
    requires
        30 <= time <= u64::MAX - 60,
    ensures
        ok == totp_accepts(secret@, token@, time as int),
{
    totp_rs::TOTP::new_unchecked(totp_rs::Algorithm::SHA1, 6, 1, 30, secret.clone()).check(token, time)
}

/// What the `qrcode` crate draws, as SVG, for these bytes at this size range;
/// `None` where the bytes do not fit in a QR code.
pub uninterp spec fn qr_svg_image(data: Seq<u8>, min_size: u32, max_size: u32) -> Option<
    Seq<char>,
>;

/// An SVG document as the `qrcode` renderer writes it: an XML declaration of 38
/// characters, then the `<svg` element, and `</svg>` at the end.
pub open spec fn is_svg_drawing(s: Seq<char>) -> bool {
    &&& s.len() >= 50
    &&& s.subrange(38, 42) == "<svg"@
    &&& s.subrange(s.len() - 6, s.len() as int) == "</svg>"@
}

/// The QR code of the bytes as an SVG document, sized within the given range.
///
/// Calls `qrcode::QrCode::new` and renders it with the SVG renderer of the
/// `qrcode` crate. The result is named `qr_svg_image`; by the renderer's source a
/// drawing begins with an XML declaration and an `<svg` element and ends with
/// `</svg>`. By the encoder's source, data of at most 300 bytes always fits: the
/// parser cuts `n` bytes into at most `2n + 2` segments, each costing at most 20
/// header bits at version 40 and at most 8 bits per byte of data, the optimiser
/// only merges segments where that is no longer, and `2n + 2` segments of 20 bits
/// plus `8n` bits stay within the 18672 data bits of version 40 at level M (the
/// level `QrCode::new` uses); the bits then fill the smallest version that holds
/// them, and rendering cannot fail.
#[verifier::external_body]
fn qr_svg(data: &[u8], min_size: u32, max_size: u32) -> (r: Option<String>)
    requires
        0 < min_size <= 10000,
        0 < max_size <= 10000,
    ensures
        match r {
            Some(s) => qr_svg_image(data@, min_size, max_size) == Some(s@),
            None => qr_svg_image(data@, min_size, max_size) is None,
        },
        r matches Some(s) ==> is_svg_drawing(s@),
        r is None ==> data@.len() > 300,
{
    match qrcode::QrCode::new(data) {
        Ok(code) => Some(
            code.render::<qrcode::render::svg::Color>().min_dimensions(min_size, min_size)
                .max_dimensions(max_size, max_size).build(),
        ),
        Err(_) => None,
    }
}

/// Why a two-factor operation failed.
#[derive(Clone, Copy, Debug, PartialEq, Eq, Structural)]
pub enum TwoFactorError {
    /// The secret is not base32 text.
    SecretNotBase32,
    /// The secret, of this many bits, is too short for a TOTP.
    SecretTooShort(u128),
    /// The clock reads a time before the Unix epoch.
    ClockBeforeEpoch,
    /// The provisioning address does not fit in a QR code.
    QrCodeTooLarge,
}

impl TwoFactorError {
    pub open spec fn msg(&self) -> Seq<char> {
        match self {
            TwoFactorError::SecretNotBase32 => "Failed to decode secret"@,
            TwoFactorError::SecretTooShort(bits) => "Failed to create TOTP: The length of the shared secret MUST be at least 128 bits. "@
                + decimal_text(*bits as nat) + " bits is not enough"@,
            TwoFactorError::ClockBeforeEpoch => "Failed to generate code: second time provided was later than self"@,
            TwoFactorError::QrCodeTooLarge => "Failed to generate QR code: data too long"@,
        }
    }

    /// What went wrong, in words.
    pub fn message(&self) -> (m: String)
        ensures
            m@ == self.msg(),
    {
        match self {
            TwoFactorError::SecretNotBase32 => String::from_str("Failed to decode secret"),
            TwoFactorError::SecretTooShort(bits) => {
                let n = decimal(*bits);
                let a = joined(
                    "Failed to create TOTP: The length of the shared secret MUST be at least 128 bits. ",
                    n.as_str(),
                );
                joined(a.as_str(), " bits is not enough")
            },
            TwoFactorError::ClockBeforeEpoch => String::from_str(
                "Failed to generate code: second time provided was later than self",
            ),
            TwoFactorError::QrCodeTooLarge => String::from_str(
                "Failed to generate QR code: data too long",
            ),
        }
    }
}

/// The TOTP secret that base32 text stands for, if it is base32 and long enough.
pub open spec fn totp_secret_of(secret: Seq<char>) -> Result<Seq<u8>, TwoFactorError> {
    if !all_base32(secret) {
        Err(TwoFactorError::SecretNotBase32)
    } else if base32_bytes(secret).len() < 16 {
        Err(TwoFactorError::SecretTooShort((8 * base32_bytes(secret).len()) as u128))
    } else {
        Ok(base32_bytes(secret))
    }
}

/// Text that a newly generated secret may be: 20 bytes as 32 base32 characters,
/// usable as a TOTP secret.
pub open spec fn is_fresh_secret(s: Seq<char>) -> bool {
    &&& s.len() == 32
    &&& all_base32(s)
    &&& base32_bytes(s).len() == 20
    &&& totp_secret_of(s) is Ok
}

/// The outcome of checking `code` against `secret` at instant `now`.
pub open spec fn verify_outcome(secret: Seq<char>, code: Seq<char>, now: int) -> Result<
    bool,
    TwoFactorError,
> {
    match totp_secret_of(secret) {
        Err(e) => Err(e),
        Ok(b) => {
            let t = now / 1_000_000;
            if t < 30 {
                Ok(false)
            } else {
                Ok(totp_accepts(b, code, t))
            }
        },
    }
}

/// The outcome of asking for the code of `secret` at instant `now`.
pub open spec fn code_outcome(secret: Seq<char>, now: int) -> Result<Seq<char>, TwoFactorError> {
    match totp_secret_of(secret) {
        Err(e) => Err(e),
        Ok(b) => {
            let t = now / 1_000_000;
            if t < 0 {
                Err(TwoFactorError::ClockBeforeEpoch)
            } else {
                Ok(totp_step_code(b, t / 30))
            }
        },
    }
}

/// Issues and checks time-based one-time codes for an issuer.
#[derive(Clone, Debug)]
pub struct TwoFactorService {
    pub issuer: String,
}

impl TwoFactorService {
    pub fn new(issuer: String) -> (s: Self)
        ensures
            s.issuer == issuer,
    {
        TwoFactorService { issuer }
    }

    /// A fresh random secret of 20 bytes, as base32 text.
    pub fn generate_secret(&self) -> (s: String)
        ensures
            is_fresh_secret(s@),
    {
        let mut bytes: Vec<u8> = Vec::new();
        let mut i: usize = 0;
        while i < 20
            invariant
                i <= 20,
                bytes@.len() == i,
            decreases 20 - i,
        {
            bytes.push(random_byte());
            i = i + 1;
        }
        base32_encode(&bytes)
    }

    /// The secret's bytes, checked as a TOTP secret.
    fn totp_secret(secret: &str) -> (r: Result<Vec<u8>, TwoFactorError>)
        ensures
            match r {
                Ok(b) => totp_secret_of(secret@) == Ok::<Seq<u8>, TwoFactorError>(b@),
                Err(e) => totp_secret_of(secret@) == Err::<Seq<u8>, TwoFactorError>(e),
            },
    {
        match base32_decode(secret) {
            None => Err(TwoFactorError::SecretNotBase32),
            Some(bytes) => {
                if totp_accepts_secret(&bytes) {
                    Ok(bytes)
                } else {
                    let bits: u128 = (bytes.len() as u128) * 8;
                    Err(TwoFactorError::SecretTooShort(bits))
                }
            },
        }
    }

    /// Whether `code` is a current code for `secret` at instant `now`; a clock that
    /// reads before the Unix epoch accepts no code.
    pub fn verify_code_at(&self, email: &str, secret: &str, code: &str, now: i64) -> (r: Result<
        bool,
        TwoFactorError,
    >)
        requires
            is_instant(now as int),
        ensures
            r == verify_outcome(secret@, code@, now as int),
    {
        let bytes = match Self::totp_secret(secret) {
            Ok(b) => b,
            Err(e) => return Err(e),
        };
        let t = whole_seconds(now);
        if t < 30 {
            return Ok(false);
        }
        Ok(totp_check_at(&bytes, code, t as u64))
    }

    /// Whether `code` is a current code for `secret`.
    pub fn verify_code(&self, email: &str, secret: &str, code: &str) -> (r: Result<
        bool,
        TwoFactorError,
    >)
        ensures
            exists|now: int| is_instant(now) && 0 <= now && r == verify_outcome(secret@, code@, now),
            totp_secret_of(secret@) is Ok <==> r is Ok,
    {
        let now = now_instant();
        self.verify_code_at(email, secret, code, now)
    }

    /// The code for `secret` at instant `now`.
    pub fn generate_code_at(&self, email: &str, secret: &str, now: i64) -> (r: Result<
        String,
        TwoFactorError,
    >)
        requires
            is_instant(now as int),
        ensures
            match r {
                Ok(c) => code_outcome(secret@, now as int) == Ok::<Seq<char>, TwoFactorError>(c@),
                Err(e) => code_outcome(secret@, now as int) == Err::<Seq<char>, TwoFactorError>(e),
            },
            r matches Ok(c) ==> is_six_digits(c@),
    {
        let bytes = match Self::totp_secret(secret) {
            Ok(b) => b,
            Err(e) => return Err(e),
        };
        let t = whole_seconds(now);
        if t < 0 {
            return Err(TwoFactorError::ClockBeforeEpoch);
        }
        Ok(totp_code_at(&bytes, t as u64))
    }

    /// The current code for `secret`.
    pub fn generate_current_code(&self, email: &str, secret: &str) -> (r: Result<
        String,
        TwoFactorError,
    >)
        ensures
            exists|now: int|
                is_instant(now) && 0 <= now && match r {
                    Ok(c) => code_outcome(secret@, now) == Ok::<Seq<char>, TwoFactorError>(c@),
                    Err(e) => code_outcome(secret@, now) == Err::<Seq<char>, TwoFactorError>(e),
                },
            r matches Ok(c) ==> is_six_digits(c@),
            totp_secret_of(secret@) is Ok <==> r is Ok,
    {
        let now = now_instant();
        self.generate_code_at(email, secret, now)
    }

    pub open spec fn provisioning_uri(&self, email: Seq<char>, secret: Seq<char>) -> Seq<char> {
        "otpauth://totp/"@ + url_encoded(self.issuer@) + ":"@ + email + "?secret="@ + secret
            + "&issuer="@ + url_encoded(self.issuer@) + "&algorithm=SHA1&digits=6&period=30"@
    }

    /// The `otpauth` address that authenticator apps read: the issuer and the
    /// account's email address label it, and it carries the secret and the TOTP
    /// parameters.
    pub fn get_provisioning_uri(&self, email: &str, secret: &str) -> (r: Result<
        String,
        TwoFactorError,
    >)
        ensures
            r matches Ok(u) && u@ == self.provisioning_uri(email@, secret@),
    {
        let issuer = url_encode(self.issuer.as_str());
        let a = joined("otpauth://totp/", issuer.as_str());
        let b = joined(a.as_str(), ":");
        let c = joined(b.as_str(), email);
        let d = joined(c.as_str(), "?secret=");
        let e = joined(d.as_str(), secret);
        let f = joined(e.as_str(), "&issuer=");
        let g = joined(f.as_str(), issuer.as_str());
        Ok(joined(g.as_str(), "&algorithm=SHA1&digits=6&period=30"))
    }

    /// The QR code, in SVG between 200 and 400 pixels on each side, of the
    /// provisioning address; `None` where the address does not fit in a QR code.
    pub open spec fn provisioning_qr(&self, email: Seq<char>, secret: Seq<char>) -> Option<
        Seq<char>,
    > {
        qr_svg_image(vstd::utf8::encode_utf8(self.provisioning_uri(email, secret)), 200, 400)
    }

    /// The provisioning address drawn as a QR code in SVG, between 200 and 400
    /// pixels on each side.
    pub fn generate_qr_code(&self, email: &str, secret: &str) -> (r: Result<
        String,
        TwoFactorError,
    >)
        ensures
            match r {
                Ok(s) => self.provisioning_qr(email@, secret@) == Some(s@),
                Err(e) => e == TwoFactorError::QrCodeTooLarge && self.provisioning_qr(
                    email@,
                    secret@,
                ) is None,
            },
            r matches Ok(s) ==> is_svg_drawing(s@),
            vstd::utf8::encode_utf8(self.provisioning_uri(email@, secret@)).len() <= 300 ==> r is Ok,
    {
        let uri = match self.get_provisioning_uri(email, secret) {
            Ok(u) => u,
            Err(e) => return Err(e),
        };
        let bytes = uri.as_str().as_bytes();
        match qr_svg(bytes, 200, 400) {
            Some(s) => Ok(s),
            None => Err(TwoFactorError::QrCodeTooLarge),
        }
    }
}

/// A code issued at an instant is accepted at that same instant.
pub proof fn issued_code_is_accepted(secret: Seq<char>, now: int)
    requires
        now / 1_000_000 >= 30,
        code_outcome(secret, now) is Ok,
    ensures
        verify_outcome(secret, code_outcome(secret, now)->Ok_0, now) == Ok::<bool, TwoFactorError>(
            true,
        ),
{
    let b = totp_secret_of(secret)->Ok_0;
    let t = now / 1_000_000;
    assert(totp_step_code(b, t / 30 - 1 + 1) == totp_step_code(b, t / 30));
}

/// Whatever the account and secret, the provisioning address begins with the
/// `otpauth://totp/` label of the URL-encoded issuer followed by a colon, and names
/// the URL-encoded issuer again as its `issuer` parameter.
pub proof fn provisioning_uri_names_its_issuer(
    service: TwoFactorService,
    email: Seq<char>,
    secret: Seq<char>,
)
    ensures
        ({
            let u = service.provisioning_uri(email, secret);
            let head = "otpauth://totp/"@ + url_encoded(service.issuer@) + ":"@;
            &&& head.len() <= u.len()
            &&& u.subrange(0, head.len() as int) == head
        }),
        ({
            let u = service.provisioning_uri(email, secret);
            let param = "&issuer="@ + url_encoded(service.issuer@);
            exists|i: int|
                0 <= i && i + param.len() <= u.len() && #[trigger] u.subrange(i, i + param.len())
                    == param
        }),
{
    let enc = url_encoded(service.issuer@);
    let u = service.provisioning_uri(email, secret);
    let head = "otpauth://totp/"@ + enc + ":"@;
    let mid = email + "?secret="@ + secret;
    let param = "&issuer="@ + enc;
    let tail = "&algorithm=SHA1&digits=6&period=30"@;
    assert(u =~= head + mid + param + tail);
    assert(u.subrange(0, head.len() as int) =~= head);
    let i: int = (head.len() + mid.len()) as int;
    assert(u.subrange(i, i + param.len() as int) =~= param);
}

} // verus!
