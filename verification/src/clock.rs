//! Time, identifiers and randomness: the values that come from outside the
//! library's logic. Instants are microseconds since the Unix epoch.
use vstd::prelude::*;

verus! {

/// Earliest instant that a UTC date-time can hold (1 January of year -262143).
pub const MIN_INSTANT: i64 = -8334601228800000000i64;

/// Latest instant that a UTC date-time can hold (the last microsecond of year 262142).
pub const MAX_INSTANT: i64 = 8210266876799999999i64;

/// Largest number of seconds, either way, that a time span can hold.
pub const MAX_SPAN_SECONDS: i64 = 9223372036854775i64;

pub open spec fn is_instant(t: int) -> bool {
    MIN_INSTANT <= t <= MAX_INSTANT
}

/// The instant `minutes` minutes after `now`, if both the span and the instant
/// are representable.
pub open spec fn instant_after(now: int, minutes: int) -> Option<int> {
    let span = minutes * 60;
    let t = now + span * 1_000_000;
    if -MAX_SPAN_SECONDS <= span <= MAX_SPAN_SECONDS && is_instant(t) {
        Some(t)
    } else {
        None
    }
}

/// The current instant.
///
/// Calls `chrono::Utc::now` and reads it as microseconds. The contract claims only
/// that the value lies in the range that a UTC date-time can hold and is not before
/// the Unix epoch (`Utc::now` panics on a clock that reads earlier); which instant
/// comes back depends on the system clock.
#[verifier::external_body]
pub(crate) fn now_instant() -> (t: i64)
    ensures
        is_instant(t as int),
        0 <= t,
{
    chrono::Utc::now().timestamp_micros()
}

/// The current instant, as the system clock reads it.
pub fn current_instant() -> (t: i64)
    ensures
        is_instant(t as int),
        0 <= t,
{
    now_instant()
}

/// A fresh random identifier.
///
/// Calls `uuid::Uuid::new_v4` and reads the identifier as a 128-bit integer.
/// Nothing is claimed of the value: it is random.
#[verifier::external_body]
pub(crate) fn new_id() -> (id: u128) {
    uuid::Uuid::new_v4().as_u128()
}

/// The lowercase hexadecimal digit of `n`, for `n` below sixteen.
pub open spec fn lower_hex_digit(n: int) -> char {
    if n < 10 {
        ((n + 48) as u32) as char
    } else {
        ((n + 87) as u32) as char
    }
}

/// The last `n` hexadecimal digits of `v`, most significant first.
pub open spec fn hex_digits(v: int, n: nat) -> Seq<char>
    decreases n,
{
    if n == 0 {
        Seq::empty()
    } else {
        hex_digits(v / 16, (n - 1) as nat).push(lower_hex_digit(v % 16))
    }
}

/// The hyphenated textual form of a UUID with this value: its 32 lowercase
/// hexadecimal digits, most significant first, in groups of 8, 4, 4, 4 and 12.
pub open spec fn uuid_text_of(id: u128) -> Seq<char> {
    let h = hex_digits(id as int, 32);
    h.subrange(0, 8) + seq!['-'] + h.subrange(8, 12) + seq!['-'] + h.subrange(12, 16) + seq!['-']
        + h.subrange(16, 20) + seq!['-'] + h.subrange(20, 32)
}

/// A hexadecimal digit string has as many digits as asked for, each a digit or a
/// lowercase letter up to `f`.
proof fn hex_digits_shape(v: int, n: nat)
    ensures
        hex_digits(v, n).len() == n,
        forall|i: int|
            0 <= i < n ==> ('0' <= #[trigger] hex_digits(v, n)[i] <= '9') || ('a' <= hex_digits(
                v,
                n,
            )[i] <= 'f'),
    decreases n,
{
    if n > 0 {
        hex_digits_shape(v / 16, (n - 1) as nat);
        let d = v % 16;
        assert(0 <= d < 16);
        assert(('0' <= lower_hex_digit(d) <= '9') || ('a' <= lower_hex_digit(d) <= 'f'));
    }
}

/// The textual form of a UUID has 36 characters: hyphens at positions 8, 13, 18
/// and 23, and lowercase hexadecimal digits elsewhere.
pub proof fn uuid_text_shape(id: u128)
    ensures
        uuid_text_of(id).len() == 36,
        forall|i: int|
            0 <= i < 36 ==> if i == 8 || i == 13 || i == 18 || i == 23 {
                uuid_text_of(id)[i] == '-'
            } else {
                ('0' <= #[trigger] uuid_text_of(id)[i] <= '9') || ('a' <= uuid_text_of(id)[i] <= 'f')
            },
{
    let h = hex_digits(id as int, 32);
    hex_digits_shape(id as int, 32);
    let t = uuid_text_of(id);
    assert forall|i: int| 0 <= i < 36 implies if i == 8 || i == 13 || i == 18 || i == 23 {
        t[i] == '-'
    } else {
        ('0' <= #[trigger] t[i] <= '9') || ('a' <= t[i] <= 'f')
    } by {
        if i < 8 {
            assert(t[i] == h[i]);
        } else if i == 8 {
        } else if i < 13 {
            assert(t[i] == h[i - 1]);
        } else if i == 13 {
        } else if i < 18 {
            assert(t[i] == h[i - 2]);
        } else if i == 18 {
        } else if i < 23 {
            assert(t[i] == h[i - 3]);
        } else if i == 23 {
        } else {
            assert(t[i] == h[i - 4]);
        }
    }
}

/// The value of the identifier that `uuid::Uuid::parse_str` reads from this text, if
/// it reads one.
pub uninterp spec fn uuid_value_of(s: Seq<char>) -> Option<u128>;

/// The identifier in the hyphenated textual form of a UUID.
///
/// Calls `to_string` on `uuid::Uuid::from_u128(id)`. As the crate documents and
/// its source shows (the hyphenated form with the lowercase table, over the
/// big-endian bytes), the text is `uuid_text_of(id)`; `uuid::Uuid::parse_str` reads
/// the same identifier back from it (the crate's own round-trip tests).
#[verifier::external_body]
pub(crate) fn uuid_text(id: u128) -> (s: String)
    ensures
        s@ == uuid_text_of(id),
        uuid_value_of(s@) == Some(id),
{
    uuid::Uuid::from_u128(id).to_string()
}

/// The identifier that the text names, read as a UUID.
///
/// Calls `uuid::Uuid::parse_str` and reads the identifier as a 128-bit integer;
/// `None` where the text is no UUID. The result is named `uuid_value_of`: the
/// crate accepts several textual forms, in either case.
#[verifier::external_body]
pub(crate) fn uuid_parse(s: &str) -> (r: Option<u128>)
    ensures
        r == uuid_value_of(s@),
{
    uuid::Uuid::parse_str(s).ok().map(|u| u.as_u128())
}

/// A fresh random identifier in its textual form.
pub(crate) fn new_id_text() -> (s: String)
    ensures
        s@.len() == 36,
        exists|id: u128| s@ == #[trigger] uuid_text_of(id),
{
    let id = new_id();
    proof {
        uuid_text_shape(id);
    }
    uuid_text(id)
}

/// One random byte.
///
/// Calls `rand::random::<u8>` (the thread-local generator). Nothing is claimed of
/// the value: it is random.
#[verifier::external_body]
pub(crate) fn random_byte() -> (b: u8) {
    rand::random::<u8>()
}

/// The instant `minutes` minutes after `now`; `None` where the span or the
/// resulting instant cannot be represented by a UTC date-time.
pub fn instant_after_minutes(now: i64, minutes: i64) -> (r: Option<i64>)
    requires
        is_instant(now as int),
    ensures
        r matches Some(t) ==> instant_after(now as int, minutes as int) == Some(t as int),
        r is None ==> instant_after(now as int, minutes as int) is None,
{
    let span: i128 = (minutes as i128) * 60;
    if span < -(MAX_SPAN_SECONDS as i128) || span > MAX_SPAN_SECONDS as i128 {
        return None;
    }
    let t: i128 = (now as i128) + span * 1_000_000;
    if t < MIN_INSTANT as i128 || t > MAX_INSTANT as i128 {
        return None;
    }
    Some(t as i64)
}

/// Whole seconds since the epoch at instant `t`, rounded down.
pub fn whole_seconds(t: i64) -> (s: i64)
    requires
        is_instant(t as int),
    ensures
        s as int == (t as int) / 1_000_000,
{
    if t >= 0 {
        t / 1_000_000
    } else {
        let up: i64 = (-t + 999_999) / 1_000_000;
        assert(-up == (t as int) / 1_000_000) by (nonlinear_arith)
            requires
                t < 0,
                up == (-t + 999_999) / 1_000_000,
        ;
        -up
    }
}

} // verus!
