//! Users: the entity and the rules on their names.
use vstd::prelude::*;

use crate::clock::{is_instant, new_id, now_instant};
use crate::text::joined;

verus! {

/// A registered user.
#[derive(Clone, Debug)]
pub struct User {
    pub id: u128,
    pub email: String,
    pub password_hash: String,
    pub first_name: Option<String>,
    pub last_name: Option<String>,
    pub email_verified: bool,
    pub two_factor_enabled: bool,
    pub two_factor_secret: Option<String>,
    pub oauth_provider: Option<String>,
    pub oauth_provider_id: Option<String>,
    pub last_login_at: Option<i64>,
    pub created_at: i64,
    pub updated_at: i64,
}

/// The characters of an optional string.
pub open spec fn opt_view(o: Option<String>) -> Option<Seq<char>> {
    match o {
        Some(s) => Some(s@),
        None => None,
    }
}

/// A copy of an optional string.
pub fn copy_opt(o: &Option<String>) -> (r: Option<String>)
    ensures
        r == *o,
{
    match o {
        Some(s) => Some(s.clone()),
        None => None,
    }
}

/// The name to address a user by: first and last name separated by a space, or the
/// one of them that is given, or none.
pub open spec fn full_name_of(first: Option<Seq<char>>, last: Option<Seq<char>>) -> Option<
    Seq<char>,
> {
    match (first, last) {
        (Some(f), Some(l)) => Some(f + " "@ + l),
        (Some(f), None) => Some(f),
        (None, Some(l)) => Some(l),
        (None, None) => None,
    }
}

/// `after` is `before` with only its last-update instant changed.
pub open spec fn user_touched(before: User, after: User) -> bool {
    after == (User { updated_at: after.updated_at, ..before })
}

/// A user that has just registered with these credentials and names: unverified,
/// without two-factor authentication or an outside identity provider.
pub open spec fn is_fresh_user(
    u: User,
    email: Seq<char>,
    password_hash: Seq<char>,
    first_name: Option<Seq<char>>,
    last_name: Option<Seq<char>>,
) -> bool {
    &&& u.email@ == email
    &&& u.password_hash@ == password_hash
    &&& opt_view(u.first_name) == first_name
    &&& opt_view(u.last_name) == last_name
    &&& !u.email_verified
    &&& !u.two_factor_enabled
    &&& u.two_factor_secret is None
    &&& u.oauth_provider is None
    &&& u.oauth_provider_id is None
    &&& u.last_login_at is None
    &&& u.created_at == u.updated_at
}

impl User {
    /// A new user with a fresh identifier, created now.
    pub fn new(
        email: String,
        password_hash: String,
        first_name: Option<String>,
        last_name: Option<String>,
    ) -> (u: User)
        ensures
            is_fresh_user(u, email@, password_hash@, opt_view(first_name), opt_view(last_name)),
            u.email == email,
            u.password_hash == password_hash,
            u.first_name == first_name,
            u.last_name == last_name,
    {
        let now = now_instant();
        User {
            id: new_id(),
            email,
            password_hash,
            first_name,
            last_name,
            email_verified: false,
            two_factor_enabled: false,
            two_factor_secret: None,
            oauth_provider: None,
            oauth_provider_id: None,
            last_login_at: None,
            created_at: now,
            updated_at: now,
        }
    }

    pub open spec fn spec_full_name(&self) -> Option<Seq<char>> {
        full_name_of(opt_view(self.first_name), opt_view(self.last_name))
    }

    /// The name to address the user by, if any part of it is known.
    pub fn full_name(&self) -> (r: Option<String>)
        ensures
            opt_view(r) == self.spec_full_name(),
    {
        match (&self.first_name, &self.last_name) {
            (Some(first), Some(last)) => {
                let with_space = joined(first.as_str(), " ");
                Some(joined(with_space.as_str(), last.as_str()))
            },
            (Some(first), None) => Some(first.clone()),
            (None, Some(last)) => Some(last.clone()),
            (None, None) => None,
        }
    }

    /// Replaces both names at instant `now`.
    pub fn update_profile_at(&mut self, first_name: Option<String>, last_name: Option<String>, now: i64)
        ensures
            final(self).first_name == first_name,
            final(self).last_name == last_name,
            user_touched(
                User { first_name: old(self).first_name, last_name: old(self).last_name, ..*final(self) },
                *old(self),
            ),
            final(self).updated_at == now,
    {
        self.first_name = first_name;
        self.last_name = last_name;
        self.updated_at = now;
    }

    /// Replaces both names, now.
    pub fn update_profile(&mut self, first_name: Option<String>, last_name: Option<String>)
        ensures
            final(self).first_name == first_name,
            final(self).last_name == last_name,
            user_touched(
                User { first_name: old(self).first_name, last_name: old(self).last_name, ..*final(self) },
                *old(self),
            ),
            is_instant(final(self).updated_at as int),
            0 <= final(self).updated_at,
    {
        self.update_profile_at(first_name, last_name, now_instant());
    }

    /// Replaces the password hash at instant `now`.
    pub fn change_password_at(&mut self, new_password_hash: String, now: i64)
        ensures
            final(self).password_hash == new_password_hash,
            user_touched(User { password_hash: old(self).password_hash, ..*final(self) }, *old(self)),
            final(self).updated_at == now,
    {
        self.password_hash = new_password_hash;
        self.updated_at = now;
    }

    /// Replaces the password hash, now.
    pub fn change_password(&mut self, new_password_hash: String)
        ensures
            final(self).password_hash == new_password_hash,
            user_touched(User { password_hash: old(self).password_hash, ..*final(self) }, *old(self)),
            is_instant(final(self).updated_at as int),
            0 <= final(self).updated_at,
    {
        self.change_password_at(new_password_hash, now_instant());
    }

    /// A copy of the user.
    pub fn duplicate(&self) -> (r: User)
        ensures
            r == *self,
    {
        User {
            id: self.id,
            email: self.email.clone(),
            password_hash: self.password_hash.clone(),
            first_name: copy_opt(&self.first_name),
            last_name: copy_opt(&self.last_name),
            email_verified: self.email_verified,
            two_factor_enabled: self.two_factor_enabled,
            two_factor_secret: copy_opt(&self.two_factor_secret),
            oauth_provider: copy_opt(&self.oauth_provider),
            oauth_provider_id: copy_opt(&self.oauth_provider_id),
            last_login_at: self.last_login_at,
            created_at: self.created_at,
            updated_at: self.updated_at,
        }
    }
}

/// Changing the profile keeps the credentials, and changing the password keeps the
/// profile: each touches only its own fields and the last-update instant.
pub proof fn profile_and_password_are_independent(a: User, b: User, c: User)
    requires
        user_touched(User { first_name: a.first_name, last_name: a.last_name, ..b }, a),
        user_touched(User { password_hash: b.password_hash, ..c }, b),
    ensures
        c.first_name == b.first_name,
        c.last_name == b.last_name,
        c.email == a.email,
        c.id == a.id,
        c.created_at == a.created_at,
{
}

/// A character with the Unicode `White_Space` property.
pub open spec fn is_white_space(c: char) -> bool {
    let n = c as u32;
    ||| 0x9 <= n <= 0xD
    ||| n == 0x20
    ||| n == 0x85
    ||| n == 0xA0
    ||| n == 0x1680
    ||| 0x2000 <= n <= 0x200A
    ||| n == 0x2028
    ||| n == 0x2029
    ||| n == 0x202F
    ||| n == 0x205F
    ||| n == 0x3000
}

/// The words of `s`: its maximal runs of characters without white space, in order.
pub open spec fn whitespace_words(s: Seq<char>) -> Seq<Seq<char>>
    decreases s.len(),
{
    if s.len() == 0 {
        Seq::empty()
    } else {
        let rest = whitespace_words(s.drop_last());
        let c = s.last();
        if is_white_space(c) {
            rest
        } else if s.len() >= 2 && !is_white_space(s[s.len() - 2]) {
            rest.update(rest.len() - 1, rest.last().push(c))
        } else {
            rest.push(seq![c])
        }
    }
}

/// The words of `s`, as separated by Unicode white space.
///
/// Calls `str::split_whitespace` and collects the words as owned strings. As std
/// documents it, the string is split on characters with the `White_Space` property
/// and no empty word is yielded: the words are `whitespace_words(s)`.
#[verifier::external_body]
fn split_words(s: &str) -> (r: Vec<String>)
    ensures
        r@.map_values(|w: String| w@) == whitespace_words(s@),
{
    s.split_whitespace().map(|w| w.to_string()).collect()
}

/// The words joined with single spaces.
pub open spec fn spaced(ws: Seq<Seq<char>>) -> Seq<char>
    decreases ws.len(),
{
    if ws.len() == 0 {
        Seq::empty()
    } else if ws.len() == 1 {
        ws[0]
    } else {
        spaced(ws.drop_last()) + " "@ + ws.last()
    }
}

/// First and last name read from a display name: the first word, then the remaining
/// words joined with single spaces.
pub open spec fn names_from_words(ws: Seq<Seq<char>>) -> (Option<Seq<char>>, Option<Seq<char>>) {
    if ws.len() == 0 {
        (None, None)
    } else if ws.len() == 1 {
        (Some(ws[0]), None)
    } else {
        (Some(ws[0]), Some(spaced(ws.subrange(1, ws.len() as int))))
    }
}

/// Splits a display name into a first name (its first word) and a last name (the
/// rest, joined with single spaces).
pub fn split_display_name(name: &str) -> (r: (Option<String>, Option<String>))
    ensures
        (opt_view(r.0), opt_view(r.1)) == names_from_words(whitespace_words(name@)),
{
    let words = split_words(name);
    let ghost ws = words@.map_values(|w: String| w@);
    let n = words.len();
    if n == 0 {
        return (None, None);
    }
    let first = words[0].clone();
    assert(ws[0] == first@);
    if n == 1 {
        return (Some(first), None);
    }
    let ghost rest = ws.subrange(1, n as int);
    let mut last = words[1].clone();
    assert(rest.subrange(0, 1) =~= seq![rest[0]]);
    let mut i: usize = 2;
    while i < n
        invariant
            2 <= i <= n,
            n == words@.len(),
            ws == words@.map_values(|w: String| w@),
            rest == ws.subrange(1, n as int),
            last@ == spaced(rest.subrange(0, i - 1)),
        decreases n - i,
    {
        let with_space = joined(last.as_str(), " ");
        last = joined(with_space.as_str(), words[i].as_str());
        assert(rest.subrange(0, i as int).drop_last() =~= rest.subrange(0, i - 1));
        assert(rest.subrange(0, i as int).last() == words@[i as int]@);
        i = i + 1;
    }
    assert(rest.subrange(0, n - 1) =~= rest);
    (Some(first), Some(last))
}

/// Words joined with single spaces are the first word, a space, and the rest joined
/// the same way.
proof fn spaced_splits_at_first(ws: Seq<Seq<char>>)
    requires
        ws.len() >= 2,
    ensures
        spaced(ws) == ws[0] + " "@ + spaced(ws.subrange(1, ws.len() as int)),
    decreases ws.len(),
{
    let rest = ws.subrange(1, ws.len() as int);
    if ws.len() == 2 {
        assert(ws.drop_last() =~= seq![ws[0]]);
        assert(spaced(ws.drop_last()) == ws[0]);
        assert(rest.len() == 1 && rest[0] == ws[1]);
        assert(spaced(rest) == ws[1]);
        assert(spaced(ws) == spaced(ws.drop_last()) + " "@ + ws.last());
    } else {
        spaced_splits_at_first(ws.drop_last());
        assert(ws.drop_last().subrange(1, ws.len() - 1) =~= rest.drop_last());
        assert(rest.last() == ws.last());
        assert(spaced(rest) == spaced(rest.drop_last()) + " "@ + rest.last());
        assert(spaced(ws) == spaced(ws.drop_last()) + " "@ + ws.last());
        assert(spaced(ws) =~= ws[0] + " "@ + spaced(rest));
    }
}

/// The full name of a user named from a display name is the display name's words
/// joined with single spaces; a display name without words names no one.
pub proof fn display_name_round_trip(ws: Seq<Seq<char>>)
    ensures
        full_name_of(names_from_words(ws).0, names_from_words(ws).1) == (if ws.len() == 0 {
            None
        } else {
            Some(spaced(ws))
        }),
{
    if ws.len() >= 2 {
        spaced_splits_at_first(ws);
    }
}

} // verus!
