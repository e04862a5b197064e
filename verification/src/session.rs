//! Sessions: the claims a signed session token carries, and the resolution
//! of such claims into the principal of a request.
//!
//! A session token is a set of claims, signed with a secret key. What is
//! decided here is what goes into the claims, which cookie of a request
//! carries the token, and whether the claims of an opened token still stand
//! for a user: they must not have expired, and the password hash they were
//! issued with must still be the user's. A change of password therefore
//! ends every session.

use crate::failure::Failure;
use crate::user::User;
use axum_extra::extract::cookie::Cookie;
use jsonwebtoken::{Algorithm, DecodingKey, EncodingKey, Header, Validation};
use vstd::prelude::*;

verus! {

/// How long a session stays valid, in seconds: 24 hours.
pub const SESSION_LIFETIME: u64 = 86400;

/// The max-age of the cookie that carries the token, in seconds: 12 hours.
/// It may end before the claims do; the claims' expiry is what counts.
pub const COOKIE_MAX_AGE: u64 = 43200;

/// What a session token states.
#[derive(Clone, Debug, PartialEq, Eq)]
pub struct UserClaims {
    pub id: i32,
    /// The password hash of the user at the moment of issue.
    pub hash: String,
    /// The second, counted from the Unix epoch, at which the session ends.
    pub exp: u64,
}

/// The cookie that carries a session token, as plain values.
#[derive(Clone, Debug, PartialEq, Eq)]
pub struct SessionCookie {
    pub name: String,
    pub value: String,
    pub path: String,
    pub max_age: u64,
    pub http_only: bool,
    pub secure: bool,
    /// `SameSite=None`.
    pub cross_site: bool,
    pub partitioned: bool,
}

/// The name/value pairs that `Cookie::split_parse` finds in a `Cookie`
/// header, in the order of the header, pairs that fail to parse left out.
pub uninterp spec fn cookie_pairs(header: Seq<char>) -> Seq<(Seq<char>, Seq<char>)>;

/// The error of the `jsonwebtoken` crate.
#[verifier::external_type_specification]
#[verifier::external_body]
pub struct ExTokenError(jsonwebtoken::errors::Error);

/// The token that `jsonwebtoken::encode` makes of the claims `id`, `hash`
/// and `exp` under its default header, signed with `secret`.
pub uninterp spec fn signed_claims(id: int, hash: Seq<char>, exp: int, secret: Seq<u8>) -> Seq<
    char,
>;

/// The claims `id`, `hash` and `exp` that `jsonwebtoken::decode` finds in
/// `token`, if the signature of the token holds under `secret` and the
/// claims are there: an integer, a text and a non-negative integer.
pub uninterp spec fn opened_claims(token: Seq<char>, secret: Seq<u8>) -> Option<
    (int, Seq<char>, int),
>;

/// Whether `cookie` is the session cookie around `token`: named
/// `jwt-token`, for every path, for half a day, hidden from scripts, sent
/// over secure transport only, sent across sites, and partitioned.
pub open spec fn wraps(cookie: SessionCookie, token: Seq<char>) -> bool {
    &&& cookie.name@ == session_cookie_name()
    &&& cookie.value@ == token
    &&& cookie.path@ == "/"@
    &&& cookie.max_age == COOKIE_MAX_AGE
    &&& cookie.http_only
    &&& cookie.secure
    &&& cookie.cross_site
    &&& cookie.partitioned
}

/// Whether `cookie` is the session cookie around the token of `claims`
/// signed with `secret`.
pub open spec fn carries(cookie: SessionCookie, claims: UserClaims, secret: Seq<u8>) -> bool {
    wraps(cookie, signed_claims(claims.id as int, claims.hash@, claims.exp as int, secret))
}

/// The name of the session cookie.
pub open spec fn session_cookie_name() -> Seq<char> {
    "jwt-token"@
}

/// The value of the first pair named `name`.
pub open spec fn first_named(pairs: Seq<(Seq<char>, Seq<char>)>, name: Seq<char>) -> Option<
    Seq<char>,
>
    decreases pairs.len(),
{
    if pairs.len() == 0 {
        None
    } else if pairs[0].0 == name {
        Some(pairs[0].1)
    } else {
        first_named(pairs.drop_first(), name)
    }
}

/// Opened claims as plain values.
pub open spec fn fields_of(found: Option<(i64, String, u64)>) -> Option<(int, Seq<char>, int)> {
    match found {
        Some(fields) => Some((fields.0 as int, fields.1@, fields.2 as int)),
        None => None,
    }
}

/// Claims, if there are any, as plain values.
pub open spec fn claims_of(found: Option<UserClaims>) -> Option<(int, Seq<char>, int)> {
    match found {
        Some(claims) => Some(claims.fields()),
        None => None,
    }
}

/// The claims among opened fields: those whose id is the id of a user.
pub open spec fn with_user_id(fields: Option<(int, Seq<char>, int)>) -> Option<
    (int, Seq<char>, int),
> {
    match fields {
        Some(found) if i32::MIN <= found.0 <= i32::MAX => Some(found),
        _ => None,
    }
}

/// The claims that a token carries under `secret`.
pub open spec fn claims_in(token: Seq<char>, secret: Seq<u8>) -> Option<(int, Seq<char>, int)> {
    with_user_id(opened_claims(token, secret))
}

/// Parsed pairs as plain text.
pub open spec fn pairs_of(pairs: Seq<(String, String)>) -> Seq<(Seq<char>, Seq<char>)> {
    Seq::new(pairs.len(), |i: int| (pairs[i].0@, pairs[i].1@))
}

/// A text, if there is one, as plain text.
pub open spec fn text_of(value: Option<String>) -> Option<Seq<char>> {
    match value {
        Some(text) => Some(text@),
        None => None,
    }
}

/// Calls `Cookie::split_parse` of the `cookie` crate, as `axum_extra`
/// exports it, and hands out name and value of each cookie that parsed. The
/// contract claims that the pairs depend on the header alone.
#[verifier::external_body]
fn split_cookies(header: &str) -> (pairs: Vec<(String, String)>)
    ensures
        pairs_of(pairs@) == cookie_pairs(header@),
{
    let mut pairs = Vec::new();
    for cookie in Cookie::split_parse(header).flatten() {
        pairs.push((cookie.name().to_string(), cookie.value().to_string()));
    }
    pairs
}

/// Calls `jsonwebtoken::encode` with the default header, which names
/// HMAC-SHA256, on a JSON object of the three claims, with the key that
/// `EncodingKey::from_secret` makes of `secret`. The contract claims three
/// things. The call succeeds: the key is of the family the header asks for,
/// an object of a number, a text and a number always serialises, and
/// signing with HMAC has no failing path. The token depends on the claims
/// and the secret alone. And `jsonwebtoken::decode` with the same secret
/// finds the same claims in it.
#[verifier::external_body]
fn sign_claims(id: i32, hash: &str, exp: u64, secret: &[u8]) -> (r: Result<
    String,
    jsonwebtoken::errors::Error,
>)
    ensures
        match r {
            Ok(token) => token@ == signed_claims(id as int, hash@, exp as int, secret@)
                && opened_claims(token@, secret@) == Some((id as int, hash@, exp as int)),
            Err(_) => false,
        },
{
    let mut claims = serde_json::Map::new();
    claims.insert("id".to_string(), serde_json::Value::from(id));
    claims.insert("hash".to_string(), serde_json::Value::from(hash));
    claims.insert("exp".to_string(), serde_json::Value::from(exp));
    jsonwebtoken::encode(&Header::default(), &claims, &EncodingKey::from_secret(secret))
}

/// Calls `jsonwebtoken::decode` for HMAC-SHA256 with the key that
/// `DecodingKey::from_secret` makes of `secret`, and hands out the three
/// claims. Expiry is not validated by the call, so that nothing depends on
/// the clock. The contract claims that the outcome depends on the token and
/// the secret alone.
#[verifier::external_body]
fn open_claims(token: &str, secret: &[u8]) -> (r: Option<(i64, String, u64)>)
    ensures
        fields_of(r) == opened_claims(token@, secret@),
{
    let mut validation = Validation::new(Algorithm::HS256);
    validation.validate_exp = false;
    let key = DecodingKey::from_secret(secret);
    let claims = jsonwebtoken::decode::<serde_json::Value>(token, &key, &validation).ok()?.claims;
    let id = claims.get("id")?.as_i64()?;
    let hash = claims.get("hash")?.as_str()?.to_string();
    let exp = claims.get("exp")?.as_u64()?;
    Some((id, hash, exp))
}

/// The value of the first of the parsed pairs that is named `name`.
pub fn find_named(pairs: &Vec<(String, String)>, name: &String) -> (value: Option<String>)
    ensures
        text_of(value) == first_named(pairs_of(pairs@), name@),
{
    let mut i: usize = 0;
    assert(pairs_of(pairs@).subrange(0, pairs@.len() as int) =~= pairs_of(pairs@));
    while i < pairs.len()
        invariant
            i <= pairs@.len(),
            first_named(pairs_of(pairs@), name@) == first_named(
                pairs_of(pairs@).subrange(i as int, pairs@.len() as int),
                name@,
            ),
        decreases pairs@.len() - i,
    {
        let ghost rest = pairs_of(pairs@).subrange(i as int, pairs@.len() as int);
        assert(rest[0] == (pairs@[i as int].0@, pairs@[i as int].1@));
        if pairs[i].0 == *name {
            return Some(pairs[i].1.clone());
        }
        assert(rest.drop_first() =~= pairs_of(pairs@).subrange(i + 1, pairs@.len() as int));
        i = i + 1;
    }
    assert(pairs_of(pairs@).subrange(i as int, pairs@.len() as int).len() == 0);
    None
}

/// The session token that a `Cookie` header carries: the value of its
/// first cookie named `jwt-token`.
pub fn session_token(header: &str) -> (token: Option<String>)
    ensures
        text_of(token) == first_named(cookie_pairs(header@), session_cookie_name()),
{
    let pairs = split_cookies(header);
    let name = "jwt-token".to_owned();
    find_named(&pairs, &name)
}

impl UserClaims {
    /// The three claims as plain values.
    pub open spec fn fields(self) -> (int, Seq<char>, int) {
        (self.id as int, self.hash@, self.exp as int)
    }

    /// The claims issued for `user` at second `now`.
    pub open spec fn issued(user: User, now: u64) -> Result<UserClaims, Failure> {
        if now + SESSION_LIFETIME <= u64::MAX {
            Ok(
                UserClaims {
                    id: user.id,
                    hash: user.password_hash,
                    exp: (now + SESSION_LIFETIME) as u64,
                },
            )
        } else {
            Err(Failure::UpstreamUnavailable)
        }
    }

    /// The claims end at `exp`: they stand as long as that lies ahead.
    pub open spec fn live(self, now: u64) -> bool {
        self.exp > now
    }

    /// Whether `user` is the one these claims were issued for, with the
    /// password unchanged since.
    pub open spec fn matches(self, user: User) -> bool {
        user.id == self.id && user.password_hash@ == self.hash@
    }

    /// Issues the claims of a session of `user` that starts at `now`,
    /// counted in seconds from the Unix epoch. Fails only where the end of
    /// the session cannot be counted.
    pub fn try_from(value: &User, now: u64) -> (r: Result<UserClaims, Failure>)
        ensures
            r == UserClaims::issued(*value, now),
    {
        match now.checked_add(SESSION_LIFETIME) {
            Some(exp) => Ok(UserClaims { id: value.id, hash: value.password_hash.clone(), exp }),
            None => Err(Failure::UpstreamUnavailable),
        }
    }

    pub fn is_live(&self, now: u64) -> (r: bool)
        ensures
            r == self.live(now),
    {
        self.exp > now
    }

    /// The cookie that carries `token`, the signed form of claims.
    pub fn cookie(token: String) -> (cookie: SessionCookie)
        ensures
            wraps(cookie, token@),
            cookie.value == token,
    {
        SessionCookie {
            name: "jwt-token".to_owned(),
            value: token,
            path: "/".to_owned(),
            max_age: COOKIE_MAX_AGE,
            http_only: true,
            secure: true,
            cross_site: true,
            partitioned: true,
        }
    }
}

/// Makes claims of the fields that opening a token gave. An id that is no
/// user's id makes no claims.
pub fn claims_from(found: Option<(i64, String, u64)>) -> (r: Option<UserClaims>)
    ensures
        claims_of(r) == with_user_id(fields_of(found)),
{
    match found {
        None => None,
        Some((id, hash, exp)) => {
            if id < -2147483648 || id > 2147483647 {
                None
            } else {
                Some(UserClaims { id: id as i32, hash, exp })
            }
        },
    }
}

/// Signs claims with `secret`. Signing always succeeds, and the token opens
/// again to the same claims under the same secret.
pub fn sign(claims: &UserClaims, secret: &[u8]) -> (r: Result<String, Failure>)
    ensures
        r matches Ok(token) && token@ == signed_claims(
            claims.id as int,
            claims.hash@,
            claims.exp as int,
            secret@,
        ) && claims_in(token@, secret@) == Some(claims.fields()),
{
    match sign_claims(claims.id, claims.hash.as_str(), claims.exp, secret) {
        Ok(token) => Ok(token),
        Err(_) => Err(Failure::UpstreamUnavailable),
    }
}

/// Signs claims with `secret` and wraps the token in the session cookie.
pub fn seal(claims: &UserClaims, secret: &[u8]) -> (r: Result<SessionCookie, Failure>)
    ensures
        r matches Ok(cookie) && carries(cookie, *claims, secret@) && claims_in(
            cookie.value@,
            secret@,
        ) == Some(claims.fields()),
{
    match sign(claims, secret) {
        Err(failure) => Err(failure),
        Ok(token) => Ok(UserClaims::cookie(token)),
    }
}

/// Opens a token: the claims it carries, if its signature holds under
/// `secret`. Whether the claims have expired is not judged here.
pub fn open(token: &str, secret: &[u8]) -> (r: Option<UserClaims>)
    ensures
        claims_of(r) == claims_in(token@, secret@),
{
    claims_from(open_claims(token, secret))
}

/// The claims of the session that a `Cookie` header carries, if it carries
/// a token whose signature holds.
pub fn open_session(header: &str, secret: &[u8]) -> (r: Option<UserClaims>)
    ensures
        claims_of(r) == (match first_named(cookie_pairs(header@), session_cookie_name()) {
            Some(token) => claims_in(token, secret@),
            None => None,
        }),
{
    match session_token(header) {
        Some(token) => open(token.as_str(), secret),
        None => None,
    }
}

/// Starts a session of `user` at second `now`: issues the claims, signs
/// them, and wraps the token in its cookie. This fails only where the
/// claims cannot be issued, and then as issuing fails. Otherwise the cookie
/// carries the token of the claims that were issued, and the token opens to
/// them.
pub fn start_session(user: &User, now: u64, secret: &[u8]) -> (r: Result<SessionCookie, Failure>)
    ensures
        match UserClaims::issued(*user, now) {
            Err(failure) => r == Err::<SessionCookie, Failure>(failure),
            Ok(claims) => r matches Ok(cookie) && carries(cookie, claims, secret@) && claims_in(
                cookie.value@,
                secret@,
            ) == Some(claims.fields()),
        },
{
    match UserClaims::try_from(user, now) {
        Err(failure) => Err(failure),
        Ok(claims) => seal(&claims, secret),
    }
}

/// Whose record to load for opened claims: that of their subject, as long
/// as they have not expired. `opened` is `None` where the token was missing
/// or its signature did not hold.
pub open spec fn subject_of(opened: Option<UserClaims>, now: u64) -> Result<i32, Failure> {
    match opened {
        Some(claims) if claims.live(now) => Ok(claims.id),
        _ => Err(Failure::Unauthenticated),
    }
}

/// The principal that opened claims stand for. `stored` is the record
/// found for the subject, if there is one.
pub open spec fn principal_of(opened: Option<UserClaims>, now: u64, stored: Option<User>) -> Result<
    User,
    Failure,
> {
    match (opened, stored) {
        (Some(claims), Some(user)) if claims.live(now) && claims.matches(user) => Ok(user),
        _ => Err(Failure::Unauthenticated),
    }
}

/// The first half of resolution: the id of the user to load.
pub fn subject(opened: &Option<UserClaims>, now: u64) -> (r: Result<i32, Failure>)
    ensures
        r == subject_of(*opened, now),
{
    match opened {
        Some(claims) => {
            if claims.is_live(now) {
                Ok(claims.id)
            } else {
                Err(Failure::Unauthenticated)
            }
        },
        None => Err(Failure::Unauthenticated),
    }
}

/// Resolves opened claims into the principal. Every failure is
/// `Unauthenticated`: a missing or broken token, expired claims, an unknown
/// user, and a password changed since the claims were issued.
pub fn resolve(opened: &Option<UserClaims>, now: u64, stored: Option<User>) -> (r: Result<
    User,
    Failure,
>)
    ensures
        r == principal_of(*opened, now, stored),
{
    match opened {
        None => Err(Failure::Unauthenticated),
        Some(claims) => {
            if !claims.is_live(now) {
                return Err(Failure::Unauthenticated);
            }
            match stored {
                None => Err(Failure::Unauthenticated),
                Some(user) => {
                    if user.id == claims.id && user.password_hash == claims.hash {
                        Ok(user)
                    } else {
                        Err(Failure::Unauthenticated)
                    }
                },
            }
        },
    }
}

/// The principal of a request that may come from nobody: the user that
/// the claims resolve to, and nobody where they resolve to no one. Such a
/// request is never refused for want of a principal: a missing, broken or
/// expired token, an unknown user and a changed password all make it
/// anonymous.
pub open spec fn optional_principal_of(opened: Option<UserClaims>, now: u64, stored: Option<User>)
    -> Option<User> {
    match principal_of(opened, now, stored) {
        Ok(user) => Some(user),
        Err(_) => None,
    }
}

/// Resolves opened claims for a request that may come from nobody.
pub fn resolve_optional(opened: &Option<UserClaims>, now: u64, stored: Option<User>) -> (r: Option<
    User,
>)
    ensures
        r == optional_principal_of(*opened, now, stored),
{
    match resolve(opened, now, stored) {
        Ok(user) => Some(user),
        Err(_) => None,
    }
}

/// Claims can be issued at every second whose session still ends within
/// the range of the clock, and at no other. They carry the id of the user,
/// the password hash of that moment, and the end of the session.
pub proof fn claims_carry_the_hash_snapshot(user: User, issued_at: u64)
    ensures
        issued_at + SESSION_LIFETIME <= u64::MAX ==> UserClaims::issued(user, issued_at) == Ok::<
            UserClaims,
            Failure,
        >(
            UserClaims {
                id: user.id,
                hash: user.password_hash,
                exp: (issued_at + SESSION_LIFETIME) as u64,
            },
        ),
        issued_at + SESSION_LIFETIME > u64::MAX ==> UserClaims::issued(user, issued_at) == Err::<
            UserClaims,
            Failure,
        >(Failure::UpstreamUnavailable),
{
}

/// Claims resolve to the user they were issued for, from the moment of
/// issue until they expire.
pub proof fn fresh_claims_resolve(user: User, issued_at: u64, now: u64)
    requires
        issued_at + SESSION_LIFETIME <= u64::MAX,
        issued_at <= now < issued_at + SESSION_LIFETIME,
    ensures
        UserClaims::issued(user, issued_at) matches Ok(claims) && principal_of(
            Some(claims),
            now,
            Some(user),
        ) == Ok::<User, Failure>(user),
{
}

/// Claims issued before a change of password carry the hash of before, so
/// they match the user no more and resolve to nobody, at any time.
pub proof fn password_change_ends_sessions(before: User, after: User, issued_at: u64, now: u64)
    requires
        issued_at + SESSION_LIFETIME <= u64::MAX,
        before.password_hash@ != after.password_hash@,
    ensures
        UserClaims::issued(before, issued_at) matches Ok(claims) && claims.id == before.id
            && claims.hash@ == before.password_hash@ && claims.hash@ != after.password_hash@
            && !claims.matches(after) && principal_of(Some(claims), now, Some(after)) == Err::<
            User,
            Failure,
        >(Failure::Unauthenticated),
{
}

/// A request that may come from nobody has a principal exactly where a
/// request that must have one would have the same.
pub proof fn optional_principal_is_the_principal(
    opened: Option<UserClaims>,
    now: u64,
    stored: Option<User>,
)
    ensures
        optional_principal_of(opened, now, stored).is_some() <==> principal_of(
            opened,
            now,
            stored,
        ).is_ok(),
        optional_principal_of(opened, now, stored) matches Some(user) ==> principal_of(
            opened,
            now,
            stored,
        ) == Ok::<User, Failure>(user),
        optional_principal_of(None, now, stored).is_none(),
{
}

/// Expired claims resolve to nobody.
pub proof fn expired_claims_are_rejected(claims: UserClaims, now: u64, stored: Option<User>)
    requires
        claims.exp <= now,
    ensures
        principal_of(Some(claims), now, stored) == Err::<User, Failure>(Failure::Unauthenticated),
        subject_of(Some(claims), now) == Err::<i32, Failure>(Failure::Unauthenticated),
{
}

} // verus!
