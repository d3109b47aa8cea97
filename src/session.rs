use crate::bytes::{from_le8, lemma_from_le8_of_le8, le8, push_le8, read_le8};
use crate::error::Error;
use crate::model::{may_access, Id, User, UserKind};
use vstd::prelude::*;
use vstd::string::*;

verus! {

/// How long a session lasts, in seconds.
pub const SESSION_LIFETIME_SECONDS: i64 = 86400;

/// How many characters a session token has.
pub const SESSION_LENGTH: usize = 30;

/// Who a request acts for.
#[derive(Clone, Copy, Debug, PartialEq, Eq, Structural)]
pub struct Session {
    pub user_id: Id,
    pub user_kind: UserKind,
}

/// An ASCII letter or digit.
pub open spec fn is_alphanumeric(c: char) -> bool {
    ('a' <= c && c <= 'z') || ('A' <= c && c <= 'Z') || ('0' <= c && c <= '9')
}

/// The four-byte little-endian tag of a role.
pub open spec fn kind_bytes(k: UserKind) -> Seq<u8> {
    match k {
        UserKind::Super => seq![0u8, 0u8, 0u8, 0u8],
        UserKind::Normal => seq![1u8, 0u8, 0u8, 0u8],
    }
}

/// A session as stored: the identifier's two halves, then the role.
pub open spec fn session_bytes(s: Session) -> Seq<u8> {
    le8(s.user_id.hi) + le8(s.user_id.lo) + kind_bytes(s.user_kind)
}

/// The session that `b` frames, if it frames one.
pub open spec fn parse_session_bytes(b: Seq<u8>) -> Option<Session> {
    if b.len() != 20 || b[17] != 0 || b[18] != 0 || b[19] != 0 || b[16] > 1 {
        None
    } else {
        Some(
            Session {
                user_id: Id { hi: from_le8(b.subrange(0, 8)), lo: from_le8(b.subrange(8, 16)) },
                user_kind: if b[16] == 0 {
                    UserKind::Super
                } else {
                    UserKind::Normal
                },
            },
        )
    }
}

/// Framing a session as bytes and reading them back gives the same session.
pub proof fn lemma_session_bytes_round_trip(s: Session)
    ensures
        parse_session_bytes(session_bytes(s)) == Some(s),
{
    let b = session_bytes(s);
    lemma_from_le8_of_le8(s.user_id.hi);
    lemma_from_le8_of_le8(s.user_id.lo);
    assert(b.subrange(0, 8) =~= le8(s.user_id.hi));
    assert(b.subrange(8, 16) =~= le8(s.user_id.lo));
}

/// Frames a session as bytes.
pub fn session_to_bytes(s: &Session) -> (r: Vec<u8>)
    ensures
        r@ == session_bytes(*s),
{
    let mut out: Vec<u8> = Vec::new();
    push_le8(&mut out, s.user_id.hi);
    push_le8(&mut out, s.user_id.lo);
    match s.user_kind {
        UserKind::Super => out.push(0),
        UserKind::Normal => out.push(1),
    }
    out.push(0);
    out.push(0);
    out.push(0);
    assert(out@ =~= session_bytes(*s));
    out
}

/// Reads the session that `b` frames.
pub fn session_from_bytes(b: &[u8]) -> (r: Result<Session, Error>)
    ensures
        match parse_session_bytes(b@) {
            Some(s) => r == Ok::<Session, Error>(s),
            None => r == Err::<Session, Error>(Error::DecodeError),
        },
{
    if b.len() != 20 || b[17] != 0 || b[18] != 0 || b[19] != 0 || b[16] > 1 {
        Err(Error::DecodeError)
    } else {
        let hi = read_le8(b, 0);
        let lo = read_le8(b, 8);
        let kind = if b[16] == 0 {
            UserKind::Super
        } else {
            UserKind::Normal
        };
        Ok(Session { user_id: Id { hi, lo }, user_kind: kind })
    }
}

/// The cache key under which the session of `token` is stored.
pub open spec fn session_key_of(token: Seq<char>) -> Seq<char> {
    "session/"@ + token
}

/// The cache key under which the session of `token` is stored.
pub fn session_key(token: &str) -> (r: String)
    ensures
        r@ == session_key_of(token@),
{
    let mut k = String::from_str("session/");
    k.append(token);
    k
}

/// The value of the header that hands the client its session token.
pub open spec fn session_cookie_of(token: Seq<char>, expires: Seq<char>) -> Seq<char> {
    "session-id="@ + token + "; Secure; HttpOnly; Expires="@ + expires
}

/// The value of the header that hands the client its session token.
pub fn session_cookie(token: &str, expires: &str) -> (r: String)
    ensures
        r@ == session_cookie_of(token@, expires@),
{
    let mut c = String::from_str("session-id=");
    c.append(token);
    c.append("; Secure; HttpOnly; Expires=");
    c.append(expires);
    c
}

/// The HTTP date (`Sun, 06 Nov 1994 08:49:37 GMT`) of the instant `secs` seconds after the
/// Unix epoch, where that instant can be represented.
pub uninterp spec fn http_date_of(secs: i64) -> Option<Seq<char>>;

/// Relies on `chrono::DateTime::from_timestamp`, which gives nothing outside chrono's range,
/// and on `format` with the HTTP date pattern: the text depends on the instant alone.
#[verifier::external_body]
fn http_date(secs: i64) -> (r: Option<String>)
    ensures
        match r {
            Some(t) => http_date_of(secs) == Some(t@),
            None => http_date_of(secs) is None,
        },
{
    chrono::DateTime::from_timestamp(secs, 0)
        .map(|d| d.format("%a, %d %b %Y %H:%M:%S GMT").to_string())
}

/// Relies on `chrono::Utc::now`: the current time, in whole seconds since the Unix epoch.
#[verifier::external_body]
fn now_seconds() -> (r: i64) {
    chrono::Utc::now().timestamp()
}

/// Relies on `rand::thread_rng` sampled with `rand::distributions::Alphanumeric`, which draws
/// each byte from the ASCII letters and digits.
#[verifier::external_body]
fn random_token(len: usize) -> (r: String)
    ensures
        r@.len() == len,
        forall|i: int| 0 <= i < len ==> is_alphanumeric(#[trigger] r@[i]),
{
    rand::Rng::sample_iter(rand::thread_rng(), rand::distributions::Alphanumeric)
        .take(len)
        .map(char::from)
        .collect()
}

/// A session ready to be stored and handed to the client.
#[derive(Clone, Debug)]
pub struct NewSession {
    /// The opaque token that the client presents.
    pub token: String,
    /// The cache key to store `value` under.
    pub key: String,
    /// The stored form of the session.
    pub value: Vec<u8>,
    /// How long the cache keeps the entry, in seconds.
    pub ttl_seconds: i64,
    /// When the session ends, in seconds since the Unix epoch.
    pub expires_at: i64,
    /// The value of the `Set-Cookie` header.
    pub cookie: String,
}

/// Whether `n` is the session of `user` under `token`, issued at `now`.
pub open spec fn is_grant(n: NewSession, user: User, token: Seq<char>, now: i64) -> bool {
    &&& n.token@ == token
    &&& n.key@ == session_key_of(token)
    &&& n.value@ == session_bytes(Session { user_id: user.id, user_kind: user.kind })
    &&& n.ttl_seconds == SESSION_LIFETIME_SECONDS
    &&& n.expires_at == now + SESSION_LIFETIME_SECONDS
    &&& http_date_of(n.expires_at) is Some
    &&& n.cookie@ == session_cookie_of(token, http_date_of(n.expires_at)->0)
}

/// Whether the instant one lifetime after `now` can be written as an HTTP date.
pub open spec fn can_expire(now: i64) -> bool {
    now + SESSION_LIFETIME_SECONDS <= i64::MAX && http_date_of(
        (now + SESSION_LIFETIME_SECONDS) as i64,
    ) is Some
}

/// Issues the session of `user` under `token` at the instant `now` (in seconds since the Unix
/// epoch): what to store, under which key, for how long, and the header for the client.
pub fn grant_session(user: &User, token: String, now: i64) -> (r: Result<NewSession, Error>)
    ensures
        can_expire(now) ==> r is Ok && is_grant(r->Ok_0, *user, token@, now),
        !can_expire(now) ==> r == Err::<NewSession, Error>(Error::TimeOutOfRange),
{
    if now > i64::MAX - SESSION_LIFETIME_SECONDS {
        return Err(Error::TimeOutOfRange);
    }
    let expires_at = now + SESSION_LIFETIME_SECONDS;
    match http_date(expires_at) {
        None => Err(Error::TimeOutOfRange),
        Some(date) => {
            let session = Session { user_id: user.id, user_kind: user.kind };
            let key = session_key(token.as_str());
            let value = session_to_bytes(&session);
            let cookie = session_cookie(token.as_str(), date.as_str());
            Ok(NewSession { token, key, value, ttl_seconds: SESSION_LIFETIME_SECONDS, expires_at, cookie })
        },
    }
}

/// Issues a session for `user` now, under a fresh random token of `SESSION_LENGTH` letters
/// and digits.
pub fn create_session(user: &User) -> (r: Result<NewSession, Error>)
    ensures
        match r {
            Ok(n) => exists|now: i64| is_grant(n, *user, n.token@, now),
            Err(e) => e == Error::TimeOutOfRange,
        },
        r is Ok ==> r->Ok_0.token@.len() == SESSION_LENGTH,
        r is Ok ==> forall|i: int| 0 <= i < SESSION_LENGTH ==> is_alphanumeric(#[trigger] r->Ok_0.token@[i]),
{
    let token = random_token(SESSION_LENGTH);
    let now = now_seconds();
    let r = grant_session(user, token, now);
    proof {
        if r is Ok {
            assert(is_grant(r->Ok_0, *user, r->Ok_0.token@, now));
        }
    }
    r
}

/// What a request's session is, given what the cache holds under its key: nothing (no token,
/// or the entry expired) means no session.
pub open spec fn resolved(stored: Option<Seq<u8>>) -> Result<Option<Session>, Error> {
    match stored {
        None => Ok(None),
        Some(b) => match parse_session_bytes(b) {
            Some(s) => Ok(Some(s)),
            None => Err(Error::DecodeError),
        },
    }
}

/// The cache key to look up for the token a request presents, if it presents one.
pub fn session_lookup_key(token: Option<&str>) -> (r: Option<String>)
    ensures
        match token {
            Some(t) => r is Some && r->0@ == session_key_of(t@),
            None => r is None,
        },
{
    match token {
        Some(t) => Some(session_key(t)),
        None => None,
    }
}

/// Reads a request's session from what the cache holds under its key.
pub fn extract_session(stored: Option<&[u8]>) -> (r: Result<Option<Session>, Error>)
    ensures
        r == resolved(
            match stored {
                Some(b) => Some(b@),
                None => None,
            },
        ),
{
    match stored {
        None => Ok(None),
        Some(b) => match session_from_bytes(b) {
            Ok(s) => Ok(Some(s)),
            Err(e) => Err(e),
        },
    }
}

/// Whether `session` may see the private fields of what `owner` owns: it must exist, and
/// belong to the owner or to a privileged user.
pub fn authorize(session: Option<&Session>, owner: Id) -> (r: bool)
    ensures
        r == may_access(session, owner),
{
    match session {
        Some(s) => s.user_id == owner || matches!(s.user_kind, UserKind::Super),
        None => false,
    }
}

/// A session just issued resolves to its user and role while the cache keeps it, under the
/// key that its token looks up; once the entry has expired, it resolves to no session, which
/// is no error.
pub proof fn lemma_session_lifecycle(n: NewSession, user: User, token: Seq<char>, now: i64)
    requires
        is_grant(n, user, token, now),
    ensures
        n.key@ == session_key_of(n.token@),
        resolved(Some(n.value@)) == Ok::<Option<Session>, Error>(
            Some(Session { user_id: user.id, user_kind: user.kind }),
        ),
        resolved(None) == Ok::<Option<Session>, Error>(None),
{
    lemma_session_bytes_round_trip(Session { user_id: user.id, user_kind: user.kind });
}

} // verus!
