//! The session manager: who is logged in, and until when.

use vstd::prelude::*;
use vstd::string::*;
use vstd::hash_map::StringHashMap;
use crate::error::AuthrError;
use crate::outside::{cookie_text, is_instant, new_code_verifier, now_nanos, set_cookie};
use crate::types::user::User;

verus! {

/// How long a session is valid: ten minutes, in nanoseconds.
pub const SESSION_WINDOW_NANOS: i128 = 600_000_000_000;

/// The `Max-Age` of the session cookie, in seconds: the same ten minutes.
pub const SESSION_MAX_AGE: i64 = 600;

/// The `Max-Age` of the cookie that a logout sets, in seconds: a minute ago.
pub const EXPIRED_MAX_AGE: i64 = -60;

/// A session: the user as of the login, and the instant at which the session
/// expires, in nanoseconds since the Unix epoch.
pub struct Session {
    pub user: User,
    pub expires: i128,
}

/// The sessions, each under its token. A session is never changed. An expired
/// one stays until a logout removes it; it just no longer validates.
pub struct SessionStore {
    entries: StringHashMap<Session>,
}

impl View for SessionStore {
    type V = Map<Seq<char>, Session>;

    closed spec fn view(&self) -> Map<Seq<char>, Session> {
        self.entries@
    }
}

/// The instant at which a session issued at `issued_at` expires.
pub open spec fn expiry(issued_at: int) -> int {
    issued_at + SESSION_WINDOW_NANOS
}

/// The sessions after one for `user` is issued under `token` at `issued_at`.
pub open spec fn issued(
    sessions: Map<Seq<char>, Session>,
    token: Seq<char>,
    user: User,
    issued_at: i128,
) -> Map<Seq<char>, Session> {
    sessions.insert(token, Session { user, expires: expiry(issued_at as int) as i128 })
}

/// The user of the session under `token`, if there is one and it has not
/// expired at `now`: a session is valid strictly before its expiry, and
/// expired at the instant of its expiry and after.
pub open spec fn valid_at(sessions: Map<Seq<char>, Session>, token: Seq<char>, now: int) -> Option<
    User,
> {
    if sessions.contains_key(token) && now < sessions[token].expires {
        Some(sessions[token].user)
    } else {
        None
    }
}

/// The sessions after the one under `token` is revoked.
pub open spec fn revoked(sessions: Map<Seq<char>, Session>, token: Seq<char>) -> Map<
    Seq<char>,
    Session,
> {
    sessions.remove(token)
}

/// Validity depends on the instant of issuance and the instant of the check
/// alone: a session issued at `t0` validates at every instant before
/// `t0` plus ten minutes and at no instant from then on. Looking a session up
/// does not change it, so there is no sliding window.
pub proof fn lemma_session_window(
    sessions: Map<Seq<char>, Session>,
    token: Seq<char>,
    user: User,
    t0: i128,
    now: int,
)
    requires
        expiry(t0 as int) <= i128::MAX,
    ensures
        now < t0 + SESSION_WINDOW_NANOS ==> valid_at(issued(sessions, token, user, t0), token, now)
            == Some(user),
        now >= t0 + SESSION_WINDOW_NANOS ==> valid_at(
            issued(sessions, token, user, t0),
            token,
            now,
        ) is None,
{
}

/// A revoked session validates at no instant, and a token that was never
/// issued validates at none either.
pub proof fn lemma_revoked_is_invalid(sessions: Map<Seq<char>, Session>, token: Seq<char>, now: int)
    ensures
        valid_at(revoked(sessions, token), token, now) is None,
        !sessions.contains_key(token) ==> valid_at(sessions, token, now) is None,
{
}

/// Issuing or revoking a session leaves the validity of every other token as
/// it was.
pub proof fn lemma_other_sessions_unchanged(
    sessions: Map<Seq<char>, Session>,
    token: Seq<char>,
    user: User,
    t0: i128,
    other: Seq<char>,
    now: int,
)
    requires
        other != token,
    ensures
        valid_at(issued(sessions, token, user, t0), other, now) == valid_at(sessions, other, now),
        valid_at(revoked(sessions, token), other, now) == valid_at(sessions, other, now),
{
}

/// What issuing a session for `user` under `token` at the instant `now` does:
/// the session is there afterwards, valid for ten minutes, and the token is
/// returned; or, where the expiry is past the last instant that can be
/// written, nothing is changed and the login is not authorized.
pub open spec fn issue_outcome(
    before: Map<Seq<char>, Session>,
    token: Seq<char>,
    user: User,
    now: i128,
    r: Result<String, AuthrError>,
    after: Map<Seq<char>, Session>,
) -> bool {
    match r {
        Ok(returned) => returned@ == token && expiry(now as int) <= i128::MAX && after == issued(
            before,
            token,
            user,
            now,
        ),
        Err(e) => e == AuthrError::NotAuthorized && expiry(now as int) > i128::MAX && after
            == before,
    }
}

impl SessionStore {
    /// Nobody is logged in.
    pub fn new() -> (r: Self)
        ensures
            r@ == Map::<Seq<char>, Session>::empty(),
    {
        SessionStore { entries: StringHashMap::new() }
    }

    /// Issues a session for `user` under `token` at the instant `now`, valid
    /// for ten minutes; a session that was under the token before is
    /// replaced. Fails, and changes nothing, only where the expiry is past the
    /// last instant that can be written.
    pub fn issue_at(&mut self, token: String, user: User, now: i128) -> (r: Result<(), AuthrError>)
        ensures
            match r {
                Ok(_) => expiry(now as int) <= i128::MAX && final(self)@ == issued(
                    old(self)@,
                    token@,
                    user,
                    now,
                ),
                Err(e) => e == AuthrError::NotAuthorized && expiry(now as int) > i128::MAX
                    && final(self)@ == old(self)@,
            },
    {
        match now.checked_add(SESSION_WINDOW_NANOS) {
            Some(expires) => {
                self.entries.insert(token, Session { user, expires });
                Ok(())
            },
            None => Err(AuthrError::NotAuthorized),
        }
    }

    /// Issues a session for `user` under a new random token and at the
    /// current time, and returns the token. It always succeeds: no instant
    /// that the clock gives is so late that the expiry cannot be written.
    /// Whatever the token and the instant are, the session is issued with
    /// them as `issue_at` issues it.
    pub fn issue(&mut self, user: User) -> (r: Result<String, AuthrError>)
        ensures
            r is Ok,
            exists|token: Seq<char>, now: i128|
                is_instant(now) && expiry(now as int) <= i128::MAX && #[trigger] issue_outcome(
                    old(self)@,
                    token,
                    user,
                    now,
                    r,
                    final(self)@,
                ),
    {
        let token = new_code_verifier();
        let now = now_nanos();
        let ghost t = token@;
        let r = match self.issue_at(token.clone(), user, now) {
            Ok(_) => Ok(token),
            Err(e) => Err(e),
        };
        assert(issue_outcome(old(self)@, t, user, now, r, self@));
        r
    }

    /// The user of the session under `token`, if it is valid at the instant
    /// `now`. The session is not changed.
    pub fn validate_at(&self, token: &str, now: i128) -> (r: Option<User>)
        ensures
            r == valid_at(self@, token@, now as int),
    {
        match self.entries.get(token) {
            Some(session) => {
                if session.expires > now {
                    Some(session.user.clone())
                } else {
                    None
                }
            },
            None => None,
        }
    }

    /// The user of the session under `token`, if it is valid at the current
    /// time: whatever instant the clock gives, the answer is that of
    /// `validate_at` for it.
    pub fn validate(&self, token: &str) -> (r: Option<User>)
        ensures
            exists|now: i128| is_instant(now) && r == #[trigger] valid_at(self@, token@, now as int),
    {
        let now = now_nanos();
        let r = self.validate_at(token, now);
        assert(r == valid_at(self@, token@, now as int));
        r
    }

    /// Removes the session under `token` and returns its user, if there was
    /// one, expired or not.
    pub fn revoke(&mut self, token: &str) -> (r: Option<User>)
        ensures
            final(self)@ == revoked(old(self)@, token@),
            r == (if old(self)@.contains_key(token@) {
                Some(old(self)@[token@].user)
            } else {
                None
            }),
    {
        let user = match self.entries.get(token) {
            Some(session) => Some(session.user.clone()),
            None => None,
        };
        self.entries.remove(token);
        user
    }
}

/// The name of the session cookie.
pub open spec fn cookie_name() -> Seq<char> {
    "session_id"@
}

/// The path that the session cookie is scoped to: the whole site.
pub open spec fn cookie_path() -> Seq<char> {
    "/"@
}

/// The `Set-Cookie` value that hands the session token to the browser:
/// `session_id`, HTTP-only, for every path, for ten minutes.
pub fn session_cookie(token: &str) -> (r: String)
    ensures
        r@ == cookie_text(cookie_name(), token@, cookie_path(), SESSION_MAX_AGE, true),
{
    set_cookie("session_id", token, "/", SESSION_MAX_AGE, true)
}

/// The `Set-Cookie` value that makes the browser drop the session cookie: the
/// same cookie with a negative `Max-Age`.
pub fn expired_cookie(token: &str) -> (r: String)
    ensures
        r@ == cookie_text(cookie_name(), token@, cookie_path(), EXPIRED_MAX_AGE, true),
{
    set_cookie("session_id", token, "/", EXPIRED_MAX_AGE, true)
}

} // verus!
