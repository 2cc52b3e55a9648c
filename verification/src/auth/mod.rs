//! Who is asking: the guard in front of every request for data, which lets
//! only authenticated callers through and tells the handler who they are.

pub mod google_auth;
pub mod pending;
pub mod session;

use vstd::prelude::*;
use vstd::string::*;
use vstd::utf8::encode_utf8;
use crate::auth::session::{valid_at, Session, SessionStore};
use crate::error::AuthrError;
use crate::outside::{
    i64_text, i64_to_string, is_instant, now_nanos, same_text_ignoring_ascii_case,
};
use crate::text::{decimal_i64, same_ignoring_ascii_case};
use crate::types::user::User;

verus! {

/// Whom the guard lets through at the instant `now`: the user of the session
/// that the cookie names, if the request has the cookie and the session is
/// valid. Everybody else is not authorized, and is not told why.
pub open spec fn authorized(
    sessions: Map<Seq<char>, Session>,
    cookie: Option<Seq<char>>,
    now: int,
) -> Result<User, AuthrError> {
    match cookie {
        Some(token) => match valid_at(sessions, token, now) {
            Some(user) => Ok(user),
            None => Err(AuthrError::NotAuthorized),
        },
        None => Err(AuthrError::NotAuthorized),
    }
}

/// A text of a request, if it is there, as a sequence of characters.
pub open spec fn cookie_view(cookie: Option<&str>) -> Option<Seq<char>> {
    match cookie {
        Some(token) => Some(token@),
        None => None,
    }
}

/// What the guard decides at the instant `now`.
pub open spec fn authorize_at_outcome(
    sessions: Option<&SessionStore>,
    cookie: Option<&str>,
    now: i128,
) -> Result<User, AuthrError> {
    match sessions {
        Some(s) => authorized(s@, cookie_view(cookie), now as int),
        None => Err(AuthrError::NotAuthorized),
    }
}

/// The guard at a given instant: the authenticated user, or `NotAuthorized`.
/// `sessions` is `None` where the sessions could not be had, and then nobody
/// is authorized. The handler behind the guard runs only for a user.
pub fn authorize_at(sessions: Option<&SessionStore>, cookie: Option<&str>, now: i128) -> (r:
    Result<User, AuthrError>)
    ensures
        r == authorize_at_outcome(sessions, cookie, now),
{
    match cookie {
        Some(session_id) => match sessions {
            Some(sessions) => match sessions.validate_at(session_id, now) {
                Some(user) => Ok(user),
                None => Err(AuthrError::NotAuthorized),
            },
            None => Err(AuthrError::NotAuthorized),
        },
        None => Err(AuthrError::NotAuthorized),
    }
}

/// The name of the header under which the guard hands the caller's identity to
/// the handler. It is set by the guard alone and never taken from the client.
pub const OWNER_ID_HEADER: &'static str = "Owner-Id";

/// The name of the header of the caller's identity.
pub open spec fn owner_id_header() -> Seq<char> {
    "Owner-Id"@
}

/// Whether a header of the name `name` is a header of the caller's identity.
/// Names of headers are the same whatever the case of their letters.
pub open spec fn names_owner_id(name: Seq<char>) -> bool {
    same_ignoring_ascii_case(name, owner_id_header())
}

/// The value of the `Owner-Id` header for an authenticated user: its id, as a
/// text that `OwnerIdHeader::from_header` reads back as the id.
pub fn owner_id_value(user: &User) -> (r: String)
    ensures
        r@ == i64_text(user.id),
        decimal_i64(r@) == Some(user.id),
{
    i64_to_string(user.id)
}

/// The headers of a request without those of the caller's identity, in their
/// order.
pub open spec fn without_owner_id(headers: Seq<(Seq<char>, Seq<u8>)>) -> Seq<
    (Seq<char>, Seq<u8>),
>
    decreases headers.len(),
{
    if headers.len() == 0 {
        Seq::empty()
    } else if names_owner_id(headers.last().0) {
        without_owner_id(headers.drop_last())
    } else {
        without_owner_id(headers.drop_last()).push(headers.last())
    }
}

/// The headers that the guard hands on for the caller with the id `id`: those
/// of the request but for any `Owner-Id` that the client has sent, and then
/// the one `Owner-Id` of the guard, which holds the id.
pub open spec fn handed_on(headers: Seq<(Seq<char>, Seq<u8>)>, id: i64) -> Seq<
    (Seq<char>, Seq<u8>),
> {
    without_owner_id(headers).push((owner_id_header(), encode_utf8(i64_text(id))))
}

/// No header of the caller's identity is left among `without_owner_id`, and
/// what is left was in the request.
pub proof fn lemma_without_owner_id(headers: Seq<(Seq<char>, Seq<u8>)>)
    ensures
        forall|i: int|
            0 <= i < without_owner_id(headers).len() ==> !names_owner_id(
                (#[trigger] without_owner_id(headers)[i]).0,
            ) && headers.contains(without_owner_id(headers)[i]),
        forall|j: int|
            0 <= j < headers.len() && !names_owner_id((#[trigger] headers[j]).0)
                ==> without_owner_id(headers).contains(headers[j]),
    decreases headers.len(),
{
    if headers.len() > 0 {
        let front = headers.drop_last();
        let kept = without_owner_id(headers);
        lemma_without_owner_id(front);
        assert forall|i: int| 0 <= i < kept.len() implies !names_owner_id((#[trigger] kept[i]).0)
            && headers.contains(kept[i]) by {
            if i < without_owner_id(front).len() {
                assert(kept[i] == without_owner_id(front)[i]);
                let j = choose|j: int| 0 <= j < front.len() && front[j] == kept[i];
                assert(headers[j] == kept[i]);
            } else {
                assert(kept[i] == headers[headers.len() - 1]);
            }
        }
        assert forall|j: int|
            0 <= j < headers.len() && !names_owner_id(
                (#[trigger] headers[j]).0,
            ) implies kept.contains(headers[j]) by {
            if j < front.len() {
                assert(front[j] == headers[j]);
                let i = choose|i: int|
                    0 <= i < without_owner_id(front).len() && without_owner_id(front)[i]
                        == front[j];
                assert(kept[i] == headers[j]);
            } else {
                assert(kept[kept.len() - 1] == headers[j]);
            }
        }
    }
}

/// Exactly one header of the caller's identity reaches the handler: it is the
/// last of the headers handed on and holds the id of the authenticated user,
/// and no header before it is one of the caller's identity. Whatever
/// `Owner-Id` the client has sent is not handed on; every other header of the
/// request is.
pub proof fn lemma_one_owner_id(headers: Seq<(Seq<char>, Seq<u8>)>, id: i64)
    ensures
        handed_on(headers, id).len() >= 1,
        handed_on(headers, id).last() == (owner_id_header(), encode_utf8(i64_text(id))),
        names_owner_id(handed_on(headers, id).last().0),
        forall|i: int|
            0 <= i < handed_on(headers, id).len() - 1 ==> !names_owner_id(
                (#[trigger] handed_on(headers, id)[i]).0,
            ) && headers.contains(handed_on(headers, id)[i]),
        forall|j: int|
            0 <= j < headers.len() && !names_owner_id((#[trigger] headers[j]).0) ==> handed_on(
                headers,
                id,
            ).contains(headers[j]),
{
    lemma_without_owner_id(headers);
    let kept = without_owner_id(headers);
    let out = handed_on(headers, id);
    assert forall|i: int| 0 <= i < out.len() - 1 implies !names_owner_id((#[trigger] out[i]).0)
        && headers.contains(out[i]) by {
        assert(out[i] == kept[i]);
    }
    assert forall|j: int|
        0 <= j < headers.len() && !names_owner_id((#[trigger] headers[j]).0) implies out.contains(
        headers[j],
    ) by {
        let i = choose|i: int| 0 <= i < kept.len() && kept[i] == headers[j];
        assert(out[i] == headers[j]);
    }
}

/// The headers that the guard hands on to the handler for the authenticated
/// user: any `Owner-Id` of the client is taken out, and the one of the guard
/// is put in.
pub fn hand_on(headers: &Vec<(String, Vec<u8>)>, user: &User) -> (r: Vec<(String, Vec<u8>)>)
    ensures
        r.deep_view() == handed_on(headers.deep_view(), user.id),
{
    let mut out: Vec<(String, Vec<u8>)> = Vec::new();
    let mut i: usize = 0;
    while i < headers.len()
        invariant
            i <= headers.len(),
            out.deep_view() == without_owner_id(headers.deep_view().take(i as int)),
        decreases headers.len() - i,
    {
        let ghost before = out.deep_view();
        assert(headers.deep_view().take(i + 1).drop_last() =~= headers.deep_view().take(i as int));
        assert(headers.deep_view().take(i + 1).last() == headers[i as int].deep_view());
        if !same_text_ignoring_ascii_case(headers[i].0.as_str(), OWNER_ID_HEADER) {
            let name = headers[i].0.clone();
            let value = headers[i].1.clone();
            assert(value@ =~= headers[i as int].1@);
            assert(value.deep_view() =~= headers[i as int].1.deep_view());
            out.push((name, value));
            assert(out.deep_view() =~= before.push(headers[i as int].deep_view()));
        }
        i += 1;
    }
    assert(headers.deep_view().take(headers.len() as int) =~= headers.deep_view());
    let ghost kept = out.deep_view();
    let value = owner_id_value(user);
    let bytes = value.as_str().as_bytes_vec();
    assert(bytes.deep_view() =~= encode_utf8(i64_text(user.id)));
    out.push((String::from_str(OWNER_ID_HEADER), bytes));
    assert(out.deep_view() =~= kept.push((owner_id_header(), encode_utf8(i64_text(user.id)))));
    out
}

/// What the guard does with a request, given what it decides about the
/// caller: for an authenticated user, the headers are handed on with the
/// user's identity in them; for everybody else nothing is handed on, and the
/// answer is `NotAuthorized`.
pub open spec fn guarded(
    decision: Result<User, AuthrError>,
    headers: Seq<(Seq<char>, Seq<u8>)>,
    r: Result<Vec<(String, Vec<u8>)>, AuthrError>,
) -> bool {
    match decision {
        Ok(user) => r matches Ok(passed) && passed.deep_view() == handed_on(headers, user.id),
        Err(e) => r matches Err(answer) && answer == e,
    }
}

/// The guard in front of every request for data and of the logout, at a given
/// instant: from the session cookie and the headers of the request to the
/// headers that the handler gets, or to the answer that ends the request
/// before any handler runs.
pub fn request_authorizer_at(
    sessions: Option<&SessionStore>,
    cookie: Option<&str>,
    headers: &Vec<(String, Vec<u8>)>,
    now: i128,
) -> (r: Result<Vec<(String, Vec<u8>)>, AuthrError>)
    ensures
        guarded(authorize_at_outcome(sessions, cookie, now), headers.deep_view(), r),
{
    match authorize_at(sessions, cookie, now) {
        Ok(user) => Ok(hand_on(headers, &user)),
        Err(e) => Err(e),
    }
}

/// The guard at the current time: whatever instant the clock gives, the guard
/// does for it what `request_authorizer_at` does.
pub fn request_authorizer(
    sessions: Option<&SessionStore>,
    cookie: Option<&str>,
    headers: &Vec<(String, Vec<u8>)>,
) -> (r: Result<Vec<(String, Vec<u8>)>, AuthrError>)
    ensures
        exists|now: i128|
            is_instant(now) && guarded(
                #[trigger] authorize_at_outcome(sessions, cookie, now),
                headers.deep_view(),
                r,
            ),
{
    let now = now_nanos();
    let r = request_authorizer_at(sessions, cookie, headers, now);
    assert(guarded(authorize_at_outcome(sessions, cookie, now), headers.deep_view(), r));
    r
}

} // verus!
