//! The calls that leave this library, each behind a function whose contract is
//! believed, not proved: it states what the called code is known to do.

use vstd::prelude::*;
use vstd::utf8::encode_utf8;
use crate::text::{decimal_i64, same_ignoring_ascii_case};

verus! {

/// The text that the standard library's `Display` writes for the integer `v`.
pub uninterp spec fn i64_text(v: i64) -> Seq<char>;

/// Calls `i64::to_string` of the standard library. Its result depends on the
/// integer alone; the contract gives it the name `i64_text` and claims one
/// thing of it: the text is decimal notation of the integer, so that reading
/// it gives the integer back.
#[verifier::external_body]
pub(crate) fn i64_to_string(v: i64) -> (r: String)
    ensures
        r@ == i64_text(v),
        decimal_i64(r@) == Some(v),
{
    v.to_string()
}

/// Calls `str::parse::<i64>` of the standard library, which reads decimal
/// notation as `decimal_i64` describes it: an optional sign followed by digits
/// only; an empty text, any other character and a number out of range are
/// errors, which come back as `None`.
#[verifier::external_body]
pub(crate) fn parse_i64(s: &str) -> (r: Option<i64>)
    ensures
        r == decimal_i64(s@),
{
    s.parse::<i64>().ok()
}

/// The instants that the clock can give: a number of seconds since the Unix
/// epoch that fits 64 bits, and less than a second of nanoseconds on top.
pub open spec fn is_instant(now: i128) -> bool {
    -9_223_372_036_854_775_808_000_000_000 <= now <= 9_223_372_036_854_775_807_999_999_999
}

/// Calls `time::OffsetDateTime::now_utc` and takes the instant as the
/// nanoseconds since the Unix epoch (`unix_timestamp_nanos`), which are the
/// seconds (`unix_timestamp`, an `i64`) times 10^9 plus the nanoseconds of the
/// second (below 10^9). Nothing else is claimed of the clock.
#[verifier::external_body]
pub(crate) fn now_nanos() -> (r: i128)
    ensures
        is_instant(r),
{
    time::OffsetDateTime::now_utc().unix_timestamp_nanos()
}

/// Calls `str::eq_ignore_ascii_case` of the standard library, which tells
/// whether two texts are the same once the ASCII letters `A` to `Z` are
/// taken for `a` to `z`; every other character must be the same.
#[verifier::external_body]
pub(crate) fn same_text_ignoring_ascii_case(a: &str, b: &str) -> (r: bool)
    ensures
        r == same_ignoring_ascii_case(a@, b@),
{
    a.eq_ignore_ascii_case(b)
}

/// The number of bytes that a text takes in UTF-8, as `str::len` gives it.
pub open spec fn byte_len(s: Seq<char>) -> usize {
    encode_utf8(s).len() as usize
}

/// Calls `oauth2::PkceCodeChallenge::new_random_sha256` and keeps the code
/// verifier of the pair. The verifier is random; the one claim is its size,
/// 43 to 128 bytes, which the call itself asserts of every verifier before it
/// returns.
#[verifier::external_body]
pub(crate) fn new_code_verifier() -> (r: String)
    ensures
        43 <= byte_len(r@) <= 128,
{
    oauth2::PkceCodeChallenge::new_random_sha256().1.into_secret()
}

/// Calls `oauth2::CsrfToken::new_random`. Nothing is claimed of the token.
#[verifier::external_body]
pub(crate) fn new_csrf_token() -> String {
    oauth2::CsrfToken::new_random().into_secret()
}

/// The authorization URL that the `oauth2` crate builds for a client with the
/// id `client_id`, the authorization endpoint `auth_uri` and the redirect
/// address `redirect_uri`, asking for `scopes`, with `csrf` as the state and
/// the SHA-256 challenge of `verifier`; `None` where one of the two addresses
/// is no URL.
pub uninterp spec fn authorize_url_text(
    client_id: Seq<char>,
    auth_uri: Seq<char>,
    redirect_uri: Seq<char>,
    scopes: Seq<Seq<char>>,
    csrf: Seq<char>,
    verifier: Seq<char>,
) -> Option<Seq<char>>;

/// Builds the authorization URL with the `oauth2` crate: a `BasicClient` with
/// the three addresses, its `authorize_url` with the given state,
/// `add_scopes`, `set_pkce_challenge` with the challenge that
/// `PkceCodeChallenge::from_code_verifier_sha256` computes, and `url`. The
/// result depends on the arguments alone and is named `authorize_url_text`.
/// `from_code_verifier_sha256` panics on a verifier of fewer than 43 or more
/// than 128 bytes.
#[verifier::external_body]
pub(crate) fn authorization_url(
    client_id: &str,
    auth_uri: &str,
    redirect_uri: &str,
    scopes: &Vec<String>,
    csrf: &str,
    verifier: &str,
) -> (r: Option<String>)
    requires
        43 <= byte_len(verifier@) <= 128,
    ensures
        match r {
            Some(url) => authorize_url_text(
                client_id@,
                auth_uri@,
                redirect_uri@,
                scopes.deep_view(),
                csrf@,
                verifier@,
            ) == Some(url@),
            None => authorize_url_text(
                client_id@,
                auth_uri@,
                redirect_uri@,
                scopes.deep_view(),
                csrf@,
                verifier@,
            ) is None,
        },
{
    let client = oauth2::basic::BasicClient::new(oauth2::ClientId::new(client_id.to_string()))
        .set_auth_uri(oauth2::AuthUrl::new(auth_uri.to_string()).ok()?)
        .set_redirect_uri(oauth2::RedirectUrl::new(redirect_uri.to_string()).ok()?);
    let code_verifier = oauth2::PkceCodeVerifier::new(verifier.to_string());
    let request = client
        .authorize_url(|| oauth2::CsrfToken::new(csrf.to_string()))
        .add_scopes(scopes.iter().map(|s| oauth2::Scope::new(s.clone())))
        .set_pkce_challenge(oauth2::PkceCodeChallenge::from_code_verifier_sha256(&code_verifier));
    Some(request.url().0.to_string())
}

/// The value of a `Set-Cookie` header: the name and the value, then the
/// attributes `HttpOnly` (if asked for), `Path` and `Max-Age`, in this order.
/// Nothing is encoded or escaped.
pub open spec fn cookie_text(
    name: Seq<char>,
    value: Seq<char>,
    path: Seq<char>,
    max_age: i64,
    http_only: bool,
) -> Seq<char> {
    name + "="@ + value + (if http_only {
        "; HttpOnly"@
    } else {
        Seq::<char>::empty()
    }) + "; Path="@ + path + "; Max-Age="@ + i64_text(max_age)
}

/// Builds a cookie with `Cookie::build` of the `cookie` crate (as `axum_extra`
/// hands it on), sets `path`, `max_age` (in whole seconds) and `http_only`, and
/// writes it with the cookie's `Display`, which prints `name=value` and then
/// each attribute that is set, as `cookie_text` says; the seconds are written
/// with the `Display` of `i64`.
#[verifier::external_body]
pub(crate) fn set_cookie(name: &str, value: &str, path: &str, max_age: i64, http_only: bool) -> (r:
    String)
    ensures
        r@ == cookie_text(name@, value@, path@, max_age, http_only),
{
    axum_extra::extract::cookie::Cookie::build((name, value))
        .path(path)
        .max_age(time::Duration::seconds(max_age))
        .http_only(http_only)
        .build()
        .to_string()
}

} // verus!
