//! The responses that the service gives, as plain values.

use vstd::prelude::*;
use vstd::string::*;
use crate::error::AuthrError;

verus! {

/// The status of a redirect that keeps the method: 307.
pub const TEMPORARY_REDIRECT: u16 = 307;

/// The status of a request that cannot be read: 400.
pub const BAD_REQUEST: u16 = 400;

/// An HTTP response: the status, the headers in order, and the body.
#[derive(Debug, PartialEq, Eq)]
pub struct Response {
    pub status: u16,
    pub headers: Vec<(String, String)>,
    pub body: String,
}

/// A response with its texts as sequences of characters.
pub struct ResponseView {
    pub status: u16,
    pub headers: Seq<(Seq<char>, Seq<char>)>,
    pub body: Seq<char>,
}

impl View for Response {
    type V = ResponseView;

    open spec fn view(&self) -> ResponseView {
        ResponseView {
            status: self.status,
            headers: self.headers.deep_view(),
            body: self.body@,
        }
    }
}

/// A response with a status and a body and no header.
pub open spec fn plain_response(status: u16, body: Seq<char>) -> ResponseView {
    ResponseView { status, headers: Seq::empty(), body }
}

/// A temporary redirect to `location` that sets no cookie.
pub open spec fn redirect_to(location: Seq<char>) -> ResponseView {
    ResponseView {
        status: TEMPORARY_REDIRECT,
        headers: seq![("location"@, location)],
        body: Seq::empty(),
    }
}

/// A temporary redirect to `location` that sets the cookie `cookie` first.
pub open spec fn redirect_with_cookie(location: Seq<char>, cookie: Seq<char>) -> ResponseView {
    ResponseView {
        status: TEMPORARY_REDIRECT,
        headers: seq![("set-cookie"@, cookie), ("location"@, location)],
        body: Seq::empty(),
    }
}

impl Response {
    /// A response with a status and a body and no header.
    pub fn plain(status: u16, body: &str) -> (r: Response)
        ensures
            r@ == plain_response(status, body@),
    {
        let r = Response { status, headers: Vec::new(), body: String::from_str(body) };
        assert(r.headers.deep_view() =~= Seq::empty());
        r
    }

    /// A temporary redirect to `location`.
    pub fn redirect(location: &str) -> (r: Response)
        ensures
            r@ == redirect_to(location@),
    {
        let mut headers: Vec<(String, String)> = Vec::new();
        headers.push((String::from_str("location"), String::from_str(location)));
        let r = Response { status: TEMPORARY_REDIRECT, headers, body: String::new() };
        assert(r.headers.deep_view() =~= seq![("location"@, location@)]);
        r
    }

    /// A temporary redirect to `location` that sets a cookie.
    pub fn redirect_setting(location: &str, cookie: String) -> (r: Response)
        ensures
            r@ == redirect_with_cookie(location@, cookie@),
    {
        let mut headers: Vec<(String, String)> = Vec::new();
        let ghost cookie_text = cookie@;
        headers.push((String::from_str("set-cookie"), cookie));
        headers.push((String::from_str("location"), String::from_str(location)));
        let r = Response { status: TEMPORARY_REDIRECT, headers, body: String::new() };
        assert(r.headers.deep_view() =~= seq![
            ("set-cookie"@, cookie_text),
            ("location"@, location@),
        ]);
        r
    }
}

impl AuthrError {
    /// The response that reports the error: its status with its message as
    /// the body, and nothing that tells which check failed.
    pub fn into_response(self) -> (r: Response)
        ensures
            r@ == plain_response(self.spec_status(), self.spec_message()),
    {
        Response::plain(self.status(), self.message())
    }
}

} // verus!
