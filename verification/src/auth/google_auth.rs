//! Login with Google: the authorization-code flow with PKCE, as the steps
//! that decide what happens next. The exchange with the provider and the
//! store's engine run between the steps, outside this library.

use vstd::prelude::*;
use vstd::string::*;
use vstd::std_specs::convert::FromSpecImpl;
use crate::auth::pending::{redeemed, PendingAuthorizations};
use crate::auth::session::{
    cookie_name, cookie_path, expiry, issued, session_cookie, Session, SessionStore,
    SESSION_MAX_AGE,
};
use crate::criteria::{Predicate, Query};
use crate::error::AuthrError;
use crate::http::{plain_response, redirect_to, redirect_with_cookie, Response, ResponseView};
use crate::outside::{
    authorization_url, authorize_url_text, byte_len, cookie_text, is_instant, new_code_verifier,
    new_csrf_token, now_nanos,
};
use crate::record::{DataObject, RequestObject};
use crate::store::{
    bound_values, create, created, creates, get_queries, listed, readable, selects, Statement,
};
use crate::types::user::{RequestUser, User, UserByGuid, UserQuery};
use crate::types::QueryTypes;
use crate::value::{Value, ValueView};

verus! {

/// The registration of this service at Google: its client id and secret, and
/// the three addresses of the flow.
#[derive(Debug)]
pub struct GoogleAuthClient {
    pub client_id: String,
    pub client_secret: String,
    pub auth_uri: String,
    pub token_uri: String,
    pub redirect_uri: String,
}

impl GoogleAuthClient {
    /// The client with the given id and secret, Google's two endpoints, and
    /// this service's callback address.
    pub fn new(client_id: String, client_secret: String) -> (r: Self)
        ensures
            r.client_id == client_id,
            r.client_secret == client_secret,
            r.auth_uri@ == "https://accounts.google.com/o/oauth2/v2/auth"@,
            r.token_uri@ == "https://oauth2.googleapis.com/token"@,
            r.redirect_uri@ == "http://localhost:8080/auth/google/callback"@,
    {
        GoogleAuthClient {
            client_id,
            client_secret,
            auth_uri: String::from_str("https://accounts.google.com/o/oauth2/v2/auth"),
            token_uri: String::from_str("https://oauth2.googleapis.com/token"),
            redirect_uri: String::from_str("http://localhost:8080/auth/google/callback"),
        }
    }
}

/// The profile that Google gives for an access token.
#[derive(Debug)]
pub struct GoogleUserInfo {
    pub id: String,
    pub email: String,
    pub verified_email: bool,
    pub name: String,
    pub given_name: String,
    pub family_name: String,
    pub picture: String,
}

/// The guid of the Google user with the id `id`.
pub open spec fn google_guid(id: Seq<char>) -> Seq<char> {
    "google/"@ + id
}

impl From<GoogleUserInfo> for RequestUser {
    /// The request that creates the user of a profile: no id, the guid
    /// `google/<id>`, and the profile's email, name and picture.
    fn from(value: GoogleUserInfo) -> (r: Self)
        ensures
            r.id is None,
            r.guid matches Some(guid) && guid@ == google_guid(value.id@),
            r.email == Some(value.email),
            r.name == Some(value.name),
            r.picture == Some(value.picture),
    {
        let mut guid = String::from_str("google/");
        guid.append(value.id.as_str());
        RequestUser {
            id: None,
            guid: Some(guid),
            email: Some(value.email),
            name: Some(value.name),
            picture: Some(value.picture),
        }
    }
}

impl FromSpecImpl<GoogleUserInfo> for RequestUser {
    /// The guid is a new text, which equality of values does not express: the
    /// conversion is specified by the contract of `from`, not by a value.
    open spec fn obeys_from_spec() -> bool {
        false
    }

    open spec fn from_spec(value: GoogleUserInfo) -> Self {
        arbitrary()
    }
}

/// The scopes that a login asks for.
pub open spec fn login_scopes() -> Seq<Seq<char>> {
    seq!["email"@, "profile"@]
}

/// The scopes that a login asks for: the email address and the profile.
pub fn scopes() -> (r: Vec<String>)
    ensures
        r.deep_view() == login_scopes(),
{
    let mut scopes: Vec<String> = Vec::new();
    scopes.push(String::from_str("email"));
    scopes.push(String::from_str("profile"));
    assert(scopes.deep_view() =~= login_scopes());
    scopes
}

/// The address at the provider to which a login with the CSRF token `csrf`
/// and the code verifier `verifier` sends the browser: the authorization URL
/// for the client, the login scopes, the token as the protocol's `state`, and
/// the challenge of the verifier. There is none where the verifier has not 43
/// to 128 bytes, or where an address of the client is no URL.
pub open spec fn login_url(client: GoogleAuthClient, csrf: Seq<char>, verifier: Seq<char>) -> Option<
    Seq<char>,
> {
    if 43 <= byte_len(verifier) <= 128 {
        authorize_url_text(
            client.client_id@,
            client.auth_uri@,
            client.redirect_uri@,
            login_scopes(),
            csrf,
            verifier,
        )
    } else {
        None
    }
}

/// What a login with the CSRF token `csrf` and the code verifier `verifier`
/// does: with an address to redirect to, it stores the verifier under the
/// token and redirects there; without one, it stores nothing and sends the
/// browser home.
pub open spec fn login_outcome(
    client: GoogleAuthClient,
    before: Map<Seq<char>, Seq<char>>,
    csrf: Seq<char>,
    verifier: Seq<char>,
    response: ResponseView,
    after: Map<Seq<char>, Seq<char>>,
) -> bool {
    match login_url(client, csrf, verifier) {
        Some(url) => response == redirect_to(url) && after == before.insert(csrf, verifier),
        None => response == redirect_to("/"@) && after == before,
    }
}

/// Begins a login with a given CSRF token and code verifier. `pending` is
/// `None` where the pending authorizations could not be had: the browser is
/// sent home.
pub fn login_with(
    pending: Option<&mut PendingAuthorizations>,
    client: &GoogleAuthClient,
    csrf_token: String,
    pkce_verifier: String,
) -> (r: Response)
    ensures
        match pending {
            Some(p) => login_outcome(*client, p@, csrf_token@, pkce_verifier@, r@, final(p)@),
            None => r@ == redirect_to("/"@),
        },
{
    let pending = match pending {
        Some(pending) => pending,
        None => {
            return Response::redirect("/");
        },
    };
    let size = pkce_verifier.as_str().len();
    if size < 43 || size > 128 {
        return Response::redirect("/");
    }
    let url = authorization_url(
        client.client_id.as_str(),
        client.auth_uri.as_str(),
        client.redirect_uri.as_str(),
        &scopes(),
        csrf_token.as_str(),
        pkce_verifier.as_str(),
    );
    match url {
        Some(url) => {
            pending.insert(csrf_token, pkce_verifier);
            Response::redirect(url.as_str())
        },
        None => Response::redirect("/"),
    }
}

/// Handles `GET /auth/google/login`: makes a random CSRF token and a random
/// code verifier of 43 to 128 bytes, and begins the login with them. Whatever
/// the two random values are, the login does with them what `login_outcome`
/// says.
pub fn login(pending: Option<&mut PendingAuthorizations>, client: &GoogleAuthClient) -> (r:
    Response)
    ensures
        match pending {
            Some(p) => exists|csrf: Seq<char>, verifier: Seq<char>|
                43 <= byte_len(verifier) <= 128 && #[trigger] login_outcome(
                    *client,
                    p@,
                    csrf,
                    verifier,
                    r@,
                    final(p)@,
                ),
            None => r@ == redirect_to("/"@),
        },
{
    let csrf_token = new_csrf_token();
    let pkce_verifier = new_code_verifier();
    match pending {
        Some(pending) => {
            let ghost before = pending@;
            let ghost csrf = csrf_token@;
            let ghost verifier = pkce_verifier@;
            let r = login_with(Some(pending), client, csrf_token, pkce_verifier);
            assert(login_outcome(*client, before, csrf, verifier, r@, pending@));
            r
        },
        None => Response::redirect("/"),
    }
}

/// What the callback hands to the provider: the authorization code, and the
/// code verifier of the login that the code answers.
#[derive(Debug)]
pub struct Exchange {
    pub code: String,
    pub pkce_verifier: String,
}

/// Redeems the state of a callback: with both a `state` and a `code`, a state
/// that is pending gives the exchange to make and is pending no more; any
/// other state is not authorized. Without a state or without a code the
/// request is not authorized and nothing is redeemed.
pub fn begin_exchange(pending: &mut PendingAuthorizations, state: Option<&str>, code: Option<&str>) -> (r:
    Result<Exchange, AuthrError>)
    ensures
        match (state, code) {
            (Some(token), Some(code)) => {
                &&& final(pending)@ == redeemed(old(pending)@, token@).0
                &&& match r {
                    Ok(exchange) => redeemed(old(pending)@, token@).1 == Some(
                        exchange.pkce_verifier@,
                    ) && exchange.code@ == code@,
                    Err(e) => e == AuthrError::NotAuthorized && redeemed(
                        old(pending)@,
                        token@,
                    ).1 is None,
                }
            },
            _ => final(pending)@ == old(pending)@ && (r matches Err(e) && e
                == AuthrError::NotAuthorized),
        },
{
    let token = match state {
        Some(token) => token,
        None => {
            return Err(AuthrError::NotAuthorized);
        },
    };
    let code = match code {
        Some(code) => String::from_str(code),
        None => {
            return Err(AuthrError::NotAuthorized);
        },
    };
    match pending.redeem(token) {
        Some(pkce_verifier) => Ok(Exchange { code, pkce_verifier }),
        None => Err(AuthrError::NotAuthorized),
    }
}

/// The address at which Google gives the profile of an access token.
pub open spec fn profile_url() -> Seq<char> {
    "https://www.googleapis.com/oauth2/v2/userinfo"@
}

/// The request for the profile: the address, and the access token to send as
/// the query parameter `access_token`.
#[derive(Debug)]
pub struct ProfileRequest {
    pub url: String,
    pub access_token: String,
}

/// The second step of the exchange: with the access token that the provider
/// gave for the code, the request for the profile; without one, the exchange
/// has failed.
pub fn profile_request(access_token: Option<String>) -> (r: Result<ProfileRequest, AuthrError>)
    ensures
        match access_token {
            Some(token) => r matches Ok(request) && request.url@ == profile_url()
                && request.access_token == token,
            None => r matches Err(e) && e == AuthrError::NotAuthorized,
        },
{
    match access_token {
        Some(access_token) => Ok(
            ProfileRequest {
                url: String::from_str("https://www.googleapis.com/oauth2/v2/userinfo"),
                access_token,
            },
        ),
        None => Err(AuthrError::NotAuthorized),
    }
}

/// The end of the exchange: the profile, if the provider gave one that could
/// be read. Every failure on the way, of the transport, of the provider or of
/// the decoding, is the one failure of the exchange: there is no partial
/// success.
pub fn get_google_user_info(profile: Option<GoogleUserInfo>) -> (r: Result<
    GoogleUserInfo,
    AuthrError,
>)
    ensures
        match profile {
            Some(info) => r matches Ok(got) && got == info,
            None => r matches Err(e) && e == AuthrError::NotAuthorized,
        },
{
    match profile {
        Some(info) => Ok(info),
        None => Err(AuthrError::NotAuthorized),
    }
}

/// The predicate that selects the users with the guid `guid`.
pub open spec fn by_guid(guid: Seq<char>) -> Predicate {
    Predicate::Equals { field: "guid"@, value: ValueView::Text(guid) }
}

/// The user of a profile as a request to create it, and the statement that
/// looks the user up.
#[derive(Debug)]
pub struct Lookup {
    pub user: RequestUser,
    pub statement: Statement,
}

/// The step after the exchange: the statement that selects the users with the
/// guid of the profile.
pub fn user_lookup(user_info: GoogleUserInfo) -> (r: Lookup)
    ensures
        r.user.id is None,
        r.user.guid matches Some(guid) && guid@ == google_guid(user_info.id@),
        r.user.email == Some(user_info.email),
        r.user.name == Some(user_info.name),
        r.user.picture == Some(user_info.picture),
        selects::<User>(seq![by_guid(google_guid(user_info.id@))], r.statement),
        r.statement.params.deep_view() == seq![ValueView::Text(google_guid(user_info.id@))],
        r.statement.balanced(),
{
    let user = RequestUser::from(user_info);
    let guid = match &user.guid {
        Some(guid) => guid.clone(),
        None => String::new(),
    };
    let mut queries: Vec<QueryTypes> = Vec::new();
    queries.push(QueryTypes::UserQuery(UserQuery::ByGuid(UserByGuid::new(guid))));
    let statement = get_queries::<User, QueryTypes>(&queries);
    proof {
        let predicates = crate::store::predicates_of(queries@);
        assert(predicates =~= seq![by_guid(google_guid(user_info.id@))]);
        assert(predicates.drop_last() =~= Seq::<Predicate>::empty());
        assert(bound_values(predicates) =~= seq![ValueView::Text(google_guid(user_info.id@))]) by {
            assert(bound_values(predicates.drop_last()) =~= Seq::<ValueView>::empty());
        }
        reveal_strlit("guid");
        assert(predicates[0].plain());
    }
    Lookup { user, statement }
}

/// What the lookup of a user leads to.
#[derive(Debug)]
pub enum Retrieval {
    /// The user exists: this is it.
    Found(User),
    /// No user has the guid: the statement creates one.
    Create(Statement),
    /// More than one user has the guid: the login fails.
    Ambiguous,
}

/// The step after the lookup: one user with the guid is the user; none leads
/// to a create of the user, and so does a lookup that failed; more than one
/// is a failure.
pub fn retrieve_or_create_user(user: &RequestUser, retrieved: &Option<Vec<Vec<Value>>>) -> (r:
    Retrieval)
    ensures
        match r {
            Retrieval::Found(found) => readable::<User>(*retrieved) && retrieved->0.len() == 1
                && found.row() == retrieved->0[0].deep_view(),
            Retrieval::Create(statement) => {
                &&& readable::<User>(*retrieved) ==> retrieved->0.len() == 0
                &&& creates::<RequestUser, User>(*user, statement)
            },
            Retrieval::Ambiguous => readable::<User>(*retrieved) && retrieved->0.len() > 1,
        },
{
    let mut users: Vec<User> = listed(retrieved);
    if users.len() == 1 {
        match users.pop() {
            Some(found) => Retrieval::Found(found),
            None => Retrieval::Ambiguous,
        }
    } else if users.len() == 0 {
        Retrieval::Create(create::<RequestUser, User>(user))
    } else {
        Retrieval::Ambiguous
    }
}

/// The step after the create: the created user, or a failure where the engine
/// returned no row or the operation failed.
pub fn user_created(rows: &Option<Vec<Vec<Value>>>) -> (r: Result<User, AuthrError>)
    ensures
        r is Ok <==> readable::<User>(*rows) && rows->0.len() >= 1,
        r matches Ok(user) ==> user.row() == rows->0[0].deep_view(),
        r matches Err(e) ==> e == AuthrError::NotAuthorized,
{
    match created::<User>(rows) {
        Ok(user) => Ok(user),
        Err(_) => Err(AuthrError::NotAuthorized),
    }
}

/// What the last step of the callback does with the token `token` at the
/// instant `now`: it issues a session for the user and sends the browser home
/// with the session cookie; where the session cannot be issued, the login is
/// not authorized and no session is left behind.
pub open spec fn establish_outcome(
    before: Map<Seq<char>, Session>,
    user: User,
    token: Seq<char>,
    now: i128,
    r: Result<Response, AuthrError>,
    after: Map<Seq<char>, Session>,
) -> bool {
    match r {
        Ok(response) => {
            &&& after == issued(before, token, user, now)
            &&& expiry(now as int) <= i128::MAX
            &&& response@ == redirect_with_cookie(
                "/"@,
                cookie_text(cookie_name(), token, cookie_path(), SESSION_MAX_AGE, true),
            )
        },
        Err(e) => e == AuthrError::NotAuthorized && after == before && expiry(now as int)
            > i128::MAX,
    }
}

/// The last step of the callback, with a given token and at a given instant.
pub fn establish_at(sessions: &mut SessionStore, user: User, token: String, now: i128) -> (r:
    Result<Response, AuthrError>)
    ensures
        establish_outcome(old(sessions)@, user, token@, now, r, final(sessions)@),
{
    let cookie = session_cookie(token.as_str());
    match sessions.issue_at(token, user, now) {
        Ok(_) => Ok(Response::redirect_setting("/", cookie)),
        Err(e) => Err(e),
    }
}

/// The last step of the callback: issues a session for the user under a new
/// random token at the current time. It always succeeds: no instant that the
/// clock gives is so late that the expiry cannot be written. Whatever the
/// token and the instant are, the step does with them what
/// `establish_outcome` says.
pub fn establish(sessions: &mut SessionStore, user: User) -> (r: Result<Response, AuthrError>)
    ensures
        r is Ok,
        exists|token: Seq<char>, now: i128|
            is_instant(now) && expiry(now as int) <= i128::MAX && #[trigger] establish_outcome(
                old(sessions)@,
                user,
                token,
                now,
                r,
                final(sessions)@,
            ),
{
    let token = new_code_verifier();
    let now = now_nanos();
    let ghost t = token@;
    let r = establish_at(sessions, user, token, now);
    assert(establish_outcome(old(sessions)@, user, t, now, r, sessions@));
    r
}

/// Where a callback stands between two steps.
#[derive(Debug)]
pub enum CallbackState {
    /// The exchange with the provider is under way.
    Exchanging,
    /// The lookup of the user is under way. `user` is the request that
    /// creates the user, should the lookup find none.
    Retrieving { user: RequestUser },
    /// The create of the user is under way.
    Creating,
}

/// What has happened outside since the last step.
#[derive(Debug)]
pub enum CallbackEvent {
    /// The exchange has ended: with the profile, or without one where
    /// anything failed.
    Exchanged(Option<GoogleUserInfo>),
    /// The engine has run the statement: its rows, or nothing where it was
    /// not available.
    Rows(Option<Vec<Vec<Value>>>),
}

/// What a step asks to be done outside.
#[derive(Debug)]
pub enum CallbackAction {
    /// Trade the code for the profile at the provider, and come back with
    /// `Exchanged`.
    Exchange(Exchange),
    /// Run the statement, and come back with `Rows`.
    Run(Statement),
    /// Answer the request: the callback has ended.
    Respond(Response),
}

/// A step of the callback: what to do outside, and where the callback stands
/// then; it has ended where it stands nowhere.
#[derive(Debug)]
pub struct CallbackStep {
    pub next: Option<CallbackState>,
    pub action: CallbackAction,
}

/// The step ends the callback with the answer that the request is not
/// authorized.
pub open spec fn rejected(step: CallbackStep) -> bool {
    step.next is None && (step.action matches CallbackAction::Respond(response) && response@
        == plain_response(
        AuthrError::NotAuthorized.spec_status(),
        AuthrError::NotAuthorized.spec_message(),
    ))
}

/// The step ends the callback by issuing a session, under `token` at `now`,
/// for the user that `row` holds, and by sending the browser home with the
/// session cookie; or, where the session cannot be issued or the sessions are
/// not available, by rejecting the request and leaving the sessions as they
/// were.
pub open spec fn session_established(
    available: bool,
    before: Map<Seq<char>, Session>,
    row: Seq<ValueView>,
    token: Seq<char>,
    now: i128,
    step: CallbackStep,
    after: Map<Seq<char>, Session>,
) -> bool {
    if available && expiry(now as int) <= i128::MAX {
        &&& step.next is None
        &&& after.contains_key(token)
        &&& after[token].user.row() == row
        &&& after[token].expires == expiry(now as int)
        &&& after == before.insert(token, after[token])
        &&& step.action matches CallbackAction::Respond(response) && response@
            == redirect_with_cookie(
            "/"@,
            cookie_text(cookie_name(), token, cookie_path(), SESSION_MAX_AGE, true),
        )
    } else {
        after == before && rejected(step)
    }
}

/// The request for a user is the one that `From` makes of the profile.
pub open spec fn requests_user_of(user: RequestUser, info: GoogleUserInfo) -> bool {
    &&& user.id is None
    &&& user.guid matches Some(guid) && guid@ == google_guid(info.id@)
    &&& user.email == Some(info.email)
    &&& user.name == Some(info.name)
    &&& user.picture == Some(info.picture)
}

/// What the first step of a callback does: with a state that is pending and a
/// code, it redeems the state and asks for the exchange; with anything else
/// it rejects the request, and redeems the state only if both were there.
pub open spec fn callback_begun(
    before: Map<Seq<char>, Seq<char>>,
    state: Option<Seq<char>>,
    code: Option<Seq<char>>,
    step: CallbackStep,
    after: Map<Seq<char>, Seq<char>>,
) -> bool {
    if state is Some && code is Some {
        &&& after == redeemed(before, state->0).0
        &&& match redeemed(before, state->0).1 {
            Some(verifier) => {
                &&& step.next matches Some(CallbackState::Exchanging)
                &&& step.action matches CallbackAction::Exchange(exchange)
                    && exchange.pkce_verifier@ == verifier && exchange.code@ == code->0
            },
            None => rejected(step),
        }
    } else {
        after == before && rejected(step)
    }
}

/// What a later step of a callback does, given where the callback stands,
/// what has happened, whether the sessions are available, and the token and
/// the instant for a session:
///
/// - after the exchange, with a profile: it asks for the lookup of the user
///   by the guid of the profile; without a profile, it rejects the request;
/// - after the lookup: one user is logged in; none, or a lookup that failed,
///   makes it ask for the create of the user; more than one is rejected;
/// - after the create: the created user is logged in; without one the
///   request is rejected;
/// - an event that does not belong to where the callback stands is rejected.
///
/// Only a login touches the sessions.
pub open spec fn callback_stepped(
    available: bool,
    before: Map<Seq<char>, Session>,
    state: CallbackState,
    event: CallbackEvent,
    token: Seq<char>,
    now: i128,
    step: CallbackStep,
    after: Map<Seq<char>, Session>,
) -> bool {
    match (state, event) {
        (CallbackState::Exchanging, CallbackEvent::Exchanged(Some(info))) => {
            &&& after == before
            &&& step.next matches Some(CallbackState::Retrieving { user }) && requests_user_of(
                user,
                info,
            )
            &&& step.action matches CallbackAction::Run(statement) && selects::<User>(
                seq![by_guid(google_guid(info.id@))],
                statement,
            ) && statement.balanced()
        },
        (CallbackState::Retrieving { user }, CallbackEvent::Rows(rows)) => {
            if readable::<User>(rows) && rows->0.len() == 1 {
                session_established(
                    available,
                    before,
                    rows->0[0].deep_view(),
                    token,
                    now,
                    step,
                    after,
                )
            } else if readable::<User>(rows) && rows->0.len() > 1 {
                after == before && rejected(step)
            } else {
                &&& after == before
                &&& step.next matches Some(CallbackState::Creating)
                &&& step.action matches CallbackAction::Run(statement) && creates::<
                    RequestUser,
                    User,
                >(user, statement)
            }
        },
        (CallbackState::Creating, CallbackEvent::Rows(rows)) => {
            if readable::<User>(rows) && rows->0.len() >= 1 {
                session_established(
                    available,
                    before,
                    rows->0[0].deep_view(),
                    token,
                    now,
                    step,
                    after,
                )
            } else {
                after == before && rejected(step)
            }
        },
        _ => after == before && rejected(step),
    }
}

/// The step that rejects the request.
fn reject() -> (step: CallbackStep)
    ensures
        rejected(step),
{
    CallbackStep {
        next: None,
        action: CallbackAction::Respond(AuthrError::NotAuthorized.into_response()),
    }
}

/// The step that logs the user in, or rejects the request where the session
/// cannot be issued.
fn log_in(sessions: Option<&mut SessionStore>, user: User, token: String, now: i128) -> (step:
    CallbackStep)
    ensures
        match sessions {
            Some(s) => session_established(true, s@, user.row(), token@, now, step, final(s)@),
            None => rejected(step),
        },
{
    match sessions {
        Some(sessions) => match establish_at(sessions, user, token, now) {
            Ok(response) => CallbackStep { next: None, action: CallbackAction::Respond(response) },
            Err(_) => reject(),
        },
        None => reject(),
    }
}

/// Handles `GET /auth/google/callback`: the first step of a callback, on the
/// query parameters `state` and `code` of the request. `pending` is `None`
/// where the pending authorizations could not be had: the request is
/// rejected. The steps that follow are those of `callback_step`.
pub fn callback(pending: Option<&mut PendingAuthorizations>, state: Option<&str>, code: Option<
    &str,
>) -> (step: CallbackStep)
    ensures
        match pending {
            Some(p) => callback_begun(
                p@,
                crate::auth::cookie_view(state),
                crate::auth::cookie_view(code),
                step,
                final(p)@,
            ),
            None => rejected(step),
        },
{
    match pending {
        Some(pending) => match begin_exchange(pending, state, code) {
            Ok(exchange) => CallbackStep {
                next: Some(CallbackState::Exchanging),
                action: CallbackAction::Exchange(exchange),
            },
            Err(_) => reject(),
        },
        None => reject(),
    }
}

/// What a later step of a callback does to the sessions `sessions`, which is
/// `None` where the sessions could not be had.
pub open spec fn callback_step_outcome(
    before: Option<Map<Seq<char>, Session>>,
    state: CallbackState,
    event: CallbackEvent,
    token: Seq<char>,
    now: i128,
    step: CallbackStep,
    after: Option<Map<Seq<char>, Session>>,
) -> bool {
    match (before, after) {
        (Some(b), Some(a)) => callback_stepped(true, b, state, event, token, now, step, a),
        (None, None) => callback_stepped(
            false,
            Map::empty(),
            state,
            event,
            token,
            now,
            step,
            Map::empty(),
        ),
        _ => false,
    }
}

/// A later step of a callback, with a given token and at a given instant for
/// the session that a login issues. `sessions` is `None` where the sessions
/// could not be had: nobody is logged in then.
pub fn callback_step_at(
    sessions: Option<&mut SessionStore>,
    state: CallbackState,
    event: CallbackEvent,
    token: String,
    now: i128,
) -> (step: CallbackStep)
    ensures
        match sessions {
            Some(s) => callback_step_outcome(
                Some(s@),
                state,
                event,
                token@,
                now,
                step,
                Some(final(s)@),
            ),
            None => callback_step_outcome(None, state, event, token@, now, step, None),
        },
{
    match state {
        CallbackState::Exchanging => match event {
            CallbackEvent::Exchanged(profile) => match get_google_user_info(profile) {
                Ok(info) => {
                    let lookup = user_lookup(info);
                    CallbackStep {
                        next: Some(CallbackState::Retrieving { user: lookup.user }),
                        action: CallbackAction::Run(lookup.statement),
                    }
                },
                Err(_) => reject(),
            },
            CallbackEvent::Rows(_) => reject(),
        },
        CallbackState::Retrieving { user } => match event {
            CallbackEvent::Rows(rows) => match retrieve_or_create_user(&user, &rows) {
                Retrieval::Found(found) => log_in(sessions, found, token, now),
                Retrieval::Create(statement) => CallbackStep {
                    next: Some(CallbackState::Creating),
                    action: CallbackAction::Run(statement),
                },
                Retrieval::Ambiguous => reject(),
            },
            CallbackEvent::Exchanged(_) => reject(),
        },
        CallbackState::Creating => match event {
            CallbackEvent::Rows(rows) => match user_created(&rows) {
                Ok(created) => log_in(sessions, created, token, now),
                Err(_) => reject(),
            },
            CallbackEvent::Exchanged(_) => reject(),
        },
    }
}

/// A later step of a callback, with a new random token and at the current
/// time for the session that a login issues. Whatever the token and the
/// instant are, the step does with them what `callback_step_outcome` says;
/// and since no instant that the clock gives is too late for a session, a
/// user that was found or created is logged in wherever the sessions are
/// available.
pub fn callback_step(sessions: Option<&mut SessionStore>, state: CallbackState, event: CallbackEvent) -> (step:
    CallbackStep)
    ensures
        match sessions {
            Some(s) => exists|token: Seq<char>, now: i128|
                is_instant(now) && expiry(now as int) <= i128::MAX
                    && #[trigger] callback_step_outcome(
                    Some(s@),
                    state,
                    event,
                    token,
                    now,
                    step,
                    Some(final(s)@),
                ),
            None => exists|token: Seq<char>, now: i128|
                is_instant(now) && expiry(now as int) <= i128::MAX
                    && #[trigger] callback_step_outcome(None, state, event, token, now, step, None),
        },
{
    let token = new_code_verifier();
    let now = now_nanos();
    let ghost t = token@;
    match sessions {
        Some(sessions) => {
            let ghost before = sessions@;
            let step = callback_step_at(Some(sessions), state, event, token, now);
            assert(callback_step_outcome(
                Some(before),
                state,
                event,
                t,
                now,
                step,
                Some(sessions@),
            ));
            step
        },
        None => {
            let step = callback_step_at(None, state, event, token, now);
            assert(callback_step_outcome(None, state, event, t, now, step, None));
            step
        },
    }
}

} // verus!
