//! The handlers of the requests for data. Each takes the caller's identity as
//! the guard has established it, decides whether the store is touched at all,
//! and if so with which statement; and each reads the rows that come back.

use vstd::prelude::*;
use vstd::string::*;
use crate::auth::session::{
    cookie_name, cookie_path, expired_cookie, revoked, Session, SessionStore, EXPIRED_MAX_AGE,
};
use crate::error::AuthrError;
use crate::http::{plain_response, redirect_with_cookie, Response, BAD_REQUEST};
use crate::outside::{cookie_text, parse_i64};
use crate::record::{create_rule, update_rule, DataObject, RequestObject};
use crate::store::{
    can_update, create, creates, delete, deletes, get, get_queries, predicates_of, selects,
    selects_one, update, updates, Statement,
};
use crate::text::decimal_i64;
use crate::types::comment::{Comment, RequestComment};
use crate::types::note::{Note, RequestNote};
use crate::types::punch::{Punch, RequestPunch};
use crate::types::user::{RequestUser, User};
use crate::types::{DataType, QueryTypes};
use crate::value::Value;

verus! {

/// The caller's identity as the guard has put it on the request: the owner id
/// of the authenticated user, or nothing where the guard has put none.
#[derive(Debug, Clone, Copy, PartialEq, Eq, Structural)]
pub struct OwnerIdHeader(pub Option<i64>);

impl OwnerIdHeader {
    /// Reads the value of the `Owner-Id` header. No header is no identity; a
    /// header that is no number in decimal notation is an error.
    pub fn from_header(value: Option<&str>) -> (r: Result<OwnerIdHeader, ()>)
        ensures
            match value {
                None => r == Ok::<OwnerIdHeader, ()>(OwnerIdHeader(None)),
                Some(text) => match decimal_i64(text@) {
                    Some(id) => r == Ok::<OwnerIdHeader, ()>(OwnerIdHeader(Some(id))),
                    None => r is Err,
                },
            },
    {
        match value {
            Some(text) => match parse_i64(text) {
                Some(id) => Ok(OwnerIdHeader(Some(id))),
                None => Err(()),
            },
            None => Ok(OwnerIdHeader(None)),
        }
    }
}

/// What handling a create gives: the statement that creates the record, where
/// the request is valid for the caller; `NotFound`, and no statement, where
/// it is not.
pub open spec fn create_handled<R: RequestObject, T: DataObject>(
    payload: R,
    owner_id: Option<i64>,
    r: Result<Statement, AuthrError>,
) -> bool {
    let verdict = create_rule(
        R::owned(),
        payload.spec_owner_id(),
        owner_id,
        payload.required(),
        payload.spec_id(),
    );
    match r {
        Ok(st) => verdict is Ok && creates::<R, T>(payload, st),
        Err(e) => e == AuthrError::NotFound && verdict is Err,
    }
}

/// What handling an update gives: the statement that updates the record,
/// where the request is valid for the caller and names what to update;
/// `NotFound`, and no statement, where it does not.
pub open spec fn update_handled<R: RequestObject, T: DataObject>(
    payload: R,
    owner_id: Option<i64>,
    r: Result<Statement, AuthrError>,
) -> bool {
    let verdict = update_rule(payload.spec_owner_id(), owner_id, payload.spec_id());
    match r {
        Ok(st) => verdict is Ok && can_update::<R, T>(payload) && updates::<R, T>(payload, st),
        Err(e) => e == AuthrError::NotFound && (verdict is Err || !can_update::<R, T>(payload)),
    }
}

/// Handles a create on behalf of the caller `owner_id`: validates the
/// request, and only if it is valid builds the statement. A request that is
/// rejected never reaches the store.
pub fn handle_create<R: RequestObject, T: DataObject>(payload: &R, owner_id: Option<i64>) -> (r:
    Result<Statement, AuthrError>)
    ensures
        create_handled::<R, T>(*payload, owner_id, r),
{
    match payload.validate_create(owner_id) {
        Err(_) => Err(AuthrError::NotFound),
        Ok(_) => Ok(create::<R, T>(payload)),
    }
}

/// Handles an update on behalf of the caller `owner_id`: validates the
/// request, and only if it is valid builds the statement.
pub fn handle_update<R: RequestObject, T: DataObject>(payload: &R, owner_id: Option<i64>) -> (r:
    Result<Statement, AuthrError>)
    ensures
        update_handled::<R, T>(*payload, owner_id, r),
{
    match payload.validate_update(owner_id) {
        Err(_) => Err(AuthrError::NotFound),
        Ok(_) => match update::<R, T>(payload) {
            Ok(st) => Ok(st),
            Err(_) => Err(AuthrError::NotFound),
        },
    }
}

/// A request shape of any kind.
#[derive(Debug)]
pub enum Request {
    User(RequestUser),
    Note(RequestNote),
    Comment(RequestComment),
    Punch(RequestPunch),
}

/// A record of any kind.
#[derive(Debug, PartialEq, Eq)]
pub enum Record {
    User(User),
    Note(Note),
    Comment(Comment),
    Punch(Punch),
}

impl Clone for Request {
    fn clone(&self) -> (r: Self)
        ensures
            r == *self,
    {
        match self {
            Request::User(x) => Request::User(x.clone()),
            Request::Note(x) => Request::Note(x.clone()),
            Request::Comment(x) => Request::Comment(x.clone()),
            Request::Punch(x) => Request::Punch(x.clone()),
        }
    }
}

impl Clone for Record {
    fn clone(&self) -> (r: Self)
        ensures
            r == *self,
    {
        match self {
            Record::User(x) => Record::User(x.clone()),
            Record::Note(x) => Record::Note(x.clone()),
            Record::Comment(x) => Record::Comment(x.clone()),
            Record::Punch(x) => Record::Punch(x.clone()),
        }
    }
}

impl Request {
    /// The kind of the request.
    pub open spec fn spec_kind(&self) -> DataType {
        match self {
            Request::User(_) => DataType::User,
            Request::Note(_) => DataType::Note,
            Request::Comment(_) => DataType::Comment,
            Request::Punch(_) => DataType::Punch,
        }
    }

    /// The kind of the request.
    pub fn kind(&self) -> (r: DataType)
        ensures
            r == self.spec_kind(),
    {
        match self {
            Request::User(_) => DataType::User,
            Request::Note(_) => DataType::Note,
            Request::Comment(_) => DataType::Comment,
            Request::Punch(_) => DataType::Punch,
        }
    }
}

impl Record {
    /// The kind of the record.
    pub open spec fn spec_kind(&self) -> DataType {
        match self {
            Record::User(_) => DataType::User,
            Record::Note(_) => DataType::Note,
            Record::Comment(_) => DataType::Comment,
            Record::Punch(_) => DataType::Punch,
        }
    }

    /// The record as a row.
    pub open spec fn row(&self) -> Seq<crate::value::ValueView> {
        match self {
            Record::User(x) => x.row(),
            Record::Note(x) => x.row(),
            Record::Comment(x) => x.row(),
            Record::Punch(x) => x.row(),
        }
    }
}

/// Handles `POST /data/{kind}`: a create of a record of the request's kind.
pub fn data_create(payload: &Request, owner_id: OwnerIdHeader) -> (r: Result<
    Statement,
    AuthrError,
>)
    ensures
        match *payload {
            Request::User(p) => create_handled::<RequestUser, User>(p, owner_id.0, r),
            Request::Note(p) => create_handled::<RequestNote, Note>(p, owner_id.0, r),
            Request::Comment(p) => create_handled::<RequestComment, Comment>(p, owner_id.0, r),
            Request::Punch(p) => create_handled::<RequestPunch, Punch>(p, owner_id.0, r),
        },
{
    match payload {
        Request::User(p) => handle_create::<RequestUser, User>(p, owner_id.0),
        Request::Note(p) => handle_create::<RequestNote, Note>(p, owner_id.0),
        Request::Comment(p) => handle_create::<RequestComment, Comment>(p, owner_id.0),
        Request::Punch(p) => handle_create::<RequestPunch, Punch>(p, owner_id.0),
    }
}

/// Handles `PUT /data/{kind}`: an update of the record that the request names
/// by its id.
pub fn data_update(payload: &Request, owner_id: OwnerIdHeader) -> (r: Result<
    Statement,
    AuthrError,
>)
    ensures
        match *payload {
            Request::User(p) => update_handled::<RequestUser, User>(p, owner_id.0, r),
            Request::Note(p) => update_handled::<RequestNote, Note>(p, owner_id.0, r),
            Request::Comment(p) => update_handled::<RequestComment, Comment>(p, owner_id.0, r),
            Request::Punch(p) => update_handled::<RequestPunch, Punch>(p, owner_id.0, r),
        },
{
    match payload {
        Request::User(p) => handle_update::<RequestUser, User>(p, owner_id.0),
        Request::Note(p) => handle_update::<RequestNote, Note>(p, owner_id.0),
        Request::Comment(p) => handle_update::<RequestComment, Comment>(p, owner_id.0),
        Request::Punch(p) => handle_update::<RequestPunch, Punch>(p, owner_id.0),
    }
}

/// Handles `GET /data/{kind}/{id}`: the record of the kind with the id. The
/// caller's identity plays no part.
pub fn data_get(data_type: DataType, id: i64) -> (r: Statement)
    ensures
        match data_type {
            DataType::User => selects_one::<User>(id, r),
            DataType::Note => selects_one::<Note>(id, r),
            DataType::Comment => selects_one::<Comment>(id, r),
            DataType::Punch => selects_one::<Punch>(id, r),
        },
{
    match data_type {
        DataType::User => get::<User>(id),
        DataType::Note => get::<Note>(id),
        DataType::Comment => get::<Comment>(id),
        DataType::Punch => get::<Punch>(id),
    }
}

/// Handles `GET /data/{kind}`: the records of the kind that pass every filter.
pub fn data_get_queries(data_type: DataType, queries: &Vec<QueryTypes>) -> (r: Statement)
    ensures
        match data_type {
            DataType::User => selects::<User>(predicates_of(queries@), r),
            DataType::Note => selects::<Note>(predicates_of(queries@), r),
            DataType::Comment => selects::<Comment>(predicates_of(queries@), r),
            DataType::Punch => selects::<Punch>(predicates_of(queries@), r),
        },
{
    match data_type {
        DataType::User => get_queries::<User, QueryTypes>(queries),
        DataType::Note => get_queries::<Note, QueryTypes>(queries),
        DataType::Comment => get_queries::<Comment, QueryTypes>(queries),
        DataType::Punch => get_queries::<Punch, QueryTypes>(queries),
    }
}

/// Handles `DELETE /data/{kind}/{id}` on behalf of the caller `owner_id`.
pub fn data_delete(data_type: DataType, id: i64, owner_id: OwnerIdHeader) -> (r: Statement)
    ensures
        match data_type {
            DataType::User => deletes::<User>(id, owner_id.0, r),
            DataType::Note => deletes::<Note>(id, owner_id.0, r),
            DataType::Comment => deletes::<Comment>(id, owner_id.0, r),
            DataType::Punch => deletes::<Punch>(id, owner_id.0, r),
        },
{
    match data_type {
        DataType::User => delete::<User>(id, owner_id.0),
        DataType::Note => delete::<Note>(id, owner_id.0),
        DataType::Comment => delete::<Comment>(id, owner_id.0),
        DataType::Punch => delete::<Punch>(id, owner_id.0),
    }
}

/// Handles `GET /data/whoami`: the user that the caller is. Without an
/// identity there is nobody to look up.
pub fn whoami(owner_id: OwnerIdHeader) -> (r: Result<Statement, AuthrError>)
    ensures
        match owner_id.0 {
            Some(id) => r matches Ok(st) && selects_one::<User>(id, st),
            None => r matches Err(e) && e == AuthrError::NotFound,
        },
{
    match owner_id.0 {
        Some(id) => Ok(get::<User>(id)),
        None => Err(AuthrError::NotFound),
    }
}

/// Whether `row` fits the kind `data_type`.
pub open spec fn row_fits_kind(data_type: DataType, row: Seq<crate::value::ValueView>) -> bool {
    match data_type {
        DataType::User => User::fits(row),
        DataType::Note => Note::fits(row),
        DataType::Comment => Comment::fits(row),
        DataType::Punch => Punch::fits(row),
    }
}

/// The rows of a result that can be read as records of the kind `data_type`:
/// the engine returned rows, and each of them fits the kind.
pub open spec fn readable_as(data_type: DataType, rows: Option<Vec<Vec<Value>>>) -> bool {
    rows matches Some(rs) && forall|i: int|
        0 <= i < rs.len() ==> row_fits_kind(data_type, (#[trigger] rs[i]).deep_view())
}

impl Record {
    /// Decodes one row as a record of the kind `data_type`; `None` exactly if
    /// the row does not fit the kind.
    pub fn from_row(data_type: DataType, row: &Vec<Value>) -> (r: Option<Record>)
        ensures
            r is Some <==> row_fits_kind(data_type, row.deep_view()),
            r matches Some(record) ==> record.spec_kind() == data_type && record.row()
                == row.deep_view(),
    {
        match data_type {
            DataType::User => match User::from_row(row) {
                Some(x) => Some(Record::User(x)),
                None => None,
            },
            DataType::Note => match Note::from_row(row) {
                Some(x) => Some(Record::Note(x)),
                None => None,
            },
            DataType::Comment => match Comment::from_row(row) {
                Some(x) => Some(Record::Comment(x)),
                None => None,
            },
            DataType::Punch => match Punch::from_row(row) {
                Some(x) => Some(Record::Punch(x)),
                None => None,
            },
        }
    }

    /// Decodes the rows of a result as records of the kind `data_type`, in
    /// order; there is no list where there are no rows to read.
    pub fn from_rows(data_type: DataType, rows: &Option<Vec<Vec<Value>>>) -> (r: Option<
        Vec<Record>,
    >)
        ensures
            r is Some <==> readable_as(data_type, *rows),
            r matches Some(records) ==> records.len() == rows->0.len() && forall|i: int|
                0 <= i < records.len() ==> (#[trigger] records[i]).spec_kind() == data_type
                    && records[i].row() == rows->0[i].deep_view(),
    {
        match rows {
            Some(rs) => {
                let mut out: Vec<Record> = Vec::new();
                let mut i: usize = 0;
                while i < rs.len()
                    invariant
                        i <= rs.len(),
                        out.len() == i,
                        *rows == Some(*rs),
                        forall|k: int|
                            0 <= k < i ==> row_fits_kind(
                                data_type,
                                (#[trigger] rs[k]).deep_view(),
                            ),
                        forall|k: int|
                            0 <= k < i ==> (#[trigger] out[k]).spec_kind() == data_type
                                && out[k].row() == rs[k].deep_view(),
                    decreases rs.len() - i,
                {
                    let ghost before = out@;
                    match Record::from_row(data_type, &rs[i]) {
                        Some(record) => {
                            out.push(record);
                            assert(forall|k: int| 0 <= k < i ==> out[k] == before[k]);
                        },
                        None => {
                            assert(!row_fits_kind(data_type, rows->0[i as int].deep_view()));
                            return None;
                        },
                    }
                    i += 1;
                }
                Some(out)
            },
            None => None,
        }
    }
}

/// Reads the result of a statement that asks for one record: the record of
/// the first row, of the kind `data_type`; `NotFound` where the engine
/// returned no row or the operation failed, whatever the statement was.
pub fn record_response(data_type: DataType, rows: &Option<Vec<Vec<Value>>>) -> (r: Result<
    Record,
    AuthrError,
>)
    ensures
        r is Ok <==> readable_as(data_type, *rows) && rows->0.len() >= 1,
        r matches Ok(record) ==> record.spec_kind() == data_type && record.row()
            == rows->0[0].deep_view(),
        r matches Err(e) ==> e == AuthrError::NotFound,
{
    match Record::from_rows(data_type, rows) {
        Some(records) => {
            let mut records = records;
            if records.len() >= 1 {
                Ok(records.swap_remove(0))
            } else {
                Err(AuthrError::NotFound)
            }
        },
        None => Err(AuthrError::NotFound),
    }
}

/// Reads the result of a filtered selection: every record, in the order of
/// the rows; none where the operation failed.
pub fn list_response(data_type: DataType, rows: &Option<Vec<Vec<Value>>>) -> (r: Vec<Record>)
    ensures
        if readable_as(data_type, *rows) {
            r.len() == rows->0.len() && forall|i: int|
                0 <= i < r.len() ==> (#[trigger] r[i]).spec_kind() == data_type && r[i].row()
                    == rows->0[i].deep_view()
        } else {
            r.len() == 0
        },
{
    match Record::from_rows(data_type, rows) {
        Some(records) => records,
        None => Vec::new(),
    }
}

/// What a logout gives: without the session cookie, a bad request, and no
/// session is touched; with it, the session that the cookie names is revoked
/// (if there is one: a second logout is no error) and the browser is sent
/// home with the cookie expired.
pub open spec fn logout_outcome(
    before: Map<Seq<char>, Session>,
    cookie: Option<Seq<char>>,
    response: crate::http::ResponseView,
    after: Map<Seq<char>, Session>,
) -> bool {
    match cookie {
        Some(token) => after == revoked(before, token) && response == logged_out(token),
        None => after == before && response == plain_response(BAD_REQUEST, "Missing session_id"@),
    }
}

/// The response to a logout with the session cookie: home, with the cookie
/// expired.
pub open spec fn logged_out(token: Seq<char>) -> crate::http::ResponseView {
    redirect_with_cookie(
        "/"@,
        cookie_text(cookie_name(), token, cookie_path(), EXPIRED_MAX_AGE, true),
    )
}

/// Handles `GET /auth/logout`. `sessions` is `None` where the sessions could
/// not be had: the cookie is expired all the same, and no session is touched.
pub fn logout(sessions: Option<&mut SessionStore>, cookie: Option<&str>) -> (r: Response)
    ensures
        match sessions {
            Some(s) => logout_outcome(s@, crate::auth::cookie_view(cookie), r@, final(s)@),
            None => r@ == (match cookie {
                Some(token) => logged_out(token@),
                None => plain_response(BAD_REQUEST, "Missing session_id"@),
            }),
        },
{
    let session_id = match cookie {
        Some(session_id) => session_id,
        None => {
            return Response::plain(BAD_REQUEST, "Missing session_id");
        },
    };
    match sessions {
        Some(sessions) => {
            let _ = sessions.revoke(session_id);
        },
        None => {},
    }
    Response::redirect_setting("/", expired_cookie(session_id))
}

} // verus!
