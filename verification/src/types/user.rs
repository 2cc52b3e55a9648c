//! Users: the identities that own every other record, and themselves.

use vstd::prelude::*;
use vstd::string::*;
use vstd::std_specs::convert::TryFromSpecImpl;
use crate::criteria::{Criteria, EqualsCriteria, Predicate, Query};
use crate::error::ValidationError;
use crate::record::{
    check_owner, column_names, integer_column, present_column_list, present_placeholder_list,
    text_column, values_of, Column, ColumnView, DataObject, RequestObject, Requirement,
};
use crate::text::comma;
use crate::value::{integer_view, text_view, Value, ValueView};

verus! {

/// A persisted user. The `guid` names the identity at its provider, as
/// `<provider>/<id at the provider>`.
#[derive(Debug, PartialEq, Eq)]
pub struct User {
    pub id: i64,
    pub guid: String,
    pub name: String,
    pub email: String,
    pub picture: String,
}

impl Clone for User {
    fn clone(&self) -> (r: Self)
        ensures
            r == *self,
    {
        User {
            id: self.id,
            guid: self.guid.clone(),
            name: self.name.clone(),
            email: self.email.clone(),
            picture: self.picture.clone(),
        }
    }
}

impl DataObject for User {
    open spec fn spec_table_name() -> Seq<char> {
        "users"@
    }

    open spec fn spec_columns() -> Seq<Seq<char>> {
        seq!["id"@, "guid"@, "name"@, "email"@, "picture"@]
    }

    open spec fn spec_id_col() -> Seq<char> {
        "id"@
    }

    /// A user owns itself: its owner column is its id column.
    open spec fn spec_owner_id_col() -> Seq<char> {
        "id"@
    }

    open spec fn row(&self) -> Seq<ValueView> {
        seq![
            ValueView::Integer(self.id as int),
            ValueView::Text(self.guid@),
            ValueView::Text(self.name@),
            ValueView::Text(self.email@),
            ValueView::Text(self.picture@),
        ]
    }

    open spec fn fits(row: Seq<ValueView>) -> bool {
        &&& row.len() == 5
        &&& row[0] is Integer
        &&& row[1] is Text
        &&& row[2] is Text
        &&& row[3] is Text
        &&& row[4] is Text
    }

    fn table_name() -> (r: String) {
        String::from_str("users")
    }

    fn sql_cols() -> (r: String) {
        proof {
            reveal_strlit("id,guid,name,email,picture");
            reveal_strlit("id");
            reveal_strlit("guid");
            reveal_strlit("name");
            reveal_strlit("email");
            reveal_strlit("picture");
            reveal_with_fuel(crate::text::join, 6);
            assert("id,guid,name,email,picture"@ =~= crate::text::join(
                Self::spec_columns(),
                comma(),
            ));
        }
        String::from_str("id,guid,name,email,picture")
    }

    fn id_col() -> (r: String) {
        String::from_str("id")
    }

    fn owner_id_col() -> (r: String) {
        String::from_str("id")
    }

    fn from_row(row: &Vec<Value>) -> (r: Option<Self>) {
        if row.len() != 5 {
            return None;
        }
        match (&row[0], &row[1], &row[2], &row[3], &row[4]) {
            (
                Value::Integer(id),
                Value::Text(guid),
                Value::Text(name),
                Value::Text(email),
                Value::Text(picture),
            ) => {
                let user = User {
                    id: *id,
                    guid: guid.clone(),
                    name: name.clone(),
                    email: email.clone(),
                    picture: picture.clone(),
                };
                assert(user.row() =~= row.deep_view());
                Some(user)
            },
            _ => None,
        }
    }

    fn bind(&self) -> (r: Vec<Value>) {
        let mut values: Vec<Value> = Vec::new();
        values.push(Value::Integer(self.id));
        values.push(Value::Text(self.guid.clone()));
        values.push(Value::Text(self.name.clone()));
        values.push(Value::Text(self.email.clone()));
        values.push(Value::Text(self.picture.clone()));
        assert(values.deep_view() =~= self.row());
        values
    }

    proof fn lemma_descriptor() {
        reveal_strlit("users");
        reveal_strlit("id");
        reveal_strlit("guid");
        reveal_strlit("name");
        reveal_strlit("email");
        reveal_strlit("picture");
    }
}

/// The shape of a request that creates or updates a user.
#[derive(Debug)]
pub struct RequestUser {
    pub id: Option<i64>,
    pub guid: Option<String>,
    pub name: Option<String>,
    pub email: Option<String>,
    pub picture: Option<String>,
}

/// A copy of an optional text.
fn copy_text(text: &Option<String>) -> (r: Option<String>)
    ensures
        r == *text,
{
    match text {
        Some(s) => Some(s.clone()),
        None => None,
    }
}

impl Clone for RequestUser {
    fn clone(&self) -> (r: Self)
        ensures
            r == *self,
    {
        RequestUser {
            id: self.id,
            guid: copy_text(&self.guid),
            name: copy_text(&self.name),
            email: copy_text(&self.email),
            picture: copy_text(&self.picture),
        }
    }
}

impl RequestUser {
    /// All columns of the shape, each with the value that the request carries.
    pub fn column_list(&self) -> (r: Vec<Column>)
        ensures
            r.deep_view() == self.columns(),
    {
        let mut columns: Vec<Column> = Vec::new();
        columns.push(integer_column("id", self.id));
        columns.push(text_column("guid", &self.guid));
        columns.push(text_column("name", &self.name));
        columns.push(text_column("email", &self.email));
        columns.push(text_column("picture", &self.picture));
        assert(columns.deep_view() =~= self.columns());
        columns
    }
}

impl RequestObject for RequestUser {
    open spec fn columns(&self) -> Seq<ColumnView> {
        seq![
            ColumnView { name: "id"@, value: integer_view(self.id) },
            ColumnView { name: "guid"@, value: text_view(self.guid) },
            ColumnView { name: "name"@, value: text_view(self.name) },
            ColumnView { name: "email"@, value: text_view(self.email) },
            ColumnView { name: "picture"@, value: text_view(self.picture) },
        ]
    }

    open spec fn spec_id(&self) -> Option<i64> {
        self.id
    }

    /// A user owns itself: the owner that a request asserts is its id.
    open spec fn spec_owner_id(&self) -> Option<i64> {
        self.id
    }

    open spec fn owned() -> bool {
        false
    }

    open spec fn required(&self) -> Seq<Requirement> {
        seq![
            Requirement { name: "guid"@, present: self.guid is Some },
            Requirement { name: "name"@, present: self.name is Some },
            Requirement { name: "email"@, present: self.email is Some },
            Requirement { name: "picture"@, present: self.picture is Some },
        ]
    }

    fn validate_create(&self, owner_id: Option<i64>) -> (r: Result<(), ValidationError>) {
        proof {
            reveal_with_fuel(crate::record::first_missing_from, 5);
        }
        match check_owner(false, self.id, owner_id) {
            Err(e) => {
                return Err(e);
            },
            Ok(_) => {},
        }
        if self.guid.is_none() {
            return Err(ValidationError::MissingRequiredOnCreate(String::from_str("guid")));
        }
        if self.name.is_none() {
            return Err(ValidationError::MissingRequiredOnCreate(String::from_str("name")));
        }
        if self.email.is_none() {
            return Err(ValidationError::MissingRequiredOnCreate(String::from_str("email")));
        }
        if self.picture.is_none() {
            return Err(ValidationError::MissingRequiredOnCreate(String::from_str("picture")));
        }
        if self.id.is_some() {
            return Err(ValidationError::IdProvidedOnCreate);
        }
        Ok(())
    }

    fn validate_update(&self, owner_id: Option<i64>) -> (r: Result<(), ValidationError>) {
        match check_owner(false, self.id, owner_id) {
            Err(e) => {
                return Err(e);
            },
            Ok(_) => {},
        }
        match self.id {
            Some(_) => Ok(()),
            None => Err(ValidationError::MissingIdOnUpdate),
        }
    }

    fn sql_cols(&self) -> (r: String) {
        present_column_list(&self.column_list())
    }

    fn sql_placeholders(&self) -> (r: String) {
        present_placeholder_list(&self.column_list())
    }

    fn id(&self) -> (r: Option<i64>) {
        self.id
    }

    fn owner_id(&self) -> (r: Option<i64>) {
        self.id
    }

    fn bind(&self) -> (r: Vec<Value>) {
        values_of(&self.column_list())
    }

    proof fn lemma_columns_plain(&self) {
        reveal_strlit("id");
        reveal_strlit("guid");
        reveal_strlit("name");
        reveal_strlit("email");
        reveal_strlit("picture");
    }
}

/// The request shape of a user is the projection of a user: it has the columns
/// of the record in the same order, its first column carries the id, and the
/// column of the owner carries the owner.
pub proof fn lemma_user_request_shape(request: RequestUser)
    ensures
        column_names(request.columns()) == User::spec_columns(),
        request.columns()[0].name == User::spec_id_col(),
        request.columns()[0].value == integer_view(request.spec_id()),
        request.columns()[0].name == User::spec_owner_id_col(),
        request.columns()[0].value == integer_view(request.spec_owner_id()),
{
    assert(column_names(request.columns()) =~= User::spec_columns());
}

/// The filter that the key `key` with the value `val` selects for users:
/// `byGuid` the users whose guid is `val`. Any other key selects none.
pub open spec fn user_filter(key: Seq<char>, val: Seq<char>) -> Option<Predicate> {
    if key == "byGuid"@ {
        Some(Predicate::Equals { field: "guid"@, value: ValueView::Text(val) })
    } else {
        None
    }
}

/// No filter of users names a column with a placeholder in it.
pub proof fn lemma_user_filter_plain(key: Seq<char>, val: Seq<char>)
    ensures
        user_filter(key, val) matches Some(p) ==> p.plain(),
{
    reveal_strlit("guid");
}

/// A filter of users.
#[derive(Debug)]
pub enum UserQuery {
    ByGuid(UserByGuid),
}

impl Query for UserQuery {
    open spec fn predicate(&self) -> Predicate {
        match self {
            UserQuery::ByGuid(inner) => inner.predicate(),
        }
    }

    fn build(&self) -> (r: (String, Vec<Value>)) {
        match self {
            UserQuery::ByGuid(inner) => inner.build(),
        }
    }
}

impl TryFrom<(&String, &String)> for UserQuery {
    type Error = ();

    /// The filter that a key and its value select; an error where they select
    /// none.
    fn try_from(pair: (&String, &String)) -> (r: Result<Self, ()>)
        ensures
            match r {
                Ok(q) => user_filter(pair.0@, pair.1@) == Some(q.predicate()),
                Err(_) => user_filter(pair.0@, pair.1@) is None,
            },
    {
        let (q, v) = pair;
        if *q == String::from_str("byGuid") {
            Ok(UserQuery::ByGuid(UserByGuid::new(v.clone())))
        } else {
            Err(())
        }
    }
}

impl TryFromSpecImpl<(&String, &String)> for UserQuery {
    /// Two filters are the same where they apply the same predicate, which
    /// equality of values does not express: the conversion is specified by
    /// the contract of `try_from`, not by a value.
    open spec fn obeys_try_from_spec() -> bool {
        false
    }

    open spec fn try_from_spec(pair: (&String, &String)) -> Result<Self, ()> {
        arbitrary()
    }
}

/// The users with one guid.
#[derive(Debug)]
pub struct UserByGuid {
    inner: EqualsCriteria,
}

impl UserByGuid {
    pub fn new(val: String) -> (r: Self)
        ensures
            r.predicate() == (Predicate::Equals { field: "guid"@, value: ValueView::Text(val@) }),
            r.predicate().plain(),
    {
        proof {
            reveal_strlit("guid");
        }
        Self { inner: EqualsCriteria { field: String::from_str("guid"), val: Value::Text(val) } }
    }
}

impl Query for UserByGuid {
    closed spec fn predicate(&self) -> Predicate {
        self.inner.predicate()
    }

    fn build(&self) -> (r: (String, Vec<Value>)) {
        self.inner.build()
    }
}

} // verus!
