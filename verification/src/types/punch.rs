//! Punches: a place that a user has marked.

use vstd::prelude::*;
use vstd::string::*;
use vstd::std_specs::convert::TryFromSpecImpl;
use crate::criteria::{Criteria, EqualsCriteria, Predicate, Query};
use crate::error::ValidationError;
use crate::record::{
    check_owner, column_names, integer_column, present_column_list, present_placeholder_list,
    text_column, values_of, Column, ColumnView, DataObject, RequestObject, Requirement,
};
use crate::outside::parse_i64;
use crate::text::{comma, decimal_i64};
use crate::value::{integer_view, text_view, Value, ValueView};

verus! {

/// A persisted punch.
#[derive(Debug, PartialEq, Eq)]
pub struct Punch {
    pub id: i64,
    pub owner_id: i64,
    pub geo: String,
}

impl Clone for Punch {
    fn clone(&self) -> (r: Self)
        ensures
            r == *self,
    {
        Punch { id: self.id, owner_id: self.owner_id, geo: self.geo.clone() }
    }
}

impl DataObject for Punch {
    open spec fn spec_table_name() -> Seq<char> {
        "punches"@
    }

    open spec fn spec_columns() -> Seq<Seq<char>> {
        seq!["id"@, "owner_id"@, "geo"@]
    }

    open spec fn spec_id_col() -> Seq<char> {
        "id"@
    }

    open spec fn spec_owner_id_col() -> Seq<char> {
        "owner_id"@
    }

    open spec fn row(&self) -> Seq<ValueView> {
        seq![
            ValueView::Integer(self.id as int),
            ValueView::Integer(self.owner_id as int),
            ValueView::Text(self.geo@),
        ]
    }

    open spec fn fits(row: Seq<ValueView>) -> bool {
        &&& row.len() == 3
        &&& row[0] is Integer
        &&& row[1] is Integer
        &&& row[2] is Text
    }

    fn table_name() -> (r: String) {
        String::from_str("punches")
    }

    fn sql_cols() -> (r: String) {
        proof {
            reveal_strlit("id,owner_id,geo");
            reveal_strlit("id");
            reveal_strlit("owner_id");
            reveal_strlit("geo");
            reveal_with_fuel(crate::text::join, 4);
            assert("id,owner_id,geo"@ =~= crate::text::join(Self::spec_columns(), comma()));
        }
        String::from_str("id,owner_id,geo")
    }

    fn id_col() -> (r: String) {
        String::from_str("id")
    }

    fn owner_id_col() -> (r: String) {
        String::from_str("owner_id")
    }

    fn from_row(row: &Vec<Value>) -> (r: Option<Self>) {
        if row.len() != 3 {
            return None;
        }
        match (&row[0], &row[1], &row[2]) {
            (Value::Integer(id), Value::Integer(owner_id), Value::Text(geo)) => {
                let punch = Punch { id: *id, owner_id: *owner_id, geo: geo.clone() };
                assert(punch.row() =~= row.deep_view());
                Some(punch)
            },
            _ => None,
        }
    }

    fn bind(&self) -> (r: Vec<Value>) {
        let mut values: Vec<Value> = Vec::new();
        values.push(Value::Integer(self.id));
        values.push(Value::Integer(self.owner_id));
        values.push(Value::Text(self.geo.clone()));
        assert(values.deep_view() =~= self.row());
        values
    }

    proof fn lemma_descriptor() {
        reveal_strlit("punches");
        reveal_strlit("id");
        reveal_strlit("owner_id");
        reveal_strlit("geo");
    }
}

/// The shape of a request that creates or updates a punch.
#[derive(Debug)]
pub struct RequestPunch {
    pub id: Option<i64>,
    pub owner_id: Option<i64>,
    pub geo: Option<String>,
}

impl Clone for RequestPunch {
    fn clone(&self) -> (r: Self)
        ensures
            r == *self,
    {
        RequestPunch {
            id: self.id,
            owner_id: self.owner_id,
            geo: match &self.geo {
                Some(s) => Some(s.clone()),
                None => None,
            },
        }
    }
}

impl RequestPunch {
    /// All columns of the shape, each with the value that the request carries.
    pub fn column_list(&self) -> (r: Vec<Column>)
        ensures
            r.deep_view() == self.columns(),
    {
        let mut columns: Vec<Column> = Vec::new();
        columns.push(integer_column("id", self.id));
        columns.push(integer_column("owner_id", self.owner_id));
        columns.push(text_column("geo", &self.geo));
        assert(columns.deep_view() =~= self.columns());
        columns
    }
}

impl RequestObject for RequestPunch {
    open spec fn columns(&self) -> Seq<ColumnView> {
        seq![
            ColumnView { name: "id"@, value: integer_view(self.id) },
            ColumnView { name: "owner_id"@, value: integer_view(self.owner_id) },
            ColumnView { name: "geo"@, value: text_view(self.geo) },
        ]
    }

    open spec fn spec_id(&self) -> Option<i64> {
        self.id
    }

    open spec fn spec_owner_id(&self) -> Option<i64> {
        self.owner_id
    }

    open spec fn owned() -> bool {
        true
    }

    open spec fn required(&self) -> Seq<Requirement> {
        seq![Requirement { name: "geo"@, present: self.geo is Some }]
    }

    fn validate_create(&self, owner_id: Option<i64>) -> (r: Result<(), ValidationError>) {
        proof {
            reveal_with_fuel(crate::record::first_missing_from, 2);
        }
        match check_owner(true, self.owner_id, owner_id) {
            Err(e) => {
                return Err(e);
            },
            Ok(_) => {},
        }
        if self.geo.is_none() {
            return Err(ValidationError::MissingRequiredOnCreate(String::from_str("geo")));
        }
        if self.id.is_some() {
            return Err(ValidationError::IdProvidedOnCreate);
        }
        Ok(())
    }

    fn validate_update(&self, owner_id: Option<i64>) -> (r: Result<(), ValidationError>) {
        match check_owner(false, self.owner_id, owner_id) {
            Err(e) => {
                return Err(e);
            },
            Ok(_) => {},
        }
        match self.id {
            Some(_) => Ok(()),
            None => Err(ValidationError::MissingIdOnUpdate),
        }
    }

    fn sql_cols(&self) -> (r: String) {
        present_column_list(&self.column_list())
    }

    fn sql_placeholders(&self) -> (r: String) {
        present_placeholder_list(&self.column_list())
    }

    fn id(&self) -> (r: Option<i64>) {
        self.id
    }

    fn owner_id(&self) -> (r: Option<i64>) {
        self.owner_id
    }

    fn bind(&self) -> (r: Vec<Value>) {
        values_of(&self.column_list())
    }

    proof fn lemma_columns_plain(&self) {
        reveal_strlit("id");
        reveal_strlit("owner_id");
        reveal_strlit("geo");
    }
}

/// The request shape of a punch is the projection of a punch: it has the columns
/// of the record in the same order, its first column carries the id, and the
/// column of the owner carries the owner.
pub proof fn lemma_punch_request_shape(request: RequestPunch)
    ensures
        column_names(request.columns()) == Punch::spec_columns(),
        request.columns()[0].name == Punch::spec_id_col(),
        request.columns()[0].value == integer_view(request.spec_id()),
        request.columns()[1].name == Punch::spec_owner_id_col(),
        request.columns()[1].value == integer_view(request.spec_owner_id()),
{
    assert(column_names(request.columns()) =~= Punch::spec_columns());
}

/// The filter that the key `key` with the value `val` selects for punches:
/// `byOwnerId` the punches of the owner that `val` writes in decimal notation.
/// Any other key, and an owner that is no number, selects none.
pub open spec fn punch_filter(key: Seq<char>, val: Seq<char>) -> Option<Predicate> {
    if key == "byOwnerId"@ {
        match decimal_i64(val) {
            Some(id) => Some(
                Predicate::Equals { field: "owner_id"@, value: ValueView::Integer(id as int) },
            ),
            None => None,
        }
    } else {
        None
    }
}

/// No filter of punches names a column with a placeholder in it.
pub proof fn lemma_punch_filter_plain(key: Seq<char>, val: Seq<char>)
    ensures
        punch_filter(key, val) matches Some(p) ==> p.plain(),
{
    reveal_strlit("owner_id");
}

/// A filter of punches.
#[derive(Debug)]
pub enum PunchQuery {
    ByOwnerId(PunchByOwnerId),
}

impl Query for PunchQuery {
    open spec fn predicate(&self) -> Predicate {
        match self {
            PunchQuery::ByOwnerId(inner) => inner.predicate(),
        }
    }

    fn build(&self) -> (r: (String, Vec<Value>)) {
        match self {
            PunchQuery::ByOwnerId(inner) => inner.build(),
        }
    }
}

impl TryFrom<(&String, &String)> for PunchQuery {
    type Error = ();

    /// The filter that a key and its value select; an error where they select
    /// none.
    fn try_from(pair: (&String, &String)) -> (r: Result<Self, ()>)
        ensures
            match r {
                Ok(q) => punch_filter(pair.0@, pair.1@) == Some(q.predicate()),
                Err(_) => punch_filter(pair.0@, pair.1@) is None,
            },
    {
        let (q, v) = pair;
        if *q == String::from_str("byOwnerId") {
            match parse_i64(v.as_str()) {
                Some(id) => Ok(PunchQuery::ByOwnerId(PunchByOwnerId::new(id))),
                None => Err(()),
            }
        } else {
            Err(())
        }
    }
}

impl TryFromSpecImpl<(&String, &String)> for PunchQuery {
    /// Two filters are the same where they apply the same predicate, which
    /// equality of values does not express: the conversion is specified by
    /// the contract of `try_from`, not by a value.
    open spec fn obeys_try_from_spec() -> bool {
        false
    }

    open spec fn try_from_spec(pair: (&String, &String)) -> Result<Self, ()> {
        arbitrary()
    }
}

/// The punches of one owner.
#[derive(Debug)]
pub struct PunchByOwnerId {
    inner: EqualsCriteria,
}

impl PunchByOwnerId {
    pub fn new(val: i64) -> (r: Self)
        ensures
            r.predicate() == (Predicate::Equals {
                field: "owner_id"@,
                value: ValueView::Integer(val as int),
            }),
            r.predicate().plain(),
    {
        proof {
            reveal_strlit("owner_id");
        }
        Self { inner: EqualsCriteria { field: String::from_str("owner_id"), val: Value::Integer(val) } }
    }
}

impl Query for PunchByOwnerId {
    closed spec fn predicate(&self) -> Predicate {
        self.inner.predicate()
    }

    fn build(&self) -> (r: (String, Vec<Value>)) {
        self.inner.build()
    }
}

} // verus!
