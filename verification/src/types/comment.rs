//! Comments: a text that belongs to a user and refers to a note.

use vstd::prelude::*;
use vstd::string::*;
use vstd::std_specs::convert::TryFromSpecImpl;
use crate::criteria::{ContainsCriteria, Criteria, EqualsCriteria, Predicate, Query};
use crate::error::ValidationError;
use crate::record::{
    check_owner, column_names, integer_column, present_column_list, present_placeholder_list,
    text_column, values_of, Column, ColumnView, DataObject, RequestObject, Requirement,
};
use crate::outside::parse_i64;
use crate::text::{comma, decimal_i64};
use crate::value::{integer_view, text_view, Value, ValueView};

verus! {

/// A persisted comment.
#[derive(Debug, PartialEq, Eq)]
pub struct Comment {
    pub id: i64,
    pub owner_id: i64,
    pub note_id: i64,
    pub contents: String,
}

impl Clone for Comment {
    fn clone(&self) -> (r: Self)
        ensures
            r == *self,
    {
        Comment {
            id: self.id,
            owner_id: self.owner_id,
            note_id: self.note_id,
            contents: self.contents.clone(),
        }
    }
}

impl DataObject for Comment {
    open spec fn spec_table_name() -> Seq<char> {
        "comments"@
    }

    open spec fn spec_columns() -> Seq<Seq<char>> {
        seq!["id"@, "owner_id"@, "note_id"@, "contents"@]
    }

    open spec fn spec_id_col() -> Seq<char> {
        "id"@
    }

    open spec fn spec_owner_id_col() -> Seq<char> {
        "owner_id"@
    }

    open spec fn row(&self) -> Seq<ValueView> {
        seq![
            ValueView::Integer(self.id as int),
            ValueView::Integer(self.owner_id as int),
            ValueView::Integer(self.note_id as int),
            ValueView::Text(self.contents@),
        ]
    }

    open spec fn fits(row: Seq<ValueView>) -> bool {
        &&& row.len() == 4
        &&& row[0] is Integer
        &&& row[1] is Integer
        &&& row[2] is Integer
        &&& row[3] is Text
    }

    fn table_name() -> (r: String) {
        String::from_str("comments")
    }

    fn sql_cols() -> (r: String) {
        proof {
            reveal_strlit("id,owner_id,note_id,contents");
            reveal_strlit("id");
            reveal_strlit("owner_id");
            reveal_strlit("note_id");
            reveal_strlit("contents");
            reveal_with_fuel(crate::text::join, 5);
            assert("id,owner_id,note_id,contents"@ =~= crate::text::join(
                Self::spec_columns(),
                comma(),
            ));
        }
        String::from_str("id,owner_id,note_id,contents")
    }

    fn id_col() -> (r: String) {
        String::from_str("id")
    }

    fn owner_id_col() -> (r: String) {
        String::from_str("owner_id")
    }

    fn from_row(row: &Vec<Value>) -> (r: Option<Self>) {
        if row.len() != 4 {
            return None;
        }
        match (&row[0], &row[1], &row[2], &row[3]) {
            (
                Value::Integer(id),
                Value::Integer(owner_id),
                Value::Integer(note_id),
                Value::Text(contents),
            ) => {
                let comment = Comment {
                    id: *id,
                    owner_id: *owner_id,
                    note_id: *note_id,
                    contents: contents.clone(),
                };
                assert(comment.row() =~= row.deep_view());
                Some(comment)
            },
            _ => None,
        }
    }

    fn bind(&self) -> (r: Vec<Value>) {
        let mut values: Vec<Value> = Vec::new();
        values.push(Value::Integer(self.id));
        values.push(Value::Integer(self.owner_id));
        values.push(Value::Integer(self.note_id));
        values.push(Value::Text(self.contents.clone()));
        assert(values.deep_view() =~= self.row());
        values
    }

    proof fn lemma_descriptor() {
        reveal_strlit("comments");
        reveal_strlit("id");
        reveal_strlit("owner_id");
        reveal_strlit("note_id");
        reveal_strlit("contents");
    }
}

/// The shape of a request that creates or updates a comment.
#[derive(Debug)]
pub struct RequestComment {
    pub id: Option<i64>,
    pub owner_id: Option<i64>,
    pub note_id: Option<i64>,
    pub contents: Option<String>,
}

impl Clone for RequestComment {
    fn clone(&self) -> (r: Self)
        ensures
            r == *self,
    {
        RequestComment {
            id: self.id,
            owner_id: self.owner_id,
            note_id: self.note_id,
            contents: match &self.contents {
                Some(s) => Some(s.clone()),
                None => None,
            },
        }
    }
}

impl RequestComment {
    /// All columns of the shape, each with the value that the request carries.
    pub fn column_list(&self) -> (r: Vec<Column>)
        ensures
            r.deep_view() == self.columns(),
    {
        let mut columns: Vec<Column> = Vec::new();
        columns.push(integer_column("id", self.id));
        columns.push(integer_column("owner_id", self.owner_id));
        columns.push(integer_column("note_id", self.note_id));
        columns.push(text_column("contents", &self.contents));
        assert(columns.deep_view() =~= self.columns());
        columns
    }
}

impl RequestObject for RequestComment {
    open spec fn columns(&self) -> Seq<ColumnView> {
        seq![
            ColumnView { name: "id"@, value: integer_view(self.id) },
            ColumnView { name: "owner_id"@, value: integer_view(self.owner_id) },
            ColumnView { name: "note_id"@, value: integer_view(self.note_id) },
            ColumnView { name: "contents"@, value: text_view(self.contents) },
        ]
    }

    open spec fn spec_id(&self) -> Option<i64> {
        self.id
    }

    open spec fn spec_owner_id(&self) -> Option<i64> {
        self.owner_id
    }

    open spec fn owned() -> bool {
        true
    }

    open spec fn required(&self) -> Seq<Requirement> {
        seq![
            Requirement { name: "contents"@, present: self.contents is Some },
            Requirement { name: "note_id"@, present: self.note_id is Some },
        ]
    }

    fn validate_create(&self, owner_id: Option<i64>) -> (r: Result<(), ValidationError>) {
        proof {
            reveal_with_fuel(crate::record::first_missing_from, 3);
        }
        match check_owner(true, self.owner_id, owner_id) {
            Err(e) => {
                return Err(e);
            },
            Ok(_) => {},
        }
        if self.contents.is_none() {
            return Err(ValidationError::MissingRequiredOnCreate(String::from_str("contents")));
        }
        if self.note_id.is_none() {
            return Err(ValidationError::MissingRequiredOnCreate(String::from_str("note_id")));
        }
        if self.id.is_some() {
            return Err(ValidationError::IdProvidedOnCreate);
        }
        Ok(())
    }

    fn validate_update(&self, owner_id: Option<i64>) -> (r: Result<(), ValidationError>) {
        match check_owner(false, self.owner_id, owner_id) {
            Err(e) => {
                return Err(e);
            },
            Ok(_) => {},
        }
        match self.id {
            Some(_) => Ok(()),
            None => Err(ValidationError::MissingIdOnUpdate),
        }
    }

    fn sql_cols(&self) -> (r: String) {
        present_column_list(&self.column_list())
    }

    fn sql_placeholders(&self) -> (r: String) {
        present_placeholder_list(&self.column_list())
    }

    fn id(&self) -> (r: Option<i64>) {
        self.id
    }

    fn owner_id(&self) -> (r: Option<i64>) {
        self.owner_id
    }

    fn bind(&self) -> (r: Vec<Value>) {
        values_of(&self.column_list())
    }

    proof fn lemma_columns_plain(&self) {
        reveal_strlit("id");
        reveal_strlit("owner_id");
        reveal_strlit("note_id");
        reveal_strlit("contents");
    }
}

/// The request shape of a comment is the projection of a comment: it has the columns
/// of the record in the same order, its first column carries the id, and the
/// column of the owner carries the owner.
pub proof fn lemma_comment_request_shape(request: RequestComment)
    ensures
        column_names(request.columns()) == Comment::spec_columns(),
        request.columns()[0].name == Comment::spec_id_col(),
        request.columns()[0].value == integer_view(request.spec_id()),
        request.columns()[1].name == Comment::spec_owner_id_col(),
        request.columns()[1].value == integer_view(request.spec_owner_id()),
{
    assert(column_names(request.columns()) =~= Comment::spec_columns());
}

/// The filter that the key `key` with the value `val` selects for comments:
/// `byContentsContains` the comments whose contents contain `val`, `byOwnerId`
/// and `byNoteId` the comments of the owner, or on the note, that `val` writes
/// in decimal notation. Any other key, and an id that is no number, selects
/// none.
pub open spec fn comment_filter(key: Seq<char>, val: Seq<char>) -> Option<Predicate> {
    if key == "byContentsContains"@ {
        Some(Predicate::Contains { field: "contents"@, needle: val })
    } else if key == "byOwnerId"@ {
        match decimal_i64(val) {
            Some(id) => Some(
                Predicate::Equals { field: "owner_id"@, value: ValueView::Integer(id as int) },
            ),
            None => None,
        }
    } else if key == "byNoteId"@ {
        match decimal_i64(val) {
            Some(id) => Some(
                Predicate::Equals { field: "note_id"@, value: ValueView::Integer(id as int) },
            ),
            None => None,
        }
    } else {
        None
    }
}

/// No filter of comments names a column with a placeholder in it.
pub proof fn lemma_comment_filter_plain(key: Seq<char>, val: Seq<char>)
    ensures
        comment_filter(key, val) matches Some(p) ==> p.plain(),
{
    reveal_strlit("contents");
    reveal_strlit("owner_id");
    reveal_strlit("note_id");
}

/// A filter of comments.
#[derive(Debug)]
pub enum CommentQuery {
    ByContentsContains(CommentContentsContains),
    ByOwnerId(CommentByOwnerId),
    ByNoteId(CommentByNoteId),
}

impl Query for CommentQuery {
    open spec fn predicate(&self) -> Predicate {
        match self {
            CommentQuery::ByContentsContains(inner) => inner.predicate(),
            CommentQuery::ByOwnerId(inner) => inner.predicate(),
            CommentQuery::ByNoteId(inner) => inner.predicate(),
        }
    }

    fn build(&self) -> (r: (String, Vec<Value>)) {
        match self {
            CommentQuery::ByContentsContains(inner) => inner.build(),
            CommentQuery::ByOwnerId(inner) => inner.build(),
            CommentQuery::ByNoteId(inner) => inner.build(),
        }
    }
}

impl TryFrom<(&String, &String)> for CommentQuery {
    type Error = ();

    /// The filter that a key and its value select; an error where they select
    /// none.
    fn try_from(pair: (&String, &String)) -> (r: Result<Self, ()>)
        ensures
            match r {
                Ok(q) => comment_filter(pair.0@, pair.1@) == Some(q.predicate()),
                Err(_) => comment_filter(pair.0@, pair.1@) is None,
            },
    {
        let (q, v) = pair;
        if *q == String::from_str("byContentsContains") {
            Ok(CommentQuery::ByContentsContains(CommentContentsContains::new(v.clone())))
        } else if *q == String::from_str("byOwnerId") {
            match parse_i64(v.as_str()) {
                Some(id) => Ok(CommentQuery::ByOwnerId(CommentByOwnerId::new(id))),
                None => Err(()),
            }
        } else if *q == String::from_str("byNoteId") {
            match parse_i64(v.as_str()) {
                Some(id) => Ok(CommentQuery::ByNoteId(CommentByNoteId::new(id))),
                None => Err(()),
            }
        } else {
            Err(())
        }
    }
}

impl TryFromSpecImpl<(&String, &String)> for CommentQuery {
    /// Two filters are the same where they apply the same predicate, which
    /// equality of values does not express: the conversion is specified by
    /// the contract of `try_from`, not by a value.
    open spec fn obeys_try_from_spec() -> bool {
        false
    }

    open spec fn try_from_spec(pair: (&String, &String)) -> Result<Self, ()> {
        arbitrary()
    }
}

/// The comments on one note.
#[derive(Debug)]
pub struct CommentByNoteId {
    inner: EqualsCriteria,
}

impl CommentByNoteId {
    pub fn new(val: i64) -> (r: Self)
        ensures
            r.predicate() == (Predicate::Equals {
                field: "note_id"@,
                value: ValueView::Integer(val as int),
            }),
            r.predicate().plain(),
    {
        proof {
            reveal_strlit("note_id");
        }
        Self { inner: EqualsCriteria { field: String::from_str("note_id"), val: Value::Integer(val) } }
    }
}

impl Query for CommentByNoteId {
    closed spec fn predicate(&self) -> Predicate {
        self.inner.predicate()
    }

    fn build(&self) -> (r: (String, Vec<Value>)) {
        self.inner.build()
    }
}

/// The comments of one owner.
#[derive(Debug)]
pub struct CommentByOwnerId {
    inner: EqualsCriteria,
}

impl CommentByOwnerId {
    pub fn new(val: i64) -> (r: Self)
        ensures
            r.predicate() == (Predicate::Equals {
                field: "owner_id"@,
                value: ValueView::Integer(val as int),
            }),
            r.predicate().plain(),
    {
        proof {
            reveal_strlit("owner_id");
        }
        Self { inner: EqualsCriteria { field: String::from_str("owner_id"), val: Value::Integer(val) } }
    }
}

impl Query for CommentByOwnerId {
    closed spec fn predicate(&self) -> Predicate {
        self.inner.predicate()
    }

    fn build(&self) -> (r: (String, Vec<Value>)) {
        self.inner.build()
    }
}

/// The comments whose contents contain a text.
#[derive(Debug)]
pub struct CommentContentsContains {
    inner: ContainsCriteria,
}

impl CommentContentsContains {
    pub fn new(val: String) -> (r: Self)
        ensures
            r.predicate() == (Predicate::Contains { field: "contents"@, needle: val@ }),
            r.predicate().plain(),
    {
        proof {
            reveal_strlit("contents");
        }
        Self { inner: ContainsCriteria { field: String::from_str("contents"), val } }
    }
}

impl Query for CommentContentsContains {
    closed spec fn predicate(&self) -> Predicate {
        self.inner.predicate()
    }

    fn build(&self) -> (r: (String, Vec<Value>)) {
        self.inner.build()
    }
}

} // verus!
