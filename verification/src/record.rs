//! What a record kind must supply for the generic store to work on it: the
//! descriptor of the persisted record, the descriptor of the request shape, and
//! the rules by which a request shape is validated.

use vstd::prelude::*;
use vstd::string::*;
use crate::error::{verdict, ValidationError, ValidationErrorView};
use crate::outside::{i64_text, i64_to_string};
use crate::text::{all_plain, comma, is_plain, join, join_strings, placeholder_list, placeholders};
use crate::value::{integer_view, text_view, Value, ValueView};

verus! {

/// One column of a request shape: its name, and the value the request carries
/// for it, if it carries one.
pub struct ColumnView {
    pub name: Seq<char>,
    pub value: Option<ValueView>,
}

/// One column of a request shape.
pub struct Column {
    pub name: &'static str,
    pub value: Option<Value>,
}

impl DeepView for Column {
    type V = ColumnView;

    open spec fn deep_view(&self) -> ColumnView {
        ColumnView {
            name: self.name@,
            value: match self.value {
                Some(v) => Some(v@),
                None => None,
            },
        }
    }
}

/// A column of integers with the value `value`, if any.
pub fn integer_column(name: &'static str, value: Option<i64>) -> (r: Column)
    ensures
        r.deep_view() == (ColumnView { name: name@, value: integer_view(value) }),
{
    Column {
        name,
        value: match value {
            Some(i) => Some(Value::Integer(i)),
            None => None,
        },
    }
}

/// A column of texts with the value `value`, if any.
pub fn text_column(name: &'static str, value: &Option<String>) -> (r: Column)
    ensures
        r.deep_view() == (ColumnView { name: name@, value: text_view(*value) }),
{
    Column {
        name,
        value: match value {
            Some(s) => Some(Value::Text(s.clone())),
            None => None,
        },
    }
}

/// The names of the columns that carry a value, in the order of `columns`.
pub open spec fn present_names(columns: Seq<ColumnView>) -> Seq<Seq<char>>
    decreases columns.len(),
{
    if columns.len() == 0 {
        Seq::empty()
    } else if columns.last().value is Some {
        present_names(columns.drop_last()).push(columns.last().name)
    } else {
        present_names(columns.drop_last())
    }
}

/// The values that the columns carry, in the order of `columns`.
pub open spec fn present_values(columns: Seq<ColumnView>) -> Seq<ValueView>
    decreases columns.len(),
{
    if columns.len() == 0 {
        Seq::empty()
    } else if columns.last().value is Some {
        present_values(columns.drop_last()).push(columns.last().value->0)
    } else {
        present_values(columns.drop_last())
    }
}

/// The names of all columns, in the order of `columns`.
pub open spec fn column_names(columns: Seq<ColumnView>) -> Seq<Seq<char>> {
    columns.map_values(|c: ColumnView| c.name)
}

/// No column name holds a placeholder.
pub open spec fn plain_names(columns: Seq<ColumnView>) -> bool {
    forall|i: int| 0 <= i < columns.len() ==> is_plain(#[trigger] columns[i].name)
}

/// As many names are present as values, and the present names of plain columns
/// are plain.
pub proof fn lemma_present(columns: Seq<ColumnView>)
    ensures
        present_names(columns).len() == present_values(columns).len(),
        present_names(columns).len() <= columns.len(),
        plain_names(columns) ==> all_plain(present_names(columns)),
    decreases columns.len(),
{
    if columns.len() > 0 {
        lemma_present(columns.drop_last());
        if plain_names(columns) {
            assert forall|i: int| 0 <= i < columns.drop_last().len() implies is_plain(
                #[trigger] columns.drop_last()[i].name,
            ) by {
                assert(columns.drop_last()[i] == columns[i]);
            }
            assert(is_plain(columns[columns.len() - 1].name));
        }
    }
}

/// The names of the columns that carry a value, in order.
pub fn names_of(columns: &Vec<Column>) -> (r: Vec<String>)
    ensures
        r.deep_view() == present_names(columns.deep_view()),
{
    let mut out: Vec<String> = Vec::new();
    let mut i: usize = 0;
    while i < columns.len()
        invariant
            i <= columns.len(),
            out.deep_view() == present_names(columns.deep_view().take(i as int)),
        decreases columns.len() - i,
    {
        let ghost before = out.deep_view();
        assert(columns.deep_view().take(i + 1).drop_last() =~= columns.deep_view().take(i as int));
        assert(columns.deep_view().take(i + 1).last() == columns[i as int].deep_view());
        if columns[i].value.is_some() {
            out.push(String::from_str(columns[i].name));
            assert(out.deep_view() =~= before.push(columns[i as int].name@));
        }
        i += 1;
    }
    assert(columns.deep_view().take(columns.len() as int) =~= columns.deep_view());
    out
}

/// The values that the columns carry, in order.
pub fn values_of(columns: &Vec<Column>) -> (r: Vec<Value>)
    ensures
        r.deep_view() == present_values(columns.deep_view()),
{
    let mut out: Vec<Value> = Vec::new();
    let mut i: usize = 0;
    while i < columns.len()
        invariant
            i <= columns.len(),
            out.deep_view() == present_values(columns.deep_view().take(i as int)),
        decreases columns.len() - i,
    {
        let ghost before = out.deep_view();
        assert(columns.deep_view().take(i + 1).drop_last() =~= columns.deep_view().take(i as int));
        assert(columns.deep_view().take(i + 1).last() == columns[i as int].deep_view());
        match &columns[i].value {
            Some(v) => {
                out.push(v.clone());
                assert(out.deep_view() =~= before.push(v@));
            },
            None => {},
        }
        i += 1;
    }
    assert(columns.deep_view().take(columns.len() as int) =~= columns.deep_view());
    out
}

/// The comma-separated names of the columns that carry a value.
pub fn present_column_list(columns: &Vec<Column>) -> (r: String)
    ensures
        r@ == join(present_names(columns.deep_view()), comma()),
{
    let names = names_of(columns);
    proof {
        reveal_strlit(",");
        assert(","@ =~= comma());
    }
    join_strings(&names, ",")
}

/// One placeholder for each column that carries a value, comma-separated.
pub fn present_placeholder_list(columns: &Vec<Column>) -> (r: String)
    ensures
        r@ == placeholder_list(present_names(columns.deep_view()).len()),
{
    let names = names_of(columns);
    placeholders(names.len())
}

/// A field that a create requires, and whether the request carries it.
pub struct Requirement {
    pub name: Seq<char>,
    pub present: bool,
}

/// The name of the first requirement from index `from` on that is not met.
pub open spec fn first_missing_from(required: Seq<Requirement>, from: int) -> Option<Seq<char>>
    decreases required.len() - from,
{
    if from < 0 || from >= required.len() {
        None
    } else if !required[from].present {
        Some(required[from].name)
    } else {
        first_missing_from(required, from + 1)
    }
}

/// The name of the first requirement that is not met.
pub open spec fn first_missing(required: Seq<Requirement>) -> Option<Seq<char>> {
    first_missing_from(required, 0)
}

/// Every requirement is met.
pub open spec fn all_present(required: Seq<Requirement>) -> bool {
    forall|i: int| 0 <= i < required.len() ==> (#[trigger] required[i]).present
}

/// The request asserts an owner, the caller's identity is known, and the two
/// differ.
pub open spec fn owner_conflict(owner: Option<i64>, asserted: Option<i64>) -> bool {
    owner is Some && asserted is Some && owner->0 != asserted->0
}

/// The name under which a missing owner is reported.
pub open spec fn owner_field() -> Seq<char> {
    "owner_id"@
}

/// The text of an owner mismatch, which names both values: first the owner that
/// the request's data asserts, then the caller's identity.
pub open spec fn mismatch_detail(data_owner: i64, asserted: i64) -> Seq<char> {
    "request header owner_id ("@ + i64_text(data_owner) + ") does not match data owner_id ("@
        + i64_text(asserted) + ")"@
}

/// The rule for a create. `owned` says whether the kind has an owner column of
/// its own; `owner` is the owner that the request asserts (for a kind that owns
/// itself, its id); `asserted` is the caller's identity, if known; `required`
/// lists the other required fields in the order they are checked.
///
/// In this order: an owner that conflicts with the caller's identity is an
/// owner mismatch; an owned kind without an owner lacks `owner_id`; the first
/// required field that is absent is reported; an id must not be there.
pub open spec fn create_rule(
    owned: bool,
    owner: Option<i64>,
    asserted: Option<i64>,
    required: Seq<Requirement>,
    id: Option<i64>,
) -> Result<(), ValidationErrorView> {
    if owner_conflict(owner, asserted) {
        Err(ValidationErrorView::InvalidOwnerId(mismatch_detail(owner->0, asserted->0)))
    } else if owned && owner is None {
        Err(ValidationErrorView::MissingRequiredOnCreate(owner_field()))
    } else if first_missing(required) is Some {
        Err(ValidationErrorView::MissingRequiredOnCreate(first_missing(required)->0))
    } else if id is Some {
        Err(ValidationErrorView::IdProvidedOnCreate)
    } else {
        Ok(())
    }
}

/// The rule for an update: `owner` is the owner that the request asserts
/// (for a kind that owns itself, its id), `asserted` the caller's identity, if
/// known, and `id` the id that the request carries.
///
/// In this order: an owner that conflicts with the caller's identity is an
/// owner mismatch; the id must be there. Nothing else is asked of an update:
/// it may carry any of the other fields or none, and an owner that is absent
/// is no fault of the request.
pub open spec fn update_rule(
    owner: Option<i64>,
    asserted: Option<i64>,
    id: Option<i64>,
) -> Result<(), ValidationErrorView> {
    if owner_conflict(owner, asserted) {
        Err(ValidationErrorView::InvalidOwnerId(mismatch_detail(owner->0, asserted->0)))
    } else if id is None {
        Err(ValidationErrorView::MissingIdOnUpdate)
    } else {
        Ok(())
    }
}

/// The first missing requirement, if there is one, is a requirement that is not
/// met, and every requirement before it is met; there is none exactly if all
/// are met.
pub proof fn lemma_first_missing(required: Seq<Requirement>, from: int)
    requires
        0 <= from <= required.len(),
    ensures
        first_missing_from(required, from) is None <==> (forall|j: int|
            from <= j < required.len() ==> (#[trigger] required[j]).present),
        first_missing_from(required, from) is Some ==> exists|i: int|
            from <= i < required.len() && !(#[trigger] required[i]).present && required[i].name
                == first_missing_from(required, from)->0 && (forall|j: int|
                from <= j < i ==> (#[trigger] required[j]).present),
    decreases required.len() - from,
{
    if from < required.len() {
        lemma_first_missing(required, from + 1);
        if required[from].present {
            if first_missing_from(required, from) is Some {
                let i = choose|i: int|
                    from + 1 <= i < required.len() && !(#[trigger] required[i]).present
                        && required[i].name == first_missing_from(required, from + 1)->0
                        && (forall|j: int| from + 1 <= j < i ==> (#[trigger] required[j]).present);
                assert(forall|j: int| from <= j < i ==> (#[trigger] required[j]).present);
            }
        } else {
            assert(!required[from].present);
        }
    }
}

/// A create that lacks a required field fails and names the first such field
/// in the order of the checks, provided that the owner it asserts does not
/// conflict with the caller's identity. With one field missing, that is the
/// field.
pub proof fn lemma_create_names_missing_field(
    owned: bool,
    owner: Option<i64>,
    asserted: Option<i64>,
    required: Seq<Requirement>,
    id: Option<i64>,
    i: int,
)
    requires
        !owner_conflict(owner, asserted),
        owned ==> owner is Some,
        0 <= i < required.len(),
        !required[i].present,
        forall|j: int| 0 <= j < i ==> (#[trigger] required[j]).present,
    ensures
        create_rule(owned, owner, asserted, required, id) == Err::<(), ValidationErrorView>(
            ValidationErrorView::MissingRequiredOnCreate(required[i].name),
        ),
{
    lemma_first_missing(required, 0);
    let k = choose|k: int|
        0 <= k < required.len() && !(#[trigger] required[k]).present && required[k].name
            == first_missing_from(required, 0)->0 && (forall|j: int|
            0 <= j < k ==> (#[trigger] required[j]).present);
    assert(k == i) by {
        if k < i {
            assert(required[k].present);
        }
        if i < k {
            assert(required[i].present);
        }
    }
}

/// A create of an owned kind that asserts no owner fails and names `owner_id`.
pub proof fn lemma_create_names_missing_owner(
    asserted: Option<i64>,
    required: Seq<Requirement>,
    id: Option<i64>,
)
    ensures
        create_rule(true, None, asserted, required, id) == Err::<(), ValidationErrorView>(
            ValidationErrorView::MissingRequiredOnCreate(owner_field()),
        ),
{
}

/// A create succeeds exactly if every required field is there, the id is not,
/// and the owner it asserts does not conflict with the caller's identity.
pub proof fn lemma_create_accepts(
    owned: bool,
    owner: Option<i64>,
    asserted: Option<i64>,
    required: Seq<Requirement>,
    id: Option<i64>,
)
    ensures
        create_rule(owned, owner, asserted, required, id) is Ok <==> (!owner_conflict(
            owner,
            asserted,
        ) && (owned ==> owner is Some) && all_present(required) && id is None),
{
    lemma_first_missing(required, 0);
}

/// What passes validation is owned by the caller: where the caller's identity
/// is known, a create or an update that is accepted asserts no other owner,
/// and a create of an owned kind asserts exactly the caller.
pub proof fn lemma_accepted_owner_is_caller(
    owned: bool,
    owner: Option<i64>,
    caller: i64,
    required: Seq<Requirement>,
    id: Option<i64>,
)
    ensures
        create_rule(owned, owner, Some(caller), required, id) is Ok ==> (owner is Some ==> owner
            == Some(caller)) && (owned ==> owner == Some(caller)),
        update_rule(owner, Some(caller), id) is Ok ==> (owner is Some ==> owner == Some(caller)),
{
}

/// An update without an id fails with the missing-id error, whatever else it
/// carries and whoever the caller is, with one exception: where the owner it
/// asserts conflicts with the caller's identity, the owner mismatch is
/// reported.
pub proof fn lemma_update_requires_id(owner: Option<i64>, asserted: Option<i64>)
    requires
        !owner_conflict(owner, asserted),
    ensures
        update_rule(owner, asserted, None) == Err::<(), ValidationErrorView>(
            ValidationErrorView::MissingIdOnUpdate,
        ),
{
}

/// An update that asserts no owner, or whose caller is not known, and that
/// carries no id fails with the missing-id error.
pub proof fn lemma_update_requires_id_without_owner_or_caller(
    owner: Option<i64>,
    asserted: Option<i64>,
)
    ensures
        update_rule(None, asserted, None) == Err::<(), ValidationErrorView>(
            ValidationErrorView::MissingIdOnUpdate,
        ),
        update_rule(owner, None, None) == Err::<(), ValidationErrorView>(
            ValidationErrorView::MissingIdOnUpdate,
        ),
{
}

/// An update succeeds exactly if the id is there and the owner it asserts
/// does not conflict with the caller's identity.
pub proof fn lemma_update_accepts(owner: Option<i64>, asserted: Option<i64>, id: Option<i64>)
    ensures
        update_rule(owner, asserted, id) is Ok <==> (!owner_conflict(owner, asserted) && id
            is Some),
{
}

/// Where the caller's identity `a` and the owner `b` that the request asserts
/// differ, both create and update fail with an owner mismatch that names both
/// values, whatever else the request carries.
pub proof fn lemma_owner_mismatch_rejected(
    owned: bool,
    a: i64,
    b: i64,
    required: Seq<Requirement>,
    id: Option<i64>,
)
    requires
        a != b,
    ensures
        create_rule(owned, Some(b), Some(a), required, id) == Err::<(), ValidationErrorView>(
            ValidationErrorView::InvalidOwnerId(mismatch_detail(b, a)),
        ),
        update_rule(Some(b), Some(a), id) == Err::<(), ValidationErrorView>(
            ValidationErrorView::InvalidOwnerId(mismatch_detail(b, a)),
        ),
{
}

/// Where the caller's identity is not known, the owner that the request
/// asserts is accepted: the request is judged as if the caller were that
/// owner, and never fails with an owner mismatch.
pub proof fn lemma_unknown_caller_accepts_owner(
    owned: bool,
    b: i64,
    required: Seq<Requirement>,
    id: Option<i64>,
)
    ensures
        create_rule(owned, Some(b), None, required, id) == create_rule(
            owned,
            Some(b),
            Some(b),
            required,
            id,
        ),
        update_rule(Some(b), None, id) == update_rule(Some(b), Some(b), id),
        !(create_rule(owned, Some(b), None, required, id) matches Err(
            ValidationErrorView::InvalidOwnerId(_),
        )),
        !(update_rule(Some(b), None, id) matches Err(ValidationErrorView::InvalidOwnerId(_))),
        all_present(required) && id is None ==> create_rule(owned, Some(b), None, required, id)
            is Ok,
        id is Some ==> update_rule(Some(b), None, id) is Ok,
{
    lemma_first_missing(required, 0);
}

/// Checks the owner that a request asserts against the caller's identity, the
/// first step of both rules. `required` says whether the owner must be there:
/// it must for a create of an owned kind, and for nothing else.
pub fn check_owner(required: bool, owner: Option<i64>, asserted: Option<i64>) -> (r: Result<
    (),
    ValidationError,
>)
    ensures
        verdict(r) == (if owner_conflict(owner, asserted) {
            Err::<(), ValidationErrorView>(
                ValidationErrorView::InvalidOwnerId(mismatch_detail(owner->0, asserted->0)),
            )
        } else if required && owner is None {
            Err::<(), ValidationErrorView>(
                ValidationErrorView::MissingRequiredOnCreate(owner_field()),
            )
        } else {
            Ok::<(), ValidationErrorView>(())
        }),
{
    match owner {
        Some(request_data_owner_id) => match asserted {
            Some(owner_id) => {
                if owner_id != request_data_owner_id {
                    let mut detail = String::from_str("request header owner_id (");
                    detail.append(i64_to_string(request_data_owner_id).as_str());
                    detail.append(") does not match data owner_id (");
                    detail.append(i64_to_string(owner_id).as_str());
                    detail.append(")");
                    Err(ValidationError::InvalidOwnerId(detail))
                } else {
                    Ok(())
                }
            },
            None => Ok(()),
        },
        None => {
            if required {
                Err(ValidationError::MissingRequiredOnCreate(String::from_str("owner_id")))
            } else {
                Ok(())
            }
        },
    }
}

/// The descriptor of a persisted record kind.
pub trait DataObject: Sized {
    /// The name of the kind's table.
    spec fn spec_table_name() -> Seq<char>;

    /// The names of all columns, in the kind's fixed order.
    spec fn spec_columns() -> Seq<Seq<char>>;

    /// The name of the column that holds the id.
    spec fn spec_id_col() -> Seq<char>;

    /// The name of the column that holds the owner; for a kind that owns
    /// itself, the id column.
    spec fn spec_owner_id_col() -> Seq<char>;

    /// The record as a row: the values of its columns, in their fixed order.
    spec fn row(&self) -> Seq<ValueView>;

    /// Whether `row` has the columns of the kind, each with a value of the
    /// column's type.
    spec fn fits(row: Seq<ValueView>) -> bool;

    fn table_name() -> (r: String)
        ensures
            r@ == Self::spec_table_name(),
    ;

    /// The comma-separated list of all columns.
    fn sql_cols() -> (r: String)
        ensures
            r@ == join(Self::spec_columns(), comma()),
    ;

    fn id_col() -> (r: String)
        ensures
            r@ == Self::spec_id_col(),
    ;

    fn owner_id_col() -> (r: String)
        ensures
            r@ == Self::spec_owner_id_col(),
    ;

    /// Decodes one row; `None` exactly if the row does not fit the kind.
    fn from_row(row: &Vec<Value>) -> (r: Option<Self>)
        ensures
            r is Some <==> Self::fits(row.deep_view()),
            r matches Some(x) ==> x.row() == row.deep_view(),
    ;

    /// The values of all columns, in their fixed order.
    fn bind(&self) -> (r: Vec<Value>)
        ensures
            r.deep_view() == self.row(),
    ;

    /// No name of the descriptor holds a placeholder, and a row of the kind has
    /// one value for each column.
    proof fn lemma_descriptor()
        ensures
            is_plain(Self::spec_table_name()),
            all_plain(Self::spec_columns()),
            is_plain(Self::spec_id_col()),
            is_plain(Self::spec_owner_id_col()),
            forall|row: Seq<ValueView>| #[trigger] Self::fits(row) ==> row.len() == Self::spec_columns().len(),
    ;
}

/// Every row of `rows` fits the kind `T`.
pub open spec fn all_fit<T: DataObject>(rows: Seq<Vec<Value>>) -> bool {
    forall|i: int| 0 <= i < rows.len() ==> T::fits((#[trigger] rows[i]).deep_view())
}

/// Decodes the rows of a result, in order: one record for each row, and no
/// record for a result without rows. There is no list of records where a row
/// does not fit the kind.
pub fn from_rows<T: DataObject>(rows: &Vec<Vec<Value>>) -> (r: Option<Vec<T>>)
    ensures
        r is Some <==> all_fit::<T>(rows@),
        r matches Some(records) ==> records.len() == rows.len() && forall|i: int|
            0 <= i < records.len() ==> (#[trigger] records[i]).row() == rows[i].deep_view(),
{
    let mut out: Vec<T> = Vec::new();
    let mut i: usize = 0;
    while i < rows.len()
        invariant
            i <= rows.len(),
            out.len() == i,
            forall|k: int| 0 <= k < i ==> T::fits((#[trigger] rows[k]).deep_view()),
            forall|k: int| 0 <= k < i ==> (#[trigger] out[k]).row() == rows[k].deep_view(),
        decreases rows.len() - i,
    {
        let ghost before = out@;
        match T::from_row(&rows[i]) {
            Some(record) => {
                out.push(record);
                assert(forall|k: int| 0 <= k < i ==> out[k] == before[k]);
            },
            None => {
                assert(!T::fits(rows[i as int].deep_view()));
                return None;
            },
        }
        i += 1;
    }
    Some(out)
}

/// The descriptor of a request shape: the projection of a record kind in which
/// every field is optional, so that each request tells which columns take part
/// in a write.
pub trait RequestObject: Sized {
    /// All columns of the shape in the kind's fixed order, each with the value
    /// that the request carries for it.
    spec fn columns(&self) -> Seq<ColumnView>;

    /// The id that the request carries.
    spec fn spec_id(&self) -> Option<i64>;

    /// The owner that the request asserts; for a kind that owns itself, its id.
    spec fn spec_owner_id(&self) -> Option<i64>;

    /// Whether the kind has an owner column of its own.
    spec fn owned() -> bool;

    /// The fields that a create requires besides the owner, in the order they
    /// are checked, each with whether the request carries it.
    spec fn required(&self) -> Seq<Requirement>;

    /// Validates the request for a create on behalf of the caller `owner_id`.
    fn validate_create(&self, owner_id: Option<i64>) -> (r: Result<(), ValidationError>)
        ensures
            verdict(r) == create_rule(
                Self::owned(),
                self.spec_owner_id(),
                owner_id,
                self.required(),
                self.spec_id(),
            ),
    ;

    /// Validates the request for an update on behalf of the caller `owner_id`.
    fn validate_update(&self, owner_id: Option<i64>) -> (r: Result<(), ValidationError>)
        ensures
            verdict(r) == update_rule(self.spec_owner_id(), owner_id, self.spec_id()),
    ;

    /// The comma-separated names of the columns that the request carries.
    fn sql_cols(&self) -> (r: String)
        ensures
            r@ == join(present_names(self.columns()), comma()),
    ;

    /// One placeholder for each column that the request carries.
    fn sql_placeholders(&self) -> (r: String)
        ensures
            r@ == placeholder_list(present_names(self.columns()).len()),
    ;

    fn id(&self) -> (r: Option<i64>)
        ensures
            r == self.spec_id(),
    ;

    fn owner_id(&self) -> (r: Option<i64>)
        ensures
            r == self.spec_owner_id(),
    ;

    /// The values that the request carries, in the order of its columns: what
    /// is bound to the placeholders of `sql_placeholders`.
    fn bind(&self) -> (r: Vec<Value>)
        ensures
            r.deep_view() == present_values(self.columns()),
    ;

    /// No column name of the shape holds a placeholder.
    proof fn lemma_columns_plain(&self)
        ensures
            plain_names(self.columns()),
    ;
}

} // verus!
