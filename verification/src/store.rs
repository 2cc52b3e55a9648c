//! The generic store: the five operations on any record kind, each as the
//! statement that an engine is to run and as the reading of the rows that the
//! engine returns. Nothing here depends on the kind but through its
//! descriptors.

use vstd::prelude::*;
use vstd::string::*;
use crate::criteria::{all_plain_predicates, lemma_placeholders_match_values, Predicate, Query};
use crate::error::{StoreError, StoreResult};
use crate::record::{
    all_fit, from_rows, lemma_present, present_names, present_values, DataObject, RequestObject,
};
use crate::text::{
    comma, count_placeholders, is_plain, join, lemma_count_concat, lemma_join_plain,
    lemma_placeholder_list_count, lemma_plain_counts_zero, placeholder, placeholder_list,
};
use crate::value::{extend_values, Value, ValueView};

verus! {

/// A statement for the engine: its text, with a `?` for every value, and the
/// values to bind to the placeholders, the first value to the first one.
#[derive(Debug)]
pub struct Statement {
    pub sql: String,
    pub params: Vec<Value>,
}

impl Statement {
    /// The statement has exactly one value for each of its placeholders.
    pub open spec fn balanced(&self) -> bool {
        count_placeholders(self.sql@) == self.params.len()
    }
}

/// The filter that selects the record with a given id.
pub open spec fn id_filter(id_col: Seq<char>) -> Seq<char> {
    "("@ + id_col + " = ?)"@
}

/// The filter that selects the record with a given id and a given owner.
pub open spec fn id_owner_filter(id_col: Seq<char>, owner_col: Seq<char>) -> Seq<char> {
    "("@ + id_col + " = ? and "@ + owner_col + " = ?)"@
}

/// The text of the statement that inserts a row and asks for it back.
pub open spec fn insert_text(
    table: Seq<char>,
    columns: Seq<char>,
    marks: Seq<char>,
    returning: Seq<char>,
) -> Seq<char> {
    "INSERT INTO "@ + table + "("@ + columns + ") VALUES ("@ + marks + ") returning "@ + returning
}

/// The text of the statement that updates the rows that `filter` selects and
/// asks for them back.
pub open spec fn update_text(
    table: Seq<char>,
    columns: Seq<char>,
    marks: Seq<char>,
    filter: Seq<char>,
    returning: Seq<char>,
) -> Seq<char> {
    "UPDATE "@ + table + " SET ("@ + columns + ") = ("@ + marks + ") where "@ + filter
        + " returning "@ + returning
}

/// The text of the statement that selects every row of a table.
pub open spec fn select_text(table: Seq<char>) -> Seq<char> {
    "SELECT * FROM "@ + table
}

/// The text of the statement that deletes the rows that `filter` selects and
/// asks for them back.
pub open spec fn delete_text(table: Seq<char>, filter: Seq<char>, returning: Seq<char>) -> Seq<
    char,
> {
    "DELETE FROM "@ + table + " where "@ + filter + " returning "@ + returning
}

/// The fragments of the predicates, in order.
pub open spec fn fragments(predicates: Seq<Predicate>) -> Seq<Seq<char>> {
    predicates.map_values(|p: Predicate| p.fragment())
}

/// The values of the predicates: those of the first, then those of the second,
/// and so on.
pub open spec fn bound_values(predicates: Seq<Predicate>) -> Seq<ValueView>
    decreases predicates.len(),
{
    if predicates.len() == 0 {
        Seq::empty()
    } else {
        bound_values(predicates.drop_last()) + predicates.last().values()
    }
}

/// The clause that restricts a selection to the rows on which every predicate
/// holds; empty where there is no predicate.
pub open spec fn where_clause(predicates: Seq<Predicate>) -> Seq<char> {
    if predicates.len() == 0 {
        Seq::empty()
    } else {
        " where "@ + join(fragments(predicates), " and "@)
    }
}

/// The predicates of a list of filters, in order.
pub open spec fn predicates_of<Q: Query>(queries: Seq<Q>) -> Seq<Predicate> {
    queries.map_values(|q: Q| q.predicate())
}

/// Whether a kind owns itself: its owner column is its id column.
pub open spec fn self_owned<T: DataObject>() -> bool {
    T::spec_owner_id_col() == T::spec_id_col()
}

/// `st` creates the record that `data` describes in the table of `T`: an
/// insert of the columns that `data` carries, with their values bound in the
/// same order, that asks for the inserted row.
pub open spec fn creates<R: RequestObject, T: DataObject>(data: R, st: Statement) -> bool {
    &&& st.sql@ == insert_text(
        T::spec_table_name(),
        join(present_names(data.columns()), comma()),
        placeholder_list(present_names(data.columns()).len()),
        join(T::spec_columns(), comma()),
    )
    &&& st.params.deep_view() == present_values(data.columns())
    &&& st.balanced()
}

/// Whether `update` has a statement for `data`: the id is there and, for a
/// kind with an owner column of its own, the owner.
pub open spec fn can_update<R: RequestObject, T: DataObject>(data: R) -> bool {
    data.spec_id() is Some && (self_owned::<T>() || data.spec_owner_id() is Some)
}

/// `st` updates the record that `data` names in the table of `T`: an update
/// of the columns that `data` carries, on the row with the id of `data` and,
/// for a kind with an owner column of its own, with the owner of `data`, that
/// asks for the updated row. The values of the columns are bound first, then
/// the id, then the owner.
pub open spec fn updates<R: RequestObject, T: DataObject>(data: R, st: Statement) -> bool {
    &&& st.sql@ == update_text(
        T::spec_table_name(),
        join(present_names(data.columns()), comma()),
        placeholder_list(present_names(data.columns()).len()),
        if self_owned::<T>() {
            id_filter(T::spec_id_col())
        } else {
            id_owner_filter(T::spec_id_col(), T::spec_owner_id_col())
        },
        join(T::spec_columns(), comma()),
    )
    &&& st.params.deep_view() == present_values(data.columns()) + (if self_owned::<T>() {
        seq![ValueView::Integer(data.spec_id()->0 as int)]
    } else {
        seq![
            ValueView::Integer(data.spec_id()->0 as int),
            ValueView::Integer(data.spec_owner_id()->0 as int),
        ]
    })
    &&& st.balanced()
}

/// `st` selects the record of the kind `T` with the id `id`.
pub open spec fn selects_one<T: DataObject>(id: i64, st: Statement) -> bool {
    &&& st.sql@ == select_text(T::spec_table_name()) + " where "@ + id_filter(T::spec_id_col())
    &&& st.params.deep_view() == seq![ValueView::Integer(id as int)]
    &&& st.balanced()
}

/// `st` selects the records of the kind `T` on which every predicate of the
/// list holds: the fragments joined by `and` in the order of the list, the
/// values bound in that order. It is balanced where no column name of a
/// predicate holds a placeholder.
pub open spec fn selects<T: DataObject>(predicates: Seq<Predicate>, st: Statement) -> bool {
    &&& st.sql@ == select_text(T::spec_table_name()) + where_clause(predicates)
    &&& st.params.deep_view() == bound_values(predicates)
    &&& all_plain_predicates(predicates) ==> st.balanced()
}

/// Whether a delete on behalf of `owner_id` is restricted to the records of
/// that owner: the kind has an owner column of its own, and the caller's
/// identity is known.
pub open spec fn owner_scoped<T: DataObject>(owner_id: Option<i64>) -> bool {
    owner_id is Some && !self_owned::<T>()
}

/// `st` deletes the record of the kind `T` with the id `id`, of the owner
/// `owner_id` where the delete is owner-scoped, and asks for the deleted row.
pub open spec fn deletes<T: DataObject>(id: i64, owner_id: Option<i64>, st: Statement) -> bool {
    &&& st.sql@ == delete_text(
        T::spec_table_name(),
        if owner_scoped::<T>(owner_id) {
            id_owner_filter(T::spec_id_col(), T::spec_owner_id_col())
        } else {
            id_filter(T::spec_id_col())
        },
        join(T::spec_columns(), comma()),
    )
    &&& st.params.deep_view() == (if owner_scoped::<T>(owner_id) {
        seq![ValueView::Integer(id as int), ValueView::Integer(owner_id->0 as int)]
    } else {
        seq![ValueView::Integer(id as int)]
    })
    &&& st.balanced()
}

/// The fixed pieces of the statements hold no placeholder, but for the two
/// comparisons, which hold one each.
proof fn lemma_pieces()
    ensures
        is_plain("INSERT INTO "@),
        is_plain("("@),
        is_plain(") VALUES ("@),
        is_plain(") returning "@),
        is_plain("UPDATE "@),
        is_plain(" SET ("@),
        is_plain(") = ("@),
        is_plain(") where "@),
        is_plain(" returning "@),
        is_plain("SELECT * FROM "@),
        is_plain("DELETE FROM "@),
        is_plain(" where "@),
        is_plain(" and "@),
        is_plain(comma()),
        count_placeholders(" = ?)"@) == 1,
        count_placeholders(" = ? and "@) == 1,
{
    reveal_strlit("INSERT INTO ");
    reveal_strlit("(");
    reveal_strlit(") VALUES (");
    reveal_strlit(") returning ");
    reveal_strlit("UPDATE ");
    reveal_strlit(" SET (");
    reveal_strlit(") = (");
    reveal_strlit(") where ");
    reveal_strlit(" returning ");
    reveal_strlit("SELECT * FROM ");
    reveal_strlit("DELETE FROM ");
    reveal_strlit(" where ");
    reveal_strlit(" and ");
    reveal_strlit(" = ?)");
    reveal_strlit(" = ? and ");
    let q = seq![placeholder()];
    assert(q.drop_last() =~= Seq::<char>::empty());
    assert(count_placeholders(q) == 1) by {
        assert(count_placeholders(q.drop_last()) == 0);
    }
    assert(" = ?)"@ =~= seq![' ', '=', ' '] + q + seq![')']);
    assert(" = ? and "@ =~= seq![' ', '=', ' '] + q + seq![' ', 'a', 'n', 'd', ' ']);
    lemma_plain_counts_zero(seq![' ', '=', ' ']);
    lemma_plain_counts_zero(seq![')']);
    lemma_plain_counts_zero(seq![' ', 'a', 'n', 'd', ' ']);
    lemma_count_concat(seq![' ', '=', ' '], q, placeholder());
    lemma_count_concat(seq![' ', '=', ' '] + q, seq![')'], placeholder());
    lemma_count_concat(seq![' ', '=', ' '] + q, seq![' ', 'a', 'n', 'd', ' '], placeholder());
}

/// Appending a text without placeholders adds none.
proof fn lemma_append_plain(a: Seq<char>, b: Seq<char>)
    requires
        is_plain(b),
    ensures
        count_placeholders(a + b) == count_placeholders(a),
{
    lemma_plain_counts_zero(b);
    lemma_count_concat(a, b, placeholder());
}

/// The filter by id holds one placeholder, the filter by id and owner two.
proof fn lemma_filters(id_col: Seq<char>, owner_col: Seq<char>)
    requires
        is_plain(id_col),
        is_plain(owner_col),
    ensures
        count_placeholders(id_filter(id_col)) == 1,
        count_placeholders(id_owner_filter(id_col, owner_col)) == 2,
{
    lemma_pieces();
    let q = placeholder();
    lemma_plain_counts_zero("("@);
    lemma_append_plain("("@, id_col);
    lemma_count_concat("("@ + id_col, " = ?)"@, q);
    lemma_count_concat("("@ + id_col, " = ? and "@, q);
    lemma_append_plain("("@ + id_col + " = ? and "@, owner_col);
    lemma_count_concat("("@ + id_col + " = ? and "@ + owner_col, " = ?)"@, q);
}

/// The `where` clause of plain predicates holds one placeholder for each value
/// that they bind.
proof fn lemma_where_clause(predicates: Seq<Predicate>)
    requires
        all_plain_predicates(predicates),
    ensures
        count_placeholders(join(fragments(predicates), " and "@)) == bound_values(
            predicates,
        ).len(),
        count_placeholders(where_clause(predicates)) == bound_values(predicates).len(),
    decreases predicates.len(),
{
    lemma_pieces();
    let q = placeholder();
    let sep = " and "@;
    if predicates.len() == 0 {
    } else {
        let last = predicates.last();
        let front = predicates.drop_last();
        assert(last.plain());
        lemma_placeholders_match_values(last);
        assert(fragments(predicates).last() == last.fragment());
        if predicates.len() == 1 {
            assert(front.len() == 0);
            assert(bound_values(front).len() == 0);
            assert(join(fragments(predicates), sep) == last.fragment());
        } else {
            assert forall|i: int| 0 <= i < front.len() implies (#[trigger] front[i]).plain() by {
                assert(front[i] == predicates[i]);
            }
            lemma_where_clause(front);
            assert(fragments(predicates).drop_last() =~= fragments(front));
            lemma_append_plain(join(fragments(front), sep), sep);
            lemma_count_concat(join(fragments(front), sep) + sep, last.fragment(), q);
        }
        lemma_plain_counts_zero(" where "@);
        lemma_count_concat(" where "@, join(fragments(predicates), sep), q);
    }
}

/// The statement that creates the record that `data` describes and asks for
/// the inserted row.
pub fn create<R: RequestObject, T: DataObject>(data: &R) -> (r: Statement)
    ensures
        creates::<R, T>(*data, r),
{
    let mut sql = String::from_str("INSERT INTO ");
    sql.append(T::table_name().as_str());
    sql.append("(");
    sql.append(data.sql_cols().as_str());
    sql.append(") VALUES (");
    sql.append(data.sql_placeholders().as_str());
    sql.append(") returning ");
    sql.append(T::sql_cols().as_str());
    let params = data.bind();
    proof {
        let table = T::spec_table_name();
        let columns = join(present_names(data.columns()), comma());
        let marks = placeholder_list(present_names(data.columns()).len());
        let returning = join(T::spec_columns(), comma());
        lemma_pieces();
        T::lemma_descriptor();
        data.lemma_columns_plain();
        lemma_present(data.columns());
        lemma_join_plain(present_names(data.columns()), comma());
        lemma_join_plain(T::spec_columns(), comma());
        lemma_placeholder_list_count(present_names(data.columns()).len());
        lemma_plain_counts_zero("INSERT INTO "@);
        lemma_append_plain("INSERT INTO "@, table);
        lemma_append_plain("INSERT INTO "@ + table, "("@);
        lemma_append_plain("INSERT INTO "@ + table + "("@, columns);
        lemma_append_plain("INSERT INTO "@ + table + "("@ + columns, ") VALUES ("@);
        lemma_count_concat(
            "INSERT INTO "@ + table + "("@ + columns + ") VALUES ("@,
            marks,
            placeholder(),
        );
        lemma_append_plain(
            "INSERT INTO "@ + table + "("@ + columns + ") VALUES ("@ + marks,
            ") returning "@,
        );
        lemma_append_plain(
            "INSERT INTO "@ + table + "("@ + columns + ") VALUES ("@ + marks + ") returning "@,
            returning,
        );
    }
    Statement { sql, params }
}

/// The statement that updates the record that `data` names, and asks for the
/// updated row. Without an id, or without an owner for a kind with an owner
/// column of its own, there is no statement and the update has failed.
pub fn update<R: RequestObject, T: DataObject>(data: &R) -> (r: StoreResult<Statement>)
    ensures
        match r {
            Ok(st) => can_update::<R, T>(*data) && updates::<R, T>(*data, st),
            Err(e) => e == StoreError::NotCreated && !can_update::<R, T>(*data),
        },
{
    let id = match data.id() {
        Some(id) => id,
        None => {
            return Err(StoreError::NotCreated);
        },
    };
    let id_col = T::id_col();
    let owner_col = T::owner_id_col();
    let scoped = !(owner_col == id_col);
    let mut sql = String::from_str("UPDATE ");
    sql.append(T::table_name().as_str());
    sql.append(" SET (");
    sql.append(data.sql_cols().as_str());
    sql.append(") = (");
    sql.append(data.sql_placeholders().as_str());
    sql.append(") where ");
    let ghost head = sql@;
    let mut params = data.bind();
    let ghost bound = params.deep_view();
    sql.append("(");
    sql.append(id_col.as_str());
    params.push(Value::Integer(id));
    if scoped {
        let owner_id = match data.owner_id() {
            Some(owner_id) => owner_id,
            None => {
                return Err(StoreError::NotCreated);
            },
        };
        sql.append(" = ? and ");
        sql.append(owner_col.as_str());
        params.push(Value::Integer(owner_id));
        assert(params.deep_view() =~= bound + seq![
            ValueView::Integer(id as int),
            ValueView::Integer(owner_id as int),
        ]);
    } else {
        assert(params.deep_view() =~= bound + seq![ValueView::Integer(id as int)]);
    }
    sql.append(" = ?)");
    let ghost filter = if self_owned::<T>() {
        id_filter(T::spec_id_col())
    } else {
        id_owner_filter(T::spec_id_col(), T::spec_owner_id_col())
    };
    assert(sql@ =~= head + filter);
    sql.append(" returning ");
    sql.append(T::sql_cols().as_str());
    proof {
        let table = T::spec_table_name();
        let columns = join(present_names(data.columns()), comma());
        let marks = placeholder_list(present_names(data.columns()).len());
        let returning = join(T::spec_columns(), comma());
        lemma_pieces();
        T::lemma_descriptor();
        data.lemma_columns_plain();
        lemma_present(data.columns());
        lemma_join_plain(present_names(data.columns()), comma());
        lemma_join_plain(T::spec_columns(), comma());
        lemma_placeholder_list_count(present_names(data.columns()).len());
        lemma_filters(T::spec_id_col(), T::spec_owner_id_col());
        lemma_plain_counts_zero("UPDATE "@);
        lemma_append_plain("UPDATE "@, table);
        lemma_append_plain("UPDATE "@ + table, " SET ("@);
        lemma_append_plain("UPDATE "@ + table + " SET ("@, columns);
        lemma_append_plain("UPDATE "@ + table + " SET ("@ + columns, ") = ("@);
        lemma_count_concat(
            "UPDATE "@ + table + " SET ("@ + columns + ") = ("@,
            marks,
            placeholder(),
        );
        lemma_append_plain(
            "UPDATE "@ + table + " SET ("@ + columns + ") = ("@ + marks,
            ") where "@,
        );
        lemma_count_concat(head, filter, placeholder());
        lemma_append_plain(head + filter, " returning "@);
        lemma_append_plain(head + filter + " returning "@, returning);
    }
    Ok(Statement { sql, params })
}

/// The statement that selects the record with the id `id`.
pub fn get<T: DataObject>(id: i64) -> (r: Statement)
    ensures
        selects_one::<T>(id, r),
{
    let mut sql = String::from_str("SELECT * FROM ");
    sql.append(T::table_name().as_str());
    sql.append(" where ");
    let ghost head = sql@;
    sql.append("(");
    sql.append(T::id_col().as_str());
    sql.append(" = ?)");
    assert(sql@ =~= head + id_filter(T::spec_id_col()));
    let mut params: Vec<Value> = Vec::new();
    params.push(Value::Integer(id));
    assert(params.deep_view() =~= seq![ValueView::Integer(id as int)]);
    proof {
        lemma_pieces();
        T::lemma_descriptor();
        lemma_filters(T::spec_id_col(), T::spec_owner_id_col());
        lemma_plain_counts_zero("SELECT * FROM "@);
        lemma_append_plain("SELECT * FROM "@, T::spec_table_name());
        lemma_append_plain("SELECT * FROM "@ + T::spec_table_name(), " where "@);
        lemma_count_concat(head, id_filter(T::spec_id_col()), placeholder());
    }
    Statement { sql, params }
}

/// The statement that selects the records on which every filter of `queries`
/// holds. Without a filter, it selects every record of the kind. No order of
/// the rows is asked for.
pub fn get_queries<T: DataObject, Q: Query>(queries: &Vec<Q>) -> (r: Statement)
    ensures
        selects::<T>(predicates_of(queries@), r),
{
    let ghost predicates = predicates_of(queries@);
    let mut clauses: Vec<String> = Vec::new();
    let mut params: Vec<Value> = Vec::new();
    let mut i: usize = 0;
    while i < queries.len()
        invariant
            i <= queries.len(),
            predicates == predicates_of(queries@),
            clauses.deep_view() == fragments(predicates.take(i as int)),
            params.deep_view() == bound_values(predicates.take(i as int)),
        decreases queries.len() - i,
    {
        let (clause, vals) = queries[i].build();
        let ghost before = clauses.deep_view();
        assert(predicates.take(i + 1).drop_last() =~= predicates.take(i as int));
        assert(predicates.take(i + 1).last() == queries[i as int].predicate());
        clauses.push(clause);
        assert(clauses.deep_view() =~= before.push(queries[i as int].predicate().fragment()));
        assert(clauses.deep_view() =~= fragments(predicates.take(i + 1)));
        extend_values(&mut params, &vals);
        i += 1;
    }
    assert(predicates.take(queries.len() as int) =~= predicates);
    let mut sql = String::from_str("SELECT * FROM ");
    sql.append(T::table_name().as_str());
    let ghost head = sql@;
    if clauses.len() > 0 {
        sql.append(" where ");
        sql.append(crate::text::join_strings(&clauses, " and ").as_str());
        assert(sql@ =~= head + where_clause(predicates));
    } else {
        assert(sql@ =~= head + where_clause(predicates));
    }
    proof {
        if all_plain_predicates(predicates) {
            lemma_pieces();
            T::lemma_descriptor();
            lemma_where_clause(predicates);
            lemma_plain_counts_zero("SELECT * FROM "@);
            lemma_append_plain("SELECT * FROM "@, T::spec_table_name());
            lemma_count_concat(head, where_clause(predicates), placeholder());
        }
    }
    Statement { sql, params }
}

/// The statement that deletes the record with the id `id` and asks for the
/// deleted row. Where the kind has an owner column of its own and the caller's
/// identity `owner_id` is known, only a record of that owner is deleted.
/// Otherwise the id alone decides: a kind that owns itself, and a caller whose
/// identity is not known, delete whatever has the id.
pub fn delete<T: DataObject>(id: i64, owner_id: Option<i64>) -> (r: Statement)
    ensures
        deletes::<T>(id, owner_id, r),
{
    let id_col = T::id_col();
    let owner_col = T::owner_id_col();
    let mut sql = String::from_str("DELETE FROM ");
    sql.append(T::table_name().as_str());
    sql.append(" where ");
    let ghost head = sql@;
    let mut params: Vec<Value> = Vec::new();
    sql.append("(");
    sql.append(id_col.as_str());
    params.push(Value::Integer(id));
    match owner_id {
        Some(owner_id) if !(owner_col == id_col) => {
            sql.append(" = ? and ");
            sql.append(owner_col.as_str());
            params.push(Value::Integer(owner_id));
            assert(params.deep_view() =~= seq![
                ValueView::Integer(id as int),
                ValueView::Integer(owner_id as int),
            ]);
        },
        _ => {
            assert(params.deep_view() =~= seq![ValueView::Integer(id as int)]);
        },
    }
    sql.append(" = ?)");
    let ghost filter = if owner_scoped::<T>(owner_id) {
        id_owner_filter(T::spec_id_col(), T::spec_owner_id_col())
    } else {
        id_filter(T::spec_id_col())
    };
    assert(sql@ =~= head + filter);
    sql.append(" returning ");
    sql.append(T::sql_cols().as_str());
    proof {
        let returning = join(T::spec_columns(), comma());
        lemma_pieces();
        T::lemma_descriptor();
        lemma_join_plain(T::spec_columns(), comma());
        lemma_filters(T::spec_id_col(), T::spec_owner_id_col());
        lemma_plain_counts_zero("DELETE FROM "@);
        lemma_append_plain("DELETE FROM "@, T::spec_table_name());
        lemma_append_plain("DELETE FROM "@ + T::spec_table_name(), " where "@);
        lemma_count_concat(head, filter, placeholder());
        lemma_append_plain(head + filter, " returning "@);
        lemma_append_plain(head + filter + " returning "@, returning);
    }
    Statement { sql, params }
}

/// The rows of a result that can be read as records of the kind `T`: the
/// engine returned rows, and each of them fits the kind. A result that could
/// not be had (`None`: the engine was not available) and a result with a row
/// that does not fit are failures of the operation, and have no rows to read.
pub open spec fn readable<T: DataObject>(rows: Option<Vec<Vec<Value>>>) -> bool {
    rows matches Some(rs) && all_fit::<T>(rs@)
}

/// The first record of a result, if the result can be read and has a row.
pub fn first_record<T: DataObject>(rows: &Option<Vec<Vec<Value>>>) -> (r: Option<T>)
    ensures
        r is Some <==> readable::<T>(*rows) && rows->0.len() >= 1,
        r matches Some(record) ==> record.row() == rows->0[0].deep_view(),
{
    match rows {
        Some(rs) => match from_rows::<T>(rs) {
            Some(data) => {
                let mut data = data;
                if data.len() >= 1 {
                    Some(data.swap_remove(0))
                } else {
                    None
                }
            },
            None => None,
        },
        None => None,
    }
}

/// Reads the result of a `create`: the inserted record, or `NotCreated` where
/// the engine returned no row or the operation failed.
pub fn created<T: DataObject>(rows: &Option<Vec<Vec<Value>>>) -> (r: StoreResult<T>)
    ensures
        r is Ok <==> readable::<T>(*rows) && rows->0.len() >= 1,
        r matches Ok(record) ==> record.row() == rows->0[0].deep_view(),
        r matches Err(e) ==> e == StoreError::NotCreated,
{
    match first_record(rows) {
        Some(record) => Ok(record),
        None => Err(StoreError::NotCreated),
    }
}

/// Reads the result of an `update`: the updated record, or `NotCreated` where
/// the engine returned no row or the operation failed.
pub fn updated<T: DataObject>(rows: &Option<Vec<Vec<Value>>>) -> (r: StoreResult<T>)
    ensures
        r is Ok <==> readable::<T>(*rows) && rows->0.len() >= 1,
        r matches Ok(record) ==> record.row() == rows->0[0].deep_view(),
        r matches Err(e) ==> e == StoreError::NotCreated,
{
    match first_record(rows) {
        Some(record) => Ok(record),
        None => Err(StoreError::NotCreated),
    }
}

/// Reads the result of a `get`: the first record, or nothing where the engine
/// returned no row or the operation failed.
pub fn found<T: DataObject>(rows: &Option<Vec<Vec<Value>>>) -> (r: Option<T>)
    ensures
        r is Some <==> readable::<T>(*rows) && rows->0.len() >= 1,
        r matches Some(record) ==> record.row() == rows->0[0].deep_view(),
{
    first_record(rows)
}

/// Reads the result of a `get_queries`: every record, in the order in which
/// the engine returned the rows; none where the operation failed.
pub fn listed<T: DataObject>(rows: &Option<Vec<Vec<Value>>>) -> (r: Vec<T>)
    ensures
        if readable::<T>(*rows) {
            r.len() == rows->0.len() && forall|i: int|
                0 <= i < r.len() ==> (#[trigger] r[i]).row() == rows->0[i].deep_view()
        } else {
            r.len() == 0
        },
{
    match rows {
        Some(rs) => match from_rows::<T>(rs) {
            Some(records) => records,
            None => Vec::new(),
        },
        None => Vec::new(),
    }
}

/// Reads the result of a `delete`: the deleted record, or `NotFound` where no
/// row matched or the operation failed.
pub fn deleted<T: DataObject>(rows: &Option<Vec<Vec<Value>>>) -> (r: StoreResult<T>)
    ensures
        r is Ok <==> readable::<T>(*rows) && rows->0.len() >= 1,
        r matches Ok(record) ==> record.row() == rows->0[0].deep_view(),
        r matches Err(e) ==> e == StoreError::NotFound,
{
    match first_record(rows) {
        Some(record) => Ok(record),
        None => Err(StoreError::NotFound),
    }
}

} // verus!
