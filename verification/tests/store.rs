use grundit::error::StoreError;
use grundit::record::{from_rows, DataObject};
use grundit::store::{
    create, created, delete, deleted, found, get, get_queries, listed, update, updated, Statement,
};
use grundit::types::comment::{Comment, RequestComment};
use grundit::types::note::{Note, NoteByOwnerId, NoteContentsContains, RequestNote};
use grundit::types::punch::{Punch, RequestPunch};
use grundit::types::user::{RequestUser, User};
use grundit::types::{DataType, ExtractGlonkQueries, QueryTypes};
use grundit::value::Value;

fn text(s: &str) -> Value {
    Value::Text(s.to_string())
}

fn check(st: Statement, sql: &str, params: Vec<Value>) {
    assert_eq!(st.sql, sql);
    assert_eq!(st.params, params);
    assert_eq!(st.sql.matches('?').count(), st.params.len());
}

fn note_row(id: i64, owner: i64, contents: &str) -> Vec<Value> {
    vec![Value::Integer(id), Value::Integer(owner), text(contents)]
}

#[test]
fn descriptors() {
    assert_eq!(User::table_name(), "users");
    assert_eq!(User::sql_cols(), "id,guid,name,email,picture");
    assert_eq!(User::id_col(), "id");
    assert_eq!(User::owner_id_col(), "id");
    assert_eq!(Note::table_name(), "notes");
    assert_eq!(Note::sql_cols(), "id,owner_id,contents");
    assert_eq!(Note::id_col(), "id");
    assert_eq!(Note::owner_id_col(), "owner_id");
    assert_eq!(Comment::table_name(), "comments");
    assert_eq!(Comment::sql_cols(), "id,owner_id,note_id,contents");
    assert_eq!(Comment::id_col(), "id");
    assert_eq!(Comment::owner_id_col(), "owner_id");
    assert_eq!(Punch::table_name(), "punches");
    assert_eq!(Punch::sql_cols(), "id,owner_id,geo");
    assert_eq!(Punch::id_col(), "id");
    assert_eq!(Punch::owner_id_col(), "owner_id");
}

#[test]
fn create_inserts_the_present_columns() {
    let data = RequestNote { id: None, owner_id: Some(5), contents: Some("milk".to_string()) };
    check(
        create::<RequestNote, Note>(&data),
        "INSERT INTO notes(owner_id,contents) VALUES (?,?) returning id,owner_id,contents",
        vec![Value::Integer(5), text("milk")],
    );
}

#[test]
fn create_of_a_user() {
    let data = RequestUser {
        id: None,
        guid: Some("google/1".to_string()),
        name: Some("Ada".to_string()),
        email: Some("ada@example.com".to_string()),
        picture: Some("pic".to_string()),
    };
    check(
        create::<RequestUser, User>(&data),
        "INSERT INTO users(guid,name,email,picture) VALUES (?,?,?,?) returning id,guid,name,email,picture",
        vec![text("google/1"), text("Ada"), text("ada@example.com"), text("pic")],
    );
}

#[test]
fn create_of_a_comment_and_a_punch() {
    let data = RequestComment {
        id: None,
        owner_id: Some(5),
        note_id: Some(2),
        contents: Some("hi".to_string()),
    };
    check(
        create::<RequestComment, Comment>(&data),
        "INSERT INTO comments(owner_id,note_id,contents) VALUES (?,?,?) returning id,owner_id,note_id,contents",
        vec![Value::Integer(5), Value::Integer(2), text("hi")],
    );
    let data = RequestPunch { id: None, owner_id: Some(5), geo: Some("1,2".to_string()) };
    check(
        create::<RequestPunch, Punch>(&data),
        "INSERT INTO punches(owner_id,geo) VALUES (?,?) returning id,owner_id,geo",
        vec![Value::Integer(5), text("1,2")],
    );
}

#[test]
fn update_filters_by_id_and_owner() {
    let data = RequestNote { id: Some(3), owner_id: Some(5), contents: Some("tea".to_string()) };
    check(
        update::<RequestNote, Note>(&data).unwrap(),
        "UPDATE notes SET (id,owner_id,contents) = (?,?,?) where (id = ? and owner_id = ?) returning id,owner_id,contents",
        vec![
            Value::Integer(3),
            Value::Integer(5),
            text("tea"),
            Value::Integer(3),
            Value::Integer(5),
        ],
    );
}

#[test]
fn update_carries_only_the_present_columns() {
    let data = RequestNote { id: Some(3), owner_id: Some(5), contents: None };
    check(
        update::<RequestNote, Note>(&data).unwrap(),
        "UPDATE notes SET (id,owner_id) = (?,?) where (id = ? and owner_id = ?) returning id,owner_id,contents",
        vec![Value::Integer(3), Value::Integer(5), Value::Integer(3), Value::Integer(5)],
    );
}

#[test]
fn update_of_a_user_filters_by_id_alone() {
    let data = RequestUser {
        id: Some(3),
        guid: None,
        name: Some("Ada".to_string()),
        email: None,
        picture: None,
    };
    check(
        update::<RequestUser, User>(&data).unwrap(),
        "UPDATE users SET (id,name) = (?,?) where (id = ?) returning id,guid,name,email,picture",
        vec![Value::Integer(3), text("Ada"), Value::Integer(3)],
    );
}

#[test]
fn update_without_id_or_owner_is_not_created() {
    let data = RequestNote { id: None, owner_id: Some(5), contents: Some("tea".to_string()) };
    assert_eq!(update::<RequestNote, Note>(&data).err(), Some(StoreError::NotCreated));
    let data = RequestNote { id: Some(3), owner_id: None, contents: Some("tea".to_string()) };
    assert_eq!(update::<RequestNote, Note>(&data).err(), Some(StoreError::NotCreated));
    let data =
        RequestUser { id: None, guid: None, name: Some("A".to_string()), email: None, picture: None };
    assert_eq!(update::<RequestUser, User>(&data).err(), Some(StoreError::NotCreated));
}

#[test]
fn get_selects_by_id() {
    check(get::<Note>(9), "SELECT * FROM notes where (id = ?)", vec![Value::Integer(9)]);
    check(get::<User>(-1), "SELECT * FROM users where (id = ?)", vec![Value::Integer(-1)]);
}

#[test]
fn get_queries_without_filters_selects_everything() {
    let none: Vec<QueryTypes> = vec![];
    check(get_queries::<Note, QueryTypes>(&none), "SELECT * FROM notes", vec![]);
    check(get_queries::<Comment, QueryTypes>(&none), "SELECT * FROM comments", vec![]);
}

#[test]
fn get_queries_with_one_filter() {
    let queries = vec![NoteByOwnerId::new(5)];
    check(
        get_queries::<Note, NoteByOwnerId>(&queries),
        "SELECT * FROM notes where owner_id = ?",
        vec![Value::Integer(5)],
    );
}

#[test]
fn get_queries_joins_filters_in_order() {
    let pairs = vec![
        ("byContentsContains".to_string(), "milk".to_string()),
        ("byOwnerId".to_string(), "5".to_string()),
        ("byNoteId".to_string(), "2".to_string()),
    ];
    let ExtractGlonkQueries(queries) = ExtractGlonkQueries::from_pairs(&DataType::Comment, &pairs);
    check(
        get_queries::<Comment, QueryTypes>(&queries),
        "SELECT * FROM comments where contents LIKE ? and owner_id = ? and note_id = ?",
        vec![text("%milk%"), Value::Integer(5), Value::Integer(2)],
    );
    let queries = vec![NoteContentsContains::new("a".to_string()), NoteContentsContains::new("b".to_string())];
    check(
        get_queries::<Note, NoteContentsContains>(&queries),
        "SELECT * FROM notes where contents LIKE ? and contents LIKE ?",
        vec![text("%a%"), text("%b%")],
    );
}

#[test]
fn delete_is_owner_scoped_for_owned_kinds() {
    check(
        delete::<Note>(3, Some(5)),
        "DELETE FROM notes where (id = ? and owner_id = ?) returning id,owner_id,contents",
        vec![Value::Integer(3), Value::Integer(5)],
    );
    check(
        delete::<Comment>(3, Some(5)),
        "DELETE FROM comments where (id = ? and owner_id = ?) returning id,owner_id,note_id,contents",
        vec![Value::Integer(3), Value::Integer(5)],
    );
    check(
        delete::<Punch>(3, Some(5)),
        "DELETE FROM punches where (id = ? and owner_id = ?) returning id,owner_id,geo",
        vec![Value::Integer(3), Value::Integer(5)],
    );
}

#[test]
fn delete_without_identity_goes_by_id_alone() {
    check(
        delete::<Note>(3, None),
        "DELETE FROM notes where (id = ?) returning id,owner_id,contents",
        vec![Value::Integer(3)],
    );
}

#[test]
fn delete_of_a_self_owning_kind_goes_by_id_alone() {
    check(
        delete::<User>(3, Some(5)),
        "DELETE FROM users where (id = ?) returning id,guid,name,email,picture",
        vec![Value::Integer(3)],
    );
    check(
        delete::<User>(3, None),
        "DELETE FROM users where (id = ?) returning id,guid,name,email,picture",
        vec![Value::Integer(3)],
    );
}

#[test]
fn rows_decode_to_records_and_back() {
    let row = note_row(1, 5, "milk");
    let note = Note::from_row(&row).unwrap();
    assert_eq!(note, Note { id: 1, owner_id: 5, contents: "milk".to_string() });
    assert_eq!(note.bind(), row);
    let row = vec![Value::Integer(1), Value::Integer(5), Value::Integer(2), text("hi")];
    let comment = Comment::from_row(&row).unwrap();
    assert_eq!(comment, Comment { id: 1, owner_id: 5, note_id: 2, contents: "hi".to_string() });
    assert_eq!(comment.bind(), row);
    let row = vec![Value::Integer(1), Value::Integer(5), text("1,2")];
    let punch = Punch::from_row(&row).unwrap();
    assert_eq!(punch, Punch { id: 1, owner_id: 5, geo: "1,2".to_string() });
    assert_eq!(punch.bind(), row);
    let row = vec![Value::Integer(1), text("g"), text("n"), text("e"), text("p")];
    let user = User::from_row(&row).unwrap();
    assert_eq!(
        user,
        User {
            id: 1,
            guid: "g".to_string(),
            name: "n".to_string(),
            email: "e".to_string(),
            picture: "p".to_string()
        }
    );
    assert_eq!(user.bind(), row);
}

#[test]
fn rows_that_do_not_fit_do_not_decode() {
    assert_eq!(Note::from_row(&vec![]), None);
    assert_eq!(Note::from_row(&vec![Value::Integer(1), Value::Integer(5)]), None);
    assert_eq!(Note::from_row(&vec![Value::Integer(1), text("5"), text("milk")]), None);
    assert_eq!(Note::from_row(&vec![Value::Integer(1), Value::Integer(5), Value::Integer(3)]), None);
    assert_eq!(
        Note::from_row(&vec![Value::Integer(1), Value::Integer(5), text("milk"), text("more")]),
        None
    );
    assert_eq!(User::from_row(&note_row(1, 5, "milk")), None);
    assert_eq!(Comment::from_row(&note_row(1, 5, "milk")), None);
    assert_eq!(Punch::from_row(&vec![text("1"), Value::Integer(5), text("g")]), None);
}

#[test]
fn a_row_that_does_not_fit_fails_the_whole_result() {
    let rows = vec![note_row(1, 5, "a"), vec![], note_row(2, 5, "b")];
    assert_eq!(from_rows::<Note>(&rows), None);
    assert_eq!(from_rows::<User>(&vec![note_row(1, 5, "a")]), None);
    let rows = Some(rows);
    assert_eq!(created::<Note>(&rows), Err(StoreError::NotCreated));
    assert_eq!(updated::<Note>(&rows), Err(StoreError::NotCreated));
    assert_eq!(deleted::<Note>(&rows), Err(StoreError::NotFound));
    assert_eq!(found::<Note>(&rows), None);
    assert_eq!(listed::<Note>(&rows), vec![]);
    let rows = Some(vec![note_row(1, 5, "a"), vec![Value::Integer(1)]]);
    assert_eq!(found::<Note>(&rows), None);
    assert_eq!(found::<Punch>(&Some(vec![note_row(1, 5, "a")])).map(|p| p.geo), Some("a".to_string()));
}

#[test]
fn zero_rows_decode_to_zero_records() {
    assert_eq!(from_rows::<Note>(&vec![]), Some(vec![]));
}

#[test]
fn rows_decode_in_order() {
    let records = from_rows::<Note>(&vec![note_row(2, 5, "b"), note_row(1, 6, "a")]);
    assert_eq!(
        records,
        Some(vec![
            Note { id: 2, owner_id: 5, contents: "b".to_string() },
            Note { id: 1, owner_id: 6, contents: "a".to_string() },
        ])
    );
}

#[test]
fn outcomes_take_the_first_row() {
    let rows = Some(vec![note_row(2, 5, "b"), note_row(1, 6, "a")]);
    let first = Note { id: 2, owner_id: 5, contents: "b".to_string() };
    assert_eq!(created::<Note>(&rows), Ok(first.clone()));
    assert_eq!(updated::<Note>(&rows), Ok(first.clone()));
    assert_eq!(deleted::<Note>(&rows), Ok(first.clone()));
    assert_eq!(found::<Note>(&rows), Some(first.clone()));
    assert_eq!(
        listed::<Note>(&rows),
        vec![first, Note { id: 1, owner_id: 6, contents: "a".to_string() }]
    );
}

#[test]
fn outcomes_without_rows() {
    let rows = Some(vec![]);
    assert_eq!(created::<Note>(&rows), Err(StoreError::NotCreated));
    assert_eq!(updated::<Note>(&rows), Err(StoreError::NotCreated));
    assert_eq!(deleted::<Note>(&rows), Err(StoreError::NotFound));
    assert_eq!(found::<Note>(&rows), None);
    assert_eq!(listed::<Note>(&rows), vec![]);
}

#[test]
fn outcomes_without_an_engine() {
    assert_eq!(created::<User>(&None), Err(StoreError::NotCreated));
    assert_eq!(updated::<User>(&None), Err(StoreError::NotCreated));
    assert_eq!(deleted::<User>(&None), Err(StoreError::NotFound));
    assert_eq!(found::<User>(&None), None);
    assert_eq!(listed::<User>(&None), vec![]);
}

#[test]
fn store_error_texts() {
    assert_eq!(StoreError::NotCreated.message(), "The data could not be created");
    assert_eq!(StoreError::NotFound.message(), "The data could not be found");
    assert_eq!(StoreError::NotCreated.description(), "NotCreated error");
    assert_eq!(StoreError::NotFound.description(), "NotFound error");
}
