use grundit::criteria::Query;
use grundit::handlers::OwnerIdHeader;
use grundit::types::comment::{CommentByNoteId, CommentByOwnerId, CommentContentsContains, CommentQuery};
use grundit::types::note::{NoteByOwnerId, NoteContentsContains, NoteQuery};
use grundit::types::punch::{PunchByOwnerId, PunchQuery};
use grundit::types::user::{UserByGuid, UserQuery};
use grundit::types::{DataType, ExtractGlonkQueries, QueryTypes};
use grundit::value::Value;

fn pair(k: &str, v: &str) -> (String, String) {
    (k.to_string(), v.to_string())
}

fn built<Q: Query>(q: Result<Q, ()>) -> Option<(String, Vec<Value>)> {
    q.ok().map(|q| q.build())
}

fn text(s: &str) -> Value {
    Value::Text(s.to_string())
}

#[test]
fn named_filters_render_their_criteria() {
    assert_eq!(NoteByOwnerId::new(5).build(), ("owner_id = ?".to_string(), vec![Value::Integer(5)]));
    assert_eq!(
        NoteContentsContains::new("milk".to_string()).build(),
        ("contents LIKE ?".to_string(), vec![text("%milk%")])
    );
    assert_eq!(
        CommentByNoteId::new(8).build(),
        ("note_id = ?".to_string(), vec![Value::Integer(8)])
    );
    assert_eq!(
        CommentByOwnerId::new(-8).build(),
        ("owner_id = ?".to_string(), vec![Value::Integer(-8)])
    );
    assert_eq!(
        CommentContentsContains::new("".to_string()).build(),
        ("contents LIKE ?".to_string(), vec![text("%%")])
    );
    assert_eq!(PunchByOwnerId::new(0).build(), ("owner_id = ?".to_string(), vec![Value::Integer(0)]));
    assert_eq!(
        UserByGuid::new("google/7".to_string()).build(),
        ("guid = ?".to_string(), vec![text("google/7")])
    );
}

#[test]
fn note_filter_vocabulary() {
    let (k, v) = pair("byOwnerId", "5");
    assert_eq!(
        built(NoteQuery::try_from((&k, &v))),
        Some(("owner_id = ?".to_string(), vec![Value::Integer(5)]))
    );
    let (k, v) = pair("byContentsContains", "milk");
    assert_eq!(
        built(NoteQuery::try_from((&k, &v))),
        Some(("contents LIKE ?".to_string(), vec![text("%milk%")]))
    );
    let (k, v) = pair("byNoteId", "5");
    assert_eq!(built(NoteQuery::try_from((&k, &v))), None);
    let (k, v) = pair("byGuid", "google/1");
    assert_eq!(built(NoteQuery::try_from((&k, &v))), None);
    let (k, v) = pair("byownerid", "5");
    assert_eq!(built(NoteQuery::try_from((&k, &v))), None);
    let (k, v) = pair("", "5");
    assert_eq!(built(NoteQuery::try_from((&k, &v))), None);
}

#[test]
fn comment_filter_vocabulary() {
    let (k, v) = pair("byOwnerId", "5");
    assert_eq!(
        built(CommentQuery::try_from((&k, &v))),
        Some(("owner_id = ?".to_string(), vec![Value::Integer(5)]))
    );
    let (k, v) = pair("byNoteId", "12");
    assert_eq!(
        built(CommentQuery::try_from((&k, &v))),
        Some(("note_id = ?".to_string(), vec![Value::Integer(12)]))
    );
    let (k, v) = pair("byContentsContains", "a%b");
    assert_eq!(
        built(CommentQuery::try_from((&k, &v))),
        Some(("contents LIKE ?".to_string(), vec![text("%a%b%")]))
    );
    let (k, v) = pair("byGuid", "x");
    assert_eq!(built(CommentQuery::try_from((&k, &v))), None);
    let (k, v) = pair("byNoteId", "twelve");
    assert_eq!(built(CommentQuery::try_from((&k, &v))), None);
}

#[test]
fn punch_and_user_filter_vocabulary() {
    let (k, v) = pair("byOwnerId", "5");
    assert_eq!(
        built(PunchQuery::try_from((&k, &v))),
        Some(("owner_id = ?".to_string(), vec![Value::Integer(5)]))
    );
    let (k, v) = pair("byContentsContains", "x");
    assert_eq!(built(PunchQuery::try_from((&k, &v))), None);
    let (k, v) = pair("byGuid", "google/1");
    assert_eq!(
        built(UserQuery::try_from((&k, &v))),
        Some(("guid = ?".to_string(), vec![text("google/1")]))
    );
    let (k, v) = pair("byOwnerId", "5");
    assert_eq!(built(UserQuery::try_from((&k, &v))), None);
}

fn owner_of(v: &str) -> Option<Vec<Value>> {
    let (k, v) = pair("byOwnerId", v);
    built(NoteQuery::try_from((&k, &v))).map(|b| b.1)
}

#[test]
fn numbers_are_read_in_decimal_notation() {
    assert_eq!(owner_of("0"), Some(vec![Value::Integer(0)]));
    assert_eq!(owner_of("42"), Some(vec![Value::Integer(42)]));
    assert_eq!(owner_of("+42"), Some(vec![Value::Integer(42)]));
    assert_eq!(owner_of("-42"), Some(vec![Value::Integer(-42)]));
    assert_eq!(owner_of("-0"), Some(vec![Value::Integer(0)]));
    assert_eq!(owner_of("0042"), Some(vec![Value::Integer(42)]));
    assert_eq!(owner_of("9223372036854775807"), Some(vec![Value::Integer(i64::MAX)]));
    assert_eq!(owner_of("-9223372036854775808"), Some(vec![Value::Integer(i64::MIN)]));
    assert_eq!(
        owner_of("00000000000000000000000000009223372036854775807"),
        Some(vec![Value::Integer(i64::MAX)])
    );
}

#[test]
fn what_is_no_number_selects_nothing() {
    assert_eq!(owner_of(""), None);
    assert_eq!(owner_of("+"), None);
    assert_eq!(owner_of("-"), None);
    assert_eq!(owner_of("--1"), None);
    assert_eq!(owner_of("+-1"), None);
    assert_eq!(owner_of(" 1"), None);
    assert_eq!(owner_of("1 "), None);
    assert_eq!(owner_of("1_000"), None);
    assert_eq!(owner_of("1.0"), None);
    assert_eq!(owner_of("0x10"), None);
    assert_eq!(owner_of("five"), None);
    assert_eq!(owner_of("9223372036854775808"), None);
    assert_eq!(owner_of("-9223372036854775809"), None);
    assert_eq!(owner_of("٣"), None);
}

#[test]
fn filters_by_kind() {
    let (k, v) = pair("byGuid", "google/1");
    assert_eq!(
        built(QueryTypes::try_from((&DataType::User, (&k, &v)))),
        Some(("guid = ?".to_string(), vec![text("google/1")]))
    );
    assert_eq!(built(QueryTypes::try_from((&DataType::Note, (&k, &v)))), None);
    let (k, v) = pair("byNoteId", "3");
    assert_eq!(
        built(QueryTypes::try_from((&DataType::Comment, (&k, &v)))),
        Some(("note_id = ?".to_string(), vec![Value::Integer(3)]))
    );
    assert_eq!(built(QueryTypes::try_from((&DataType::Punch, (&k, &v)))), None);
    assert_eq!(built(QueryTypes::try_from((&DataType::Note, (&k, &v)))), None);
    let (k, v) = pair("byOwnerId", "3");
    for kind in [DataType::Note, DataType::Comment, DataType::Punch] {
        assert_eq!(
            built(QueryTypes::try_from((&kind, (&k, &v)))),
            Some(("owner_id = ?".to_string(), vec![Value::Integer(3)]))
        );
    }
    assert_eq!(built(QueryTypes::try_from((&DataType::User, (&k, &v)))), None);
}

#[test]
fn unknown_keys_are_dropped_and_order_is_kept() {
    let pairs = vec![
        pair("byContentsContains", "milk"),
        pair("sort", "desc"),
        pair("byOwnerId", "5"),
        pair("byOwnerId", "nobody"),
        pair("byNoteId", "1"),
        pair("byOwnerId", "6"),
    ];
    let ExtractGlonkQueries(queries) = ExtractGlonkQueries::from_pairs(&DataType::Note, &pairs);
    let built: Vec<(String, Vec<Value>)> = queries.iter().map(|q| q.build()).collect();
    assert_eq!(
        built,
        vec![
            ("contents LIKE ?".to_string(), vec![text("%milk%")]),
            ("owner_id = ?".to_string(), vec![Value::Integer(5)]),
            ("owner_id = ?".to_string(), vec![Value::Integer(6)]),
        ]
    );
}

#[test]
fn no_pairs_select_no_filters() {
    let ExtractGlonkQueries(queries) = ExtractGlonkQueries::from_pairs(&DataType::User, &vec![]);
    assert_eq!(queries.len(), 0);
    let ExtractGlonkQueries(queries) =
        ExtractGlonkQueries::from_pairs(&DataType::User, &vec![pair("byOwnerId", "5")]);
    assert_eq!(queries.len(), 0);
}

#[test]
fn kinds_have_names() {
    assert_eq!(DataType::User.name(), "user");
    assert_eq!(DataType::Note.name(), "note");
    assert_eq!(DataType::Comment.name(), "comment");
    assert_eq!(DataType::Punch.name(), "punch");
    assert_eq!(DataType::from_name("user"), Some(DataType::User));
    assert_eq!(DataType::from_name("note"), Some(DataType::Note));
    assert_eq!(DataType::from_name("comment"), Some(DataType::Comment));
    assert_eq!(DataType::from_name("punch"), Some(DataType::Punch));
    assert_eq!(DataType::from_name("User"), None);
    assert_eq!(DataType::from_name("notes"), None);
    assert_eq!(DataType::from_name(""), None);
}

#[test]
fn owner_id_header_is_read_as_a_number() {
    assert_eq!(OwnerIdHeader::from_header(None), Ok(OwnerIdHeader(None)));
    assert_eq!(OwnerIdHeader::from_header(Some("5")), Ok(OwnerIdHeader(Some(5))));
    assert_eq!(OwnerIdHeader::from_header(Some("-12")), Ok(OwnerIdHeader(Some(-12))));
    assert_eq!(OwnerIdHeader::from_header(Some("five")), Err(()));
    assert_eq!(OwnerIdHeader::from_header(Some("")), Err(()));
    assert_eq!(OwnerIdHeader::from_header(Some("5; drop")), Err(()));
}
