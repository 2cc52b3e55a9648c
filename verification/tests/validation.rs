use grundit::error::ValidationError;
use grundit::record::RequestObject;
use grundit::types::comment::RequestComment;
use grundit::types::note::RequestNote;
use grundit::types::punch::RequestPunch;
use grundit::types::user::RequestUser;
use grundit::value::Value;

fn note(id: Option<i64>, owner_id: Option<i64>, contents: Option<&str>) -> RequestNote {
    RequestNote { id, owner_id, contents: contents.map(|s| s.to_string()) }
}

fn comment(
    id: Option<i64>,
    owner_id: Option<i64>,
    note_id: Option<i64>,
    contents: Option<&str>,
) -> RequestComment {
    RequestComment { id, owner_id, note_id, contents: contents.map(|s| s.to_string()) }
}

fn punch(id: Option<i64>, owner_id: Option<i64>, geo: Option<&str>) -> RequestPunch {
    RequestPunch { id, owner_id, geo: geo.map(|s| s.to_string()) }
}

fn user(id: Option<i64>, fields: [Option<&str>; 4]) -> RequestUser {
    RequestUser {
        id,
        guid: fields[0].map(|s| s.to_string()),
        name: fields[1].map(|s| s.to_string()),
        email: fields[2].map(|s| s.to_string()),
        picture: fields[3].map(|s| s.to_string()),
    }
}

fn missing(field: &str) -> Result<(), ValidationError> {
    Err(ValidationError::MissingRequiredOnCreate(field.to_string()))
}

fn mismatch(data_owner: i64, caller: i64) -> Result<(), ValidationError> {
    Err(ValidationError::InvalidOwnerId(format!(
        "request header owner_id ({}) does not match data owner_id ({})",
        data_owner, caller
    )))
}

#[test]
fn note_create_with_all_required_fields_succeeds() {
    assert_eq!(note(None, Some(5), Some("milk")).validate_create(Some(5)), Ok(()));
}

#[test]
fn note_create_without_caller_identity_accepts_the_owner() {
    assert_eq!(note(None, Some(5), Some("milk")).validate_create(None), Ok(()));
}

#[test]
fn note_create_names_the_missing_contents() {
    assert_eq!(note(None, Some(5), None).validate_create(Some(5)), missing("contents"));
}

#[test]
fn note_create_names_the_missing_owner() {
    assert_eq!(note(None, None, Some("milk")).validate_create(Some(5)), missing("owner_id"));
    assert_eq!(note(None, None, Some("milk")).validate_create(None), missing("owner_id"));
}

#[test]
fn note_create_reports_the_owner_before_other_fields() {
    assert_eq!(note(Some(1), None, None).validate_create(Some(5)), missing("owner_id"));
}

#[test]
fn note_create_rejects_an_id() {
    assert_eq!(
        note(Some(1), Some(5), Some("milk")).validate_create(Some(5)),
        Err(ValidationError::IdProvidedOnCreate)
    );
}

#[test]
fn note_create_rejects_another_owner() {
    assert_eq!(note(None, Some(5), Some("milk")).validate_create(Some(7)), mismatch(5, 7));
}

#[test]
fn owner_mismatch_names_both_values() {
    match note(None, Some(-3), Some("x")).validate_create(Some(9223372036854775807)) {
        Err(ValidationError::InvalidOwnerId(detail)) => {
            assert_eq!(
                detail,
                "request header owner_id (-3) does not match data owner_id (9223372036854775807)"
            );
        }
        other => panic!("{:?}", other),
    }
}

#[test]
fn owner_mismatch_comes_before_every_other_check() {
    assert_eq!(note(Some(1), Some(5), None).validate_create(Some(7)), mismatch(5, 7));
    assert_eq!(note(None, Some(5), Some("x")).validate_update(Some(7)), mismatch(5, 7));
}

#[test]
fn note_update_requires_an_id() {
    assert_eq!(
        note(None, Some(5), Some("milk")).validate_update(Some(5)),
        Err(ValidationError::MissingIdOnUpdate)
    );
    assert_eq!(
        note(None, Some(5), None).validate_update(None),
        Err(ValidationError::MissingIdOnUpdate)
    );
}

#[test]
fn note_update_with_an_id_succeeds_whatever_else_is_there() {
    assert_eq!(note(Some(1), Some(5), None).validate_update(Some(5)), Ok(()));
    assert_eq!(note(Some(1), Some(5), Some("milk")).validate_update(None), Ok(()));
}

#[test]
fn note_update_rejects_another_owner() {
    assert_eq!(note(Some(1), Some(5), Some("milk")).validate_update(Some(7)), mismatch(5, 7));
}

#[test]
fn note_update_without_an_owner_is_judged_by_its_id() {
    assert_eq!(note(Some(1), None, Some("milk")).validate_update(Some(5)), Ok(()));
    assert_eq!(note(Some(1), None, None).validate_update(None), Ok(()));
    assert_eq!(
        note(None, None, None).validate_update(None),
        Err(ValidationError::MissingIdOnUpdate)
    );
    assert_eq!(
        note(None, None, Some("milk")).validate_update(Some(5)),
        Err(ValidationError::MissingIdOnUpdate)
    );
}

#[test]
fn an_update_without_an_id_fails_with_the_missing_id_error() {
    for asserted in [None, Some(5)] {
        for owner in [None, Some(5)] {
            for contents in [None, Some("milk")] {
                assert_eq!(
                    note(None, owner, contents).validate_update(asserted),
                    Err(ValidationError::MissingIdOnUpdate)
                );
                assert_eq!(
                    punch(None, owner, contents).validate_update(asserted),
                    Err(ValidationError::MissingIdOnUpdate)
                );
                assert_eq!(
                    comment(None, owner, owner, contents).validate_update(asserted),
                    Err(ValidationError::MissingIdOnUpdate)
                );
            }
        }
    }
    assert_eq!(note(None, Some(5), None).validate_update(Some(7)), mismatch(5, 7));
}

#[test]
fn comment_create_checks_contents_before_the_note() {
    assert_eq!(comment(None, Some(5), Some(2), Some("hi")).validate_create(Some(5)), Ok(()));
    assert_eq!(comment(None, Some(5), Some(2), None).validate_create(Some(5)), missing("contents"));
    assert_eq!(comment(None, Some(5), None, Some("hi")).validate_create(Some(5)), missing("note_id"));
    assert_eq!(comment(None, Some(5), None, None).validate_create(Some(5)), missing("contents"));
    assert_eq!(comment(None, None, None, None).validate_create(Some(5)), missing("owner_id"));
}

#[test]
fn comment_create_rejects_an_id_and_another_owner() {
    assert_eq!(
        comment(Some(9), Some(5), Some(2), Some("hi")).validate_create(None),
        Err(ValidationError::IdProvidedOnCreate)
    );
    assert_eq!(comment(None, Some(5), Some(2), Some("hi")).validate_create(Some(6)), mismatch(5, 6));
}

#[test]
fn comment_update_follows_the_same_rule() {
    assert_eq!(comment(Some(9), Some(5), None, None).validate_update(Some(5)), Ok(()));
    assert_eq!(
        comment(None, Some(5), Some(2), Some("hi")).validate_update(Some(5)),
        Err(ValidationError::MissingIdOnUpdate)
    );
    assert_eq!(comment(Some(9), Some(5), None, None).validate_update(Some(6)), mismatch(5, 6));
    assert_eq!(comment(Some(9), None, None, None).validate_update(Some(6)), Ok(()));
    assert_eq!(
        comment(None, None, None, None).validate_update(Some(6)),
        Err(ValidationError::MissingIdOnUpdate)
    );
}

#[test]
fn punch_create_and_update() {
    assert_eq!(punch(None, Some(5), Some("1,2")).validate_create(Some(5)), Ok(()));
    assert_eq!(punch(None, Some(5), None).validate_create(Some(5)), missing("geo"));
    assert_eq!(punch(None, None, Some("1,2")).validate_create(Some(5)), missing("owner_id"));
    assert_eq!(
        punch(Some(3), Some(5), Some("1,2")).validate_create(Some(5)),
        Err(ValidationError::IdProvidedOnCreate)
    );
    assert_eq!(punch(None, Some(5), Some("1,2")).validate_create(Some(8)), mismatch(5, 8));
    assert_eq!(punch(Some(3), Some(5), None).validate_update(Some(5)), Ok(()));
    assert_eq!(
        punch(None, Some(5), None).validate_update(Some(5)),
        Err(ValidationError::MissingIdOnUpdate)
    );
    assert_eq!(punch(Some(3), Some(5), None).validate_update(Some(8)), mismatch(5, 8));
}

#[test]
fn user_create_without_an_id_succeeds() {
    let all = [Some("google/1"), Some("Ada"), Some("ada@example.com"), Some("pic")];
    assert_eq!(user(None, all).validate_create(None), Ok(()));
    assert_eq!(user(None, all).validate_create(Some(5)), Ok(()));
}

#[test]
fn user_create_names_the_first_missing_field() {
    assert_eq!(
        user(None, [None, Some("Ada"), Some("a@b"), Some("pic")]).validate_create(None),
        missing("guid")
    );
    assert_eq!(
        user(None, [Some("g"), None, Some("a@b"), Some("pic")]).validate_create(None),
        missing("name")
    );
    assert_eq!(
        user(None, [Some("g"), Some("Ada"), None, Some("pic")]).validate_create(None),
        missing("email")
    );
    assert_eq!(
        user(None, [Some("g"), Some("Ada"), Some("a@b"), None]).validate_create(None),
        missing("picture")
    );
    assert_eq!(user(None, [None, None, None, None]).validate_create(None), missing("guid"));
    assert_eq!(user(None, [Some("g"), None, None, None]).validate_create(None), missing("name"));
}

#[test]
fn user_owner_is_its_id() {
    let all = [Some("google/1"), Some("Ada"), Some("ada@example.com"), Some("pic")];
    assert_eq!(user(Some(5), all).validate_create(Some(7)), mismatch(5, 7));
    assert_eq!(
        user(Some(5), all).validate_create(Some(5)),
        Err(ValidationError::IdProvidedOnCreate)
    );
    assert_eq!(user(Some(5), all).validate_create(None), Err(ValidationError::IdProvidedOnCreate));
    assert_eq!(user(Some(5), all).owner_id(), Some(5));
    assert_eq!(user(None, all).owner_id(), None);
}

#[test]
fn user_update_requires_an_id_regardless_of_other_fields() {
    let all = [Some("google/1"), Some("Ada"), Some("ada@example.com"), Some("pic")];
    let none = [None, None, None, None];
    for asserted in [None, Some(5), Some(-1)] {
        assert_eq!(
            user(None, all).validate_update(asserted),
            Err(ValidationError::MissingIdOnUpdate)
        );
        assert_eq!(
            user(None, none).validate_update(asserted),
            Err(ValidationError::MissingIdOnUpdate)
        );
    }
}

#[test]
fn user_update_checks_the_id_against_the_caller() {
    let none = [None, None, None, None];
    assert_eq!(user(Some(5), none).validate_update(Some(5)), Ok(()));
    assert_eq!(user(Some(5), none).validate_update(None), Ok(()));
    assert_eq!(user(Some(5), none).validate_update(Some(7)), mismatch(5, 7));
}

#[test]
fn validation_messages() {
    assert_eq!(ValidationError::MissingIdOnUpdate.message(), "id required for updates");
    assert_eq!(
        ValidationError::MissingRequiredOnCreate("geo".to_string()).message(),
        "missing required field `geo`"
    );
    assert_eq!(ValidationError::InvalidOwnerId("just this".to_string()).message(), "just this");
    assert_eq!(
        ValidationError::IdProvidedOnCreate.message(),
        "id must not be provided for create"
    );
}

#[test]
fn validation_descriptions() {
    assert_eq!(ValidationError::MissingIdOnUpdate.description(), "Missing id error");
    assert_eq!(
        ValidationError::MissingRequiredOnCreate("x".to_string()).description(),
        "Missing required field error"
    );
    assert_eq!(
        ValidationError::InvalidOwnerId("x".to_string()).description(),
        "Invalid owner_id in request error"
    );
    assert_eq!(ValidationError::IdProvidedOnCreate.description(), "Id provided on create error");
}

#[test]
fn present_columns_follow_the_fixed_order() {
    let full = note(Some(1), Some(5), Some("milk"));
    assert_eq!(full.sql_cols(), "id,owner_id,contents");
    assert_eq!(full.sql_placeholders(), "?,?,?");
    let partial = note(None, Some(5), Some("milk"));
    assert_eq!(partial.sql_cols(), "owner_id,contents");
    assert_eq!(partial.sql_placeholders(), "?,?");
    let only = note(None, None, Some("milk"));
    assert_eq!(only.sql_cols(), "contents");
    assert_eq!(only.sql_placeholders(), "?");
    let empty = note(None, None, None);
    assert_eq!(empty.sql_cols(), "");
    assert_eq!(empty.sql_placeholders(), "");
}

#[test]
fn present_columns_of_every_kind() {
    assert_eq!(
        comment(Some(1), Some(2), Some(3), Some("c")).sql_cols(),
        "id,owner_id,note_id,contents"
    );
    assert_eq!(comment(None, Some(2), None, Some("c")).sql_cols(), "owner_id,contents");
    assert_eq!(comment(None, Some(2), None, Some("c")).sql_placeholders(), "?,?");
    assert_eq!(punch(Some(1), Some(2), Some("g")).sql_cols(), "id,owner_id,geo");
    assert_eq!(punch(Some(1), None, None).sql_placeholders(), "?");
    let u = user(Some(1), [Some("g"), Some("n"), Some("e"), Some("p")]);
    assert_eq!(u.sql_cols(), "id,guid,name,email,picture");
    assert_eq!(u.sql_placeholders(), "?,?,?,?,?");
    let u = user(None, [Some("g"), None, Some("e"), None]);
    assert_eq!(u.sql_cols(), "guid,email");
    assert_eq!(u.sql_placeholders(), "?,?");
}

#[test]
fn bound_values_match_the_present_columns() {
    assert_eq!(
        note(None, Some(5), Some("milk")).bind(),
        vec![Value::Integer(5), Value::Text("milk".to_string())]
    );
    assert_eq!(
        comment(Some(1), None, Some(3), None).bind(),
        vec![Value::Integer(1), Value::Integer(3)]
    );
    assert_eq!(note(None, None, None).bind(), vec![]);
    assert_eq!(
        user(None, [Some("g"), None, None, Some("p")]).bind(),
        vec![Value::Text("g".to_string()), Value::Text("p".to_string())]
    );
}

#[test]
fn ids_and_owners() {
    assert_eq!(note(Some(1), Some(5), None).id(), Some(1));
    assert_eq!(note(Some(1), Some(5), None).owner_id(), Some(5));
    assert_eq!(comment(None, Some(5), None, None).id(), None);
    assert_eq!(punch(Some(4), None, None).owner_id(), None);
    assert_eq!(user(Some(4), [None, None, None, None]).id(), Some(4));
}
