use household_ledger::errors::{CustomError, DbFailure};

#[test]
fn not_found_is_answered_404_with_the_entity_name() {
    let e = CustomError::not_found("Record");
    assert_eq!(e, CustomError::NotFound("Record".to_string()));
    assert_eq!(e.into_response(), (404, "Record not found".to_string()));
}

#[test]
fn database_error_is_answered_400() {
    let e = CustomError::DatabaseError("duplicate key".to_string());
    assert_eq!(e.into_response(), (400, "Database error".to_string()));
}

#[test]
fn validation_error_is_answered_400() {
    let e = CustomError::validation("Password");
    assert_eq!(e, CustomError::ValidationError("Password".to_string()));
    assert_eq!(e.into_response(), (400, "Validation failed".to_string()));
}

#[test]
fn unauthorized_is_answered_401() {
    let e = CustomError::unauthorized("RecordRole");
    assert_eq!(e, CustomError::Unauthorized("RecordRole".to_string()));
    assert_eq!(e.into_response(), (401, "Authorization failed".to_string()));
}

#[test]
fn unexpected_is_answered_500() {
    let e = CustomError::unexpected("pool closed");
    assert_eq!(e, CustomError::Unexpected("pool closed".to_string()));
    assert_eq!(e.into_response(), (500, "Unexpected error".to_string()));
}

#[test]
fn duplicated_is_answered_400_with_the_entity_name() {
    let e = CustomError::duplicated("User");
    assert_eq!(e, CustomError::Duplicated("User".to_string()));
    assert_eq!(e.into_response(), (400, "Duplicated User".to_string()));
}

#[test]
fn no_field_update_is_answered_400() {
    let e = CustomError::no_field_update("Record");
    assert_eq!(e, CustomError::NoFieldUpdate("Record".to_string()));
    assert_eq!(e.into_response(), (400, "No field to update".to_string()));
}

#[test]
fn only_unexpected_errors_are_server_errors() {
    let all = vec![
        CustomError::NotFound("a".to_string()),
        CustomError::DatabaseError("b".to_string()),
        CustomError::ValidationError("c".to_string()),
        CustomError::Unauthorized("d".to_string()),
        CustomError::Unexpected("e".to_string()),
        CustomError::Duplicated("f".to_string()),
        CustomError::NoFieldUpdate("g".to_string()),
    ];
    for e in all {
        let (status, _) = e.into_response();
        let unexpected = matches!(e, CustomError::Unexpected(_));
        assert_eq!(status >= 500, unexpected);
        assert!(status >= 400 && status <= 500);
    }
}

#[test]
fn database_failure_becomes_database_error() {
    let e = CustomError::from_db(DbFailure::Database("violates".to_string()), None);
    assert_eq!(e, CustomError::DatabaseError("violates".to_string()));
}

#[test]
fn missing_row_becomes_the_given_error() {
    let e = CustomError::from_db(
        DbFailure::RowNotFound("no rows".to_string()),
        Some(CustomError::duplicated("User")),
    );
    assert_eq!(e, CustomError::Duplicated("User".to_string()));
}

#[test]
fn missing_row_without_a_lookup_is_unexpected() {
    let e = CustomError::from_db(DbFailure::RowNotFound("no rows".to_string()), None);
    assert_eq!(e, CustomError::Unexpected("no rows".to_string()));
}

#[test]
fn other_failures_are_unexpected() {
    let e = CustomError::from_db(DbFailure::Other("pool timed out".to_string()), Some(CustomError::not_found("User")));
    assert_eq!(e, CustomError::Unexpected("pool timed out".to_string()));
}
