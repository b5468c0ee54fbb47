use household_ledger::errors::DbFailure;
use household_ledger::user::entity::User;
use household_ledger::user::repository::{delete_user_statement, save_user_failure, save_user_statement, user_by_id_statement, user_by_username_statement, user_lookup_failure};
use household_ledger::constants::FieldUpdate;
use household_ledger::errors::CustomError;
use household_ledger::sql::SqlParam;
use household_ledger::user::dto::{EditPassword, EditUser};
use household_ledger::user::entity::UpdateUser;
use household_ledger::user::repository::{build_user_update, check_rows_affected, check_stored_password};

/// The statement text as the service writes it: each written column takes
/// the next placeholder, the id the one after them.
fn expected_sql(columns: &[&str]) -> String {
    let mut q = "UPDATE tb_user SET ".to_string();
    let mut index = 0;
    for c in columns {
        index += 1;
        q.push_str(&format!("{} = ${}, ", c, index));
    }
    q.push_str("updated_at = NOW()");
    q.push_str(&format!(" WHERE id = ${}", index + 1));
    q
}

#[test]
fn update_of_every_column() {
    let u = UpdateUser::new(
        FieldUpdate::SetValue(9),
        FieldUpdate::SetValue("new_password".to_string()),
        FieldUpdate::SetValue("010-2345-6789".to_string()),
        FieldUpdate::SetValue("newname".to_string()),
    );
    let st = build_user_update(42, &u).unwrap();
    assert_eq!(st.sql, expected_sql(&["profile_id", "password", "nickname", "phone"]));
    assert_eq!(
        st.sql,
        "UPDATE tb_user SET profile_id = $1, password = $2, nickname = $3, phone = $4, updated_at = NOW() WHERE id = $5"
    );
    assert_eq!(
        st.params,
        vec![
            SqlParam::I32(9),
            SqlParam::Text("new_password".to_string()),
            SqlParam::Text("newname".to_string()),
            SqlParam::Text("010-2345-6789".to_string()),
            SqlParam::I32(42),
        ]
    );
}

#[test]
fn update_that_clears_the_profile_image() {
    let u = UpdateUser::new(FieldUpdate::SetNone, FieldUpdate::NoChange, FieldUpdate::NoChange, FieldUpdate::NoChange);
    let st = build_user_update(1, &u).unwrap();
    assert_eq!(st.sql, expected_sql(&["profile_id"]));
    assert_eq!(st.params, vec![SqlParam::NullI32, SqlParam::I32(1)]);
}

#[test]
fn update_of_phone_alone() {
    let u = UpdateUser::new(
        FieldUpdate::NoChange,
        FieldUpdate::NoChange,
        FieldUpdate::SetValue("010-2345-6789".to_string()),
        FieldUpdate::NoChange,
    );
    let st = build_user_update(3, &u).unwrap();
    assert_eq!(st.sql, "UPDATE tb_user SET phone = $1, updated_at = NOW() WHERE id = $2");
    assert_eq!(st.params, vec![SqlParam::Text("010-2345-6789".to_string()), SqlParam::I32(3)]);
}

#[test]
fn cleared_texts_are_not_written() {
    let u = UpdateUser::new(FieldUpdate::NoChange, FieldUpdate::SetNone, FieldUpdate::SetNone, FieldUpdate::SetNone);
    assert_eq!(build_user_update(3, &u).unwrap_err(), CustomError::NoFieldUpdate("User".to_string()));
}

#[test]
fn update_without_a_change_is_refused() {
    let u = EditUser::new(None, None, None, None).to_update();
    assert_eq!(build_user_update(3, &u).unwrap_err(), CustomError::NoFieldUpdate("User".to_string()));
}

#[test]
fn edit_request_to_statement() {
    let e = EditUser::new(
        Some(0),
        Some(EditPassword::new("new_password".to_string(), "original_password".to_string())),
        None,
        Some("nick".to_string()),
    );
    let st = build_user_update(8, &e.to_update()).unwrap();
    assert_eq!(st.sql, expected_sql(&["profile_id", "password", "nickname"]));
    assert_eq!(
        st.params,
        vec![
            SqlParam::NullI32,
            SqlParam::Text("new_password".to_string()),
            SqlParam::Text("nick".to_string()),
            SqlParam::I32(8),
        ]
    );
}

#[test]
fn no_affected_row_means_not_found() {
    assert_eq!(check_rows_affected(0, "User"), Err(CustomError::NotFound("User".to_string())));
    assert_eq!(check_rows_affected(1, "User"), Ok(()));
    assert_eq!(check_rows_affected(3, "Record"), Ok(()));
}

#[test]
fn stored_password_must_match() {
    assert_eq!(check_stored_password("test_password", "test_password"), Ok(()));
    assert_eq!(check_stored_password("test_password", "incorrect_password"), Err(CustomError::ValidationError("User".to_string())));
}

#[test]
fn insert_of_an_account_binds_every_column_in_order() {
    let user = User::new(
        "test1234@test.test".to_string(),
        "test_password".to_string(),
        "nickname".to_string(),
        "mail@test.test".to_string(),
        "email".to_string(),
    )
    .phone(Some("010-1234-5678".to_string()));
    let st = save_user_statement(&user);
    assert!(st.sql.starts_with("INSERT INTO tb_user (username, password, nickname, phone, \n"));
    assert!(st.sql.contains("VALUES ($1, $2, $3, $4, $5, $6, $7)\n            ON CONFLICT (username) DO NOTHING\n"));
    assert_eq!(
        st.params,
        vec![
            SqlParam::Text("test1234@test.test".to_string()),
            SqlParam::Text("test_password".to_string()),
            SqlParam::Text("nickname".to_string()),
            SqlParam::OptText(Some("010-1234-5678".to_string())),
            SqlParam::Text("email".to_string()),
            SqlParam::Text("mail@test.test".to_string()),
            SqlParam::OptText(None),
        ]
    );
}

#[test]
fn account_reads_and_delete() {
    let st = user_by_id_statement(32);
    assert_eq!(st.sql, "SELECT * FROM tb_user WHERE id = $1");
    assert_eq!(st.params, vec![SqlParam::I32(32)]);
    let st = user_by_username_statement("login_test@test.test");
    assert_eq!(st.sql, "SELECT * FROM tb_user WHERE username = $1");
    assert_eq!(st.params, vec![SqlParam::Text("login_test@test.test".to_string())]);
    let st = delete_user_statement(7);
    assert_eq!(st.sql, "UPDATE tb_user SET is_active = FALSE, updated_at = NOW() WHERE id = $1");
    assert_eq!(st.params, vec![SqlParam::I32(7)]);
}

#[test]
fn failures_of_account_statements() {
    assert_eq!(save_user_failure(DbFailure::RowNotFound("none".to_string())), CustomError::Duplicated("User".to_string()));
    assert_eq!(user_lookup_failure(DbFailure::RowNotFound("none".to_string())), CustomError::NotFound("User".to_string()));
    assert_eq!(
        user_lookup_failure(DbFailure::Database("bad".to_string())),
        CustomError::DatabaseError("bad".to_string())
    );
    assert_eq!(save_user_failure(DbFailure::Other("io".to_string())), CustomError::Unexpected("io".to_string()));
}
