use household_ledger::constants::FieldUpdate;
use household_ledger::user::dto::{EditPassword, EditUser, LoginInfo, NewUser, UserInfo};
use household_ledger::user::entity::{UpdateUser, User};
use household_ledger::user::login_type::LoginType;

fn sample_new_user(confirm: &str) -> NewUser {
    NewUser::new(
        LoginType::Email,
        "test1234@test.test".to_string(),
        "Str0nGPassW0rd!@".to_string(),
        confirm.to_string(),
        "nickname".to_string(),
        "test1234@test.test".to_string(),
        Some("010-1234-5678".to_string()),
        None,
    )
}

#[test]
fn new_user_getters() {
    let n = sample_new_user("Str0nGPassW0rd!@");
    assert_eq!(n.get_login_type(), LoginType::Email);
    assert_eq!(n.get_username(), "test1234@test.test");
    assert_eq!(n.password(), "Str0nGPassW0rd!@");
    assert_eq!(n.get_password_confirm(), "Str0nGPassW0rd!@");
    assert_eq!(n.get_nickname(), "nickname");
    assert_eq!(n.get_email(), "test1234@test.test");
    assert_eq!(n.get_phone(), &Some("010-1234-5678".to_string()));
    assert_eq!(n.get_access_token(), &None);
}

#[test]
fn password_matching() {
    assert!(sample_new_user("Str0nGPassW0rd!@").is_password_matching());
    assert!(!sample_new_user("pwnotmatch").is_password_matching());
}

#[test]
fn set_password_keeps_the_confirmation() {
    let mut n = sample_new_user("Str0nGPassW0rd!@");
    n.set_password("$argon2id$hash".to_string());
    assert_eq!(n.password(), "$argon2id$hash");
    assert_eq!(n.get_password_confirm(), "Str0nGPassW0rd!@");
    assert!(!n.is_password_matching());
}

#[test]
fn new_user_entity() {
    let u = sample_new_user("Str0nGPassW0rd!@").to_entity();
    assert_eq!(u.get_id(), &None);
    assert_eq!(u.get_login_type(), "email");
    assert_eq!(u.get_username(), "test1234@test.test");
    assert_eq!(u.get_password(), "Str0nGPassW0rd!@");
    assert_eq!(u.get_nickname(), "nickname");
    assert_eq!(u.get_email(), "test1234@test.test");
    assert_eq!(u.get_phone(), &Some("010-1234-5678".to_string()));
    assert_eq!(u.get_access_token(), &None);
    assert_eq!(u.get_profile_id(), &None);
    assert!(u.get_is_active());
    assert!(!u.get_is_admin());
}

#[test]
fn edit_password_getters() {
    let p = EditPassword::new("new_password".to_string(), "original_password".to_string());
    assert_eq!(p.get_new(), "new_password");
    assert_eq!(p.get_password(), "original_password");
}

#[test]
fn edit_user_to_update() {
    let e = EditUser::new(
        Some(3),
        Some(EditPassword::new("new_password".to_string(), "original_password".to_string())),
        Some("010-2345-6789".to_string()),
        None,
    );
    assert_eq!(e.get_profile_id(), Some(3));
    assert_eq!(e.get_phone(), &Some("010-2345-6789".to_string()));
    assert_eq!(e.get_nickname(), &None);
    assert!(e.get_password().is_some());
    let u = e.to_update();
    assert_eq!(
        u,
        UpdateUser::new(
            FieldUpdate::SetValue(3),
            FieldUpdate::SetValue("new_password".to_string()),
            FieldUpdate::SetValue("010-2345-6789".to_string()),
            FieldUpdate::NoChange,
        )
    );
}

#[test]
fn profile_id_zero_clears_the_profile_image() {
    let u = EditUser::new(Some(0), None, None, Some("newname".to_string())).to_update();
    assert_eq!(u.get_profile_id(), &FieldUpdate::SetNone);
    assert_eq!(u.get_password(), &FieldUpdate::NoChange);
    assert_eq!(u.get_phone(), &FieldUpdate::NoChange);
    assert_eq!(u.get_nickname(), &FieldUpdate::SetValue("newname".to_string()));
}

#[test]
fn empty_edit_changes_nothing() {
    let u = EditUser::new(None, None, None, None).to_update();
    assert_eq!(
        u,
        UpdateUser::new(FieldUpdate::NoChange, FieldUpdate::NoChange, FieldUpdate::NoChange, FieldUpdate::NoChange)
    );
}

#[test]
fn login_info_getters_and_entity() {
    let l = LoginInfo::new(
        "navertest_unique_id".to_string(),
        "valid_pw_naver".to_string(),
        LoginType::Naver,
        Some("naver_test_email@test.test".to_string()),
        Some("testnick".to_string()),
        Some("oauth-token".to_string()),
    );
    assert_eq!(l.get_login_type(), &LoginType::Naver);
    assert_eq!(l.get_username(), "navertest_unique_id");
    assert_eq!(l.get_password(), "valid_pw_naver");
    assert_eq!(l.get_email(), &Some("naver_test_email@test.test".to_string()));
    assert_eq!(l.get_nickname(), &Some("testnick".to_string()));
    assert_eq!(l.get_access_token(), &Some("oauth-token".to_string()));
    let u = l.to_entity();
    let expected = User::new(
        "navertest_unique_id".to_string(),
        "valid_pw_naver".to_string(),
        "testnick".to_string(),
        "naver_test_email@test.test".to_string(),
        "naver".to_string(),
    );
    assert_eq!(u, expected);
}

#[test]
fn user_info_getters() {
    let i = UserInfo::new(
        7,
        "test1234@test.test".to_string(),
        "test1234@test.test".to_string(),
        "nickname".to_string(),
        LoginType::Google,
        Some("010-1234-5678".to_string()),
        Some(2),
    );
    assert_eq!(i.get_id(), 7);
    assert_eq!(i.get_username(), "test1234@test.test");
    assert_eq!(i.get_email(), "test1234@test.test");
    assert_eq!(i.get_nickname(), "nickname");
    assert_eq!(i.get_login_type(), LoginType::Google);
    assert_eq!(i.get_phone(), &Some("010-1234-5678".to_string()));
    assert_eq!(i.get_profile_id(), Some(2));
}
