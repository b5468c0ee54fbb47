use household_ledger::errors::CustomError;
use household_ledger::user::login_type::LoginType;

#[test]
fn every_login_type_name_parses_back() {
    let all = vec![LoginType::Email, LoginType::Google, LoginType::Naver, LoginType::Kakao, LoginType::Meta];
    for t in all {
        let name = t.to_string();
        assert_eq!(LoginType::parse(&name), Ok(t));
    }
}

#[test]
fn login_type_names() {
    assert_eq!(LoginType::Email.to_string(), "email");
    assert_eq!(LoginType::Google.to_string(), "google");
    assert_eq!(LoginType::Naver.to_string(), "naver");
    assert_eq!(LoginType::Kakao.to_string(), "kakao");
    assert_eq!(LoginType::Meta.to_string(), "meta");
}

#[test]
fn login_type_parse_ignores_case() {
    assert_eq!(LoginType::parse("GOOGLE"), Ok(LoginType::Google));
    assert_eq!(LoginType::parse("Kakao"), Ok(LoginType::Kakao));
    assert_eq!(LoginType::parse("eMaIl"), Ok(LoginType::Email));
    assert_eq!(LoginType::parse("NaVeR"), Ok(LoginType::Naver));
    assert_eq!(LoginType::parse("META"), Ok(LoginType::Meta));
}

#[test]
fn unknown_login_type_is_a_validation_error() {
    assert_eq!(LoginType::parse("github"), Err(CustomError::ValidationError("LoginType".to_string())));
    assert_eq!(LoginType::parse(""), Err(CustomError::ValidationError("LoginType".to_string())));
    assert_eq!(LoginType::parse(" email"), Err(CustomError::ValidationError("LoginType".to_string())));
}

#[test]
fn login_type_from_str() {
    let t: LoginType = "naver".parse().unwrap();
    assert_eq!(t, LoginType::Naver);
    let e: Result<LoginType, CustomError> = "twitter".parse();
    assert_eq!(e, Err(CustomError::ValidationError("LoginType".to_string())));
}

#[test]
fn uppercased_names_parse_back() {
    for t in [LoginType::Email, LoginType::Google, LoginType::Naver, LoginType::Kakao, LoginType::Meta] {
        let upper = t.to_string().to_uppercase();
        assert_eq!(LoginType::parse(&upper), Ok(t));
        let parsed: LoginType = upper.parse().unwrap();
        assert_eq!(parsed, t);
    }
}
