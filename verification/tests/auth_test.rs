use household_ledger::auth::{auth_failure, require_token, select_token, ErrorResponse};

#[test]
fn cookie_token_comes_first() {
    let t = select_token(Some("cookie-token".to_string()), Some("Bearer header-token"));
    assert_eq!(t, Some("cookie-token".to_string()));
}

#[test]
fn bearer_header_token_is_what_follows_the_scheme() {
    assert_eq!(select_token(None, Some("Bearer abc.def.ghi")), Some("abc.def.ghi".to_string()));
}

#[test]
fn bearer_header_is_cut_after_seven_bytes() {
    assert_eq!(select_token(None, Some("Bearerxtoken")), Some("token".to_string()));
    assert_eq!(select_token(None, Some("Bearer ")), Some(String::new()));
}

#[test]
fn other_schemes_give_no_token() {
    assert_eq!(select_token(None, Some("Basic dXNlcjpwdw==")), None);
    assert_eq!(select_token(None, Some("bearer abc")), None);
    assert_eq!(select_token(None, None), None);
}

#[test]
fn missing_token_is_refused_with_401() {
    let r = require_token(None, None);
    assert_eq!(r, Err((401, ErrorResponse { message: "토큰 검증 실패".to_string() })));
    assert_eq!(auth_failure(), (401, ErrorResponse { message: "토큰 검증 실패".to_string() }));
}

#[test]
fn present_token_is_passed_on() {
    assert_eq!(require_token(None, Some("Bearer t0k3n")), Ok("t0k3n".to_string()));
    assert_eq!(require_token(Some("c".to_string()), None), Ok("c".to_string()));
}

#[test]
fn cookie_token_with_a_short_bearer_header() {
    assert_eq!(select_token(Some("c".to_string()), Some("Bearer")), Some("c".to_string()));
    assert_eq!(require_token(Some("c".to_string()), Some("Bearer")), Ok("c".to_string()));
}
