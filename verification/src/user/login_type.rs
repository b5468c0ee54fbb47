//! The ways a user can sign in, and their names in requests and in storage.
use crate::errors::CustomError;
use crate::text::{ascii_lower, is_ascii_lower_alnum, is_ascii_text, str_equal, to_lowercase, unicode_lowercase};
use vstd::prelude::*;
use vstd::string::*;

verus! {

/// How a user signs in: with an e-mail address and a password, or through
/// one of the OAuth providers.
#[derive(Debug, Clone, Copy, PartialEq, Eq, Structural)]
pub enum LoginType {
    Email,
    Google,
    Naver,
    Kakao,
    Meta,
}

/// The lowercase name under which a login type is stored and sent.
pub open spec fn login_type_name(t: LoginType) -> Seq<char> {
    match t {
        LoginType::Email => "email"@,
        LoginType::Google => "google"@,
        LoginType::Naver => "naver"@,
        LoginType::Kakao => "kakao"@,
        LoginType::Meta => "meta"@,
    }
}

/// The login type whose name is exactly `s`, if any.
pub open spec fn login_type_named(s: Seq<char>) -> Option<LoginType> {
    if s == "google"@ {
        Some(LoginType::Google)
    } else if s == "meta"@ {
        Some(LoginType::Meta)
    } else if s == "email"@ {
        Some(LoginType::Email)
    } else if s == "kakao"@ {
        Some(LoginType::Kakao)
    } else if s == "naver"@ {
        Some(LoginType::Naver)
    } else {
        None
    }
}

/// Whether `r` is what parsing a text gives whose lower-cased form is `lowered`.
pub open spec fn is_parse_of(r: Result<LoginType, CustomError>, lowered: Seq<char>) -> bool {
    match login_type_named(lowered) {
        Some(t) => r == Ok::<LoginType, CustomError>(t),
        None => r matches Err(CustomError::ValidationError(m)) && m@ == "LoginType"@,
    }
}

impl LoginType {
    /// Parses a login type name, ignoring case.
    pub fn parse(s: &str) -> (r: Result<LoginType, CustomError>)
        ensures
            is_parse_of(r, unicode_lowercase(s@)),
            is_ascii_text(s@) ==> is_parse_of(r, ascii_lower(s@)),
            is_ascii_lower_alnum(s@) ==> is_parse_of(r, s@),
    {
        let lowered = to_lowercase(s);
        let l = lowered.as_str();
        if str_equal(l, "google") {
            Ok(LoginType::Google)
        } else if str_equal(l, "meta") {
            Ok(LoginType::Meta)
        } else if str_equal(l, "email") {
            Ok(LoginType::Email)
        } else if str_equal(l, "kakao") {
            Ok(LoginType::Kakao)
        } else if str_equal(l, "naver") {
            Ok(LoginType::Naver)
        } else {
            Err(CustomError::validation("LoginType"))
        }
    }

    /// The lowercase name of the login type.
    pub fn to_string(&self) -> (r: String)
        ensures
            r@ == login_type_name(*self),
    {
        match self {
            LoginType::Email => String::from_str("email"),
            LoginType::Google => String::from_str("google"),
            LoginType::Naver => String::from_str("naver"),
            LoginType::Kakao => String::from_str("kakao"),
            LoginType::Meta => String::from_str("meta"),
        }
    }
}

impl std::str::FromStr for LoginType {
    type Err = CustomError;

    /// Parses a login type name, ignoring case, as `LoginType::parse` does.
    fn from_str(s: &str) -> (r: Result<LoginType, CustomError>)
        ensures
            is_parse_of(r, unicode_lowercase(s@)),
            is_ascii_text(s@) ==> is_parse_of(r, ascii_lower(s@)),
            is_ascii_lower_alnum(s@) ==> is_parse_of(r, s@),
    {
        LoginType::parse(s)
    }
}

/// The name of every login type is lowercase ASCII and parses back to that
/// login type: `LoginType::parse(&t.to_string())` is `Ok(t)`.
pub proof fn law_login_type_name_parses_back(t: LoginType)
    ensures
        is_ascii_lower_alnum(login_type_name(t)),
        login_type_named(login_type_name(t)) == Some(t),
{
    reveal_strlit("email");
    reveal_strlit("google");
    reveal_strlit("naver");
    reveal_strlit("kakao");
    reveal_strlit("meta");
    assert("meta"@[0] != "google"@[0]);
    assert("email"@[0] != "google"@[0] && "email"@[0] != "meta"@[0]);
    assert("kakao"@[0] != "google"@[0] && "kakao"@[0] != "meta"@[0] && "kakao"@[0] != "email"@[0]);
    assert("naver"@[0] != "google"@[0] && "naver"@[0] != "meta"@[0] && "naver"@[0] != "email"@[0]
        && "naver"@[0] != "kakao"@[0]);
}

/// A login type name parses back in any mix of ASCII case: for an ASCII text
/// whose letters, lowered, spell the name of `t` (such as `GOOGLE` or
/// `Kakao` for the names `google` and `kakao`), `LoginType::parse` and
/// `from_str` give `Ok(t)`.
pub proof fn law_login_type_parse_ignores_ascii_case(t: LoginType, s: Seq<char>)
    requires
        is_ascii_text(s),
        ascii_lower(s) == login_type_name(t),
    ensures
        forall|r: Result<LoginType, CustomError>| is_parse_of(r, ascii_lower(s)) ==> r == Ok::<LoginType, CustomError>(t),
{
    law_login_type_name_parses_back(t);
}

} // verus!
