use household_ledger::user::validator::{
    validation_email, validation_password_strength, validation_phone, PasswordValidationError,
};
use regex::Regex;

fn email_by_pattern(s: &str) -> bool {
    Regex::new(r"^[a-zA-Z0-9_.+-]+@[a-zA-Z0-9-]+\.[a-zA-Z0-9-.]+$").unwrap().is_match(s)
}

fn phone_by_pattern(s: &str) -> bool {
    let digits: String = s.chars().filter(|c| c.is_digit(10)).collect();
    Regex::new(r#"^[\d\s\-\(\)]+$"#).unwrap().is_match(s) && digits.len() >= 10
}

#[test]
fn strong_password_passes() {
    assert_eq!(validation_password_strength("Str0nGPassW0rd!@"), Ok(()));
}

#[test]
fn weak_password_lists_every_broken_rule() {
    assert_eq!(
        validation_password_strength("nostrong"),
        Err(vec![
            PasswordValidationError::MissingUppercase,
            PasswordValidationError::MissingNumber,
            PasswordValidationError::MissingSpecialChar,
        ])
    );
    assert_eq!(
        validation_password_strength(""),
        Err(vec![
            PasswordValidationError::TooShort,
            PasswordValidationError::MissingUppercase,
            PasswordValidationError::MissingLowercase,
            PasswordValidationError::MissingNumber,
            PasswordValidationError::MissingSpecialChar,
        ])
    );
}

#[test]
fn short_password_is_too_short() {
    assert_eq!(validation_password_strength("Ab1!"), Err(vec![PasswordValidationError::TooShort]));
    assert_eq!(validation_password_strength("Abcdef1!"), Ok(()));
}

#[test]
fn password_length_counts_bytes() {
    // Four Hangul syllables are twelve bytes.
    assert_eq!(
        validation_password_strength("가나다라"),
        Err(vec![
            PasswordValidationError::MissingUppercase,
            PasswordValidationError::MissingLowercase,
            PasswordValidationError::MissingNumber,
            PasswordValidationError::MissingSpecialChar,
        ])
    );
}

#[test]
fn each_special_character_counts() {
    for c in "!@#$%^&*(),.?\":{}|<>".chars() {
        let p = format!("Abcdefg1{}", c);
        assert_eq!(validation_password_strength(&p), Ok(()), "{}", p);
    }
    assert_eq!(
        validation_password_strength("Abcdefg1~"),
        Err(vec![PasswordValidationError::MissingSpecialChar])
    );
}

#[test]
fn unicode_letters_count_as_upper_and_lower_case() {
    assert_eq!(validation_password_strength("ÀéÎõüñ1!"), Ok(()));
}

#[test]
fn email_shapes() {
    let cases = [
        ("test1234@test.test", true),
        ("email@notvalid", false),
        ("a.b+c_d-e@host-1.co.kr", true),
        ("@test.test", false),
        ("a@.test", false),
        ("a@test.", false),
        ("a@test..", true),
        ("a@b@c.d", false),
        ("a b@c.d", false),
        ("a@c.d e", false),
        ("한@c.d", false),
        ("", false),
        ("a@b.c\n", false),
    ];
    for (s, expected) in cases.iter() {
        assert_eq!(validation_email(s), *expected, "{:?}", s);
        assert_eq!(validation_email(s), email_by_pattern(s), "{:?}", s);
    }
}

#[test]
fn phone_shapes() {
    let cases = [
        ("010-1234-5678", true),
        ("010-11-49483", true),
        ("010-11-3", false),
        ("(02) 123 4567 89", true),
        ("0101234567", true),
        ("010123456", false),
        ("010-1234-567a", false),
        ("", false),
        ("010\t1234\u{3000}5678", true),
        ("٠١٢٣٤٥٦٧٨٩", false),
        ("٠١٢٣٤٥٦٧٨٩0123456789", true),
    ];
    for (s, expected) in cases.iter() {
        assert_eq!(validation_phone(s), *expected, "{:?}", s);
        assert_eq!(validation_phone(s), phone_by_pattern(s), "{:?}", s);
    }
}
