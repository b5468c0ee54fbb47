//! The rules that sign-up and account edit requests must meet: password
//! strength, e-mail address shape and phone number shape.
use vstd::prelude::*;
use vstd::string::*;
use crate::text::is_ascii_char;
use vstd::utf8::encode_utf8;

verus! {

/// A rule of password strength that a password breaks.
#[derive(Debug, Clone, Copy, PartialEq, Eq, Structural)]
pub enum PasswordValidationError {
    TooShort,
    MissingUppercase,
    MissingLowercase,
    MissingNumber,
    MissingSpecialChar,
    TooSimple,
}

/// Whether `char::is_uppercase` holds of a character (the Unicode
/// `Uppercase` property).
pub uninterp spec fn unicode_uppercase(c: char) -> bool;

/// Whether `char::is_lowercase` holds of a character (the Unicode
/// `Lowercase` property).
pub uninterp spec fn unicode_lowercase_char(c: char) -> bool;

/// Whether `char::is_whitespace` holds of a character (the Unicode
/// `White_Space` property).
pub uninterp spec fn unicode_white_space(c: char) -> bool;

/// Whether a character is a decimal digit of any script (Unicode general
/// category `Nd`, the class `\d` of the `regex` crate).
pub uninterp spec fn unicode_decimal_digit(c: char) -> bool;

/// `char::is_uppercase`: of the ASCII characters, `A` to `Z`.
pub open spec fn is_uppercase_char(c: char) -> bool {
    if is_ascii_char(c) { 'A' <= c <= 'Z' } else { unicode_uppercase(c) }
}

/// `char::is_lowercase`: of the ASCII characters, `a` to `z`.
pub open spec fn is_lowercase_char(c: char) -> bool {
    if is_ascii_char(c) { 'a' <= c <= 'z' } else { unicode_lowercase_char(c) }
}

/// `char::is_whitespace`: of the ASCII characters, the space and U+0009 to U+000D.
pub open spec fn is_white_space_char(c: char) -> bool {
    if is_ascii_char(c) { c == ' ' || '\u{9}' <= c <= '\u{d}' } else { unicode_white_space(c) }
}

/// The `regex` class `\d` (category `Nd`): of the ASCII characters, `0` to `9`.
pub open spec fn is_decimal_digit_char(c: char) -> bool {
    if is_ascii_char(c) { '0' <= c <= '9' } else { unicode_decimal_digit(c) }
}

/// Calls `char::is_uppercase`.
///
/// Trusted: of the ASCII characters, `A` to `Z` and no other have the
/// property, as std documents; for any other character the result is named
/// by `unicode_uppercase`.
#[verifier::external_body]
fn char_is_uppercase(c: char) -> (r: bool)
    ensures
        r == (if is_ascii_char(c) { 'A' <= c <= 'Z' } else { unicode_uppercase(c) }),
{
    c.is_uppercase()
}

/// Calls `char::is_lowercase`.
///
/// Trusted: of the ASCII characters, `a` to `z` and no other have the
/// property, as std documents; for any other character the result is named
/// by `unicode_lowercase_char`.
#[verifier::external_body]
fn char_is_lowercase(c: char) -> (r: bool)
    ensures
        r == (if is_ascii_char(c) { 'a' <= c <= 'z' } else { unicode_lowercase_char(c) }),
{
    c.is_lowercase()
}

/// Calls `char::is_whitespace`.
///
/// Trusted: of the ASCII characters, the space and U+0009 to U+000D (tab,
/// line feed, vertical tab, form feed, carriage return) and no other have
/// the `White_Space` property, as std documents; for any other character the
/// result is named by `unicode_white_space`.
#[verifier::external_body]
fn char_is_whitespace(c: char) -> (r: bool)
    ensures
        r == (if is_ascii_char(c) { c == ' ' || '\u{9}' <= c <= '\u{d}' } else { unicode_white_space(c) }),
{
    c.is_whitespace()
}

/// Calls `regex::Regex::is_match` with the class `\p{Nd}` on the character.
///
/// Trusted: of the ASCII characters, `0` to `9` and no other are in the
/// category `Nd`; for any other character the result is named by
/// `unicode_decimal_digit`. The pattern is valid `regex` syntax, so the
/// `Err` arm is not taken.
#[verifier::external_body]
fn char_is_decimal_digit(c: char) -> (r: bool)
    ensures
        r == (if is_ascii_char(c) { '0' <= c <= '9' } else { unicode_decimal_digit(c) }),
{
    let mut buf = [0u8; 4];
    let text: &str = c.encode_utf8(&mut buf);
    match regex::Regex::new(r"^\p{Nd}$") {
        Ok(re) => re.is_match(text),
        Err(_) => false,
    }
}

/// An ASCII digit `0` to `9`, as `char::is_digit(10)` tells.
pub open spec fn is_ascii_digit(c: char) -> bool {
    '0' <= c <= '9'
}

/// One of the special characters that a strong password must hold.
pub open spec fn is_special_char(c: char) -> bool {
    c == '!' || c == '@' || c == '#' || c == '$' || c == '%' || c == '^' || c == '&' || c == '*'
        || c == '(' || c == ')' || c == ',' || c == '.' || c == '?' || c == '"' || c == ':' || c == '{'
        || c == '}' || c == '|' || c == '<' || c == '>'
}

pub open spec fn has_uppercase(s: Seq<char>) -> bool {
    exists|i: int| 0 <= i < s.len() && is_uppercase_char(#[trigger] s[i])
}

pub open spec fn has_lowercase(s: Seq<char>) -> bool {
    exists|i: int| 0 <= i < s.len() && is_lowercase_char(#[trigger] s[i])
}

pub open spec fn has_ascii_digit(s: Seq<char>) -> bool {
    exists|i: int| 0 <= i < s.len() && is_ascii_digit(#[trigger] s[i])
}

pub open spec fn has_special_char(s: Seq<char>) -> bool {
    exists|i: int| 0 <= i < s.len() && is_special_char(#[trigger] s[i])
}

/// The rules that a password breaks, in this order: shorter than 8 bytes,
/// no uppercase letter, no lowercase letter, no ASCII digit, no special
/// character.
pub open spec fn password_problems(s: Seq<char>) -> Seq<PasswordValidationError> {
    (if encode_utf8(s).len() < 8 { seq![PasswordValidationError::TooShort] } else { Seq::empty() })
        + (if !has_uppercase(s) { seq![PasswordValidationError::MissingUppercase] } else { Seq::empty() })
        + (if !has_lowercase(s) { seq![PasswordValidationError::MissingLowercase] } else { Seq::empty() })
        + (if !has_ascii_digit(s) { seq![PasswordValidationError::MissingNumber] } else { Seq::empty() })
        + (if !has_special_char(s) { seq![PasswordValidationError::MissingSpecialChar] } else { Seq::empty() })
}

/// Checks the strength of a password: `Ok` if it breaks no rule, else every
/// rule it breaks.
pub fn validation_password_strength(password: &str) -> (r: Result<(), Vec<PasswordValidationError>>)
    ensures
        match r {
            Ok(()) => password_problems(password@).len() == 0,
            Err(v) => v@ == password_problems(password@) && v@.len() > 0,
        },
{
    let ghost s = password@;
    let n = password.unicode_len();
    let mut upper = false;
    let mut lower = false;
    let mut digit = false;
    let mut special = false;
    let mut i: usize = 0;
    while i < n
        invariant
            n == s.len(),
            s == password@,
            i <= n,
            upper == (exists|k: int| 0 <= k < i && is_uppercase_char(#[trigger] s[k])),
            lower == (exists|k: int| 0 <= k < i && is_lowercase_char(#[trigger] s[k])),
            digit == (exists|k: int| 0 <= k < i && is_ascii_digit(#[trigger] s[k])),
            special == (exists|k: int| 0 <= k < i && is_special_char(#[trigger] s[k])),
        decreases n - i,
    {
        let c = password.get_char(i);
        if char_is_uppercase(c) {
            upper = true;
        }
        if char_is_lowercase(c) {
            lower = true;
        }
        if '0' <= c && c <= '9' {
            digit = true;
        }
        if c == '!' || c == '@' || c == '#' || c == '$' || c == '%' || c == '^' || c == '&' || c == '*'
            || c == '(' || c == ')' || c == ',' || c == '.' || c == '?' || c == '"' || c == ':' || c == '{'
            || c == '}' || c == '|' || c == '<' || c == '>' {
            special = true;
        }
        i = i + 1;
    }
    assert(upper == has_uppercase(s));
    assert(lower == has_lowercase(s));
    assert(digit == has_ascii_digit(s));
    assert(special == has_special_char(s));
    let short = password.as_bytes().len() < 8;
    assert(short == (encode_utf8(s).len() < 8));
    let mut errors: Vec<PasswordValidationError> = Vec::new();
    if short {
        errors.push(PasswordValidationError::TooShort);
    }
    if !upper {
        errors.push(PasswordValidationError::MissingUppercase);
    }
    if !lower {
        errors.push(PasswordValidationError::MissingLowercase);
    }
    if !digit {
        errors.push(PasswordValidationError::MissingNumber);
    }
    if !special {
        errors.push(PasswordValidationError::MissingSpecialChar);
    }
    assert(errors@ =~= password_problems(s));
    if errors.len() > 0 {
        return Err(errors);
    }
    Ok(())
}

/// A character allowed before the `@` of an e-mail address: ASCII letters
/// and digits and `_.+-`.
pub open spec fn is_local_char(c: char) -> bool {
    ('a' <= c <= 'z') || ('A' <= c <= 'Z') || ('0' <= c <= '9') || c == '_' || c == '.' || c == '+' || c == '-'
}

/// A character allowed in the domain label after the `@`: ASCII letters and
/// digits and `-`.
pub open spec fn is_label_char(c: char) -> bool {
    ('a' <= c <= 'z') || ('A' <= c <= 'Z') || ('0' <= c <= '9') || c == '-'
}

/// A character allowed after the first dot of the domain: ASCII letters
/// and digits, `-` and `.`.
pub open spec fn is_tail_char(c: char) -> bool {
    ('a' <= c <= 'z') || ('A' <= c <= 'Z') || ('0' <= c <= '9') || c == '-' || c == '.'
}

/// An e-mail address splits at an `@` at `at` and a dot at `dot` into a
/// non-empty local part, a non-empty domain label and a non-empty rest.
pub open spec fn email_split(s: Seq<char>, at: int, dot: int) -> bool {
    &&& 0 < at
    &&& at + 1 < dot
    &&& dot + 1 < s.len()
    &&& s[at] == '@'
    &&& s[dot] == '.'
    &&& forall|k: int| 0 <= k < at ==> is_local_char(#[trigger] s[k])
    &&& forall|k: int| at < k < dot ==> is_label_char(#[trigger] s[k])
    &&& forall|k: int| dot < k < s.len() ==> is_tail_char(#[trigger] s[k])
}

/// The shape of an e-mail address: the whole text matches
/// `^[a-zA-Z0-9_.+-]+@[a-zA-Z0-9-]+\.[a-zA-Z0-9-.]+$`.
pub open spec fn is_email(s: Seq<char>) -> bool {
    exists|at: int, dot: int| email_split(s, at, dot)
}

fn local_char(c: char) -> (r: bool)
    ensures
        r == is_local_char(c),
{
    ('a' <= c && c <= 'z') || ('A' <= c && c <= 'Z') || ('0' <= c && c <= '9') || c == '_' || c == '.' || c == '+'
        || c == '-'
}

fn label_char(c: char) -> (r: bool)
    ensures
        r == is_label_char(c),
{
    ('a' <= c && c <= 'z') || ('A' <= c && c <= 'Z') || ('0' <= c && c <= '9') || c == '-'
}

fn tail_char(c: char) -> (r: bool)
    ensures
        r == is_tail_char(c),
{
    ('a' <= c && c <= 'z') || ('A' <= c && c <= 'Z') || ('0' <= c && c <= '9') || c == '-' || c == '.'
}

/// Whether a text has the shape of an e-mail address.
pub fn validation_email(email: &str) -> (r: bool)
    ensures
        r == is_email(email@),
{
    let ghost s = email@;
    let n = email.unicode_len();
    // The local part: every character up to the first `@`.
    let mut at: usize = 0;
    while at < n && email.get_char(at) != '@'
        invariant
            n == s.len(),
            s == email@,
            at <= n,
            forall|k: int| 0 <= k < at ==> is_local_char(#[trigger] s[k]),
        decreases n - at,
    {
        if !local_char(email.get_char(at)) {
            assert forall|i: int, j: int| !email_split(s, i, j) by {
                if email_split(s, i, j) {
                    assert(is_local_char(s[at as int]));
                }
            }
            return false;
        }
        at = at + 1;
    }
    if at == n || at == 0 {
        assert forall|i: int, j: int| !email_split(s, i, j) by {
            if email_split(s, i, j) {
                if at == n {
                    assert(is_local_char(s[i]));
                }
            }
        }
        return false;
    }
    // The domain label: every character up to the first dot after the `@`.
    let mut dot: usize = at + 1;
    while dot < n && email.get_char(dot) != '.'
        invariant
            n == s.len(),
            s == email@,
            0 < at < n,
            s[at as int] == '@',
            forall|k: int| 0 <= k < at ==> is_local_char(#[trigger] s[k]),
            at < dot <= n,
            forall|k: int| at < k < dot ==> is_label_char(#[trigger] s[k]),
        decreases n - dot,
    {
        if !label_char(email.get_char(dot)) {
            assert forall|i: int, j: int| !email_split(s, i, j) by {
                if email_split(s, i, j) {
                    if i < at {
                        assert(is_local_char(s[i]));
                    } else if i > at {
                        assert(is_local_char(s[at as int]));
                    } else if j <= dot {
                        assert(s[j] == '.');
                        assert(is_label_char(s[j]));
                    } else {
                        assert(is_label_char(s[dot as int]));
                    }
                }
            }
            return false;
        }
        dot = dot + 1;
    }
    if dot == n || dot == at + 1 || dot + 1 == n {
        assert forall|i: int, j: int| !email_split(s, i, j) by {
            if email_split(s, i, j) {
                if i < at {
                    assert(is_local_char(s[i]));
                } else if i > at {
                    assert(is_local_char(s[at as int]));
                } else if j < dot {
                    assert(is_label_char(s[j]));
                } else if j > dot {
                    assert(is_label_char(s[dot as int]));
                }
            }
        }
        return false;
    }
    // The rest of the domain.
    let mut k: usize = dot + 1;
    while k < n
        invariant
            n == s.len(),
            s == email@,
            0 < at,
            at + 1 < dot,
            dot + 1 < n,
            s[at as int] == '@',
            s[dot as int] == '.',
            forall|i: int| 0 <= i < at ==> is_local_char(#[trigger] s[i]),
            forall|i: int| at < i < dot ==> is_label_char(#[trigger] s[i]),
            dot < k <= n,
            forall|i: int| dot < i < k ==> is_tail_char(#[trigger] s[i]),
        decreases n - k,
    {
        if !tail_char(email.get_char(k)) {
            assert forall|i: int, j: int| !email_split(s, i, j) by {
                if email_split(s, i, j) {
                    if i < at {
                        assert(is_local_char(s[i]));
                    } else if i > at {
                        assert(is_local_char(s[at as int]));
                    } else if j < dot {
                        assert(is_label_char(s[j]));
                    } else if j > dot {
                        assert(is_label_char(s[dot as int]));
                    } else {
                        assert(is_tail_char(s[k as int]));
                    }
                }
            }
            return false;
        }
        k = k + 1;
    }
    assert(email_split(s, at as int, dot as int));
    true
}

/// A character allowed in a phone number: a decimal digit of any script,
/// white space, `-`, `(` or `)`.
pub open spec fn is_phone_char(c: char) -> bool {
    is_decimal_digit_char(c) || is_white_space_char(c) || c == '-' || c == '(' || c == ')'
}

/// The number of ASCII digits in a text.
pub open spec fn ascii_digit_count(s: Seq<char>) -> nat
    decreases s.len(),
{
    if s.len() == 0 {
        0
    } else {
        ascii_digit_count(s.drop_last()) + if is_ascii_digit(s.last()) { 1nat } else { 0nat }
    }
}

/// The shape of a phone number: a non-empty text of the allowed characters
/// (`^[\d\s\-\(\)]+$`) that holds at least ten ASCII digits.
pub open spec fn is_phone(s: Seq<char>) -> bool {
    &&& s.len() > 0
    &&& forall|k: int| 0 <= k < s.len() ==> is_phone_char(#[trigger] s[k])
    &&& ascii_digit_count(s) >= 10
}

/// Whether a text has the shape of a phone number.
pub fn validation_phone(phone: &str) -> (r: bool)
    ensures
        r == is_phone(phone@),
{
    let ghost s = phone@;
    let n = phone.unicode_len();
    let mut allowed = true;
    let mut digits: usize = 0;
    let mut i: usize = 0;
    while i < n
        invariant
            n == s.len(),
            s == phone@,
            i <= n,
            digits == ascii_digit_count(s.subrange(0, i as int)),
            digits <= i,
            allowed == (forall|k: int| 0 <= k < i ==> is_phone_char(#[trigger] s[k])),
        decreases n - i,
    {
        let c = phone.get_char(i);
        if !(char_is_decimal_digit(c) || char_is_whitespace(c) || c == '-' || c == '(' || c == ')') {
            allowed = false;
        }
        assert(s.subrange(0, i + 1).drop_last() =~= s.subrange(0, i as int));
        assert(s.subrange(0, i + 1).last() == c);
        if '0' <= c && c <= '9' {
            digits = digits + 1;
        }
        i = i + 1;
    }
    assert(s.subrange(0, n as int) =~= s);
    n > 0 && allowed && digits >= 10
}

} // verus!
