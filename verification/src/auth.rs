//! Authentication of private requests: where the access token is taken
//! from, and the answer to a request without a valid token.
use vstd::prelude::*;
use vstd::string::*;
use vstd::utf8::{decode_utf8, encode_utf8, encode_utf8_decode_utf8, is_char_boundary};

verus! {

/// The body of the answer to a request that fails authentication.
#[derive(Debug, Clone, PartialEq)]
pub struct ErrorResponse {
    pub message: String,
}

/// Whether a header value starts with `Bearer`.
pub open spec fn is_bearer(h: Seq<char>) -> bool {
    h.len() >= 6 && h.subrange(0, 6) == "Bearer"@
}

/// The token of a bearer header: what follows its first seven bytes.
pub open spec fn bearer_token(h: Seq<char>) -> Seq<char> {
    decode_utf8(encode_utf8(h).subrange(7, encode_utf8(h).len() as int))
}

/// The access token of a request: the `Authorization` cookie if there is
/// one, else what follows `Bearer ` in the `Authorization` header.
pub open spec fn token_of(cookie: Option<Seq<char>>, header: Option<Seq<char>>) -> Option<Seq<char>> {
    match cookie {
        Some(c) => Some(c),
        None => match header {
            Some(h) => if is_bearer(h) { Some(bearer_token(h)) } else { None },
            None => None,
        },
    }
}

/// Takes the access token of a request from the `Authorization` cookie, or
/// else from an `Authorization` header that starts with `Bearer`. A bearer
/// header is cut after its seventh byte, which must end a character where
/// no cookie is given.
pub fn select_token(cookie: Option<String>, header: Option<&str>) -> (r: Option<String>)
    requires
        cookie is None ==> (header matches Some(h) ==> (is_bearer(h@) ==> is_char_boundary(encode_utf8(h@), 7))),
    ensures
        r.deep_view() == token_of(cookie.deep_view(), match header {
            Some(h) => Some(h@),
            None => None,
        }),
{
    match cookie {
        Some(c) => Some(c),
        None => match header {
            Some(h) => {
                let n = h.unicode_len();
                let mut bearer = n >= 6;
                let mut i: usize = 0;
                while bearer && i < 6
                    invariant
                        n == h@.len(),
                        i <= 6,
                        bearer ==> n >= 6 && forall|k: int| 0 <= k < i ==> h@[k] == "Bearer"@[k],
                        !bearer ==> !is_bearer(h@),
                    decreases 6 - i,
                {
                    proof {
                        reveal_strlit("Bearer");
                    }
                    let c = h.get_char(i);
                    let expected = "Bearer".get_char(i);
                    if c != expected {
                        bearer = false;
                        assert(h@.subrange(0, 6)[i as int] != "Bearer"@[i as int]);
                    }
                    i = i + 1;
                }
                proof {
                    reveal_strlit("Bearer");
                }
                if bearer {
                    assert(h@.subrange(0, 6) =~= "Bearer"@);
                    proof {
                        encode_utf8_decode_utf8(h@);
                    }
                    let (_, rest) = h.split_at(7);
                    proof {
                        encode_utf8_decode_utf8(rest@);
                    }
                    Some(rest.to_owned())
                } else {
                    None
                }
            },
            None => None,
        },
    }
}

/// The message of the answer to a request that fails authentication.
pub open spec fn auth_failure_message() -> Seq<char> {
    "토큰 검증 실패"@
}

/// The answer to a request without a token, or with one that does not
/// verify: status 401 and a fixed message.
pub fn auth_failure() -> (r: (u16, ErrorResponse))
    ensures
        r.0 == 401,
        r.1.message@ == auth_failure_message(),
{
    (401, ErrorResponse { message: String::from_str("토큰 검증 실패") })
}

/// The token that a private request is to be verified with, or the answer
/// that refuses it where it carries none.
pub fn require_token(cookie: Option<String>, header: Option<&str>) -> (r: Result<String, (u16, ErrorResponse)>)
    requires
        cookie is None ==> (header matches Some(h) ==> (is_bearer(h@) ==> is_char_boundary(encode_utf8(h@), 7))),
    ensures
        match token_of(cookie.deep_view(), match header {
            Some(h) => Some(h@),
            None => None,
        }) {
            Some(t) => r matches Ok(s) && s@ == t,
            None => r matches Err(e) && e.0 == 401 && e.1.message@ == auth_failure_message(),
        },
{
    match select_token(cookie, header) {
        Some(t) => Ok(t),
        None => Err(auth_failure()),
    }
}

} // verus!
