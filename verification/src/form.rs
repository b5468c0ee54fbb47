//! `application/x-www-form-urlencoded` query strings, written by the
//! `form_urlencoded` serializer of the `url` crate.
use vstd::prelude::*;
use vstd::utf8::encode_utf8;

verus! {

/// Whether a byte is written as it is.
pub open spec fn form_unchanged(b: u8) -> bool {
    b == 42 || b == 45 || b == 46 || b == 95 || (48 <= b <= 57) || (65 <= b <= 90) || (97 <= b <= 122)
}

/// An upper-case hexadecimal digit.
pub open spec fn hex_upper(d: u8) -> char {
    if d < 10 {
        (48 + d) as char
    } else {
        (55 + d) as char
    }
}

/// How one byte is written: `*-._`, digits and ASCII letters as they are,
/// a space as `+`, any other byte as `%` and two upper-case hex digits.
pub open spec fn form_byte(b: u8) -> Seq<char> {
    if form_unchanged(b) {
        seq![b as char]
    } else if b == 32 {
        seq!['+']
    } else {
        seq!['%', hex_upper(b / 16), hex_upper(b % 16)]
    }
}

/// How a sequence of bytes is written.
pub open spec fn form_bytes(bytes: Seq<u8>) -> Seq<char>
    decreases bytes.len(),
{
    if bytes.len() == 0 {
        Seq::empty()
    } else {
        form_bytes(bytes.drop_last()) + form_byte(bytes.last())
    }
}

/// How a text is written: its UTF-8 bytes, one by one.
pub open spec fn form_text(s: Seq<char>) -> Seq<char> {
    form_bytes(encode_utf8(s))
}

/// A name and value pair written as `name=value`.
pub open spec fn form_pair(p: (Seq<char>, Seq<char>)) -> Seq<char> {
    form_text(p.0) + seq!['='] + form_text(p.1)
}

/// The pairs written in order, separated by `&`.
pub open spec fn form_query(pairs: Seq<(Seq<char>, Seq<char>)>) -> Seq<char>
    decreases pairs.len(),
{
    if pairs.len() == 0 {
        Seq::empty()
    } else if pairs.len() == 1 {
        form_pair(pairs[0])
    } else {
        form_query(pairs.drop_last()) + seq!['&'] + form_pair(pairs.last())
    }
}

/// Calls `url::form_urlencoded::Serializer::append_pair` once, on a
/// serializer of the given text, and `finish`.
///
/// Trusted: the result is what the `form_urlencoded` source writes: the
/// text, then `&` where the text is not empty, `byte_serialize` of the name,
/// `=` and `byte_serialize` of the value.
#[verifier::external_body]
fn append_form_pair(text: String, name: &str, value: &str) -> (r: String)
    ensures
        r@ == text@ + (if text@.len() > 0 { seq!['&'] } else { Seq::empty() }) + form_pair((name@, value@)),
{
    let mut serializer = url::form_urlencoded::Serializer::new(text);
    serializer.append_pair(name, value);
    serializer.finish()
}

/// Appends one more pair to a query string of the pairs so far.
pub fn push_form_pair(
    text: String,
    name: &str,
    value: &str,
    Ghost(pairs): Ghost<Seq<(Seq<char>, Seq<char>)>>,
) -> (r: String)
    requires
        text@ == form_query(pairs),
    ensures
        r@ == form_query(pairs.push((name@, value@))),
{
    proof {
        lemma_form_query_empty(pairs);
        assert(pairs.push((name@, value@)).drop_last() =~= pairs);
    }
    let r = append_form_pair(text, name, value);
    proof {
        if pairs.len() == 0 {
            assert(r@ =~= form_query(pairs.push((name@, value@))));
        }
    }
    r
}

/// A query string is empty exactly when it has no pair: every pair writes
/// at least its `=`.
pub proof fn lemma_form_query_empty(pairs: Seq<(Seq<char>, Seq<char>)>)
    ensures
        form_query(pairs).len() == 0 <==> pairs.len() == 0,
{
    if pairs.len() == 1 {
        assert(form_pair(pairs[0])[form_text(pairs[0].0).len() as int] == '=');
    } else if pairs.len() > 1 {
        assert(form_query(pairs)[form_query(pairs.drop_last()).len() as int] == '&');
    }
}

} // verus!
