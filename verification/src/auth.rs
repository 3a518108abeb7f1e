//! Passwords: where a request carries one, and whether it opens a document.

use vstd::prelude::*;
use base64::Engine;
use crate::document::Doc;
use crate::storage::{hash_password, password_hash_spec};
use crate::text::{
    find_char, first_index, lemma_first_index, str_eq, string_from_utf8, trim, trim_spec,
};

verus! {

/// What the standard base64 alphabet with padding decodes `input` to; `None`
/// where `input` is no such encoding.
pub uninterp spec fn base64_decode(input: Seq<char>) -> Option<Seq<u8>>;

/// Calls `Engine::decode` of the crate `base64` on its `STANDARD` engine.
#[verifier::external_body]
fn decode_base64(input: &str) -> (res: Option<Vec<u8>>)
    ensures
        res matches Some(bytes) ==> base64_decode(input@) == Some(bytes@),
        res is None ==> base64_decode(input@) is None,
{
    base64::engine::general_purpose::STANDARD.decode(input).ok()
}

/// The lower-case form of an ASCII letter, and any other code point itself.
pub open spec fn ascii_lower(c: char) -> u32 {
    if 'A' <= c <= 'Z' {
        (c as u32 + 32) as u32
    } else {
        c as u32
    }
}

/// Two texts are equal up to the case of their ASCII letters.
pub open spec fn eq_ignore_ascii_case_spec(a: Seq<char>, b: Seq<char>) -> bool {
    a.len() == b.len() && forall|i: int| 0 <= i < a.len() ==> ascii_lower(a[i]) == ascii_lower(b[i])
}

/// User and password of a text `user:password`, parted at the first colon.
/// A text without a colon is a user with an empty password.
pub open spec fn split_credentials(text: Seq<char>) -> (Seq<char>, Seq<char>) {
    let i = first_index(text, ':');
    if i < text.len() {
        (text.take(i), text.skip(i + 1))
    } else {
        (text, Seq::empty())
    }
}

/// User and password that decoded bytes hold, if they are UTF-8.
pub open spec fn credentials_spec(decoded: Option<Seq<u8>>) -> Option<(Seq<char>, Seq<char>)> {
    match decoded {
        Some(bytes) => if vstd::utf8::valid_utf8(bytes) {
            Some(split_credentials(vstd::utf8::decode_utf8(bytes)))
        } else {
            None
        },
        None => None,
    }
}

/// The password that credentials carry for the document `slug`: theirs,
/// where their user is the slug.
pub open spec fn password_for(
    credentials: Option<(Seq<char>, Seq<char>)>,
    slug: Seq<char>,
) -> Option<Seq<char>> {
    match credentials {
        Some((user, pass)) => if user == slug {
            Some(pass)
        } else {
            None
        },
        None => None,
    }
}

/// The password that a token carries for the document `slug`. The token is
/// the base64 encoding of `user:password`; white space around it does not
/// count.
pub open spec fn token_password_spec(token: Seq<char>, slug: Seq<char>) -> Option<Seq<char>> {
    password_for(credentials_spec(base64_decode(trim_spec(token))), slug)
}

/// The password that an `Authorization` header carries for the document
/// `slug`: that of its token, where the scheme is `Basic` in any case.
pub open spec fn header_password_spec(header: Option<Seq<char>>, slug: Seq<char>) -> Option<
    Seq<char>,
> {
    match header {
        Some(value) => {
            let text = trim_spec(value);
            let i = first_index(text, ' ');
            if i < text.len() && eq_ignore_ascii_case_spec(text.take(i), "basic"@) {
                token_password_spec(text.skip(i + 1), slug)
            } else {
                None
            }
        },
        None => None,
    }
}

/// Whether `provided` opens a document with the password hash `expected`.
pub open spec fn authorized_spec(expected: Option<Seq<char>>, provided: Option<Seq<char>>) -> bool {
    match (expected, provided) {
        (None, _) => true,
        (Some(hash), Some(password)) => password_hash_spec(password) == hash,
        (Some(_), None) => false,
    }
}

/// The parts of `s` before and after the first `sep`.
fn split_once<'a>(s: &'a str, sep: char) -> (res: Option<(&'a str, &'a str)>)
    ensures
        res is Some <==> first_index(s@, sep) < s@.len(),
        res matches Some((head, tail)) ==> head@ == s@.take(first_index(s@, sep)) && tail@
            == s@.skip(first_index(s@, sep) + 1),
{
    match find_char(s, sep) {
        Some(i) => {
            let n: usize = s.unicode_len();
            let head = s.substring_char(0, i);
            let tail = s.substring_char(i + 1, n);
            Some((head, tail))
        },
        None => None,
    }
}

/// The lower-case form of an ASCII letter, and any other code point itself.
fn lower(c: char) -> (res: u32)
    ensures
        res == ascii_lower(c),
{
    if 'A' <= c && c <= 'Z' {
        c as u32 + 32
    } else {
        c as u32
    }
}

/// Whether two texts are equal up to the case of their ASCII letters.
pub fn eq_ignore_ascii_case(a: &str, b: &str) -> (res: bool)
    ensures
        res == eq_ignore_ascii_case_spec(a@, b@),
{
    let n: usize = a.unicode_len();
    if n != b.unicode_len() {
        return false;
    }
    let mut k: usize = 0;
    while k < n
        invariant
            k <= n,
            n == a@.len(),
            n == b@.len(),
            forall|i: int| 0 <= i < k ==> ascii_lower(a@[i]) == ascii_lower(b@[i]),
        decreases n - k,
    {
        if lower(a.get_char(k)) != lower(b.get_char(k)) {
            return false;
        }
        k += 1;
    }
    true
}

/// User and password that decoded bytes hold: the text parted at its first
/// colon, or all of it as the user. `None` where the bytes are not UTF-8.
pub fn credentials_from_bytes(decoded: Vec<u8>) -> (res: Option<(String, String)>)
    ensures
        res.deep_view() == credentials_spec(Some(decoded@)),
{
    match string_from_utf8(decoded) {
        Some(text) => {
            match split_once(text.as_str(), ':') {
                Some((user, pass)) => Some((String::from_str(user), String::from_str(pass))),
                None => {
                    proof {
                        lemma_first_index(text@, ':');
                    }
                    Some((text, String::new()))
                },
            }
        },
        None => None,
    }
}

/// User and password of a base64 token.
fn parse_basic_payload(encoded: &str) -> (res: Option<(String, String)>)
    ensures
        res.deep_view() == credentials_spec(base64_decode(trim_spec(encoded@))),
{
    match decode_base64(trim(encoded)) {
        Some(decoded) => credentials_from_bytes(decoded),
        None => None,
    }
}

/// The password that credentials carry for the document `slug`.
fn password_of(credentials: Option<(String, String)>, slug: &str) -> (res: Option<String>)
    ensures
        res.deep_view() == password_for(credentials.deep_view(), slug@),
{
    match credentials {
        Some((user, pass)) => if str_eq(user.as_str(), slug) {
            Some(pass)
        } else {
            None
        },
        None => None,
    }
}

/// The password that the value of an `Authorization` header carries for the
/// document `slug`. `None` where there is no header, where its scheme is
/// not `Basic`, where its token does not decode, or where the user of the
/// token is not the slug.
pub fn extract_password_from_headers(header: Option<&str>, slug: &str) -> (res: Option<String>)
    ensures
        res.deep_view() == header_password_spec(header.deep_view(), slug@),
{
    match header {
        Some(value) => {
            match split_once(trim(value), ' ') {
                Some((scheme, payload)) => {
                    if !eq_ignore_ascii_case(scheme, "basic") {
                        return None;
                    }
                    password_of(parse_basic_payload(payload), slug)
                },
                None => None,
            }
        },
        None => None,
    }
}

/// The password that a token carries for the document `slug`. `None` where
/// the token does not decode or where its user is not the slug.
pub fn extract_password_from_token(token: &str, slug: &str) -> (res: Option<String>)
    ensures
        res.deep_view() == token_password_spec(token@, slug@),
{
    password_of(parse_basic_payload(token), slug)
}

/// Whether a stored hash is the one that a password hashes to.
pub fn hash_matches(hash: &str, expected: &str) -> (res: bool)
    ensures
        res == (hash@ == expected@),
{
    str_eq(hash, expected)
}

/// Whether `provided` opens `doc`: always where the document has no
/// password, else where a password is given and hashes to what is stored.
pub fn is_authorized(doc: &Doc, provided: Option<&str>) -> (res: bool)
    ensures
        res == authorized_spec(doc.deep_view().password_hash, provided.deep_view()),
{
    match &doc.password_hash {
        None => true,
        Some(expected) => match provided {
            Some(actual) => hash_matches(hash_password(actual).as_str(), expected.as_str()),
            None => false,
        },
    }
}

} // verus!
