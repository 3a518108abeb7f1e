//! Small operations on text, stated over sequences of code points.
//!
//! The functions whose comment begins with "Calls" hand one call to the
//! standard library and state what its documentation says of the result;
//! nothing of them is proved. The rest is built on them and on `vstd`, and is
//! verified.

use vstd::prelude::*;

verus! {

/// The code points with the Unicode property `White_Space`.
pub open spec fn is_white_space(c: char) -> bool {
    let u = c as u32;
    (0x09 <= u <= 0x0d) || u == 0x20 || u == 0x85 || u == 0xa0 || u == 0x1680 || (0x2000 <= u
        <= 0x200a) || u == 0x2028 || u == 0x2029 || u == 0x202f || u == 0x205f || u == 0x3000
}

/// `s` without the white space at its start and at its end.
pub open spec fn trim_spec(s: Seq<char>) -> Seq<char>
    decreases s.len(),
{
    if s.len() > 0 && is_white_space(s.first()) {
        trim_spec(s.drop_first())
    } else if s.len() > 0 && is_white_space(s.last()) {
        trim_spec(s.drop_last())
    } else {
        s
    }
}

/// `s` without the `c`s at its start and at its end.
pub open spec fn strip_spec(s: Seq<char>, c: char) -> Seq<char>
    decreases s.len(),
{
    if s.len() > 0 && s.first() == c {
        strip_spec(s.drop_first(), c)
    } else if s.len() > 0 && s.last() == c {
        strip_spec(s.drop_last(), c)
    } else {
        s
    }
}

/// The index of the first `c` in `s`, or the length of `s` where `s` holds
/// no `c`.
pub open spec fn first_index(s: Seq<char>, c: char) -> int
    decreases s.len(),
{
    if s.len() == 0 {
        0
    } else if s.first() == c {
        0
    } else {
        1 + first_index(s.drop_first(), c)
    }
}

/// The pieces of `s` between the occurrences of `sep`: one more piece than
/// there are separators, some of them possibly empty.
pub open spec fn split_spec(s: Seq<char>, sep: char) -> Seq<Seq<char>>
    decreases s.len(),
{
    let i = first_index(s, sep);
    if 0 <= i < s.len() {
        seq![s.take(i)] + split_spec(s.skip(i + 1), sep)
    } else {
        seq![s]
    }
}

/// `first_index` is the least index that holds `c`, and within the bounds.
pub proof fn lemma_first_index(s: Seq<char>, c: char)
    ensures
        0 <= first_index(s, c) <= s.len(),
        first_index(s, c) < s.len() ==> s[first_index(s, c)] == c,
        forall|j: int| 0 <= j < first_index(s, c) ==> s[j] != c,
    decreases s.len(),
{
    if s.len() > 0 && s.first() != c {
        let rest = s.drop_first();
        lemma_first_index(rest, c);
        assert forall|j: int| 0 <= j < first_index(s, c) implies s[j] != c by {
            if j > 0 {
                assert(s[j] == rest[j - 1]);
            }
        }
    }
}

/// Calls `str::trim`, which returns the slice without leading and trailing
/// white space, white space being the Unicode property `White_Space`.
#[verifier::external_body]
pub(crate) fn trim<'a>(s: &'a str) -> (res: &'a str)
    ensures
        res@ == trim_spec(s@),
{
    s.trim()
}

/// Calls `str::trim_matches` with a `char`, which returns the slice with
/// every leading and every trailing `c` removed.
#[verifier::external_body]
pub(crate) fn trim_matches<'a>(s: &'a str, c: char) -> (res: &'a str)
    ensures
        res@ == strip_spec(s@, c),
{
    s.trim_matches(c)
}

/// Calls `String::push`, which appends one code point.
#[verifier::external_body]
pub(crate) fn push_char(s: &mut String, c: char)
    ensures
        final(s)@ == old(s)@.push(c),
{
    s.push(c)
}

/// Calls `str::split` with a `char`: the substrings of `s` that the separator
/// parts, in order, empty ones included.
#[verifier::external_body]
pub(crate) fn split_char<'a>(s: &'a str, sep: char) -> (res: Vec<&'a str>)
    ensures
        res.deep_view() == split_spec(s@, sep),
{
    s.split(sep).collect()
}

/// Calls `String::from_utf8`, which succeeds exactly on well-formed UTF-8
/// and then holds the code points that the bytes encode.
#[verifier::external_body]
pub(crate) fn string_from_utf8(bytes: Vec<u8>) -> (res: Option<String>)
    ensures
        res is Some <==> vstd::utf8::valid_utf8(bytes@),
        res matches Some(s) ==> s@ == vstd::utf8::decode_utf8(bytes@),
{
    String::from_utf8(bytes).ok()
}

/// The index of the first `c` in `s`, if there is one.
pub fn find_char(s: &str, c: char) -> (res: Option<usize>)
    ensures
        res is Some <==> first_index(s@, c) < s@.len(),
        res matches Some(i) ==> i == first_index(s@, c),
{
    let n: usize = s.unicode_len();
    let mut k: usize = 0;
    proof {
        lemma_first_index(s@, c);
    }
    for x in it: s.chars()
        invariant
            n == s@.len(),
            k == it.index(),
            it.seq() == s@,
            forall|j: int| 0 <= j < k ==> s@[j] != c,
            0 <= first_index(s@, c) <= s@.len(),
            first_index(s@, c) < s@.len() ==> s@[first_index(s@, c)] == c,
            forall|j: int| 0 <= j < first_index(s@, c) ==> s@[j] != c,
    {
        if x == c {
            return Some(k);
        }
        k += 1;
    }
    None
}

/// Whether two strings hold the same code points in the same order. They do
/// where their UTF-8 bytes are the same.
pub fn str_eq(a: &str, b: &str) -> (res: bool)
    ensures
        res == (a@ == b@),
{
    let x = a.as_bytes();
    let y = b.as_bytes();
    proof {
        vstd::utf8::encode_utf8_decode_utf8(a@);
        vstd::utf8::encode_utf8_decode_utf8(b@);
    }
    if x.len() != y.len() {
        return false;
    }
    let mut k: usize = 0;
    while k < x.len()
        invariant
            k <= x.len(),
            x.len() == y.len(),
            x@ == vstd::utf8::encode_utf8(a@),
            y@ == vstd::utf8::encode_utf8(b@),
            forall|j: int| 0 <= j < k ==> x@[j] == y@[j],
        decreases x.len() - k,
    {
        if x[k] != y[k] {
            return false;
        }
        k += 1;
    }
    assert(x@ =~= y@);
    true
}

/// Whether `s` begins with `prefix`.
pub fn starts_with(s: &str, prefix: &str) -> (res: bool)
    ensures
        res == prefix@.is_prefix_of(s@),
{
    let n: usize = s.unicode_len();
    let m: usize = prefix.unicode_len();
    if m > n {
        return false;
    }
    let head = s.substring_char(0, m);
    str_eq(head, prefix)
}

/// `s` without `suffix` at its end; `None` where `s` does not end with it.
pub fn strip_suffix<'a>(s: &'a str, suffix: &str) -> (res: Option<&'a str>)
    ensures
        res is Some <==> suffix@.is_suffix_of(s@),
        res matches Some(stem) ==> stem@ + suffix@ == s@,
{
    let n: usize = s.unicode_len();
    let m: usize = suffix.unicode_len();
    if m > n {
        return None;
    }
    let tail = s.substring_char(n - m, n);
    if str_eq(tail, suffix) {
        let stem = s.substring_char(0, n - m);
        Some(stem)
    } else {
        None
    }
}

/// `s` with every `from` replaced by `to`.
pub fn replace_char(s: &str, from: char, to: char) -> (res: String)
    ensures
        res@ == s@.map_values(|c: char| if c == from { to } else { c }),
{
    let mut out = String::new();
    for x in it: s.chars()
        invariant
            it.seq() == s@,
            out@ == s@.take(it.index() as int).map_values(|c: char| if c == from { to } else { c }),
    {
        push_char(&mut out, if x == from { to } else { x });
    }
    out
}

/// The pieces of `s` between the occurrences of `sep` that hold something:
/// each without the white space around it, the empty ones left out.
pub open spec fn split_trimmed_spec(s: Seq<char>, sep: char) -> Seq<Seq<char>> {
    split_spec(s, sep).map_values(|piece: Seq<char>| trim_spec(piece)).filter(
        |piece: Seq<char>| piece.len() > 0,
    )
}

/// Parts `s` at every `sep`, trims the pieces, and drops the empty ones.
pub fn split_trimmed(s: &str, sep: char) -> (res: Vec<String>)
    ensures
        res.deep_view() == split_trimmed_spec(s@, sep),
{
    let pieces = split_char(s, sep);
    let ghost trimmed = split_spec(s@, sep).map_values(|piece: Seq<char>| trim_spec(piece));
    let ghost keep = |piece: Seq<char>| piece.len() > 0;
    let mut out: Vec<String> = Vec::new();
    let mut k: usize = 0;
    while k < pieces.len()
        invariant
            k <= pieces.len(),
            pieces.deep_view() == split_spec(s@, sep),
            trimmed == split_spec(s@, sep).map_values(|piece: Seq<char>| trim_spec(piece)),
            keep == |piece: Seq<char>| piece.len() > 0,
            out.deep_view() == trimmed.take(k as int).filter(keep),
        decreases pieces.len() - k,
    {
        let piece = trim(pieces[k]);
        if piece.unicode_len() > 0 {
            out.push(String::from_str(piece));
        }
        proof {
            let next = trimmed.take(k + 1);
            assert(next.drop_last() =~= trimmed.take(k as int));
            reveal(Seq::filter);
        }
        k += 1;
    }
    assert(trimmed.take(k as int) =~= trimmed);
    out
}

} // verus!
