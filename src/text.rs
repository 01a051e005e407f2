//! Small verified helpers on strings.
use vstd::prelude::*;
use vstd::string::*;
use vstd::utf8::{decode_utf8, valid_utf8};

verus! {

/// Whether two string slices hold the same characters.
pub fn same_text(a: &str, b: &str) -> (r: bool)
    ensures
        r == (a@ == b@),
{
    let x = a.to_owned();
    let y = b.to_owned();
    x == y
}

/// The concatenation of two string slices.
pub fn join2(a: &str, b: &str) -> (r: String)
    ensures
        r@ == a@ + b@,
{
    let mut s = a.to_owned();
    s.append(b);
    s
}

/// The concatenation of three string slices.
pub fn join3(a: &str, b: &str, c: &str) -> (r: String)
    ensures
        r@ == a@ + b@ + c@,
{
    let mut s = a.to_owned();
    s.append(b);
    s.append(c);
    s
}

/// ASCII lower-casing of one character.
pub open spec fn ascii_lower(c: char) -> char {
    if 'A' <= c && c <= 'Z' {
        ((c as u32) + 32) as char
    } else {
        c
    }
}

/// ASCII lower-casing of a whole text.
pub open spec fn ascii_lowercase(s: Seq<char>) -> Seq<char> {
    s.map_values(|c: char| ascii_lower(c))
}

/// Relies on `str::to_ascii_lowercase`: letters `A` to `Z` become `a` to `z`, every other
/// character is kept.
#[verifier::external_body]
pub(crate) fn to_ascii_lowercase(s: &str) -> (r: String)
    ensures
        r@ == ascii_lowercase(s@),
{
    s.to_ascii_lowercase()
}


/// Relies on `String::from_utf8`: the text the bytes encode, when they are well-formed UTF-8.
#[verifier::external_body]
pub(crate) fn decode_utf8_bytes(bytes: Vec<u8>) -> (r: Option<String>)
    ensures
        r is Some <==> valid_utf8(bytes@),
        r matches Some(s) ==> s@ == decode_utf8(bytes@),
{
    String::from_utf8(bytes).ok()
}

/// A text without its leading NUL characters.
pub open spec fn trim_nul_start(s: Seq<char>) -> Seq<char>
    decreases s.len(),
{
    if s.len() > 0 && s[0] == '\0' {
        trim_nul_start(s.drop_first())
    } else {
        s
    }
}

/// A text without its trailing NUL characters.
pub open spec fn trim_nul_end(s: Seq<char>) -> Seq<char>
    decreases s.len(),
{
    if s.len() > 0 && s.last() == '\0' {
        trim_nul_end(s.drop_last())
    } else {
        s
    }
}

/// A text without its leading and trailing NUL characters.
pub open spec fn trim_nul(s: Seq<char>) -> Seq<char> {
    trim_nul_end(trim_nul_start(s))
}

/// Removes the leading and trailing NUL characters of a text.
pub fn trim_nuls(s: &str) -> (r: String)
    ensures
        r@ == trim_nul(s@),
{
    let n = s.unicode_len();
    let mut i: usize = 0;
    assert(s@.subrange(0, n as int) =~= s@);
    while i < n && s.get_char(i) == '\0'
        invariant
            n == s@.len(),
            0 <= i <= n,
            trim_nul_start(s@) == trim_nul_start(s@.subrange(i as int, n as int)),
        decreases n - i,
    {
        assert(s@.subrange(i as int, n as int).drop_first() =~= s@.subrange(i + 1, n as int));
        i = i + 1;
    }
    assert(trim_nul_start(s@) == s@.subrange(i as int, n as int));
    let mut j: usize = n;
    while j > i && s.get_char(j - 1) == '\0'
        invariant
            n == s@.len(),
            0 <= i <= j <= n,
            trim_nul(s@) == trim_nul_end(s@.subrange(i as int, j as int)),
        decreases j,
    {
        assert(s@.subrange(i as int, j as int).drop_last() =~= s@.subrange(i as int, j - 1));
        j = j - 1;
    }
    s.substring_char(i, j).to_owned()
}


/// Whether a text holds `c`.
pub fn contains_char(s: &str, c: char) -> (r: bool)
    ensures
        r == s@.contains(c),
{
    let n = s.unicode_len();
    let mut i: usize = 0;
    while i < n
        invariant
            n == s@.len(),
            0 <= i <= n,
            forall|k: int| 0 <= k < i ==> s@[k] != c,
        decreases n - i,
    {
        if s.get_char(i) == c {
            return true;
        }
        i = i + 1;
    }
    false
}

/// The one-character text holding the character of `s` at `i`.
pub fn char_text(s: &str, i: usize) -> (r: String)
    requires
        i < s@.len(),
        i < usize::MAX,
    ensures
        r@ == seq![s@[i as int]],
{
    let r = s.substring_char(i, i + 1).to_owned();
    assert(r@ =~= seq![s@[i as int]]);
    r
}

} // verus!
