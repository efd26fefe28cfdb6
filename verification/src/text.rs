//! Character-level helpers over strings.

use vstd::prelude::*;
use vstd::string::StrSliceExecFns;

verus! {

/// The ASCII lower-case form of a character; every character outside
/// `'A'..='Z'` is its own lower-case form.
pub open spec fn ascii_lower(c: char) -> char {
    if 'A' <= c && c <= 'Z' {
        ((c as u8) + 32) as char
    } else {
        c
    }
}

/// Equality of two texts up to the case of their ASCII letters.
pub open spec fn eq_ignore_ascii_case(a: Seq<char>, b: Seq<char>) -> bool {
    a.len() == b.len() && forall|i: int|
        0 <= i < a.len() ==> ascii_lower(#[trigger] a[i]) == ascii_lower(b[i])
}

/// The Unicode lower-case form of a text.
pub uninterp spec fn lowercase(s: Seq<char>) -> Seq<char>;

/// Calls `str::to_lowercase` of the standard library, which maps a text to
/// its Unicode lower-case form; the contract gives that form its name and
/// claims nothing else of it.
#[verifier::external_body]
pub(crate) fn to_lowercase(s: &str) -> (lower: String)
    ensures
        lower@ == lowercase(s@),
{
    s.to_lowercase()
}

/// The views of a sequence of strings.
pub open spec fn texts(strings: Seq<String>) -> Seq<Seq<char>> {
    strings.map_values(|s: String| s@)
}

/// The ASCII lower-case form of `c`.
pub fn to_ascii_lower(c: char) -> (lower: char)
    ensures
        lower == ascii_lower(c),
{
    if 'A' <= c && c <= 'Z' {
        ((c as u8) + 32) as char
    } else {
        c
    }
}

/// The characters of `s`, in order.
pub fn chars_of(s: &str) -> (chars: Vec<char>)
    ensures
        chars@ == s@,
{
    let n = s.unicode_len();
    let mut chars: Vec<char> = Vec::new();
    let mut i: usize = 0;
    while i < n
        invariant
            n == s@.len(),
            i <= n,
            chars@ == s@.subrange(0, i as int),
        decreases n - i,
    {
        chars.push(s.get_char(i));
        assert(chars@ == s@.subrange(0, i + 1));
        i += 1;
    }
    assert(s@.subrange(0, n as int) == s@);
    chars
}

/// Whether `part[lo..hi]` equals `word` up to the case of ASCII letters.
pub fn range_eq_ignore_ascii_case(part: &Vec<char>, lo: usize, hi: usize, word: &str) -> (equal:
    bool)
    requires
        lo <= hi <= part.len(),
    ensures
        equal == eq_ignore_ascii_case(part@.subrange(lo as int, hi as int), word@),
{
    let n = word.unicode_len();
    if hi - lo != n {
        return false;
    }
    let ghost a = part@.subrange(lo as int, hi as int);
    let mut i: usize = 0;
    while i < n
        invariant
            n == word@.len(),
            lo <= hi <= part.len(),
            hi - lo == n,
            i <= n,
            a == part@.subrange(lo as int, hi as int),
            forall|k: int| 0 <= k < i ==> ascii_lower(#[trigger] a[k]) == ascii_lower(word@[k]),
        decreases n - i,
    {
        let x = to_ascii_lower(part[lo + i]);
        let y = to_ascii_lower(word.get_char(i));
        if x != y {
            assert(a[i as int] == part@[lo + i]);
            return false;
        }
        assert(a[i as int] == part@[lo + i]);
        i += 1;
    }
    true
}

} // verus!
