//! Character and substring search over strings.
//!
//! The error-classification layer matches driver messages against fixed
//! phrases, and the email validation looks for a single character; both are
//! implemented here against plain sequence specifications.

use vstd::prelude::*;

verus! {

/// `needle` occurs contiguously somewhere in `hay`.
pub open spec fn contains_seq(hay: Seq<char>, needle: Seq<char>) -> bool {
    exists|i: int|
        0 <= i && i + needle.len() <= hay.len() && #[trigger] hay.subrange(i, i + needle.len())
            == needle
}

/// If some position of `needle` holds a character that appears nowhere in
/// `hay`, then `needle` does not occur in `hay`.
pub proof fn lemma_absent_char_excludes(hay: Seq<char>, needle: Seq<char>, k: int, c: char)
    requires
        0 <= k < needle.len(),
        needle[k] == c,
        forall|j: int| 0 <= j < hay.len() ==> hay[j] != c,
    ensures
        !contains_seq(hay, needle),
{
    assert forall|i: int|
        0 <= i && i + needle.len() <= hay.len() implies #[trigger] hay.subrange(
        i,
        i + needle.len(),
    ) != needle by {
        if hay.subrange(i, i + needle.len()) == needle {
            assert(hay.subrange(i, i + needle.len())[k] == needle[k]);
            assert(hay[i + k] == c);
        }
    }
}

/// Whether `hay` matches `needle` character for character starting at `at`.
fn matches_at(hay: &str, needle: &str, at: usize, hay_len: usize, needle_len: usize) -> (b: bool)
    requires
        hay_len == hay@.len(),
        needle_len == needle@.len(),
        at + needle_len <= hay_len,
    ensures
        b == (hay@.subrange(at as int, at + needle@.len()) == needle@),
{
    let mut j: usize = 0;
    while j < needle_len
        invariant
            hay_len == hay@.len(),
            needle_len == needle@.len(),
            at + needle_len <= hay_len,
            j <= needle_len,
            forall|m: int| 0 <= m < j ==> hay@[at + m] == needle@[m],
        decreases needle_len - j,
    {
        if hay.get_char(at + j) != needle.get_char(j) {
            assert(hay@.subrange(at as int, at + needle@.len())[j as int] != needle@[j as int]);
            return false;
        }
        j = j + 1;
    }
    assert(hay@.subrange(at as int, at + needle@.len()) =~= needle@);
    true
}

/// Substring search: whether `needle` occurs in `hay`.
pub fn str_contains(hay: &str, needle: &str) -> (b: bool)
    ensures
        b == contains_seq(hay@, needle@),
{
    let hay_len = hay.unicode_len();
    let needle_len = needle.unicode_len();
    if needle_len > hay_len {
        return false;
    }
    if needle_len == 0 {
        assert(hay@.subrange(0, 0 + needle@.len() as int) =~= needle@);
        return true;
    }
    let mut i: usize = 0;
    while i <= hay_len - needle_len
        invariant
            hay_len == hay@.len(),
            needle_len == needle@.len(),
            1 <= needle_len <= hay_len,
            i <= hay_len - needle_len + 1,
            forall|k: int|
                0 <= k < i ==> #[trigger] hay@.subrange(k, k + needle@.len()) != needle@,
        decreases hay_len - needle_len - i + 1,
    {
        if matches_at(hay, needle, i, hay_len, needle_len) {
            return true;
        }
        i = i + 1;
    }
    false
}

/// Whether the character `c` occurs in `s`.
pub fn string_contains_char(s: &String, c: char) -> (b: bool)
    ensures
        b == s@.contains(c),
{
    let len = s.as_str().unicode_len();
    let mut i: usize = 0;
    while i < len
        invariant
            len == s@.len(),
            i <= len,
            forall|k: int| 0 <= k < i ==> s@[k] != c,
        decreases len - i,
    {
        if s.as_str().get_char(i) == c {
            return true;
        }
        i = i + 1;
    }
    false
}

} // verus!
