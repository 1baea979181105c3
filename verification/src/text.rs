//! Verified helpers on strings, phrased over their views as sequences of characters.
use vstd::prelude::*;

verus! {

/// `needle` occurs in `haystack` as a contiguous run of characters.
pub open spec fn seq_contains(haystack: Seq<char>, needle: Seq<char>) -> bool {
    exists|i: int|
        0 <= i && i + needle.len() <= haystack.len() && #[trigger] haystack.subrange(
            i,
            i + needle.len(),
        ) == needle
}

/// The last character of `s`, or `fallback` when `s` is empty.
pub open spec fn last_char_or_spec(s: Seq<char>, fallback: char) -> char {
    if s.len() == 0 {
        fallback
    } else {
        s.last()
    }
}

/// Whether two strings hold the same characters.
pub fn str_equals(a: &str, b: &str) -> (r: bool)
    ensures
        r == (a@ == b@),
{
    let sa = String::from_str(a);
    let sb = String::from_str(b);
    sa == sb
}

/// The characters of `s`, one by one.
pub fn chars_of(s: &str) -> (r: Vec<char>)
    ensures
        r@ == s@,
{
    let n: usize = s.unicode_len();
    let mut out: Vec<char> = Vec::new();
    let mut i: usize = 0;
    while i < n
        invariant
            n == s@.len(),
            i <= n,
            out@ == s@.subrange(0, i as int),
        decreases n - i,
    {
        let c = s.get_char(i);
        out.push(c);
        i = i + 1;
        assert(out@ =~= s@.subrange(0, i as int));
    }
    assert(out@ =~= s@);
    out
}

/// Whether the characters of `needle` occur at position `start` of `hay`.
fn occurs_at(hay: &Vec<char>, needle: &Vec<char>, start: usize) -> (r: bool)
    requires
        start + needle@.len() <= hay@.len(),
    ensures
        r == (hay@.subrange(start as int, start + needle@.len()) == needle@),
{
    let hay_len: usize = hay.len();
    let mut j: usize = 0;
    while j < needle.len()
        invariant
            hay_len == hay@.len(),
            start + needle@.len() <= hay@.len(),
            j <= needle@.len(),
            forall|k: int| 0 <= k < j ==> hay@[start + k] == needle@[k],
        decreases needle@.len() - j,
    {
        if hay[start + j] != needle[j] {
            assert(hay@.subrange(start as int, start + needle@.len())[j as int] != needle@[j as int]);
            return false;
        }
        j = j + 1;
    }
    assert(hay@.subrange(start as int, start + needle@.len()) =~= needle@);
    true
}

/// Whether `needle` occurs in `haystack`; the empty string occurs in every string.
pub fn str_contains(haystack: &str, needle: &str) -> (r: bool)
    ensures
        r == seq_contains(haystack@, needle@),
{
    let hay = chars_of(haystack);
    let pat = chars_of(needle);
    if pat.len() == 0 {
        assert(haystack@.subrange(0, 0int + needle@.len()) =~= needle@);
        return true;
    }
    if pat.len() > hay.len() {
        assert forall|i: int|
            0 <= i && i + needle@.len() <= haystack@.len() implies #[trigger] haystack@.subrange(
            i,
            i + needle@.len(),
        ) != needle@ by {}
        return false;
    }
    let hay_len: usize = hay.len();
    let last: usize = hay_len - pat.len();
    let mut i: usize = 0;
    while i <= last
        invariant
            hay@ == haystack@,
            pat@ == needle@,
            last == hay@.len() - pat@.len(),
            0 < pat@.len() <= hay@.len(),
            hay_len == hay@.len(),
            i <= last + 1,
            forall|k: int|
                0 <= k < i ==> #[trigger] haystack@.subrange(k, k + needle@.len()) != needle@,
        decreases last + 1 - i,
    {
        if occurs_at(&hay, &pat, i) {
            assert(haystack@.subrange(i as int, i + needle@.len()) == needle@);
            return true;
        }
        i = i + 1;
    }
    assert forall|k: int|
        0 <= k && k + needle@.len() <= haystack@.len() implies #[trigger] haystack@.subrange(
        k,
        k + needle@.len(),
    ) != needle@ by {}
    false
}

/// The last character of `s`, or `fallback` when `s` is empty.
pub fn last_char_or(s: &str, fallback: char) -> (r: char)
    ensures
        r == last_char_or_spec(s@, fallback),
{
    let n: usize = s.unicode_len();
    if n == 0 {
        fallback
    } else {
        s.get_char(n - 1)
    }
}

/// Appends one character to a string.
///
/// Calls `String::push` of std, whose documentation says that it appends the
/// character to the end of the string; the contract states exactly that.
#[verifier::external_body]
pub(crate) fn push_char(s: &mut String, c: char)
    ensures
        final(s)@ == old(s)@.push(c),
{
    s.push(c);
}

} // verus!
