//! Character-level helpers shared by the assembler and the scoring rules.
use vstd::prelude::*;

verus! {

/// What `str::to_lowercase` returns for a string with these characters.
pub uninterp spec fn lower_of(s: Seq<char>) -> Seq<char>;

/// What `char::to_uppercase` yields for a character.
pub uninterp spec fn upper_of(c: char) -> Seq<char>;

/// Whether a character has the Unicode `Alphabetic` property.
pub uninterp spec fn alphabetic(c: char) -> bool;

/// Relies on `str::to_lowercase`: the lower-case mapping of the whole string,
/// which depends on its characters alone; an empty string stays empty.
#[verifier::external_body]
pub(crate) fn to_lower(s: &str) -> (r: String)
    ensures
        r@ == lower_of(s@),
        s@.len() == 0 ==> r@.len() == 0,
{
    s.to_lowercase()
}

/// Relies on `char::to_uppercase`: the characters of the upper-case mapping of `c`.
#[verifier::external_body]
pub(crate) fn char_to_upper(c: char) -> (r: String)
    ensures
        r@ == upper_of(c),
{
    c.to_uppercase().collect::<String>()
}

/// Relies on `char::is_alphabetic`: the Unicode `Alphabetic` property of `c`.
#[verifier::external_body]
pub(crate) fn is_alphabetic(c: char) -> (r: bool)
    ensures
        r == alphabetic(c),
{
    c.is_alphabetic()
}

/// A vowel letter, in either case.
pub open spec fn is_vowel_spec(c: char) -> bool {
    c == 'a' || c == 'e' || c == 'i' || c == 'o' || c == 'u' || c == 'A' || c == 'E' || c == 'I'
        || c == 'O' || c == 'U'
}

/// Whether `c` is one of `a e i o u`, ignoring ASCII case.
pub fn is_vowel(c: char) -> (r: bool)
    ensures
        r == is_vowel_spec(c),
{
    c == 'a' || c == 'e' || c == 'i' || c == 'o' || c == 'u' || c == 'A' || c == 'E' || c == 'I'
        || c == 'O' || c == 'U'
}

/// The first character is a vowel.
pub open spec fn starts_with_vowel_spec(s: Seq<char>) -> bool {
    s.len() > 0 && is_vowel_spec(s[0])
}

/// The last character is a vowel.
pub open spec fn ends_with_vowel_spec(s: Seq<char>) -> bool {
    s.len() > 0 && is_vowel_spec(s.last())
}

/// The characters of a string, in order.
pub fn chars_of(s: &str) -> (r: Vec<char>)
    ensures
        r@ == s@,
{
    let mut v: Vec<char> = Vec::new();
    for c in it: s.chars()
        invariant
            v@ == it.seq().take(it.index() as int),
    {
        v.push(c);
    }
    v
}

/// Whether two strings hold the same characters.
pub fn text_eq(a: &str, b: &str) -> (r: bool)
    ensures
        r == (a@ == b@),
{
    let n = a.unicode_len();
    if n != b.unicode_len() {
        return false;
    }
    let mut i: usize = 0;
    while i < n
        invariant
            n == a@.len() == b@.len(),
            i <= n,
            forall|k: int| 0 <= k < i ==> a@[k] == b@[k],
        decreases n - i,
    {
        if a.get_char(i) != b.get_char(i) {
            return false;
        }
        i = i + 1;
    }
    assert(a@ =~= b@);
    true
}

/// `p` occurs in `s` as a contiguous run.
pub open spec fn occurs(s: Seq<char>, p: Seq<char>) -> bool {
    exists|i: int| 0 <= i && i + p.len() <= s.len() && #[trigger] s.subrange(i, i + p.len()) == p
}

/// `s` ends with `p`.
pub open spec fn ends_with(s: Seq<char>, p: Seq<char>) -> bool {
    p.len() <= s.len() && s.subrange(s.len() - p.len(), s.len() as int) == p
}

/// Whether `pat` occurs in `hay` at position `i`.
fn occurs_at(hay: &Vec<char>, pat: &[char], i: usize) -> (r: bool)
    requires
        i + pat@.len() <= hay@.len(),
    ensures
        r == (hay@.subrange(i as int, i + pat@.len()) == pat@),
{
    let n = hay.len();
    let mut k: usize = 0;
    while k < pat.len()
        invariant
            n == hay@.len(),
            i + pat@.len() <= hay@.len(),
            k <= pat@.len(),
            forall|j: int| 0 <= j < k ==> hay@[i + j] == pat@[j],
        decreases pat@.len() - k,
    {
        if hay[i + k] != pat[k] {
            assert(hay@.subrange(i as int, i + pat@.len())[k as int] != pat@[k as int]);
            return false;
        }
        k = k + 1;
    }
    assert(hay@.subrange(i as int, i + pat@.len()) =~= pat@);
    true
}

/// Whether `pat` occurs in `hay` as a contiguous run.
pub fn contains_chars(hay: &Vec<char>, pat: &[char]) -> (r: bool)
    ensures
        r == occurs(hay@, pat@),
{
    let n = hay.len();
    let m = pat.len();
    if m > n {
        return false;
    }
    if m == 0 {
        assert(hay@.subrange(0, 0 + pat@.len() as int) =~= pat@);
        return true;
    }
    let mut i: usize = 0;
    while i <= n - m
        invariant
            n == hay@.len(),
            m == pat@.len(),
            0 < m <= n,
            i <= n - m + 1,
            forall|j: int| 0 <= j < i ==> #[trigger] hay@.subrange(j, j + pat@.len()) != pat@,
        decreases n - m + 1 - i,
    {
        if occurs_at(hay, pat, i) {
            assert(hay@.subrange(i as int, i + pat@.len()) == pat@);
            return true;
        }
        i = i + 1;
    }
    false
}

/// Whether `hay` ends with `pat`.
pub fn ends_with_chars(hay: &Vec<char>, pat: &[char]) -> (r: bool)
    ensures
        r == ends_with(hay@, pat@),
{
    if pat.len() > hay.len() {
        return false;
    }
    occurs_at(hay, pat, hay.len() - pat.len())
}

/// Whether `hay` ends with the character `c`.
pub fn ends_with_char(hay: &Vec<char>, c: char) -> (r: bool)
    ensures
        r == ends_with(hay@, seq![c]),
{
    let n = hay.len();
    if n == 0 {
        return false;
    }
    proof {
        if hay@[n - 1] == c {
            assert(hay@.subrange(n - 1, n as int) =~= seq![c]);
        } else {
            assert(hay@.subrange(n - 1, n as int)[0] != seq![c][0]);
        }
    }
    hay[n - 1] == c
}

} // verus!
