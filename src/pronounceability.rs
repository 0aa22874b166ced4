//! Pronounceability score of a word, in basis points (10000 is 1.0).
//!
//! Each of four checks gives a penalty between 0 and 1.0, counted here in
//! twentieths (0 to 20); the score is `1 - total / 4`, that is
//! `10000 - 125 * total` basis points.
use vstd::prelude::*;
use crate::text::{alphabetic, chars_of, contains_chars, is_alphabetic, lower_of, occurs, to_lower};

verus! {

/// Score of the best word.
pub const SCORE_MAX: u32 = 10000;

/// A vowel for scoring: `a e i o u y`, lower case.
pub open spec fn is_scoring_vowel(c: char) -> bool {
    c == 'a' || c == 'e' || c == 'i' || c == 'o' || c == 'u' || c == 'y'
}

/// A consonant for scoring: an alphabetic character that is not a scoring vowel.
pub open spec fn is_scoring_consonant(c: char) -> bool {
    !is_scoring_vowel(c) && alphabetic(c)
}

/// (current run, longest run) of consecutive consonants in `s`.
pub open spec fn consonant_runs(s: Seq<char>) -> (nat, nat)
    decreases s.len(),
{
    if s.len() == 0 {
        (0, 0)
    } else {
        let (cur, longest) = consonant_runs(s.drop_last());
        if is_scoring_consonant(s.last()) {
            let next = cur + 1;
            (next, if next > longest { next } else { longest })
        } else {
            (0, longest)
        }
    }
}

/// Penalty of the longest consonant run: 0 up to 2, 0.3 for 3, 0.6 for 4, 1.0 beyond.
pub open spec fn cluster_penalty(s: Seq<char>) -> nat {
    let longest = consonant_runs(s).1;
    if longest <= 2 {
        0
    } else if longest == 3 {
        6
    } else if longest == 4 {
        12
    } else {
        20
    }
}

/// For a non-empty `s`: (class of the last alphabetic character, current run of
/// same-class characters beyond the first, longest such run). The first character
/// sets the class whatever it is; later non-alphabetic characters are skipped.
pub open spec fn alternation_state(s: Seq<char>) -> (bool, nat, nat)
    decreases s.len(),
{
    if s.len() <= 1 {
        (s.len() == 1 && is_scoring_vowel(s[0]), 0, 0)
    } else {
        let (last_vowel, same, longest) = alternation_state(s.drop_last());
        let c = s.last();
        if !alphabetic(c) {
            (last_vowel, same, longest)
        } else if is_scoring_vowel(c) == last_vowel {
            let next = same + 1;
            (last_vowel, next, if next > longest { next } else { longest })
        } else {
            (is_scoring_vowel(c), 0, longest)
        }
    }
}

/// Penalty of the longest same-class run: 0.15 per character, at most 1.0.
pub open spec fn alternation_penalty(s: Seq<char>) -> nat {
    if s.len() < 2 {
        0
    } else {
        let longest = alternation_state(s).2;
        if 3 * longest > 20 {
            20
        } else {
            3 * longest
        }
    }
}

/// Penalty of the length: 0 up to 15 characters, 0.2 to 18, 0.4 to 22, 0.8 beyond.
pub open spec fn length_penalty(s: Seq<char>) -> nat {
    if s.len() <= 15 {
        0
    } else if s.len() <= 18 {
        4
    } else if s.len() <= 22 {
        8
    } else {
        16
    }
}

/// 1 when `p` occurs in `s`, else 0.
pub open spec fn occurs_count(s: Seq<char>, p: Seq<char>) -> nat {
    if occurs(s, p) {
        1
    } else {
        0
    }
}

/// How many of the hard-to-pronounce clusters occur in `s`.
pub open spec fn difficult_count(s: Seq<char>) -> nat {
    occurs_count(s, seq!['x', 't', 'h']) + occurs_count(s, seq!['p', 'h', 't'])
        + occurs_count(s, seq!['c', 'h', 't', 'h']) + occurs_count(s, seq!['r', 'r', 'h'])
        + occurs_count(s, seq!['c', 'k', 'h']) + occurs_count(s, seq!['t', 'z', 's', 'c', 'h'])
        + occurs_count(s, seq!['t', 's', 'c', 'h']) + occurs_count(s, seq!['p', 's', 'c', 'h'])
        + occurs_count(s, seq!['c', 'h', 's']) + occurs_count(s, seq!['t', 'h', 's'])
        + occurs_count(s, seq!['s', 'c', 'h', 't'])
}

/// Penalty of the hard clusters: 0.3 for each one that occurs, at most 1.0.
pub open spec fn difficult_penalty(s: Seq<char>) -> nat {
    if 6 * difficult_count(s) > 20 {
        20
    } else {
        6 * difficult_count(s)
    }
}

/// Sum of the four penalties of the lower-cased characters `s`, in twentieths.
pub open spec fn total_penalty(s: Seq<char>) -> nat {
    cluster_penalty(s) + alternation_penalty(s) + length_penalty(s) + difficult_penalty(s)
}

/// Score of the lower-cased characters `s`: 0 when empty, else `1 - total / 4`.
pub open spec fn score_of_lower(s: Seq<char>) -> nat {
    if s.len() == 0 {
        0
    } else {
        (SCORE_MAX - 125 * total_penalty(s)) as nat
    }
}

/// Score of a word: that of its lower-case form.
pub open spec fn score_spec(name: Seq<char>) -> nat {
    score_of_lower(lower_of(name))
}

/// Whether `c` is a scoring vowel.
fn is_vowel(c: char) -> (r: bool)
    ensures
        r == is_scoring_vowel(c),
{
    c == 'a' || c == 'e' || c == 'i' || c == 'o' || c == 'u' || c == 'y'
}

/// Score of `name` in basis points: 0 for the empty word, else
/// `10000 - 125 * total_penalty` of its lower-case form.
pub fn pronounceability_score(name: &str) -> (r: u32)
    ensures
        r == score_spec(name@),
        r <= SCORE_MAX,
{
    let lower = to_lower(name);
    score_lowercase(lower.as_str())
}

/// Score of a word that is already in lower case, in basis points.
pub fn score_lowercase(lower: &str) -> (r: u32)
    ensures
        r == score_of_lower(lower@),
        r <= SCORE_MAX,
{
    let chars = chars_of(lower);
    if chars.len() == 0 {
        return 0;
    }
    let total = check_consonant_clusters(&chars) + check_alternation(&chars) + check_length(&chars)
        + check_difficult_combinations(&chars);
    SCORE_MAX - 125 * total
}

/// Penalty of the longest consonant run, in twentieths.
fn check_consonant_clusters(chars: &Vec<char>) -> (r: u32)
    ensures
        r == cluster_penalty(chars@),
{
    let mut longest: usize = 0;
    let mut current: usize = 0;
    let mut i: usize = 0;
    while i < chars.len()
        invariant
            i <= chars@.len(),
            (current as nat, longest as nat) == consonant_runs(chars@.take(i as int)),
            current <= i,
            longest <= i,
        decreases chars@.len() - i,
    {
        assert(chars@.take(i + 1).drop_last() =~= chars@.take(i as int));
        let c = chars[i];
        if !is_vowel(c) && is_alphabetic(c) {
            current = current + 1;
            if current > longest {
                longest = current;
            }
        } else {
            current = 0;
        }
        i = i + 1;
    }
    assert(chars@.take(i as int) =~= chars@);
    if longest <= 2 {
        0
    } else if longest == 3 {
        6
    } else if longest == 4 {
        12
    } else {
        20
    }
}

/// Penalty of the longest run of same-class characters, in twentieths.
fn check_alternation(chars: &Vec<char>) -> (r: u32)
    ensures
        r == alternation_penalty(chars@),
{
    if chars.len() < 2 {
        return 0;
    }
    let mut same: usize = 0;
    let mut longest: usize = 0;
    let mut last_vowel = is_vowel(chars[0]);
    let mut i: usize = 1;
    while i < chars.len()
        invariant
            1 <= i <= chars@.len(),
            (last_vowel, same as nat, longest as nat) == alternation_state(chars@.take(i as int)),
            same <= i,
            longest <= i,
        decreases chars@.len() - i,
    {
        assert(chars@.take(i + 1).drop_last() =~= chars@.take(i as int));
        let c = chars[i];
        if is_alphabetic(c) {
            let vowel_now = is_vowel(c);
            if vowel_now == last_vowel {
                same = same + 1;
                if same > longest {
                    longest = same;
                }
            } else {
                same = 0;
            }
            last_vowel = vowel_now;
        }
        i = i + 1;
    }
    assert(chars@.take(i as int) =~= chars@);
    if longest > 6 {
        20
    } else {
        3 * longest as u32
    }
}

/// Penalty of the length, in twentieths.
fn check_length(chars: &Vec<char>) -> (r: u32)
    ensures
        r == length_penalty(chars@),
{
    let len = chars.len();
    if len <= 15 {
        0
    } else if len <= 18 {
        4
    } else if len <= 22 {
        8
    } else {
        16
    }
}

/// 1 when `pat` occurs in `chars`, else 0.
fn count_occurrence(chars: &Vec<char>, pat: &[char]) -> (r: u32)
    ensures
        r == occurs_count(chars@, pat@),
{
    if contains_chars(chars, pat) {
        1
    } else {
        0
    }
}

/// Penalty of the hard-to-pronounce clusters, in twentieths.
fn check_difficult_combinations(chars: &Vec<char>) -> (r: u32)
    ensures
        r == difficult_penalty(chars@),
{
    let count = count_occurrence(chars, &['x', 't', 'h']) + count_occurrence(chars, &['p', 'h', 't'])
        + count_occurrence(chars, &['c', 'h', 't', 'h']) + count_occurrence(chars, &['r', 'r', 'h'])
        + count_occurrence(chars, &['c', 'k', 'h']) + count_occurrence(
        chars,
        &['t', 'z', 's', 'c', 'h'],
    ) + count_occurrence(chars, &['t', 's', 'c', 'h']) + count_occurrence(
        chars,
        &['p', 's', 'c', 'h'],
    ) + count_occurrence(chars, &['c', 'h', 's']) + count_occurrence(chars, &['t', 'h', 's'])
        + count_occurrence(chars, &['s', 'c', 'h', 't']);
    if count > 3 {
        20
    } else {
        6 * count
    }
}

} // verus!
