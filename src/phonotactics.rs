//! Phonotactic rules on genus words: legal endings, ending/stem fit and
//! forbidden interior clusters.
use vstd::prelude::*;
use crate::text::{
    chars_of, contains_chars, ends_with, ends_with_char, ends_with_chars, ends_with_vowel_spec, is_vowel, lower_of,
    occurs, to_lower,
};

verus! {

/// Endings made of a stop or a nasal cluster that no genus may end with.
pub open spec fn has_bad_ending(s: Seq<char>) -> bool {
    ends_with(s, seq!['n', 'x'])
        || ends_with(s, seq!['p', 's'])
        || ends_with(s, seq!['k', 's'])
        || ends_with(s, seq!['t', 's'])
        || ends_with(s, seq!['d', 's'])
        || ends_with(s, seq!['b', 's'])
        || ends_with(s, seq!['g', 's'])
        || ends_with(s, seq!['p', 't'])
        || ends_with(s, seq!['k', 't'])
        || ends_with(s, seq!['b', 't'])
        || ends_with(s, seq!['d', 't'])
        || ends_with(s, seq!['g', 't'])
        || ends_with(s, seq!['p', 'x'])
        || ends_with(s, seq!['k', 'x'])
        || ends_with(s, seq!['t', 'x'])
        || ends_with(s, seq!['d', 'x'])
        || ends_with(s, seq!['b', 'x'])
        || ends_with(s, seq!['g', 'x'])
        || ends_with(s, seq!['n', 'k'])
        || ends_with(s, seq!['n', 'g'])
        || ends_with(s, seq!['n', 'q'])
        || ends_with(s, seq!['m', 'p', 'h'])
        || ends_with(s, seq!['n', 'p', 'h'])
        || ends_with(s, seq!['n', 't', 'h'])
        || ends_with(s, seq!['x', 'c'])
        || ends_with(s, seq!['x', 'p'])
        || ends_with(s, seq!['x', 'k'])
        || ends_with(s, seq!['x', 't'])
        || ends_with(s, seq!['l', 'x'])
        || ends_with(s, seq!['r', 'x'])
        || ends_with(s, seq!['m', 'n', 'x'])
        || ends_with(s, seq!['m', 'p', 'x'])
        || ends_with(s, seq!['n', 't', 'x'])
        || ends_with(s, seq!['n', 'k', 'x'])
}

/// Endings that make a word acceptable: vowels, `n r s m l` and usual Latin endings.
pub open spec fn has_good_ending(s: Seq<char>) -> bool {
    ends_with(s, seq!['u', 's'])
        || ends_with(s, seq!['o', 's'])
        || ends_with(s, seq!['i', 's'])
        || ends_with(s, seq!['e', 's'])
        || ends_with(s, seq!['a', 's'])
        || ends_with(s, seq!['u', 'm'])
        || ends_with(s, seq!['o', 'n'])
        || ends_with(s, seq!['e', 'n'])
        || ends_with(s, seq!['e', 'r'])
        || ends_with(s, seq!['o', 'r'])
        || ends_with(s, seq!['a'])
        || ends_with(s, seq!['e'])
        || ends_with(s, seq!['o'])
        || ends_with(s, seq!['i'])
        || ends_with(s, seq!['u'])
        || ends_with(s, seq!['n'])
        || ends_with(s, seq!['r'])
        || ends_with(s, seq!['s'])
        || ends_with(s, seq!['m'])
        || ends_with(s, seq!['l'])
        || ends_with(s, seq!['y', 'x'])
        || ends_with(s, seq!['i', 'x'])
        || ends_with(s, seq!['a', 'x'])
        || ends_with(s, seq!['e', 'x'])
        || ends_with(s, seq!['o', 'x'])
        || ends_with(s, seq!['m', 'a'])
}

/// The x-endings that need a stem ending in a vowel.
pub open spec fn is_x_suffix(s: Seq<char>) -> bool {
    s =~= seq!['y', 'x'] || s =~= seq!['i', 'x'] || s =~= seq!['a', 'x']
}

/// For lower-case forms: an ending fits a stem unless it is `yx`, `ix` or `ax` and the
/// stem ends in a consonant.
pub open spec fn suffix_fits_lower(stem: Seq<char>, suffix: Seq<char>) -> bool {
    !(is_x_suffix(suffix) && !ends_with_vowel_spec(stem))
}

/// Whether an ending fits a stem, judged on their lower-case forms.
pub open spec fn suffix_fits(stem: Seq<char>, suffix: Seq<char>) -> bool {
    suffix_fits_lower(lower_of(stem), lower_of(suffix))
}

/// For a lower-case word: shorter than two characters, or no bad ending and a good one.
pub open spec fn ending_valid_lower(s: Seq<char>) -> bool {
    s.len() < 2 || (!has_bad_ending(s) && has_good_ending(s))
}

/// Whether the ending of a word is valid, judged on its lower-case form.
pub open spec fn ending_valid(genus: Seq<char>) -> bool {
    ending_valid_lower(lower_of(genus))
}

/// Three- and four-letter clusters that may not occur anywhere in a word.
pub open spec fn has_bad_cluster(s: Seq<char>) -> bool {
    occurs(s, seq!['n', 'p', 'h'])
        || occurs(s, seq!['m', 'p', 'h'])
        || occurs(s, seq!['n', 't', 'h'])
        || occurs(s, seq!['n', 'k', 'h'])
        || occurs(s, seq!['x', 't', 'h'])
        || occurs(s, seq!['p', 'h', 't'])
        || occurs(s, seq!['c', 'k', 'h'])
        || occurs(s, seq!['t', 'z', 's'])
        || occurs(s, seq!['t', 's', 'c'])
        || occurs(s, seq!['p', 's', 'c'])
        || occurs(s, seq!['c', 'h', 's'])
        || occurs(s, seq!['m', 'p', 'h', 'n'])
        || occurs(s, seq!['n', 't', 'h', 'n'])
        || occurs(s, seq!['t', 's', 'c', 'h'])
        || occurs(s, seq!['p', 's', 'c', 'h'])
}

/// A genus passes when its ending is valid and its lower-case form has no bad cluster.
pub open spec fn genus_quality(genus: Seq<char>) -> bool {
    ending_valid(genus) && !has_bad_cluster(lower_of(genus))
}

/// Whether the ending may follow the stem: `yx`, `ix` and `ax` (in any case) need a
/// stem that ends in a vowel.
pub fn is_suffix_compatible(stem: &str, suffix: &str) -> (r: bool)
    ensures
        r == suffix_fits(stem@, suffix@),
{
    suffix_fits_lowercase(to_lower(stem).as_str(), to_lower(suffix).as_str())
}

/// Whether a lower-case ending may follow a lower-case stem.
pub fn suffix_fits_lowercase(stem: &str, suffix: &str) -> (r: bool)
    ensures
        r == suffix_fits_lower(stem@, suffix@),
{
    let stem_lower = chars_of(stem);
    let suffix_lower = chars_of(suffix);
    let n = stem_lower.len();
    let stem_ends_consonant = !(n > 0 && is_vowel(stem_lower[n - 1]));
    let x_suffix = suffix_lower.len() == 2 && suffix_lower[1] == 'x' && (suffix_lower[0] == 'y'
        || suffix_lower[0] == 'i' || suffix_lower[0] == 'a');
    proof {
        if suffix_lower@.len() == 2 {
            assert(suffix_lower@ =~= seq![suffix_lower@[0], suffix_lower@[1]]);
        }
    }
    !(x_suffix && stem_ends_consonant)
}

/// Whether the ending of `genus` (lower-cased) is phonotactically legal.
pub fn is_phonotactically_valid(genus: &str) -> (r: bool)
    ensures
        r == ending_valid(genus@),
{
    ending_valid_lowercase(to_lower(genus).as_str())
}

/// Whether the ending of a lower-case word is legal.
pub fn ending_valid_lowercase(lower: &str) -> (r: bool)
    ensures
        r == ending_valid_lower(lower@),
{
    let chars = chars_of(lower);
    if chars.len() < 2 {
        return true;
    }
    let bad = ends_with_chars(&chars, &['n', 'x'])
        || ends_with_chars(&chars, &['p', 's'])
        || ends_with_chars(&chars, &['k', 's'])
        || ends_with_chars(&chars, &['t', 's'])
        || ends_with_chars(&chars, &['d', 's'])
        || ends_with_chars(&chars, &['b', 's'])
        || ends_with_chars(&chars, &['g', 's'])
        || ends_with_chars(&chars, &['p', 't'])
        || ends_with_chars(&chars, &['k', 't'])
        || ends_with_chars(&chars, &['b', 't'])
        || ends_with_chars(&chars, &['d', 't'])
        || ends_with_chars(&chars, &['g', 't'])
        || ends_with_chars(&chars, &['p', 'x'])
        || ends_with_chars(&chars, &['k', 'x'])
        || ends_with_chars(&chars, &['t', 'x'])
        || ends_with_chars(&chars, &['d', 'x'])
        || ends_with_chars(&chars, &['b', 'x'])
        || ends_with_chars(&chars, &['g', 'x'])
        || ends_with_chars(&chars, &['n', 'k'])
        || ends_with_chars(&chars, &['n', 'g'])
        || ends_with_chars(&chars, &['n', 'q'])
        || ends_with_chars(&chars, &['m', 'p', 'h'])
        || ends_with_chars(&chars, &['n', 'p', 'h'])
        || ends_with_chars(&chars, &['n', 't', 'h'])
        || ends_with_chars(&chars, &['x', 'c'])
        || ends_with_chars(&chars, &['x', 'p'])
        || ends_with_chars(&chars, &['x', 'k'])
        || ends_with_chars(&chars, &['x', 't'])
        || ends_with_chars(&chars, &['l', 'x'])
        || ends_with_chars(&chars, &['r', 'x'])
        || ends_with_chars(&chars, &['m', 'n', 'x'])
        || ends_with_chars(&chars, &['m', 'p', 'x'])
        || ends_with_chars(&chars, &['n', 't', 'x'])
        || ends_with_chars(&chars, &['n', 'k', 'x']);
    if bad {
        return false;
    }
    let good = ends_with_chars(&chars, &['u', 's'])
        || ends_with_chars(&chars, &['o', 's'])
        || ends_with_chars(&chars, &['i', 's'])
        || ends_with_chars(&chars, &['e', 's'])
        || ends_with_chars(&chars, &['a', 's'])
        || ends_with_chars(&chars, &['u', 'm'])
        || ends_with_chars(&chars, &['o', 'n'])
        || ends_with_chars(&chars, &['e', 'n'])
        || ends_with_chars(&chars, &['e', 'r'])
        || ends_with_chars(&chars, &['o', 'r'])
        || ends_with_char(&chars, 'a')
        || ends_with_char(&chars, 'e')
        || ends_with_char(&chars, 'o')
        || ends_with_char(&chars, 'i')
        || ends_with_char(&chars, 'u')
        || ends_with_char(&chars, 'n')
        || ends_with_char(&chars, 'r')
        || ends_with_char(&chars, 's')
        || ends_with_char(&chars, 'm')
        || ends_with_char(&chars, 'l')
        || ends_with_chars(&chars, &['y', 'x'])
        || ends_with_chars(&chars, &['i', 'x'])
        || ends_with_chars(&chars, &['a', 'x'])
        || ends_with_chars(&chars, &['e', 'x'])
        || ends_with_chars(&chars, &['o', 'x'])
        || ends_with_chars(&chars, &['m', 'a']);
    good
}

/// Whether `s` (lower-cased) holds a forbidden three- or four-letter cluster.
fn has_bad_consonant_cluster(s: &str) -> (r: bool)
    ensures
        r == has_bad_cluster(lower_of(s@)),
{
    has_bad_cluster_lowercase(to_lower(s).as_str())
}

/// Whether a lower-case word holds a forbidden three- or four-letter cluster.
pub fn has_bad_cluster_lowercase(lower: &str) -> (r: bool)
    ensures
        r == has_bad_cluster(lower@),
{
    let chars = chars_of(lower);
    contains_chars(&chars, &['n', 'p', 'h'])
        || contains_chars(&chars, &['m', 'p', 'h'])
        || contains_chars(&chars, &['n', 't', 'h'])
        || contains_chars(&chars, &['n', 'k', 'h'])
        || contains_chars(&chars, &['x', 't', 'h'])
        || contains_chars(&chars, &['p', 'h', 't'])
        || contains_chars(&chars, &['c', 'k', 'h'])
        || contains_chars(&chars, &['t', 'z', 's'])
        || contains_chars(&chars, &['t', 's', 'c'])
        || contains_chars(&chars, &['p', 's', 'c'])
        || contains_chars(&chars, &['c', 'h', 's'])
        || contains_chars(&chars, &['m', 'p', 'h', 'n'])
        || contains_chars(&chars, &['n', 't', 'h', 'n'])
        || contains_chars(&chars, &['t', 's', 'c', 'h'])
        || contains_chars(&chars, &['p', 's', 'c', 'h'])
}

/// Whether a genus has a legal ending and no forbidden cluster.
pub fn check_genus_quality(genus: &str) -> (r: bool)
    ensures
        r == genus_quality(genus@),
{
    if !is_phonotactically_valid(genus) {
        return false;
    }
    if has_bad_consonant_cluster(genus) {
        return false;
    }
    true
}

} // verus!
