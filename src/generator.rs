//! Encoding, salt hashing, the keyed permutation and name assembly.
//!
//! A (date, number) pair is packed into a 64-bit value, permuted by a four-round
//! Feistel network keyed by the salt, and the permuted bits pick a prefix, a root,
//! an ending and a species. When the genus fails the quality bound, attempt `k`
//! (1 to 99) retries with `base * RETRY_MULTIPLIER + k`, wrapping; endings are always
//! drawn from those that need no vowel-final stem (all but `yx`, `ix`, `ax`). When no
//! attempt passes, the name of the base value is returned as it is.
use vstd::prelude::*;
use crate::config::Config;
use crate::data::morphemes::{
    fits_category, has_fitting_descriptor, needs_vowel_stem, safe_suffixes_of, species_pool_of, Category, Morpheme, Morphemes,
    Origin, SpeciesDescriptor,
};
use crate::pronounceability::{pronounceability_score, score_spec};
use crate::date::Date;
use crate::text::{
    char_to_upper, ends_with_vowel_spec, is_vowel, lower_of, starts_with_vowel_spec, to_lower,
    upper_of,
};
use vstd::string::{StrSliceExecFns, StringExecFns, StringSliceAdditionalSpecFns};
use vstd::utf8::encode_utf8;
pub use crate::decoder::decode_name;

verus! {

/// Seed of the salt hash; also the key of the empty salt.
pub const SALT_SEED: u64 = 0x123456789abcdef0;

/// Multiplier of the first mixing step of the round function.
pub const MIX_A: u64 = 0x517cc1b727220a95;

/// Multiplier of the second mixing step of the round function.
pub const MIX_B: u64 = 0x2545f4914f6cdd1d;

/// Mask of the low 32 bits.
pub const LOW_MASK: u64 = 0xFFFF_FFFF;

/// Number of Feistel rounds.
pub const ROUNDS: u64 = 4;

/// Year from which the encoded year offset counts.
pub const EPOCH_YEAR: i32 = 2000;

/// The packed value of a (date, number) pair, before reduction modulo 2^64.
pub open spec fn packed(d: Date, number: u32) -> int {
    (d.year - EPOCH_YEAR) * 1_000_000 + d.month * 100_000 + d.day * 1_000 + number
}

/// The encoded value: the packed value modulo 2^64.
pub open spec fn encode_spec(d: Date, number: u32) -> u64 {
    (packed(d, number) % 0x1_0000_0000_0000_0000) as u64
}

/// Packs a date and a number into one integer:
/// `yearOffset*1_000_000 + month*100_000 + day*1_000 + number`, modulo 2^64.
pub fn encode_date_number(date: Date, number: u32) -> (r: u64)
    ensures
        r == encode_spec(date, number),
{
    let year: i64 = date.year as i64 - EPOCH_YEAR as i64;
    let v: i64 = year * 1_000_000 + date.month as i64 * 100_000 + date.day as i64 * 1_000
        + number as i64;
    if v >= 0 {
        v as u64
    } else {
        let shifted: i64 = v + i64::MAX + 1;
        shifted as u64 + (i64::MAX as u64 + 1)
    }
}

/// Folds bytes into a key: `acc = acc*31 + byte`, wrapping, from `SALT_SEED`.
pub open spec fn salt_key(bytes: Seq<u8>) -> u64
    decreases bytes.len(),
{
    if bytes.len() == 0 {
        SALT_SEED
    } else {
        salt_key(bytes.drop_last()).wrapping_mul(31).wrapping_add(bytes.last() as u64)
    }
}

/// The 64-bit key of a salt, over its UTF-8 bytes; the empty salt gives `SALT_SEED`.
pub fn hash_salt(salt: &str) -> (r: u64)
    ensures
        r == salt_key(salt.spec_bytes()),
{
    let bytes = salt.as_bytes();
    let mut acc: u64 = SALT_SEED;
    let mut i: usize = 0;
    while i < bytes.len()
        invariant
            bytes@ == salt.spec_bytes(),
            i <= bytes@.len(),
            acc == salt_key(bytes@.subrange(0, i as int)),
        decreases bytes@.len() - i,
    {
        assert(bytes@.subrange(0, i + 1).drop_last() =~= bytes@.subrange(0, i as int));
        acc = acc.wrapping_mul(31).wrapping_add(bytes[i] as u64);
        i = i + 1;
    }
    assert(bytes@.subrange(0, i as int) =~= bytes@);
    acc
}

/// The round function F(value, key), masked to 32 bits.
pub open spec fn round_fn(value: u64, key: u64) -> u64 {
    let h1 = value.wrapping_add(key).wrapping_mul(MIX_A);
    let h2 = h1 ^ (h1 >> 33u64);
    let h3 = h2.wrapping_mul(MIX_B);
    let h4 = h3 ^ (h3 >> 29u64);
    h4 & LOW_MASK
}

/// Computes the round function.
pub fn feistel_round(value: u64, key: u64) -> (r: u64)
    ensures
        r == round_fn(value, key),
        r <= LOW_MASK,
{
    let mut h = value.wrapping_add(key);
    h = h.wrapping_mul(MIX_A);
    h = h ^ (h >> 33u64);
    h = h.wrapping_mul(MIX_B);
    h = h ^ (h >> 29u64);
    assert(h & LOW_MASK <= LOW_MASK) by (bit_vector);
    h & LOW_MASK
}

/// Key of round `i` (0-based): `saltKey * (i + 1)`, wrapping.
pub open spec fn round_key(salt_key: u64, i: nat) -> u64 {
    salt_key.wrapping_mul((i + 1) as u64)
}

/// The halves (left, right) after `n` rounds.
pub open spec fn feistel_state(x: u64, key: u64, n: nat) -> (u64, u64)
    decreases n,
{
    if n == 0 {
        ((x >> 32u64) & LOW_MASK, x & LOW_MASK)
    } else {
        let (l, r) = feistel_state(x, key, (n - 1) as nat);
        (r, l ^ round_fn(r, round_key(key, (n - 1) as nat)))
    }
}

/// The four-round Feistel permutation of `x` under `key`.
pub open spec fn permute_spec(x: u64, key: u64) -> u64 {
    let (l, r) = feistel_state(x, key, ROUNDS as nat);
    (l << 32u64) | r
}

/// Applies the keyed four-round Feistel permutation.
pub fn permute(x: u64, salt_hash: u64) -> (r: u64)
    ensures
        r == permute_spec(x, salt_hash),
{
    let mut left: u64 = (x >> 32u64) & LOW_MASK;
    let mut right: u64 = x & LOW_MASK;
    let mut round: u64 = 0;
    while round < ROUNDS
        invariant
            round <= ROUNDS,
            (left, right) == feistel_state(x, salt_hash, round as nat),
        decreases ROUNDS - round,
    {
        let round_key = salt_hash.wrapping_mul(round + 1);
        let f_output = feistel_round(right, round_key);
        let new_right = left ^ f_output;
        left = right;
        right = new_right;
        round = round + 1;
    }
    (left << 32u64) | right
}

/// Undoes rounds `n-1`, ..., `0`, starting from the halves `(l, r)`.
pub open spec fn feistel_unwind(l: u64, r: u64, key: u64, n: nat) -> (u64, u64)
    decreases n,
{
    if n == 0 {
        (l, r)
    } else {
        feistel_unwind(r ^ round_fn(l, round_key(key, (n - 1) as nat)), l, key, (n - 1) as nat)
    }
}

proof fn lemma_halves_bounded(x: u64, key: u64, n: nat)
    ensures
        feistel_state(x, key, n).0 <= LOW_MASK,
        feistel_state(x, key, n).1 <= LOW_MASK,
    decreases n,
{
    if n == 0 {
        assert((x >> 32u64) & LOW_MASK <= LOW_MASK && x & LOW_MASK <= LOW_MASK) by (bit_vector);
    } else {
        lemma_halves_bounded(x, key, (n - 1) as nat);
        let (l, r) = feistel_state(x, key, (n - 1) as nat);
        let f = round_fn(r, round_key(key, (n - 1) as nat));
        let h = r.wrapping_add(round_key(key, (n - 1) as nat)).wrapping_mul(MIX_A);
        let h2 = (h ^ (h >> 33u64)).wrapping_mul(MIX_B);
        assert((h2 ^ (h2 >> 29u64)) & LOW_MASK <= LOW_MASK) by (bit_vector);
        assert(l <= LOW_MASK && f <= LOW_MASK ==> l ^ f <= LOW_MASK) by (bit_vector);
    }
}

proof fn lemma_unwind_state(x: u64, key: u64, n: nat)
    ensures
        feistel_unwind(feistel_state(x, key, n).0, feistel_state(x, key, n).1, key, n)
            == feistel_state(x, key, 0),
    decreases n,
{
    if n > 0 {
        let (l, r) = feistel_state(x, key, (n - 1) as nat);
        let f = round_fn(r, round_key(key, (n - 1) as nat));
        assert((l ^ f) ^ f == l) by (bit_vector);
        lemma_unwind_state(x, key, (n - 1) as nat);
    }
}

/// The permutation is a bijection of the 64-bit space for every key: two inputs
/// with the same output are equal.
pub proof fn lemma_permute_injective(x: u64, y: u64, key: u64)
    requires
        permute_spec(x, key) == permute_spec(y, key),
    ensures
        x == y,
{
    let n = ROUNDS as nat;
    lemma_halves_bounded(x, key, n);
    lemma_halves_bounded(y, key, n);
    let (a, b) = feistel_state(x, key, n);
    let (c, d) = feistel_state(y, key, n);
    assert(a <= LOW_MASK && b <= LOW_MASK && c <= LOW_MASK && d <= LOW_MASK && ((a << 32u64) | b)
        == ((c << 32u64) | d) ==> a == c && b == d) by (bit_vector);
    lemma_unwind_state(x, key, n);
    lemma_unwind_state(y, key, n);
    assert(x == (((x >> 32u64) & LOW_MASK) << 32u64) | (x & LOW_MASK)) by (bit_vector);
    assert(y == (((y >> 32u64) & LOW_MASK) << 32u64) | (y & LOW_MASK)) by (bit_vector);
}

/// `s` without its trailing hyphens.
pub open spec fn trim_end_dashes(s: Seq<char>) -> Seq<char>
    decreases s.len(),
{
    if s.len() > 0 && s.last() == '-' {
        trim_end_dashes(s.drop_last())
    } else {
        s
    }
}

/// `s` without its leading hyphens.
pub open spec fn trim_start_dashes(s: Seq<char>) -> Seq<char>
    decreases s.len(),
{
    if s.len() > 0 && s[0] == '-' {
        trim_start_dashes(s.drop_first())
    } else {
        s
    }
}

/// The connecting vowel: `o` after a Greek prefix, `i` after a Latin one.
pub open spec fn connector(o: Origin) -> Seq<char> {
    match o {
        Origin::Greek => seq!['o'],
        Origin::Latin => seq!['i'],
    }
}

/// Prefix and root, with the connector between them unless a vowel already meets there.
pub open spec fn stem_spec(p: Seq<char>, r: Seq<char>, o: Origin) -> Seq<char> {
    if ends_with_vowel_spec(p) || starts_with_vowel_spec(r) {
        p + r
    } else {
        p + connector(o) + r
    }
}

/// Stem and ending: a vowel ending replaces the final vowel of a stem longer than one
/// character; a consonant ending after a consonant takes the connector.
pub open spec fn join_spec(stem: Seq<char>, s: Seq<char>, o: Origin) -> Seq<char> {
    if starts_with_vowel_spec(s) {
        if ends_with_vowel_spec(stem) && stem.len() > 1 {
            stem.drop_last() + s
        } else {
            stem + s
        }
    } else if ends_with_vowel_spec(stem) {
        stem + s
    } else {
        stem + connector(o) + s
    }
}

/// `s` with its first character replaced by its upper-case mapping.
pub open spec fn capitalized(s: Seq<char>) -> Seq<char> {
    if s.len() == 0 {
        s
    } else {
        upper_of(s[0]) + s.skip(1)
    }
}

/// Prefix, root and ending joined, hyphens trimmed, before any change of case.
pub open spec fn joined_spec(prefix: Morpheme, root: Seq<char>, suffix: Seq<char>) -> Seq<char> {
    let p = trim_end_dashes(prefix.text@);
    let r = trim_end_dashes(trim_start_dashes(root));
    let s = trim_start_dashes(suffix);
    join_spec(stem_spec(p, r, prefix.origin), s, prefix.origin)
}

/// The genus built from a prefix, a root and an ending: the joined word, lower-cased,
/// then capitalized.
pub open spec fn genus_spec(prefix: Morpheme, root: Seq<char>, suffix: Seq<char>) -> Seq<char> {
    capitalized(lower_of(joined_spec(prefix, root, suffix)))
}

/// `s` without its trailing hyphens.
fn trim_end_dash<'a>(s: &'a str) -> (r: &'a str)
    ensures
        r@ == trim_end_dashes(s@),
{
    let mut k: usize = s.unicode_len();
    assert(s@.take(k as int) =~= s@);
    while k > 0 && s.get_char(k - 1) == '-'
        invariant
            k <= s@.len(),
            trim_end_dashes(s@.take(k as int)) == trim_end_dashes(s@),
        decreases k,
    {
        assert(s@.take(k as int).drop_last() =~= s@.take(k - 1));
        k = k - 1;
    }
    let r = s.substring_char(0, k);
    assert(r@ =~= s@.take(k as int));
    r
}

/// `s` without its leading hyphens.
fn trim_start_dash<'a>(s: &'a str) -> (r: &'a str)
    ensures
        r@ == trim_start_dashes(s@),
{
    let n: usize = s.unicode_len();
    let mut k: usize = 0;
    assert(s@.skip(0) =~= s@);
    while k < n && s.get_char(k) == '-'
        invariant
            n == s@.len(),
            k <= n,
            trim_start_dashes(s@.skip(k as int)) == trim_start_dashes(s@),
        decreases n - k,
    {
        assert(s@.skip(k as int).drop_first() =~= s@.skip(k + 1));
        k = k + 1;
    }
    let r = s.substring_char(k, n);
    assert(r@ =~= s@.skip(k as int));
    r
}

/// Whether the first character of `s` is a vowel.
fn starts_with_vowel(s: &str) -> (r: bool)
    ensures
        r == starts_with_vowel_spec(s@),
{
    s.unicode_len() > 0 && is_vowel(s.get_char(0))
}

/// Whether the last character of `s` is a vowel.
fn ends_with_vowel(s: &str) -> (r: bool)
    ensures
        r == ends_with_vowel_spec(s@),
{
    let n = s.unicode_len();
    n > 0 && is_vowel(s.get_char(n - 1))
}

/// `s` with its first character upper-cased.
fn capitalize_first(s: &str) -> (r: String)
    ensures
        r@ == capitalized(s@),
{
    let n = s.unicode_len();
    if n == 0 {
        return String::new();
    }
    let mut r = char_to_upper(s.get_char(0));
    let rest = s.substring_char(1, n);
    r.append(rest);
    assert(rest@ =~= s@.skip(1));
    r
}

/// The connector of an origin, as a string.
fn connector_str(o: Origin) -> (r: &'static str)
    ensures
        r@ == connector(o),
{
    proof {
        reveal_strlit("o");
        reveal_strlit("i");
    }
    match o {
        Origin::Greek => "o",
        Origin::Latin => "i",
    }
}

/// Builds the genus from a prefix, a root and an ending: hyphens trimmed, connector
/// or vowel elision at each joint, then lower-cased and capitalized.
pub fn assemble_genus(prefix: &Morpheme, root: &str, suffix: &str) -> (r: String)
    ensures
        r@ == genus_spec(*prefix, root@, suffix@),
{
    let joined = join_morphemes(prefix, root, suffix);
    capitalize_first(to_lower(joined.as_str()).as_str())
}

/// Joins a prefix, a root and an ending with hyphens trimmed: the connector goes
/// between consonants, and a vowel ending replaces the final vowel of a longer stem.
pub fn join_morphemes(prefix: &Morpheme, root: &str, suffix: &str) -> (r: String)
    ensures
        r@ == joined_spec(*prefix, root@, suffix@),
{
    let p = trim_end_dash(prefix.text);
    let r = trim_end_dash(trim_start_dash(root));
    let s = trim_start_dash(suffix);
    let connector = connector_str(prefix.origin);

    let mut stem = String::from_str(p);
    if !(ends_with_vowel(p) || starts_with_vowel(r)) {
        stem.append(connector);
    }
    stem.append(r);

    let stem_len = stem.as_str().unicode_len();
    let joined = if starts_with_vowel(s) {
        if ends_with_vowel(stem.as_str()) && stem_len > 1 {
            let head = stem.as_str().substring_char(0, stem_len - 1);
            assert(head@ =~= stem@.drop_last());
            let mut j = String::from_str(head);
            j.append(s);
            j
        } else {
            stem.append(s);
            stem
        }
    } else if ends_with_vowel(stem.as_str()) {
        stem.append(s);
        stem
    } else {
        stem.append(connector);
        stem.append(s);
        stem
    };
    joined
}

/// Number of candidate encodings tried before falling back.
pub const MAX_QUALITY_ATTEMPTS: u64 = 100;

/// Multiplier that spreads the retried encodings.
pub const RETRY_MULTIPLIER: u64 = 0x9e3779b97f4a7c15;

/// The prefix that a permuted value selects.
pub open spec fn candidate_prefix(m: &Morphemes, permuted: u64) -> Morpheme {
    m.prefixes@[prefix_index(m, permuted)]
}

/// Index of the prefix that a permuted value selects: its low 32 bits modulo the table size.
pub open spec fn prefix_index(m: &Morphemes, permuted: u64) -> int {
    ((permuted & LOW_MASK) as int) % (m.prefixes@.len() as int)
}

/// Index of the root: bits 8 and up of the low 32 bits, modulo the table size.
pub open spec fn root_index(m: &Morphemes, permuted: u64) -> int {
    (((permuted & LOW_MASK) >> 8u64) as int) % (m.roots@.len() as int)
}

/// Index of the ending among the safe endings: bits 16 and up of the low 32 bits.
pub open spec fn suffix_index(m: &Morphemes, permuted: u64) -> int {
    (((permuted & LOW_MASK) >> 16u64) as int) % (m.safe_suffixes().len() as int)
}

/// The genus of prefix `i`, root `j` and safe ending `k`.
pub open spec fn triple_genus(m: &Morphemes, i: int, j: int, k: int) -> Seq<char> {
    genus_spec(m.prefixes@[i], m.roots@[j]@, m.safe_suffixes()[k]@)
}

/// The genus that a permuted value selects.
#[verifier::opaque]
pub open spec fn candidate_genus(m: &Morphemes, permuted: u64) -> Seq<char> {
    triple_genus(m, prefix_index(m, permuted), root_index(m, permuted), suffix_index(m, permuted))
}

/// The species that a permuted value selects: bits 32 to 63 index the descriptors that
/// fit the prefix's category.
#[verifier::opaque]
pub open spec fn candidate_species(m: &Morphemes, permuted: u64) -> Seq<char> {
    let pool = m.species_pool(candidate_prefix(m, permuted).category);
    pool[(((permuted >> 32u64) & LOW_MASK) as int) % (pool.len() as int)].text@
}

/// Genus and species of a permuted value, joined by a space.
pub open spec fn candidate_name(m: &Morphemes, permuted: u64) -> Seq<char> {
    candidate_genus(m, permuted) + seq![' '] + candidate_species(m, permuted)
}

/// The quality bound: at most `max_genus_length` bytes and a score of at least the threshold.
#[verifier::opaque]
pub open spec fn acceptable(genus: Seq<char>, cfg: Config) -> bool {
    encode_utf8(genus).len() <= cfg.max_genus_length && score_spec(genus)
        >= cfg.min_pronounceability_score
}

/// Input of attempt `k`: the base value first, then `base * RETRY_MULTIPLIER + k`, wrapping.
pub open spec fn attempt_input(base: u64, k: nat) -> u64 {
    if k == 0 {
        base
    } else {
        base.wrapping_mul(RETRY_MULTIPLIER).wrapping_add(k as u64)
    }
}

/// The permuted value of attempt `k`.
#[verifier::opaque]
pub open spec fn attempt_permuted(base: u64, key: u64, k: nat) -> u64 {
    permute_spec(attempt_input(base, k), key)
}

/// The earliest attempt number from `k`, below `MAX_QUALITY_ATTEMPTS`, whose genus is acceptable.
#[verifier::opaque]
pub open spec fn first_accepted(m: &Morphemes, cfg: Config, base: u64, key: u64, k: nat) -> Option<
    nat,
>
    decreases MAX_QUALITY_ATTEMPTS - k,
{
    if k >= MAX_QUALITY_ATTEMPTS {
        None
    } else if acceptable(candidate_genus(m, attempt_permuted(base, key, k)), cfg) {
        Some(k)
    } else {
        first_accepted(m, cfg, base, key, k + 1)
    }
}

/// The permuted value a name is drawn from: that of the first accepted attempt, or
/// that of the base value when none is accepted.
pub open spec fn chosen_permuted(m: &Morphemes, cfg: Config, base: u64, key: u64) -> u64 {
    match first_accepted(m, cfg, base, key, 0) {
        Some(k) => attempt_permuted(base, key, k),
        None => permute_spec(base, key),
    }
}

/// The name drawn from base value `base` under key `key`.
pub open spec fn name_from(m: &Morphemes, cfg: Config, base: u64, key: u64) -> Seq<char> {
    candidate_name(m, chosen_permuted(m, cfg, base, key))
}

/// The name generated for a date, a number and a salt.
#[verifier::opaque]
pub open spec fn name_spec(m: &Morphemes, cfg: Config, d: Date, number: u32, salt: Seq<char>) -> Seq<
    char,
> {
    candidate_name(m, chosen_permuted(m, cfg, encode_spec(d, number), salt_key(encode_utf8(salt))))
}

/// The species of the generated name.
pub open spec fn species_of(m: &Morphemes, cfg: Config, d: Date, number: u32, salt: Seq<char>) -> Seq<
    char,
> {
    candidate_species(
        m,
        chosen_permuted(m, cfg, encode_spec(d, number), salt_key(encode_utf8(salt))),
    )
}

/// The genus of the generated name.
pub open spec fn genus_of(m: &Morphemes, cfg: Config, d: Date, number: u32, salt: Seq<char>) -> Seq<
    char,
> {
    candidate_genus(m, chosen_permuted(m, cfg, encode_spec(d, number), salt_key(encode_utf8(salt))))
}

pub(crate) proof fn lemma_first_accepted_step(m: &Morphemes, cfg: Config, base: u64, key: u64, k: nat)
    requires
        k < MAX_QUALITY_ATTEMPTS,
    ensures
        first_accepted(m, cfg, base, key, k) == if acceptable(
            candidate_genus(m, attempt_permuted(base, key, k)),
            cfg,
        ) {
            Some(k)
        } else {
            first_accepted(m, cfg, base, key, k + 1)
        },
{
    reveal_with_fuel(first_accepted, 1);
}

pub(crate) proof fn lemma_first_accepted_end(m: &Morphemes, cfg: Config, base: u64, key: u64)
    ensures
        first_accepted(m, cfg, base, key, MAX_QUALITY_ATTEMPTS as nat) is None,
{
    reveal_with_fuel(first_accepted, 1);
}

pub(crate) proof fn lemma_name_of_choice(
    m: &Morphemes,
    cfg: Config,
    d: Date,
    number: u32,
    salt: Seq<char>,
    base: u64,
    key: u64,
)
    requires
        base == encode_spec(d, number),
        key == salt_key(encode_utf8(salt)),
    ensures
        name_spec(m, cfg, d, number, salt) == candidate_genus(m, chosen_permuted(m, cfg, base, key))
            + seq![' '] + candidate_species(m, chosen_permuted(m, cfg, base, key)),
        name_spec(m, cfg, d, number, salt) == name_from(m, cfg, base, key),
        first_accepted(m, cfg, base, key, 0) is None ==> chosen_permuted(m, cfg, base, key)
            == attempt_permuted(base, key, 0),
{
    reveal(name_spec);
    reveal(attempt_permuted);
}

pub(crate) proof fn lemma_safe_nonempty(m: &Morphemes)
    requires
        m.wf(),
    ensures
        m.safe_suffixes().len() > 0,
{
    let i = choose|i: int|
        0 <= i < m.genus_suffixes@.len() && !needs_vowel_stem(#[trigger] m.genus_suffixes@[i]@);
    m.genus_suffixes@.lemma_filter_contains(|x: &'static str| !needs_vowel_stem(x@), i);
}

pub(crate) proof fn lemma_pools_nonempty(m: &Morphemes, p: int)
    requires
        m.wf(),
        0 <= p < m.prefixes@.len(),
    ensures
        m.safe_suffixes().len() > 0,
        m.species_pool(m.prefixes@[p].category).len() > 0,
{
    lemma_safe_nonempty(m);
    let c = m.prefixes@[p].category;
    assert(has_fitting_descriptor(m.species_descriptors@, m.prefixes@[p].category));
    let j = choose|j: int|
        0 <= j < m.species_descriptors@.len() && fits_category(
            #[trigger] m.species_descriptors@[j],
            c,
        );
    m.species_descriptors@.lemma_filter_contains(|d: SpeciesDescriptor| fits_category(d, c), j);
}

/// The endings usable without knowing the stem.
pub(crate) fn get_safe_suffixes(morphemes: &Morphemes) -> (r: Vec<&'static str>)
    ensures
        r@ == morphemes.safe_suffixes(),
{
    let mut r: Vec<&'static str> = Vec::new();
    let n = morphemes.genus_suffixes.len();
    let mut i: usize = 0;
    while i < n
        invariant
            n == morphemes.genus_suffixes@.len(),
            i <= n,
            r@ == safe_suffixes_of(morphemes.genus_suffixes@.take(i as int)),
        decreases n - i,
    {
        let s = morphemes.genus_suffixes[i];
        proof {
            assert(morphemes.genus_suffixes@.take(i + 1) =~= morphemes.genus_suffixes@.take(
                i as int,
            ).push(s));
            morphemes.genus_suffixes@.take(i as int).lemma_filter_push(
                s,
                |x: &'static str| !needs_vowel_stem(x@),
            );
        }
        let len = s.unicode_len();
        let vowel_stem = len == 2 && s.get_char(1) == 'x' && (s.get_char(0) == 'y' || s.get_char(0)
            == 'i' || s.get_char(0) == 'a');
        proof {
            if len == 2 {
                assert(s@ =~= seq![s@[0], s@[1]]);
            }
        }
        if !vowel_stem {
            r.push(s);
        }
        i = i + 1;
    }
    assert(morphemes.genus_suffixes@.take(n as int) =~= morphemes.genus_suffixes@);
    r
}

/// The species descriptors that fit category `c`.
pub(crate) fn species_pool(morphemes: &Morphemes, c: Category) -> (r: Vec<SpeciesDescriptor>)
    ensures
        r@ == morphemes.species_pool(c),
{
    let mut r: Vec<SpeciesDescriptor> = Vec::new();
    let n = morphemes.species_descriptors.len();
    let mut i: usize = 0;
    while i < n
        invariant
            n == morphemes.species_descriptors@.len(),
            i <= n,
            r@ == species_pool_of(morphemes.species_descriptors@.take(i as int), c),
        decreases n - i,
    {
        let d = morphemes.species_descriptors[i];
        proof {
            assert(morphemes.species_descriptors@.take(i + 1) =~= morphemes.species_descriptors@.take(
                i as int,
            ).push(d));
            morphemes.species_descriptors@.take(i as int).lemma_filter_push(
                d,
                |x: SpeciesDescriptor| fits_category(x, c),
            );
        }
        let fits = match d.category {
            None => true,
            Some(k) => k == c,
        };
        if fits {
            r.push(d);
        }
        i = i + 1;
    }
    assert(morphemes.species_descriptors@.take(n as int) =~= morphemes.species_descriptors@);
    r
}

/// Genus and species drawn from the permutation of `encoded` under `salt_hash`.
fn generate_name_internal(encoded: u64, salt_hash: u64, morphemes: &Morphemes) -> (r: (
    String,
    String,
))
    requires
        morphemes.wf(),
    ensures
        r.0@ == candidate_genus(morphemes, permute_spec(encoded, salt_hash)),
        r.1@ == candidate_species(morphemes, permute_spec(encoded, salt_hash)),
{
    proof {
        reveal(candidate_genus);
        reveal(candidate_species);
    }
    let permuted = permute(encoded, salt_hash);
    let genus_seed = permuted & LOW_MASK;
    let species_seed = (permuted >> 32u64) & LOW_MASK;

    let safe_suffixes = get_safe_suffixes(morphemes);
    let prefix_idx = (genus_seed % morphemes.prefixes.len() as u64) as usize;
    let root_idx = ((genus_seed >> 8u64) % morphemes.roots.len() as u64) as usize;
    proof {
        lemma_pools_nonempty(morphemes, prefix_idx as int);
    }
    let suffix_idx = ((genus_seed >> 16u64) % safe_suffixes.len() as u64) as usize;

    let prefix = &morphemes.prefixes[prefix_idx];
    let genus = assemble_genus(prefix, morphemes.roots[root_idx], safe_suffixes[suffix_idx]);

    let pool = species_pool(morphemes, prefix.category);
    let descriptor_idx = (species_seed % pool.len() as u64) as usize;
    let species = String::from_str(pool[descriptor_idx].text);
    (genus, species)
}

/// Genus and species of attempt `attempt`.
pub(crate) fn attempt_candidate(base: u64, attempt: u64, salt_hash: u64, morphemes: &Morphemes) -> (r: (
    String,
    String,
))
    requires
        morphemes.wf(),
    ensures
        r.0@ == candidate_genus(morphemes, attempt_permuted(base, salt_hash, attempt as nat)),
        r.1@ == candidate_species(morphemes, attempt_permuted(base, salt_hash, attempt as nat)),
{
    proof {
        reveal(attempt_permuted);
    }
    let encoded = if attempt == 0 {
        base
    } else {
        base.wrapping_mul(RETRY_MULTIPLIER).wrapping_add(attempt)
    };
    generate_name_internal(encoded, salt_hash, morphemes)
}

/// Genus and species joined by a space.
pub(crate) fn join_name(genus: String, species: &str) -> (r: String)
    ensures
        r@ == genus@ + seq![' '] + species@,
{
    proof {
        reveal_strlit(" ");
    }
    let mut r = genus;
    r.append(" ");
    r.append(species);
    r
}

/// Whether a genus meets the quality bound.
pub(crate) fn is_name_acceptable(genus: &str, config: &Config) -> (r: bool)
    ensures
        r == acceptable(genus@, *config),
{
    proof {
        reveal(acceptable);
    }
    if genus.as_bytes().len() > config.max_genus_length {
        return false;
    }
    let score = pronounceability_score(genus);
    score >= config.min_pronounceability_score
}

/// The name of `(date, number)` under `salt`: the first of up to 100 candidate
/// encodings whose genus meets the quality bound, else the base encoding's name.
pub fn generate_name(
    date: Date,
    number: u32,
    salt: &str,
    morphemes: &Morphemes,
    config: &Config,
) -> (r: String)
    requires
        morphemes.wf(),
    ensures
        r@ == name_spec(morphemes, *config, date, number, salt@),
{
    let base_encoded = encode_date_number(date, number);
    let salt_hash = hash_salt(salt);
    let ghost first = first_accepted(morphemes, *config, base_encoded, salt_hash, 0);
    let mut attempt: u64 = 0;
    while attempt < MAX_QUALITY_ATTEMPTS
        invariant
            attempt <= MAX_QUALITY_ATTEMPTS,
            morphemes.wf(),
            base_encoded == encode_spec(date, number),
            salt_hash == salt_key(encode_utf8(salt@)),
            first == first_accepted(morphemes, *config, base_encoded, salt_hash, 0),
            first == first_accepted(morphemes, *config, base_encoded, salt_hash, attempt as nat),
        decreases MAX_QUALITY_ATTEMPTS - attempt,
    {
        let (genus, species) = attempt_candidate(base_encoded, attempt, salt_hash, morphemes);
        proof {
            lemma_first_accepted_step(morphemes, *config, base_encoded, salt_hash, attempt as nat);
        }
        if is_name_acceptable(genus.as_str(), config) {
            let r = join_name(genus, species.as_str());
            proof {
                lemma_name_of_choice(morphemes, *config, date, number, salt@, base_encoded, salt_hash);
            }
            return r;
        }
        attempt = attempt + 1;
    }
    proof {
        lemma_first_accepted_end(morphemes, *config, base_encoded, salt_hash);
    }
    let (genus, species) = attempt_candidate(base_encoded, 0, salt_hash, morphemes);
    let r = join_name(genus, species.as_str());
    proof {
        lemma_name_of_choice(morphemes, *config, date, number, salt@, base_encoded, salt_hash);
    }
    r
}

proof fn lemma_first_accepted_props(m: &Morphemes, cfg: Config, base: u64, key: u64, k: nat)
    ensures
        first_accepted(m, cfg, base, key, k) matches Some(j) ==> k <= j < MAX_QUALITY_ATTEMPTS
            && acceptable(candidate_genus(m, attempt_permuted(base, key, j)), cfg),
        first_accepted(m, cfg, base, key, k) is None ==> forall|j: nat|
            k <= j < MAX_QUALITY_ATTEMPTS ==> !acceptable(
                #[trigger] candidate_genus(m, attempt_permuted(base, key, j)),
                cfg,
            ),
    decreases MAX_QUALITY_ATTEMPTS - k,
{
    if k < MAX_QUALITY_ATTEMPTS {
        lemma_first_accepted_step(m, cfg, base, key, k);
        lemma_first_accepted_props(m, cfg, base, key, k + 1);
    } else {
        reveal_with_fuel(first_accepted, 1);
    }
}

/// A generated name is its genus, a space and its species. The genus is at most
/// `max_genus_length` bytes long and scores at least `min_pronounceability_score`,
/// unless no attempt within the budget is acceptable (the fallback case).
pub proof fn lemma_quality_bound(m: &Morphemes, cfg: Config, d: Date, number: u32, salt: Seq<char>)
    ensures
        name_spec(m, cfg, d, number, salt) == genus_of(m, cfg, d, number, salt) + seq![' ']
            + species_of(m, cfg, d, number, salt),
        ({
            let g = genus_of(m, cfg, d, number, salt);
            encode_utf8(g).len() <= cfg.max_genus_length && score_spec(g)
                >= cfg.min_pronounceability_score
        }) || (forall|k: nat|
            k < MAX_QUALITY_ATTEMPTS ==> !acceptable(
                #[trigger] candidate_genus(
                    m,
                    attempt_permuted(encode_spec(d, number), salt_key(encode_utf8(salt)), k),
                ),
                cfg,
            )),
{
    reveal(name_spec);
    let base = encode_spec(d, number);
    let key = salt_key(encode_utf8(salt));
    lemma_first_accepted_props(m, cfg, base, key, 0);
    reveal(acceptable);
}

/// A generated name is a genus, a space and the text of a species descriptor of the
/// tables whose category fits that of the chosen prefix.
pub proof fn lemma_name_shape(m: &Morphemes, cfg: Config, d: Date, number: u32, salt: Seq<char>)
    requires
        m.wf(),
    ensures
        exists|j: int|
            0 <= j < m.species_descriptors@.len() && species_of(m, cfg, d, number, salt)
                == (#[trigger] m.species_descriptors@[j]).text@ && fits_category(
                m.species_descriptors@[j],
                candidate_prefix(
                    m,
                    chosen_permuted(m, cfg, encode_spec(d, number), salt_key(encode_utf8(salt))),
                ).category,
            ),
        name_spec(m, cfg, d, number, salt) == genus_of(m, cfg, d, number, salt) + seq![' ']
            + species_of(m, cfg, d, number, salt),
{
    reveal(name_spec);
    reveal(candidate_species);
    let p = chosen_permuted(m, cfg, encode_spec(d, number), salt_key(encode_utf8(salt)));
    let c = candidate_prefix(m, p).category;
    lemma_pools_nonempty(m, prefix_index(m, p));
    let pool = m.species_pool(c);
    let k = (((p >> 32u64) & LOW_MASK) as int) % (pool.len() as int);
    let pred = |x: SpeciesDescriptor| fits_category(x, c);
    m.species_descriptors@.lemma_filter_pred(pred, k);
    assert(pool.contains(pool[k]));
    m.species_descriptors@.lemma_filter_contains_rev(pred, pool[k]);
    let j = choose|j: int| 0 <= j < m.species_descriptors@.len() && m.species_descriptors@[j]
        == pool[k];
    assert(m.species_descriptors@[j] == pool[k]);
}

/// Generation is deterministic: the same inputs give the same name.
pub proof fn lemma_deterministic(
    m: &Morphemes,
    cfg: Config,
    d1: Date,
    n1: u32,
    s1: Seq<char>,
    d2: Date,
    n2: u32,
    s2: Seq<char>,
)
    requires
        d1 == d2,
        n1 == n2,
        s1 == s2,
    ensures
        name_spec(m, cfg, d1, n1, s1) == name_spec(m, cfg, d2, n2, s2),
{
}

} // verus!
