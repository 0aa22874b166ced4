//! Recovering (date, number) from a name by a staged search over the candidates.
//!
//! The search runs the generator forward on each candidate and compares names. Since
//! a genus depends only on its (prefix, root, ending) triple, whether it meets the
//! quality bound and whether it begins the sought name are computed once per triple
//! and kept for the rest of the search.
use vstd::prelude::*;
use crate::config::Config;
use crate::data::morphemes::Morphemes;
use crate::date::{days_in_month, month_length, shift_days, shifted_date, Date};
use crate::generator::{
    acceptable, assemble_genus, attempt_candidate, attempt_permuted, candidate_genus,
    candidate_name, encode_date_number, first_accepted, get_safe_suffixes, hash_salt,
    is_name_acceptable, join_name, lemma_first_accepted_end, lemma_first_accepted_step,
    lemma_name_of_choice, name_from, name_spec, permute, salt_key, triple_genus, LOW_MASK,
    MAX_QUALITY_ATTEMPTS, RETRY_MULTIPLIER,
};
use crate::text::chars_of;
use vstd::arithmetic::div_mod::lemma_fundamental_div_mod_converse;
use vstd::string::StringExecFns;
use vstd::utf8::encode_utf8;

verus! {

/// Largest number of (prefix, root, ending) triples whose results a search keeps.
pub const MEMO_LIMIT: usize = 0x100_0000;

/// Number of days searched on each side of today.
pub const NEAR_DAYS: u64 = 30;

/// The first number from `n` up to `number_max` whose name on date `d` is `name`.
pub open spec fn first_number(
    m: &Morphemes,
    cfg: Config,
    name: Seq<char>,
    salt: Seq<char>,
    d: Date,
    n: int,
) -> Option<u32>
    decreases cfg.number_max - n + 1,
{
    if n > cfg.number_max {
        None
    } else if name_spec(m, cfg, d, n as u32, salt) == name {
        Some(n as u32)
    } else {
        first_number(m, cfg, name, salt, d, n + 1)
    }
}

/// Day offset of near slot `j` (1 to 60): +1, -1, +2, -2, and so on.
pub open spec fn near_offset(j: int) -> int {
    if j % 2 == 1 {
        (j + 1) / 2
    } else {
        -(j / 2)
    }
}

/// The first match on the near dates of slots `j` to 60 that exist.
pub open spec fn near_search(
    m: &Morphemes,
    cfg: Config,
    name: Seq<char>,
    salt: Seq<char>,
    today: Date,
    j: int,
) -> Option<(Date, u32)>
    decreases 61 - j,
{
    if j > 2 * NEAR_DAYS || j < 1 {
        None
    } else {
        match shifted_date(today, near_offset(j) as i64) {
            Some(d) => match first_number(m, cfg, name, salt, d, cfg.number_min as int) {
                Some(n) => Some((d, n)),
                None => near_search(m, cfg, name, salt, today, j + 1),
            },
            None => near_search(m, cfg, name, salt, today, j + 1),
        }
    }
}

/// The first match, in ascending (year, month, day, number) order, among the valid
/// dates from (`y`, `mo`, `day`) to the end of `year_end`.
pub open spec fn scan_search(
    m: &Morphemes,
    cfg: Config,
    name: Seq<char>,
    salt: Seq<char>,
    y: int,
    mo: int,
    day: int,
) -> Option<(Date, u32)>
    decreases cfg.year_end - y + 1, 13 - mo, 32 - day,
{
    if y > cfg.year_end || mo < 1 || day < 1 {
        None
    } else if mo > 12 {
        scan_search(m, cfg, name, salt, y + 1, 1, 1)
    } else if day > month_length(y, mo) {
        scan_search(m, cfg, name, salt, y, mo + 1, 1)
    } else {
        let d = Date { year: y as i32, month: mo as u32, day: day as u32 };
        match first_number(m, cfg, name, salt, d, cfg.number_min as int) {
            Some(n) => Some((d, n)),
            None => scan_search(m, cfg, name, salt, y, mo, day + 1),
        }
    }
}

/// What decoding returns: a match on today, else on the near dates, else the first
/// match of the scan of all dates from `year_start` to `year_end`.
pub open spec fn decode_spec(
    m: &Morphemes,
    cfg: Config,
    name: Seq<char>,
    salt: Seq<char>,
    today: Date,
) -> Option<(Date, u32)> {
    match first_number(m, cfg, name, salt, today, cfg.number_min as int) {
        Some(n) => Some((today, n)),
        None => match near_search(m, cfg, name, salt, today, 1) {
            Some(x) => Some(x),
            None => scan_search(m, cfg, name, salt, cfg.year_start as int, 1, 1),
        },
    }
}

/// The genus followed by a space begins `target`.
pub open spec fn leads(g: Seq<char>, target: Seq<char>) -> bool {
    g.len() + 1 <= target.len() && target.subrange(0, (g.len() + 1) as int) == g + seq![' ']
}

/// Memo code of triple (`i`, `j`, `k`): 1, plus 1 when its genus is acceptable,
/// plus 2 when it leads `target`.
pub open spec fn memo_code(m: &Morphemes, cfg: Config, target: Seq<char>, i: int, j: int, k: int) -> u8 {
    let g = triple_genus(m, i, j, k);
    (1 + (if acceptable(g, cfg) {
        1int
    } else {
        0
    }) + (if leads(g, target) {
        2int
    } else {
        0
    })) as u8
}

/// Number of (prefix, root, safe ending) triples.
pub open spec fn memo_len(m: &Morphemes) -> int {
    (m.prefixes@.len() * m.roots@.len() * m.safe_suffixes().len()) as int
}

/// The memo is empty (nothing is kept), or each slot is unknown (0) or holds the code of
/// its triple; slot `t` stands for prefix `t / S / R`, root `t / S % R` and ending `t % S`.
pub open spec fn memo_ok(memo: Seq<u8>, m: &Morphemes, cfg: Config, target: Seq<char>) -> bool {
    let r = m.roots@.len() as int;
    let s = m.safe_suffixes().len() as int;
    memo.len() == 0 || (memo.len() == memo_len(m) && forall|t: int|
        0 <= t < memo.len() ==> #[trigger] memo[t] == 0 || memo[t] == memo_code(
            m,
            cfg,
            target,
            t / s / r,
            t / s % r,
            t % s,
        ))
}

proof fn lemma_slot(p: int, r: int, s: int, i: int, j: int, k: int)
    requires
        0 <= i < p,
        0 <= j < r,
        0 <= k < s,
    ensures
        0 <= i * r <= i * r + j <= (i * r + j) * s <= (i * r + j) * s + k < p * r * s,
        ((i * r + j) * s + k) / s / r == i,
        ((i * r + j) * s + k) / s % r == j,
        ((i * r + j) * s + k) % s == k,
{
    let t = (i * r + j) * s + k;
    lemma_fundamental_div_mod_converse(t, s, i * r + j, k);
    lemma_fundamental_div_mod_converse(i * r + j, r, i, j);
    assert(0 <= i * r + j < p * r) by (nonlinear_arith)
        requires
            0 <= i < p,
            0 <= j < r,
    ;
    assert(0 <= i * r + j <= (i * r + j) * s) by (nonlinear_arith)
        requires
            0 <= i,
            0 <= j,
            0 <= r,
            1 <= s,
    ;
    assert(0 <= i * r) by (nonlinear_arith)
        requires
            0 <= i,
            0 <= r,
    ;
    assert(0 <= t < p * r * s) by (nonlinear_arith)
        requires
            0 <= i * r + j < p * r,
            0 <= k < s,
            t == (i * r + j) * s + k,
    ;
}

/// Whether the genus of triple (`i`, `j`, `k`) is acceptable, and whether it leads
/// `target`; computed once per triple and kept in `memo`.
fn memo_lookup(
    memo: &mut Vec<u8>,
    i: usize,
    j: usize,
    k: usize,
    safe: &Vec<&'static str>,
    target: &Vec<char>,
    morphemes: &Morphemes,
    config: &Config,
) -> (r: (bool, bool))
    requires
        morphemes.wf(),
        safe@ == morphemes.safe_suffixes(),
        memo_ok(old(memo)@, morphemes, *config, target@),
        i < morphemes.prefixes@.len(),
        j < morphemes.roots@.len(),
        k < safe@.len(),
    ensures
        memo_ok(final(memo)@, morphemes, *config, target@),
        r.0 == acceptable(triple_genus(morphemes, i as int, j as int, k as int), *config),
        r.1 == leads(triple_genus(morphemes, i as int, j as int, k as int), target@),
{
    let rn = morphemes.roots.len();
    let sn = safe.len();
    let len = memo.len();
    let kept = len > 0;
    proof {
        lemma_slot(morphemes.prefixes@.len() as int, rn as int, sn as int, i as int, j as int, k as int);
    }
    let t: usize = if kept {
        (i * rn + j) * sn + k
    } else {
        0
    };
    if kept {
        let code = memo[t];
        if code != 0 {
            return ((code - 1) % 2 == 1, (code - 1) / 2 == 1);
        }
    }
    let genus = assemble_genus(&morphemes.prefixes[i], morphemes.roots[j], safe[k]);
    let passes = is_name_acceptable(genus.as_str(), config);
    let g = chars_of(genus.as_str());
    let mut lead = g.len() < target.len() && target[g.len()] == ' ';
    proof {
        if !lead && leads(g@, target@) {
            assert(target@.subrange(0, (g@.len() + 1) as int)[g@.len() as int] == (g@ + seq![
                ' ',
            ])[g@.len() as int]);
        }
    }
    let mut x: usize = 0;
    while lead && x < g.len()
        invariant
            g@ == triple_genus(morphemes, i as int, j as int, k as int),
            lead ==> g@.len() < target@.len() && target@[g@.len() as int] == ' ',
            x <= g@.len(),
            lead ==> forall|y: int| 0 <= y < x ==> target@[y] == g@[y],
            !lead ==> !leads(g@, target@),
        decreases g@.len() - x,
    {
        if target[x] != g[x] {
            proof {
                if leads(g@, target@) {
                    assert(target@.subrange(0, (g@.len() + 1) as int)[x as int] == (g@ + seq![' '])[x as int]);
                }
            }
            lead = false;
        }
        x = x + 1;
    }
    if lead {
        assert(target@.subrange(0, (g@.len() + 1) as int) =~= g@ + seq![' ']);
    }
    if kept {
        let code: u8 = 1 + if passes { 1 } else { 0 } + if lead { 2 } else { 0 };
        memo.set(t, code);
    }
    (passes, lead)
}

/// Whether the genus of permuted value `p` is acceptable, and whether it leads `target`.
fn genus_facts(
    memo: &mut Vec<u8>,
    p: u64,
    safe: &Vec<&'static str>,
    target: &Vec<char>,
    morphemes: &Morphemes,
    config: &Config,
) -> (r: (bool, bool))
    requires
        morphemes.wf(),
        safe@ == morphemes.safe_suffixes(),
        memo_ok(old(memo)@, morphemes, *config, target@),
    ensures
        memo_ok(final(memo)@, morphemes, *config, target@),
        r.0 == acceptable(candidate_genus(morphemes, p), *config),
        r.1 == leads(candidate_genus(morphemes, p), target@),
{
    proof {
        reveal(candidate_genus);
        crate::generator::lemma_safe_nonempty(morphemes);
    }
    let g = p & LOW_MASK;
    let i = (g % morphemes.prefixes.len() as u64) as usize;
    let j = ((g >> 8u64) % morphemes.roots.len() as u64) as usize;
    let k = ((g >> 16u64) % safe.len() as u64) as usize;
    memo_lookup(memo, i, j, k, safe, target, morphemes, config)
}

/// Whether the name drawn from base value `base` under key `key` is `target`.
fn base_matches(
    memo: &mut Vec<u8>,
    base: u64,
    key: u64,
    target: &String,
    target_chars: &Vec<char>,
    safe: &Vec<&'static str>,
    morphemes: &Morphemes,
    config: &Config,
) -> (r: bool)
    requires
        morphemes.wf(),
        safe@ == morphemes.safe_suffixes(),
        target_chars@ == target@,
        memo_ok(old(memo)@, morphemes, *config, target@),
    ensures
        memo_ok(final(memo)@, morphemes, *config, target@),
        r == (name_from(morphemes, *config, base, key) == target@),
{
    let ghost first = first_accepted(morphemes, *config, base, key, 0);
    let mut attempt: u64 = 0;
    while attempt < MAX_QUALITY_ATTEMPTS
        invariant
            morphemes.wf(),
            safe@ == morphemes.safe_suffixes(),
            target_chars@ == target@,
            memo_ok(memo@, morphemes, *config, target@),
            attempt <= MAX_QUALITY_ATTEMPTS,
            first == first_accepted(morphemes, *config, base, key, 0),
            first == first_accepted(morphemes, *config, base, key, attempt as nat),
        decreases MAX_QUALITY_ATTEMPTS - attempt,
    {
        let input = if attempt == 0 {
            base
        } else {
            base.wrapping_mul(RETRY_MULTIPLIER).wrapping_add(attempt)
        };
        let p = permute(input, key);
        proof {
            reveal(attempt_permuted);
            lemma_first_accepted_step(morphemes, *config, base, key, attempt as nat);
        }
        let (passes, lead) = genus_facts(memo, p, safe, target_chars, morphemes, config);
        if passes {
            return full_match(base, attempt, key, lead, target, morphemes);
        }
        attempt = attempt + 1;
    }
    proof {
        lemma_first_accepted_end(morphemes, *config, base, key);
        reveal(attempt_permuted);
    }
    let p = permute(base, key);
    let (_, lead) = genus_facts(memo, p, safe, target_chars, morphemes, config);
    full_match(base, 0, key, lead, target, morphemes)
}

/// Whether the name of attempt `attempt` is `target`, given whether its genus leads it.
fn full_match(
    base: u64,
    attempt: u64,
    key: u64,
    lead: bool,
    target: &String,
    morphemes: &Morphemes,
) -> (r: bool)
    requires
        morphemes.wf(),
        lead == leads(candidate_genus(morphemes, attempt_permuted(base, key, attempt as nat)), target@),
    ensures
        r == (candidate_name(morphemes, attempt_permuted(base, key, attempt as nat)) == target@),
{
    let ghost p = attempt_permuted(base, key, attempt as nat);
    if !lead {
        proof {
            let g = candidate_genus(morphemes, p);
            let name = candidate_name(morphemes, p);
            if name == target@ {
                assert(name.subrange(0, (g.len() + 1) as int) =~= g + seq![' ']);
            }
        }
        return false;
    }
    let (genus, species) = attempt_candidate(base, attempt, key, morphemes);
    let name = join_name(genus, species.as_str());
    name == *target
}

/// The first number in range whose name on `date` is `target`.
fn find_number(
    memo: &mut Vec<u8>,
    key: u64,
    target: &String,
    target_chars: &Vec<char>,
    safe: &Vec<&'static str>,
    salt: &str,
    date: Date,
    morphemes: &Morphemes,
    config: &Config,
) -> (r: Option<u32>)
    requires
        morphemes.wf(),
        safe@ == morphemes.safe_suffixes(),
        target_chars@ == target@,
        key == salt_key(encode_utf8(salt@)),
        memo_ok(old(memo)@, morphemes, *config, target@),
    ensures
        memo_ok(final(memo)@, morphemes, *config, target@),
        r == first_number(morphemes, *config, target@, salt@, date, config.number_min as int),
{
    if config.number_min > config.number_max {
        return None;
    }
    let mut num: u64 = config.number_min as u64;
    while num <= config.number_max as u64
        invariant
            morphemes.wf(),
            safe@ == morphemes.safe_suffixes(),
            target_chars@ == target@,
            key == salt_key(encode_utf8(salt@)),
            memo_ok(memo@, morphemes, *config, target@),
            config.number_min <= num <= config.number_max as u64 + 1,
            first_number(morphemes, *config, target@, salt@, date, config.number_min as int)
                == first_number(morphemes, *config, target@, salt@, date, num as int),
        decreases config.number_max as u64 + 1 - num,
    {
        let base = encode_date_number(date, num as u32);
        proof {
            lemma_name_of_choice(morphemes, *config, date, num as u32, salt@, base, key);
        }
        if base_matches(memo, base, key, target, target_chars, safe, morphemes, config) {
            return Some(num as u32);
        }
        num = num + 1;
    }
    None
}

/// Recovers `(date, number)` from `name` under `salt`: numbers on `today` first, then
/// on the 30 days after and before it (+1, -1, +2, -2, ...), then every valid date from
/// `year_start` to `year_end` in ascending order; `None` when nothing matches.
pub fn decode_name(
    name: &str,
    salt: &str,
    today: Date,
    morphemes: &Morphemes,
    config: &Config,
) -> (r: Option<(Date, u32)>)
    requires
        morphemes.wf(),
    ensures
        r == decode_spec(morphemes, *config, name@, salt@, today),
{
    let target = String::from_str(name);
    let target_chars = chars_of(name);
    let key = hash_salt(salt);
    let safe = get_safe_suffixes(morphemes);
    proof {
        crate::generator::lemma_safe_nonempty(morphemes);
    }
    let mut total: usize = 0;
    if let Some(pr) = morphemes.prefixes.len().checked_mul(morphemes.roots.len()) {
        if let Some(prs) = pr.checked_mul(safe.len()) {
            if prs <= MEMO_LIMIT {
                total = prs;
            }
        }
    }
    let mut memo: Vec<u8> = vec![0u8; total];
    assert(memo_ok(memo@, morphemes, *config, target@));
    if let Some(num) = find_number(
        &mut memo,
        key,
        &target,
        &target_chars,
        &safe,
        salt,
        today,
        morphemes,
        config,
    ) {
        return Some((today, num));
    }
    let mut j: u64 = 1;
    while j <= 2 * NEAR_DAYS
        invariant
            morphemes.wf(),
            target@ == name@,
            target_chars@ == name@,
            safe@ == morphemes.safe_suffixes(),
            key == salt_key(encode_utf8(salt@)),
            memo_ok(memo@, morphemes, *config, name@),
            first_number(morphemes, *config, name@, salt@, today, config.number_min as int) is None,
            1 <= j <= 2 * NEAR_DAYS + 1,
            near_search(morphemes, *config, name@, salt@, today, 1) == near_search(
                morphemes,
                *config,
                name@,
                salt@,
                today,
                j as int,
            ),
        decreases 2 * NEAR_DAYS + 1 - j,
    {
        let offset: i64 = if j % 2 == 1 {
            ((j + 1) / 2) as i64
        } else {
            -((j / 2) as i64)
        };
        if let Some(date) = shift_days(today, offset) {
            if let Some(num) = find_number(
                &mut memo,
                key,
                &target,
                &target_chars,
                &safe,
                salt,
                date,
                morphemes,
                config,
            ) {
                return Some((date, num));
            }
        }
        j = j + 1;
    }
    if config.year_start > config.year_end {
        return None;
    }
    let mut year: i64 = config.year_start as i64;
    while year <= config.year_end as i64
        invariant
            morphemes.wf(),
            target@ == name@,
            target_chars@ == name@,
            safe@ == morphemes.safe_suffixes(),
            key == salt_key(encode_utf8(salt@)),
            memo_ok(memo@, morphemes, *config, name@),
            config.year_start <= year <= config.year_end as i64 + 1,
            near_search(morphemes, *config, name@, salt@, today, 1) is None,
            first_number(morphemes, *config, name@, salt@, today, config.number_min as int) is None,
            scan_search(morphemes, *config, name@, salt@, config.year_start as int, 1, 1)
                == scan_search(morphemes, *config, name@, salt@, year as int, 1, 1),
        decreases config.year_end as i64 + 1 - year,
    {
        let mut month: u32 = 1;
        while month <= 12
            invariant
                morphemes.wf(),
                target@ == name@,
                target_chars@ == name@,
                safe@ == morphemes.safe_suffixes(),
                key == salt_key(encode_utf8(salt@)),
                memo_ok(memo@, morphemes, *config, name@),
                near_search(morphemes, *config, name@, salt@, today, 1) is None,
                first_number(morphemes, *config, name@, salt@, today, config.number_min as int)
                    is None,
                scan_search(morphemes, *config, name@, salt@, config.year_start as int, 1, 1)
                    == scan_search(morphemes, *config, name@, salt@, year as int, 1, 1),
                config.year_start <= year <= config.year_end,
                1 <= month <= 13,
                scan_search(morphemes, *config, name@, salt@, year as int, 1, 1) == scan_search(
                    morphemes,
                    *config,
                    name@,
                    salt@,
                    year as int,
                    month as int,
                    1,
                ),
            decreases 13 - month,
        {
            let days = days_in_month(year as i32, month);
            let mut day: u32 = 1;
            while day <= days
                invariant
                    morphemes.wf(),
                    target@ == name@,
                    target_chars@ == name@,
                    safe@ == morphemes.safe_suffixes(),
                    key == salt_key(encode_utf8(salt@)),
                    memo_ok(memo@, morphemes, *config, name@),
                    near_search(morphemes, *config, name@, salt@, today, 1) is None,
                    first_number(morphemes, *config, name@, salt@, today, config.number_min as int)
                        is None,
                    scan_search(morphemes, *config, name@, salt@, config.year_start as int, 1, 1)
                        == scan_search(morphemes, *config, name@, salt@, year as int, 1, 1),
                    scan_search(morphemes, *config, name@, salt@, year as int, 1, 1) == scan_search(
                        morphemes,
                        *config,
                        name@,
                        salt@,
                        year as int,
                        month as int,
                        1,
                    ),
                    config.year_start <= year <= config.year_end,
                    1 <= month <= 12,
                    days == month_length(year as int, month as int),
                    1 <= day <= days + 1,
                    scan_search(morphemes, *config, name@, salt@, year as int, month as int, 1)
                        == scan_search(
                        morphemes,
                        *config,
                        name@,
                        salt@,
                        year as int,
                        month as int,
                        day as int,
                    ),
                decreases days + 1 - day,
            {
                let date = Date { year: year as i32, month, day };
                if let Some(num) = find_number(
                &mut memo,
                key,
                &target,
                &target_chars,
                &safe,
                salt,
                date,
                morphemes,
                config,
            ) {
                    return Some((date, num));
                }
                day = day + 1;
            }
            month = month + 1;
        }
        year = year + 1;
    }
    None
}

/// Looks a name up; see `decode_name`.
pub fn decode(name: &str, salt: &str, today: Date, morphemes: &Morphemes, config: &Config) -> (r:
    Option<(Date, u32)>)
    requires
        morphemes.wf(),
    ensures
        r == decode_spec(morphemes, *config, name@, salt@, today),
{
    decode_name(name, salt, today, morphemes, config)
}

/// `d` falls on or after (`y`, `mo`, `day`) in calendar order.
pub open spec fn on_or_after(d: Date, y: int, mo: int, day: int) -> bool {
    d.year > y || (d.year == y && (d.month > mo || (d.month == mo && d.day >= day)))
}

/// The pairs that decoding tries: a number in range on today, on a near date, or on a
/// valid date from `year_start` to `year_end`.
pub open spec fn in_search_space(cfg: Config, today: Date, d: Date, n: u32) -> bool {
    &&& cfg.number_min <= n <= cfg.number_max
    &&& d == today || (exists|j: int|
        1 <= j <= 2 * NEAR_DAYS && #[trigger] shifted_date(today, near_offset(j) as i64) == Some(d))
        || (d.valid() && cfg.year_start <= d.year <= cfg.year_end)
}

proof fn lemma_first_number_sound(
    m: &Morphemes,
    cfg: Config,
    name: Seq<char>,
    salt: Seq<char>,
    d: Date,
    n0: int,
)
    requires
        0 <= n0,
    ensures
        first_number(m, cfg, name, salt, d, n0) matches Some(k) ==> n0 <= k <= cfg.number_max
            && name_spec(m, cfg, d, k, salt) == name,
    decreases cfg.number_max - n0 + 1,
{
    if n0 <= cfg.number_max {
        lemma_first_number_sound(m, cfg, name, salt, d, n0 + 1);
    }
}

proof fn lemma_first_number_complete(
    m: &Morphemes,
    cfg: Config,
    name: Seq<char>,
    salt: Seq<char>,
    d: Date,
    n0: int,
    n: u32,
)
    requires
        n0 <= n <= cfg.number_max,
        name_spec(m, cfg, d, n, salt) == name,
    ensures
        first_number(m, cfg, name, salt, d, n0) is Some,
    decreases cfg.number_max - n0 + 1,
{
    if n0 < n {
        lemma_first_number_complete(m, cfg, name, salt, d, n0 + 1, n);
    }
}

proof fn lemma_near_sound(
    m: &Morphemes,
    cfg: Config,
    name: Seq<char>,
    salt: Seq<char>,
    today: Date,
    j: int,
)
    ensures
        near_search(m, cfg, name, salt, today, j) matches Some((d, k)) ==> in_search_space(
            cfg,
            today,
            d,
            k,
        ) && name_spec(m, cfg, d, k, salt) == name,
    decreases 61 - j,
{
    if 1 <= j <= 2 * NEAR_DAYS {
        lemma_near_sound(m, cfg, name, salt, today, j + 1);
        if let Some(d) = shifted_date(today, near_offset(j) as i64) {
            lemma_first_number_sound(m, cfg, name, salt, d, cfg.number_min as int);
        }
    }
}

proof fn lemma_scan_sound(
    m: &Morphemes,
    cfg: Config,
    name: Seq<char>,
    salt: Seq<char>,
    y: int,
    mo: int,
    day: int,
)
    requires
        cfg.year_start <= y,
    ensures
        scan_search(m, cfg, name, salt, y, mo, day) matches Some((d, k)) ==> d.valid()
            && cfg.year_start <= d.year <= cfg.year_end && cfg.number_min <= k <= cfg.number_max
            && name_spec(m, cfg, d, k, salt) == name,
    decreases cfg.year_end - y + 1, 13 - mo, 32 - day,
{
    if y > cfg.year_end || mo < 1 || day < 1 {
    } else if mo > 12 {
        lemma_scan_sound(m, cfg, name, salt, y + 1, 1, 1);
    } else if day > month_length(y, mo) {
        lemma_scan_sound(m, cfg, name, salt, y, mo + 1, 1);
    } else {
        let d = Date { year: y as i32, month: mo as u32, day: day as u32 };
        lemma_first_number_sound(m, cfg, name, salt, d, cfg.number_min as int);
        lemma_scan_sound(m, cfg, name, salt, y, mo, day + 1);
    }
}

proof fn lemma_scan_complete(
    m: &Morphemes,
    cfg: Config,
    name: Seq<char>,
    salt: Seq<char>,
    y: int,
    mo: int,
    day: int,
    d: Date,
    n: u32,
)
    requires
        1 <= mo,
        1 <= day,
        d.valid(),
        d.year <= cfg.year_end,
        on_or_after(d, y, mo, day),
        cfg.number_min <= n <= cfg.number_max,
        name_spec(m, cfg, d, n, salt) == name,
    ensures
        scan_search(m, cfg, name, salt, y, mo, day) is Some,
    decreases cfg.year_end - y + 1, 13 - mo, 32 - day,
{
    if y > cfg.year_end {
    } else if mo > 12 {
        lemma_scan_complete(m, cfg, name, salt, y + 1, 1, 1, d, n);
    } else if day > month_length(y, mo) {
        lemma_scan_complete(m, cfg, name, salt, y, mo + 1, 1, d, n);
    } else {
        let e = Date { year: y as i32, month: mo as u32, day: day as u32 };
        if first_number(m, cfg, name, salt, e, cfg.number_min as int) is None {
            if d == e {
                lemma_first_number_complete(m, cfg, name, salt, d, cfg.number_min as int, n);
            }
            lemma_scan_complete(m, cfg, name, salt, y, mo, day + 1, d, n);
        }
    }
}

/// Decoding the name generated for a valid date from `year_start` to `year_end` and a
/// number from `number_min` to `number_max` always finds a pair of the search that
/// generates that same name.
pub proof fn lemma_decode_finds_match(
    m: &Morphemes,
    cfg: Config,
    d: Date,
    n: u32,
    salt: Seq<char>,
    today: Date,
)
    requires
        d.valid(),
        cfg.year_start <= d.year <= cfg.year_end,
        cfg.number_min <= n <= cfg.number_max,
    ensures
        decode_spec(m, cfg, name_spec(m, cfg, d, n, salt), salt, today) matches Some((d2, n2))
            && in_search_space(cfg, today, d2, n2) && name_spec(m, cfg, d2, n2, salt) == name_spec(
            m,
            cfg,
            d,
            n,
            salt,
        ),
{
    let name = name_spec(m, cfg, d, n, salt);
    lemma_first_number_sound(m, cfg, name, salt, today, cfg.number_min as int);
    lemma_near_sound(m, cfg, name, salt, today, 1);
    lemma_scan_sound(m, cfg, name, salt, cfg.year_start as int, 1, 1);
    lemma_scan_complete(m, cfg, name, salt, cfg.year_start as int, 1, 1, d, n);
}

/// `d` is the date of near slot `j` of the search from `today`.
pub open spec fn near_slot(today: Date, d: Date, j: int) -> bool {
    1 <= j <= 2 * NEAR_DAYS && shifted_date(today, near_offset(j) as i64) == Some(d)
}

/// `d` is among the dates of the final scan.
pub open spec fn in_scan(cfg: Config, d: Date) -> bool {
    d.valid() && cfg.year_start <= d.year <= cfg.year_end
}

/// `a` comes before `b` in calendar order.
pub open spec fn date_before(a: Date, b: Date) -> bool {
    a.year < b.year || (a.year == b.year && (a.month < b.month || (a.month == b.month && a.day
        < b.day)))
}

/// The search tries (`d2`, `n2`) before it first reaches (`d`, `n`): today's numbers
/// come first, then the near slots in order, then the scan in calendar order, and
/// numbers ascend within each date.
#[verifier::opaque]
pub open spec fn tried_before(cfg: Config, today: Date, d2: Date, n2: u32, d: Date, n: u32) -> bool {
    &&& cfg.number_min <= n2 <= cfg.number_max
    &&& {
        ||| (d2 == today && (d != today || n2 < n))
        ||| (d != today && exists|j2: int|
            near_slot(today, d2, j2) && forall|j: int|
                #[trigger] near_slot(today, d, j) ==> j2 < j || (j2 == j && n2 < n))
        ||| (d != today && (forall|j: int| !#[trigger] near_slot(today, d, j)) && in_scan(cfg, d2)
            && (date_before(d2, d) || (d2 == d && n2 < n)))
    }
}

proof fn lemma_first_number_finds(
    m: &Morphemes,
    cfg: Config,
    name: Seq<char>,
    salt: Seq<char>,
    d: Date,
    n0: int,
    n: u32,
)
    requires
        0 <= n0 <= n <= cfg.number_max,
        name_spec(m, cfg, d, n, salt) == name,
        forall|k: u32| n0 <= k < n ==> #[trigger] name_spec(m, cfg, d, k, salt) != name,
    ensures
        first_number(m, cfg, name, salt, d, n0) == Some(n),
    decreases n - n0,
{
    if n0 < n {
        assert(name_spec(m, cfg, d, n0 as u32, salt) != name);
        lemma_first_number_finds(m, cfg, name, salt, d, n0 + 1, n);
    }
}

proof fn lemma_first_number_none(
    m: &Morphemes,
    cfg: Config,
    name: Seq<char>,
    salt: Seq<char>,
    d: Date,
    n0: int,
)
    requires
        0 <= n0,
        forall|k: u32| n0 <= k <= cfg.number_max ==> #[trigger] name_spec(m, cfg, d, k, salt) != name,
    ensures
        first_number(m, cfg, name, salt, d, n0) is None,
    decreases cfg.number_max - n0 + 1,
{
    if n0 <= cfg.number_max {
        assert(name_spec(m, cfg, d, n0 as u32, salt) != name);
        lemma_first_number_none(m, cfg, name, salt, d, n0 + 1);
    }
}

proof fn lemma_near_none(
    m: &Morphemes,
    cfg: Config,
    name: Seq<char>,
    salt: Seq<char>,
    today: Date,
    j: int,
)
    requires
        forall|j2: int, d2: Date, k: u32|
            #![trigger near_slot(today, d2, j2), name_spec(m, cfg, d2, k, salt)]
            j <= j2 && near_slot(today, d2, j2) && cfg.number_min <= k <= cfg.number_max
                ==> name_spec(m, cfg, d2, k, salt) != name,
    ensures
        near_search(m, cfg, name, salt, today, j) is None,
    decreases 61 - j,
{
    if 1 <= j <= 2 * NEAR_DAYS {
        if let Some(e) = shifted_date(today, near_offset(j) as i64) {
            assert(near_slot(today, e, j));
            lemma_first_number_none(m, cfg, name, salt, e, cfg.number_min as int);
        }
        lemma_near_none(m, cfg, name, salt, today, j + 1);
    } else if j < 1 {
    }
}

proof fn lemma_near_finds(
    m: &Morphemes,
    cfg: Config,
    name: Seq<char>,
    salt: Seq<char>,
    today: Date,
    j: int,
    jm: int,
    d: Date,
    n: u32,
)
    requires
        1 <= j <= jm,
        near_slot(today, d, jm),
        forall|j3: int| j <= j3 < jm ==> !#[trigger] near_slot(today, d, j3),
        cfg.number_min <= n <= cfg.number_max,
        name_spec(m, cfg, d, n, salt) == name,
        forall|j2: int, d2: Date, k: u32|
            #![trigger near_slot(today, d2, j2), name_spec(m, cfg, d2, k, salt)]
            j <= j2 < jm && near_slot(today, d2, j2) && cfg.number_min <= k <= cfg.number_max
                ==> name_spec(m, cfg, d2, k, salt) != name,
        forall|k: u32|
            cfg.number_min <= k < n ==> #[trigger] name_spec(m, cfg, d, k, salt) != name,
    ensures
        near_search(m, cfg, name, salt, today, j) == Some((d, n)),
    decreases jm - j,
{
    if j < jm {
        if let Some(e) = shifted_date(today, near_offset(j) as i64) {
            assert(near_slot(today, e, j));
            lemma_first_number_none(m, cfg, name, salt, e, cfg.number_min as int);
        }
        lemma_near_finds(m, cfg, name, salt, today, j + 1, jm, d, n);
    } else {
        lemma_first_number_finds(m, cfg, name, salt, d, cfg.number_min as int, n);
    }
}

proof fn lemma_scan_finds(
    m: &Morphemes,
    cfg: Config,
    name: Seq<char>,
    salt: Seq<char>,
    y: int,
    mo: int,
    day: int,
    d: Date,
    n: u32,
)
    requires
        1 <= mo,
        1 <= day,
        cfg.year_start <= y,
        in_scan(cfg, d),
        on_or_after(d, y, mo, day),
        cfg.number_min <= n <= cfg.number_max,
        name_spec(m, cfg, d, n, salt) == name,
        forall|d2: Date, k: u32|
            in_scan(cfg, d2) && date_before(d2, d) && on_or_after(d2, y, mo, day) && cfg.number_min
                <= k <= cfg.number_max ==> #[trigger] name_spec(m, cfg, d2, k, salt) != name,
        forall|k: u32|
            cfg.number_min <= k < n ==> #[trigger] name_spec(m, cfg, d, k, salt) != name,
    ensures
        scan_search(m, cfg, name, salt, y, mo, day) == Some((d, n)),
    decreases cfg.year_end - y + 1, 13 - mo, 32 - day,
{
    if y > cfg.year_end {
    } else if mo > 12 {
        lemma_scan_finds(m, cfg, name, salt, y + 1, 1, 1, d, n);
    } else if day > month_length(y, mo) {
        lemma_scan_finds(m, cfg, name, salt, y, mo + 1, 1, d, n);
    } else {
        let e = Date { year: y as i32, month: mo as u32, day: day as u32 };
        if e == d {
            lemma_first_number_finds(m, cfg, name, salt, d, cfg.number_min as int, n);
        } else {
            assert(in_scan(cfg, e) && date_before(e, d) && on_or_after(e, y, mo, day));
            lemma_first_number_none(m, cfg, name, salt, e, cfg.number_min as int);
            lemma_scan_finds(m, cfg, name, salt, y, mo, day + 1, d, n);
        }
    }
}

proof fn lemma_first_slot(today: Date, d: Date, j: int, jw: int) -> (jm: int)
    requires
        1 <= j <= jw,
        near_slot(today, d, jw),
        forall|j3: int| 1 <= j3 < j ==> !#[trigger] near_slot(today, d, j3),
    ensures
        near_slot(today, d, jm),
        forall|j3: int| 1 <= j3 < jm ==> !#[trigger] near_slot(today, d, j3),
    decreases jw - j,
{
    if near_slot(today, d, j) {
        j
    } else {
        lemma_first_slot(today, d, j + 1, jw)
    }
}

/// Round trip: decoding returns exactly the pair a name was generated from, for a valid
/// date from `year_start` to `year_end` and a number from `number_min` to `number_max`,
/// whenever no pair that the search tries earlier generates the same name.
pub proof fn lemma_round_trip(
    m: &Morphemes,
    cfg: Config,
    d: Date,
    n: u32,
    salt: Seq<char>,
    today: Date,
)
    requires
        in_scan(cfg, d),
        cfg.number_min <= n <= cfg.number_max,
        forall|d2: Date, n2: u32|
            tried_before(cfg, today, d2, n2, d, n) ==> #[trigger] name_spec(m, cfg, d2, n2, salt)
                != name_spec(m, cfg, d, n, salt),
    ensures
        decode_spec(m, cfg, name_spec(m, cfg, d, n, salt), salt, today) == Some((d, n)),
{
    let name = name_spec(m, cfg, d, n, salt);
    let has_slot = exists|j: int| near_slot(today, d, j);
    let jm = if has_slot {
        let jw = choose|j: int| near_slot(today, d, j);
        lemma_first_slot(today, d, 1, jw)
    } else {
        0
    };
    assert forall|k: u32| cfg.number_min <= k < n implies #[trigger] name_spec(m, cfg, d, k, salt)
        != name by {
        lemma_same_date_before(cfg, today, d, k, n, has_slot, jm);
    }
    if d == today {
        lemma_first_number_finds(m, cfg, name, salt, today, cfg.number_min as int, n);
    } else {
        assert forall|k: u32| cfg.number_min <= k <= cfg.number_max implies #[trigger] name_spec(
            m,
            cfg,
            today,
            k,
            salt,
        ) != name by {
            reveal(tried_before);
            assert(tried_before(cfg, today, today, k, d, n));
        }
        lemma_first_number_none(m, cfg, name, salt, today, cfg.number_min as int);
        if has_slot {
            assert forall|j2: int, d2: Date, k: u32|
                #![trigger near_slot(today, d2, j2), name_spec(m, cfg, d2, k, salt)]
                1 <= j2 < jm && near_slot(today, d2, j2) && cfg.number_min <= k <= cfg.number_max
                    implies name_spec(m, cfg, d2, k, salt) != name by {
                lemma_near_before(cfg, today, d2, j2, k, d, n, jm);
            }
            lemma_near_finds(m, cfg, name, salt, today, 1, jm, d, n);
        } else {
            assert forall|j2: int, d2: Date, k: u32|
                #![trigger near_slot(today, d2, j2), name_spec(m, cfg, d2, k, salt)]
                1 <= j2 && near_slot(today, d2, j2) && cfg.number_min <= k <= cfg.number_max
                    implies name_spec(m, cfg, d2, k, salt) != name by {
                lemma_near_before_unslotted(cfg, today, d2, j2, k, d, n);
            }
            lemma_near_none(m, cfg, name, salt, today, 1);
            assert forall|d2: Date, k: u32|
                in_scan(cfg, d2) && date_before(d2, d) && on_or_after(
                    d2,
                    cfg.year_start as int,
                    1,
                    1,
                ) && cfg.number_min <= k <= cfg.number_max implies #[trigger] name_spec(
                m,
                cfg,
                d2,
                k,
                salt,
            ) != name by {
                lemma_scan_before(cfg, today, d2, k, d, n);
            }
            lemma_scan_finds(m, cfg, name, salt, cfg.year_start as int, 1, 1, d, n);
        }
    }
}

proof fn lemma_same_date_before(
    cfg: Config,
    today: Date,
    d: Date,
    k: u32,
    n: u32,
    has_slot: bool,
    jm: int,
)
    requires
        cfg.number_min <= k < n <= cfg.number_max,
        has_slot == exists|j: int| near_slot(today, d, j),
        has_slot ==> near_slot(today, d, jm),
        has_slot ==> forall|j3: int| 1 <= j3 < jm ==> !#[trigger] near_slot(today, d, j3),
        in_scan(cfg, d),
    ensures
        tried_before(cfg, today, d, k, d, n),
{
    reveal(tried_before);
    if d != today && has_slot {
        assert(forall|j: int| #[trigger] near_slot(today, d, j) ==> jm < j || (jm == j && k < n));
    }
}

proof fn lemma_near_before(
    cfg: Config,
    today: Date,
    d2: Date,
    j2: int,
    k: u32,
    d: Date,
    n: u32,
    jm: int,
)
    requires
        d != today,
        1 <= j2 < jm,
        near_slot(today, d2, j2),
        cfg.number_min <= k <= cfg.number_max,
        forall|j3: int| 1 <= j3 < jm ==> !#[trigger] near_slot(today, d, j3),
    ensures
        tried_before(cfg, today, d2, k, d, n),
{
    reveal(tried_before);
    assert(forall|j: int| #[trigger] near_slot(today, d, j) ==> j2 < j || (j2 == j && k < n));
}

proof fn lemma_near_before_unslotted(
    cfg: Config,
    today: Date,
    d2: Date,
    j2: int,
    k: u32,
    d: Date,
    n: u32,
)
    requires
        d != today,
        near_slot(today, d2, j2),
        cfg.number_min <= k <= cfg.number_max,
        !exists|j: int| near_slot(today, d, j),
    ensures
        tried_before(cfg, today, d2, k, d, n),
{
    reveal(tried_before);
    assert(forall|j: int| #[trigger] near_slot(today, d, j) ==> j2 < j || (j2 == j && k < n));
}

proof fn lemma_scan_before(cfg: Config, today: Date, d2: Date, k: u32, d: Date, n: u32)
    requires
        d != today,
        !exists|j: int| near_slot(today, d, j),
        in_scan(cfg, d2),
        date_before(d2, d),
        cfg.number_min <= k <= cfg.number_max,
    ensures
        tried_before(cfg, today, d2, k, d, n),
{
    reveal(tried_before);
}
} // verus!
