use holotype::config::Config;
use holotype::data::{Category, Morpheme, Morphemes, Origin};
use holotype::date::Date;
use holotype::generator::{
    assemble_genus, decode_name, encode_date_number, generate_name, hash_salt, permute,
};
use holotype::pronounceability::pronounceability_score;

/// Decoding searches around a given day first; these cases are pinned to 15 January 2026.
fn local_today() -> Date {
    Date::new(2026, 1, 15).unwrap()
}

fn ymd(year: i32, month: u32, day: u32) -> Date {
    Date::new(year, month, day).unwrap()
}

#[test]
fn test_bijectivity() {
    let morphemes = Morphemes::new();
    let config = Config::default();
    let today = local_today();

    for day in 1..=5 {
        for num in 1..=10 {
            let date = ymd(2026, 1, day);
            let name = generate_name(date, num, "", &morphemes, &config);
            let decoded = decode_name(&name, "", today, &morphemes, &config);

            assert_eq!(
                decoded,
                Some((date, num)),
                "Failed for date={:?}, num={}, name={}",
                date,
                num,
                name
            );
        }
    }
}

#[test]
fn test_pronounceability() {
    let morphemes = Morphemes::new();
    let config = Config::default();

    for num in 1..=20 {
        let date = ymd(2026, 1, 4);
        let name = generate_name(date, num, "", &morphemes, &config);
        let score = pronounceability_score(&name);

        assert!(
            score >= config.min_pronounceability_score,
            "Name '{}' has score {} which is below threshold {}",
            name,
            score,
            config.min_pronounceability_score
        );
    }
}

#[test]
fn test_with_salt() {
    let morphemes = Morphemes::new();
    let config = Config::default();
    let date = ymd(2026, 1, 4);
    let today = local_today();

    let name1 = generate_name(date, 1, "", &morphemes, &config);
    let name2 = generate_name(date, 1, "salt", &morphemes, &config);

    assert_ne!(name1, name2, "Names with different salts should differ");

    assert_eq!(
        decode_name(&name2, "salt", today, &morphemes, &config),
        Some((date, 1))
    );
    assert_ne!(
        decode_name(&name2, "", today, &morphemes, &config),
        Some((date, 1))
    );
}

#[test]
fn test_consonant_suffix_needs_connector() {
    let prefix = Morpheme {
        text: "Ecto",
        origin: Origin::Greek,
        category: Category::Position,
    };

    let result = assemble_genus(&prefix, "aliment", "ma");
    assert_eq!(result, "Ectoalimentoma");
}

#[test]
fn test_vowel_suffix_no_connector() {
    let prefix = Morpheme {
        text: "Neo",
        origin: Origin::Greek,
        category: Category::Time,
    };

    let result = assemble_genus(&prefix, "morph", "us");
    assert_eq!(result, "Neomorphus");
}

#[test]
fn test_both_vowels_elision() {
    let prefix = Morpheme {
        text: "Hydro",
        origin: Origin::Greek,
        category: Category::Environment,
    };

    let result = assemble_genus(&prefix, "cephala", "us");
    assert_eq!(result, "Hydrocephalus");
}

#[test]
fn latin_prefix_takes_i_connector_and_hyphens_are_trimmed() {
    let prefix = Morpheme {
        text: "Magn-",
        origin: Origin::Latin,
        category: Category::Size,
    };
    assert_eq!(assemble_genus(&prefix, "-ped-", "-er"), "Magnipeder");
    assert_eq!(assemble_genus(&prefix, "corn", "ma"), "Magnicornima");
}

#[test]
fn single_vowel_stem_is_kept_before_vowel_ending() {
    let prefix = Morpheme {
        text: "",
        origin: Origin::Greek,
        category: Category::Form,
    };
    assert_eq!(assemble_genus(&prefix, "a", "us"), "Aus");
}

#[test]
fn mixed_case_input_is_lowered_then_capitalized() {
    let prefix = Morpheme {
        text: "HYDRO",
        origin: Origin::Greek,
        category: Category::Environment,
    };
    assert_eq!(assemble_genus(&prefix, "CEPHALA", "US"), "Hydrocephalus");
}

#[test]
fn encoding_packs_fields() {
    assert_eq!(encode_date_number(ymd(2026, 1, 4), 42), 26_104_042);
    assert_eq!(encode_date_number(ymd(2000, 12, 31), 99), 1_231_099);
    // Years before 2000 wrap around modulo 2^64.
    assert_eq!(
        encode_date_number(ymd(1999, 1, 1), 0),
        (-1_000_000i64 + 101_000) as u64
    );
}

#[test]
fn salt_hash_folds_bytes() {
    assert_eq!(hash_salt(""), 0x123456789abcdef0);
    assert_eq!(
        hash_salt("a"),
        0x123456789abcdef0u64.wrapping_mul(31).wrapping_add(97)
    );
    assert_ne!(hash_salt("salt1"), hash_salt("salt2"));
}

#[test]
fn permutation_mixes_and_depends_on_key() {
    let x = 26_104_042u64;
    assert_ne!(permute(x, 1), x);
    assert_ne!(permute(x, 1), permute(x, 2));
    assert_ne!(permute(x, 7), permute(x + 1, 7));
}

#[test]
fn generation_is_deterministic() {
    let morphemes = Morphemes::new();
    let config = Config::default();
    let date = ymd(2031, 7, 9);
    let a = generate_name(date, 17, "x", &morphemes, &config);
    let b = generate_name(date, 17, "x", &morphemes, &config);
    assert_eq!(a, b);
    let mut words = a.split(' ');
    let genus = words.next().unwrap();
    let species = words.next().unwrap();
    assert!(words.next().is_none());
    assert!(genus.chars().next().unwrap().is_uppercase());
    assert_eq!(species, species.to_lowercase());
}

#[test]
fn name_from_today_is_found_first() {
    let morphemes = Morphemes::new();
    let config = Config::default();
    let today = ymd(2040, 5, 20);
    let name = generate_name(today, 7, "k", &morphemes, &config);
    assert_eq!(
        decode_name(&name, "k", today, &morphemes, &config),
        Some((today, 7))
    );
    let near = ymd(2040, 5, 23);
    let name = generate_name(near, 3, "k", &morphemes, &config);
    assert_eq!(
        decode_name(&name, "k", today, &morphemes, &config),
        Some((near, 3))
    );
}

#[test]
fn unknown_name_is_not_found() {
    let morphemes = Morphemes::new();
    let mut config = Config::default();
    config.year_start = 2030;
    config.year_end = 2031;
    config.number_max = 3;
    let today = ymd(2030, 6, 1);
    assert_eq!(
        decode_name("Nonexistent name", "", today, &morphemes, &config),
        None
    );
}

#[test]
fn near_dates_beyond_the_year_range_are_found() {
    let morphemes = Morphemes::new();
    let config = Config::default();
    let today = ymd(2100, 1, 2);
    for near in [ymd(2100, 1, 19), ymd(2099, 12, 20), ymd(2100, 2, 1)] {
        let name = generate_name(near, 5, "", &morphemes, &config);
        assert_eq!(
            decode_name(&name, "", today, &morphemes, &config),
            Some((near, 5))
        );
    }
}

#[test]
fn joining_keeps_case_until_assembly() {
    let prefix = Morpheme {
        text: "Hydro",
        origin: Origin::Greek,
        category: Category::Environment,
    };
    assert_eq!(
        holotype::generator::join_morphemes(&prefix, "CEPHALA", "us"),
        "HydroCEPHALus"
    );
}
