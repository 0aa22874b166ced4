use holotype::phonotactics::{check_genus_quality, is_phonotactically_valid, is_suffix_compatible};

#[test]
fn test_valid_endings() {
    assert!(is_phonotactically_valid("Hydrocephalus"));
    assert!(is_phonotactically_valid("Neuromyster"));
    assert!(is_phonotactically_valid("Chronoptera"));
    assert!(is_phonotactically_valid("Morphogen"));
}

#[test]
fn test_invalid_endings() {
    assert!(!is_phonotactically_valid("Ectoalimentnx"));
    assert!(!is_phonotactically_valid("Angustirenps"));
    assert!(!is_phonotactically_valid("Heptalymphnx"));
    assert!(!is_phonotactically_valid("Gastrokt"));
}

#[test]
fn test_x_suffix_rules() {
    assert!(is_phonotactically_valid("Neohelix"));
    assert!(is_phonotactically_valid("Archaeoryx"));
    assert!(!is_phonotactically_valid("Morphonx"));
    assert!(!is_phonotactically_valid("Chronokx"));
}

#[test]
fn test_yx_needs_vowel() {
    assert!(is_suffix_compatible("soma", "yx"));
    assert!(is_suffix_compatible("tela", "yx"));
    assert!(!is_suffix_compatible("ren", "yx"));
    assert!(!is_suffix_compatible("aliment", "yx"));
}

#[test]
fn test_normal_suffixes() {
    assert!(is_suffix_compatible("ren", "us"));
    assert!(is_suffix_compatible("aliment", "ma"));
    assert!(is_suffix_compatible("cephal", "us"));
}

#[test]
fn short_words_are_valid() {
    assert!(is_phonotactically_valid(""));
    assert!(is_phonotactically_valid("x"));
}

#[test]
fn uppercase_endings_are_lowered_first() {
    assert!(!is_phonotactically_valid("GASTROKT"));
    assert!(is_phonotactically_valid("HYDRA"));
    assert!(!is_suffix_compatible("REN", "YX"));
    assert!(is_suffix_compatible("SOMA", "Yx"));
}

#[test]
fn ending_without_good_shape_is_invalid() {
    assert!(!is_phonotactically_valid("Gastrof"));
}

#[test]
fn genus_quality_checks_interior_clusters() {
    assert!(check_genus_quality("Hydrocephalus"));
    assert!(!check_genus_quality("Lymphnus"));
    assert!(!check_genus_quality("Gastrokt"));
    assert!(!check_genus_quality("Tschorus"));
}

#[test]
fn lowercase_forms_are_judged_directly() {
    assert!(holotype::phonotactics::ending_valid_lowercase("hydrocephalus"));
    assert!(!holotype::phonotactics::ending_valid_lowercase("gastrokt"));
    assert!(holotype::phonotactics::suffix_fits_lowercase("soma", "yx"));
    assert!(!holotype::phonotactics::suffix_fits_lowercase("ren", "ax"));
    assert!(holotype::phonotactics::has_bad_cluster_lowercase("lymphnus"));
    assert!(!holotype::phonotactics::has_bad_cluster_lowercase("hydrocephalus"));
}
