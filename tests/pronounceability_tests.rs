use holotype::pronounceability::pronounceability_score;

#[test]
fn test_easy_names() {
    assert!(pronounceability_score("Homo sapiens") > 7000);
    assert!(pronounceability_score("Canis lupus") > 7000);
    assert!(pronounceability_score("Felis catus") > 7000);
}

#[test]
fn test_difficult_names() {
    let bad_score = pronounceability_score("Strptxthclm");
    let good_score = pronounceability_score("Homo sapiens");
    assert!(
        bad_score < good_score,
        "Bad name '{}' should score lower than good name, got {} vs {}",
        "Strptxthclm",
        bad_score,
        good_score
    );

    assert!(pronounceability_score("Aaaaaeeeeeiiii") < 9000);
}

#[test]
fn test_consonant_clusters() {
    let score = pronounceability_score("Streptoschlerox");
    assert!(score < 9000, "Expected score < 0.9, got {}", score);
    assert!(pronounceability_score("Pterodactyl") > 5000);
}

#[test]
fn empty_word_scores_zero() {
    assert_eq!(pronounceability_score(""), 0);
}

#[test]
fn word_without_penalty_scores_full() {
    assert_eq!(pronounceability_score("Homo"), 10000);
}

#[test]
fn exact_scores() {
    // "strptxthclm": run of 11 consonants (1.0), 10 same-class beyond the first (1.0),
    // short (0), holds "xth" (0.3): total 2.3 of 4.
    assert_eq!(pronounceability_score("Strptxthclm"), 4250);
    // "aaaaaeeeeeiiii": 13 vowels after the first (1.0): total 1.0 of 4.
    assert_eq!(pronounceability_score("Aaaaaeeeeeiiii"), 7500);
    // "homo sapiens": the space is skipped, "ns" then is two same-class (0.15).
    assert_eq!(pronounceability_score("Homo sapiens"), 9625);
    // 17 characters: length penalty 0.2, alternation "mm" 0.15.
    assert_eq!(pronounceability_score("Lalalalalalalamma"), 9125);
}

#[test]
fn lowercase_score_matches_full_score() {
    assert_eq!(holotype::pronounceability::score_lowercase("strptxthclm"), 4250);
    assert_eq!(holotype::pronounceability::score_lowercase("homo sapiens"), pronounceability_score("Homo sapiens"));
}
