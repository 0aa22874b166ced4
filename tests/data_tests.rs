use holotype::data::prefixes::{check_uniqueness, prefix_table};
use holotype::data::Morphemes;
use std::collections::HashSet;

#[test]
fn test_no_duplicates() {
    let morphemes = Morphemes::new();
    let mut seen = HashSet::new();
    for morpheme in &morphemes.prefixes {
        assert!(
            seen.insert(morpheme.text),
            "Duplicate prefix: {}",
            morpheme.text
        );
    }
}

#[test]
fn uniqueness_check_accepts_the_prefix_table() {
    assert!(check_uniqueness(&prefix_table()));
}

#[test]
fn uniqueness_check_rejects_a_repeated_prefix() {
    let mut table = prefix_table();
    let first = table[0];
    table.push(first);
    assert!(!check_uniqueness(&table));
}

#[test]
fn tables_are_populated() {
    let morphemes = Morphemes::new();
    assert_eq!(morphemes.prefixes.len(), 150);
    assert_eq!(morphemes.genus_suffixes.len(), 16);
    assert_eq!(morphemes.species_descriptors.len(), 141);
    assert!(!morphemes.roots.is_empty());
}
