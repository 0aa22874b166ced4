//! The kinds of entries of the lexical tables.
use vstd::prelude::*;
use crate::data::prefixes::{prefix_entries, prefix_table, texts_distinct};
use crate::data::suffixes::{genus_suffix_table, species_entries, species_table, suffix_entries};
use crate::data::{root_entries, root_table};

verus! {

/// Language a prefix comes from; it decides the connecting vowel.
#[derive(Clone, Copy, Debug, PartialEq, Eq, Structural)]
pub enum Origin {
    Greek,
    Latin,
}

/// Semantic field of a prefix; species descriptors may be tied to one.
#[derive(Clone, Copy, Debug, PartialEq, Eq, Structural)]
pub enum Category {
    Size,
    Colour,
    Position,
    Time,
    Number,
    Form,
    Environment,
    Quality,
}

/// A genus prefix with its origin and category.
#[derive(Clone, Copy, Debug)]
pub struct Morpheme {
    pub text: &'static str,
    pub origin: Origin,
    pub category: Category,
}

/// A species epithet; `category: None` fits any prefix category.
#[derive(Clone, Copy, Debug)]
pub struct SpeciesDescriptor {
    pub text: &'static str,
    pub category: Option<Category>,
}

/// The four lexical tables, read-only once built.
pub struct Morphemes {
    pub prefixes: Vec<Morpheme>,
    pub roots: Vec<&'static str>,
    pub genus_suffixes: Vec<&'static str>,
    pub species_descriptors: Vec<SpeciesDescriptor>,
}

/// Endings that need a vowel-final stem: `yx`, `ix` and `ax`.
pub open spec fn needs_vowel_stem(s: Seq<char>) -> bool {
    s =~= seq!['y', 'x'] || s =~= seq!['i', 'x'] || s =~= seq!['a', 'x']
}

/// A descriptor fits a category when it has none or has that one.
pub open spec fn fits_category(d: SpeciesDescriptor, c: Category) -> bool {
    match d.category {
        None => true,
        Some(k) => k == c,
    }
}

/// Some descriptor of `s` fits category `c`.
pub open spec fn has_fitting_descriptor(s: Seq<SpeciesDescriptor>, c: Category) -> bool {
    exists|j: int| 0 <= j < s.len() && fits_category(#[trigger] s[j], c)
}

/// The endings of `s` usable without knowing the stem: all but `yx`, `ix` and `ax`.
pub open spec fn safe_suffixes_of(s: Seq<&'static str>) -> Seq<&'static str> {
    s.filter(|x: &'static str| !needs_vowel_stem(x@))
}

/// The descriptors of `s` that fit category `c`.
pub open spec fn species_pool_of(s: Seq<SpeciesDescriptor>, c: Category) -> Seq<SpeciesDescriptor> {
    s.filter(|d: SpeciesDescriptor| fits_category(d, c))
}

impl Morphemes {
    /// The endings usable without knowing the stem.
    pub open spec fn safe_suffixes(&self) -> Seq<&'static str> {
        safe_suffixes_of(self.genus_suffixes@)
    }

    /// The species descriptors that fit a prefix of category `c`.
    pub open spec fn species_pool(&self, c: Category) -> Seq<SpeciesDescriptor> {
        species_pool_of(self.species_descriptors@, c)
    }

    /// Every table that a name draws from has an entry to draw: a prefix, a root, an
    /// ending usable on any stem, and for each prefix a descriptor that fits its category.
    pub open spec fn wf(&self) -> bool {
        &&& self.prefixes@.len() > 0
        &&& self.roots@.len() > 0
        &&& exists|i: int|
            0 <= i < self.genus_suffixes@.len() && !needs_vowel_stem(
                #[trigger] self.genus_suffixes@[i]@,
            )
        &&& forall|i: int|
            0 <= i < self.prefixes@.len() ==> has_fitting_descriptor(
                self.species_descriptors@,
                (#[trigger] self.prefixes@[i]).category,
            )
    }

    /// Builds the shipped tables: the listed prefixes (with pairwise distinct texts),
    /// roots, endings and species descriptors.
    pub fn new() -> (r: Self)
        ensures
            r.wf(),
            r.prefixes@ == prefix_entries(),
            r.roots@ == root_entries(),
            r.genus_suffixes@ == suffix_entries(),
            r.species_descriptors@ == species_entries(),
            texts_distinct(r.prefixes@),
            r.safe_suffixes() == suffix_entries().take(13),
    {
        let prefixes = prefix_table();
        let roots = root_table();
        let genus_suffixes = genus_suffix_table();
        let species_descriptors = species_table();
        proof {
            reveal_strlit("us");
            assert(genus_suffixes@[0]@[0] != seq!['y', 'x'][0]);
            assert(!needs_vowel_stem(genus_suffixes@[0]@));
            assert(species_descriptors@[74].category is None);
            assert(prefixes@.len() == 150);
            assert forall|i: int| 0 <= i < prefixes@.len() implies has_fitting_descriptor(
                species_descriptors@,
                (#[trigger] prefixes@[i]).category,
            ) by {
                assert(fits_category(species_descriptors@[74], prefixes@[i].category));
            }
            lemma_shipped_safe_suffixes();
        }
        let r = Morphemes { prefixes, roots, genus_suffixes, species_descriptors };
        assert(r.roots@.len() > 0);
        assert(r.genus_suffixes@.len() == 16);
        assert(!needs_vowel_stem(r.genus_suffixes@[0]@));
        assert(exists|i: int|
            0 <= i < r.genus_suffixes@.len() && !needs_vowel_stem(#[trigger] r.genus_suffixes@[i]@));
        assert(forall|i: int|
            0 <= i < r.prefixes@.len() ==> has_fitting_descriptor(
                r.species_descriptors@,
                (#[trigger] r.prefixes@[i]).category,
            ));
        r
    }
}

/// Of the shipped endings, all but the last three (`yx`, `ix`, `ax`) are usable on any stem.
proof fn lemma_shipped_safe_suffixes()
    ensures
        safe_suffixes_of(suffix_entries()) == suffix_entries().take(13),
{
    let s = suffix_entries();
    let pred = |x: &'static str| !needs_vowel_stem(x@);
    reveal(Seq::filter);
    assert(s.take(0).filter(pred) =~= Seq::<&'static str>::empty());
    reveal_strlit("us");
    assert(s.take(1) =~= s.take(0).push(s[0]));
    s.take(0).lemma_filter_push(s[0], pred);
    reveal_strlit("os");
    assert(s.take(2) =~= s.take(1).push(s[1]));
    s.take(1).lemma_filter_push(s[1], pred);
    reveal_strlit("es");
    assert(s.take(3) =~= s.take(2).push(s[2]));
    s.take(2).lemma_filter_push(s[2], pred);
    reveal_strlit("is");
    assert(s.take(4) =~= s.take(3).push(s[3]));
    s.take(3).lemma_filter_push(s[3], pred);
    reveal_strlit("a");
    assert(s.take(5) =~= s.take(4).push(s[4]));
    s.take(4).lemma_filter_push(s[4], pred);
    reveal_strlit("e");
    assert(s.take(6) =~= s.take(5).push(s[5]));
    s.take(5).lemma_filter_push(s[5], pred);
    reveal_strlit("as");
    assert(s.take(7) =~= s.take(6).push(s[6]));
    s.take(6).lemma_filter_push(s[6], pred);
    reveal_strlit("um");
    assert(s.take(8) =~= s.take(7).push(s[7]));
    s.take(7).lemma_filter_push(s[7], pred);
    reveal_strlit("on");
    assert(s.take(9) =~= s.take(8).push(s[8]));
    s.take(8).lemma_filter_push(s[8], pred);
    reveal_strlit("ma");
    assert(s.take(10) =~= s.take(9).push(s[9]));
    s.take(9).lemma_filter_push(s[9], pred);
    reveal_strlit("er");
    assert(s.take(11) =~= s.take(10).push(s[10]));
    s.take(10).lemma_filter_push(s[10], pred);
    reveal_strlit("or");
    assert(s.take(12) =~= s.take(11).push(s[11]));
    s.take(11).lemma_filter_push(s[11], pred);
    reveal_strlit("en");
    assert(s.take(13) =~= s.take(12).push(s[12]));
    s.take(12).lemma_filter_push(s[12], pred);
    reveal_strlit("yx");
    assert(s.take(14) =~= s.take(13).push(s[13]));
    s.take(13).lemma_filter_push(s[13], pred);
    reveal_strlit("ix");
    assert(s.take(15) =~= s.take(14).push(s[14]));
    s.take(14).lemma_filter_push(s[14], pred);
    reveal_strlit("ax");
    assert(s.take(16) =~= s.take(15).push(s[15]));
    s.take(15).lemma_filter_push(s[15], pred);
    assert(s.take(16) =~= s);
    assert(s.take(13).take(13) =~= s.take(13));
    assert(s.take(13).filter(pred) =~= s.take(13));
}

impl Default for Morphemes {
    fn default() -> (r: Self)
        ensures
            r.wf(),
            r.prefixes@ == prefix_entries(),
            r.roots@ == root_entries(),
            r.genus_suffixes@ == suffix_entries(),
            r.species_descriptors@ == species_entries(),
    {
        Self::new()
    }
}

} // verus!
