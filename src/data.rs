//! The lexical tables used to build names.
pub mod morphemes;
pub mod prefixes;
pub mod suffixes;

use vstd::prelude::*;
pub use crate::data::morphemes::{Category, Morpheme, Morphemes, Origin, SpeciesDescriptor};

verus! {

/// The root words, in table order.
pub open spec fn root_entries() -> Seq<&'static str> {
    seq![
        "cephal", "cephala", "morph", "soma", "tela",
        "ren", "aliment", "pter", "gnath", "pod",
    ]
        + seq![
        "derm", "phag", "saur", "cyst", "blast",
        "phyt", "zo", "dont", "chel", "branch",
    ]
        + seq![
        "carp", "phyll", "rhiz", "spor", "thec",
        "cyt", "nem", "plast", "mer", "stom",
    ]
        + seq![
        "cerc", "cten", "lith", "oste", "chondr",
        "myc", "phor", "onych", "trich", "ur",
    ]
        + seq![
        "rhin", "ot", "glott", "lob", "plac",
        "pyg", "tars", "dactyl", "mel", "nephr",
    ]
        + seq![
        "pneum", "gastr", "hepat", "cardi", "neur",
        "myster", "spong", "conch", "helic", "limac",
    ]
        + seq![
        "ped", "man", "corn", "caud", "al",
        "penn", "squam", "dent", "ocul", "nas",
    ]
        + seq![
        "labr", "lingu", "capit", "corp", "ventr",
        "dors", "cost", "tibi", "crur", "ungu",
    ]
        + seq![
        "fil", "flor", "foli", "radic", "sem",
        "cortic", "lign", "bacc", "fruct", "ram",
    ]
        + seq![
        "nod", "tuber", "bulb", "caul", "stel",
        "aster", "crin", "echin", "arachn", "acar",
    ]
        + seq![
        "ichthy", "herpet", "ornith", "mamm", "ther",
        "odon", "lept", "tom", "scel", "ophi",
    ]
        + seq![
        "pithec", "cerat", "lamp", "chrom", "gon",
        "cyn", "lyc", "hipp", "bov", "capr",
    ]
        + seq![
        "pleur",
    ]
}

/// The root words placed between prefix and ending.
pub fn root_table() -> (r: Vec<&'static str>)
    ensures
        r@ == root_entries(),
{
    let mut r: Vec<&'static str> = Vec::new();
    r.append(
        &mut vec![
            "cephal", "cephala", "morph", "soma", "tela",
            "ren", "aliment", "pter", "gnath", "pod",
        ],
    );
    r.append(
        &mut vec![
            "derm", "phag", "saur", "cyst", "blast",
            "phyt", "zo", "dont", "chel", "branch",
        ],
    );
    r.append(
        &mut vec![
            "carp", "phyll", "rhiz", "spor", "thec",
            "cyt", "nem", "plast", "mer", "stom",
        ],
    );
    r.append(
        &mut vec![
            "cerc", "cten", "lith", "oste", "chondr",
            "myc", "phor", "onych", "trich", "ur",
        ],
    );
    r.append(
        &mut vec![
            "rhin", "ot", "glott", "lob", "plac",
            "pyg", "tars", "dactyl", "mel", "nephr",
        ],
    );
    r.append(
        &mut vec![
            "pneum", "gastr", "hepat", "cardi", "neur",
            "myster", "spong", "conch", "helic", "limac",
        ],
    );
    r.append(&mut vec!["ped", "man", "corn", "caud", "al", "penn", "squam", "dent", "ocul", "nas"]);
    r.append(
        &mut vec![
            "labr", "lingu", "capit", "corp", "ventr",
            "dors", "cost", "tibi", "crur", "ungu",
        ],
    );
    r.append(
        &mut vec![
            "fil", "flor", "foli", "radic", "sem",
            "cortic", "lign", "bacc", "fruct", "ram",
        ],
    );
    r.append(
        &mut vec![
            "nod", "tuber", "bulb", "caul", "stel",
            "aster", "crin", "echin", "arachn", "acar",
        ],
    );
    r.append(
        &mut vec![
            "ichthy", "herpet", "ornith", "mamm", "ther",
            "odon", "lept", "tom", "scel", "ophi",
        ],
    );
    r.append(
        &mut vec![
            "pithec", "cerat", "lamp", "chrom", "gon",
            "cyn", "lyc", "hipp", "bov", "capr",
        ],
    );
    r.append(&mut vec!["pleur"]);
    assert(r@ =~= root_entries());
    r
}

} // verus!
