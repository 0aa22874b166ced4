//! Prefix table: each prefix with its origin and its category.
use vstd::prelude::*;
use crate::data::morphemes::{Category, Morpheme, Origin};
use crate::text::text_eq;

verus! {

/// The genus prefixes, in table order.
pub open spec fn prefix_entries() -> Seq<Morpheme> {
    seq![
        Morpheme { text: "Macro", origin: Origin::Greek, category: Category::Size },
        Morpheme { text: "Micro", origin: Origin::Greek, category: Category::Size },
        Morpheme { text: "Mega", origin: Origin::Greek, category: Category::Size },
        Morpheme { text: "Mini", origin: Origin::Latin, category: Category::Size },
        Morpheme { text: "Magni", origin: Origin::Latin, category: Category::Size },
        Morpheme { text: "Parvi", origin: Origin::Latin, category: Category::Size },
        Morpheme { text: "Maxi", origin: Origin::Latin, category: Category::Size },
        Morpheme { text: "Grandi", origin: Origin::Latin, category: Category::Size },
        Morpheme { text: "Brachy", origin: Origin::Greek, category: Category::Size },
        Morpheme { text: "Lepto", origin: Origin::Greek, category: Category::Size },
        Morpheme { text: "Longi", origin: Origin::Latin, category: Category::Size },
        Morpheme { text: "Brevi", origin: Origin::Latin, category: Category::Size },
        Morpheme { text: "Lati", origin: Origin::Latin, category: Category::Size },
        Morpheme { text: "Angusti", origin: Origin::Latin, category: Category::Size },
        Morpheme { text: "Alti", origin: Origin::Latin, category: Category::Size },
        Morpheme { text: "Bathy", origin: Origin::Greek, category: Category::Size },
        Morpheme { text: "Leuco", origin: Origin::Greek, category: Category::Colour },
        Morpheme { text: "Melano", origin: Origin::Greek, category: Category::Colour },
        Morpheme { text: "Xantho", origin: Origin::Greek, category: Category::Colour },
        Morpheme { text: "Chloro", origin: Origin::Greek, category: Category::Colour },
        Morpheme { text: "Rhodo", origin: Origin::Greek, category: Category::Colour },
        Morpheme { text: "Cyano", origin: Origin::Greek, category: Category::Colour },
        Morpheme { text: "Porphyro", origin: Origin::Greek, category: Category::Colour },
        Morpheme { text: "Albo", origin: Origin::Latin, category: Category::Colour },
        Morpheme { text: "Nigri", origin: Origin::Latin, category: Category::Colour },
        Morpheme { text: "Rubi", origin: Origin::Latin, category: Category::Colour },
        Morpheme { text: "Flavi", origin: Origin::Latin, category: Category::Colour },
        Morpheme { text: "Fulvi", origin: Origin::Latin, category: Category::Colour },
        Morpheme { text: "Griseo", origin: Origin::Latin, category: Category::Colour },
        Morpheme { text: "Roseo", origin: Origin::Latin, category: Category::Colour },
        Morpheme { text: "Luteo", origin: Origin::Latin, category: Category::Colour },
        Morpheme { text: "Argenti", origin: Origin::Latin, category: Category::Colour },
        Morpheme { text: "Auri", origin: Origin::Latin, category: Category::Colour },
        Morpheme { text: "Ferru", origin: Origin::Latin, category: Category::Colour },
        Morpheme { text: "Hydro", origin: Origin::Greek, category: Category::Environment },
        Morpheme { text: "Pyro", origin: Origin::Greek, category: Category::Environment },
        Morpheme { text: "Cryo", origin: Origin::Greek, category: Category::Environment },
        Morpheme { text: "Geo", origin: Origin::Greek, category: Category::Environment },
        Morpheme { text: "Aero", origin: Origin::Greek, category: Category::Environment },
        Morpheme { text: "Litho", origin: Origin::Greek, category: Category::Environment },
        Morpheme { text: "Thermo", origin: Origin::Greek, category: Category::Environment },
        Morpheme { text: "Photo", origin: Origin::Greek, category: Category::Environment },
        Morpheme { text: "Hygro", origin: Origin::Greek, category: Category::Environment },
        Morpheme { text: "Xero", origin: Origin::Greek, category: Category::Environment },
        Morpheme { text: "Halo", origin: Origin::Greek, category: Category::Environment },
        Morpheme { text: "Psammo", origin: Origin::Greek, category: Category::Environment },
        Morpheme { text: "Aqu", origin: Origin::Latin, category: Category::Environment },
        Morpheme { text: "Mari", origin: Origin::Latin, category: Category::Environment },
        Morpheme { text: "Monti", origin: Origin::Latin, category: Category::Environment },
        Morpheme { text: "Silvi", origin: Origin::Latin, category: Category::Environment },
        Morpheme { text: "Glaci", origin: Origin::Latin, category: Category::Environment },
        Morpheme { text: "Petri", origin: Origin::Latin, category: Category::Environment },
        Morpheme { text: "Litori", origin: Origin::Latin, category: Category::Environment },
        Morpheme { text: "Nivi", origin: Origin::Latin, category: Category::Environment },
        Morpheme { text: "Neo", origin: Origin::Greek, category: Category::Time },
        Morpheme { text: "Paleo", origin: Origin::Greek, category: Category::Time },
        Morpheme { text: "Archaeo", origin: Origin::Greek, category: Category::Time },
        Morpheme { text: "Chrono", origin: Origin::Greek, category: Category::Time },
        Morpheme { text: "Proto", origin: Origin::Greek, category: Category::Time },
        Morpheme { text: "Eo", origin: Origin::Greek, category: Category::Time },
        Morpheme { text: "Meso", origin: Origin::Greek, category: Category::Time },
        Morpheme { text: "Ceno", origin: Origin::Greek, category: Category::Time },
        Morpheme { text: "Novi", origin: Origin::Latin, category: Category::Time },
        Morpheme { text: "Anti", origin: Origin::Latin, category: Category::Time },
        Morpheme { text: "Primi", origin: Origin::Latin, category: Category::Time },
        Morpheme { text: "Endo", origin: Origin::Greek, category: Category::Position },
        Morpheme { text: "Ecto", origin: Origin::Greek, category: Category::Position },
        Morpheme { text: "Epi", origin: Origin::Greek, category: Category::Position },
        Morpheme { text: "Hypo", origin: Origin::Greek, category: Category::Position },
        Morpheme { text: "Hyper", origin: Origin::Greek, category: Category::Position },
        Morpheme { text: "Peri", origin: Origin::Greek, category: Category::Position },
        Morpheme { text: "Para", origin: Origin::Greek, category: Category::Position },
        Morpheme { text: "Meta", origin: Origin::Greek, category: Category::Position },
        Morpheme { text: "Ana", origin: Origin::Greek, category: Category::Position },
        Morpheme { text: "Cata", origin: Origin::Greek, category: Category::Position },
        Morpheme { text: "Amphi", origin: Origin::Greek, category: Category::Position },
        Morpheme { text: "Super", origin: Origin::Latin, category: Category::Position },
        Morpheme { text: "Sub", origin: Origin::Latin, category: Category::Position },
        Morpheme { text: "Trans", origin: Origin::Latin, category: Category::Position },
        Morpheme { text: "Inter", origin: Origin::Latin, category: Category::Position },
        Morpheme { text: "Infra", origin: Origin::Latin, category: Category::Position },
        Morpheme { text: "Ultra", origin: Origin::Latin, category: Category::Position },
        Morpheme { text: "Circum", origin: Origin::Latin, category: Category::Position },
        Morpheme { text: "Mono", origin: Origin::Greek, category: Category::Number },
        Morpheme { text: "Di", origin: Origin::Greek, category: Category::Number },
        Morpheme { text: "Tri", origin: Origin::Greek, category: Category::Number },
        Morpheme { text: "Tetra", origin: Origin::Greek, category: Category::Number },
        Morpheme { text: "Penta", origin: Origin::Greek, category: Category::Number },
        Morpheme { text: "Hexa", origin: Origin::Greek, category: Category::Number },
        Morpheme { text: "Hepta", origin: Origin::Greek, category: Category::Number },
        Morpheme { text: "Octo", origin: Origin::Greek, category: Category::Number },
        Morpheme { text: "Ennea", origin: Origin::Greek, category: Category::Number },
        Morpheme { text: "Deca", origin: Origin::Greek, category: Category::Number },
        Morpheme { text: "Poly", origin: Origin::Greek, category: Category::Number },
        Morpheme { text: "Oligo", origin: Origin::Greek, category: Category::Number },
        Morpheme { text: "Diplo", origin: Origin::Greek, category: Category::Number },
        Morpheme { text: "Uni", origin: Origin::Latin, category: Category::Number },
        Morpheme { text: "Bi", origin: Origin::Latin, category: Category::Number },
        Morpheme { text: "Quadri", origin: Origin::Latin, category: Category::Number },
        Morpheme { text: "Multi", origin: Origin::Latin, category: Category::Number },
        Morpheme { text: "Pluri", origin: Origin::Latin, category: Category::Number },
        Morpheme { text: "Semi", origin: Origin::Latin, category: Category::Number },
        Morpheme { text: "Pauci", origin: Origin::Latin, category: Category::Number },
        Morpheme { text: "Morpho", origin: Origin::Greek, category: Category::Form },
        Morpheme { text: "Platy", origin: Origin::Greek, category: Category::Form },
        Morpheme { text: "Strepto", origin: Origin::Greek, category: Category::Form },
        Morpheme { text: "Cyclo", origin: Origin::Greek, category: Category::Form },
        Morpheme { text: "Spheno", origin: Origin::Greek, category: Category::Form },
        Morpheme { text: "Sphaero", origin: Origin::Greek, category: Category::Form },
        Morpheme { text: "Sclero", origin: Origin::Greek, category: Category::Form },
        Morpheme { text: "Trachy", origin: Origin::Greek, category: Category::Form },
        Morpheme { text: "Lopho", origin: Origin::Greek, category: Category::Form },
        Morpheme { text: "Ortho", origin: Origin::Greek, category: Category::Form },
        Morpheme { text: "Schizo", origin: Origin::Greek, category: Category::Form },
        Morpheme { text: "Holo", origin: Origin::Greek, category: Category::Form },
        Morpheme { text: "Stereo", origin: Origin::Greek, category: Category::Form },
        Morpheme { text: "Stylo", origin: Origin::Greek, category: Category::Form },
        Morpheme { text: "Plani", origin: Origin::Latin, category: Category::Form },
        Morpheme { text: "Curvi", origin: Origin::Latin, category: Category::Form },
        Morpheme { text: "Recti", origin: Origin::Latin, category: Category::Form },
        Morpheme { text: "Spiri", origin: Origin::Latin, category: Category::Form },
        Morpheme { text: "Globi", origin: Origin::Latin, category: Category::Form },
        Morpheme { text: "Squami", origin: Origin::Latin, category: Category::Form },
        Morpheme { text: "Stelli", origin: Origin::Latin, category: Category::Form },
        Morpheme { text: "Rhombi", origin: Origin::Latin, category: Category::Form },
        Morpheme { text: "Crypto", origin: Origin::Greek, category: Category::Quality },
        Morpheme { text: "Pseudo", origin: Origin::Greek, category: Category::Quality },
        Morpheme { text: "Eu", origin: Origin::Greek, category: Category::Quality },
        Morpheme { text: "Hetero", origin: Origin::Greek, category: Category::Quality },
        Morpheme { text: "Homo", origin: Origin::Greek, category: Category::Quality },
        Morpheme { text: "Iso", origin: Origin::Greek, category: Category::Quality },
        Morpheme { text: "Aniso", origin: Origin::Greek, category: Category::Quality },
        Morpheme { text: "Allo", origin: Origin::Greek, category: Category::Quality },
        Morpheme { text: "Auto", origin: Origin::Greek, category: Category::Quality },
        Morpheme { text: "Syn", origin: Origin::Greek, category: Category::Quality },
        Morpheme { text: "Apo", origin: Origin::Greek, category: Category::Quality },
        Morpheme { text: "Gymno", origin: Origin::Greek, category: Category::Quality },
        Morpheme { text: "Hapto", origin: Origin::Greek, category: Category::Quality },
        Morpheme { text: "Acantho", origin: Origin::Greek, category: Category::Quality },
        Morpheme { text: "Actino", origin: Origin::Greek, category: Category::Quality },
        Morpheme { text: "Tachy", origin: Origin::Greek, category: Category::Quality },
        Morpheme { text: "Brady", origin: Origin::Greek, category: Category::Quality },
        Morpheme { text: "Steno", origin: Origin::Greek, category: Category::Quality },
        Morpheme { text: "Eury", origin: Origin::Greek, category: Category::Quality },
        Morpheme { text: "Simpli", origin: Origin::Latin, category: Category::Quality },
        Morpheme { text: "Vari", origin: Origin::Latin, category: Category::Quality },
        Morpheme { text: "Vermi", origin: Origin::Latin, category: Category::Quality },
        Morpheme { text: "Serri", origin: Origin::Latin, category: Category::Quality },
        Morpheme { text: "Spini", origin: Origin::Latin, category: Category::Quality },
        Morpheme { text: "Totu", origin: Origin::Latin, category: Category::Quality },
    ]
}

/// The texts of `s` are pairwise distinct.
pub open spec fn texts_distinct(s: Seq<Morpheme>) -> bool {
    forall|i: int, j: int| 0 <= i < j < s.len() ==> s[i].text@ != s[j].text@
}

/// Character `i` of `s` as an integer, 0 past the end.
pub open spec fn char_code(s: Seq<char>, i: int) -> int {
    if 0 <= i < s.len() {
        s[i] as int
    } else {
        0
    }
}

/// The length and the first four characters of `s`, packed into one integer.
pub open spec fn text_key(s: Seq<char>) -> int {
    (((s.len() * 0x200000 + char_code(s, 0)) * 0x200000 + char_code(s, 1)) * 0x200000 + char_code(
        s,
        2,
    )) * 0x200000 + char_code(s, 3)
}

/// The table position of the prefix with key `k`; -1 for no prefix.
pub open spec fn prefix_position(k: int) -> int {
    if k == 96714775769243782513426546 {
        0
    } else     if k == 96714775769278966885515378 {
        1
    } else     if k == 77371962655427307912560737 {
        2
    } else     if k == 77371962655444900113285225 {
        3
    } else     if k == 96714775769243782521815150 {
        4
    } else     if k == 96714803439359893109211254 {
        5
    } else     if k == 77371962655409715762167913 {
        6
    } else     if k == 116057533542920394966564974 {
        7
    } else     if k == 116057487426060210692685923 {
        8
    } else     if k == 96714766545889337871958132 {
        9
    } else     if k == 96714766545933318332874855 {
        10
    } else     if k == 96714674312226143905775734 {
        11
    } else     if k == 77371953432037678899003497 {
        12
    } else     if k == 135400291316504648459747445 {
        13
    } else     if k == 77371851974993652008091753 {
        14
    } else     if k == 96714674312151377146544232 {
        15
    } else     if k == 96714766545889337882443875 {
        16
    } else     if k == 116057588883095441513644129 {
        17
    } else     if k == 116057690340170254734327924 {
        18
    } else     if k == 116057496649388267105419375 {
        19
    } else     if k == 96714821886134753138049124 {
        20
    } else     if k == 96714683535628967077740654 {
        21
    } else     if k == 154743242780923666146263152 {
        22
    } else     if k == 77371851974993651970343023 {
        23
    } else     if k == 96714784992651003748679794 {
        24
    } else     if k == 77372008772357860920131689 {
        25
    } else     if k == 96714711205687903037423734 {
        26
    } else     if k == 96714711205727485479092342 {
        27
    } else     if k == 116057533542920394983342195 {
        28
    } else     if k == 96714821886165539472015461 {
        29
    } else     if k == 96714766545959706624524389 {
        30
    } else     if k == 135400291316522240645791845 {
        31
    } else     if k == 77371851975033234422497385 {
        32
    } else     if k == 96714711205657116747497586 {
        33
    } else     if k == 96714729652489151357911154 {
        34
    } else     if k == 77371990325631379430178927 {
        35
    } else     if k == 77371870421764114007195759 {
        36
    } else     if k == 58029094201361020005384192 {
        37
    } else     if k == 77371851974962865678319727 {
        38
    } else     if k == 96714766545906930066391144 {
        39
    } else     if k == 116057653446712893621928050 {
        40
    } else     if k == 96714803439390679428497524 {
        41
    } else     if k == 96714729652489151364202610 {
        42
    } else     if k == 77372064112519713338163311 {
        43
    } else     if k == 77371916538549531463123055 {
        44
    } else     if k == 116057616553273124706058349 {
        45
    } else     if k == 58029038861181575447445504 {
        46
    } else     if k == 77371962655409715749585001 {
        47
    } else     if k == 96714775769305355187650676 {
        48
    } else     if k == 96714831109511188033044598 {
        49
    } else     if k == 96714720429059939892199523 {
        50
    } else     if k == 96714803439377485299449970 {
        51
    } else     if k == 116057579659740996861689967 {
        52
    } else     if k == 77371971878816936984838249 {
        53
    } else     if k == 58029158764965277988814848 {
        54
    } else     if k == 96714803439359893096628325 {
        55
    } else     if k == 135400291316522240637403240 {
        56
    } else     if k == 116057496649388267118002287 {
        57
    } else     if k == 96714803439434659893608564 {
        58
    } else     if k == 38686262640826859732860928 {
        59
    } else     if k == 77371962655427307937726575 {
        60
    } else     if k == 77371870421706939379482735 {
        61
    } else     if k == 77371971878843325263904873 {
        62
    } else     if k == 77371851975002448101113961 {
        63
    } else     if k == 96714803439434659881025645 {
        64
    } else     if k == 77371888868490595486662767 {
        65
    } else     if k == 77371888868442217008595055 {
        66
    } else     if k == 58029075754665324794871808 {
        67
    } else     if k == 77371916538655084587778159 {
        68
    } else     if k == 96714729652489151383076965 {
        69
    } else     if k == 77371990325543418499956841 {
        70
    } else     if k == 77371990325525826313912417 {
        71
    } else     if k == 77371962655427307939823713 {
        72
    } else     if k == 58029038861168381265969152 {
        73
    } else     if k == 77371870421689347206021217 {
        74
    } else     if k == 96714665088832116841513064 {
        75
    } else     if k == 96714831109563964599566437 {
        76
    } else     if k == 58029204881895830979608576 {
        77
    } else     if k == 96714840332922807283351662 {
        78
    } else     if k == 96714738875812809734619237 {
        79
    } else     if k == 96714738875812809705259122 {
        80
    } else     if k == 96714849556268455898906738 {
        81
    } else     if k == 116057496649392665164513379 {
        82
    } else     if k == 77371962655471288392351855 {
        83
    } else     if k == 38686253417428434599018496 {
        84
    } else     if k == 58029214105254673709531136 {
        85
    } else     if k == 96714840332865632718553202 {
        86
    } else     if k == 96714803439377485286867060 {
        87
    } else     if k == 77371916538567123674333281 {
        88
    } else     if k == 96714729652401190452854900 {
        89
    } else     if k == 77371981102162585556353135 {
        90
    } else     if k == 96714701982324662302933093 {
        91
    } else     if k == 77371879645078976211189857 {
        92
    } else     if k == 77371990325587398952484985 {
        93
    } else     if k == 96714794216036234747183207 {
        94
    } else     if k == 96714692758930635219796076 {
        95
    } else     if k == 58029223328609118378262528 {
        96
    } else     if k == 38686234970684360889466880 {
        97
    } else     if k == 116057625776653957653856356 {
        98
    } else     if k == 96714775769331743462522996 {
        99
    } else     if k == 96714803439408271627124850 {
        100
    } else     if k == 77372017995659529053798505 {
        101
    } else     if k == 96714803439359893115502691 {
        102
    } else     if k == 116057588883139421991338096 {
        103
    } else     if k == 96714803439408271585181812 {
        104
    } else     if k == 135400457337227700147847269 {
        105
    } else     if k == 96714683535628967081934956 {
        106
    } else     if k == 116057644223376041145532517 {
        107
    } else     if k == 135400457337210107940831329 {
        108
    } else     if k == 116057644223318866549276773 {
        109
    } else     if k == 116057653446756874078650467 {
        110
    } else     if k == 96714766545933318337069160 {
        111
    } else     if k == 96714794216062623049318504 {
        112
    } else     if k == 116057644223318866540888169 {
        113
    } else     if k == 77371916538611104114278511 {
        114
    } else     if k == 116057644223393633325285490 {
        115
    } else     if k == 96714831109559566571929708 {
        116
    } else     if k == 96714803439408271585181806 {
        117
    } else     if k == 96714683535611374927347830 {
        118
    } else     if k == 96714821886121558973350004 {
        119
    } else     if k == 96714831109541974352330866 {
        120
    } else     if k == 96714720429059939921559650 {
        121
    } else     if k == 116057644223380439219306593 {
        122
    } else     if k == 116057644223393633325285484 {
        123
    } else     if k == 116057634999968819933347949 {
        124
    } else     if k == 116057496649432247597793392 {
        125
    } else     if k == 116057616553273124714446965 {
        126
    } else     if k == 38686262640853248011927552 {
        127
    } else     if k == 116057542766235257256542309 {
        128
    } else     if k == 77371916538611104116375663 {
        129
    } else     if k == 58029112648166666366091264 {
        130
    } else     if k == 96714665088836514873344115 {
        131
    } else     if k == 77371851974993651991314543 {
        132
    } else     if k == 77371851975033234426691695 {
        133
    } else     if k == 58029204881913423190818816 {
        134
    } else     if k == 58029038861177177388351488 {
        135
    } else     if k == 96714720429117114522009710 {
        136
    } else     if k == 96714729652383598266810484 {
        137
    } else     if k == 135400291316456269935542382 {
        138
    } else     if k == 116057478202622203180089449 {
        139
    } else     if k == 96714840332848040496857192 {
        140
    } else     if k == 96714674312226143897387108 {
        141
    } else     if k == 96714831109559566529986670 {
        142
    } else     if k == 77371888868521381841600633 {
        143
    } else     if k == 116057644223345254830440560 {
        144
    } else     if k == 77372045665758047442567273 {
        145
    } else     if k == 96714858779609706423910509 {
        146
    } else     if k == 96714831109493595859583090 {
        147
    } else     if k == 96714831109541974352330862 {
        148
    } else     if k == 77372027219075546388365429 {
        149
    } else {
        -1
    }
}

/// Each prefix's key leads back to its own position, so no two prefixes share a text.
proof fn lemma_prefix_texts_distinct()
    ensures
        texts_distinct(prefix_entries()),
{
    assert forall|i: int| 0 <= i < 150 implies #[trigger] prefix_position(
        text_key(prefix_entries()[i].text@),
    ) == i by {
        if i == 0 {
            reveal_strlit("Macro");
        } else if i == 1 {
            reveal_strlit("Micro");
        } else if i == 2 {
            reveal_strlit("Mega");
        } else if i == 3 {
            reveal_strlit("Mini");
        } else if i == 4 {
            reveal_strlit("Magni");
        } else if i == 5 {
            reveal_strlit("Parvi");
        } else if i == 6 {
            reveal_strlit("Maxi");
        } else if i == 7 {
            reveal_strlit("Grandi");
        } else if i == 8 {
            reveal_strlit("Brachy");
        } else if i == 9 {
            reveal_strlit("Lepto");
        } else if i == 10 {
            reveal_strlit("Longi");
        } else if i == 11 {
            reveal_strlit("Brevi");
        } else if i == 12 {
            reveal_strlit("Lati");
        } else if i == 13 {
            reveal_strlit("Angusti");
        } else if i == 14 {
            reveal_strlit("Alti");
        } else if i == 15 {
            reveal_strlit("Bathy");
        } else if i == 16 {
            reveal_strlit("Leuco");
        } else if i == 17 {
            reveal_strlit("Melano");
        } else if i == 18 {
            reveal_strlit("Xantho");
        } else if i == 19 {
            reveal_strlit("Chloro");
        } else if i == 20 {
            reveal_strlit("Rhodo");
        } else if i == 21 {
            reveal_strlit("Cyano");
        } else if i == 22 {
            reveal_strlit("Porphyro");
        } else if i == 23 {
            reveal_strlit("Albo");
        } else if i == 24 {
            reveal_strlit("Nigri");
        } else if i == 25 {
            reveal_strlit("Rubi");
        } else if i == 26 {
            reveal_strlit("Flavi");
        } else if i == 27 {
            reveal_strlit("Fulvi");
        } else if i == 28 {
            reveal_strlit("Griseo");
        } else if i == 29 {
            reveal_strlit("Roseo");
        } else if i == 30 {
            reveal_strlit("Luteo");
        } else if i == 31 {
            reveal_strlit("Argenti");
        } else if i == 32 {
            reveal_strlit("Auri");
        } else if i == 33 {
            reveal_strlit("Ferru");
        } else if i == 34 {
            reveal_strlit("Hydro");
        } else if i == 35 {
            reveal_strlit("Pyro");
        } else if i == 36 {
            reveal_strlit("Cryo");
        } else if i == 37 {
            reveal_strlit("Geo");
        } else if i == 38 {
            reveal_strlit("Aero");
        } else if i == 39 {
            reveal_strlit("Litho");
        } else if i == 40 {
            reveal_strlit("Thermo");
        } else if i == 41 {
            reveal_strlit("Photo");
        } else if i == 42 {
            reveal_strlit("Hygro");
        } else if i == 43 {
            reveal_strlit("Xero");
        } else if i == 44 {
            reveal_strlit("Halo");
        } else if i == 45 {
            reveal_strlit("Psammo");
        } else if i == 46 {
            reveal_strlit("Aqu");
        } else if i == 47 {
            reveal_strlit("Mari");
        } else if i == 48 {
            reveal_strlit("Monti");
        } else if i == 49 {
            reveal_strlit("Silvi");
        } else if i == 50 {
            reveal_strlit("Glaci");
        } else if i == 51 {
            reveal_strlit("Petri");
        } else if i == 52 {
            reveal_strlit("Litori");
        } else if i == 53 {
            reveal_strlit("Nivi");
        } else if i == 54 {
            reveal_strlit("Neo");
        } else if i == 55 {
            reveal_strlit("Paleo");
        } else if i == 56 {
            reveal_strlit("Archaeo");
        } else if i == 57 {
            reveal_strlit("Chrono");
        } else if i == 58 {
            reveal_strlit("Proto");
        } else if i == 59 {
            reveal_strlit("Eo");
        } else if i == 60 {
            reveal_strlit("Meso");
        } else if i == 61 {
            reveal_strlit("Ceno");
        } else if i == 62 {
            reveal_strlit("Novi");
        } else if i == 63 {
            reveal_strlit("Anti");
        } else if i == 64 {
            reveal_strlit("Primi");
        } else if i == 65 {
            reveal_strlit("Endo");
        } else if i == 66 {
            reveal_strlit("Ecto");
        } else if i == 67 {
            reveal_strlit("Epi");
        } else if i == 68 {
            reveal_strlit("Hypo");
        } else if i == 69 {
            reveal_strlit("Hyper");
        } else if i == 70 {
            reveal_strlit("Peri");
        } else if i == 71 {
            reveal_strlit("Para");
        } else if i == 72 {
            reveal_strlit("Meta");
        } else if i == 73 {
            reveal_strlit("Ana");
        } else if i == 74 {
            reveal_strlit("Cata");
        } else if i == 75 {
            reveal_strlit("Amphi");
        } else if i == 76 {
            reveal_strlit("Super");
        } else if i == 77 {
            reveal_strlit("Sub");
        } else if i == 78 {
            reveal_strlit("Trans");
        } else if i == 79 {
            reveal_strlit("Inter");
        } else if i == 80 {
            reveal_strlit("Infra");
        } else if i == 81 {
            reveal_strlit("Ultra");
        } else if i == 82 {
            reveal_strlit("Circum");
        } else if i == 83 {
            reveal_strlit("Mono");
        } else if i == 84 {
            reveal_strlit("Di");
        } else if i == 85 {
            reveal_strlit("Tri");
        } else if i == 86 {
            reveal_strlit("Tetra");
        } else if i == 87 {
            reveal_strlit("Penta");
        } else if i == 88 {
            reveal_strlit("Hexa");
        } else if i == 89 {
            reveal_strlit("Hepta");
        } else if i == 90 {
            reveal_strlit("Octo");
        } else if i == 91 {
            reveal_strlit("Ennea");
        } else if i == 92 {
            reveal_strlit("Deca");
        } else if i == 93 {
            reveal_strlit("Poly");
        } else if i == 94 {
            reveal_strlit("Oligo");
        } else if i == 95 {
            reveal_strlit("Diplo");
        } else if i == 96 {
            reveal_strlit("Uni");
        } else if i == 97 {
            reveal_strlit("Bi");
        } else if i == 98 {
            reveal_strlit("Quadri");
        } else if i == 99 {
            reveal_strlit("Multi");
        } else if i == 100 {
            reveal_strlit("Pluri");
        } else if i == 101 {
            reveal_strlit("Semi");
        } else if i == 102 {
            reveal_strlit("Pauci");
        } else if i == 103 {
            reveal_strlit("Morpho");
        } else if i == 104 {
            reveal_strlit("Platy");
        } else if i == 105 {
            reveal_strlit("Strepto");
        } else if i == 106 {
            reveal_strlit("Cyclo");
        } else if i == 107 {
            reveal_strlit("Spheno");
        } else if i == 108 {
            reveal_strlit("Sphaero");
        } else if i == 109 {
            reveal_strlit("Sclero");
        } else if i == 110 {
            reveal_strlit("Trachy");
        } else if i == 111 {
            reveal_strlit("Lopho");
        } else if i == 112 {
            reveal_strlit("Ortho");
        } else if i == 113 {
            reveal_strlit("Schizo");
        } else if i == 114 {
            reveal_strlit("Holo");
        } else if i == 115 {
            reveal_strlit("Stereo");
        } else if i == 116 {
            reveal_strlit("Stylo");
        } else if i == 117 {
            reveal_strlit("Plani");
        } else if i == 118 {
            reveal_strlit("Curvi");
        } else if i == 119 {
            reveal_strlit("Recti");
        } else if i == 120 {
            reveal_strlit("Spiri");
        } else if i == 121 {
            reveal_strlit("Globi");
        } else if i == 122 {
            reveal_strlit("Squami");
        } else if i == 123 {
            reveal_strlit("Stelli");
        } else if i == 124 {
            reveal_strlit("Rhombi");
        } else if i == 125 {
            reveal_strlit("Crypto");
        } else if i == 126 {
            reveal_strlit("Pseudo");
        } else if i == 127 {
            reveal_strlit("Eu");
        } else if i == 128 {
            reveal_strlit("Hetero");
        } else if i == 129 {
            reveal_strlit("Homo");
        } else if i == 130 {
            reveal_strlit("Iso");
        } else if i == 131 {
            reveal_strlit("Aniso");
        } else if i == 132 {
            reveal_strlit("Allo");
        } else if i == 133 {
            reveal_strlit("Auto");
        } else if i == 134 {
            reveal_strlit("Syn");
        } else if i == 135 {
            reveal_strlit("Apo");
        } else if i == 136 {
            reveal_strlit("Gymno");
        } else if i == 137 {
            reveal_strlit("Hapto");
        } else if i == 138 {
            reveal_strlit("Acantho");
        } else if i == 139 {
            reveal_strlit("Actino");
        } else if i == 140 {
            reveal_strlit("Tachy");
        } else if i == 141 {
            reveal_strlit("Brady");
        } else if i == 142 {
            reveal_strlit("Steno");
        } else if i == 143 {
            reveal_strlit("Eury");
        } else if i == 144 {
            reveal_strlit("Simpli");
        } else if i == 145 {
            reveal_strlit("Vari");
        } else if i == 146 {
            reveal_strlit("Vermi");
        } else if i == 147 {
            reveal_strlit("Serri");
        } else if i == 148 {
            reveal_strlit("Spini");
        } else if i == 149 {
            reveal_strlit("Totu");
        }
    }
    assert forall|i: int, j: int|
        0 <= i < j < prefix_entries().len() implies prefix_entries()[i].text@
        != prefix_entries()[j].text@ by {
        assert(prefix_position(text_key(prefix_entries()[i].text@)) == i);
        assert(prefix_position(text_key(prefix_entries()[j].text@)) == j);
    }
}

/// The genus prefixes; their texts are pairwise distinct.
pub fn prefix_table() -> (r: Vec<Morpheme>)
    ensures
        r@ == prefix_entries(),
        texts_distinct(r@),
{
    let r = vec![
        Morpheme { text: "Macro", origin: Origin::Greek, category: Category::Size },
        Morpheme { text: "Micro", origin: Origin::Greek, category: Category::Size },
        Morpheme { text: "Mega", origin: Origin::Greek, category: Category::Size },
        Morpheme { text: "Mini", origin: Origin::Latin, category: Category::Size },
        Morpheme { text: "Magni", origin: Origin::Latin, category: Category::Size },
        Morpheme { text: "Parvi", origin: Origin::Latin, category: Category::Size },
        Morpheme { text: "Maxi", origin: Origin::Latin, category: Category::Size },
        Morpheme { text: "Grandi", origin: Origin::Latin, category: Category::Size },
        Morpheme { text: "Brachy", origin: Origin::Greek, category: Category::Size },
        Morpheme { text: "Lepto", origin: Origin::Greek, category: Category::Size },
        Morpheme { text: "Longi", origin: Origin::Latin, category: Category::Size },
        Morpheme { text: "Brevi", origin: Origin::Latin, category: Category::Size },
        Morpheme { text: "Lati", origin: Origin::Latin, category: Category::Size },
        Morpheme { text: "Angusti", origin: Origin::Latin, category: Category::Size },
        Morpheme { text: "Alti", origin: Origin::Latin, category: Category::Size },
        Morpheme { text: "Bathy", origin: Origin::Greek, category: Category::Size },
        Morpheme { text: "Leuco", origin: Origin::Greek, category: Category::Colour },
        Morpheme { text: "Melano", origin: Origin::Greek, category: Category::Colour },
        Morpheme { text: "Xantho", origin: Origin::Greek, category: Category::Colour },
        Morpheme { text: "Chloro", origin: Origin::Greek, category: Category::Colour },
        Morpheme { text: "Rhodo", origin: Origin::Greek, category: Category::Colour },
        Morpheme { text: "Cyano", origin: Origin::Greek, category: Category::Colour },
        Morpheme { text: "Porphyro", origin: Origin::Greek, category: Category::Colour },
        Morpheme { text: "Albo", origin: Origin::Latin, category: Category::Colour },
        Morpheme { text: "Nigri", origin: Origin::Latin, category: Category::Colour },
        Morpheme { text: "Rubi", origin: Origin::Latin, category: Category::Colour },
        Morpheme { text: "Flavi", origin: Origin::Latin, category: Category::Colour },
        Morpheme { text: "Fulvi", origin: Origin::Latin, category: Category::Colour },
        Morpheme { text: "Griseo", origin: Origin::Latin, category: Category::Colour },
        Morpheme { text: "Roseo", origin: Origin::Latin, category: Category::Colour },
        Morpheme { text: "Luteo", origin: Origin::Latin, category: Category::Colour },
        Morpheme { text: "Argenti", origin: Origin::Latin, category: Category::Colour },
        Morpheme { text: "Auri", origin: Origin::Latin, category: Category::Colour },
        Morpheme { text: "Ferru", origin: Origin::Latin, category: Category::Colour },
        Morpheme { text: "Hydro", origin: Origin::Greek, category: Category::Environment },
        Morpheme { text: "Pyro", origin: Origin::Greek, category: Category::Environment },
        Morpheme { text: "Cryo", origin: Origin::Greek, category: Category::Environment },
        Morpheme { text: "Geo", origin: Origin::Greek, category: Category::Environment },
        Morpheme { text: "Aero", origin: Origin::Greek, category: Category::Environment },
        Morpheme { text: "Litho", origin: Origin::Greek, category: Category::Environment },
        Morpheme { text: "Thermo", origin: Origin::Greek, category: Category::Environment },
        Morpheme { text: "Photo", origin: Origin::Greek, category: Category::Environment },
        Morpheme { text: "Hygro", origin: Origin::Greek, category: Category::Environment },
        Morpheme { text: "Xero", origin: Origin::Greek, category: Category::Environment },
        Morpheme { text: "Halo", origin: Origin::Greek, category: Category::Environment },
        Morpheme { text: "Psammo", origin: Origin::Greek, category: Category::Environment },
        Morpheme { text: "Aqu", origin: Origin::Latin, category: Category::Environment },
        Morpheme { text: "Mari", origin: Origin::Latin, category: Category::Environment },
        Morpheme { text: "Monti", origin: Origin::Latin, category: Category::Environment },
        Morpheme { text: "Silvi", origin: Origin::Latin, category: Category::Environment },
        Morpheme { text: "Glaci", origin: Origin::Latin, category: Category::Environment },
        Morpheme { text: "Petri", origin: Origin::Latin, category: Category::Environment },
        Morpheme { text: "Litori", origin: Origin::Latin, category: Category::Environment },
        Morpheme { text: "Nivi", origin: Origin::Latin, category: Category::Environment },
        Morpheme { text: "Neo", origin: Origin::Greek, category: Category::Time },
        Morpheme { text: "Paleo", origin: Origin::Greek, category: Category::Time },
        Morpheme { text: "Archaeo", origin: Origin::Greek, category: Category::Time },
        Morpheme { text: "Chrono", origin: Origin::Greek, category: Category::Time },
        Morpheme { text: "Proto", origin: Origin::Greek, category: Category::Time },
        Morpheme { text: "Eo", origin: Origin::Greek, category: Category::Time },
        Morpheme { text: "Meso", origin: Origin::Greek, category: Category::Time },
        Morpheme { text: "Ceno", origin: Origin::Greek, category: Category::Time },
        Morpheme { text: "Novi", origin: Origin::Latin, category: Category::Time },
        Morpheme { text: "Anti", origin: Origin::Latin, category: Category::Time },
        Morpheme { text: "Primi", origin: Origin::Latin, category: Category::Time },
        Morpheme { text: "Endo", origin: Origin::Greek, category: Category::Position },
        Morpheme { text: "Ecto", origin: Origin::Greek, category: Category::Position },
        Morpheme { text: "Epi", origin: Origin::Greek, category: Category::Position },
        Morpheme { text: "Hypo", origin: Origin::Greek, category: Category::Position },
        Morpheme { text: "Hyper", origin: Origin::Greek, category: Category::Position },
        Morpheme { text: "Peri", origin: Origin::Greek, category: Category::Position },
        Morpheme { text: "Para", origin: Origin::Greek, category: Category::Position },
        Morpheme { text: "Meta", origin: Origin::Greek, category: Category::Position },
        Morpheme { text: "Ana", origin: Origin::Greek, category: Category::Position },
        Morpheme { text: "Cata", origin: Origin::Greek, category: Category::Position },
        Morpheme { text: "Amphi", origin: Origin::Greek, category: Category::Position },
        Morpheme { text: "Super", origin: Origin::Latin, category: Category::Position },
        Morpheme { text: "Sub", origin: Origin::Latin, category: Category::Position },
        Morpheme { text: "Trans", origin: Origin::Latin, category: Category::Position },
        Morpheme { text: "Inter", origin: Origin::Latin, category: Category::Position },
        Morpheme { text: "Infra", origin: Origin::Latin, category: Category::Position },
        Morpheme { text: "Ultra", origin: Origin::Latin, category: Category::Position },
        Morpheme { text: "Circum", origin: Origin::Latin, category: Category::Position },
        Morpheme { text: "Mono", origin: Origin::Greek, category: Category::Number },
        Morpheme { text: "Di", origin: Origin::Greek, category: Category::Number },
        Morpheme { text: "Tri", origin: Origin::Greek, category: Category::Number },
        Morpheme { text: "Tetra", origin: Origin::Greek, category: Category::Number },
        Morpheme { text: "Penta", origin: Origin::Greek, category: Category::Number },
        Morpheme { text: "Hexa", origin: Origin::Greek, category: Category::Number },
        Morpheme { text: "Hepta", origin: Origin::Greek, category: Category::Number },
        Morpheme { text: "Octo", origin: Origin::Greek, category: Category::Number },
        Morpheme { text: "Ennea", origin: Origin::Greek, category: Category::Number },
        Morpheme { text: "Deca", origin: Origin::Greek, category: Category::Number },
        Morpheme { text: "Poly", origin: Origin::Greek, category: Category::Number },
        Morpheme { text: "Oligo", origin: Origin::Greek, category: Category::Number },
        Morpheme { text: "Diplo", origin: Origin::Greek, category: Category::Number },
        Morpheme { text: "Uni", origin: Origin::Latin, category: Category::Number },
        Morpheme { text: "Bi", origin: Origin::Latin, category: Category::Number },
        Morpheme { text: "Quadri", origin: Origin::Latin, category: Category::Number },
        Morpheme { text: "Multi", origin: Origin::Latin, category: Category::Number },
        Morpheme { text: "Pluri", origin: Origin::Latin, category: Category::Number },
        Morpheme { text: "Semi", origin: Origin::Latin, category: Category::Number },
        Morpheme { text: "Pauci", origin: Origin::Latin, category: Category::Number },
        Morpheme { text: "Morpho", origin: Origin::Greek, category: Category::Form },
        Morpheme { text: "Platy", origin: Origin::Greek, category: Category::Form },
        Morpheme { text: "Strepto", origin: Origin::Greek, category: Category::Form },
        Morpheme { text: "Cyclo", origin: Origin::Greek, category: Category::Form },
        Morpheme { text: "Spheno", origin: Origin::Greek, category: Category::Form },
        Morpheme { text: "Sphaero", origin: Origin::Greek, category: Category::Form },
        Morpheme { text: "Sclero", origin: Origin::Greek, category: Category::Form },
        Morpheme { text: "Trachy", origin: Origin::Greek, category: Category::Form },
        Morpheme { text: "Lopho", origin: Origin::Greek, category: Category::Form },
        Morpheme { text: "Ortho", origin: Origin::Greek, category: Category::Form },
        Morpheme { text: "Schizo", origin: Origin::Greek, category: Category::Form },
        Morpheme { text: "Holo", origin: Origin::Greek, category: Category::Form },
        Morpheme { text: "Stereo", origin: Origin::Greek, category: Category::Form },
        Morpheme { text: "Stylo", origin: Origin::Greek, category: Category::Form },
        Morpheme { text: "Plani", origin: Origin::Latin, category: Category::Form },
        Morpheme { text: "Curvi", origin: Origin::Latin, category: Category::Form },
        Morpheme { text: "Recti", origin: Origin::Latin, category: Category::Form },
        Morpheme { text: "Spiri", origin: Origin::Latin, category: Category::Form },
        Morpheme { text: "Globi", origin: Origin::Latin, category: Category::Form },
        Morpheme { text: "Squami", origin: Origin::Latin, category: Category::Form },
        Morpheme { text: "Stelli", origin: Origin::Latin, category: Category::Form },
        Morpheme { text: "Rhombi", origin: Origin::Latin, category: Category::Form },
        Morpheme { text: "Crypto", origin: Origin::Greek, category: Category::Quality },
        Morpheme { text: "Pseudo", origin: Origin::Greek, category: Category::Quality },
        Morpheme { text: "Eu", origin: Origin::Greek, category: Category::Quality },
        Morpheme { text: "Hetero", origin: Origin::Greek, category: Category::Quality },
        Morpheme { text: "Homo", origin: Origin::Greek, category: Category::Quality },
        Morpheme { text: "Iso", origin: Origin::Greek, category: Category::Quality },
        Morpheme { text: "Aniso", origin: Origin::Greek, category: Category::Quality },
        Morpheme { text: "Allo", origin: Origin::Greek, category: Category::Quality },
        Morpheme { text: "Auto", origin: Origin::Greek, category: Category::Quality },
        Morpheme { text: "Syn", origin: Origin::Greek, category: Category::Quality },
        Morpheme { text: "Apo", origin: Origin::Greek, category: Category::Quality },
        Morpheme { text: "Gymno", origin: Origin::Greek, category: Category::Quality },
        Morpheme { text: "Hapto", origin: Origin::Greek, category: Category::Quality },
        Morpheme { text: "Acantho", origin: Origin::Greek, category: Category::Quality },
        Morpheme { text: "Actino", origin: Origin::Greek, category: Category::Quality },
        Morpheme { text: "Tachy", origin: Origin::Greek, category: Category::Quality },
        Morpheme { text: "Brady", origin: Origin::Greek, category: Category::Quality },
        Morpheme { text: "Steno", origin: Origin::Greek, category: Category::Quality },
        Morpheme { text: "Eury", origin: Origin::Greek, category: Category::Quality },
        Morpheme { text: "Simpli", origin: Origin::Latin, category: Category::Quality },
        Morpheme { text: "Vari", origin: Origin::Latin, category: Category::Quality },
        Morpheme { text: "Vermi", origin: Origin::Latin, category: Category::Quality },
        Morpheme { text: "Serri", origin: Origin::Latin, category: Category::Quality },
        Morpheme { text: "Spini", origin: Origin::Latin, category: Category::Quality },
        Morpheme { text: "Totu", origin: Origin::Latin, category: Category::Quality },
    ];
    proof {
        assert(r@ =~= prefix_entries());
        lemma_prefix_texts_distinct();
    }
    r
}

/// Whether the texts of the prefixes are pairwise distinct.
pub fn check_uniqueness(prefixes: &Vec<Morpheme>) -> (r: bool)
    ensures
        r == (forall|i: int, j: int|
            0 <= i < j < prefixes@.len() ==> prefixes@[i].text@ != prefixes@[j].text@),
{
    let n = prefixes.len();
    let mut i: usize = 0;
    while i < n
        invariant
            n == prefixes@.len(),
            i <= n,
            forall|a: int, b: int|
                0 <= a < i && a < b < n ==> prefixes@[a].text@ != prefixes@[b].text@,
        decreases n - i,
    {
        let mut j: usize = i + 1;
        while j < n
            invariant
                n == prefixes@.len(),
                i < n,
                i + 1 <= j <= n,
                forall|a: int, b: int|
                    0 <= a < i && a < b < n ==> prefixes@[a].text@ != prefixes@[b].text@,
                forall|b: int| i < b < j ==> prefixes@[i as int].text@ != prefixes@[b].text@,
            decreases n - j,
        {
            if text_eq(prefixes[i].text, prefixes[j].text) {
                return false;
            }
            j = j + 1;
        }
        i = i + 1;
    }
    true
}

} // verus!
