//! The wordlist and its reverse lookup.
//!
//! Each byte value has one four-letter lowercase word. A word is held as a
//! `u32` whose four bytes, most significant first, are its ASCII letters. The
//! reverse lookup is keyed by a hash of a word's first and last letter; no two
//! words share that pair, so each key names at most one candidate byte, which
//! the decoder then checks against the wordlist.
use vstd::prelude::*;

verus! {

/// The word for byte `b`, as four packed ASCII letters.
pub open spec fn word_code(b: u8) -> u32 {
    match b {
        0 => 0x61636964,  // acid
        1 => 0x61636d65,  // acme
        2 => 0x61697273,  // airs
        3 => 0x616a6172,  // ajar
        4 => 0x616b696e,  // akin
        5 => 0x616c746f,  // alto
        6 => 0x616e6577,  // anew
        7 => 0x616e7469,  // anti
        8 => 0x61706578,  // apex
        9 => 0x61726368,  // arch
        10 => 0x61726561,  // area
        11 => 0x61726d79,  // army
        12 => 0x61746f6d,  // atom
        13 => 0x61746f70,  // atop
        14 => 0x61756e74,  // aunt
        15 => 0x62616265,  // babe
        16 => 0x6261636b,  // back
        17 => 0x6261726e,  // barn
        18 => 0x626c6f62,  // blob
        19 => 0x626c7572,  // blur
        20 => 0x626f6479,  // body
        21 => 0x626f696c,  // boil
        22 => 0x626f6c64,  // bold
        23 => 0x626f6c74,  // bolt
        24 => 0x626f6f6d,  // boom
        25 => 0x626f7373,  // boss
        26 => 0x626f7468,  // both
        27 => 0x62726167,  // brag
        28 => 0x62726577,  // brew
        29 => 0x62756d70,  // bump
        30 => 0x62757a7a,  // buzz
        31 => 0x63616665,  // cafe
        32 => 0x63616c6d,  // calm
        33 => 0x63617264,  // card
        34 => 0x63617368,  // cash
        35 => 0x63617374,  // cast
        36 => 0x63656c6c,  // cell
        37 => 0x63686566,  // chef
        38 => 0x63686970,  // chip
        39 => 0x63697479,  // city
        40 => 0x636c616e,  // clan
        41 => 0x636c6177,  // claw
        42 => 0x636c6f67,  // clog
        43 => 0x636f6c61,  // cola
        44 => 0x636f6d62,  // comb
        45 => 0x636f6f6b,  // cook
        46 => 0x63727578,  // crux
        47 => 0x64616c65,  // dale
        48 => 0x64616d70,  // damp
        49 => 0x6461726b,  // dark
        50 => 0x6461726e,  // darn
        51 => 0x64617274,  // dart
        52 => 0x65676773,  // eggs
        53 => 0x656c7365,  // else
        54 => 0x656d6974,  // emit
        55 => 0x656e7679,  // envy
        56 => 0x65706963,  // epic
        57 => 0x6576656e,  // even
        58 => 0x65766572,  // ever
        59 => 0x6576696c,  // evil
        60 => 0x6578616d,  // exam
        61 => 0x66616e67,  // fang
        62 => 0x66617374,  // fast
        63 => 0x6661776e,  // fawn
        64 => 0x66656172,  // fear
        65 => 0x66656564,  // feed
        66 => 0x666c6561,  // flea
        67 => 0x666c7578,  // flux
        68 => 0x666f616d,  // foam
        69 => 0x666f6c6b,  // folk
        70 => 0x66756c6c,  // full
        71 => 0x66757279,  // fury
        72 => 0x66757365,  // fuse
        73 => 0x66757373,  // fuss
        74 => 0x67616c61,  // gala
        75 => 0x67616c6c,  // gall
        76 => 0x67616d65,  // game
        77 => 0x67616e67,  // gang
        78 => 0x67617262,  // garb
        79 => 0x67617370,  // gasp
        80 => 0x67656172,  // gear
        81 => 0x67656d73,  // gems
        82 => 0x67696674,  // gift
        83 => 0x67696c64,  // gild
        84 => 0x676c656e,  // glen
        85 => 0x676c6f77,  // glow
        86 => 0x68616972,  // hair
        87 => 0x68616c6c,  // hall
        88 => 0x68616c6f,  // halo
        89 => 0x68616e64,  // hand
        90 => 0x68616e67,  // hang
        91 => 0x68617265,  // hare
        92 => 0x68617368,  // hash
        93 => 0x68656170,  // heap
        94 => 0x68656174,  // heat
        95 => 0x68656c6d,  // helm
        96 => 0x68657262,  // herb
        97 => 0x686f6178,  // hoax
        98 => 0x686f6c79,  // holy
        99 => 0x686f6f66,  // hoof
        100 => 0x686f726e,  // horn
        101 => 0x6875736b,  // husk
        102 => 0x69626578,  // ibex
        103 => 0x69636564,  // iced
        104 => 0x69636f6e,  // icon
        105 => 0x69646561,  // idea
        106 => 0x69646c65,  // idle
        107 => 0x69646c79,  // idly
        108 => 0x69646f6c,  // idol
        109 => 0x696e6368,  // inch
        110 => 0x696e746f,  // into
        111 => 0x696f6e73,  // ions
        112 => 0x6974656d,  // item
        113 => 0x6a616273,  // jabs
        114 => 0x6a616465,  // jade
        115 => 0x6a61696c,  // jail
        116 => 0x6a617661,  // java
        117 => 0x6a617a7a,  // jazz
        118 => 0x6a65616e,  // jean
        119 => 0x6a656570,  // jeep
        120 => 0x6b696e67,  // king
        121 => 0x6b697465,  // kite
        122 => 0x6b697473,  // kits
        123 => 0x6b697769,  // kiwi
        124 => 0x6b6e6f62,  // knob
        125 => 0x6b6e6f74,  // knot
        126 => 0x6b6e6f77,  // know
        127 => 0x6b75646f,  // kudo
        128 => 0x6c616479,  // lady
        129 => 0x6c616b65,  // lake
        130 => 0x6c616e64,  // land
        131 => 0x6c61726b,  // lark
        132 => 0x6c617368,  // lash
        133 => 0x6c617661,  // lava
        134 => 0x6c65616e,  // lean
        135 => 0x6c656170,  // leap
        136 => 0x6c656674,  // left
        137 => 0x6c656773,  // legs
        138 => 0x6c696172,  // liar
        139 => 0x6c696d62,  // limb
        140 => 0x6c6f6166,  // loaf
        141 => 0x6c6f676f,  // logo
        142 => 0x6c6f6e67,  // long
        143 => 0x6c6f6f6d,  // loom
        144 => 0x6d657461,  // meta
        145 => 0x6d696c65,  // mile
        146 => 0x6d696c6c,  // mill
        147 => 0x6d696e64,  // mind
        148 => 0x6d696e74,  // mint
        149 => 0x6d6f636b,  // mock
        150 => 0x6d6f6f6e,  // moon
        151 => 0x6d6f6f72,  // moor
        152 => 0x6d6f7373,  // moss
        153 => 0x6d6f7468,  // moth
        154 => 0x6e616d65,  // name
        155 => 0x6e617679,  // navy
        156 => 0x6e656172,  // near
        157 => 0x6e65636b,  // neck
        158 => 0x6e656564,  // need
        159 => 0x6e657374,  // nest
        160 => 0x6e657473,  // nets
        161 => 0x6e6f6f6e,  // noon
        162 => 0x6e6f726d,  // norm
        163 => 0x6e6f7661,  // nova
        164 => 0x6e756c6c,  // null
        165 => 0x6e756d62,  // numb
        166 => 0x6f617273,  // oars
        167 => 0x6f617468,  // oath
        168 => 0x6f646f72,  // odor
        169 => 0x6f677265,  // ogre
        170 => 0x6f696c79,  // oily
        171 => 0x6f6d656e,  // omen
        172 => 0x6f726361,  // orca
        173 => 0x706f7274,  // port
        174 => 0x706f7365,  // pose
        175 => 0x706f7572,  // pour
        176 => 0x70726179,  // pray
        177 => 0x7072696d,  // prim
        178 => 0x70726f64,  // prod
        179 => 0x70726f77,  // prow
        180 => 0x7075636b,  // puck
        181 => 0x70756666,  // puff
        182 => 0x70756c6c,  // pull
        183 => 0x70756c70,  // pulp
        184 => 0x70756d61,  // puma
        185 => 0x70757368,  // push
        186 => 0x71756164,  // quad
        187 => 0x71756179,  // quay
        188 => 0x71756970,  // quip
        189 => 0x7269736b,  // risk
        190 => 0x72757374,  // rust
        191 => 0x72757468,  // ruth
        192 => 0x7361636b,  // sack
        193 => 0x73616761,  // saga
        194 => 0x73616e64,  // sand
        195 => 0x73616e67,  // sang
        196 => 0x73617665,  // save
        197 => 0x73636162,  // scab
        198 => 0x7363616e,  // scan
        199 => 0x73636172,  // scar
        200 => 0x7365616c,  // seal
        201 => 0x7365616d,  // seam
        202 => 0x73656174,  // seat
        203 => 0x73657473,  // sets
        204 => 0x73686970,  // ship
        205 => 0x73686f77,  // show
        206 => 0x73696768,  // sigh
        207 => 0x73696c6f,  // silo
        208 => 0x73757266,  // surf
        209 => 0x73776179,  // sway
        210 => 0x74616273,  // tabs
        211 => 0x7461636b,  // tack
        212 => 0x7461636f,  // taco
        213 => 0x74616374,  // tact
        214 => 0x7461696c,  // tail
        215 => 0x74617270,  // tarp
        216 => 0x74617869,  // taxi
        217 => 0x7465616d,  // team
        218 => 0x74656172,  // tear
        219 => 0x74656e64,  // tend
        220 => 0x74686177,  // thaw
        221 => 0x74686579,  // they
        222 => 0x74757266,  // turf
        223 => 0x7475726e,  // turn
        224 => 0x74776967,  // twig
        225 => 0x74797065,  // type
        226 => 0x75676c79,  // ugly
        227 => 0x756e6974,  // unit
        228 => 0x756e746f,  // unto
        229 => 0x75706f6e,  // upon
        230 => 0x75726765,  // urge
        231 => 0x75736564,  // used
        232 => 0x75736572,  // user
        233 => 0x75736573,  // uses
        234 => 0x766f6964,  // void
        235 => 0x766f6c65,  // vole
        236 => 0x766f6c74,  // volt
        237 => 0x766f7773,  // vows
        238 => 0x77616465,  // wade
        239 => 0x7761726e,  // warn
        240 => 0x77617270,  // warp
        241 => 0x77617368,  // wash
        242 => 0x77617679,  // wavy
        243 => 0x77617973,  // ways
        244 => 0x77656172,  // wear
        245 => 0x7765656b,  // week
        246 => 0x77656c6c,  // well
        247 => 0x77656e74,  // went
        248 => 0x7768696d,  // whim
        249 => 0x7768697a,  // whiz
        250 => 0x77696c64,  // wild
        251 => 0x77696e67,  // wing
        252 => 0x79656c6c,  // yell
        253 => 0x79656c70,  // yelp
        254 => 0x796f6761,  // yoga
        255 => 0x7a6f6e65,  // zone
    }
}

/// Letter `i` (0 to 3) of a packed word.
pub open spec fn code_letter(code: u32, i: int) -> u8 {
    if i == 0 {
        (code / 0x1000000) as u8
    } else if i == 1 {
        (code / 0x10000 % 0x100) as u8
    } else if i == 2 {
        (code / 0x100 % 0x100) as u8
    } else {
        (code % 0x100) as u8
    }
}

/// The word for byte `b`, as its four ASCII bytes.
pub open spec fn word_of(b: u8) -> Seq<u8> {
    let c = word_code(b);
    seq![code_letter(c, 0), code_letter(c, 1), code_letter(c, 2), code_letter(c, 3)]
}

/// Index into the reverse lookup, from the first and last byte of a word.
/// Every pair of bytes gives an index below 1024.
pub open spec fn word_hash(first: u8, last: u8) -> u16 {
    ((first as int % 32) * 32 + (last as int % 32)) as u16
}

/// The candidate byte stored under hash `h`; keys that no word reaches hold 0.
pub open spec fn candidate(h: u16) -> u8 {
    match h {
        33 => 10,  // area
        36 => 0,  // acid
        37 => 1,  // acme
        40 => 9,  // arch
        41 => 7,  // anti
        45 => 12,  // atom
        46 => 4,  // akin
        47 => 5,  // alto
        48 => 13,  // atop
        50 => 3,  // ajar
        51 => 2,  // airs
        52 => 14,  // aunt
        55 => 6,  // anew
        56 => 8,  // apex
        57 => 11,  // army
        66 => 18,  // blob
        68 => 22,  // bold
        69 => 15,  // babe
        71 => 27,  // brag
        72 => 26,  // both
        75 => 16,  // back
        76 => 21,  // boil
        77 => 24,  // boom
        78 => 17,  // barn
        80 => 29,  // bump
        82 => 19,  // blur
        83 => 25,  // boss
        84 => 23,  // bolt
        87 => 28,  // brew
        89 => 20,  // body
        90 => 30,  // buzz
        97 => 43,  // cola
        98 => 44,  // comb
        100 => 33,  // card
        101 => 31,  // cafe
        102 => 37,  // chef
        103 => 42,  // clog
        104 => 34,  // cash
        107 => 45,  // cook
        108 => 36,  // cell
        109 => 32,  // calm
        110 => 40,  // clan
        112 => 38,  // chip
        116 => 35,  // cast
        119 => 41,  // claw
        120 => 46,  // crux
        121 => 39,  // city
        133 => 47,  // dale
        139 => 49,  // dark
        142 => 50,  // darn
        144 => 48,  // damp
        148 => 51,  // dart
        163 => 56,  // epic
        165 => 53,  // else
        172 => 59,  // evil
        173 => 60,  // exam
        174 => 57,  // even
        178 => 58,  // ever
        179 => 52,  // eggs
        180 => 54,  // emit
        185 => 55,  // envy
        193 => 66,  // flea
        196 => 65,  // feed
        197 => 72,  // fuse
        199 => 61,  // fang
        203 => 69,  // folk
        204 => 70,  // full
        205 => 68,  // foam
        206 => 63,  // fawn
        210 => 64,  // fear
        211 => 73,  // fuss
        212 => 62,  // fast
        216 => 67,  // flux
        217 => 71,  // fury
        225 => 74,  // gala
        226 => 78,  // garb
        228 => 83,  // gild
        229 => 76,  // game
        231 => 77,  // gang
        236 => 75,  // gall
        238 => 84,  // glen
        240 => 79,  // gasp
        242 => 80,  // gear
        243 => 81,  // gems
        244 => 82,  // gift
        247 => 85,  // glow
        258 => 96,  // herb
        260 => 89,  // hand
        261 => 91,  // hare
        262 => 99,  // hoof
        263 => 90,  // hang
        264 => 92,  // hash
        267 => 101,  // husk
        268 => 87,  // hall
        269 => 95,  // helm
        270 => 100,  // horn
        271 => 88,  // halo
        272 => 93,  // heap
        274 => 86,  // hair
        276 => 94,  // heat
        280 => 97,  // hoax
        281 => 98,  // holy
        289 => 105,  // idea
        292 => 103,  // iced
        293 => 106,  // idle
        296 => 109,  // inch
        300 => 108,  // idol
        301 => 112,  // item
        302 => 104,  // icon
        303 => 110,  // into
        307 => 111,  // ions
        312 => 102,  // ibex
        313 => 107,  // idly
        321 => 116,  // java
        325 => 114,  // jade
        332 => 115,  // jail
        334 => 118,  // jean
        336 => 119,  // jeep
        339 => 113,  // jabs
        346 => 117,  // jazz
        354 => 124,  // knob
        357 => 121,  // kite
        359 => 120,  // king
        361 => 123,  // kiwi
        367 => 127,  // kudo
        371 => 122,  // kits
        372 => 125,  // knot
        375 => 126,  // know
        385 => 133,  // lava
        386 => 139,  // limb
        388 => 130,  // land
        389 => 129,  // lake
        390 => 140,  // loaf
        391 => 142,  // long
        392 => 132,  // lash
        395 => 131,  // lark
        397 => 143,  // loom
        398 => 134,  // lean
        399 => 141,  // logo
        400 => 135,  // leap
        402 => 138,  // liar
        403 => 137,  // legs
        404 => 136,  // left
        409 => 128,  // lady
        417 => 144,  // meta
        420 => 147,  // mind
        421 => 145,  // mile
        424 => 153,  // moth
        427 => 149,  // mock
        428 => 146,  // mill
        430 => 150,  // moon
        434 => 151,  // moor
        435 => 152,  // moss
        436 => 148,  // mint
        449 => 163,  // nova
        450 => 165,  // numb
        452 => 158,  // need
        453 => 154,  // name
        459 => 157,  // neck
        460 => 164,  // null
        461 => 162,  // norm
        462 => 161,  // noon
        466 => 156,  // near
        467 => 160,  // nets
        468 => 159,  // nest
        473 => 155,  // navy
        481 => 172,  // orca
        485 => 169,  // ogre
        488 => 167,  // oath
        494 => 171,  // omen
        498 => 168,  // odor
        499 => 166,  // oars
        505 => 170,  // oily
        513 => 184,  // puma
        516 => 178,  // prod
        517 => 174,  // pose
        518 => 181,  // puff
        520 => 185,  // push
        523 => 180,  // puck
        524 => 182,  // pull
        525 => 177,  // prim
        528 => 183,  // pulp
        530 => 175,  // pour
        532 => 173,  // port
        535 => 179,  // prow
        537 => 176,  // pray
        548 => 186,  // quad
        560 => 188,  // quip
        569 => 187,  // quay
        584 => 191,  // ruth
        587 => 189,  // risk
        596 => 190,  // rust
        609 => 193,  // saga
        610 => 197,  // scab
        612 => 194,  // sand
        613 => 196,  // save
        614 => 208,  // surf
        615 => 195,  // sang
        616 => 206,  // sigh
        619 => 192,  // sack
        620 => 200,  // seal
        621 => 201,  // seam
        622 => 198,  // scan
        623 => 207,  // silo
        624 => 204,  // ship
        626 => 199,  // scar
        627 => 203,  // sets
        628 => 202,  // seat
        631 => 205,  // show
        633 => 209,  // sway
        644 => 219,  // tend
        645 => 225,  // type
        646 => 222,  // turf
        647 => 224,  // twig
        649 => 216,  // taxi
        651 => 211,  // tack
        652 => 214,  // tail
        653 => 217,  // team
        654 => 223,  // turn
        655 => 212,  // taco
        656 => 215,  // tarp
        658 => 218,  // tear
        659 => 210,  // tabs
        660 => 213,  // tact
        663 => 220,  // thaw
        665 => 221,  // they
        676 => 231,  // used
        677 => 230,  // urge
        686 => 229,  // upon
        687 => 228,  // unto
        690 => 232,  // user
        691 => 233,  // uses
        692 => 227,  // unit
        697 => 226,  // ugly
        708 => 234,  // void
        709 => 235,  // vole
        723 => 237,  // vows
        724 => 236,  // volt
        740 => 250,  // wild
        741 => 238,  // wade
        743 => 251,  // wing
        744 => 241,  // wash
        747 => 245,  // week
        748 => 246,  // well
        749 => 248,  // whim
        750 => 239,  // warn
        752 => 240,  // warp
        754 => 244,  // wear
        755 => 243,  // ways
        756 => 247,  // went
        761 => 242,  // wavy
        762 => 249,  // whiz
        801 => 254,  // yoga
        812 => 252,  // yell
        816 => 253,  // yelp
        837 => 255,  // zone
        _ => 0,
    }
}

#[verifier::rlimit(100)]
proof fn lemma_code_inverted(b: u8)
    by (bit_vector)
    ensures
        candidate(word_hash(code_letter(word_code(b), 0), code_letter(word_code(b), 3))) == b,
{
}

/// The reverse lookup finds each word's byte again from its first and last
/// letter.
pub proof fn lemma_word_of(b: u8)
    ensures
        word_of(b).len() == 4,
        candidate(word_hash(word_of(b)[0], word_of(b)[3])) == b,
{
    lemma_code_inverted(b);
}

/// No two bytes share a word.
pub proof fn lemma_word_of_injective(a: u8, b: u8)
    ensures
        word_of(a) == word_of(b) ==> a == b,
{
    lemma_word_of(a);
    lemma_word_of(b);
}

fn lookup_word_code(b: u8) -> (c: u32)
    ensures
        c == word_code(b),
{
    match b {
        0 => 0x61636964,
        1 => 0x61636d65,
        2 => 0x61697273,
        3 => 0x616a6172,
        4 => 0x616b696e,
        5 => 0x616c746f,
        6 => 0x616e6577,
        7 => 0x616e7469,
        8 => 0x61706578,
        9 => 0x61726368,
        10 => 0x61726561,
        11 => 0x61726d79,
        12 => 0x61746f6d,
        13 => 0x61746f70,
        14 => 0x61756e74,
        15 => 0x62616265,
        16 => 0x6261636b,
        17 => 0x6261726e,
        18 => 0x626c6f62,
        19 => 0x626c7572,
        20 => 0x626f6479,
        21 => 0x626f696c,
        22 => 0x626f6c64,
        23 => 0x626f6c74,
        24 => 0x626f6f6d,
        25 => 0x626f7373,
        26 => 0x626f7468,
        27 => 0x62726167,
        28 => 0x62726577,
        29 => 0x62756d70,
        30 => 0x62757a7a,
        31 => 0x63616665,
        32 => 0x63616c6d,
        33 => 0x63617264,
        34 => 0x63617368,
        35 => 0x63617374,
        36 => 0x63656c6c,
        37 => 0x63686566,
        38 => 0x63686970,
        39 => 0x63697479,
        40 => 0x636c616e,
        41 => 0x636c6177,
        42 => 0x636c6f67,
        43 => 0x636f6c61,
        44 => 0x636f6d62,
        45 => 0x636f6f6b,
        46 => 0x63727578,
        47 => 0x64616c65,
        48 => 0x64616d70,
        49 => 0x6461726b,
        50 => 0x6461726e,
        51 => 0x64617274,
        52 => 0x65676773,
        53 => 0x656c7365,
        54 => 0x656d6974,
        55 => 0x656e7679,
        56 => 0x65706963,
        57 => 0x6576656e,
        58 => 0x65766572,
        59 => 0x6576696c,
        60 => 0x6578616d,
        61 => 0x66616e67,
        62 => 0x66617374,
        63 => 0x6661776e,
        64 => 0x66656172,
        65 => 0x66656564,
        66 => 0x666c6561,
        67 => 0x666c7578,
        68 => 0x666f616d,
        69 => 0x666f6c6b,
        70 => 0x66756c6c,
        71 => 0x66757279,
        72 => 0x66757365,
        73 => 0x66757373,
        74 => 0x67616c61,
        75 => 0x67616c6c,
        76 => 0x67616d65,
        77 => 0x67616e67,
        78 => 0x67617262,
        79 => 0x67617370,
        80 => 0x67656172,
        81 => 0x67656d73,
        82 => 0x67696674,
        83 => 0x67696c64,
        84 => 0x676c656e,
        85 => 0x676c6f77,
        86 => 0x68616972,
        87 => 0x68616c6c,
        88 => 0x68616c6f,
        89 => 0x68616e64,
        90 => 0x68616e67,
        91 => 0x68617265,
        92 => 0x68617368,
        93 => 0x68656170,
        94 => 0x68656174,
        95 => 0x68656c6d,
        96 => 0x68657262,
        97 => 0x686f6178,
        98 => 0x686f6c79,
        99 => 0x686f6f66,
        100 => 0x686f726e,
        101 => 0x6875736b,
        102 => 0x69626578,
        103 => 0x69636564,
        104 => 0x69636f6e,
        105 => 0x69646561,
        106 => 0x69646c65,
        107 => 0x69646c79,
        108 => 0x69646f6c,
        109 => 0x696e6368,
        110 => 0x696e746f,
        111 => 0x696f6e73,
        112 => 0x6974656d,
        113 => 0x6a616273,
        114 => 0x6a616465,
        115 => 0x6a61696c,
        116 => 0x6a617661,
        117 => 0x6a617a7a,
        118 => 0x6a65616e,
        119 => 0x6a656570,
        120 => 0x6b696e67,
        121 => 0x6b697465,
        122 => 0x6b697473,
        123 => 0x6b697769,
        124 => 0x6b6e6f62,
        125 => 0x6b6e6f74,
        126 => 0x6b6e6f77,
        127 => 0x6b75646f,
        128 => 0x6c616479,
        129 => 0x6c616b65,
        130 => 0x6c616e64,
        131 => 0x6c61726b,
        132 => 0x6c617368,
        133 => 0x6c617661,
        134 => 0x6c65616e,
        135 => 0x6c656170,
        136 => 0x6c656674,
        137 => 0x6c656773,
        138 => 0x6c696172,
        139 => 0x6c696d62,
        140 => 0x6c6f6166,
        141 => 0x6c6f676f,
        142 => 0x6c6f6e67,
        143 => 0x6c6f6f6d,
        144 => 0x6d657461,
        145 => 0x6d696c65,
        146 => 0x6d696c6c,
        147 => 0x6d696e64,
        148 => 0x6d696e74,
        149 => 0x6d6f636b,
        150 => 0x6d6f6f6e,
        151 => 0x6d6f6f72,
        152 => 0x6d6f7373,
        153 => 0x6d6f7468,
        154 => 0x6e616d65,
        155 => 0x6e617679,
        156 => 0x6e656172,
        157 => 0x6e65636b,
        158 => 0x6e656564,
        159 => 0x6e657374,
        160 => 0x6e657473,
        161 => 0x6e6f6f6e,
        162 => 0x6e6f726d,
        163 => 0x6e6f7661,
        164 => 0x6e756c6c,
        165 => 0x6e756d62,
        166 => 0x6f617273,
        167 => 0x6f617468,
        168 => 0x6f646f72,
        169 => 0x6f677265,
        170 => 0x6f696c79,
        171 => 0x6f6d656e,
        172 => 0x6f726361,
        173 => 0x706f7274,
        174 => 0x706f7365,
        175 => 0x706f7572,
        176 => 0x70726179,
        177 => 0x7072696d,
        178 => 0x70726f64,
        179 => 0x70726f77,
        180 => 0x7075636b,
        181 => 0x70756666,
        182 => 0x70756c6c,
        183 => 0x70756c70,
        184 => 0x70756d61,
        185 => 0x70757368,
        186 => 0x71756164,
        187 => 0x71756179,
        188 => 0x71756970,
        189 => 0x7269736b,
        190 => 0x72757374,
        191 => 0x72757468,
        192 => 0x7361636b,
        193 => 0x73616761,
        194 => 0x73616e64,
        195 => 0x73616e67,
        196 => 0x73617665,
        197 => 0x73636162,
        198 => 0x7363616e,
        199 => 0x73636172,
        200 => 0x7365616c,
        201 => 0x7365616d,
        202 => 0x73656174,
        203 => 0x73657473,
        204 => 0x73686970,
        205 => 0x73686f77,
        206 => 0x73696768,
        207 => 0x73696c6f,
        208 => 0x73757266,
        209 => 0x73776179,
        210 => 0x74616273,
        211 => 0x7461636b,
        212 => 0x7461636f,
        213 => 0x74616374,
        214 => 0x7461696c,
        215 => 0x74617270,
        216 => 0x74617869,
        217 => 0x7465616d,
        218 => 0x74656172,
        219 => 0x74656e64,
        220 => 0x74686177,
        221 => 0x74686579,
        222 => 0x74757266,
        223 => 0x7475726e,
        224 => 0x74776967,
        225 => 0x74797065,
        226 => 0x75676c79,
        227 => 0x756e6974,
        228 => 0x756e746f,
        229 => 0x75706f6e,
        230 => 0x75726765,
        231 => 0x75736564,
        232 => 0x75736572,
        233 => 0x75736573,
        234 => 0x766f6964,
        235 => 0x766f6c65,
        236 => 0x766f6c74,
        237 => 0x766f7773,
        238 => 0x77616465,
        239 => 0x7761726e,
        240 => 0x77617270,
        241 => 0x77617368,
        242 => 0x77617679,
        243 => 0x77617973,
        244 => 0x77656172,
        245 => 0x7765656b,
        246 => 0x77656c6c,
        247 => 0x77656e74,
        248 => 0x7768696d,
        249 => 0x7768697a,
        250 => 0x77696c64,
        251 => 0x77696e67,
        252 => 0x79656c6c,
        253 => 0x79656c70,
        254 => 0x796f6761,
        255 => 0x7a6f6e65,
    }
}

/// The word for one byte.
pub fn byte_to_word(b: u8) -> (w: [u8; 4])
    ensures
        w@ == word_of(b),
{
    let c = lookup_word_code(b);
    let w: [u8; 4] = [
        (c / 0x1000000) as u8,
        (c / 0x10000 % 0x100) as u8,
        (c / 0x100 % 0x100) as u8,
        (c % 0x100) as u8,
    ];
    assert(w@ =~= word_of(b));
    w
}

/// The reverse-lookup index of a word whose first byte is `first` and last
/// byte is `last`.
pub fn hash_of(first: u8, last: u8) -> (h: u16)
    ensures
        h == word_hash(first, last),
        h < 1024,
{
    (first % 32) as u16 * 32 + (last % 32) as u16
}

/// The candidate byte stored under hash `h`.
pub fn lookup_candidate(h: u16) -> (b: u8)
    ensures
        b == candidate(h),
{
    match h {
        33 => 10,
        36 => 0,
        37 => 1,
        40 => 9,
        41 => 7,
        45 => 12,
        46 => 4,
        47 => 5,
        48 => 13,
        50 => 3,
        51 => 2,
        52 => 14,
        55 => 6,
        56 => 8,
        57 => 11,
        66 => 18,
        68 => 22,
        69 => 15,
        71 => 27,
        72 => 26,
        75 => 16,
        76 => 21,
        77 => 24,
        78 => 17,
        80 => 29,
        82 => 19,
        83 => 25,
        84 => 23,
        87 => 28,
        89 => 20,
        90 => 30,
        97 => 43,
        98 => 44,
        100 => 33,
        101 => 31,
        102 => 37,
        103 => 42,
        104 => 34,
        107 => 45,
        108 => 36,
        109 => 32,
        110 => 40,
        112 => 38,
        116 => 35,
        119 => 41,
        120 => 46,
        121 => 39,
        133 => 47,
        139 => 49,
        142 => 50,
        144 => 48,
        148 => 51,
        163 => 56,
        165 => 53,
        172 => 59,
        173 => 60,
        174 => 57,
        178 => 58,
        179 => 52,
        180 => 54,
        185 => 55,
        193 => 66,
        196 => 65,
        197 => 72,
        199 => 61,
        203 => 69,
        204 => 70,
        205 => 68,
        206 => 63,
        210 => 64,
        211 => 73,
        212 => 62,
        216 => 67,
        217 => 71,
        225 => 74,
        226 => 78,
        228 => 83,
        229 => 76,
        231 => 77,
        236 => 75,
        238 => 84,
        240 => 79,
        242 => 80,
        243 => 81,
        244 => 82,
        247 => 85,
        258 => 96,
        260 => 89,
        261 => 91,
        262 => 99,
        263 => 90,
        264 => 92,
        267 => 101,
        268 => 87,
        269 => 95,
        270 => 100,
        271 => 88,
        272 => 93,
        274 => 86,
        276 => 94,
        280 => 97,
        281 => 98,
        289 => 105,
        292 => 103,
        293 => 106,
        296 => 109,
        300 => 108,
        301 => 112,
        302 => 104,
        303 => 110,
        307 => 111,
        312 => 102,
        313 => 107,
        321 => 116,
        325 => 114,
        332 => 115,
        334 => 118,
        336 => 119,
        339 => 113,
        346 => 117,
        354 => 124,
        357 => 121,
        359 => 120,
        361 => 123,
        367 => 127,
        371 => 122,
        372 => 125,
        375 => 126,
        385 => 133,
        386 => 139,
        388 => 130,
        389 => 129,
        390 => 140,
        391 => 142,
        392 => 132,
        395 => 131,
        397 => 143,
        398 => 134,
        399 => 141,
        400 => 135,
        402 => 138,
        403 => 137,
        404 => 136,
        409 => 128,
        417 => 144,
        420 => 147,
        421 => 145,
        424 => 153,
        427 => 149,
        428 => 146,
        430 => 150,
        434 => 151,
        435 => 152,
        436 => 148,
        449 => 163,
        450 => 165,
        452 => 158,
        453 => 154,
        459 => 157,
        460 => 164,
        461 => 162,
        462 => 161,
        466 => 156,
        467 => 160,
        468 => 159,
        473 => 155,
        481 => 172,
        485 => 169,
        488 => 167,
        494 => 171,
        498 => 168,
        499 => 166,
        505 => 170,
        513 => 184,
        516 => 178,
        517 => 174,
        518 => 181,
        520 => 185,
        523 => 180,
        524 => 182,
        525 => 177,
        528 => 183,
        530 => 175,
        532 => 173,
        535 => 179,
        537 => 176,
        548 => 186,
        560 => 188,
        569 => 187,
        584 => 191,
        587 => 189,
        596 => 190,
        609 => 193,
        610 => 197,
        612 => 194,
        613 => 196,
        614 => 208,
        615 => 195,
        616 => 206,
        619 => 192,
        620 => 200,
        621 => 201,
        622 => 198,
        623 => 207,
        624 => 204,
        626 => 199,
        627 => 203,
        628 => 202,
        631 => 205,
        633 => 209,
        644 => 219,
        645 => 225,
        646 => 222,
        647 => 224,
        649 => 216,
        651 => 211,
        652 => 214,
        653 => 217,
        654 => 223,
        655 => 212,
        656 => 215,
        658 => 218,
        659 => 210,
        660 => 213,
        663 => 220,
        665 => 221,
        676 => 231,
        677 => 230,
        686 => 229,
        687 => 228,
        690 => 232,
        691 => 233,
        692 => 227,
        697 => 226,
        708 => 234,
        709 => 235,
        723 => 237,
        724 => 236,
        740 => 250,
        741 => 238,
        743 => 251,
        744 => 241,
        747 => 245,
        748 => 246,
        749 => 248,
        750 => 239,
        752 => 240,
        754 => 244,
        755 => 243,
        756 => 247,
        761 => 242,
        762 => 249,
        801 => 254,
        812 => 252,
        816 => 253,
        837 => 255,
        _ => 0,
    }
}

} // verus!
