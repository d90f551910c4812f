//! The 256-color palette: its indices, its names, and the words that denote
//! its colors.

use crate::text::{
    chars_of, decimal_byte, decimal_text, eq_nocase, is_plain, is_word, lemma_decimal_round_trip,
    lower, parse_decimal_byte, push_decimal, range_eq_nocase, strip_prefix_nocase, to_lower,
};
use crate::color::{Color, IntoColor};
use crate::style::{Style, StyleView};
use crate::ParseColorError;
use vstd::prelude::*;
use vstd::string::*;

verus! {

/// Colors in a 256-value (8-bit) palette
///
/// A `Color256` is read from a case-insensitive name (see
/// [`Color256::name()`]) or from a word of the form `color({index})`, and is
/// written as its lower-case name or, where it has none, as
/// `color({index})`.
#[derive(Clone, Copy, Debug, PartialEq, Eq, Structural, PartialOrd, Ord, Hash)]
pub struct Color256(pub u8);

/// The name of each color of the palette that has one.
pub open spec fn color_name(index: u8) -> Option<Seq<char>> {
    match index {
        0 => Some("black"@),
        1 => Some("red"@),
        2 => Some("green"@),
        3 => Some("yellow"@),
        4 => Some("blue"@),
        5 => Some("magenta"@),
        6 => Some("cyan"@),
        7 => Some("white"@),
        8 => Some("bright_black"@),
        9 => Some("bright_red"@),
        10 => Some("bright_green"@),
        11 => Some("bright_yellow"@),
        12 => Some("bright_blue"@),
        13 => Some("bright_magenta"@),
        14 => Some("bright_cyan"@),
        15 => Some("bright_white"@),
        16 => Some("gray0"@),
        17 => Some("navy_blue"@),
        18 => Some("dark_blue"@),
        19 => None,
        20 => Some("blue3"@),
        21 => Some("blue1"@),
        22 => Some("dark_green"@),
        23 => None,
        24 => None,
        25 => Some("deep_sky_blue4"@),
        26 => Some("dodger_blue3"@),
        27 => Some("dodger_blue2"@),
        28 => Some("green4"@),
        29 => Some("spring_green4"@),
        30 => Some("turquoise4"@),
        31 => None,
        32 => Some("deep_sky_blue3"@),
        33 => Some("dodger_blue1"@),
        34 => None,
        35 => None,
        36 => Some("dark_cyan"@),
        37 => Some("light_sea_green"@),
        38 => Some("deep_sky_blue2"@),
        39 => Some("deep_sky_blue1"@),
        40 => Some("green3"@),
        41 => Some("spring_green3"@),
        42 => None,
        43 => Some("cyan3"@),
        44 => Some("dark_turquoise"@),
        45 => Some("turquoise2"@),
        46 => Some("green1"@),
        47 => Some("spring_green2"@),
        48 => Some("spring_green1"@),
        49 => Some("medium_spring_green"@),
        50 => Some("cyan2"@),
        51 => Some("cyan1"@),
        52 => None,
        53 => None,
        54 => None,
        55 => Some("purple4"@),
        56 => Some("purple3"@),
        57 => Some("blue_violet"@),
        58 => None,
        59 => Some("gray37"@),
        60 => Some("medium_purple4"@),
        61 => None,
        62 => Some("slate_blue3"@),
        63 => Some("royal_blue1"@),
        64 => Some("chartreuse4"@),
        65 => None,
        66 => Some("pale_turquoise4"@),
        67 => Some("steel_blue"@),
        68 => Some("steel_blue3"@),
        69 => Some("cornflower_blue"@),
        70 => None,
        71 => Some("dark_sea_green4"@),
        72 => None,
        73 => Some("cadet_blue"@),
        74 => Some("sky_blue3"@),
        75 => None,
        76 => Some("chartreuse3"@),
        77 => None,
        78 => Some("sea_green3"@),
        79 => Some("aquamarine3"@),
        80 => Some("medium_turquoise"@),
        81 => Some("steel_blue1"@),
        82 => None,
        83 => Some("sea_green2"@),
        84 => None,
        85 => Some("sea_green1"@),
        86 => None,
        87 => Some("dark_slate_gray2"@),
        88 => Some("dark_red"@),
        89 => None,
        90 => None,
        91 => Some("dark_magenta"@),
        92 => None,
        93 => None,
        94 => Some("orange4"@),
        95 => Some("light_pink4"@),
        96 => Some("plum4"@),
        97 => None,
        98 => Some("medium_purple3"@),
        99 => Some("slate_blue1"@),
        100 => None,
        101 => Some("wheat4"@),
        102 => Some("gray53"@),
        103 => Some("light_slate_gray"@),
        104 => Some("medium_purple"@),
        105 => Some("light_slate_blue"@),
        106 => Some("yellow4"@),
        107 => None,
        108 => Some("dark_sea_green"@),
        109 => None,
        110 => Some("light_sky_blue3"@),
        111 => Some("sky_blue2"@),
        112 => Some("chartreuse2"@),
        113 => None,
        114 => Some("pale_green3"@),
        115 => None,
        116 => Some("dark_slate_gray3"@),
        117 => Some("sky_blue1"@),
        118 => Some("chartreuse1"@),
        119 => None,
        120 => Some("light_green"@),
        121 => None,
        122 => Some("aquamarine1"@),
        123 => Some("dark_slate_gray1"@),
        124 => None,
        125 => Some("deep_pink4"@),
        126 => Some("medium_violet_red"@),
        127 => None,
        128 => Some("dark_violet"@),
        129 => Some("purple"@),
        130 => None,
        131 => None,
        132 => None,
        133 => Some("medium_orchid3"@),
        134 => Some("medium_orchid"@),
        135 => None,
        136 => Some("dark_goldenrod"@),
        137 => None,
        138 => Some("rosy_brown"@),
        139 => Some("gray63"@),
        140 => Some("medium_purple2"@),
        141 => Some("medium_purple1"@),
        142 => None,
        143 => Some("dark_khaki"@),
        144 => Some("navajo_white3"@),
        145 => Some("gray69"@),
        146 => Some("light_steel_blue3"@),
        147 => Some("light_steel_blue"@),
        148 => None,
        149 => Some("dark_olive_green3"@),
        150 => Some("dark_sea_green3"@),
        151 => None,
        152 => Some("light_cyan3"@),
        153 => Some("light_sky_blue1"@),
        154 => Some("green_yellow"@),
        155 => Some("dark_olive_green2"@),
        156 => Some("pale_green1"@),
        157 => Some("dark_sea_green2"@),
        158 => None,
        159 => Some("pale_turquoise1"@),
        160 => Some("red3"@),
        161 => None,
        162 => Some("deep_pink3"@),
        163 => None,
        164 => Some("magenta3"@),
        165 => None,
        166 => Some("dark_orange3"@),
        167 => Some("indian_red"@),
        168 => Some("hot_pink3"@),
        169 => Some("hot_pink2"@),
        170 => Some("orchid"@),
        171 => None,
        172 => Some("orange3"@),
        173 => Some("light_salmon3"@),
        174 => Some("light_pink3"@),
        175 => Some("pink3"@),
        176 => Some("plum3"@),
        177 => Some("violet"@),
        178 => Some("gold3"@),
        179 => Some("light_goldenrod3"@),
        180 => Some("tan"@),
        181 => Some("misty_rose3"@),
        182 => Some("thistle3"@),
        183 => Some("plum2"@),
        184 => Some("yellow3"@),
        185 => Some("khaki3"@),
        186 => None,
        187 => Some("light_yellow3"@),
        188 => Some("gray84"@),
        189 => Some("light_steel_blue1"@),
        190 => Some("yellow2"@),
        191 => None,
        192 => Some("dark_olive_green1"@),
        193 => Some("dark_sea_green1"@),
        194 => Some("honeydew2"@),
        195 => Some("light_cyan1"@),
        196 => Some("red1"@),
        197 => Some("deep_pink2"@),
        198 => None,
        199 => Some("deep_pink1"@),
        200 => Some("magenta2"@),
        201 => Some("magenta1"@),
        202 => Some("orange_red1"@),
        203 => None,
        204 => Some("indian_red1"@),
        205 => None,
        206 => Some("hot_pink"@),
        207 => Some("medium_orchid1"@),
        208 => Some("dark_orange"@),
        209 => Some("salmon1"@),
        210 => Some("light_coral"@),
        211 => Some("pale_violet_red1"@),
        212 => Some("orchid2"@),
        213 => Some("orchid1"@),
        214 => Some("orange1"@),
        215 => Some("sandy_brown"@),
        216 => Some("light_salmon1"@),
        217 => Some("light_pink1"@),
        218 => Some("pink1"@),
        219 => Some("plum1"@),
        220 => Some("gold1"@),
        221 => None,
        222 => Some("light_goldenrod2"@),
        223 => Some("navajo_white1"@),
        224 => Some("misty_rose1"@),
        225 => Some("thistle1"@),
        226 => Some("yellow1"@),
        227 => Some("light_goldenrod1"@),
        228 => Some("khaki1"@),
        229 => Some("wheat1"@),
        230 => Some("cornsilk1"@),
        231 => Some("gray100"@),
        232 => Some("gray3"@),
        233 => Some("gray7"@),
        234 => Some("gray11"@),
        235 => Some("gray15"@),
        236 => Some("gray19"@),
        237 => Some("gray23"@),
        238 => Some("gray27"@),
        239 => Some("gray30"@),
        240 => Some("gray35"@),
        241 => Some("gray39"@),
        242 => Some("gray42"@),
        243 => Some("gray46"@),
        244 => Some("gray50"@),
        245 => Some("gray54"@),
        246 => Some("gray58"@),
        247 => Some("gray62"@),
        248 => Some("gray66"@),
        249 => Some("gray70"@),
        250 => Some("gray74"@),
        251 => Some("gray78"@),
        252 => Some("gray82"@),
        253 => Some("gray85"@),
        254 => Some("gray89"@),
        255 => Some("gray93"@),
    }
}

/// The second spelling, with "grey" for "gray", of the names that have one.
pub open spec fn color_alias(index: u8) -> Option<Seq<char>> {
    match index {
        16 => Some("grey0"@),
        59 => Some("grey37"@),
        102 => Some("grey53"@),
        103 => Some("light_slate_grey"@),
        139 => Some("grey63"@),
        145 => Some("grey69"@),
        188 => Some("grey84"@),
        231 => Some("grey100"@),
        232 => Some("grey3"@),
        233 => Some("grey7"@),
        234 => Some("grey11"@),
        235 => Some("grey15"@),
        236 => Some("grey19"@),
        237 => Some("grey23"@),
        238 => Some("grey27"@),
        239 => Some("grey30"@),
        240 => Some("grey35"@),
        241 => Some("grey39"@),
        242 => Some("grey42"@),
        243 => Some("grey46"@),
        244 => Some("grey50"@),
        245 => Some("grey54"@),
        246 => Some("grey58"@),
        247 => Some("grey62"@),
        248 => Some("grey66"@),
        249 => Some("grey70"@),
        250 => Some("grey74"@),
        251 => Some("grey78"@),
        252 => Some("grey82"@),
        253 => Some("grey85"@),
        254 => Some("grey89"@),
        255 => Some("grey93"@),
        _ => None,
    }
}

/// The color `index` goes by the word `s`: up to ASCII case, `s` is its name
/// or the second spelling of its name.
pub open spec fn is_called(index: u8, s: Seq<char>) -> bool {
    ||| color_name(index) matches Some(n) && eq_nocase(s, n)
    ||| color_alias(index) matches Some(n) && eq_nocase(s, n)
}

/// The key under which a word is looked up among the names: its length and,
/// in lower case, its first, last, last but one and seventh from last
/// characters, with `'-'` where the word is too short to have one.
pub open spec fn name_key(s: Seq<char>) -> (usize, char, char, char, char) {
    let n = s.len() as int;
    (
        n as usize,
        if n >= 1 {
            lower(s[0])
        } else {
            '-'
        },
        if n >= 1 {
            lower(s[n - 1])
        } else {
            '-'
        },
        if n >= 2 {
            lower(s[n - 2])
        } else {
            '-'
        },
        if n >= 7 {
            lower(s[n - 7])
        } else {
            '-'
        },
    )
}

/// The color whose name or second spelling has the given key. No two colors
/// share a key.
pub open spec fn key_index(key: (usize, char, char, char, char)) -> Option<u8> {
    match key {
        (5, 'b', 'k', 'c', '-') => Some(0),
        (3, 'r', 'd', 'e', '-') => Some(1),
        (5, 'g', 'n', 'e', '-') => Some(2),
        (6, 'y', 'w', 'o', '-') => Some(3),
        (4, 'b', 'e', 'u', '-') => Some(4),
        (7, 'm', 'a', 't', 'm') => Some(5),
        (4, 'c', 'n', 'a', '-') => Some(6),
        (5, 'w', 'e', 't', '-') => Some(7),
        (12, 'b', 'k', 'c', 't') => Some(8),
        (10, 'b', 'd', 'e', 'g') => Some(9),
        (12, 'b', 'n', 'e', 't') => Some(10),
        (13, 'b', 'w', 'o', '_') => Some(11),
        (11, 'b', 'e', 'u', 'h') => Some(12),
        (14, 'b', 'a', 't', 'm') => Some(13),
        (11, 'b', 'n', 'a', 'h') => Some(14),
        (12, 'b', 'e', 't', 't') => Some(15),
        (5, 'g', '0', 'y', '-') => Some(16),
        (9, 'n', 'e', 'u', 'v') => Some(17),
        (9, 'd', 'e', 'u', 'r') => Some(18),
        (5, 'b', '3', 'e', '-') => Some(20),
        (5, 'b', '1', 'e', '-') => Some(21),
        (10, 'd', 'n', 'e', 'k') => Some(22),
        (14, 'd', '4', 'e', 'y') => Some(25),
        (12, 'd', '3', 'e', 'r') => Some(26),
        (12, 'd', '2', 'e', 'r') => Some(27),
        (6, 'g', '4', 'n', '-') => Some(28),
        (13, 's', '4', 'n', '_') => Some(29),
        (10, 't', '4', 'e', 'q') => Some(30),
        (14, 'd', '3', 'e', 'y') => Some(32),
        (12, 'd', '1', 'e', 'r') => Some(33),
        (9, 'd', 'n', 'a', 'r') => Some(36),
        (15, 'l', 'n', 'e', 'a') => Some(37),
        (14, 'd', '2', 'e', 'y') => Some(38),
        (14, 'd', '1', 'e', 'y') => Some(39),
        (6, 'g', '3', 'n', '-') => Some(40),
        (13, 's', '3', 'n', '_') => Some(41),
        (5, 'c', '3', 'n', '-') => Some(43),
        (14, 'd', 'e', 's', 'r') => Some(44),
        (10, 't', '2', 'e', 'q') => Some(45),
        (6, 'g', '1', 'n', '-') => Some(46),
        (13, 's', '2', 'n', '_') => Some(47),
        (13, 's', '1', 'n', '_') => Some(48),
        (19, 'm', 'n', 'e', 'g') => Some(49),
        (5, 'c', '2', 'n', '-') => Some(50),
        (5, 'c', '1', 'n', '-') => Some(51),
        (7, 'p', '4', 'e', 'p') => Some(55),
        (7, 'p', '3', 'e', 'p') => Some(56),
        (11, 'b', 't', 'e', '_') => Some(57),
        (6, 'g', '7', '3', '-') => Some(59),
        (14, 'm', '4', 'e', 'p') => Some(60),
        (11, 's', '3', 'e', 'e') => Some(62),
        (11, 'r', '1', 'e', 'l') => Some(63),
        (11, 'c', '4', 'e', 't') => Some(64),
        (15, 'p', '4', 'e', 'q') => Some(66),
        (10, 's', 'e', 'u', 'e') => Some(67),
        (11, 's', '3', 'e', 'l') => Some(68),
        (15, 'c', 'e', 'u', 'e') => Some(69),
        (15, 'd', '4', 'n', '_') => Some(71),
        (10, 'c', 'e', 'u', 'e') => Some(73),
        (9, 's', '3', 'e', 'y') => Some(74),
        (11, 'c', '3', 'e', 't') => Some(76),
        (10, 's', '3', 'n', '_') => Some(78),
        (11, 'a', '3', 'e', 'm') => Some(79),
        (16, 'm', 'e', 's', 'r') => Some(80),
        (11, 's', '1', 'e', 'l') => Some(81),
        (10, 's', '2', 'n', '_') => Some(83),
        (10, 's', '1', 'n', '_') => Some(85),
        (16, 'd', '2', 'y', 'e') => Some(87),
        (8, 'd', 'd', 'e', 'a') => Some(88),
        (12, 'd', 'a', 't', 'm') => Some(91),
        (7, 'o', '4', 'e', 'o') => Some(94),
        (11, 'l', '4', 'k', 't') => Some(95),
        (5, 'p', '4', 'm', '-') => Some(96),
        (14, 'm', '3', 'e', 'p') => Some(98),
        (11, 's', '1', 'e', 'e') => Some(99),
        (6, 'w', '4', 't', '-') => Some(101),
        (6, 'g', '3', '5', '-') => Some(102),
        (16, 'l', 'y', 'a', 't') => Some(103),
        (16, 'l', 'y', 'e', 't') => Some(103),
        (13, 'm', 'e', 'l', '_') => Some(104),
        (16, 'l', 'e', 'u', 't') => Some(105),
        (7, 'y', '4', 'w', 'y') => Some(106),
        (14, 'd', 'n', 'e', 'a') => Some(108),
        (15, 'l', '3', 'e', 'y') => Some(110),
        (9, 's', '2', 'e', 'y') => Some(111),
        (11, 'c', '2', 'e', 't') => Some(112),
        (11, 'p', '3', 'n', '_') => Some(114),
        (16, 'd', '3', 'y', 'e') => Some(116),
        (9, 's', '1', 'e', 'y') => Some(117),
        (11, 'c', '1', 'e', 't') => Some(118),
        (11, 'l', 'n', 'e', 't') => Some(120),
        (11, 'a', '1', 'e', 'm') => Some(122),
        (16, 'd', '1', 'y', 'e') => Some(123),
        (10, 'd', '4', 'k', 'p') => Some(125),
        (17, 'm', 'd', 'e', 'l') => Some(126),
        (11, 'd', 't', 'e', '_') => Some(128),
        (6, 'p', 'e', 'l', '-') => Some(129),
        (14, 'm', '3', 'd', 'o') => Some(133),
        (13, 'm', 'd', 'i', '_') => Some(134),
        (14, 'd', 'd', 'o', 'l') => Some(136),
        (10, 'r', 'n', 'w', 'y') => Some(138),
        (6, 'g', '3', '6', '-') => Some(139),
        (14, 'm', '2', 'e', 'p') => Some(140),
        (14, 'm', '1', 'e', 'p') => Some(141),
        (10, 'd', 'i', 'k', 'k') => Some(143),
        (13, 'n', '3', 'e', '_') => Some(144),
        (6, 'g', '9', '6', '-') => Some(145),
        (17, 'l', '3', 'e', 'l') => Some(146),
        (16, 'l', 'e', 'u', 'e') => Some(147),
        (17, 'd', '3', 'n', '_') => Some(149),
        (15, 'd', '3', 'n', '_') => Some(150),
        (11, 'l', '3', 'n', 't') => Some(152),
        (15, 'l', '1', 'e', 'y') => Some(153),
        (12, 'g', 'w', 'o', '_') => Some(154),
        (17, 'd', '2', 'n', '_') => Some(155),
        (11, 'p', '1', 'n', '_') => Some(156),
        (15, 'd', '2', 'n', '_') => Some(157),
        (15, 'p', '1', 'e', 'q') => Some(159),
        (4, 'r', '3', 'd', '-') => Some(160),
        (10, 'd', '3', 'k', 'p') => Some(162),
        (8, 'm', '3', 'a', 'a') => Some(164),
        (12, 'd', '3', 'e', 'o') => Some(166),
        (10, 'i', 'd', 'e', 'i') => Some(167),
        (9, 'h', '3', 'k', 't') => Some(168),
        (9, 'h', '2', 'k', 't') => Some(169),
        (6, 'o', 'd', 'i', '-') => Some(170),
        (7, 'o', '3', 'e', 'o') => Some(172),
        (13, 'l', '3', 'n', 's') => Some(173),
        (11, 'l', '3', 'k', 't') => Some(174),
        (5, 'p', '3', 'k', '-') => Some(175),
        (5, 'p', '3', 'm', '-') => Some(176),
        (6, 'v', 't', 'e', '-') => Some(177),
        (5, 'g', '3', 'd', '-') => Some(178),
        (16, 'l', '3', 'd', 'd') => Some(179),
        (3, 't', 'n', 'a', '-') => Some(180),
        (11, 'm', '3', 'e', 'y') => Some(181),
        (8, 't', '3', 'e', 'h') => Some(182),
        (5, 'p', '2', 'm', '-') => Some(183),
        (7, 'y', '3', 'w', 'y') => Some(184),
        (6, 'k', '3', 'i', '-') => Some(185),
        (13, 'l', '3', 'w', 'y') => Some(187),
        (6, 'g', '4', '8', '-') => Some(188),
        (17, 'l', '1', 'e', 'l') => Some(189),
        (7, 'y', '2', 'w', 'y') => Some(190),
        (17, 'd', '1', 'n', '_') => Some(192),
        (15, 'd', '1', 'n', '_') => Some(193),
        (9, 'h', '2', 'w', 'n') => Some(194),
        (11, 'l', '1', 'n', 't') => Some(195),
        (4, 'r', '1', 'd', '-') => Some(196),
        (10, 'd', '2', 'k', 'p') => Some(197),
        (10, 'd', '1', 'k', 'p') => Some(199),
        (8, 'm', '2', 'a', 'a') => Some(200),
        (8, 'm', '1', 'a', 'a') => Some(201),
        (11, 'o', '1', 'd', 'g') => Some(202),
        (11, 'i', '1', 'd', 'a') => Some(204),
        (8, 'h', 'k', 'n', 'o') => Some(206),
        (14, 'm', '1', 'd', 'o') => Some(207),
        (11, 'd', 'e', 'g', '_') => Some(208),
        (7, 's', '1', 'n', 's') => Some(209),
        (11, 'l', 'l', 'a', 't') => Some(210),
        (16, 'p', '1', 'd', 'e') => Some(211),
        (7, 'o', '2', 'd', 'o') => Some(212),
        (7, 'o', '1', 'd', 'o') => Some(213),
        (7, 'o', '1', 'e', 'o') => Some(214),
        (11, 's', 'n', 'w', 'y') => Some(215),
        (13, 'l', '1', 'n', 's') => Some(216),
        (11, 'l', '1', 'k', 't') => Some(217),
        (5, 'p', '1', 'k', '-') => Some(218),
        (5, 'p', '1', 'm', '-') => Some(219),
        (5, 'g', '1', 'd', '-') => Some(220),
        (16, 'l', '2', 'd', 'd') => Some(222),
        (13, 'n', '1', 'e', '_') => Some(223),
        (11, 'm', '1', 'e', 'y') => Some(224),
        (8, 't', '1', 'e', 'h') => Some(225),
        (7, 'y', '1', 'w', 'y') => Some(226),
        (16, 'l', '1', 'd', 'd') => Some(227),
        (6, 'k', '1', 'i', '-') => Some(228),
        (6, 'w', '1', 't', '-') => Some(229),
        (9, 'c', '1', 'k', 'r') => Some(230),
        (7, 'g', '0', '0', 'g') => Some(231),
        (5, 'g', '3', 'y', '-') => Some(232),
        (5, 'g', '7', 'y', '-') => Some(233),
        (6, 'g', '1', '1', '-') => Some(234),
        (6, 'g', '5', '1', '-') => Some(235),
        (6, 'g', '9', '1', '-') => Some(236),
        (6, 'g', '3', '2', '-') => Some(237),
        (6, 'g', '7', '2', '-') => Some(238),
        (6, 'g', '0', '3', '-') => Some(239),
        (6, 'g', '5', '3', '-') => Some(240),
        (6, 'g', '9', '3', '-') => Some(241),
        (6, 'g', '2', '4', '-') => Some(242),
        (6, 'g', '6', '4', '-') => Some(243),
        (6, 'g', '0', '5', '-') => Some(244),
        (6, 'g', '4', '5', '-') => Some(245),
        (6, 'g', '8', '5', '-') => Some(246),
        (6, 'g', '2', '6', '-') => Some(247),
        (6, 'g', '6', '6', '-') => Some(248),
        (6, 'g', '0', '7', '-') => Some(249),
        (6, 'g', '4', '7', '-') => Some(250),
        (6, 'g', '8', '7', '-') => Some(251),
        (6, 'g', '2', '8', '-') => Some(252),
        (6, 'g', '5', '8', '-') => Some(253),
        (6, 'g', '9', '8', '-') => Some(254),
        (6, 'g', '3', '9', '-') => Some(255),
        _ => None,
    }
}

/// The name and the second spelling of `index` are made of lower-case
/// letters, digits and `_`, and are filed under keys that lead back to
/// `index`.
pub open spec fn keyed(index: u8) -> bool {
    &&& color_name(index) matches Some(n) ==> is_word(n) && key_index(name_key(n)) == Some(index)
    &&& color_alias(index) matches Some(n) ==> is_word(n) && key_index(name_key(n)) == Some(
        index,
    )
}

/// The names of the colors from 0 to 31 are found again under their
/// keys.
proof fn lemma_keyed_from_0(index: u8)
    requires
        0 <= index < 32,
    ensures
        keyed(index),
{
    reveal_strlit("black");
    reveal_strlit("red");
    reveal_strlit("green");
    reveal_strlit("yellow");
    reveal_strlit("blue");
    reveal_strlit("magenta");
    reveal_strlit("cyan");
    reveal_strlit("white");
    reveal_strlit("bright_black");
    reveal_strlit("bright_red");
    reveal_strlit("bright_green");
    reveal_strlit("bright_yellow");
    reveal_strlit("bright_blue");
    reveal_strlit("bright_magenta");
    reveal_strlit("bright_cyan");
    reveal_strlit("bright_white");
    reveal_strlit("gray0");
    reveal_strlit("grey0");
    reveal_strlit("navy_blue");
    reveal_strlit("dark_blue");
    reveal_strlit("blue3");
    reveal_strlit("blue1");
    reveal_strlit("dark_green");
    reveal_strlit("deep_sky_blue4");
    reveal_strlit("dodger_blue3");
    reveal_strlit("dodger_blue2");
    reveal_strlit("green4");
    reveal_strlit("spring_green4");
    reveal_strlit("turquoise4");
}

/// The names of the colors from 32 to 63 are found again under their
/// keys.
proof fn lemma_keyed_from_32(index: u8)
    requires
        32 <= index < 64,
    ensures
        keyed(index),
{
    reveal_strlit("deep_sky_blue3");
    reveal_strlit("dodger_blue1");
    reveal_strlit("dark_cyan");
    reveal_strlit("light_sea_green");
    reveal_strlit("deep_sky_blue2");
    reveal_strlit("deep_sky_blue1");
    reveal_strlit("green3");
    reveal_strlit("spring_green3");
    reveal_strlit("cyan3");
    reveal_strlit("dark_turquoise");
    reveal_strlit("turquoise2");
    reveal_strlit("green1");
    reveal_strlit("spring_green2");
    reveal_strlit("spring_green1");
    reveal_strlit("medium_spring_green");
    reveal_strlit("cyan2");
    reveal_strlit("cyan1");
    reveal_strlit("purple4");
    reveal_strlit("purple3");
    reveal_strlit("blue_violet");
    reveal_strlit("gray37");
    reveal_strlit("grey37");
    reveal_strlit("medium_purple4");
    reveal_strlit("slate_blue3");
    reveal_strlit("royal_blue1");
}

/// The names of the colors from 64 to 95 are found again under their
/// keys.
proof fn lemma_keyed_from_64(index: u8)
    requires
        64 <= index < 96,
    ensures
        keyed(index),
{
    reveal_strlit("chartreuse4");
    reveal_strlit("pale_turquoise4");
    reveal_strlit("steel_blue");
    reveal_strlit("steel_blue3");
    reveal_strlit("cornflower_blue");
    reveal_strlit("dark_sea_green4");
    reveal_strlit("cadet_blue");
    reveal_strlit("sky_blue3");
    reveal_strlit("chartreuse3");
    reveal_strlit("sea_green3");
    reveal_strlit("aquamarine3");
    reveal_strlit("medium_turquoise");
    reveal_strlit("steel_blue1");
    reveal_strlit("sea_green2");
    reveal_strlit("sea_green1");
    reveal_strlit("dark_slate_gray2");
    reveal_strlit("dark_red");
    reveal_strlit("dark_magenta");
    reveal_strlit("orange4");
    reveal_strlit("light_pink4");
}

/// The names of the colors from 96 to 127 are found again under their
/// keys.
proof fn lemma_keyed_from_96(index: u8)
    requires
        96 <= index < 128,
    ensures
        keyed(index),
{
    reveal_strlit("plum4");
    reveal_strlit("medium_purple3");
    reveal_strlit("slate_blue1");
    reveal_strlit("wheat4");
    reveal_strlit("gray53");
    reveal_strlit("grey53");
    reveal_strlit("light_slate_gray");
    reveal_strlit("light_slate_grey");
    reveal_strlit("medium_purple");
    reveal_strlit("light_slate_blue");
    reveal_strlit("yellow4");
    reveal_strlit("dark_sea_green");
    reveal_strlit("light_sky_blue3");
    reveal_strlit("sky_blue2");
    reveal_strlit("chartreuse2");
    reveal_strlit("pale_green3");
    reveal_strlit("dark_slate_gray3");
    reveal_strlit("sky_blue1");
    reveal_strlit("chartreuse1");
    reveal_strlit("light_green");
    reveal_strlit("aquamarine1");
    reveal_strlit("dark_slate_gray1");
    reveal_strlit("deep_pink4");
    reveal_strlit("medium_violet_red");
}

/// The names of the colors from 128 to 159 are found again under their
/// keys.
proof fn lemma_keyed_from_128(index: u8)
    requires
        128 <= index < 160,
    ensures
        keyed(index),
{
    reveal_strlit("dark_violet");
    reveal_strlit("purple");
    reveal_strlit("medium_orchid3");
    reveal_strlit("medium_orchid");
    reveal_strlit("dark_goldenrod");
    reveal_strlit("rosy_brown");
    reveal_strlit("gray63");
    reveal_strlit("grey63");
    reveal_strlit("medium_purple2");
    reveal_strlit("medium_purple1");
    reveal_strlit("dark_khaki");
    reveal_strlit("navajo_white3");
    reveal_strlit("gray69");
    reveal_strlit("grey69");
    reveal_strlit("light_steel_blue3");
    reveal_strlit("light_steel_blue");
    reveal_strlit("dark_olive_green3");
    reveal_strlit("dark_sea_green3");
    reveal_strlit("light_cyan3");
    reveal_strlit("light_sky_blue1");
    reveal_strlit("green_yellow");
    reveal_strlit("dark_olive_green2");
    reveal_strlit("pale_green1");
    reveal_strlit("dark_sea_green2");
    reveal_strlit("pale_turquoise1");
}

/// The names of the colors from 160 to 191 are found again under their
/// keys.
proof fn lemma_keyed_from_160(index: u8)
    requires
        160 <= index < 192,
    ensures
        keyed(index),
{
    reveal_strlit("red3");
    reveal_strlit("deep_pink3");
    reveal_strlit("magenta3");
    reveal_strlit("dark_orange3");
    reveal_strlit("indian_red");
    reveal_strlit("hot_pink3");
    reveal_strlit("hot_pink2");
    reveal_strlit("orchid");
    reveal_strlit("orange3");
    reveal_strlit("light_salmon3");
    reveal_strlit("light_pink3");
    reveal_strlit("pink3");
    reveal_strlit("plum3");
    reveal_strlit("violet");
    reveal_strlit("gold3");
    reveal_strlit("light_goldenrod3");
    reveal_strlit("tan");
    reveal_strlit("misty_rose3");
    reveal_strlit("thistle3");
    reveal_strlit("plum2");
    reveal_strlit("yellow3");
    reveal_strlit("khaki3");
    reveal_strlit("light_yellow3");
    reveal_strlit("gray84");
    reveal_strlit("grey84");
    reveal_strlit("light_steel_blue1");
    reveal_strlit("yellow2");
}

/// The names of the colors from 192 to 223 are found again under their
/// keys.
proof fn lemma_keyed_from_192(index: u8)
    requires
        192 <= index < 224,
    ensures
        keyed(index),
{
    reveal_strlit("dark_olive_green1");
    reveal_strlit("dark_sea_green1");
    reveal_strlit("honeydew2");
    reveal_strlit("light_cyan1");
    reveal_strlit("red1");
    reveal_strlit("deep_pink2");
    reveal_strlit("deep_pink1");
    reveal_strlit("magenta2");
    reveal_strlit("magenta1");
    reveal_strlit("orange_red1");
    reveal_strlit("indian_red1");
    reveal_strlit("hot_pink");
    reveal_strlit("medium_orchid1");
    reveal_strlit("dark_orange");
    reveal_strlit("salmon1");
    reveal_strlit("light_coral");
    reveal_strlit("pale_violet_red1");
    reveal_strlit("orchid2");
    reveal_strlit("orchid1");
    reveal_strlit("orange1");
    reveal_strlit("sandy_brown");
    reveal_strlit("light_salmon1");
    reveal_strlit("light_pink1");
    reveal_strlit("pink1");
    reveal_strlit("plum1");
    reveal_strlit("gold1");
    reveal_strlit("light_goldenrod2");
    reveal_strlit("navajo_white1");
}

/// The names of the colors from 224 to 255 are found again under their
/// keys.
proof fn lemma_keyed_from_224(index: u8)
    requires
        224 <= index,
    ensures
        keyed(index),
{
    reveal_strlit("misty_rose1");
    reveal_strlit("thistle1");
    reveal_strlit("yellow1");
    reveal_strlit("light_goldenrod1");
    reveal_strlit("khaki1");
    reveal_strlit("wheat1");
    reveal_strlit("cornsilk1");
    reveal_strlit("gray100");
    reveal_strlit("grey100");
    reveal_strlit("gray3");
    reveal_strlit("grey3");
    reveal_strlit("gray7");
    reveal_strlit("grey7");
    reveal_strlit("gray11");
    reveal_strlit("grey11");
    reveal_strlit("gray15");
    reveal_strlit("grey15");
    reveal_strlit("gray19");
    reveal_strlit("grey19");
    reveal_strlit("gray23");
    reveal_strlit("grey23");
    reveal_strlit("gray27");
    reveal_strlit("grey27");
    reveal_strlit("gray30");
    reveal_strlit("grey30");
    reveal_strlit("gray35");
    reveal_strlit("grey35");
    reveal_strlit("gray39");
    reveal_strlit("grey39");
    reveal_strlit("gray42");
    reveal_strlit("grey42");
    reveal_strlit("gray46");
    reveal_strlit("grey46");
    reveal_strlit("gray50");
    reveal_strlit("grey50");
    reveal_strlit("gray54");
    reveal_strlit("grey54");
    reveal_strlit("gray58");
    reveal_strlit("grey58");
    reveal_strlit("gray62");
    reveal_strlit("grey62");
    reveal_strlit("gray66");
    reveal_strlit("grey66");
    reveal_strlit("gray70");
    reveal_strlit("grey70");
    reveal_strlit("gray74");
    reveal_strlit("grey74");
    reveal_strlit("gray78");
    reveal_strlit("grey78");
    reveal_strlit("gray82");
    reveal_strlit("grey82");
    reveal_strlit("gray85");
    reveal_strlit("grey85");
    reveal_strlit("gray89");
    reveal_strlit("grey89");
    reveal_strlit("gray93");
    reveal_strlit("grey93");
}

/// Every name of the palette is made of lower-case letters, digits and `_`,
/// and is found again under its key.
pub proof fn lemma_keyed(index: u8)
    ensures
        keyed(index),
{
    if index < 32 {
        lemma_keyed_from_0(index);
    } else if index < 64 {
        lemma_keyed_from_32(index);
    } else if index < 96 {
        lemma_keyed_from_64(index);
    } else if index < 128 {
        lemma_keyed_from_96(index);
    } else if index < 160 {
        lemma_keyed_from_128(index);
    } else if index < 192 {
        lemma_keyed_from_160(index);
    } else if index < 224 {
        lemma_keyed_from_192(index);
    } else {
        lemma_keyed_from_224(index);
    }
}

/// Words that are equal up to ASCII case have the same key.
pub proof fn lemma_key_nocase(s: Seq<char>, t: Seq<char>)
    requires
        eq_nocase(s, t),
    ensures
        name_key(s) == name_key(t),
{
}

/// A word by which a color goes leads to that color through its key.
pub proof fn lemma_called_key(index: u8, s: Seq<char>)
    requires
        is_called(index, s),
    ensures
        key_index(name_key(s)) == Some(index),
{
    lemma_keyed(index);
    if color_name(index) is Some && eq_nocase(s, color_name(index)->0) {
        lemma_key_nocase(s, color_name(index)->0);
    } else {
        lemma_key_nocase(s, color_alias(index)->0);
    }
}

/// No word is the name of two colors.
pub proof fn lemma_called_unique(i: u8, j: u8, s: Seq<char>)
    requires
        is_called(i, s),
        is_called(j, s),
    ensures
        i == j,
{
    lemma_called_key(i, s);
    lemma_called_key(j, s);
}

/// A word that has the key of no name is the name of no color.
pub proof fn lemma_no_key_no_color(s: Seq<char>)
    requires
        key_index(name_key(s)) is None,
    ensures
        Color256::called(s) is None,
{
    assert forall|i: u8| !is_called(i, s) by {
        if is_called(i, s) {
            lemma_called_key(i, s);
        }
    }
}

/// The color that goes by its own name is that color.
pub proof fn lemma_called_by_name(index: u8)
    requires
        color_name(index) is Some,
    ensures
        Color256::called(color_name(index)->0) == Some(Color256(index)),
{
    let n = color_name(index)->0;
    assert(is_called(index, n));
    let j = choose|i: u8| is_called(i, n);
    lemma_called_unique(j, index, n);
}

/// The canonical word of a color is a plain word, is none of `default`,
/// `none`, `on` and `not`, and denotes the color.
pub proof fn lemma_color256_round_trip(c: Color256)
    ensures
        Color256::from_text(c.text()) == Some(c),
        is_plain(c.text()),
        !eq_nocase(c.text(), "default"@),
        !eq_nocase(c.text(), "none"@),
        !eq_nocase(c.text(), "on"@),
        !eq_nocase(c.text(), "not"@),
{
    reveal_strlit("default");
    reveal_strlit("none");
    reveal_strlit("on");
    reveal_strlit("not");
    let t = c.text();
    match color_name(c.0) {
        Some(n) => {
            lemma_keyed(c.0);
            lemma_called_by_name(c.0);
            if eq_nocase(n, "default"@) {
                lemma_key_nocase(n, "default"@);
            }
            if eq_nocase(n, "none"@) {
                lemma_key_nocase(n, "none"@);
            }
            if eq_nocase(n, "on"@) {
                lemma_key_nocase(n, "on"@);
            }
            if eq_nocase(n, "not"@) {
                lemma_key_nocase(n, "not"@);
            }
        },
        None => {
            reveal_strlit("color(");
            reveal_strlit(")");
            let d = decimal_text(c.0 as nat);
            lemma_decimal_round_trip(c.0);
            assert(t.len() == 7 + d.len());
            assert(forall|k: int| 0 <= k < 6 ==> t[k] == "color("@[k]);
            assert(forall|k: int| 6 <= k < 6 + d.len() ==> t[k] == d[k - 6]);
            assert(t[t.len() - 1] == ')');
            assert(t.subrange(0, 6) =~= "color("@);
            let rest = t.subrange(6, t.len() as int);
            assert(rest.last() == ')');
            assert(rest.drop_last() =~= d);
            lemma_no_key_no_color(t);
        },
    }
}

impl Color256 {
    /// The color that goes by the word `s`, if there is one.
    pub open spec fn called(s: Seq<char>) -> Option<Color256> {
        if exists|i: u8| is_called(i, s) {
            Some(Color256(choose|i: u8| is_called(i, s)))
        } else {
            None
        }
    }

    /// The color that a word of the form `color(N)` denotes: `color(` in any
    /// ASCII case, a decimal numeral of at most 255, and `)`.
    pub open spec fn indexed(s: Seq<char>) -> Option<Color256> {
        match strip_prefix_nocase(s, "color("@) {
            Some(rest) => if rest.len() > 0 && rest.last() == ')' {
                match decimal_byte(rest.drop_last()) {
                    Some(n) => Some(Color256(n)),
                    None => None,
                }
            } else {
                None
            },
            None => None,
        }
    }

    /// The color that a word denotes: by name first, else by index.
    pub open spec fn from_text(s: Seq<char>) -> Option<Color256> {
        match Color256::called(s) {
            Some(c) => Some(c),
            None => Color256::indexed(s),
        }
    }

    /// The canonical word for the color: its name or, where it has none,
    /// `color(N)` with its index.
    pub open spec fn text(self) -> Seq<char> {
        match color_name(self.0) {
            Some(n) => n,
            None => "color("@ + decimal_text(self.0 as nat) + ")"@,
        }
    }

    /// Color 0
    #[allow(non_snake_case)]
    pub fn BLACK() -> (c: Color256)
        ensures
            c == Color256(0),
    {
        Color256(0)
    }

    /// Color 1, also known as "dark red"
    #[allow(non_snake_case)]
    pub fn RED() -> (c: Color256)
        ensures
            c == Color256(1),
    {
        Color256(1)
    }

    /// Color 2, also known as "dark green"
    #[allow(non_snake_case)]
    pub fn GREEN() -> (c: Color256)
        ensures
            c == Color256(2),
    {
        Color256(2)
    }

    /// Color 3, also known as "dark yellow"
    #[allow(non_snake_case)]
    pub fn YELLOW() -> (c: Color256)
        ensures
            c == Color256(3),
    {
        Color256(3)
    }

    /// Color 4, also known as "dark blue"
    #[allow(non_snake_case)]
    pub fn BLUE() -> (c: Color256)
        ensures
            c == Color256(4),
    {
        Color256(4)
    }

    /// Color 5, also known as "dark magenta"
    #[allow(non_snake_case)]
    pub fn MAGENTA() -> (c: Color256)
        ensures
            c == Color256(5),
    {
        Color256(5)
    }

    /// Color 6, also known as "dark cyan"
    #[allow(non_snake_case)]
    pub fn CYAN() -> (c: Color256)
        ensures
            c == Color256(6),
    {
        Color256(6)
    }

    /// Color 7, also known as "grey"
    #[allow(non_snake_case)]
    pub fn WHITE() -> (c: Color256)
        ensures
            c == Color256(7),
    {
        Color256(7)
    }

    /// Color 8, also known as "dark grey" or "grey"
    #[allow(non_snake_case)]
    pub fn BRIGHT_BLACK() -> (c: Color256)
        ensures
            c == Color256(8),
    {
        Color256(8)
    }

    /// Color 9
    #[allow(non_snake_case)]
    pub fn BRIGHT_RED() -> (c: Color256)
        ensures
            c == Color256(9),
    {
        Color256(9)
    }

    /// Color 10
    #[allow(non_snake_case)]
    pub fn BRIGHT_GREEN() -> (c: Color256)
        ensures
            c == Color256(10),
    {
        Color256(10)
    }

    /// Color 11
    #[allow(non_snake_case)]
    pub fn BRIGHT_YELLOW() -> (c: Color256)
        ensures
            c == Color256(11),
    {
        Color256(11)
    }

    /// Color 12
    #[allow(non_snake_case)]
    pub fn BRIGHT_BLUE() -> (c: Color256)
        ensures
            c == Color256(12),
    {
        Color256(12)
    }

    /// Color 13
    #[allow(non_snake_case)]
    pub fn BRIGHT_MAGENTA() -> (c: Color256)
        ensures
            c == Color256(13),
    {
        Color256(13)
    }

    /// Color 14
    #[allow(non_snake_case)]
    pub fn BRIGHT_CYAN() -> (c: Color256)
        ensures
            c == Color256(14),
    {
        Color256(14)
    }

    /// Color 15, also known as "white"
    #[allow(non_snake_case)]
    pub fn BRIGHT_WHITE() -> (c: Color256)
        ensures
            c == Color256(15),
    {
        Color256(15)
    }

    /// The color with the given index. Every index is that of a color.
    pub fn from_index(index: u8) -> (c: Color256)
        ensures
            c == Color256(index),
    {
        Color256(index)
    }

    /// The index of the color.
    pub fn index(self) -> (r: u8)
        ensures
            r == self.0,
    {
        self.0
    }

    /// Return the lowercase name of the color. Not all colors have a name;
    /// of the greyscale colors with two spellings, the one with "gray" is
    /// returned.
    pub fn name(self) -> (r: Option<&'static str>)
        ensures
            match color_name(self.0) {
                Some(n) => r matches Some(t) && t@ == n,
                None => r is None,
            },
    {
        match self.0 {
            0 => Some("black"),
            1 => Some("red"),
            2 => Some("green"),
            3 => Some("yellow"),
            4 => Some("blue"),
            5 => Some("magenta"),
            6 => Some("cyan"),
            7 => Some("white"),
            8 => Some("bright_black"),
            9 => Some("bright_red"),
            10 => Some("bright_green"),
            11 => Some("bright_yellow"),
            12 => Some("bright_blue"),
            13 => Some("bright_magenta"),
            14 => Some("bright_cyan"),
            15 => Some("bright_white"),
            16 => Some("gray0"),
            17 => Some("navy_blue"),
            18 => Some("dark_blue"),
            19 => None,
            20 => Some("blue3"),
            21 => Some("blue1"),
            22 => Some("dark_green"),
            23 => None,
            24 => None,
            25 => Some("deep_sky_blue4"),
            26 => Some("dodger_blue3"),
            27 => Some("dodger_blue2"),
            28 => Some("green4"),
            29 => Some("spring_green4"),
            30 => Some("turquoise4"),
            31 => None,
            32 => Some("deep_sky_blue3"),
            33 => Some("dodger_blue1"),
            34 => None,
            35 => None,
            36 => Some("dark_cyan"),
            37 => Some("light_sea_green"),
            38 => Some("deep_sky_blue2"),
            39 => Some("deep_sky_blue1"),
            40 => Some("green3"),
            41 => Some("spring_green3"),
            42 => None,
            43 => Some("cyan3"),
            44 => Some("dark_turquoise"),
            45 => Some("turquoise2"),
            46 => Some("green1"),
            47 => Some("spring_green2"),
            48 => Some("spring_green1"),
            49 => Some("medium_spring_green"),
            50 => Some("cyan2"),
            51 => Some("cyan1"),
            52 => None,
            53 => None,
            54 => None,
            55 => Some("purple4"),
            56 => Some("purple3"),
            57 => Some("blue_violet"),
            58 => None,
            59 => Some("gray37"),
            60 => Some("medium_purple4"),
            61 => None,
            62 => Some("slate_blue3"),
            63 => Some("royal_blue1"),
            64 => Some("chartreuse4"),
            65 => None,
            66 => Some("pale_turquoise4"),
            67 => Some("steel_blue"),
            68 => Some("steel_blue3"),
            69 => Some("cornflower_blue"),
            70 => None,
            71 => Some("dark_sea_green4"),
            72 => None,
            73 => Some("cadet_blue"),
            74 => Some("sky_blue3"),
            75 => None,
            76 => Some("chartreuse3"),
            77 => None,
            78 => Some("sea_green3"),
            79 => Some("aquamarine3"),
            80 => Some("medium_turquoise"),
            81 => Some("steel_blue1"),
            82 => None,
            83 => Some("sea_green2"),
            84 => None,
            85 => Some("sea_green1"),
            86 => None,
            87 => Some("dark_slate_gray2"),
            88 => Some("dark_red"),
            89 => None,
            90 => None,
            91 => Some("dark_magenta"),
            92 => None,
            93 => None,
            94 => Some("orange4"),
            95 => Some("light_pink4"),
            96 => Some("plum4"),
            97 => None,
            98 => Some("medium_purple3"),
            99 => Some("slate_blue1"),
            100 => None,
            101 => Some("wheat4"),
            102 => Some("gray53"),
            103 => Some("light_slate_gray"),
            104 => Some("medium_purple"),
            105 => Some("light_slate_blue"),
            106 => Some("yellow4"),
            107 => None,
            108 => Some("dark_sea_green"),
            109 => None,
            110 => Some("light_sky_blue3"),
            111 => Some("sky_blue2"),
            112 => Some("chartreuse2"),
            113 => None,
            114 => Some("pale_green3"),
            115 => None,
            116 => Some("dark_slate_gray3"),
            117 => Some("sky_blue1"),
            118 => Some("chartreuse1"),
            119 => None,
            120 => Some("light_green"),
            121 => None,
            122 => Some("aquamarine1"),
            123 => Some("dark_slate_gray1"),
            124 => None,
            125 => Some("deep_pink4"),
            126 => Some("medium_violet_red"),
            127 => None,
            128 => Some("dark_violet"),
            129 => Some("purple"),
            130 => None,
            131 => None,
            132 => None,
            133 => Some("medium_orchid3"),
            134 => Some("medium_orchid"),
            135 => None,
            136 => Some("dark_goldenrod"),
            137 => None,
            138 => Some("rosy_brown"),
            139 => Some("gray63"),
            140 => Some("medium_purple2"),
            141 => Some("medium_purple1"),
            142 => None,
            143 => Some("dark_khaki"),
            144 => Some("navajo_white3"),
            145 => Some("gray69"),
            146 => Some("light_steel_blue3"),
            147 => Some("light_steel_blue"),
            148 => None,
            149 => Some("dark_olive_green3"),
            150 => Some("dark_sea_green3"),
            151 => None,
            152 => Some("light_cyan3"),
            153 => Some("light_sky_blue1"),
            154 => Some("green_yellow"),
            155 => Some("dark_olive_green2"),
            156 => Some("pale_green1"),
            157 => Some("dark_sea_green2"),
            158 => None,
            159 => Some("pale_turquoise1"),
            160 => Some("red3"),
            161 => None,
            162 => Some("deep_pink3"),
            163 => None,
            164 => Some("magenta3"),
            165 => None,
            166 => Some("dark_orange3"),
            167 => Some("indian_red"),
            168 => Some("hot_pink3"),
            169 => Some("hot_pink2"),
            170 => Some("orchid"),
            171 => None,
            172 => Some("orange3"),
            173 => Some("light_salmon3"),
            174 => Some("light_pink3"),
            175 => Some("pink3"),
            176 => Some("plum3"),
            177 => Some("violet"),
            178 => Some("gold3"),
            179 => Some("light_goldenrod3"),
            180 => Some("tan"),
            181 => Some("misty_rose3"),
            182 => Some("thistle3"),
            183 => Some("plum2"),
            184 => Some("yellow3"),
            185 => Some("khaki3"),
            186 => None,
            187 => Some("light_yellow3"),
            188 => Some("gray84"),
            189 => Some("light_steel_blue1"),
            190 => Some("yellow2"),
            191 => None,
            192 => Some("dark_olive_green1"),
            193 => Some("dark_sea_green1"),
            194 => Some("honeydew2"),
            195 => Some("light_cyan1"),
            196 => Some("red1"),
            197 => Some("deep_pink2"),
            198 => None,
            199 => Some("deep_pink1"),
            200 => Some("magenta2"),
            201 => Some("magenta1"),
            202 => Some("orange_red1"),
            203 => None,
            204 => Some("indian_red1"),
            205 => None,
            206 => Some("hot_pink"),
            207 => Some("medium_orchid1"),
            208 => Some("dark_orange"),
            209 => Some("salmon1"),
            210 => Some("light_coral"),
            211 => Some("pale_violet_red1"),
            212 => Some("orchid2"),
            213 => Some("orchid1"),
            214 => Some("orange1"),
            215 => Some("sandy_brown"),
            216 => Some("light_salmon1"),
            217 => Some("light_pink1"),
            218 => Some("pink1"),
            219 => Some("plum1"),
            220 => Some("gold1"),
            221 => None,
            222 => Some("light_goldenrod2"),
            223 => Some("navajo_white1"),
            224 => Some("misty_rose1"),
            225 => Some("thistle1"),
            226 => Some("yellow1"),
            227 => Some("light_goldenrod1"),
            228 => Some("khaki1"),
            229 => Some("wheat1"),
            230 => Some("cornsilk1"),
            231 => Some("gray100"),
            232 => Some("gray3"),
            233 => Some("gray7"),
            234 => Some("gray11"),
            235 => Some("gray15"),
            236 => Some("gray19"),
            237 => Some("gray23"),
            238 => Some("gray27"),
            239 => Some("gray30"),
            240 => Some("gray35"),
            241 => Some("gray39"),
            242 => Some("gray42"),
            243 => Some("gray46"),
            244 => Some("gray50"),
            245 => Some("gray54"),
            246 => Some("gray58"),
            247 => Some("gray62"),
            248 => Some("gray66"),
            249 => Some("gray70"),
            250 => Some("gray74"),
            251 => Some("gray78"),
            252 => Some("gray82"),
            253 => Some("gray85"),
            254 => Some("gray89"),
            255 => Some("gray93"),
        }
    }

    /// The second spelling of the color's name, with "grey" for "gray".
    pub fn alias(self) -> (r: Option<&'static str>)
        ensures
            match color_alias(self.0) {
                Some(n) => r matches Some(t) && t@ == n,
                None => r is None,
            },
    {
        match self.0 {
            16 => Some("grey0"),
            59 => Some("grey37"),
            102 => Some("grey53"),
            103 => Some("light_slate_grey"),
            139 => Some("grey63"),
            145 => Some("grey69"),
            188 => Some("grey84"),
            231 => Some("grey100"),
            232 => Some("grey3"),
            233 => Some("grey7"),
            234 => Some("grey11"),
            235 => Some("grey15"),
            236 => Some("grey19"),
            237 => Some("grey23"),
            238 => Some("grey27"),
            239 => Some("grey30"),
            240 => Some("grey35"),
            241 => Some("grey39"),
            242 => Some("grey42"),
            243 => Some("grey46"),
            244 => Some("grey50"),
            245 => Some("grey54"),
            246 => Some("grey58"),
            247 => Some("grey62"),
            248 => Some("grey66"),
            249 => Some("grey70"),
            250 => Some("grey74"),
            251 => Some("grey78"),
            252 => Some("grey82"),
            253 => Some("grey85"),
            254 => Some("grey89"),
            255 => Some("grey93"),
            _ => None,
        }
    }

    /// Return a new [`Style`] that uses this color as the foreground color
    pub fn as_foreground(self) -> (r: Style)
        ensures
            r@ == StyleView::empty().with_foreground(Some(Color::Color256(self))),
    {
        Style::new().foreground(Some(Color::Color256(self)))
    }

    /// Return a new [`Style`] that uses this color as the background color
    pub fn as_background(self) -> (r: Style)
        ensures
            r@ == StyleView::empty().with_background(Some(Color::Color256(self))),
    {
        Style::new().background(Some(Color::Color256(self)))
    }

    /// Return a new [`Style`] that uses this color as the foreground color and
    /// `bg` as the background color
    pub fn on<C: IntoColor>(self, bg: C) -> (r: Style)
        ensures
            r@ == StyleView::empty().with_foreground(Some(Color::Color256(self))).with_background(
                Some(bg.color()),
            ),
    {
        Style::new().foreground(Some(Color::Color256(self))).background(Some(bg.into_color()))
    }

    /// Looks a word up among the names of the palette and their second
    /// spellings, in any ASCII case.
    pub fn by_name(s: &str) -> (r: Option<Color256>)
        ensures
            r == Color256::called(s@),
    {
        let cs = chars_of(s);
        let n = cs.len();
        let first = if n >= 1 {
            to_lower(cs[0])
        } else {
            '-'
        };
        let last = if n >= 1 {
            to_lower(cs[n - 1])
        } else {
            '-'
        };
        let last2 = if n >= 2 {
            to_lower(cs[n - 2])
        } else {
            '-'
        };
        let last7 = if n >= 7 {
            to_lower(cs[n - 7])
        } else {
            '-'
        };
        proof {
            assert forall|i: u8| is_called(i, s@) implies key_index(name_key(s@)) == Some(i) by {
                lemma_called_key(i, s@);
            }
        }
        match index_for_key(n, first, last, last2, last7) {
            Some(i) => {
                let c = Color256(i);
                let found = match c.name() {
                    Some(t) => same_word(s, t),
                    None => false,
                } || match c.alias() {
                    Some(t) => same_word(s, t),
                    None => false,
                };
                assert(found == is_called(i, s@));
                if found {
                    Some(c)
                } else {
                    None
                }
            },
            None => None,
        }
    }

    /// Reads a color of the palette from its name, in any ASCII case, or from
    /// a word of the form `color(N)`. Any other word is returned in the
    /// error.
    pub fn parse(s: &str) -> (r: Result<Color256, ParseColorError>)
        ensures
            match Color256::from_text(s@) {
                Some(c) => r == Ok::<Color256, ParseColorError>(c),
                None => r is Err && r->Err_0.0@ == s@,
            },
    {
        if let Some(c) = Color256::by_name(s) {
            return Ok(c);
        }
        let cs = chars_of(s);
        let n = cs.len();
        proof {
            reveal_strlit("color(");
            reveal_strlit(")");
        }
        if n >= 7 && range_eq_nocase(&cs, 0, 6, "color(") && cs[n - 1] == ')' {
            let ghost rest = s@.subrange(6, n as int);
            assert(rest.drop_last() =~= cs@.subrange(6, n - 1));
            assert(rest.last() == cs@[n - 1]);
            if let Some(index) = parse_decimal_byte(&cs, 6, n - 1) {
                return Ok(Color256(index));
            }
        } else {
            proof {
                if n >= 6 && eq_nocase(s@.subrange(0, 6), "color("@) {
                    let rest = s@.subrange(6, n as int);
                    if n == 6 {
                        assert(rest.len() == 0);
                    } else {
                        assert(rest.last() == cs@[n - 1]);
                    }
                }
            }
        }
        Err(ParseColorError(s.to_owned()))
    }

    /// The canonical word for the color.
    pub fn to_string(self) -> (r: String)
        ensures
            r@ == self.text(),
    {
        match self.name() {
            Some(t) => String::from_str(t),
            None => {
                let mut r = String::from_str("color(");
                push_decimal(&mut r, self.0);
                r.append(")");
                r
            },
        }
    }
}

/// The color that is filed under a key.
fn index_for_key(len: usize, first: char, last: char, last2: char, last7: char) -> (r: Option<u8>)
    ensures
        r == key_index((len, first, last, last2, last7)),
{
    match (len, first, last, last2, last7) {
        (5, 'b', 'k', 'c', '-') => Some(0),
        (3, 'r', 'd', 'e', '-') => Some(1),
        (5, 'g', 'n', 'e', '-') => Some(2),
        (6, 'y', 'w', 'o', '-') => Some(3),
        (4, 'b', 'e', 'u', '-') => Some(4),
        (7, 'm', 'a', 't', 'm') => Some(5),
        (4, 'c', 'n', 'a', '-') => Some(6),
        (5, 'w', 'e', 't', '-') => Some(7),
        (12, 'b', 'k', 'c', 't') => Some(8),
        (10, 'b', 'd', 'e', 'g') => Some(9),
        (12, 'b', 'n', 'e', 't') => Some(10),
        (13, 'b', 'w', 'o', '_') => Some(11),
        (11, 'b', 'e', 'u', 'h') => Some(12),
        (14, 'b', 'a', 't', 'm') => Some(13),
        (11, 'b', 'n', 'a', 'h') => Some(14),
        (12, 'b', 'e', 't', 't') => Some(15),
        (5, 'g', '0', 'y', '-') => Some(16),
        (9, 'n', 'e', 'u', 'v') => Some(17),
        (9, 'd', 'e', 'u', 'r') => Some(18),
        (5, 'b', '3', 'e', '-') => Some(20),
        (5, 'b', '1', 'e', '-') => Some(21),
        (10, 'd', 'n', 'e', 'k') => Some(22),
        (14, 'd', '4', 'e', 'y') => Some(25),
        (12, 'd', '3', 'e', 'r') => Some(26),
        (12, 'd', '2', 'e', 'r') => Some(27),
        (6, 'g', '4', 'n', '-') => Some(28),
        (13, 's', '4', 'n', '_') => Some(29),
        (10, 't', '4', 'e', 'q') => Some(30),
        (14, 'd', '3', 'e', 'y') => Some(32),
        (12, 'd', '1', 'e', 'r') => Some(33),
        (9, 'd', 'n', 'a', 'r') => Some(36),
        (15, 'l', 'n', 'e', 'a') => Some(37),
        (14, 'd', '2', 'e', 'y') => Some(38),
        (14, 'd', '1', 'e', 'y') => Some(39),
        (6, 'g', '3', 'n', '-') => Some(40),
        (13, 's', '3', 'n', '_') => Some(41),
        (5, 'c', '3', 'n', '-') => Some(43),
        (14, 'd', 'e', 's', 'r') => Some(44),
        (10, 't', '2', 'e', 'q') => Some(45),
        (6, 'g', '1', 'n', '-') => Some(46),
        (13, 's', '2', 'n', '_') => Some(47),
        (13, 's', '1', 'n', '_') => Some(48),
        (19, 'm', 'n', 'e', 'g') => Some(49),
        (5, 'c', '2', 'n', '-') => Some(50),
        (5, 'c', '1', 'n', '-') => Some(51),
        (7, 'p', '4', 'e', 'p') => Some(55),
        (7, 'p', '3', 'e', 'p') => Some(56),
        (11, 'b', 't', 'e', '_') => Some(57),
        (6, 'g', '7', '3', '-') => Some(59),
        (14, 'm', '4', 'e', 'p') => Some(60),
        (11, 's', '3', 'e', 'e') => Some(62),
        (11, 'r', '1', 'e', 'l') => Some(63),
        (11, 'c', '4', 'e', 't') => Some(64),
        (15, 'p', '4', 'e', 'q') => Some(66),
        (10, 's', 'e', 'u', 'e') => Some(67),
        (11, 's', '3', 'e', 'l') => Some(68),
        (15, 'c', 'e', 'u', 'e') => Some(69),
        (15, 'd', '4', 'n', '_') => Some(71),
        (10, 'c', 'e', 'u', 'e') => Some(73),
        (9, 's', '3', 'e', 'y') => Some(74),
        (11, 'c', '3', 'e', 't') => Some(76),
        (10, 's', '3', 'n', '_') => Some(78),
        (11, 'a', '3', 'e', 'm') => Some(79),
        (16, 'm', 'e', 's', 'r') => Some(80),
        (11, 's', '1', 'e', 'l') => Some(81),
        (10, 's', '2', 'n', '_') => Some(83),
        (10, 's', '1', 'n', '_') => Some(85),
        (16, 'd', '2', 'y', 'e') => Some(87),
        (8, 'd', 'd', 'e', 'a') => Some(88),
        (12, 'd', 'a', 't', 'm') => Some(91),
        (7, 'o', '4', 'e', 'o') => Some(94),
        (11, 'l', '4', 'k', 't') => Some(95),
        (5, 'p', '4', 'm', '-') => Some(96),
        (14, 'm', '3', 'e', 'p') => Some(98),
        (11, 's', '1', 'e', 'e') => Some(99),
        (6, 'w', '4', 't', '-') => Some(101),
        (6, 'g', '3', '5', '-') => Some(102),
        (16, 'l', 'y', 'a', 't') => Some(103),
        (16, 'l', 'y', 'e', 't') => Some(103),
        (13, 'm', 'e', 'l', '_') => Some(104),
        (16, 'l', 'e', 'u', 't') => Some(105),
        (7, 'y', '4', 'w', 'y') => Some(106),
        (14, 'd', 'n', 'e', 'a') => Some(108),
        (15, 'l', '3', 'e', 'y') => Some(110),
        (9, 's', '2', 'e', 'y') => Some(111),
        (11, 'c', '2', 'e', 't') => Some(112),
        (11, 'p', '3', 'n', '_') => Some(114),
        (16, 'd', '3', 'y', 'e') => Some(116),
        (9, 's', '1', 'e', 'y') => Some(117),
        (11, 'c', '1', 'e', 't') => Some(118),
        (11, 'l', 'n', 'e', 't') => Some(120),
        (11, 'a', '1', 'e', 'm') => Some(122),
        (16, 'd', '1', 'y', 'e') => Some(123),
        (10, 'd', '4', 'k', 'p') => Some(125),
        (17, 'm', 'd', 'e', 'l') => Some(126),
        (11, 'd', 't', 'e', '_') => Some(128),
        (6, 'p', 'e', 'l', '-') => Some(129),
        (14, 'm', '3', 'd', 'o') => Some(133),
        (13, 'm', 'd', 'i', '_') => Some(134),
        (14, 'd', 'd', 'o', 'l') => Some(136),
        (10, 'r', 'n', 'w', 'y') => Some(138),
        (6, 'g', '3', '6', '-') => Some(139),
        (14, 'm', '2', 'e', 'p') => Some(140),
        (14, 'm', '1', 'e', 'p') => Some(141),
        (10, 'd', 'i', 'k', 'k') => Some(143),
        (13, 'n', '3', 'e', '_') => Some(144),
        (6, 'g', '9', '6', '-') => Some(145),
        (17, 'l', '3', 'e', 'l') => Some(146),
        (16, 'l', 'e', 'u', 'e') => Some(147),
        (17, 'd', '3', 'n', '_') => Some(149),
        (15, 'd', '3', 'n', '_') => Some(150),
        (11, 'l', '3', 'n', 't') => Some(152),
        (15, 'l', '1', 'e', 'y') => Some(153),
        (12, 'g', 'w', 'o', '_') => Some(154),
        (17, 'd', '2', 'n', '_') => Some(155),
        (11, 'p', '1', 'n', '_') => Some(156),
        (15, 'd', '2', 'n', '_') => Some(157),
        (15, 'p', '1', 'e', 'q') => Some(159),
        (4, 'r', '3', 'd', '-') => Some(160),
        (10, 'd', '3', 'k', 'p') => Some(162),
        (8, 'm', '3', 'a', 'a') => Some(164),
        (12, 'd', '3', 'e', 'o') => Some(166),
        (10, 'i', 'd', 'e', 'i') => Some(167),
        (9, 'h', '3', 'k', 't') => Some(168),
        (9, 'h', '2', 'k', 't') => Some(169),
        (6, 'o', 'd', 'i', '-') => Some(170),
        (7, 'o', '3', 'e', 'o') => Some(172),
        (13, 'l', '3', 'n', 's') => Some(173),
        (11, 'l', '3', 'k', 't') => Some(174),
        (5, 'p', '3', 'k', '-') => Some(175),
        (5, 'p', '3', 'm', '-') => Some(176),
        (6, 'v', 't', 'e', '-') => Some(177),
        (5, 'g', '3', 'd', '-') => Some(178),
        (16, 'l', '3', 'd', 'd') => Some(179),
        (3, 't', 'n', 'a', '-') => Some(180),
        (11, 'm', '3', 'e', 'y') => Some(181),
        (8, 't', '3', 'e', 'h') => Some(182),
        (5, 'p', '2', 'm', '-') => Some(183),
        (7, 'y', '3', 'w', 'y') => Some(184),
        (6, 'k', '3', 'i', '-') => Some(185),
        (13, 'l', '3', 'w', 'y') => Some(187),
        (6, 'g', '4', '8', '-') => Some(188),
        (17, 'l', '1', 'e', 'l') => Some(189),
        (7, 'y', '2', 'w', 'y') => Some(190),
        (17, 'd', '1', 'n', '_') => Some(192),
        (15, 'd', '1', 'n', '_') => Some(193),
        (9, 'h', '2', 'w', 'n') => Some(194),
        (11, 'l', '1', 'n', 't') => Some(195),
        (4, 'r', '1', 'd', '-') => Some(196),
        (10, 'd', '2', 'k', 'p') => Some(197),
        (10, 'd', '1', 'k', 'p') => Some(199),
        (8, 'm', '2', 'a', 'a') => Some(200),
        (8, 'm', '1', 'a', 'a') => Some(201),
        (11, 'o', '1', 'd', 'g') => Some(202),
        (11, 'i', '1', 'd', 'a') => Some(204),
        (8, 'h', 'k', 'n', 'o') => Some(206),
        (14, 'm', '1', 'd', 'o') => Some(207),
        (11, 'd', 'e', 'g', '_') => Some(208),
        (7, 's', '1', 'n', 's') => Some(209),
        (11, 'l', 'l', 'a', 't') => Some(210),
        (16, 'p', '1', 'd', 'e') => Some(211),
        (7, 'o', '2', 'd', 'o') => Some(212),
        (7, 'o', '1', 'd', 'o') => Some(213),
        (7, 'o', '1', 'e', 'o') => Some(214),
        (11, 's', 'n', 'w', 'y') => Some(215),
        (13, 'l', '1', 'n', 's') => Some(216),
        (11, 'l', '1', 'k', 't') => Some(217),
        (5, 'p', '1', 'k', '-') => Some(218),
        (5, 'p', '1', 'm', '-') => Some(219),
        (5, 'g', '1', 'd', '-') => Some(220),
        (16, 'l', '2', 'd', 'd') => Some(222),
        (13, 'n', '1', 'e', '_') => Some(223),
        (11, 'm', '1', 'e', 'y') => Some(224),
        (8, 't', '1', 'e', 'h') => Some(225),
        (7, 'y', '1', 'w', 'y') => Some(226),
        (16, 'l', '1', 'd', 'd') => Some(227),
        (6, 'k', '1', 'i', '-') => Some(228),
        (6, 'w', '1', 't', '-') => Some(229),
        (9, 'c', '1', 'k', 'r') => Some(230),
        (7, 'g', '0', '0', 'g') => Some(231),
        (5, 'g', '3', 'y', '-') => Some(232),
        (5, 'g', '7', 'y', '-') => Some(233),
        (6, 'g', '1', '1', '-') => Some(234),
        (6, 'g', '5', '1', '-') => Some(235),
        (6, 'g', '9', '1', '-') => Some(236),
        (6, 'g', '3', '2', '-') => Some(237),
        (6, 'g', '7', '2', '-') => Some(238),
        (6, 'g', '0', '3', '-') => Some(239),
        (6, 'g', '5', '3', '-') => Some(240),
        (6, 'g', '9', '3', '-') => Some(241),
        (6, 'g', '2', '4', '-') => Some(242),
        (6, 'g', '6', '4', '-') => Some(243),
        (6, 'g', '0', '5', '-') => Some(244),
        (6, 'g', '4', '5', '-') => Some(245),
        (6, 'g', '8', '5', '-') => Some(246),
        (6, 'g', '2', '6', '-') => Some(247),
        (6, 'g', '6', '6', '-') => Some(248),
        (6, 'g', '0', '7', '-') => Some(249),
        (6, 'g', '4', '7', '-') => Some(250),
        (6, 'g', '8', '7', '-') => Some(251),
        (6, 'g', '2', '8', '-') => Some(252),
        (6, 'g', '5', '8', '-') => Some(253),
        (6, 'g', '9', '8', '-') => Some(254),
        (6, 'g', '3', '9', '-') => Some(255),
        _ => None,
    }
}

/// Compares two words as `unicase` does in its ASCII mode: `UniCase::ascii`
/// wraps each word, and `==` on the wrapped words holds exactly when the two
/// have the same length and agree character by character once ASCII letters
/// are put in lower case.
#[verifier::external_body]
fn same_word(a: &str, b: &str) -> (r: bool)
    ensures
        r == eq_nocase(a@, b@),
{
    unicase::UniCase::ascii(a) == unicase::UniCase::ascii(b)
}

impl std::str::FromStr for Color256 {
    type Err = ParseColorError;

    fn from_str(s: &str) -> (r: Result<Color256, ParseColorError>)
        ensures
            match Color256::from_text(s@) {
                Some(c) => r == Ok::<Color256, ParseColorError>(c),
                None => r is Err && r->Err_0.0@ == s@,
            },
    {
        Color256::parse(s)
    }
}

impl From<u8> for Color256 {
    fn from(value: u8) -> (r: Color256) {
        Color256(value)
    }
}

impl vstd::std_specs::convert::FromSpecImpl<u8> for Color256 {
    open spec fn obeys_from_spec() -> bool {
        true
    }

    open spec fn from_spec(value: u8) -> Color256 {
        Color256(value)
    }
}

impl From<Color256> for u8 {
    fn from(value: Color256) -> (r: u8) {
        value.0
    }
}

impl vstd::std_specs::convert::FromSpecImpl<Color256> for u8 {
    open spec fn obeys_from_spec() -> bool {
        true
    }

    open spec fn from_spec(value: Color256) -> u8 {
        value.0
    }
}

} // verus!
