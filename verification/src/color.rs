//! Colour helpers: parsing `#rgb` / `#rrggbb` colours, deciding whether a colour
//! is light, and choosing a contrasting ink or paper colour.
use vstd::prelude::*;
use vstd::string::*;
use vstd::utf8::{encode_utf8, is_char_boundary};
use crate::text::{chars_of, trim, trim_bounds};

verus! {

broadcast use vstd::string::group_string_axioms;

/// The value of an ASCII hexadecimal digit.
pub open spec fn hex_digit_value(b: u8) -> Option<u8> {
    if 0x30 <= b <= 0x39 {
        Some((b - 0x30) as u8)
    } else if 0x61 <= b <= 0x66 {
        Some((b - 0x61 + 10) as u8)
    } else if 0x41 <= b <= 0x46 {
        Some((b - 0x41 + 10) as u8)
    } else {
        None
    }
}

/// `u8::from_str_radix(s, 16)` on the two-byte string `[x, y]`: a leading `+`
/// sign is accepted before a single digit.
pub open spec fn radix16_pair(x: u8, y: u8) -> Option<u8> {
    if x == 0x2b {
        hex_digit_value(y)
    } else {
        match (hex_digit_value(x), hex_digit_value(y)) {
            (Some(a), Some(b)) => Some((16 * a + b) as u8),
            _ => None,
        }
    }
}

/// The sequence without its leading `#` characters (`trim_start_matches('#')`).
pub open spec fn strip_hashes(s: Seq<char>) -> Seq<char>
    decreases s.len(),
{
    if s.len() > 0 && s[0] == '#' {
        strip_hashes(s.drop_first())
    } else {
        s
    }
}

/// The UTF-8 bytes of the digits of a colour written as text: trimmed, and
/// without leading `#` characters.
pub open spec fn color_digit_bytes(hex: Seq<char>) -> Seq<u8> {
    encode_utf8(strip_hashes(trim(hex)))
}

/// The colour that the digit bytes `b` spell: three digits each doubled
/// (`#abc` is `#aabbcc`), or six digits in pairs; anything else spells none.
pub open spec fn rgb_of_digits(b: Seq<u8>) -> Option<(u8, u8, u8)> {
    if b.len() == 3 {
        match (radix16_pair(b[0], b[0]), radix16_pair(b[1], b[1]), radix16_pair(b[2], b[2])) {
            (Some(r), Some(g), Some(bl)) => Some((r, g, bl)),
            _ => None,
        }
    } else if b.len() == 6 {
        match (radix16_pair(b[0], b[1]), radix16_pair(b[2], b[3]), radix16_pair(b[4], b[5])) {
            (Some(r), Some(g), Some(bl)) => Some((r, g, bl)),
            _ => None,
        }
    } else {
        None
    }
}

/// Six digit bytes are read by slicing the text at byte 2, then (when the
/// first pair reads) at byte 4; slicing a string off a character boundary panics.
pub open spec fn digit_slicing_panics(b: Seq<u8>) -> bool {
    &&& b.len() == 6
    &&& {
        ||| !is_char_boundary(b, 2)
        ||| (radix16_pair(b[0], b[1]) is Some && !is_char_boundary(b, 4))
    }
}

/// The colour written in `hex`, as `parse_hex_rgb` reads it.
pub open spec fn parsed_rgb(hex: Seq<char>) -> Option<(u8, u8, u8)> {
    rgb_of_digits(color_digit_bytes(hex))
}

/// The linear level of an sRGB channel value, in units of 10^-12: the value
/// `c / 255` linearised as `x / 12.92` up to 0.03928 and `((x + 0.055) / 1.055)^2.4`
/// above, as double precision arithmetic computes it, rounded to 12 decimals.
pub open spec fn linear_level(c: u8) -> u64 {
    match c {
        0 => 0, 1 => 303526984, 2 => 607053967, 3 => 910580951,
        4 => 1214107934, 5 => 1517634918, 6 => 1821161901, 7 => 2124688885,
        8 => 2428215868, 9 => 2731742852, 10 => 3035269835, 11 => 3346535764,
        12 => 3676507324, 13 => 4024717018, 14 => 4391442037, 15 => 4776953481,
        16 => 5181516702, 17 => 5605391624, 18 => 6048833023, 19 => 6512090793,
        20 => 6995410187, 21 => 7499032043, 22 => 8023192985, 23 => 8568125618,
        24 => 9134058702, 25 => 9721217320, 26 => 10329823030, 27 => 10960094006,
        28 => 11612245180, 29 => 12286488357, 30 => 12983032342, 31 => 13702083047,
        32 => 14443843596, 33 => 15208514423, 34 => 15996293366, 35 => 16807375753,
        36 => 17641954488, 37 => 18500220128, 38 => 19382360957, 39 => 20288563057,
        40 => 21219010376, 41 => 22173884793, 42 => 23153366178, 43 => 24157632449,
        44 => 25186859627, 45 => 26241221895, 46 => 27320891639, 47 => 28426039504,
        48 => 29556834438, 49 => 30713443733, 50 => 31896033073, 51 => 33104766571,
        52 => 34339806809, 53 => 35601314875, 54 => 36889450401, 55 => 38204371595,
        56 => 39546235277, 57 => 40915196907, 58 => 42311410621, 59 => 43735029257,
        60 => 45186204386, 61 => 46665086337, 62 => 48171824227, 63 => 49706565984,
        64 => 51269458374, 65 => 52860647023, 66 => 54480276442, 67 => 56128490050,
        68 => 57805430191, 69 => 59511238163, 70 => 61246054232, 71 => 63010017653,
        72 => 64803266693, 73 => 66625938644, 74 => 68478169844, 75 => 70360095697,
        76 => 72271850682, 77 => 74213568380, 78 => 76185381481, 79 => 78187421805,
        80 => 80219820314, 81 => 82282707130, 82 => 84376211544, 83 => 86500462037,
        84 => 88655586286, 85 => 90841711183, 86 => 93058962847, 87 => 95307466631,
        88 => 97587347142, 89 => 99898728247, 90 => 102241733088, 91 => 104616484091,
        92 => 107023102978, 93 => 109461710778, 94 => 111932427837, 95 => 114435373827,
        96 => 116970667759, 97 => 119538427988, 98 => 122138772230, 99 => 124771817561,
        100 => 127437680436, 101 => 130136476690, 102 => 132868321554, 103 => 135633329655,
        104 => 138431615032, 105 => 141263291140, 106 => 144128470858, 107 => 147027266498,
        108 => 149959789811, 109 => 152926151996, 110 => 155926463708, 111 => 158960835061,
        112 => 162029375639, 113 => 165132194502, 114 => 168269400190, 115 => 171441100733,
        116 => 174647403656, 117 => 177888415984, 118 => 181164244250, 119 => 184474994500,
        120 => 187820772301, 121 => 191201682741, 122 => 194617830442, 123 => 198069319560,
        124 => 201556253794, 125 => 205078736390, 126 => 208636870145, 127 => 212230757414,
        128 => 215860500114, 129 => 219526199729, 130 => 223227957317, 131 => 226965873510,
        132 => 230740048524, 133 => 234550582161, 134 => 238397573812, 135 => 242281122466,
        136 => 246201326708, 137 => 250158284730, 138 => 254152094331, 139 => 258182852922,
        140 => 262250657530, 141 => 266355604803, 142 => 270497791013, 143 => 274677312060,
        144 => 278894263477, 145 => 283148740430, 146 => 287440837727, 147 => 291770649818,
        148 => 296138270798, 149 => 300543794416, 150 => 304987314070, 151 => 309468922818,
        152 => 313988713376, 153 => 318546778125, 154 => 323143209113, 155 => 327778098057,
        156 => 332451536346, 157 => 337163615048, 158 => 341914424909, 159 => 346704056355,
        160 => 351532599500, 161 => 356400144146, 162 => 361306779784, 163 => 366252595599,
        164 => 371237680474, 165 => 376262122991, 166 => 381326011433, 167 => 386429433787,
        168 => 391572477750, 169 => 396755230726, 170 => 401977779832, 171 => 407240211902,
        172 => 412542613484, 173 => 417885070848, 174 => 423267669986, 175 => 428690496614,
        176 => 434153636175, 177 => 439657173841, 178 => 445201194516, 179 => 450785782838,
        180 => 456411023180, 181 => 462076999654, 182 => 467783796112, 183 => 473531496148,
        184 => 479320183101, 185 => 485149940056, 186 => 491020849848, 187 => 496932995061,
        188 => 502886458033, 189 => 508881320855, 190 => 514917665377, 191 => 520995573204,
        192 => 527115125706, 193 => 533276404011, 194 => 539479489012, 195 => 545724461370,
        196 => 552011401512, 197 => 558340389634, 198 => 564711505705, 199 => 571124829465,
        200 => 577580440430, 201 => 584078417891, 202 => 590618840919, 203 => 597201788364,
        204 => 603827338855, 205 => 610495570808, 206 => 617206562420, 207 => 623960391675,
        208 => 630757136346, 209 => 637596873994, 210 => 644479681971, 211 => 651405637420,
        212 => 658374817279, 213 => 665387298282, 214 => 672443156958, 215 => 679542469633,
        216 => 686685312435, 217 => 693871761292, 218 => 701101891933, 219 => 708375779892,
        220 => 715693500506, 221 => 723055128922, 222 => 730460740090, 223 => 737910408773,
        224 => 745404209540, 225 => 752942216776, 226 => 760524504675, 227 => 768151147248,
        228 => 775822218317, 229 => 783537791526, 230 => 791297940333, 231 => 799102738014,
        232 => 806952257669, 233 => 814846572216, 234 => 822785754396, 235 => 830769876775,
        236 => 838799011741, 237 => 846873231510, 238 => 854992608124, 239 => 863157213454,
        240 => 871367119199, 241 => 879622396888, 242 => 887923117882, 243 => 896269353374,
        244 => 904661174391, 245 => 913098651793, 246 => 921581856277, 247 => 930110858375,
        248 => 938685728458, 249 => 947306536733, 250 => 955973353249, 251 => 964686247894,
        252 => 973445290398, 253 => 982250550333, 254 => 991102097114, _ => 1000000000000,
    }
}

/// A colour is light when its relative luminance
/// `0.2126 R + 0.7152 G + 0.0722 B` of the linear channel levels exceeds 0.179.
pub open spec fn is_light_rgb_spec(r: u8, g: u8, b: u8) -> bool {
    2126 * linear_level(r) + 7152 * linear_level(g) + 722 * linear_level(b) > 1790 * 1_000_000_000_000nat
}

/// Whether the colour written in `hex` is light, if it is a colour.
pub open spec fn light_color(hex: Seq<char>) -> Option<bool> {
    match parsed_rgb(hex) {
        Some((r, g, b)) => Some(is_light_rgb_spec(r, g, b)),
        None => None,
    }
}

/// Ink for light paper.
pub open spec fn ink_on_light() -> Seq<char> {
    "#1c1a16"@
}

/// Ink for dark paper.
pub open spec fn ink_on_dark() -> Seq<char> {
    "#ece7dc"@
}

/// Paper under dark ink.
pub open spec fn surface_for_dark_ink() -> Seq<char> {
    "#f3efe6"@
}

/// Paper under light ink.
pub open spec fn surface_for_light_ink() -> Seq<char> {
    "#1a1c1b"@
}

/// The linear level of a channel value (see `linear_level`).
pub fn linear_channel(c: u8) -> (v: u64)
    ensures
        v == linear_level(c),
        v <= 1_000_000_000_000,
{
    match c {
        0 => 0, 1 => 303526984, 2 => 607053967, 3 => 910580951,
        4 => 1214107934, 5 => 1517634918, 6 => 1821161901, 7 => 2124688885,
        8 => 2428215868, 9 => 2731742852, 10 => 3035269835, 11 => 3346535764,
        12 => 3676507324, 13 => 4024717018, 14 => 4391442037, 15 => 4776953481,
        16 => 5181516702, 17 => 5605391624, 18 => 6048833023, 19 => 6512090793,
        20 => 6995410187, 21 => 7499032043, 22 => 8023192985, 23 => 8568125618,
        24 => 9134058702, 25 => 9721217320, 26 => 10329823030, 27 => 10960094006,
        28 => 11612245180, 29 => 12286488357, 30 => 12983032342, 31 => 13702083047,
        32 => 14443843596, 33 => 15208514423, 34 => 15996293366, 35 => 16807375753,
        36 => 17641954488, 37 => 18500220128, 38 => 19382360957, 39 => 20288563057,
        40 => 21219010376, 41 => 22173884793, 42 => 23153366178, 43 => 24157632449,
        44 => 25186859627, 45 => 26241221895, 46 => 27320891639, 47 => 28426039504,
        48 => 29556834438, 49 => 30713443733, 50 => 31896033073, 51 => 33104766571,
        52 => 34339806809, 53 => 35601314875, 54 => 36889450401, 55 => 38204371595,
        56 => 39546235277, 57 => 40915196907, 58 => 42311410621, 59 => 43735029257,
        60 => 45186204386, 61 => 46665086337, 62 => 48171824227, 63 => 49706565984,
        64 => 51269458374, 65 => 52860647023, 66 => 54480276442, 67 => 56128490050,
        68 => 57805430191, 69 => 59511238163, 70 => 61246054232, 71 => 63010017653,
        72 => 64803266693, 73 => 66625938644, 74 => 68478169844, 75 => 70360095697,
        76 => 72271850682, 77 => 74213568380, 78 => 76185381481, 79 => 78187421805,
        80 => 80219820314, 81 => 82282707130, 82 => 84376211544, 83 => 86500462037,
        84 => 88655586286, 85 => 90841711183, 86 => 93058962847, 87 => 95307466631,
        88 => 97587347142, 89 => 99898728247, 90 => 102241733088, 91 => 104616484091,
        92 => 107023102978, 93 => 109461710778, 94 => 111932427837, 95 => 114435373827,
        96 => 116970667759, 97 => 119538427988, 98 => 122138772230, 99 => 124771817561,
        100 => 127437680436, 101 => 130136476690, 102 => 132868321554, 103 => 135633329655,
        104 => 138431615032, 105 => 141263291140, 106 => 144128470858, 107 => 147027266498,
        108 => 149959789811, 109 => 152926151996, 110 => 155926463708, 111 => 158960835061,
        112 => 162029375639, 113 => 165132194502, 114 => 168269400190, 115 => 171441100733,
        116 => 174647403656, 117 => 177888415984, 118 => 181164244250, 119 => 184474994500,
        120 => 187820772301, 121 => 191201682741, 122 => 194617830442, 123 => 198069319560,
        124 => 201556253794, 125 => 205078736390, 126 => 208636870145, 127 => 212230757414,
        128 => 215860500114, 129 => 219526199729, 130 => 223227957317, 131 => 226965873510,
        132 => 230740048524, 133 => 234550582161, 134 => 238397573812, 135 => 242281122466,
        136 => 246201326708, 137 => 250158284730, 138 => 254152094331, 139 => 258182852922,
        140 => 262250657530, 141 => 266355604803, 142 => 270497791013, 143 => 274677312060,
        144 => 278894263477, 145 => 283148740430, 146 => 287440837727, 147 => 291770649818,
        148 => 296138270798, 149 => 300543794416, 150 => 304987314070, 151 => 309468922818,
        152 => 313988713376, 153 => 318546778125, 154 => 323143209113, 155 => 327778098057,
        156 => 332451536346, 157 => 337163615048, 158 => 341914424909, 159 => 346704056355,
        160 => 351532599500, 161 => 356400144146, 162 => 361306779784, 163 => 366252595599,
        164 => 371237680474, 165 => 376262122991, 166 => 381326011433, 167 => 386429433787,
        168 => 391572477750, 169 => 396755230726, 170 => 401977779832, 171 => 407240211902,
        172 => 412542613484, 173 => 417885070848, 174 => 423267669986, 175 => 428690496614,
        176 => 434153636175, 177 => 439657173841, 178 => 445201194516, 179 => 450785782838,
        180 => 456411023180, 181 => 462076999654, 182 => 467783796112, 183 => 473531496148,
        184 => 479320183101, 185 => 485149940056, 186 => 491020849848, 187 => 496932995061,
        188 => 502886458033, 189 => 508881320855, 190 => 514917665377, 191 => 520995573204,
        192 => 527115125706, 193 => 533276404011, 194 => 539479489012, 195 => 545724461370,
        196 => 552011401512, 197 => 558340389634, 198 => 564711505705, 199 => 571124829465,
        200 => 577580440430, 201 => 584078417891, 202 => 590618840919, 203 => 597201788364,
        204 => 603827338855, 205 => 610495570808, 206 => 617206562420, 207 => 623960391675,
        208 => 630757136346, 209 => 637596873994, 210 => 644479681971, 211 => 651405637420,
        212 => 658374817279, 213 => 665387298282, 214 => 672443156958, 215 => 679542469633,
        216 => 686685312435, 217 => 693871761292, 218 => 701101891933, 219 => 708375779892,
        220 => 715693500506, 221 => 723055128922, 222 => 730460740090, 223 => 737910408773,
        224 => 745404209540, 225 => 752942216776, 226 => 760524504675, 227 => 768151147248,
        228 => 775822218317, 229 => 783537791526, 230 => 791297940333, 231 => 799102738014,
        232 => 806952257669, 233 => 814846572216, 234 => 822785754396, 235 => 830769876775,
        236 => 838799011741, 237 => 846873231510, 238 => 854992608124, 239 => 863157213454,
        240 => 871367119199, 241 => 879622396888, 242 => 887923117882, 243 => 896269353374,
        244 => 904661174391, 245 => 913098651793, 246 => 921581856277, 247 => 930110858375,
        248 => 938685728458, 249 => 947306536733, 250 => 955973353249, 251 => 964686247894,
        252 => 973445290398, 253 => 982250550333, 254 => 991102097114, _ => 1000000000000,
    }
}

/// Whether the colour `(r, g, b)` is light.
pub fn is_light_rgb(r: u8, g: u8, b: u8) -> (light: bool)
    ensures
        light == is_light_rgb_spec(r, g, b),
{
    let lr = linear_channel(r);
    let lg = linear_channel(g);
    let lb = linear_channel(b);
    2126 * lr + 7152 * lg + 722 * lb > 1790 * 1_000_000_000_000u64
}

fn hex_digit(b: u8) -> (v: Option<u8>)
    ensures
        v == hex_digit_value(b),
{
    if 0x30 <= b && b <= 0x39 {
        Some(b - 0x30)
    } else if 0x61 <= b && b <= 0x66 {
        Some(b - 0x61 + 10)
    } else if 0x41 <= b && b <= 0x46 {
        Some(b - 0x41 + 10)
    } else {
        None
    }
}

fn radix16(x: u8, y: u8) -> (v: Option<u8>)
    ensures
        v == radix16_pair(x, y),
{
    if x == 0x2b {
        hex_digit(y)
    } else {
        match (hex_digit(x), hex_digit(y)) {
            (Some(a), Some(b)) => Some(16 * a + b),
            _ => None,
        }
    }
}

proof fn lemma_strip_hashes_step(s: Seq<char>, i: int, hi: int)
    requires
        0 <= i < hi <= s.len(),
        s[i] == '#',
    ensures
        strip_hashes(s.subrange(i, hi)) == strip_hashes(s.subrange(i + 1, hi)),
{
    assert(s.subrange(i, hi).drop_first() =~= s.subrange(i + 1, hi));
}

/// The digits of the colour written in `hex`: the text trimmed and without
/// leading `#` characters.
fn color_digits(hex: &str) -> (d: &str)
    ensures
        d@ == strip_hashes(trim(hex@)),
        d.spec_bytes() == color_digit_bytes(hex@),
{
    let chars = chars_of(hex);
    let (lo, hi) = trim_bounds(&chars);
    let mut start = lo;
    while start < hi && chars[start] == '#'
        invariant
            lo <= start <= hi <= chars.len(),
            chars@ == hex@,
            strip_hashes(trim(hex@)) == strip_hashes(chars@.subrange(start as int, hi as int)),
        decreases hi - start,
    {
        proof {
            lemma_strip_hashes_step(chars@, start as int, hi as int);
        }
        start = start + 1;
    }
    hex.substring_char(start, hi)
}

/// Whether `parse_hex_rgb` panics on `hex`: six digit bytes that must be sliced
/// off a character boundary.
pub fn hex_rgb_panics(hex: &str) -> (p: bool)
    ensures
        p == digit_slicing_panics(color_digit_bytes(hex@)),
{
    let d = color_digits(hex);
    let b = d.as_bytes();
    if b.len() != 6 {
        return false;
    }
    if !d.is_char_boundary(2) {
        return true;
    }
    radix16(b[0], b[1]).is_some() && !d.is_char_boundary(4)
}

/// The colour written as `#rgb` or `#rrggbb` (any number of leading `#`,
/// surrounding white space ignored).
pub fn parse_hex_rgb(hex: &str) -> (rgb: Option<(u8, u8, u8)>)
    requires
        !digit_slicing_panics(color_digit_bytes(hex@)),
    ensures
        rgb == parsed_rgb(hex@),
{
    let d = color_digits(hex);
    let b = d.as_bytes();
    if b.len() == 3 {
        match (radix16(b[0], b[0]), radix16(b[1], b[1]), radix16(b[2], b[2])) {
            (Some(r), Some(g), Some(bl)) => Some((r, g, bl)),
            _ => None,
        }
    } else if b.len() == 6 {
        match (radix16(b[0], b[1]), radix16(b[2], b[3]), radix16(b[4], b[5])) {
            (Some(r), Some(g), Some(bl)) => Some((r, g, bl)),
            _ => None,
        }
    } else {
        None
    }
}

/// Whether the colour written in `hex` is light; `None` when it is no colour.
pub fn is_light_color(hex: &str) -> (light: Option<bool>)
    requires
        !digit_slicing_panics(color_digit_bytes(hex@)),
    ensures
        light == light_color(hex@),
{
    match parse_hex_rgb(hex) {
        Some((r, g, b)) => Some(is_light_rgb(r, g, b)),
        None => None,
    }
}

/// Dark ink on light surfaces, light ink on dark surfaces; `None` when
/// `background` is no colour.
pub fn contrasting_ink(background: &str) -> (ink: Option<String>)
    requires
        !digit_slicing_panics(color_digit_bytes(background@)),
    ensures
        match light_color(background@) {
            Some(true) => ink matches Some(s) && s@ == ink_on_light(),
            Some(false) => ink matches Some(s) && s@ == ink_on_dark(),
            None => ink is None,
        },
{
    match is_light_color(background) {
        Some(true) => Some(String::from_str("#1c1a16")),
        Some(false) => Some(String::from_str("#ece7dc")),
        None => None,
    }
}

/// Light paper under dark ink, dark paper under light ink; `None` when
/// `foreground` is no colour.
pub fn contrasting_surface(foreground: &str) -> (surface: Option<String>)
    requires
        !digit_slicing_panics(color_digit_bytes(foreground@)),
    ensures
        match light_color(foreground@) {
            Some(true) => surface matches Some(s) && s@ == surface_for_light_ink(),
            Some(false) => surface matches Some(s) && s@ == surface_for_dark_ink(),
            None => surface is None,
        },
{
    match is_light_color(foreground) {
        Some(true) => Some(String::from_str("#1a1c1b")),
        Some(false) => Some(String::from_str("#f3efe6")),
        None => None,
    }
}

} // verus!
