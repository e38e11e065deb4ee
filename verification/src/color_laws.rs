//! Properties of colour parsing and of the lightness verdict.
use vstd::prelude::*;
use crate::color::{
    hex_digit_value, is_light_rgb_spec, light_color, linear_level, parsed_rgb, radix16_pair,
    rgb_of_digits,
};

verus! {

/// The byte with ASCII letters `A`..`Z` turned into `a`..`z`.
pub open spec fn ascii_lower(x: u8) -> u8 {
    if 0x41 <= x <= 0x5a {
        (x + 32) as u8
    } else {
        x
    }
}

/// Channel levels never fall as the channel value grows, one step at a time.
proof fn lemma_linear_level_step(x: u8)
    requires
        x < 255,
    ensures
        linear_level(x) < linear_level((x + 1) as u8),
{
}

/// Channel levels never fall as the channel value grows.
pub proof fn lemma_linear_level_monotone(x: u8, y: u8)
    requires
        x <= y,
    ensures
        linear_level(x) <= linear_level(y),
    decreases y - x,
{
    if x < y {
        lemma_linear_level_step(x);
        lemma_linear_level_monotone((x + 1) as u8, y);
    }
}

/// Raising any channel never turns a light colour dark.
pub proof fn lemma_lightness_monotone(r: u8, g: u8, b: u8, r2: u8, g2: u8, b2: u8)
    requires
        r <= r2,
        g <= g2,
        b <= b2,
        is_light_rgb_spec(r, g, b),
    ensures
        is_light_rgb_spec(r2, g2, b2),
{
    lemma_linear_level_monotone(r, r2);
    lemma_linear_level_monotone(g, g2);
    lemma_linear_level_monotone(b, b2);
}

/// Red weighs more than blue: moving the larger of two values from the blue
/// channel to the red channel (and the smaller to blue) never makes a light
/// colour dark.
pub proof fn lemma_red_outweighs_blue(x: u8, g: u8, y: u8)
    requires
        y <= x,
        is_light_rgb_spec(y, g, x),
    ensures
        is_light_rgb_spec(x, g, y),
{
    lemma_linear_level_monotone(y, x);
}

/// Green weighs more than red: moving the larger of two values from the red
/// channel to the green channel never makes a light colour dark.
pub proof fn lemma_green_outweighs_red(x: u8, y: u8, b: u8)
    requires
        y <= x,
        is_light_rgb_spec(x, y, b),
    ensures
        is_light_rgb_spec(y, x, b),
{
    lemma_linear_level_monotone(y, x);
}

/// Pure red and pure green are light; pure blue and black are dark; white is light.
pub proof fn lemma_primary_colours()
    ensures
        is_light_rgb_spec(255, 0, 0),
        is_light_rgb_spec(0, 255, 0),
        !is_light_rgb_spec(0, 0, 255),
        !is_light_rgb_spec(0, 0, 0),
        is_light_rgb_spec(255, 255, 255),
{
}

/// The verdict on a written colour reads its channels in the written order,
/// red first and blue last: when a text spells `(r, g, b)` and another spells
/// `(b, g, r)` with `b <= r`, the first is light whenever the second is.
pub proof fn lemma_light_color_reads_red_first(hex: Seq<char>, swapped: Seq<char>, r: u8, g: u8, b: u8)
    requires
        parsed_rgb(hex) == Some((r, g, b)),
        parsed_rgb(swapped) == Some((b, g, r)),
        b <= r,
        light_color(swapped) == Some(true),
    ensures
        light_color(hex) == Some(true),
{
    lemma_red_outweighs_blue(r, g, b);
}

/// A written colour has a verdict exactly when it parses, and the verdict
/// for a text spelling pure red is light and for one spelling pure blue dark.
pub proof fn lemma_light_color_of_primaries(hex: Seq<char>)
    ensures
        light_color(hex) is Some <==> parsed_rgb(hex) is Some,
        parsed_rgb(hex) == Some((255u8, 0u8, 0u8)) ==> light_color(hex) == Some(true),
        parsed_rgb(hex) == Some((0u8, 0u8, 255u8)) ==> light_color(hex) == Some(false),
{
}

/// Hexadecimal digits are case-insensitive: an upper-case letter has the
/// value of its lower-case form, and `A`..`F` stand for 10..15.
pub proof fn lemma_hex_digit_case_insensitive(x: u8)
    ensures
        hex_digit_value(ascii_lower(x)) == hex_digit_value(x),
        0x41 <= x <= 0x46 ==> hex_digit_value(x) == Some((x - 0x41 + 10) as u8),
        0x61 <= x <= 0x66 ==> hex_digit_value(x) == Some((x - 0x61 + 10) as u8),
        0x30 <= x <= 0x39 ==> hex_digit_value(x) == Some((x - 0x30) as u8),
{
}

/// Colour digits read the same in upper and lower case.
pub proof fn lemma_colour_digits_case_insensitive(b: Seq<u8>, lower: Seq<u8>)
    requires
        lower.len() == b.len(),
        forall|i: int| 0 <= i < b.len() ==> lower[i] == ascii_lower(#[trigger] b[i]),
    ensures
        rgb_of_digits(lower) == rgb_of_digits(b),
{
    assert forall|x: u8, y: u8| radix16_pair(ascii_lower(x), ascii_lower(y)) == #[trigger] radix16_pair(x, y) by {
        lemma_hex_digit_case_insensitive(x);
        lemma_hex_digit_case_insensitive(y);
    }
    if b.len() == 3 {
        assert(lower[0] == ascii_lower(b[0]));
        assert(lower[1] == ascii_lower(b[1]));
        assert(lower[2] == ascii_lower(b[2]));
        assert(radix16_pair(lower[0], lower[0]) == radix16_pair(b[0], b[0]));
        assert(radix16_pair(lower[1], lower[1]) == radix16_pair(b[1], b[1]));
        assert(radix16_pair(lower[2], lower[2]) == radix16_pair(b[2], b[2]));
    } else if b.len() == 6 {
        assert(lower[0] == ascii_lower(b[0]));
        assert(lower[1] == ascii_lower(b[1]));
        assert(lower[2] == ascii_lower(b[2]));
        assert(lower[3] == ascii_lower(b[3]));
        assert(lower[4] == ascii_lower(b[4]));
        assert(lower[5] == ascii_lower(b[5]));
        assert(radix16_pair(lower[0], lower[1]) == radix16_pair(b[0], b[1]));
        assert(radix16_pair(lower[2], lower[3]) == radix16_pair(b[2], b[3]));
        assert(radix16_pair(lower[4], lower[5]) == radix16_pair(b[4], b[5]));
    }
}

/// Six upper-case `F` digits spell white.
pub proof fn lemma_upper_case_white()
    ensures
        rgb_of_digits(seq![0x46u8, 0x46u8, 0x46u8, 0x46u8, 0x46u8, 0x46u8]) == Some((255u8, 255u8, 255u8)),
        rgb_of_digits(seq![0x46u8, 0x46u8, 0x46u8]) == Some((255u8, 255u8, 255u8)),
{
}

} // verus!
