use shy_notes::color::{
    contrasting_ink, contrasting_surface, hex_rgb_panics, is_light_color, is_light_rgb,
    linear_channel, parse_hex_rgb,
};

fn channel(c: u8) -> f64 {
    let c = f64::from(c) / 255.0;
    if c <= 0.03928 {
        c / 12.92
    } else {
        ((c + 0.055) / 1.055).powf(2.4)
    }
}

fn luminance_is_light(r: u8, g: u8, b: u8) -> bool {
    0.2126 * channel(r) + 0.7152 * channel(g) + 0.0722 * channel(b) > 0.179
}

#[test]
fn parses_six_and_three_digit_colours() {
    assert_eq!(parse_hex_rgb("#1c1a16"), Some((0x1c, 0x1a, 0x16)));
    assert_eq!(parse_hex_rgb("ECE7DC"), Some((0xec, 0xe7, 0xdc)));
    assert_eq!(parse_hex_rgb("#abc"), Some((0xaa, 0xbb, 0xcc)));
    assert_eq!(parse_hex_rgb("  ##fff \n"), Some((255, 255, 255)));
}

#[test]
fn rejects_what_is_no_colour() {
    assert_eq!(parse_hex_rgb(""), None);
    assert_eq!(parse_hex_rgb("#12345"), None);
    assert_eq!(parse_hex_rgb("#ggg"), None);
    assert_eq!(parse_hex_rgb("#1234567"), None);
    assert_eq!(parse_hex_rgb("#+++"), None);
    assert_eq!(parse_hex_rgb("#é12"), None);
}

#[test]
fn pairs_accept_a_plus_sign_like_from_str_radix() {
    assert_eq!(parse_hex_rgb("+f+f+f"), Some((15, 15, 15)));
    assert_eq!(u8::from_str_radix("+f", 16), Ok(15));
}

#[test]
fn slicing_off_a_char_boundary_is_detected() {
    assert!(!hex_rgb_panics("#ffffff"));
    assert!(!hex_rgb_panics("é1234"));
    assert!(hex_rgb_panics("a\u{20ac}bc"));
    assert!(!hex_rgb_panics("zz\u{20ac}b"));
    assert!(hex_rgb_panics("ff\u{20ac}b"));
}

#[test]
fn ink_contrasts_with_paper() {
    assert_eq!(contrasting_ink("#ffffff").as_deref(), Some("#1c1a16"));
    assert_eq!(contrasting_ink("#000").as_deref(), Some("#ece7dc"));
    assert_eq!(contrasting_ink("nonsense"), None);
    assert_eq!(contrasting_surface("#1c1a16").as_deref(), Some("#f3efe6"));
    assert_eq!(contrasting_surface("#ece7dc").as_deref(), Some("#1a1c1b"));
    assert_eq!(contrasting_surface(""), None);
}

#[test]
fn surface_for_the_chosen_ink_matches_the_paper() {
    for bg in ["#ffffff", "#000000", "#808080", "#3a7", "#f3efe6", "#1a1c1b"] {
        let ink = contrasting_ink(bg).unwrap();
        let surface = contrasting_surface(&ink).unwrap();
        assert_eq!(is_light_color(&surface), is_light_color(bg));
    }
}

#[test]
fn lightness_threshold_examples() {
    assert_eq!(is_light_color("#808080"), Some(true));
    assert_eq!(is_light_color("#767676"), Some(true));
    assert_eq!(is_light_color("#757575"), Some(false));
    assert_eq!(is_light_color("#zzz"), None);
    assert_eq!(linear_channel(0), 0);
    assert_eq!(linear_channel(255), 1_000_000_000_000);
}

#[test]
fn integer_lightness_agrees_with_float_luminance_everywhere() {
    for c in 0..=255u8 {
        let exact = (channel(c) * 1e12).round() as u64;
        assert!(linear_channel(c).abs_diff(exact) <= 1);
    }
    let levels: Vec<f64> = (0..=255u8).map(channel).collect();
    for r in 0..=255u8 {
        let lr = 0.2126 * levels[usize::from(r)];
        for g in 0..=255u8 {
            let lrg = lr + 0.7152 * levels[usize::from(g)];
            for b in 0..=255u8 {
                let light = lrg + 0.0722 * levels[usize::from(b)] > 0.179;
                assert_eq!(is_light_rgb(r, g, b), light, "{r} {g} {b}");
            }
        }
    }
    assert!(luminance_is_light(255, 255, 255));
}
