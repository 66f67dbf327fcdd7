use julia::parse::parse_fixed;
use julia::parse::parse_gradient;
use julia::parse::parse_hexcode;
use julia::parse::parse_vec2;
use julia::Color;

#[test]
fn hexcode_accepts_exactly_hash_and_six_digits() {
    assert_eq!(
        parse_hexcode("#ff8000"),
        Some(Color {
            r: 255,
            g: 128,
            b: 0,
            a: 255
        })
    );
    assert_eq!(
        parse_hexcode("#FFA0b1"),
        Some(Color {
            r: 255,
            g: 160,
            b: 177,
            a: 255
        })
    );
    assert_eq!(parse_hexcode("ff8000"), None);
    assert_eq!(parse_hexcode("#ff800"), None);
    assert_eq!(parse_hexcode("#ff80000"), None);
    assert_eq!(parse_hexcode("#ff80g0"), None);
    assert_eq!(parse_hexcode(""), None);
    assert_eq!(parse_hexcode("#"), None);
}

#[test]
fn fixed_parses_plain_decimals() {
    assert_eq!(parse_fixed("0"), Some(0));
    assert_eq!(parse_fixed("2"), Some(2_000_000));
    assert_eq!(parse_fixed("3.6"), Some(3_600_000));
    assert_eq!(parse_fixed("0.25"), Some(250_000));
    assert_eq!(parse_fixed("-0.001"), Some(-1_000));
    assert_eq!(parse_fixed("+1.5"), Some(1_500_000));
    assert_eq!(parse_fixed(".5"), Some(500_000));
    assert_eq!(parse_fixed("5."), Some(5_000_000));
}

#[test]
fn fixed_truncates_past_six_fraction_digits() {
    assert_eq!(parse_fixed("0.1234567"), Some(123_456));
    assert_eq!(parse_fixed("0.0000009"), Some(0));
}

#[test]
fn fixed_rejects_malformed_and_oversized() {
    assert_eq!(parse_fixed(""), None);
    assert_eq!(parse_fixed("."), None);
    assert_eq!(parse_fixed("-"), None);
    assert_eq!(parse_fixed("1.2.3"), None);
    assert_eq!(parse_fixed("1e3"), None);
    assert_eq!(parse_fixed("two"), None);
    assert_eq!(parse_fixed("1 2"), None);
    // One unit past the largest accepted whole part.
    assert_eq!(parse_fixed("1000000000001"), None);
}

#[test]
fn vec2_parses_two_components() {
    let v = parse_vec2("0.2, -1.5").expect("pair should parse");
    assert_eq!(v.re, 200_000);
    assert_eq!(v.im, -1_500_000);
    assert_eq!(parse_vec2("1"), None);
    assert_eq!(parse_vec2("1,2,3"), None);
    assert_eq!(parse_vec2("a,2"), None);
    assert_eq!(parse_vec2("1,"), None);
}

#[test]
fn gradient_two_colors_defaults_to_white_tail() {
    let (c1, c2, c3, m) = parse_gradient("black,white").expect("gradient should parse");
    assert_eq!(
        c1,
        Color {
            r: 0,
            g: 0,
            b: 0,
            a: 255
        }
    );
    assert_eq!(
        c2,
        Color {
            r: 255,
            g: 255,
            b: 255,
            a: 255
        }
    );
    assert_eq!(
        c3,
        Color {
            r: 255,
            g: 255,
            b: 255,
            a: 255
        }
    );
    assert_eq!(m, 1_000_000);
}

#[test]
fn gradient_named_colors_come_from_the_css_table() {
    // Would fail if the name lookup handed its argument back unchanged.
    let (c1, _, _, _) = parse_gradient("olive,white").expect("gradient should parse");
    assert_eq!(
        c1,
        Color {
            r: 128,
            g: 128,
            b: 0,
            a: 255
        }
    );
}

#[test]
fn gradient_two_colors_and_midpoint_repeats_second_stop() {
    let (c1, c2, c3, m) = parse_gradient("black,#102030,0.75").expect("gradient should parse");
    assert_eq!(
        c1,
        Color {
            r: 0,
            g: 0,
            b: 0,
            a: 255
        }
    );
    assert_eq!(c2, c3);
    assert_eq!(
        c2,
        Color {
            r: 16,
            g: 32,
            b: 48,
            a: 255
        }
    );
    assert_eq!(m, 750_000);
}

#[test]
fn gradient_three_colors_defaults_to_quarter_midpoint() {
    let (_, _, c3, m) = parse_gradient("black,white,red").expect("gradient should parse");
    assert_eq!(
        c3,
        Color {
            r: 255,
            g: 0,
            b: 0,
            a: 255
        }
    );
    assert_eq!(m, 250_000);
}

#[test]
fn gradient_three_colors_and_midpoint() {
    let (_, _, c3, m) = parse_gradient("black, white, blue, 0.5").expect("gradient should parse");
    assert_eq!(
        c3,
        Color {
            r: 0,
            g: 0,
            b: 255,
            a: 255
        }
    );
    assert_eq!(m, 500_000);
}

#[test]
fn gradient_rejects_bad_shapes() {
    assert_eq!(parse_gradient("black"), None);
    assert_eq!(parse_gradient("black,notacolor"), None);
    assert_eq!(parse_gradient("black,white,0.5,0.6"), None);
    assert_eq!(parse_gradient("black,white,red,0.5,extra"), None);
    assert_eq!(parse_gradient("black,white,red,blue"), None);
    assert_eq!(parse_gradient(""), None);
}
