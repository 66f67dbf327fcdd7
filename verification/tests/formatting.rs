use julia::params::viewport_extents;
use julia::state::default_state;
use julia::text::fmt_color_hex;
use julia::text::fmt_fixed;
use julia::Color;
use julia::Complex;
use julia::ImgDimensions;
use julia::JuliaData;

#[test]
fn fixed_point_prints_like_a_decimal() {
    assert_eq!(fmt_fixed(3_600_000), "3.6");
    assert_eq!(fmt_fixed(250_000), "0.25");
    assert_eq!(fmt_fixed(0), "0");
    assert_eq!(fmt_fixed(2_000_000), "2");
    assert_eq!(fmt_fixed(-1_000), "-0.001");
    assert_eq!(fmt_fixed(-12_345_678), "-12.345678");
    assert_eq!(fmt_fixed(1_000_001), "1.000001");
}

#[test]
fn colors_print_as_six_hex_digits() {
    assert_eq!(
        fmt_color_hex(Color {
            r: 255,
            g: 128,
            b: 0,
            a: 255
        }),
        "ff8000"
    );
    assert_eq!(
        fmt_color_hex(Color {
            r: 0,
            g: 0,
            b: 0,
            a: 0
        }),
        "000000"
    );
}

#[test]
fn export_filename_spells_every_parameter() {
    let d = default_state();
    let name = d.export_filename(ImgDimensions {
        width: 64,
        height: 64,
    });
    assert_eq!(
        name,
        "x2_0.2_0i_m100_c0-0_e3.6-3.6_c000000-ffffff-ffffff-0-0.25-1_64x64.png"
    );
}

#[test]
fn viewport_extent_scales_the_smaller_axis_down() {
    assert_eq!(
        viewport_extents(800, 600, 3_600_000),
        Complex {
            re: 3_600_000,
            im: 2_700_000
        }
    );
    assert_eq!(
        viewport_extents(600, 800, 3_600_000),
        Complex {
            re: 2_700_000,
            im: 3_600_000
        }
    );
    assert_eq!(
        viewport_extents(512, 512, 3_600_000),
        Complex {
            re: 3_600_000,
            im: 3_600_000
        }
    );
}

#[test]
fn export_adjusts_the_larger_axis_up() {
    let d = default_state();
    let adjusted = d.export_adjusted(ImgDimensions {
        width: 800,
        height: 600,
    });
    assert_eq!(
        adjusted.extents,
        Complex {
            re: 4_800_000,
            im: 3_600_000
        }
    );
    let tall = d.export_adjusted(ImgDimensions {
        width: 600,
        height: 800,
    });
    assert_eq!(
        tall.extents,
        Complex {
            re: 3_600_000,
            im: 4_800_000
        }
    );
    let square = d.export_adjusted(ImgDimensions {
        width: 64,
        height: 64,
    });
    assert_eq!(square.extents, d.extents);
}

#[test]
fn assemble_validates_every_bound() {
    let colors = (
        Color {
            r: 0,
            g: 0,
            b: 0,
            a: 255,
        },
        Color {
            r: 255,
            g: 255,
            b: 255,
            a: 255,
        },
        Color {
            r: 255,
            g: 255,
            b: 255,
            a: 255,
        },
    );
    let c = Complex { re: 200_000, im: 0 };
    let center = Complex { re: 0, im: 0 };
    let extents = Complex {
        re: 3_600_000,
        im: 3_600_000,
    };
    let good = JuliaData::assemble(colors, 250_000, 2, c, 100, center, extents);
    assert!(good.is_some());
    let d = good.unwrap();
    assert_eq!(d.midpoint0, 0);
    assert_eq!(d.midpoint1, 250_000);
    assert_eq!(d.midpoint2, 1_000_000);
    assert!(JuliaData::assemble(colors, 1_000_001, 2, c, 100, center, extents).is_none());
    assert!(JuliaData::assemble(colors, -1, 2, c, 100, center, extents).is_none());
    assert!(JuliaData::assemble(colors, 250_000, 1, c, 100, center, extents).is_none());
    assert!(JuliaData::assemble(colors, 250_000, 2, c, 0, center, extents).is_none());
    assert!(JuliaData::assemble(
        colors,
        250_000,
        2,
        c,
        100,
        center,
        Complex { re: 0, im: 3_600_000 }
    )
    .is_none());
}
