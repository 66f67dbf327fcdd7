use julia::compute::dispatch_group_counts;
use julia::compute::encode_pixels;
use julia::compute::output_byte_len;
use julia::ImgDimensions;

/// Display-encode one linear channel byte via the color library.
fn encode_channel(v: u8) -> u8 {
    let lin = v as f32 / 255.0;
    let enc: palette::Srgb<u8> = palette::Srgb::from_linear(palette::LinSrgb::new(lin, lin, lin));
    enc.red
}

/// Decode one display-encoded channel byte back to linear.
fn decode_channel(v: u8) -> u8 {
    let lin: palette::LinSrgb<f32> = palette::Srgb::new(v, v, v).into_linear();
    (lin.red * 255.0).round() as u8
}

fn encode_table() -> Vec<u8> {
    (0..=255u16).map(|v| encode_channel(v as u8)).collect()
}

fn decode_table() -> Vec<u8> {
    (0..=255u16).map(|v| decode_channel(v as u8)).collect()
}

#[test]
fn dispatch_truncates_to_whole_workgroups() {
    assert_eq!(
        dispatch_group_counts(ImgDimensions {
            width: 100,
            height: 64
        }),
        (12, 8)
    );
    assert_eq!(
        dispatch_group_counts(ImgDimensions {
            width: 64,
            height: 64
        }),
        (8, 8)
    );
    assert_eq!(
        dispatch_group_counts(ImgDimensions {
            width: 7,
            height: 9
        }),
        (0, 1)
    );
}

#[test]
fn output_buffer_covers_the_full_requested_size() {
    // Dimensions not divisible by 8 still get a buffer for every
    // requested pixel; only the dispatch is truncated.
    assert_eq!(
        output_byte_len(ImgDimensions {
            width: 100,
            height: 64
        }),
        Some(100 * 64 * 4)
    );
    assert_eq!(
        output_byte_len(ImgDimensions {
            width: u32::MAX,
            height: u32::MAX
        }),
        None
    );
}

#[test]
fn encode_pixels_maps_color_channels_and_keeps_alpha() {
    let table = encode_table();
    let mut pixels = vec![0u8, 64, 128, 200, 255, 1, 2, 3];
    let expect = vec![
        table[0], table[64], table[128], 200, table[255], table[1], table[2], 3,
    ];
    encode_pixels(&mut pixels, &table);
    assert_eq!(pixels, expect);
}

#[test]
fn fullscreen_quad_covers_clip_space() {
    let quad = julia::render::Vertex::fullscreen_quad();
    assert_eq!(quad.len(), 6);
    for v in quad.iter() {
        assert!(v.x == 1 || v.x == -1);
        assert!(v.y == 1 || v.y == -1);
        assert_eq!(v.z, 0);
        assert_eq!(v.u, (v.x + 1) / 2);
        assert_eq!(v.v, (v.y + 1) / 2);
    }
    // Both winding triangles share the diagonal from (1,-1) to (-1,1).
    assert_eq!(quad[2], quad[4]);
    assert_eq!(quad[1], quad[5]);
}

#[test]
fn linear_to_display_and_back_is_within_one_step() {
    // Round-trip through the export pipeline's two table passes: every
    // 8-bit linear sample comes back within one quantization step.
    let enc = encode_table();
    let dec = decode_table();
    let mut pixels = Vec::new();
    for v in 0..=255u16 {
        pixels.push(v as u8);
        pixels.push(v as u8);
        pixels.push(v as u8);
        pixels.push(255);
    }
    let orig = pixels.clone();
    encode_pixels(&mut pixels, &enc);
    encode_pixels(&mut pixels, &dec);
    for (a, b) in orig.iter().zip(pixels.iter()) {
        let diff = (*a as i16 - *b as i16).abs();
        assert!(diff <= 1, "round trip drifted: {} -> {}", a, b);
    }
}
