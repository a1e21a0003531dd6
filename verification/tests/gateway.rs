use image::GenericImageView;
use image_gateway::{minify_png, png_to_webp, resize_png, OpError};

fn make_png(width: u32, height: u32, color: png::ColorType, pixel: &[u8]) -> Vec<u8> {
    let mut out: Vec<u8> = Vec::new();
    {
        let mut enc = png::Encoder::new(&mut out, width, height);
        enc.set_color(color);
        enc.set_depth(png::BitDepth::Eight);
        let mut writer = enc.write_header().unwrap();
        let mut data: Vec<u8> = Vec::new();
        for _ in 0..(width as usize * height as usize) {
            data.extend_from_slice(pixel);
        }
        writer.write_image_data(&data).unwrap();
        writer.finish().unwrap();
    }
    out
}

fn make_rgba_png(width: u32, height: u32, rgba: [u8; 4]) -> Vec<u8> {
    make_png(width, height, png::ColorType::Rgba, &rgba)
}

#[test]
fn resize_returns_input_when_within_bound() {
    let input = make_rgba_png(2, 2, [10, 20, 30, 255]);
    let out = resize_png(&input, 10).unwrap();
    assert_eq!(out, input);
}

#[test]
fn resize_at_exact_bound_is_pass_through() {
    let input = make_rgba_png(5, 7, [1, 2, 3, 4]);
    let out = resize_png(&input, 7).unwrap();
    assert_eq!(out, input);
}

#[test]
fn resize_shrinks_to_bound_and_keeps_ratio() {
    // 100 wide by 300 tall, bound 100: height becomes 100 and the width
    // becomes round(100 / 3) = 33.
    let input = make_rgba_png(100, 300, [200, 100, 50, 255]);
    let out = resize_png(&input, 100).unwrap();
    assert_ne!(out, input);
    let img = image::load_from_memory(&out).unwrap();
    assert_eq!(img.dimensions(), (33, 100));
}

#[test]
fn resize_rounds_width_to_nearest_pixel() {
    // 50 wide by 300 tall, bound 100: exact width 50 / 3 = 16.67, so 17.
    let input = make_rgba_png(50, 300, [0, 0, 0, 255]);
    let out = resize_png(&input, 100).unwrap();
    let img = image::load_from_memory(&out).unwrap();
    assert_eq!(img.dimensions(), (17, 100));
}

#[test]
fn resize_rejects_garbage() {
    let input: Vec<u8> = b"definitely not an image".to_vec();
    let r = resize_png(&input, 100);
    assert!(matches!(r, Err(OpError::DecodeError(_))));
}

#[test]
fn resize_reports_encode_failure_on_zero_width() {
    // 1 wide by 300 tall, bound 100: the rounded width is 0, which the PNG
    // encoder refuses.
    let input = make_rgba_png(1, 300, [9, 9, 9, 255]);
    let r = resize_png(&input, 100);
    assert!(matches!(r, Err(OpError::EncodeError(_))));
}

#[test]
fn minify_roundtrip_is_lossless() {
    let mut input_pixels: Vec<u8> = Vec::new();
    let mut out: Vec<u8> = Vec::new();
    {
        let mut enc = png::Encoder::new(&mut out, 8, 8);
        enc.set_color(png::ColorType::Rgba);
        enc.set_depth(png::BitDepth::Eight);
        let mut writer = enc.write_header().unwrap();
        for i in 0..(8 * 8) as u32 {
            input_pixels.extend_from_slice(&[(3 * i) as u8, (5 * i) as u8, (7 * i) as u8, 255]);
        }
        writer.write_image_data(&input_pixels).unwrap();
        writer.finish().unwrap();
    }
    let minified = minify_png(&out, 2).unwrap();
    assert_ne!(minified, out);
    let img = image::load_from_memory(&minified).unwrap();
    assert_eq!(img.dimensions(), (8, 8));
    assert_eq!(img.to_rgba8().into_raw(), input_pixels);
}

#[test]
fn minify_caps_level_beyond_top_preset() {
    let input = make_rgba_png(6, 4, [120, 8, 220, 130]);
    let at_top = minify_png(&input, 6).unwrap();
    let above = minify_png(&input, 7).unwrap();
    let far_above = minify_png(&input, 255).unwrap();
    assert_eq!(at_top, above);
    assert_eq!(at_top, far_above);
}

#[test]
fn minify_rejects_garbage() {
    let input: Vec<u8> = vec![0u8; 40];
    let r = minify_png(&input, 3);
    assert!(matches!(r, Err(OpError::OptimizationError(_))));
}

#[test]
fn webp_conversion_preserves_solid_color() {
    let input = make_rgba_png(2, 2, [255, 0, 0, 255]);
    let out = png_to_webp(&input, 100).unwrap();
    assert_eq!(&out[..4], b"RIFF");
    let decoded = webp::Decoder::new(&out).decode().unwrap().to_image().to_rgba8();
    assert_eq!(decoded.dimensions(), (2, 2));
    for pixel in decoded.pixels() {
        assert!((pixel.0[0] as i32 - 255).abs() <= 16);
        assert!((pixel.0[1] as i32).abs() <= 16);
        assert!((pixel.0[2] as i32).abs() <= 16);
        assert_eq!(pixel.0[3], 255);
    }
}

#[test]
fn webp_rejects_garbage() {
    let input: Vec<u8> = b"PNG? no.".to_vec();
    let r = png_to_webp(&input, 80);
    assert!(matches!(r, Err(OpError::DecodeError(_))));
}

#[test]
fn webp_reports_frame_failure_on_truncated_input() {
    let whole = make_rgba_png(2, 2, [44, 55, 66, 255]);
    let truncated: Vec<u8> = whole[..whole.len() - 20].to_vec();
    let r = png_to_webp(&truncated, 80);
    assert!(matches!(r, Err(OpError::FrameError(_))));
}

#[test]
fn webp_rejects_non_rgba_layout() {
    let input = make_png(3, 3, png::ColorType::Rgb, &[10, 20, 30]);
    let r = png_to_webp(&input, 80);
    match r {
        Err(OpError::DecodeError(msg)) => {
            assert_eq!(msg, "pixel data is not 8-bit RGBA");
        }
        other => panic!("expected a decode error, got {:?}", other),
    }
}

#[test]
fn webp_reports_out_of_range_quality() {
    let input = make_rgba_png(2, 2, [1, 2, 3, 255]);
    let r = png_to_webp(&input, 200);
    assert!(matches!(r, Err(OpError::EncodeError(_))));
}

#[test]
fn error_message_is_preserved_verbatim() {
    let e = OpError::FrameError(String::from("frame went missing"));
    assert_eq!(e.message(), "frame went missing");
}
