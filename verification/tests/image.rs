use ability_clipboard::clipboard::{validate_image_dimensions, ClipboardError};
use ability_clipboard::image::{decode_png_base64, expand_to_rgba, image_from_frame, PixelLayout};
use base64::Engine as _;

/// Encodes a w×h image of the given colour type to a base64 PNG (the same
/// wire shape the ArkTS ImagePacker produces).
fn encode_png_base64_as(width: u32, height: u32, color: png::ColorType, data: &[u8]) -> String {
    let mut bytes = Vec::new();
    {
        let mut encoder = png::Encoder::new(&mut bytes, width, height);
        encoder.set_color(color);
        encoder.set_depth(png::BitDepth::Eight);
        if color == png::ColorType::Indexed {
            encoder.set_palette(vec![10u8, 20, 30, 40, 50, 60]);
        }
        let mut writer = encoder.write_header().expect("png header");
        writer.write_image_data(data).expect("png image data");
    }
    base64::engine::general_purpose::STANDARD.encode(&bytes)
}

fn encode_png_base64(width: u32, height: u32, rgba: &[u8]) -> String {
    encode_png_base64_as(width, height, png::ColorType::Rgba, rgba)
}

#[test]
fn read_image_decodes_base64_png_to_rgba() {
    // 2×1 RGBA: red, transparent
    let rgba = [255, 0, 0, 255, 255, 0, 0, 0];
    let png_base64 = encode_png_base64(2, 1, &rgba);
    let image = decode_png_base64(&png_base64, 2, 1).expect("decode ok");
    assert_eq!(image.width, 2);
    assert_eq!(image.height, 1);
    assert_eq!(image.rgba, rgba);
}

#[test]
fn read_image_rejects_dimension_mismatch() {
    let png_base64 = encode_png_base64(2, 1, &[255, 0, 0, 255, 255, 0, 0, 0]);
    let err = decode_png_base64(&png_base64, 3, 1).expect_err("mismatch rejected");
    assert!(err.reason().contains("dimension mismatch"));
}

#[test]
fn read_image_rejects_invalid_base64() {
    let err = decode_png_base64("!!not base64!!", 1, 1).expect_err("bad base64 rejected");
    assert!(err.reason().contains("base64 decode failed"));
}

#[test]
fn dimension_mismatch_reports_both_sizes() {
    let png_base64 = encode_png_base64(2, 1, &[255, 0, 0, 255, 255, 0, 0, 0]);
    let err = decode_png_base64(&png_base64, 3, 1).unwrap_err();
    assert_eq!(
        err.reason(),
        "clipboard read-image: dimension mismatch: bridge reported 3x1, PNG is 2x1"
    );
}

#[test]
fn read_image_expands_rgb_to_opaque_rgba() {
    let png_base64 = encode_png_base64_as(2, 1, png::ColorType::Rgb, &[1, 2, 3, 4, 5, 6]);
    let image = decode_png_base64(&png_base64, 2, 1).expect("decode ok");
    assert_eq!(image.rgba, vec![1, 2, 3, 255, 4, 5, 6, 255]);
}

#[test]
fn read_image_expands_gray_and_gray_alpha() {
    let gray = encode_png_base64_as(3, 1, png::ColorType::Grayscale, &[0, 7, 200]);
    let image = decode_png_base64(&gray, 3, 1).expect("decode ok");
    assert_eq!(image.rgba, vec![0, 0, 0, 255, 7, 7, 7, 255, 200, 200, 200, 255]);

    let gray_alpha =
        encode_png_base64_as(2, 1, png::ColorType::GrayscaleAlpha, &[9, 100, 50, 0]);
    let image = decode_png_base64(&gray_alpha, 2, 1).expect("decode ok");
    assert_eq!(image.rgba, vec![9, 9, 9, 100, 50, 50, 50, 0]);
}

#[test]
fn read_image_expands_palette_through_rgb() {
    let indexed = encode_png_base64_as(2, 1, png::ColorType::Indexed, &[1, 0]);
    let image = decode_png_base64(&indexed, 2, 1).expect("decode ok");
    assert_eq!(image.rgba, vec![40, 50, 60, 255, 10, 20, 30, 255]);
}

#[test]
fn read_image_rejects_non_png_payload() {
    let payload = base64::engine::general_purpose::STANDARD.encode(b"not a png at all");
    let err = decode_png_base64(&payload, 1, 1).expect_err("not a png");
    assert!(matches!(err, ClipboardError::PngDecode { .. }));
    assert!(err.reason().starts_with("clipboard read-image: PNG decode failed: "));
}

#[test]
fn frames_are_checked_before_conversion() {
    let err = image_from_frame(vec![1, 2, 3], 1, 1, PixelLayout::Indexed, 1, 1).unwrap_err();
    assert!(matches!(err, ClipboardError::UnexpectedIndexed));
    assert_eq!(
        err.reason(),
        "clipboard read-image: unexpected indexed output after normalize_to_color8"
    );

    let err = image_from_frame(vec![1, 2, 3], 1, 2, PixelLayout::Indexed, 1, 1).unwrap_err();
    assert!(matches!(
        err,
        ClipboardError::DimensionMismatch { reported_width: 1, reported_height: 1, png_width: 1, png_height: 2 }
    ));

    let image = image_from_frame(vec![5, 6], 2, 1, PixelLayout::Grayscale, 2, 1).expect("ok");
    assert_eq!(image.rgba, vec![5, 5, 5, 255, 6, 6, 6, 255]);
    assert_eq!((image.width, image.height), (2, 1));
}

#[test]
fn conversion_drops_a_trailing_partial_pixel() {
    assert_eq!(
        expand_to_rgba(vec![1, 2, 3, 4, 5, 6, 7], PixelLayout::Rgb),
        vec![1, 2, 3, 255, 4, 5, 6, 255]
    );
    assert_eq!(expand_to_rgba(vec![1, 2, 3], PixelLayout::GrayscaleAlpha), vec![1, 1, 1, 2]);
    assert_eq!(expand_to_rgba(vec![1, 2, 3, 4, 5], PixelLayout::Rgba), vec![1, 2, 3, 4, 5]);
    assert_eq!(expand_to_rgba(vec![], PixelLayout::Grayscale), Vec::<u8>::new());
}

#[test]
fn png_colour_codes() {
    assert_eq!(PixelLayout::from_png_code(0), Some(PixelLayout::Grayscale));
    assert_eq!(PixelLayout::from_png_code(2), Some(PixelLayout::Rgb));
    assert_eq!(PixelLayout::from_png_code(3), Some(PixelLayout::Indexed));
    assert_eq!(PixelLayout::from_png_code(4), Some(PixelLayout::GrayscaleAlpha));
    assert_eq!(PixelLayout::from_png_code(6), Some(PixelLayout::Rgba));
    assert_eq!(PixelLayout::from_png_code(1), None);
}

#[test]
fn decoded_image_is_writable_back() {
    let gray = encode_png_base64_as(3, 2, png::ColorType::Grayscale, &[1, 2, 3, 4, 5, 6]);
    let image = decode_png_base64(&gray, 3, 2).expect("decode ok");
    assert_eq!(image.rgba.len(), 3 * 2 * 4);
    assert!(validate_image_dimensions(&image.rgba, image.width, image.height).is_ok());
}
