use image::codecs::png::{CompressionType, FilterType, PngEncoder};
use image::{ImageBuffer, ImageEncoder, ImageReader, Rgb, Rgba};
use imgopt::processor::{
    accept_encoded, check_request, check_source, clamp_quality, has_markers, process_image, OutputFormat,
    ProcessError, ProcessOptions, MAX_DIMENSION,
};
use imgopt::reply::{Outcome, Reply};
use std::io::Cursor;

/// Minimal 1×1 PNG.
const PNG_1X1: &[u8] = &[
    0x89, 0x50, 0x4E, 0x47, 0x0D, 0x0A, 0x1A, 0x0A, 0x00, 0x00, 0x00, 0x0D, 0x49, 0x48, 0x44, 0x52,
    0x00, 0x00, 0x00, 0x01, 0x00, 0x00, 0x00, 0x01, 0x08, 0x02, 0x00, 0x00, 0x00, 0x90, 0x77, 0x53,
    0xDE, 0x00, 0x00, 0x00, 0x0C, 0x49, 0x44, 0x41, 0x54, 0x08, 0xD7, 0x63, 0xF8, 0xCF, 0xC0, 0x00,
    0x00, 0x03, 0x01, 0x01, 0x00, 0x18, 0xDD, 0x8D, 0xB0, 0x00, 0x00, 0x00, 0x00, 0x49, 0x45, 0x4E,
    0x44, 0xAE, 0x42, 0x60, 0x82,
];

fn create_test_image() -> Vec<u8> {
    let mut img: ImageBuffer<Rgba<u8>, Vec<u8>> = ImageBuffer::new(100, 100);
    for pixel in img.pixels_mut() {
        *pixel = Rgba([255, 0, 0, 255]);
    }
    let mut bytes = Vec::new();
    img.write_to(&mut Cursor::new(&mut bytes), image::ImageFormat::Png)
        .unwrap();
    bytes
}

fn blank_png(width: u32, height: u32) -> Vec<u8> {
    let pixels = vec![0u8; (width as usize) * (height as usize)];
    let mut bytes = Vec::new();
    PngEncoder::new_with_quality(&mut bytes, CompressionType::Fast, FilterType::NoFilter)
        .write_image(&pixels, width, height, image::ExtendedColorType::L8)
        .unwrap();
    bytes
}

fn rgb_png(width: u32, height: u32) -> Vec<u8> {
    let img: ImageBuffer<Rgb<u8>, Vec<u8>> = ImageBuffer::from_pixel(width, height, Rgb([0, 128, 255]));
    let mut bytes = Vec::new();
    img.write_to(&mut Cursor::new(&mut bytes), image::ImageFormat::Png)
        .unwrap();
    bytes
}

fn options(quality: u32, width: Option<u32>, height: Option<u32>, format: OutputFormat) -> ProcessOptions {
    ProcessOptions { quality, width, height, format }
}

#[test]
fn test_process_webp() {
    let input = create_test_image();
    let result = process_image(&input, options(80, None, None, OutputFormat::WebP)).unwrap();
    assert!(!result.is_empty());
    assert_eq!(&result[0..4], b"RIFF");
    assert_eq!(&result[8..12], b"WEBP");
}

#[test]
fn test_process_avif() {
    let input = create_test_image();
    let result = process_image(&input, options(80, None, None, OutputFormat::Avif)).unwrap();
    assert!(!result.is_empty());
    assert_eq!(&result[4..8], b"ftyp");
    assert_eq!(&result[8..12], b"avif");
}

#[test]
fn test_resize() {
    let input = create_test_image();
    let result = process_image(&input, options(80, Some(50), Some(50), OutputFormat::WebP)).unwrap();
    let decoded = ImageReader::new(Cursor::new(result))
        .with_guessed_format()
        .unwrap()
        .decode()
        .unwrap();
    assert_eq!(decoded.width(), 50);
    assert_eq!(decoded.height(), 50);
}

#[test]
fn test_dimension_too_large_rejected() {
    let input = create_test_image();
    let result = process_image(&input, options(80, Some(MAX_DIMENSION + 1), None, OutputFormat::WebP));
    assert!(result.is_err());
}

#[test]
fn test_quality_clamped() {
    let input = create_test_image();
    // quality=150 should be clamped to 100, not return an error
    let result = process_image(&input, options(150, None, None, OutputFormat::WebP));
    assert!(result.is_ok());
}

#[test]
fn width_only_keeps_aspect_ratio() {
    let input = rgb_png(100, 50);
    let result = process_image(&input, options(80, Some(40), None, OutputFormat::WebP)).unwrap();
    let decoded = image::load_from_memory(&result).unwrap();
    assert_eq!((decoded.width(), decoded.height()), (40, 20));
}

#[test]
fn height_only_keeps_aspect_ratio() {
    let input = rgb_png(100, 50);
    let result = process_image(&input, options(80, None, Some(10), OutputFormat::WebP)).unwrap();
    let decoded = image::load_from_memory(&result).unwrap();
    assert_eq!((decoded.width(), decoded.height()), (20, 10));
}

#[test]
fn exact_resize_ignores_aspect_ratio() {
    let input = rgb_png(100, 50);
    let result = process_image(&input, options(80, Some(7), Some(30), OutputFormat::WebP)).unwrap();
    let decoded = image::load_from_memory(&result).unwrap();
    assert_eq!((decoded.width(), decoded.height()), (7, 30));
}

#[test]
fn no_resize_keeps_source_size() {
    let input = rgb_png(33, 21);
    let result = process_image(&input, options(80, None, None, OutputFormat::WebP)).unwrap();
    let decoded = image::load_from_memory(&result).unwrap();
    assert_eq!((decoded.width(), decoded.height()), (33, 21));
}

#[test]
fn one_pixel_png_round_trips_both_formats() {
    for (format, mime) in [(OutputFormat::WebP, "image/webp"), (OutputFormat::Avif, "image/avif")] {
        let out = process_image(PNG_1X1, options(80, None, None, format)).unwrap();
        assert!(has_markers(format, &out));
        let reply = Reply::from_outcome(Outcome::Finished(Ok(out)), format, "req-1".to_string());
        assert_eq!(reply.status(), 200);
        assert_eq!(reply.content_type(), Some(mime));
        match reply {
            Reply::Image { request_id, bytes, .. } => {
                assert_eq!(request_id, "req-1");
                assert!(!bytes.is_empty());
            }
            Reply::Failure { .. } => panic!("expected an image"),
        }
    }
}

#[test]
fn every_quality_in_range_encodes() {
    for quality in [1, 2, 50, 99, 100] {
        let result = process_image(PNG_1X1, options(quality, None, None, OutputFormat::WebP));
        assert!(result.is_ok(), "quality {quality}");
    }
    let result = process_image(PNG_1X1, options(1, None, None, OutputFormat::Avif));
    assert!(result.is_ok());
    let result = process_image(PNG_1X1, options(100, None, None, OutputFormat::Avif));
    assert!(result.is_ok());
}

#[test]
fn grayscale_source_encodes_in_both_formats() {
    let input = blank_png(8, 8);
    let webp = process_image(&input, options(80, None, None, OutputFormat::WebP)).unwrap();
    assert!(has_markers(OutputFormat::WebP, &webp));
    let decoded = image::load_from_memory(&webp).unwrap();
    assert_eq!((decoded.width(), decoded.height()), (8, 8));
    let avif = process_image(&input, options(80, None, None, OutputFormat::Avif)).unwrap();
    assert!(has_markers(OutputFormat::Avif, &avif));
}

#[test]
fn empty_source_is_refused() {
    let mut farbfeld = b"farbfeld".to_vec();
    farbfeld.extend_from_slice(&[0, 0, 0, 0, 0, 0, 0, 0]);
    for format in [OutputFormat::WebP, OutputFormat::Avif] {
        let result = process_image(&farbfeld, options(80, None, None, format));
        assert_eq!(result, Err(ProcessError::EmptySource { width: 0, height: 0 }));
    }
}

#[test]
fn encoding_is_repeatable() {
    let input = create_test_image();
    for format in [OutputFormat::WebP, OutputFormat::Avif] {
        let first = process_image(&input, options(70, Some(20), None, format)).unwrap();
        let second = process_image(&input, options(70, Some(20), None, format)).unwrap();
        assert_eq!(first, second);
    }
}

#[test]
fn accept_encoded_keeps_only_marked_output() {
    let webp = b"RIFF\x10\x00\x00\x00WEBPVP8 ".to_vec();
    assert_eq!(accept_encoded(OutputFormat::WebP, Some(webp.clone())), Ok(webp.clone()));
    assert_eq!(accept_encoded(OutputFormat::Avif, Some(webp)), Err(ProcessError::Encode));
    assert_eq!(accept_encoded(OutputFormat::WebP, None), Err(ProcessError::Encode));
    assert_eq!(accept_encoded(OutputFormat::WebP, Some(vec![])), Err(ProcessError::Encode));
}

#[test]
fn undecodable_input_is_decode_error() {
    let result = process_image(b"definitely not an image", options(80, None, None, OutputFormat::WebP));
    assert_eq!(result, Err(ProcessError::Decode));
    let truncated = &PNG_1X1[..30];
    let result = process_image(truncated, options(80, None, None, OutputFormat::WebP));
    assert_eq!(result, Err(ProcessError::Decode));
}

#[test]
fn request_checks_run_before_decode() {
    let garbage = b"not an image";
    assert_eq!(
        process_image(garbage, options(80, Some(0), None, OutputFormat::WebP)),
        Err(ProcessError::WidthOutOfRange { width: 0 })
    );
    assert_eq!(
        process_image(garbage, options(80, None, Some(4097), OutputFormat::WebP)),
        Err(ProcessError::HeightOutOfRange { height: 4097 })
    );
    assert_eq!(
        process_image(garbage, options(80, Some(4096), Some(4096), OutputFormat::WebP)),
        Err(ProcessError::RequestedPixelsExceeded { width: 4096, height: 4096 })
    );
}

#[test]
fn check_request_limits() {
    assert_eq!(check_request(&options(80, Some(4096), Some(3906), OutputFormat::WebP)), Ok(()));
    assert_eq!(
        check_request(&options(80, Some(4096), Some(3907), OutputFormat::WebP)),
        Err(ProcessError::RequestedPixelsExceeded { width: 4096, height: 3907 })
    );
    assert_eq!(check_request(&options(80, Some(1), None, OutputFormat::Avif)), Ok(()));
    assert_eq!(check_request(&options(80, None, None, OutputFormat::Avif)), Ok(()));
}

#[test]
fn check_source_limits() {
    assert_eq!(check_source(4096, 3906), Ok(()));
    assert_eq!(check_source(4096, 3907), Err(ProcessError::SourceTooLarge { width: 4096, height: 3907 }));
    assert_eq!(check_source(4097, 1), Err(ProcessError::SourceTooLarge { width: 4097, height: 1 }));
    assert_eq!(check_source(1, 4097), Err(ProcessError::SourceTooLarge { width: 1, height: 4097 }));
    assert_eq!(check_source(0, 0), Err(ProcessError::EmptySource { width: 0, height: 0 }));
    assert_eq!(check_source(0, 7), Err(ProcessError::EmptySource { width: 0, height: 7 }));
    assert_eq!(check_source(1, 1), Ok(()));
}

#[test]
fn wide_source_is_refused_after_decode() {
    let input = blank_png(4097, 1);
    let result = process_image(&input, options(80, Some(10), Some(10), OutputFormat::WebP));
    assert_eq!(result, Err(ProcessError::SourceTooLarge { width: 4097, height: 1 }));
}

#[test]
fn decompression_bomb_is_refused() {
    let input = blank_png(4096, 4000);
    assert!(input.len() * 10 < 4096 * 4000, "compressed size {}", input.len());
    let result = process_image(&input, options(80, Some(10), Some(10), OutputFormat::WebP));
    assert_eq!(result, Err(ProcessError::SourceTooLarge { width: 4096, height: 4000 }));
    let reply = Reply::from_outcome(Outcome::Finished(result), OutputFormat::WebP, "r".to_string());
    assert_eq!(reply.status(), 422);
    match reply {
        Reply::Failure { message, .. } => assert_eq!(message, "Image processing failed"),
        Reply::Image { .. } => panic!("expected a failure"),
    }
}

#[test]
fn quality_clamp_bounds() {
    assert_eq!(clamp_quality(0), 1);
    assert_eq!(clamp_quality(1), 1);
    assert_eq!(clamp_quality(57), 57);
    assert_eq!(clamp_quality(100), 100);
    assert_eq!(clamp_quality(150), 100);
    assert_eq!(clamp_quality(u32::MAX), 100);
}

#[test]
fn container_markers() {
    let webp = b"RIFF\x10\x00\x00\x00WEBPVP8 ";
    let avif = b"\x00\x00\x00\x1cftypavif\x00\x00";
    assert!(has_markers(OutputFormat::WebP, webp));
    assert!(!has_markers(OutputFormat::Avif, webp));
    assert!(has_markers(OutputFormat::Avif, avif));
    assert!(!has_markers(OutputFormat::WebP, avif));
    assert!(!has_markers(OutputFormat::WebP, b"RIFF\x10\x00\x00\x00WEB"));
    assert!(!has_markers(OutputFormat::Avif, b""));
}
