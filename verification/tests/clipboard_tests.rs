use pst::clipboard::{
    byte_is_text, detect_image_format, filename_with_stem, generate_random_filename,
    get_clipboard_extension, is_likely_binary_data, path_candidates, pixel_layout, ClipboardContent,
    ClipboardError, ImageFormat, PixelLayout,
};
use std::path::PathBuf;

fn padded(signature: &[u8]) -> Vec<u8> {
    let mut data = signature.to_vec();
    data.extend_from_slice(&[0u8; 12]);
    data
}

#[test]
fn detect_image_format_reads_each_signature() {
    assert!(matches!(detect_image_format(&padded(&[0x89, 0x50, 0x4E, 0x47, 0x0D, 0x0A, 0x1A, 0x0A])), ImageFormat::Png));
    assert!(matches!(detect_image_format(&padded(&[0xFF, 0xD8, 0xFF])), ImageFormat::Jpeg));
    assert!(matches!(detect_image_format(&padded(b"GIF87a")), ImageFormat::Gif));
    assert!(matches!(detect_image_format(&padded(b"GIF89a")), ImageFormat::Gif));
    assert!(matches!(detect_image_format(&padded(b"BM")), ImageFormat::Bmp));
    assert!(matches!(detect_image_format(b"RIFF\x00\x00\x00\x00WEBP"), ImageFormat::WebP));
    assert!(matches!(detect_image_format(&padded(&[0x4D, 0x4D, 0x00, 0x2A])), ImageFormat::Tiff));
    assert!(matches!(detect_image_format(&padded(&[0x49, 0x49, 0x2A, 0x00])), ImageFormat::Tiff));
}

#[test]
fn detect_image_format_knows_nothing_else() {
    assert_eq!(detect_image_format(&padded(b"RIFF")), ImageFormat::Unknown);
    assert_eq!(detect_image_format(b"RIFF\x00\x00\x00\x00WEB"), ImageFormat::Unknown);
    assert_eq!(detect_image_format(&padded(b"GIF88a")), ImageFormat::Unknown);
    assert_eq!(detect_image_format(&padded(&[0x89, 0x50, 0x4E, 0x47, 0x0D, 0x0A, 0x1A, 0x0B])), ImageFormat::Unknown);
    assert_eq!(detect_image_format(&padded(&[0x4D, 0x4D, 0x2A, 0x00])), ImageFormat::Unknown);
    assert_eq!(detect_image_format(&padded(b"hello")), ImageFormat::Unknown);
    assert_eq!(detect_image_format(&[]), ImageFormat::Unknown);
}

#[test]
fn detect_image_format_needs_eight_bytes() {
    assert_eq!(detect_image_format(&[0xFF, 0xD8, 0xFF, 0xE0, 0, 0, 0]), ImageFormat::Unknown);
    assert_eq!(detect_image_format(&[0xFF, 0xD8, 0xFF, 0xE0, 0, 0, 0, 0]), ImageFormat::Jpeg);
    assert_eq!(detect_image_format(b"BM12345"), ImageFormat::Unknown);
    assert_eq!(detect_image_format(b"BM123456"), ImageFormat::Bmp);
}

#[test]
fn clipboard_extension_of_each_format() {
    assert_eq!(get_clipboard_extension(&ImageFormat::Png), "png");
    assert_eq!(get_clipboard_extension(&ImageFormat::Jpeg), "jpg");
    assert_eq!(get_clipboard_extension(&ImageFormat::Gif), "gif");
    assert_eq!(get_clipboard_extension(&ImageFormat::Bmp), "bmp");
    assert_eq!(get_clipboard_extension(&ImageFormat::Tiff), "tiff");
    assert_eq!(get_clipboard_extension(&ImageFormat::WebP), "webp");
    assert_eq!(get_clipboard_extension(&ImageFormat::Unknown), "bin");
}

#[test]
fn text_bytes_are_what_std_says() {
    for b in 0..=255u8 {
        let expected = b.is_ascii_graphic() || b.is_ascii_whitespace() || b == b'\n' || b == b'\r' || b == b'\t';
        assert_eq!(byte_is_text(b), expected, "byte {}", b);
    }
}

#[test]
fn binary_data_is_told_by_signature_or_by_its_bytes() {
    assert!(!is_likely_binary_data(b""));
    assert!(!is_likely_binary_data(&[0, 0, 0, 0]));
    assert!(is_likely_binary_data(&[0, 0, 0, 0, 0]));
    assert!(is_likely_binary_data(&[0xFF, 0xD8, 0xFF, b'a', b'b', b'c', b'd', b'e', b'f', b'g', b'h', b'i', b'j', b'k', b'l']));
    assert!(is_likely_binary_data(b"\x89PNG and then text only"));
    assert!(is_likely_binary_data(b"GIF87a and then text only"));
    assert!(is_likely_binary_data(b"GIF89a and then text only"));
    assert!(is_likely_binary_data(b"%PDF-1.7 and then text only"));
    assert!(!is_likely_binary_data(b"GIF88a and then text only"));
    assert!(!is_likely_binary_data(b"plain text"));
    // Exactly four in five text bytes is not fewer than four in five.
    assert!(!is_likely_binary_data(&[b'a', b'b', b'c', b'd', 0]));
    assert!(!is_likely_binary_data(&[b'a', b'b', b'c', b'd', 0, b'e', b'f', b'g', b'h', 1]));
    assert!(is_likely_binary_data(&[b'a', b'b', b'c', 0, 0, b'e', b'f', b'g', b'h', 1]));
    assert!(is_likely_binary_data(&[b'a', b'b', b'c', b'd', 0, 0]));
}

#[test]
fn binary_data_agrees_with_the_ratio() {
    for zeros in 0..40usize {
        let mut data = vec![b'x'; 40 - zeros];
        data.extend(std::iter::repeat(0u8).take(zeros));
        let text_chars = 40 - zeros;
        let ratio = text_chars as f64 / data.len() as f64;
        assert_eq!(is_likely_binary_data(&data), ratio < 0.8, "{} zeros", zeros);
    }
}

#[test]
fn random_filename_has_stem_and_extension() {
    let name = generate_random_filename("txt");
    assert_eq!(name.len(), 12);
    assert!(name.ends_with(".txt"));
    assert!(name[..8].chars().all(|c| c.is_ascii_alphanumeric()));
    let dotted = generate_random_filename(".png");
    assert_eq!(dotted.len(), 12);
    assert!(dotted.ends_with(".png"));
    assert!(!dotted.ends_with("..png"));
    let bare = generate_random_filename("");
    assert_eq!(bare.len(), 9);
    assert!(bare.ends_with('.'));
    assert_eq!(filename_with_stem("abcdefgh", "jpg"), "abcdefgh.jpg");
    assert_eq!(filename_with_stem("abcdefgh", ".jpg"), "abcdefgh.jpg");
}

#[test]
fn path_candidates_are_the_words_between_separators() {
    assert_eq!(path_candidates("/tmp/a /tmp/b\n/tmp/c\r\n"), vec!["/tmp/a", "/tmp/b", "/tmp/c"]);
    assert_eq!(path_candidates(""), Vec::<String>::new());
    assert_eq!(path_candidates("  \n \r "), Vec::<String>::new());
    assert_eq!(path_candidates("one"), vec!["one"]);
    assert_eq!(path_candidates("a\tb c"), vec!["a\tb", "c"]);
    assert_eq!(path_candidates("a \t b"), vec!["a", "b"]);
    let text = " x  y\n\n z\u{a0}w \u{2003} ";
    let expected: Vec<String> = text
        .split(&['\n', '\r', ' '][..])
        .filter(|s| !s.trim().is_empty())
        .map(|s| s.to_string())
        .collect();
    assert_eq!(path_candidates(text), expected);
}

#[test]
fn clipboard_text_is_taken_for_what_it_is() {
    assert!(matches!(ClipboardContent::from_text("".to_string(), vec![]), ClipboardContent::Empty));
    assert!(matches!(
        ClipboardContent::from_text(" \n\t".to_string(), vec![PathBuf::from("/")]),
        ClipboardContent::Empty
    ));
    match ClipboardContent::from_text("hello world".to_string(), vec![]) {
        ClipboardContent::Text(text) => assert_eq!(text, "hello world"),
        other => panic!("unexpected {:?}", other),
    }
    match ClipboardContent::from_text("/ /tmp".to_string(), vec![PathBuf::from("/"), PathBuf::from("/tmp")]) {
        ClipboardContent::Files(paths) => assert_eq!(paths, vec![PathBuf::from("/"), PathBuf::from("/tmp")]),
        other => panic!("unexpected {:?}", other),
    }
}

#[test]
fn long_binary_text_is_an_image() {
    let mut text = String::from("GIF89a");
    for _ in 0..100 {
        text.push('x');
    }
    match ClipboardContent::from_text(text.clone(), vec![PathBuf::from("/")]) {
        ClipboardContent::Image { data, format } => {
            assert_eq!(data, text.as_bytes());
            assert_eq!(format, ImageFormat::Gif);
        }
        other => panic!("unexpected {:?}", other),
    }
    // A hundred bytes are not more than a hundred.
    let short = &text[..100];
    assert!(matches!(ClipboardContent::from_text(short.to_string(), vec![]), ClipboardContent::Text(_)));
    let mut control = String::new();
    for _ in 0..101 {
        control.push('\u{1}');
    }
    match ClipboardContent::from_text(control, vec![]) {
        ClipboardContent::Image { format, .. } => assert_eq!(format, ImageFormat::Unknown),
        other => panic!("unexpected {:?}", other),
    }
}

#[test]
fn pixel_layout_follows_the_bytes_per_pixel() {
    assert_eq!(pixel_layout(4), PixelLayout::Rgba);
    assert_eq!(pixel_layout(3), PixelLayout::Rgb);
    assert_eq!(pixel_layout(1), PixelLayout::Luma);
    assert_eq!(pixel_layout(2), PixelLayout::Rgba);
    assert_eq!(pixel_layout(0), PixelLayout::Rgba);
    assert_eq!(pixel_layout(7), PixelLayout::Rgba);
}

#[test]
fn raw_picture_becomes_a_png() {
    let rgba: Vec<u8> = vec![255, 0, 0, 255, 0, 255, 0, 255, 0, 0, 255, 255, 1, 2, 3, 4];
    match ClipboardContent::from_image(2, 2, rgba.clone()).unwrap() {
        ClipboardContent::Image { data, format } => {
            assert_eq!(format, ImageFormat::Png);
            assert_eq!(&data[..8], &[0x89, 0x50, 0x4E, 0x47, 0x0D, 0x0A, 0x1A, 0x0A]);
            assert_ne!(data, rgba);
            let decoded = image::load_from_memory(&data).unwrap().to_rgba8();
            assert_eq!(decoded.dimensions(), (2, 2));
            assert_eq!(decoded.into_raw(), rgba);
        }
        other => panic!("unexpected {:?}", other),
    }
    let rgb: Vec<u8> = vec![9, 8, 7, 6, 5, 4];
    match ClipboardContent::from_image(2, 1, rgb.clone()).unwrap() {
        ClipboardContent::Image { data, .. } => {
            let decoded = image::load_from_memory(&data).unwrap();
            assert_eq!(decoded.color(), image::ColorType::Rgb8);
            assert_eq!(decoded.to_rgb8().into_raw(), rgb);
        }
        other => panic!("unexpected {:?}", other),
    }
    let grey: Vec<u8> = vec![0, 128, 255];
    match ClipboardContent::from_image(3, 1, grey.clone()).unwrap() {
        ClipboardContent::Image { data, .. } => {
            let decoded = image::load_from_memory(&data).unwrap();
            assert_eq!(decoded.color(), image::ColorType::L8);
            assert_eq!(decoded.to_luma8().into_raw(), grey);
        }
        other => panic!("unexpected {:?}", other),
    }
}

#[test]
fn raw_picture_with_too_few_bytes_is_refused() {
    // Two bytes per pixel are taken for four, which five bytes cannot fill.
    let result = ClipboardContent::from_image(2, 1, vec![1, 2, 3, 4, 5]);
    assert!(matches!(result, Err(ClipboardError::ImageBuffer)));
    // No byte per pixel at all.
    let result = ClipboardContent::from_image(4, 4, vec![1, 2, 3]);
    assert!(matches!(result, Err(ClipboardError::ImageBuffer)));
    // Five bytes per pixel are taken for four; the rest is left over.
    let result = ClipboardContent::from_image(1, 1, vec![1, 2, 3, 4, 5]);
    assert!(matches!(result, Ok(ClipboardContent::Image { .. })));
}

#[test]
fn raw_picture_of_no_width_is_no_png() {
    let result = ClipboardContent::from_image(0x1_0000_0000, 1, vec![0u8; 16]);
    assert!(matches!(result, Err(ClipboardError::PngEncoding)));
}
