use pst::clipboard::ImageFormat;
use pst::exif::error::FormatError;
use pst::exif::jpeg::strip_jpeg_exif;
use pst::exif::png::strip_png_exif;
use pst::exif::webp::strip_webp_exif;
use pst::exif::{detect_format, strip_exif, strip_generic};

fn create_png_chunk(chunk_type: &[u8; 4], data: &[u8]) -> Vec<u8> {
    let mut chunk = Vec::new();

    let len = (data.len() as u32).to_be_bytes();
    chunk.extend_from_slice(&len);
    chunk.extend_from_slice(chunk_type);
    chunk.extend_from_slice(data);

    let crc = calculate_crc(&chunk[4..]);
    chunk.extend_from_slice(&crc.to_be_bytes());

    chunk
}

fn calculate_crc(_data: &[u8]) -> u32 {
    0
}

fn webp_chunk(tag: &[u8; 4], data: &[u8]) -> Vec<u8> {
    let mut chunk = Vec::new();
    chunk.extend_from_slice(tag);
    chunk.extend_from_slice(&(data.len() as u32).to_le_bytes());
    chunk.extend_from_slice(data);
    if data.len() % 2 == 1 {
        chunk.push(0);
    }
    chunk
}

fn webp_file(chunks: &[Vec<u8>]) -> Vec<u8> {
    let body: Vec<u8> = chunks.iter().flatten().copied().collect();
    let mut file = Vec::new();
    file.extend_from_slice(b"RIFF");
    file.extend_from_slice(&(body.len() as u32 + 4).to_le_bytes());
    file.extend_from_slice(b"WEBP");
    file.extend_from_slice(&body);
    file
}

#[test]
fn test_jpeg_exif_removal() {
    let jpeg_with_exif: Vec<u8> = vec![
        0xFF, 0xD8, 0xFF, 0xE1, 0x00, 0x0C, b'E', b'x', b'i', b'f', 0x00, 0x00, b't', b'e',
        b's', b't', 0xFF, 0xD9,
    ];

    let result = strip_jpeg_exif(&jpeg_with_exif).unwrap();

    assert!(!result.contains(&0xE1), "Should not contain EXIF marker");
    assert!(
        result.starts_with(&[0xFF, 0xD8]),
        "Should start with JPEG SOI"
    );
    assert!(result.ends_with(&[0xFF, 0xD9]), "Should end with JPEG EOI");
}

#[test]
fn test_jpeg_without_exif_unchanged() {
    let jpeg_no_exif = [
        0xFF, 0xD8, 0xFF, 0xE0, 0x00, 0x10, b'J', b'F', b'I', b'F', 0x00, 0x01, 0x01, 0x00,
        0x00, 0x01, 0x00, 0x01, 0x00, 0x00, 0xFF, 0xD9,
    ];

    let result = strip_jpeg_exif(&jpeg_no_exif).unwrap();

    assert_eq!(result.len(), jpeg_no_exif.len());
    // Nothing is dropped; the JFIF segment is the fixed one, with its fields at zero.
    let mut expected = jpeg_no_exif.to_vec();
    for byte in expected[11..18].iter_mut() {
        *byte = 0;
    }
    assert_eq!(result, expected);
}

#[test]
fn jpeg_with_the_fixed_jfif_segment_is_unchanged() {
    let input = [
        0xFF, 0xD8, 0xFF, 0xE0, 0x00, 0x10, b'J', b'F', b'I', b'F', 0x00, 0x00, 0x00, 0x00,
        0x00, 0x00, 0x00, 0x00, 0x00, 0x00, 0xFF, 0xD9,
    ];
    let result = strip_jpeg_exif(&input).unwrap();
    assert_eq!(result.len(), input.len());
    assert_eq!(result, input.to_vec());
    assert_eq!(strip_jpeg_exif(&result), Ok(input.to_vec()));
}

#[test]
fn test_png_exif_removal() {
    let mut png_with_exif = vec![0x89, 0x50, 0x4E, 0x47, 0x0D, 0x0A, 0x1A, 0x0A];

    let exif_chunk = create_png_chunk(b"tEXt", b"Exif\x00some exif data");
    png_with_exif.extend_from_slice(&exif_chunk);

    let ihdr_chunk = create_png_chunk(b"IHDR", b"width\x00\x00\x00\x01");
    png_with_exif.extend_from_slice(&ihdr_chunk);

    let iend_chunk = create_png_chunk(b"IEND", &[]);
    png_with_exif.extend_from_slice(&iend_chunk);

    let result = strip_png_exif(&png_with_exif).unwrap();

    let result_str = String::from_utf8_lossy(&result);
    assert!(
        !result_str.contains("Exif"),
        "Should not contain EXIF keyword"
    );
}

#[test]
fn jpeg_exif_scenario_strips_to_soi_and_eoi() {
    let input: Vec<u8> = vec![
        0xFF, 0xD8, 0xFF, 0xE1, 0x00, 0x0C, 0x45, 0x78, 0x69, 0x66, 0x00, 0x00, 0x74, 0x65,
        0x73, 0x74, 0xFF, 0xD9,
    ];
    assert_eq!(strip_jpeg_exif(&input), Ok(vec![0xFF, 0xD8, 0xFF, 0xD9]));
    assert_eq!(strip_exif(&input), Ok(vec![0xFF, 0xD8, 0xFF, 0xD9]));
}

#[test]
fn jpeg_comment_segment_is_dropped() {
    let input: Vec<u8> = vec![0xFF, 0xD8, 0xFF, 0xFE, 0x00, 0x04, b'h', b'i', 0xFF, 0xD9];
    assert_eq!(strip_jpeg_exif(&input), Ok(vec![0xFF, 0xD8, 0xFF, 0xD9]));
}

#[test]
fn jpeg_tables_and_frame_are_kept() {
    let input: Vec<u8> = vec![
        0xFF, 0xD8, // SOI
        0xFF, 0xDB, 0x00, 0x04, 0x01, 0x02, // DQT
        0xFF, 0xC0, 0x00, 0x05, 0x08, 0x00, 0x01, // SOF0
        0xFF, 0xC4, 0x00, 0x03, 0x07, // DHT
        0xFF, 0xD9, // EOI
    ];
    assert_eq!(strip_jpeg_exif(&input), Ok(input.clone()));
}

#[test]
fn jpeg_scan_data_with_stuffed_bytes_is_preserved() {
    let input: Vec<u8> = vec![
        0xFF, 0xD8, // SOI
        0xFF, 0xE1, 0x00, 0x04, 0xAA, 0xBB, // APP1, dropped
        0xFF, 0xDA, 0x00, 0x04, 0x01, 0x02, // SOS header
        0x12, 0xFF, 0x00, 0x34, 0xFF, 0x00, 0xFF, 0x00, 0x56, // entropy-coded data
        0xFF, 0xD0, // RST0
        0x78, 0xFF, 0x00, // more data
        0xFF, 0xD9, // EOI
    ];
    let expected: Vec<u8> = vec![
        0xFF, 0xD8, 0xFF, 0xDA, 0x00, 0x04, 0x01, 0x02, 0x12, 0xFF, 0x00, 0x34, 0xFF, 0x00,
        0xFF, 0x00, 0x56, 0xFF, 0xD0, 0x78, 0xFF, 0x00, 0xFF, 0xD9,
    ];
    assert_eq!(strip_jpeg_exif(&input), Ok(expected));
}

#[test]
fn jpeg_jfif_segment_is_reduced_to_sixteen_bytes() {
    // A JFIF segment of length 0x14 with a one-pixel thumbnail.
    let input: Vec<u8> = vec![
        0xFF, 0xD8, 0xFF, 0xE0, 0x00, 0x14, b'J', b'F', b'I', b'F', 0x00, 0x01, 0x02, 0x01,
        0x00, 0x48, 0x00, 0x48, 0x01, 0x01, 0x10, 0x20, 0x30, 0xAB, 0xFF, 0xD9,
    ];
    let expected: Vec<u8> = vec![
        0xFF, 0xD8, 0xFF, 0xE0, 0x00, 0x10, b'J', b'F', b'I', b'F', 0x00, 0x00, 0x00, 0x00,
        0x00, 0x00, 0x00, 0x00, 0x00, 0x00, 0xFF, 0xD9,
    ];
    assert_eq!(strip_jpeg_exif(&input), Ok(expected));
    // A JFIF segment that ends behind the input is an error like any other.
    assert_eq!(strip_jpeg_exif(&input[..20]), Err(FormatError::TruncatedJpeg));
}

#[test]
fn jpeg_app0_without_jfif_identifier_is_dropped() {
    let input: Vec<u8> = vec![
        0xFF, 0xD8, 0xFF, 0xE0, 0x00, 0x10, b'J', b'F', b'X', b'X', 0x00, 0x01, 0x01, 0x00,
        0x00, 0x01, 0x00, 0x01, 0x00, 0x00, 0xFF, 0xD9,
    ];
    assert_eq!(strip_jpeg_exif(&input), Ok(vec![0xFF, 0xD8, 0xFF, 0xD9]));
    let short: Vec<u8> = vec![0xFF, 0xD8, 0xFF, 0xE0, 0x00, 0x04, 0x01, 0x02, 0xFF, 0xD9];
    assert_eq!(strip_jpeg_exif(&short), Ok(vec![0xFF, 0xD8, 0xFF, 0xD9]));
}

#[test]
fn jpeg_truncated_segment_is_an_error() {
    // APP1 announces 12 bytes, 5 are there.
    let dropped: Vec<u8> = vec![0xFF, 0xD8, 0xFF, 0xE1, 0x00, 0x0C, b'E', b'x', b'i'];
    assert_eq!(strip_jpeg_exif(&dropped), Err(FormatError::TruncatedJpeg));
    // DQT announces 4 bytes, 3 are there.
    let kept: Vec<u8> = vec![0xFF, 0xD8, 0xFF, 0xDB, 0x00, 0x04, 0x01];
    assert_eq!(strip_jpeg_exif(&kept), Err(FormatError::TruncatedJpeg));
    // A length field cut in two.
    let length: Vec<u8> = vec![0xFF, 0xD8, 0xFF, 0xE1, 0x00];
    assert_eq!(strip_jpeg_exif(&length), Err(FormatError::TruncatedJpeg));
    // Entropy-coded data without a closing marker.
    let scan: Vec<u8> = vec![0xFF, 0xD8, 0xFF, 0xDA, 0x00, 0x02, 0x11, 0x22, 0xFF];
    assert_eq!(strip_jpeg_exif(&scan), Err(FormatError::TruncatedJpeg));
    assert_eq!(strip_exif(&scan), Err(FormatError::TruncatedJpeg));
}

#[test]
fn jpeg_stray_last_byte_is_passed_over() {
    let input: Vec<u8> = vec![0xFF, 0xD8, 0xFF, 0xD9, 0xFF];
    assert_eq!(strip_jpeg_exif(&input), Ok(vec![0xFF, 0xD8, 0xFF, 0xD9]));
    assert_eq!(strip_jpeg_exif(&[]), Ok(vec![]));
}

#[test]
fn jpeg_strip_is_idempotent_on_a_framed_stream() {
    let input: Vec<u8> = vec![
        0xFF, 0xD8, 0xFF, 0xE0, 0x00, 0x12, b'J', b'F', b'I', b'F', 0x00, 0x01, 0x01, 0x00,
        0x00, 0x01, 0x00, 0x01, 0x07, 0x07, 0x99, 0x99, 0xFF, 0xE1, 0x00, 0x04, 0x01, 0x02,
        0xFF, 0xDA, 0x00, 0x03, 0x00, 0x10, 0xFF, 0x00, 0x20, 0xFF, 0xFE, 0x00, 0x02, 0xFF,
        0xD9,
    ];
    let once = strip_jpeg_exif(&input).unwrap();
    let twice = strip_jpeg_exif(&once).unwrap();
    assert_eq!(once, twice);
    assert_eq!(once.len(), 2 + 18 + 5 + 4 + 2);
}

#[test]
fn jpeg_strip_of_unframed_output_fails_the_second_time() {
    let input: Vec<u8> = vec![0xFF, 0xDA, 0x00, 0x02, 0xFF, 0xE1, 0x00, 0x02];
    let once = strip_jpeg_exif(&input).unwrap();
    assert_eq!(once, vec![0xFF, 0xDA, 0x00, 0x02]);
    assert_eq!(strip_jpeg_exif(&once), Err(FormatError::TruncatedJpeg));
}

#[test]
fn png_text_chunk_is_dropped_and_rest_kept() {
    let mut png = vec![0x89, 0x50, 0x4E, 0x47, 0x0D, 0x0A, 0x1A, 0x0A];
    let ihdr = create_png_chunk(b"IHDR", &[0, 0, 0, 1, 0, 0, 0, 1, 8, 0, 0, 0, 0]);
    let text = create_png_chunk(b"tEXt", b"Exif\x00secret");
    let exif = create_png_chunk(b"eXIf", b"MM\x00*");
    let idat = create_png_chunk(b"IDAT", &[1, 2, 3]);
    let iend = create_png_chunk(b"IEND", &[]);
    png.extend_from_slice(&ihdr);
    png.extend_from_slice(&text);
    png.extend_from_slice(&exif);
    png.extend_from_slice(&idat);
    png.extend_from_slice(&iend);

    let mut expected = vec![0x89, 0x50, 0x4E, 0x47, 0x0D, 0x0A, 0x1A, 0x0A];
    expected.extend_from_slice(&ihdr);
    expected.extend_from_slice(&idat);
    expected.extend_from_slice(&iend);

    assert_eq!(strip_png_exif(&png), Ok(expected.clone()));
    assert_eq!(strip_exif(&png), Ok(expected.clone()));
    assert_eq!(strip_png_exif(&expected), Ok(expected));
}

#[test]
fn png_every_allowed_type_is_kept() {
    let types: [&[u8; 4]; 18] = [
        b"IHDR", b"PLTE", b"IDAT", b"IEND", b"acTL", b"bKGD", b"cHRM", b"cICP", b"fRAc",
        b"fcTL", b"fdAT", b"gAMA", b"gIFg", b"iCCP", b"sBIT", b"sRGB", b"sTER", b"tRNS",
    ];
    let mut png = vec![0x89, 0x50, 0x4E, 0x47, 0x0D, 0x0A, 0x1A, 0x0A];
    for t in types.iter() {
        png.extend_from_slice(&create_png_chunk(t, &[7, 7]));
    }
    assert_eq!(strip_png_exif(&png), Ok(png.clone()));

    let dropped: [&[u8; 4]; 6] = [b"tEXt", b"iTXt", b"zTXt", b"eXIf", b"tIME", b"ihdr"];
    let mut noisy = vec![0x89, 0x50, 0x4E, 0x47, 0x0D, 0x0A, 0x1A, 0x0A];
    for t in dropped.iter() {
        noisy.extend_from_slice(&create_png_chunk(t, &[1]));
    }
    assert_eq!(
        strip_png_exif(&noisy),
        Ok(vec![0x89, 0x50, 0x4E, 0x47, 0x0D, 0x0A, 0x1A, 0x0A])
    );
}

#[test]
fn png_truncated_input_is_an_error() {
    assert_eq!(strip_png_exif(&[0x89, 0x50, 0x4E]), Err(FormatError::InvalidPngFile));
    let mut png = vec![0x89, 0x50, 0x4E, 0x47, 0x0D, 0x0A, 0x1A, 0x0A];
    png.extend_from_slice(&create_png_chunk(b"IDAT", &[1, 2, 3, 4]));
    for cut in 9..png.len() {
        assert_eq!(strip_png_exif(&png[..cut]), Err(FormatError::InvalidPngChunk));
    }
    assert_eq!(strip_png_exif(&png[..8]), Ok(png[..8].to_vec()));
    assert_eq!(strip_png_exif(&png), Ok(png.clone()));
    // A dropped chunk that is cut short is an error as well.
    let mut text = vec![0x89, 0x50, 0x4E, 0x47, 0x0D, 0x0A, 0x1A, 0x0A];
    text.extend_from_slice(&create_png_chunk(b"tEXt", b"abcdef"));
    let cut = text.len() - 1;
    assert_eq!(strip_png_exif(&text[..cut]), Err(FormatError::InvalidPngChunk));
}

#[test]
fn webp_exif_chunk_is_dropped_and_size_rewritten() {
    let vp8x = webp_chunk(b"VP8X", &[0; 10]);
    let exif = webp_chunk(b"EXIF", b"Exif\0\0MM");
    let vp8 = webp_chunk(b"VP8 ", &[1, 2, 3]);
    let xmp = webp_chunk(b"XMP ", b"<x/>");
    let input = webp_file(&[vp8x.clone(), exif, vp8.clone(), xmp]);
    let expected = webp_file(&[vp8x, vp8]);

    let result = strip_webp_exif(&input).unwrap();
    assert_eq!(result, expected);
    assert_eq!(&result[4..8], &[4 + 18 + 12, 0, 0, 0]);
    let size = u32::from_le_bytes([result[4], result[5], result[6], result[7]]);
    assert_eq!(size as usize, result.len() - 8);
    assert_eq!(strip_exif(&input), Ok(expected.clone()));
    assert_eq!(strip_webp_exif(&expected), Ok(expected));
}

#[test]
fn webp_header_is_checked() {
    assert_eq!(strip_webp_exif(b"RIFF\x04\0\0\0WEB"), Err(FormatError::InvalidWebp));
    assert_eq!(strip_webp_exif(b"RIFF\x04\0\0\0WAVE"), Err(FormatError::InvalidWebp));
    assert_eq!(strip_webp_exif(b"RIFX\x04\0\0\0WEBP"), Err(FormatError::InvalidWebp));
    assert_eq!(
        strip_webp_exif(b"RIFF\xFF\xFF\0\0WEBP"),
        Ok(b"RIFF\x04\0\0\0WEBP".to_vec())
    );
}

#[test]
fn webp_short_last_chunk_is_no_error() {
    let mut input = webp_file(&[webp_chunk(b"VP8L", &[9, 9, 9, 9])]);
    input.extend_from_slice(b"ALPH\x08\0\0\0\x01\x02");
    let mut body = webp_chunk(b"VP8L", &[9, 9, 9, 9]);
    body.extend_from_slice(b"ALPH\x08\0\0\0\x01\x02");
    let mut expected = b"RIFF".to_vec();
    expected.extend_from_slice(&(body.len() as u32 + 4).to_le_bytes());
    expected.extend_from_slice(b"WEBP");
    expected.extend_from_slice(&body);
    assert_eq!(strip_webp_exif(&input), Ok(expected));

    // Fewer than eight bytes at the end are not a chunk.
    let mut stray = webp_file(&[webp_chunk(b"VP8L", &[9, 9])]);
    stray.extend_from_slice(b"ALPH\x01");
    assert_eq!(
        strip_webp_exif(&stray),
        Ok(webp_file(&[webp_chunk(b"VP8L", &[9, 9])]))
    );
}

#[test]
fn webp_odd_sized_chunk_keeps_its_pad_byte() {
    let input = webp_file(&[webp_chunk(b"ANIM", &[1, 2, 3]), webp_chunk(b"ICCP", &[5])]);
    let expected = webp_file(&[webp_chunk(b"ANIM", &[1, 2, 3])]);
    assert_eq!(expected.len(), 12 + 8 + 4);
    assert_eq!(strip_webp_exif(&input), Ok(expected));
}

#[test]
fn detect_format_reads_each_signature() {
    let pad = [0u8; 12];
    let with = |sig: &[u8]| -> Vec<u8> {
        let mut v = sig.to_vec();
        v.extend_from_slice(&pad);
        v
    };
    assert_eq!(detect_format(&with(&[0x89, 0x50, 0x4E, 0x47, 0x0D, 0x0A, 0x1A, 0x0A])), Ok(ImageFormat::Png));
    assert_eq!(detect_format(&with(&[0xFF, 0xD8, 0xFF])), Ok(ImageFormat::Jpeg));
    assert_eq!(detect_format(&with(b"GIF87a")), Ok(ImageFormat::Gif));
    assert_eq!(detect_format(&with(b"GIF89a")), Ok(ImageFormat::Gif));
    assert_eq!(detect_format(&with(b"BM")), Ok(ImageFormat::Bmp));
    assert_eq!(detect_format(b"RIFF\x01\x02\x03\x04WEBP"), Ok(ImageFormat::WebP));
    assert_eq!(detect_format(&with(&[0x4D, 0x4D, 0x00, 0x2A])), Ok(ImageFormat::Tiff));
    assert_eq!(detect_format(&with(&[0x49, 0x49, 0x2A, 0x00])), Ok(ImageFormat::Tiff));
    assert_eq!(detect_format(&with(b"RIFF")), Ok(ImageFormat::Unknown));
    assert_eq!(detect_format(&with(b"GIF88a")), Ok(ImageFormat::Unknown));
    assert_eq!(detect_format(&with(b"farbfeld")), Ok(ImageFormat::Unknown));
    assert_eq!(detect_format(&with(b"qoif")), Ok(ImageFormat::Unknown));
    assert_eq!(detect_format(&with(&[0, 0, 1, 0])), Ok(ImageFormat::Unknown));
    assert_eq!(detect_format(&with(b"hello")), Ok(ImageFormat::Unknown));
    assert_eq!(detect_format(&[0xFF, 0xD8, 0xFF, 0xD9]), Err(FormatError::TooShort));
    assert_eq!(detect_format(&[]), Err(FormatError::TooShort));
}

#[test]
fn strip_exif_refuses_short_and_unknown_data() {
    assert_eq!(strip_exif(&[0xFF, 0xD8, 0xFF]), Err(FormatError::TooShort));
    assert_eq!(strip_exif(b"plain text, no image"), Err(FormatError::UnknownFormat));
    assert_eq!(
        strip_generic(b"plain text, no image", ImageFormat::Unknown),
        Err(FormatError::UnknownFormat)
    );
}

#[test]
fn strip_exif_fails_on_an_image_that_the_codec_cannot_decode() {
    assert_eq!(strip_exif(b"GIF89a, but not really"), Err(FormatError::DecodeFailed));
    assert_eq!(strip_exif(b"BM is no bitmap either"), Err(FormatError::DecodeFailed));
    assert_eq!(
        strip_generic(b"plain text, no image", ImageFormat::Png),
        Err(FormatError::DecodeFailed)
    );
}

#[test]
fn strip_generic_fails_on_a_picture_that_the_codec_cannot_encode() {
    // A JPEG cannot be higher than 65535 lines.
    let picture = image::GrayImage::new(1, 70000);
    let mut file = std::io::Cursor::new(Vec::new());
    picture.write_to(&mut file, image::ImageFormat::Png).unwrap();
    let tall = file.into_inner();
    assert_eq!(strip_generic(&tall, ImageFormat::Jpeg), Err(FormatError::EncodeFailed));
    assert!(strip_generic(&tall, ImageFormat::Png).is_ok());
}

#[test]
fn strip_exif_reencodes_a_bitmap() {
    let mut picture = image::RgbImage::new(2, 2);
    picture.put_pixel(0, 0, image::Rgb([255, 0, 0]));
    picture.put_pixel(1, 0, image::Rgb([0, 255, 0]));
    picture.put_pixel(0, 1, image::Rgb([0, 0, 255]));
    picture.put_pixel(1, 1, image::Rgb([9, 8, 7]));
    let mut file = std::io::Cursor::new(Vec::new());
    picture.write_to(&mut file, image::ImageFormat::Bmp).unwrap();
    let input = file.into_inner();

    let output = strip_exif(&input).unwrap();
    assert_eq!(&output[..2], b"BM");
    let decoded = image::load_from_memory(&output).unwrap().to_rgb8();
    assert_eq!(decoded, picture);
    assert_eq!(image::guess_format(&output).unwrap(), image::ImageFormat::Bmp);

    // What hangs behind the picture is gone after encoding it again.
    let mut padded = input.clone();
    padded.extend_from_slice(b"camera: secret");
    let output = strip_exif(&padded).unwrap();
    assert_ne!(output, padded);
    assert_eq!(output, input);
    assert_eq!(strip_generic(&padded, ImageFormat::Bmp), Ok(input.clone()));
}

#[test]
fn strip_generic_encodes_in_the_format_given() {
    let mut picture = image::RgbImage::new(2, 1);
    picture.put_pixel(0, 0, image::Rgb([1, 2, 3]));
    picture.put_pixel(1, 0, image::Rgb([4, 5, 6]));
    let mut file = std::io::Cursor::new(Vec::new());
    picture.write_to(&mut file, image::ImageFormat::Bmp).unwrap();
    let bitmap = file.into_inner();

    let gif = strip_generic(&bitmap, ImageFormat::Gif).unwrap();
    assert_eq!(&gif[..6], b"GIF89a");
    let tiff = strip_generic(&bitmap, ImageFormat::Tiff).unwrap();
    assert_eq!(detect_format(&tiff), Ok(ImageFormat::Tiff));
    assert_eq!(image::load_from_memory(&tiff).unwrap().to_rgb8(), picture);
    let png = strip_generic(&bitmap, ImageFormat::Png).unwrap();
    assert_eq!(detect_format(&png), Ok(ImageFormat::Png));
}

#[test]
fn strip_exif_keeps_the_pixels_of_a_png() {
    let mut picture = image::RgbaImage::new(3, 2);
    for (x, y, pixel) in picture.enumerate_pixels_mut() {
        *pixel = image::Rgba([x as u8 * 40, y as u8 * 90, 200, 255 - x as u8]);
    }
    let mut file = std::io::Cursor::new(Vec::new());
    picture.write_to(&mut file, image::ImageFormat::Png).unwrap();
    let clean = file.into_inner();

    // Put a text chunk behind the header chunk, which ends at byte 33.
    let mut input = clean[..33].to_vec();
    let mut text = Vec::new();
    text.extend_from_slice(&14u32.to_be_bytes());
    text.extend_from_slice(b"tEXt");
    text.extend_from_slice(b"Comment\0secret");
    text.extend_from_slice(&[0, 0, 0, 0]);
    input.extend_from_slice(&text);
    input.extend_from_slice(&clean[33..]);

    let output = strip_exif(&input).unwrap();
    assert_eq!(output, clean);
    let decoded = image::load_from_memory(&output).unwrap().to_rgba8();
    assert_eq!(decoded, picture);
}

#[test]
fn strip_exif_keeps_the_pixels_of_a_jpeg() {
    let mut picture = image::RgbImage::new(16, 16);
    for (x, y, pixel) in picture.enumerate_pixels_mut() {
        *pixel = image::Rgb([x as u8 * 16, y as u8 * 16, 128]);
    }
    let mut file = std::io::Cursor::new(Vec::new());
    picture.write_to(&mut file, image::ImageFormat::Jpeg).unwrap();
    let clean = file.into_inner();

    // Put an Exif segment behind the start of image.
    let mut input = clean[..2].to_vec();
    input.extend_from_slice(&[0xFF, 0xE1, 0x00, 0x0C]);
    input.extend_from_slice(b"Exif\0\0test");
    input.extend_from_slice(&clean[2..]);

    let output = strip_exif(&input).unwrap();
    let before = image::load_from_memory(&clean).unwrap().to_rgb8();
    let after = image::load_from_memory(&output).unwrap().to_rgb8();
    assert_eq!(before, after);
    assert!(!output.windows(4).any(|w| w == b"Exif"));
    assert_eq!(strip_exif(&output), Ok(output.clone()));
}

#[test]
fn strip_exif_keeps_the_pixels_of_a_webp() {
    let mut picture = image::RgbaImage::new(4, 4);
    for (x, y, pixel) in picture.enumerate_pixels_mut() {
        *pixel = image::Rgba([x as u8 * 60, y as u8 * 60, 33, 255]);
    }
    let mut file = std::io::Cursor::new(Vec::new());
    picture.write_to(&mut file, image::ImageFormat::WebP).unwrap();
    let clean = file.into_inner();

    let mut input = clean.clone();
    input.extend_from_slice(&webp_chunk(b"EXIF", b"Exif\0\0II*\0"));
    let size = (input.len() - 8) as u32;
    input[4..8].copy_from_slice(&size.to_le_bytes());

    let output = strip_exif(&input).unwrap();
    assert_eq!(output, clean);
    let decoded = image::load_from_memory(&output).unwrap().to_rgba8();
    assert_eq!(decoded, picture);
}
