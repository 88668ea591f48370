//! Importing profiles from QR codes.

use std::io::Write as _;
use std::path::PathBuf;

use image::{GrayImage, Luma};
use wireguard_gui::config::qr_import::{decode_qr_image, read_failure};
use wireguard_gui::error::AppError;
use wireguard_gui::qr::{png_from_rendered, png_result, reading_result, text_from_decoded, LumaImage};
use wireguard_gui::server::qr_png;

const SAMPLE_CONF: &str = "\
[Interface]
PrivateKey = AAAAAAAAAAAAAAAAAAAAAAAAAAAAAAAAAAAAAAAAAAA=
Address = 10.7.0.2/32
DNS = 1.1.1.1, 1.0.0.1

[Peer]
PublicKey = BBBBBBBBBBBBBBBBBBBBBBBBBBBBBBBBBBBBBBBBBBB=
Endpoint = vpn.example.com:51820
AllowedIPs = 0.0.0.0/0
";

#[test]
fn decode_qr_image_round_trips_wireguard_conf() {
    let png_bytes = qr_png(SAMPLE_CONF)
        .expect("qr_png should succeed for a typical WireGuard conf");

    let decoded = decode_qr_image(&PathBuf::from("/tmp/.tmpqr"), &png_bytes)
        .expect("decode_qr_image should successfully decode the generated QR");

    assert_eq!(
        decoded, SAMPLE_CONF,
        "decoded text must exactly match the original conf (round-trip failed)"
    );
}

#[test]
fn decode_qr_image_rejects_non_image_file() {
    let err = decode_qr_image(&PathBuf::from("/tmp/.tmptext"), &b"this is not an image".to_vec())
        .expect_err("expected ImportFailed for a non-image file");
    assert!(
        matches!(err, AppError::ImportFailed(_)),
        "error must be ImportFailed, got: {err:?}"
    );
}

#[test]
fn decode_qr_image_rejects_png_without_qr() {
    let img: GrayImage = GrayImage::from_pixel(16, 16, Luma([255u8]));
    let mut png_bytes: Vec<u8> = Vec::new();
    img.write_to(
        &mut std::io::Cursor::new(&mut png_bytes),
        image::ImageFormat::Png,
    )
    .expect("encode blank PNG");

    let err = decode_qr_image(&PathBuf::from("/tmp/.tmpblank"), &png_bytes)
        .expect_err("expected ImportFailed for a PNG with no QR code");
    assert!(
        matches!(err, AppError::ImportFailed(_)),
        "error must be ImportFailed, got: {err:?}"
    );
}

#[test]
fn picture_without_a_code_says_so() {
    let blank = LumaImage { width: 8, height: 8, pixels: vec![255; 64] };
    let err = text_from_decoded(&PathBuf::from("x.png"), Ok(blank)).unwrap_err();
    assert_eq!(err.to_string(), "[E801] import failed: no QR code found in image");
}

#[test]
fn picture_without_pixels_has_no_code() {
    for (width, height) in [(0, 0), (0, 1), (1, 0), (0, 7)] {
        let empty = LumaImage { width, height, pixels: vec![] };
        let err = text_from_decoded(&PathBuf::from("x.png"), Ok(empty)).unwrap_err();
        assert_eq!(err.to_string(), "[E801] import failed: no QR code found in image");
    }
}

/// A BMP file of one row of 24-bit pixels.
fn bitmap(width: u8) -> Vec<u8> {
    let mut b = b"BM".to_vec();
    b.extend([0; 8]);
    b.extend([54, 0, 0, 0, 40, 0, 0, 0]);
    b.extend([width, 0, 0, 0, 1, 0, 0, 0, 1, 0, 24, 0]);
    b.extend([0; 24]);
    b.extend([255; 16]);
    b
}

#[test]
fn bitmaps_are_decoded() {
    let path = PathBuf::from("/tmp/code.bmp");
    let err = decode_qr_image(&path, &bitmap(2)).unwrap_err();
    assert_eq!(err.to_string(), "[E801] import failed: no QR code found in image");
}

#[test]
fn a_bitmap_without_columns_is_refused() {
    let path = PathBuf::from("/tmp/code.bmp");
    let err = decode_qr_image(&path, &bitmap(0)).unwrap_err();
    assert_eq!(
        err.to_string(),
        "[E801] import failed: decode image \"/tmp/code.bmp\": The decoder for Bmp does not \
         support the format features Image dimensions (0x1 w/3 channels) are too large"
    );
    let mut core = b"BM".to_vec();
    core.extend([0; 8]);
    core.extend([26, 0, 0, 0, 12, 0, 0, 0, 0, 0, 1, 0, 1, 0, 24, 0]);
    assert_eq!(
        decode_qr_image(&path, &core).unwrap_err().to_string(),
        "[E801] import failed: decode image \"/tmp/code.bmp\": The decoder for Bmp does not \
         support the format features Image dimensions (0x1 w/3 channels) are too large"
    );
}

#[test]
fn an_animation_without_pixels_is_refused() {
    for (screen, frame) in [([0, 0], [0, 0]), ([0, 1], [0, 1]), ([1, 0], [1, 0]), ([0, 0], [1, 1])] {
        let mut b = b"GIF89a".to_vec();
        b.extend([screen[0], 0, screen[1], 0, 0x80, 0, 0, 0, 0, 0, 255, 255, 255]);
        b.extend([0x2c, 0, 0, 0, 0, frame[0], 0, frame[1], 0, 0]);
        b.extend([2, 2, 0x44, 0x01, 0, 0x3b]);
        let err = decode_qr_image(&PathBuf::from("a.gif"), &b).unwrap_err();
        assert!(matches!(err, AppError::ImportFailed(_)), "{err:?}");
    }
}

#[test]
fn codes_are_read_from_other_formats() {
    let png = qr_png("hello").unwrap();
    let img = image::load_from_memory(&png).unwrap().to_luma8();
    for format in [image::ImageFormat::Bmp, image::ImageFormat::Gif, image::ImageFormat::WebP] {
        let mut file: Vec<u8> = Vec::new();
        image::DynamicImage::ImageLuma8(img.clone())
            .to_rgb8()
            .write_to(&mut std::io::Cursor::new(&mut file), format)
            .unwrap();
        assert_eq!(decode_qr_image(&PathBuf::from("code"), &file).unwrap(), "hello");
    }
}

#[test]
fn a_format_that_nothing_tells_is_an_error() {
    let noise = b"this is not an image".to_vec();
    let text = |path: &str| decode_qr_image(&PathBuf::from(path), &noise).unwrap_err().to_string();
    assert_eq!(
        text("a"),
        "[E801] import failed: decode image \"a\": The image format could not be determined"
    );
    assert_eq!(
        text("a."),
        "[E801] import failed: decode image \"a.\": The image format could not be determined"
    );
    assert_eq!(
        text("a.foo"),
        "[E801] import failed: decode image \"a.foo\": The file extension `.\"foo\"` was not \
         recognized as an image format"
    );
}

#[test]
fn the_errors_are_those_of_a_reader_on_the_file() {
    let noise = b"this is not an image".to_vec();
    for suffix in ["", ".", ".foo", ".png", ".tiff"] {
        let mut file = tempfile::Builder::new().prefix("code").suffix(suffix).tempfile().unwrap();
        file.write_all(&noise).unwrap();
        let path = file.path().to_path_buf();
        let expected = image::ImageReader::open(&path)
            .unwrap()
            .with_guessed_format()
            .unwrap()
            .decode()
            .unwrap_err();
        assert_eq!(
            decode_qr_image(&path, &noise).unwrap_err().to_string(),
            format!("[E801] import failed: decode image {path:?}: {expected}")
        );
    }
}

#[test]
fn a_large_code_is_read_or_refused() {
    let file = qr_png("hello").unwrap();
    let small = image::load_from_memory(&file).unwrap().to_luma8();
    for scale in [1, 4, 16] {
        let (width, height) = (small.width() * scale, small.height() * scale);
        let mut pixels: Vec<u8> = Vec::new();
        for y in 0..height {
            for x in 0..width {
                pixels.push(small.get_pixel(x / scale, y / scale).0[0]);
            }
        }
        let read =
            text_from_decoded(&PathBuf::from("x.png"), Ok(LumaImage { width, height, pixels }));
        match read {
            Ok(text) => assert_eq!(text, "hello"),
            Err(AppError::ImportFailed(t)) => {
                assert!(scale == 16 && t.starts_with("QR decode failed: "), "{scale}: {t}")
            }
            Err(other) => panic!("unexpected: {other:?}"),
        }
    }
}

#[test]
fn a_grey_picture_with_alpha_is_read() {
    let file = qr_png("hello").unwrap();
    let img = image::load_from_memory(&file).unwrap().to_luma_alpha8();
    let mut grey: Vec<u8> = Vec::new();
    img.write_to(&mut std::io::Cursor::new(&mut grey), image::ImageFormat::Png).unwrap();
    assert_eq!((grey[24], grey[25]), (8, 4));
    assert_eq!(decode_qr_image(&PathBuf::from("code"), &grey).unwrap(), "hello");
}

#[test]
fn undecodable_picture_names_the_path() {
    let err = text_from_decoded(&PathBuf::from("a \"b\".png"), Err("broken".to_string())).unwrap_err();
    assert_eq!(
        err.to_string(),
        "[E801] import failed: decode image \"a \\\"b\\\".png\": broken"
    );
}

#[test]
fn unreadable_picture_names_the_path() {
    let err = read_failure(&PathBuf::from("p.png"), "denied");
    assert_eq!(err.to_string(), "[E801] import failed: read image \"p.png\": denied");
}

#[test]
fn reading_results_are_reported() {
    assert_eq!(reading_result(Some(Ok("t".to_string()))).unwrap(), "t");
    let err = reading_result(Some(Err("damaged".to_string()))).unwrap_err();
    assert_eq!(err.to_string(), "[E801] import failed: QR decode failed: damaged");
}

#[test]
fn png_results_are_reported() {
    assert_eq!(png_result(Ok(vec![1, 2])).unwrap(), vec![1, 2]);
    let err = png_result(Err("full".to_string())).unwrap_err();
    assert_eq!(err.to_string(), "[E802] export failed: QR PNG encode failed: full");
    let err = png_from_rendered(Err("too long".to_string())).unwrap_err();
    assert_eq!(err.to_string(), "[E802] export failed: QR encode failed: too long");
}

#[test]
fn written_pictures_decode_to_themselves() {
    let pixels: Vec<u8> = (0..=255).collect();
    let img = LumaImage { width: 16, height: 16, pixels: pixels.clone() };
    let file = png_from_rendered(Ok(img)).unwrap();
    let back = image::load_from_memory(&file).unwrap().to_luma8();
    assert_eq!(back.width(), 16);
    assert_eq!(back.into_raw(), pixels);
}

#[test]
fn text_too_long_for_a_code_is_an_export_error() {
    let text = "x".repeat(5000);
    assert!(matches!(qr_png(&text), Err(AppError::ExportFailed(_))));
}
