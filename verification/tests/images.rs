use photos_to_json::models::image::Candidate;
use photos_to_json::models::image::Color;
use photos_to_json::models::image::Error;
use photos_to_json::models::image::Image;
use photos_to_json::models::image::ImageKind;
use photos_to_json::models::pixels::decode;
use photos_to_json::models::pixels::PaletteError;
use photos_to_json::models::pixels::PixelLayout;
use photos_to_json::models::pixels::Pixels;
use photos_to_json::models::pixels::QUALITY;
use photos_to_json::models::pixels::SAMPLE_LIMIT;
use std::io::Cursor;

fn striped_rgb(width: u32, height: u32) -> Vec<u8> {
    let shades: [[u8; 3]; 6] =
        [[200, 30, 30], [30, 200, 30], [30, 30, 200], [200, 200, 30], [30, 200, 200], [90, 40, 160]];
    let mut raw = Vec::new();
    for y in 0..height {
        for x in 0..width {
            raw.extend_from_slice(&shades[((x / 4 + y / 8) % 6) as usize]);
        }
    }
    raw
}

fn png_of_rgb(width: u32, height: u32, raw: Vec<u8>) -> Vec<u8> {
    let buffer = image::RgbImage::from_raw(width, height, raw).unwrap();
    let mut bytes = Vec::new();
    image::DynamicImage::ImageRgb8(buffer)
        .write_to(&mut Cursor::new(&mut bytes), image::ImageOutputFormat::Png)
        .unwrap();
    bytes
}

fn png_candidate() -> Candidate {
    Candidate::of_path(Ok("/photos/stripes.png")).unwrap()
}

fn as_colors(palette: Vec<color_thief::Color>) -> Vec<Color> {
    palette.into_iter().map(|c| Color { r: c.r, g: c.g, b: c.b }).collect()
}

#[test]
fn build_reads_a_png() {
    let raw = striped_rgb(48, 32);
    let content = png_of_rgb(48, 32, raw.clone());
    let image = Image::build(png_candidate(), &content, 3).unwrap();
    assert_eq!(image.path(), "/photos/stripes.png");
    assert_eq!(image.file_name(), "stripes.png");
    assert_eq!(image.kind(), ImageKind::Png);
    assert_eq!(image.width(), 48);
    assert_eq!(image.height(), 32);
    let expected =
        as_colors(color_thief::get_palette(&raw, color_thief::ColorFormat::Rgb, 10, 3).unwrap());
    assert_eq!(image.colors(), &expected);
    assert!(!image.colors().is_empty() && image.colors().len() <= 3);
}

#[test]
fn build_reads_a_png_with_alpha() {
    let mut raw = Vec::new();
    for i in 0..(40 * 40) {
        let shade = if i % 3 == 0 { [10, 120, 240, 255] } else { [240, 120, 10, 255] };
        raw.extend_from_slice(&shade);
    }
    let buffer = image::RgbaImage::from_raw(40, 40, raw.clone()).unwrap();
    let mut content = Vec::new();
    image::DynamicImage::ImageRgba8(buffer)
        .write_to(&mut Cursor::new(&mut content), image::ImageOutputFormat::Png)
        .unwrap();
    let image = Image::build(png_candidate(), &content, 4).unwrap();
    assert_eq!((image.width(), image.height()), (40, 40));
    let expected =
        as_colors(color_thief::get_palette(&raw, color_thief::ColorFormat::Rgba, 10, 4).unwrap());
    assert_eq!(image.colors(), &expected);
}

#[test]
fn build_reads_a_jpeg() {
    let buffer = image::RgbImage::from_raw(32, 24, striped_rgb(32, 24)).unwrap();
    let mut content = Vec::new();
    image::DynamicImage::ImageRgb8(buffer)
        .write_to(&mut Cursor::new(&mut content), image::ImageOutputFormat::Jpeg(90))
        .unwrap();
    let candidate = Candidate::of_path(Ok("shots/stripes.JPG")).unwrap();
    let image = Image::build(candidate, &content, 5).unwrap();
    assert_eq!(image.kind(), ImageKind::Jpeg);
    assert_eq!(image.file_name(), "stripes.JPG");
    assert_eq!((image.width(), image.height()), (32, 24));
    let decoded = image::load_from_memory_with_format(&content, image::ImageFormat::Jpeg)
        .unwrap()
        .into_rgb8()
        .into_raw();
    let expected = as_colors(
        color_thief::get_palette(&decoded, color_thief::ColorFormat::Rgb, 10, 5).unwrap(),
    );
    assert_eq!(image.colors(), &expected);
}

#[test]
fn build_goes_by_the_kind_of_the_candidate() {
    let content = png_of_rgb(16, 16, striped_rgb(16, 16));
    let candidate = Candidate::of_path(Ok("really_a_png.jpg")).unwrap();
    assert!(matches!(Image::build(candidate, &content, 3), Err(Error::FailedToOpen { .. })));
}

#[test]
fn corrupt_content_fails_to_open() {
    let garbage = b"this is not an image at all".to_vec();
    assert!(matches!(
        Image::build(png_candidate(), &garbage, 3),
        Err(Error::FailedToOpen { .. })
    ));
    assert!(matches!(Image::build(png_candidate(), &[], 3), Err(Error::FailedToOpen { .. })));
    let mut truncated = png_of_rgb(16, 16, striped_rgb(16, 16));
    truncated.truncate(40);
    assert!(matches!(
        Image::build(png_candidate(), &truncated, 3),
        Err(Error::FailedToOpen { .. })
    ));
}

#[test]
fn grayscale_image_has_an_unsupported_layout() {
    let buffer = image::GrayImage::from_raw(8, 8, vec![77u8; 64]).unwrap();
    let mut content = Vec::new();
    image::DynamicImage::ImageLuma8(buffer)
        .write_to(&mut Cursor::new(&mut content), image::ImageOutputFormat::Png)
        .unwrap();
    assert!(matches!(Image::build(png_candidate(), &content, 3), Err(Error::UnsupportedLayout)));
}

#[test]
fn palette_never_exceeds_the_request() {
    let raw = striped_rgb(64, 64);
    let content = png_of_rgb(64, 64, raw);
    for colors in [1u8, 2, 3, 4, 5, 6, 10, 255] {
        let image = Image::build(png_candidate(), &content, colors).unwrap();
        assert!(!image.colors().is_empty());
        assert!(image.colors().len() <= colors as usize, "{}", colors);
    }
}

#[test]
fn palette_of_one_is_the_first_of_two() {
    let raw = striped_rgb(64, 64);
    let content = png_of_rgb(64, 64, raw.clone());
    let image = Image::build(png_candidate(), &content, 1).unwrap();
    let two =
        as_colors(color_thief::get_palette(&raw, color_thief::ColorFormat::Rgb, 10, 2).unwrap());
    assert_eq!(image.colors(), &two[..1].to_vec());
}

#[test]
fn palette_of_none_is_a_failure() {
    let content = png_of_rgb(16, 16, striped_rgb(16, 16));
    assert!(matches!(
        Image::build(png_candidate(), &content, 0),
        Err(Error::BadPalette { source: PaletteError::NoColors })
    ));
}

#[test]
fn palette_of_few_colours_holds_no_more_than_asked() {
    let mut raw = Vec::new();
    for i in 0..(50 * 50) {
        raw.extend_from_slice(if i % 2 == 0 { &[250, 10, 10] } else { &[10, 10, 250] });
    }
    let content = png_of_rgb(50, 50, raw);
    let image = Image::build(png_candidate(), &content, 8).unwrap();
    assert!(image.colors().len() <= 8);
    for color in image.colors() {
        assert!(color.g < 40);
    }
}

#[test]
fn same_content_gives_the_same_palette() {
    let content = png_of_rgb(48, 32, striped_rgb(48, 32));
    let first = Image::build(png_candidate(), &content, 5).unwrap();
    let second = Image::build(png_candidate(), &content, 5).unwrap();
    assert_eq!(first.colors(), second.colors());
}

#[test]
fn pixels_are_checked_before_quantization() {
    let rgb = Pixels { width: 2, height: 1, layout: PixelLayout::Rgb, data: vec![1, 2, 3, 4, 5, 6] };
    assert!(matches!(rgb.palette_input(), Ok(false)));
    let rgba =
        Pixels { width: 1, height: 1, layout: PixelLayout::Rgba, data: vec![1, 2, 3, 255] };
    assert!(matches!(rgba.palette_input(), Ok(true)));
    let other = Pixels { width: 1, height: 1, layout: PixelLayout::Other, data: vec![] };
    assert!(matches!(other.palette_input(), Err(Error::UnsupportedLayout)));
}

#[test]
fn image_without_pixels_has_no_palette() {
    for (width, height) in [(0u32, 5u32), (5, 0), (0, 0)] {
        let pixels = Pixels { width, height, layout: PixelLayout::Rgb, data: vec![] };
        assert!(matches!(
            pixels.palette_input(),
            Err(Error::BadPalette { source: PaletteError::NoPixels })
        ));
        assert!(matches!(
            Image::from_pixels(png_candidate(), &pixels, 3),
            Err(Error::BadPalette { source: PaletteError::NoPixels })
        ));
    }
}

#[test]
fn bytes_must_fill_the_size_of_the_image() {
    let cases = [
        (2u32, 2u32, PixelLayout::Rgb, 11usize),
        (2, 2, PixelLayout::Rgb, 13),
        (2, 2, PixelLayout::Rgb, 24),
        (2, 2, PixelLayout::Rgb, 0),
        (2, 2, PixelLayout::Rgba, 12),
        (2, 2, PixelLayout::Rgba, 15),
        (0, 5, PixelLayout::Rgb, 3),
        (1, 1, PixelLayout::Rgba, 3),
        (u32::MAX, u32::MAX, PixelLayout::Rgba, 4),
    ];
    for (width, height, layout, len) in cases {
        let pixels = Pixels { width, height, layout, data: vec![7u8; len] };
        assert!(matches!(
            pixels.palette_input(),
            Err(Error::BadPalette { source: PaletteError::WrongSize })
        ));
    }
    let exact = Pixels { width: 2, height: 2, layout: PixelLayout::Rgb, data: vec![7u8; 12] };
    assert!(matches!(exact.palette_input(), Ok(false)));
    let exact = Pixels { width: 2, height: 2, layout: PixelLayout::Rgba, data: vec![7u8; 16] };
    assert!(matches!(exact.palette_input(), Ok(true)));
}

#[test]
fn twice_the_bytes_give_a_failure_and_no_record() {
    let pixels = Pixels { width: 4, height: 4, layout: PixelLayout::Rgb, data: vec![9u8; 96] };
    assert!(matches!(
        Image::from_decoded(png_candidate(), Ok(pixels), 3),
        Err(Error::BadPalette { source: PaletteError::WrongSize })
    ));
}

#[test]
fn sample_limit_is_exact() {
    assert_eq!(QUALITY, 10);
    assert_eq!(SAMPLE_LIMIT, 8_521_760);
    assert_eq!(SAMPLE_LIMIT as i64 * 252, 2_147_483_520);
    let most = SAMPLE_LIMIT * 30;
    let pixels = Pixels {
        width: most as u32,
        height: 1,
        layout: PixelLayout::Rgb,
        data: vec![0u8; most * 3],
    };
    assert!(matches!(pixels.palette_input(), Ok(false)));
    let pixels = Pixels {
        width: most as u32 + 1,
        height: 1,
        layout: PixelLayout::Rgb,
        data: vec![0u8; most * 3 + 3],
    };
    assert!(matches!(
        pixels.palette_input(),
        Err(Error::BadPalette { source: PaletteError::TooManyPixels })
    ));
}

#[test]
fn from_pixels_quantizes_the_buffer() {
    let raw = striped_rgb(30, 30);
    let pixels = Pixels { width: 30, height: 30, layout: PixelLayout::Rgb, data: raw.clone() };
    let image = Image::from_pixels(png_candidate(), &pixels, 4).unwrap();
    let expected =
        as_colors(color_thief::get_palette(&raw, color_thief::ColorFormat::Rgb, 10, 4).unwrap());
    assert_eq!(image.colors(), &expected);
    assert_eq!((image.width(), image.height()), (30, 30));
}

#[test]
fn from_palette_keeps_the_first_colours() {
    let palette = vec![
        Color { r: 1, g: 2, b: 3 },
        Color { r: 4, g: 5, b: 6 },
        Color { r: 7, g: 8, b: 9 },
    ];
    let image = Image::from_palette(png_candidate(), 10, 20, Ok(palette.clone()), 2).unwrap();
    assert_eq!(image.colors(), &palette[..2].to_vec());
    assert_eq!((image.width(), image.height()), (10, 20));
    let image = Image::from_palette(png_candidate(), 10, 20, Ok(palette.clone()), 3).unwrap();
    assert_eq!(image.colors(), &palette);
    let image = Image::from_palette(png_candidate(), 10, 20, Ok(palette.clone()), 200).unwrap();
    assert_eq!(image.colors(), &palette);
}

#[test]
fn from_palette_reports_what_went_wrong() {
    assert!(matches!(
        Image::from_palette(png_candidate(), 10, 20, Err(PaletteError::InvalidVBox), 3),
        Err(Error::BadPalette { source: PaletteError::InvalidVBox })
    ));
    assert!(matches!(
        Image::from_palette(png_candidate(), 10, 20, Err(PaletteError::VBoxCutFailed), 3),
        Err(Error::BadPalette { source: PaletteError::VBoxCutFailed })
    ));
    assert!(matches!(
        Image::from_palette(png_candidate(), 10, 20, Ok(vec![]), 3),
        Err(Error::BadPalette { source: PaletteError::NoColors })
    ));
    assert!(matches!(
        Image::from_palette(png_candidate(), 0, 20, Ok(vec![Color { r: 1, g: 2, b: 3 }]), 3),
        Err(Error::BadPalette { source: PaletteError::NoPixels })
    ));
}

#[test]
fn from_decoded_hands_on_what_the_decoder_reported() {
    let reported = image::ImageError::IoError(std::io::Error::new(
        std::io::ErrorKind::PermissionDenied,
        "no entry for you",
    ));
    match Image::from_decoded(png_candidate(), Err(reported), 3) {
        Err(Error::FailedToOpen { source: image::ImageError::IoError(inner) }) => {
            assert_eq!(inner.kind(), std::io::ErrorKind::PermissionDenied);
            assert_eq!(inner.to_string(), "no entry for you");
        }
        other => panic!("{:?}", other),
    }
}

#[test]
fn from_decoded_goes_on_with_the_pixels() {
    let raw = striped_rgb(30, 30);
    let pixels = Pixels { width: 30, height: 30, layout: PixelLayout::Rgb, data: raw.clone() };
    let image = Image::from_decoded(png_candidate(), Ok(pixels), 4).unwrap();
    let expected =
        as_colors(color_thief::get_palette(&raw, color_thief::ColorFormat::Rgb, 10, 4).unwrap());
    assert_eq!(image.colors(), &expected);
    let other = Pixels { width: 3, height: 3, layout: PixelLayout::Other, data: vec![] };
    assert!(matches!(
        Image::from_decoded(png_candidate(), Ok(other), 4),
        Err(Error::UnsupportedLayout)
    ));
}

#[test]
fn build_reports_what_the_decoder_found() {
    let expected = image::load_from_memory_with_format(b"garbage", image::ImageFormat::Png)
        .unwrap_err()
        .to_string();
    match Image::build(png_candidate(), b"garbage", 3) {
        Err(Error::FailedToOpen { source }) => assert_eq!(source.to_string(), expected),
        other => panic!("{:?}", other),
    }
}

fn jpeg_of(image: image::DynamicImage, quality: u8) -> Vec<u8> {
    let mut content = Vec::new();
    image.write_to(&mut Cursor::new(&mut content), image::ImageOutputFormat::Jpeg(quality)).unwrap();
    content
}

#[test]
fn decode_hands_out_the_pixels_of_a_png() {
    let raw = striped_rgb(12, 10);
    let pixels = decode(&png_of_rgb(12, 10, raw.clone()), ImageKind::Png).unwrap();
    assert_eq!((pixels.width, pixels.height), (12, 10));
    assert_eq!(pixels.layout, PixelLayout::Rgb);
    assert_eq!(pixels.data, raw);
}

#[test]
fn decode_hands_out_the_pixels_of_a_jpeg() {
    let buffer = image::RgbImage::from_raw(24, 16, striped_rgb(24, 16)).unwrap();
    let content = jpeg_of(image::DynamicImage::ImageRgb8(buffer), 85);
    let pixels = decode(&content, ImageKind::Jpeg).unwrap();
    assert_eq!((pixels.width, pixels.height), (24, 16));
    assert_eq!(pixels.layout, PixelLayout::Rgb);
    let expected = image::load_from_memory_with_format(&content, image::ImageFormat::Jpeg)
        .unwrap()
        .into_rgb8()
        .into_raw();
    assert_eq!(pixels.data, expected);
    assert_eq!(pixels.data.len(), 24 * 16 * 3);
}

#[test]
fn grayscale_jpeg_has_an_unsupported_layout() {
    let buffer = image::GrayImage::from_raw(16, 16, vec![120u8; 256]).unwrap();
    let content = jpeg_of(image::DynamicImage::ImageLuma8(buffer), 85);
    let pixels = decode(&content, ImageKind::Jpeg).unwrap();
    assert_eq!(pixels.layout, PixelLayout::Other);
    let candidate = Candidate::of_path(Ok("gray.jpg")).unwrap();
    assert!(matches!(Image::build(candidate, &content, 3), Err(Error::UnsupportedLayout)));
}

#[test]
fn decode_refuses_the_other_format() {
    let png = png_of_rgb(8, 8, striped_rgb(8, 8));
    assert!(decode(&png, ImageKind::Jpeg).is_err());
    let buffer = image::RgbImage::from_raw(8, 8, striped_rgb(8, 8)).unwrap();
    let jpeg = jpeg_of(image::DynamicImage::ImageRgb8(buffer), 85);
    assert!(decode(&jpeg, ImageKind::Png).is_err());
    assert!(decode(&[], ImageKind::Jpeg).is_err());
    assert!(decode(&[], ImageKind::Png).is_err());
}

fn lossless_jpeg(precision: u8, components: u8) -> Vec<u8> {
    let mut bytes: Vec<u8> = vec![0xFF, 0xD8];
    bytes.extend_from_slice(&[0xFF, 0xC4, 0x00, 0x14, 0x00]);
    bytes.extend_from_slice(&[1, 0, 0, 0, 0, 0, 0, 0, 0, 0, 0, 0, 0, 0, 0, 0]);
    bytes.push(0x00);
    let length = 8 + 3 * components as u16;
    bytes.extend_from_slice(&[0xFF, 0xC3, (length >> 8) as u8, length as u8, precision]);
    bytes.extend_from_slice(&[0, 1, 0, 1, components]);
    for component in 0..components {
        bytes.extend_from_slice(&[component + 1, 0x11, 0]);
    }
    let length = 6 + 2 * components as u16;
    bytes.extend_from_slice(&[0xFF, 0xDA, (length >> 8) as u8, length as u8, components]);
    for component in 0..components {
        bytes.extend_from_slice(&[component + 1, 0x00]);
    }
    bytes.extend_from_slice(&[1, 0, 0, 0x1F, 0xFF, 0xD9]);
    bytes
}

#[test]
fn lossless_jpeg_with_wide_samples_gives_a_failure() {
    for precision in [12u8, 16, 2, 7, 9] {
        let content = lossless_jpeg(precision, 3);
        let pixels = decode(&content, ImageKind::Jpeg).unwrap();
        assert_eq!((pixels.width, pixels.height, pixels.layout), (1, 1, PixelLayout::Rgb));
        assert_eq!(pixels.data.len(), 6);
        let candidate = Candidate::of_path(Ok("wide.jpg")).unwrap();
        assert!(matches!(
            Image::build(candidate, &content, 3),
            Err(Error::BadPalette { source: PaletteError::WrongSize })
        ));
    }
}

#[test]
fn lossless_jpeg_with_one_narrow_component_has_an_unsupported_layout() {
    for precision in [2u8, 4, 7, 8, 12] {
        let content = lossless_jpeg(precision, 1);
        let candidate = Candidate::of_path(Ok("narrow.jpg")).unwrap();
        assert!(matches!(Image::build(candidate, &content, 3), Err(Error::UnsupportedLayout)));
    }
}

#[test]
fn lossless_jpeg_with_eight_bit_samples_is_read() {
    let content = lossless_jpeg(8, 3);
    let candidate = Candidate::of_path(Ok("plain.jpg")).unwrap();
    let image = Image::build(candidate, &content, 3).unwrap();
    assert_eq!((image.width(), image.height()), (1, 1));
    assert_eq!(image.colors(), &vec![Color { r: 132, g: 132, b: 132 }]);
}
