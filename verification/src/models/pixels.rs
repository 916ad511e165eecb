//! Decoded pixels and the dominant colours found in them.
//!
//! Decoding is done by the `image` crate and colour quantization by
//! `color_thief`; the three functions here that reach them are trusted.
//! The checks that decide whether a pixel buffer may be handed to the
//! quantizer are proved. Among them is that the decoder handed out as
//! many bytes as the size of the image asks for.

use crate::models::image::Color;
use crate::models::image::ImageKind;
use color_thief::ColorFormat;
use image::codecs::jpeg::JpegDecoder;
use image::io::Limits;
use image::ColorType;
use image::DynamicImage;
use image::ImageDecoder;
use image::ImageFormat;
use std::io::Cursor;
use std::io::Read;
use vstd::prelude::*;

verus! {

/// How the bytes of a pixel buffer are laid out.
#[derive(Debug, Clone, Copy, PartialEq, Eq, Structural)]
pub enum PixelLayout {
    /// Three bytes a pixel: red, green, blue.
    Rgb,
    /// Four bytes a pixel: red, green, blue, alpha.
    Rgba,
    /// Any layout that the quantizer does not take.
    Other,
}

/// Why no palette was made of a pixel buffer.
#[derive(Debug, Clone, Copy, PartialEq, Eq, Structural)]
pub enum PaletteError {
    /// The decoder handed out another number of bytes than the size of
    /// the image asks for.
    WrongSize,
    /// The image has no pixel.
    NoPixels,
    /// The image has more pixels than the quantizer can count.
    TooManyPixels,
    /// The quantizer met a box of colours without a pixel in it.
    InvalidVBox,
    /// The quantizer could not cut a box of colours in two.
    VBoxCutFailed,
    /// The quantizer returned no colour.
    NoColors,
}

/// A decoded image.
#[derive(Debug)]
pub struct Pixels {
    pub width: u32,
    pub height: u32,
    pub layout: PixelLayout,
    pub data: Vec<u8>,
}

/// A decoded image as a mathematical value.
pub struct Decoded {
    pub width: u32,
    pub height: u32,
    pub layout: PixelLayout,
    pub data: Seq<u8>,
}

impl View for Pixels {
    type V = Decoded;

    open spec fn view(&self) -> Decoded {
        Decoded { width: self.width, height: self.height, layout: self.layout, data: self.data@ }
    }
}

/// `image::ImageError`, what the decoder reports of bytes that it cannot
/// read. The library carries it and looks at nothing in it.
#[verifier::external_type_specification]
#[verifier::external_body]
pub struct ExImageError(image::ImageError);

/// The sampling step handed to the quantizer: it looks at one pixel in
/// this many. A larger step is faster and less exact.
pub const QUALITY: u8 = 10;

/// The most pixels the quantizer may sample: with more, its 32-bit sums of
/// colour values can overflow.
pub const SAMPLE_LIMIT: usize = 8_521_760;

/// What `image::load_from_memory_with_format` makes of the bytes of a PNG
/// file, where it decodes them.
pub uninterp spec fn decoded_png(content: Seq<u8>) -> Option<Decoded>;

/// What `image::codecs::jpeg::JpegDecoder` hands out for the bytes of a
/// JPEG file, where it decodes them: the size and layout that it
/// announces, and the bytes that it then gives.
pub uninterp spec fn decoded_jpeg(content: Seq<u8>) -> Option<Decoded>;

/// What the decoder of the given format makes of the bytes of a file.
pub open spec fn decoded(content: Seq<u8>, kind: ImageKind) -> Option<Decoded> {
    match kind {
        ImageKind::Jpeg => decoded_jpeg(content),
        ImageKind::Png => decoded_png(content),
    }
}

/// What `color_thief::get_palette` returns for a pixel buffer, with `alpha`
/// telling a four-byte layout from a three-byte one. How many colours it
/// finds in an image is the quantizer's own matter; nothing is claimed of
/// it here.
pub uninterp spec fn quantized(data: Seq<u8>, alpha: bool, quality: u8, max_colors: u8) -> Result<
    Seq<Color>,
    PaletteError,
>;

/// The outcome of a quantization as a mathematical value.
pub open spec fn palette_view(outcome: Result<Vec<Color>, PaletteError>) -> Result<
    Seq<Color>,
    PaletteError,
> {
    match outcome {
        Ok(colors) => Ok(colors@),
        Err(e) => Err(e),
    }
}

/// The number of bytes that one pixel takes, with or without an alpha
/// channel.
pub open spec fn channels(alpha: bool) -> int {
    if alpha {
        4
    } else {
        3
    }
}

/// The number of pixels that the quantizer samples in a buffer of `len`
/// bytes: it starts at the first pixel and goes on by `channels * quality`
/// as long as it stays below the number of pixels.
pub open spec fn sampled(len: int, alpha: bool, quality: u8) -> int {
    let step = channels(alpha) * quality;
    (len / channels(alpha) + step - 1) / step
}

/// Trusted: `image::load_from_memory_with_format` for PNG, with the
/// decoded image taken apart into plain values. Its outcome is what
/// `decoded_png` stands for; a layout other than 8-bit RGB or RGBA comes
/// back as `PixelLayout::Other`, without its bytes.
///
/// On this way the PNG decoder writes into a buffer of the size that it
/// announced and reports an error where the buffer is too small.
#[verifier::external_body]
pub(crate) fn decode_png(content: &[u8]) -> (r: Result<Pixels, image::ImageError>)
    ensures
        r.is_ok() == decoded_png(content@).is_some(),
        r matches Ok(pixels) ==> Some(pixels@) == decoded_png(content@),
{
    let image = image::load_from_memory_with_format(content, ImageFormat::Png)?;
    let (width, height) = (image.width(), image.height());
    let (layout, data) = match image {
        DynamicImage::ImageRgb8(buffer) => (PixelLayout::Rgb, buffer.into_raw()),
        DynamicImage::ImageRgba8(buffer) => (PixelLayout::Rgba, buffer.into_raw()),
        _ => (PixelLayout::Other, Vec::new()),
    };
    Ok(Pixels { width, height, layout, data })
}

/// Trusted: `image::codecs::jpeg::JpegDecoder`, asked for the size and
/// the layout that it announces and then read to its end, under the
/// `image` crate's default limit on memory. Its outcome is what
/// `decoded_jpeg` stands for.
///
/// The bytes are taken as the decoder gives them, however many they are:
/// for some frames it gives two bytes a sample where it announced one.
/// Nothing is claimed of their number, and the caller compares it with
/// the size of the image.
#[allow(deprecated)]
#[verifier::external_body]
pub(crate) fn decode_jpeg(content: &[u8]) -> (r: Result<Pixels, image::ImageError>)
    ensures
        r.is_ok() == decoded_jpeg(content@).is_some(),
        r matches Ok(pixels) ==> Some(pixels@) == decoded_jpeg(content@),
{
    let decoder = JpegDecoder::new(Cursor::new(content))?;
    Limits::default().reserve(decoder.total_bytes())?;
    let (width, height) = decoder.dimensions();
    let layout = match decoder.color_type() {
        ColorType::Rgb8 => PixelLayout::Rgb,
        ColorType::Rgba8 => PixelLayout::Rgba,
        _ => PixelLayout::Other,
    };
    let mut data = Vec::new();
    decoder.into_reader()?.read_to_end(&mut data).map_err(image::ImageError::IoError)?;
    Ok(Pixels { width, height, layout, data })
}

/// Decodes the bytes of a file in the given format.
pub fn decode(content: &[u8], kind: ImageKind) -> (r: Result<Pixels, image::ImageError>)
    ensures
        r.is_ok() == decoded(content@, kind).is_some(),
        r matches Ok(pixels) ==> Some(pixels@) == decoded(content@, kind),
{
    match kind {
        ImageKind::Jpeg => decode_jpeg(content),
        ImageKind::Png => decode_png(content),
    }
}

/// Trusted: `color_thief::get_palette`. Its outcome is what `quantized`
/// stands for. The function asserts that the quality lies in 1..=10 and
/// that more than one colour is asked for, and it adds up colour values of
/// the sampled pixels in 32 bits.
#[verifier::external_body]
pub(crate) fn quantize(data: &Vec<u8>, alpha: bool, quality: u8, max_colors: u8) -> (r: Result<
    Vec<Color>,
    PaletteError,
>)
    requires
        1 <= quality <= 10,
        2 <= max_colors,
        sampled(data@.len() as int, alpha, quality) <= SAMPLE_LIMIT,
    ensures
        palette_view(r) == quantized(data@, alpha, quality, max_colors),
{
    let format = if alpha { ColorFormat::Rgba } else { ColorFormat::Rgb };
    match color_thief::get_palette(data, format, quality, max_colors) {
        Ok(colors) => Ok(colors.into_iter().map(|c| Color { r: c.r, g: c.g, b: c.b }).collect()),
        Err(color_thief::Error::InvalidVBox) => Err(PaletteError::InvalidVBox),
        Err(color_thief::Error::VBoxCutFailed) => Err(PaletteError::VBoxCutFailed),
    }
}

} // verus!
