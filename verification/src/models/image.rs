//! Images: the kind of an image file, a colour of its palette, the record
//! kept of one image, and the steps that lead from a path and the bytes of
//! a file to that record.

use crate::models::pixels::channels;
use crate::models::pixels::decode;
use crate::models::pixels::decoded;
use crate::models::pixels::quantize;
use crate::models::pixels::quantized;
use crate::models::pixels::sampled;
use crate::models::pixels::Decoded;
use crate::models::pixels::PaletteError;
use crate::models::pixels::PixelLayout;
use crate::models::pixels::Pixels;
use crate::models::pixels::QUALITY;
use crate::models::pixels::SAMPLE_LIMIT;
use crate::utils::json::json_of;
use crate::utils::json::jsons_of;
use crate::utils::json::list_value;
use crate::utils::json::members_of;
use crate::utils::json::number_value;
use crate::utils::json::record_value;
use crate::utils::json::text_value;
use crate::utils::json::Json;
use crate::utils::path::extension;
use crate::utils::path::file_name;
use crate::utils::path::file_name_of;
use crate::utils::path::path_extension;
use crate::utils::text::spells;
use crate::utils::text::spells_word;
use serde_json::Value;
use vstd::prelude::*;
use vstd::string::*;

verus! {

/// The formats in which an image file is read.
#[derive(Debug, Clone, Copy, PartialEq, Eq, Structural)]
pub enum ImageKind {
    Jpeg,
    Png,
}

/// One colour: red, green and blue, eight bits each.
#[derive(Debug, Clone, Copy, PartialEq, Eq, Structural)]
pub struct Color {
    pub r: u8,
    pub g: u8,
    pub b: u8,
}

/// Why a file gave no image.
#[allow(inconsistent_fields)]
#[derive(Debug)]
pub enum Error {
    /// The path is not text; `entry` is how the caller rendered it.
    InvalidPath { entry: String },
    /// The path has no extension.
    MissingExtension { entry: String },
    /// The path has no file name.
    MissingFilename { entry: String },
    /// The extension names no supported format.
    InvalidExtension { ext: String },
    /// The bytes of the file could not be read or decoded.
    FailedToOpen { source: image::ImageError },
    /// The decoded pixels are neither 8-bit RGB nor 8-bit RGBA.
    UnsupportedLayout,
    /// No palette could be made of the pixels.
    BadPalette { source: PaletteError },
}

/// An `Error` as a mathematical value: the same cases. What the decoder
/// reported has no mathematical form and is left out; the functions that
/// carry it say in a clause of their own that they hand it on unchanged.
pub enum Failure {
    InvalidPath { entry: Seq<char> },
    MissingExtension { entry: Seq<char> },
    MissingFilename { entry: Seq<char> },
    InvalidExtension { ext: Seq<char> },
    FailedToOpen,
    UnsupportedLayout,
    BadPalette { source: PaletteError },
}

impl View for Error {
    type V = Failure;

    open spec fn view(&self) -> Failure {
        match self {
            Error::InvalidPath { entry } => Failure::InvalidPath { entry: entry@ },
            Error::MissingExtension { entry } => Failure::MissingExtension { entry: entry@ },
            Error::MissingFilename { entry } => Failure::MissingFilename { entry: entry@ },
            Error::InvalidExtension { ext } => Failure::InvalidExtension { ext: ext@ },
            Error::FailedToOpen { source } => Failure::FailedToOpen,
            Error::UnsupportedLayout => Failure::UnsupportedLayout,
            Error::BadPalette { source } => Failure::BadPalette { source: *source },
        }
    }
}

impl ImageKind {
    /// The kind that an extension names, whatever the case of its letters.
    pub open spec fn of_extension(ext: Seq<char>) -> Option<ImageKind> {
        if spells(ext, "jpg"@) || spells(ext, "jpeg"@) {
            Some(ImageKind::Jpeg)
        } else if spells(ext, "png"@) {
            Some(ImageKind::Png)
        } else {
            None
        }
    }

    /// The name under which the kind is written in a document.
    pub open spec fn name(self) -> Seq<char> {
        match self {
            ImageKind::Jpeg => "Jpeg"@,
            ImageKind::Png => "Png"@,
        }
    }

    /// Classifies an extension: `jpg` and `jpeg` are JPEG, `png` is PNG, in
    /// any mix of upper and lower case; every other text is refused.
    pub fn from_str(s: &str) -> (r: Result<ImageKind, Error>)
        ensures
            match ImageKind::of_extension(s@) {
                Some(kind) => r == Ok::<ImageKind, Error>(kind),
                None => r matches Err(e) && e@ == (Failure::InvalidExtension { ext: s@ }),
            },
    {
        if spells_word(s, "jpg") || spells_word(s, "jpeg") {
            Ok(ImageKind::Jpeg)
        } else if spells_word(s, "png") {
            Ok(ImageKind::Png)
        } else {
            Err(Error::InvalidExtension { ext: s.to_owned() })
        }
    }

    /// The name under which the kind is written in a document.
    pub fn as_str(&self) -> (r: &'static str)
        ensures
            r@ == self.name(),
    {
        match self {
            ImageKind::Jpeg => "Jpeg",
            ImageKind::Png => "Png",
        }
    }
}

impl std::str::FromStr for ImageKind {
    type Err = Error;

    /// Classifies an extension, as the function of the same name on the
    /// type does.
    fn from_str(s: &str) -> (r: Result<ImageKind, Error>)
        ensures
            match ImageKind::of_extension(s@) {
                Some(kind) => r == Ok::<ImageKind, Error>(kind),
                None => r matches Err(e) && e@ == (Failure::InvalidExtension { ext: s@ }),
            },
    {
        ImageKind::from_str(s)
    }
}

/// A file whose path passed the checks: it is text, has an extension that
/// names a supported format, and has a file name.
#[derive(Debug)]
pub struct Candidate {
    path: String,
    file_name: String,
    kind: ImageKind,
}

/// A `Candidate` as a mathematical value.
pub struct CandidateView {
    pub path: Seq<char>,
    pub file_name: Seq<char>,
    pub kind: ImageKind,
}

impl View for Candidate {
    type V = CandidateView;

    closed spec fn view(&self) -> CandidateView {
        CandidateView { path: self.path@, file_name: self.file_name@, kind: self.kind }
    }
}

/// The record kept of one image.
#[derive(Debug)]
pub struct Image {
    path: String,
    file_name: String,
    kind: ImageKind,
    width: u32,
    height: u32,
    colors: Vec<Color>,
}

/// An `Image` as a mathematical value.
pub struct ImageView {
    pub path: Seq<char>,
    pub file_name: Seq<char>,
    pub kind: ImageKind,
    pub width: u32,
    pub height: u32,
    pub colors: Seq<Color>,
}

impl View for Image {
    type V = ImageView;

    closed spec fn view(&self) -> ImageView {
        ImageView {
            path: self.path@,
            file_name: self.file_name@,
            kind: self.kind,
            width: self.width,
            height: self.height,
            colors: self.colors@,
        }
    }
}

impl Image {
    #[verifier::type_invariant]
    closed spec fn holds(self) -> bool {
        self@.well_formed()
    }
}

impl ImageView {
    /// What holds of every image record: it has pixels, and a palette of at
    /// least one colour.
    pub open spec fn well_formed(self) -> bool {
        &&& 0 < self.width
        &&& 0 < self.height
        &&& 0 < self.colors.len()
    }
}

/// A path as the caller hands it over, as a mathematical value: its text,
/// or, for a path that is not text, a rendering of it.
pub open spec fn path_of(path: Result<&str, &str>) -> Result<Seq<char>, Seq<char>> {
    match path {
        Ok(text) => Ok(text@),
        Err(shown) => Err(shown@),
    }
}

/// A part of a path as a mathematical value.
pub open spec fn part_of(part: Option<&str>) -> Option<Seq<char>> {
    match part {
        Some(text) => Some(text@),
        None => None,
    }
}

/// The outcome of the checks on a path, given its extension and its file
/// name: the first check that fails decides the error.
pub open spec fn candidate_of(
    path: Result<Seq<char>, Seq<char>>,
    extension: Option<Seq<char>>,
    file_name: Option<Seq<char>>,
) -> Result<CandidateView, Failure> {
    match (path, extension, file_name) {
        (Err(shown), _, _) => Err(Failure::InvalidPath { entry: shown }),
        (Ok(path), None, _) => Err(Failure::MissingExtension { entry: path }),
        (Ok(path), Some(_), None) => Err(Failure::MissingFilename { entry: path }),
        (Ok(path), Some(ext), Some(file_name)) => match ImageKind::of_extension(ext) {
            None => Err(Failure::InvalidExtension { ext }),
            Some(kind) => Ok(CandidateView { path, file_name, kind }),
        },
    }
}

/// The outcome of the checks on a path, with its file name and extension
/// taken from it by the platform's rules.
pub open spec fn candidate_of_path(path: Result<Seq<char>, Seq<char>>) -> Result<
    CandidateView,
    Failure,
> {
    match path {
        Err(shown) => Err(Failure::InvalidPath { entry: shown }),
        Ok(text) => candidate_of(path, path_extension(file_name_of(text)), file_name_of(text)),
    }
}

/// Whether decoded pixels can be handed to the quantizer, and if so whether
/// they carry an alpha channel. They must be 8-bit RGB or RGBA; their
/// bytes must be as many as the size of the image asks for; there must be
/// a pixel, and no more pixels than the quantizer can count.
pub open spec fn palette_input(pixels: Decoded) -> Result<bool, Failure> {
    let alpha = pixels.layout == PixelLayout::Rgba;
    if pixels.layout == PixelLayout::Other {
        Err(Failure::UnsupportedLayout)
    } else if pixels.data.len() != pixels.width * pixels.height * channels(alpha) {
        Err(Failure::BadPalette { source: PaletteError::WrongSize })
    } else if pixels.width == 0 || pixels.height == 0 {
        Err(Failure::BadPalette { source: PaletteError::NoPixels })
    } else if sampled(pixels.data.len() as int, alpha, QUALITY) > SAMPLE_LIMIT {
        Err(Failure::BadPalette { source: PaletteError::TooManyPixels })
    } else {
        Ok(alpha)
    }
}

/// The number of colours asked of the quantizer for a palette of `colors`:
/// it accepts no request for fewer than two.
pub open spec fn palette_request(colors: u8) -> u8 {
    if colors < 2 {
        2
    } else {
        colors
    }
}

/// The first `colors` colours of a palette, or all of it where it has no
/// more.
pub open spec fn kept_colors(palette: Seq<Color>, colors: u8) -> Seq<Color> {
    if palette.len() <= colors {
        palette
    } else {
        palette.take(colors as int)
    }
}

/// The record made of a candidate, the size of its image and the outcome
/// of the quantization.
pub open spec fn image_of(
    candidate: CandidateView,
    width: u32,
    height: u32,
    palette: Result<Seq<Color>, PaletteError>,
    colors: u8,
) -> Result<ImageView, Failure> {
    if width == 0 || height == 0 {
        Err(Failure::BadPalette { source: PaletteError::NoPixels })
    } else {
        match palette {
            Err(source) => Err(Failure::BadPalette { source }),
            Ok(palette) => if kept_colors(palette, colors).len() == 0 {
                Err(Failure::BadPalette { source: PaletteError::NoColors })
            } else {
                Ok(
                    ImageView {
                        path: candidate.path,
                        file_name: candidate.file_name,
                        kind: candidate.kind,
                        width,
                        height,
                        colors: kept_colors(palette, colors),
                    },
                )
            },
        }
    }
}

/// The record made of a candidate and decoded pixels.
pub open spec fn image_of_pixels(candidate: CandidateView, pixels: Decoded, colors: u8) -> Result<
    ImageView,
    Failure,
> {
    match palette_input(pixels) {
        Err(failure) => Err(failure),
        Ok(alpha) => image_of(
            candidate,
            pixels.width,
            pixels.height,
            quantized(pixels.data, alpha, QUALITY, palette_request(colors)),
            colors,
        ),
    }
}

/// The record made of a candidate and the outcome of decoding its file;
/// `None` stands for bytes that did not decode.
pub open spec fn image_of_decoded(candidate: CandidateView, decoded: Option<Decoded>, colors: u8)
    -> Result<ImageView, Failure> {
    match decoded {
        None => Err(Failure::FailedToOpen),
        Some(pixels) => image_of_pixels(candidate, pixels, colors),
    }
}

/// The record made of a candidate and the bytes of its file.
pub open spec fn image_of_content(candidate: CandidateView, content: Seq<u8>, colors: u8) -> Result<
    ImageView,
    Failure,
> {
    image_of_decoded(candidate, decoded(content, candidate.kind), colors)
}

/// An outcome of the checks on a path as a mathematical value.
pub open spec fn candidate_outcome(outcome: Result<Candidate, Error>) -> Result<
    CandidateView,
    Failure,
> {
    match outcome {
        Ok(candidate) => Ok(candidate@),
        Err(error) => Err(error@),
    }
}

/// An outcome of the inspection of a file as a mathematical value.
pub open spec fn image_outcome(outcome: Result<Image, Error>) -> Result<ImageView, Failure> {
    match outcome {
        Ok(image) => Ok(image@),
        Err(error) => Err(error@),
    }
}

impl Candidate {
    /// Checks a path, given its extension and its file name. The path is
    /// its text, or, where it is not text, a rendering of it that the
    /// error then carries; `None` stands for a part that the path lacks.
    pub fn from_parts(path: Result<&str, &str>, extension: Option<&str>, file_name: Option<&str>)
        -> (r: Result<Candidate, Error>)
        ensures
            candidate_outcome(r) == candidate_of(
                path_of(path),
                part_of(extension),
                part_of(file_name),
            ),
    {
        let path = match path {
            Ok(path) => path,
            Err(shown) => return Err(Error::InvalidPath { entry: shown.to_owned() }),
        };
        let extension = match extension {
            Some(extension) => extension,
            None => return Err(Error::MissingExtension { entry: path.to_owned() }),
        };
        let file_name = match file_name {
            Some(file_name) => file_name,
            None => return Err(Error::MissingFilename { entry: path.to_owned() }),
        };
        match ImageKind::from_str(extension) {
            Ok(kind) => Ok(
                Candidate { path: path.to_owned(), file_name: file_name.to_owned(), kind },
            ),
            Err(error) => Err(error),
        }
    }

    /// Checks a path: takes its file name and extension from it and then
    /// decides as `from_parts` does.
    pub fn of_path(path: Result<&str, &str>) -> (r: Result<Candidate, Error>)
        ensures
            candidate_outcome(r) == candidate_of_path(path_of(path)),
    {
        match path {
            Err(shown) => Err(Error::InvalidPath { entry: shown.to_owned() }),
            Ok(text) => {
                let name = file_name(text);
                let ext = match name {
                    Some(name) => extension(name),
                    None => None,
                };
                Candidate::from_parts(path, ext, name)
            },
        }
    }

    /// The path that was checked.
    pub fn path(&self) -> (r: &str)
        ensures
            r@ == self@.path,
    {
        self.path.as_str()
    }

    /// The final component of the path.
    pub fn file_name(&self) -> (r: &str)
        ensures
            r@ == self@.file_name,
    {
        self.file_name.as_str()
    }

    /// The format that the extension names.
    pub fn kind(&self) -> (r: ImageKind)
        ensures
            r == self@.kind,
    {
        self.kind
    }
}

impl Pixels {
    /// Decides whether the pixels can be handed to the quantizer: they must
    /// be 8-bit RGB or RGBA, as many bytes as the size of the image asks
    /// for, at least one pixel, and no more than the quantizer can count.
    /// On success tells whether they carry an alpha channel.
    pub fn palette_input(&self) -> (r: Result<bool, Error>)
        ensures
            match palette_input(self@) {
                Ok(alpha) => r == Ok::<bool, Error>(alpha),
                Err(failure) => r matches Err(error) && error@ == failure,
            },
    {
        let bytes: u64 = match self.layout {
            PixelLayout::Rgb => 3,
            PixelLayout::Rgba => 4,
            PixelLayout::Other => return Err(Error::UnsupportedLayout),
        };
        assert(self.width * self.height <= 0xffff_ffff * 0xffff_ffff) by (nonlinear_arith)
            requires
                self.width <= 0xffff_ffff,
                self.height <= 0xffff_ffff,
        ;
        let pixels: u64 = (self.width as u64) * (self.height as u64);
        let len: u64 = self.data.len() as u64;
        proof {
            let alpha = self.layout == PixelLayout::Rgba;
            if alpha {
                assert(self.width * self.height * channels(alpha) == pixels * 4);
                assert(sampled(len as int, alpha, QUALITY) == (len / 4 + 40 - 1) / 40);
            } else {
                assert(self.width * self.height * channels(alpha) == pixels * 3);
                assert(sampled(len as int, alpha, QUALITY) == (len / 3 + 30 - 1) / 30);
            }
        }
        if len % bytes != 0 || len / bytes != pixels {
            return Err(Error::BadPalette { source: PaletteError::WrongSize });
        }
        if self.width == 0 || self.height == 0 {
            return Err(Error::BadPalette { source: PaletteError::NoPixels });
        }
        let step: u64 = bytes * (QUALITY as u64);
        let samples: u64 = (pixels + step - 1) / step;
        if samples > SAMPLE_LIMIT as u64 {
            return Err(Error::BadPalette { source: PaletteError::TooManyPixels });
        }
        Ok(bytes == 4)
    }
}

impl Image {
    /// Makes the record of a candidate from the size of its image and the
    /// outcome of the quantization, keeping at most `colors` colours. There
    /// is none for an image without pixels, for a quantization that failed,
    /// or where no colour is left.
    pub fn from_palette(
        candidate: Candidate,
        width: u32,
        height: u32,
        palette: Result<Vec<Color>, PaletteError>,
        colors: u8,
    ) -> (r: Result<Image, Error>)
        ensures
            image_outcome(r) == image_of(
                candidate@,
                width,
                height,
                match palette {
                    Ok(p) => Ok(p@),
                    Err(e) => Err(e),
                },
                colors,
            ),
            r matches Ok(image) ==> image@.well_formed() && image@.colors.len() <= colors,
    {
        if width == 0 || height == 0 {
            return Err(Error::BadPalette { source: PaletteError::NoPixels });
        }
        let mut palette = match palette {
            Ok(palette) => palette,
            Err(source) => return Err(Error::BadPalette { source }),
        };
        if palette.len() > colors as usize {
            palette.truncate(colors as usize);
        }
        if palette.len() == 0 {
            return Err(Error::BadPalette { source: PaletteError::NoColors });
        }
        Ok(
            Image {
                path: candidate.path,
                file_name: candidate.file_name,
                kind: candidate.kind,
                width,
                height,
                colors: palette,
            },
        )
    }

    /// Makes the record of a candidate from its decoded pixels: checks
    /// them, has them quantized, and keeps at most `colors` colours.
    pub fn from_pixels(candidate: Candidate, pixels: &Pixels, colors: u8) -> (r: Result<
        Image,
        Error,
    >)
        ensures
            image_outcome(r) == image_of_pixels(candidate@, pixels@, colors),
            r matches Ok(image) ==> image@.well_formed() && image@.colors.len() <= colors,
    {
        let alpha = match pixels.palette_input() {
            Ok(alpha) => alpha,
            Err(error) => return Err(error),
        };
        let request: u8 = if colors < 2 {
            2
        } else {
            colors
        };
        let palette = quantize(&pixels.data, alpha, QUALITY, request);
        Image::from_palette(candidate, pixels.width, pixels.height, palette, colors)
    }

    /// Makes the record of a candidate from the outcome of decoding its
    /// file: goes on as `from_pixels` does where there are pixels, and
    /// else fails with the very error that the decoder reported.
    pub fn from_decoded(
        candidate: Candidate,
        decoded: Result<Pixels, image::ImageError>,
        colors: u8,
    ) -> (r: Result<Image, Error>)
        ensures
            image_outcome(r) == image_of_decoded(
                candidate@,
                match decoded {
                    Ok(pixels) => Some(pixels@),
                    Err(_) => None,
                },
                colors,
            ),
            decoded matches Err(reported) ==> r matches Err(Error::FailedToOpen { source })
                && source == reported,
            r matches Ok(image) ==> image@.well_formed() && image@.colors.len() <= colors,
    {
        match decoded {
            Ok(pixels) => Image::from_pixels(candidate, &pixels, colors),
            Err(source) => Err(Error::FailedToOpen { source }),
        }
    }

    /// Makes the record of a candidate from the bytes of its file: decodes
    /// them in the candidate's format and goes on as `from_decoded` does.
    pub fn build(candidate: Candidate, content: &[u8], colors: u8) -> (r: Result<Image, Error>)
        ensures
            image_outcome(r) == image_of_content(candidate@, content@, colors),
            r matches Ok(image) ==> image@.well_formed() && image@.colors.len() <= colors,
    {
        let decoded = decode(content, candidate.kind);
        Image::from_decoded(candidate, decoded, colors)
    }
}

impl Color {
    /// The colour as a document: an object with the members `r`, `g` and
    /// `b`, in this order.
    pub open spec fn json(self) -> Json {
        Json::Record(
            seq![
                ("r"@, Json::Number(self.r as nat)),
                ("g"@, Json::Number(self.g as nat)),
                ("b"@, Json::Number(self.b as nat)),
            ],
        )
    }

    /// Renders the colour as a document.
    pub fn serialize(&self) -> (v: Value)
        ensures
            json_of(v) == self.json(),
    {
        let mut fields: Vec<(String, Value)> = Vec::new();
        fields.push(("r".to_owned(), number_value(self.r as u32)));
        fields.push(("g".to_owned(), number_value(self.g as u32)));
        fields.push(("b".to_owned(), number_value(self.b as u32)));
        proof {
            reveal_strlit("r");
            reveal_strlit("g");
            reveal_strlit("b");
            assert("r"@[0] != "g"@[0] && "r"@[0] != "b"@[0] && "g"@[0] != "b"@[0]);
            assert(members_of(fields@) =~= self.json()->Record_0);
        }
        record_value(fields)
    }
}

/// The documents of a palette's colours, in order.
pub open spec fn palette_json(colors: Seq<Color>) -> Seq<Json> {
    Seq::new(colors.len(), |i: int| colors[i].json())
}

impl ImageView {
    /// The record as a document: an object with the members `path`,
    /// `file_name`, `kind`, `width`, `height` and `colors`, in this order.
    pub open spec fn json(self) -> Json {
        Json::Record(
            seq![
                ("path"@, Json::Text(self.path)),
                ("file_name"@, Json::Text(self.file_name)),
                ("kind"@, Json::Text(self.kind.name())),
                ("width"@, Json::Number(self.width as nat)),
                ("height"@, Json::Number(self.height as nat)),
                ("colors"@, Json::List(palette_json(self.colors))),
            ],
        )
    }
}

impl Image {
    /// The path of the file.
    pub fn path(&self) -> (r: &str)
        ensures
            r@ == self@.path,
    {
        self.path.as_str()
    }

    /// The final component of the path.
    pub fn file_name(&self) -> (r: &str)
        ensures
            r@ == self@.file_name,
    {
        self.file_name.as_str()
    }

    /// The format in which the file was read.
    pub fn kind(&self) -> (r: ImageKind)
        ensures
            r == self@.kind,
    {
        self.kind
    }

    /// The width of the image in pixels, never zero.
    pub fn width(&self) -> (r: u32)
        ensures
            r == self@.width,
            0 < r,
    {
        proof {
            use_type_invariant(self);
        }
        self.width
    }

    /// The height of the image in pixels, never zero.
    pub fn height(&self) -> (r: u32)
        ensures
            r == self@.height,
            0 < r,
    {
        proof {
            use_type_invariant(self);
        }
        self.height
    }

    /// The palette of the image, never empty.
    pub fn colors(&self) -> (r: &Vec<Color>)
        ensures
            r@ == self@.colors,
            0 < r@.len(),
    {
        proof {
            use_type_invariant(self);
        }
        &self.colors
    }

    /// Renders the record as a document.
    pub fn serialize(&self) -> (v: Value)
        ensures
            json_of(v) == self@.json(),
    {
        let mut palette: Vec<Value> = Vec::new();
        let mut i: usize = 0;
        while i < self.colors.len()
            invariant
                i <= self.colors@.len(),
                palette@.len() == i,
                forall|j: int| 0 <= j < i ==> json_of(palette@[j]) == self.colors@[j].json(),
            decreases self.colors@.len() - i,
        {
            palette.push(self.colors[i].serialize());
            i += 1;
        }
        assert(jsons_of(palette@) =~= palette_json(self.colors@));
        let mut fields: Vec<(String, Value)> = Vec::new();
        fields.push(("path".to_owned(), text_value(self.path.as_str())));
        fields.push(("file_name".to_owned(), text_value(self.file_name.as_str())));
        fields.push(("kind".to_owned(), text_value(self.kind.as_str())));
        fields.push(("width".to_owned(), number_value(self.width)));
        fields.push(("height".to_owned(), number_value(self.height)));
        fields.push(("colors".to_owned(), list_value(palette)));
        proof {
            reveal_strlit("path");
            reveal_strlit("file_name");
            reveal_strlit("kind");
            reveal_strlit("width");
            reveal_strlit("height");
            reveal_strlit("colors");
            assert("path"@.len() == 4 && "file_name"@.len() == 9 && "kind"@.len() == 4);
            assert("width"@.len() == 5 && "height"@.len() == 6 && "colors"@.len() == 6);
            assert("path"@[0] != "kind"@[0]);
            assert("height"@[0] != "colors"@[0]);
            assert(fields@[0].0@ == "path"@ && fields@[1].0@ == "file_name"@);
            assert(fields@[2].0@ == "kind"@ && fields@[3].0@ == "width"@);
            assert(fields@[4].0@ == "height"@ && fields@[5].0@ == "colors"@);
            assert(members_of(fields@) =~= self@.json()->Record_0);
        }
        record_value(fields)
    }
}

/// The palette of a record never holds more colours than were asked for,
/// nor any that the quantizer did not return: it is made of the first
/// colours of the quantizer's palette, in their order. And a record is
/// only made of an image that has pixels and at least one colour.
pub proof fn law_palette_is_bounded(
    candidate: CandidateView,
    width: u32,
    height: u32,
    palette: Seq<Color>,
    colors: u8,
)
    requires
        image_of(candidate, width, height, Ok(palette), colors) is Ok,
    ensures
        ({
            let image = image_of(candidate, width, height, Ok(palette), colors)->Ok_0;
            &&& image.well_formed()
            &&& image.colors.len() <= colors
            &&& image.colors.len() <= palette.len()
            &&& forall|i: int| 0 <= i < image.colors.len() ==> image.colors[i] == palette[i]
        }),
{
}

/// Pixels that are handed to the quantizer fill the image: they are in one
/// of its two layouts, and their bytes are as many as width, height and
/// layout ask for, whatever number the decoder gave.
pub proof fn law_quantized_pixels_fill_the_image(pixels: Decoded)
    requires
        palette_input(pixels) is Ok,
    ensures
        pixels.layout != PixelLayout::Other,
        palette_input(pixels) == Ok::<bool, Failure>(pixels.layout == PixelLayout::Rgba),
        pixels.data.len() == pixels.width * pixels.height * channels(
            pixels.layout == PixelLayout::Rgba,
        ),
        0 < pixels.width && 0 < pixels.height,
{
}

} // verus!
