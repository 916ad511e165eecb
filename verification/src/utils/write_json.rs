//! Where a document goes and what is written there.
//!
//! Nothing is written here: `write_json` renders the document and settles
//! the destination, and the caller carries out the write and reports how
//! it went.

use crate::utils::json::compact_text;
use crate::utils::json::json_of;
use crate::utils::json::pretty_text;
use crate::utils::json::to_compact;
use crate::utils::json::to_pretty;
use crate::utils::json::Json;
use crate::utils::path::extension;
use crate::utils::path::file_name;
use crate::utils::path::file_name_of;
use crate::utils::path::join;
use crate::utils::path::joined;
use crate::utils::path::path_extension;
use crate::utils::text::spells;
use crate::utils::text::spells_word;
use serde_json::Value;
use vstd::prelude::*;
use vstd::string::*;

verus! {

/// Why no document was written.
#[derive(Debug)]
pub enum Error {
    /// The destination is neither a directory nor a path with the
    /// extension `json`.
    BadPath,
    /// The document could not be rendered. `serde_json` does not fail on
    /// the documents that the library builds; the case is kept for a
    /// caller that renders by other means.
    FailedToSerialize { source: String },
    /// The file could not be written.
    FailedToWrite { source: String, target: String },
}

/// An `Error` as a mathematical value.
pub enum Failure {
    BadPath,
    FailedToSerialize { source: Seq<char> },
    FailedToWrite { source: Seq<char>, target: Seq<char> },
}

impl View for Error {
    type V = Failure;

    open spec fn view(&self) -> Failure {
        match self {
            Error::BadPath => Failure::BadPath,
            Error::FailedToSerialize { source } => Failure::FailedToSerialize { source: source@ },
            Error::FailedToWrite { source, target } => Failure::FailedToWrite {
                source: source@,
                target: target@,
            },
        }
    }
}

/// Where a document goes.
#[derive(Debug)]
pub enum Target {
    /// To standard output.
    Stdout,
    /// Into the file of the fixed name inside this directory.
    Within { directory: String },
    /// Into this file.
    File { path: String },
}

/// A `Target` as a mathematical value.
pub enum Place {
    Stdout,
    Within { directory: Seq<char> },
    File { path: Seq<char> },
}

impl View for Target {
    type V = Place;

    open spec fn view(&self) -> Place {
        match self {
            Target::Stdout => Place::Stdout,
            Target::Within { directory } => Place::Within { directory: directory@ },
            Target::File { path } => Place::File { path: path@ },
        }
    }
}

/// A rendered document and the file it goes to; `None` is standard output.
#[derive(Debug)]
pub struct Output {
    pub file: Option<String>,
    pub json: String,
}

/// An `Output` as a mathematical value.
pub struct Written {
    pub file: Option<Seq<char>>,
    pub json: Seq<char>,
}

impl View for Output {
    type V = Written;

    open spec fn view(&self) -> Written {
        Written {
            file: match self.file {
                Some(path) => Some(path@),
                None => None,
            },
            json: self.json@,
        }
    }
}

/// The name of the file written inside a directory.
pub fn default_file_name() -> (r: &'static str)
    ensures
        r@ == "images_output.json"@,
{
    "images_output.json"
}

/// A destination as a mathematical value.
pub open spec fn text_of(text: Option<&str>) -> Option<Seq<char>> {
    match text {
        Some(text) => Some(text@),
        None => None,
    }
}

/// Where a document goes, given the destination, whether it is an existing
/// directory, and its extension: to standard output where there is no
/// destination; else into a directory; else to the destination itself,
/// where its extension is `json` in any case of letters; else nowhere.
pub open spec fn place_of(path: Option<Seq<char>>, is_dir: bool, extension: Option<Seq<char>>)
    -> Result<Place, Failure> {
    match path {
        None => Ok(Place::Stdout),
        Some(path) => if is_dir {
            Ok(Place::Within { directory: path })
        } else {
            match extension {
                Some(ext) => if spells(ext, "json"@) {
                    Ok(Place::File { path })
                } else {
                    Err(Failure::BadPath)
                },
                None => Err(Failure::BadPath),
            }
        },
    }
}

/// Where a document goes, with the destination's extension taken from it
/// by the platform's rules.
pub open spec fn place_of_path(path: Option<Seq<char>>, is_dir: bool) -> Result<Place, Failure> {
    match path {
        None => Ok(Place::Stdout),
        Some(text) => place_of(path, is_dir, path_extension(file_name_of(text))),
    }
}

/// The file that a place stands for; none for standard output.
pub open spec fn file_of(place: Place) -> Option<Seq<char>> {
    match place {
        Place::Stdout => None,
        Place::Within { directory } => Some(joined(directory, "images_output.json"@)),
        Place::File { path } => Some(path),
    }
}

/// The text of a document, indented or compact.
pub open spec fn rendered(document: Json, prettify: bool) -> Seq<char> {
    if prettify {
        pretty_text(document)
    } else {
        compact_text(document)
    }
}

/// What is to be written, given the outcome of the rendering and the
/// outcome of settling the destination. A rendering that failed decides
/// before a destination that is refused.
pub open spec fn planned(json: Result<Seq<char>, Seq<char>>, place: Result<Place, Failure>)
    -> Result<Written, Failure> {
    match json {
        Err(source) => Err(Failure::FailedToSerialize { source }),
        Ok(json) => match place {
            Err(failure) => Err(failure),
            Ok(place) => Ok(Written { file: file_of(place), json }),
        },
    }
}

/// How a run ends, given what was to be written and the message of the
/// failure, if the write failed. Writing to standard output never fails.
pub open spec fn concluded(output: Written, failure: Option<Seq<char>>) -> Result<(), Failure> {
    match (output.file, failure) {
        (Some(target), Some(source)) => Err(Failure::FailedToWrite { source, target }),
        _ => Ok(()),
    }
}

/// An outcome of settling a destination as a mathematical value.
pub open spec fn target_outcome(outcome: Result<Target, Error>) -> Result<Place, Failure> {
    match outcome {
        Ok(target) => Ok(target@),
        Err(error) => Err(error@),
    }
}

/// An outcome of `write_json` as a mathematical value.
pub open spec fn output_outcome(outcome: Result<Output, Error>) -> Result<Written, Failure> {
    match outcome {
        Ok(output) => Ok(output@),
        Err(error) => Err(error@),
    }
}

/// An outcome of a rendering as a mathematical value.
pub open spec fn text_outcome(outcome: Result<String, String>) -> Result<Seq<char>, Seq<char>> {
    match outcome {
        Ok(text) => Ok(text@),
        Err(message) => Err(message@),
    }
}

impl Target {
    /// Settles where a document goes, given the destination, whether it is
    /// an existing directory, and its extension.
    pub fn from_parts(path: Option<&str>, is_dir: bool, extension: Option<&str>) -> (r: Result<
        Target,
        Error,
    >)
        ensures
            target_outcome(r) == place_of(text_of(path), is_dir, text_of(extension)),
    {
        let path = match path {
            Some(path) => path,
            None => return Ok(Target::Stdout),
        };
        if is_dir {
            return Ok(Target::Within { directory: path.to_owned() });
        }
        match extension {
            Some(ext) => if spells_word(ext, "json") {
                Ok(Target::File { path: path.to_owned() })
            } else {
                Err(Error::BadPath)
            },
            None => Err(Error::BadPath),
        }
    }

    /// Settles where a document goes: takes the destination's extension
    /// from it and then decides as `from_parts` does.
    pub fn resolve(path: Option<&str>, is_dir: bool) -> (r: Result<Target, Error>)
        ensures
            target_outcome(r) == place_of_path(text_of(path), is_dir),
    {
        match path {
            None => Ok(Target::Stdout),
            Some(text) => {
                let ext = match file_name(text) {
                    Some(name) => extension(name),
                    None => None,
                };
                Target::from_parts(path, is_dir, ext)
            },
        }
    }

    /// The file to write; none for standard output.
    pub fn file(&self) -> (r: Option<String>)
        ensures
            match r {
                Some(path) => Some(path@),
                None => None,
            } == file_of(self@),
    {
        match self {
            Target::Stdout => None,
            Target::Within { directory } => Some(join(directory.as_str(), default_file_name())),
            Target::File { path } => Some(path.clone()),
        }
    }
}

impl Output {
    /// Puts together what is to be written from the outcome of the
    /// rendering and the outcome of settling the destination.
    pub fn plan(json: Result<String, String>, target: Result<Target, Error>) -> (r: Result<
        Output,
        Error,
    >)
        ensures
            output_outcome(r) == planned(text_outcome(json), target_outcome(target)),
    {
        let json = match json {
            Ok(json) => json,
            Err(source) => return Err(Error::FailedToSerialize { source }),
        };
        match target {
            Ok(target) => Ok(Output { file: target.file(), json }),
            Err(error) => Err(error),
        }
    }

    /// Concludes a run once the caller has tried to write: `failure` is
    /// the message of the error, if the write failed.
    pub fn conclude(&self, failure: Option<String>) -> (r: Result<(), Error>)
        ensures
            match concluded(
                self@,
                match failure {
                    Some(message) => Some(message@),
                    None => None,
                },
            ) {
                Ok(_) => r is Ok,
                Err(f) => r matches Err(error) && error@ == f,
            },
    {
        match (&self.file, failure) {
            (Some(target), Some(source)) => Err(
                Error::FailedToWrite { source, target: target.clone() },
            ),
            _ => Ok(()),
        }
    }
}

/// Renders a document, compact or indented, and settles where it goes.
/// `is_dir` tells whether the destination is an existing directory.
///
/// The outcome is the one planned from the text that `serde_json` writes
/// for the document and from the place settled for the destination. It
/// is a failure only where the destination is refused.
pub fn write_json(data: &Value, path: Option<&str>, is_dir: bool, should_prettify: bool) -> (r:
    Result<Output, Error>)
    ensures
        output_outcome(r) == planned(
            Ok(rendered(json_of(*data), should_prettify)),
            place_of_path(text_of(path), is_dir),
        ),
        r is Ok <==> place_of_path(text_of(path), is_dir) is Ok,
        r matches Ok(output) ==> output@.json == rendered(json_of(*data), should_prettify),
        r matches Err(error) ==> error@ == Failure::BadPath,
{
    let json = if should_prettify {
        to_pretty(data)
    } else {
        to_compact(data)
    };
    Output::plan(json, Target::resolve(path, is_dir))
}

} // verus!
