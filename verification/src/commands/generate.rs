//! The catalogue of a directory tree: one record for each file that is an
//! image, in the order in which the files were visited, rendered as one
//! JSON document.
//!
//! The caller walks the tree and reads the files. For each entry it
//! reports what it met, with `visit` and `inspect`; it hands the outcomes
//! of all entries to `generate` and writes what comes back.

use crate::models::image::candidate_of_path;
use crate::models::image::image_of_content;
use crate::models::image::path_of;
use crate::models::image::Candidate;
use crate::models::image::CandidateView;
use crate::models::image::Image;
use crate::models::image::ImageView;
use crate::utils::json::json_of;
use crate::utils::json::jsons_of;
use crate::utils::json::list_value;
use crate::utils::json::Json;
use crate::utils::write_json::place_of_path;
use crate::utils::write_json::planned;
use crate::utils::write_json::rendered;
use crate::utils::write_json::text_of;
use crate::utils::write_json::write_json;
use crate::utils::write_json::Output;
use crate::utils::write_json::Written;
use serde_json::Value;
use vstd::prelude::*;

verus! {

/// Why an entry gave no record, or why the run gave no document.
#[allow(inconsistent_fields)]
#[derive(Debug)]
pub enum Error {
    /// A path could not be turned into text.
    PathToStr,
    /// The root of the walk could not be made absolute.
    AbsolutePath { source: String },
    /// The walk could not read an entry.
    BadEntry { source: String },
    /// An entry is no image.
    BadImage { source: crate::models::image::Error },
    /// The document could not be rendered or written.
    WriteJsonFile { source: crate::utils::write_json::Error },
}

/// An `Error` as a mathematical value.
#[allow(inconsistent_fields)]
pub enum Failure {
    PathToStr,
    AbsolutePath { source: Seq<char> },
    BadEntry { source: Seq<char> },
    BadImage { source: crate::models::image::Failure },
    WriteJsonFile { source: crate::utils::write_json::Failure },
}

impl View for Error {
    type V = Failure;

    open spec fn view(&self) -> Failure {
        match self {
            Error::PathToStr => Failure::PathToStr,
            Error::AbsolutePath { source } => Failure::AbsolutePath { source: source@ },
            Error::BadEntry { source } => Failure::BadEntry { source: source@ },
            Error::BadImage { source } => Failure::BadImage { source: source@ },
            Error::WriteJsonFile { source } => Failure::WriteJsonFile { source: source@ },
        }
    }
}

/// What the walk met at one entry: its path, as text or as a rendering of
/// a path that is not text, or the message of the error that kept the
/// entry from being read.
pub open spec fn entry_of(entry: Result<Result<&str, &str>, String>) -> Result<
    Result<Seq<char>, Seq<char>>,
    Seq<char>,
> {
    match entry {
        Ok(path) => Ok(path_of(path)),
        Err(message) => Err(message@),
    }
}

/// The outcome of a visit: an entry that could not be read is a bad entry;
/// a path that fails a check is a bad image.
pub open spec fn visited(entry: Result<Result<Seq<char>, Seq<char>>, Seq<char>>) -> Result<
    CandidateView,
    Failure,
> {
    match entry {
        Err(source) => Err(Failure::BadEntry { source }),
        Ok(path) => match candidate_of_path(path) {
            Ok(candidate) => Ok(candidate),
            Err(source) => Err(Failure::BadImage { source }),
        },
    }
}

/// The outcome of an inspection: a file that could not be read, or whose
/// bytes give no record, is a bad image.
pub open spec fn inspected(candidate: CandidateView, content: Option<Seq<u8>>, colors: u8)
    -> Result<ImageView, Failure> {
    match content {
        None => Err(
            Failure::BadImage { source: crate::models::image::Failure::FailedToOpen },
        ),
        Some(content) => match image_of_content(candidate, content, colors) {
            Ok(image) => Ok(image),
            Err(source) => Err(Failure::BadImage { source }),
        },
    }
}

/// The outcome of an inspection as a mathematical value.
pub open spec fn outcome_of(outcome: Result<Image, Error>) -> Result<ImageView, Failure> {
    match outcome {
        Ok(image) => Ok(image@),
        Err(error) => Err(error@),
    }
}

/// The outcomes of the inspections of a walk as mathematical values.
pub open spec fn outcomes_of(outcomes: Seq<Result<Image, Error>>) -> Seq<
    Result<ImageView, Failure>,
> {
    Seq::new(outcomes.len(), |i: int| outcome_of(outcomes[i]))
}

/// The records of a sequence of images.
pub open spec fn records_of(images: Seq<Image>) -> Seq<ImageView> {
    Seq::new(images.len(), |i: int| images[i]@)
}

/// The records of the entries that gave one, in the order of the entries.
/// An entry that failed leaves nothing behind.
pub open spec fn collected(outcomes: Seq<Result<ImageView, Failure>>) -> Seq<ImageView>
    decreases outcomes.len(),
{
    if outcomes.len() == 0 {
        Seq::empty()
    } else {
        match outcomes.last() {
            Ok(image) => collected(outcomes.drop_last()).push(image),
            Err(_) => collected(outcomes.drop_last()),
        }
    }
}

/// The catalogue as a document: the array of the records' documents.
pub open spec fn catalogue(records: Seq<ImageView>) -> Json {
    Json::List(Seq::new(records.len(), |i: int| records[i].json()))
}

/// What a run is to write, given the outcomes of its entries, the
/// destination, and the outcome of rendering the catalogue.
pub open spec fn generated(json: Result<Seq<char>, Seq<char>>, target: Option<Seq<char>>,
    target_is_dir: bool) -> Result<Written, Failure> {
    match planned(json, place_of_path(target, target_is_dir)) {
        Ok(written) => Ok(written),
        Err(source) => Err(Failure::WriteJsonFile { source }),
    }
}

/// What holds of a run of `generate`: its outcome is the one planned from
/// the text that `serde_json` writes for the catalogue of the collected
/// records, and from the place settled for the destination.
pub open spec fn generates(
    outcomes: Seq<Result<ImageView, Failure>>,
    target: Option<Seq<char>>,
    target_is_dir: bool,
    should_prettify: bool,
    run: Result<Written, Failure>,
) -> bool {
    run == generated(
        Ok(rendered(catalogue(collected(outcomes)), should_prettify)),
        target,
        target_is_dir,
    )
}

/// What the caller met at one entry of a walk: the path, as text or as a
/// rendering of a path that is not text, or the message of the error that
/// kept the entry from being read; and the bytes of the file, where it
/// read them.
pub struct Entry {
    pub path: Result<Result<Seq<char>, Seq<char>>, Seq<char>>,
    pub content: Option<Seq<u8>>,
}

/// The outcome of one entry: of its visit and, for a candidate, of the
/// inspection of its file.
pub open spec fn outcome_of_entry(entry: Entry, colors: u8) -> Result<ImageView, Failure> {
    match visited(entry.path) {
        Err(failure) => Err(failure),
        Ok(candidate) => inspected(candidate, entry.content, colors),
    }
}

/// The outcomes of the entries of a walk, in their order.
pub open spec fn walked(entries: Seq<Entry>, colors: u8) -> Seq<Result<ImageView, Failure>> {
    Seq::new(entries.len(), |i: int| outcome_of_entry(entries[i], colors))
}

/// An outcome of `generate` as a mathematical value.
pub open spec fn run_of(outcome: Result<Output, Error>) -> Result<Written, Failure> {
    match outcome {
        Ok(output) => Ok(output@),
        Err(error) => Err(error@),
    }
}

/// An outcome of a visit as a mathematical value.
pub open spec fn visit_of(outcome: Result<Candidate, Error>) -> Result<CandidateView, Failure> {
    match outcome {
        Ok(candidate) => Ok(candidate@),
        Err(error) => Err(error@),
    }
}

/// Decides what becomes of an entry of the walk: a candidate, whose file
/// the caller then reads, or the reason why there is none.
pub fn visit(entry: Result<Result<&str, &str>, String>) -> (r: Result<Candidate, Error>)
    ensures
        visit_of(r) == visited(entry_of(entry)),
{
    match entry {
        Err(source) => Err(Error::BadEntry { source }),
        Ok(path) => match Candidate::of_path(path) {
            Ok(candidate) => Ok(candidate),
            Err(source) => Err(Error::BadImage { source }),
        },
    }
}

/// Makes the record of a candidate from what the caller read of its file:
/// the bytes, or the error that kept them from being read, which is then
/// the one carried by the failure.
pub fn inspect(candidate: Candidate, content: Result<&[u8], image::ImageError>, colors: u8) -> (r:
    Result<Image, Error>)
    ensures
        outcome_of(r) == inspected(
            candidate@,
            match content {
                Ok(bytes) => Some(bytes@),
                Err(_) => None,
            },
            colors,
        ),
        content matches Err(reported) ==> r matches Err(
            Error::BadImage { source: crate::models::image::Error::FailedToOpen { source } },
        ) && source == reported,
        r matches Ok(image) ==> image@.well_formed() && image@.colors.len() <= colors,
{
    let built = match content {
        Ok(bytes) => Image::build(candidate, bytes, colors),
        Err(source) => Err(crate::models::image::Error::FailedToOpen { source }),
    };
    match built {
        Ok(image) => Ok(image),
        Err(source) => Err(Error::BadImage { source }),
    }
}

proof fn lemma_collected_push(outcomes: Seq<Result<ImageView, Failure>>, outcome: Result<
    ImageView,
    Failure,
>)
    ensures
        collected(outcomes.push(outcome)) == match outcome {
            Ok(image) => collected(outcomes).push(image),
            Err(_) => collected(outcomes),
        },
{
    assert(outcomes.push(outcome).drop_last() =~= outcomes);
}

/// Keeps the records of the entries that gave one, in the order of the
/// entries, and drops every failure.
pub fn collect(outcomes: Vec<Result<Image, Error>>) -> (images: Vec<Image>)
    ensures
        records_of(images@) == collected(outcomes_of(outcomes@)),
{
    let ghost all = outcomes_of(outcomes@);
    let mut outcomes = outcomes;
    let mut kept: Vec<Image> = Vec::new();
    while outcomes.len() > 0
        invariant
            collected(all) == collected(outcomes_of(outcomes@)) + records_of(kept@).reverse(),
        decreases outcomes@.len(),
    {
        let ghost before = outcomes_of(outcomes@);
        let ghost kept_before = records_of(kept@);
        let outcome = outcomes.pop().unwrap();
        proof {
            assert(before =~= outcomes_of(outcomes@).push(outcome_of(outcome)));
            lemma_collected_push(outcomes_of(outcomes@), outcome_of(outcome));
        }
        match outcome {
            Ok(image) => {
                kept.push(image);
                assert(records_of(kept@) =~= kept_before.push(image@));
                assert(records_of(kept@).reverse() =~= seq![image@] + kept_before.reverse());
                assert(collected(before) =~= collected(outcomes_of(outcomes@)) + seq![image@]);
            },
            Err(_) => {},
        }
    }
    assert(collected(outcomes_of(outcomes@)) =~= Seq::<ImageView>::empty());
    let mut images: Vec<Image> = Vec::new();
    while kept.len() > 0
        invariant
            collected(all) == records_of(images@) + records_of(kept@).reverse(),
        decreases kept@.len(),
    {
        let ghost kept_before = records_of(kept@);
        let ghost images_before = records_of(images@);
        let image = kept.pop().unwrap();
        assert(kept_before =~= records_of(kept@).push(image@));
        assert(kept_before.reverse() =~= seq![image@] + records_of(kept@).reverse());
        images.push(image);
        assert(records_of(images@) =~= images_before.push(image@));
    }
    assert(records_of(kept@).reverse() =~= Seq::<ImageView>::empty());
    images
}

/// Renders a catalogue as a document: the array of its records, in order.
pub fn document(images: &Vec<Image>) -> (v: Value)
    ensures
        json_of(v) == catalogue(records_of(images@)),
{
    let mut items: Vec<Value> = Vec::new();
    let mut i: usize = 0;
    while i < images.len()
        invariant
            i <= images@.len(),
            items@.len() == i,
            forall|j: int| 0 <= j < i ==> json_of(items@[j]) == images@[j]@.json(),
        decreases images@.len() - i,
    {
        items.push(images[i].serialize());
        i += 1;
    }
    assert(jsons_of(items@) =~= catalogue(records_of(images@))->List_0);
    list_value(items)
}

/// Makes the catalogue of a walk from the outcomes of its entries, renders
/// it, compact or indented, and settles where it goes. `target_is_dir`
/// tells whether the destination is an existing directory.
///
/// The run ends well unless the destination is refused, whatever the
/// entries gave: an entry that failed only leaves no record. What is to be
/// written is the text that `serde_json` writes for the catalogue of the
/// collected records.
pub fn generate(
    outcomes: Vec<Result<Image, Error>>,
    target: Option<&str>,
    target_is_dir: bool,
    should_prettify: bool,
) -> (r: Result<Output, Error>)
    ensures
        generates(outcomes_of(outcomes@), text_of(target), target_is_dir, should_prettify, run_of(r)),
        r is Ok <==> place_of_path(text_of(target), target_is_dir) is Ok,
        r matches Ok(output) ==> output@.json == rendered(
            catalogue(collected(outcomes_of(outcomes@))),
            should_prettify,
        ),
        r matches Err(error) ==> error@ == (Failure::WriteJsonFile {
            source: crate::utils::write_json::Failure::BadPath,
        }),
{
    let images = collect(outcomes);
    let data = document(&images);
    match write_json(&data, target, target_is_dir, should_prettify) {
        Ok(output) => Ok(output),
        Err(source) => Err(Error::WriteJsonFile { source }),
    }
}

/// A file with the extension of an image whose bytes do not decode gives a
/// failure, never a record.
pub proof fn law_corrupt_file_fails(candidate: CandidateView, content: Seq<u8>, colors: u8)
    requires
        crate::models::pixels::decoded(content, candidate.kind) is None,
    ensures
        inspected(candidate, Some(content), colors) == Err::<ImageView, Failure>(
            Failure::BadImage { source: crate::models::image::Failure::FailedToOpen },
        ),
{
}

/// An entry that failed contributes nothing: the records collected are
/// those collected without it.
pub proof fn law_failure_is_isolated(outcomes: Seq<Result<ImageView, Failure>>, at: int)
    requires
        0 <= at < outcomes.len(),
        outcomes[at] is Err,
    ensures
        collected(outcomes) == collected(outcomes.remove(at)),
    decreases outcomes.len(),
{
    if at == outcomes.len() - 1 {
        assert(outcomes.remove(at) =~= outcomes.drop_last());
    } else {
        law_failure_is_isolated(outcomes.drop_last(), at);
        assert(outcomes.remove(at).drop_last() =~= outcomes.drop_last().remove(at));
        assert(outcomes.remove(at).last() == outcomes.last());
    }
}

/// Where every entry gave a record, the records collected are these, one
/// for each entry and in the order of the entries.
pub proof fn law_successes_are_kept(outcomes: Seq<Result<ImageView, Failure>>)
    requires
        forall|i: int| 0 <= i < outcomes.len() ==> outcomes[i] is Ok,
    ensures
        collected(outcomes).len() == outcomes.len(),
        forall|i: int| 0 <= i < outcomes.len() ==> collected(outcomes)[i] == outcomes[i]->Ok_0,
    decreases outcomes.len(),
{
    if outcomes.len() > 0 {
        law_successes_are_kept(outcomes.drop_last());
    }
}

/// A walk that met `valid.len()` files that gave a record and, at any
/// place among them, one that failed, has exactly the records of the
/// former in its catalogue.
pub proof fn law_one_failure_among_successes(
    valid: Seq<Result<ImageView, Failure>>,
    failed: Result<ImageView, Failure>,
    at: int,
)
    requires
        forall|i: int| 0 <= i < valid.len() ==> valid[i] is Ok,
        failed is Err,
        0 <= at <= valid.len(),
    ensures
        collected(valid.insert(at, failed)).len() == valid.len(),
        collected(valid.insert(at, failed)) == collected(valid),
{
    law_failure_is_isolated(valid.insert(at, failed), at);
    assert(valid.insert(at, failed).remove(at) =~= valid);
    law_successes_are_kept(valid);
}

/// Two runs over the same entries, with the same palette size, the same
/// destination and the same choice of rendering, end alike: both write
/// the same text to the same place, or both are refused the destination.
pub proof fn law_same_walk_same_document(
    entries: Seq<Entry>,
    colors: u8,
    target: Option<Seq<char>>,
    target_is_dir: bool,
    should_prettify: bool,
    first: Result<Written, Failure>,
    second: Result<Written, Failure>,
)
    requires
        generates(walked(entries, colors), target, target_is_dir, should_prettify, first),
        generates(walked(entries, colors), target, target_is_dir, should_prettify, second),
    ensures
        first == second,
{
}

} // verus!
