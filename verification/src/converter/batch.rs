//! Conversion of the files of a directory, and the choice of the files that a
//! watcher converts.
//!
//! The caller walks the directory and reads the files; what it found is handed
//! in. A file that fails does not stop the others.

use crate::converter::markdown_writer::MarkdownFile;
use crate::converter::{
    convert_to_markdown,
    convert_to_pdf,
    markdown_conversion,
    pdf_attempt,
    PdfAttempt,
    Source,
};
use crate::error::{ConvertError, ErrorModel, IoFailure};
use crate::text::{lowercase, same_text, to_lowercase};
use crate::utils::{extension_of, file_extension, is_supported_extension, supports_extension};
use vstd::prelude::*;

verus! {

/// The mathematical value of a type filter.
pub open spec fn filter_view(filter: Option<&str>) -> Option<Seq<char>> {
    match filter {
        Some(wanted) => Some(wanted@),
        None => None,
    }
}

/// Whether a file is of the wanted type: its extension is a supported one,
/// whatever its case, and with a filter it is also the filter's, whatever the
/// case of both. The filter narrows the supported types and never adds one. A
/// file without an extension is of no type.
pub open spec fn type_matches(file_name: Seq<char>, filter: Option<Seq<char>>) -> bool {
    match extension_of(file_name) {
        None => false,
        Some(ext) => is_supported_extension(lowercase(ext)) && match filter {
            Some(wanted) => lowercase(ext) == lowercase(wanted),
            None => true,
        },
    }
}

/// Tells whether a file is of the wanted type.
pub fn is_file_type_match(file_name: &str, filter: Option<&str>) -> (b: bool)
    ensures
        b == type_matches(file_name@, filter_view(filter)),
{
    match file_extension(file_name) {
        None => false,
        Some(ext) => {
            let key = to_lowercase(ext.as_str());
            if !supports_extension(key.as_str()) {
                return false;
            }
            match filter {
                Some(wanted) => {
                    let wanted_key = to_lowercase(wanted);
                    same_text(key.as_str(), wanted_key.as_str())
                },
                None => true,
            }
        },
    }
}

/// An entry that a walk of a directory found.
#[derive(Clone, Debug, PartialEq, Eq)]
pub struct DirEntry {
    /// The name of the entry: the last component of its path.
    pub file_name: String,
    /// Whether the entry is a directory.
    pub is_dir: bool,
}

/// Whether an entry is a file to convert: no directory, and of the wanted type.
pub open spec fn is_selected(file_name: Seq<char>, is_dir: bool, filter: Option<Seq<char>>) -> bool {
    !is_dir && type_matches(file_name, filter)
}

/// The positions of the entries to convert, in the order of the walk.
pub open spec fn selected_positions(entries: Seq<DirEntry>, filter: Option<Seq<char>>) -> Seq<usize>
    decreases entries.len(),
{
    if entries.len() == 0 {
        Seq::empty()
    } else if is_selected(entries.last().file_name@, entries.last().is_dir, filter) {
        selected_positions(entries.drop_last(), filter).push((entries.len() - 1) as usize)
    } else {
        selected_positions(entries.drop_last(), filter)
    }
}

/// Picks the files to convert among the entries of a walk: the positions of
/// the entries that are no directories and are of the wanted type, in the
/// order of the walk.
pub fn get_files_to_convert(entries: &Vec<DirEntry>, filter: Option<&str>) -> (positions: Vec<usize>)
    ensures
        positions@ == selected_positions(entries@, filter_view(filter)),
{
    let mut positions: Vec<usize> = Vec::new();
    let mut i: usize = 0;
    while i < entries.len()
        invariant
            i <= entries@.len(),
            positions@ == selected_positions(entries@.take(i as int), filter_view(filter)),
        decreases entries@.len() - i,
    {
        proof {
            assert(entries@.take(i + 1).drop_last() == entries@.take(i as int));
            assert(entries@.take(i + 1).last() == entries@[i as int]);
        }
        if !entries[i].is_dir && is_file_type_match(entries[i].file_name.as_str(), filter) {
            positions.push(i);
        }
        i = i + 1;
    }
    proof {
        assert(entries@.take(entries@.len() as int) == entries@);
    }
    positions
}

/// The kinds of events that a watcher of a directory reports.
#[derive(Clone, Copy, Debug, PartialEq, Eq, Structural)]
pub enum EventKind {
    /// A file or directory was created.
    Create,
    /// A file or directory was changed.
    Modify,
    /// Anything else.
    Other,
}

/// Whether a path of a watcher's event is converted: the event is a creation
/// or a change, and the path is a file to convert.
pub open spec fn is_watched(
    kind: EventKind,
    file_name: Seq<char>,
    is_dir: bool,
    filter: Option<Seq<char>>,
) -> bool {
    (kind == EventKind::Create || kind == EventKind::Modify) && is_selected(
        file_name,
        is_dir,
        filter,
    )
}

/// Tells whether a path of a watcher's event is to be converted.
pub fn should_convert(kind: EventKind, file_name: &str, is_dir: bool, filter: Option<&str>) -> (b:
    bool)
    ensures
        b == is_watched(kind, file_name@, is_dir, filter_view(filter)),
{
    match kind {
        EventKind::Create | EventKind::Modify => !is_dir && is_file_type_match(file_name, filter),
        EventKind::Other => false,
    }
}

/// An entry of a directory, with what was read of its file.
#[derive(Debug)]
pub struct BatchInput {
    /// The name of the entry: the last component of its path.
    pub file_name: String,
    /// Whether the entry is a directory.
    pub is_dir: bool,
    /// What was read of the file, where it was read.
    pub source: Option<Source>,
}

/// What became of an entry of a batch.
#[derive(Debug, PartialEq, Eq)]
pub enum BatchOutcome<T> {
    /// The entry is no file to convert.
    Skipped,
    /// The conversion of the file failed.
    Failed(ConvertError),
    /// The file was converted.
    Converted(T),
}

/// An entry of a directory, with the document that the caller made for it
/// with the page renderer, where it could make one.
pub struct PageInput {
    /// The entry and what was read of its file.
    pub input: BatchInput,
    /// The document for the PDF of the entry.
    pub page: Option<genpdf::Document>,
}

/// What a batch conversion to PDF gives for one entry, before the page
/// renderer runs: an entry that is no file to convert is skipped; a file that
/// was not read fails as unreadable; any other gets what the start of its
/// conversion gives.
pub open spec fn pdf_outcome(
    input: BatchInput,
    filter: Option<Seq<char>>,
    page: Option<genpdf::Document>,
    outcome: BatchOutcome<PdfAttempt>,
) -> bool {
    if !is_selected(input.file_name@, input.is_dir, filter) {
        outcome is Skipped
    } else if input.source is None {
        outcome is Failed && outcome->Failed_0@ == ErrorModel::IoError(IoFailure::Unreadable)
    } else {
        match outcome {
            BatchOutcome::Skipped => false,
            BatchOutcome::Failed(e) => pdf_attempt(
                input.file_name@,
                input.source->0,
                page,
                Err::<PdfAttempt, ConvertError>(e),
            ),
            BatchOutcome::Converted(attempt) => pdf_attempt(
                input.file_name@,
                input.source->0,
                page,
                Ok::<PdfAttempt, ConvertError>(attempt),
            ),
        }
    }
}

/// What a batch conversion to Markdown gives for one entry: an entry that is
/// no file to convert is skipped; a file that was not read fails as
/// unreadable; any other gets what its conversion gives.
pub open spec fn markdown_outcome(
    input: BatchInput,
    filter: Option<Seq<char>>,
    outcome: BatchOutcome<MarkdownFile>,
) -> bool {
    if !is_selected(input.file_name@, input.is_dir, filter) {
        outcome is Skipped
    } else if input.source is None {
        outcome is Failed && outcome->Failed_0@ == ErrorModel::IoError(IoFailure::Unreadable)
    } else {
        match markdown_conversion(input.file_name@, input.source->0) {
            Ok(file) => outcome is Converted && outcome->Converted_0@ == file,
            Err(error) => outcome is Failed && outcome->Failed_0@ == error,
        }
    }
}

/// Converts one entry of a batch to PDF.
fn convert_entry(entry: PageInput, filter: Option<&str>) -> (outcome: BatchOutcome<PdfAttempt>)
    ensures
        pdf_outcome(entry.input, filter_view(filter), entry.page, outcome),
{
    let PageInput { input, page } = entry;
    if input.is_dir || !is_file_type_match(input.file_name.as_str(), filter) {
        return BatchOutcome::Skipped;
    }
    match &input.source {
        None => BatchOutcome::Failed(ConvertError::IoError(IoFailure::Unreadable)),
        Some(source) => match convert_to_pdf(input.file_name.as_str(), source, page) {
            Ok(attempt) => BatchOutcome::Converted(attempt),
            Err(e) => BatchOutcome::Failed(e),
        },
    }
}

/// Converts one entry of a batch to Markdown.
fn convert_entry_to_markdown(input: &BatchInput, filter: Option<&str>) -> (outcome: BatchOutcome<
    MarkdownFile,
>)
    ensures
        markdown_outcome(*input, filter_view(filter), outcome),
{
    if input.is_dir || !is_file_type_match(input.file_name.as_str(), filter) {
        return BatchOutcome::Skipped;
    }
    match &input.source {
        None => BatchOutcome::Failed(ConvertError::IoError(IoFailure::Unreadable)),
        Some(source) => match convert_to_markdown(input.file_name.as_str(), source) {
            Ok(file) => BatchOutcome::Converted(file),
            Err(e) => BatchOutcome::Failed(e),
        },
    }
}

/// Starts the conversion of the files of a directory to PDF, one after the
/// other, each in the document that the caller made for it. There is one
/// outcome for each entry, in the order of the entries; a file that fails is
/// reported and the batch goes on. The caller lets the page renderer run on
/// the document of each attempt.
pub fn batch_convert(inputs: Vec<PageInput>, filter: Option<&str>) -> (outcomes: Vec<
    BatchOutcome<PdfAttempt>,
>)
    ensures
        outcomes@.len() == inputs@.len(),
        forall|i: int|
            0 <= i < inputs@.len() ==> pdf_outcome(
                inputs@[i].input,
                filter_view(filter),
                inputs@[i].page,
                #[trigger] outcomes@[i],
            ),
{
    let mut outcomes: Vec<BatchOutcome<PdfAttempt>> = Vec::new();
    for entry in it: inputs.into_iter()
        invariant
            it.seq() == inputs@,
            outcomes@.len() == it.index(),
            forall|j: int|
                0 <= j < it.index() ==> pdf_outcome(
                    inputs@[j].input,
                    filter_view(filter),
                    inputs@[j].page,
                    #[trigger] outcomes@[j],
                ),
    {
        let outcome = convert_entry(entry, filter);
        outcomes.push(outcome);
    }
    outcomes
}

/// Converts the files of a directory to Markdown, one after the other. There
/// is one outcome for each entry, in the order of the entries; a file that
/// fails is reported and the batch goes on.
pub fn batch_convert_to_markdown(inputs: &Vec<BatchInput>, filter: Option<&str>) -> (outcomes: Vec<
    BatchOutcome<MarkdownFile>,
>)
    ensures
        outcomes@.len() == inputs@.len(),
        forall|i: int|
            0 <= i < inputs@.len() ==> markdown_outcome(
                inputs@[i],
                filter_view(filter),
                #[trigger] outcomes@[i],
            ),
{
    let mut outcomes: Vec<BatchOutcome<MarkdownFile>> = Vec::new();
    let mut i: usize = 0;
    while i < inputs.len()
        invariant
            i <= inputs@.len(),
            outcomes@.len() == i,
            forall|j: int|
                0 <= j < i ==> markdown_outcome(
                    inputs@[j],
                    filter_view(filter),
                    #[trigger] outcomes@[j],
                ),
        decreases inputs@.len() - i,
    {
        let outcome = convert_entry_to_markdown(&inputs[i], filter);
        outcomes.push(outcome);
        i = i + 1;
    }
    outcomes
}

} // verus!
