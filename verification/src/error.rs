//! The errors of a conversion.

use vstd::prelude::*;
use vstd::string::StringExecFns;

verus! {

/// The two families of source files.
#[derive(Clone, Copy, Debug, PartialEq, Eq, Structural)]
pub enum SourceKind {
    /// A word-processing document (`docx`).
    Word,
    /// A spreadsheet workbook (`xlsx`, `xls`).
    Spreadsheet,
}

/// What went wrong with a file or a directory.
#[derive(Clone, Copy, Debug, PartialEq, Eq, Structural)]
pub enum IoFailure {
    /// The path names no file.
    MissingFileName,
    /// The directory does not exist.
    DirectoryNotFound,
    /// The path exists and is no directory.
    NotADirectory,
    /// The file could not be read.
    Unreadable,
    /// The output could not be written.
    Unwritable,
}

/// Why a renderer gave no output.
#[derive(Clone, Copy, Debug, PartialEq, Eq, Structural)]
pub enum RenderFailure {
    /// A table row has another number of cells than the table has columns.
    RowWidth,
    /// The page renderer gave no document, or failed while it produced the
    /// pages.
    PageRenderer,
}

/// An error of a conversion.
#[derive(Clone, Debug, PartialEq, Eq)]
pub enum ConvertError {
    /// A file or directory could not be used.
    IoError(IoFailure),
    /// The source container is malformed.
    FormatError(SourceKind),
    /// The file's extension, given in lowercase, names no supported format.
    UnsupportedFormat(String),
    /// A renderer failed.
    RenderError(RenderFailure),
}

/// The mathematical value of a [`ConvertError`].
pub enum ErrorModel {
    IoError(IoFailure),
    FormatError(SourceKind),
    UnsupportedFormat(Seq<char>),
    RenderError(RenderFailure),
}

impl View for ConvertError {
    type V = ErrorModel;

    open spec fn view(&self) -> ErrorModel {
        match self {
            ConvertError::IoError(f) => ErrorModel::IoError(*f),
            ConvertError::FormatError(k) => ErrorModel::FormatError(*k),
            ConvertError::UnsupportedFormat(e) => ErrorModel::UnsupportedFormat(e@),
            ConvertError::RenderError(f) => ErrorModel::RenderError(*f),
        }
    }
}

/// The sentence that describes an error.
pub open spec fn message_of(e: ErrorModel) -> Seq<char> {
    match e {
        ErrorModel::IoError(IoFailure::MissingFileName) => "Failed to get file name"@,
        ErrorModel::IoError(IoFailure::DirectoryNotFound) => "Directory does not exist"@,
        ErrorModel::IoError(IoFailure::NotADirectory) => "Path is not a directory"@,
        ErrorModel::IoError(IoFailure::Unreadable) => "Failed to open file"@,
        ErrorModel::IoError(IoFailure::Unwritable) => "Failed to write output file"@,
        ErrorModel::FormatError(SourceKind::Word) => "Failed to parse DOCX file"@,
        ErrorModel::FormatError(SourceKind::Spreadsheet) => "Failed to open Excel file"@,
        ErrorModel::UnsupportedFormat(ext) => "Unsupported file format: "@ + ext,
        ErrorModel::RenderError(RenderFailure::RowWidth) => "A table row does not fit its columns"@,
        ErrorModel::RenderError(RenderFailure::PageRenderer) => "Failed to generate PDF file"@,
    }
}

impl ConvertError {
    /// The sentence that describes this error.
    pub fn message(&self) -> (text: String)
        ensures
            text@ == message_of(self@),
    {
        match self {
            ConvertError::IoError(IoFailure::MissingFileName) => String::from_str(
                "Failed to get file name",
            ),
            ConvertError::IoError(IoFailure::DirectoryNotFound) => String::from_str(
                "Directory does not exist",
            ),
            ConvertError::IoError(IoFailure::NotADirectory) => String::from_str(
                "Path is not a directory",
            ),
            ConvertError::IoError(IoFailure::Unreadable) => String::from_str("Failed to open file"),
            ConvertError::IoError(IoFailure::Unwritable) => String::from_str(
                "Failed to write output file",
            ),
            ConvertError::FormatError(SourceKind::Word) => String::from_str(
                "Failed to parse DOCX file",
            ),
            ConvertError::FormatError(SourceKind::Spreadsheet) => String::from_str(
                "Failed to open Excel file",
            ),
            ConvertError::UnsupportedFormat(ext) => {
                let mut text = String::from_str("Unsupported file format: ");
                text.append(ext.as_str());
                text
            },
            ConvertError::RenderError(RenderFailure::RowWidth) => String::from_str(
                "A table row does not fit its columns",
            ),
            ConvertError::RenderError(RenderFailure::PageRenderer) => String::from_str(
                "Failed to generate PDF file",
            ),
        }
    }
}

} // verus!
