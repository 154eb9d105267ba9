//! The conversions: readers, renderers, and the rules that tie them together.
//!
//! A conversion classifies the input by its file name, extracts its content,
//! and renders it. A conversion to PDF falls back to Markdown, without an
//! error, where the PDF cannot be rendered or cannot be written. The library
//! reads and writes no file: the caller hands in what it read of the input
//! and an empty document of the page renderer, lets the page renderer run,
//! writes the output, and tells the conversion whether the writing succeeded.

pub mod batch;
pub mod conversion_laws;
pub mod docx_reader;
pub mod docx_tree;
pub mod markdown_laws;
pub mod markdown_writer;
pub mod page_renderer;
pub mod placeholder_font;
pub mod pdf_writer;
pub mod xlsx_reader;

use crate::converter::docx_reader::{content_of, extract_content, DocumentModel, DocxContent};
use crate::converter::docx_tree::body_model;
use crate::converter::markdown_writer::{
    create_markdown_from_docx,
    create_markdown_from_xlsx,
    document_file,
    document_markdown,
    workbook_file,
    workbook_markdown,
    MarkdownFile,
    MarkdownModel,
};
use crate::converter::pdf_writer::{
    create_pdf_from_docx,
    create_pdf_from_xlsx,
    document_layout,
    pdf_drafted,
    pdf_name,
    workbook_layout,
    BlockModel,
    PdfFile,
    PdfModel,
};
use crate::converter::xlsx_reader::{
    extract_sheets,
    kept_sheets,
    kept_sheets_are_well_formed,
    sheet_models,
    Sheet,
    SheetLookup,
    SheetModel,
};
use crate::error::{ConvertError, ErrorModel, IoFailure, RenderFailure, SourceKind};
use crate::text::same_text;
use crate::utils::{format_key, lowercase_extension};
use vstd::prelude::*;

verus! {

/// The content of a source file.
#[derive(Clone, Debug, PartialEq, Eq)]
pub enum Content {
    /// The content of a word-processing document.
    Document(DocxContent),
    /// The sheets of a workbook.
    Workbook(Vec<Sheet>),
}

/// The mathematical value of a [`Content`].
pub enum ContentModel {
    Document(DocumentModel),
    Workbook(Seq<SheetModel>),
}

impl View for Content {
    type V = ContentModel;

    open spec fn view(&self) -> ContentModel {
        match self {
            Content::Document(content) => ContentModel::Document(content@),
            Content::Workbook(sheets) => ContentModel::Workbook(sheet_models(sheets@)),
        }
    }
}

impl ContentModel {
    /// The family of source files from which the content comes.
    pub open spec fn kind(self) -> SourceKind {
        match self {
            ContentModel::Document(_) => SourceKind::Word,
            ContentModel::Workbook(_) => SourceKind::Spreadsheet,
        }
    }

    /// What a reader may hand out.
    pub open spec fn wf(self) -> bool {
        match self {
            ContentModel::Document(content) => content.wf(),
            ContentModel::Workbook(sheets) => forall|i: int|
                0 <= i < sheets.len() ==> (#[trigger] sheets[i]).wf(),
        }
    }

    /// The Markdown text of the content under a title.
    pub open spec fn markdown(self, title: Seq<char>) -> Seq<char> {
        match self {
            ContentModel::Document(content) => document_markdown(title, content),
            ContentModel::Workbook(sheets) => workbook_markdown(title, sheets),
        }
    }

    /// The page layout of the content.
    pub open spec fn layout(self) -> Seq<BlockModel> {
        match self {
            ContentModel::Document(content) => document_layout(content),
            ContentModel::Workbook(sheets) => workbook_layout(sheets),
        }
    }
}

/// The family of source files that a lowercase extension names.
pub open spec fn kind_of(key: Seq<char>) -> Option<SourceKind> {
    if key == "docx"@ {
        Some(SourceKind::Word)
    } else if key == "xlsx"@ || key == "xls"@ {
        Some(SourceKind::Spreadsheet)
    } else {
        None
    }
}

/// How an input file is classified by its name: a path without a file name,
/// given as the empty name, is an error; else the lowercase extension names
/// the family, or is reported as unsupported.
pub open spec fn classification(input_name: Seq<char>) -> Result<SourceKind, ErrorModel> {
    if input_name.len() == 0 {
        Err(ErrorModel::IoError(IoFailure::MissingFileName))
    } else {
        match kind_of(format_key(input_name)) {
            Some(kind) => Ok(kind),
            None => Err(ErrorModel::UnsupportedFormat(format_key(input_name))),
        }
    }
}

/// The family of source files that a lowercase extension names.
pub fn source_kind(key: &str) -> (kind: Option<SourceKind>)
    ensures
        kind == kind_of(key@),
{
    if same_text(key, "docx") {
        Some(SourceKind::Word)
    } else if same_text(key, "xlsx") || same_text(key, "xls") {
        Some(SourceKind::Spreadsheet)
    } else {
        None
    }
}

/// Classifies an input file by its name.
pub fn classify(input_name: &str) -> (r: Result<SourceKind, ConvertError>)
    ensures
        match classification(input_name@) {
            Ok(kind) => r == Ok::<SourceKind, ConvertError>(kind),
            Err(error) => r is Err && r->Err_0@ == error,
        },
{
    if input_name.is_empty() {
        return Err(ConvertError::IoError(IoFailure::MissingFileName));
    }
    let key = lowercase_extension(input_name);
    match source_kind(key.as_str()) {
        Some(kind) => Ok(kind),
        None => Err(ConvertError::UnsupportedFormat(key)),
    }
}

/// What the caller has read of a source file.
#[derive(Debug)]
pub enum Source {
    /// What `docx_rs::read_docx` gave for the bytes of a document container.
    Document(Result<docx_rs::Docx, docx_rs::ReaderError>),
    /// What `calamine` gave for a workbook container: an error where it could
    /// not be opened, else a lookup for each of its sheet names, in workbook
    /// order.
    Workbook(Result<Vec<SheetLookup>, calamine::XlsxError>),
}

/// The content of a source, read as a source of the given family: the content
/// of the body of a parsed document, or the sheets that are kept of an opened
/// workbook. A source of another family, and a container that could not be
/// parsed or opened, is a format error.
pub open spec fn extracted(kind: SourceKind, source: Source) -> Result<ContentModel, ErrorModel> {
    match source {
        Source::Document(Ok(docx)) => if kind == SourceKind::Word {
            Ok(ContentModel::Document(content_of(body_model(docx))))
        } else {
            Err(ErrorModel::FormatError(kind))
        },
        Source::Workbook(Ok(lookups)) => if kind == SourceKind::Spreadsheet {
            Ok(ContentModel::Workbook(kept_sheets(lookups@)))
        } else {
            Err(ErrorModel::FormatError(kind))
        },
        _ => Err(ErrorModel::FormatError(kind)),
    }
}

/// Extracts the content of a source file of the given family from what was
/// read of it.
pub fn extract(kind: SourceKind, source: &Source) -> (r: Result<Content, ConvertError>)
    ensures
        match extracted(kind, *source) {
            Ok(content) => r is Ok && r->Ok_0@ == content && content.kind() == kind
                && content.wf(),
            Err(error) => r is Err && r->Err_0@ == error,
        },
{
    match source {
        Source::Document(parsed) => match kind {
            SourceKind::Word => match extract_content(parsed) {
                Ok(content) => Ok(Content::Document(content)),
                Err(e) => Err(e),
            },
            SourceKind::Spreadsheet => Err(ConvertError::FormatError(kind)),
        },
        Source::Workbook(opened) => match kind {
            SourceKind::Word => Err(ConvertError::FormatError(kind)),
            SourceKind::Spreadsheet => match extract_sheets(opened) {
                Ok(sheets) => {
                    proof {
                        kept_sheets_are_well_formed(opened->Ok_0@);
                    }
                    Ok(Content::Workbook(sheets))
                },
                Err(e) => Err(e),
            },
        },
    }
}

/// The Markdown file of a content for an input file: named by the input's
/// stem, which is also the title.
pub open spec fn markdown_of(content: ContentModel, input_name: Seq<char>) -> MarkdownModel {
    match content {
        ContentModel::Document(document) => document_file(document, input_name),
        ContentModel::Workbook(sheets) => workbook_file(sheets, input_name),
    }
}

/// Renders a content as the Markdown file that belongs to the input file.
pub fn render_markdown(content: &Content, input_name: &str) -> (r: Result<
    MarkdownFile,
    ConvertError,
>)
    ensures
        input_name@.len() == 0 ==> r is Err && r->Err_0@ == ErrorModel::IoError(
            IoFailure::MissingFileName,
        ),
        input_name@.len() > 0 ==> r is Ok && r->Ok_0@ == markdown_of(content@, input_name@),
{
    match content {
        Content::Document(document) => create_markdown_from_docx(document, input_name),
        Content::Workbook(sheets) => create_markdown_from_xlsx(sheets.as_slice(), input_name),
    }
}

/// Builds the PDF document of a content for an input file, in a document of
/// the page renderer.
pub fn render_pdf(content: &Content, input_name: &str, page: genpdf::Document) -> (r: Result<
    (String, genpdf::Document),
    ConvertError,
>)
    ensures
        pdf_drafted(r, input_name@, content@.layout(), page),
{
    match content {
        Content::Document(document) => create_pdf_from_docx(document, input_name, page),
        Content::Workbook(sheets) => create_pdf_from_xlsx(sheets.as_slice(), input_name, page),
    }
}

/// The file that a conversion has produced.
#[derive(Clone, Debug, PartialEq, Eq)]
pub enum Converted {
    /// A PDF file.
    Pdf(PdfFile),
    /// A Markdown file.
    Markdown(MarkdownFile),
}

/// The mathematical value of a [`Converted`].
pub enum ConvertedModel {
    Pdf(PdfModel),
    Markdown(MarkdownModel),
}

impl ConvertedModel {
    /// The name of the file.
    pub open spec fn file_name(self) -> Seq<char> {
        match self {
            ConvertedModel::Pdf(file) => file.file_name,
            ConvertedModel::Markdown(file) => file.file_name,
        }
    }
}

impl View for Converted {
    type V = ConvertedModel;

    open spec fn view(&self) -> ConvertedModel {
        match self {
            Converted::Pdf(file) => ConvertedModel::Pdf(file@),
            Converted::Markdown(file) => ConvertedModel::Markdown(file@),
        }
    }
}

impl Converted {
    /// The name of the file.
    pub fn file_name(&self) -> (name: &String)
        ensures
            name@ == self@.file_name(),
    {
        match self {
            Converted::Pdf(file) => &file.file_name,
            Converted::Markdown(file) => &file.file_name,
        }
    }
}

/// What a conversion to PDF gives once the PDF document was built and the
/// page renderer has run: the PDF where there is one, and else, whatever the
/// error, the Markdown file of the same content.
pub open spec fn pdf_or_markdown(
    pdf: Result<PdfFile, ConvertError>,
    content: ContentModel,
    input_name: Seq<char>,
) -> Result<ConvertedModel, ErrorModel> {
    match pdf {
        Ok(file) => Ok(ConvertedModel::Pdf(file@)),
        Err(_) => if input_name.len() == 0 {
            Err(ErrorModel::IoError(IoFailure::MissingFileName))
        } else {
            Ok(ConvertedModel::Markdown(markdown_of(content, input_name)))
        },
    }
}

/// Chooses the output of a conversion to PDF once the page renderer has run:
/// a PDF that could not be built or rendered is no error of the conversion,
/// the same content is rendered as Markdown instead.
pub fn fall_back(pdf: Result<PdfFile, ConvertError>, content: &Content, input_name: &str) -> (r:
    Result<Converted, ConvertError>)
    ensures
        match pdf_or_markdown(pdf, content@, input_name@) {
            Ok(converted) => r is Ok && r->Ok_0@ == converted,
            Err(error) => r is Err && r->Err_0@ == error,
        },
{
    match pdf {
        Ok(file) => Ok(Converted::Pdf(file)),
        Err(_) => match render_markdown(content, input_name) {
            Ok(file) => Ok(Converted::Markdown(file)),
            Err(e) => Err(e),
        },
    }
}

/// A conversion whose output waits to be written.
#[derive(Clone, Debug, PartialEq, Eq)]
pub struct Conversion {
    /// The name of the input file.
    pub input_name: String,
    /// The content that was extracted from the input file.
    pub content: Content,
    /// The file to write.
    pub output: Converted,
}

impl Conversion {
    /// The output belongs to the input: the input has a name of a supported
    /// format, the content is of that format's family, a PDF is named by the
    /// input's stem, and a Markdown file is the Markdown file of the content.
    pub open spec fn wf(self) -> bool {
        &&& classification(self.input_name@) == Ok::<SourceKind, ErrorModel>(self.content@.kind())
        &&& self.content@.wf()
        &&& match self.output@ {
            ConvertedModel::Pdf(file) => file.file_name == pdf_name(self.input_name@),
            ConvertedModel::Markdown(file) => file == markdown_of(self.content@, self.input_name@),
        }
    }
}

/// What is to be done after an attempt to write the output of a conversion.
#[derive(Clone, Debug, PartialEq, Eq)]
pub enum Step {
    /// The conversion is done; the file of this name was written.
    Finished(String),
    /// The output of this conversion is to be written next.
    Write(Conversion),
    /// The conversion has failed.
    Failed(ConvertError),
}

/// The mathematical value of a [`Step`].
pub enum StepModel {
    Finished(Seq<char>),
    Write { input_name: Seq<char>, content: ContentModel, output: ConvertedModel },
    Failed(ErrorModel),
}

impl View for Step {
    type V = StepModel;

    open spec fn view(&self) -> StepModel {
        match self {
            Step::Finished(name) => StepModel::Finished(name@),
            Step::Write(conversion) => StepModel::Write {
                input_name: conversion.input_name@,
                content: conversion.content@,
                output: conversion.output@,
            },
            Step::Failed(e) => StepModel::Failed(e@),
        }
    }
}

/// The step that follows an attempt to write the output of a conversion. A
/// written output ends the conversion. A PDF that could not be written is
/// replaced by the Markdown file of the same content, which is to be written
/// next. A Markdown file that could not be written is an error.
pub open spec fn step_after(
    input_name: Seq<char>,
    content: ContentModel,
    output: ConvertedModel,
    written: bool,
) -> StepModel {
    if written {
        StepModel::Finished(output.file_name())
    } else {
        match output {
            ConvertedModel::Pdf(_) => if input_name.len() == 0 {
                StepModel::Failed(ErrorModel::IoError(IoFailure::MissingFileName))
            } else {
                StepModel::Write {
                    input_name,
                    content,
                    output: ConvertedModel::Markdown(markdown_of(content, input_name)),
                }
            },
            ConvertedModel::Markdown(_) => StepModel::Failed(
                ErrorModel::IoError(IoFailure::Unwritable),
            ),
        }
    }
}

/// Decides what follows an attempt to write the output of a conversion.
pub fn next_step(conversion: Conversion, written: bool) -> (step: Step)
    ensures
        step@ == step_after(
            conversion.input_name@,
            conversion.content@,
            conversion.output@,
            written,
        ),
        conversion.wf() && step is Write ==> step->Write_0.wf(),
{
    if written {
        return Step::Finished(conversion.output.file_name().clone());
    }
    match conversion.output {
        Converted::Pdf(_) => {
            match render_markdown(&conversion.content, conversion.input_name.as_str()) {
                Ok(file) => Step::Write(
                    Conversion {
                        input_name: conversion.input_name,
                        content: conversion.content,
                        output: Converted::Markdown(file),
                    },
                ),
                Err(e) => Step::Failed(e),
            }
        },
        Converted::Markdown(_) => Step::Failed(ConvertError::IoError(IoFailure::Unwritable)),
    }
}

/// The content of a conversion: the input is classified by its name, and the
/// content of that family extracted from what was read of it.
pub open spec fn conversion_content(input_name: Seq<char>, source: Source) -> Result<
    ContentModel,
    ErrorModel,
> {
    match classification(input_name) {
        Ok(kind) => extracted(kind, source),
        Err(error) => Err(error),
    }
}

/// A conversion to PDF whose document waits for the page renderer.
pub struct PdfAttempt {
    /// The name of the input file.
    pub input_name: String,
    /// The content that was extracted from the input file.
    pub content: Content,
    /// The name of the PDF file and the document to render, or the error for
    /// which there is no document.
    pub draft: Result<(String, genpdf::Document), ConvertError>,
}

/// What the draft of a conversion to PDF is owed. In a document that the
/// caller made with the page renderer, it is the PDF document of the layout,
/// or the error that stopped the building. Where the caller could make none,
/// it is the error of the page renderer.
pub open spec fn drafted(
    draft: Result<(String, genpdf::Document), ConvertError>,
    input_name: Seq<char>,
    blocks: Seq<BlockModel>,
    page: Option<genpdf::Document>,
) -> bool {
    match page {
        Some(page) => pdf_drafted(draft, input_name, blocks, page),
        None => draft is Err && draft->Err_0@ == ErrorModel::RenderError(
            RenderFailure::PageRenderer,
        ),
    }
}

/// What a conversion to PDF gives for an input file and what was read of it,
/// before the page renderer runs. Where the input has no content, the
/// conversion fails with the error of the classification or of the
/// extraction. Else there is an attempt with that content and with its draft.
pub open spec fn pdf_attempt(
    input_name: Seq<char>,
    source: Source,
    page: Option<genpdf::Document>,
    r: Result<PdfAttempt, ConvertError>,
) -> bool {
    match conversion_content(input_name, source) {
        Err(error) => r is Err && r->Err_0@ == error,
        Ok(content) => {
            &&& r is Ok
            &&& r->Ok_0.input_name@ == input_name
            &&& r->Ok_0.content@ == content
            &&& drafted(r->Ok_0.draft, input_name, content.layout(), page)
        },
    }
}

/// Starts the conversion of a source file to PDF. The input is classified by
/// its name, its content extracted from what was read of it, laid out, and
/// handed to the document that the caller made with the page renderer and
/// the chosen fonts. A caller that could make no document hands in none, and
/// the attempt then holds the error of the page renderer in place of a
/// document. The caller lets the page renderer run on the document and hands
/// its outcome to `rendered` and `settle`.
pub fn convert_to_pdf(input_name: &str, source: &Source, page: Option<genpdf::Document>) -> (r:
    Result<PdfAttempt, ConvertError>)
    ensures
        pdf_attempt(input_name@, *source, page, r),
{
    let kind = match classify(input_name) {
        Ok(kind) => kind,
        Err(e) => {
            return Err(e);
        },
    };
    let content = match extract(kind, source) {
        Ok(content) => content,
        Err(e) => {
            return Err(e);
        },
    };
    let draft = match page {
        Some(page) => render_pdf(&content, input_name, page),
        None => Err(ConvertError::RenderError(RenderFailure::PageRenderer)),
    };
    Ok(PdfAttempt { input_name: input_name.to_owned(), content, draft })
}

/// Settles a conversion to PDF once the page renderer has run, or could not
/// run for want of a document: the output is the PDF where there is one, else
/// the Markdown file of the same content, and no error.
pub fn settle(input_name: String, content: Content, pdf: Result<PdfFile, ConvertError>) -> (r:
    Result<Conversion, ConvertError>)
    ensures
        match pdf_or_markdown(pdf, content@, input_name@) {
            Ok(output) => r is Ok && r->Ok_0.input_name@ == input_name@ && r->Ok_0.content@
                == content@ && r->Ok_0.output@ == output,
            Err(error) => r is Err && r->Err_0@ == error,
        },
        input_name@.len() > 0 ==> r is Ok,
        classification(input_name@) == Ok::<SourceKind, ErrorModel>(content@.kind()) && content@.wf()
            && (pdf is Ok ==> pdf->Ok_0.file_name@ == pdf_name(input_name@)) ==> r is Ok
            && r->Ok_0.wf(),
{
    match fall_back(pdf, &content, input_name.as_str()) {
        Ok(output) => Ok(Conversion { input_name, content, output }),
        Err(e) => Err(e),
    }
}

/// What a conversion to Markdown gives for an input file and what was read of
/// it: the Markdown file of the content, or the error for which there is no
/// content.
pub open spec fn markdown_conversion(input_name: Seq<char>, source: Source) -> Result<
    MarkdownModel,
    ErrorModel,
> {
    match conversion_content(input_name, source) {
        Ok(content) => Ok(markdown_of(content, input_name)),
        Err(error) => Err(error),
    }
}

/// Converts a source file to Markdown. The input is classified by its name
/// and its content extracted from what was read of it.
pub fn convert_to_markdown(input_name: &str, source: &Source) -> (r: Result<
    MarkdownFile,
    ConvertError,
>)
    ensures
        match markdown_conversion(input_name@, *source) {
            Ok(file) => r is Ok && r->Ok_0@ == file,
            Err(error) => r is Err && r->Err_0@ == error,
        },
{
    let kind = match classify(input_name) {
        Ok(kind) => kind,
        Err(e) => {
            return Err(e);
        },
    };
    let content = match extract(kind, source) {
        Ok(content) => content,
        Err(e) => {
            return Err(e);
        },
    };
    render_markdown(&content, input_name)
}

} // verus!
