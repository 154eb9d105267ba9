//! What holds of every conversion.

use crate::converter::batch::{pdf_outcome, type_matches, BatchInput, BatchOutcome};
use crate::converter::markdown_writer::{document_markdown, markdown_name};
use crate::converter::page_renderer::{document_elements, document_fonts, document_title};
use crate::converter::pdf_writer::{layout_fits, pdf_name, PdfFile};
use crate::converter::{
    classification,
    conversion_content,
    markdown_of,
    pdf_attempt,
    pdf_or_markdown,
    step_after,
    ContentModel,
    Conversion,
    ConvertedModel,
    PdfAttempt,
    Source,
    StepModel,
};
use crate::error::{ConvertError, ErrorModel};
use crate::text::lowercase;
use crate::utils::{extension_of, is_supported_extension, stem_of};
use vstd::prelude::*;

verus! {

/// Whether a text ends in another.
pub open spec fn ends_with(text: Seq<char>, end: Seq<char>) -> bool {
    text.len() >= end.len() && text.skip(text.len() - end.len()) == end
}

/// The name of the Markdown file for an input is the input's stem followed by
/// `.md`, and the name of its PDF file the stem followed by `.pdf`.
pub proof fn output_names_end_in_their_extension(input_name: Seq<char>)
    ensures
        ends_with(markdown_name(input_name), ".md"@),
        ends_with(pdf_name(input_name), ".pdf"@),
        markdown_name(input_name).take(stem_of(input_name).len() as int) == stem_of(input_name),
        pdf_name(input_name).take(stem_of(input_name).len() as int) == stem_of(input_name),
{
    let stem = stem_of(input_name);
    assert((stem + ".md"@).skip(stem.len() as int) == ".md"@);
    assert((stem + ".pdf"@).skip(stem.len() as int) == ".pdf"@);
    assert((stem + ".md"@).take(stem.len() as int) == stem);
    assert((stem + ".pdf"@).take(stem.len() as int) == stem);
}

/// Where the PDF renderer fails, for whatever reason, a conversion to PDF
/// gives the Markdown file of the same content: its name ends in `.md`, and
/// its text is what rendering the content as Markdown gives.
pub proof fn failed_pdf_falls_back_to_markdown(
    pdf: Result<PdfFile, ConvertError>,
    content: ContentModel,
    input_name: Seq<char>,
)
    requires
        pdf is Err,
        input_name.len() > 0,
    ensures
        pdf_or_markdown(pdf, content, input_name) == Ok::<ConvertedModel, ErrorModel>(
            ConvertedModel::Markdown(markdown_of(content, input_name)),
        ),
        markdown_of(content, input_name).text == content.markdown(stem_of(input_name)),
        ends_with(markdown_of(content, input_name).file_name, ".md"@),
        content matches ContentModel::Document(document) ==> markdown_of(content, input_name).text
            == document_markdown(stem_of(input_name), document),
{
    output_names_end_in_their_extension(input_name);
}

/// Whatever fonts an empty document of the page renderer was made with, the
/// custom ones or those of the placeholder, the start of a conversion to PDF
/// in it gives the PDF document of the content wherever the input has a
/// content and no table row misfits: a document with the input's stem as
/// title, the blocks of the layout as elements, and the fonts that it had.
pub proof fn every_font_gives_a_document(
    input_name: Seq<char>,
    source: Source,
    page: genpdf::Document,
    r: Result<PdfAttempt, ConvertError>,
)
    requires
        conversion_content(input_name, source) is Ok,
        layout_fits(conversion_content(input_name, source)->Ok_0.layout()),
        document_elements(page).len() == 0,
        pdf_attempt(input_name, source, Some(page), r),
    ensures
        r is Ok,
        r->Ok_0.draft is Ok,
        document_fonts(r->Ok_0.draft->Ok_0.1) == document_fonts(page),
        r->Ok_0.draft->Ok_0.0@ == stem_of(input_name) + ".pdf"@,
        document_title(r->Ok_0.draft->Ok_0.1) == stem_of(input_name),
        document_elements(r->Ok_0.draft->Ok_0.1) == conversion_content(
            input_name,
            source,
        )->Ok_0.layout(),
{
    let layout = conversion_content(input_name, source)->Ok_0.layout();
    assert(document_elements(page) + layout =~= layout);
    assert(classification(input_name) is Ok);
}

/// Where a table row misfits, or the caller could make no document of the
/// page renderer, there is no PDF document, and the conversion is settled
/// with the Markdown file of the content.
pub proof fn missing_document_falls_back_to_markdown(
    input_name: Seq<char>,
    source: Source,
    page: Option<genpdf::Document>,
    attempt: PdfAttempt,
)
    requires
        conversion_content(input_name, source) is Ok,
        page is None || !layout_fits(conversion_content(input_name, source)->Ok_0.layout()),
        pdf_attempt(input_name, source, page, Ok::<PdfAttempt, ConvertError>(attempt)),
    ensures
        attempt.draft is Err,
        pdf_or_markdown(
            Err::<PdfFile, ConvertError>(attempt.draft->Err_0),
            attempt.content@,
            input_name,
        ) == Ok::<ConvertedModel, ErrorModel>(
            ConvertedModel::Markdown(markdown_of(attempt.content@, input_name)),
        ),
{
    assert(classification(input_name) is Ok);
}

/// A PDF that could not be written is followed by the Markdown file of the
/// same content, which is to be written next; and a written output ends the
/// conversion under the output's name.
pub proof fn unwritten_pdf_is_retried_as_markdown(
    input_name: Seq<char>,
    content: ContentModel,
    output: ConvertedModel,
)
    requires
        input_name.len() > 0,
    ensures
        step_after(input_name, content, output, true) == StepModel::Finished(output.file_name()),
        output is Pdf ==> step_after(input_name, content, output, false) == (StepModel::Write {
            input_name,
            content,
            output: ConvertedModel::Markdown(markdown_of(content, input_name)),
        }),
        output is Markdown ==> step_after(input_name, content, output, false) is Failed,
{
}

/// The output of a conversion is named after the stem of its input: the stem
/// followed by `.pdf` for a PDF, by `.md` for a Markdown file.
pub proof fn output_is_named_after_input(conversion: Conversion)
    requires
        conversion.wf(),
    ensures
        conversion.output@ is Pdf ==> conversion.output@.file_name() == stem_of(
            conversion.input_name@,
        ) + ".pdf"@,
        conversion.output@ is Markdown ==> conversion.output@.file_name() == stem_of(
            conversion.input_name@,
        ) + ".md"@,
{
}

/// Every file that a batch converts gives an attempt for that file, and the
/// PDF document of the attempt, where there is one, is named after the stem
/// of the file's name.
pub proof fn batch_outputs_are_named_after_inputs(
    input: BatchInput,
    filter: Option<Seq<char>>,
    page: Option<genpdf::Document>,
    outcome: BatchOutcome<PdfAttempt>,
)
    requires
        pdf_outcome(input, filter, page, outcome),
        outcome is Converted,
    ensures
        outcome->Converted_0.input_name@ == input.file_name@,
        outcome->Converted_0.draft is Ok ==> outcome->Converted_0.draft->Ok_0.0@ == stem_of(
            input.file_name@,
        ) + ".pdf"@,
{
}

/// A file whose name has no supported extension is never converted, whatever
/// was read of it: the conversion fails with the unsupported extension.
pub proof fn unsupported_extension_is_refused(
    input_name: Seq<char>,
    source: Source,
    page: Option<genpdf::Document>,
    r: Result<PdfAttempt, ConvertError>,
)
    requires
        input_name.len() > 0,
        classification(input_name) is Err,
        pdf_attempt(input_name, source, page, r),
    ensures
        r is Err,
        r->Err_0@ is UnsupportedFormat,
{
}

/// The type filter narrows the supported types and never adds one: a file
/// that matches a filter also matches without it.
pub proof fn filter_only_narrows(file_name: Seq<char>, filter: Option<Seq<char>>)
    requires
        type_matches(file_name, filter),
    ensures
        type_matches(file_name, None),
        extension_of(file_name) is Some,
        is_supported_extension(lowercase(extension_of(file_name)->0)),
{
}

} // verus!
