//! The page renderer `genpdf`, as far as the PDF writer uses it: the filling
//! of a document. Its making and its rendering are left to the caller, since
//! both can panic: `genpdf::Document::new` reads the metrics of the fonts
//! without checking that the font data holds them, and
//! `genpdf::Document::render` cuts a word that is wider than a line at a
//! place that may lie inside a character. No call of either stands in this
//! library.
//!
//! A `genpdf::Document` collects elements and renders them in the order in
//! which they were added. What it holds is named `document_elements`, its
//! title `document_title`, the margin of its pages `document_margin` and the
//! faces of its default font family `document_fonts`; what a
//! `genpdf::elements::TableLayout` holds is named `layout_weights` and
//! `layout_rows`, and the faces of a font family `family_faces`.

use crate::converter::pdf_writer::BlockModel;
use genpdf::Element;
use vstd::prelude::*;

verus! {

/// A document of the page renderer: `genpdf::Document`.
#[verifier::external_type_specification]
#[verifier::external_body]
pub struct ExDocument(genpdf::Document);

/// A table of the page renderer: `genpdf::elements::TableLayout`.
#[verifier::external_type_specification]
#[verifier::external_body]
pub struct ExTableLayout(genpdf::elements::TableLayout);

/// The four faces of a font: `genpdf::fonts::FontFamily`.
#[verifier::external_type_specification]
#[verifier::external_body]
#[verifier::reject_recursive_types(T)]
pub struct ExFontFamily<T: Clone + core::fmt::Debug>(genpdf::fonts::FontFamily<T>);

/// The decoded data of one face: `genpdf::fonts::FontData`.
#[verifier::external_type_specification]
#[verifier::external_body]
pub struct ExFontData(genpdf::fonts::FontData);

/// The error of the page renderer: `genpdf::error::Error`.
#[verifier::external_type_specification]
#[verifier::external_body]
pub struct ExRenderError(genpdf::error::Error);

/// The elements that were added to a document, in the order of their addition.
pub uninterp spec fn document_elements(doc: genpdf::Document) -> Seq<BlockModel>;

/// The title of a document.
pub uninterp spec fn document_title(doc: genpdf::Document) -> Seq<char>;

/// The margin, in millimetres, that the page decorator of a document puts on
/// the four sides of every page.
pub uninterp spec fn document_margin(doc: genpdf::Document) -> int;

/// The faces of a font family: regular, bold, italic, bold italic.
pub uninterp spec fn family_faces(family: genpdf::fonts::FontFamily<genpdf::fonts::FontData>) -> Seq<genpdf::fonts::FontData>;

/// The faces of the default font family of a document: regular, bold, italic,
/// bold italic.
pub uninterp spec fn document_fonts(doc: genpdf::Document) -> Seq<genpdf::fonts::FontData>;

/// Whether a document has the title, the margin and the fonts of another.
pub open spec fn same_frame(a: genpdf::Document, b: genpdf::Document) -> bool {
    &&& document_title(a) == document_title(b)
    &&& document_margin(a) == document_margin(b)
    &&& document_fonts(a) == document_fonts(b)
}

/// The column weights with which a table layout was made.
pub uninterp spec fn layout_weights(table: genpdf::elements::TableLayout) -> Seq<usize>;

/// The rows that were added to a table layout, each cell as its text.
pub uninterp spec fn layout_rows(table: genpdf::elements::TableLayout) -> Seq<Seq<Seq<char>>>;

/// A font family of four faces.
///
/// Builds a `genpdf::fonts::FontFamily` from its four public fields.
#[verifier::external_body]
pub(crate) fn font_family(
    regular: genpdf::fonts::FontData,
    bold: genpdf::fonts::FontData,
    italic: genpdf::fonts::FontData,
    bold_italic: genpdf::fonts::FontData,
) -> (family: genpdf::fonts::FontFamily<genpdf::fonts::FontData>)
    ensures
        family_faces(family) == seq![regular, bold, italic, bold_italic],
{
    genpdf::fonts::FontFamily { regular, bold, italic, bold_italic }
}

/// Gives a document its title.
///
/// Wraps `genpdf::Document::set_title`, which stores the text as the title of
/// the document and touches nothing else.
#[verifier::external_body]
pub(crate) fn set_title(doc: &mut genpdf::Document, title: &str)
    ensures
        document_title(*final(doc)) == title@,
        document_elements(*final(doc)) == document_elements(*old(doc)),
        document_margin(*final(doc)) == document_margin(*old(doc)),
        document_fonts(*final(doc)) == document_fonts(*old(doc)),
{
    doc.set_title(title);
}

/// Gives every page of a document one margin on its four sides.
///
/// Wraps `genpdf::Document::set_page_decorator` with a
/// `genpdf::SimplePageDecorator` on which `set_margins` was called with the
/// margin. The decorator replaces the one that the document had and touches
/// nothing else.
#[verifier::external_body]
pub(crate) fn set_margin(doc: &mut genpdf::Document, margin: u8)
    ensures
        document_margin(*final(doc)) == margin,
        document_elements(*final(doc)) == document_elements(*old(doc)),
        document_title(*final(doc)) == document_title(*old(doc)),
        document_fonts(*final(doc)) == document_fonts(*old(doc)),
{
    let mut decorator = genpdf::SimplePageDecorator::new();
    decorator.set_margins(margin);
    doc.set_page_decorator(decorator);
}

/// Adds a paragraph of plain text.
///
/// Wraps `genpdf::Document::push` with a `genpdf::elements::Paragraph`; `push`
/// appends the element to those that the document renders.
#[verifier::external_body]
pub(crate) fn push_paragraph(doc: &mut genpdf::Document, text: &str)
    ensures
        document_elements(*final(doc)) == document_elements(*old(doc)).push(
            BlockModel::Paragraph(text@),
        ),
        same_frame(*final(doc), *old(doc)),
{
    doc.push(genpdf::elements::Paragraph::new(text));
}

/// Adds a paragraph in bold.
///
/// Wraps `genpdf::Document::push` with a `genpdf::elements::Paragraph` that is
/// styled with `genpdf::style::Style::bold`.
#[verifier::external_body]
pub(crate) fn push_heading(doc: &mut genpdf::Document, text: &str)
    ensures
        document_elements(*final(doc)) == document_elements(*old(doc)).push(
            BlockModel::Heading(text@),
        ),
        same_frame(*final(doc), *old(doc)),
{
    doc.push(genpdf::elements::Paragraph::new(text).styled(genpdf::style::Style::new().bold()));
}

/// Adds a vertical break of the given number of lines.
///
/// Wraps `genpdf::Document::push` with the `genpdf::elements::Break` that
/// `Break::new` makes of the number of lines.
#[verifier::external_body]
pub(crate) fn push_break(doc: &mut genpdf::Document, lines: u8)
    ensures
        document_elements(*final(doc)) == document_elements(*old(doc)).push(
            BlockModel::Break(lines as int),
        ),
        same_frame(*final(doc), *old(doc)),
{
    doc.push(genpdf::elements::Break::new(lines));
}

/// Adds a page break.
///
/// Wraps `genpdf::Document::push` with a `genpdf::elements::PageBreak`.
#[verifier::external_body]
pub(crate) fn push_page_break(doc: &mut genpdf::Document)
    ensures
        document_elements(*final(doc)) == document_elements(*old(doc)).push(BlockModel::PageBreak),
        same_frame(*final(doc), *old(doc)),
{
    doc.push(genpdf::elements::PageBreak::new());
}

/// A table layout without rows, with one column for each weight.
///
/// Wraps `genpdf::elements::TableLayout::new`.
#[verifier::external_body]
pub(crate) fn new_table(weights: Vec<usize>) -> (table: genpdf::elements::TableLayout)
    ensures
        layout_weights(table) == weights@,
        layout_rows(table) == Seq::<Seq<Seq<char>>>::empty(),
{
    genpdf::elements::TableLayout::new(weights)
}

/// Adds a row of text cells to a table layout.
///
/// Wraps `genpdf::elements::TableLayout::row` and the `element` and `push` of
/// the row it gives, with a `genpdf::elements::Paragraph` for each cell. `push`
/// appends the row where it has as many cells as the table has columns, and
/// fails and leaves the table as it was where it has not.
#[verifier::external_body]
pub(crate) fn push_table_row(table: &mut genpdf::elements::TableLayout, cells: &Vec<String>) -> (r:
    Result<(), genpdf::error::Error>)
    ensures
        cells@.len() == layout_weights(*old(table)).len() ==> r is Ok && layout_rows(*final(table))
            == layout_rows(*old(table)).push(cells.deep_view()),
        cells@.len() != layout_weights(*old(table)).len() ==> r is Err && layout_rows(*final(table))
            == layout_rows(*old(table)),
        layout_weights(*final(table)) == layout_weights(*old(table)),
{
    let row = table.row();
    cells.iter().fold(row, |row, cell| row.element(genpdf::elements::Paragraph::new(cell))).push()
}

/// Adds a table.
///
/// Wraps `genpdf::Document::push` with a `genpdf::elements::TableLayout`.
#[verifier::external_body]
pub(crate) fn push_table(doc: &mut genpdf::Document, table: genpdf::elements::TableLayout)
    ensures
        document_elements(*final(doc)) == document_elements(*old(doc)).push(
            BlockModel::Table { weights: layout_weights(table), rows: layout_rows(table) },
        ),
        same_frame(*final(doc), *old(doc)),
{
    doc.push(table);
}

} // verus!
