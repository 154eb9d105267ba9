//! Rendering of extracted content as PDF.
//!
//! A document is first laid out as a sequence of blocks: paragraphs, breaks,
//! tables with columns of equal weight, and page breaks. The blocks are then
//! handed, one by one, to a document of the page renderer `genpdf`. The
//! caller makes that document, with the chosen fonts, and lets the page
//! renderer produce its pages when the blocks are in it.

use crate::converter::docx_reader::{DocumentModel, DocxContent};
use crate::converter::page_renderer::{
    document_elements,
    document_fonts,
    document_margin,
    document_title,
    family_faces,
    font_family,
    layout_rows,
    layout_weights,
    new_table,
    push_break,
    push_heading,
    push_page_break,
    push_paragraph,
    push_table,
    push_table_row,
    set_margin,
    set_title,
};
use crate::converter::xlsx_reader::{sheet_models, Sheet, SheetModel};
use crate::error::{ConvertError, ErrorModel, IoFailure, RenderFailure};
use crate::utils::{file_stem, stem_of};
use vstd::prelude::*;
use vstd::string::StringExecFns;

verus! {

/// The margin of every page, in millimetres.
pub const PAGE_MARGIN: u8 = 20;

/// The number of lines of a break between two blocks.
pub const BREAK_LINES: u8 = 1;

/// A PDF file that is ready to be written: its name and its bytes, as the
/// page renderer gave them.
#[derive(Clone, Debug, PartialEq, Eq)]
pub struct PdfFile {
    /// The name of the file, `<stem>.pdf`.
    pub file_name: String,
    /// The bytes of the file.
    pub bytes: Vec<u8>,
}

/// The mathematical value of a [`PdfFile`].
pub struct PdfModel {
    pub file_name: Seq<char>,
    pub bytes: Seq<u8>,
}

impl View for PdfFile {
    type V = PdfModel;

    open spec fn view(&self) -> PdfModel {
        PdfModel { file_name: self.file_name@, bytes: self.bytes@ }
    }
}

/// One block of a page layout.
#[derive(Clone, Debug, PartialEq, Eq)]
pub enum Block {
    /// A paragraph of plain text.
    Paragraph(String),
    /// A paragraph in bold.
    Heading(String),
    /// A vertical break of `BREAK_LINES` lines.
    Break,
    /// A table of `columns` columns of equal weight, with its rows of cells.
    Table { columns: usize, rows: Vec<Vec<String>> },
    /// The start of a new page.
    PageBreak,
}

/// The mathematical value of a [`Block`]. A break carries its number of
/// lines, a table the weight of each of its columns.
pub enum BlockModel {
    Paragraph(Seq<char>),
    Heading(Seq<char>),
    Break(int),
    Table { weights: Seq<usize>, rows: Seq<Seq<Seq<char>>> },
    PageBreak,
}

/// The break between two blocks: `BREAK_LINES` lines.
pub open spec fn line_break() -> BlockModel {
    BlockModel::Break(BREAK_LINES as int)
}

/// The weights of `columns` columns of equal width.
pub open spec fn equal_weights(columns: nat) -> Seq<usize> {
    Seq::new(columns, |i: int| 1usize)
}

impl View for Block {
    type V = BlockModel;

    open spec fn view(&self) -> BlockModel {
        match self {
            Block::Paragraph(text) => BlockModel::Paragraph(text@),
            Block::Heading(text) => BlockModel::Heading(text@),
            Block::Break => line_break(),
            Block::Table { columns, rows } => BlockModel::Table {
                weights: equal_weights(*columns as nat),
                rows: rows.deep_view(),
            },
            Block::PageBreak => BlockModel::PageBreak,
        }
    }
}

impl DeepView for Block {
    type V = BlockModel;

    open spec fn deep_view(&self) -> BlockModel {
        self@
    }
}

/// The block of a table with at least one row: as many columns as its first
/// row has cells, all of equal weight, and all its rows.
pub open spec fn table_model(table: Seq<Seq<Seq<char>>>) -> BlockModel
    recommends
        table.len() > 0,
{
    BlockModel::Table { weights: equal_weights(table[0].len()), rows: table }
}

/// The layout of paragraphs: each paragraph, then a break.
pub open spec fn paragraph_layout(paragraphs: Seq<Seq<char>>) -> Seq<BlockModel>
    decreases paragraphs.len(),
{
    if paragraphs.len() == 0 {
        Seq::empty()
    } else {
        paragraph_layout(paragraphs.drop_last()).push(BlockModel::Paragraph(paragraphs.last())).push(
            line_break(),
        )
    }
}

/// The layout of tables: each table that has a row, then a break.
pub open spec fn table_layout(tables: Seq<Seq<Seq<Seq<char>>>>) -> Seq<BlockModel>
    decreases tables.len(),
{
    if tables.len() == 0 {
        Seq::empty()
    } else if tables.last().len() == 0 {
        table_layout(tables.drop_last())
    } else {
        table_layout(tables.drop_last()).push(table_model(tables.last())).push(line_break())
    }
}

/// The layout of a document: its paragraphs, then its tables.
pub open spec fn document_layout(content: DocumentModel) -> Seq<BlockModel> {
    paragraph_layout(content.paragraphs) + table_layout(content.tables)
}

/// The layout of a sheet: its name as a heading, a break, and then its table,
/// or a placeholder paragraph where the sheet has no row.
pub open spec fn sheet_layout(sheet: SheetModel) -> Seq<BlockModel> {
    let head = seq![BlockModel::Heading("Sheet: "@ + sheet.name), line_break()];
    if sheet.data.len() == 0 {
        head.push(BlockModel::Paragraph("(Empty sheet)"@))
    } else if sheet.data[0].len() == 0 {
        head
    } else {
        head.push(table_model(sheet.data))
    }
}

/// The layout of a workbook: its sheets, with a page break between each two.
pub open spec fn workbook_layout(sheets: Seq<SheetModel>) -> Seq<BlockModel>
    decreases sheets.len(),
{
    if sheets.len() == 0 {
        Seq::empty()
    } else if sheets.len() == 1 {
        sheet_layout(sheets[0])
    } else {
        workbook_layout(sheets.drop_last()).push(BlockModel::PageBreak) + sheet_layout(sheets.last())
    }
}

/// The name of the PDF file for an input file.
pub open spec fn pdf_name(input_name: Seq<char>) -> Seq<char> {
    stem_of(input_name) + ".pdf"@
}

/// A copy of a row of cells.
fn copy_row(row: &Vec<String>) -> (copy: Vec<String>)
    ensures
        copy.deep_view() == row.deep_view(),
{
    let mut copy: Vec<String> = Vec::new();
    let mut i: usize = 0;
    while i < row.len()
        invariant
            i <= row@.len(),
            copy.deep_view() == row.deep_view().take(i as int),
        decreases row@.len() - i,
    {
        let ghost before = copy.deep_view();
        copy.push(row[i].clone());
        proof {
            assert(copy.deep_view() =~= before.push(row@[i as int]@));
            assert(row.deep_view().take(i + 1) =~= before.push(row@[i as int]@));
        }
        i = i + 1;
    }
    proof {
        assert(row.deep_view().take(row@.len() as int) == row.deep_view());
    }
    copy
}

/// A copy of the rows of a table.
fn copy_rows(rows: &Vec<Vec<String>>) -> (copy: Vec<Vec<String>>)
    ensures
        copy.deep_view() == rows.deep_view(),
{
    let mut copy: Vec<Vec<String>> = Vec::new();
    let mut i: usize = 0;
    while i < rows.len()
        invariant
            i <= rows@.len(),
            copy.deep_view() == rows.deep_view().take(i as int),
        decreases rows@.len() - i,
    {
        let ghost before = copy.deep_view();
        copy.push(copy_row(&rows[i]));
        proof {
            assert(copy.deep_view() =~= before.push(rows@[i as int].deep_view()));
            assert(rows.deep_view().take(i + 1) =~= before.push(rows@[i as int].deep_view()));
        }
        i = i + 1;
    }
    proof {
        assert(rows.deep_view().take(rows@.len() as int) == rows.deep_view());
    }
    copy
}

/// The block of a table with at least one row.
fn table_block_of(table: &Vec<Vec<String>>) -> (block: Block)
    requires
        table@.len() > 0,
    ensures
        block@ == table_model(table.deep_view()),
{
    let block = Block::Table { columns: table[0].len(), rows: copy_rows(table) };
    proof {
        assert(table.deep_view()[0].len() == table@[0]@.len());
    }
    block
}

/// Lays out a document: each paragraph followed by a break, then each table
/// that has a row, with a column for each cell of its first row, followed by
/// a break.
pub fn layout_docx_content(content: &DocxContent) -> (blocks: Vec<Block>)
    ensures
        blocks.deep_view() == document_layout(content@),
{
    let ghost model = content@;
    let mut blocks: Vec<Block> = Vec::new();
    let mut i: usize = 0;
    while i < content.paragraphs.len()
        invariant
            i <= content.paragraphs@.len(),
            model == content@,
            blocks.deep_view() == paragraph_layout(model.paragraphs.take(i as int)),
        decreases content.paragraphs@.len() - i,
    {
        let ghost before = blocks.deep_view();
        proof {
            assert(model.paragraphs.take(i + 1).drop_last() == model.paragraphs.take(i as int));
            assert(model.paragraphs.take(i + 1).last() == content.paragraphs@[i as int]@);
        }
        blocks.push(Block::Paragraph(content.paragraphs[i].clone()));
        blocks.push(Block::Break);
        proof {
            assert(blocks.deep_view() =~= before.push(
                BlockModel::Paragraph(content.paragraphs@[i as int]@),
            ).push(line_break()));
        }
        i = i + 1;
    }
    proof {
        assert(model.paragraphs.take(content.paragraphs@.len() as int) == model.paragraphs);
    }
    let ghost front = paragraph_layout(model.paragraphs);
    let mut t: usize = 0;
    while t < content.tables.len()
        invariant
            t <= content.tables@.len(),
            model == content@,
            front == paragraph_layout(model.paragraphs),
            blocks.deep_view() == front + table_layout(model.tables.take(t as int)),
        decreases content.tables@.len() - t,
    {
        proof {
            assert(model.tables.take(t + 1).drop_last() == model.tables.take(t as int));
            assert(model.tables.take(t + 1).last() == model.tables[t as int]);
            assert(model.tables[t as int].len() == content.tables@[t as int]@.len());
        }
        if content.tables[t].len() > 0 {
            let ghost before = blocks.deep_view();
            let block = table_block_of(&content.tables[t]);
            blocks.push(block);
            blocks.push(Block::Break);
            proof {
                assert(blocks.deep_view() =~= before.push(table_model(model.tables[t as int])).push(
                    line_break(),
                ));
            }
        }
        t = t + 1;
    }
    proof {
        assert(model.tables.take(content.tables@.len() as int) == model.tables);
    }
    blocks
}

/// Appends the layout of a sheet.
fn push_sheet_layout(blocks: &mut Vec<Block>, sheet: &Sheet)
    ensures
        final(blocks).deep_view() == old(blocks).deep_view() + sheet_layout(sheet@),
{
    let ghost before = blocks.deep_view();
    let mut title = String::from_str("Sheet: ");
    title.append(sheet.name.as_str());
    blocks.push(Block::Heading(title));
    blocks.push(Block::Break);
    if sheet.data.len() == 0 {
        blocks.push(Block::Paragraph(String::from_str("(Empty sheet)")));
        proof {
            assert(blocks.deep_view() =~= before + sheet_layout(sheet@));
        }
    } else {
        proof {
            assert(sheet@.data[0].len() == sheet.data@[0]@.len());
        }
        if sheet.data[0].len() > 0 {
            let block = table_block_of(&sheet.data);
            blocks.push(block);
            proof {
                assert(blocks.deep_view() =~= before + sheet_layout(sheet@));
            }
        } else {
            proof {
                assert(blocks.deep_view() =~= before + sheet_layout(sheet@));
            }
        }
    }
}

/// Lays out the sheets of a workbook: for each sheet its name as a heading, a
/// break, and its table or the placeholder of an empty sheet, with a page
/// break between each two sheets.
pub fn layout_sheets(sheets: &[Sheet]) -> (blocks: Vec<Block>)
    ensures
        blocks.deep_view() == workbook_layout(sheet_models(sheets@)),
{
    let ghost models = sheet_models(sheets@);
    let mut blocks: Vec<Block> = Vec::new();
    let mut i: usize = 0;
    while i < sheets.len()
        invariant
            i <= sheets@.len(),
            models == sheet_models(sheets@),
            blocks.deep_view() == workbook_layout(models.take(i as int)),
        decreases sheets@.len() - i,
    {
        let ghost before = blocks.deep_view();
        proof {
            assert(models.take(i + 1).drop_last() == models.take(i as int));
            assert(models.take(i + 1).last() == sheets@[i as int]@);
            if i == 0 {
                assert(models.take(1)[0] == models[0]);
            }
        }
        if i > 0 {
            blocks.push(Block::PageBreak);
            proof {
                assert(blocks.deep_view() =~= before.push(BlockModel::PageBreak));
            }
        }
        push_sheet_layout(&mut blocks, &sheets[i]);
        proof {
            if i == 0 {
                assert(before + sheet_layout(sheets@[i as int]@) =~= sheet_layout(sheets@[i as int]@));
            }
        }
        i = i + 1;
    }
    proof {
        assert(models.take(sheets@.len() as int) == models);
    }
    blocks
}

/// The four faces of a font family.
#[derive(Clone, Copy, Debug, PartialEq, Eq, Structural)]
pub enum FontFace {
    Regular,
    Bold,
    Italic,
    BoldItalic,
}

/// Why a font file gave no font.
#[derive(Clone, Copy, Debug, PartialEq, Eq, Structural)]
pub enum FontFailure {
    /// The file could not be read.
    Unreadable,
    /// The file holds no font that the page renderer can use.
    Invalid,
}

/// The face that could not be loaded, and why.
#[derive(Clone, Copy, Debug, PartialEq, Eq, Structural)]
pub struct FontError {
    pub face: FontFace,
    pub failure: FontFailure,
}

/// The font family with which a PDF is rendered: the custom family, or the
/// placeholder family where the custom family could not be loaded. The
/// caller makes the documents of the page renderer with it.
#[derive(Debug)]
pub struct DefaultFont {
    /// The four faces.
    pub family: genpdf::fonts::FontFamily<genpdf::fonts::FontData>,
    /// Why the placeholder family was taken, where it was.
    pub degraded: Option<FontError>,
}

/// The path of the font file of a face, below the working directory.
pub open spec fn font_path_of(face: FontFace) -> Seq<char> {
    match face {
        FontFace::Regular => "resources/fonts/Roboto/static/Roboto-Regular.ttf"@,
        FontFace::Bold => "resources/fonts/Roboto/static/Roboto-Bold.ttf"@,
        FontFace::Italic => "resources/fonts/Roboto/static/Roboto-Italic.ttf"@,
        FontFace::BoldItalic => "resources/fonts/Roboto/static/Roboto-BoldItalic.ttf"@,
    }
}

/// The path of the font file of a face, below the working directory.
pub fn font_path(face: FontFace) -> (path: &'static str)
    ensures
        path@ == font_path_of(face),
{
    match face {
        FontFace::Regular => "resources/fonts/Roboto/static/Roboto-Regular.ttf",
        FontFace::Bold => "resources/fonts/Roboto/static/Roboto-Bold.ttf",
        FontFace::Italic => "resources/fonts/Roboto/static/Roboto-Italic.ttf",
        FontFace::BoldItalic => "resources/fonts/Roboto/static/Roboto-BoldItalic.ttf",
    }
}

/// The first face that failed to load, in the order regular, bold, italic,
/// bold italic.
pub open spec fn first_font_error(
    regular: Option<FontFailure>,
    bold: Option<FontFailure>,
    italic: Option<FontFailure>,
    bold_italic: Option<FontFailure>,
) -> Option<FontError> {
    if let Some(failure) = regular {
        Some(FontError { face: FontFace::Regular, failure })
    } else if let Some(failure) = bold {
        Some(FontError { face: FontFace::Bold, failure })
    } else if let Some(failure) = italic {
        Some(FontError { face: FontFace::Italic, failure })
    } else if let Some(failure) = bold_italic {
        Some(FontError { face: FontFace::BoldItalic, failure })
    } else {
        None
    }
}

/// The failure of a face, if it failed.
pub open spec fn failure_of(face: Result<genpdf::fonts::FontData, FontFailure>) -> Option<
    FontFailure,
> {
    match face {
        Ok(_) => None,
        Err(failure) => Some(failure),
    }
}

/// Puts the four faces of the custom font together. Where a face failed to
/// load there is no family, and the first such face is the error.
pub fn load_custom_fonts(
    regular: Result<genpdf::fonts::FontData, FontFailure>,
    bold: Result<genpdf::fonts::FontData, FontFailure>,
    italic: Result<genpdf::fonts::FontData, FontFailure>,
    bold_italic: Result<genpdf::fonts::FontData, FontFailure>,
) -> (r: Result<genpdf::fonts::FontFamily<genpdf::fonts::FontData>, FontError>)
    ensures
        match first_font_error(
            failure_of(regular),
            failure_of(bold),
            failure_of(italic),
            failure_of(bold_italic),
        ) {
            Some(error) => r == Err::<genpdf::fonts::FontFamily<genpdf::fonts::FontData>, FontError>(
                error,
            ),
            None => r is Ok && family_faces(r->Ok_0) == seq![
                regular->Ok_0,
                bold->Ok_0,
                italic->Ok_0,
                bold_italic->Ok_0,
            ],
        },
{
    let regular = match regular {
        Ok(data) => data,
        Err(failure) => {
            return Err(FontError { face: FontFace::Regular, failure });
        },
    };
    let bold = match bold {
        Ok(data) => data,
        Err(failure) => {
            return Err(FontError { face: FontFace::Bold, failure });
        },
    };
    let italic = match italic {
        Ok(data) => data,
        Err(failure) => {
            return Err(FontError { face: FontFace::Italic, failure });
        },
    };
    let bold_italic = match bold_italic {
        Ok(data) => data,
        Err(failure) => {
            return Err(FontError { face: FontFace::BoldItalic, failure });
        },
    };
    Ok(font_family(regular, bold, italic, bold_italic))
}

/// The placeholder family: its four faces are the four given ones, each of
/// which the caller has decoded from the bytes of the placeholder font.
pub fn placeholder_family(
    regular: genpdf::fonts::FontData,
    bold: genpdf::fonts::FontData,
    italic: genpdf::fonts::FontData,
    bold_italic: genpdf::fonts::FontData,
) -> (family: genpdf::fonts::FontFamily<genpdf::fonts::FontData>)
    ensures
        family_faces(family) == seq![regular, bold, italic, bold_italic],
{
    font_family(regular, bold, italic, bold_italic)
}

/// Chooses the font family for rendering: the custom family where it was
/// loaded, else the placeholder family, beside which the reason is kept for
/// which it was taken. The choice never fails, and there is always a family
/// of four faces.
pub fn load_default_font(
    custom: Result<genpdf::fonts::FontFamily<genpdf::fonts::FontData>, FontError>,
    placeholder: genpdf::fonts::FontFamily<genpdf::fonts::FontData>,
) -> (font: DefaultFont)
    ensures
        match custom {
            Ok(family) => font.family == family && font.degraded is None,
            Err(error) => font.family == placeholder && font.degraded == Some(error),
        },
{
    match custom {
        Ok(family) => DefaultFont { family, degraded: None },
        Err(error) => DefaultFont { family: placeholder, degraded: Some(error) },
    }
}

/// Whether the rows of a table block have as many cells as the table has
/// columns. Any other block fits.
pub open spec fn block_fits(block: BlockModel) -> bool {
    match block {
        BlockModel::Table { weights, rows } => forall|r: int|
            0 <= r < rows.len() ==> (#[trigger] rows[r]).len() == weights.len(),
        _ => true,
    }
}

/// A table with a row that has another number of cells than the table has
/// columns does not fit.
proof fn lemma_row_misfit(weights: Seq<usize>, rows: Seq<Seq<Seq<char>>>, i: int)
    requires
        0 <= i < rows.len(),
        rows[i].len() != weights.len(),
    ensures
        !block_fits(BlockModel::Table { weights, rows }),
{
    let m = BlockModel::Table { weights, rows };
    assert(m is Table);
    assert(m->rows == rows);
    assert(m->weights == weights);
    if block_fits(m) {
        assert(forall|r: int| 0 <= r < rows.len() ==> (#[trigger] rows[r]).len() == weights.len());
        assert(rows[i].len() == weights.len());
    }
}

/// Whether every block of a layout fits.
pub open spec fn layout_fits(blocks: Seq<BlockModel>) -> bool {
    forall|i: int| 0 <= i < blocks.len() ==> block_fits(#[trigger] blocks[i])
}

/// Adds a table of `columns` columns of equal weight to a document, unless one
/// of its rows has another number of cells.
fn add_table(doc: &mut genpdf::Document, columns: usize, rows: &Vec<Vec<String>>) -> (fits: bool)
    ensures
        fits == block_fits(
            BlockModel::Table { weights: equal_weights(columns as nat), rows: rows.deep_view() },
        ),
        fits ==> document_elements(*final(doc)) == document_elements(*old(doc)).push(
            BlockModel::Table { weights: equal_weights(columns as nat), rows: rows.deep_view() },
        ),
        !fits ==> document_elements(*final(doc)) == document_elements(*old(doc)),
        document_title(*final(doc)) == document_title(*old(doc)),
        document_margin(*final(doc)) == document_margin(*old(doc)),
        document_fonts(*final(doc)) == document_fonts(*old(doc)),
{
    let mut weights: Vec<usize> = Vec::new();
    let mut c: usize = 0;
    while c < columns
        invariant
            c <= columns,
            weights@ == equal_weights(c as nat),
        decreases columns - c,
    {
        weights.push(1);
        proof {
            assert(weights@ =~= equal_weights((c + 1) as nat));
        }
        c = c + 1;
    }
    let mut table = new_table(weights);
    let ghost cells = rows.deep_view();
    let mut i: usize = 0;
    while i < rows.len()
        invariant
            i <= rows@.len(),
            cells == rows.deep_view(),
            layout_weights(table) == equal_weights(columns as nat),
            layout_rows(table) == cells.take(i as int),
            forall|r: int| 0 <= r < i ==> (#[trigger] cells[r]).len() == columns,
        decreases rows@.len() - i,
    {
        proof {
            assert(cells[i as int].len() == rows@[i as int]@.len());
        }
        match push_table_row(&mut table, &rows[i]) {
            Ok(_) => {
                proof {
                    assert(cells.take(i + 1) =~= cells.take(i as int).push(cells[i as int]));
                }
            },
            Err(_) => {
                proof {
                    let weights = equal_weights(columns as nat);
                    assert(cells[i as int].len() != weights.len());
                    lemma_row_misfit(weights, cells, i as int);
                }
                return false;
            },
        }
        i = i + 1;
    }
    proof {
        assert(cells.take(rows@.len() as int) == cells);
    }
    push_table(doc, table);
    true
}

/// Hands the blocks of a layout to a document of the page renderer, in their
/// order and behind what the document holds. The document gets the given
/// title and the page margin `PAGE_MARGIN`, and keeps its fonts. There is no
/// document where a table has a row that does not fit its columns.
pub fn build_document(page: genpdf::Document, title: &str, blocks: &Vec<Block>) -> (r: Result<
    genpdf::Document,
    ConvertError,
>)
    ensures
        layout_fits(blocks.deep_view()) ==> r is Ok && document_elements(r->Ok_0)
            == document_elements(page) + blocks.deep_view() && document_title(r->Ok_0) == title@
            && document_margin(r->Ok_0) == PAGE_MARGIN && document_fonts(r->Ok_0)
            == document_fonts(page),
        !layout_fits(blocks.deep_view()) ==> r is Err && r->Err_0@ == ErrorModel::RenderError(
            RenderFailure::RowWidth,
        ),
{
    let ghost models = blocks.deep_view();
    let ghost before = document_elements(page);
    let mut doc = page;
    set_title(&mut doc, title);
    set_margin(&mut doc, PAGE_MARGIN);
    proof {
        assert(before + models.take(0) =~= before);
    }
    let mut i: usize = 0;
    while i < blocks.len()
        invariant
            i <= blocks@.len(),
            models == blocks.deep_view(),
            document_elements(doc) == before + models.take(i as int),
            document_title(doc) == title@,
            document_margin(doc) == PAGE_MARGIN,
            document_fonts(doc) == document_fonts(page),
            forall|j: int| 0 <= j < i ==> block_fits(#[trigger] models[j]),
        decreases blocks@.len() - i,
    {
        proof {
            assert(before + models.take(i + 1) =~= (before + models.take(i as int)).push(
                models[i as int],
            ));
            assert(models[i as int] == blocks@[i as int]@);
        }
        match &blocks[i] {
            Block::Paragraph(text) => {
                push_paragraph(&mut doc, text.as_str());
            },
            Block::Heading(text) => {
                push_heading(&mut doc, text.as_str());
            },
            Block::Break => {
                push_break(&mut doc, BREAK_LINES);
            },
            Block::Table { columns, rows } => {
                if !add_table(&mut doc, *columns, rows) {
                    return Err(ConvertError::RenderError(RenderFailure::RowWidth));
                }
            },
            Block::PageBreak => {
                push_page_break(&mut doc);
            },
        }
        i = i + 1;
    }
    proof {
        assert(models.take(blocks@.len() as int) == models);
    }
    Ok(doc)
}

/// The name of the PDF file for an input file: its stem and `.pdf`. A path
/// without a file name, given as the empty name, has no output name.
pub fn generate_output_filename(input_name: &str) -> (r: Result<String, ConvertError>)
    ensures
        input_name@.len() == 0 ==> r == Err::<String, ConvertError>(
            ConvertError::IoError(IoFailure::MissingFileName),
        ),
        input_name@.len() > 0 ==> r is Ok && r->Ok_0@ == pdf_name(input_name@),
{
    if input_name.is_empty() {
        return Err(ConvertError::IoError(IoFailure::MissingFileName));
    }
    let mut name = file_stem(input_name);
    name.append(".pdf");
    Ok(name)
}

/// What stops the building of the PDF document of a layout for an input file:
/// a missing file name, else a table row that does not fit its columns.
pub open spec fn pdf_refusal(input_name: Seq<char>, blocks: Seq<BlockModel>) -> Option<ErrorModel> {
    if input_name.len() == 0 {
        Some(ErrorModel::IoError(IoFailure::MissingFileName))
    } else if !layout_fits(blocks) {
        Some(ErrorModel::RenderError(RenderFailure::RowWidth))
    } else {
        None
    }
}

/// Whether a name and a document are the PDF document of a layout for an
/// input file, made of a document that the caller gave: the name is the
/// input's stem and `.pdf`, the title of the document is the stem, its
/// elements are those of the given document and then the blocks of the layout
/// in their order, its pages have the margin `PAGE_MARGIN`, and its fonts are
/// those of the given document.
pub open spec fn is_pdf_document(
    draft: (String, genpdf::Document),
    input_name: Seq<char>,
    blocks: Seq<BlockModel>,
    page: genpdf::Document,
) -> bool {
    &&& draft.0@ == pdf_name(input_name)
    &&& document_title(draft.1) == stem_of(input_name)
    &&& document_elements(draft.1) == document_elements(page) + blocks
    &&& document_margin(draft.1) == PAGE_MARGIN
    &&& document_fonts(draft.1) == document_fonts(page)
}

/// Builds the PDF document of a layout for an input file in a document of the
/// page renderer, and names the file for it; the input's stem is the title.
pub fn pdf_document(blocks: &Vec<Block>, input_name: &str, page: genpdf::Document) -> (r: Result<
    (String, genpdf::Document),
    ConvertError,
>)
    ensures
        input_name@.len() == 0 ==> r is Err && r->Err_0@ == ErrorModel::IoError(
            IoFailure::MissingFileName,
        ),
        input_name@.len() > 0 && !layout_fits(blocks.deep_view()) ==> r is Err && r->Err_0@
            == ErrorModel::RenderError(RenderFailure::RowWidth),
        input_name@.len() > 0 && layout_fits(blocks.deep_view()) ==> r is Ok && r->Ok_0.0@
            == pdf_name(input_name@) && document_title(r->Ok_0.1) == stem_of(input_name@)
            && document_elements(r->Ok_0.1) == document_elements(page) + blocks.deep_view()
            && document_margin(r->Ok_0.1) == PAGE_MARGIN && document_fonts(r->Ok_0.1)
            == document_fonts(page),
{
    let file_name = match generate_output_filename(input_name) {
        Ok(file_name) => file_name,
        Err(e) => {
            return Err(e);
        },
    };
    let title = file_stem(input_name);
    match build_document(page, title.as_str(), blocks) {
        Ok(document) => Ok((file_name, document)),
        Err(e) => Err(e),
    }
}

/// What the PDF document of a layout for an input file is owed, in a
/// document that the caller gave: the error that stops its building, or the
/// document of the layout.
pub open spec fn pdf_drafted(
    r: Result<(String, genpdf::Document), ConvertError>,
    input_name: Seq<char>,
    blocks: Seq<BlockModel>,
    page: genpdf::Document,
) -> bool {
    match pdf_refusal(input_name, blocks) {
        Some(error) => r is Err && r->Err_0@ == error,
        None => r is Ok && is_pdf_document(r->Ok_0, input_name, blocks, page),
    }
}

/// Builds the PDF document of a word-processing document for an input file,
/// in a document of the page renderer.
pub fn create_pdf_from_docx(content: &DocxContent, input_name: &str, page: genpdf::Document) -> (r:
    Result<(String, genpdf::Document), ConvertError>)
    ensures
        pdf_drafted(r, input_name@, document_layout(content@), page),
{
    let blocks = layout_docx_content(content);
    pdf_document(&blocks, input_name, page)
}

/// Builds the PDF document of the sheets of a workbook for an input file, in
/// a document of the page renderer.
pub fn create_pdf_from_xlsx(sheets: &[Sheet], input_name: &str, page: genpdf::Document) -> (r:
    Result<(String, genpdf::Document), ConvertError>)
    ensures
        pdf_drafted(r, input_name@, workbook_layout(sheet_models(sheets@)), page),
{
    let blocks = layout_sheets(sheets);
    pdf_document(&blocks, input_name, page)
}

/// What the page renderer made of a PDF document: the file of the given name
/// with the bytes that it gave, or, where it failed, a render error.
pub fn rendered(file_name: String, outcome: Result<Vec<u8>, genpdf::error::Error>) -> (r: Result<
    PdfFile,
    ConvertError,
>)
    ensures
        match outcome {
            Ok(bytes) => r is Ok && r->Ok_0@ == (PdfModel { file_name: file_name@, bytes: bytes@ }),
            Err(_) => r is Err && r->Err_0@ == ErrorModel::RenderError(RenderFailure::PageRenderer),
        },
{
    match outcome {
        Ok(bytes) => Ok(PdfFile { file_name, bytes }),
        Err(_) => Err(ConvertError::RenderError(RenderFailure::PageRenderer)),
    }
}

} // verus!
