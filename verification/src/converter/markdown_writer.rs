//! Rendering of extracted content as Markdown.
//!
//! A Markdown text is a sequence of blocks, each followed by a blank line. The
//! title heading, every paragraph and every table is one block.

use crate::converter::docx_reader::{DocumentModel, DocxContent};
use crate::converter::xlsx_reader::{sheet_models, Sheet, SheetModel};
use crate::error::{ConvertError, IoFailure};
use crate::text::{escape_pipes, escaped};
use crate::utils::{file_stem, stem_of};
use vstd::prelude::*;
use vstd::string::StringExecFns;

verus! {

/// A Markdown file that is ready to be written: its name and its text.
#[derive(Clone, Debug, PartialEq, Eq)]
pub struct MarkdownFile {
    /// The name of the file, `<stem>.md`.
    pub file_name: String,
    /// The Markdown text.
    pub text: String,
}

/// The mathematical value of a [`MarkdownFile`].
pub struct MarkdownModel {
    pub file_name: Seq<char>,
    pub text: Seq<char>,
}

impl View for MarkdownFile {
    type V = MarkdownModel;

    open spec fn view(&self) -> MarkdownModel {
        MarkdownModel { file_name: self.file_name@, text: self.text@ }
    }
}

/// One row of a table as a line: `| c1 | c2 |`, each cell with its pipes escaped.
pub open spec fn row_line(row: Seq<Seq<char>>) -> Seq<char>
    decreases row.len(),
{
    if row.len() == 0 {
        "|"@
    } else {
        row_line(row.drop_last()) + " "@ + escaped(row.last()) + " |"@
    }
}

/// The line between a table's header and its body: one `---` cell per column.
pub open spec fn separator_line(width: nat) -> Seq<char>
    decreases width,
{
    if width == 0 {
        "|"@
    } else {
        separator_line((width - 1) as nat) + " --- |"@
    }
}

/// The lines of a table with at least one row: the first row as header, the
/// separator, then the other rows.
pub open spec fn table_lines(table: Seq<Seq<Seq<char>>>) -> Seq<Seq<char>>
    recommends
        table.len() > 0,
    decreases table.len(),
{
    if table.len() <= 1 {
        seq![row_line(table[0]), separator_line(table[0].len())]
    } else {
        table_lines(table.drop_last()).push(row_line(table.last()))
    }
}

/// Lines with a line break between each two of them.
pub open spec fn join_lines(lines: Seq<Seq<char>>) -> Seq<char>
    decreases lines.len(),
{
    if lines.len() == 0 {
        Seq::empty()
    } else if lines.len() == 1 {
        lines[0]
    } else {
        join_lines(lines.drop_last()) + "\n"@ + lines.last()
    }
}

/// A table as one block.
pub open spec fn table_block(table: Seq<Seq<Seq<char>>>) -> Seq<char>
    recommends
        table.len() > 0,
{
    join_lines(table_lines(table))
}

/// The blocks of the tables that have at least one row.
pub open spec fn table_blocks(tables: Seq<Seq<Seq<Seq<char>>>>) -> Seq<Seq<char>>
    decreases tables.len(),
{
    if tables.len() == 0 {
        Seq::empty()
    } else if tables.last().len() == 0 {
        table_blocks(tables.drop_last())
    } else {
        table_blocks(tables.drop_last()).push(table_block(tables.last()))
    }
}

/// The title heading.
pub open spec fn heading(title: Seq<char>) -> Seq<char> {
    "# "@ + title
}

/// The heading of a sheet.
pub open spec fn sheet_heading(name: Seq<char>) -> Seq<char> {
    "## Sheet: "@ + name
}

/// The two blocks of a sheet: its heading, then its table or the marker of an
/// empty sheet.
pub open spec fn sheet_blocks(sheet: SheetModel) -> Seq<Seq<char>> {
    if sheet.data.len() == 0 {
        seq![sheet_heading(sheet.name), "*(Empty sheet)*"@]
    } else {
        seq![sheet_heading(sheet.name), table_block(sheet.data)]
    }
}

/// The blocks of the sheets, with a horizontal rule between each two sheets.
pub open spec fn workbook_blocks(sheets: Seq<SheetModel>) -> Seq<Seq<char>>
    decreases sheets.len(),
{
    if sheets.len() == 0 {
        Seq::empty()
    } else if sheets.len() == 1 {
        sheet_blocks(sheets[0])
    } else {
        workbook_blocks(sheets.drop_last()).push("---"@) + sheet_blocks(sheets.last())
    }
}

/// The text of a sequence of blocks: each block followed by a blank line.
pub open spec fn blocks_text(blocks: Seq<Seq<char>>) -> Seq<char>
    decreases blocks.len(),
{
    if blocks.len() == 0 {
        Seq::empty()
    } else {
        blocks_text(blocks.drop_last()) + blocks.last() + "\n\n"@
    }
}

/// The blocks of a document: heading, paragraphs, tables.
pub open spec fn document_blocks(title: Seq<char>, content: DocumentModel) -> Seq<Seq<char>> {
    seq![heading(title)] + content.paragraphs + table_blocks(content.tables)
}

/// The Markdown text of a document.
pub open spec fn document_markdown(title: Seq<char>, content: DocumentModel) -> Seq<char> {
    blocks_text(document_blocks(title, content))
}

/// The Markdown text of a workbook.
pub open spec fn workbook_markdown(title: Seq<char>, sheets: Seq<SheetModel>) -> Seq<char> {
    blocks_text(seq![heading(title)] + workbook_blocks(sheets))
}

/// The name of the Markdown file for an input file.
pub open spec fn markdown_name(input_name: Seq<char>) -> Seq<char> {
    stem_of(input_name) + ".md"@
}

/// The Markdown file of a document for an input file: named by the input's
/// stem, which is also the title.
pub open spec fn document_file(content: DocumentModel, input_name: Seq<char>) -> MarkdownModel {
    MarkdownModel {
        file_name: markdown_name(input_name),
        text: document_markdown(stem_of(input_name), content),
    }
}

/// The Markdown file of a workbook for an input file: named by the input's
/// stem, which is also the title.
pub open spec fn workbook_file(sheets: Seq<SheetModel>, input_name: Seq<char>) -> MarkdownModel {
    MarkdownModel {
        file_name: markdown_name(input_name),
        text: workbook_markdown(stem_of(input_name), sheets),
    }
}

/// Adding a block to a sequence of blocks adds the block and a blank line to the text.
pub proof fn lemma_blocks_text_push(blocks: Seq<Seq<char>>, block: Seq<char>)
    ensures
        blocks_text(blocks.push(block)) == blocks_text(blocks) + block + "\n\n"@,
{
    assert(blocks.push(block).drop_last() == blocks);
}

/// Appends the line of a row.
fn write_row(out: &mut String, row: &Vec<String>)
    ensures
        final(out)@ == old(out)@ + row_line(row.deep_view()),
{
    let ghost cells = row.deep_view();
    out.append("|");
    let mut i: usize = 0;
    while i < row.len()
        invariant
            i <= row@.len(),
            cells == row.deep_view(),
            out@ == old(out)@ + row_line(cells.take(i as int)),
        decreases row@.len() - i,
    {
        let cell = escape_pipes(row[i].as_str());
        proof {
            assert(cells.take(i + 1).drop_last() == cells.take(i as int));
            assert(cells.take(i + 1).last() == row@[i as int]@);
        }
        out.append(" ");
        out.append(cell.as_str());
        out.append(" |");
        i = i + 1;
    }
    proof {
        assert(cells.take(row@.len() as int) == cells);
    }
}

/// Appends the separator line of a table with `width` columns.
fn write_separator(out: &mut String, width: usize)
    ensures
        final(out)@ == old(out)@ + separator_line(width as nat),
{
    out.append("|");
    let mut i: usize = 0;
    while i < width
        invariant
            i <= width,
            out@ == old(out)@ + separator_line(i as nat),
        decreases width - i,
    {
        out.append(" --- |");
        i = i + 1;
    }
}

/// Appends a table as one block, without the blank line behind it.
fn write_table(out: &mut String, table: &Vec<Vec<String>>)
    requires
        table@.len() > 0,
    ensures
        final(out)@ == old(out)@ + table_block(table.deep_view()),
{
    let ghost rows = table.deep_view();
    write_row(out, &table[0]);
    out.append("\n");
    write_separator(out, table[0].len());
    proof {
        assert(rows.take(1)[0] == rows[0]);
        assert(rows[0].len() == table@[0]@.len());
        let lines = table_lines(rows.take(1));
        assert(lines == seq![row_line(rows[0]), separator_line(rows[0].len())]);
        assert(lines.drop_last() == seq![row_line(rows[0])]);
        assert(join_lines(lines.drop_last()) == row_line(rows[0]));
        assert(join_lines(lines) == row_line(rows[0]) + "\n"@ + separator_line(rows[0].len()));
    }
    let mut i: usize = 1;
    while i < table.len()
        invariant
            1 <= i <= table@.len(),
            rows == table.deep_view(),
            out@ == old(out)@ + join_lines(table_lines(rows.take(i as int))),
        decreases table@.len() - i,
    {
        proof {
            assert(rows.take(i + 1).drop_last() == rows.take(i as int));
            assert(rows.take(i + 1).last() == rows[i as int]);
            let lines = table_lines(rows.take(i + 1));
            lemma_table_lines_len(rows.take(i as int));
            assert(lines.drop_last() == table_lines(rows.take(i as int)));
            assert(lines.last() == row_line(rows[i as int]));
        }
        out.append("\n");
        write_row(out, &table[i]);
        i = i + 1;
    }
    proof {
        assert(rows.take(table@.len() as int) == rows);
    }
}

/// A table of `n` rows has `n + 1` lines.
pub proof fn lemma_table_lines_len(table: Seq<Seq<Seq<char>>>)
    requires
        table.len() > 0,
    ensures
        table_lines(table).len() == table.len() + 1,
    decreases table.len(),
{
    if table.len() > 1 {
        lemma_table_lines_len(table.drop_last());
    }
}

/// Renders a document as Markdown: the title heading, the paragraphs, then the
/// tables that have at least one row.
pub fn render_docx_content(content: &DocxContent, title: &str) -> (out: String)
    ensures
        out@ == document_markdown(title@, content@),
{
    let ghost model = content@;
    let mut out = String::new();
    out.append("# ");
    out.append(title);
    out.append("\n\n");
    proof {
        lemma_blocks_text_push(Seq::empty(), heading(title@));
        assert(Seq::<Seq<char>>::empty().push(heading(title@)) == seq![heading(title@)]);
        assert(out@ == blocks_text(seq![heading(title@)]));
    }
    let mut i: usize = 0;
    while i < content.paragraphs.len()
        invariant
            i <= content.paragraphs@.len(),
            model == content@,
            out@ == blocks_text(seq![heading(title@)] + model.paragraphs.take(i as int)),
        decreases content.paragraphs@.len() - i,
    {
        proof {
            let done = seq![heading(title@)] + model.paragraphs.take(i as int);
            lemma_blocks_text_push(done, model.paragraphs[i as int]);
            assert(done.push(model.paragraphs[i as int]) == seq![heading(title@)]
                + model.paragraphs.take(i + 1));
        }
        out.append(content.paragraphs[i].as_str());
        out.append("\n\n");
        i = i + 1;
    }
    proof {
        assert(model.paragraphs.take(content.paragraphs@.len() as int) == model.paragraphs);
    }
    let ghost front = seq![heading(title@)] + model.paragraphs;
    let mut t: usize = 0;
    while t < content.tables.len()
        invariant
            t <= content.tables@.len(),
            model == content@,
            front == seq![heading(title@)] + model.paragraphs,
            out@ == blocks_text(front + table_blocks(model.tables.take(t as int))),
        decreases content.tables@.len() - t,
    {
        proof {
            assert(model.tables.take(t + 1).drop_last() == model.tables.take(t as int));
            assert(model.tables.take(t + 1).last() == model.tables[t as int]);
            assert(model.tables[t as int].len() == content.tables@[t as int]@.len());
        }
        if content.tables[t].len() > 0 {
            proof {
                let done = front + table_blocks(model.tables.take(t as int));
                let block = table_block(model.tables[t as int]);
                lemma_blocks_text_push(done, block);
                assert(done.push(block) == front + table_blocks(model.tables.take(t + 1)));
            }
            write_table(&mut out, &content.tables[t]);
            out.append("\n\n");
        }
        t = t + 1;
    }
    proof {
        assert(model.tables.take(content.tables@.len() as int) == model.tables);
    }
    out
}

/// Appends the two blocks of a sheet, each with its blank line.
fn write_sheet(out: &mut String, sheet: &Sheet)
    ensures
        final(out)@ == old(out)@ + blocks_text(sheet_blocks(sheet@)),
{
    let ghost blocks = sheet_blocks(sheet@);
    proof {
        let first = seq![blocks[0]];
        assert(first.push(blocks[1]) == blocks);
        assert(Seq::<Seq<char>>::empty().push(blocks[0]) == first);
        lemma_blocks_text_push(Seq::empty(), blocks[0]);
        lemma_blocks_text_push(first, blocks[1]);
    }
    out.append("## Sheet: ");
    out.append(sheet.name.as_str());
    out.append("\n\n");
    if sheet.data.len() > 0 {
        write_table(out, &sheet.data);
    } else {
        out.append("*(Empty sheet)*");
    }
    out.append("\n\n");
}

/// The text of two sequences of blocks is the text of the first followed by
/// the text of the second.
pub proof fn lemma_blocks_text_add(a: Seq<Seq<char>>, b: Seq<Seq<char>>)
    ensures
        blocks_text(a + b) == blocks_text(a) + blocks_text(b),
    decreases b.len(),
{
    if b.len() == 0 {
        assert(a + b == a);
    } else {
        lemma_blocks_text_add(a, b.drop_last());
        assert((a + b).drop_last() == a + b.drop_last());
        assert((a + b).last() == b.last());
    }
}

/// Renders the sheets of a workbook as Markdown: the title heading, then each
/// sheet's heading and table, with a horizontal rule between each two sheets.
pub fn render_sheets(sheets: &[Sheet], title: &str) -> (out: String)
    ensures
        out@ == workbook_markdown(title@, sheet_models(sheets@)),
{
    let ghost models = sheet_models(sheets@);
    let ghost front = seq![heading(title@)];
    let mut out = String::new();
    out.append("# ");
    out.append(title);
    out.append("\n\n");
    proof {
        lemma_blocks_text_push(Seq::empty(), heading(title@));
        assert(Seq::<Seq<char>>::empty().push(heading(title@)) == front);
        assert(front + workbook_blocks(models.take(0)) == front);
    }
    let mut i: usize = 0;
    while i < sheets.len()
        invariant
            i <= sheets@.len(),
            models == sheet_models(sheets@),
            front == seq![heading(title@)],
            out@ == blocks_text(front + workbook_blocks(models.take(i as int))),
        decreases sheets@.len() - i,
    {
        proof {
            let before = workbook_blocks(models.take(i as int));
            let own = sheet_blocks(models[i as int]);
            assert(models.take(i + 1).drop_last() == models.take(i as int));
            assert(models.take(i + 1).last() == sheets@[i as int]@);
            if i > 0 {
                lemma_blocks_text_push(front + before, "---"@);
                assert((front + before).push("---"@) == front + before.push("---"@));
                lemma_blocks_text_add(front + before.push("---"@), own);
                assert(front + before.push("---"@) + own == front + (before.push("---"@) + own));
            } else {
                assert(models.take(1)[0] == models[0]);
                assert(front + before == front);
                lemma_blocks_text_add(front, own);
            }
        }
        if i > 0 {
            out.append("---");
            out.append("\n\n");
        }
        write_sheet(&mut out, &sheets[i]);
        i = i + 1;
    }
    proof {
        assert(models.take(sheets@.len() as int) == models);
    }
    out
}

/// The name of the Markdown file for an input file: its stem and `.md`. A path
/// without a file name, given as the empty name, has no output name.
pub fn generate_output_filename(input_name: &str) -> (r: Result<String, ConvertError>)
    ensures
        input_name@.len() == 0 ==> r == Err::<String, ConvertError>(
            ConvertError::IoError(IoFailure::MissingFileName),
        ),
        input_name@.len() > 0 ==> r is Ok && r->Ok_0@ == markdown_name(input_name@),
{
    if input_name.is_empty() {
        return Err(ConvertError::IoError(IoFailure::MissingFileName));
    }
    let mut name = file_stem(input_name);
    name.append(".md");
    Ok(name)
}

/// Renders a document as the Markdown file that belongs to the input file; the
/// input's stem is the title.
pub fn create_markdown_from_docx(content: &DocxContent, input_name: &str) -> (r: Result<
    MarkdownFile,
    ConvertError,
>)
    ensures
        input_name@.len() == 0 ==> r == Err::<MarkdownFile, ConvertError>(
            ConvertError::IoError(IoFailure::MissingFileName),
        ),
        input_name@.len() > 0 ==> r is Ok && r->Ok_0@ == document_file(content@, input_name@),
{
    match generate_output_filename(input_name) {
        Ok(file_name) => {
            let title = file_stem(input_name);
            let text = render_docx_content(content, title.as_str());
            Ok(MarkdownFile { file_name, text })
        },
        Err(e) => Err(e),
    }
}

/// Renders the sheets of a workbook as the Markdown file that belongs to the
/// input file; the input's stem is the title.
pub fn create_markdown_from_xlsx(sheets: &[Sheet], input_name: &str) -> (r: Result<
    MarkdownFile,
    ConvertError,
>)
    ensures
        input_name@.len() == 0 ==> r == Err::<MarkdownFile, ConvertError>(
            ConvertError::IoError(IoFailure::MissingFileName),
        ),
        input_name@.len() > 0 ==> r is Ok && r->Ok_0@ == workbook_file(
            sheet_models(sheets@),
            input_name@,
        ),
{
    match generate_output_filename(input_name) {
        Ok(file_name) => {
            let title = file_stem(input_name);
            let text = render_sheets(sheets, title.as_str());
            Ok(MarkdownFile { file_name, text })
        },
        Err(e) => Err(e),
    }
}

} // verus!
