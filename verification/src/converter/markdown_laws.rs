//! What holds of every Markdown text that the renderers produce.

use crate::converter::docx_reader::DocumentModel;
use crate::converter::markdown_writer::{
    blocks_text,
    document_blocks,
    document_markdown,
    heading,
    lemma_blocks_text_add,
    lemma_blocks_text_push,
    lemma_table_lines_len,
    row_line,
    separator_line,
    table_lines,
    workbook_blocks,
    workbook_markdown,
};
use crate::converter::xlsx_reader::SheetModel;
use crate::text::escaped;
use vstd::prelude::*;
use vstd::string::StringSliceAdditionalSpecFns;

verus! {

/// The position of the first blank line of `text` at or behind `from`: the first
/// line break that another line break follows. Without one, the length of the text.
pub open spec fn next_break(text: Seq<char>, from: int) -> int
    decreases text.len() - from,
{
    if from < 0 || from + 1 >= text.len() {
        text.len() as int
    } else if text[from] == '\n' && text[from + 1] == '\n' {
        from
    } else {
        next_break(text, from + 1)
    }
}

/// The blocks that a reader of Markdown finds in a text: the pieces between
/// blank lines, the first blank line taken first.
pub open spec fn split_blocks(text: Seq<char>) -> Seq<Seq<char>>
    decreases text.len(),
{
    let k = next_break(text, 0);
    if text.len() == 0 {
        Seq::empty()
    } else if 0 <= k && k + 2 <= text.len() {
        seq![text.take(k)] + split_blocks(text.skip(k + 2))
    } else {
        seq![text]
    }
}

/// A text that stays one block when a blank line is put behind it: it holds no
/// blank line and does not end in a line break.
pub open spec fn is_block(b: Seq<char>) -> bool {
    &&& forall|i: int| 0 <= i < b.len() - 1 ==> !(b[i] == '\n' && #[trigger] b[i + 1] == '\n')
    &&& b.len() > 0 ==> b.last() != '\n'
}

/// A blank line is two line breaks.
proof fn lemma_blank_line()
    ensures
        "\n\n"@ =~= seq!['\n', '\n'],
{
    reveal_strlit("\n\n");
}

/// Behind a block, the first blank line is the one that follows the block.
proof fn lemma_next_break_behind_block(b: Seq<char>, rest: Seq<char>, from: int)
    requires
        is_block(b),
        0 <= from <= b.len(),
    ensures
        next_break(b + "\n\n"@ + rest, from) == b.len(),
    decreases b.len() - from,
{
    lemma_blank_line();
    let text = b + "\n\n"@ + rest;
    assert(text[b.len() as int] == '\n');
    assert(text[b.len() as int + 1] == '\n');
    if from < b.len() {
        assert(text[from] == b[from]);
        if from + 1 < b.len() {
            assert(text[from + 1] == b[from + 1]);
        } else {
            assert(b[from] == b.last());
        }
        lemma_next_break_behind_block(b, rest, from + 1);
    }
}

/// Splitting the text of a sequence of blocks gives the blocks back, one for
/// one and in their order.
pub proof fn blocks_round_trip(blocks: Seq<Seq<char>>)
    requires
        forall|i: int| 0 <= i < blocks.len() ==> is_block(#[trigger] blocks[i]),
    ensures
        split_blocks(blocks_text(blocks)) == blocks,
    decreases blocks.len(),
{
    if blocks.len() > 0 {
        lemma_blank_line();
        let b = blocks[0];
        let rest = blocks.skip(1);
        let tail = blocks_text(rest);
        assert(seq![b] + rest == blocks);
        assert(Seq::<Seq<char>>::empty().push(b) == seq![b]);
        lemma_blocks_text_push(Seq::empty(), b);
        lemma_blocks_text_add(seq![b], rest);
        let text = blocks_text(blocks);
        assert(text == b + "\n\n"@ + tail);
        lemma_next_break_behind_block(b, tail, 0);
        assert(text.take(b.len() as int) == b);
        assert(text.skip(b.len() as int + 2) == tail);
        assert forall|i: int| 0 <= i < rest.len() implies is_block(#[trigger] rest[i]) by {
            assert(rest[i] == blocks[i + 1]);
        }
        blocks_round_trip(rest);
    }
}

/// In the Markdown text of a document, the blocks that a reader finds are the
/// heading, then the paragraphs, one block each and in document order, then
/// the tables. It holds where each of them is a block of its own; a paragraph
/// that holds a blank line or ends in a line break is none.
pub proof fn document_blocks_round_trip(title: Seq<char>, content: DocumentModel)
    requires
        forall|i: int|
            0 <= i < document_blocks(title, content).len() ==> is_block(
                #[trigger] document_blocks(title, content)[i],
            ),
    ensures
        split_blocks(document_markdown(title, content)) == document_blocks(title, content),
        split_blocks(document_markdown(title, content))[0] == heading(title),
        forall|i: int|
            0 <= i < content.paragraphs.len() ==> split_blocks(document_markdown(title, content))[i
                + 1] == content.paragraphs[i],
        content.tables.len() == 0 ==> split_blocks(document_markdown(title, content)).len()
            == content.paragraphs.len() + 1,
{
    blocks_round_trip(document_blocks(title, content));
}

/// In the Markdown text of a workbook, the blocks that a reader finds are the
/// heading and then the blocks of the sheets, where each of them is a block of
/// its own.
pub proof fn workbook_blocks_round_trip(title: Seq<char>, sheets: Seq<SheetModel>)
    requires
        is_block(heading(title)),
        forall|i: int|
            0 <= i < workbook_blocks(sheets).len() ==> is_block(#[trigger] workbook_blocks(sheets)[i]),
    ensures
        split_blocks(workbook_markdown(title, sheets)) == seq![heading(title)] + workbook_blocks(
            sheets,
        ),
{
    blocks_round_trip(seq![heading(title)] + workbook_blocks(sheets));
}

/// Two renderings of one content under one title are the same text, and so
/// the same bytes.
pub proof fn rendering_is_repeatable(
    title: Seq<char>,
    content: DocumentModel,
    first: &str,
    second: &str,
)
    requires
        first@ == document_markdown(title, content),
        second@ == document_markdown(title, content),
    ensures
        first@ == second@,
        first.spec_bytes() == second.spec_bytes(),
{
}

/// Two renderings of the same sheets under one title are the same text, and so
/// the same bytes.
pub proof fn workbook_rendering_is_repeatable(
    title: Seq<char>,
    sheets: Seq<SheetModel>,
    first: &str,
    second: &str,
)
    requires
        first@ == workbook_markdown(title, sheets),
        second@ == workbook_markdown(title, sheets),
    ensures
        first@ == second@,
        first.spec_bytes() == second.spec_bytes(),
{
}

/// The separator line of a table with `width` columns is a pipe followed by
/// exactly `width` cells of `---`, each six characters long with its pipe.
pub proof fn separator_has_one_cell_per_column(width: nat)
    ensures
        separator_line(width).len() == 1 + 6 * width,
        separator_line(width)[0] == '|',
        forall|k: int|
            0 <= k < width ==> #[trigger] separator_line(width).subrange(1 + 6 * k, 7 + 6 * k)
                == " --- |"@,
    decreases width,
{
    reveal_strlit("|");
    reveal_strlit(" --- |");
    if width > 0 {
        let shorter = separator_line((width - 1) as nat);
        let line = separator_line(width);
        separator_has_one_cell_per_column((width - 1) as nat);
        assert forall|k: int| 0 <= k < width implies #[trigger] line.subrange(1 + 6 * k, 7 + 6 * k)
            == " --- |"@ by {
            if k < width - 1 {
                assert(line.subrange(1 + 6 * k, 7 + 6 * k) == shorter.subrange(
                    1 + 6 * k,
                    7 + 6 * k,
                ));
            } else {
                assert(line.subrange(1 + 6 * k, 7 + 6 * k) == " --- |"@);
            }
        }
    }
}

/// The second line of a table is the separator line, as wide as the first row.
/// The first row is the first line and row `r` behind it is line `r + 1`:
/// every row, the header too, is written as a row line.
pub proof fn table_lines_by_row(table: Seq<Seq<Seq<char>>>)
    requires
        table.len() > 0,
    ensures
        table_lines(table).len() == table.len() + 1,
        table_lines(table)[0] == row_line(table[0]),
        table_lines(table)[1] == separator_line(table[0].len()),
        forall|r: int| 1 <= r < table.len() ==> #[trigger] table_lines(table)[r + 1] == row_line(table[r]),
    decreases table.len(),
{
    lemma_table_lines_len(table);
    if table.len() > 1 {
        let front = table.drop_last();
        table_lines_by_row(front);
        assert forall|r: int| 1 <= r < table.len() implies #[trigger] table_lines(table)[r + 1]
            == row_line(table[r]) by {
            if r < front.len() {
                assert(table_lines(front)[r + 1] == row_line(front[r]));
                assert(front[r] == table[r]);
            }
        }
    }
}

/// The line of a row holds each of its cells in escaped form, between a space
/// and ` |`, behind the line of the cells before it.
pub proof fn row_line_holds_escaped_cells(row: Seq<Seq<char>>, c: int)
    requires
        0 <= c < row.len(),
    ensures
        row_line(row.take(c + 1)) == row_line(row.take(c)) + " "@ + escaped(row[c]) + " |"@,
        row_line(row.take(c + 1)).len() <= row_line(row).len(),
        row_line(row).take(row_line(row.take(c + 1)).len() as int) == row_line(row.take(c + 1)),
    decreases row.len(),
{
    assert(row.take(c + 1).drop_last() == row.take(c));
    assert(row.take(c + 1).last() == row[c]);
    if c + 1 == row.len() {
        assert(row.take(c + 1) == row);
    } else {
        let front = row.drop_last();
        row_line_holds_escaped_cells(front, c);
        assert(front.take(c + 1) == row.take(c + 1));
        let whole = row_line(row);
        let part = row_line(front);
        let prefix = row_line(row.take(c + 1));
        assert(whole == part + " "@ + escaped(row.last()) + " |"@);
        assert(whole.take(prefix.len() as int) == part.take(prefix.len() as int));
    }
}

} // verus!
