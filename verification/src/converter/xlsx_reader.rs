//! Reading the sheets of a spreadsheet workbook.
//!
//! The workbook file is opened and read by `calamine`, on the caller's side.
//! The caller hands in, for each sheet name of the workbook, what the reader
//! gave for it. A sheet's occupied cell range comes as a `calamine::Range`;
//! what is kept of it are the rows that hold at least one non-empty cell, each
//! cell as its display text.

use crate::error::{ConvertError, ErrorModel, SourceKind};
use vstd::prelude::*;

verus! {

/// One sheet of a workbook: its name and its rows of cells.
#[derive(Clone, Debug, PartialEq, Eq)]
pub struct Sheet {
    /// The name of the sheet.
    pub name: String,
    /// The rows of the sheet, each a sequence of cell texts.
    pub data: Vec<Vec<String>>,
}

/// The mathematical value of a [`Sheet`].
pub struct SheetModel {
    pub name: Seq<char>,
    pub data: Seq<Seq<Seq<char>>>,
}

impl View for Sheet {
    type V = SheetModel;

    open spec fn view(&self) -> SheetModel {
        SheetModel { name: self.name@, data: self.data.deep_view() }
    }
}

/// A row has content when one of its cells is not empty.
pub open spec fn has_content(row: Seq<Seq<char>>) -> bool {
    exists|c: int| 0 <= c < row.len() && (#[trigger] row[c]).len() > 0
}

/// The rows that have content, in their order.
pub open spec fn surviving_rows(cells: Seq<Seq<Seq<char>>>) -> Seq<Seq<Seq<char>>>
    decreases cells.len(),
{
    if cells.len() == 0 {
        Seq::empty()
    } else if has_content(cells.last()) {
        surviving_rows(cells.drop_last()).push(cells.last())
    } else {
        surviving_rows(cells.drop_last())
    }
}

impl SheetModel {
    /// What a reader may hand out: a sheet with at least one row, in which
    /// every row has content.
    pub open spec fn wf(self) -> bool {
        &&& self.data.len() > 0
        &&& forall|r: int| 0 <= r < self.data.len() ==> has_content(#[trigger] self.data[r])
    }
}

/// A rectangle of cells: `calamine::Range`.
#[verifier::external_type_specification]
#[verifier::external_body]
#[verifier::reject_recursive_types(T)]
pub struct ExRange<T>(calamine::Range<T>);

/// The value of a cell: `calamine::DataType`.
#[verifier::external_type_specification]
#[verifier::external_body]
pub struct ExDataType(calamine::DataType);

/// The error of the workbook reader: `calamine::XlsxError`.
#[verifier::external_type_specification]
#[verifier::external_body]
pub struct ExXlsxError(calamine::XlsxError);

/// The cells of a range, row by row, each as its display text.
pub uninterp spec fn range_cells(range: calamine::Range<calamine::DataType>) -> Seq<Seq<Seq<char>>>;

/// The number of rows of a range.
///
/// Wraps `calamine::Range::height`: the number of rows between the first and
/// the last occupied row, and zero for a range without cells.
#[verifier::external_body]
fn range_height(range: &calamine::Range<calamine::DataType>) -> (height: usize)
    ensures
        height == range_cells(*range).len(),
{
    range.height()
}

/// The number of columns of a range.
///
/// Wraps `calamine::Range::width`: every row of a range has that many cells.
#[verifier::external_body]
fn range_width(range: &calamine::Range<calamine::DataType>) -> (width: usize)
    ensures
        forall|r: int|
            0 <= r < range_cells(*range).len() ==> (#[trigger] range_cells(*range)[r]).len() == width,
{
    range.width()
}

/// The display text of the cell at a position relative to the range's first cell.
///
/// Wraps `calamine::Range::get`, which gives the cell's value inside the range
/// and `None` outside it, and the value's `to_string`.
#[verifier::external_body]
fn range_cell_text(range: &calamine::Range<calamine::DataType>, row: usize, col: usize) -> (text:
    Option<String>)
    ensures
        row < range_cells(*range).len() && col < range_cells(*range)[row as int].len() ==> text
            is Some && text->0@ == range_cells(*range)[row as int][col as int],
        !(row < range_cells(*range).len() && col < range_cells(*range)[row as int].len()) ==> text
            is None,
{
    range.get((row, col)).map(ToString::to_string)
}

/// Reads one row of a range: the display text of each of its cells.
fn read_row(range: &calamine::Range<calamine::DataType>, row: usize, width: usize) -> (cells: Vec<
    String,
>)
    requires
        row < range_cells(*range).len(),
        range_cells(*range)[row as int].len() == width,
    ensures
        cells.deep_view() == range_cells(*range)[row as int],
{
    let ghost texts = range_cells(*range)[row as int];
    let mut cells: Vec<String> = Vec::new();
    let mut col: usize = 0;
    while col < width
        invariant
            col <= width,
            row < range_cells(*range).len(),
            texts == range_cells(*range)[row as int],
            texts.len() == width,
            cells.deep_view() == texts.take(col as int),
        decreases width - col,
    {
        let text = match range_cell_text(range, row, col) {
            Some(text) => text,
            None => String::new(),
        };
        let ghost old_cells = cells.deep_view();
        cells.push(text);
        proof {
            assert(cells.deep_view() =~= old_cells.push(text@));
            assert(texts.take(col + 1) =~= texts.take(col as int).push(text@));
        }
        col = col + 1;
    }
    proof {
        assert(texts.take(width as int) == texts);
    }
    cells
}

/// The cells of a range, row by row, each as its display text.
pub fn range_texts(range: &calamine::Range<calamine::DataType>) -> (cells: Vec<Vec<String>>)
    ensures
        cells.deep_view() == range_cells(*range),
{
    let height = range_height(range);
    let width = range_width(range);
    let ghost texts = range_cells(*range);
    let mut cells: Vec<Vec<String>> = Vec::new();
    let mut row: usize = 0;
    while row < height
        invariant
            row <= height,
            height == texts.len(),
            texts == range_cells(*range),
            forall|r: int| 0 <= r < texts.len() ==> (#[trigger] texts[r]).len() == width,
            cells.deep_view() == texts.take(row as int),
        decreases height - row,
    {
        let line = read_row(range, row, width);
        let ghost old_cells = cells.deep_view();
        cells.push(line);
        proof {
            assert(cells.deep_view() =~= old_cells.push(texts[row as int]));
            assert(texts.take(row + 1) =~= texts.take(row as int).push(texts[row as int]));
        }
        row = row + 1;
    }
    proof {
        assert(texts.take(height as int) == texts);
    }
    cells
}

/// Tells whether a row has content: one of its cells is not empty.
pub fn row_has_content(row: &Vec<String>) -> (any: bool)
    ensures
        any == has_content(row.deep_view()),
{
    let ghost texts = row.deep_view();
    let mut col: usize = 0;
    while col < row.len()
        invariant
            col <= row@.len(),
            texts == row.deep_view(),
            forall|c: int| 0 <= c < col ==> (#[trigger] texts[c]).len() == 0,
        decreases row@.len() - col,
    {
        proof {
            assert(texts[col as int] == row@[col as int]@);
        }
        if !row[col].as_str().is_empty() {
            return true;
        }
        col = col + 1;
    }
    false
}

/// Keeps the rows of a sheet that have content, in their order, and drops
/// the others.
pub fn rows_with_content(cells: Vec<Vec<String>>) -> (data: Vec<Vec<String>>)
    ensures
        data.deep_view() == surviving_rows(cells.deep_view()),
{
    let ghost texts = cells.deep_view();
    let mut data: Vec<Vec<String>> = Vec::new();
    for line in it: cells.into_iter()
        invariant
            it.seq() == cells@,
            texts == cells.deep_view(),
            data.deep_view() == surviving_rows(texts.take(it.index())),
    {
        proof {
            let row = it.index();
            assert(texts.take(row + 1).drop_last() == texts.take(row));
            assert(texts.take(row + 1).last() == texts[row]);
            assert(texts[row] == line.deep_view());
        }
        if row_has_content(&line) {
            let ghost old_data = data.deep_view();
            let ghost kept = line.deep_view();
            data.push(line);
            proof {
                assert(data.deep_view() =~= old_data.push(kept));
            }
        }
    }
    proof {
        assert(texts.take(texts.len() as int) == texts);
    }
    data
}

/// The rows of a range that have content, each cell as its display text.
pub fn process_range(range: &calamine::Range<calamine::DataType>) -> (data: Vec<Vec<String>>)
    ensures
        data.deep_view() == surviving_rows(range_cells(*range)),
{
    rows_with_content(range_texts(range))
}

/// Every row that survives has content.
pub proof fn lemma_surviving_rows_have_content(cells: Seq<Seq<Seq<char>>>)
    ensures
        forall|r: int|
            0 <= r < surviving_rows(cells).len() ==> has_content(#[trigger] surviving_rows(cells)[r]),
    decreases cells.len(),
{
    if cells.len() > 0 {
        let front = surviving_rows(cells.drop_last());
        lemma_surviving_rows_have_content(cells.drop_last());
        assert forall|r: int| 0 <= r < surviving_rows(cells).len() implies has_content(
            #[trigger] surviving_rows(cells)[r],
        ) by {
            if r < front.len() {
                assert(surviving_rows(cells)[r] == front[r]);
            }
        }
    }
}

/// The sheet that cells give under a name: the rows with content, and no sheet
/// at all where no row has any.
pub open spec fn sheet_of(name: Seq<char>, cells: Seq<Seq<Seq<char>>>) -> Option<SheetModel> {
    if surviving_rows(cells).len() == 0 {
        None
    } else {
        Some(SheetModel { name, data: surviving_rows(cells) })
    }
}

/// The sheet that a range gives under a name: its rows with content, and no
/// sheet at all where no row has any.
pub fn sheet_from_range(name: String, range: &calamine::Range<calamine::DataType>) -> (sheet:
    Option<Sheet>)
    ensures
        match sheet_of(name@, range_cells(*range)) {
            Some(model) => sheet is Some && sheet->0@ == model && model.wf(),
            None => sheet is None,
        },
{
    let data = process_range(range);
    proof {
        lemma_surviving_rows_have_content(range_cells(*range));
    }
    if data.len() > 0 {
        Some(Sheet { name, data })
    } else {
        None
    }
}

/// What the workbook reader gave for one sheet name of a workbook.
#[derive(Debug)]
pub struct SheetLookup {
    /// The name of the sheet.
    pub name: String,
    /// What `calamine::Reader::worksheet_range` gave for the name: nothing
    /// where the workbook has no such sheet, an error where the sheet could
    /// not be read, else the occupied cell range of the sheet.
    pub found: Option<Result<calamine::Range<calamine::DataType>, calamine::XlsxError>>,
}

/// The sheet that is kept of a lookup: none where the workbook has no such
/// sheet or could not read it, else the sheet of the range.
pub open spec fn lookup_sheet(lookup: SheetLookup) -> Option<SheetModel> {
    match lookup.found {
        Some(Ok(range)) => sheet_of(lookup.name@, range_cells(range)),
        _ => None,
    }
}

/// The sheets that are kept of the lookups of a workbook, in workbook order.
pub open spec fn kept_sheets(lookups: Seq<SheetLookup>) -> Seq<SheetModel>
    decreases lookups.len(),
{
    if lookups.len() == 0 {
        Seq::empty()
    } else {
        match lookup_sheet(lookups.last()) {
            Some(sheet) => kept_sheets(lookups.drop_last()).push(sheet),
            None => kept_sheets(lookups.drop_last()),
        }
    }
}

/// The mathematical values of a sequence of sheets.
pub open spec fn sheet_models(sheets: Seq<Sheet>) -> Seq<SheetModel> {
    Seq::new(sheets.len(), |i: int| sheets[i]@)
}

/// The sheet that is kept of a lookup.
pub fn sheet_from_lookup(lookup: &SheetLookup) -> (sheet: Option<Sheet>)
    ensures
        match lookup_sheet(*lookup) {
            Some(model) => sheet is Some && sheet->0@ == model && model.wf(),
            None => sheet is None,
        },
{
    match &lookup.found {
        Some(Ok(range)) => sheet_from_range(lookup.name.clone(), range),
        _ => None,
    }
}

/// Every sheet that is kept has a row, and all its rows have content.
pub proof fn kept_sheets_are_well_formed(lookups: Seq<SheetLookup>)
    ensures
        forall|i: int| 0 <= i < kept_sheets(lookups).len() ==> (#[trigger] kept_sheets(lookups)[i]).wf(),
    decreases lookups.len(),
{
    if lookups.len() > 0 {
        let front = kept_sheets(lookups.drop_last());
        kept_sheets_are_well_formed(lookups.drop_last());
        match lookups.last().found {
            Some(Ok(range)) => {
                lemma_surviving_rows_have_content(range_cells(range));
            },
            _ => {},
        }
        assert forall|i: int| 0 <= i < kept_sheets(lookups).len() implies (#[trigger] kept_sheets(
            lookups,
        )[i]).wf() by {
            if i < front.len() {
                assert(kept_sheets(lookups)[i] == front[i]);
            }
        }
    }
}

/// Reads the sheets of a workbook from what `calamine` gave for it: the
/// sheets that could be read and have a row with content, in workbook order.
/// A workbook that could not be opened is a format error.
pub fn extract_sheets(opened: &Result<Vec<SheetLookup>, calamine::XlsxError>) -> (r: Result<
    Vec<Sheet>,
    ConvertError,
>)
    ensures
        opened is Ok ==> r is Ok && sheet_models(r->Ok_0@) == kept_sheets(opened->Ok_0@),
        opened is Err ==> r is Err && r->Err_0@ == ErrorModel::FormatError(SourceKind::Spreadsheet),
{
    let lookups = match opened {
        Ok(lookups) => lookups,
        Err(_) => {
            return Err(ConvertError::FormatError(SourceKind::Spreadsheet));
        },
    };
    let mut sheets: Vec<Sheet> = Vec::new();
    let mut i: usize = 0;
    while i < lookups.len()
        invariant
            i <= lookups@.len(),
            sheet_models(sheets@) == kept_sheets(lookups@.take(i as int)),
        decreases lookups@.len() - i,
    {
        proof {
            assert(lookups@.take(i + 1).drop_last() == lookups@.take(i as int));
            assert(lookups@.take(i + 1).last() == lookups@[i as int]);
        }
        if let Some(sheet) = sheet_from_lookup(&lookups[i]) {
            let ghost before = sheet_models(sheets@);
            sheets.push(sheet);
            proof {
                assert(sheet_models(sheets@) =~= before.push(sheet@));
            }
        }
        i = i + 1;
    }
    proof {
        assert(lookups@.take(lookups@.len() as int) == lookups@);
    }
    Ok(sheets)
}

} // verus!
