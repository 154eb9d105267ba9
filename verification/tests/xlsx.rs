use aqon::converter::xlsx_reader::{
    extract_sheets, process_range, range_texts, row_has_content, rows_with_content,
    sheet_from_lookup, sheet_from_range, Sheet, SheetLookup,
};
use aqon::error::{ConvertError, SourceKind};
use calamine::{open_workbook_from_rs, DataType, Range, Reader, Xlsx, XlsxError};
use rust_xlsxwriter::Workbook;
use std::io::Cursor;

fn open_workbook(data: Vec<u8>) -> Result<Vec<SheetLookup>, calamine::XlsxError> {
    let mut workbook: Xlsx<_> = open_workbook_from_rs(Cursor::new(data))?;
    let names = workbook.sheet_names();
    Ok(names
        .into_iter()
        .map(|name| {
            let found = workbook.worksheet_range(&name);
            SheetLookup { name, found }
        })
        .collect())
}

fn strings(items: &[&str]) -> Vec<String> {
    items.iter().map(|s| s.to_string()).collect()
}

#[test]
fn an_empty_range_has_no_rows() {
    let range: Range<DataType> = Range::empty();
    assert!(process_range(&range).is_empty());
    assert_eq!(sheet_from_range("S".to_string(), &range), None);
}

#[test]
fn cells_are_read_as_their_display_text() {
    let mut range: Range<DataType> = Range::new((0, 0), (1, 3));
    range.set_value((0, 0), DataType::String("text".to_string()));
    range.set_value((0, 1), DataType::Int(42));
    range.set_value((0, 2), DataType::Bool(true));
    range.set_value((0, 3), DataType::Float(1.5));
    range.set_value((1, 1), DataType::String("x".to_string()));
    let data = process_range(&range);
    assert_eq!(data, vec![strings(&["text", "42", "true", "1.5"]), strings(&["", "x", "", ""])]);
}

#[test]
fn rows_without_content_are_dropped() {
    let mut range: Range<DataType> = Range::new((0, 0), (4, 1));
    range.set_value((0, 0), DataType::String("top".to_string()));
    range.set_value((2, 1), DataType::String("".to_string()));
    range.set_value((3, 1), DataType::Int(7));
    let data = process_range(&range);
    assert_eq!(data, vec![strings(&["top", ""]), strings(&["", "7"])]);
}

#[test]
fn a_range_is_read_from_its_first_cell() {
    let mut range: Range<DataType> = Range::new((2, 1), (3, 2));
    range.set_value((2, 1), DataType::String("b3".to_string()));
    range.set_value((3, 2), DataType::String("c4".to_string()));
    let data = process_range(&range);
    assert_eq!(data, vec![strings(&["b3", ""]), strings(&["", "c4"])]);
}

#[test]
fn a_range_of_empty_cells_gives_no_sheet() {
    let range: Range<DataType> = Range::new((0, 0), (3, 3));
    assert!(process_range(&range).is_empty());
    assert_eq!(sheet_from_range("Blank".to_string(), &range), None);
}

#[test]
fn a_range_with_content_gives_a_sheet_of_its_name() {
    let mut range: Range<DataType> = Range::new((0, 0), (0, 0));
    range.set_value((0, 0), DataType::String("v".to_string()));
    assert_eq!(
        sheet_from_range("Data".to_string(), &range),
        Some(Sheet { name: "Data".to_string(), data: vec![strings(&["v"])] })
    );
}

#[test]
fn sheets_are_read_from_a_workbook_in_order() {
    let mut workbook = Workbook::new();
    let first = workbook.add_worksheet();
    first.set_name("People").unwrap();
    first.write_string(0, 0, "Name").unwrap();
    first.write_string(0, 1, "Age").unwrap();
    first.write_string(1, 0, "Ann").unwrap();
    first.write_number(1, 1, 31).unwrap();
    first.write_string(3, 0, "Bob").unwrap();
    first.write_boolean(3, 1, false).unwrap();
    let second = workbook.add_worksheet();
    second.set_name("Blank").unwrap();
    let third = workbook.add_worksheet();
    third.set_name("Notes").unwrap();
    third.write_string(0, 0, "a|b").unwrap();
    let bytes = workbook.save_to_buffer().unwrap();
    let sheets = extract_sheets(&open_workbook(bytes)).unwrap();
    assert_eq!(
        sheets,
        vec![
            Sheet {
                name: "People".to_string(),
                data: vec![
                    strings(&["Name", "Age"]),
                    strings(&["Ann", "31"]),
                    strings(&["Bob", "false"]),
                ],
            },
            Sheet { name: "Notes".to_string(), data: vec![strings(&["a|b"])] },
        ]
    );
}

#[test]
fn a_workbook_of_one_empty_sheet_has_no_sheets() {
    let mut workbook = Workbook::new();
    let sheet = workbook.add_worksheet();
    sheet.write_string(0, 0, "").unwrap();
    sheet.write_string(2, 3, "").unwrap();
    let bytes = workbook.save_to_buffer().unwrap();
    assert_eq!(extract_sheets(&open_workbook(bytes)), Ok(vec![]));
}

#[test]
fn a_malformed_workbook_is_a_format_error() {
    assert_eq!(
        extract_sheets(&open_workbook(b"Mock XLSX content".to_vec())),
        Err(ConvertError::FormatError(SourceKind::Spreadsheet))
    );
    assert_eq!(
        extract_sheets(&open_workbook(Vec::new())),
        Err(ConvertError::FormatError(SourceKind::Spreadsheet))
    );
}

#[test]
fn sheets_that_could_not_be_read_are_left_out() {
    let mut full: Range<DataType> = Range::new((0, 0), (0, 1));
    full.set_value((0, 0), DataType::String("a".to_string()));
    let lookups = vec![
        SheetLookup { name: "Missing".to_string(), found: None },
        SheetLookup { name: "Full".to_string(), found: Some(Ok(full.clone())) },
        SheetLookup {
            name: "Broken".to_string(),
            found: Some(Err(XlsxError::Unexpected("broken sheet"))),
        },
        SheetLookup { name: "Blank".to_string(), found: Some(Ok(Range::new((0, 0), (2, 2)))) },
        SheetLookup { name: "Again".to_string(), found: Some(Ok(full)) },
    ];
    assert_eq!(sheet_from_lookup(&lookups[0]), None);
    assert_eq!(sheet_from_lookup(&lookups[2]), None);
    assert_eq!(sheet_from_lookup(&lookups[3]), None);
    assert_eq!(
        extract_sheets(&Ok(lookups)),
        Ok(vec![
            Sheet { name: "Full".to_string(), data: vec![strings(&["a", ""])] },
            Sheet { name: "Again".to_string(), data: vec![strings(&["a", ""])] },
        ])
    );
    assert_eq!(extract_sheets(&Ok(vec![])), Ok(vec![]));
}

#[test]
fn every_cell_of_a_range_is_read() {
    let mut range: Range<DataType> = Range::new((1, 1), (3, 2));
    range.set_value((1, 1), DataType::String("a".to_string()));
    range.set_value((3, 2), DataType::Int(5));
    assert_eq!(
        range_texts(&range),
        vec![strings(&["a", ""]), strings(&["", ""]), strings(&["", "5"])]
    );
    let empty: Range<DataType> = Range::empty();
    assert_eq!(range_texts(&empty), Vec::<Vec<String>>::new());
}

#[test]
fn a_row_has_content_where_a_cell_is_not_empty() {
    assert!(row_has_content(&strings(&["", "x", ""])));
    assert!(row_has_content(&strings(&[" "])));
    assert!(row_has_content(&strings(&["", "", "0"])));
    assert!(!row_has_content(&strings(&["", "", ""])));
    assert!(!row_has_content(&strings(&[])));
}

#[test]
fn the_rows_with_content_stay_in_their_order() {
    let cells = vec![
        strings(&["A", "B"]),
        strings(&["", ""]),
        strings(&["C", ""]),
    ];
    assert_eq!(rows_with_content(cells), vec![strings(&["A", "B"]), strings(&["C", ""])]);
    let cells = vec![strings(&["", ""]), strings(&[]), strings(&[""])];
    assert_eq!(rows_with_content(cells), Vec::<Vec<String>>::new());
    assert_eq!(rows_with_content(vec![]), Vec::<Vec<String>>::new());
    let ragged = vec![strings(&[""]), strings(&["", "", "z"]), strings(&["y"]), strings(&[])];
    assert_eq!(rows_with_content(ragged), vec![strings(&["", "", "z"]), strings(&["y"])]);
}
