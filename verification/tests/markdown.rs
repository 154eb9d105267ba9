use aqon::converter::docx_reader::DocxContent;
use aqon::converter::markdown_writer::{
    create_markdown_from_docx, create_markdown_from_xlsx, generate_output_filename,
    render_docx_content, render_sheets, MarkdownFile,
};
use aqon::converter::xlsx_reader::Sheet;
use aqon::error::{ConvertError, IoFailure};

fn strings(items: &[&str]) -> Vec<String> {
    items.iter().map(|s| s.to_string()).collect()
}

fn table(rows: &[&[&str]]) -> Vec<Vec<String>> {
    rows.iter().map(|r| strings(r)).collect()
}

#[test]
fn paragraphs_become_blocks_in_order() {
    let content = DocxContent { paragraphs: strings(&["first", "second"]), tables: vec![] };
    let text = render_docx_content(&content, "notes");
    assert_eq!(text, "# notes\n\nfirst\n\nsecond\n\n");
}

#[test]
fn n_paragraphs_give_n_blocks_behind_the_heading() {
    let paragraphs = strings(&["one", "two words", "three\nlines\nhere", "4"]);
    let content = DocxContent { paragraphs: paragraphs.clone(), tables: vec![] };
    let text = render_docx_content(&content, "t");
    let blocks: Vec<&str> = text.split("\n\n").collect();
    assert_eq!(blocks.len(), paragraphs.len() + 2);
    assert_eq!(blocks[0], "# t");
    for (i, p) in paragraphs.iter().enumerate() {
        assert_eq!(blocks[i + 1], p);
    }
    assert_eq!(blocks[paragraphs.len() + 1], "");
}

#[test]
fn an_empty_document_is_just_the_heading() {
    let text = render_docx_content(&DocxContent::default(), "empty");
    assert_eq!(text, "# empty\n\n");
}

#[test]
fn a_table_has_header_separator_and_rows() {
    let content = DocxContent {
        paragraphs: vec![],
        tables: vec![table(&[&["Name", "Age"], &["Ann", "31"], &["Bob", "27"]])],
    };
    let text = render_docx_content(&content, "people");
    assert_eq!(
        text,
        "# people\n\n| Name | Age |\n| --- | --- |\n| Ann | 31 |\n| Bob | 27 |\n\n"
    );
}

#[test]
fn a_table_of_one_row_is_header_and_separator() {
    let content = DocxContent { paragraphs: vec![], tables: vec![table(&[&["only", "header"]])] };
    let text = render_docx_content(&content, "t");
    assert_eq!(text, "# t\n\n| only | header |\n| --- | --- |\n\n");
}

#[test]
fn a_table_without_rows_is_left_out() {
    let content = DocxContent {
        paragraphs: strings(&["p"]),
        tables: vec![vec![], table(&[&["x"]]), vec![]],
    };
    let text = render_docx_content(&content, "t");
    assert_eq!(text, "# t\n\np\n\n| x |\n| --- |\n\n");
}

#[test]
fn separator_has_one_cell_for_each_header_cell() {
    for width in 0..6usize {
        let header: Vec<String> = (0..width).map(|i| format!("h{}", i)).collect();
        let content = DocxContent { paragraphs: vec![], tables: vec![vec![header]] };
        let text = render_docx_content(&content, "t");
        let lines: Vec<&str> = text.lines().collect();
        let separator = lines[3];
        assert_eq!(separator.matches("---").count(), width);
        assert_eq!(separator, format!("|{}", " --- |".repeat(width)));
    }
}

#[test]
fn separator_follows_the_first_row_of_a_ragged_table() {
    let content = DocxContent {
        paragraphs: vec![],
        tables: vec![table(&[&["a", "b", "c"], &["1"], &["1", "2", "3", "4"]])],
    };
    let text = render_docx_content(&content, "t");
    assert_eq!(
        text,
        "# t\n\n| a | b | c |\n| --- | --- | --- |\n| 1 |\n| 1 | 2 | 3 | 4 |\n\n"
    );
}

#[test]
fn pipes_are_escaped_in_every_row_of_a_document_table() {
    let content = DocxContent {
        paragraphs: vec![],
        tables: vec![table(&[&["a|b", "h"], &["a|b", "c|d|e"]])],
    };
    let text = render_docx_content(&content, "t");
    assert_eq!(text, "# t\n\n| a\\|b | h |\n| --- | --- |\n| a\\|b | c\\|d\\|e |\n\n");
}

#[test]
fn pipes_are_escaped_in_every_row_of_a_sheet() {
    let sheets = vec![Sheet { name: "S".to_string(), data: table(&[&["a|b"], &["a|b"]]) }];
    let text = render_sheets(&sheets, "t");
    assert_eq!(text, "# t\n\n## Sheet: S\n\n| a\\|b |\n| --- |\n| a\\|b |\n\n");
}

#[test]
fn rendering_twice_gives_the_same_text() {
    let content = DocxContent {
        paragraphs: strings(&["one", "two"]),
        tables: vec![table(&[&["a", "b"], &["c", "d"]])],
    };
    let first = render_docx_content(&content, "same");
    let second = render_docx_content(&content, "same");
    assert_eq!(first.as_bytes(), second.as_bytes());
    let sheets = vec![Sheet { name: "S".to_string(), data: table(&[&["a"]]) }];
    assert_eq!(render_sheets(&sheets, "w").as_bytes(), render_sheets(&sheets, "w").as_bytes());
}

#[test]
fn sheets_are_parted_by_a_rule() {
    let sheets = vec![
        Sheet { name: "First".to_string(), data: table(&[&["a", "b"], &["1", "2"]]) },
        Sheet { name: "Second".to_string(), data: vec![] },
        Sheet { name: "Third".to_string(), data: table(&[&["x"]]) },
    ];
    let text = render_sheets(&sheets, "book");
    assert_eq!(
        text,
        "# book\n\n## Sheet: First\n\n| a | b |\n| --- | --- |\n| 1 | 2 |\n\n---\n\n\
         ## Sheet: Second\n\n*(Empty sheet)*\n\n---\n\n## Sheet: Third\n\n| x |\n| --- |\n\n"
    );
}

#[test]
fn no_rule_behind_the_last_sheet() {
    let sheets = vec![Sheet { name: "Only".to_string(), data: table(&[&["x"]]) }];
    let text = render_sheets(&sheets, "book");
    assert!(!text.contains("---\n\n"));
    assert!(text.ends_with("| --- |\n\n"));
}

#[test]
fn a_workbook_without_sheets_is_just_the_heading() {
    let text = render_sheets(&[], "empty");
    assert_eq!(text, "# empty\n\n");
    let file = create_markdown_from_xlsx(&[], "empty.xlsx").unwrap();
    assert_eq!(file, MarkdownFile { file_name: "empty.md".to_string(), text });
}

#[test]
fn markdown_file_is_named_by_the_stem() {
    assert_eq!(generate_output_filename("report.docx"), Ok("report.md".to_string()));
    assert_eq!(generate_output_filename("a.b.docx"), Ok("a.b.md".to_string()));
    assert_eq!(generate_output_filename("noext"), Ok("noext.md".to_string()));
    assert_eq!(
        generate_output_filename(""),
        Err(ConvertError::IoError(IoFailure::MissingFileName))
    );
}

#[test]
fn document_file_has_the_stem_as_title() {
    let content = DocxContent { paragraphs: strings(&["hello"]), tables: vec![] };
    let file = create_markdown_from_docx(&content, "Quarterly Report.docx").unwrap();
    assert_eq!(file.file_name, "Quarterly Report.md");
    assert_eq!(file.text, "# Quarterly Report\n\nhello\n\n");
    assert_eq!(
        create_markdown_from_docx(&content, ""),
        Err(ConvertError::IoError(IoFailure::MissingFileName))
    );
}
