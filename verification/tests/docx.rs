use aqon::converter::docx_reader::{
    content_from_nodes, extract_content, CellNode, DocumentNode, DocxContent, ParagraphNode,
    RunNode, TableCellNode, TableRowNode,
};
use aqon::error::{ConvertError, SourceKind};
use aqon::converter::docx_tree::document_nodes;
use docx_rs::{read_docx, Docx, Paragraph, Run, Table, TableCell, TableRow};
use std::io::Cursor;

fn text(s: &str) -> RunNode {
    RunNode::Text(s.to_string())
}

fn run(parts: &[&str]) -> ParagraphNode {
    ParagraphNode::Run(parts.iter().map(|p| text(p)).collect())
}

fn paragraph(s: &str) -> DocumentNode {
    DocumentNode::Paragraph(vec![run(&[s])])
}

fn cell(s: &str) -> TableCellNode {
    TableCellNode { children: vec![CellNode::Paragraph(vec![run(&[s])])] }
}

fn row(cells: &[&str]) -> TableRowNode {
    TableRowNode { cells: cells.iter().map(|c| cell(c)).collect() }
}

fn pack(docx: Docx) -> Vec<u8> {
    let mut buffer = Cursor::new(Vec::new());
    docx.build().pack(&mut buffer).unwrap();
    buffer.into_inner()
}

fn strings(items: &[&str]) -> Vec<String> {
    items.iter().map(|s| s.to_string()).collect()
}

fn docx_paragraph(s: &str) -> Paragraph {
    Paragraph::new().add_run(Run::new().add_text(s))
}

fn docx_cell(s: &str) -> TableCell {
    TableCell::new().add_paragraph(docx_paragraph(s))
}

#[test]
fn runs_of_a_paragraph_are_joined_in_order() {
    let nodes = vec![DocumentNode::Paragraph(vec![
        run(&["Hel", "lo"]),
        ParagraphNode::Other,
        ParagraphNode::Run(vec![text(", "), RunNode::Other, text("world")]),
    ])];
    let content = content_from_nodes(&nodes);
    assert_eq!(content.paragraphs, vec!["Hello, world".to_string()]);
    assert!(content.tables.is_empty());
}

#[test]
fn blank_paragraphs_are_left_out() {
    let nodes = vec![
        paragraph("first"),
        paragraph(""),
        paragraph("   \t"),
        DocumentNode::Paragraph(vec![]),
        DocumentNode::Paragraph(vec![ParagraphNode::Other]),
        paragraph(" padded "),
    ];
    let content = content_from_nodes(&nodes);
    assert_eq!(content.paragraphs, vec!["first".to_string(), " padded ".to_string()]);
}

#[test]
fn other_nodes_are_passed_over() {
    let nodes = vec![DocumentNode::Other, paragraph("kept"), DocumentNode::Other];
    let content = content_from_nodes(&nodes);
    assert_eq!(content, DocxContent { paragraphs: vec!["kept".to_string()], tables: vec![] });
}

#[test]
fn tables_keep_rows_and_cells_in_order() {
    let nodes = vec![
        paragraph("before"),
        DocumentNode::Table(vec![row(&["a", "b"]), row(&["c"]), row(&["", "d", "e"])]),
        paragraph("after"),
    ];
    let content = content_from_nodes(&nodes);
    assert_eq!(content.paragraphs, vec!["before".to_string(), "after".to_string()]);
    assert_eq!(
        content.tables,
        vec![vec![
            vec!["a".to_string(), "b".to_string()],
            vec!["c".to_string()],
            vec!["".to_string(), "d".to_string(), "e".to_string()],
        ]]
    );
}

#[test]
fn rows_without_cells_and_tables_without_rows_are_left_out() {
    let nodes = vec![
        DocumentNode::Table(vec![]),
        DocumentNode::Table(vec![TableRowNode { cells: vec![] }]),
        DocumentNode::Table(vec![TableRowNode { cells: vec![] }, row(&["x"])]),
    ];
    let content = content_from_nodes(&nodes);
    assert_eq!(content.tables, vec![vec![vec!["x".to_string()]]]);
}

#[test]
fn cell_text_joins_the_paragraphs_of_the_cell() {
    let two = TableCellNode {
        children: vec![
            CellNode::Paragraph(vec![run(&["one"])]),
            CellNode::Other,
            CellNode::Paragraph(vec![run(&["two"]), ParagraphNode::Other]),
        ],
    };
    let nodes = vec![DocumentNode::Table(vec![TableRowNode { cells: vec![two] }])];
    let content = content_from_nodes(&nodes);
    assert_eq!(content.tables, vec![vec![vec!["onetwo".to_string()]]]);
}

#[test]
fn content_is_read_from_a_document_container() {
    let docx = Docx::new()
        .add_paragraph(docx_paragraph("First paragraph"))
        .add_paragraph(Paragraph::new())
        .add_paragraph(
            Paragraph::new()
                .add_run(Run::new().add_text("Second ").add_tab().add_text("part"))
                .add_run(Run::new().add_text(" and more")),
        )
        .add_table(Table::new(vec![
            TableRow::new(vec![docx_cell("Name"), docx_cell("Value")]),
            TableRow::new(vec![docx_cell("a|b"), docx_cell("")]),
        ]))
        .add_paragraph(docx_paragraph("   "))
        .add_paragraph(docx_paragraph("Last"));
    let content = extract_content(&read_docx(&pack(docx))).unwrap();
    assert_eq!(
        content.paragraphs,
        vec![
            "First paragraph".to_string(),
            "Second part and more".to_string(),
            "Last".to_string()
        ]
    );
    assert_eq!(
        content.tables,
        vec![vec![
            vec!["Name".to_string(), "Value".to_string()],
            vec!["a|b".to_string(), "".to_string()],
        ]]
    );
}

#[test]
fn a_document_without_content_is_empty() {
    let content = extract_content(&read_docx(&pack(Docx::new()))).unwrap();
    assert_eq!(content, DocxContent::default());
    assert_eq!(extract_content(&Ok(Docx::new())), Ok(DocxContent::default()));
}

#[test]
fn a_malformed_container_is_a_format_error() {
    assert_eq!(
        extract_content(&read_docx(b"Mock DOCX content")),
        Err(ConvertError::FormatError(SourceKind::Word))
    );
    assert_eq!(
        extract_content(&read_docx(b"")),
        Err(ConvertError::FormatError(SourceKind::Word))
    );
}

#[test]
fn the_tree_of_a_document_is_copied_node_for_node() {
    let docx = Docx::new()
        .add_paragraph(
            Paragraph::new()
                .add_run(Run::new().add_text("a").add_tab().add_text("b"))
                .add_bookmark_start(1, "mark")
                .add_run(Run::new()),
        )
        .add_bookmark_start(2, "body")
        .add_table(Table::new(vec![
            TableRow::new(vec![docx_cell("x"), TableCell::new()]),
            TableRow::new(vec![]),
        ]));
    let nodes = document_nodes(&docx);
    assert_eq!(
        nodes,
        vec![
            DocumentNode::Paragraph(vec![
                ParagraphNode::Run(vec![text("a"), RunNode::Other, text("b")]),
                ParagraphNode::Other,
                ParagraphNode::Run(vec![]),
            ]),
            DocumentNode::Other,
            DocumentNode::Table(vec![
                TableRowNode { cells: vec![cell("x"), TableCellNode { children: vec![] }] },
                TableRowNode { cells: vec![] },
            ]),
        ]
    );
    let content = content_from_nodes(&nodes);
    assert_eq!(content.paragraphs, strings(&["ab"]));
    assert_eq!(content.tables, vec![vec![strings(&["x", ""])]]);
    assert_eq!(extract_content(&Ok(docx)), Ok(content));
}
