use aqon::converter::docx_reader::DocxContent;
use aqon::converter::pdf_writer::{
    build_document, create_pdf_from_docx, create_pdf_from_xlsx, font_path,
    generate_output_filename, layout_docx_content, layout_sheets, load_custom_fonts,
    load_default_font, pdf_document, placeholder_family, rendered, Block, DefaultFont, FontError,
    FontFace, FontFailure, PdfFile,
};
use aqon::converter::placeholder_font::placeholder_font;
use aqon::converter::xlsx_reader::Sheet;
use aqon::error::{ConvertError, IoFailure, RenderFailure};
use genpdf::fonts::{FontData, FontFamily};

fn strings(items: &[&str]) -> Vec<String> {
    items.iter().map(|s| s.to_string()).collect()
}

fn table(rows: &[&[&str]]) -> Vec<Vec<String>> {
    rows.iter().map(|r| strings(r)).collect()
}

fn table_entry(tag: &[u8; 4], offset: usize, length: usize) -> Vec<u8> {
    let mut entry = tag.to_vec();
    entry.extend_from_slice(&0u32.to_be_bytes());
    entry.extend_from_slice(&(offset as u32).to_be_bytes());
    entry.extend_from_slice(&(length as u32).to_be_bytes());
    entry
}

/// A font of two glyphs without outlines, put together table by table; every
/// printable ASCII character has the second glyph, half an em wide.
fn two_glyph_font() -> Vec<u8> {
    let mut cmap = vec![0, 0, 0, 1, 0, 0, 0, 3, 0, 0, 0, 12, 0, 0, 1, 6, 0, 0];
    for code in 0..256u32 {
        cmap.push(if (32..127).contains(&code) { 1 } else { 0 });
    }
    let glyf = vec![0u8; 4];
    let mut head = vec![0u8; 54];
    head[0..4].copy_from_slice(&0x0001_0000u32.to_be_bytes());
    head[12..16].copy_from_slice(&0x5F0F_3CF5u32.to_be_bytes());
    head[18..20].copy_from_slice(&1000u16.to_be_bytes());
    let mut hhea = vec![0u8; 36];
    hhea[0..4].copy_from_slice(&0x0001_0000u32.to_be_bytes());
    hhea[4..6].copy_from_slice(&800i16.to_be_bytes());
    hhea[6..8].copy_from_slice(&(-200i16).to_be_bytes());
    hhea[10..12].copy_from_slice(&500u16.to_be_bytes());
    hhea[34..36].copy_from_slice(&2u16.to_be_bytes());
    let hmtx = vec![1, 244, 0, 0, 1, 244, 0, 0];
    let loca = vec![0u8; 6];
    let maxp = vec![0, 0, 0x50, 0, 0, 2];
    let tables: Vec<(&[u8; 4], Vec<u8>)> = vec![
        (b"cmap", cmap),
        (b"glyf", glyf),
        (b"head", head),
        (b"hhea", hhea),
        (b"hmtx", hmtx),
        (b"loca", loca),
        (b"maxp", maxp),
    ];
    let mut font = vec![0, 1, 0, 0, 0, 7, 0, 64, 0, 2, 0, 48];
    let mut offset = 12 + 16 * tables.len();
    for (tag, data) in &tables {
        font.extend(table_entry(tag, offset, data.len()));
        offset += (data.len() + 3) / 4 * 4;
    }
    for (_, data) in &tables {
        font.extend_from_slice(data);
        while font.len() % 4 != 0 {
            font.push(0);
        }
    }
    font
}

fn face() -> FontData {
    FontData::new(placeholder_font(), None).unwrap()
}

fn placeholder() -> FontFamily<FontData> {
    placeholder_family(face(), face(), face(), face())
}

fn custom_font() -> DefaultFont {
    load_default_font(load_custom_fonts(Ok(face()), Ok(face()), Ok(face()), Ok(face())), placeholder())
}

fn degraded_font() -> DefaultFont {
    let missing = Err(FontError { face: FontFace::Regular, failure: FontFailure::Unreadable });
    load_default_font(missing, placeholder())
}

/// An empty document of the page renderer, made with the custom family.
fn page() -> genpdf::Document {
    genpdf::Document::new(custom_font().family)
}

/// An empty document of the page renderer, made with the placeholder family.
fn degraded_page() -> genpdf::Document {
    genpdf::Document::new(degraded_font().family)
}

fn render(document: genpdf::Document) -> Result<Vec<u8>, genpdf::error::Error> {
    let mut bytes = Vec::new();
    document.render(&mut bytes)?;
    Ok(bytes)
}

fn render_file(draft: (String, genpdf::Document)) -> PdfFile {
    let (file_name, document) = draft;
    rendered(file_name, render(document)).unwrap()
}

#[test]
fn the_placeholder_font_is_a_font_of_two_glyphs() {
    let bytes = placeholder_font();
    assert_eq!(bytes.len(), 520);
    assert_eq!(&bytes[0..4], &[0, 1, 0, 0]);
    assert_eq!(bytes, two_glyph_font());
    assert!(FontData::new(bytes, None).is_ok());
}

#[test]
fn paragraphs_are_laid_out_with_breaks() {
    let content = DocxContent { paragraphs: strings(&["one", "two"]), tables: vec![] };
    assert_eq!(
        layout_docx_content(&content),
        vec![
            Block::Paragraph("one".to_string()),
            Block::Break,
            Block::Paragraph("two".to_string()),
            Block::Break,
        ]
    );
}

#[test]
fn tables_take_their_columns_from_the_first_row() {
    let rows = table(&[&["a", "b", "c"], &["1", "2", "3"]]);
    let content = DocxContent {
        paragraphs: strings(&["p"]),
        tables: vec![vec![], rows.clone(), table(&[&["x"], &["y", "z"]])],
    };
    assert_eq!(
        layout_docx_content(&content),
        vec![
            Block::Paragraph("p".to_string()),
            Block::Break,
            Block::Table { columns: 3, rows },
            Block::Break,
            Block::Table { columns: 1, rows: table(&[&["x"], &["y", "z"]]) },
            Block::Break,
        ]
    );
}

#[test]
fn an_empty_document_has_no_blocks() {
    assert_eq!(layout_docx_content(&DocxContent::default()), vec![]);
    assert_eq!(layout_sheets(&[]), vec![]);
}

#[test]
fn sheets_are_laid_out_with_page_breaks_between_them() {
    let sheets = vec![
        Sheet { name: "A".to_string(), data: table(&[&["h1", "h2"], &["1", "2"]]) },
        Sheet { name: "B".to_string(), data: vec![] },
        Sheet { name: "C".to_string(), data: vec![vec![]] },
    ];
    assert_eq!(
        layout_sheets(&sheets),
        vec![
            Block::Heading("Sheet: A".to_string()),
            Block::Break,
            Block::Table { columns: 2, rows: table(&[&["h1", "h2"], &["1", "2"]]) },
            Block::PageBreak,
            Block::Heading("Sheet: B".to_string()),
            Block::Break,
            Block::Paragraph("(Empty sheet)".to_string()),
            Block::PageBreak,
            Block::Heading("Sheet: C".to_string()),
            Block::Break,
        ]
    );
}

#[test]
fn one_sheet_has_no_page_break() {
    let sheets = vec![Sheet { name: "Only".to_string(), data: table(&[&["x"]]) }];
    let blocks = layout_sheets(&sheets);
    assert!(!blocks.contains(&Block::PageBreak));
    assert_eq!(blocks.len(), 3);
}

#[test]
fn font_files_are_below_the_resources() {
    assert_eq!(font_path(FontFace::Regular), "resources/fonts/Roboto/static/Roboto-Regular.ttf");
    assert_eq!(font_path(FontFace::Bold), "resources/fonts/Roboto/static/Roboto-Bold.ttf");
    assert_eq!(font_path(FontFace::Italic), "resources/fonts/Roboto/static/Roboto-Italic.ttf");
    assert_eq!(
        font_path(FontFace::BoldItalic),
        "resources/fonts/Roboto/static/Roboto-BoldItalic.ttf"
    );
}

#[test]
fn the_first_face_that_failed_is_the_font_error() {
    let missing = || Err(FontFailure::Unreadable);
    let invalid = || Err(FontFailure::Invalid);
    let loaded = || Ok(face());
    assert_eq!(
        load_custom_fonts(missing(), invalid(), loaded(), loaded()).err(),
        Some(FontError { face: FontFace::Regular, failure: FontFailure::Unreadable })
    );
    assert_eq!(
        load_custom_fonts(loaded(), invalid(), missing(), loaded()).err(),
        Some(FontError { face: FontFace::Bold, failure: FontFailure::Invalid })
    );
    assert_eq!(
        load_custom_fonts(loaded(), loaded(), missing(), invalid()).err(),
        Some(FontError { face: FontFace::Italic, failure: FontFailure::Unreadable })
    );
    assert_eq!(
        load_custom_fonts(loaded(), loaded(), loaded(), invalid()).err(),
        Some(FontError { face: FontFace::BoldItalic, failure: FontFailure::Invalid })
    );
    assert!(load_custom_fonts(loaded(), loaded(), loaded(), loaded()).is_ok());
}

#[test]
fn the_default_font_degrades_to_the_placeholder_family() {
    let error = FontError { face: FontFace::Bold, failure: FontFailure::Invalid };
    let font = load_default_font(Err(error), placeholder());
    assert_eq!(font.degraded, Some(error));
    assert_eq!(custom_font().degraded, None);
}

#[test]
fn a_pdf_still_renders_with_the_placeholder_family() {
    let content = DocxContent {
        paragraphs: strings(&["text of the document"]),
        tables: vec![table(&[&["a", "b"], &["1", "2"]])],
    };
    let draft = create_pdf_from_docx(&content, "a.docx", degraded_page()).unwrap();
    let file = render_file(draft);
    assert_eq!(file.file_name, "a.pdf");
    assert!(file.bytes.starts_with(b"%PDF"));
    let draft = create_pdf_from_xlsx(&[], "a.xlsx", degraded_page()).unwrap();
    assert!(render_file(draft).bytes.starts_with(b"%PDF"));
}

#[test]
fn pdf_file_is_named_by_the_stem() {
    assert_eq!(generate_output_filename("report.docx"), Ok("report.pdf".to_string()));
    assert_eq!(generate_output_filename("a.b.xlsx"), Ok("a.b.pdf".to_string()));
    assert_eq!(
        generate_output_filename(""),
        Err(ConvertError::IoError(IoFailure::MissingFileName))
    );
}

#[test]
fn an_input_without_a_name_has_no_pdf_document() {
    let content = DocxContent { paragraphs: strings(&["text"]), tables: vec![] };
    assert_eq!(
        create_pdf_from_docx(&content, "", page()).err(),
        Some(ConvertError::IoError(IoFailure::MissingFileName))
    );
    assert_eq!(
        pdf_document(&vec![], "", degraded_page()).err(),
        Some(ConvertError::IoError(IoFailure::MissingFileName))
    );
}

#[test]
fn a_document_is_rendered_as_pdf() {
    let content = DocxContent {
        paragraphs: strings(&["A paragraph of text.", "Another one."]),
        tables: vec![table(&[&["Name", "Age"], &["Ann", "31"]])],
    };
    let draft = create_pdf_from_docx(&content, "people.docx", page()).unwrap();
    assert_eq!(draft.0, "people.pdf");
    let file = render_file(draft);
    assert_eq!(file.file_name, "people.pdf");
    assert!(file.bytes.starts_with(b"%PDF"));
    assert!(file.bytes.len() > 100);
}

#[test]
fn a_workbook_is_rendered_as_pdf() {
    let sheets = vec![
        Sheet { name: "First".to_string(), data: table(&[&["a", "b"], &["1", "2"]]) },
        Sheet { name: "Second".to_string(), data: vec![] },
    ];
    let draft = create_pdf_from_xlsx(&sheets, "book.xlsx", page()).unwrap();
    assert_eq!(draft.0, "book.pdf");
    assert!(render_file(draft).bytes.starts_with(b"%PDF"));
}

#[test]
fn the_same_font_builds_more_than_one_document() {
    let font = custom_font();
    let content = DocxContent { paragraphs: strings(&["p"]), tables: vec![] };
    let first_page = genpdf::Document::new(font.family.clone());
    let second_page = genpdf::Document::new(font.family);
    let first = create_pdf_from_docx(&content, "first.docx", first_page).unwrap();
    let second = create_pdf_from_docx(&content, "second.docx", second_page).unwrap();
    assert!(render(first.1).is_ok());
    assert!(render(second.1).is_ok());
}

#[test]
fn a_row_that_does_not_fit_its_table_is_a_render_error() {
    let content = DocxContent {
        paragraphs: vec![],
        tables: vec![table(&[&["a", "b"], &["only one"]])],
    };
    assert_eq!(
        create_pdf_from_docx(&content, "ragged.docx", page()).err(),
        Some(ConvertError::RenderError(RenderFailure::RowWidth))
    );
    let blocks = vec![Block::Table { columns: 1, rows: table(&[&["x"], &["y", "z"]]) }];
    assert_eq!(
        pdf_document(&blocks, "t.docx", degraded_page()).err(),
        Some(ConvertError::RenderError(RenderFailure::RowWidth))
    );
    assert_eq!(
        build_document(degraded_page(), "t", &blocks).err(),
        Some(ConvertError::RenderError(RenderFailure::RowWidth))
    );
}

#[test]
fn the_outcome_of_the_page_renderer_is_the_file_or_a_render_error() {
    assert_eq!(
        rendered("a.pdf".to_string(), Ok(vec![1, 2, 3])),
        Ok(PdfFile { file_name: "a.pdf".to_string(), bytes: vec![1, 2, 3] })
    );
    let failure = genpdf::error::Error::new("no page", genpdf::error::ErrorKind::Internal);
    assert_eq!(
        rendered("a.pdf".to_string(), Err(failure)),
        Err(ConvertError::RenderError(RenderFailure::PageRenderer))
    );
}

#[test]
fn many_blocks_are_rendered_over_pages() {
    let mut blocks = vec![
        Block::Paragraph("word ".repeat(400)),
        Block::Paragraph(String::new()),
        Block::Heading(String::new()),
        Block::Table { columns: 3, rows: vec![] },
        Block::Table { columns: 2, rows: table(&[&["", "b|c"], &["x", ""]]) },
        Block::PageBreak,
        Block::PageBreak,
    ];
    for i in 0..300 {
        blocks.push(Block::Paragraph(format!("paragraph {}", i)));
        blocks.push(Block::Break);
    }
    let document = build_document(degraded_page(), "", &blocks).ok().unwrap();
    assert!(render(document).unwrap().starts_with(b"%PDF"));
}

#[test]
fn a_layout_that_fits_gives_a_document() {
    let blocks = vec![
        Block::Paragraph("p".to_string()),
        Block::Table { columns: 2, rows: table(&[&["a", "b"], &["c", "d"]]) },
        Block::Table { columns: 0, rows: vec![vec![]] },
    ];
    assert!(build_document(degraded_page(), "title", &blocks).is_ok());
}

#[test]
fn the_blocks_come_behind_what_the_document_holds() {
    let mut started = page();
    started.push(genpdf::elements::Paragraph::new("already here"));
    let blocks = vec![Block::Paragraph("added".to_string()), Block::Break];
    let document = build_document(started, "title", &blocks).ok().unwrap();
    let longer = render(document).unwrap();
    let shorter = render(build_document(page(), "title", &blocks).ok().unwrap()).unwrap();
    assert!(longer.starts_with(b"%PDF"));
    assert!(longer.len() > shorter.len());
}

#[test]
fn the_title_of_the_document_is_the_stem_of_the_input() {
    let content = DocxContent { paragraphs: strings(&["p"]), tables: vec![] };
    let named = render_file(create_pdf_from_docx(&content, "quarterly.docx", page()).unwrap());
    let other = render_file(create_pdf_from_docx(&content, "q.docx", page()).unwrap());
    let holds = |bytes: &[u8], word: &[u8]| bytes.windows(word.len()).any(|part| part == word);
    assert!(holds(&named.bytes, b"quarterly"));
    assert!(!holds(&other.bytes, b"quarterly"));
}
