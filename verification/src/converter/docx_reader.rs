//! Reading the content of a word-processing document.
//!
//! The container is parsed by `docx_rs`, on the caller's side. The node tree
//! of the parsed document is copied, node for node, into the node types of
//! this module, which keep what the extraction reads: the kind of each node,
//! its children, and the text of text spans. Every other kind of node is
//! `Other` and is passed over.

use crate::converter::docx_tree::{body_model, document_nodes};
use crate::error::{ConvertError, ErrorModel, SourceKind};
use crate::text::{blank, is_blank};
use vstd::prelude::*;
use vstd::string::StringExecFns;

verus! {

/// What is kept of a word-processing document: its paragraphs and its tables,
/// each in document order. A table is a sequence of rows, a row a sequence of cells.
#[derive(Clone, Debug, PartialEq, Eq)]
pub struct DocxContent {
    /// The text of each paragraph.
    pub paragraphs: Vec<String>,
    /// The tables: rows of cells.
    pub tables: Vec<Vec<Vec<String>>>,
}

/// The mathematical value of a [`DocxContent`].
pub struct DocumentModel {
    pub paragraphs: Seq<Seq<char>>,
    pub tables: Seq<Seq<Seq<Seq<char>>>>,
}

impl View for DocxContent {
    type V = DocumentModel;

    open spec fn view(&self) -> DocumentModel {
        DocumentModel { paragraphs: self.paragraphs.deep_view(), tables: self.tables.deep_view() }
    }
}

impl DocumentModel {
    /// What a reader may hand out: no paragraph is blank, no table is without
    /// rows, and no row is without cells.
    pub open spec fn wf(self) -> bool {
        &&& forall|i: int| 0 <= i < self.paragraphs.len() ==> !is_blank(#[trigger] self.paragraphs[i])
        &&& forall|t: int| 0 <= t < self.tables.len() ==> (#[trigger] self.tables[t]).len() > 0
        &&& forall|t: int, r: int|
            0 <= t < self.tables.len() && 0 <= r < self.tables[t].len() ==> (
            #[trigger] self.tables[t][r]).len() > 0
    }
}

impl Default for DocxContent {
    /// A document without paragraphs and tables.
    fn default() -> (content: DocxContent)
        ensures
            content@.paragraphs.len() == 0,
            content@.tables.len() == 0,
    {
        DocxContent { paragraphs: Vec::new(), tables: Vec::new() }
    }
}

/// A child of a run.
#[derive(Clone, Debug, PartialEq, Eq)]
pub enum RunNode {
    /// A span of text.
    Text(String),
    /// Any other kind of node.
    Other,
}

/// A child of a paragraph.
#[derive(Clone, Debug, PartialEq, Eq)]
pub enum ParagraphNode {
    /// A run, with its children.
    Run(Vec<RunNode>),
    /// Any other kind of node.
    Other,
}

/// A child of a table cell.
#[derive(Clone, Debug, PartialEq, Eq)]
pub enum CellNode {
    /// A paragraph, with its children.
    Paragraph(Vec<ParagraphNode>),
    /// Any other kind of node.
    Other,
}

/// A table cell, with its children.
#[derive(Clone, Debug, PartialEq, Eq)]
pub struct TableCellNode {
    pub children: Vec<CellNode>,
}

/// A table row, with its cells.
#[derive(Clone, Debug, PartialEq, Eq)]
pub struct TableRowNode {
    pub cells: Vec<TableCellNode>,
}

/// A child of the document body.
#[derive(Clone, Debug, PartialEq, Eq)]
pub enum DocumentNode {
    /// A paragraph, with its children.
    Paragraph(Vec<ParagraphNode>),
    /// A table, with its rows.
    Table(Vec<TableRowNode>),
    /// Any other kind of node.
    Other,
}

/// The mathematical value of a [`RunNode`].
pub enum RunModel {
    Text(Seq<char>),
    Other,
}

/// The mathematical value of a [`ParagraphNode`].
pub enum ParagraphModel {
    Run(Seq<RunModel>),
    Other,
}

/// The mathematical value of a [`CellNode`].
pub enum CellModel {
    Paragraph(Seq<ParagraphModel>),
    Other,
}

/// The mathematical value of a [`DocumentNode`]. A table is a sequence of
/// rows, a row a sequence of cells, a cell the sequence of its children.
pub enum NodeModel {
    Paragraph(Seq<ParagraphModel>),
    Table(Seq<Seq<Seq<CellModel>>>),
    Other,
}

impl View for RunNode {
    type V = RunModel;

    open spec fn view(&self) -> RunModel {
        match self {
            RunNode::Text(text) => RunModel::Text(text@),
            RunNode::Other => RunModel::Other,
        }
    }
}

impl DeepView for RunNode {
    type V = RunModel;

    open spec fn deep_view(&self) -> RunModel {
        self@
    }
}

impl View for ParagraphNode {
    type V = ParagraphModel;

    open spec fn view(&self) -> ParagraphModel {
        match self {
            ParagraphNode::Run(children) => ParagraphModel::Run(children.deep_view()),
            ParagraphNode::Other => ParagraphModel::Other,
        }
    }
}

impl DeepView for ParagraphNode {
    type V = ParagraphModel;

    open spec fn deep_view(&self) -> ParagraphModel {
        self@
    }
}

impl View for CellNode {
    type V = CellModel;

    open spec fn view(&self) -> CellModel {
        match self {
            CellNode::Paragraph(children) => CellModel::Paragraph(children.deep_view()),
            CellNode::Other => CellModel::Other,
        }
    }
}

impl DeepView for CellNode {
    type V = CellModel;

    open spec fn deep_view(&self) -> CellModel {
        self@
    }
}

impl View for TableCellNode {
    type V = Seq<CellModel>;

    open spec fn view(&self) -> Seq<CellModel> {
        self.children.deep_view()
    }
}

impl DeepView for TableCellNode {
    type V = Seq<CellModel>;

    open spec fn deep_view(&self) -> Seq<CellModel> {
        self@
    }
}

impl View for TableRowNode {
    type V = Seq<Seq<CellModel>>;

    open spec fn view(&self) -> Seq<Seq<CellModel>> {
        self.cells.deep_view()
    }
}

impl DeepView for TableRowNode {
    type V = Seq<Seq<CellModel>>;

    open spec fn deep_view(&self) -> Seq<Seq<CellModel>> {
        self@
    }
}

impl View for DocumentNode {
    type V = NodeModel;

    open spec fn view(&self) -> NodeModel {
        match self {
            DocumentNode::Paragraph(children) => NodeModel::Paragraph(children.deep_view()),
            DocumentNode::Table(rows) => NodeModel::Table(rows.deep_view()),
            DocumentNode::Other => NodeModel::Other,
        }
    }
}

impl DeepView for DocumentNode {
    type V = NodeModel;

    open spec fn deep_view(&self) -> NodeModel {
        self@
    }
}

/// The text of a run: its text spans, one after the other.
pub open spec fn run_text(children: Seq<RunModel>) -> Seq<char>
    decreases children.len(),
{
    if children.len() == 0 {
        Seq::empty()
    } else {
        run_text(children.drop_last()) + match children.last() {
            RunModel::Text(text) => text,
            RunModel::Other => Seq::empty(),
        }
    }
}

/// The text of a paragraph: the text of its runs, one after the other.
pub open spec fn paragraph_text(children: Seq<ParagraphModel>) -> Seq<char>
    decreases children.len(),
{
    if children.len() == 0 {
        Seq::empty()
    } else {
        paragraph_text(children.drop_last()) + match children.last() {
            ParagraphModel::Run(run) => run_text(run),
            ParagraphModel::Other => Seq::empty(),
        }
    }
}

/// The text of a table cell: the text of its paragraphs, one after the other.
pub open spec fn cell_text(children: Seq<CellModel>) -> Seq<char>
    decreases children.len(),
{
    if children.len() == 0 {
        Seq::empty()
    } else {
        cell_text(children.drop_last()) + match children.last() {
            CellModel::Paragraph(paragraph) => paragraph_text(paragraph),
            CellModel::Other => Seq::empty(),
        }
    }
}

/// The cells of a table row, each as its text.
pub open spec fn row_cells(cells: Seq<Seq<CellModel>>) -> Seq<Seq<char>> {
    Seq::new(cells.len(), |c: int| cell_text(cells[c]))
}

/// The rows of a table that have at least one cell.
pub open spec fn table_rows(rows: Seq<Seq<Seq<CellModel>>>) -> Seq<Seq<Seq<char>>>
    decreases rows.len(),
{
    if rows.len() == 0 {
        Seq::empty()
    } else if rows.last().len() == 0 {
        table_rows(rows.drop_last())
    } else {
        table_rows(rows.drop_last()).push(row_cells(rows.last()))
    }
}

/// The paragraphs of a document body that are not blank, each as its text.
pub open spec fn body_paragraphs(nodes: Seq<NodeModel>) -> Seq<Seq<char>>
    decreases nodes.len(),
{
    if nodes.len() == 0 {
        Seq::empty()
    } else {
        match nodes.last() {
            NodeModel::Paragraph(children) => if is_blank(paragraph_text(children)) {
                body_paragraphs(nodes.drop_last())
            } else {
                body_paragraphs(nodes.drop_last()).push(paragraph_text(children))
            },
            _ => body_paragraphs(nodes.drop_last()),
        }
    }
}

/// The tables of a document body that have at least one row with a cell.
pub open spec fn body_tables(nodes: Seq<NodeModel>) -> Seq<Seq<Seq<Seq<char>>>>
    decreases nodes.len(),
{
    if nodes.len() == 0 {
        Seq::empty()
    } else {
        match nodes.last() {
            NodeModel::Table(rows) => if table_rows(rows).len() == 0 {
                body_tables(nodes.drop_last())
            } else {
                body_tables(nodes.drop_last()).push(table_rows(rows))
            },
            _ => body_tables(nodes.drop_last()),
        }
    }
}

/// The content of a document body.
pub open spec fn content_of(nodes: Seq<NodeModel>) -> DocumentModel {
    DocumentModel { paragraphs: body_paragraphs(nodes), tables: body_tables(nodes) }
}

/// Appends the text of a run.
fn append_run_text(text: &mut String, children: &Vec<RunNode>)
    ensures
        final(text)@ == old(text)@ + run_text(children.deep_view()),
{
    let ghost models = children.deep_view();
    let mut i: usize = 0;
    while i < children.len()
        invariant
            i <= children@.len(),
            models == children.deep_view(),
            text@ == old(text)@ + run_text(models.take(i as int)),
        decreases children@.len() - i,
    {
        proof {
            assert(models.take(i + 1).drop_last() == models.take(i as int));
            assert(models.take(i + 1).last() == children@[i as int]@);
        }
        match &children[i] {
            RunNode::Text(span) => {
                text.append(span.as_str());
            },
            RunNode::Other => {},
        }
        i = i + 1;
    }
    proof {
        assert(models.take(children@.len() as int) == models);
    }
}

/// Appends the text of a paragraph.
fn append_paragraph_text(text: &mut String, children: &Vec<ParagraphNode>)
    ensures
        final(text)@ == old(text)@ + paragraph_text(children.deep_view()),
{
    let ghost models = children.deep_view();
    let mut i: usize = 0;
    while i < children.len()
        invariant
            i <= children@.len(),
            models == children.deep_view(),
            text@ == old(text)@ + paragraph_text(models.take(i as int)),
        decreases children@.len() - i,
    {
        proof {
            assert(models.take(i + 1).drop_last() == models.take(i as int));
            assert(models.take(i + 1).last() == children@[i as int]@);
        }
        match &children[i] {
            ParagraphNode::Run(run) => {
                append_run_text(text, run);
            },
            ParagraphNode::Other => {},
        }
        i = i + 1;
    }
    proof {
        assert(models.take(children@.len() as int) == models);
    }
}

/// The text of a table cell.
fn text_of_cell(children: &Vec<CellNode>) -> (text: String)
    ensures
        text@ == cell_text(children.deep_view()),
{
    let ghost models = children.deep_view();
    let mut text = String::new();
    let mut i: usize = 0;
    while i < children.len()
        invariant
            i <= children@.len(),
            models == children.deep_view(),
            text@ == cell_text(models.take(i as int)),
        decreases children@.len() - i,
    {
        proof {
            assert(models.take(i + 1).drop_last() == models.take(i as int));
            assert(models.take(i + 1).last() == children@[i as int]@);
        }
        match &children[i] {
            CellNode::Paragraph(paragraph) => {
                append_paragraph_text(&mut text, paragraph);
            },
            CellNode::Other => {},
        }
        i = i + 1;
    }
    proof {
        assert(models.take(children@.len() as int) == models);
    }
    text
}

/// The cells of a table row, each as its text.
fn cells_of_row(cells: &Vec<TableCellNode>) -> (texts: Vec<String>)
    ensures
        texts.deep_view() == row_cells(cells.deep_view()),
{
    let ghost wanted = row_cells(cells.deep_view());
    let mut texts: Vec<String> = Vec::new();
    let mut i: usize = 0;
    while i < cells.len()
        invariant
            i <= cells@.len(),
            wanted == row_cells(cells.deep_view()),
            texts.deep_view() == wanted.take(i as int),
        decreases cells@.len() - i,
    {
        let text = text_of_cell(&cells[i].children);
        let ghost before = texts.deep_view();
        texts.push(text);
        proof {
            assert(cells.deep_view()[i as int] == cells@[i as int].children.deep_view());
            assert(texts.deep_view() =~= before.push(text@));
            assert(wanted.take(i + 1) =~= wanted.take(i as int).push(wanted[i as int]));
        }
        i = i + 1;
    }
    proof {
        assert(wanted.take(cells@.len() as int) == wanted);
    }
    texts
}

/// The rows of a table that have at least one cell.
fn rows_of_table(rows: &Vec<TableRowNode>) -> (table: Vec<Vec<String>>)
    ensures
        table.deep_view() == table_rows(rows.deep_view()),
{
    let ghost models = rows.deep_view();
    let mut table: Vec<Vec<String>> = Vec::new();
    let mut i: usize = 0;
    while i < rows.len()
        invariant
            i <= rows@.len(),
            models == rows.deep_view(),
            table.deep_view() == table_rows(models.take(i as int)),
        decreases rows@.len() - i,
    {
        proof {
            assert(models.take(i + 1).drop_last() == models.take(i as int));
            assert(models.take(i + 1).last() == rows@[i as int].cells.deep_view());
            assert(rows@[i as int].cells.deep_view().len() == rows@[i as int].cells@.len());
        }
        if rows[i].cells.len() > 0 {
            let texts = cells_of_row(&rows[i].cells);
            let ghost before = table.deep_view();
            table.push(texts);
            proof {
                assert(table.deep_view() =~= before.push(
                    row_cells(rows@[i as int].cells.deep_view()),
                ));
            }
        }
        i = i + 1;
    }
    proof {
        assert(models.take(rows@.len() as int) == models);
    }
    table
}

/// The content of a document body: the text of each paragraph that is not
/// blank, and each table that has a row with a cell, both in document order.
pub fn content_from_nodes(nodes: &Vec<DocumentNode>) -> (content: DocxContent)
    ensures
        content@ == content_of(nodes.deep_view()),
        content@.wf(),
{
    let ghost models = nodes.deep_view();
    let mut content = DocxContent { paragraphs: Vec::new(), tables: Vec::new() };
    let mut i: usize = 0;
    while i < nodes.len()
        invariant
            i <= nodes@.len(),
            models == nodes.deep_view(),
            content.paragraphs.deep_view() == body_paragraphs(models.take(i as int)),
            content.tables.deep_view() == body_tables(models.take(i as int)),
        decreases nodes@.len() - i,
    {
        proof {
            assert(models.take(i + 1).drop_last() == models.take(i as int));
            assert(models.take(i + 1).last() == nodes@[i as int]@);
        }
        match &nodes[i] {
            DocumentNode::Paragraph(children) => {
                let mut text = String::new();
                append_paragraph_text(&mut text, children);
                assert(text@ == paragraph_text(children.deep_view()));
                if !blank(text.as_str()) {
                    let ghost before = content.paragraphs.deep_view();
                    content.paragraphs.push(text);
                    proof {
                        assert(content.paragraphs.deep_view() =~= before.push(text@));
                    }
                }
            },
            DocumentNode::Table(rows) => {
                let table = rows_of_table(rows);
                if table.len() > 0 {
                    let ghost before = content.tables.deep_view();
                    content.tables.push(table);
                    proof {
                        assert(content.tables.deep_view() =~= before.push(
                            table_rows(rows.deep_view()),
                        ));
                    }
                }
            },
            DocumentNode::Other => {},
        }
        i = i + 1;
    }
    proof {
        assert(models.take(nodes@.len() as int) == models);
        extracted_content_is_well_formed(models);
    }
    content
}

/// Reads the content of a document that `docx_rs::read_docx` was asked to
/// parse: its paragraphs that are not blank and its tables that have a row
/// with a cell, both in document order. A container that could not be parsed
/// is a format error.
pub fn extract_content(parsed: &Result<docx_rs::Docx, docx_rs::ReaderError>) -> (r: Result<
    DocxContent,
    ConvertError,
>)
    ensures
        parsed is Ok ==> r is Ok && r->Ok_0@ == content_of(body_model(parsed->Ok_0)),
        parsed is Err ==> r is Err && r->Err_0@ == ErrorModel::FormatError(SourceKind::Word),
        r is Ok ==> r->Ok_0@.wf(),
{
    match parsed {
        Ok(docx) => {
            let nodes = document_nodes(docx);
            Ok(content_from_nodes(&nodes))
        },
        Err(_) => Err(ConvertError::FormatError(SourceKind::Word)),
    }
}

/// Every row that a table keeps has at least one cell.
pub proof fn lemma_table_rows_have_cells(rows: Seq<Seq<Seq<CellModel>>>)
    ensures
        forall|r: int| 0 <= r < table_rows(rows).len() ==> (#[trigger] table_rows(rows)[r]).len() > 0,
    decreases rows.len(),
{
    if rows.len() > 0 {
        let front = table_rows(rows.drop_last());
        lemma_table_rows_have_cells(rows.drop_last());
        assert forall|r: int| 0 <= r < table_rows(rows).len() implies (#[trigger] table_rows(
            rows,
        )[r]).len() > 0 by {
            if r < front.len() {
                assert(table_rows(rows)[r] == front[r]);
            }
        }
    }
}

/// Whatever the nodes of a document body are, the content that is extracted
/// from them has no blank paragraph, no table without rows and no row without
/// cells.
pub proof fn extracted_content_is_well_formed(nodes: Seq<NodeModel>)
    ensures
        content_of(nodes).wf(),
    decreases nodes.len(),
{
    if nodes.len() > 0 {
        let front = nodes.drop_last();
        extracted_content_is_well_formed(front);
        let whole = content_of(nodes);
        let part = content_of(front);
        assert forall|i: int| 0 <= i < whole.paragraphs.len() implies !is_blank(
            #[trigger] whole.paragraphs[i],
        ) by {
            if i < part.paragraphs.len() {
                assert(whole.paragraphs[i] == part.paragraphs[i]);
            }
        }
        match nodes.last() {
            NodeModel::Table(rows) => {
                lemma_table_rows_have_cells(rows);
            },
            _ => {},
        }
        assert forall|t: int| 0 <= t < whole.tables.len() implies (#[trigger] whole.tables[t]).len()
            > 0 by {
            if t < part.tables.len() {
                assert(whole.tables[t] == part.tables[t]);
            }
        }
        assert forall|t: int, r: int|
            0 <= t < whole.tables.len() && 0 <= r < whole.tables[t].len() implies (
        #[trigger] whole.tables[t][r]).len() > 0 by {
            if t < part.tables.len() {
                assert(whole.tables[t] == part.tables[t]);
                assert(part.tables[t][r].len() > 0);
            }
        }
    }
}

} // verus!
