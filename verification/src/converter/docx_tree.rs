//! The node tree of a document that `docx_rs` has parsed, copied node for node
//! into the node types of the reader.
//!
//! The nodes of `docx_rs` are opaque here. What a node holds, as far as the
//! reader looks at it, has a name; each accessor below hands out the children
//! of one kind of node, or nothing for a node of another kind, and says so
//! over those names. The loops over the children are this module's own. The
//! parsing itself is left to the caller: `docx_rs::read_docx` does not return
//! on every container, so no call of it stands in this library.

use crate::converter::docx_reader::{
    CellModel,
    CellNode,
    DocumentNode,
    NodeModel,
    ParagraphModel,
    ParagraphNode,
    RunModel,
    RunNode,
    TableCellNode,
    TableRowNode,
};
use vstd::prelude::*;

verus! {

/// A parsed document: `docx_rs::Docx`.
#[verifier::external_type_specification]
#[verifier::external_body]
pub struct ExDocx(docx_rs::Docx);

/// The error of `docx_rs::read_docx`: `docx_rs::ReaderError`.
#[verifier::external_type_specification]
#[verifier::external_body]
pub struct ExReaderError(docx_rs::ReaderError);

/// A child of the document body: `docx_rs::DocumentChild`.
#[verifier::external_type_specification]
#[verifier::external_body]
pub struct ExDocumentChild(docx_rs::DocumentChild);

/// A child of a paragraph: `docx_rs::ParagraphChild`.
#[verifier::external_type_specification]
#[verifier::external_body]
pub struct ExParagraphChild(docx_rs::ParagraphChild);

/// A child of a run: `docx_rs::RunChild`.
#[verifier::external_type_specification]
#[verifier::external_body]
pub struct ExRunChild(docx_rs::RunChild);

/// A child of a table, which is a row: `docx_rs::TableChild`.
#[verifier::external_type_specification]
#[verifier::external_body]
pub struct ExTableChild(docx_rs::TableChild);

/// A child of a table row, which is a cell: `docx_rs::TableRowChild`.
#[verifier::external_type_specification]
#[verifier::external_body]
pub struct ExTableRowChild(docx_rs::TableRowChild);

/// A child of a table cell: `docx_rs::TableCellContent`.
#[verifier::external_type_specification]
#[verifier::external_body]
pub struct ExTableCellContent(docx_rs::TableCellContent);

/// What a child of a run holds: its text where it is a text span.
pub uninterp spec fn run_child_model(child: docx_rs::RunChild) -> RunModel;

/// What a child of a paragraph holds: its children where it is a run.
pub uninterp spec fn paragraph_child_model(child: docx_rs::ParagraphChild) -> ParagraphModel;

/// What a child of a table cell holds: its children where it is a paragraph.
pub uninterp spec fn cell_content_model(child: docx_rs::TableCellContent) -> CellModel;

/// What a table cell holds: its children.
pub uninterp spec fn cell_model(cell: docx_rs::TableRowChild) -> Seq<CellModel>;

/// What a table row holds: its cells.
pub uninterp spec fn row_model(row: docx_rs::TableChild) -> Seq<Seq<CellModel>>;

/// What a child of the document body holds: its children where it is a
/// paragraph, its rows where it is a table.
pub uninterp spec fn body_child_model(child: docx_rs::DocumentChild) -> NodeModel;

/// What the body of a parsed document holds: its children.
pub uninterp spec fn body_model(docx: docx_rs::Docx) -> Seq<NodeModel>;

/// What the children of a run hold, one for one.
pub open spec fn run_models(children: Seq<docx_rs::RunChild>) -> Seq<RunModel> {
    Seq::new(children.len(), |i: int| run_child_model(children[i]))
}

/// What the children of a paragraph hold, one for one.
pub open spec fn paragraph_models(children: Seq<docx_rs::ParagraphChild>) -> Seq<ParagraphModel> {
    Seq::new(children.len(), |i: int| paragraph_child_model(children[i]))
}

/// What the children of a table cell hold, one for one.
pub open spec fn content_models(children: Seq<docx_rs::TableCellContent>) -> Seq<CellModel> {
    Seq::new(children.len(), |i: int| cell_content_model(children[i]))
}

/// What the cells of a table row hold, one for one.
pub open spec fn cell_models(cells: Seq<docx_rs::TableRowChild>) -> Seq<Seq<CellModel>> {
    Seq::new(cells.len(), |i: int| cell_model(cells[i]))
}

/// What the rows of a table hold, one for one.
pub open spec fn row_models(rows: Seq<docx_rs::TableChild>) -> Seq<Seq<Seq<CellModel>>> {
    Seq::new(rows.len(), |i: int| row_model(rows[i]))
}

/// What the children of a document body hold, one for one.
pub open spec fn body_models(children: Seq<docx_rs::DocumentChild>) -> Seq<NodeModel> {
    Seq::new(children.len(), |i: int| body_child_model(children[i]))
}

/// The children of the document body.
///
/// Hands out the field `document.children` of a `docx_rs::Docx`; the body
/// holds what these children hold.
#[verifier::external_body]
fn body_children(docx: &docx_rs::Docx) -> (children: &Vec<docx_rs::DocumentChild>)
    ensures
        body_model(*docx) == body_models(children@),
{
    &docx.document.children
}

/// The children of a body node that is a paragraph.
///
/// Hands out the field `children` of the `Paragraph` variant of
/// `docx_rs::DocumentChild`, and nothing for any other variant.
#[verifier::external_body]
fn paragraph_of(child: &docx_rs::DocumentChild) -> (children: Option<&Vec<docx_rs::ParagraphChild>>)
    ensures
        match children {
            Some(children) => body_child_model(*child) == NodeModel::Paragraph(
                paragraph_models(children@),
            ),
            None => !(body_child_model(*child) is Paragraph),
        },
{
    match child {
        docx_rs::DocumentChild::Paragraph(paragraph) => Some(&paragraph.children),
        _ => None,
    }
}

/// The rows of a body node that is a table.
///
/// Hands out the field `rows` of the `Table` variant of
/// `docx_rs::DocumentChild`, and nothing for any other variant.
#[verifier::external_body]
fn table_of(child: &docx_rs::DocumentChild) -> (rows: Option<&Vec<docx_rs::TableChild>>)
    ensures
        match rows {
            Some(rows) => body_child_model(*child) == NodeModel::Table(row_models(rows@)),
            None => !(body_child_model(*child) is Table),
        },
{
    match child {
        docx_rs::DocumentChild::Table(table) => Some(&table.rows),
        _ => None,
    }
}

/// The children of a paragraph node that is a run.
///
/// Hands out the field `children` of the `Run` variant of
/// `docx_rs::ParagraphChild`, and nothing for any other variant.
#[verifier::external_body]
fn run_of(child: &docx_rs::ParagraphChild) -> (children: Option<&Vec<docx_rs::RunChild>>)
    ensures
        match children {
            Some(children) => paragraph_child_model(*child) == ParagraphModel::Run(
                run_models(children@),
            ),
            None => paragraph_child_model(*child) == ParagraphModel::Other,
        },
{
    match child {
        docx_rs::ParagraphChild::Run(run) => Some(&run.children),
        _ => None,
    }
}

/// The text of a run node that is a text span.
///
/// Hands out the field `text` of the `Text` variant of `docx_rs::RunChild`,
/// and nothing for any other variant.
#[verifier::external_body]
fn text_of(child: &docx_rs::RunChild) -> (text: Option<&String>)
    ensures
        match text {
            Some(text) => run_child_model(*child) == RunModel::Text(text@),
            None => run_child_model(*child) == RunModel::Other,
        },
{
    match child {
        docx_rs::RunChild::Text(span) => Some(&span.text),
        _ => None,
    }
}

/// The cells of a table row.
///
/// Hands out the field `cells` of the one variant of `docx_rs::TableChild`.
#[verifier::external_body]
fn cells_of(row: &docx_rs::TableChild) -> (cells: &Vec<docx_rs::TableRowChild>)
    ensures
        row_model(*row) == cell_models(cells@),
{
    match row {
        docx_rs::TableChild::TableRow(row) => &row.cells,
    }
}

/// The children of a table cell.
///
/// Hands out the field `children` of the one variant of
/// `docx_rs::TableRowChild`.
#[verifier::external_body]
fn cell_children(cell: &docx_rs::TableRowChild) -> (children: &Vec<docx_rs::TableCellContent>)
    ensures
        cell_model(*cell) == content_models(children@),
{
    match cell {
        docx_rs::TableRowChild::TableCell(cell) => &cell.children,
    }
}

/// The children of a cell node that is a paragraph.
///
/// Hands out the field `children` of the `Paragraph` variant of
/// `docx_rs::TableCellContent`, and nothing for any other variant.
#[verifier::external_body]
fn cell_paragraph_of(child: &docx_rs::TableCellContent) -> (children: Option<
    &Vec<docx_rs::ParagraphChild>,
>)
    ensures
        match children {
            Some(children) => cell_content_model(*child) == CellModel::Paragraph(
                paragraph_models(children@),
            ),
            None => cell_content_model(*child) == CellModel::Other,
        },
{
    match child {
        docx_rs::TableCellContent::Paragraph(paragraph) => Some(&paragraph.children),
        _ => None,
    }
}

/// Copies the children of a run.
fn run_nodes(children: &Vec<docx_rs::RunChild>) -> (nodes: Vec<RunNode>)
    ensures
        nodes.deep_view() == run_models(children@),
{
    let ghost wanted = run_models(children@);
    let mut nodes: Vec<RunNode> = Vec::new();
    let mut i: usize = 0;
    while i < children.len()
        invariant
            i <= children@.len(),
            wanted == run_models(children@),
            nodes.deep_view() == wanted.take(i as int),
        decreases children@.len() - i,
    {
        let node = match text_of(&children[i]) {
            Some(text) => RunNode::Text(text.clone()),
            None => RunNode::Other,
        };
        let ghost before = nodes.deep_view();
        nodes.push(node);
        proof {
            assert(nodes.deep_view() =~= before.push(node@));
            assert(wanted.take(i + 1) =~= wanted.take(i as int).push(wanted[i as int]));
        }
        i = i + 1;
    }
    proof {
        assert(wanted.take(children@.len() as int) == wanted);
    }
    nodes
}

/// Copies the children of a paragraph.
fn paragraph_nodes(children: &Vec<docx_rs::ParagraphChild>) -> (nodes: Vec<ParagraphNode>)
    ensures
        nodes.deep_view() == paragraph_models(children@),
{
    let ghost wanted = paragraph_models(children@);
    let mut nodes: Vec<ParagraphNode> = Vec::new();
    let mut i: usize = 0;
    while i < children.len()
        invariant
            i <= children@.len(),
            wanted == paragraph_models(children@),
            nodes.deep_view() == wanted.take(i as int),
        decreases children@.len() - i,
    {
        let node = match run_of(&children[i]) {
            Some(run) => ParagraphNode::Run(run_nodes(run)),
            None => ParagraphNode::Other,
        };
        let ghost before = nodes.deep_view();
        nodes.push(node);
        proof {
            assert(nodes.deep_view() =~= before.push(node@));
            assert(wanted.take(i + 1) =~= wanted.take(i as int).push(wanted[i as int]));
        }
        i = i + 1;
    }
    proof {
        assert(wanted.take(children@.len() as int) == wanted);
    }
    nodes
}

/// Copies the children of a table cell.
fn cell_nodes(children: &Vec<docx_rs::TableCellContent>) -> (nodes: Vec<CellNode>)
    ensures
        nodes.deep_view() == content_models(children@),
{
    let ghost wanted = content_models(children@);
    let mut nodes: Vec<CellNode> = Vec::new();
    let mut i: usize = 0;
    while i < children.len()
        invariant
            i <= children@.len(),
            wanted == content_models(children@),
            nodes.deep_view() == wanted.take(i as int),
        decreases children@.len() - i,
    {
        let node = match cell_paragraph_of(&children[i]) {
            Some(paragraph) => CellNode::Paragraph(paragraph_nodes(paragraph)),
            None => CellNode::Other,
        };
        let ghost before = nodes.deep_view();
        nodes.push(node);
        proof {
            assert(nodes.deep_view() =~= before.push(node@));
            assert(wanted.take(i + 1) =~= wanted.take(i as int).push(wanted[i as int]));
        }
        i = i + 1;
    }
    proof {
        assert(wanted.take(children@.len() as int) == wanted);
    }
    nodes
}

/// Copies the cells of a table row.
fn row_node(cells: &Vec<docx_rs::TableRowChild>) -> (row: TableRowNode)
    ensures
        row@ == cell_models(cells@),
{
    let ghost wanted = cell_models(cells@);
    let mut nodes: Vec<TableCellNode> = Vec::new();
    let mut i: usize = 0;
    while i < cells.len()
        invariant
            i <= cells@.len(),
            wanted == cell_models(cells@),
            nodes.deep_view() == wanted.take(i as int),
        decreases cells@.len() - i,
    {
        let node = TableCellNode { children: cell_nodes(cell_children(&cells[i])) };
        let ghost before = nodes.deep_view();
        nodes.push(node);
        proof {
            assert(nodes.deep_view() =~= before.push(node@));
            assert(wanted.take(i + 1) =~= wanted.take(i as int).push(wanted[i as int]));
        }
        i = i + 1;
    }
    proof {
        assert(wanted.take(cells@.len() as int) == wanted);
    }
    TableRowNode { cells: nodes }
}

/// Copies the rows of a table.
fn table_nodes(rows: &Vec<docx_rs::TableChild>) -> (nodes: Vec<TableRowNode>)
    ensures
        nodes.deep_view() == row_models(rows@),
{
    let ghost wanted = row_models(rows@);
    let mut nodes: Vec<TableRowNode> = Vec::new();
    let mut i: usize = 0;
    while i < rows.len()
        invariant
            i <= rows@.len(),
            wanted == row_models(rows@),
            nodes.deep_view() == wanted.take(i as int),
        decreases rows@.len() - i,
    {
        let node = row_node(cells_of(&rows[i]));
        let ghost before = nodes.deep_view();
        nodes.push(node);
        proof {
            assert(nodes.deep_view() =~= before.push(node@));
            assert(wanted.take(i + 1) =~= wanted.take(i as int).push(wanted[i as int]));
        }
        i = i + 1;
    }
    proof {
        assert(wanted.take(rows@.len() as int) == wanted);
    }
    nodes
}

/// Copies the body of a parsed document: one node for each child of the body,
/// in document order.
pub fn document_nodes(docx: &docx_rs::Docx) -> (nodes: Vec<DocumentNode>)
    ensures
        nodes.deep_view() == body_model(*docx),
{
    let children = body_children(docx);
    let ghost wanted = body_models(children@);
    let mut nodes: Vec<DocumentNode> = Vec::new();
    let mut i: usize = 0;
    while i < children.len()
        invariant
            i <= children@.len(),
            wanted == body_models(children@),
            nodes.deep_view() == wanted.take(i as int),
        decreases children@.len() - i,
    {
        let node = match paragraph_of(&children[i]) {
            Some(paragraph) => DocumentNode::Paragraph(paragraph_nodes(paragraph)),
            None => match table_of(&children[i]) {
                Some(rows) => DocumentNode::Table(table_nodes(rows)),
                None => DocumentNode::Other,
            },
        };
        let ghost before = nodes.deep_view();
        nodes.push(node);
        proof {
            assert(nodes.deep_view() =~= before.push(node@));
            assert(wanted.take(i + 1) =~= wanted.take(i as int).push(wanted[i as int]));
        }
        i = i + 1;
    }
    proof {
        assert(wanted.take(children@.len() as int) == wanted);
    }
    nodes
}

} // verus!
