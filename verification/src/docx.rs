use crate::buffer::{
    append_all, append_outcome, lemma_append_all_concat, lemma_append_all_push, sufficiency,
    TextBuffer,
};
use crate::error::{outcome_view, ExtractError, ExtractErrorView, ParseStage};
use crate::text::{line_break, tab_stop};
use vstd::prelude::*;

verus! {

/// One piece of a run.
#[derive(Debug)]
pub enum RunItem {
    /// Literal text.
    Text(String),
    /// A line break.
    Break,
    /// A tab stop.
    Tab,
    /// Anything else a run may hold (drawings, field codes, ...).
    Other,
}

/// One piece of a paragraph.
#[derive(Debug)]
pub enum ParagraphItem {
    /// A run, as the sequence of its pieces.
    Run(Vec<RunItem>),
    /// Anything else a paragraph may hold (bookmarks, hyperlinks, ...).
    Other,
}

/// A paragraph.
#[derive(Debug)]
pub struct ParagraphNode {
    pub children: Vec<ParagraphItem>,
}

/// One piece of a table cell.
#[derive(Debug)]
pub enum CellItem {
    /// A paragraph that stands directly in the cell.
    Paragraph(ParagraphNode),
    /// Anything else a cell may hold (a nested table, ...).
    Other,
}

/// A table cell.
#[derive(Debug)]
pub struct CellNode {
    pub children: Vec<CellItem>,
}

/// A table row.
#[derive(Debug)]
pub struct RowNode {
    pub cells: Vec<CellNode>,
}

/// A table.
#[derive(Debug)]
pub struct TableNode {
    pub rows: Vec<RowNode>,
}

/// One node of a document body.
#[derive(Debug)]
pub enum BodyNode {
    Paragraph(ParagraphNode),
    Table(TableNode),
    /// Anything else a body may hold (bookmarks, section marks, ...).
    Other,
}

/// Mathematical value of a [`RunItem`].
pub enum RunPiece {
    Text(Seq<char>),
    Break,
    Tab,
    Other,
}

/// Mathematical value of a [`ParagraphItem`].
pub enum ParagraphPiece {
    Run(Seq<RunPiece>),
    Other,
}

/// Mathematical value of a [`CellItem`]; a paragraph is the sequence of its pieces.
pub enum CellPiece {
    Paragraph(Seq<ParagraphPiece>),
    Other,
}

/// Mathematical value of a [`BodyNode`]; a table is its rows, a row its
/// cells, a cell the sequence of its pieces.
pub enum BodyPiece {
    Paragraph(Seq<ParagraphPiece>),
    Table(Seq<Seq<Seq<CellPiece>>>),
    Other,
}

impl DeepView for RunItem {
    type V = RunPiece;

    open spec fn deep_view(&self) -> RunPiece {
        match self {
            RunItem::Text(text) => RunPiece::Text(text@),
            RunItem::Break => RunPiece::Break,
            RunItem::Tab => RunPiece::Tab,
            RunItem::Other => RunPiece::Other,
        }
    }
}

impl DeepView for ParagraphItem {
    type V = ParagraphPiece;

    open spec fn deep_view(&self) -> ParagraphPiece {
        match self {
            ParagraphItem::Run(run) => ParagraphPiece::Run(run.deep_view()),
            ParagraphItem::Other => ParagraphPiece::Other,
        }
    }
}

impl DeepView for ParagraphNode {
    type V = Seq<ParagraphPiece>;

    open spec fn deep_view(&self) -> Seq<ParagraphPiece> {
        self.children.deep_view()
    }
}

impl DeepView for CellItem {
    type V = CellPiece;

    open spec fn deep_view(&self) -> CellPiece {
        match self {
            CellItem::Paragraph(paragraph) => CellPiece::Paragraph(paragraph.deep_view()),
            CellItem::Other => CellPiece::Other,
        }
    }
}

impl DeepView for CellNode {
    type V = Seq<CellPiece>;

    open spec fn deep_view(&self) -> Seq<CellPiece> {
        self.children.deep_view()
    }
}

impl DeepView for RowNode {
    type V = Seq<Seq<CellPiece>>;

    open spec fn deep_view(&self) -> Seq<Seq<CellPiece>> {
        self.cells.deep_view()
    }
}

impl DeepView for TableNode {
    type V = Seq<Seq<Seq<CellPiece>>>;

    open spec fn deep_view(&self) -> Seq<Seq<Seq<CellPiece>>> {
        self.rows.deep_view()
    }
}

impl DeepView for BodyNode {
    type V = BodyPiece;

    open spec fn deep_view(&self) -> BodyPiece {
        match self {
            BodyNode::Paragraph(paragraph) => BodyPiece::Paragraph(paragraph.deep_view()),
            BodyNode::Table(table) => BodyPiece::Table(table.deep_view()),
            BodyNode::Other => BodyPiece::Other,
        }
    }
}

/// What one piece of a run appends: its text, a line break or a tab stop;
/// other pieces append nothing.
pub open spec fn run_piece_text(piece: RunPiece) -> Seq<char> {
    match piece {
        RunPiece::Text(text) => text,
        RunPiece::Break => line_break(),
        RunPiece::Tab => tab_stop(),
        RunPiece::Other => Seq::empty(),
    }
}

/// The appends that a run makes, in order.
pub open spec fn run_appends(run: Seq<RunPiece>) -> Seq<Seq<char>>
    decreases run.len(),
{
    if run.len() == 0 {
        Seq::empty()
    } else {
        seq![run_piece_text(run.first())] + run_appends(run.drop_first())
    }
}

/// The appends that one piece of a paragraph makes: those of a run, none otherwise.
pub open spec fn paragraph_piece_appends(piece: ParagraphPiece) -> Seq<Seq<char>> {
    match piece {
        ParagraphPiece::Run(run) => run_appends(run),
        ParagraphPiece::Other => Seq::empty(),
    }
}

/// The appends that the pieces of a paragraph make, without the line break
/// that ends the paragraph.
pub open spec fn paragraph_content_appends(pieces: Seq<ParagraphPiece>) -> Seq<Seq<char>>
    decreases pieces.len(),
{
    if pieces.len() == 0 {
        Seq::empty()
    } else {
        paragraph_piece_appends(pieces.first()) + paragraph_content_appends(pieces.drop_first())
    }
}

/// The appends that a paragraph makes: its runs in order, then one line break.
pub open spec fn paragraph_appends(paragraph: Seq<ParagraphPiece>) -> Seq<Seq<char>> {
    paragraph_content_appends(paragraph).push(line_break())
}

/// The appends that one piece of a cell makes: those of a paragraph, none otherwise.
pub open spec fn cell_piece_appends(piece: CellPiece) -> Seq<Seq<char>> {
    match piece {
        CellPiece::Paragraph(paragraph) => paragraph_appends(paragraph),
        CellPiece::Other => Seq::empty(),
    }
}

/// The appends that the pieces of a cell make, without the tab stop that ends the cell.
pub open spec fn cell_content_appends(pieces: Seq<CellPiece>) -> Seq<Seq<char>>
    decreases pieces.len(),
{
    if pieces.len() == 0 {
        Seq::empty()
    } else {
        cell_piece_appends(pieces.first()) + cell_content_appends(pieces.drop_first())
    }
}

/// The appends that a cell makes: its paragraphs in order, then one tab stop.
pub open spec fn cell_appends(cell: Seq<CellPiece>) -> Seq<Seq<char>> {
    cell_content_appends(cell).push(tab_stop())
}

/// The appends that a row makes: its cells in order.
pub open spec fn row_appends(row: Seq<Seq<CellPiece>>) -> Seq<Seq<char>>
    decreases row.len(),
{
    if row.len() == 0 {
        Seq::empty()
    } else {
        cell_appends(row.first()) + row_appends(row.drop_first())
    }
}

/// The appends that the rows of a table make, without the line break that
/// ends the table.
pub open spec fn rows_appends(rows: Seq<Seq<Seq<CellPiece>>>) -> Seq<Seq<char>>
    decreases rows.len(),
{
    if rows.len() == 0 {
        Seq::empty()
    } else {
        row_appends(rows.first()) + rows_appends(rows.drop_first())
    }
}

/// The appends that a table makes: its rows in order, then one line break.
pub open spec fn table_appends(table: Seq<Seq<Seq<CellPiece>>>) -> Seq<Seq<char>> {
    rows_appends(table).push(line_break())
}

/// The appends that one node of the body makes.
pub open spec fn node_appends(node: BodyPiece) -> Seq<Seq<char>> {
    match node {
        BodyPiece::Paragraph(paragraph) => paragraph_appends(paragraph),
        BodyPiece::Table(table) => table_appends(table),
        BodyPiece::Other => Seq::empty(),
    }
}

/// The appends that a document body makes, depth first and in document order.
pub open spec fn body_appends(body: Seq<BodyPiece>) -> Seq<Seq<char>>
    decreases body.len(),
{
    if body.len() == 0 {
        Seq::empty()
    } else {
        node_appends(body.first()) + body_appends(body.drop_first())
    }
}

/// The text of a document body: every append is made under the size limit,
/// and the finished text must be long enough.
pub open spec fn body_outcome(body: Seq<BodyPiece>) -> Result<Seq<char>, ExtractErrorView> {
    match append_all(Seq::empty(), body_appends(body)) {
        Ok(text) => sufficiency(text),
        Err(e) => Err(e),
    }
}

/// How a call that makes the appends `pieces` on a buffer holding `before`
/// ends: with the buffer holding `after`, or with the error `r`.
pub open spec fn appended(
    before: Seq<char>,
    pieces: Seq<Seq<char>>,
    after: Seq<char>,
    r: Result<(), ExtractError>,
) -> bool {
    match append_all(before, pieces) {
        Ok(text) => r is Ok && after == text,
        Err(e) => r matches Err(err) && err@ == e,
    }
}

/// Appends a line break.
fn append_line_break(buf: &mut TextBuffer) -> (r: Result<(), ExtractError>)
    ensures
        match append_outcome(old(buf)@, line_break()) {
            Ok(text) => r is Ok && final(buf)@ == text,
            Err(e) => r matches Err(err) && err@ == e && final(buf)@ == old(buf)@,
        },
{
    proof {
        reveal_strlit("\n");
        assert("\n"@ =~= line_break());
    }
    buf.append("\n")
}

/// Appends a tab stop.
fn append_tab_stop(buf: &mut TextBuffer) -> (r: Result<(), ExtractError>)
    ensures
        match append_outcome(old(buf)@, tab_stop()) {
            Ok(text) => r is Ok && final(buf)@ == text,
            Err(e) => r matches Err(err) && err@ == e && final(buf)@ == old(buf)@,
        },
{
    proof {
        reveal_strlit("\t");
        assert("\t"@ =~= tab_stop());
    }
    buf.append("\t")
}

/// Appends what one piece of a run contributes.
fn append_run_child(buf: &mut TextBuffer, child: &RunItem) -> (r: Result<(), ExtractError>)
    ensures
        match append_outcome(old(buf)@, run_piece_text(child.deep_view())) {
            Ok(text) => r is Ok && final(buf)@ == text,
            Err(e) => r matches Err(err) && err@ == e,
        },
{
    match child {
        RunItem::Text(text) => buf.append(text.as_str()),
        RunItem::Break => append_line_break(buf),
        RunItem::Tab => append_tab_stop(buf),
        RunItem::Other => {
            let _held = buf.len();
            assert(buf@ + Seq::<char>::empty() =~= buf@);
            Ok(())
        },
    }
}

/// Appends the pieces of a run, in order.
fn append_run(buf: &mut TextBuffer, run: &Vec<RunItem>) -> (r: Result<(), ExtractError>)
    ensures
        appended(old(buf)@, run_appends(run.deep_view()), final(buf)@, r),
{
    let ghost pieces = run.deep_view();
    let mut i: usize = 0;
    assert(pieces.skip(0) =~= pieces);
    while i < run.len()
        invariant
            i <= run.len(),
            pieces == run.deep_view(),
            append_all(old(buf)@, run_appends(pieces)) == append_all(
                buf@,
                run_appends(pieces.skip(i as int)),
            ),
        decreases run.len() - i,
    {
        proof {
            let rest = pieces.skip(i as int);
            assert(rest.first() == run[i as int].deep_view());
            assert(rest.drop_first() =~= pieces.skip(i + 1));
            lemma_append_all_concat(
                buf@,
                seq![run_piece_text(rest.first())],
                run_appends(pieces.skip(i + 1)),
            );
            lemma_append_all_push(buf@, Seq::empty(), run_piece_text(rest.first()));
            assert(Seq::<Seq<char>>::empty().push(run_piece_text(rest.first())) =~= seq![
                run_piece_text(rest.first()),
            ]);
        }
        match append_run_child(buf, &run[i]) {
            Ok(()) => {},
            Err(e) => {
                return Err(e);
            },
        }
        i += 1;
    }
    Ok(())
}

/// Appends a paragraph: its runs in order, then the line break that ends it.
fn append_paragraph(buf: &mut TextBuffer, paragraph: &ParagraphNode) -> (r: Result<(), ExtractError>)
    ensures
        appended(old(buf)@, paragraph_appends(paragraph.deep_view()), final(buf)@, r),
{
    let ghost pieces = paragraph.deep_view();
    let mut i: usize = 0;
    assert(pieces.skip(0) =~= pieces);
    proof {
        lemma_append_all_push(old(buf)@, paragraph_content_appends(pieces), line_break());
    }
    while i < paragraph.children.len()
        invariant
            i <= paragraph.children.len(),
            pieces == paragraph.deep_view(),
            append_all(old(buf)@, paragraph_content_appends(pieces)) == append_all(
                buf@,
                paragraph_content_appends(pieces.skip(i as int)),
            ),
        decreases paragraph.children.len() - i,
    {
        proof {
            let rest = pieces.skip(i as int);
            assert(rest.first() == paragraph.children[i as int].deep_view());
            assert(rest.drop_first() =~= pieces.skip(i + 1));
            lemma_append_all_concat(
                buf@,
                paragraph_piece_appends(rest.first()),
                paragraph_content_appends(pieces.skip(i + 1)),
            );
        }
        match &paragraph.children[i] {
            ParagraphItem::Run(run) => {
                match append_run(buf, run) {
                    Ok(()) => {},
                    Err(e) => {
                        proof {
                            lemma_append_all_push(
                                old(buf)@,
                                paragraph_content_appends(pieces),
                                line_break(),
                            );
                        }
                        return Err(e);
                    },
                }
            },
            ParagraphItem::Other => {},
        }
        i += 1;
    }
    append_line_break(buf)
}

/// Appends a cell: the paragraphs that stand directly in it, then the tab
/// stop that ends it.
fn append_cell(buf: &mut TextBuffer, cell: &CellNode) -> (r: Result<(), ExtractError>)
    ensures
        appended(old(buf)@, cell_appends(cell.deep_view()), final(buf)@, r),
{
    let ghost pieces = cell.deep_view();
    let mut i: usize = 0;
    assert(pieces.skip(0) =~= pieces);
    proof {
        lemma_append_all_push(old(buf)@, cell_content_appends(pieces), tab_stop());
    }
    while i < cell.children.len()
        invariant
            i <= cell.children.len(),
            pieces == cell.deep_view(),
            append_all(old(buf)@, cell_content_appends(pieces)) == append_all(
                buf@,
                cell_content_appends(pieces.skip(i as int)),
            ),
        decreases cell.children.len() - i,
    {
        proof {
            let rest = pieces.skip(i as int);
            assert(rest.first() == cell.children[i as int].deep_view());
            assert(rest.drop_first() =~= pieces.skip(i + 1));
            lemma_append_all_concat(
                buf@,
                cell_piece_appends(rest.first()),
                cell_content_appends(pieces.skip(i + 1)),
            );
        }
        match &cell.children[i] {
            CellItem::Paragraph(paragraph) => {
                match append_paragraph(buf, paragraph) {
                    Ok(()) => {},
                    Err(e) => {
                        proof {
                            lemma_append_all_push(
                                old(buf)@,
                                cell_content_appends(pieces),
                                tab_stop(),
                            );
                        }
                        return Err(e);
                    },
                }
            },
            CellItem::Other => {},
        }
        i += 1;
    }
    append_tab_stop(buf)
}

/// Appends the cells of a row, in order.
fn append_row(buf: &mut TextBuffer, row: &RowNode) -> (r: Result<(), ExtractError>)
    ensures
        appended(old(buf)@, row_appends(row.deep_view()), final(buf)@, r),
{
    let ghost cells = row.deep_view();
    let mut i: usize = 0;
    assert(cells.skip(0) =~= cells);
    while i < row.cells.len()
        invariant
            i <= row.cells.len(),
            cells == row.deep_view(),
            append_all(old(buf)@, row_appends(cells)) == append_all(
                buf@,
                row_appends(cells.skip(i as int)),
            ),
        decreases row.cells.len() - i,
    {
        proof {
            let rest = cells.skip(i as int);
            assert(rest.first() == row.cells[i as int].deep_view());
            assert(rest.drop_first() =~= cells.skip(i + 1));
            lemma_append_all_concat(
                buf@,
                cell_appends(rest.first()),
                row_appends(cells.skip(i + 1)),
            );
        }
        match append_cell(buf, &row.cells[i]) {
            Ok(()) => {},
            Err(e) => {
                return Err(e);
            },
        }
        i += 1;
    }
    Ok(())
}

/// Appends a table: its rows in order, then the line break that ends it.
fn append_table(buf: &mut TextBuffer, table: &TableNode) -> (r: Result<(), ExtractError>)
    ensures
        appended(old(buf)@, table_appends(table.deep_view()), final(buf)@, r),
{
    let ghost rows = table.deep_view();
    let mut i: usize = 0;
    assert(rows.skip(0) =~= rows);
    proof {
        lemma_append_all_push(old(buf)@, rows_appends(rows), line_break());
    }
    while i < table.rows.len()
        invariant
            i <= table.rows.len(),
            rows == table.deep_view(),
            append_all(old(buf)@, rows_appends(rows)) == append_all(
                buf@,
                rows_appends(rows.skip(i as int)),
            ),
        decreases table.rows.len() - i,
    {
        proof {
            let rest = rows.skip(i as int);
            assert(rest.first() == table.rows[i as int].deep_view());
            assert(rest.drop_first() =~= rows.skip(i + 1));
            lemma_append_all_concat(
                buf@,
                row_appends(rest.first()),
                rows_appends(rows.skip(i + 1)),
            );
        }
        match append_row(buf, &table.rows[i]) {
            Ok(()) => {},
            Err(e) => {
                proof {
                    lemma_append_all_push(old(buf)@, rows_appends(rows), line_break());
                }
                return Err(e);
            },
        }
        i += 1;
    }
    append_line_break(buf)
}

/// Appends the nodes of a document body, depth first and in document order.
fn append_body(buf: &mut TextBuffer, body: &Vec<BodyNode>) -> (r: Result<(), ExtractError>)
    ensures
        appended(old(buf)@, body_appends(body.deep_view()), final(buf)@, r),
{
    let ghost nodes = body.deep_view();
    let mut i: usize = 0;
    assert(nodes.skip(0) =~= nodes);
    while i < body.len()
        invariant
            i <= body.len(),
            nodes == body.deep_view(),
            append_all(old(buf)@, body_appends(nodes)) == append_all(
                buf@,
                body_appends(nodes.skip(i as int)),
            ),
        decreases body.len() - i,
    {
        proof {
            let rest = nodes.skip(i as int);
            assert(rest.first() == body[i as int].deep_view());
            assert(rest.drop_first() =~= nodes.skip(i + 1));
            lemma_append_all_concat(
                buf@,
                node_appends(rest.first()),
                body_appends(nodes.skip(i + 1)),
            );
        }
        let step = match &body[i] {
            BodyNode::Paragraph(paragraph) => append_paragraph(buf, paragraph),
            BodyNode::Table(table) => append_table(buf, table),
            BodyNode::Other => Ok(()),
        };
        match step {
            Ok(()) => {},
            Err(e) => {
                return Err(e);
            },
        }
        i += 1;
    }
    Ok(())
}

/// Linearises a document body into text.
///
/// The body is walked depth first. A run contributes its text, a line break
/// for a break and a tab stop for a tab; a paragraph ends with a line break,
/// a table cell with a tab stop, a table with a line break. The walk stops
/// with `TextTooLong` at the first append that would take the text over
/// `MAX_TEXT_LEN` bytes; finished text that, trimmed, is shorter than
/// `MIN_TEXT_LEN` bytes is refused with `InsufficientText`.
pub fn docx_text(body: &Vec<BodyNode>) -> (r: Result<String, ExtractError>)
    ensures
        outcome_view(r) == body_outcome(body.deep_view()),
{
    let mut buf = TextBuffer::new();
    match append_body(&mut buf, body) {
        Ok(()) => buf.finish(),
        Err(e) => Err(e),
    }
}

/// What reading the bytes of a DOCX package gave.
#[derive(Debug)]
pub enum DocxReading {
    /// The document body of the package.
    Body(Vec<BodyNode>),
    /// The reader rejected the bytes; the text is what it said of them.
    Rejected(String),
}

/// Mathematical value of a [`DocxReading`].
pub enum DocxReadingView {
    Body(Seq<BodyPiece>),
    Rejected(Seq<char>),
}

impl DeepView for DocxReading {
    type V = DocxReadingView;

    open spec fn deep_view(&self) -> DocxReadingView {
        match self {
            DocxReading::Body(body) => DocxReadingView::Body(body.deep_view()),
            DocxReading::Rejected(detail) => DocxReadingView::Rejected(detail@),
        }
    }
}

/// The text of a DOCX package, given what reading it gave: the text of the
/// body, or the parse error with what the reader said.
pub open spec fn docx_outcome(reading: DocxReadingView) -> Result<Seq<char>, ExtractErrorView> {
    match reading {
        DocxReadingView::Body(body) => body_outcome(body),
        DocxReadingView::Rejected(detail) => Err(
            ExtractErrorView::Parse { stage: ParseStage::DocxRead, detail },
        ),
    }
}

/// Extracts the text of a DOCX package from what reading it gave.
///
/// A package that the reader rejected is a parse error; the text of a body
/// is what [`docx_text`] makes of it. There is no fallback for a document
/// with too little text.
pub fn extract_docx(reading: DocxReading) -> (r: Result<String, ExtractError>)
    ensures
        outcome_view(r) == docx_outcome(reading.deep_view()),
{
    match reading {
        DocxReading::Body(body) => docx_text(&body),
        DocxReading::Rejected(detail) => Err(
            ExtractError::Parse { stage: ParseStage::DocxRead, detail },
        ),
    }
}

} // verus!
