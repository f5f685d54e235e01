//! Tables of text in aligned columns.
//!
//! The columns are laid out by `comfy_table`. What that crate returns is
//! named here, not described: the contracts of this library speak of the
//! text of a table, and say how the library fills a table and where it puts
//! the table's text.
//!
//! A cell holds at most [`CELL_MAX`] characters: `comfy_table` counts the
//! width of a column in sixteen bits, and a character can be three columns
//! wide. A text that is longer is cut behind that many characters before it
//! is put into a table, so a description or a type of more than
//! [`CELL_MAX`] characters is shown without its end.

use crate::text::{indent, indented, spaces, views};
use vstd::prelude::*;

verus! {

/// `comfy_table::Table`: a table that lays out cells of text in columns.
/// Nothing of its inside is known here but what the names below say.
#[verifier::external_type_specification]
#[verifier::external_body]
pub struct ExTable(comfy_table::Table);

/// The rows of a table, each the texts of its cells.
pub uninterp spec fn table_rows(t: comfy_table::Table) -> Seq<Seq<Seq<char>>>;

/// Whether a table is as `Table::new` makes it: without rows, and with the
/// settings that a table starts with.
pub uninterp spec fn table_fresh(t: comfy_table::Table) -> bool;

/// Whether a table draws no borders and has, but for its rows, the settings
/// that a table starts with.
pub uninterp spec fn table_bare(t: comfy_table::Table) -> bool;

/// The text of a bare table with the given rows: the cells of each column
/// aligned, the lines of a cell below each other, no whitespace at the end
/// of a line, the lines joined by line feeds.
pub uninterp spec fn bare_table_text(rows: Seq<Seq<Seq<char>>>) -> Seq<char>;

/// `comfy_table::Table::new`: a fresh table, without rows.
#[verifier::external_body]
fn table_new() -> (t: comfy_table::Table)
    ensures
        table_fresh(t),
        table_rows(t) == Seq::<Seq<Seq<char>>>::empty(),
{
    comfy_table::Table::new()
}

/// `comfy_table::Table::load_preset` with the preset `NOTHING`, on a fresh
/// table: the table stays without rows and draws no borders from then on.
#[verifier::external_body]
fn table_strip(t: &mut comfy_table::Table)
    requires
        table_fresh(*old(t)),
    ensures
        table_rows(*final(t)) == table_rows(*old(t)),
        table_bare(*final(t)),
{
    t.load_preset(comfy_table::presets::NOTHING);
}

/// `comfy_table::Table::add_row`: the row is added behind the others, and
/// nothing else about the table changes.
#[verifier::external_body]
fn table_add_row(t: &mut comfy_table::Table, row: Vec<String>)
    requires
        forall|i: int| 0 <= i < row.len() ==> (#[trigger] row[i])@.len() <= CELL_MAX,
    ensures
        table_rows(*final(t)) == table_rows(*old(t)).push(views(row)),
        table_bare(*final(t)) == table_bare(*old(t)),
{
    t.add_row(row);
}

/// Whether no cell of the rows is longer than [`CELL_MAX`].
pub open spec fn cells_fit(rows: Seq<Seq<Seq<char>>>) -> bool {
    forall|i: int, j: int|
        0 <= i < rows.len() && 0 <= j < rows[i].len() ==> (#[trigger] rows[i][j]).len()
            <= CELL_MAX
}

/// `comfy_table::Table::trim_fmt`: the text of the table. Of a bare table
/// it depends on the rows alone and is what [`bare_table_text`] names. The
/// table adds the padding of a column to the width of its widest cell in
/// sixteen bits, and a character is at most three columns wide, so no cell
/// may be longer than [`CELL_MAX`].
#[verifier::external_body]
fn table_trim_fmt(t: &comfy_table::Table) -> (r: String)
    requires
        cells_fit(table_rows(*t)),
    ensures
        table_bare(*t) ==> r@ == bare_table_text(table_rows(*t)),
{
    t.trim_fmt()
}

/// The most characters that a cell of a table can hold: three times as
/// many columns, and the padding of a column, are still a number of sixteen
/// bits. A longer text is cut behind this many characters.
pub const CELL_MAX: usize = 21000;

/// A text cut to what a cell can hold.
pub open spec fn clipped(cell: Seq<char>) -> Seq<char> {
    if cell.len() > CELL_MAX {
        cell.take(CELL_MAX as int)
    } else {
        cell
    }
}

/// A row with each of its cells cut to what a cell can hold.
pub open spec fn clipped_row(row: Seq<Seq<char>>) -> Seq<Seq<char>> {
    Seq::new(row.len(), |i: int| clipped(row[i]))
}

/// Rows with each of their cells cut to what a cell can hold.
pub open spec fn clipped_rows(rows: Seq<Seq<Seq<char>>>) -> Seq<Seq<Seq<char>>> {
    Seq::new(rows.len(), |i: int| clipped_row(rows[i]))
}

/// The text of a table in a help file: the bare table of the rows, each
/// cell cut to what a cell can hold, indented by one character less than
/// twice the indent width, and a line feed.
pub open spec fn table_text(rows: Seq<Seq<Seq<char>>>, indent: nat) -> Seq<char> {
    indented(bare_table_text(clipped_rows(rows)), spaces((indent * 2 - 1) as nat)) + seq!['\n']
}

/// Cuts a text to what a cell can hold.
pub fn clip(cell: String) -> (r: String)
    ensures
        r@ == clipped(cell@),
{
    if cell.as_str().unicode_len() > CELL_MAX {
        let all = crate::text::chars_of(cell.as_str());
        let r = crate::text::string_from(&all, 0, CELL_MAX);
        assert(all@.subrange(0, CELL_MAX as int) == cell@.take(CELL_MAX as int));
        r
    } else {
        cell
    }
}

/// A table of a help file: rows of cells, shown in aligned columns behind
/// an indentation. A cell shows at most [`CELL_MAX`] characters of its
/// text.
pub struct HelpTable {
    inner: comfy_table::Table,
    indent: usize,
    given: Ghost<Seq<Seq<Seq<char>>>>,
}

impl HelpTable {
    /// The rows that the table was given.
    pub closed spec fn rows(&self) -> Seq<Seq<Seq<char>>> {
        self.given@
    }

    /// The indent width that the table was made for.
    pub closed spec fn indent_width(&self) -> nat {
        self.indent as nat
    }

    /// Whether the table is as this library makes and fills tables.
    pub closed spec fn wf(&self) -> bool {
        table_bare(self.inner) && table_rows(self.inner) == clipped_rows(self.given@) && 1
            <= self.indent && self.indent * 2 <= usize::MAX
    }

    /// A table without rows, for the given indent width.
    pub fn new(indent: usize) -> (t: HelpTable)
        requires
            1 <= indent,
            indent * 2 <= usize::MAX,
        ensures
            t.wf(),
            t.rows() == Seq::<Seq<Seq<char>>>::empty(),
            t.indent_width() == indent,
    {
        let mut inner = table_new();
        table_strip(&mut inner);
        let ghost none = Seq::<Seq<Seq<char>>>::empty();
        assert(clipped_rows(none) =~= none);
        HelpTable { inner, indent, given: Ghost(none) }
    }

    /// Adds a row behind the others. A cell that is too long is cut.
    pub fn add_row(&mut self, row: Vec<String>)
        requires
            old(self).wf(),
        ensures
            final(self).wf(),
            final(self).rows() == old(self).rows().push(views(row)),
            final(self).indent_width() == old(self).indent_width(),
    {
        let mut cut: Vec<String> = Vec::new();
        let mut i: usize = 0;
        while i < row.len()
            invariant
                i <= row.len(),
                cut.len() == i,
                forall|k: int| 0 <= k < i ==> (#[trigger] cut[k])@ == clipped(row[k]@),
            decreases row.len() - i,
        {
            cut.push(clip(row[i].clone()));
            i += 1;
        }
        assert(views(cut) =~= clipped_row(views(row)));
        let ghost before = self.given@;
        table_add_row(&mut self.inner, cut);
        self.given = Ghost(before.push(views(row)));
        assert(clipped_rows(before.push(views(row))) =~= clipped_rows(before).push(
            clipped_row(views(row)),
        ));
    }

    /// The text of the table as a help file shows it.
    pub fn to_string(&self) -> (r: String)
        requires
            self.wf(),
        ensures
            r@ == table_text(self.rows(), self.indent_width()),
    {
        assert(cells_fit(clipped_rows(self.given@)));
        let body = table_trim_fmt(&self.inner);
        let mut prefix = String::new();
        crate::text::push_repeated(&mut prefix, ' ', self.indent * 2 - 1);
        let mut r = indent(body.as_str(), prefix.as_str());
        r.push('\n');
        r
    }
}

} // verus!
