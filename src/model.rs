use vstd::prelude::*;

use crate::column::{get_alpabet_from_num, letter};
use crate::text::{dec, decimal};

verus! {

/// One cell: a 1-based position, its text, and optional formatting.
#[derive(Debug, Clone)]
pub struct Cell {
    pub px: usize,
    pub py: usize,
    pub font_col_index: Option<usize>,
    pub bg_col_index: Option<usize>,
    pub content: String,
    pub hyperlink: Option<String>,
    pub validation: Option<String>,
}

impl Default for Cell {
    fn default() -> (r: Self)
        ensures
            r.px == 1,
            r.py == 1,
            r.font_col_index is None,
            r.bg_col_index is None,
            r.content@.len() == 0,
            r.hyperlink is None,
            r.validation is None,
    {
        Cell {
            px: 1,
            py: 1,
            font_col_index: None,
            bg_col_index: None,
            content: String::new(),
            hyperlink: None,
            validation: None,
        }
    }
}

impl Cell {
    /// Moves the cell to row `y`, column `x`; a row or column below 1 leaves
    /// the cell where it was.
    pub fn set_pos(self, y: usize, x: usize) -> (r: Self)
        ensures
            (x < 1 || y < 1) ==> r == self,
            (x >= 1 && y >= 1) ==> r == (Cell { px: x, py: y, ..self }),
    {
        if x < 1 || y < 1 {
            return self;
        }
        Cell { px: x, py: y, ..self }
    }

    pub fn set_content(self, content: &str) -> (r: Self)
        ensures
            r.content@ == content@,
            r == (Cell { content: r.content, ..self }),
    {
        Cell { content: String::from_str(content), ..self }
    }

    pub fn set_font_col_index(self, index: usize) -> (r: Self)
        ensures
            r == (Cell { font_col_index: Some(index), ..self }),
    {
        Cell { font_col_index: Some(index), ..self }
    }

    pub fn set_bg_col_index(self, index: usize) -> (r: Self)
        ensures
            r == (Cell { bg_col_index: Some(index), ..self }),
    {
        Cell { bg_col_index: Some(index), ..self }
    }

    pub fn set_hyperlink(self, path: &str) -> (r: Self)
        ensures
            r.hyperlink matches Some(h) && h@ == path@,
            r == (Cell { hyperlink: r.hyperlink, ..self }),
    {
        Cell { hyperlink: Some(String::from_str(path)), ..self }
    }

    pub fn set_valication(self, validation: &str) -> (r: Self)
        ensures
            r.validation matches Some(v) && v@ == validation@,
            r == (Cell { validation: r.validation, ..self }),
    {
        Cell { validation: Some(String::from_str(validation)), ..self }
    }
}

/// The width of one column.
#[derive(Debug, Clone)]
pub struct Width {
    pub px: usize,
    pub width: usize,
}

/// A border style applied to a rectangular range.
#[derive(Debug, Clone)]
pub struct Line {
    pub range: String,
    pub number: usize,
}

/// The text `<col><row>` of one corner of a range.
pub open spec fn corner(col: int, row: nat) -> Seq<char> {
    seq![letter(col)] + dec(row)
}

/// The text `<sx><sy>:<ex><ey>` of a rectangular range.
pub open spec fn range_text(sy: nat, ey: nat, sx: int, ex: int) -> Seq<char> {
    corner(sx, sy) + seq![':'] + corner(ex, ey)
}

fn range_of(sy: usize, ey: usize, sx: usize, ex: usize) -> (r: String)
    ensures
        r@ == range_text(sy as nat, ey as nat, sx as int, ex as int),
{
    proof {
        reveal_strlit(":");
    }
    let mut r = get_alpabet_from_num(sx);
    r.append(decimal(sy).as_str());
    r.append(":");
    r.append(get_alpabet_from_num(ex).as_str());
    r.append(decimal(ey).as_str());
    assert(r@ =~= range_text(sy as nat, ey as nat, sx as int, ex as int));
    r
}

/// One named sheet: cells, column widths, borders and an optional filter range.
#[derive(Debug, Clone)]
pub struct Sheet {
    pub name: String,
    pub cells: Vec<Cell>,
    pub widths: Vec<Width>,
    pub sort: Option<String>,
    pub lines: Vec<Line>,
}

impl Default for Sheet {
    fn default() -> (r: Self)
        ensures
            r.name@.len() == 0,
            r.cells@.len() == 0,
            r.widths@.len() == 0,
            r.sort is None,
            r.lines@.len() == 0,
    {
        Sheet {
            name: String::new(),
            cells: Vec::new(),
            widths: Vec::new(),
            sort: None,
            lines: Vec::new(),
        }
    }
}

impl Sheet {
    pub fn set_name(self, name: &str) -> (r: Self)
        ensures
            r.name@ == name@,
            r == (Sheet { name: r.name, ..self }),
    {
        Sheet { name: String::from_str(name), ..self }
    }

    pub fn set_cells(self, cells: Vec<Cell>) -> (r: Self)
        ensures
            r == (Sheet { cells: cells, ..self }),
    {
        Sheet { cells, ..self }
    }

    /// Appends a cell after those already held.
    pub fn add_cell(self, cell: Cell) -> (r: Self)
        ensures
            r.cells@ == self.cells@.push(cell),
            r == (Sheet { cells: r.cells, ..self }),
    {
        let mut s = self;
        s.cells.push(cell);
        s
    }

    pub fn set_widths(self, widths: Vec<Width>) -> (r: Self)
        ensures
            r == (Sheet { widths: widths, ..self }),
    {
        Sheet { widths, ..self }
    }

    /// Appends the width of column `px` after those already held.
    pub fn add_width(self, px: usize, width: usize) -> (r: Self)
        ensures
            r.widths@ == self.widths@.push(Width { px, width }),
            r == (Sheet { widths: r.widths, ..self }),
    {
        let mut s = self;
        s.widths.push(Width { px, width });
        s
    }

    /// Sets the filter range to row `y`, from column `sx` to column `ex`.
    pub fn set_sort(self, y: usize, sx: usize, ex: usize) -> (r: Self)
        ensures
            r.sort matches Some(t) && t@ == range_text(y as nat, y as nat, sx as int, ex as int),
            r == (Sheet { sort: r.sort, ..self }),
    {
        Sheet { sort: Some(range_of(y, y, sx, ex)), ..self }
    }

    /// Appends a border of style `num` over rows `sy..=ey`, columns `sx..=ex`.
    pub fn add_line(self, sy: usize, ey: usize, sx: usize, ex: usize, num: usize) -> (r: Self)
        ensures
            r.lines@.len() == self.lines@.len() + 1,
            r.lines@.drop_last() == self.lines@,
            r.lines@.last().range@ == range_text(sy as nat, ey as nat, sx as int, ex as int),
            r.lines@.last().number == num,
            r == (Sheet { lines: r.lines, ..self }),
    {
        let line = Line { range: range_of(sy, ey, sx, ex), number: num };
        let mut s = self;
        s.lines.push(line);
        proof {
            assert(s.lines@.drop_last() =~= self.lines@);
        }
        s
    }
}

} // verus!
