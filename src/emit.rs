use vstd::prelude::*;

use crate::model::{Cell, Line, Sheet, Width};
use crate::text::{dec, decimal, occurs_at, replace_all, replace_str};

verus! {

/// The text of each line, in order.
pub open spec fn views(v: Seq<String>) -> Seq<Seq<char>> {
    v.map_values(|s: String| s@)
}

/// `$sheet.Cells.Item(<row>,<col>)`
pub open spec fn cell_item(py: nat, px: nat) -> Seq<char> {
    "$sheet.Cells.Item("@ + dec(py) + ","@ + dec(px) + ")"@
}

/// The instruction that puts a cell's text, as a hyperlink when it has one.
pub open spec fn value_command(c: Cell) -> Seq<char> {
    match c.hyperlink {
        Some(h) => "$sheet.Hyperlinks.Add("@ + cell_item(c.py as nat, c.px as nat) + ",\""@
            + replace_all(h@, "/"@, "\\"@) + "\",\"\",\"\",\""@ + c.content@
            + "\") | Out-Null;\n"@,
        None => cell_item(c.py as nat, c.px as nat) + " = \""@ + c.content@ + "\";\n"@,
    }
}

/// The instructions for one cell: its value, then font colour, background
/// colour and validation, each only where set.
pub open spec fn cell_commands(c: Cell) -> Seq<Seq<char>> {
    let item = cell_item(c.py as nat, c.px as nat);
    seq![value_command(c)] + match c.font_col_index {
        Some(i) => seq![item + ".Font.ColorIndex = "@ + dec(i as nat) + ";\n"@],
        None => Seq::empty(),
    } + match c.bg_col_index {
        Some(i) => seq![item + ".Interior.ColorIndex = "@ + dec(i as nat) + ";\n"@],
        None => Seq::empty(),
    } + match c.validation {
        Some(v) => seq![
            item + ".Validation.Delete();\n"@,
            item + ".Validation.Add(3, 1, 1, \""@ + v@ + "\");\n"@,
        ],
        None => Seq::empty(),
    }
}

/// The instructions for a sequence of cells, one cell after the other.
pub open spec fn cells_commands(cs: Seq<Cell>) -> Seq<Seq<char>>
    decreases cs.len(),
{
    if cs.len() == 0 {
        Seq::empty()
    } else {
        cells_commands(cs.drop_last()) + cell_commands(cs.last())
    }
}

pub open spec fn width_command(w: Width) -> Seq<char> {
    "$sheet.columns.item("@ + dec(w.px as nat) + ").columnWidth = "@ + dec(w.width as nat) + ";\n"@
}

pub open spec fn line_command(l: Line) -> Seq<char> {
    "$sheet.Range(\""@ + l.range@ + "\").Borders.LineStyle = "@ + dec(l.number as nat) + ";\n"@
}

pub open spec fn sort_commands(sort: Option<String>) -> Seq<Seq<char>> {
    match sort {
        Some(r) => seq!["$sheet.Range(\""@ + r@ + "\").AutoFilter() | Out-Null;\n"@],
        None => Seq::empty(),
    }
}

/// The instructions for one sheet: creation and name, cells, widths,
/// borders, filter, and the sheet's font.
pub open spec fn sheet_commands(s: Sheet) -> Seq<Seq<char>> {
    seq!["$sheet = $book.Worksheets.Add();\n"@, "$sheet.Name = \""@ + s.name@ + "\";\n"@]
        + cells_commands(s.cells@) + s.widths@.map_values(|w: Width| width_command(w))
        + s.lines@.map_values(|l: Line| line_command(l)) + sort_commands(s.sort)
        + seq!["$sheet.Cells.font.Name = \"Meiryo UI\";\n"@]
}

pub open spec fn sheets_commands(ss: Seq<Sheet>) -> Seq<Seq<char>>
    decreases ss.len(),
{
    if ss.len() == 0 {
        Seq::empty()
    } else {
        sheets_commands(ss.drop_last()) + sheet_commands(ss.last())
    }
}

pub open spec fn preamble() -> Seq<Seq<char>> {
    seq![
        "$excel = New-Object -ComObject Excel.Application;\n"@,
        "$excel.Visible = $false;\n"@,
        "$book = $excel.Workbooks.Add();\n"@,
        "$excel.DisplayAlerts = $false;\n"@,
    ]
}

pub open spec fn epilogue(path: Seq<char>) -> Seq<Seq<char>> {
    seq![
        "$excel.Worksheets.item(\"Sheet1\").delete();\n"@,
        "$book.SaveAs(\""@ + replace_all(path, "/"@, "\\"@) + "\");\n"@,
        "$excel.Quit();\n"@,
        "$excel = $null;\n"@,
        "[GC]::Collect();\n"@,
    ]
}

/// The whole script that writes `sheets` to the workbook at `path`.
pub open spec fn script_commands(path: Seq<char>, sheets: Seq<Sheet>) -> Seq<Seq<char>> {
    preamble() + sheets_commands(sheets) + epilogue(path)
}

/// The instructions of cells given one after the other are those of each
/// cell, in the same order: nothing is reordered, merged or dropped.
pub proof fn lemma_cells_in_order(a: Seq<Cell>, b: Seq<Cell>)
    ensures
        cells_commands(a + b) == cells_commands(a) + cells_commands(b),
    decreases b.len(),
{
    if b.len() == 0 {
        assert(a + b =~= a);
        assert(cells_commands(a) + cells_commands(b) =~= cells_commands(a));
    } else {
        lemma_cells_in_order(a, b.drop_last());
        assert((a + b).drop_last() =~= a + b.drop_last());
        assert(cells_commands(a + b) =~= cells_commands(a) + cells_commands(b));
    }
}

proof fn lemma_cells_flatten_alt(cs: Seq<Cell>)
    ensures
        cells_commands(cs) == cs.map_values(|c: Cell| cell_commands(c)).flatten_alt(),
    decreases cs.len(),
{
    if cs.len() > 0 {
        lemma_cells_flatten_alt(cs.drop_last());
        assert(cs.map_values(|c: Cell| cell_commands(c)).drop_last()
            =~= cs.drop_last().map_values(|c: Cell| cell_commands(c)));
    }
}

/// The instructions for cells are one block per cell, in the order in which
/// the cells are held: the `i`-th block is the `i`-th cell's and opens with
/// that cell's value instruction, so cells sharing a position each keep
/// their own instruction.
pub proof fn lemma_cells_blocks(cs: Seq<Cell>)
    ensures
        cells_commands(cs) == cs.map_values(|c: Cell| cell_commands(c)).flatten(),
        forall|i: int|
            0 <= i < cs.len() ==> cs.map_values(|c: Cell| cell_commands(c))[i] == cell_commands(
                #[trigger] cs[i],
            ) && cell_commands(cs[i])[0] == value_command(cs[i]),
{
    lemma_cells_flatten_alt(cs);
    cs.map_values(|c: Cell| cell_commands(c)).lemma_flatten_and_flatten_alt_are_equivalent();
}

/// Widths and borders each give one instruction per entry, at the entry's
/// own index, and cells one block per cell in the order held: the emitted
/// order is the order in which they were added.
pub proof fn lemma_sheet_order_kept(s: Sheet, c: Cell, w: Width, l: Line)
    ensures
        cells_commands(s.cells@.push(c)) == cells_commands(s.cells@) + cell_commands(c),
        s.widths@.push(w).map_values(|x: Width| width_command(x))
            == s.widths@.map_values(|x: Width| width_command(x)).push(width_command(w)),
        s.lines@.push(l).map_values(|x: Line| line_command(x))
            == s.lines@.map_values(|x: Line| line_command(x)).push(line_command(l)),
        forall|i: int| 0 <= i < s.widths@.len()
            ==> s.widths@.map_values(|x: Width| width_command(x))[i] == width_command(s.widths@[i]),
        forall|i: int| 0 <= i < s.lines@.len()
            ==> s.lines@.map_values(|x: Line| line_command(x))[i] == line_command(s.lines@[i]),
{
    assert(s.cells@.push(c).drop_last() =~= s.cells@);
    assert(s.widths@.push(w).map_values(|x: Width| width_command(x))
        =~= s.widths@.map_values(|x: Width| width_command(x)).push(width_command(w)));
    assert(s.lines@.push(l).map_values(|x: Line| line_command(x))
        =~= s.lines@.map_values(|x: Line| line_command(x)).push(line_command(l)));
}

fn push_line(cmd: &mut Vec<String>, s: String)
    ensures
        views(final(cmd)@) == views(old(cmd)@).push(s@),
{
    cmd.push(s);
    assert(views(cmd@) =~= views(old(cmd)@).push(s@));
}

fn literal(s: &str) -> (r: String)
    ensures
        r@ == s@,
{
    String::from_str(s)
}

fn item_of(c: &Cell) -> (r: String)
    ensures
        r@ == cell_item(c.py as nat, c.px as nat),
{
    let mut r = literal("$sheet.Cells.Item(");
    r.append(decimal(c.py).as_str());
    r.append(",");
    r.append(decimal(c.px).as_str());
    r.append(")");
    r
}

fn push_cell(cmd: &mut Vec<String>, c: &Cell)
    ensures
        views(final(cmd)@) == views(old(cmd)@) + cell_commands(*c),
{
    let item = item_of(c);
    let first = match &c.hyperlink {
        Some(h) => {
            let mut t = literal("$sheet.Hyperlinks.Add(");
            t.append(item.as_str());
            t.append(",\"");
            t.append(replace_str(h.as_str(), "/", "\\").as_str());
            t.append("\",\"\",\"\",\"");
            t.append(c.content.as_str());
            t.append("\") | Out-Null;\n");
            t
        },
        None => {
            let mut t = item.clone();
            t.append(" = \"");
            t.append(c.content.as_str());
            t.append("\";\n");
            t
        },
    };
    push_line(cmd, first);
    if let Some(i) = c.font_col_index {
        let mut t = item.clone();
        t.append(".Font.ColorIndex = ");
        t.append(decimal(i).as_str());
        t.append(";\n");
        push_line(cmd, t);
    }
    if let Some(i) = c.bg_col_index {
        let mut t = item.clone();
        t.append(".Interior.ColorIndex = ");
        t.append(decimal(i).as_str());
        t.append(";\n");
        push_line(cmd, t);
    }
    if let Some(v) = &c.validation {
        let mut t = item.clone();
        t.append(".Validation.Delete();\n");
        push_line(cmd, t);
        let mut u = item.clone();
        u.append(".Validation.Add(3, 1, 1, \"");
        u.append(v.as_str());
        u.append("\");\n");
        push_line(cmd, u);
    }
    assert(views(cmd@) =~= views(old(cmd)@) + cell_commands(*c));
}

fn push_sheet(cmd: &mut Vec<String>, s: &Sheet)
    ensures
        views(final(cmd)@) == views(old(cmd)@) + sheet_commands(*s),
{
    push_line(cmd, literal("$sheet = $book.Worksheets.Add();\n"));
    let mut t = literal("$sheet.Name = \"");
    t.append(s.name.as_str());
    t.append("\";\n");
    push_line(cmd, t);
    let ghost head = views(cmd@);
    let mut i: usize = 0;
    while i < s.cells.len()
        invariant
            i <= s.cells@.len(),
            views(cmd@) == head + cells_commands(s.cells@.take(i as int)),
        decreases s.cells@.len() - i,
    {
        assert(s.cells@.take(i + 1).drop_last() =~= s.cells@.take(i as int));
        push_cell(cmd, &s.cells[i]);
        i = i + 1;
        assert(views(cmd@) =~= head + cells_commands(s.cells@.take(i as int)));
    }
    assert(s.cells@.take(i as int) =~= s.cells@);
    let ghost after_cells = views(cmd@);
    let mut j: usize = 0;
    while j < s.widths.len()
        invariant
            j <= s.widths@.len(),
            views(cmd@) == after_cells + s.widths@.take(j as int).map_values(|w: Width| width_command(w)),
        decreases s.widths@.len() - j,
    {
        let w = &s.widths[j];
        let mut t = literal("$sheet.columns.item(");
        t.append(decimal(w.px).as_str());
        t.append(").columnWidth = ");
        t.append(decimal(w.width).as_str());
        t.append(";\n");
        push_line(cmd, t);
        j = j + 1;
        assert(views(cmd@) =~= after_cells + s.widths@.take(j as int).map_values(|w: Width| width_command(w)));
    }
    assert(s.widths@.take(j as int) =~= s.widths@);
    let ghost after_widths = views(cmd@);
    let mut k: usize = 0;
    while k < s.lines.len()
        invariant
            k <= s.lines@.len(),
            views(cmd@) == after_widths + s.lines@.take(k as int).map_values(|l: Line| line_command(l)),
        decreases s.lines@.len() - k,
    {
        let l = &s.lines[k];
        let mut t = literal("$sheet.Range(\"");
        t.append(l.range.as_str());
        t.append("\").Borders.LineStyle = ");
        t.append(decimal(l.number).as_str());
        t.append(";\n");
        push_line(cmd, t);
        k = k + 1;
        assert(views(cmd@) =~= after_widths + s.lines@.take(k as int).map_values(|l: Line| line_command(l)));
    }
    assert(s.lines@.take(k as int) =~= s.lines@);
    if let Some(r) = &s.sort {
        let mut t = literal("$sheet.Range(\"");
        t.append(r.as_str());
        t.append("\").AutoFilter() | Out-Null;\n");
        push_line(cmd, t);
    }
    push_line(cmd, literal("$sheet.Cells.font.Name = \"Meiryo UI\";\n"));
    assert(views(cmd@) =~= views(old(cmd)@) + sheet_commands(*s));
}

/// The lines of the script that writes `sheets` to the workbook at
/// `xlsx_path`, in the order in which they run.
pub fn ps1_commands(xlsx_path: &str, sheets: &Vec<Sheet>) -> (r: Vec<String>)
    ensures
        views(r@) == script_commands(xlsx_path@, sheets@),
{
    let mut cmd: Vec<String> = Vec::new();
    push_line(&mut cmd, literal("$excel = New-Object -ComObject Excel.Application;\n"));
    push_line(&mut cmd, literal("$excel.Visible = $false;\n"));
    push_line(&mut cmd, literal("$book = $excel.Workbooks.Add();\n"));
    push_line(&mut cmd, literal("$excel.DisplayAlerts = $false;\n"));
    assert(views(cmd@) =~= preamble());
    let mut i: usize = 0;
    while i < sheets.len()
        invariant
            i <= sheets@.len(),
            views(cmd@) == preamble() + sheets_commands(sheets@.take(i as int)),
        decreases sheets@.len() - i,
    {
        assert(sheets@.take(i + 1).drop_last() =~= sheets@.take(i as int));
        push_sheet(&mut cmd, &sheets[i]);
        i = i + 1;
        assert(views(cmd@) =~= preamble() + sheets_commands(sheets@.take(i as int)));
    }
    assert(sheets@.take(i as int) =~= sheets@);
    push_line(&mut cmd, literal("$excel.Worksheets.item(\"Sheet1\").delete();\n"));
    let mut t = literal("$book.SaveAs(\"");
    t.append(replace_str(xlsx_path, "/", "\\").as_str());
    t.append("\");\n");
    push_line(&mut cmd, t);
    push_line(&mut cmd, literal("$excel.Quit();\n"));
    push_line(&mut cmd, literal("$excel = $null;\n"));
    push_line(&mut cmd, literal("[GC]::Collect();\n"));
    assert(views(cmd@) =~= script_commands(xlsx_path@, sheets@));
    cmd
}

/// The script that writes `sheets` to the workbook at `xlsx_path`: its
/// lines joined in order.
pub fn ps1_text(xlsx_path: &str, sheets: &Vec<Sheet>) -> (r: String)
    ensures
        r@ == script_commands(xlsx_path@, sheets@).flatten(),
{
    let cmd = ps1_commands(xlsx_path, sheets);
    let ghost all = views(cmd@);
    let mut out = String::new();
    let mut i: usize = 0;
    assert(all.take(0) =~= Seq::<Seq<char>>::empty());
    while i < cmd.len()
        invariant
            all == views(cmd@),
            i <= cmd@.len(),
            out@ == all.take(i as int).flatten_alt(),
        decreases cmd@.len() - i,
    {
        assert(all.take(i + 1).drop_last() =~= all.take(i as int));
        out.append(cmd[i].as_str());
        i = i + 1;
    }
    assert(all.take(i as int) =~= all);
    proof {
        all.lemma_flatten_and_flatten_alt_are_equivalent();
    }
    out
}

/// The script's path: the workbook's path with its `.xlsx` extension
/// swapped for `.ps1`, or with `.ps1` appended where it has no such
/// extension, so that the two never coincide.
pub open spec fn script_path_text(p: Seq<char>) -> Seq<char> {
    if p.len() >= 5 && p.skip(p.len() - 5) == ".xlsx"@ {
        p.take(p.len() - 5) + ".ps1"@
    } else {
        p + ".ps1"@
    }
}

/// The path of the script beside the workbook at `xlsx_path`.
pub fn ps1_path(xlsx_path: &str) -> (r: String)
    ensures
        r@ == script_path_text(xlsx_path@),
        r@ != xlsx_path@,
{
    proof {
        reveal_strlit(".xlsx");
        reveal_strlit(".ps1");
    }
    let n = xlsx_path.unicode_len();
    if n >= 5 && occurs_at(xlsx_path, ".xlsx", n - 5, n, 5) {
        assert(xlsx_path@.skip(n - 5) =~= xlsx_path@.subrange(n - 5, n as int));
        let mut r = String::from_str(xlsx_path.substring_char(0, n - 5));
        r.append(".ps1");
        assert(r@[r@.len() - 1] == '1');
        assert(xlsx_path@.subrange(n - 5, n as int)[4] == 'x');
        r
    } else {
        let mut r = String::from_str(xlsx_path);
        r.append(".ps1");
        assert(r@.len() != xlsx_path@.len());
        r
    }
}

/// The Shift_JIS encoding of a text.
pub uninterp spec fn shift_jis_of(s: Seq<char>) -> Seq<u8>;

/// The longest script, in characters, that is encoded.
pub const MAX_SCRIPT_CHARS: usize = 0x1000_0000;

/// Relies on `encoding_rs::SHIFT_JIS.encode`: the Shift_JIS bytes of the
/// text, which depend on the text alone. It panics only where its buffer
/// size overflows `usize`, which the bound on the length rules out.
#[verifier::external_body]
fn encode_shift_jis(s: &str) -> (r: Vec<u8>)
    requires
        s@.len() <= MAX_SCRIPT_CHARS,
    ensures
        r@ == shift_jis_of(s@),
{
    encoding_rs::SHIFT_JIS.encode(s).0.into_owned()
}

/// The script that writes `sheets` to `xlsx_path`, encoded in Shift_JIS;
/// `None` where the script is longer than `MAX_SCRIPT_CHARS`.
pub fn ps1_bytes(xlsx_path: &str, sheets: &Vec<Sheet>) -> (r: Option<Vec<u8>>)
    ensures
        script_commands(xlsx_path@, sheets@).flatten().len() <= MAX_SCRIPT_CHARS
            <==> r is Some,
        r matches Some(b) ==> b@ == shift_jis_of(script_commands(xlsx_path@, sheets@).flatten()),
{
    let text = ps1_text(xlsx_path, sheets);
    if text.as_str().unicode_len() > MAX_SCRIPT_CHARS {
        return None;
    }
    Some(encode_shift_jis(text.as_str()))
}

} // verus!
