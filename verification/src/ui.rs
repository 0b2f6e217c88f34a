//! Terminal output as text: colors, status badges, headers and aligned tables.
//!
//! Every function that may color its output takes the `color` setting; with it
//! off no escape sequence is produced.

use vstd::prelude::*;

use crate::text::{
    join, joined, push_text, repeat_char, repeated, slice_texts, texts, trim_end, trimmed_end,
    Chars,
};

verus! {

/// Whether output is colored.
pub open spec fn is_colored(force_off: bool, no_color_set: bool, terminal: bool) -> bool {
    terminal && !force_off && !no_color_set
}

/// Whether output is colored: the user did not turn it off, `NO_COLOR` is not
/// set, and standard output is a terminal.
pub fn color_enabled(force_off: bool, no_color_set: bool, terminal: bool) -> (r: bool)
    ensures
        r == (!force_off && !no_color_set && terminal),
        r == is_colored(force_off, no_color_set, terminal),
{
    !force_off && !no_color_set && terminal
}

/// `text` in the rendition that the escape `code` selects, or plain.
pub open spec fn painted(text: Chars, code: Chars, color: bool) -> Chars {
    if color {
        "\x1b["@ + code + "m"@ + text + "\x1b[0m"@
    } else {
        text
    }
}

fn paint(text: &str, code: &str, color: bool) -> (s: String)
    ensures
        s@ == painted(text@, code@, color),
{
    if color {
        let mut s = String::from_str("\x1b[");
        s.append(code);
        s.append("m");
        s.append(text);
        s.append("\x1b[0m");
        s
    } else {
        text.to_owned()
    }
}

pub open spec fn bolded(s: Chars, color: bool) -> Chars {
    painted(s, "1"@, color)
}

pub open spec fn dimmed(s: Chars, color: bool) -> Chars {
    painted(s, "2"@, color)
}

pub open spec fn reddened(s: Chars, color: bool) -> Chars {
    painted(s, "31"@, color)
}

pub open spec fn greened(s: Chars, color: bool) -> Chars {
    painted(s, "32"@, color)
}

pub open spec fn yellowed(s: Chars, color: bool) -> Chars {
    painted(s, "33"@, color)
}

pub open spec fn cyaned(s: Chars, color: bool) -> Chars {
    painted(s, "36"@, color)
}

pub fn bold(s: &str, color: bool) -> (r: String)
    ensures
        r@ == bolded(s@, color),
{
    paint(s, "1", color)
}

pub fn dim(s: &str, color: bool) -> (r: String)
    ensures
        r@ == dimmed(s@, color),
{
    paint(s, "2", color)
}

pub fn red(s: &str, color: bool) -> (r: String)
    ensures
        r@ == reddened(s@, color),
{
    paint(s, "31", color)
}

pub fn green(s: &str, color: bool) -> (r: String)
    ensures
        r@ == greened(s@, color),
{
    paint(s, "32", color)
}

pub fn yellow(s: &str, color: bool) -> (r: String)
    ensures
        r@ == yellowed(s@, color),
{
    paint(s, "33", color)
}

pub fn cyan(s: &str, color: bool) -> (r: String)
    ensures
        r@ == cyaned(s@, color),
{
    paint(s, "36", color)
}

/// Health status used to color sensor readings, power state, etc.
#[derive(Clone, Copy, Debug, PartialEq, Eq, Structural)]
pub enum Status {
    Okay,
    Warn,
    Crit,
    Unknown,
}

impl Status {
    /// The badge of a status.
    pub open spec fn spec_badge(self, color: bool) -> Chars {
        match self {
            Status::Okay => greened("OK  "@, color),
            Status::Warn => yellowed("WARN"@, color),
            Status::Crit => reddened("CRIT"@, color),
            Status::Unknown => dimmed(" -- "@, color),
        }
    }

    /// A fixed-width, colored badge.
    pub fn badge(self, color: bool) -> (r: String)
        ensures
            r@ == self.spec_badge(color),
    {
        match self {
            Status::Okay => green("OK  ", color),
            Status::Warn => yellow("WARN", color),
            Status::Crit => red("CRIT", color),
            Status::Unknown => dim(" -- ", color),
        }
    }
}

/// A top-level section header: an empty line, the title, and a rule under it.
pub open spec fn header_lines(title: Chars, color: bool) -> Seq<Chars> {
    seq![
        seq![],
        bolded(cyaned(title, color), color),
        dimmed(repeated('─', if title.len() > 8 { title.len() as int } else { 8 }), color),
    ]
}

/// Renders a top-level section header.
pub fn header(title: &str, color: bool) -> (lines: Vec<String>)
    ensures
        texts(lines@) == header_lines(title@, color),
{
    let len: usize = title.unicode_len();
    let rule = repeat_char('─', if len > 8 { len } else { 8 });
    let mut lines: Vec<String> = Vec::new();
    lines.push(String::new());
    lines.push(bold(cyan(title, color).as_str(), color));
    lines.push(dim(rule.as_str(), color));
    proof {
        assert(texts(lines@) =~= header_lines(title@, color));
    }
    lines
}

/// `s` followed by blanks up to `width` columns.
pub open spec fn right_padded(s: Chars, width: nat) -> Chars {
    s + repeated(' ', width - s.len())
}

/// An aligned `key  value` line, with the key padded to `width`.
pub open spec fn kv_line(key: Chars, value: Chars, width: nat, color: bool) -> Chars {
    "  "@ + dimmed(right_padded(key, width), color) + "  "@ + value
}

/// Renders an aligned `key  value` pair, with the key right-padded to `width`.
pub fn kv(key: &str, value: &str, width: usize, color: bool) -> (line: String)
    ensures
        line@ == kv_line(key@, value@, width as nat, color),
{
    let len: usize = key.unicode_len();
    let padded = pad(key, len, width, Align::Left);
    let mut line = String::from_str("  ");
    line.append(dim(padded.as_str(), color).as_str());
    line.append("  ");
    line.append(value);
    line
}

/// `text` indented by two columns.
pub open spec fn indented(text: Chars) -> Chars {
    "  "@ + text
}

/// Indents `text` by two columns.
pub fn indent(text: &str) -> (line: String)
    ensures
        line@ == indented(text@),
{
    let mut line = String::from_str("  ");
    line.append(text);
    line
}

/// How a column is aligned.
#[derive(Clone, Copy, Debug, PartialEq, Eq, Structural)]
pub enum Align {
    Left,
    Right,
}

/// A table cell carries both the visible text (for width calculation) and the
/// rendered text (which may include color escapes).
pub struct Cell {
    plain: String,
    rendered: String,
}

/// The two texts of a cell.
pub ghost struct CellView {
    pub plain: Chars,
    pub rendered: Chars,
}

impl View for Cell {
    type V = CellView;

    closed spec fn view(&self) -> CellView {
        CellView { plain: self.plain@, rendered: self.rendered@ }
    }
}

/// A cell that shows `s` as it is.
pub open spec fn plain_cell(s: Chars) -> CellView {
    CellView { plain: s, rendered: s }
}

/// A cell that shows `rendered` and takes the room of `plain`.
pub open spec fn colored_cell(plain: Chars, rendered: Chars) -> CellView {
    CellView { plain, rendered }
}

impl Cell {
    pub fn new(plain: &str) -> (c: Cell)
        ensures
            c@ == plain_cell(plain@),
    {
        Cell { plain: plain.to_owned(), rendered: plain.to_owned() }
    }

    /// A cell whose plain width differs from its rendered (colored) form.
    pub fn colored(plain: &str, rendered: &str) -> (c: Cell)
        ensures
            c@ == colored_cell(plain@, rendered@),
    {
        Cell { plain: plain.to_owned(), rendered: rendered.to_owned() }
    }
}

/// A minimal left-aligned table renderer that respects per-column widths and
/// keeps alignment correct even when cells contain ANSI color codes.
pub struct Table {
    headers: Vec<String>,
    rows: Vec<Vec<Cell>>,
    aligns: Vec<Align>,
}

/// What a table shows.
pub ghost struct TableView {
    pub headers: Seq<Chars>,
    pub aligns: Seq<Align>,
    pub rows: Seq<Seq<CellView>>,
}

/// The cells of a row.
pub open spec fn cells(row: Seq<Cell>) -> Seq<CellView> {
    Seq::new(row.len(), |i: int| row[i]@)
}

impl View for Table {
    type V = TableView;

    closed spec fn view(&self) -> TableView {
        TableView {
            headers: texts(self.headers@),
            aligns: self.aligns@,
            rows: Seq::new(self.rows@.len(), |i: int| cells(self.rows@[i]@)),
        }
    }
}

/// The columns that the cell in column `i` of a row takes.
pub open spec fn cell_width(row: Seq<CellView>, i: int) -> nat {
    if i < row.len() {
        row[i].plain.len()
    } else {
        0
    }
}

impl TableView {
    /// The widest of the header and the first `n` rows in column `i`.
    pub open spec fn width_among(self, i: int, n: int) -> nat
        decreases n,
    {
        if n <= 0 {
            self.headers[i].len()
        } else {
            let before = self.width_among(i, n - 1);
            let here = cell_width(self.rows[n - 1], i);
            if here > before {
                here
            } else {
                before
            }
        }
    }

    /// The width of column `i`.
    pub open spec fn width(self, i: int) -> nat {
        self.width_among(i, self.rows.len() as int)
    }

    /// How column `i` is aligned.
    pub open spec fn align(self, i: int) -> Align {
        if i < self.aligns.len() {
            self.aligns[i]
        } else {
            Align::Left
        }
    }

    /// The header line.
    pub open spec fn header_line(self, color: bool) -> Chars {
        "  "@ + joined(
            Seq::new(
                self.headers.len(),
                |i: int|
                    padded(
                        dimmed(bolded(self.headers[i], color), color),
                        self.headers[i].len(),
                        self.width(i),
                        self.align(i),
                    ),
            ),
            "  "@,
        )
    }

    /// What row `row` shows in column `i`, padded to the column's width.
    pub open spec fn padded_cell(self, row: Seq<CellView>, i: int) -> Chars {
        padded(
            if i < row.len() {
                row[i].rendered
            } else {
                seq![]
            },
            cell_width(row, i),
            self.width(i),
            self.align(i),
        )
    }

    /// The line of a row.
    pub open spec fn row_line(self, row: Seq<CellView>) -> Chars {
        trimmed_end(
            "  "@ + joined(
                Seq::new(self.headers.len(), |i: int| self.padded_cell(row, i)),
                "  "@,
            ),
        )
    }

    /// All lines of the table.
    pub open spec fn lines(self, color: bool) -> Seq<Chars> {
        seq![self.header_line(color)] + Seq::new(
            self.rows.len(),
            |r: int| self.row_line(self.rows[r]),
        )
    }

    /// The table with one more row.
    pub open spec fn with_row(self, row: Seq<CellView>) -> TableView {
        TableView { rows: self.rows.push(row), ..self }
    }
}

/// An empty table.
pub open spec fn empty_table(headers: Seq<Chars>, aligns: Seq<Align>) -> TableView {
    TableView { headers, aligns, rows: seq![] }
}

impl Table {
    pub fn new(headers: &[&str], aligns: &[Align]) -> (t: Table)
        ensures
            t@ == empty_table(slice_texts(headers@), aligns@),
    {
        let mut heads: Vec<String> = Vec::new();
        let mut i: usize = 0;
        while i < headers.len()
            invariant
                i <= headers.len(),
                texts(heads@) == slice_texts(headers@.take(i as int)),
            decreases headers.len() - i,
        {
            push_text(&mut heads, headers[i].to_owned());
            proof {
                assert(texts(heads@) =~= slice_texts(headers@.take(i + 1)));
            }
            i = i + 1;
        }
        let mut kept: Vec<Align> = Vec::new();
        let mut k: usize = 0;
        while k < aligns.len()
            invariant
                k <= aligns.len(),
                kept@ == aligns@.take(k as int),
            decreases aligns.len() - k,
        {
            kept.push(aligns[k]);
            proof {
                assert(kept@ =~= aligns@.take(k + 1));
            }
            k = k + 1;
        }
        let t = Table { headers: heads, rows: Vec::new(), aligns: kept };
        proof {
            assert(headers@.take(headers@.len() as int) =~= headers@);
            assert(aligns@.take(aligns@.len() as int) =~= aligns@);
            assert(t@.rows =~= seq![]);
        }
        t
    }

    pub fn row(&mut self, row: Vec<Cell>)
        ensures
            final(self)@ == old(self)@.with_row(cells(row@)),
    {
        self.rows.push(row);
        proof {
            assert(self@.rows =~= old(self)@.rows.push(cells(row@)));
        }
    }

    pub fn is_empty(&self) -> (r: bool)
        ensures
            r == (self@.rows.len() == 0),
    {
        self.rows.len() == 0
    }

    /// Renders the table, one string per line.
    pub fn lines(&self, color: bool) -> (lines: Vec<String>)
        ensures
            texts(lines@) == self@.lines(color),
    {
        let widths = self.widths();
        let mut lines: Vec<String> = Vec::new();
        push_text(&mut lines, self.header_text(&widths, color));
        let mut r: usize = 0;
        proof {
            assert(texts(lines@) =~= seq![self@.header_line(color)] + Seq::new(
                0,
                |k: int| self@.row_line(self@.rows[k]),
            ));
        }
        while r < self.rows.len()
            invariant
                r <= self.rows.len(),
                widths@.len() == self@.headers.len(),
                forall|i: int| 0 <= i < widths@.len() ==> widths@[i] == self@.width(i),
                texts(lines@) == seq![self@.header_line(color)] + Seq::new(
                    r as nat,
                    |k: int| self@.row_line(self@.rows[k]),
                ),
            decreases self.rows.len() - r,
        {
            push_text(&mut lines, self.row_text(r, &widths));
            proof {
                assert(texts(lines@) =~= seq![self@.header_line(color)] + Seq::new(
                    (r + 1) as nat,
                    |k: int| self@.row_line(self@.rows[k]),
                ));
            }
            r = r + 1;
        }
        lines
    }

    fn widths(&self) -> (widths: Vec<usize>)
        ensures
            widths@.len() == self@.headers.len(),
            forall|i: int| 0 <= i < widths@.len() ==> widths@[i] == self@.width(i),
    {
        let mut widths: Vec<usize> = Vec::new();
        let mut i: usize = 0;
        while i < self.headers.len()
            invariant
                i <= self.headers.len(),
                widths@.len() == i,
                forall|k: int| 0 <= k < i ==> widths@[k] == self@.width(k),
            decreases self.headers.len() - i,
        {
            let mut widest: usize = self.headers[i].as_str().unicode_len();
            let mut r: usize = 0;
            while r < self.rows.len()
                invariant
                    i < self.headers.len(),
                    r <= self.rows.len(),
                    widest == self@.width_among(i as int, r as int),
                decreases self.rows.len() - r,
            {
                proof {
                    assert(self@.rows[r as int] == cells(self.rows@[r as int]@));
                }
                if i < self.rows[r].len() {
                    let here: usize = self.rows[r][i].plain.as_str().unicode_len();
                    if here > widest {
                        widest = here;
                    }
                }
                r = r + 1;
            }
            widths.push(widest);
            i = i + 1;
        }
        widths
    }

    fn align(&self, i: usize) -> (a: Align)
        ensures
            a == self@.align(i as int),
    {
        if i < self.aligns.len() {
            self.aligns[i]
        } else {
            Align::Left
        }
    }

    fn header_text(&self, widths: &Vec<usize>, color: bool) -> (line: String)
        requires
            widths@.len() == self@.headers.len(),
            forall|i: int| 0 <= i < widths@.len() ==> widths@[i] == self@.width(i),
        ensures
            line@ == self@.header_line(color),
    {
        let ghost want = Seq::new(
            self@.headers.len(),
            |i: int|
                padded(
                    dimmed(bolded(self@.headers[i], color), color),
                    self@.headers[i].len(),
                    self@.width(i),
                    self@.align(i),
                ),
        );
        let mut parts: Vec<String> = Vec::new();
        let mut i: usize = 0;
        while i < self.headers.len()
            invariant
                i <= self.headers.len(),
                widths@.len() == self@.headers.len(),
                forall|k: int| 0 <= k < widths@.len() ==> widths@[k] == self@.width(k),
                want == Seq::new(
                    self@.headers.len(),
                    |i: int|
                        padded(
                            dimmed(bolded(self@.headers[i], color), color),
                            self@.headers[i].len(),
                            self@.width(i),
                            self@.align(i),
                        ),
                ),
                texts(parts@) == want.take(i as int),
            decreases self.headers.len() - i,
        {
            let h = self.headers[i].as_str();
            let shown = dim(bold(h, color).as_str(), color);
            let part = pad(shown.as_str(), h.unicode_len(), widths[i], self.align(i));
            push_text(&mut parts, part);
            proof {
                assert(texts(parts@) =~= want.take(i + 1));
            }
            i = i + 1;
        }
        proof {
            assert(want.take(want.len() as int) =~= want);
        }
        let body = join(&parts, "  ");
        indent(body.as_str())
    }

    fn row_text(&self, r: usize, widths: &Vec<usize>) -> (line: String)
        requires
            r < self@.rows.len(),
            widths@.len() == self@.headers.len(),
            forall|i: int| 0 <= i < widths@.len() ==> widths@[i] == self@.width(i),
        ensures
            line@ == self@.row_line(self@.rows[r as int]),
    {
        let ghost row = self@.rows[r as int];
        let ghost want = Seq::new(self@.headers.len(), |i: int| self@.padded_cell(row, i));
        let mut parts: Vec<String> = Vec::new();
        let mut i: usize = 0;
        while i < self.headers.len()
            invariant
                i <= self.headers.len(),
                r < self.rows.len(),
                row == self@.rows[r as int],
                row == cells(self.rows@[r as int]@),
                widths@.len() == self@.headers.len(),
                forall|k: int| 0 <= k < widths@.len() ==> widths@[k] == self@.width(k),
                want == Seq::new(self@.headers.len(), |i: int| self@.padded_cell(row, i)),
                texts(parts@) == want.take(i as int),
            decreases self.headers.len() - i,
        {
            let part = if i < self.rows[r].len() {
                let cell = &self.rows[r][i];
                pad(
                    cell.rendered.as_str(),
                    cell.plain.as_str().unicode_len(),
                    widths[i],
                    self.align(i),
                )
            } else {
                pad("", 0, widths[i], self.align(i))
            };
            proof {
                reveal_strlit("");
                assert(""@ =~= seq![]);
            }
            push_text(&mut parts, part);
            proof {
                assert(texts(parts@) =~= want.take(i + 1));
            }
            i = i + 1;
        }
        proof {
            assert(want.take(want.len() as int) =~= want);
        }
        let body = join(&parts, "  ");
        trim_end(indent(body.as_str()).as_str())
    }
}

/// `rendered` (whose visible width is `plain_w`) with blanks up to `target`
/// columns, behind it or in front of it.
pub open spec fn padded(rendered: Chars, plain_w: nat, target: nat, align: Align) -> Chars {
    match align {
        Align::Left => rendered + repeated(' ', target - plain_w),
        Align::Right => repeated(' ', target - plain_w) + rendered,
    }
}

/// Pad `rendered` (whose visible width is `plain_w`) to `target` columns.
fn pad(rendered: &str, plain_w: usize, target: usize, align: Align) -> (s: String)
    ensures
        s@ == padded(rendered@, plain_w as nat, target as nat, align),
{
    let fill: usize = if target > plain_w {
        target - plain_w
    } else {
        0
    };
    let blanks = repeat_char(' ', fill);
    proof {
        assert(blanks@ =~= repeated(' ', target - plain_w));
    }
    match align {
        Align::Left => {
            let mut s = rendered.to_owned();
            s.append(blanks.as_str());
            s
        }
        Align::Right => {
            let mut s = blanks;
            s.append(rendered);
            s
        }
    }
}

proof fn lemma_width_grows(t: TableView, i: int, m: int, n: int)
    requires
        0 <= m <= n <= t.rows.len(),
    ensures
        t.width_among(i, m) <= t.width_among(i, n),
    decreases n - m,
{
    if m < n {
        lemma_width_grows(t, i, m, n - 1);
    }
}

/// Columns line up: a column is as wide as its header and as every cell in it,
/// so a cell's visible text and its padding together take exactly the width of
/// the column, whatever escapes the rendered form holds.
pub proof fn law_columns_align(t: TableView, r: int, i: int)
    requires
        0 <= r < t.rows.len(),
        0 <= i < t.headers.len(),
    ensures
        t.headers[i].len() <= t.width(i),
        cell_width(t.rows[r], i) <= t.width(i),
        cell_width(t.rows[r], i) + repeated(' ', t.width(i) - cell_width(t.rows[r], i)).len()
            == t.width(i),
        t.padded_cell(t.rows[r], i).len() + cell_width(t.rows[r], i) == t.width(i) + (if i
            < t.rows[r].len() {
            t.rows[r][i].rendered.len()
        } else {
            0
        }),
{
    lemma_width_grows(t, i, 0, t.rows.len() as int);
    lemma_width_grows(t, i, r + 1, t.rows.len() as int);
}

} // verus!
