//! Colours, tables and the lines that commands put on the terminal.
use vstd::prelude::*;
use vstd::utf8::{is_ascii_chars, is_ascii_chars_encode_utf8};
use crate::text::{byte_len, concat, decimal, law_decimal_reads_back, pad_right, padded, repeat_char, repeat_text, same_text, usize_to_string, utf8_len, value_of_digits};

verus! {

/// The terminal colours the client paints with.
#[derive(Clone, Copy, Debug, PartialEq, Eq, Structural)]
pub enum Color {
    White,
    Green,
    Yellow,
    Red,
    Cyan,
}

/// The lowercase form of a string, as `str::to_lowercase` computes it
/// (Unicode's lowercase mapping, which may change a string's length).
pub uninterp spec fn lowercased(s: Seq<char>) -> Seq<char>;

/// `str::to_lowercase`. Trusted: its result depends on the characters of `s` alone,
/// and is named `lowercased(s@)`; nothing more of the mapping is stated.
#[verifier::external_body]
fn to_lowercase(s: &str) -> (res: String)
    ensures
        res@ == lowercased(s@),
{
    s.to_lowercase()
}

/// The colour of a status word that is already in lowercase.
pub open spec fn color_of_lowered(s: Seq<char>) -> Color {
    if s == "available"@ || s == "online"@ || s == "active"@ || s == "healthy"@ || s == "leader"@ {
        Color::Green
    } else if s == "creating"@ || s == "migrating"@ || s == "degraded"@ || s == "follower"@ {
        Color::Yellow
    } else if s == "error"@ || s == "offline"@ || s == "deleting"@ || s == "failed"@ {
        Color::Red
    } else if s == "inuse"@ || s == "in_use"@ {
        Color::Cyan
    } else {
        Color::White
    }
}

/// The colour of a status word, whatever its case.
pub open spec fn status_color_of(s: Seq<char>) -> Color {
    color_of_lowered(lowercased(s))
}

/// The colour of a status word that is already in lowercase.
pub fn status_color_lowered(s: &str) -> (c: Color)
    ensures
        c == color_of_lowered(s@),
{
    if same_text(s, "available") || same_text(s, "online") || same_text(s, "active")
        || same_text(s, "healthy") || same_text(s, "leader") {
        Color::Green
    } else if same_text(s, "creating") || same_text(s, "migrating") || same_text(s, "degraded")
        || same_text(s, "follower") {
        Color::Yellow
    } else if same_text(s, "error") || same_text(s, "offline") || same_text(s, "deleting")
        || same_text(s, "failed") {
        Color::Red
    } else if same_text(s, "inuse") || same_text(s, "in_use") {
        Color::Cyan
    } else {
        Color::White
    }
}

/// Status colours ignore case: two words with the same lowercase form get the same colour.
pub proof fn law_status_color_ignores_case(a: Seq<char>, b: Seq<char>)
    requires
        lowercased(a) == lowercased(b),
    ensures
        status_color_of(a) == status_color_of(b),
{
}

/// Status colours, case ignored: green exactly for `available`, `online`, `active`, `healthy`
/// and `leader`; yellow exactly for `creating`, `migrating`, `degraded` and `follower`; red
/// exactly for `error`, `offline`, `deleting` and `failed`; cyan exactly for `inuse` and
/// `in_use`; white for every other word.
pub proof fn law_status_colors(s: Seq<char>)
    ensures
        (status_color_of(s) == Color::Green) <==> (lowercased(s) == "available"@ || lowercased(s) == "online"@ || lowercased(s) == "active"@ || lowercased(s) == "healthy"@ || lowercased(s) == "leader"@),
        (status_color_of(s) == Color::Yellow) <==> (lowercased(s) == "creating"@ || lowercased(s) == "migrating"@ || lowercased(s) == "degraded"@ || lowercased(s) == "follower"@),
        (status_color_of(s) == Color::Red) <==> (lowercased(s) == "error"@ || lowercased(s) == "offline"@ || lowercased(s) == "deleting"@ || lowercased(s) == "failed"@),
        (status_color_of(s) == Color::Cyan) <==> (lowercased(s) == "inuse"@ || lowercased(s) == "in_use"@),
        (status_color_of(s) == Color::White) <==> !(lowercased(s) == "available"@ || lowercased(s) == "online"@ || lowercased(s) == "active"@ || lowercased(s) == "healthy"@ || lowercased(s) == "leader"@ || lowercased(s) == "creating"@ || lowercased(s) == "migrating"@ || lowercased(s) == "degraded"@ || lowercased(s) == "follower"@ || lowercased(s) == "error"@ || lowercased(s) == "offline"@ || lowercased(s) == "deleting"@ || lowercased(s) == "failed"@ || lowercased(s) == "inuse"@ || lowercased(s) == "in_use"@),
{
    reveal_strlit("available");
    reveal_strlit("online");
    reveal_strlit("active");
    reveal_strlit("healthy");
    reveal_strlit("leader");
    reveal_strlit("creating");
    reveal_strlit("migrating");
    reveal_strlit("degraded");
    reveal_strlit("follower");
    reveal_strlit("error");
    reveal_strlit("offline");
    reveal_strlit("deleting");
    reveal_strlit("failed");
    reveal_strlit("inuse");
    reveal_strlit("in_use");
    assert("available"@.len() == 9 && "available"@[0] == 'a');
    assert("online"@.len() == 6 && "online"@[0] == 'o');
    assert("active"@.len() == 6 && "active"@[0] == 'a');
    assert("healthy"@.len() == 7 && "healthy"@[0] == 'h');
    assert("leader"@.len() == 6 && "leader"@[0] == 'l');
    assert("creating"@.len() == 8 && "creating"@[0] == 'c');
    assert("migrating"@.len() == 9 && "migrating"@[0] == 'm');
    assert("degraded"@.len() == 8 && "degraded"@[0] == 'd' && "degraded"@[2] == 'g');
    assert("follower"@.len() == 8 && "follower"@[0] == 'f');
    assert("error"@.len() == 5 && "error"@[0] == 'e');
    assert("offline"@.len() == 7 && "offline"@[0] == 'o');
    assert("deleting"@.len() == 8 && "deleting"@[0] == 'd' && "deleting"@[2] == 'l');
    assert("failed"@.len() == 6 && "failed"@[0] == 'f');
    assert("inuse"@.len() == 5 && "inuse"@[0] == 'i');
    assert("in_use"@.len() == 6 && "in_use"@[0] == 'i');
}

/// The colour in which a status word is shown: green for healthy states, yellow for
/// transitions, red for failures, cyan for volumes in use, white otherwise; case is ignored.
pub fn status_color(status: &str) -> (c: Color)
    ensures
        c == status_color_of(status@),
{
    let lowered = to_lowercase(status);
    status_color_lowered(lowered.as_str())
}

/// How the cells of a table are coloured.
#[derive(Clone, Copy, Debug, PartialEq, Eq, Structural)]
pub enum Coloring {
    /// Cells of the given column in their status colour, all others white.
    StatusColumn(usize),
    /// Cells of the given column green when they read `allow`, red otherwise; all others white.
    ActionColumn(usize),
    /// Cells of the given column green when they read `yes`, yellow otherwise; all others white.
    UsedColumn(usize),
    /// The `status` column in its status colour, the `role` column cyan for a leader.
    RoleAndStatus { role: usize, status: usize },
    /// Every cell white.
    AllWhite,
}

/// The colour of the cell in column `col` that reads `val`.
pub open spec fn cell_color_of(rule: Coloring, col: int, val: Seq<char>) -> Color {
    match rule {
        Coloring::StatusColumn(k) => if col == k { status_color_of(val) } else { Color::White },
        Coloring::ActionColumn(k) => if col == k {
            if val == "allow"@ { Color::Green } else { Color::Red }
        } else {
            Color::White
        },
        Coloring::UsedColumn(k) => if col == k {
            if val == "yes"@ { Color::Green } else { Color::Yellow }
        } else {
            Color::White
        },
        Coloring::RoleAndStatus { role, status } => if col == status {
            status_color_of(val)
        } else if col == role {
            if val == "leader"@ || val == "Leader"@ { Color::Cyan } else { Color::White }
        } else {
            Color::White
        },
        Coloring::AllWhite => Color::White,
    }
}

/// The colour of the cell in column `col` that reads `val`.
pub fn cell_color(rule: Coloring, col: usize, val: &str) -> (c: Color)
    ensures
        c == cell_color_of(rule, col as int, val@),
{
    match rule {
        Coloring::StatusColumn(k) => if col == k { status_color(val) } else { Color::White },
        Coloring::ActionColumn(k) => if col == k {
            if same_text(val, "allow") { Color::Green } else { Color::Red }
        } else {
            Color::White
        },
        Coloring::UsedColumn(k) => if col == k {
            if same_text(val, "yes") { Color::Green } else { Color::Yellow }
        } else {
            Color::White
        },
        Coloring::RoleAndStatus { role, status } => if col == status {
            status_color(val)
        } else if col == role {
            if same_text(val, "leader") || same_text(val, "Leader") { Color::Cyan } else { Color::White }
        } else {
            Color::White
        },
        Coloring::AllWhite => Color::White,
    }
}

/// The characters of each string in a list.
pub open spec fn texts(v: Seq<String>) -> Seq<Seq<char>> {
    v.map_values(|s: String| s@)
}

/// The characters of each cell of each row.
pub open spec fn row_texts(rows: Seq<Vec<String>>) -> Seq<Seq<Seq<char>>> {
    rows.map_values(|r: Vec<String>| texts(r@))
}

/// A table: a header line, then one line per row, with optional cell colours.
#[derive(Debug, PartialEq, Eq)]
pub struct Table {
    headers: Vec<String>,
    rows: Vec<Vec<String>>,
    coloring: Option<Coloring>,
}

/// What a table holds: its headers, its rows and how its cells are coloured.
pub struct TableView {
    pub headers: Seq<Seq<char>>,
    pub rows: Seq<Seq<Seq<char>>>,
    pub coloring: Option<Coloring>,
}

impl View for Table {
    type V = TableView;

    closed spec fn view(&self) -> TableView {
        TableView { headers: texts(self.headers@), rows: row_texts(self.rows@), coloring: self.coloring }
    }
}

/// The width of column `i` over the given rows: the longest of the header and of the
/// row cells in that column, each counted in bytes.
pub open spec fn width_over(header: Seq<char>, rows: Seq<Seq<Seq<char>>>, i: int) -> nat
    decreases rows.len(),
{
    if rows.len() == 0 {
        byte_len(header)
    } else {
        let w = width_over(header, rows.drop_last(), i);
        let last = rows.last();
        if i < last.len() && byte_len(last[i]) > w {
            byte_len(last[i])
        } else {
            w
        }
    }
}

/// The width of column `i` of a table.
pub open spec fn column_width(t: TableView, i: int) -> nat {
    width_over(t.headers[i], t.rows, i)
}

/// The sum of the widths of the first `k` columns.
pub open spec fn widths_sum(t: TableView, k: int) -> nat
    decreases k,
{
    if k <= 0 {
        0
    } else {
        widths_sum(t, k - 1) + column_width(t, k - 1)
    }
}

/// The length of the rule under the header: the column widths plus three per column, at most 120.
pub open spec fn separator_len(t: TableView) -> nat {
    let total = widths_sum(t, t.headers.len() as int) + 3 * t.headers.len();
    if total < 120 { total } else { 120 }
}

/// The width to which cell `i` of a row is padded: its column's width, or its own
/// length in bytes when the row is longer than the header.
pub open spec fn cell_width(t: TableView, i: int, cell: Seq<char>) -> nat {
    if i < t.headers.len() { column_width(t, i) } else { byte_len(cell) }
}

/// One cell of a laid-out row: its padded text and its colour, if the table has colours.
#[derive(Debug, PartialEq, Eq)]
pub struct StyledCell {
    pub text: String,
    pub color: Option<Color>,
}

/// A laid-out table: padded header cells, the rule under them, and the padded, coloured cells of each row.
#[derive(Debug, PartialEq, Eq)]
pub struct RenderedTable {
    pub header: Vec<String>,
    pub separator: String,
    pub rows: Vec<Vec<StyledCell>>,
}

/// Whether `r` lays out `t` as the terminal shows it: each header padded to its column's
/// width, a rule of `─` of `separator_len(t)` characters, and each cell padded to its
/// column's width and coloured by the table's rule.
pub open spec fn lays_out(t: TableView, r: RenderedTable) -> bool {
    &&& r.header@.len() == t.headers.len()
    &&& forall|i: int| 0 <= i < t.headers.len() ==>
        (#[trigger] r.header@[i])@ == pad_right(t.headers[i], column_width(t, i))
    &&& r.separator@ == repeat_char('─', separator_len(t))
    &&& r.rows@.len() == t.rows.len()
    &&& forall|k: int| 0 <= k < t.rows.len() ==> (#[trigger] r.rows@[k])@.len() == t.rows[k].len()
    &&& forall|k: int, i: int| 0 <= k < t.rows.len() && 0 <= i < t.rows[k].len() ==> {
        let cell = t.rows[k][i];
        &&& (#[trigger] r.rows@[k]@[i]).text@ == pad_right(cell, cell_width(t, i, cell))
        &&& r.rows@[k]@[i].color == match t.coloring {
            Some(rule) => Some(cell_color_of(rule, i, cell)),
            None => None,
        }
    }
}

proof fn lemma_width_over_bounds(header: Seq<char>, rows: Seq<Seq<Seq<char>>>, i: int)
    ensures
        byte_len(header) <= width_over(header, rows, i),
        forall|k: int| 0 <= k < rows.len() && 0 <= i < rows[k].len() ==>
            byte_len(#[trigger] rows[k][i]) <= width_over(header, rows, i),
    decreases rows.len(),
{
    if rows.len() > 0 {
        lemma_width_over_bounds(header, rows.drop_last(), i);
        assert forall|k: int| 0 <= k < rows.len() && 0 <= i < rows[k].len() implies
            byte_len(#[trigger] rows[k][i]) <= width_over(header, rows, i) by {
            if k < rows.len() - 1 {
                assert(rows[k] == rows.drop_last()[k]);
            }
        }
    }
}

/// A column is as wide as its header and as each of its cells, counted in bytes.
pub proof fn law_column_width_bounds(t: TableView, i: int)
    requires
        0 <= i < t.headers.len(),
    ensures
        byte_len(t.headers[i]) <= column_width(t, i),
        forall|k: int| 0 <= k < t.rows.len() && i < t.rows[k].len() ==>
            byte_len(#[trigger] t.rows[k][i]) <= column_width(t, i),
{
    lemma_width_over_bounds(t.headers[i], t.rows, i);
}

proof fn lemma_width_over_attained(header: Seq<char>, rows: Seq<Seq<Seq<char>>>, i: int)
    requires
        0 <= i,
    ensures
        width_over(header, rows, i) == byte_len(header) || exists|k: int|
            0 <= k < rows.len() && 0 <= i < rows[k].len() && width_over(header, rows, i) == byte_len(
                #[trigger] rows[k][i],
            ),
    decreases rows.len(),
{
    if rows.len() > 0 {
        lemma_width_over_attained(header, rows.drop_last(), i);
        let last = rows.last();
        if i < last.len() && byte_len(last[i]) > width_over(header, rows.drop_last(), i) {
            assert(rows[rows.len() - 1][i] == last[i]);
        } else if width_over(header, rows.drop_last(), i) != byte_len(header) {
            let k = choose|k: int|
                0 <= k < rows.drop_last().len() && 0 <= i < rows.drop_last()[k].len() && width_over(
                    header,
                    rows.drop_last(),
                    i,
                ) == byte_len(#[trigger] rows.drop_last()[k][i]);
            assert(rows[k] == rows.drop_last()[k]);
        }
    }
}

/// A column is no wider than it must be: its width is that of its header or of one of its cells.
pub proof fn law_column_width_attained(t: TableView, i: int)
    requires
        0 <= i < t.headers.len(),
    ensures
        column_width(t, i) == byte_len(t.headers[i]) || exists|k: int|
            0 <= k < t.rows.len() && i < t.rows[k].len() && column_width(t, i) == byte_len(#[trigger] t.rows[k][i]),
{
    lemma_width_over_attained(t.headers[i], t.rows, i);
}

/// The rule under the header is never longer than 120 characters.
pub proof fn law_separator_at_most_120(t: TableView)
    ensures
        separator_len(t) <= 120,
{
}

/// On a table of ASCII text the columns line up: every header cell, and every row cell
/// under a header, is laid out exactly as wide as its column.
pub proof fn law_columns_align(t: TableView, r: RenderedTable)
    requires
        lays_out(t, r),
        forall|i: int| 0 <= i < t.headers.len() ==> is_ascii_chars(#[trigger] t.headers[i]),
        forall|k: int, i: int| 0 <= k < t.rows.len() && 0 <= i < t.rows[k].len() ==> is_ascii_chars(
            #[trigger] t.rows[k][i],
        ),
    ensures
        forall|i: int| 0 <= i < t.headers.len() ==> (#[trigger] r.header@[i])@.len() == column_width(t, i),
        forall|k: int, i: int| 0 <= k < t.rows.len() && 0 <= i < t.rows[k].len() && i < t.headers.len() ==> (
        #[trigger] r.rows@[k]@[i]).text@.len() == column_width(t, i),
{
    assert forall|i: int| 0 <= i < t.headers.len() implies (#[trigger] r.header@[i])@.len() == column_width(
        t,
        i,
    ) by {
        law_column_width_bounds(t, i);
        is_ascii_chars_encode_utf8(t.headers[i]);
    }
    assert forall|k: int, i: int| 0 <= k < t.rows.len() && 0 <= i < t.rows[k].len() && i < t.headers.len() implies (
    #[trigger] r.rows@[k]@[i]).text@.len() == column_width(t, i) by {
        law_column_width_bounds(t, i);
        is_ascii_chars_encode_utf8(t.rows[k][i]);
        assert(byte_len(t.rows[k][i]) <= column_width(t, i));
    }
}

impl Table {
    /// A table with the given headers, no rows and no colours.
    pub fn new(headers: Vec<&str>) -> (t: Table)
        ensures
            t@.headers == headers@.map_values(|h: &str| h@),
            t@.rows == Seq::<Seq<Seq<char>>>::empty(),
            t@.coloring == None::<Coloring>,
    {
        let mut hs: Vec<String> = Vec::new();
        let mut i: usize = 0;
        while i < headers.len()
            invariant
                i <= headers@.len(),
                hs@.len() == i,
                forall|j: int| 0 <= j < i ==> (#[trigger] hs@[j])@ == headers@[j]@,
            decreases headers@.len() - i,
        {
            hs.push(headers[i].to_owned());
            i = i + 1;
        }
        assert(texts(hs@) =~= headers@.map_values(|h: &str| h@));
        let rows: Vec<Vec<String>> = Vec::new();
        let t = Table { headers: hs, rows, coloring: None };
        assert(t@.rows =~= Seq::<Seq<Seq<char>>>::empty());
        t
    }

    /// The same table, with its cells coloured by `rule`.
    pub fn with_color(self, rule: Coloring) -> (t: Table)
        ensures
            t@.headers == self@.headers,
            t@.rows == self@.rows,
            t@.coloring == Some(rule),
    {
        Table { headers: self.headers, rows: self.rows, coloring: Some(rule) }
    }

    /// The number of rows.
    pub fn row_count(&self) -> (n: usize)
        ensures
            n == self@.rows.len(),
    {
        self.rows.len()
    }

    /// Appends a row.
    pub fn add_row(&mut self, row: Vec<String>)
        ensures
            final(self)@.headers == old(self)@.headers,
            final(self)@.rows == old(self)@.rows.push(texts(row@)),
            final(self)@.coloring == old(self)@.coloring,
    {
        self.rows.push(row);
        assert(self@.rows =~= old(self)@.rows.push(texts(row@)));
    }

    /// The width of each column.
    fn col_widths(&self) -> (widths: Vec<usize>)
        ensures
            widths@.len() == self@.headers.len(),
            forall|i: int| 0 <= i < widths@.len() ==> widths@[i] == column_width(self@, i),
    {
        let ghost t = self@;
        let mut widths: Vec<usize> = Vec::new();
        let mut i: usize = 0;
        while i < self.headers.len()
            invariant
                t == self@,
                i <= self.headers@.len(),
                widths@.len() == i,
                forall|j: int| 0 <= j < i ==> widths@[j] == byte_len(t.headers[j]),
            decreases self.headers@.len() - i,
        {
            widths.push(utf8_len(self.headers[i].as_str()));
            i = i + 1;
        }
        let mut r: usize = 0;
        while r < self.rows.len()
            invariant
                t == self@,
                r <= self.rows@.len(),
                widths@.len() == t.headers.len(),
                forall|j: int| 0 <= j < widths@.len() ==>
                    widths@[j] == width_over(t.headers[j], t.rows.subrange(0, r as int), j),
            decreases self.rows@.len() - r,
        {
            let row = &self.rows[r];
            let ghost before = widths@;
            let ghost prefix = t.rows.subrange(0, r + 1);
            assert(prefix.drop_last() =~= t.rows.subrange(0, r as int));
            assert(prefix.last() == texts(row@));
            let mut c: usize = 0;
            while c < row.len()
                invariant
                    t == self@,
                    r < self.rows@.len(),
                    *row == self.rows@[r as int],
                    prefix == t.rows.subrange(0, r + 1),
                    prefix.drop_last() == t.rows.subrange(0, r as int),
                    prefix.last() == texts(row@),
                    c <= row@.len(),
                    widths@.len() == before.len(),
                    before.len() == t.headers.len(),
                    forall|j: int| 0 <= j < before.len() ==>
                        before[j] == width_over(t.headers[j], t.rows.subrange(0, r as int), j),
                    forall|j: int| 0 <= j < widths@.len() && j < c ==>
                        widths@[j] == width_over(t.headers[j], prefix, j),
                    forall|j: int| 0 <= j < widths@.len() && j >= c ==> widths@[j] == before[j],
                decreases row@.len() - c,
            {
                if c < widths.len() {
                    let len = utf8_len(row[c].as_str());
                    proof {
                        assert(prefix.len() > 0);
                        assert(prefix.last()[c as int] == row@[c as int]@);
                        assert(width_over(t.headers[c as int], prefix, c as int) == if byte_len(
                            row@[c as int]@,
                        ) > before[c as int] {
                            byte_len(row@[c as int]@)
                        } else {
                            before[c as int] as nat
                        });
                    }
                    if len > widths[c] {
                        widths.set(c, len);
                    }
                }
                c = c + 1;
            }
            assert forall|j: int| 0 <= j < widths@.len() implies
                widths@[j] == width_over(t.headers[j], prefix, j) by {
                if j >= row@.len() {
                    assert(widths@[j] == before[j]);
                }
            }
            r = r + 1;
        }
        assert(t.rows.subrange(0, self.rows@.len() as int) =~= t.rows);
        widths
    }

    /// Lays the table out for the terminal: every cell padded to its column's width, the
    /// header followed by a rule, and each row cell coloured by the table's colouring.
    pub fn render(&self) -> (r: RenderedTable)
        ensures
            lays_out(self@, r),
    {
        let ghost t = self@;
        let widths = self.col_widths();
        let n = self.headers.len();
        let mut header: Vec<String> = Vec::new();
        let mut i: usize = 0;
        while i < n
            invariant
                t == self@,
                n == t.headers.len(),
                widths@.len() == n,
                forall|j: int| 0 <= j < n ==> widths@[j] == column_width(t, j),
                i <= n,
                header@.len() == i,
                forall|j: int| 0 <= j < i ==>
                    (#[trigger] header@[j])@ == pad_right(t.headers[j], column_width(t, j)),
            decreases n - i,
        {
            header.push(padded(self.headers[i].as_str(), widths[i]));
            i = i + 1;
        }
        let mut acc: usize = 0;
        let mut i: usize = 0;
        while i < n
            invariant
                t == self@,
                n == t.headers.len(),
                widths@.len() == n,
                forall|j: int| 0 <= j < n ==> widths@[j] == column_width(t, j),
                i <= n,
                acc == if widths_sum(t, i as int) < 120 { widths_sum(t, i as int) } else { 120 },
            decreases n - i,
        {
            let w = widths[i];
            if w >= 120 - acc {
                acc = 120;
            } else {
                acc = acc + w;
            }
            i = i + 1;
        }
        let sep_len: usize = if n >= 40 {
            120
        } else if acc + 3 * n < 120 {
            acc + 3 * n
        } else {
            120
        };
        proof { reveal_strlit("─"); }
        let separator = repeat_text("─", sep_len);
        let mut rows: Vec<Vec<StyledCell>> = Vec::new();
        let mut k: usize = 0;
        while k < self.rows.len()
            invariant
                t == self@,
                n == t.headers.len(),
                widths@.len() == n,
                forall|j: int| 0 <= j < n ==> widths@[j] == column_width(t, j),
                k <= t.rows.len(),
                rows@.len() == k,
                forall|q: int| 0 <= q < k ==> (#[trigger] rows@[q])@.len() == t.rows[q].len(),
                forall|q: int, j: int| 0 <= q < k && 0 <= j < t.rows[q].len() ==> {
                    let cell = t.rows[q][j];
                    &&& (#[trigger] rows@[q]@[j]).text@ == pad_right(cell, cell_width(t, j, cell))
                    &&& rows@[q]@[j].color == match t.coloring {
                        Some(rule) => Some(cell_color_of(rule, j, cell)),
                        None => None,
                    }
                },
            decreases t.rows.len() - k,
        {
            let row = &self.rows[k];
            assert(t.rows[k as int] == texts(row@));
            let mut out: Vec<StyledCell> = Vec::new();
            let mut c: usize = 0;
            while c < row.len()
                invariant
                    t == self@,
                    n == t.headers.len(),
                    widths@.len() == n,
                    forall|j: int| 0 <= j < n ==> widths@[j] == column_width(t, j),
                    k < t.rows.len(),
                    t.rows[k as int] == texts(row@),
                    c <= row@.len(),
                    out@.len() == c,
                    forall|j: int| 0 <= j < c ==> {
                        let cell = t.rows[k as int][j];
                        &&& (#[trigger] out@[j]).text@ == pad_right(cell, cell_width(t, j, cell))
                        &&& out@[j].color == match t.coloring {
                            Some(rule) => Some(cell_color_of(rule, j, cell)),
                            None => None,
                        }
                    },
                decreases row@.len() - c,
            {
                let cell = row[c].as_str();
                let w = if c < n { widths[c] } else { utf8_len(cell) };
                let text = padded(cell, w);
                let color = match self.coloring {
                    Some(rule) => Some(cell_color(rule, c, cell)),
                    None => None,
                };
                out.push(StyledCell { text, color });
                c = c + 1;
            }
            rows.push(out);
            k = k + 1;
        }
        RenderedTable { header, separator, rows }
    }
}


/// A usage gauge drawn as a bar: a percentage the server reported for the processor,
/// the memory or the disk, or the share `used / total` of two byte counts.
#[derive(Clone, Copy, Debug, PartialEq, Eq, Structural)]
pub enum Gauge {
    CpuPercent,
    MemoryPercent,
    DiskPercent,
    Ratio { used: i64, total: i64 },
}

/// One line (or block) of a command's output.
#[derive(Debug, PartialEq, Eq)]
pub enum Line {
    /// A section title.
    Section(String),
    /// A key, dimmed and padded to 20 characters, and its value.
    Kv(String, String),
    /// A key and its value in bold, in the given colour if there is one.
    KvStyled(String, String, Option<Color>),
    /// An empty line.
    Blank,
    /// A line marked as information.
    Info(String),
    /// A line marked as success.
    Success(String),
    /// A line marked as a warning.
    Warn(String),
    /// A line marked as an error, on the error stream.
    Error(String),
    /// A line of plain text.
    Text(String),
    /// A line of plain text on the error stream.
    Stderr(String),
    /// An indented line in bold, in the given colour if there is one.
    Emphasis(String, Option<Color>),
    /// A table.
    Table(Table),
    /// A key and a usage bar.
    Gauge(String, Gauge),
    /// A key and two byte counts shown in gigabytes: used, then total.
    Gigabytes(String, i128, i128),
    /// A key and a byte count shown in megabytes.
    Megabytes(String, i128),
    /// The health bar of the registry: agents online out of all agents.
    HealthBar(u64, u64),
}

/// What a line shows.
pub enum LineView {
    Section(Seq<char>),
    Kv(Seq<char>, Seq<char>),
    KvStyled(Seq<char>, Seq<char>, Option<Color>),
    Blank,
    Info(Seq<char>),
    Success(Seq<char>),
    Warn(Seq<char>),
    Error(Seq<char>),
    Text(Seq<char>),
    Stderr(Seq<char>),
    Emphasis(Seq<char>, Option<Color>),
    Table(TableView),
    Gauge(Seq<char>, Gauge),
    Gigabytes(Seq<char>, int, int),
    Megabytes(Seq<char>, int),
    HealthBar(nat, nat),
}

impl View for Line {
    type V = LineView;

    open spec fn view(&self) -> LineView {
        match self {
            Line::Section(s) => LineView::Section(s@),
            Line::Kv(k, v) => LineView::Kv(k@, v@),
            Line::KvStyled(k, v, c) => LineView::KvStyled(k@, v@, *c),
            Line::Blank => LineView::Blank,
            Line::Info(s) => LineView::Info(s@),
            Line::Success(s) => LineView::Success(s@),
            Line::Warn(s) => LineView::Warn(s@),
            Line::Error(s) => LineView::Error(s@),
            Line::Text(s) => LineView::Text(s@),
            Line::Stderr(s) => LineView::Stderr(s@),
            Line::Emphasis(s, c) => LineView::Emphasis(s@, *c),
            Line::Table(t) => LineView::Table(t@),
            Line::Gauge(k, g) => LineView::Gauge(k@, *g),
            Line::Gigabytes(k, u, t) => LineView::Gigabytes(k@, *u as int, *t as int),
            Line::Megabytes(k, b) => LineView::Megabytes(k@, *b as int),
            Line::HealthBar(o, t) => LineView::HealthBar(*o as nat, *t as nat),
        }
    }
}

/// What a list of lines shows.
pub open spec fn view_lines(lines: Seq<Line>) -> Seq<LineView> {
    lines.map_values(|l: Line| l@)
}

/// The key of a key-value line, if the line is one.
pub open spec fn line_key(l: LineView) -> Option<Seq<char>> {
    match l {
        LineView::Kv(k, _) => Some(k),
        LineView::KvStyled(k, _, _) => Some(k),
        _ => None,
    }
}

/// The value of a key-value line.
pub open spec fn line_value(l: LineView) -> Seq<char> {
    match l {
        LineView::Kv(_, v) => v,
        LineView::KvStyled(_, v, _) => v,
        _ => Seq::empty(),
    }
}

/// Whether the lines show `value` under `key`: some line has that key, and every line
/// with that key shows that value.
pub open spec fn shows(lines: Seq<LineView>, key: Seq<char>, value: Seq<char>) -> bool {
    &&& exists|i: int| 0 <= i < lines.len() && #[trigger] line_key(lines[i]) == Some(key) && line_value(lines[i]) == value
    &&& forall|i: int| 0 <= i < lines.len() && #[trigger] line_key(lines[i]) == Some(key) ==> line_value(lines[i]) == value
}

/// The colour of a key-value line: that of a bold line, none for a plain one.
pub open spec fn line_color(l: LineView) -> Option<Color> {
    match l {
        LineView::KvStyled(_, _, c) => c,
        _ => None,
    }
}

/// Whether every line under `key` is drawn in `color`.
pub open spec fn colors(lines: Seq<LineView>, key: Seq<char>, color: Option<Color>) -> bool {
    forall|i: int| 0 <= i < lines.len() && #[trigger] line_key(lines[i]) == Some(key) ==> line_color(lines[i]) == color
}

/// Whether the lines show no line under `key`.
pub open spec fn shows_nothing_under(lines: Seq<LineView>, key: Seq<char>) -> bool {
    forall|i: int| 0 <= i < lines.len() ==> #[trigger] line_key(lines[i]) != Some(key)
}

/// What two runs of lines show under a key, their concatenation shows: a value shown by one
/// run and absent from the other, or nothing when both have nothing there.
pub proof fn lemma_shows_concat(a: Seq<LineView>, b: Seq<LineView>, key: Seq<char>, value: Seq<char>)
    ensures
        shows(a, key, value) && shows_nothing_under(b, key) ==> shows(a + b, key, value),
        shows_nothing_under(a, key) && shows(b, key, value) ==> shows(a + b, key, value),
        shows_nothing_under(a, key) && shows_nothing_under(b, key) ==> shows_nothing_under(a + b, key),
{
    let ab = a + b;
    if shows(a, key, value) && shows_nothing_under(b, key) {
        let i = choose|i: int| 0 <= i < a.len() && #[trigger] line_key(a[i]) == Some(key) && line_value(a[i]) == value;
        assert(ab[i] == a[i]);
        assert forall|j: int| 0 <= j < ab.len() && #[trigger] line_key(ab[j]) == Some(key) implies line_value(ab[j]) == value by {
            if j < a.len() {
                assert(ab[j] == a[j]);
            } else {
                assert(ab[j] == b[j - a.len()]);
            }
        }
    }
    if shows_nothing_under(a, key) && shows(b, key, value) {
        let i = choose|i: int| 0 <= i < b.len() && #[trigger] line_key(b[i]) == Some(key) && line_value(b[i]) == value;
        assert(ab[a.len() + i] == b[i]);
        assert forall|j: int| 0 <= j < ab.len() && #[trigger] line_key(ab[j]) == Some(key) implies line_value(ab[j]) == value by {
            if j < a.len() {
                assert(ab[j] == a[j]);
            } else {
                assert(ab[j] == b[j - a.len()]);
            }
        }
    }
    if shows_nothing_under(a, key) && shows_nothing_under(b, key) {
        assert forall|j: int| 0 <= j < ab.len() implies #[trigger] line_key(ab[j]) != Some(key) by {
            if j < a.len() {
                assert(ab[j] == a[j]);
            } else {
                assert(ab[j] == b[j - a.len()]);
            }
        }
    }
}

/// The key of a line that shows a byte count in megabytes.
pub open spec fn megabytes_key(l: LineView) -> Option<Seq<char>> {
    match l {
        LineView::Megabytes(k, _) => Some(k),
        _ => None,
    }
}

/// The byte count of a line shown in megabytes.
pub open spec fn megabytes_value(l: LineView) -> int {
    match l {
        LineView::Megabytes(_, b) => b,
        _ => 0,
    }
}

/// Whether the lines show `bytes` in megabytes under `key`: some such line has that key,
/// and every such line with that key shows that count.
pub open spec fn shows_megabytes(lines: Seq<LineView>, key: Seq<char>, bytes: int) -> bool {
    &&& exists|i: int| 0 <= i < lines.len() && #[trigger] megabytes_key(lines[i]) == Some(key) && megabytes_value(lines[i]) == bytes
    &&& forall|i: int| 0 <= i < lines.len() && #[trigger] megabytes_key(lines[i]) == Some(key) ==> megabytes_value(lines[i]) == bytes
}

/// The key of a line that shows a used / total pair in gigabytes.
pub open spec fn gigabytes_key(l: LineView) -> Option<Seq<char>> {
    match l {
        LineView::Gigabytes(k, _, _) => Some(k),
        _ => None,
    }
}

/// The used / total pair of a line shown in gigabytes.
pub open spec fn gigabytes_value(l: LineView) -> (int, int) {
    match l {
        LineView::Gigabytes(_, u, t) => (u, t),
        _ => (0, 0),
    }
}

/// Whether the lines show the pair `used` / `total` in gigabytes under `key`, and no other pair under it.
pub open spec fn shows_gigabytes(lines: Seq<LineView>, key: Seq<char>, used: int, total: int) -> bool {
    &&& exists|i: int| 0 <= i < lines.len() && #[trigger] gigabytes_key(lines[i]) == Some(key) && gigabytes_value(lines[i]) == (used, total)
    &&& forall|i: int| 0 <= i < lines.len() && #[trigger] gigabytes_key(lines[i]) == Some(key) ==> gigabytes_value(lines[i]) == (used, total)
}

/// Whether no line shows a count in megabytes or gigabytes under `key`.
pub open spec fn shows_no_count_under(lines: Seq<LineView>, key: Seq<char>) -> bool {
    forall|i: int| #![trigger lines[i]] 0 <= i < lines.len() ==> megabytes_key(lines[i]) != Some(key) && gigabytes_key(lines[i]) != Some(key)
}

/// What two runs of lines show in megabytes or gigabytes under a key, their concatenation
/// shows: a count or pair shown by one run while the other has no count there, or nothing when
/// neither has.
pub proof fn lemma_counts_concat(a: Seq<LineView>, b: Seq<LineView>, key: Seq<char>, bytes: int, used: int, total: int)
    ensures
        shows_megabytes(a, key, bytes) && shows_no_count_under(b, key) ==> shows_megabytes(a + b, key, bytes),
        shows_no_count_under(a, key) && shows_megabytes(b, key, bytes) ==> shows_megabytes(a + b, key, bytes),
        shows_gigabytes(a, key, used, total) && shows_no_count_under(b, key) ==> shows_gigabytes(a + b, key, used, total),
        shows_no_count_under(a, key) && shows_gigabytes(b, key, used, total) ==> shows_gigabytes(a + b, key, used, total),
        shows_no_count_under(a, key) && shows_no_count_under(b, key) ==> shows_no_count_under(a + b, key),
{
    let ab = a + b;
    assert forall|j: int| 0 <= j < ab.len() implies #[trigger] ab[j] == if j < a.len() { a[j] } else { b[j - a.len()] } by {}
    if shows_megabytes(a, key, bytes) {
        let i = choose|i: int| 0 <= i < a.len() && #[trigger] megabytes_key(a[i]) == Some(key) && megabytes_value(a[i]) == bytes;
        assert(megabytes_key(ab[i]) == Some(key));
    }
    if shows_megabytes(b, key, bytes) {
        let i = choose|i: int| 0 <= i < b.len() && #[trigger] megabytes_key(b[i]) == Some(key) && megabytes_value(b[i]) == bytes;
        assert(megabytes_key(ab[a.len() + i]) == Some(key));
    }
    if shows_gigabytes(a, key, used, total) {
        let i = choose|i: int| 0 <= i < a.len() && #[trigger] gigabytes_key(a[i]) == Some(key) && gigabytes_value(a[i]) == (used, total);
        assert(gigabytes_key(ab[i]) == Some(key));
    }
    if shows_gigabytes(b, key, used, total) {
        let i = choose|i: int| 0 <= i < b.len() && #[trigger] gigabytes_key(b[i]) == Some(key) && gigabytes_value(b[i]) == (used, total);
        assert(gigabytes_key(ab[a.len() + i]) == Some(key));
    }
}

/// Whether a table has a column headed `header`, and each row `k` shows `cells[k]` in every column so headed.
pub open spec fn column_shows(t: TableView, header: Seq<char>, cells: Seq<Seq<char>>) -> bool {
    &&& exists|j: int| 0 <= j < t.headers.len() && #[trigger] t.headers[j] == header
    &&& t.rows.len() == cells.len()
    &&& forall|k: int, j: int|
        0 <= k < t.rows.len() && 0 <= j < t.headers.len() && #[trigger] t.headers[j] == header ==> j < t.rows[k].len()
            && #[trigger] t.rows[k][j] == cells[k]
}

/// A section title.
pub fn section(title: &str) -> (l: Line)
    ensures
        l@ == LineView::Section(title@),
{
    Line::Section(title.to_owned())
}

/// A key and its value.
pub fn kv(key: &str, value: &str) -> (l: Line)
    ensures
        l@ == LineView::Kv(key@, value@),
{
    Line::Kv(key.to_owned(), value.to_owned())
}

/// A key and its value in bold, in `color`.
pub fn kv_colored(key: &str, value: &str, color: Color) -> (l: Line)
    ensures
        l@ == LineView::KvStyled(key@, value@, Some(color)),
{
    Line::KvStyled(key.to_owned(), value.to_owned(), Some(color))
}

/// A line marked as information.
pub fn info(message: &str) -> (l: Line)
    ensures
        l@ == LineView::Info(message@),
{
    Line::Info(message.to_owned())
}

/// A line marked as success.
pub fn success(message: &str) -> (l: Line)
    ensures
        l@ == LineView::Success(message@),
{
    Line::Success(message.to_owned())
}

/// A line marked as a warning.
pub fn warn(message: &str) -> (l: Line)
    ensures
        l@ == LineView::Warn(message@),
{
    Line::Warn(message.to_owned())
}

/// A line marked as an error.
pub fn error(message: &str) -> (l: Line)
    ensures
        l@ == LineView::Error(message@),
{
    Line::Error(message.to_owned())
}

/// A line of plain text.
pub fn text(s: &str) -> (l: Line)
    ensures
        l@ == LineView::Text(s@),
{
    Line::Text(s.to_owned())
}

/// The output of a listing: its section title, then either the message for an empty
/// listing, or the table, an empty line and the count of rows followed by `suffix`.
pub open spec fn listing(title: Seq<char>, empty: Seq<char>, t: TableView, suffix: Seq<char>) -> Seq<LineView> {
    if t.rows.len() == 0 {
        seq![LineView::Section(title), LineView::Info(empty)]
    } else {
        seq![
            LineView::Section(title),
            LineView::Table(t),
            LineView::Blank,
            LineView::Info(decimal(t.rows.len()) + suffix),
        ]
    }
}

/// A listing either says that there is nothing to list, or shows one table row per item
/// and ends with their count.
pub proof fn law_listing_shape(title: Seq<char>, empty: Seq<char>, t: TableView, suffix: Seq<char>)
    ensures
        t.rows.len() == 0 ==> listing(title, empty, t, suffix) == seq![LineView::Section(title), LineView::Info(empty)],
        t.rows.len() > 0 ==> listing(title, empty, t, suffix).len() == 4 && listing(title, empty, t, suffix)[1]
            == LineView::Table(t) && listing(title, empty, t, suffix)[3] == LineView::Info(
            decimal(t.rows.len()) + suffix,
        ),
{
}

/// The lines of a listing.
pub fn listing_lines(title: &str, empty: &str, table: Table, suffix: &str) -> (lines: Vec<Line>)
    ensures
        view_lines(lines@) == listing(title@, empty@, table@, suffix@),
{
    let ghost t = table@;
    let n = table.row_count();
    let mut lines: Vec<Line> = Vec::new();
    lines.push(section(title));
    if n == 0 {
        lines.push(info(empty));
    } else {
        lines.push(Line::Table(table));
        lines.push(Line::Blank);
        let count = concat(usize_to_string(n).as_str(), suffix);
        lines.push(info(count.as_str()));
    }
    assert(view_lines(lines@) =~= listing(title@, empty@, t, suffix@));
    lines
}

/// The bar of a usage gauge: `filled` hashes, then dots up to `width` characters in all
/// (no dots once `filled` reaches `width`).
pub fn bar_cells(filled: usize, width: usize) -> (cells: (String, String))
    ensures
        cells.0@ == repeat_char('#', filled as nat),
        cells.1@ == repeat_char('.', (width - if filled < width { filled } else { width }) as nat),
{
    let empty = width - if filled < width { filled } else { width };
    proof {
        reveal_strlit("#");
        reveal_strlit(".");
    }
    (repeat_text("#", filled), repeat_text(".", empty))
}

/// A bar is as long as the larger of `filled` and `width`: exactly `width` characters until
/// it is full, only hashes beyond.
pub proof fn law_bar_width(filled: nat, width: nat)
    ensures
        repeat_char('#', filled).len() + repeat_char('.', (width - if filled < width { filled } else { width }) as nat).len()
            == if filled < width { width } else { filled },
{
}

/// Whether a character is white space in Unicode's sense, as `str::trim` takes it.
pub open spec fn is_white_space(c: char) -> bool {
    ||| ('\u{9}' <= c && c <= '\u{d}')
    ||| c == ' '
    ||| c == '\u{85}'
    ||| c == '\u{a0}'
    ||| c == '\u{1680}'
    ||| ('\u{2000}' <= c && c <= '\u{200a}')
    ||| c == '\u{2028}'
    ||| c == '\u{2029}'
    ||| c == '\u{202f}'
    ||| c == '\u{205f}'
    ||| c == '\u{3000}'
}

fn white_space(c: char) -> (b: bool)
    ensures
        b == is_white_space(c),
{
    ('\u{9}' <= c && c <= '\u{d}') || c == ' ' || c == '\u{85}' || c == '\u{a0}' || c == '\u{1680}' || (
    '\u{2000}' <= c && c <= '\u{200a}') || c == '\u{2028}' || c == '\u{2029}' || c == '\u{202f}' || c
        == '\u{205f}' || c == '\u{3000}'
}

/// Where the last `;`-separated field of `s[..k]` starts.
pub open spec fn field_start(s: Seq<char>, k: int) -> int
    decreases k,
{
    if k <= 0 {
        0
    } else if s[k - 1] == ';' {
        k
    } else {
        field_start(s, k - 1)
    }
}

/// The first index from `lo` (before `hi`) that is not white space.
pub open spec fn skip_white(s: Seq<char>, lo: int, hi: int) -> int
    decreases hi - lo,
{
    if lo < hi && is_white_space(s[lo]) {
        skip_white(s, lo + 1, hi)
    } else {
        lo
    }
}

/// The end of `s[lo..hi]` without its trailing white space.
pub open spec fn drop_white(s: Seq<char>, lo: int, hi: int) -> int
    decreases hi - lo,
{
    if lo < hi && is_white_space(s[hi - 1]) {
        drop_white(s, lo, hi - 1)
    } else {
        hi
    }
}

/// The last `;`-separated field of `s`, without surrounding white space.
pub open spec fn last_field_trimmed(s: Seq<char>) -> Seq<char> {
    let a = skip_white(s, field_start(s, s.len() as int), s.len() as int);
    s.subrange(a, drop_white(s, a, s.len() as int))
}

/// Whether a character is an ASCII digit.
pub open spec fn is_digit(c: char) -> bool {
    '0' <= c && c <= '9'
}

/// Whether every character is an ASCII digit.
pub open spec fn all_digits(d: Seq<char>) -> bool {
    forall|i: int| 0 <= i < d.len() ==> is_digit(#[trigger] d[i])
}

/// A number's text without its leading `+`, if it has one.
pub open spec fn unsigned_part(s: Seq<char>) -> Seq<char> {
    if s.len() > 0 && s[0] == '+' { s.drop_first() } else { s }
}

/// What `s.parse::<u8>()` gives: an optional `+`, then one or more digits spelling at most 255.
pub open spec fn parse_u8(s: Seq<char>) -> Option<nat> {
    let d = unsigned_part(s);
    if d.len() > 0 && all_digits(d) && value_of_digits(d) <= 255 {
        Some(value_of_digits(d))
    } else {
        None
    }
}

/// Whether a `COLORFGBG` value names a light background: its last field is a colour number of 8 or more.
pub open spec fn light_background(value: Seq<char>) -> bool {
    match parse_u8(last_field_trimmed(value)) {
        Some(n) => n >= 8,
        None => false,
    }
}

/// The last field of `s[..k]` starts right after a `;` at `lo - 1` when none follows it.
proof fn lemma_field_start_after(s: Seq<char>, lo: int, k: int)
    requires
        0 < lo <= k <= s.len(),
        s[lo - 1] == ';',
        forall|j: int| lo <= j < k ==> s[j] != ';',
    ensures
        field_start(s, k) == lo,
    decreases k,
{
    if k > lo {
        lemma_field_start_after(s, lo, k - 1);
    }
}

/// Only the last `;`-separated field of a `COLORFGBG` value counts: whatever comes before it,
/// a background colour number `n` names a light background exactly when `n` is 8 or more.
pub proof fn law_light_background_reads_last_field(before: Seq<char>, n: nat)
    requires
        n <= 255,
    ensures
        light_background(before + seq![';'] + decimal(n)) == (n >= 8),
{
    let d = decimal(n);
    let s = before + seq![';'] + d;
    let lo: int = before.len() as int + 1;
    law_decimal_reads_back(n);
    assert forall|j: int| lo <= j < s.len() implies s[j] != ';' by {
        assert(s[j] == d[j - lo]);
        assert('0' <= d[j - lo] <= '9');
    }
    assert(s[lo - 1] == ';');
    lemma_field_start_after(s, lo, s.len() as int);
    assert(s[lo] == d[0]);
    assert(!is_white_space(s[lo]));
    assert(s[s.len() - 1] == d[d.len() - 1]);
    assert('0' <= d[d.len() - 1] <= '9');
    assert(!is_white_space(s[s.len() - 1]));
    assert(s.subrange(lo, s.len() as int) =~= d);
    assert(last_field_trimmed(s) == d);
    assert(unsigned_part(d) == d);
    assert(all_digits(d));
}

/// Whether a `COLORFGBG` value (foreground and background colour numbers separated by `;`)
/// names a light background: the background, the last field, parses as a number of at least 8.
pub fn is_light_background_value(value: &str) -> (light: bool)
    ensures
        light == light_background(value@),
{
    let ghost s = value@;
    let n = value.unicode_len();
    let mut k: usize = n;
    while k > 0 && value.get_char(k - 1) != ';'
        invariant
            k <= n,
            n == s.len(),
            s == value@,
            field_start(s, n as int) == field_start(s, k as int),
        decreases k,
    {
        k = k - 1;
    }
    let mut lo: usize = k;
    while lo < n && white_space(value.get_char(lo))
        invariant
            k <= lo <= n,
            n == s.len(),
            s == value@,
            k as int == field_start(s, n as int),
            skip_white(s, k as int, n as int) == skip_white(s, lo as int, n as int),
        decreases n - lo,
    {
        lo = lo + 1;
    }
    let mut hi: usize = n;
    while hi > lo && white_space(value.get_char(hi - 1))
        invariant
            lo <= hi <= n,
            n == s.len(),
            s == value@,
            drop_white(s, lo as int, n as int) == drop_white(s, lo as int, hi as int),
        decreases hi,
    {
        hi = hi - 1;
    }
    let ghost t = s.subrange(lo as int, hi as int);
    assert(t == last_field_trimmed(s));
    let mut start: usize = lo;
    if start < hi && value.get_char(start) == '+' {
        start = start + 1;
    }
    let ghost d = unsigned_part(t);
    assert(d =~= s.subrange(start as int, hi as int));
    if start == hi {
        return false;
    }
    let mut v: u64 = 0;
    let mut i: usize = start;
    while i < hi
        invariant
            start <= i <= hi <= n,
            n == s.len(),
            s == value@,
            t == last_field_trimmed(s),
            d == unsigned_part(t),
            d == s.subrange(start as int, hi as int),
            forall|j: int| start <= j < i ==> is_digit(#[trigger] s[j]),
            v == if value_of_digits(s.subrange(start as int, i as int)) < 256 {
                value_of_digits(s.subrange(start as int, i as int))
            } else {
                256
            },
        decreases hi - i,
    {
        let c = value.get_char(i);
        if !('0' <= c && c <= '9') {
            assert(!is_digit(d[i - start]));
            assert(parse_u8(t) is None);
            return false;
        }
        let digit: u64 = (c as u64) - ('0' as u64);
        assert(s.subrange(start as int, i + 1).drop_last() =~= s.subrange(start as int, i as int));
        v = if v * 10 + digit < 256 { v * 10 + digit } else { 256 };
        i = i + 1;
    }
    assert forall|j: int| 0 <= j < d.len() implies is_digit(#[trigger] d[j]) by {
        assert(d[j] == s[start + j]);
    }
    assert(all_digits(d));
    v < 256 && v >= 8
}

/// The six lines of the banner's lettering.
pub open spec fn banner_art() -> Seq<Seq<char>> {
    seq![
        "   ██████╗███████╗███████╗██╗  ██╗"@,
        "  ██╔════╝██╔════╝██╔════╝╚██╗██╔╝"@,
        "  ██║     ███████╗█████╗   ╚███╔╝ "@,
        "  ██║     ╚════██║██╔══╝   ██╔██╗ "@,
        "  ╚██████╗███████║██║     ██╔╝╚██╗"@,
        "   ╚═════╝╚══════╝╚═╝     ╚═╝  ╚═╝"@,
    ]
}

/// The grey of each banner line: darkening downward on a light background, from white on a dark one.
pub open spec fn banner_shades(light: bool) -> Seq<(u8, u8, u8)> {
    if light {
        seq![(30, 30, 30), (60, 60, 60), (90, 90, 90), (120, 120, 120), (150, 150, 150), (180, 180, 180)]
    } else {
        seq![(255, 255, 255), (220, 220, 220), (185, 185, 185), (150, 150, 150), (115, 115, 115), (80, 80, 80)]
    }
}

/// The banner's lines, each with its colour.
pub fn banner_lines(light: bool) -> (lines: Vec<(String, (u8, u8, u8))>)
    ensures
        lines@.len() == 6,
        forall|i: int| 0 <= i < 6 ==> (#[trigger] lines@[i]).0@ == banner_art()[i] && lines@[i].1 == banner_shades(light)[i],
{
    let shades: Vec<(u8, u8, u8)> = if light {
        vec![(30, 30, 30), (60, 60, 60), (90, 90, 90), (120, 120, 120), (150, 150, 150), (180, 180, 180)]
    } else {
        vec![(255, 255, 255), (220, 220, 220), (185, 185, 185), (150, 150, 150), (115, 115, 115), (80, 80, 80)]
    };
    assert(shades@ =~= banner_shades(light));
    let mut lines: Vec<(String, (u8, u8, u8))> = Vec::new();
    lines.push(("   ██████╗███████╗███████╗██╗  ██╗".to_owned(), shades[0]));
    lines.push(("  ██╔════╝██╔════╝██╔════╝╚██╗██╔╝".to_owned(), shades[1]));
    lines.push(("  ██║     ███████╗█████╗   ╚███╔╝ ".to_owned(), shades[2]));
    lines.push(("  ██║     ╚════██║██╔══╝   ██╔██╗ ".to_owned(), shades[3]));
    lines.push(("  ╚██████╗███████║██║     ██╔╝╚██╗".to_owned(), shades[4]));
    lines.push(("   ╚═════╝╚══════╝╚═╝     ╚═╝  ╚═╝".to_owned(), shades[5]));
    lines
}

} // verus!
