//! `registry tokens`: the registration tokens and whether they were used.
use vstd::prelude::*;
use crate::display::{column_shows, listing, listing_lines, texts, view_lines, Coloring, Line, LineView, Table, TableView};
use crate::request::{get, ApiRequest, ApiRequestView, BodyView, Method};
use crate::text::{byte_prefix, can_slice_to, or_text, prefix_bytes, text_or};

verus! {

/// A registration token as the server describes it.
#[derive(Debug, PartialEq, Eq)]
pub struct Token {
    pub id: String,
    pub description: Option<String>,
    pub created_at: String,
    pub expires_at: String,
    pub used: bool,
}

/// The request for the registration tokens.
pub fn request() -> (r: ApiRequest)
    ensures
        r@ == (ApiRequestView {
            method: Method::Get,
            path: "/registry/admin/tokens"@,
            body: BodyView::Empty,
            spinner: Some("fetching registration tokens..."@),
        }),
{
    get("/registry/admin/tokens".to_owned(), "fetching registration tokens...")
}

/// The row of a token.
pub open spec fn row(t: Token) -> Seq<Seq<char>> {
    seq![
        byte_prefix(t.id@, 8),
        text_or(t.description, "-"@),
        t.created_at@,
        t.expires_at@,
        if t.used { "yes"@ } else { "no"@ },
    ]
}

/// The table of tokens.
pub open spec fn table(ts: Seq<Token>) -> TableView {
    TableView {
        headers: seq!["ID"@, "DESCRIPTION"@, "CREATED"@, "EXPIRES"@, "USED"@],
        rows: ts.map_values(|t: Token| row(t)),
        coloring: Some(Coloring::UsedColumn(4)),
    }
}

/// Each token has one row, and each column shows that token's own field: its description when
/// given (`-` only when not) and whether it was used.
/// The used / unused colours go to the USED column.
pub proof fn law_token_columns(ts: Seq<Token>)
    ensures
        table(ts).coloring matches Some(Coloring::UsedColumn(k)) && k < table(ts).headers.len() && table(ts).headers[k as int] == "USED"@,
        column_shows(table(ts), "ID"@, ts.map_values(|x: Token| byte_prefix(x.id@, 8))),
        column_shows(table(ts), "DESCRIPTION"@, ts.map_values(|x: Token| match x.description { Some(o) => o@, None => "-"@ })),
        column_shows(table(ts), "CREATED"@, ts.map_values(|x: Token| x.created_at@)),
        column_shows(table(ts), "EXPIRES"@, ts.map_values(|x: Token| x.expires_at@)),
        column_shows(table(ts), "USED"@, ts.map_values(|x: Token| if x.used { "yes"@ } else { "no"@ })),
{
    let t = table(ts);
    reveal_strlit("ID");
    reveal_strlit("DESCRIPTION");
    reveal_strlit("CREATED");
    reveal_strlit("EXPIRES");
    reveal_strlit("USED");
    assert("ID"@.len() == 2);
    assert("DESCRIPTION"@.len() == 11);
    assert("CREATED"@.len() == 7 && "CREATED"@[0] == 'C');
    assert("EXPIRES"@.len() == 7 && "EXPIRES"@[0] == 'E');
    assert("USED"@.len() == 4);
    assert(t.headers[0] == "ID"@);
    assert(t.headers[1] == "DESCRIPTION"@);
    assert(t.headers[2] == "CREATED"@);
    assert(t.headers[3] == "EXPIRES"@);
    assert(t.headers[4] == "USED"@);
}

/// What is shown of the tokens.
pub open spec fn screen(ts: Seq<Token>) -> Seq<LineView> {
    listing("Registry  /  Registration Tokens"@, "no tokens found"@, table(ts), " token(s)"@)
}

/// Whether every id can be shown.
pub open spec fn showable(ts: Seq<Token>) -> bool {
    forall|i: int| 0 <= i < ts.len() ==> can_slice_to((#[trigger] ts[i]).id@, 8)
}

fn row_cells(t: &Token) -> (cells: Vec<String>)
    requires
        can_slice_to(t.id@, 8),
    ensures
        texts(cells@) == row(*t),
{
    let mut cells: Vec<String> = Vec::new();
    cells.push(prefix_bytes(t.id.as_str(), 8));
    cells.push(or_text(&t.description, "-"));
    cells.push(t.created_at.clone());
    cells.push(t.expires_at.clone());
    cells.push(if t.used { "yes".to_owned() } else { "no".to_owned() });
    assert(texts(cells@) =~= row(*t));
    cells
}

/// The lines that show the tokens.
pub fn render(tokens: &Vec<Token>) -> (lines: Vec<Line>)
    requires
        showable(tokens@),
    ensures
        view_lines(lines@) == screen(tokens@),
{
    let mut t = Table::new(vec!["ID", "DESCRIPTION", "CREATED", "EXPIRES", "USED"]).with_color(Coloring::UsedColumn(4));
    let mut i: usize = 0;
    while i < tokens.len()
        invariant
            showable(tokens@),
            i <= tokens@.len(),
            t@.headers == table(tokens@).headers,
            t@.coloring == table(tokens@).coloring,
            t@.rows == tokens@.subrange(0, i as int).map_values(|x: Token| row(x)),
        decreases tokens@.len() - i,
    {
        t.add_row(row_cells(&tokens[i]));
        assert(tokens@.subrange(0, i + 1).map_values(|x: Token| row(x)) =~= tokens@.subrange(
            0,
            i as int,
        ).map_values(|x: Token| row(x)).push(row(tokens@[i as int])));
        i = i + 1;
    }
    assert(tokens@.subrange(0, tokens@.len() as int) =~= tokens@);
    listing_lines("Registry  /  Registration Tokens", "no tokens found", t, " token(s)")
}

} // verus!
