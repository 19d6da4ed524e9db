//! `registry pending`: agents registered ahead of their first contact.
use vstd::prelude::*;
use crate::display::{column_shows, listing, listing_lines, texts, view_lines, Line, LineView, Table, TableView};
use crate::request::{get, ApiRequest, ApiRequestView, BodyView, Method};
use crate::text::{byte_prefix, can_slice_to, or_text, prefix_bytes, text_or};

verus! {

/// A pending agent as the server describes it.
#[derive(Debug, PartialEq, Eq)]
pub struct PendingAgent {
    pub id: String,
    pub name: String,
    pub hostname: String,
    pub expected_os_type: Option<String>,
    pub expected_architecture: Option<String>,
    pub created_by: String,
    pub token_expires_at: String,
}

/// The request for the pending agents.
pub fn request() -> (r: ApiRequest)
    ensures
        r@ == (ApiRequestView {
            method: Method::Get,
            path: "/registry/admin/agents/pending"@,
            body: BodyView::Empty,
            spinner: Some("fetching pending agents..."@),
        }),
{
    get("/registry/admin/agents/pending".to_owned(), "fetching pending agents...")
}

/// The row of a pending agent.
pub open spec fn row(a: PendingAgent) -> Seq<Seq<char>> {
    seq![
        byte_prefix(a.id@, 8),
        a.name@,
        a.hostname@,
        text_or(a.expected_os_type, "-"@),
        text_or(a.expected_architecture, "-"@),
        a.created_by@,
        a.token_expires_at@,
    ]
}

/// The table of pending agents, without colours.
pub open spec fn table(as_: Seq<PendingAgent>) -> TableView {
    TableView {
        headers: seq!["ID"@, "NAME"@, "HOSTNAME"@, "EXPECTED OS"@, "ARCH"@, "CREATED BY"@, "TOKEN EXPIRES"@],
        rows: as_.map_values(|a: PendingAgent| row(a)),
        coloring: None,
    }
}

/// Each pending agent has one row, and each column shows that agent's own field: the id cut to
/// eight bytes, the expected system and architecture when known (`-` only when not).
/// The table is not coloured.
pub proof fn law_pending_columns(as_: Seq<PendingAgent>)
    ensures
        table(as_).coloring is None,
        column_shows(table(as_), "ID"@, as_.map_values(|x: PendingAgent| byte_prefix(x.id@, 8))),
        column_shows(table(as_), "NAME"@, as_.map_values(|x: PendingAgent| x.name@)),
        column_shows(table(as_), "HOSTNAME"@, as_.map_values(|x: PendingAgent| x.hostname@)),
        column_shows(table(as_), "EXPECTED OS"@, as_.map_values(|x: PendingAgent| match x.expected_os_type { Some(o) => o@, None => "-"@ })),
        column_shows(table(as_), "ARCH"@, as_.map_values(|x: PendingAgent| match x.expected_architecture { Some(a) => a@, None => "-"@ })),
        column_shows(table(as_), "CREATED BY"@, as_.map_values(|x: PendingAgent| x.created_by@)),
        column_shows(table(as_), "TOKEN EXPIRES"@, as_.map_values(|x: PendingAgent| x.token_expires_at@)),
{
    let t = table(as_);
    reveal_strlit("ID");
    reveal_strlit("NAME");
    reveal_strlit("HOSTNAME");
    reveal_strlit("EXPECTED OS");
    reveal_strlit("ARCH");
    reveal_strlit("CREATED BY");
    reveal_strlit("TOKEN EXPIRES");
    assert("ID"@.len() == 2);
    assert("NAME"@.len() == 4 && "NAME"@[0] == 'N');
    assert("HOSTNAME"@.len() == 8);
    assert("EXPECTED OS"@.len() == 11);
    assert("ARCH"@.len() == 4 && "ARCH"@[0] == 'A');
    assert("CREATED BY"@.len() == 10);
    assert("TOKEN EXPIRES"@.len() == 13);
    assert(t.headers[0] == "ID"@);
    assert(t.headers[1] == "NAME"@);
    assert(t.headers[2] == "HOSTNAME"@);
    assert(t.headers[3] == "EXPECTED OS"@);
    assert(t.headers[4] == "ARCH"@);
    assert(t.headers[5] == "CREATED BY"@);
    assert(t.headers[6] == "TOKEN EXPIRES"@);
}

/// What is shown of the pending agents.
pub open spec fn screen(as_: Seq<PendingAgent>) -> Seq<LineView> {
    listing("Registry  /  Pending Agents"@, "no pending agents"@, table(as_), " pending agent(s)"@)
}

/// Whether every id can be shown.
pub open spec fn showable(as_: Seq<PendingAgent>) -> bool {
    forall|i: int| 0 <= i < as_.len() ==> can_slice_to((#[trigger] as_[i]).id@, 8)
}

fn row_cells(a: &PendingAgent) -> (cells: Vec<String>)
    requires
        can_slice_to(a.id@, 8),
    ensures
        texts(cells@) == row(*a),
{
    let mut cells: Vec<String> = Vec::new();
    cells.push(prefix_bytes(a.id.as_str(), 8));
    cells.push(a.name.clone());
    cells.push(a.hostname.clone());
    cells.push(or_text(&a.expected_os_type, "-"));
    cells.push(or_text(&a.expected_architecture, "-"));
    cells.push(a.created_by.clone());
    cells.push(a.token_expires_at.clone());
    assert(texts(cells@) =~= row(*a));
    cells
}

/// The lines that show the pending agents.
pub fn render(agents: &Vec<PendingAgent>) -> (lines: Vec<Line>)
    requires
        showable(agents@),
    ensures
        view_lines(lines@) == screen(agents@),
{
    let mut t = Table::new(vec!["ID", "NAME", "HOSTNAME", "EXPECTED OS", "ARCH", "CREATED BY", "TOKEN EXPIRES"]);
    let mut i: usize = 0;
    while i < agents.len()
        invariant
            showable(agents@),
            i <= agents@.len(),
            t@.headers == table(agents@).headers,
            t@.coloring == table(agents@).coloring,
            t@.rows == agents@.subrange(0, i as int).map_values(|a: PendingAgent| row(a)),
        decreases agents@.len() - i,
    {
        t.add_row(row_cells(&agents[i]));
        assert(agents@.subrange(0, i + 1).map_values(|a: PendingAgent| row(a)) =~= agents@.subrange(
            0,
            i as int,
        ).map_values(|a: PendingAgent| row(a)).push(row(agents@[i as int])));
        i = i + 1;
    }
    assert(agents@.subrange(0, agents@.len() as int) =~= agents@);
    listing_lines("Registry  /  Pending Agents", "no pending agents", t, " pending agent(s)")
}

} // verus!
