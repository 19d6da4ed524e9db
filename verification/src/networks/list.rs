//! `networks list`: every network, one row each.
use vstd::prelude::*;
use crate::display::{column_shows, listing, listing_lines, texts, view_lines, Coloring, Line, LineView, Table, TableView};
use crate::request::{get, ApiRequest, ApiRequestView, BodyView, Method};
use crate::text::{byte_prefix, can_show_upto, can_slice_to, prefix_bytes, prefix_upto};

verus! {

/// A network as the server lists it.
#[derive(Debug, PartialEq, Eq)]
pub struct Network {
    pub id: String,
    pub name: String,
    pub cidr: String,
    pub overlay_type: String,
    pub status: String,
    pub created_at: String,
}

/// The request for all networks.
pub fn request() -> (r: ApiRequest)
    ensures
        r@ == (ApiRequestView {
            method: Method::Get,
            path: "/networks"@,
            body: BodyView::Empty,
            spinner: Some("fetching networks..."@),
        }),
{
    get("/networks".to_owned(), "fetching networks...")
}

/// The row of a network: the first eight bytes of its id, and the first sixteen of its creation time.
pub open spec fn row(n: Network) -> Seq<Seq<char>> {
    seq![
        byte_prefix(n.id@, 8),
        n.name@,
        n.cidr@,
        n.overlay_type@,
        n.status@,
        byte_prefix(n.created_at@, 16),
    ]
}

/// The table of networks.
pub open spec fn table(ns: Seq<Network>) -> TableView {
    TableView {
        headers: seq!["ID"@, "NAME"@, "CIDR"@, "OVERLAY"@, "STATUS"@, "CREATED"@],
        rows: ns.map_values(|n: Network| row(n)),
        coloring: Some(Coloring::StatusColumn(4)),
    }
}

/// Each network has one row, and each column shows that network's own field.
/// The status colours go to the STATUS column.
pub proof fn law_network_columns(ns: Seq<Network>)
    ensures
        table(ns).coloring matches Some(Coloring::StatusColumn(k)) && k < table(ns).headers.len() && table(ns).headers[k as int] == "STATUS"@,
        column_shows(table(ns), "ID"@, ns.map_values(|x: Network| byte_prefix(x.id@, 8))),
        column_shows(table(ns), "NAME"@, ns.map_values(|x: Network| x.name@)),
        column_shows(table(ns), "CIDR"@, ns.map_values(|x: Network| x.cidr@)),
        column_shows(table(ns), "OVERLAY"@, ns.map_values(|x: Network| x.overlay_type@)),
        column_shows(table(ns), "STATUS"@, ns.map_values(|x: Network| x.status@)),
        column_shows(table(ns), "CREATED"@, ns.map_values(|x: Network| byte_prefix(x.created_at@, 16))),
{
    let t = table(ns);
    reveal_strlit("ID");
    reveal_strlit("NAME");
    reveal_strlit("CIDR");
    reveal_strlit("OVERLAY");
    reveal_strlit("STATUS");
    reveal_strlit("CREATED");
    assert("ID"@.len() == 2);
    assert("NAME"@.len() == 4 && "NAME"@[0] == 'N');
    assert("CIDR"@.len() == 4 && "CIDR"@[0] == 'C');
    assert("OVERLAY"@.len() == 7 && "OVERLAY"@[0] == 'O');
    assert("STATUS"@.len() == 6);
    assert("CREATED"@.len() == 7 && "CREATED"@[0] == 'C');
    assert(t.headers[0] == "ID"@);
    assert(t.headers[1] == "NAME"@);
    assert(t.headers[2] == "CIDR"@);
    assert(t.headers[3] == "OVERLAY"@);
    assert(t.headers[4] == "STATUS"@);
    assert(t.headers[5] == "CREATED"@);
}

/// What is shown of the networks.
pub open spec fn screen(ns: Seq<Network>) -> Seq<LineView> {
    listing("Networks"@, "no networks"@, table(ns), " network(s)"@)
}

/// Whether every id and creation time can be shown.
pub open spec fn showable(ns: Seq<Network>) -> bool {
    forall|i: int| 0 <= i < ns.len() ==> {
        &&& can_slice_to((#[trigger] ns[i]).id@, 8)
        &&& can_show_upto(ns[i].created_at@, 16)
    }
}

fn row_cells(n: &Network) -> (cells: Vec<String>)
    requires
        can_slice_to(n.id@, 8),
        can_show_upto(n.created_at@, 16),
    ensures
        texts(cells@) == row(*n),
{
    let mut cells: Vec<String> = Vec::new();
    cells.push(prefix_bytes(n.id.as_str(), 8));
    cells.push(n.name.clone());
    cells.push(n.cidr.clone());
    cells.push(n.overlay_type.clone());
    cells.push(n.status.clone());
    cells.push(prefix_upto(n.created_at.as_str(), 16));
    assert(texts(cells@) =~= row(*n));
    cells
}

/// The lines that show the networks.
pub fn render(ns: &Vec<Network>) -> (lines: Vec<Line>)
    requires
        showable(ns@),
    ensures
        view_lines(lines@) == screen(ns@),
{
    let mut t = Table::new(vec!["ID", "NAME", "CIDR", "OVERLAY", "STATUS", "CREATED"]).with_color(
        Coloring::StatusColumn(4),
    );
    let mut i: usize = 0;
    while i < ns.len()
        invariant
            showable(ns@),
            i <= ns@.len(),
            t@.headers == table(ns@).headers,
            t@.coloring == table(ns@).coloring,
            t@.rows == ns@.subrange(0, i as int).map_values(|n: Network| row(n)),
        decreases ns@.len() - i,
    {
        t.add_row(row_cells(&ns[i]));
        assert(ns@.subrange(0, i + 1).map_values(|n: Network| row(n)) =~= ns@.subrange(0, i as int).map_values(
            |n: Network| row(n),
        ).push(row(ns@[i as int])));
        i = i + 1;
    }
    assert(ns@.subrange(0, ns@.len() as int) =~= ns@);
    listing_lines("Networks", "no networks", t, " network(s)")
}

} // verus!
