//! `volumes nodes`: the storage cluster's nodes.
use vstd::prelude::*;
use crate::display::{column_shows, listing, listing_lines, texts, view_lines, Coloring, Line, LineView, Table, TableView};
use crate::request::{get, ApiRequest, ApiRequestView, BodyView, Method};
use crate::text::{byte_prefix, can_show_upto, decimal, prefix_upto, usize_to_string};

verus! {

/// A storage node as the server lists it.
#[derive(Debug, PartialEq, Eq)]
pub struct Node {
    pub node_id: String,
    pub hostname: String,
    pub ip_address: String,
    pub status: String,
    pub role: String,
    pub last_heartbeat: String,
    pub volumes: Vec<String>,
}

/// The request for the cluster's nodes.
pub fn request() -> (r: ApiRequest)
    ensures
        r@ == (ApiRequestView {
            method: Method::Get,
            path: "/volumes/nodes"@,
            body: BodyView::Empty,
            spinner: Some("fetching cluster nodes..."@),
        }),
{
    get("/volumes/nodes".to_owned(), "fetching cluster nodes...")
}

/// The row of a node: the first eight bytes of its id (or all of a shorter one) and the count of its volumes.
pub open spec fn row(n: Node) -> Seq<Seq<char>> {
    seq![
        byte_prefix(n.node_id@, 8),
        n.hostname@,
        n.ip_address@,
        n.role@,
        n.status@,
        decimal(n.volumes@.len()),
        n.last_heartbeat@,
    ]
}

/// The table of nodes.
pub open spec fn table(ns: Seq<Node>) -> TableView {
    TableView {
        headers: seq!["NODE ID"@, "HOSTNAME"@, "IP"@, "ROLE"@, "STATUS"@, "VOLUMES"@, "HEARTBEAT"@],
        rows: ns.map_values(|n: Node| row(n)),
        coloring: Some(Coloring::RoleAndStatus { role: 3, status: 4 }),
    }
}

/// Each storage node has one row, and each column shows that node's own field: the id cut to
/// eight bytes and the number of volumes it holds.
/// The leader colour goes to the ROLE column and the status colours to the STATUS column.
pub proof fn law_node_columns(ns: Seq<Node>)
    ensures
        table(ns).coloring matches Some(Coloring::RoleAndStatus { role, status }) && role < table(ns).headers.len() && table(ns).headers[role as int] == "ROLE"@ && status < table(ns).headers.len() && table(ns).headers[status as int] == "STATUS"@,
        column_shows(table(ns), "NODE ID"@, ns.map_values(|x: Node| byte_prefix(x.node_id@, 8))),
        column_shows(table(ns), "HOSTNAME"@, ns.map_values(|x: Node| x.hostname@)),
        column_shows(table(ns), "IP"@, ns.map_values(|x: Node| x.ip_address@)),
        column_shows(table(ns), "ROLE"@, ns.map_values(|x: Node| x.role@)),
        column_shows(table(ns), "STATUS"@, ns.map_values(|x: Node| x.status@)),
        column_shows(table(ns), "VOLUMES"@, ns.map_values(|x: Node| decimal(x.volumes@.len()))),
        column_shows(table(ns), "HEARTBEAT"@, ns.map_values(|x: Node| x.last_heartbeat@)),
{
    let t = table(ns);
    reveal_strlit("NODE ID");
    reveal_strlit("HOSTNAME");
    reveal_strlit("IP");
    reveal_strlit("ROLE");
    reveal_strlit("STATUS");
    reveal_strlit("VOLUMES");
    reveal_strlit("HEARTBEAT");
    assert("NODE ID"@.len() == 7 && "NODE ID"@[0] == 'N');
    assert("HOSTNAME"@.len() == 8);
    assert("IP"@.len() == 2);
    assert("ROLE"@.len() == 4);
    assert("STATUS"@.len() == 6);
    assert("VOLUMES"@.len() == 7 && "VOLUMES"@[0] == 'V');
    assert("HEARTBEAT"@.len() == 9);
    assert(t.headers[0] == "NODE ID"@);
    assert(t.headers[1] == "HOSTNAME"@);
    assert(t.headers[2] == "IP"@);
    assert(t.headers[3] == "ROLE"@);
    assert(t.headers[4] == "STATUS"@);
    assert(t.headers[5] == "VOLUMES"@);
    assert(t.headers[6] == "HEARTBEAT"@);
}

/// What is shown of the nodes.
pub open spec fn screen(ns: Seq<Node>) -> Seq<LineView> {
    listing("Cluster Nodes"@, "no nodes found"@, table(ns), " node(s)"@)
}

/// Whether every node id can be shown.
pub open spec fn showable(ns: Seq<Node>) -> bool {
    forall|i: int| 0 <= i < ns.len() ==> can_show_upto((#[trigger] ns[i]).node_id@, 8)
}

fn row_cells(n: &Node) -> (cells: Vec<String>)
    requires
        can_show_upto(n.node_id@, 8),
    ensures
        texts(cells@) == row(*n),
{
    let mut cells: Vec<String> = Vec::new();
    cells.push(prefix_upto(n.node_id.as_str(), 8));
    cells.push(n.hostname.clone());
    cells.push(n.ip_address.clone());
    cells.push(n.role.clone());
    cells.push(n.status.clone());
    cells.push(usize_to_string(n.volumes.len()));
    cells.push(n.last_heartbeat.clone());
    assert(texts(cells@) =~= row(*n));
    cells
}

/// The lines that show the nodes.
pub fn render(ns: &Vec<Node>) -> (lines: Vec<Line>)
    requires
        showable(ns@),
    ensures
        view_lines(lines@) == screen(ns@),
{
    let mut t = Table::new(vec!["NODE ID", "HOSTNAME", "IP", "ROLE", "STATUS", "VOLUMES", "HEARTBEAT"]).with_color(
        Coloring::RoleAndStatus { role: 3, status: 4 },
    );
    let mut i: usize = 0;
    while i < ns.len()
        invariant
            showable(ns@),
            i <= ns@.len(),
            t@.headers == table(ns@).headers,
            t@.coloring == table(ns@).coloring,
            t@.rows == ns@.subrange(0, i as int).map_values(|n: Node| row(n)),
        decreases ns@.len() - i,
    {
        t.add_row(row_cells(&ns[i]));
        assert(ns@.subrange(0, i + 1).map_values(|n: Node| row(n)) =~= ns@.subrange(0, i as int).map_values(
            |n: Node| row(n),
        ).push(row(ns@[i as int])));
        i = i + 1;
    }
    assert(ns@.subrange(0, ns@.len() as int) =~= ns@);
    listing_lines("Cluster Nodes", "no nodes found", t, " node(s)")
}

} // verus!
