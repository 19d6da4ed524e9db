//! `workloads list`: every workload, one row each.
use vstd::prelude::*;
use crate::display::{column_shows, listing, listing_lines, texts, view_lines, Coloring, Line, LineView, Table, TableView};
use crate::request::{get, ApiRequest, ApiRequestView, BodyView, Method};
use crate::text::{byte_prefix, can_show_upto, can_slice_to, i32_to_string, i64_div, i64_to_string, prefix_bytes, prefix_upto, signed_decimal};
use crate::workloads::get::megabytes;

verus! {

/// A workload as the server lists it.
#[derive(Debug, PartialEq, Eq)]
pub struct Workload {
    pub id: String,
    pub name: String,
    pub image: String,
    pub cpu_millicores: i32,
    pub memory_bytes: i64,
    pub status: String,
    pub assigned_agent_id: Option<String>,
    pub container_id: Option<String>,
}

/// The request for all workloads.
pub fn request() -> (r: ApiRequest)
    ensures
        r@ == (ApiRequestView {
            method: Method::Get,
            path: "/workloads"@,
            body: BodyView::Empty,
            spinner: Some("fetching workloads..."@),
        }),
{
    get("/workloads".to_owned(), "fetching workloads...")
}

/// An optional id cut to its first `n` bytes, or `-`.
pub open spec fn short_or_dash(o: Option<String>, n: int) -> Seq<char> {
    match o {
        Some(s) => byte_prefix(s@, n),
        None => "-"@,
    }
}

/// The row of a workload: memory in megabytes, the agent's id cut to eight bytes, the container's to twelve.
pub open spec fn row(w: Workload) -> Seq<Seq<char>> {
    seq![
        byte_prefix(w.id@, 8),
        w.name@,
        w.image@,
        signed_decimal(w.cpu_millicores as int),
        signed_decimal(megabytes(w.memory_bytes as int)),
        w.status@,
        short_or_dash(w.assigned_agent_id, 8),
        short_or_dash(w.container_id, 12),
    ]
}

/// The table of workloads.
pub open spec fn table(ws: Seq<Workload>) -> TableView {
    TableView {
        headers: seq!["ID"@, "NAME"@, "IMAGE"@, "CPU(m)"@, "MEM(MB)"@, "STATUS"@, "AGENT"@, "CONTAINER"@],
        rows: ws.map_values(|w: Workload| row(w)),
        coloring: Some(Coloring::StatusColumn(5)),
    }
}

/// Each workload has one row, and each column shows that workload's own field: the memory in
/// megabytes, and its agent and container cut short when known (`-` only when not).
/// The status colours go to the STATUS column.
pub proof fn law_workload_columns(ws: Seq<Workload>)
    ensures
        table(ws).coloring matches Some(Coloring::StatusColumn(k)) && k < table(ws).headers.len() && table(ws).headers[k as int] == "STATUS"@,
        column_shows(table(ws), "ID"@, ws.map_values(|x: Workload| byte_prefix(x.id@, 8))),
        column_shows(table(ws), "NAME"@, ws.map_values(|x: Workload| x.name@)),
        column_shows(table(ws), "IMAGE"@, ws.map_values(|x: Workload| x.image@)),
        column_shows(table(ws), "CPU(m)"@, ws.map_values(|x: Workload| signed_decimal(x.cpu_millicores as int))),
        column_shows(table(ws), "MEM(MB)"@, ws.map_values(|x: Workload| signed_decimal(megabytes(x.memory_bytes as int)))),
        column_shows(table(ws), "STATUS"@, ws.map_values(|x: Workload| x.status@)),
        column_shows(table(ws), "AGENT"@, ws.map_values(|x: Workload| match x.assigned_agent_id { Some(a) => byte_prefix(a@, 8), None => "-"@ })),
        column_shows(table(ws), "CONTAINER"@, ws.map_values(|x: Workload| match x.container_id { Some(c) => byte_prefix(c@, 12), None => "-"@ })),
{
    let t = table(ws);
    reveal_strlit("ID");
    reveal_strlit("NAME");
    reveal_strlit("IMAGE");
    reveal_strlit("CPU(m)");
    reveal_strlit("MEM(MB)");
    reveal_strlit("STATUS");
    reveal_strlit("AGENT");
    reveal_strlit("CONTAINER");
    assert("ID"@.len() == 2);
    assert("NAME"@.len() == 4);
    assert("IMAGE"@.len() == 5 && "IMAGE"@[0] == 'I');
    assert("CPU(m)"@.len() == 6 && "CPU(m)"@[0] == 'C');
    assert("MEM(MB)"@.len() == 7);
    assert("STATUS"@.len() == 6 && "STATUS"@[0] == 'S');
    assert("AGENT"@.len() == 5 && "AGENT"@[0] == 'A');
    assert("CONTAINER"@.len() == 9);
    assert(t.headers[0] == "ID"@);
    assert(t.headers[1] == "NAME"@);
    assert(t.headers[2] == "IMAGE"@);
    assert(t.headers[3] == "CPU(m)"@);
    assert(t.headers[4] == "MEM(MB)"@);
    assert(t.headers[5] == "STATUS"@);
    assert(t.headers[6] == "AGENT"@);
    assert(t.headers[7] == "CONTAINER"@);
}

/// What is shown of the workloads.
pub open spec fn screen(ws: Seq<Workload>) -> Seq<LineView> {
    listing("Workloads"@, "no workloads"@, table(ws), " workload(s)"@)
}

/// Whether a workload's ids can be shown.
pub open spec fn workload_showable(w: Workload) -> bool {
    &&& can_slice_to(w.id@, 8)
    &&& (w.assigned_agent_id matches Some(a) ==> can_slice_to(a@, 8))
    &&& (w.container_id matches Some(c) ==> can_show_upto(c@, 12))
}

/// Whether every workload can be shown.
pub open spec fn showable(ws: Seq<Workload>) -> bool {
    forall|i: int| 0 <= i < ws.len() ==> workload_showable(#[trigger] ws[i])
}

fn row_cells(w: &Workload) -> (cells: Vec<String>)
    requires
        workload_showable(*w),
    ensures
        texts(cells@) == row(*w),
{
    let mut cells: Vec<String> = Vec::new();
    cells.push(prefix_bytes(w.id.as_str(), 8));
    cells.push(w.name.clone());
    cells.push(w.image.clone());
    cells.push(i32_to_string(w.cpu_millicores));
    cells.push(i64_to_string(i64_div(i64_div(w.memory_bytes, 1024), 1024)));
    cells.push(w.status.clone());
    cells.push(match &w.assigned_agent_id {
        Some(a) => prefix_bytes(a.as_str(), 8),
        None => "-".to_owned(),
    });
    cells.push(match &w.container_id {
        Some(c) => prefix_upto(c.as_str(), 12),
        None => "-".to_owned(),
    });
    assert(texts(cells@) =~= row(*w));
    cells
}

/// The lines that show the workloads.
pub fn render(ws: &Vec<Workload>) -> (lines: Vec<Line>)
    requires
        showable(ws@),
    ensures
        view_lines(lines@) == screen(ws@),
{
    let mut t = Table::new(vec!["ID", "NAME", "IMAGE", "CPU(m)", "MEM(MB)", "STATUS", "AGENT", "CONTAINER"]).with_color(
        Coloring::StatusColumn(5),
    );
    let mut i: usize = 0;
    while i < ws.len()
        invariant
            showable(ws@),
            i <= ws@.len(),
            t@.headers == table(ws@).headers,
            t@.coloring == table(ws@).coloring,
            t@.rows == ws@.subrange(0, i as int).map_values(|w: Workload| row(w)),
        decreases ws@.len() - i,
    {
        t.add_row(row_cells(&ws[i]));
        assert(ws@.subrange(0, i + 1).map_values(|w: Workload| row(w)) =~= ws@.subrange(0, i as int).map_values(
            |w: Workload| row(w),
        ).push(row(ws@[i as int])));
        i = i + 1;
    }
    assert(ws@.subrange(0, ws@.len() as int) =~= ws@);
    listing_lines("Workloads", "no workloads", t, " workload(s)")
}

} // verus!
