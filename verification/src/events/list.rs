//! `events list`: the failover events the cluster recorded.
use vstd::prelude::*;
use crate::display::{column_shows, listing, listing_lines, texts, view_lines, Coloring, Line, LineView, Table, TableView};
use crate::request::{get, ApiRequest, ApiRequestView, BodyView, Method};
use crate::text::{byte_prefix, can_show_upto, can_slice_to, concat, decimal, i64_to_string, prefix_bytes, prefix_upto, signed_decimal, usize_to_string};

verus! {

/// A failover event as the server describes it.
#[derive(Debug, PartialEq, Eq)]
pub struct FailoverEvent {
    pub id: String,
    pub agent_id: Option<String>,
    pub event_type: String,
    pub affected_workloads: Option<Vec<String>>,
    pub duration_ms: Option<i64>,
    pub created_at: String,
}

/// The request for all events.
pub fn request() -> (r: ApiRequest)
    ensures
        r@ == (ApiRequestView {
            method: Method::Get,
            path: "/events"@,
            body: BodyView::Empty,
            spinner: Some("fetching events..."@),
        }),
{
    get("/events".to_owned(), "fetching events...")
}

/// The agent column: the first eight bytes of the agent's id, or `-`.
pub open spec fn agent_text(agent_id: Option<String>) -> Seq<char> {
    match agent_id {
        Some(id) => byte_prefix(id@, 8),
        None => "-"@,
    }
}

/// The workloads column: how many workloads were affected, or `-`.
pub open spec fn workloads_text(w: Option<Vec<String>>) -> Seq<char> {
    match w {
        Some(v) => decimal(v@.len()),
        None => "-"@,
    }
}

/// The duration column: milliseconds followed by `ms`, or `-`.
pub open spec fn duration_text(d: Option<i64>) -> Seq<char> {
    match d {
        Some(ms) => signed_decimal(ms as int) + "ms"@,
        None => "-"@,
    }
}

/// The row of an event.
pub open spec fn row(e: FailoverEvent) -> Seq<Seq<char>> {
    seq![
        byte_prefix(e.id@, 8),
        e.event_type@,
        agent_text(e.agent_id),
        workloads_text(e.affected_workloads),
        duration_text(e.duration_ms),
        byte_prefix(e.created_at@, 16),
    ]
}

/// The table of events.
pub open spec fn table(es: Seq<FailoverEvent>) -> TableView {
    TableView {
        headers: seq!["ID"@, "TYPE"@, "AGENT"@, "WORKLOADS"@, "DURATION"@, "CREATED"@],
        rows: es.map_values(|e: FailoverEvent| row(e)),
        coloring: Some(Coloring::StatusColumn(1)),
    }
}

/// Each event has one row, and each column shows that event's own field: its agent cut to
/// eight bytes, the number of affected workloads and the duration in milliseconds when known
/// (`-` only when not).
/// The status colours go to the TYPE column.
pub proof fn law_event_columns(es: Seq<FailoverEvent>)
    ensures
        table(es).coloring matches Some(Coloring::StatusColumn(k)) && k < table(es).headers.len() && table(es).headers[k as int] == "TYPE"@,
        column_shows(table(es), "ID"@, es.map_values(|x: FailoverEvent| byte_prefix(x.id@, 8))),
        column_shows(table(es), "TYPE"@, es.map_values(|x: FailoverEvent| x.event_type@)),
        column_shows(table(es), "AGENT"@, es.map_values(|x: FailoverEvent| match x.agent_id { Some(a) => byte_prefix(a@, 8), None => "-"@ })),
        column_shows(table(es), "WORKLOADS"@, es.map_values(|x: FailoverEvent| match x.affected_workloads { Some(w) => decimal(w@.len()), None => "-"@ })),
        column_shows(table(es), "DURATION"@, es.map_values(|x: FailoverEvent| match x.duration_ms { Some(d) => signed_decimal(d as int) + "ms"@, None => "-"@ })),
        column_shows(table(es), "CREATED"@, es.map_values(|x: FailoverEvent| byte_prefix(x.created_at@, 16))),
{
    let t = table(es);
    reveal_strlit("ID");
    reveal_strlit("TYPE");
    reveal_strlit("AGENT");
    reveal_strlit("WORKLOADS");
    reveal_strlit("DURATION");
    reveal_strlit("CREATED");
    assert("ID"@.len() == 2);
    assert("TYPE"@.len() == 4);
    assert("AGENT"@.len() == 5);
    assert("WORKLOADS"@.len() == 9);
    assert("DURATION"@.len() == 8);
    assert("CREATED"@.len() == 7);
    assert(t.headers[0] == "ID"@);
    assert(t.headers[1] == "TYPE"@);
    assert(t.headers[2] == "AGENT"@);
    assert(t.headers[3] == "WORKLOADS"@);
    assert(t.headers[4] == "DURATION"@);
    assert(t.headers[5] == "CREATED"@);
}

/// What is shown of the events.
pub open spec fn screen(es: Seq<FailoverEvent>) -> Seq<LineView> {
    listing("Events"@, "no events"@, table(es), " event(s)"@)
}

/// Whether an event's ids and time can be shown.
pub open spec fn event_showable(e: FailoverEvent) -> bool {
    &&& can_slice_to(e.id@, 8)
    &&& (e.agent_id matches Some(a) ==> can_slice_to(a@, 8))
    &&& can_show_upto(e.created_at@, 16)
}

/// Whether every event can be shown.
pub open spec fn showable(es: Seq<FailoverEvent>) -> bool {
    forall|i: int| 0 <= i < es.len() ==> event_showable(#[trigger] es[i])
}

fn row_cells(e: &FailoverEvent) -> (cells: Vec<String>)
    requires
        event_showable(*e),
    ensures
        texts(cells@) == row(*e),
{
    let mut cells: Vec<String> = Vec::new();
    cells.push(prefix_bytes(e.id.as_str(), 8));
    cells.push(e.event_type.clone());
    cells.push(match &e.agent_id {
        Some(a) => prefix_bytes(a.as_str(), 8),
        None => "-".to_owned(),
    });
    cells.push(match &e.affected_workloads {
        Some(w) => usize_to_string(w.len()),
        None => "-".to_owned(),
    });
    cells.push(match e.duration_ms {
        Some(ms) => concat(i64_to_string(ms).as_str(), "ms"),
        None => "-".to_owned(),
    });
    cells.push(prefix_upto(e.created_at.as_str(), 16));
    assert(texts(cells@) =~= row(*e));
    cells
}

/// The lines that show the events.
pub fn render(es: &Vec<FailoverEvent>) -> (lines: Vec<Line>)
    requires
        showable(es@),
    ensures
        view_lines(lines@) == screen(es@),
{
    let mut t = Table::new(vec!["ID", "TYPE", "AGENT", "WORKLOADS", "DURATION", "CREATED"]).with_color(
        Coloring::StatusColumn(1),
    );
    let mut i: usize = 0;
    while i < es.len()
        invariant
            showable(es@),
            i <= es@.len(),
            t@.headers == table(es@).headers,
            t@.coloring == table(es@).coloring,
            t@.rows == es@.subrange(0, i as int).map_values(|e: FailoverEvent| row(e)),
        decreases es@.len() - i,
    {
        t.add_row(row_cells(&es[i]));
        assert(es@.subrange(0, i + 1).map_values(|e: FailoverEvent| row(e)) =~= es@.subrange(
            0,
            i as int,
        ).map_values(|e: FailoverEvent| row(e)).push(row(es@[i as int])));
        i = i + 1;
    }
    assert(es@.subrange(0, es@.len() as int) =~= es@);
    listing_lines("Events", "no events", t, " event(s)")
}

} // verus!
