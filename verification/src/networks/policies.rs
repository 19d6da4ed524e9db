//! `networks policies` and `policy-create`: a network's traffic rules.
use vstd::prelude::*;
use crate::display::{column_shows, listing, listing_lines, section, success, texts, view_lines, Coloring, Line, LineView, Table, TableView};
use crate::request::{fields_view, get, int_field, opt_int_field, opt_int_value, opt_str_field, opt_str_value, post, sends, str_field, ApiRequest, ApiRequestView, Body, BodyView, Method, Value, ValueView};
use crate::text::{byte_prefix, can_slice_to, concat, i32_to_string, or_text, prefix_bytes, signed_decimal, text_or};

verus! {

/// A policy as the server describes it.
#[derive(Debug, PartialEq, Eq)]
pub struct Policy {
    pub id: String,
    pub direction: String,
    pub action: String,
    pub source_cidr: Option<String>,
    pub destination_cidr: Option<String>,
    pub port: Option<i32>,
    pub protocol: Option<String>,
    pub priority: i32,
}

/// The path of a network's policies.
pub open spec fn policies_path(network_id: Seq<char>) -> Seq<char> {
    "/networks/"@ + network_id + "/policies"@
}

fn path_of(network_id: &str) -> (p: String)
    ensures
        p@ == policies_path(network_id@),
{
    concat(concat("/networks/", network_id).as_str(), "/policies")
}

/// The request for the policies of network `network_id`.
pub fn list_request(network_id: &str) -> (r: ApiRequest)
    ensures
        r@ == (ApiRequestView {
            method: Method::Get,
            path: policies_path(network_id@),
            body: BodyView::Empty,
            spinner: Some("fetching policies..."@),
        }),
{
    get(path_of(network_id), "fetching policies...")
}

/// The port of a policy, or `*` for any.
pub open spec fn port_text(port: Option<i32>) -> Seq<char> {
    match port {
        Some(p) => signed_decimal(p as int),
        None => "*"@,
    }
}

/// The row of a policy: absent addresses, ports and protocols read `*`.
pub open spec fn row(p: Policy) -> Seq<Seq<char>> {
    seq![
        byte_prefix(p.id@, 8),
        p.direction@,
        p.action@,
        text_or(p.source_cidr, "*"@),
        text_or(p.destination_cidr, "*"@),
        port_text(p.port),
        text_or(p.protocol, "*"@),
        signed_decimal(p.priority as int),
    ]
}

/// The table of policies.
pub open spec fn table(ps: Seq<Policy>) -> TableView {
    TableView {
        headers: seq!["ID"@, "DIR"@, "ACTION"@, "SRC"@, "DST"@, "PORT"@, "PROTO"@, "PRIO"@],
        rows: ps.map_values(|p: Policy| row(p)),
        coloring: Some(Coloring::ActionColumn(2)),
    }
}

/// Each policy has one row, and each column shows that policy's own field: each address, the
/// port and the protocol when given (`*` for any only when not).
/// The allow / deny colours go to the ACTION column.
pub proof fn law_policy_columns(ps: Seq<Policy>)
    ensures
        table(ps).coloring matches Some(Coloring::ActionColumn(k)) && k < table(ps).headers.len() && table(ps).headers[k as int] == "ACTION"@,
        column_shows(table(ps), "ID"@, ps.map_values(|x: Policy| byte_prefix(x.id@, 8))),
        column_shows(table(ps), "DIR"@, ps.map_values(|x: Policy| x.direction@)),
        column_shows(table(ps), "ACTION"@, ps.map_values(|x: Policy| x.action@)),
        column_shows(table(ps), "SRC"@, ps.map_values(|x: Policy| match x.source_cidr { Some(c) => c@, None => "*"@ })),
        column_shows(table(ps), "DST"@, ps.map_values(|x: Policy| match x.destination_cidr { Some(c) => c@, None => "*"@ })),
        column_shows(table(ps), "PORT"@, ps.map_values(|x: Policy| match x.port { Some(n) => signed_decimal(n as int), None => "*"@ })),
        column_shows(table(ps), "PROTO"@, ps.map_values(|x: Policy| match x.protocol { Some(p) => p@, None => "*"@ })),
        column_shows(table(ps), "PRIO"@, ps.map_values(|x: Policy| signed_decimal(x.priority as int))),
{
    let t = table(ps);
    reveal_strlit("ID");
    reveal_strlit("DIR");
    reveal_strlit("ACTION");
    reveal_strlit("SRC");
    reveal_strlit("DST");
    reveal_strlit("PORT");
    reveal_strlit("PROTO");
    reveal_strlit("PRIO");
    assert("ID"@.len() == 2);
    assert("DIR"@.len() == 3 && "DIR"@[0] == 'D' && "DIR"@[1] == 'I');
    assert("ACTION"@.len() == 6);
    assert("SRC"@.len() == 3 && "SRC"@[0] == 'S');
    assert("DST"@.len() == 3 && "DST"@[0] == 'D' && "DST"@[1] == 'S');
    assert("PORT"@.len() == 4 && "PORT"@[1] == 'O');
    assert("PROTO"@.len() == 5);
    assert("PRIO"@.len() == 4 && "PRIO"@[1] == 'R');
    assert(t.headers[0] == "ID"@);
    assert(t.headers[1] == "DIR"@);
    assert(t.headers[2] == "ACTION"@);
    assert(t.headers[3] == "SRC"@);
    assert(t.headers[4] == "DST"@);
    assert(t.headers[5] == "PORT"@);
    assert(t.headers[6] == "PROTO"@);
    assert(t.headers[7] == "PRIO"@);
}

/// What is shown of the policies.
pub open spec fn list_screen(ps: Seq<Policy>) -> Seq<LineView> {
    listing("Networks  /  Policies"@, "no policies"@, table(ps), " policy(s)"@)
}

/// Whether every policy id can be shown.
pub open spec fn showable(ps: Seq<Policy>) -> bool {
    forall|i: int| 0 <= i < ps.len() ==> can_slice_to((#[trigger] ps[i]).id@, 8)
}

fn row_cells(p: &Policy) -> (cells: Vec<String>)
    requires
        can_slice_to(p.id@, 8),
    ensures
        texts(cells@) == row(*p),
{
    let mut cells: Vec<String> = Vec::new();
    cells.push(prefix_bytes(p.id.as_str(), 8));
    cells.push(p.direction.clone());
    cells.push(p.action.clone());
    cells.push(or_text(&p.source_cidr, "*"));
    cells.push(or_text(&p.destination_cidr, "*"));
    cells.push(match p.port {
        Some(v) => i32_to_string(v),
        None => "*".to_owned(),
    });
    cells.push(or_text(&p.protocol, "*"));
    cells.push(i32_to_string(p.priority));
    assert(texts(cells@) =~= row(*p));
    cells
}

/// The lines that show the policies.
pub fn render_list(ps: &Vec<Policy>) -> (lines: Vec<Line>)
    requires
        showable(ps@),
    ensures
        view_lines(lines@) == list_screen(ps@),
{
    let mut t = Table::new(vec!["ID", "DIR", "ACTION", "SRC", "DST", "PORT", "PROTO", "PRIO"]).with_color(
        Coloring::ActionColumn(2),
    );
    let mut i: usize = 0;
    while i < ps.len()
        invariant
            showable(ps@),
            i <= ps@.len(),
            t@.headers == table(ps@).headers,
            t@.coloring == table(ps@).coloring,
            t@.rows == ps@.subrange(0, i as int).map_values(|p: Policy| row(p)),
        decreases ps@.len() - i,
    {
        t.add_row(row_cells(&ps[i]));
        assert(ps@.subrange(0, i + 1).map_values(|p: Policy| row(p)) =~= ps@.subrange(0, i as int).map_values(
            |p: Policy| row(p),
        ).push(row(ps@[i as int])));
        i = i + 1;
    }
    assert(ps@.subrange(0, ps@.len() as int) =~= ps@);
    listing_lines("Networks  /  Policies", "no policies", t, " policy(s)")
}

/// The JSON value of an optional port.
pub open spec fn port_value(port: Option<i32>) -> ValueView {
    match port {
        Some(p) => ValueView::Int(p as int),
        None => ValueView::Null,
    }
}

/// The fields of a new policy; absent values are sent as `null`.
pub open spec fn create_fields(
    direction: Seq<char>,
    action: Seq<char>,
    priority: i32,
    source_cidr: Option<String>,
    destination_cidr: Option<String>,
    port: Option<i32>,
    protocol: Option<String>,
) -> Seq<(Seq<char>, ValueView)> {
    seq![
        ("direction"@, ValueView::Str(direction)),
        ("action"@, ValueView::Str(action)),
        ("priority"@, ValueView::Int(priority as int)),
        ("source_cidr"@, opt_str_value(source_cidr)),
        ("destination_cidr"@, opt_str_value(destination_cidr)),
        ("port"@, port_value(port)),
        ("protocol"@, opt_str_value(protocol)),
    ]
}

/// Each argument of a new policy is sent under its own field, whatever the others are: the
/// direction and the action as text, the priority as a number, each address and the protocol
/// as text when given and `null` when not, the port as a number when given and `null` when not.
pub proof fn law_create_fields_carry_arguments(
    direction: Seq<char>,
    action: Seq<char>,
    priority: i32,
    source_cidr: Option<String>,
    destination_cidr: Option<String>,
    port: Option<i32>,
    protocol: Option<String>,
)
    ensures
        ({
            let f = create_fields(direction, action, priority, source_cidr, destination_cidr, port, protocol);
            &&& sends(f, "direction"@, ValueView::Str(direction))
            &&& sends(f, "action"@, ValueView::Str(action))
            &&& sends(f, "priority"@, ValueView::Int(priority as int))
            &&& sends(f, "source_cidr"@, match source_cidr { Some(c) => ValueView::Str(c@), None => ValueView::Null })
            &&& sends(f, "destination_cidr"@, match destination_cidr { Some(c) => ValueView::Str(c@), None => ValueView::Null })
            &&& sends(f, "port"@, match port { Some(n) => ValueView::Int(n as int), None => ValueView::Null })
            &&& sends(f, "protocol"@, match protocol { Some(p) => ValueView::Str(p@), None => ValueView::Null })
        }),
{
    let f = create_fields(direction, action, priority, source_cidr, destination_cidr, port, protocol);
    reveal_strlit("direction");
    reveal_strlit("action");
    reveal_strlit("priority");
    reveal_strlit("source_cidr");
    reveal_strlit("destination_cidr");
    reveal_strlit("port");
    reveal_strlit("protocol");
    assert("direction"@.len() == 9);
    assert("action"@.len() == 6);
    assert("priority"@.len() == 8 && "priority"@[2] == 'i');
    assert("source_cidr"@.len() == 11);
    assert("destination_cidr"@.len() == 16);
    assert("port"@.len() == 4);
    assert("protocol"@.len() == 8 && "protocol"@[2] == 'o');
    assert(f[0].0 == "direction"@);
    assert(f[1].0 == "action"@);
    assert(f[2].0 == "priority"@);
    assert(f[3].0 == "source_cidr"@);
    assert(f[4].0 == "destination_cidr"@);
    assert(f[5].0 == "port"@);
    assert(f[6].0 == "protocol"@);
}

/// The request that creates a policy in network `network_id`.
pub fn create_request(
    network_id: &str,
    direction: &str,
    action: &str,
    priority: i32,
    source_cidr: &Option<String>,
    destination_cidr: &Option<String>,
    port: Option<i32>,
    protocol: &Option<String>,
) -> (r: ApiRequest)
    ensures
        r@ == (ApiRequestView {
            method: Method::Post,
            path: policies_path(network_id@),
            body: BodyView::Object(
                create_fields(direction@, action@, priority, *source_cidr, *destination_cidr, port, *protocol),
            ),
            spinner: Some("creating policy..."@),
        }),
{
    let mut fields: Vec<(String, Value)> = Vec::new();
    fields.push(str_field("direction", direction));
    fields.push(str_field("action", action));
    fields.push(int_field("priority", priority as i64));
    fields.push(opt_str_field("source_cidr", source_cidr));
    fields.push(opt_str_field("destination_cidr", destination_cidr));
    let port_wide: Option<i64> = match port {
        Some(p) => Some(p as i64),
        None => None,
    };
    fields.push(opt_int_field("port", port_wide));
    fields.push(opt_str_field("protocol", protocol));
    assert(opt_int_value(port_wide) == port_value(port));
    assert(fields_view(fields@) =~= create_fields(
        direction@,
        action@,
        priority,
        *source_cidr,
        *destination_cidr,
        port,
        *protocol,
    ));
    post(path_of(network_id), Body::Object(fields), "creating policy...")
}

/// What is shown once a policy is created.
pub open spec fn created_screen() -> Seq<LineView> {
    seq![LineView::Section("Networks  /  Policy Create"@), LineView::Success("policy created"@)]
}

/// The lines shown once a policy is created.
pub fn render_created() -> (lines: Vec<Line>)
    ensures
        view_lines(lines@) == created_screen(),
{
    let mut lines: Vec<Line> = Vec::new();
    lines.push(section("Networks  /  Policy Create"));
    lines.push(success("policy created"));
    assert(view_lines(lines@) =~= created_screen());
    lines
}

} // verus!
