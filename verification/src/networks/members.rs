//! `networks members`, `member-add` and `member-remove`: the workloads that belong to a network.
use vstd::prelude::*;
use crate::display::{column_shows, listing, listing_lines, section, success, texts, view_lines, Coloring, Line, LineView, Table, TableView};
use crate::request::{delete, fields_view, get, post, sends, str_field, ApiRequest, ApiRequestView, Body, BodyView, Method, Value, ValueView};
use crate::text::{byte_prefix, can_show_upto, can_slice_to, concat, prefix_bytes, prefix_upto};

verus! {

/// A member of a network as the server describes it.
#[derive(Debug, PartialEq, Eq)]
pub struct Member {
    pub id: String,
    pub workload_id: String,
    pub allocated_ip: String,
    pub created_at: String,
}

/// The path of a network's members.
pub open spec fn members_path(network_id: Seq<char>) -> Seq<char> {
    "/networks/"@ + network_id + "/members"@
}

fn path_of(network_id: &str) -> (p: String)
    ensures
        p@ == members_path(network_id@),
{
    concat(concat("/networks/", network_id).as_str(), "/members")
}

/// The request for the members of network `network_id`.
pub fn list_request(network_id: &str) -> (r: ApiRequest)
    ensures
        r@ == (ApiRequestView {
            method: Method::Get,
            path: members_path(network_id@),
            body: BodyView::Empty,
            spinner: Some("fetching members..."@),
        }),
{
    get(path_of(network_id), "fetching members...")
}

/// The row of a member.
pub open spec fn row(m: Member) -> Seq<Seq<char>> {
    seq![byte_prefix(m.id@, 8), byte_prefix(m.workload_id@, 8), m.allocated_ip@, byte_prefix(m.created_at@, 16)]
}

/// The table of members.
pub open spec fn table(ms: Seq<Member>) -> TableView {
    TableView {
        headers: seq!["ID"@, "WORKLOAD"@, "IP"@, "JOINED"@],
        rows: ms.map_values(|m: Member| row(m)),
        coloring: Some(Coloring::AllWhite),
    }
}

/// Each member has one row, and each column shows that member's own field: its id and its
/// workload's id cut to eight bytes, its address, and the time it joined cut to sixteen bytes.
/// Every cell is white.
pub proof fn law_member_columns(ms: Seq<Member>)
    ensures
        table(ms).coloring == Some(Coloring::AllWhite),
        column_shows(table(ms), "ID"@, ms.map_values(|x: Member| byte_prefix(x.id@, 8))),
        column_shows(table(ms), "WORKLOAD"@, ms.map_values(|x: Member| byte_prefix(x.workload_id@, 8))),
        column_shows(table(ms), "IP"@, ms.map_values(|x: Member| x.allocated_ip@)),
        column_shows(table(ms), "JOINED"@, ms.map_values(|x: Member| byte_prefix(x.created_at@, 16))),
{
    let t = table(ms);
    reveal_strlit("ID");
    reveal_strlit("WORKLOAD");
    reveal_strlit("IP");
    reveal_strlit("JOINED");
    assert("ID"@.len() == 2 && "ID"@[1] == 'D');
    assert("WORKLOAD"@.len() == 8);
    assert("IP"@.len() == 2 && "IP"@[1] == 'P');
    assert("JOINED"@.len() == 6);
    assert(t.headers[0] == "ID"@);
    assert(t.headers[1] == "WORKLOAD"@);
    assert(t.headers[2] == "IP"@);
    assert(t.headers[3] == "JOINED"@);
}

/// What is shown of the members.
pub open spec fn list_screen(ms: Seq<Member>) -> Seq<LineView> {
    listing("Networks  /  Members"@, "no members"@, table(ms), " member(s)"@)
}

/// Whether every member's ids and time can be shown.
pub open spec fn showable(ms: Seq<Member>) -> bool {
    forall|i: int| 0 <= i < ms.len() ==> {
        &&& can_slice_to((#[trigger] ms[i]).id@, 8)
        &&& can_slice_to(ms[i].workload_id@, 8)
        &&& can_show_upto(ms[i].created_at@, 16)
    }
}

fn row_cells(m: &Member) -> (cells: Vec<String>)
    requires
        can_slice_to(m.id@, 8),
        can_slice_to(m.workload_id@, 8),
        can_show_upto(m.created_at@, 16),
    ensures
        texts(cells@) == row(*m),
{
    let mut cells: Vec<String> = Vec::new();
    cells.push(prefix_bytes(m.id.as_str(), 8));
    cells.push(prefix_bytes(m.workload_id.as_str(), 8));
    cells.push(m.allocated_ip.clone());
    cells.push(prefix_upto(m.created_at.as_str(), 16));
    assert(texts(cells@) =~= row(*m));
    cells
}

/// The lines that show the members.
pub fn render_list(ms: &Vec<Member>) -> (lines: Vec<Line>)
    requires
        showable(ms@),
    ensures
        view_lines(lines@) == list_screen(ms@),
{
    let mut t = Table::new(vec!["ID", "WORKLOAD", "IP", "JOINED"]).with_color(Coloring::AllWhite);
    let mut i: usize = 0;
    while i < ms.len()
        invariant
            showable(ms@),
            i <= ms@.len(),
            t@.headers == table(ms@).headers,
            t@.coloring == table(ms@).coloring,
            t@.rows == ms@.subrange(0, i as int).map_values(|m: Member| row(m)),
        decreases ms@.len() - i,
    {
        t.add_row(row_cells(&ms[i]));
        assert(ms@.subrange(0, i + 1).map_values(|m: Member| row(m)) =~= ms@.subrange(0, i as int).map_values(
            |m: Member| row(m),
        ).push(row(ms@[i as int])));
        i = i + 1;
    }
    assert(ms@.subrange(0, ms@.len() as int) =~= ms@);
    listing_lines("Networks  /  Members", "no members", t, " member(s)")
}

/// The fields that add a workload to a network.
pub open spec fn member_fields(workload_id: Seq<char>) -> Seq<(Seq<char>, ValueView)> {
    seq![("workload_id"@, ValueView::Str(workload_id))]
}

/// The workload's id is sent as text under its own field.
pub proof fn law_member_fields_carry_workload(workload_id: Seq<char>)
    ensures
        sends(member_fields(workload_id), "workload_id"@, ValueView::Str(workload_id)),
{
    let f = member_fields(workload_id);
    reveal_strlit("workload_id");
    assert("workload_id"@.len() == 11);
    assert(f[0].0 == "workload_id"@);
}

/// The request that adds workload `workload_id` to network `network_id`.
pub fn add_request(network_id: &str, workload_id: &str) -> (r: ApiRequest)
    ensures
        r@ == (ApiRequestView {
            method: Method::Post,
            path: members_path(network_id@),
            body: BodyView::Object(member_fields(workload_id@)),
            spinner: Some("adding member..."@),
        }),
{
    let mut fields: Vec<(String, Value)> = Vec::new();
    fields.push(str_field("workload_id", workload_id));
    assert(fields_view(fields@) =~= member_fields(workload_id@));
    post(path_of(network_id), Body::Object(fields), "adding member...")
}

/// What is shown once a workload has joined a network.
pub open spec fn added_screen(m: Member) -> Seq<LineView> {
    seq![
        LineView::Section("Networks  /  Member Add"@),
        LineView::Success("workload joined network, allocated ip="@ + m.allocated_ip@),
    ]
}

/// Once a workload has joined, the address the network gave it is reported.
pub proof fn law_added_screen_reports_address(m: Member)
    ensures
        added_screen(m).contains(LineView::Success("workload joined network, allocated ip="@ + m.allocated_ip@)),
{
    assert(added_screen(m)[1] == LineView::Success("workload joined network, allocated ip="@ + m.allocated_ip@));
}

/// The lines shown once a workload has joined a network.
pub fn render_added(m: &Member) -> (lines: Vec<Line>)
    ensures
        view_lines(lines@) == added_screen(*m),
{
    let mut lines: Vec<Line> = Vec::new();
    lines.push(section("Networks  /  Member Add"));
    let message = concat("workload joined network, allocated ip=", m.allocated_ip.as_str());
    lines.push(success(message.as_str()));
    assert(view_lines(lines@) =~= added_screen(*m));
    lines
}

/// The request that removes workload `workload_id` from network `network_id`.
pub fn remove_request(network_id: &str, workload_id: &str) -> (r: ApiRequest)
    ensures
        r@ == (ApiRequestView {
            method: Method::Delete,
            path: members_path(network_id@) + "/"@ + workload_id@,
            body: BodyView::Empty,
            spinner: Some("removing member..."@),
        }),
{
    let path = concat(concat(path_of(network_id).as_str(), "/").as_str(), workload_id);
    delete(path, "removing member...")
}

/// What is shown once a workload has left a network.
pub open spec fn removed_screen() -> Seq<LineView> {
    seq![
        LineView::Section("Networks  /  Member Remove"@),
        LineView::Success("workload removed from network"@),
    ]
}

/// The lines shown once a workload has left a network.
pub fn render_removed() -> (lines: Vec<Line>)
    ensures
        view_lines(lines@) == removed_screen(),
{
    let mut lines: Vec<Line> = Vec::new();
    lines.push(section("Networks  /  Member Remove"));
    lines.push(success("workload removed from network"));
    assert(view_lines(lines@) =~= removed_screen());
    lines
}

} // verus!
