//! `volumes snapshots` and `volumes snapshot-create`: a volume's snapshots.
use vstd::prelude::*;
use crate::display::{line_key, shows, column_shows, kv, listing, listing_lines, section, success, texts, view_lines, Coloring, Line, LineView, Table, TableView};
use crate::request::{fields_view, get, post, sends, str_field, ApiRequest, ApiRequestView, Body, BodyView, Method, Value, ValueView};
use crate::text::{byte_prefix, can_slice_to, concat, prefix_bytes};

verus! {

/// A snapshot as the server describes it.
#[derive(Debug, PartialEq, Eq)]
pub struct Snapshot {
    pub id: String,
    pub volume_id: String,
    pub name: String,
    pub status: String,
    pub created_at: String,
}

/// The path of a volume's snapshots.
pub open spec fn snapshots_path(volume_id: Seq<char>) -> Seq<char> {
    "/volumes/"@ + volume_id + "/snapshots"@
}

fn path_of(volume_id: &str) -> (p: String)
    ensures
        p@ == snapshots_path(volume_id@),
{
    concat(concat("/volumes/", volume_id).as_str(), "/snapshots")
}

/// The request for the snapshots of volume `volume_id`.
pub fn list_request(volume_id: &str) -> (r: ApiRequest)
    ensures
        r@ == (ApiRequestView {
            method: Method::Get,
            path: snapshots_path(volume_id@),
            body: BodyView::Empty,
            spinner: Some("fetching snapshots..."@),
        }),
{
    get(path_of(volume_id), "fetching snapshots...")
}

/// The row of a snapshot.
pub open spec fn row(s: Snapshot) -> Seq<Seq<char>> {
    seq![byte_prefix(s.id@, 8), s.name@, byte_prefix(s.volume_id@, 8), s.status@, s.created_at@]
}

/// The table of snapshots.
pub open spec fn table(ss: Seq<Snapshot>) -> TableView {
    TableView {
        headers: seq!["ID"@, "NAME"@, "VOLUME"@, "STATUS"@, "CREATED"@],
        rows: ss.map_values(|s: Snapshot| row(s)),
        coloring: Some(Coloring::StatusColumn(3)),
    }
}

/// Each snapshot has one row, and each column shows that snapshot's own field: its id and its
/// volume's id cut to eight bytes.
/// The status colours go to the STATUS column.
pub proof fn law_snapshot_columns(ss: Seq<Snapshot>)
    ensures
        table(ss).coloring matches Some(Coloring::StatusColumn(k)) && k < table(ss).headers.len() && table(ss).headers[k as int] == "STATUS"@,
        column_shows(table(ss), "ID"@, ss.map_values(|x: Snapshot| byte_prefix(x.id@, 8))),
        column_shows(table(ss), "NAME"@, ss.map_values(|x: Snapshot| x.name@)),
        column_shows(table(ss), "VOLUME"@, ss.map_values(|x: Snapshot| byte_prefix(x.volume_id@, 8))),
        column_shows(table(ss), "STATUS"@, ss.map_values(|x: Snapshot| x.status@)),
        column_shows(table(ss), "CREATED"@, ss.map_values(|x: Snapshot| x.created_at@)),
{
    let t = table(ss);
    reveal_strlit("ID");
    reveal_strlit("NAME");
    reveal_strlit("VOLUME");
    reveal_strlit("STATUS");
    reveal_strlit("CREATED");
    assert("ID"@.len() == 2);
    assert("NAME"@.len() == 4);
    assert("VOLUME"@.len() == 6 && "VOLUME"@[0] == 'V');
    assert("STATUS"@.len() == 6 && "STATUS"@[0] == 'S');
    assert("CREATED"@.len() == 7);
    assert(t.headers[0] == "ID"@);
    assert(t.headers[1] == "NAME"@);
    assert(t.headers[2] == "VOLUME"@);
    assert(t.headers[3] == "STATUS"@);
    assert(t.headers[4] == "CREATED"@);
}

/// What is shown of the snapshots.
pub open spec fn list_screen(ss: Seq<Snapshot>) -> Seq<LineView> {
    listing("Snapshots"@, "no snapshots found"@, table(ss), " snapshot(s)"@)
}

/// Whether the first eight bytes of every snapshot id and volume id can be shown.
pub open spec fn showable(ss: Seq<Snapshot>) -> bool {
    forall|i: int| 0 <= i < ss.len() ==> {
        &&& can_slice_to((#[trigger] ss[i]).id@, 8)
        &&& can_slice_to(ss[i].volume_id@, 8)
    }
}

fn row_cells(s: &Snapshot) -> (cells: Vec<String>)
    requires
        can_slice_to(s.id@, 8),
        can_slice_to(s.volume_id@, 8),
    ensures
        texts(cells@) == row(*s),
{
    let mut cells: Vec<String> = Vec::new();
    cells.push(prefix_bytes(s.id.as_str(), 8));
    cells.push(s.name.clone());
    cells.push(prefix_bytes(s.volume_id.as_str(), 8));
    cells.push(s.status.clone());
    cells.push(s.created_at.clone());
    assert(texts(cells@) =~= row(*s));
    cells
}

/// The lines that show the snapshots.
pub fn render_list(ss: &Vec<Snapshot>) -> (lines: Vec<Line>)
    requires
        showable(ss@),
    ensures
        view_lines(lines@) == list_screen(ss@),
{
    let mut t = Table::new(vec!["ID", "NAME", "VOLUME", "STATUS", "CREATED"]).with_color(Coloring::StatusColumn(3));
    let mut i: usize = 0;
    while i < ss.len()
        invariant
            showable(ss@),
            i <= ss@.len(),
            t@.headers == table(ss@).headers,
            t@.coloring == table(ss@).coloring,
            t@.rows == ss@.subrange(0, i as int).map_values(|s: Snapshot| row(s)),
        decreases ss@.len() - i,
    {
        t.add_row(row_cells(&ss[i]));
        assert(ss@.subrange(0, i + 1).map_values(|s: Snapshot| row(s)) =~= ss@.subrange(0, i as int).map_values(
            |s: Snapshot| row(s),
        ).push(row(ss@[i as int])));
        i = i + 1;
    }
    assert(ss@.subrange(0, ss@.len() as int) =~= ss@);
    listing_lines("Snapshots", "no snapshots found", t, " snapshot(s)")
}

/// The fields of a new snapshot.
pub open spec fn snapshot_fields(name: Seq<char>) -> Seq<(Seq<char>, ValueView)> {
    seq![("name"@, ValueView::Str(name))]
}

/// The snapshot's name is sent as text under its own field.
pub proof fn law_snapshot_fields_carry_name(name: Seq<char>)
    ensures
        sends(snapshot_fields(name), "name"@, ValueView::Str(name)),
{
    let f = snapshot_fields(name);
    reveal_strlit("name");
    assert("name"@.len() == 4);
    assert(f[0].0 == "name"@);
}

/// The request that creates a snapshot named `name` of volume `volume_id`.
pub fn create_request(volume_id: &str, name: &str) -> (r: ApiRequest)
    ensures
        r@ == (ApiRequestView {
            method: Method::Post,
            path: snapshots_path(volume_id@),
            body: BodyView::Object(snapshot_fields(name@)),
            spinner: Some("creating snapshot..."@),
        }),
{
    let mut fields: Vec<(String, Value)> = Vec::new();
    fields.push(str_field("name", name));
    assert(fields_view(fields@) =~= snapshot_fields(name@));
    post(path_of(volume_id), Body::Object(fields), "creating snapshot...")
}

/// What is shown of a created snapshot.
pub open spec fn created_screen(s: Snapshot) -> Seq<LineView> {
    seq![
        LineView::Section("Snapshot Created"@),
        LineView::Kv("ID"@, s.id@),
        LineView::Kv("Name"@, s.name@),
        LineView::Kv("Volume"@, s.volume_id@),
        LineView::Kv("Status"@, s.status@),
        LineView::Kv("Created"@, s.created_at@),
        LineView::Blank,
        LineView::Success("snapshot created"@),
    ]
}

/// Each field of the new snapshot is shown under its own key.
pub proof fn law_created_snapshot_shown(s: Snapshot)
    ensures
        shows(created_screen(s), "ID"@, s.id@),
        shows(created_screen(s), "Name"@, s.name@),
        shows(created_screen(s), "Volume"@, s.volume_id@),
        shows(created_screen(s), "Status"@, s.status@),
        shows(created_screen(s), "Created"@, s.created_at@),
{
    let l = created_screen(s);
    reveal_strlit("ID");
    reveal_strlit("Name");
    reveal_strlit("Volume");
    reveal_strlit("Status");
    reveal_strlit("Created");
    assert("ID"@.len() == 2);
    assert("Name"@.len() == 4);
    assert("Volume"@.len() == 6 && "Volume"@[0] == 'V');
    assert("Status"@.len() == 6 && "Status"@[0] == 'S');
    assert("Created"@.len() == 7);
    assert(line_key(l[1]) == Some("ID"@));
    assert(line_key(l[2]) == Some("Name"@));
    assert(line_key(l[3]) == Some("Volume"@));
    assert(line_key(l[4]) == Some("Status"@));
    assert(line_key(l[5]) == Some("Created"@));
}

/// The lines that show a created snapshot.
pub fn render_created(s: &Snapshot) -> (lines: Vec<Line>)
    ensures
        view_lines(lines@) == created_screen(*s),
{
    let mut lines: Vec<Line> = Vec::new();
    lines.push(section("Snapshot Created"));
    lines.push(kv("ID", s.id.as_str()));
    lines.push(kv("Name", s.name.as_str()));
    lines.push(kv("Volume", s.volume_id.as_str()));
    lines.push(kv("Status", s.status.as_str()));
    lines.push(kv("Created", s.created_at.as_str()));
    lines.push(Line::Blank);
    lines.push(success("snapshot created"));
    assert(view_lines(lines@) =~= created_screen(*s));
    lines
}

} // verus!
