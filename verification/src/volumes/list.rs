//! `volumes list`: every volume, one row each.
use vstd::prelude::*;
use crate::display::{column_shows, listing, listing_lines, texts, view_lines, Coloring, Line, LineView, Table, TableView};
use crate::request::{get, ApiRequest, ApiRequestView, BodyView, Method};
use crate::text::{byte_prefix, can_slice_to, concat, decimal, or_text, prefix_bytes, text_or, u64_to_string};

verus! {

/// A volume as the server lists it.
#[derive(Debug, PartialEq, Eq)]
pub struct Volume {
    pub id: String,
    pub name: String,
    pub size_gb: u64,
    pub pool: String,
    pub status: String,
    pub encrypted: bool,
    pub node_id: Option<String>,
}

/// The request for all volumes.
pub fn request() -> (r: ApiRequest)
    ensures
        r@ == (ApiRequestView {
            method: Method::Get,
            path: "/volumes"@,
            body: BodyView::Empty,
            spinner: Some("fetching volumes..."@),
        }),
{
    get("/volumes".to_owned(), "fetching volumes...")
}

/// `yes` or `no`.
pub open spec fn yes_no(b: bool) -> Seq<char> {
    if b { "yes"@ } else { "no"@ }
}

/// The row of a volume.
pub open spec fn row(v: Volume) -> Seq<Seq<char>> {
    seq![
        byte_prefix(v.id@, 8),
        v.name@,
        decimal(v.size_gb as nat) + "G"@,
        v.pool@,
        v.status@,
        yes_no(v.encrypted),
        text_or(v.node_id, "-"@),
    ]
}

/// The table of volumes.
pub open spec fn table(vs: Seq<Volume>) -> TableView {
    TableView {
        headers: seq!["ID"@, "NAME"@, "SIZE"@, "POOL"@, "STATUS"@, "ENCRYPTED"@, "NODE"@],
        rows: vs.map_values(|v: Volume| row(v)),
        coloring: Some(Coloring::StatusColumn(4)),
    }
}

/// Each volume has one row, and each column shows that volume's own field: the size in
/// gigabytes, whether it is encrypted, and its node when known (`-` only when not).
/// The status colours go to the STATUS column.
pub proof fn law_volume_columns(vs: Seq<Volume>)
    ensures
        table(vs).coloring matches Some(Coloring::StatusColumn(k)) && k < table(vs).headers.len() && table(vs).headers[k as int] == "STATUS"@,
        column_shows(table(vs), "ID"@, vs.map_values(|x: Volume| byte_prefix(x.id@, 8))),
        column_shows(table(vs), "NAME"@, vs.map_values(|x: Volume| x.name@)),
        column_shows(table(vs), "SIZE"@, vs.map_values(|x: Volume| decimal(x.size_gb as nat) + "G"@)),
        column_shows(table(vs), "POOL"@, vs.map_values(|x: Volume| x.pool@)),
        column_shows(table(vs), "STATUS"@, vs.map_values(|x: Volume| x.status@)),
        column_shows(table(vs), "ENCRYPTED"@, vs.map_values(|x: Volume| if x.encrypted { "yes"@ } else { "no"@ })),
        column_shows(table(vs), "NODE"@, vs.map_values(|x: Volume| match x.node_id { Some(o) => o@, None => "-"@ })),
{
    let t = table(vs);
    reveal_strlit("ID");
    reveal_strlit("NAME");
    reveal_strlit("SIZE");
    reveal_strlit("POOL");
    reveal_strlit("STATUS");
    reveal_strlit("ENCRYPTED");
    reveal_strlit("NODE");
    assert("ID"@.len() == 2);
    assert("NAME"@.len() == 4 && "NAME"@[0] == 'N' && "NAME"@[1] == 'A');
    assert("SIZE"@.len() == 4 && "SIZE"@[0] == 'S');
    assert("POOL"@.len() == 4 && "POOL"@[0] == 'P');
    assert("STATUS"@.len() == 6);
    assert("ENCRYPTED"@.len() == 9);
    assert("NODE"@.len() == 4 && "NODE"@[0] == 'N' && "NODE"@[1] == 'O');
    assert(t.headers[0] == "ID"@);
    assert(t.headers[1] == "NAME"@);
    assert(t.headers[2] == "SIZE"@);
    assert(t.headers[3] == "POOL"@);
    assert(t.headers[4] == "STATUS"@);
    assert(t.headers[5] == "ENCRYPTED"@);
    assert(t.headers[6] == "NODE"@);
}

/// What is shown of the volumes.
pub open spec fn screen(vs: Seq<Volume>) -> Seq<LineView> {
    listing("Volumes"@, "no volumes found"@, table(vs), " volume(s)"@)
}

/// Whether every id is long enough to show its first eight bytes.
pub open spec fn showable(vs: Seq<Volume>) -> bool {
    forall|i: int| 0 <= i < vs.len() ==> can_slice_to((#[trigger] vs[i]).id@, 8)
}

fn row_cells(v: &Volume) -> (cells: Vec<String>)
    requires
        can_slice_to(v.id@, 8),
    ensures
        texts(cells@) == row(*v),
{
    let mut cells: Vec<String> = Vec::new();
    cells.push(prefix_bytes(v.id.as_str(), 8));
    cells.push(v.name.clone());
    cells.push(concat(u64_to_string(v.size_gb).as_str(), "G"));
    cells.push(v.pool.clone());
    cells.push(v.status.clone());
    cells.push(if v.encrypted { "yes".to_owned() } else { "no".to_owned() });
    cells.push(or_text(&v.node_id, "-"));
    assert(texts(cells@) =~= row(*v));
    cells
}

/// The lines that show the volumes.
pub fn render(vs: &Vec<Volume>) -> (lines: Vec<Line>)
    requires
        showable(vs@),
    ensures
        view_lines(lines@) == screen(vs@),
{
    let mut t = Table::new(vec!["ID", "NAME", "SIZE", "POOL", "STATUS", "ENCRYPTED", "NODE"]).with_color(
        Coloring::StatusColumn(4),
    );
    let mut i: usize = 0;
    while i < vs.len()
        invariant
            showable(vs@),
            i <= vs@.len(),
            t@.headers == table(vs@).headers,
            t@.coloring == table(vs@).coloring,
            t@.rows == vs@.subrange(0, i as int).map_values(|v: Volume| row(v)),
        decreases vs@.len() - i,
    {
        t.add_row(row_cells(&vs[i]));
        assert(vs@.subrange(0, i + 1).map_values(|v: Volume| row(v)) =~= vs@.subrange(
            0,
            i as int,
        ).map_values(|v: Volume| row(v)).push(row(vs@[i as int])));
        i = i + 1;
    }
    assert(vs@.subrange(0, vs@.len() as int) =~= vs@);
    listing_lines("Volumes", "no volumes found", t, " volume(s)")
}

} // verus!
