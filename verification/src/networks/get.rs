//! `networks get`: the details of one network.
use vstd::prelude::*;
use crate::display::{colors, line_key, shows, kv, kv_colored, section, status_color, status_color_of, view_lines, Line, LineView};
use crate::request::{get, ApiRequest, ApiRequestView, BodyView, Method};
use crate::text::{concat, or_text, text_or};

verus! {

/// A network as the server describes it.
#[derive(Debug, PartialEq, Eq)]
pub struct Network {
    pub id: String,
    pub name: String,
    pub cidr: String,
    pub overlay_type: String,
    pub status: String,
    pub created_at: String,
    pub updated_at: Option<String>,
}

/// The request for network `id`.
pub fn request(id: &str) -> (r: ApiRequest)
    ensures
        r@ == (ApiRequestView {
            method: Method::Get,
            path: "/networks/"@ + id@,
            body: BodyView::Empty,
            spinner: Some("fetching network..."@),
        }),
{
    get(concat("/networks/", id), "fetching network...")
}

/// What is shown of a network.
pub open spec fn screen(n: Network) -> Seq<LineView> {
    seq![
        LineView::Section("Networks  /  Details"@),
        LineView::Kv("ID"@, n.id@),
        LineView::Kv("Name"@, n.name@),
        LineView::Kv("CIDR"@, n.cidr@),
        LineView::Kv("Overlay"@, n.overlay_type@),
        LineView::KvStyled("Status"@, n.status@, Some(status_color_of(n.status@))),
        LineView::Kv("Created"@, n.created_at@),
        LineView::Kv("Updated"@, text_or(n.updated_at, "-"@)),
        LineView::Blank,
    ]
}

/// Each field of a network is shown under its own key, the status in its status colour and
/// the update time when known (`-` only when not).
pub proof fn law_network_fields_shown(n: Network)
    ensures
        shows(screen(n), "ID"@, n.id@),
        shows(screen(n), "Name"@, n.name@),
        shows(screen(n), "CIDR"@, n.cidr@),
        shows(screen(n), "Overlay"@, n.overlay_type@),
        shows(screen(n), "Status"@, n.status@),
        colors(screen(n), "Status"@, Some(status_color_of(n.status@))),
        shows(screen(n), "Created"@, n.created_at@),
        shows(screen(n), "Updated"@, match n.updated_at { Some(x) => x@, None => "-"@ }),
{
    let l = screen(n);
    reveal_strlit("ID");
    reveal_strlit("Name");
    reveal_strlit("CIDR");
    reveal_strlit("Overlay");
    reveal_strlit("Status");
    reveal_strlit("Created");
    reveal_strlit("Updated");
    assert("ID"@.len() == 2);
    assert("Name"@.len() == 4 && "Name"@[0] == 'N');
    assert("CIDR"@.len() == 4 && "CIDR"@[0] == 'C');
    assert("Overlay"@.len() == 7 && "Overlay"@[0] == 'O');
    assert("Status"@.len() == 6);
    assert("Created"@.len() == 7 && "Created"@[0] == 'C');
    assert("Updated"@.len() == 7 && "Updated"@[0] == 'U');
    assert(line_key(l[1]) == Some("ID"@));
    assert(line_key(l[2]) == Some("Name"@));
    assert(line_key(l[3]) == Some("CIDR"@));
    assert(line_key(l[4]) == Some("Overlay"@));
    assert(line_key(l[5]) == Some("Status"@));
    assert(line_key(l[6]) == Some("Created"@));
    assert(line_key(l[7]) == Some("Updated"@));
}

/// The lines that show a network.
pub fn render(n: &Network) -> (lines: Vec<Line>)
    ensures
        view_lines(lines@) == screen(*n),
{
    let mut lines: Vec<Line> = Vec::new();
    lines.push(section("Networks  /  Details"));
    lines.push(kv("ID", n.id.as_str()));
    lines.push(kv("Name", n.name.as_str()));
    lines.push(kv("CIDR", n.cidr.as_str()));
    lines.push(kv("Overlay", n.overlay_type.as_str()));
    lines.push(kv_colored("Status", n.status.as_str(), status_color(n.status.as_str())));
    lines.push(kv("Created", n.created_at.as_str()));
    lines.push(kv("Updated", or_text(&n.updated_at, "-").as_str()));
    lines.push(Line::Blank);
    assert(view_lines(lines@) =~= screen(*n));
    lines
}

} // verus!
