//! `networks create`: a new overlay network.
use vstd::prelude::*;
use crate::display::{colors, line_key, shows, kv, kv_colored, section, status_color, status_color_of, success, view_lines, Line, LineView};
use crate::request::{fields_view, post, sends, str_field, ApiRequest, ApiRequestView, Body, BodyView, Method, Value, ValueView};

verus! {

/// A created network as the server describes it.
#[derive(Debug, PartialEq, Eq)]
pub struct Network {
    pub id: String,
    pub name: String,
    pub cidr: String,
    pub overlay_type: String,
    pub status: String,
}

/// The fields of a new network.
pub open spec fn create_fields(name: Seq<char>, cidr: Seq<char>, overlay_type: Seq<char>) -> Seq<(Seq<char>, ValueView)> {
    seq![
        ("name"@, ValueView::Str(name)),
        ("cidr"@, ValueView::Str(cidr)),
        ("overlay_type"@, ValueView::Str(overlay_type)),
    ]
}

/// Each argument of a new network is sent as text under its own field.
pub proof fn law_create_fields_carry_arguments(name: Seq<char>, cidr: Seq<char>, overlay_type: Seq<char>)
    ensures
        sends(create_fields(name, cidr, overlay_type), "name"@, ValueView::Str(name)),
        sends(create_fields(name, cidr, overlay_type), "cidr"@, ValueView::Str(cidr)),
        sends(create_fields(name, cidr, overlay_type), "overlay_type"@, ValueView::Str(overlay_type)),
{
    let f = create_fields(name, cidr, overlay_type);
    reveal_strlit("name");
    reveal_strlit("cidr");
    reveal_strlit("overlay_type");
    assert("name"@.len() == 4 && "name"@[0] == 'n');
    assert("cidr"@.len() == 4 && "cidr"@[0] == 'c');
    assert("overlay_type"@.len() == 12);
    assert(f[0].0 == "name"@);
    assert(f[1].0 == "cidr"@);
    assert(f[2].0 == "overlay_type"@);
}

/// The request that creates a network.
pub fn request(name: &str, cidr: &str, overlay_type: &str) -> (r: ApiRequest)
    ensures
        r@ == (ApiRequestView {
            method: Method::Post,
            path: "/networks"@,
            body: BodyView::Object(create_fields(name@, cidr@, overlay_type@)),
            spinner: Some("creating network..."@),
        }),
{
    let mut fields: Vec<(String, Value)> = Vec::new();
    fields.push(str_field("name", name));
    fields.push(str_field("cidr", cidr));
    fields.push(str_field("overlay_type", overlay_type));
    assert(fields_view(fields@) =~= create_fields(name@, cidr@, overlay_type@));
    post("/networks".to_owned(), Body::Object(fields), "creating network...")
}

/// What is shown of a created network.
pub open spec fn screen(n: Network) -> Seq<LineView> {
    seq![
        LineView::Section("Networks  /  Create"@),
        LineView::Kv("ID"@, n.id@),
        LineView::Kv("Name"@, n.name@),
        LineView::Kv("CIDR"@, n.cidr@),
        LineView::Kv("Overlay"@, n.overlay_type@),
        LineView::KvStyled("Status"@, n.status@, Some(status_color_of(n.status@))),
        LineView::Blank,
        LineView::Success("network created"@),
    ]
}

/// Each field of the new network is shown under its own key, the status in its status colour.
pub proof fn law_created_network_shown(n: Network)
    ensures
        shows(screen(n), "ID"@, n.id@),
        shows(screen(n), "Name"@, n.name@),
        shows(screen(n), "CIDR"@, n.cidr@),
        shows(screen(n), "Overlay"@, n.overlay_type@),
        shows(screen(n), "Status"@, n.status@),
        colors(screen(n), "Status"@, Some(status_color_of(n.status@))),
{
    let l = screen(n);
    reveal_strlit("ID");
    reveal_strlit("Name");
    reveal_strlit("CIDR");
    reveal_strlit("Overlay");
    reveal_strlit("Status");
    assert("ID"@.len() == 2);
    assert("Name"@.len() == 4 && "Name"@[0] == 'N');
    assert("CIDR"@.len() == 4 && "CIDR"@[0] == 'C');
    assert("Overlay"@.len() == 7);
    assert("Status"@.len() == 6);
    assert(line_key(l[1]) == Some("ID"@));
    assert(line_key(l[2]) == Some("Name"@));
    assert(line_key(l[3]) == Some("CIDR"@));
    assert(line_key(l[4]) == Some("Overlay"@));
    assert(line_key(l[5]) == Some("Status"@));
}

/// The lines that show a created network.
pub fn render(n: &Network) -> (lines: Vec<Line>)
    ensures
        view_lines(lines@) == screen(*n),
{
    let mut lines: Vec<Line> = Vec::new();
    lines.push(section("Networks  /  Create"));
    lines.push(kv("ID", n.id.as_str()));
    lines.push(kv("Name", n.name.as_str()));
    lines.push(kv("CIDR", n.cidr.as_str()));
    lines.push(kv("Overlay", n.overlay_type.as_str()));
    lines.push(kv_colored("Status", n.status.as_str(), status_color(n.status.as_str())));
    lines.push(Line::Blank);
    lines.push(success("network created"));
    assert(view_lines(lines@) =~= screen(*n));
    lines
}

} // verus!
