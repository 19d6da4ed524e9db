//! `volumes get`: the details of one volume.
use vstd::prelude::*;
use crate::display::{colors, line_key, shows, kv, kv_colored, section, status_color, status_color_of, view_lines, Line, LineView};
use crate::request::{get, ApiRequest, ApiRequestView, BodyView, Method};
use crate::text::{concat, i32_to_string, or_text, signed_decimal, text_or};

verus! {

/// A volume as the server describes it.
#[derive(Debug, PartialEq, Eq)]
pub struct Volume {
    pub id: String,
    pub name: String,
    pub size_gb: i32,
    pub pool: String,
    pub image_name: String,
    pub status: String,
    pub attached_to_agent: Option<String>,
    pub attached_to_workload: Option<String>,
    pub mapped_device: Option<String>,
    pub created_at: String,
    pub updated_at: Option<String>,
}

/// The request for volume `id`.
pub fn request(id: &str) -> (r: ApiRequest)
    ensures
        r@ == (ApiRequestView {
            method: Method::Get,
            path: "/volumes/"@ + id@,
            body: BodyView::Empty,
            spinner: Some("fetching volume..."@),
        }),
{
    get(concat("/volumes/", id), "fetching volume...")
}

/// What is shown of a volume.
pub open spec fn screen(v: Volume) -> Seq<LineView> {
    seq![
        LineView::Section("Volume"@),
        LineView::Kv("ID"@, v.id@),
        LineView::Kv("Name"@, v.name@),
        LineView::Kv("Size"@, signed_decimal(v.size_gb as int) + "G"@),
        LineView::Kv("Pool"@, v.pool@),
        LineView::Kv("Image"@, v.image_name@),
        LineView::KvStyled("Status"@, v.status@, Some(status_color_of(v.status@))),
        LineView::Kv("Agent"@, text_or(v.attached_to_agent, "-"@)),
        LineView::Kv("Workload"@, text_or(v.attached_to_workload, "-"@)),
        LineView::Kv("Device"@, text_or(v.mapped_device, "-"@)),
        LineView::Kv("Created"@, v.created_at@),
        LineView::Kv("Updated"@, text_or(v.updated_at, "-"@)),
        LineView::Blank,
    ]
}

/// Each field of a volume is shown under its own key, independently of the others, the status
/// in its status colour: the size in gigabytes, each attachment and the update time when known
/// (`-` only when not).
pub proof fn law_volume_fields_shown(v: Volume)
    ensures
        shows(screen(v), "ID"@, v.id@),
        shows(screen(v), "Name"@, v.name@),
        shows(screen(v), "Size"@, signed_decimal(v.size_gb as int) + "G"@),
        shows(screen(v), "Pool"@, v.pool@),
        shows(screen(v), "Image"@, v.image_name@),
        shows(screen(v), "Status"@, v.status@),
        colors(screen(v), "Status"@, Some(status_color_of(v.status@))),
        shows(screen(v), "Agent"@, match v.attached_to_agent { Some(x) => x@, None => "-"@ }),
        shows(screen(v), "Workload"@, match v.attached_to_workload { Some(x) => x@, None => "-"@ }),
        shows(screen(v), "Device"@, match v.mapped_device { Some(x) => x@, None => "-"@ }),
        shows(screen(v), "Created"@, v.created_at@),
        shows(screen(v), "Updated"@, match v.updated_at { Some(x) => x@, None => "-"@ }),
{
    let l = screen(v);
    reveal_strlit("ID");
    reveal_strlit("Name");
    reveal_strlit("Size");
    reveal_strlit("Pool");
    reveal_strlit("Image");
    reveal_strlit("Status");
    reveal_strlit("Agent");
    reveal_strlit("Workload");
    reveal_strlit("Device");
    reveal_strlit("Created");
    reveal_strlit("Updated");
    assert("ID"@.len() == 2 && "ID"@[0] == 'I' && "ID"@[1] == 'D');
    assert("Name"@.len() == 4 && "Name"@[0] == 'N' && "Name"@[1] == 'a');
    assert("Size"@.len() == 4 && "Size"@[0] == 'S' && "Size"@[1] == 'i');
    assert("Pool"@.len() == 4 && "Pool"@[0] == 'P' && "Pool"@[1] == 'o');
    assert("Image"@.len() == 5 && "Image"@[0] == 'I' && "Image"@[1] == 'm');
    assert("Status"@.len() == 6 && "Status"@[0] == 'S' && "Status"@[1] == 't');
    assert("Agent"@.len() == 5 && "Agent"@[0] == 'A' && "Agent"@[1] == 'g');
    assert("Workload"@.len() == 8 && "Workload"@[0] == 'W' && "Workload"@[1] == 'o');
    assert("Device"@.len() == 6 && "Device"@[0] == 'D' && "Device"@[1] == 'e');
    assert("Created"@.len() == 7 && "Created"@[0] == 'C' && "Created"@[1] == 'r');
    assert("Updated"@.len() == 7 && "Updated"@[0] == 'U' && "Updated"@[1] == 'p');
    assert(line_key(l[1]) == Some("ID"@));
    assert(line_key(l[2]) == Some("Name"@));
    assert(line_key(l[3]) == Some("Size"@));
    assert(line_key(l[4]) == Some("Pool"@));
    assert(line_key(l[5]) == Some("Image"@));
    assert(line_key(l[6]) == Some("Status"@));
    assert(line_key(l[7]) == Some("Agent"@));
    assert(line_key(l[8]) == Some("Workload"@));
    assert(line_key(l[9]) == Some("Device"@));
    assert(line_key(l[10]) == Some("Created"@));
    assert(line_key(l[11]) == Some("Updated"@));
}

/// The lines that show a volume.
pub fn render(v: &Volume) -> (lines: Vec<Line>)
    ensures
        view_lines(lines@) == screen(*v),
{
    let mut lines: Vec<Line> = Vec::new();
    lines.push(section("Volume"));
    lines.push(kv("ID", v.id.as_str()));
    lines.push(kv("Name", v.name.as_str()));
    let size = concat(i32_to_string(v.size_gb).as_str(), "G");
    lines.push(kv("Size", size.as_str()));
    lines.push(kv("Pool", v.pool.as_str()));
    lines.push(kv("Image", v.image_name.as_str()));
    lines.push(kv_colored("Status", v.status.as_str(), status_color(v.status.as_str())));
    lines.push(kv("Agent", or_text(&v.attached_to_agent, "-").as_str()));
    lines.push(kv("Workload", or_text(&v.attached_to_workload, "-").as_str()));
    lines.push(kv("Device", or_text(&v.mapped_device, "-").as_str()));
    lines.push(kv("Created", v.created_at.as_str()));
    lines.push(kv("Updated", or_text(&v.updated_at, "-").as_str()));
    lines.push(Line::Blank);
    assert(view_lines(lines@) =~= screen(*v));
    lines
}

} // verus!
