//! `volumes detach`: detach a volume.
use vstd::prelude::*;
use crate::display::{colors, line_key, shows, kv, kv_colored, section, status_color, status_color_of, success, view_lines, Line, LineView};
use crate::request::{post, ApiRequest, ApiRequestView, Body, BodyView, Method};
use crate::text::concat;

verus! {

/// A detached volume as the server describes it.
#[derive(Debug, PartialEq, Eq)]
pub struct Volume {
    pub id: String,
    pub name: String,
    pub status: String,
}

/// The request that detaches volume `volume_id`; its body is the JSON `null`.
pub fn request(volume_id: &str) -> (r: ApiRequest)
    ensures
        r@ == (ApiRequestView {
            method: Method::Post,
            path: "/volumes/"@ + volume_id@ + "/detach"@,
            body: BodyView::Null,
            spinner: Some("detaching volume..."@),
        }),
{
    let path = concat(concat("/volumes/", volume_id).as_str(), "/detach");
    post(path, Body::Null, "detaching volume...")
}

/// What is shown of a detached volume.
pub open spec fn screen(v: Volume) -> Seq<LineView> {
    seq![
        LineView::Section("Volume Detached"@),
        LineView::Kv("ID"@, v.id@),
        LineView::Kv("Name"@, v.name@),
        LineView::KvStyled("Status"@, v.status@, Some(status_color_of(v.status@))),
        LineView::Blank,
        LineView::Success("volume detached"@),
    ]
}

/// Each field of the detached volume is shown under its own key, the status in its status colour.
pub proof fn law_detached_volume_shown(v: Volume)
    ensures
        shows(screen(v), "ID"@, v.id@),
        shows(screen(v), "Name"@, v.name@),
        shows(screen(v), "Status"@, v.status@),
        colors(screen(v), "Status"@, Some(status_color_of(v.status@))),
{
    let l = screen(v);
    reveal_strlit("ID");
    reveal_strlit("Name");
    reveal_strlit("Status");
    assert("ID"@.len() == 2);
    assert("Name"@.len() == 4);
    assert("Status"@.len() == 6);
    assert(line_key(l[1]) == Some("ID"@));
    assert(line_key(l[2]) == Some("Name"@));
    assert(line_key(l[3]) == Some("Status"@));
}

/// The lines that show a detached volume.
pub fn render(v: &Volume) -> (lines: Vec<Line>)
    ensures
        view_lines(lines@) == screen(*v),
{
    let mut lines: Vec<Line> = Vec::new();
    lines.push(section("Volume Detached"));
    lines.push(kv("ID", v.id.as_str()));
    lines.push(kv("Name", v.name.as_str()));
    lines.push(kv_colored("Status", v.status.as_str(), status_color(v.status.as_str())));
    lines.push(Line::Blank);
    lines.push(success("volume detached"));
    assert(view_lines(lines@) =~= screen(*v));
    lines
}

} // verus!
