//! `volumes attach`: attach a volume to an agent, optionally for a workload.
use vstd::prelude::*;
use crate::display::{colors, line_key, shows, kv, kv_colored, section, status_color, status_color_of, success, view_lines, Line, LineView};
use crate::request::{sends, sends_nothing_under, fields_view, post, str_field, ApiRequest, ApiRequestView, Body, BodyView, Method, Value, ValueView};
use crate::text::{concat, or_text, text_or};

verus! {

/// An attached volume as the server describes it.
#[derive(Debug, PartialEq, Eq)]
pub struct Volume {
    pub id: String,
    pub name: String,
    pub status: String,
    pub attached_to_agent: Option<String>,
    pub mapped_device: Option<String>,
}

/// The fields of the request body: the agent, and the workload when one is given.
pub open spec fn body_fields(agent_id: Seq<char>, workload_id: Option<String>) -> Seq<(Seq<char>, ValueView)> {
    let base = seq![("agent_id"@, ValueView::Str(agent_id))];
    match workload_id {
        Some(w) => base.push(("workload_id"@, ValueView::Str(w@))),
        None => base,
    }
}

/// The agent's id is sent as text under its own field; the workload's id is sent as text when
/// given, and no workload field at all when not.
pub proof fn law_body_fields_carry_arguments(agent_id: Seq<char>, workload_id: Option<String>)
    ensures
        sends(body_fields(agent_id, workload_id), "agent_id"@, ValueView::Str(agent_id)),
        match workload_id {
            Some(w) => sends(body_fields(agent_id, workload_id), "workload_id"@, ValueView::Str(w@)),
            None => sends_nothing_under(body_fields(agent_id, workload_id), "workload_id"@),
        },
{
    let f = body_fields(agent_id, workload_id);
    reveal_strlit("agent_id");
    reveal_strlit("workload_id");
    assert("agent_id"@.len() == 8);
    assert("workload_id"@.len() == 11);
    assert(f[0].0 == "agent_id"@);
    if workload_id is Some {
        assert(f[1].0 == "workload_id"@);
    }
}

/// The request that attaches volume `volume_id` to agent `agent_id`.
pub fn request(volume_id: &str, agent_id: &str, workload_id: &Option<String>) -> (r: ApiRequest)
    ensures
        r@ == (ApiRequestView {
            method: Method::Post,
            path: "/volumes/"@ + volume_id@ + "/attach"@,
            body: BodyView::Object(body_fields(agent_id@, *workload_id)),
            spinner: Some("attaching volume..."@),
        }),
{
    let mut fields: Vec<(String, Value)> = Vec::new();
    fields.push(str_field("agent_id", agent_id));
    match workload_id {
        Some(w) => fields.push(str_field("workload_id", w.as_str())),
        None => {},
    }
    assert(fields_view(fields@) =~= body_fields(agent_id@, *workload_id));
    let path = concat(concat("/volumes/", volume_id).as_str(), "/attach");
    post(path, Body::Object(fields), "attaching volume...")
}

/// What is shown of an attached volume.
pub open spec fn screen(v: Volume) -> Seq<LineView> {
    seq![
        LineView::Section("Volume Attached"@),
        LineView::Kv("ID"@, v.id@),
        LineView::Kv("Name"@, v.name@),
        LineView::KvStyled("Status"@, v.status@, Some(status_color_of(v.status@))),
        LineView::Kv("Agent"@, text_or(v.attached_to_agent, "-"@)),
        LineView::Kv("Device"@, text_or(v.mapped_device, "-"@)),
        LineView::Blank,
        LineView::Success("volume attached"@),
    ]
}

/// Each field of the attached volume is shown under its own key: the status in its status
/// colour, the agent and the device when known (`-` only when not).
pub proof fn law_attached_volume_shown(v: Volume)
    ensures
        shows(screen(v), "ID"@, v.id@),
        shows(screen(v), "Name"@, v.name@),
        shows(screen(v), "Status"@, v.status@),
        colors(screen(v), "Status"@, Some(status_color_of(v.status@))),
        shows(screen(v), "Agent"@, match v.attached_to_agent { Some(x) => x@, None => "-"@ }),
        shows(screen(v), "Device"@, match v.mapped_device { Some(x) => x@, None => "-"@ }),
{
    let l = screen(v);
    reveal_strlit("ID");
    reveal_strlit("Name");
    reveal_strlit("Status");
    reveal_strlit("Agent");
    reveal_strlit("Device");
    assert("ID"@.len() == 2);
    assert("Name"@.len() == 4);
    assert("Status"@.len() == 6 && "Status"@[0] == 'S');
    assert("Agent"@.len() == 5);
    assert("Device"@.len() == 6 && "Device"@[0] == 'D');
    assert(line_key(l[1]) == Some("ID"@));
    assert(line_key(l[2]) == Some("Name"@));
    assert(line_key(l[3]) == Some("Status"@));
    assert(line_key(l[4]) == Some("Agent"@));
    assert(line_key(l[5]) == Some("Device"@));
}

/// The lines that show an attached volume.
pub fn render(v: &Volume) -> (lines: Vec<Line>)
    ensures
        view_lines(lines@) == screen(*v),
{
    let mut lines: Vec<Line> = Vec::new();
    lines.push(section("Volume Attached"));
    lines.push(kv("ID", v.id.as_str()));
    lines.push(kv("Name", v.name.as_str()));
    lines.push(kv_colored("Status", v.status.as_str(), status_color(v.status.as_str())));
    lines.push(kv("Agent", or_text(&v.attached_to_agent, "-").as_str()));
    lines.push(kv("Device", or_text(&v.mapped_device, "-").as_str()));
    lines.push(Line::Blank);
    lines.push(success("volume attached"));
    assert(view_lines(lines@) =~= screen(*v));
    lines
}

} // verus!
