//! `nodes get`: the details of one agent.
use vstd::prelude::*;
use crate::display::{colors, line_key, shows, kv, kv_colored, section, status_color, status_color_of, view_lines, Line, LineView};
use crate::request::{get, ApiRequest, ApiRequestView, BodyView, Method};
use crate::text::{byte_prefix, can_show_upto, concat, or_text, prefix_upto, text_or};

verus! {

/// An agent as the server describes it.
#[derive(Debug, PartialEq, Eq)]
pub struct Agent {
    pub id: String,
    pub name: String,
    pub hostname: String,
    pub ip_address: Option<String>,
    pub os_type: String,
    pub os_version: String,
    pub architecture: String,
    pub agent_version: String,
    pub status: String,
    pub last_heartbeat: Option<String>,
    pub registered_at: String,
}

/// The request for agent `id`.
pub fn request(id: &str) -> (r: ApiRequest)
    ensures
        r@ == (ApiRequestView {
            method: Method::Get,
            path: "/agents/"@ + id@,
            body: BodyView::Empty,
            spinner: Some("fetching node..."@),
        }),
{
    get(concat("/agents/", id), "fetching node...")
}

/// The last heartbeat cut to sixteen bytes, or `never`.
pub open spec fn heartbeat_text(h: Option<String>) -> Seq<char> {
    match h {
        Some(t) => byte_prefix(t@, 16),
        None => "never"@,
    }
}

/// What is shown of an agent.
pub open spec fn screen(a: Agent) -> Seq<LineView> {
    seq![
        LineView::Section("Nodes  /  Get"@),
        LineView::Kv("ID"@, a.id@),
        LineView::Kv("Name"@, a.name@),
        LineView::Kv("Hostname"@, a.hostname@),
        LineView::Kv("IP"@, text_or(a.ip_address, "-"@)),
        LineView::Kv("OS"@, a.os_type@ + " "@ + a.os_version@),
        LineView::Kv("Architecture"@, a.architecture@),
        LineView::Kv("Agent Version"@, a.agent_version@),
        LineView::KvStyled("Status"@, a.status@, Some(status_color_of(a.status@))),
        LineView::Kv("Last Heartbeat"@, heartbeat_text(a.last_heartbeat)),
        LineView::Kv("Registered"@, byte_prefix(a.registered_at@, 16)),
        LineView::Blank,
    ]
}

/// Each field of an agent is shown under its own key, the status in its status colour: the
/// address when known (`-` only when not), the system as type and version, the heartbeat cut
/// to sixteen bytes (`never` when there was none) and the registration time cut to sixteen bytes.
pub proof fn law_agent_fields_shown(a: Agent)
    ensures
        shows(screen(a), "ID"@, a.id@),
        shows(screen(a), "Name"@, a.name@),
        shows(screen(a), "Hostname"@, a.hostname@),
        shows(screen(a), "IP"@, match a.ip_address { Some(ip) => ip@, None => "-"@ }),
        shows(screen(a), "OS"@, a.os_type@ + " "@ + a.os_version@),
        shows(screen(a), "Architecture"@, a.architecture@),
        shows(screen(a), "Agent Version"@, a.agent_version@),
        shows(screen(a), "Status"@, a.status@),
        colors(screen(a), "Status"@, Some(status_color_of(a.status@))),
        shows(screen(a), "Last Heartbeat"@, match a.last_heartbeat {
            Some(t) => byte_prefix(t@, 16),
            None => "never"@,
        }),
        shows(screen(a), "Registered"@, byte_prefix(a.registered_at@, 16)),
{
    let l = screen(a);
    reveal_strlit("ID");
    reveal_strlit("Name");
    reveal_strlit("Hostname");
    reveal_strlit("IP");
    reveal_strlit("OS");
    reveal_strlit("Architecture");
    reveal_strlit("Agent Version");
    reveal_strlit("Status");
    reveal_strlit("Last Heartbeat");
    reveal_strlit("Registered");
    assert("ID"@.len() == 2 && "ID"@[0] == 'I' && "ID"@[1] == 'D');
    assert("Name"@.len() == 4 && "Name"@[0] == 'N' && "Name"@[1] == 'a');
    assert("Hostname"@.len() == 8 && "Hostname"@[0] == 'H' && "Hostname"@[1] == 'o');
    assert("IP"@.len() == 2 && "IP"@[0] == 'I' && "IP"@[1] == 'P');
    assert("OS"@.len() == 2 && "OS"@[0] == 'O' && "OS"@[1] == 'S');
    assert("Architecture"@.len() == 12 && "Architecture"@[0] == 'A' && "Architecture"@[1] == 'r');
    assert("Agent Version"@.len() == 13 && "Agent Version"@[0] == 'A' && "Agent Version"@[1] == 'g');
    assert("Status"@.len() == 6 && "Status"@[0] == 'S' && "Status"@[1] == 't');
    assert("Last Heartbeat"@.len() == 14 && "Last Heartbeat"@[0] == 'L' && "Last Heartbeat"@[1] == 'a');
    assert("Registered"@.len() == 10 && "Registered"@[0] == 'R' && "Registered"@[1] == 'e');
    assert(line_key(l[1]) == Some("ID"@));
    assert(line_key(l[2]) == Some("Name"@));
    assert(line_key(l[3]) == Some("Hostname"@));
    assert(line_key(l[4]) == Some("IP"@));
    assert(line_key(l[5]) == Some("OS"@));
    assert(line_key(l[6]) == Some("Architecture"@));
    assert(line_key(l[7]) == Some("Agent Version"@));
    assert(line_key(l[8]) == Some("Status"@));
    assert(line_key(l[9]) == Some("Last Heartbeat"@));
    assert(line_key(l[10]) == Some("Registered"@));
}

/// Whether the agent's times can be cut to sixteen bytes.
pub open spec fn showable(a: Agent) -> bool {
    &&& (a.last_heartbeat matches Some(t) ==> can_show_upto(t@, 16))
    &&& can_show_upto(a.registered_at@, 16)
}

/// The lines that show an agent.
pub fn render(a: &Agent) -> (lines: Vec<Line>)
    requires
        showable(*a),
    ensures
        view_lines(lines@) == screen(*a),
{
    let mut lines: Vec<Line> = Vec::new();
    lines.push(section("Nodes  /  Get"));
    lines.push(kv("ID", a.id.as_str()));
    lines.push(kv("Name", a.name.as_str()));
    lines.push(kv("Hostname", a.hostname.as_str()));
    lines.push(kv("IP", or_text(&a.ip_address, "-").as_str()));
    let os = concat(concat(a.os_type.as_str(), " ").as_str(), a.os_version.as_str());
    lines.push(kv("OS", os.as_str()));
    lines.push(kv("Architecture", a.architecture.as_str()));
    lines.push(kv("Agent Version", a.agent_version.as_str()));
    lines.push(kv_colored("Status", a.status.as_str(), status_color(a.status.as_str())));
    let heartbeat = match &a.last_heartbeat {
        Some(t) => prefix_upto(t.as_str(), 16),
        None => "never".to_owned(),
    };
    lines.push(kv("Last Heartbeat", heartbeat.as_str()));
    lines.push(kv("Registered", prefix_upto(a.registered_at.as_str(), 16).as_str()));
    lines.push(Line::Blank);
    assert(view_lines(lines@) =~= screen(*a));
    lines
}

} // verus!
