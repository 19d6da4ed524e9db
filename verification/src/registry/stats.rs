//! `registry stats`: how many agents are online, offline and degraded.
use vstd::prelude::*;
use crate::display::{colors, line_key, shows, section, view_lines, Color, Line, LineView};
use crate::request::{get, ApiRequest, ApiRequestView, BodyView, Method};
use crate::text::{decimal, u64_to_string};

verus! {

/// The registry's counts of agents.
#[derive(Debug, PartialEq, Eq)]
pub struct Statistics {
    pub total: u64,
    pub online: u64,
    pub offline: u64,
    pub degraded: u64,
}

/// The request for the registry's statistics.
pub fn request() -> (r: ApiRequest)
    ensures
        r@ == (ApiRequestView {
            method: Method::Get,
            path: "/registry/admin/statistics"@,
            body: BodyView::Empty,
            spinner: Some("fetching registry statistics..."@),
        }),
{
    get("/registry/admin/statistics".to_owned(), "fetching registry statistics...")
}

/// What is shown of the statistics: the four counts in bold (online green, offline red,
/// degraded yellow) and the health bar of online agents among all.
pub open spec fn screen(s: Statistics) -> Seq<LineView> {
    seq![
        LineView::Section("Registry  /  Statistics"@),
        LineView::KvStyled("Total"@, decimal(s.total as nat), None),
        LineView::KvStyled("Online"@, decimal(s.online as nat), Some(Color::Green)),
        LineView::KvStyled("Offline"@, decimal(s.offline as nat), Some(Color::Red)),
        LineView::KvStyled("Degraded"@, decimal(s.degraded as nat), Some(Color::Yellow)),
        LineView::Blank,
        LineView::HealthBar(s.online as nat, s.total as nat),
        LineView::Blank,
    ]
}

/// Each count is shown under its own key, in its own colour: online green, offline red,
/// degraded yellow; and the health bar shows the online agents out of all agents.
pub proof fn law_statistics_shown(s: Statistics)
    ensures
        shows(screen(s), "Total"@, decimal(s.total as nat)),
        colors(screen(s), "Total"@, None),
        shows(screen(s), "Online"@, decimal(s.online as nat)),
        colors(screen(s), "Online"@, Some(Color::Green)),
        shows(screen(s), "Offline"@, decimal(s.offline as nat)),
        colors(screen(s), "Offline"@, Some(Color::Red)),
        shows(screen(s), "Degraded"@, decimal(s.degraded as nat)),
        colors(screen(s), "Degraded"@, Some(Color::Yellow)),
        screen(s)[6] == LineView::HealthBar(s.online as nat, s.total as nat),
{
    let l = screen(s);
    reveal_strlit("Total");
    reveal_strlit("Online");
    reveal_strlit("Offline");
    reveal_strlit("Degraded");
    assert("Total"@.len() == 5);
    assert("Online"@.len() == 6);
    assert("Offline"@.len() == 7);
    assert("Degraded"@.len() == 8);
    assert(line_key(l[1]) == Some("Total"@));
    assert(line_key(l[2]) == Some("Online"@));
    assert(line_key(l[3]) == Some("Offline"@));
    assert(line_key(l[4]) == Some("Degraded"@));
}

/// The lines that show the statistics.
pub fn render(s: &Statistics) -> (lines: Vec<Line>)
    ensures
        view_lines(lines@) == screen(*s),
{
    let mut lines: Vec<Line> = Vec::new();
    lines.push(section("Registry  /  Statistics"));
    lines.push(Line::KvStyled("Total".to_owned(), u64_to_string(s.total), None));
    lines.push(Line::KvStyled("Online".to_owned(), u64_to_string(s.online), Some(Color::Green)));
    lines.push(Line::KvStyled("Offline".to_owned(), u64_to_string(s.offline), Some(Color::Red)));
    lines.push(Line::KvStyled("Degraded".to_owned(), u64_to_string(s.degraded), Some(Color::Yellow)));
    lines.push(Line::Blank);
    lines.push(Line::HealthBar(s.online, s.total));
    lines.push(Line::Blank);
    assert(view_lines(lines@) =~= screen(*s));
    lines
}

} // verus!
