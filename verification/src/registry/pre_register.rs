//! `registry pre-register`: register an agent ahead of its first contact and obtain its token.
use vstd::prelude::*;
use crate::display::{line_key, shows, info, kv, section, view_lines, Color, Line, LineView};
use crate::request::{fields_view, int_field, opt_str_field, opt_str_value, post, sends, str_field, ApiRequest, ApiRequestView, Body, BodyView, Method, Value, ValueView};

verus! {

/// The server's answer to a pre-registration.
#[derive(Debug, PartialEq, Eq)]
pub struct PreRegisterResponse {
    pub agent_id: String,
    pub registration_token: String,
    pub token_expires_at: String,
}

/// The token's lifetime in hours: as given, or 24.
pub open spec fn ttl_or_default(ttl_hours: Option<i64>) -> int {
    match ttl_hours {
        Some(h) => h as int,
        None => 24,
    }
}

/// The fields of a pre-registration.
pub open spec fn body_fields(
    name: Seq<char>,
    hostname: Seq<char>,
    os_type: Option<String>,
    architecture: Option<String>,
    ttl_hours: Option<i64>,
) -> Seq<(Seq<char>, ValueView)> {
    seq![
        ("name"@, ValueView::Str(name)),
        ("hostname"@, ValueView::Str(hostname)),
        ("expected_os_type"@, opt_str_value(os_type)),
        ("expected_architecture"@, opt_str_value(architecture)),
        ("ttl_hours"@, ValueView::Int(ttl_or_default(ttl_hours))),
    ]
}

/// Each argument of a pre-registration is sent under its own field: the name and the host name
/// as text, the expected system and architecture as text when given and `null` when not, and
/// the token's lifetime in hours as a number, 24 when not given.
pub proof fn law_body_fields_carry_arguments(name: Seq<char>, hostname: Seq<char>, os_type: Option<String>, architecture: Option<String>, ttl_hours: Option<i64>)
    ensures
        sends(body_fields(name, hostname, os_type, architecture, ttl_hours), "name"@, ValueView::Str(name)),
        sends(body_fields(name, hostname, os_type, architecture, ttl_hours), "hostname"@, ValueView::Str(hostname)),
        sends(body_fields(name, hostname, os_type, architecture, ttl_hours), "expected_os_type"@, match os_type { Some(o) => ValueView::Str(o@), None => ValueView::Null }),
        sends(body_fields(name, hostname, os_type, architecture, ttl_hours), "expected_architecture"@, match architecture { Some(a) => ValueView::Str(a@), None => ValueView::Null }),
        sends(body_fields(name, hostname, os_type, architecture, ttl_hours), "ttl_hours"@, ValueView::Int(match ttl_hours { Some(h) => h as int, None => 24 })),
{
    let f = body_fields(name, hostname, os_type, architecture, ttl_hours);
    reveal_strlit("name");
    reveal_strlit("hostname");
    reveal_strlit("expected_os_type");
    reveal_strlit("expected_architecture");
    reveal_strlit("ttl_hours");
    assert("name"@.len() == 4);
    assert("hostname"@.len() == 8);
    assert("expected_os_type"@.len() == 16);
    assert("expected_architecture"@.len() == 21);
    assert("ttl_hours"@.len() == 9);
    assert(f[0].0 == "name"@);
    assert(f[1].0 == "hostname"@);
    assert(f[2].0 == "expected_os_type"@);
    assert(f[3].0 == "expected_architecture"@);
    assert(f[4].0 == "ttl_hours"@);
}

/// The request that pre-registers an agent.
pub fn request(
    name: &str,
    hostname: &str,
    os_type: &Option<String>,
    architecture: &Option<String>,
    ttl_hours: Option<i64>,
) -> (r: ApiRequest)
    ensures
        r@ == (ApiRequestView {
            method: Method::Post,
            path: "/registry/admin/agents/pre-register"@,
            body: BodyView::Object(body_fields(name@, hostname@, *os_type, *architecture, ttl_hours)),
            spinner: Some("pre-registering agent..."@),
        }),
{
    let ttl: i64 = match ttl_hours {
        Some(h) => h,
        None => 24,
    };
    let mut fields: Vec<(String, Value)> = Vec::new();
    fields.push(str_field("name", name));
    fields.push(str_field("hostname", hostname));
    fields.push(opt_str_field("expected_os_type", os_type));
    fields.push(opt_str_field("expected_architecture", architecture));
    fields.push(int_field("ttl_hours", ttl));
    assert(fields_view(fields@) =~= body_fields(name@, hostname@, *os_type, *architecture, ttl_hours));
    post("/registry/admin/agents/pre-register".to_owned(), Body::Object(fields), "pre-registering agent...")
}

/// What is shown of a pre-registration: the agent, the token's expiry, and the token itself in cyan.
pub open spec fn screen(r: PreRegisterResponse) -> Seq<LineView> {
    seq![
        LineView::Section("Registry  /  Agent Pre-Registered"@),
        LineView::Kv("Agent ID"@, r.agent_id@),
        LineView::Kv("Token Expires"@, r.token_expires_at@),
        LineView::Blank,
        LineView::Emphasis("Registration Token"@, None),
        LineView::Emphasis(r.registration_token@, Some(Color::Cyan)),
        LineView::Blank,
        LineView::Info("embed this token in the NixOS configuration for this node"@),
        LineView::Info("the token is single-use and expires after the configured TTL"@),
    ]
}

/// The agent's id and the token's expiry are each shown under their own key, and the
/// registration token itself is shown emphasised in cyan under its title.
pub proof fn law_pre_registration_shown(r: PreRegisterResponse)
    ensures
        shows(screen(r), "Agent ID"@, r.agent_id@),
        shows(screen(r), "Token Expires"@, r.token_expires_at@),
        screen(r)[4] == LineView::Emphasis("Registration Token"@, None),
        screen(r)[5] == LineView::Emphasis(r.registration_token@, Some(Color::Cyan)),
{
    let l = screen(r);
    reveal_strlit("Agent ID");
    reveal_strlit("Token Expires");
    assert("Agent ID"@.len() == 8);
    assert("Token Expires"@.len() == 13);
    assert(line_key(l[1]) == Some("Agent ID"@));
    assert(line_key(l[2]) == Some("Token Expires"@));
}

/// The lines that show a pre-registration.
pub fn render(r: &PreRegisterResponse) -> (lines: Vec<Line>)
    ensures
        view_lines(lines@) == screen(*r),
{
    let mut lines: Vec<Line> = Vec::new();
    lines.push(section("Registry  /  Agent Pre-Registered"));
    lines.push(kv("Agent ID", r.agent_id.as_str()));
    lines.push(kv("Token Expires", r.token_expires_at.as_str()));
    lines.push(Line::Blank);
    lines.push(Line::Emphasis("Registration Token".to_owned(), None));
    lines.push(Line::Emphasis(r.registration_token.clone(), Some(Color::Cyan)));
    lines.push(Line::Blank);
    lines.push(info("embed this token in the NixOS configuration for this node"));
    lines.push(info("the token is single-use and expires after the configured TTL"));
    assert(view_lines(lines@) =~= screen(*r));
    lines
}

} // verus!
