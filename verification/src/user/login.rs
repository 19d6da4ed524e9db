//! `login`: ask for the server and credentials, and keep the session token.
use vstd::prelude::*;
use crate::config::Config;
use crate::display::{text, view_lines, Line, LineView};
use crate::request::{fields_view, sends, str_field, Body, BodyView, Value, ValueView};
use crate::text::{concat, trim_end_slash, trim_end_slashes};

verus! {

/// The lines shown first.
pub open spec fn intro_screen() -> Seq<LineView> {
    seq![LineView::Text("🔐 CSF Login"@), LineView::Blank]
}

/// The lines shown first.
pub fn intro() -> (lines: Vec<Line>)
    ensures
        view_lines(lines@) == intro_screen(),
{
    let mut lines: Vec<Line> = Vec::new();
    lines.push(text("🔐 CSF Login"));
    lines.push(Line::Blank);
    assert(view_lines(lines@) =~= intro_screen());
    lines
}

/// The settings to start from: those saved, or empty ones.
pub fn starting_config(saved: Option<Config>) -> (c: Config)
    ensures
        saved matches Some(s) ==> c == s,
        saved is None ==> c.server@ == Seq::<char>::empty() && c.token is None && c.compose_dir is None
            && c.ghcr_org is None,
{
    match saved {
        Some(c) => c,
        None => Config { server: String::new(), token: None, compose_dir: None, ghcr_org: None },
    }
}

/// How the server address is asked for.
#[derive(Debug, PartialEq, Eq)]
pub struct ServerPrompt {
    pub prompt: String,
    pub default: Option<String>,
}

/// How the server address is asked for: with an example when none is saved, else with the saved one as default.
pub fn server_prompt(config: &Config) -> (p: ServerPrompt)
    ensures
        config.server@.len() == 0 ==> p.prompt@ == "Server URL (z.B. http://192.168.1.36:8000)"@ && p.default is None,
        config.server@.len() != 0 ==> p.prompt@ == "Server URL"@ && p.default == Some(config.server),
{
    if config.server.as_str().is_empty() {
        ServerPrompt { prompt: "Server URL (z.B. http://192.168.1.36:8000)".to_owned(), default: None }
    } else {
        ServerPrompt { prompt: "Server URL".to_owned(), default: Some(config.server.clone()) }
    }
}

/// The lines shown while the server is asked.
pub open spec fn waiting_screen() -> Seq<LineView> {
    seq![LineView::Blank, LineView::Text("⏳ Authentifizierung läuft..."@)]
}

/// The lines shown while the server is asked.
pub fn waiting() -> (lines: Vec<Line>)
    ensures
        view_lines(lines@) == waiting_screen(),
{
    let mut lines: Vec<Line> = Vec::new();
    lines.push(Line::Blank);
    lines.push(text("⏳ Authentifizierung läuft..."));
    assert(view_lines(lines@) =~= waiting_screen());
    lines
}

/// The login address of a server: its address without trailing slashes, then `/api/login`.
pub fn login_url(server: &str) -> (url: String)
    ensures
        url@ == trim_end_slashes(server@) + "/api/login"@,
{
    concat(trim_end_slash(server).as_str(), "/api/login")
}

/// The fields of the login request.
pub open spec fn login_fields(username: Seq<char>, password: Seq<char>, code: Seq<char>) -> Seq<
    (Seq<char>, ValueView),
> {
    seq![
        ("username"@, ValueView::Str(username)),
        ("encrypted_password"@, ValueView::Str(password)),
        ("two_factor_code"@, ValueView::Str(code)),
    ]
}

/// The user name, the password and the second-factor code are each sent as text under their
/// own field.
pub proof fn law_login_fields_carry_arguments(username: Seq<char>, password: Seq<char>, code: Seq<char>)
    ensures
        sends(login_fields(username, password, code), "username"@, ValueView::Str(username)),
        sends(login_fields(username, password, code), "encrypted_password"@, ValueView::Str(password)),
        sends(login_fields(username, password, code), "two_factor_code"@, ValueView::Str(code)),
{
    let f = login_fields(username, password, code);
    reveal_strlit("username");
    reveal_strlit("encrypted_password");
    reveal_strlit("two_factor_code");
    assert("username"@.len() == 8);
    assert("encrypted_password"@.len() == 18);
    assert("two_factor_code"@.len() == 15);
    assert(f[0].0 == "username"@);
    assert(f[1].0 == "encrypted_password"@);
    assert(f[2].0 == "two_factor_code"@);
}

/// The body of the login request.
pub fn login_body(username: &str, password: &str, code: &str) -> (b: Body)
    ensures
        b@ == BodyView::Object(login_fields(username@, password@, code@)),
{
    let mut fields: Vec<(String, Value)> = Vec::new();
    fields.push(str_field("username", username));
    fields.push(str_field("encrypted_password", password));
    fields.push(str_field("two_factor_code", code));
    assert(fields_view(fields@) =~= login_fields(username@, password@, code@));
    Body::Object(fields)
}

/// The settings with a session on `server` holding `token`; the rest unchanged.
pub open spec fn with_session(c: Config, server: String, token: String) -> Config {
    Config { server, token: Some(token), compose_dir: c.compose_dir, ghcr_org: c.ghcr_org }
}

/// A login saves the server it used and the token it received, and keeps the compose
/// directory and the image organisation as they were.
pub proof fn law_login_saves_session(c: Config, server: String, token: String)
    ensures
        with_session(c, server, token).server == server,
        with_session(c, server, token).token == Some(token),
        with_session(c, server, token).compose_dir == c.compose_dir,
        with_session(c, server, token).ghcr_org == c.ghcr_org,
{
}

/// The settings after a successful login: the server used and the token received; the rest unchanged.
pub fn logged_in(config: Config, server: String, token: String) -> (c: Config)
    ensures
        c == with_session(config, server, token),
{
    Config { server, token: Some(token), compose_dir: config.compose_dir, ghcr_org: config.ghcr_org }
}

/// The lines shown after a successful login.
pub open spec fn success_screen() -> Seq<LineView> {
    seq![LineView::Text("✅ Login erfolgreich!"@), LineView::Text("Token wurde gespeichert."@)]
}

/// The lines shown after a successful login.
pub fn succeeded() -> (lines: Vec<Line>)
    ensures
        view_lines(lines@) == success_screen(),
{
    let mut lines: Vec<Line> = Vec::new();
    lines.push(text("✅ Login erfolgreich!"));
    lines.push(text("Token wurde gespeichert."));
    assert(view_lines(lines@) =~= success_screen());
    lines
}

/// The line shown on the error stream when the server refuses the login.
pub fn failed(status: &str, body: &str) -> (lines: Vec<Line>)
    ensures
        view_lines(lines@) == seq![LineView::Stderr("❌ Login fehlgeschlagen: "@ + status@ + " - "@ + body@)],
{
    let mut message = concat("❌ Login fehlgeschlagen: ", status);
    message.append(" - ");
    message.append(body);
    let mut lines: Vec<Line> = Vec::new();
    lines.push(Line::Stderr(message));
    assert(view_lines(lines@) =~= seq![
        LineView::Stderr("❌ Login fehlgeschlagen: "@ + status@ + " - "@ + body@),
    ]);
    lines
}

} // verus!
