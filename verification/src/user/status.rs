//! `status`: whether a session exists, and who it belongs to.
use vstd::prelude::*;
use crate::config::Config;
use crate::display::{text, view_lines, Line, LineView};
use crate::text::{concat, trim_end_slash, trim_end_slashes};

verus! {

/// The lines shown first.
pub open spec fn intro_screen() -> Seq<LineView> {
    seq![LineView::Text("📊 CSF Status"@), LineView::Blank]
}

/// The lines shown first.
pub fn intro() -> (lines: Vec<Line>)
    ensures
        view_lines(lines@) == intro_screen(),
{
    let mut lines: Vec<Line> = Vec::new();
    lines.push(text("📊 CSF Status"));
    lines.push(Line::Blank);
    assert(view_lines(lines@) =~= intro_screen());
    lines
}

/// The question to put to the server about the logged-in user: the address and the token.
#[derive(Debug, PartialEq, Eq)]
pub struct UserQuery {
    pub url: String,
    pub token: String,
}

/// What the status command shows from the saved settings, and whether it then asks the server.
#[derive(Debug, PartialEq, Eq)]
pub struct StatusPlan {
    pub lines: Vec<Line>,
    pub query: Option<UserQuery>,
}

/// The hint to log in.
pub open spec fn login_hint() -> Seq<LineView> {
    seq![LineView::Blank, LineView::Text("💡 Melde dich an mit: csf login"@)]
}

/// What is shown from the saved settings.
pub open spec fn plan_screen(config: Option<Config>) -> Seq<LineView> {
    match config {
        None => seq![LineView::Text("Status: ❌ Keine Konfiguration gefunden"@)] + login_hint(),
        Some(c) => seq![LineView::Text("Server: "@ + c.server@)] + match c.token {
            None => seq![LineView::Text("Status: ❌ Nicht angemeldet"@)] + login_hint(),
            Some(_) => seq![
                LineView::Text("Status: ✅ Angemeldet"@),
                LineView::Blank,
                LineView::Text("⏳ Hole Benutzerinformationen..."@),
            ],
        },
    }
}

/// The saved server is shown whenever there are settings; the screen says that the user is
/// logged in exactly when a token is saved, and ends with the hint to log in exactly when not.
pub proof fn law_plan_reports_login(config: Option<Config>)
    ensures
        config matches Some(c) ==> plan_screen(config)[0] == LineView::Text("Server: "@ + c.server@),
        plan_screen(config).contains(LineView::Text("Status: ✅ Angemeldet"@)) <==> (config matches Some(c) && c.token is Some),
        (plan_screen(config).last() == LineView::Text("💡 Melde dich an mit: csf login"@)) <==> !(config matches Some(c) && c.token is Some),
{
    reveal_strlit("Status: ✅ Angemeldet");
    reveal_strlit("Status: ❌ Nicht angemeldet");
    reveal_strlit("Status: ❌ Keine Konfiguration gefunden");
    reveal_strlit("💡 Melde dich an mit: csf login");
    reveal_strlit("⏳ Hole Benutzerinformationen...");
    reveal_strlit("Server: ");
    let l = plan_screen(config);
    assert("Status: ✅ Angemeldet"@[8] != "Status: ❌ Nicht angemeldet"@[8]);
    assert("Status: ✅ Angemeldet"@.len() != "Status: ❌ Keine Konfiguration gefunden"@.len());
    assert("Status: ✅ Angemeldet"@.len() != "💡 Melde dich an mit: csf login"@.len());
    assert("💡 Melde dich an mit: csf login"@.len() != "⏳ Hole Benutzerinformationen..."@.len());
    match config {
        Some(c) => {
            assert("Server: "@ + c.server@ != "Status: ✅ Angemeldet"@) by {
                assert(("Server: "@ + c.server@)[1] == 'e');
                assert("Status: ✅ Angemeldet"@[1] == 't');
            }
            if c.token is Some {
                assert(l[1] == LineView::Text("Status: ✅ Angemeldet"@));
            }
        },
        None => {},
    }
}

/// Reads the saved settings: without settings or without a token, shows how to log in;
/// with a token, announces the question to the server about the user.
pub fn plan(config: &Option<Config>) -> (p: StatusPlan)
    ensures
        view_lines(p.lines@) == plan_screen(*config),
        match config {
            Some(c) => match c.token {
                Some(t) => (p.query matches Some(q) && q.url@ == trim_end_slashes(c.server@) + "/api/user/me"@
                    && q.token == t),
                None => p.query is None,
            },
            None => p.query is None,
        },
{
    let mut lines: Vec<Line> = Vec::new();
    match config {
        None => {
            lines.push(text("Status: ❌ Keine Konfiguration gefunden"));
            lines.push(Line::Blank);
            lines.push(text("💡 Melde dich an mit: csf login"));
            assert(view_lines(lines@) =~= plan_screen(*config));
            StatusPlan { lines, query: None }
        },
        Some(c) => {
            lines.push(text(concat("Server: ", c.server.as_str()).as_str()));
            match &c.token {
                None => {
                    lines.push(text("Status: ❌ Nicht angemeldet"));
                    lines.push(Line::Blank);
                    lines.push(text("💡 Melde dich an mit: csf login"));
                    assert(view_lines(lines@) =~= plan_screen(*config));
                    StatusPlan { lines, query: None }
                },
                Some(t) => {
                    lines.push(text("Status: ✅ Angemeldet"));
                    lines.push(Line::Blank);
                    lines.push(text("⏳ Hole Benutzerinformationen..."));
                    assert(view_lines(lines@) =~= plan_screen(*config));
                    let url = concat(trim_end_slash(c.server.as_str()).as_str(), "/api/user/me");
                    StatusPlan { lines, query: Some(UserQuery { url, token: t.clone() }) }
                },
            }
        },
    }
}

/// The logged-in user as the server describes them.
#[derive(Debug, PartialEq, Eq)]
pub struct UserInfo {
    pub user_id: String,
    pub username: String,
    pub email: Option<String>,
    pub two_factor_enabled: bool,
}

/// What is shown of the user: id, name, e-mail when known, and whether two-factor login is on.
pub open spec fn user_screen(u: UserInfo) -> Seq<LineView> {
    seq![
        LineView::Blank,
        LineView::Text("Benutzerinformationen:"@),
        LineView::Text("   User ID: "@ + u.user_id@),
        LineView::Text("   Benutzername: "@ + u.username@),
    ] + match u.email {
        Some(e) => seq![LineView::Text("   E-Mail: "@ + e@)],
        None => seq![],
    } + seq![
        LineView::Text(
            "   2FA: "@ + if u.two_factor_enabled {
                "✅ Aktiviert"@
            } else {
                "❌ Nicht aktiviert"@
            },
        ),
    ]
}

/// The user's id and name are each shown on their own labelled line, an e-mail line appears
/// exactly when the e-mail is known, and the last line tells whether two-factor login is on.
pub proof fn law_user_fields_shown(u: UserInfo)
    ensures
        user_screen(u).contains(LineView::Text("   User ID: "@ + u.user_id@)),
        user_screen(u).contains(LineView::Text("   Benutzername: "@ + u.username@)),
        match u.email {
            Some(e) => user_screen(u).contains(LineView::Text("   E-Mail: "@ + e@)) && user_screen(u).len() == 6,
            None => user_screen(u).len() == 5,
        },
        user_screen(u).last() == LineView::Text(
            "   2FA: "@ + if u.two_factor_enabled {
                "✅ Aktiviert"@
            } else {
                "❌ Nicht aktiviert"@
            },
        ),
{
    let l = user_screen(u);
    assert(l[2] == LineView::Text("   User ID: "@ + u.user_id@));
    assert(l[3] == LineView::Text("   Benutzername: "@ + u.username@));
    if let Some(e) = u.email {
        assert(l[4] == LineView::Text("   E-Mail: "@ + e@));
    }
}

/// The lines that show the user.
pub fn user_lines(u: &UserInfo) -> (lines: Vec<Line>)
    ensures
        view_lines(lines@) == user_screen(*u),
{
    let mut lines: Vec<Line> = Vec::new();
    lines.push(Line::Blank);
    lines.push(text("Benutzerinformationen:"));
    lines.push(text(concat("   User ID: ", u.user_id.as_str()).as_str()));
    lines.push(text(concat("   Benutzername: ", u.username.as_str()).as_str()));
    if let Some(e) = &u.email {
        lines.push(text(concat("   E-Mail: ", e.as_str()).as_str()));
    }
    let flag = if u.two_factor_enabled { "✅ Aktiviert" } else { "❌ Nicht aktiviert" };
    lines.push(text(concat("   2FA: ", flag).as_str()));
    assert(view_lines(lines@) =~= user_screen(*u));
    lines
}

/// The lines shown when the server refuses the token, with the status it answered.
pub open spec fn rejected_screen(status: Seq<char>) -> Seq<LineView> {
    seq![
        LineView::Blank,
        LineView::Text("⚠️  Token ist möglicherweise abgelaufen (Status: "@ + status + ")"@),
        LineView::Text("   Bitte melde dich erneut an mit: csf login"@),
    ]
}

/// The lines shown when the server refuses the token.
pub fn rejected_lines(status: &str) -> (lines: Vec<Line>)
    ensures
        view_lines(lines@) == rejected_screen(status@),
{
    let mut lines: Vec<Line> = Vec::new();
    lines.push(Line::Blank);
    let message = concat(concat("⚠️  Token ist möglicherweise abgelaufen (Status: ", status).as_str(), ")");
    lines.push(text(message.as_str()));
    lines.push(text("   Bitte melde dich erneut an mit: csf login"));
    assert(view_lines(lines@) =~= rejected_screen(status@));
    lines
}

} // verus!
