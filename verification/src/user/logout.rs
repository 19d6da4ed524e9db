//! `logout`: forget the session token.
use vstd::prelude::*;
use crate::config::Config;
use crate::user::login::with_session;
use crate::display::{kv, success, view_lines, warn, Line, LineView};

verus! {

/// The outcome of logging out: the settings to save, if any, and the lines to show.
#[derive(Debug, PartialEq, Eq)]
pub struct Logout {
    pub save: Option<Config>,
    pub lines: Vec<Line>,
}

/// The settings once logged out: the same, without a token.
pub open spec fn without_token(c: Config) -> Config {
    Config { server: c.server, token: None, compose_dir: c.compose_dir, ghcr_org: c.ghcr_org }
}

/// Logging out forgets the token and nothing else, and logging out again changes nothing more.
pub proof fn law_logout_forgets_only_the_token(c: Config)
    ensures
        without_token(c).token is None,
        without_token(c).server == c.server,
        without_token(c).compose_dir == c.compose_dir,
        without_token(c).ghcr_org == c.ghcr_org,
        without_token(without_token(c)) == without_token(c),
{
}

/// Logging out after a login keeps the server the login used and the settings it left alone;
/// only the session is gone.
pub proof fn law_logout_undoes_login(c: Config, server: String, token: String)
    ensures
        without_token(with_session(c, server, token)) == (Config {
            server,
            token: None,
            compose_dir: c.compose_dir,
            ghcr_org: c.ghcr_org,
        }),
        c.token is None && c.server == server ==> without_token(with_session(c, server, token)) == c,
{
}

/// Logs out: with saved settings, saves them without the token and reports the server;
/// without, warns that nobody is logged in and saves nothing.
pub fn logout(config: Option<Config>) -> (out: Logout)
    ensures
        match config {
            Some(c) => {
                &&& out.save == Some(without_token(c))
                &&& view_lines(out.lines@) == seq![
                    LineView::Success("logged out"@),
                    LineView::Kv("Server"@, c.server@),
                ]
            },
            None => {
                &&& out.save is None
                &&& view_lines(out.lines@) == seq![LineView::Warn("not logged in"@)]
            },
        },
{
    let mut lines: Vec<Line> = Vec::new();
    match config {
        Some(c) => {
            let cfg = Config { server: c.server, token: None, compose_dir: c.compose_dir, ghcr_org: c.ghcr_org };
            lines.push(success("logged out"));
            lines.push(kv("Server", cfg.server.as_str()));
            assert(view_lines(lines@) =~= seq![LineView::Success("logged out"@), LineView::Kv("Server"@, cfg.server@)]);
            Logout { save: Some(cfg), lines }
        },
        None => {
            lines.push(warn("not logged in"));
            assert(view_lines(lines@) =~= seq![LineView::Warn("not logged in"@)]);
            Logout { save: None, lines }
        },
    }
}

} // verus!
