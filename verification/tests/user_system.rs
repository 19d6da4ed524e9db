use csf::config::Config;
use csf::display::{Color, Line};
use csf::request::{ApiRequest, Body, Method, Value};
use csf::system::{ghcr_token, update};
use csf::user::{login, logout, status};

fn s(x: &str) -> String {
    x.to_string()
}

fn config(server: &str, token: Option<&str>) -> Config {
    Config { server: s(server), token: token.map(s), compose_dir: Some(s("/srv/csf/")), ghcr_org: Some(s("acme")) }
}

#[test]
fn login_flow_pieces() {
    assert_eq!(login::intro(), vec![Line::Text(s("🔐 CSF Login")), Line::Blank]);
    assert_eq!(login::waiting(), vec![Line::Blank, Line::Text(s("⏳ Authentifizierung läuft..."))]);
    let fresh = login::starting_config(None);
    assert_eq!(fresh, Config { server: String::new(), token: None, compose_dir: None, ghcr_org: None });
    let p = login::server_prompt(&fresh);
    assert_eq!(p.prompt, "Server URL (z.B. http://192.168.1.36:8000)");
    assert_eq!(p.default, None);
    let saved = config("http://10.0.0.1:8000", None);
    assert_eq!(login::starting_config(Some(saved.clone())), saved);
    let p = login::server_prompt(&saved);
    assert_eq!(p.prompt, "Server URL");
    assert_eq!(p.default, Some(s("http://10.0.0.1:8000")));
    assert_eq!(login::login_url("http://h:8000/"), "http://h:8000/api/login");
    assert_eq!(login::login_url("http://h:8000"), "http://h:8000/api/login");
    assert_eq!(
        login::login_body("u", "p", ""),
        Body::Object(vec![
            (s("username"), Value::Str(s("u"))),
            (s("encrypted_password"), Value::Str(s("p"))),
            (s("two_factor_code"), Value::Str(s(""))),
        ])
    );
    let after = login::logged_in(saved.clone(), s("http://new"), s("tok"));
    assert_eq!(after, Config { server: s("http://new"), token: Some(s("tok")), ..saved });
    assert_eq!(
        login::succeeded(),
        vec![Line::Text(s("✅ Login erfolgreich!")), Line::Text(s("Token wurde gespeichert."))]
    );
    assert_eq!(
        login::failed("401 Unauthorized", "bad credentials"),
        vec![Line::Stderr(s("❌ Login fehlgeschlagen: 401 Unauthorized - bad credentials"))]
    );
}

#[test]
fn logout_forgets_the_token() {
    let out = logout::logout(Some(config("http://h", Some("tok"))));
    assert_eq!(out.save, Some(config("http://h", None)));
    assert_eq!(out.lines, vec![Line::Success(s("logged out")), Line::Kv(s("Server"), s("http://h"))]);
    let out = logout::logout(None);
    assert_eq!(out.save, None);
    assert_eq!(out.lines, vec![Line::Warn(s("not logged in"))]);
}

#[test]
fn logout_twice_and_after_login() {
    let once = logout::logout(Some(config("http://h", Some("tok")))).save.unwrap();
    let twice = logout::logout(Some(once.clone())).save.unwrap();
    assert_eq!(once, twice);
    let start = config("http://old", None);
    let logged = login::logged_in(start.clone(), s("http://old"), s("t"));
    assert_eq!(logout::logout(Some(logged)).save.unwrap(), start);
}

#[test]
fn status_plans() {
    assert_eq!(status::intro(), vec![Line::Text(s("📊 CSF Status")), Line::Blank]);
    let p = status::plan(&None);
    assert!(p.query.is_none());
    assert_eq!(
        p.lines,
        vec![
            Line::Text(s("Status: ❌ Keine Konfiguration gefunden")),
            Line::Blank,
            Line::Text(s("💡 Melde dich an mit: csf login")),
        ]
    );
    let p = status::plan(&Some(config("http://h", None)));
    assert!(p.query.is_none());
    assert_eq!(
        p.lines,
        vec![
            Line::Text(s("Server: http://h")),
            Line::Text(s("Status: ❌ Nicht angemeldet")),
            Line::Blank,
            Line::Text(s("💡 Melde dich an mit: csf login")),
        ]
    );
    let p = status::plan(&Some(config("http://h//", Some("tok"))));
    assert_eq!(p.query, Some(status::UserQuery { url: s("http://h/api/user/me"), token: s("tok") }));
    assert_eq!(
        p.lines,
        vec![
            Line::Text(s("Server: http://h//")),
            Line::Text(s("Status: ✅ Angemeldet")),
            Line::Blank,
            Line::Text(s("⏳ Hole Benutzerinformationen...")),
        ]
    );
}

#[test]
fn status_user_and_rejection_lines() {
    let u = status::UserInfo { user_id: s("1"), username: s("ada"), email: Some(s("a@x")), two_factor_enabled: true };
    assert_eq!(
        status::user_lines(&u),
        vec![
            Line::Blank,
            Line::Text(s("Benutzerinformationen:")),
            Line::Text(s("   User ID: 1")),
            Line::Text(s("   Benutzername: ada")),
            Line::Text(s("   E-Mail: a@x")),
            Line::Text(s("   2FA: ✅ Aktiviert")),
        ]
    );
    let u = status::UserInfo { email: None, two_factor_enabled: false, ..u };
    assert_eq!(status::user_lines(&u)[4], Line::Text(s("   2FA: ❌ Nicht aktiviert")));
    assert_eq!(status::user_lines(&u).len(), 5);
    assert_eq!(
        status::rejected_lines("401 Unauthorized"),
        vec![
            Line::Blank,
            Line::Text(s("⚠️  Token ist möglicherweise abgelaufen (Status: 401 Unauthorized)")),
            Line::Text(s("   Bitte melde dich erneut an mit: csf login")),
        ]
    );
}

#[test]
fn ghcr_token_requests() {
    assert_eq!(ghcr_token::request("me", ""), Err(s("token must not be empty")));
    assert_eq!(
        ghcr_token::request("me", "secret"),
        Ok(ApiRequest {
            method: Method::Post,
            path: s("/system/ghcr-token"),
            body: Body::Object(vec![(s("username"), Value::Str(s("me"))), (s("token"), Value::Str(s("secret")))]),
            spinner: None,
        })
    );
    assert_eq!(ghcr_token::failed("403 Forbidden", "no"), vec![Line::Error(s("request failed: 403 Forbidden no"))]);
    assert_eq!(ghcr_token::stored(), vec![Line::Success(s("ghcr token stored"))]);
}

#[test]
fn update_plan_errors() {
    assert_eq!(update::plan(&None, "1.0").err(), Some(s("not configured, run: csfx login")));
    let mut c = config("http://h", None);
    c.compose_dir = None;
    assert_eq!(update::plan(&Some(c.clone()), "1.0").err(), Some(s("compose_dir not set in ~/.csf/config.json")));
    c.compose_dir = Some(s("/srv"));
    c.ghcr_org = None;
    assert_eq!(update::plan(&Some(c), "1.0").err(), Some(s("ghcr_org not set in ~/.csf/config.json")));
}

#[test]
fn update_plan_pulls_unless_local() {
    let p = update::plan(&Some(config("http://h", None)), "1.2.3").unwrap();
    assert_eq!(p.compose_file, "/srv/csf/docker-compose.prod.yml");
    assert_eq!(p.ghcr_org, "acme");
    assert_eq!(p.version, "1.2.3");
    assert_eq!(
        p.steps,
        vec![
            update::Step::Say(Line::Info(s("pulling images for version 1.2.3"))),
            update::Step::Compose(vec![s("pull")]),
            update::Step::Say(Line::Info(s("restarting services"))),
            update::Step::Compose(vec![s("up"), s("-d")]),
            update::Step::Say(Line::Success(s("updated to 1.2.3"))),
        ]
    );
    let mut c = config("http://h", None);
    c.ghcr_org = Some(s("local"));
    c.compose_dir = Some(s("/srv"));
    let p = update::plan(&Some(c), "2").unwrap();
    assert_eq!(p.compose_file, "/srv/docker-compose.prod.yml");
    assert_eq!(
        p.steps,
        vec![
            update::Step::Say(Line::Info(s("local org detected, skipping pull"))),
            update::Step::Say(Line::Info(s("restarting services"))),
            update::Step::Compose(vec![s("up"), s("-d")]),
            update::Step::Say(Line::Success(s("updated to 2"))),
        ]
    );
}

#[test]
fn compose_arguments_and_failures() {
    assert_eq!(
        update::compose_args("/f.yml", &vec![s("up"), s("-d")]),
        vec![s("compose"), s("-f"), s("/f.yml"), s("up"), s("-d")]
    );
    assert_eq!(
        update::compose_failure(&vec![s("up"), s("-d")], "exit status: 1"),
        "docker compose up -d failed: exit exit status: 1"
    );
    assert_eq!(update::compose_failure(&vec![], "x"), "docker compose  failed: exit x");
}

#[test]
fn update_status_lines() {
    assert_eq!(
        update::status_request(),
        ApiRequest { method: Method::Get, path: s("/system/update/status"), body: Body::Empty, spinner: None }
    );
    assert_eq!(
        update::status_lines(&Some(s("1.0")), &None, &Some(s("in_progress"))),
        vec![
            Line::Section(s("Control Plane Update Status")),
            Line::Kv(s("current"), s("1.0")),
            Line::Kv(s("desired"), s("-")),
            Line::KvStyled(s("last result"), s("in_progress"), Some(Color::Yellow)),
        ]
    );
    assert_eq!(update::result_color("success"), Color::Green);
    assert_eq!(update::result_color("failed"), Color::Red);
    assert_eq!(update::result_color("-"), Color::White);
    assert_eq!(update::result_color("Success"), Color::White);
}
