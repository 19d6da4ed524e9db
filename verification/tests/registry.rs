use csf::display::{Color, Coloring, Line, Table};
use csf::registry::{pending, pre_register, stats, tokens};
use csf::request::{ApiRequest, Body, Method, Value};

fn s(x: &str) -> String {
    x.to_string()
}

fn get(path: &str, spinner: &str) -> ApiRequest {
    ApiRequest { method: Method::Get, path: s(path), body: Body::Empty, spinner: Some(s(spinner)) }
}

#[test]
fn registry_requests() {
    assert_eq!(pending::request(), get("/registry/admin/agents/pending", "fetching pending agents..."));
    assert_eq!(stats::request(), get("/registry/admin/statistics", "fetching registry statistics..."));
    assert_eq!(tokens::request(), get("/registry/admin/tokens", "fetching registration tokens..."));
    assert_eq!(
        pre_register::request("n", "h", &Some(s("linux")), &None, None),
        ApiRequest {
            method: Method::Post,
            path: s("/registry/admin/agents/pre-register"),
            body: Body::Object(vec![
                (s("name"), Value::Str(s("n"))),
                (s("hostname"), Value::Str(s("h"))),
                (s("expected_os_type"), Value::Str(s("linux"))),
                (s("expected_architecture"), Value::Null),
                (s("ttl_hours"), Value::Int(24)),
            ]),
            spinner: Some(s("pre-registering agent...")),
        }
    );
    let with_ttl = pre_register::request("n", "h", &None, &Some(s("arm64")), Some(2));
    match with_ttl.body {
        Body::Object(fields) => {
            assert_eq!(fields[3], (s("expected_architecture"), Value::Str(s("arm64"))));
            assert_eq!(fields[4], (s("ttl_hours"), Value::Int(2)));
        }
        other => panic!("unexpected body {:?}", other),
    }
}

#[test]
fn pending_lines() {
    let a = pending::PendingAgent {
        id: s("abcdefgh-zz"),
        name: s("n"),
        hostname: s("h"),
        expected_os_type: None,
        expected_architecture: Some(s("x86_64")),
        created_by: s("admin"),
        token_expires_at: s("tomorrow"),
    };
    let mut t = Table::new(vec!["ID", "NAME", "HOSTNAME", "EXPECTED OS", "ARCH", "CREATED BY", "TOKEN EXPIRES"]);
    t.add_row(vec![s("abcdefgh"), s("n"), s("h"), s("-"), s("x86_64"), s("admin"), s("tomorrow")]);
    assert_eq!(
        pending::render(&vec![a]),
        vec![
            Line::Section(s("Registry  /  Pending Agents")),
            Line::Table(t),
            Line::Blank,
            Line::Info(s("1 pending agent(s)")),
        ]
    );
    assert_eq!(
        pending::render(&vec![]),
        vec![Line::Section(s("Registry  /  Pending Agents")), Line::Info(s("no pending agents"))]
    );
}

#[test]
fn pre_register_lines() {
    let r = pre_register::PreRegisterResponse {
        agent_id: s("a1"),
        registration_token: s("tok"),
        token_expires_at: s("later"),
    };
    assert_eq!(
        pre_register::render(&r),
        vec![
            Line::Section(s("Registry  /  Agent Pre-Registered")),
            Line::Kv(s("Agent ID"), s("a1")),
            Line::Kv(s("Token Expires"), s("later")),
            Line::Blank,
            Line::Emphasis(s("Registration Token"), None),
            Line::Emphasis(s("tok"), Some(Color::Cyan)),
            Line::Blank,
            Line::Info(s("embed this token in the NixOS configuration for this node")),
            Line::Info(s("the token is single-use and expires after the configured TTL")),
        ]
    );
}

#[test]
fn stats_lines() {
    let st = stats::Statistics { total: 10, online: 7, offline: 2, degraded: 1 };
    assert_eq!(
        stats::render(&st),
        vec![
            Line::Section(s("Registry  /  Statistics")),
            Line::KvStyled(s("Total"), s("10"), None),
            Line::KvStyled(s("Online"), s("7"), Some(Color::Green)),
            Line::KvStyled(s("Offline"), s("2"), Some(Color::Red)),
            Line::KvStyled(s("Degraded"), s("1"), Some(Color::Yellow)),
            Line::Blank,
            Line::HealthBar(7, 10),
            Line::Blank,
        ]
    );
}

#[test]
fn token_lines() {
    let ts = vec![
        tokens::Token {
            id: s("tttttttt1"),
            description: None,
            created_at: s("c"),
            expires_at: s("e"),
            used: true,
        },
        tokens::Token {
            id: s("uuuuuuuu"),
            description: Some(s("for node 2")),
            created_at: s("c2"),
            expires_at: s("e2"),
            used: false,
        },
    ];
    let mut t = Table::new(vec!["ID", "DESCRIPTION", "CREATED", "EXPIRES", "USED"]).with_color(Coloring::UsedColumn(4));
    t.add_row(vec![s("tttttttt"), s("-"), s("c"), s("e"), s("yes")]);
    t.add_row(vec![s("uuuuuuuu"), s("for node 2"), s("c2"), s("e2"), s("no")]);
    assert_eq!(
        tokens::render(&ts),
        vec![
            Line::Section(s("Registry  /  Registration Tokens")),
            Line::Table(t),
            Line::Blank,
            Line::Info(s("2 token(s)")),
        ]
    );
    assert_eq!(
        tokens::render(&vec![]),
        vec![Line::Section(s("Registry  /  Registration Tokens")), Line::Info(s("no tokens found"))]
    );
}
