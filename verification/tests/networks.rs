use csf::display::{Color, Coloring, Line, Table};
use csf::request::{ApiRequest, Body, Method, Value};
use csf::networks::{create, delete, get, list, members, policies};

fn s(x: &str) -> String {
    x.to_string()
}

fn req(method: Method, path: &str, body: Body, spinner: &str) -> ApiRequest {
    ApiRequest { method, path: s(path), body, spinner: Some(s(spinner)) }
}

#[test]
fn network_requests() {
    assert_eq!(list::request(), req(Method::Get, "/networks", Body::Empty, "fetching networks..."));
    assert_eq!(get::request("n1"), req(Method::Get, "/networks/n1", Body::Empty, "fetching network..."));
    assert_eq!(delete::request("n1"), req(Method::Delete, "/networks/n1", Body::Empty, "deleting network..."));
    assert_eq!(
        create::request("net", "10.0.0.0/24", "wireguard"),
        req(
            Method::Post,
            "/networks",
            Body::Object(vec![
                (s("name"), Value::Str(s("net"))),
                (s("cidr"), Value::Str(s("10.0.0.0/24"))),
                (s("overlay_type"), Value::Str(s("wireguard"))),
            ]),
            "creating network..."
        )
    );
    assert_eq!(
        members::list_request("n1"),
        req(Method::Get, "/networks/n1/members", Body::Empty, "fetching members...")
    );
    assert_eq!(
        members::add_request("n1", "w1"),
        req(
            Method::Post,
            "/networks/n1/members",
            Body::Object(vec![(s("workload_id"), Value::Str(s("w1")))]),
            "adding member..."
        )
    );
    assert_eq!(
        members::remove_request("n1", "w1"),
        req(Method::Delete, "/networks/n1/members/w1", Body::Empty, "removing member...")
    );
    assert_eq!(
        policies::list_request("n1"),
        req(Method::Get, "/networks/n1/policies", Body::Empty, "fetching policies...")
    );
    assert_eq!(
        policies::create_request("n1", "ingress", "allow", 100, &Some(s("10.0.0.0/8")), &None, Some(443), &None),
        req(
            Method::Post,
            "/networks/n1/policies",
            Body::Object(vec![
                (s("direction"), Value::Str(s("ingress"))),
                (s("action"), Value::Str(s("allow"))),
                (s("priority"), Value::Int(100)),
                (s("source_cidr"), Value::Str(s("10.0.0.0/8"))),
                (s("destination_cidr"), Value::Null),
                (s("port"), Value::Int(443)),
                (s("protocol"), Value::Null),
            ]),
            "creating policy..."
        )
    );
}

#[test]
fn network_detail_and_create_lines() {
    let n = get::Network {
        id: s("n1"),
        name: s("net"),
        cidr: s("10.0.0.0/24"),
        overlay_type: s("wireguard"),
        status: s("active"),
        created_at: s("2024"),
        updated_at: Some(s("2025")),
    };
    assert_eq!(
        get::render(&n),
        vec![
            Line::Section(s("Networks  /  Details")),
            Line::Kv(s("ID"), s("n1")),
            Line::Kv(s("Name"), s("net")),
            Line::Kv(s("CIDR"), s("10.0.0.0/24")),
            Line::Kv(s("Overlay"), s("wireguard")),
            Line::KvStyled(s("Status"), s("active"), Some(Color::Green)),
            Line::Kv(s("Created"), s("2024")),
            Line::Kv(s("Updated"), s("2025")),
            Line::Blank,
        ]
    );
    let c = create::Network {
        id: s("n1"),
        name: s("net"),
        cidr: s("c"),
        overlay_type: s("o"),
        status: s("creating"),
    };
    assert_eq!(
        create::render(&c),
        vec![
            Line::Section(s("Networks  /  Create")),
            Line::Kv(s("ID"), s("n1")),
            Line::Kv(s("Name"), s("net")),
            Line::Kv(s("CIDR"), s("c")),
            Line::Kv(s("Overlay"), s("o")),
            Line::KvStyled(s("Status"), s("creating"), Some(Color::Yellow)),
            Line::Blank,
            Line::Success(s("network created")),
        ]
    );
    assert_eq!(
        delete::render("n1"),
        vec![Line::Section(s("Networks  /  Delete")), Line::Success(s("network n1 deleted"))]
    );
}

#[test]
fn network_list_lines() {
    let ns = vec![list::Network {
        id: s("abcdefgh-1234"),
        name: s("net"),
        cidr: s("10.0.0.0/24"),
        overlay_type: s("wireguard"),
        status: s("active"),
        created_at: s("2024-05-06T07:08:09.123Z"),
    }];
    let mut t = Table::new(vec!["ID", "NAME", "CIDR", "OVERLAY", "STATUS", "CREATED"])
        .with_color(Coloring::StatusColumn(4));
    t.add_row(vec![s("abcdefgh"), s("net"), s("10.0.0.0/24"), s("wireguard"), s("active"), s("2024-05-06T07:08")]);
    assert_eq!(
        list::render(&ns),
        vec![Line::Section(s("Networks")), Line::Table(t), Line::Blank, Line::Info(s("1 network(s)"))]
    );
    assert_eq!(list::render(&vec![]), vec![Line::Section(s("Networks")), Line::Info(s("no networks"))]);
}

#[test]
fn member_lines() {
    let m = members::Member {
        id: s("11111111xx"),
        workload_id: s("22222222yy"),
        allocated_ip: s("10.0.0.5"),
        created_at: s("2024-05-06"),
    };
    let mut t = Table::new(vec!["ID", "WORKLOAD", "IP", "JOINED"]).with_color(Coloring::AllWhite);
    t.add_row(vec![s("11111111"), s("22222222"), s("10.0.0.5"), s("2024-05-06")]);
    assert_eq!(
        members::render_list(&vec![m]),
        vec![Line::Section(s("Networks  /  Members")), Line::Table(t), Line::Blank, Line::Info(s("1 member(s)"))]
    );
    assert_eq!(
        members::render_list(&vec![]),
        vec![Line::Section(s("Networks  /  Members")), Line::Info(s("no members"))]
    );
    let m = members::Member { id: s("1"), workload_id: s("2"), allocated_ip: s("10.0.0.9"), created_at: s("t") };
    assert_eq!(
        members::render_added(&m),
        vec![
            Line::Section(s("Networks  /  Member Add")),
            Line::Success(s("workload joined network, allocated ip=10.0.0.9")),
        ]
    );
    assert_eq!(
        members::render_removed(),
        vec![Line::Section(s("Networks  /  Member Remove")), Line::Success(s("workload removed from network"))]
    );
}

#[test]
fn policy_lines() {
    let ps = vec![
        policies::Policy {
            id: s("pppppppp-1"),
            direction: s("ingress"),
            action: s("allow"),
            source_cidr: None,
            destination_cidr: Some(s("10.0.0.0/8")),
            port: Some(-5),
            protocol: None,
            priority: 100,
        },
        policies::Policy {
            id: s("qqqqqqqq"),
            direction: s("egress"),
            action: s("deny"),
            source_cidr: Some(s("0.0.0.0/0")),
            destination_cidr: None,
            port: None,
            protocol: Some(s("tcp")),
            priority: -1,
        },
    ];
    let mut t = Table::new(vec!["ID", "DIR", "ACTION", "SRC", "DST", "PORT", "PROTO", "PRIO"])
        .with_color(Coloring::ActionColumn(2));
    t.add_row(vec![s("pppppppp"), s("ingress"), s("allow"), s("*"), s("10.0.0.0/8"), s("-5"), s("*"), s("100")]);
    t.add_row(vec![s("qqqqqqqq"), s("egress"), s("deny"), s("0.0.0.0/0"), s("*"), s("*"), s("tcp"), s("-1")]);
    assert_eq!(
        policies::render_list(&ps),
        vec![Line::Section(s("Networks  /  Policies")), Line::Table(t), Line::Blank, Line::Info(s("2 policy(s)"))]
    );
    assert_eq!(
        policies::render_list(&vec![]),
        vec![Line::Section(s("Networks  /  Policies")), Line::Info(s("no policies"))]
    );
    assert_eq!(
        policies::render_created(),
        vec![Line::Section(s("Networks  /  Policy Create")), Line::Success(s("policy created"))]
    );
}
