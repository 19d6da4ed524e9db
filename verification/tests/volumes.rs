use csf::display::{Color, Coloring, Line, Table};
use csf::request::{ApiRequest, Body, Method, Value};
use csf::volumes::{attach, create, detach, get, list, nodes, snapshots};

fn s(x: &str) -> String {
    x.to_string()
}

fn req(method: Method, path: &str, body: Body, spinner: &str) -> ApiRequest {
    ApiRequest { method, path: s(path), body, spinner: Some(s(spinner)) }
}

#[test]
fn volume_requests() {
    assert_eq!(list::request(), req(Method::Get, "/volumes", Body::Empty, "fetching volumes..."));
    assert_eq!(get::request("v1"), req(Method::Get, "/volumes/v1", Body::Empty, "fetching volume..."));
    assert_eq!(
        create::request("data", 20, &None),
        req(
            Method::Post,
            "/volumes",
            Body::Object(vec![(s("name"), Value::Str(s("data"))), (s("size_gb"), Value::Int(20))]),
            "creating volume..."
        )
    );
    assert_eq!(
        create::request("data", 20, &Some(s("ssd"))),
        req(
            Method::Post,
            "/volumes",
            Body::Object(vec![
                (s("name"), Value::Str(s("data"))),
                (s("size_gb"), Value::Int(20)),
                (s("pool"), Value::Str(s("ssd"))),
            ]),
            "creating volume..."
        )
    );
    assert_eq!(
        attach::request("v1", "a1", &Some(s("w1"))),
        req(
            Method::Post,
            "/volumes/v1/attach",
            Body::Object(vec![(s("agent_id"), Value::Str(s("a1"))), (s("workload_id"), Value::Str(s("w1")))]),
            "attaching volume..."
        )
    );
    assert_eq!(
        attach::request("v1", "a1", &None),
        req(
            Method::Post,
            "/volumes/v1/attach",
            Body::Object(vec![(s("agent_id"), Value::Str(s("a1")))]),
            "attaching volume..."
        )
    );
    assert_eq!(detach::request("v1"), req(Method::Post, "/volumes/v1/detach", Body::Null, "detaching volume..."));
    assert_eq!(nodes::request(), req(Method::Get, "/volumes/nodes", Body::Empty, "fetching cluster nodes..."));
    assert_eq!(
        snapshots::list_request("v1"),
        req(Method::Get, "/volumes/v1/snapshots", Body::Empty, "fetching snapshots...")
    );
    assert_eq!(
        snapshots::create_request("v1", "nightly"),
        req(
            Method::Post,
            "/volumes/v1/snapshots",
            Body::Object(vec![(s("name"), Value::Str(s("nightly")))]),
            "creating snapshot..."
        )
    );
}

#[test]
fn volume_detail_lines() {
    let v = get::Volume {
        id: s("0123456789"),
        name: s("data"),
        size_gb: 20,
        pool: s("ssd"),
        image_name: s("img"),
        status: s("InUse"),
        attached_to_agent: Some(s("agent-1")),
        attached_to_workload: None,
        mapped_device: Some(s("/dev/rbd0")),
        created_at: s("2024-01-01T00:00:00Z"),
        updated_at: None,
    };
    let lines = get::render(&v);
    assert_eq!(
        lines,
        vec![
            Line::Section(s("Volume")),
            Line::Kv(s("ID"), s("0123456789")),
            Line::Kv(s("Name"), s("data")),
            Line::Kv(s("Size"), s("20G")),
            Line::Kv(s("Pool"), s("ssd")),
            Line::Kv(s("Image"), s("img")),
            Line::KvStyled(s("Status"), s("InUse"), Some(Color::Cyan)),
            Line::Kv(s("Agent"), s("agent-1")),
            Line::Kv(s("Workload"), s("-")),
            Line::Kv(s("Device"), s("/dev/rbd0")),
            Line::Kv(s("Created"), s("2024-01-01T00:00:00Z")),
            Line::Kv(s("Updated"), s("-")),
            Line::Blank,
        ]
    );
}

#[test]
fn volume_list_lines() {
    assert_eq!(
        list::render(&vec![]),
        vec![Line::Section(s("Volumes")), Line::Info(s("no volumes found"))]
    );
    let vs = vec![
        list::Volume {
            id: s("aaaaaaaa-bbbb"),
            name: s("data"),
            size_gb: 10,
            pool: s("ssd"),
            status: s("available"),
            encrypted: true,
            node_id: None,
        },
        list::Volume {
            id: s("cccccccc"),
            name: s("logs"),
            size_gb: 0,
            pool: s("hdd"),
            status: s("error"),
            encrypted: false,
            node_id: Some(s("n1")),
        },
    ];
    let mut t = Table::new(vec!["ID", "NAME", "SIZE", "POOL", "STATUS", "ENCRYPTED", "NODE"])
        .with_color(Coloring::StatusColumn(4));
    t.add_row(vec![s("aaaaaaaa"), s("data"), s("10G"), s("ssd"), s("available"), s("yes"), s("-")]);
    t.add_row(vec![s("cccccccc"), s("logs"), s("0G"), s("hdd"), s("error"), s("no"), s("n1")]);
    assert_eq!(
        list::render(&vs),
        vec![Line::Section(s("Volumes")), Line::Table(t), Line::Blank, Line::Info(s("2 volume(s)"))]
    );
}

#[test]
fn volume_create_attach_detach_lines() {
    let c = create::Volume { id: s("v1"), name: s("data"), size_gb: -1, pool: s("ssd"), status: s("creating") };
    assert_eq!(
        create::render(&c),
        vec![
            Line::Section(s("Volume Created")),
            Line::Kv(s("ID"), s("v1")),
            Line::Kv(s("Name"), s("data")),
            Line::Kv(s("Size"), s("-1G")),
            Line::Kv(s("Pool"), s("ssd")),
            Line::KvStyled(s("Status"), s("creating"), Some(Color::Yellow)),
            Line::Blank,
            Line::Success(s("volume created")),
        ]
    );
    let a = attach::Volume {
        id: s("v1"),
        name: s("data"),
        status: s("in_use"),
        attached_to_agent: None,
        mapped_device: None,
    };
    assert_eq!(
        attach::render(&a),
        vec![
            Line::Section(s("Volume Attached")),
            Line::Kv(s("ID"), s("v1")),
            Line::Kv(s("Name"), s("data")),
            Line::KvStyled(s("Status"), s("in_use"), Some(Color::Cyan)),
            Line::Kv(s("Agent"), s("-")),
            Line::Kv(s("Device"), s("-")),
            Line::Blank,
            Line::Success(s("volume attached")),
        ]
    );
    let d = detach::Volume { id: s("v1"), name: s("data"), status: s("available") };
    assert_eq!(
        detach::render(&d),
        vec![
            Line::Section(s("Volume Detached")),
            Line::Kv(s("ID"), s("v1")),
            Line::Kv(s("Name"), s("data")),
            Line::KvStyled(s("Status"), s("available"), Some(Color::Green)),
            Line::Blank,
            Line::Success(s("volume detached")),
        ]
    );
}

#[test]
fn cluster_node_lines() {
    let ns = vec![nodes::Node {
        node_id: s("n1"),
        hostname: s("host"),
        ip_address: s("10.0.0.1"),
        status: s("online"),
        role: s("leader"),
        last_heartbeat: s("now"),
        volumes: vec![s("a"), s("b"), s("c")],
    }];
    let mut t = Table::new(vec!["NODE ID", "HOSTNAME", "IP", "ROLE", "STATUS", "VOLUMES", "HEARTBEAT"])
        .with_color(Coloring::RoleAndStatus { role: 3, status: 4 });
    t.add_row(vec![s("n1"), s("host"), s("10.0.0.1"), s("leader"), s("online"), s("3"), s("now")]);
    assert_eq!(
        nodes::render(&ns),
        vec![Line::Section(s("Cluster Nodes")), Line::Table(t), Line::Blank, Line::Info(s("1 node(s)"))]
    );
    assert_eq!(
        nodes::render(&vec![]),
        vec![Line::Section(s("Cluster Nodes")), Line::Info(s("no nodes found"))]
    );
}

#[test]
fn snapshot_lines() {
    let snap = snapshots::Snapshot {
        id: s("1111111122"),
        volume_id: s("3333333344"),
        name: s("nightly"),
        status: s("available"),
        created_at: s("2024"),
    };
    let mut t = Table::new(vec!["ID", "NAME", "VOLUME", "STATUS", "CREATED"]).with_color(Coloring::StatusColumn(3));
    t.add_row(vec![s("11111111"), s("nightly"), s("33333333"), s("available"), s("2024")]);
    assert_eq!(
        snapshots::render_list(&vec![snap]),
        vec![Line::Section(s("Snapshots")), Line::Table(t), Line::Blank, Line::Info(s("1 snapshot(s)"))]
    );
    assert_eq!(
        snapshots::render_list(&vec![]),
        vec![Line::Section(s("Snapshots")), Line::Info(s("no snapshots found"))]
    );
    let snap = snapshots::Snapshot {
        id: s("1"),
        volume_id: s("2"),
        name: s("n"),
        status: s("creating"),
        created_at: s("t"),
    };
    assert_eq!(
        snapshots::render_created(&snap),
        vec![
            Line::Section(s("Snapshot Created")),
            Line::Kv(s("ID"), s("1")),
            Line::Kv(s("Name"), s("n")),
            Line::Kv(s("Volume"), s("2")),
            Line::Kv(s("Status"), s("creating")),
            Line::Kv(s("Created"), s("t")),
            Line::Blank,
            Line::Success(s("snapshot created")),
        ]
    );
}
