use csf::display::{Color, Coloring, Line, Table};
use csf::events::list as events;
use csf::request::{ApiRequest, Body, Method, Value};
use csf::workloads::{create, get, list};

fn s(x: &str) -> String {
    x.to_string()
}

#[test]
fn event_request_and_lines() {
    assert_eq!(
        events::request(),
        ApiRequest { method: Method::Get, path: s("/events"), body: Body::Empty, spinner: Some(s("fetching events...")) }
    );
    let es = vec![
        events::FailoverEvent {
            id: s("eeeeeeee-1"),
            agent_id: Some(s("aaaaaaaa-2")),
            event_type: s("failed"),
            affected_workloads: Some(vec![s("w1"), s("w2")]),
            duration_ms: Some(1500),
            created_at: s("2024-05-06T07:08:09Z"),
        },
        events::FailoverEvent {
            id: s("ffffffff"),
            agent_id: None,
            event_type: s("recovered"),
            affected_workloads: None,
            duration_ms: None,
            created_at: s("2024"),
        },
    ];
    let mut t = Table::new(vec!["ID", "TYPE", "AGENT", "WORKLOADS", "DURATION", "CREATED"])
        .with_color(Coloring::StatusColumn(1));
    t.add_row(vec![s("eeeeeeee"), s("failed"), s("aaaaaaaa"), s("2"), s("1500ms"), s("2024-05-06T07:08")]);
    t.add_row(vec![s("ffffffff"), s("recovered"), s("-"), s("-"), s("-"), s("2024")]);
    assert_eq!(
        events::render(&es),
        vec![Line::Section(s("Events")), Line::Table(t), Line::Blank, Line::Info(s("2 event(s)"))]
    );
    assert_eq!(events::render(&vec![]), vec![Line::Section(s("Events")), Line::Info(s("no events"))]);
}

#[test]
fn workload_requests() {
    assert_eq!(
        list::request(),
        ApiRequest { method: Method::Get, path: s("/workloads"), body: Body::Empty, spinner: Some(s("fetching workloads...")) }
    );
    assert_eq!(
        get::request("w1"),
        ApiRequest { method: Method::Get, path: s("/workloads/w1"), body: Body::Empty, spinner: Some(s("fetching workload...")) }
    );
    assert_eq!(
        create::request("web", "nginx", 500, 268435456, 1073741824),
        ApiRequest {
            method: Method::Post,
            path: s("/workloads"),
            body: Body::Object(vec![
                (s("name"), Value::Str(s("web"))),
                (s("image"), Value::Str(s("nginx"))),
                (s("cpu_millicores"), Value::Int(500)),
                (s("memory_bytes"), Value::Int(268435456)),
                (s("disk_bytes"), Value::Int(1073741824)),
            ]),
            spinner: Some(s("scheduling workload...")),
        }
    );
}

#[test]
fn workload_create_lines() {
    let r = create::CreateResponse {
        workload_id: s("w1"),
        status: s("pending"),
        assigned_agent_id: None,
        message: s("queued"),
    };
    assert_eq!(
        create::render(&r),
        vec![
            Line::Section(s("Workloads  /  Create")),
            Line::Kv(s("Workload ID"), s("w1")),
            Line::KvStyled(s("Status"), s("pending"), Some(Color::White)),
            Line::Kv(s("Assigned Agent"), s("none (pending)")),
            Line::Kv(s("Message"), s("queued")),
            Line::Blank,
            Line::Warn(s("no suitable agent available, workload is pending")),
        ]
    );
    let r = create::CreateResponse { assigned_agent_id: Some(s("a1")), status: s("active"), ..r };
    let lines = create::render(&r);
    assert_eq!(lines[3], Line::Kv(s("Assigned Agent"), s("a1")));
    assert_eq!(lines[6], Line::Success(s("workload scheduled")));
}

#[test]
fn workload_detail_lines() {
    let w = get::Workload {
        id: s("w1"),
        name: s("web"),
        image: s("nginx"),
        cpu_millicores: 250,
        memory_bytes: 3 * 1024 * 1024 + 5,
        disk_bytes: -(2 * 1024 * 1024 * 1024 + 1),
        status: s("active"),
        assigned_agent_id: Some(s("a1")),
        container_id: None,
        created_at: s("2024-05-06T07:08:09Z"),
        updated_at: Some(s("2024-05-07T00:00:00Z")),
    };
    assert_eq!(
        get::render(&w),
        vec![
            Line::Section(s("Workloads  /  Get")),
            Line::Kv(s("ID"), s("w1")),
            Line::Kv(s("Name"), s("web")),
            Line::Kv(s("Image"), s("nginx")),
            Line::KvStyled(s("Status"), s("active"), Some(Color::Green)),
            Line::Kv(s("CPU"), s("250 millicores")),
            Line::Kv(s("Memory"), s("3 MB")),
            Line::Kv(s("Disk"), s("-2 GB")),
            Line::Kv(s("Agent"), s("a1")),
            Line::Kv(s("Container"), s("-")),
            Line::Kv(s("Created"), s("2024-05-06T07:08")),
            Line::Kv(s("Updated"), s("2024-05-07T00:00")),
            Line::Blank,
        ]
    );
}

#[test]
fn workload_list_lines() {
    let ws = vec![list::Workload {
        id: s("wwwwwwww-1"),
        name: s("web"),
        image: s("nginx"),
        cpu_millicores: 100,
        memory_bytes: -(5 * 1024 * 1024 + 1),
        status: s("failed"),
        assigned_agent_id: Some(s("aaaaaaaa-2")),
        container_id: Some(s("0123456789abcdef")),
    }];
    let mut t = Table::new(vec!["ID", "NAME", "IMAGE", "CPU(m)", "MEM(MB)", "STATUS", "AGENT", "CONTAINER"])
        .with_color(Coloring::StatusColumn(5));
    t.add_row(vec![s("wwwwwwww"), s("web"), s("nginx"), s("100"), s("-5"), s("failed"), s("aaaaaaaa"), s("0123456789ab")]);
    assert_eq!(
        list::render(&ws),
        vec![Line::Section(s("Workloads")), Line::Table(t), Line::Blank, Line::Info(s("1 workload(s)"))]
    );
    assert_eq!(list::render(&vec![]), vec![Line::Section(s("Workloads")), Line::Info(s("no workloads"))]);
}
