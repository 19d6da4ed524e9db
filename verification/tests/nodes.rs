use csf::display::{Color, Gauge, Line};
use csf::nodes::metrics::format_uptime;
use csf::nodes::{agent_metrics, get, metrics};
use csf::request::{ApiRequest, Body, Method};

fn s(x: &str) -> String {
    x.to_string()
}

#[test]
fn node_requests() {
    let r = |path: &str, spinner: &str| ApiRequest {
        method: Method::Get,
        path: s(path),
        body: Body::Empty,
        spinner: Some(s(spinner)),
    };
    assert_eq!(get::request("a1"), r("/agents/a1", "fetching node..."));
    assert_eq!(metrics::request(), r("/system/metrics", "fetching system metrics..."));
    assert_eq!(agent_metrics::request("a1"), r("/agents/a1/metrics", "fetching agent metrics..."));
}

#[test]
fn uptime_examples() {
    assert_eq!(format_uptime(59), "0d 0h 0m");
    assert_eq!(format_uptime(60), "0d 0h 1m");
    assert_eq!(format_uptime(3600), "0d 1h 0m");
    assert_eq!(format_uptime(86400), "1d 0h 0m");
    assert_eq!(format_uptime(1_000_000), "11d 13h 46m");
    assert_eq!(format_uptime(u64::MAX), "213503982334601d 7h 0m");
}

#[test]
fn uptime_components_rebuild_the_uptime() {
    for secs in [0u64, 59, 61, 3599, 3661, 86399, 90061, 1_234_567] {
        let text = format_uptime(secs);
        let parts: Vec<u64> = text
            .split(' ')
            .map(|p| p[..p.len() - 1].parse().unwrap())
            .collect();
        assert!(parts[1] < 24 && parts[2] < 60);
        assert_eq!(parts[0] * 86400 + parts[1] * 3600 + parts[2] * 60 + secs % 60, secs);
    }
}

#[test]
fn agent_detail_lines() {
    let a = get::Agent {
        id: s("a1"),
        name: s("node-1"),
        hostname: s("host1"),
        ip_address: None,
        os_type: s("linux"),
        os_version: s("6.1"),
        architecture: s("x86_64"),
        agent_version: s("1.0"),
        status: s("online"),
        last_heartbeat: Some(s("2024-05-06T07:08:09Z")),
        registered_at: s("2024-01-01"),
    };
    assert_eq!(
        get::render(&a),
        vec![
            Line::Section(s("Nodes  /  Get")),
            Line::Kv(s("ID"), s("a1")),
            Line::Kv(s("Name"), s("node-1")),
            Line::Kv(s("Hostname"), s("host1")),
            Line::Kv(s("IP"), s("-")),
            Line::Kv(s("OS"), s("linux 6.1")),
            Line::Kv(s("Architecture"), s("x86_64")),
            Line::Kv(s("Agent Version"), s("1.0")),
            Line::KvStyled(s("Status"), s("online"), Some(Color::Green)),
            Line::Kv(s("Last Heartbeat"), s("2024-05-06T07:08")),
            Line::Kv(s("Registered"), s("2024-01-01")),
            Line::Blank,
        ]
    );
    let b = get::Agent { last_heartbeat: None, ..a };
    assert_eq!(get::render(&b)[9], Line::Kv(s("Last Heartbeat"), s("never")));
}

fn empty_metrics() -> metrics::Metrics {
    metrics::Metrics {
        hostname: None,
        os_name: None,
        os_version: None,
        kernel_version: None,
        uptime_seconds: None,
        cpu_model: None,
        cpu_cores: None,
        cpu_threads: None,
        cpu_usage_reported: false,
        memory_total_bytes: None,
        memory_used_bytes: None,
        memory_usage_reported: false,
        disk_total_bytes: None,
        disk_used_bytes: None,
        disk_usage_reported: false,
        network_rx_bytes: None,
        network_tx_bytes: None,
    }
}

#[test]
fn system_metrics_lines() {
    assert_eq!(
        metrics::render(&empty_metrics()),
        vec![Line::Section(s("System Metrics")), Line::Blank, Line::Blank, Line::Blank, Line::Blank, Line::Blank]
    );
    let m = metrics::Metrics {
        hostname: Some(s("cp")),
        os_name: Some(s("NixOS")),
        os_version: None,
        kernel_version: Some(s("6.6")),
        uptime_seconds: Some(90061),
        cpu_model: Some(s("EPYC")),
        cpu_cores: Some(8),
        cpu_threads: Some(16),
        cpu_usage_reported: true,
        memory_total_bytes: Some(2048),
        memory_used_bytes: Some(1024),
        memory_usage_reported: true,
        disk_total_bytes: Some(10),
        disk_used_bytes: None,
        disk_usage_reported: false,
        network_rx_bytes: Some(1),
        network_tx_bytes: Some(2),
    };
    assert_eq!(
        metrics::render(&m),
        vec![
            Line::Section(s("System Metrics")),
            Line::Kv(s("Hostname"), s("cp")),
            Line::Kv(s("OS"), s("NixOS ")),
            Line::Kv(s("Kernel"), s("6.6")),
            Line::Kv(s("Uptime"), s("1d 1h 1m")),
            Line::Blank,
            Line::Kv(s("CPU Model"), s("EPYC")),
            Line::Kv(s("CPU"), s("8 cores / 16 threads")),
            Line::Gauge(s("CPU Usage"), Gauge::CpuPercent),
            Line::Blank,
            Line::Gigabytes(s("Memory"), 1024, 2048),
            Line::Gauge(s("Memory Usage"), Gauge::MemoryPercent),
            Line::Blank,
            Line::Blank,
            Line::Megabytes(s("Network RX"), 1),
            Line::Megabytes(s("Network TX"), 2),
            Line::Blank,
        ]
    );
}

#[test]
fn agent_metrics_lines() {
    let m = agent_metrics::AgentMetrics {
        cpu_usage_reported: true,
        memory_total_bytes: Some(100),
        memory_used_bytes: Some(50),
        disk_total_bytes: None,
        disk_used_bytes: Some(1),
        network_rx_bytes: None,
        network_tx_bytes: Some(3),
        timestamp: Some(s("2024-05-06T07:08:09Z")),
    };
    assert_eq!(
        agent_metrics::render(&m),
        vec![
            Line::Section(s("Nodes  /  Agent Metrics")),
            Line::Kv(s("Timestamp"), s("2024-05-06T07:08")),
            Line::Blank,
            Line::Gauge(s("CPU Usage"), Gauge::CpuPercent),
            Line::Blank,
            Line::Gigabytes(s("Memory"), 50, 100),
            Line::Gauge(s("Memory Usage"), Gauge::Ratio { used: 50, total: 100 }),
            Line::Blank,
            Line::Blank,
            Line::Blank,
        ]
    );
}
